//! Structured event routing and forwarding.
//!
//! This crate routes diagnostic events raised inside a process to at most one
//! externally supplied consumer.  Structured events carry a severity, an
//! origin string (`target`), a name and typed attributes; they are filtered
//! against per-target severity thresholds held in a registry and, on a pass,
//! normalised into a canonical [`Event`](event::Event) and handed to the
//! registered [`EventSink`](router::EventSink).  Unstructured facade records
//! are filtered against a single global maximum level and handed to the
//! installed [`AppServicesLogger`](router::AppServicesLogger).

pub mod assoc;
pub mod error;
pub mod event;
pub mod fields;
pub mod level;
pub mod metrics;
pub mod router;

pub use level::Level;
