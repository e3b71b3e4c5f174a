//! The routing core: per-target registry of event sinks, the dispatch path
//! for structured events, and the facade bridge that forwards simple records
//! to a single installed logger.

use vstd::prelude::*;
use std::sync::Arc;

use crate::assoc::{
    assoc_get, assoc_insert, assoc_remove, find_key, has_key, lemma_assoc_insert,
    lemma_assoc_remove, lemma_find_key_absent, lemma_find_key_is_first, lemma_find_key_props,
    unique_keys,
};
use crate::event::{attr_views, extract_fields, spec_extract, Attr, Event};
use crate::level::Level;

verus! {

/// A consumer of canonical structured events, implemented by the host
/// application.  It is invoked synchronously on the emitting thread, zero or
/// more times over the lifetime of its registration.
pub trait EventSink {
    fn on_event(&self, event: Event);
}

/// A consumer of simple facade records, implemented by the host
/// application.  Same contract as [`EventSink`], simpler payload.
pub trait AppServicesLogger {
    fn log(&self, record: Record);
}

/// The simple record shape produced by the facade bridge: no structured
/// fields, no event name.
#[derive(Debug, Clone)]
pub struct Record {
    pub level: Level,
    pub target: String,
    pub message: String,
}

impl Record {
    /// Converts a canonical event into a facade record, dropping the event's
    /// name and fields.
    pub fn from_event(event: Event) -> (r: Record)
        ensures
            r.level == event.level,
            r.target == event.target,
            r.message == event.message,
    {
        Record { level: event.level, target: event.target, message: event.message }
    }
}

impl PartialEq for Record {
    fn eq(&self, other: &Record) -> (r: bool) {
        self.level == other.level && self.target == other.target && self.message
            == other.message
    }
}

impl vstd::std_specs::cmp::PartialEqSpecImpl for Record {
    open spec fn obeys_eq_spec() -> bool {
        true
    }

    open spec fn eq_spec(&self, other: &Record) -> bool {
        self.level == other.level && self.target@ == other.target@ && self.message@
            == other.message@
    }
}

/// Where the events of a registered target go: to an externally supplied
/// sink, or through the coupling bridge to whatever logger is currently
/// installed.
pub enum SinkHandle<S> {
    External(Arc<S>),
    Forwarder,
}

/// What the registry holds for one target: the severity threshold and the
/// sink that events passing it are handed to.
pub struct RegistryEntry<S> {
    pub threshold: Level,
    pub sink: SinkHandle<S>,
}

/// The abstract state of a [`Router`], used in specifications.
pub struct RouterModel<S, L> {
    /// The registry: target, threshold and sink, at most one entry per
    /// target.
    pub registry: Seq<(Seq<char>, RegistryEntry<S>)>,
    /// The installed logger, if any.
    pub logger: Option<Arc<L>>,
    /// The facade's maximum-level filter.
    pub max_level: Level,
    /// Whether the maximum level was ever set through `set_max_level`.
    pub level_set: bool,
}

/// The registry entry installed for each coupled target when a logger is
/// set: everything passes the threshold and is bridged to the logger.
pub open spec fn forwarder_entry<S>() -> RegistryEntry<S> {
    RegistryEntry { threshold: Level::Trace, sink: SinkHandle::Forwarder }
}

/// Effect of registering `entry` under `target`.
pub open spec fn spec_register<S, L>(
    m: RouterModel<S, L>,
    target: Seq<char>,
    entry: RegistryEntry<S>,
) -> RouterModel<S, L> {
    RouterModel { registry: assoc_insert(m.registry, target, entry), ..m }
}

/// Effect of unregistering `target`.
pub open spec fn spec_unregister<S, L>(m: RouterModel<S, L>, target: Seq<char>) -> RouterModel<
    S,
    L,
> {
    RouterModel { registry: assoc_remove(m.registry, target), ..m }
}

/// Effect of setting the facade's maximum level.
pub open spec fn spec_set_max_level<S, L>(m: RouterModel<S, L>, level: Level) -> RouterModel<
    S,
    L,
> {
    RouterModel { max_level: level, level_set: true, ..m }
}

/// Effect of installing `logger`: the previous logger is replaced, the
/// maximum level defaults to `Debug` unless one was explicitly set, and each
/// coupled target is registered with a bridging entry.
pub open spec fn spec_set_logger<S, L>(
    m: RouterModel<S, L>,
    logger: Option<Arc<L>>,
) -> RouterModel<S, L> {
    RouterModel {
        registry: assoc_insert(
            assoc_insert(m.registry, "autofill"@, forwarder_entry()),
            "tabs"@,
            forwarder_entry(),
        ),
        logger,
        max_level: if m.level_set {
            m.max_level
        } else {
            Level::Debug
        },
        level_set: true,
    }
}

/// Whether a structured event at `target` with severity `level` is
/// dispatched: true exactly when the target is registered and the level
/// passes the entry's threshold.
pub open spec fn spec_should_dispatch<S>(
    reg: Seq<(Seq<char>, RegistryEntry<S>)>,
    target: Seq<char>,
    level: Level,
) -> bool {
    match assoc_get(reg, target) {
        Some(e) => level.spec_passes(e.threshold),
        None => false,
    }
}

/// Whether a facade record at `level` is delivered: true exactly when a
/// logger is installed and the level passes the maximum-level filter.
pub open spec fn spec_delivers_record<S, L>(m: RouterModel<S, L>, level: Level) -> bool {
    m.logger is Some && level.spec_passes(m.max_level)
}

/// The marker type for the hook that a host's instrumentation framework
/// installs; every structured event it observes is handed to
/// [`Router::on_event`].
pub struct SimpleEventLayer;

/// Relies on `log::set_max_level`: stores the corresponding filter in the
/// `log` crate's process-wide maximum-level state.  It computes nothing and
/// returns nothing.
#[verifier::external_body]
fn facade_set_max_level(level: &Level) {
    log::set_max_level(
        match level {
            Level::Error => log::LevelFilter::Error,
            Level::Warn => log::LevelFilter::Warn,
            Level::Info => log::LevelFilter::Info,
            Level::Debug => log::LevelFilter::Debug,
            Level::Trace => log::LevelFilter::Trace,
        },
    );
}

/// The event routing and forwarding state: the per-target registry, the
/// installed logger and the facade's maximum-level filter.
///
/// One router serves a whole process; hosts that need to share it across
/// threads put it behind a lock of their choosing.
pub struct Router<S, L> {
    entries: Vec<(String, RegistryEntry<S>)>,
    logger: Option<Arc<L>>,
    max_level: Level,
    have_set_max_level: bool,
}

impl<S: EventSink, L: AppServicesLogger> Router<S, L> {
    /// The abstract state of the router.
    pub closed spec fn model(&self) -> RouterModel<S, L> {
        RouterModel {
            registry: self.entries@.map_values(|p: (String, RegistryEntry<S>)| (p.0@, p.1)),
            logger: self.logger,
            max_level: self.max_level,
            level_set: self.have_set_max_level,
        }
    }

    /// At most one registry entry per target.
    pub open spec fn wf(&self) -> bool {
        unique_keys(self.model().registry)
    }

    /// A fresh router: nothing registered, no logger installed, no maximum
    /// level chosen yet (records pass only the most severe level until one
    /// is).
    pub fn new() -> (r: Router<S, L>)
        ensures
            r.wf(),
            r.model() == (RouterModel {
                registry: Seq::<(Seq<char>, RegistryEntry<S>)>::empty(),
                logger: None::<Arc<L>>,
                max_level: Level::Error,
                level_set: false,
            }),
    {
        let r = Router {
            entries: Vec::new(),
            logger: None,
            max_level: Level::Error,
            have_set_max_level: false,
        };
        proof {
            assert(r.model().registry =~= Seq::<(Seq<char>, RegistryEntry<S>)>::empty());
        }
        r
    }

    /// Index of the registry entry for `key`, if any.
    fn find_index(&self, key: &String) -> (r: Option<usize>)
        ensures
            match r {
                Some(i) => find_key(self.model().registry, key@) == i as int && i
                    < self.model().registry.len(),
                None => find_key(self.model().registry, key@) == -1,
            },
    {
        let n = self.entries.len();
        for i in 0..n
            invariant
                n == self.entries.len(),
                forall|j: int| 0 <= j < i ==> self.model().registry[j].0 != key@,
        {
            if self.entries[i].0 == *key {
                proof {
                    lemma_find_key_is_first(self.model().registry, key@, i as int);
                }
                return Some(i);
            }
        }
        proof {
            lemma_find_key_absent(self.model().registry, key@);
        }
        None
    }

    /// Installs or replaces the registry entry for `target`.
    fn insert_entry(&mut self, target: &str, entry: RegistryEntry<S>)
        requires
            old(self).wf(),
        ensures
            final(self).wf(),
            final(self).model() == spec_register(old(self).model(), target@, entry),
    {
        proof {
            lemma_assoc_insert(self.model().registry, target@, entry);
        }
        let key = target.to_owned();
        match self.find_index(&key) {
            Some(i) => {
                self.entries[i] = (key, entry);
                proof {
                    assert(self.model().registry =~= assoc_insert(
                        old(self).model().registry,
                        target@,
                        entry,
                    ));
                }
            },
            None => {
                self.entries.push((key, entry));
                proof {
                    assert(self.model().registry =~= assoc_insert(
                        old(self).model().registry,
                        target@,
                        entry,
                    ));
                }
            },
        }
    }

    /// Installs or replaces the sink for `target`: events at `target` whose
    /// severity passes `level` will be handed to `sink`.  Always succeeds;
    /// last writer wins.
    pub fn register_event_sink(&mut self, target: &str, level: Level, sink: Arc<S>)
        requires
            old(self).wf(),
        ensures
            final(self).wf(),
            final(self).model() == spec_register(
                old(self).model(),
                target@,
                RegistryEntry { threshold: level, sink: SinkHandle::External(sink) },
            ),
    {
        self.insert_entry(target, RegistryEntry { threshold: level, sink: SinkHandle::External(sink) });
    }

    /// Removes the registry entry for `target`; doing so for an absent
    /// target is a no-op, not an error.
    pub fn unregister_event_sink(&mut self, target: &str)
        requires
            old(self).wf(),
        ensures
            final(self).wf(),
            final(self).model() == spec_unregister(old(self).model(), target@),
    {
        proof {
            lemma_assoc_remove(self.model().registry, target@);
        }
        let key = target.to_owned();
        match self.find_index(&key) {
            Some(i) => {
                self.entries.remove(i);
                proof {
                    assert(self.model().registry =~= assoc_remove(
                        old(self).model().registry,
                        target@,
                    ));
                }
            },
            None => {
                proof {
                    assert(self.model().registry =~= assoc_remove(
                        old(self).model().registry,
                        target@,
                    ));
                }
            },
        }
    }

    /// The registry entry for `target`, if one is registered.
    pub fn lookup(&self, target: &str) -> (r: Option<&RegistryEntry<S>>)
        ensures
            match r {
                Some(e) => assoc_get(self.model().registry, target@) == Some(*e),
                None => assoc_get(self.model().registry, target@) is None,
            },
    {
        let key = target.to_owned();
        match self.find_index(&key) {
            Some(i) => {
                proof {
                    lemma_find_key_props(self.model().registry, key@);
                }
                Some(&self.entries[i].1)
            },
            None => None,
        }
    }

    /// The compute part of dispatch: decides whether the event passes and,
    /// if so, builds the canonical event, running the field extractor over
    /// the attributes.
    pub fn build_event(&self, target: &str, level: Level, name: &str, attrs: &Vec<Attr>) -> (r:
        Option<Event>)
        requires
            self.wf(),
        ensures
            match r {
                Some(ev) => {
                    &&& spec_should_dispatch(self.model().registry, target@, level)
                    &&& ev.level == level
                    &&& ev.target@ == target@
                    &&& ev.name@ == name@
                    &&& (ev.message@, ev.fields@) == spec_extract(attr_views(attrs@))
                    &&& ev.fields.wf()
                },
                None => !spec_should_dispatch(self.model().registry, target@, level),
            },
    {
        match self.lookup(target) {
            None => None,
            Some(entry) => {
                if level.passes(entry.threshold) {
                    let (message, fields) = extract_fields(attrs);
                    Some(
                        Event {
                            level,
                            target: target.to_owned(),
                            name: name.to_owned(),
                            message,
                            fields,
                        },
                    )
                } else {
                    None
                }
            },
        }
    }

    /// The per-event dispatch hook.  Returns whether the event passed the
    /// filter and was dispatched: true exactly when `target` is registered
    /// and `level` passes its threshold.  On a pass, an externally
    /// registered sink receives the canonical event; a bridging entry
    /// converts it to a record for the installed logger, and drops it
    /// silently when no logger is installed.
    pub fn on_event(&self, target: &str, level: Level, name: &str, attrs: &Vec<Attr>) -> (dispatched:
        bool)
        requires
            self.wf(),
        ensures
            dispatched == spec_should_dispatch(self.model().registry, target@, level),
    {
        match self.build_event(target, level, name, attrs) {
            None => false,
            Some(ev) => {
                if let Some(entry) = self.lookup(target) {
                    match &entry.sink {
                        SinkHandle::External(s) => s.on_event(ev),
                        SinkHandle::Forwarder => {
                            if let Some(l) = &self.logger {
                                l.log(Record::from_event(ev));
                            }
                        },
                    }
                }
                true
            },
        }
    }

    /// Sets the facade's maximum-level filter and marks it explicitly set,
    /// so that a later `set_logger` will not override it with the default.
    /// Also mirrors the level into the `log` crate's global filter.
    pub fn set_max_level(&mut self, level: Level)
        ensures
            final(self).model() == spec_set_max_level(old(self).model(), level),
    {
        facade_set_max_level(&level);
        self.max_level = level;
        self.have_set_max_level = true;
    }

    /// Installs `logger` as the sole consumer of facade records, replacing
    /// any previous logger; `None` disables forwarding.  If no maximum level
    /// was ever explicitly set, it defaults to `Debug`.  Each coupled target
    /// is (re-)registered with a bridging entry so that its structured
    /// events funnel into the same logger.
    pub fn set_logger(&mut self, logger: Option<Arc<L>>)
        requires
            old(self).wf(),
        ensures
            final(self).wf(),
            final(self).model() == spec_set_logger(old(self).model(), logger),
    {
        if !self.have_set_max_level {
            self.set_max_level(Level::Debug);
        }
        self.insert_entry("autofill", forwarder_registry_entry());
        self.insert_entry("tabs", forwarder_registry_entry());
        self.logger = logger;
    }

    /// The facade emission path: builds a record from `level`, `target` and
    /// `message` and delivers it to the installed logger.  Returns whether
    /// the record was delivered: true exactly when a logger is installed
    /// and `level` passes the maximum-level filter.
    pub fn emit_record(&self, level: Level, target: &str, message: &str) -> (delivered: bool)
        ensures
            delivered == spec_delivers_record(self.model(), level),
    {
        if level.passes(self.max_level) {
            match &self.logger {
                Some(l) => {
                    l.log(
                        Record { level, target: target.to_owned(), message: message.to_owned() },
                    );
                    true
                },
                None => false,
            }
        } else {
            false
        }
    }
}

/// The bridging entry installed for a coupled target.
fn forwarder_registry_entry<S>() -> (r: RegistryEntry<S>)
    ensures
        r == forwarder_entry::<S>(),
{
    RegistryEntry { threshold: Level::Trace, sink: SinkHandle::Forwarder }
}

/// A target with no registered entry never has a structured event
/// dispatched, whatever its level.
pub proof fn lemma_unregistered_target_is_silent<S>(
    reg: Seq<(Seq<char>, RegistryEntry<S>)>,
    target: Seq<char>,
    level: Level,
)
    requires
        !has_key(reg, target),
    ensures
        !spec_should_dispatch(reg, target, level),
{
}

/// For a registered target, a structured event is dispatched to its sink
/// exactly when the event's level is at least as severe as the entry's
/// threshold.
pub proof fn lemma_registered_dispatch_iff<S>(
    reg: Seq<(Seq<char>, RegistryEntry<S>)>,
    target: Seq<char>,
    level: Level,
    entry: RegistryEntry<S>,
)
    requires
        assoc_get(reg, target) == Some(entry),
    ensures
        spec_should_dispatch(reg, target, level) <==> level.spec_passes(entry.threshold),
{
}

/// Re-registering a target replaces its entry and never duplicates it:
/// after two registrations the registry still has unique keys, lookup
/// yields only the second entry, and every other target is untouched.
pub proof fn lemma_reregister_replaces<S, L>(
    m: RouterModel<S, L>,
    target: Seq<char>,
    e1: RegistryEntry<S>,
    e2: RegistryEntry<S>,
)
    requires
        unique_keys(m.registry),
    ensures
        unique_keys(spec_register(spec_register(m, target, e1), target, e2).registry),
        assoc_get(spec_register(spec_register(m, target, e1), target, e2).registry, target)
            == Some(e2),
        forall|t2: Seq<char>|
            t2 != target ==> assoc_get(
                spec_register(spec_register(m, target, e1), target, e2).registry,
                t2,
            ) == assoc_get(m.registry, t2),
{
    lemma_assoc_insert(m.registry, target, e1);
    lemma_assoc_insert(assoc_insert(m.registry, target, e1), target, e2);
}

/// An explicitly chosen maximum level survives a later logger
/// installation: the `Debug` default applied by `set_logger` takes effect
/// only when no level was ever explicitly set.
pub proof fn lemma_explicit_level_survives_install<S, L>(
    m: RouterModel<S, L>,
    level: Level,
    logger: Option<Arc<L>>,
)
    ensures
        spec_set_logger(spec_set_max_level(m, level), logger).max_level == level,
        spec_set_logger(spec_set_max_level(m, level), logger).level_set,
{
}

/// Installing no logger stops facade record delivery: after
/// `set_logger(None)` no record is delivered, at any level.
pub proof fn lemma_uninstall_logger_stops_records<S, L>(m: RouterModel<S, L>, level: Level)
    ensures
        !spec_delivers_record(spec_set_logger(m, Option::<Arc<L>>::None), level),
{
}

} // verus!
