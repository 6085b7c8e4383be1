use std::time::{Duration, SystemTime};
use vstd::prelude::*;
use vstd::std_specs::cmp::PartialEqSpec;

verus! {

#[verifier::external_type_specification]
#[verifier::external_body]
pub struct ExSystemTime(SystemTime);

/// Relies on `SystemTime::now`: the system clock's current reading.
#[verifier::external_body]
fn system_now() -> (r: SystemTime) {
    SystemTime::now()
}

/// Relies on `SystemTime::duration_since`: the time from the Unix epoch to `t`;
/// `None` where `t` is earlier than the epoch.
#[verifier::external_body]
fn since_epoch(t: &SystemTime) -> (r: Option<Duration>) {
    t.duration_since(SystemTime::UNIX_EPOCH).ok()
}

/// Relies on `Duration::as_secs`: the whole seconds of `d`.
#[verifier::external_body]
fn whole_secs(d: &Duration) -> (r: u64) {
    d.as_secs()
}

/// How serious a log entry is.
#[derive(Clone, Copy, Debug, PartialEq, Eq, Structural)]
pub enum LogCategory {
    INFO,
    DEBUG,
    WARN,
    ERROR,
}

/// One message sent to the listeners of a log.
#[derive(Debug)]
pub struct LogEntry {
    pub module: String,
    pub msg: String,
    pub timestamp: u64,
    pub category: LogCategory,
}

/// The listeners `kept` after taking out those equal to `f`, in order.
pub open spec fn kept<L: PartialEq>(listeners: Seq<L>, f: L) -> Seq<L>
    decreases listeners.len(),
{
    if listeners.len() == 0 {
        listeners
    } else {
        let rest = kept(listeners.drop_last(), f);
        if listeners.last().eq_spec(&f) {
            rest
        } else {
            rest.push(listeners.last())
        }
    }
}

/// A module that hands each log entry to every registered listener, in the order
/// of registration.
#[derive(Debug)]
pub struct Log<L> {
    listeners: Vec<L>,
}

impl<L: Fn(&LogEntry)> Log<L> {
    /// The registered listeners, in order.
    pub closed spec fn listeners(&self) -> Seq<L> {
        self.listeners@
    }

    /// Every listener takes every entry.
    pub open spec fn accepts_all(&self) -> bool {
        forall|i: int, e: &LogEntry|
            0 <= i < self.listeners().len() ==> #[trigger] call_requires(
                self.listeners()[i],
                (e,),
            )
    }

    /// A log with no listener.
    pub fn new() -> (r: Self)
        ensures
            r.listeners() == Seq::<L>::empty(),
    {
        Log { listeners: Vec::new() }
    }

    /// Hands `log` to every listener, in order.
    pub fn notify_listeners(&self, log: &LogEntry)
        requires
            self.accepts_all(),
    {
        let mut i: usize = 0;
        while i < self.listeners.len()
            invariant
                0 <= i <= self.listeners@.len(),
                self.accepts_all(),
            decreases self.listeners@.len() - i,
        {
            let listener = &self.listeners[i];
            assert(call_requires(self.listeners()[i as int], (log,)));
            listener(log);
            i = i + 1;
        }
    }

    /// How many listeners are registered.
    pub fn listener_count(&self) -> (r: usize)
        ensures
            r == self.listeners().len(),
    {
        self.listeners.len()
    }

    /// Adds `func` after the listeners already registered.
    pub fn register_listener(&mut self, func: L)
        ensures
            final(self).listeners() == old(self).listeners().push(func),
    {
        self.listeners.push(func);
    }

    /// An entry of category `INFO`.
    pub fn info_entry(module: String, message: String, timestamp: u64) -> (r: LogEntry)
        ensures
            r.module == module,
            r.msg == message,
            r.timestamp == timestamp,
            r.category == LogCategory::INFO,
    {
        LogEntry { module, msg: message, timestamp, category: LogCategory::INFO }
    }

    /// Sends listeners an `INFO` entry with `message`, the name of the module it
    /// is about and the system clock's reading in seconds since the Unix epoch.
    /// Where the clock reads earlier than the epoch, nothing is sent and the
    /// result is `false`.
    pub fn info(&self, module: String, message: String) -> (r: bool)
        requires
            self.accepts_all(),
    {
        let now = system_now();
        match since_epoch(&now) {
            Some(d) => {
                let entry = Self::info_entry(module, message, whole_secs(&d));
                self.notify_listeners(&entry);
                true
            },
            None => false,
        }
    }
}

impl<L: Fn(&LogEntry) + PartialEq + Copy> Log<L> {
    /// Takes out every listener equal to `func`, keeping the others in order.
    pub fn deregister_listener(&mut self, func: L)
        ensures
            L::obeys_eq_spec() ==> final(self).listeners() == kept(old(self).listeners(), func),
    {
        let mut rest: Vec<L> = Vec::new();
        let old_listeners = &self.listeners;
        let mut i: usize = 0;
        while i < old_listeners.len()
            invariant
                0 <= i <= old_listeners@.len(),
                old_listeners@ == old(self).listeners@,
                self.listeners@ == old(self).listeners@,
                L::obeys_eq_spec() ==> rest@ == kept(old_listeners@.take(i as int), func),
            decreases old_listeners@.len() - i,
        {
            proof {
                assert(old_listeners@.take(i + 1).drop_last() =~= old_listeners@.take(i as int));
            }
            if old_listeners[i] != func {
                rest.push(old_listeners[i]);
            }
            i = i + 1;
        }
        proof {
            assert(old_listeners@.take(old_listeners@.len() as int) =~= old_listeners@);
        }
        self.listeners = rest;
    }
}

} // verus!
