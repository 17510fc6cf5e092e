use vstd::prelude::*;

verus! {

/// Relies on chrono's `Utc::now`: the current wall-clock time, reduced to
/// milliseconds since the Unix epoch.  Nothing is promised of the value: the
/// clock may report anything, and callers state what holds of every outcome.
#[verifier::external_body]
fn now_unix_ms() -> i64 {
    chrono::Utc::now().timestamp_millis()
}

/// The exit status of a started instance: the code reported by the OS and
/// the time it was observed, in milliseconds since the Unix epoch.
pub struct ExitStatus {
    pub code: u32,
    pub at_ms: i64,
}

/// What one blocking reap of the started process reported.  The blocking call
/// itself happens outside the library; the watcher logic only maps its
/// outcome to an exit code.
pub enum ReapEvent {
    /// The process exited normally with this code.
    Exited(u32),
    /// The process was terminated by this signal; by OS convention the
    /// signal number itself is reported as the status.
    Signaled(u32),
    /// The reap returned some other status change.
    OtherChange,
    /// The OS reported no such child: someone else already reaped the
    /// process.  Treated as a clean exit.
    NoChild,
    /// Any other reap failure: a programming invariant was violated and the
    /// watcher must abort without recording anything.
    Failed,
}

/// The exit code a reap event stands for, or `None` where the watcher must
/// abort.
pub open spec fn spec_reap_code(ev: ReapEvent) -> Option<u32> {
    match ev {
        ReapEvent::Exited(code) => Some(code),
        ReapEvent::Signaled(signal) => Some(signal),
        ReapEvent::OtherChange => Some(0u32),
        ReapEvent::NoChild => Some(0u32),
        ReapEvent::Failed => None,
    }
}

/// The shared cell that carries an instance's exit status from the exit
/// watcher to any number of waiters.  It starts unset and is written exactly
/// once; the synchronization that shares it across threads is layered on
/// outside the library.
pub struct ExitSlot {
    value: Option<ExitStatus>,
}

impl View for ExitSlot {
    type V = Option<ExitStatus>;

    closed spec fn view(&self) -> Option<ExitStatus> {
        self.value
    }
}

/// A write to the slot is allowed only while no exit has been recorded:
/// the cell transitions `None -> Some` exactly once per instance lifetime.
pub open spec fn record_allowed(s: ExitSlot) -> bool {
    s@ is None
}

impl ExitSlot {
    /// A fresh, unset slot, as construction of an instance initializes it.
    pub fn empty() -> (s: ExitSlot)
        ensures
            s@ is None,
    {
        ExitSlot { value: None }
    }

    /// Whether an exit status has been recorded yet.
    pub fn is_set(&self) -> (b: bool)
        ensures
            b == (self@ is Some),
    {
        self.value.is_some()
    }

    /// The recorded `(code, timestamp)` pair, if any.  Every read of a set
    /// slot observes the one recorded pair.
    pub fn get(&self) -> (r: Option<(u32, i64)>)
        ensures
            self@ is None ==> r is None,
            self@ matches Some(e) ==> r == Some((e.code, e.at_ms)),
    {
        match &self.value {
            None => None,
            Some(e) => Some((e.code, e.at_ms)),
        }
    }

    /// Records the exit status.  Only the exit watcher calls this, and only
    /// once: no instance is started twice, so no second write ever races the
    /// first.
    pub fn record(&mut self, code: u32, at_ms: i64)
        requires
            record_allowed(*old(self)),
        ensures
            final(self)@ == Some(ExitStatus { code, at_ms }),
    {
        self.value = Some(ExitStatus { code, at_ms });
    }

    /// The whole step the exit watcher performs once the blocking reap has
    /// returned: map the reap event to an exit code and record it together
    /// with the observation time.  Returns whether a status was recorded;
    /// on a reap failure nothing is recorded and the watcher aborts.
    pub fn record_reap(&mut self, ev: ReapEvent, at_ms: i64) -> (recorded: bool)
        requires
            record_allowed(*old(self)),
        ensures
            recorded == (spec_reap_code(ev) is Some),
            spec_reap_code(ev) matches Some(code) ==> final(self)@ == Some(
                ExitStatus { code, at_ms },
            ),
            spec_reap_code(ev) is None ==> final(self)@ == old(self)@,
    {
        let code: u32 = match ev {
            ReapEvent::Exited(code) => code,
            ReapEvent::Signaled(signal) => signal,
            ReapEvent::OtherChange => 0,
            ReapEvent::NoChild => 0,
            ReapEvent::Failed => {
                return false;
            },
        };
        self.record(code, at_ms);
        true
    }

    /// As `record_reap`, with the observation time taken from the wall
    /// clock at the moment of recording.  The clock's value is arbitrary;
    /// the exit code recorded beside it is pinned by the reap event alone.
    pub fn record_reap_now(&mut self, ev: ReapEvent) -> (recorded: bool)
        requires
            record_allowed(*old(self)),
        ensures
            recorded == (spec_reap_code(ev) is Some),
            spec_reap_code(ev) matches Some(code) ==> (final(self)@ matches Some(e) && e.code
                == code),
            spec_reap_code(ev) is None ==> final(self)@ == old(self)@,
    {
        let at_ms = now_unix_ms();
        self.record_reap(ev, at_ms)
    }
}

/// Once an exit status has been recorded, the slot is final: no further
/// write is permitted, so every waiter, whether it registered before or
/// after the process terminated, observes the same `(code, timestamp)` pair.
pub proof fn lemma_exit_recorded_once(s: ExitSlot, e: ExitStatus)
    requires
        s@ == Some(e),
    ensures
        !record_allowed(s),
{
}

} // verus!
