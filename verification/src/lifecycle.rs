use vstd::prelude::*;
use vstd::string::StringExecFns;

use crate::errors::ShimError;
use crate::rootdir::{determine_rootdir, spec_resolved_root, OptionsOutcome};

verus! {

/// The forceful-termination signal: the only way to end a container that does
/// not cooperate.
pub const SIGKILL: u32 = 9;

/// The interrupt signal: the caller's mechanism for requesting graceful
/// termination.
pub const SIGINT: u32 = 2;

/// The status of the backing runtime's persisted container record.  The
/// controller never caches it: every kill or delete reloads it fresh.
pub enum RunState {
    Creating,
    Created,
    Running,
    Stopped,
}

/// The managed instance: its identity, bundle, resolved state directory and
/// stdio routing, all fixed at construction.  The shared exit cell that the
/// exit watcher fills lives beside it (see `crate::exit::ExitSlot`), wrapped
/// in the caller's synchronization.
pub struct Wasi {
    pub id: String,
    pub bundle: String,
    pub rootdir: String,
    pub stdin: String,
    pub stdout: String,
    pub stderr: String,
}

/// Exactly the two accepted kill signals.
pub open spec fn valid_kill_signal(signal: u32) -> bool {
    signal == SIGKILL || signal == SIGINT
}

/// What the controller decides next while deleting an instance.  Each step
/// is handed back to the caller, which performs the runtime call and reports
/// its outcome; `Finished` means no further runtime call is made.
pub enum DeleteStep {
    /// The operation is over with this result; the runtime is not touched
    /// again.
    Finished(Result<(), ShimError>),
    /// Persisted state exists: load it.
    LoadState,
    /// State was loaded: force-delete all associated runtime resources.
    RemoveResources,
}

/// `prefix` followed by `detail`, as a single message.
pub fn with_context(prefix: &str, detail: &str) -> (r: String)
    ensures
        r@ == prefix@ + detail@,
{
    let mut s = String::from_str(prefix);
    s.append(detail);
    s
}

impl Wasi {
    /// Constructs an instance: resolves the root directory from the outcome
    /// of reading the bundle's options descriptor, and fixes identity,
    /// bundle and stdio routing.  Fails exactly when root resolution fails;
    /// no runtime call is made.
    pub fn new(
        id: String,
        bundle: String,
        namespace: &str,
        stdin: String,
        stdout: String,
        stderr: String,
        opts: &OptionsOutcome,
    ) -> (r: Result<Wasi, ShimError>)
        ensures
            r is Ok <==> spec_resolved_root(*opts, namespace@) is Ok,
            r matches Ok(w) ==> w.id == id && w.bundle == bundle && w.stdin == stdin && w.stdout
                == stdout && w.stderr == stderr,
            r matches Ok(w) ==> w.rootdir@ == spec_resolved_root(*opts, namespace@)->Ok_0,
            r matches Err(e) ==> e == spec_resolved_root(*opts, namespace@)->Err_0,
    {
        match determine_rootdir(opts, namespace) {
            Ok(rootdir) => Ok(Wasi { id, bundle, rootdir, stdin, stdout, stderr }),
            Err(e) => Err(e),
        }
    }

    /// Validates a kill request before anything else happens: only the
    /// forceful-termination and interrupt signals are accepted, and an
    /// unsupported value is rejected without any runtime call or state
    /// reload.
    pub fn kill_request(&self, signal: u32) -> (r: Result<(), ShimError>)
        ensures
            r is Ok <==> valid_kill_signal(signal),
            !valid_kill_signal(signal) ==> (r matches Err(e) && e matches
                ShimError::InvalidArgument(m) && m@ == "only SIGKILL and SIGINT are supported"@),
    {
        if signal == SIGKILL || signal == SIGINT {
            Ok(())
        } else {
            Err(
                ShimError::InvalidArgument(
                    String::from_str("only SIGKILL and SIGINT are supported"),
                ),
            )
        }
    }

    /// The error surfaced when the persisted state for this instance cannot
    /// be loaded during a kill: a caller error, reported with context naming
    /// the instance, never swallowed.
    pub fn kill_load_failure(&self) -> (e: ShimError)
        ensures
            e matches ShimError::StateLoadFailure(m) && m@ == "could not load state for container "@
                + self.id@,
    {
        ShimError::StateLoadFailure(
            with_context("could not load state for container ", self.id.as_str()),
        )
    }

    /// Classifies a failed signal delivery from the freshly reloaded status:
    /// a container that is already stopped yields the distinguished
    /// "not running" condition; any other status surfaces the lower-level
    /// failure itself.
    pub fn kill_delivery_failed(&self, status: RunState, detail: String) -> (e: ShimError)
        ensures
            status is Stopped ==> e is NotRunning,
            !(status is Stopped) ==> (e matches ShimError::RuntimeFailure(m) && m == detail),
    {
        match status {
            RunState::Stopped => ShimError::NotRunning,
            _ => ShimError::RuntimeFailure(detail),
        }
    }

    /// The first delete decision, from the best-effort existence probe:
    /// absent state, or a probe that could not even answer, means nothing to
    /// clean up and immediate success with no further runtime call; only
    /// state known to exist is loaded.
    pub fn delete_probe_step(&self, probe: Option<bool>) -> (s: DeleteStep)
        ensures
            probe == Some(true) ==> s is LoadState,
            probe == Some(false) ==> (s matches DeleteStep::Finished(r) && r is Ok),
            probe is None ==> (s matches DeleteStep::Finished(r) && r is Ok),
    {
        match probe {
            Some(true) => DeleteStep::LoadState,
            Some(false) => DeleteStep::Finished(Ok(())),
            None => DeleteStep::Finished(Ok(())),
        }
    }

    /// The second delete decision, from the attempt to load the persisted
    /// state: a load failure is swallowed (best-effort cleanup, success with
    /// no further runtime call); loaded state moves on to forced removal.
    pub fn delete_load_step(&self, loaded: bool) -> (s: DeleteStep)
        ensures
            loaded ==> s is RemoveResources,
            !loaded ==> (s matches DeleteStep::Finished(r) && r is Ok),
    {
        if loaded {
            DeleteStep::RemoveResources
        } else {
            DeleteStep::Finished(Ok(()))
        }
    }

    /// The final delete decision, from the forced removal of runtime
    /// resources: this is the one delete failure that is propagated, with
    /// context naming the instance; success ends the instance's lifetime.
    pub fn delete_remove_step(&self, removed: Result<(), String>) -> (r: Result<(), ShimError>)
        ensures
            removed is Ok <==> r is Ok,
            removed matches Err(detail) ==> (r matches Err(e) && e matches
                ShimError::RuntimeFailure(m) && m@ == "failed to delete container "@ + self.id@
                + ": "@ + detail@),
    {
        match removed {
            Ok(()) => Ok(()),
            Err(detail) => {
                let mut m = with_context("failed to delete container ", self.id.as_str());
                m.append(": ");
                m.append(detail.as_str());
                Err(ShimError::RuntimeFailure(m))
            },
        }
    }

    /// The error surfaced when the runtime cannot build the container during
    /// start, with the runtime's own message appended.
    pub fn build_failure(&self, detail: &str) -> (e: ShimError)
        ensures
            e matches ShimError::RuntimeFailure(m) && m@ == "failed to create container: "@
                + detail@,
    {
        ShimError::RuntimeFailure(with_context("failed to create container: ", detail))
    }

    /// The error surfaced when the built container fails to start.
    pub fn start_failure(&self, detail: &str) -> (e: ShimError)
        ensures
            e matches ShimError::RuntimeFailure(m) && m@ == "failed to start container: "@
                + detail@,
    {
        ShimError::RuntimeFailure(with_context("failed to start container: ", detail))
    }
}

/// A model of the backing runtime's persisted records under one root
/// directory, keyed by instance id.  It abstracts the store that the delete
/// steps probe, load and remove from, so that delete's idempotency can be
/// stated of every run of the whole operation.  A run is described by which
/// of its best-effort stages answered: `probe_ok` — the existence probe
/// answered (truthfully) rather than failing, `load_ok` — the persisted
/// state could be loaded, `remove_ok` — the forced removal succeeded.
pub open spec fn spec_delete_succeeds(
    store: Map<Seq<char>, RunState>,
    id: Seq<char>,
    probe_ok: bool,
    load_ok: bool,
    remove_ok: bool,
) -> bool {
    !(probe_ok && store.contains_key(id) && load_ok && !remove_ok)
}

/// The store a delete run leaves behind: the record is gone exactly when
/// every stage reached and completed the forced removal; any run that ended
/// early leaves the store as it was.
pub open spec fn spec_store_after_delete(
    store: Map<Seq<char>, RunState>,
    id: Seq<char>,
    probe_ok: bool,
    load_ok: bool,
    remove_ok: bool,
) -> Map<Seq<char>, RunState> {
    if probe_ok && store.contains_key(id) && load_ok && remove_ok {
        store.remove(id)
    } else {
        store
    }
}

/// Deleting an instance with no persisted record succeeds and leaves the
/// store untouched, whatever the run's stages would have answered: there is
/// nothing to clean up, and nothing is cleaned up.
pub proof fn lemma_delete_absent_is_noop(
    store: Map<Seq<char>, RunState>,
    id: Seq<char>,
    probe_ok: bool,
    load_ok: bool,
    remove_ok: bool,
)
    requires
        !store.contains_key(id),
    ensures
        spec_delete_succeeds(store, id, probe_ok, load_ok, remove_ok),
        spec_store_after_delete(store, id, probe_ok, load_ok, remove_ok) == store,
{
}

/// Delete is idempotent: after a first delete whose stages all answered and
/// which succeeded, a second delete of the same instance succeeds whatever
/// its own stages answer.  The first run either found no record or removed
/// it, so the second finds none.  (A first run that swallowed a probe or
/// load failure leaves the record behind; a later run can then still fail in
/// the forced removal, so such runs are excluded here.)
pub proof fn lemma_delete_twice_never_errors(
    store: Map<Seq<char>, RunState>,
    id: Seq<char>,
    load_ok1: bool,
    remove_ok1: bool,
    probe_ok2: bool,
    load_ok2: bool,
    remove_ok2: bool,
)
    requires
        store.contains_key(id) ==> load_ok1,
        spec_delete_succeeds(store, id, true, load_ok1, remove_ok1),
    ensures
        spec_delete_succeeds(
            spec_store_after_delete(store, id, true, load_ok1, remove_ok1),
            id,
            probe_ok2,
            load_ok2,
            remove_ok2,
        ),
{
    let after = spec_store_after_delete(store, id, true, load_ok1, remove_ok1);
    if store.contains_key(id) {
        assert(remove_ok1);
        assert(!after.contains_key(id));
    }
}

} // verus!
