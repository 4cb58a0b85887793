//! The process-wide activation of the object subsystem: one initialization,
//! shared through counted handles, shut down when the last handle is given
//! back.

use crate::error::{MigError, MigErrorKind, MigErrorView};
use crate::platform::{
    PlatformCall, PlatformCallView, PlatformReply, Step, StepView, AUTH_SERVICES_ANY,
    COINIT_MULTITHREADED, EOAC_NONE, RPC_C_AUTHN_LEVEL_DEFAULT, RPC_C_IMP_LEVEL_IMPERSONATE,
};
use vstd::prelude::*;

verus! {

/// Remark of the error for a caller that does not hold the lock.
pub const REMARK_LOCK: &'static str = "win_api::com_api::get_com_api: failed to lock mutex";

/// Remark of the error for a caller that comes during another acquisition.
pub const REMARK_BUSY: &'static str =
    "win_api::com_api::get_com_api: another acquisition is in progress";

/// Remark of the error for a caller that asks for one handle too many.
pub const REMARK_HANDLES: &'static str = "win_api::com_api::get_com_api: too many handles";

/// Remark of the error for a reply that answers no call.
pub const REMARK_IDLE: &'static str = "win_api::com_api::get_com_api: no platform call is pending";

/// Remark of the error for a failed `CoInitializeEx`.
pub const REMARK_INITIALIZE: &'static str = "win_api::com_api::get_com_api: CoInitializeEx failed";

/// Remark of the error for a failed `CoInitializeSecurity`.
pub const REMARK_SECURITY: &'static str =
    "win_api::com_api::get_com_api: CoInitializeSecurity failed";

/// Marks that the object subsystem is initialized: a value exists from the
/// successful initialization until the shutdown is asked for.
#[derive(Debug)]
pub struct ComAPI {
    marker: (),
}

impl ComAPI {
    /// Ends the activation: the subsystem is to be shut down.
    pub fn close(self) -> (call: PlatformCall)
        ensures
            call@ == PlatformCallView::CoUninitialize,
    {
        PlatformCall::CoUninitialize
    }
}

/// A share in the activation. The subsystem stays up while a handle is out.
#[derive(Debug)]
pub struct HComApi {
    token: (),
}

impl View for HComApi {
    type V = ();

    open spec fn view(&self) -> () {
        ()
    }
}

/// Where an acquisition stands. Every phase but `Idle` waits for the reply to
/// one platform call.
#[derive(Clone, Copy, Debug, PartialEq, Eq, Structural)]
pub enum ComPhase {
    /// No acquisition is under way.
    Idle,
    /// Waits for `CoInitializeEx`.
    Initializing,
    /// `CoInitializeEx` failed with `status`; waits for the error code.
    InitializeFailed { status: i32 },
    /// Waits for `CoInitializeSecurity`.
    Securing,
    /// `CoInitializeSecurity` failed with `status`; waits for the error code.
    SecurityFailed { status: i32 },
    /// Waits for the `CoUninitialize` that undoes the initialization.
    RollingBack { status: i32, os_error: i32 },
}

/// What an acquisition is told.
#[derive(Clone, Copy, Debug, PartialEq, Eq, Structural)]
pub enum ComEvent {
    /// A caller asks for a handle. `locked` says whether it holds the lock
    /// that guards the registry.
    Begin { locked: bool },
    /// The platform call that was asked for last has returned.
    Reply(PlatformReply),
}

/// The shared activation state: the slot for the marker, the number of
/// handles that are out, and the acquisition under way.
#[derive(Debug)]
pub struct ComRegistry {
    slot: Option<ComAPI>,
    handles: u64,
    phase: ComPhase,
}

/// The mathematical content of a [`ComRegistry`].
pub struct ComRegistryView {
    /// The subsystem is initialized.
    pub ready: bool,
    /// Number of handles that are out.
    pub handles: nat,
    pub phase: ComPhase,
}

impl ComRegistryView {
    /// The state before the first acquisition and after the last release.
    pub open spec fn fresh() -> ComRegistryView {
        ComRegistryView { ready: false, handles: 0, phase: ComPhase::Idle }
    }

    /// The subsystem is up exactly while handles are out, and an acquisition
    /// is under way only while it is down.
    pub open spec fn wf(self) -> bool {
        &&& self.ready <==> self.handles > 0
        &&& self.handles <= u64::MAX
        &&& self.phase != ComPhase::Idle ==> !self.ready
    }
}

impl View for ComRegistry {
    type V = ComRegistryView;

    closed spec fn view(&self) -> ComRegistryView {
        ComRegistryView {
            ready: self.slot is Some,
            handles: self.handles as nat,
            phase: self.phase,
        }
    }
}

/// The step that ends an operation with an error of `kind`.
pub open spec fn refused<T>(kind: MigErrorKind, remark: Seq<char>) -> StepView<T> {
    StepView::Done(Err(MigErrorView::remarked(kind, remark)))
}

/// The acquisition as a transition system: the registry after `event`, and the
/// step that answers it.
///
/// A caller without the lock, or one that comes while another acquisition is
/// under way, is turned away. Where the subsystem is up, a handle is handed
/// out at once. Where it is down, it is initialized and its security set; a
/// failing call has its error code fetched before anything else is called,
/// and a failure to set the security has the initialization undone.
pub open spec fn acquire_next(registry: ComRegistryView, event: ComEvent) -> (
    ComRegistryView,
    StepView<()>,
) {
    match event {
        ComEvent::Begin { locked } => {
            if !locked {
                (registry, refused(MigErrorKind::MutAccess, REMARK_LOCK@))
            } else if registry.phase != ComPhase::Idle {
                (registry, refused(MigErrorKind::MutAccess, REMARK_BUSY@))
            } else if !registry.ready {
                (
                    ComRegistryView { phase: ComPhase::Initializing, ..registry },
                    StepView::Call(
                        PlatformCallView::CoInitializeEx { concurrency: COINIT_MULTITHREADED },
                    ),
                )
            } else if registry.handles < u64::MAX {
                (
                    ComRegistryView { handles: registry.handles + 1, ..registry },
                    StepView::Done(Ok(())),
                )
            } else {
                (registry, refused(MigErrorKind::MutAccess, REMARK_HANDLES@))
            }
        },
        ComEvent::Reply(reply) => match registry.phase {
            ComPhase::Idle => (registry, refused(MigErrorKind::InvParam, REMARK_IDLE@)),
            ComPhase::Initializing => if reply.failed() {
                (
                    ComRegistryView {
                        phase: ComPhase::InitializeFailed { status: reply.status },
                        ..registry
                    },
                    StepView::Call(PlatformCallView::GetLastError),
                )
            } else {
                (
                    ComRegistryView { phase: ComPhase::Securing, ..registry },
                    StepView::Call(
                        PlatformCallView::CoInitializeSecurity {
                            auth_services: AUTH_SERVICES_ANY,
                            authn_level: RPC_C_AUTHN_LEVEL_DEFAULT,
                            imp_level: RPC_C_IMP_LEVEL_IMPERSONATE,
                            capabilities: EOAC_NONE,
                        },
                    ),
                )
            },
            ComPhase::InitializeFailed { status } => (
                ComRegistryView { phase: ComPhase::Idle, ..registry },
                StepView::Done(
                    Err(MigErrorView::platform(status, reply.status, REMARK_INITIALIZE@)),
                ),
            ),
            ComPhase::Securing => if reply.failed() {
                (
                    ComRegistryView {
                        phase: ComPhase::SecurityFailed { status: reply.status },
                        ..registry
                    },
                    StepView::Call(PlatformCallView::GetLastError),
                )
            } else {
                (
                    ComRegistryView { ready: true, handles: 1, phase: ComPhase::Idle },
                    StepView::Done(Ok(())),
                )
            },
            ComPhase::SecurityFailed { status } => (
                ComRegistryView {
                    phase: ComPhase::RollingBack { status, os_error: reply.status },
                    ..registry
                },
                StepView::Call(PlatformCallView::CoUninitialize),
            ),
            ComPhase::RollingBack { status, os_error } => (
                ComRegistryView { phase: ComPhase::Idle, ..registry },
                StepView::Done(Err(MigErrorView::platform(status, os_error, REMARK_SECURITY@))),
            ),
        },
    }
}

/// The registry after a handle is given back, and the call that this asks
/// for: the shutdown, where the handle was the last one.
pub open spec fn release_next(registry: ComRegistryView) -> (
    ComRegistryView,
    Option<PlatformCallView>,
) {
    if registry.handles == 1 {
        (ComRegistryView { ready: false, handles: 0, ..registry }, Some(
            PlatformCallView::CoUninitialize,
        ))
    } else if registry.handles > 1 {
        (ComRegistryView { handles: (registry.handles - 1) as nat, ..registry }, None)
    } else {
        (registry, None)
    }
}

impl ComRegistry {
    #[verifier::type_invariant]
    spec fn inv(self) -> bool {
        self@.wf()
    }

    /// A registry for a subsystem that is not initialized.
    pub fn new() -> (registry: ComRegistry)
        ensures
            registry@ == ComRegistryView::fresh(),
    {
        ComRegistry { slot: None, handles: 0, phase: ComPhase::Idle }
    }

    /// Whether the subsystem is initialized.
    pub fn is_ready(&self) -> (ready: bool)
        ensures
            ready == self@.ready,
    {
        self.slot.is_some()
    }

    /// Number of handles that are out.
    pub fn handle_count(&self) -> (count: u64)
        ensures
            count == self@.handles,
    {
        self.handles
    }

    /// Where the acquisition under way stands.
    pub fn phase(&self) -> (phase: ComPhase)
        ensures
            phase == self@.phase,
    {
        self.phase
    }

    /// Takes a handle back. Where it was the last one, the marker leaves the
    /// slot and the shutdown is asked for.
    pub fn release(&mut self, handle: HComApi) -> (call: Option<PlatformCall>)
        ensures
            old(self)@.wf(),
            final(self)@.wf(),
            final(self)@ == release_next(old(self)@).0,
            match call {
                Some(c) => Some(c@),
                None => None,
            } == release_next(old(self)@).1,
    {
        proof {
            use_type_invariant(&*self);
        }
        if self.handles > 1 {
            self.handles = self.handles - 1;
            None
        } else {
            let mut last = ComRegistry { slot: None, handles: 0, phase: self.phase };
            core::mem::swap(&mut last, self);
            match last.slot {
                Some(com_api) => Some(com_api.close()),
                None => None,
            }
        }
    }
}

/// One step of the acquisition of a handle: `registry` moves as
/// [`acquire_next`] says, and the result is the platform call to make next or
/// the end of the acquisition, a handle or an error.
pub fn get_com_api(registry: &mut ComRegistry, event: ComEvent) -> (step: Step<HComApi>)
    ensures
        old(registry)@.wf(),
        final(registry)@.wf(),
        (final(registry)@, step@) == acquire_next(old(registry)@, event),
{
    proof {
        use_type_invariant(&*registry);
    }
    match event {
        ComEvent::Begin { locked } => {
            if !locked {
                Step::Done(Err(MigError::from_remark(MigErrorKind::MutAccess, REMARK_LOCK)))
            } else if registry.phase != ComPhase::Idle {
                Step::Done(Err(MigError::from_remark(MigErrorKind::MutAccess, REMARK_BUSY)))
            } else if registry.slot.is_none() {
                registry.phase = ComPhase::Initializing;
                Step::Call(PlatformCall::CoInitializeEx { concurrency: COINIT_MULTITHREADED })
            } else if registry.handles < u64::MAX {
                registry.handles = registry.handles + 1;
                Step::Done(Ok(HComApi { token: () }))
            } else {
                Step::Done(Err(MigError::from_remark(MigErrorKind::MutAccess, REMARK_HANDLES)))
            }
        },
        ComEvent::Reply(reply) => match registry.phase {
            ComPhase::Idle => Step::Done(
                Err(MigError::from_remark(MigErrorKind::InvParam, REMARK_IDLE)),
            ),
            ComPhase::Initializing => {
                if reply.is_failure() {
                    registry.phase = ComPhase::InitializeFailed { status: reply.status };
                    Step::Call(PlatformCall::GetLastError)
                } else {
                    registry.phase = ComPhase::Securing;
                    Step::Call(
                        PlatformCall::CoInitializeSecurity {
                            auth_services: AUTH_SERVICES_ANY,
                            authn_level: RPC_C_AUTHN_LEVEL_DEFAULT,
                            imp_level: RPC_C_IMP_LEVEL_IMPERSONATE,
                            capabilities: EOAC_NONE,
                        },
                    )
                }
            },
            ComPhase::InitializeFailed { status } => {
                registry.phase = ComPhase::Idle;
                Step::Done(Err(MigError::from_os_error(status, reply.status, REMARK_INITIALIZE)))
            },
            ComPhase::Securing => {
                if reply.is_failure() {
                    registry.phase = ComPhase::SecurityFailed { status: reply.status };
                    Step::Call(PlatformCall::GetLastError)
                } else {
                    *registry = ComRegistry {
                        slot: Some(ComAPI { marker: () }),
                        handles: 1,
                        phase: ComPhase::Idle,
                    };
                    Step::Done(Ok(HComApi { token: () }))
                }
            },
            ComPhase::SecurityFailed { status } => {
                registry.phase = ComPhase::RollingBack { status, os_error: reply.status };
                Step::Call(PlatformCall::CoUninitialize)
            },
            ComPhase::RollingBack { status, os_error } => {
                registry.phase = ComPhase::Idle;
                Step::Done(Err(MigError::from_os_error(status, os_error, REMARK_SECURITY)))
            },
        },
    }
}

/// What a driver sees of one acquisition: the registry it leaves, the calls
/// it asked for, in order, and how it ended if it did end.
pub struct AcquireRun {
    pub registry: ComRegistryView,
    pub calls: Seq<PlatformCallView>,
    pub outcome: Option<Result<(), MigErrorView>>,
}

/// The acquisition from `step` onwards, each call answered by the next of
/// `replies`. Replies beyond the end of the acquisition are not looked at.
pub open spec fn acquire_drive(
    registry: ComRegistryView,
    step: StepView<()>,
    replies: Seq<PlatformReply>,
) -> AcquireRun
    decreases replies.len(),
{
    match step {
        StepView::Done(outcome) => AcquireRun {
            registry,
            calls: Seq::empty(),
            outcome: Some(outcome),
        },
        StepView::Call(call) => if replies.len() == 0 {
            AcquireRun { registry, calls: seq![call], outcome: None }
        } else {
            let next = acquire_next(registry, ComEvent::Reply(replies[0]));
            let rest = acquire_drive(next.0, next.1, replies.drop_first());
            AcquireRun { calls: seq![call] + rest.calls, ..rest }
        },
    }
}

/// One acquisition by a caller that holds the lock.
pub open spec fn acquire_run(registry: ComRegistryView, replies: Seq<PlatformReply>) -> AcquireRun {
    let first = acquire_next(registry, ComEvent::Begin { locked: true });
    acquire_drive(first.0, first.1, replies)
}

/// What a driver sees of acquisitions that follow one another.
pub struct AcquireRuns {
    pub registry: ComRegistryView,
    /// All calls asked for, in order.
    pub calls: Seq<PlatformCallView>,
    /// Every acquisition ended with a handle.
    pub all_ok: bool,
}

/// One acquisition after the other, the i-th answered by `scripts[i]`.
pub open spec fn acquire_all(registry: ComRegistryView, scripts: Seq<Seq<PlatformReply>>) -> AcquireRuns
    decreases scripts.len(),
{
    if scripts.len() == 0 {
        AcquireRuns { registry, calls: Seq::empty(), all_ok: true }
    } else {
        let run = acquire_run(registry, scripts[0]);
        let rest = acquire_all(run.registry, scripts.drop_first());
        AcquireRuns {
            registry: rest.registry,
            calls: run.calls + rest.calls,
            all_ok: run.outcome == Some(Ok::<(), MigErrorView>(())) && rest.all_ok,
        }
    }
}

/// What a driver sees of handles that are given back one after the other.
pub struct ReleaseRuns {
    pub registry: ComRegistryView,
    /// All calls asked for, in order.
    pub calls: Seq<PlatformCallView>,
}

/// `count` handles given back.
pub open spec fn release_all(registry: ComRegistryView, count: nat) -> ReleaseRuns
    decreases count,
{
    if count == 0 {
        ReleaseRuns { registry, calls: Seq::empty() }
    } else {
        let next = release_next(registry);
        let rest = release_all(next.0, (count - 1) as nat);
        ReleaseRuns {
            registry: rest.registry,
            calls: match next.1 {
                Some(call) => seq![call] + rest.calls,
                None => rest.calls,
            },
        }
    }
}

/// Number of `CoInitializeEx` among `calls`.
pub open spec fn initializations(calls: Seq<PlatformCallView>) -> nat
    decreases calls.len(),
{
    if calls.len() == 0 {
        0
    } else {
        initializations(calls.drop_last()) + if calls.last() is CoInitializeEx {
            1nat
        } else {
            0nat
        }
    }
}

/// The call that initializes the subsystem.
pub open spec fn call_initialize() -> PlatformCallView {
    PlatformCallView::CoInitializeEx { concurrency: COINIT_MULTITHREADED }
}

/// The call that sets the security defaults.
pub open spec fn call_security() -> PlatformCallView {
    PlatformCallView::CoInitializeSecurity {
        auth_services: AUTH_SERVICES_ANY,
        authn_level: RPC_C_AUTHN_LEVEL_DEFAULT,
        imp_level: RPC_C_IMP_LEVEL_IMPERSONATE,
        capabilities: EOAC_NONE,
    }
}

/// What can happen to a registry: an event of an acquisition, or the return
/// of a handle.
pub enum ComOp {
    Acquire(ComEvent),
    Release,
}

/// What a history of a registry comes to: its state, the number of
/// initializations that the platform reported as done, and the number of
/// shutdowns that were asked for.
pub struct ComHistory {
    pub registry: ComRegistryView,
    pub initialized: nat,
    pub shutdowns: nat,
}

/// The platform has initialized the subsystem and was not yet asked to shut
/// it down: handles are out, or the acquisition under way is past the
/// initialization.
pub open spec fn subsystem_up(registry: ComRegistryView) -> bool {
    registry.ready || registry.phase is Securing || registry.phase is SecurityFailed
}

/// Whether `event` reports to `registry` that the initialization is done.
pub open spec fn reports_initialized(registry: ComRegistryView, event: ComEvent) -> bool {
    &&& registry.phase is Initializing
    &&& event matches ComEvent::Reply(reply)
    &&& !reply.failed()
}

/// A registry that starts fresh and goes through `ops`, in order.
pub open spec fn history(ops: Seq<ComOp>) -> ComHistory
    decreases ops.len(),
{
    if ops.len() == 0 {
        ComHistory { registry: ComRegistryView::fresh(), initialized: 0, shutdowns: 0 }
    } else {
        let before = history(ops.drop_last());
        match ops.last() {
            ComOp::Acquire(event) => {
                let next = acquire_next(before.registry, event);
                ComHistory {
                    registry: next.0,
                    initialized: before.initialized + if reports_initialized(
                        before.registry,
                        event,
                    ) {
                        1nat
                    } else {
                        0nat
                    },
                    shutdowns: before.shutdowns + if next.1 == StepView::<()>::Call(
                        PlatformCallView::CoUninitialize,
                    ) {
                        1nat
                    } else {
                        0nat
                    },
                }
            },
            ComOp::Release => {
                let next = release_next(before.registry);
                ComHistory {
                    registry: next.0,
                    initialized: before.initialized,
                    shutdowns: before.shutdowns + if next.1 is Some {
                        1nat
                    } else {
                        0nat
                    },
                }
            },
        }
    }
}

/// Initialization and shutdown are paired. Whatever happens to a registry
/// that starts fresh, in whatever order: a shutdown is asked for only after
/// an initialization that succeeded, once for each, and while the subsystem
/// is up exactly one initialization is without its shutdown. The subsystem is
/// never initialized again while it is up.
pub proof fn lemma_initialization_and_shutdown_are_paired(ops: Seq<ComOp>)
    ensures
        history(ops).registry.wf(),
        history(ops).initialized == history(ops).shutdowns + if subsystem_up(
            history(ops).registry,
        ) {
            1nat
        } else {
            0nat
        },
    decreases ops.len(),
{
    if ops.len() > 0 {
        lemma_initialization_and_shutdown_are_paired(ops.drop_last());
    }
}

/// Both transitions keep a registry well formed.
pub proof fn lemma_registry_stays_wf(registry: ComRegistryView, event: ComEvent)
    requires
        registry.wf(),
    ensures
        acquire_next(registry, event).0.wf(),
        release_next(registry).0.wf(),
{
}

proof fn lemma_initializations_concat(a: Seq<PlatformCallView>, b: Seq<PlatformCallView>)
    ensures
        initializations(a + b) == initializations(a) + initializations(b),
    decreases b.len(),
{
    if b.len() == 0 {
        assert(a + b =~= a);
    } else {
        assert((a + b).drop_last() =~= a + b.drop_last());
        lemma_initializations_concat(a, b.drop_last());
    }
}

/// An acquisition on a subsystem that is up asks nothing of the platform: it
/// hands out one more handle at once.
pub proof fn lemma_acquire_when_ready(registry: ComRegistryView, replies: Seq<PlatformReply>)
    requires
        registry.wf(),
        registry.ready,
        registry.handles < u64::MAX,
    ensures
        acquire_run(registry, replies) == (AcquireRun {
            registry: ComRegistryView { handles: registry.handles + 1, ..registry },
            calls: Seq::empty(),
            outcome: Some(Ok(())),
        }),
{
}

/// An acquisition on a subsystem that is down ends with a handle exactly if
/// the initialization and the setting of the security both report success.
/// Then these two calls are all it asked for, and the subsystem is up with
/// one handle out.
pub proof fn lemma_acquire_when_down(registry: ComRegistryView, replies: Seq<PlatformReply>)
    requires
        registry.wf(),
        registry.phase == ComPhase::Idle,
        !registry.ready,
    ensures
        acquire_run(registry, replies).outcome == Some(Ok::<(), MigErrorView>(())) <==> (
        replies.len() >= 2 && !replies[0].failed() && !replies[1].failed()),
        acquire_run(registry, replies).outcome == Some(Ok::<(), MigErrorView>(())) ==> {
            &&& acquire_run(registry, replies).calls == seq![call_initialize(), call_security()]
            &&& acquire_run(registry, replies).registry == (ComRegistryView {
                ready: true,
                handles: 1,
                phase: ComPhase::Idle,
            })
        },
{
    reveal_with_fuel(acquire_drive, 6);
    let run = acquire_run(registry, replies);
    if replies.len() >= 2 {
        assert(replies.drop_first()[0] == replies[1]);
    }
    if run.outcome == Some(Ok::<(), MigErrorView>(())) {
        assert(run.calls =~= seq![call_initialize(), call_security()]);
    }
}

/// Acquisitions share one initialization: where each of any number of
/// acquisitions that follow one another ends with a handle, the platform was
/// asked to initialize the subsystem once if it was down at first, and not at
/// all if it was up; and the handles out have grown by the number of
/// acquisitions.
pub proof fn lemma_one_initialization(registry: ComRegistryView, scripts: Seq<Seq<PlatformReply>>)
    requires
        registry.wf(),
        registry.phase == ComPhase::Idle,
        acquire_all(registry, scripts).all_ok,
    ensures
        acquire_all(registry, scripts).registry.handles == registry.handles + scripts.len(),
        initializations(acquire_all(registry, scripts).calls) == if registry.ready || scripts.len()
            == 0 {
            0nat
        } else {
            1nat
        },
        acquire_all(registry, scripts).registry.wf(),
        acquire_all(registry, scripts).registry.phase == ComPhase::Idle,
    decreases scripts.len(),
{
    if scripts.len() > 0 {
        let run = acquire_run(registry, scripts[0]);
        let rest = acquire_all(run.registry, scripts.drop_first());
        if registry.ready {
            assert(run.calls =~= Seq::empty());
        } else {
            lemma_acquire_when_down(registry, scripts[0]);
            assert(initializations(seq![call_initialize(), call_security()]) == 1) by {
                reveal_with_fuel(initializations, 3);
                let calls = seq![call_initialize(), call_security()];
                assert(calls.drop_last() =~= seq![call_initialize()]);
                assert(calls.drop_last().drop_last() =~= Seq::empty());
            }
        }
        lemma_one_initialization(run.registry, scripts.drop_first());
        lemma_initializations_concat(run.calls, rest.calls);
    }
}

/// The last release shuts the subsystem down: where all handles that are out
/// are given back, the platform is asked for the shutdown once, as the one
/// call, the subsystem is down, and the next acquisition begins with a new
/// initialization.
pub proof fn lemma_last_release_shuts_down(registry: ComRegistryView)
    requires
        registry.wf(),
        registry.ready,
    ensures
        release_all(registry, registry.handles).calls == seq![PlatformCallView::CoUninitialize],
        release_all(registry, registry.handles).registry == ComRegistryView::fresh(),
        acquire_next(release_all(registry, registry.handles).registry, ComEvent::Begin { locked: true }).1
            == StepView::<()>::Call(call_initialize()),
    decreases registry.handles,
{
    let next = release_next(registry);
    if registry.handles == 1 {
        reveal_with_fuel(release_all, 2);
        assert(release_all(registry, registry.handles).calls =~= seq![
            PlatformCallView::CoUninitialize,
        ]);
    } else {
        lemma_last_release_shuts_down(next.0);
    }
}

/// While a handle stays out, giving others back asks nothing of the platform.
pub proof fn lemma_release_keeps_up(registry: ComRegistryView, count: nat)
    requires
        registry.wf(),
        count < registry.handles,
    ensures
        release_all(registry, count).calls == Seq::<PlatformCallView>::empty(),
        release_all(registry, count).registry == (ComRegistryView {
            handles: (registry.handles - count) as nat,
            ..registry
        }),
    decreases count,
{
    if count > 0 {
        lemma_release_keeps_up(release_next(registry).0, (count - 1) as nat);
    }
}

/// A failed initialization leaves nothing behind: the error code is fetched,
/// nothing else is called, the error names the call and holds its status and
/// the error code, and the registry is as it was.
pub proof fn lemma_initialize_failure(registry: ComRegistryView, replies: Seq<PlatformReply>)
    requires
        registry.wf(),
        registry.phase == ComPhase::Idle,
        !registry.ready,
        replies.len() >= 2,
        replies[0].failed(),
    ensures
        acquire_run(registry, replies) == (AcquireRun {
            registry,
            calls: seq![call_initialize(), PlatformCallView::GetLastError],
            outcome: Some(
                Err(
                    MigErrorView::platform(
                        replies[0].status,
                        replies[1].status,
                        REMARK_INITIALIZE@,
                    ),
                ),
            ),
        }),
{
    reveal_with_fuel(acquire_drive, 4);
    let r1 = replies.drop_first();
    assert(r1[0] == replies[1]);
    let run = acquire_run(registry, replies);
    assert(run.calls =~= seq![call_initialize(), PlatformCallView::GetLastError]);
}

/// A failure to set the security is rolled back: after the initialization
/// has succeeded, the error code is fetched first, then the subsystem is shut
/// down, and only then the error is reported, which names the call and holds
/// its status and the error code. The registry is as it was, so the next
/// acquisition begins with a new initialization.
pub proof fn lemma_security_failure_rolls_back(
    registry: ComRegistryView,
    replies: Seq<PlatformReply>,
)
    requires
        registry.wf(),
        registry.phase == ComPhase::Idle,
        !registry.ready,
        replies.len() >= 4,
        !replies[0].failed(),
        replies[1].failed(),
    ensures
        acquire_run(registry, replies) == (AcquireRun {
            registry,
            calls: seq![
                call_initialize(),
                call_security(),
                PlatformCallView::GetLastError,
                PlatformCallView::CoUninitialize,
            ],
            outcome: Some(
                Err(
                    MigErrorView::platform(replies[1].status, replies[2].status, REMARK_SECURITY@),
                ),
            ),
        }),
        acquire_next(acquire_run(registry, replies).registry, ComEvent::Begin { locked: true }).1
            == StepView::<()>::Call(call_initialize()),
{
    reveal_with_fuel(acquire_drive, 6);
    let r1 = replies.drop_first();
    let r2 = r1.drop_first();
    let r3 = r2.drop_first();
    assert(r1[0] == replies[1]);
    assert(r2[0] == replies[2]);
    assert(r3[0] == replies[3]);
    let run = acquire_run(registry, replies);
    assert(run.calls =~= seq![
        call_initialize(),
        call_security(),
        PlatformCallView::GetLastError,
        PlatformCallView::CoUninitialize,
    ]);
}

} // verus!
