//! The session with the management service: the handshake that connects to a
//! namespace, and the submission of queries.

use crate::com_api::{release_next, ComRegistry, ComRegistryView, HComApi};
use crate::error::{MigError, MigErrorKind, MigErrorView};
use crate::platform::{
    PlatformCall, PlatformCallView, PlatformReply, CLSCTX_INPROC_SERVER, EOAC_NONE,
    RPC_C_AUTHN_LEVEL_CALL, RPC_C_AUTHN_WINNT, RPC_C_AUTHZ_NONE, RPC_C_IMP_LEVEL_IMPERSONATE,
    WBEM_FLAG_FORWARD_ONLY, WBEM_FLAG_RETURN_IMMEDIATELY,
};
use crate::util::{to_wide_cstring, utf16_units};
use vstd::prelude::*;

verus! {

/// The namespace that a session connects to unless it is told another.
pub const DEFAULT_NAMESPACE: &'static str = "ROOT\\CIMV2";

/// The language of every query.
pub const QUERY_LANGUAGE: &'static str = "WQL";

/// The flags of every query: the result is walked once, and the call does not
/// wait for it.
pub const QUERY_FLAGS: i32 = WBEM_FLAG_FORWARD_ONLY | WBEM_FLAG_RETURN_IMMEDIATELY;

/// Remark of the error for a failed `CoCreateInstance`.
pub const REMARK_LOCATOR: &'static str =
    "win_api::wmi_api::get_api_from_hcom: CoCreateInstance failed";

/// Remark of the error for a failed `ConnectServer`.
pub const REMARK_CONNECT: &'static str =
    "win_api::wmi_api::get_api_from_hcom: ConnectServer failed";

/// Remark of the error for a failed `CoSetProxyBlanket`.
pub const REMARK_BLANKET: &'static str =
    "win_api::wmi_api::get_api_from_hcom: CoSetProxyBlanket failed";

/// Remark of the error for a failed `ExecQuery`.
pub const REMARK_QUERY: &'static str = "win_api::wmi_api::raw_query: ExecQuery failed";

/// The three calls of the handshake, in their order.
#[derive(Clone, Copy, Debug, PartialEq, Eq, Structural)]
pub enum ConnectStage {
    /// `CoCreateInstance` for the locator.
    Locator,
    /// `ConnectServer` on the locator.
    Server,
    /// `CoSetProxyBlanket` on the connection.
    Security,
}

/// Where a handshake stands: the platform call whose reply it waits for.
#[derive(Clone, Copy, Debug, PartialEq, Eq, Structural)]
pub enum ConnectPhase {
    /// Waits for `CoCreateInstance`.
    CreatingLocator,
    /// Waits for `ConnectServer`.
    Connecting,
    /// Waits for `CoSetProxyBlanket`.
    Securing,
    /// The call of `stage` failed with `status`; waits for the error code.
    Failed { stage: ConnectStage, status: i32 },
    /// Waits for the release of the connection after a failure.
    ReleasingServices { status: i32, os_error: i32 },
    /// Waits for the release of the locator after a failure of `stage`.
    ReleasingLocator { stage: ConnectStage, status: i32, os_error: i32 },
}

/// A handshake under way. It holds the activation handle, the name of the
/// namespace in wide characters, and the objects obtained so far.
#[derive(Debug)]
pub struct Handshake {
    com_api: HComApi,
    namespace: Vec<u16>,
    phase: ConnectPhase,
    p_loc: usize,
    p_svc: usize,
}

/// The mathematical content of a [`Handshake`].
pub struct HandshakeView {
    pub namespace: Seq<u16>,
    pub phase: ConnectPhase,
    /// Address of the locator; zero while there is none.
    pub locator: usize,
    /// Address of the connection; zero while there is none.
    pub services: usize,
}

impl HandshakeView {
    /// The objects that a handshake holds follow from its phase.
    pub open spec fn wf(self) -> bool {
        match self.phase {
            ConnectPhase::CreatingLocator => self.locator == 0 && self.services == 0,
            ConnectPhase::Connecting => self.locator != 0 && self.services == 0,
            ConnectPhase::Securing => self.locator != 0 && self.services != 0,
            ConnectPhase::Failed { stage, status } => match stage {
                ConnectStage::Locator => self.locator == 0 && self.services == 0,
                ConnectStage::Server => self.locator != 0 && self.services == 0,
                ConnectStage::Security => self.locator != 0 && self.services != 0,
            },
            ConnectPhase::ReleasingServices { status, os_error } => self.locator != 0
                && self.services == 0,
            ConnectPhase::ReleasingLocator { stage, status, os_error } => stage
                != ConnectStage::Locator && self.locator == 0 && self.services == 0,
        }
    }
}

impl View for Handshake {
    type V = HandshakeView;

    closed spec fn view(&self) -> HandshakeView {
        HandshakeView {
            namespace: self.namespace@,
            phase: self.phase,
            locator: self.p_loc,
            services: self.p_svc,
        }
    }
}

/// A connected session: the activation handle that keeps the subsystem up,
/// the locator and the connection to the namespace.
#[derive(Debug)]
pub struct WmiAPI {
    com_api: HComApi,
    p_loc: usize,
    p_svc: usize,
}

/// The mathematical content of a [`WmiAPI`].
pub struct WmiApiView {
    /// Address of the locator.
    pub locator: usize,
    /// Address of the connection.
    pub services: usize,
}

impl WmiApiView {
    /// A session holds both objects.
    pub open spec fn wf(self) -> bool {
        self.locator != 0 && self.services != 0
    }
}

impl View for WmiAPI {
    type V = WmiApiView;

    closed spec fn view(&self) -> WmiApiView {
        WmiApiView { locator: self.p_loc, services: self.p_svc }
    }
}

/// A step of the handshake.
#[derive(Debug)]
pub enum ConnectStep {
    /// Make `call`, then resume `next` with its reply.
    Call { call: PlatformCall, next: Handshake },
    /// The session is connected.
    Connected(WmiAPI),
    /// The handshake failed. The activation handle comes back.
    Failed { error: MigError, com_api: HComApi },
}

/// The mathematical content of a [`ConnectStep`].
pub enum ConnectStepView {
    Call { call: PlatformCallView, next: HandshakeView },
    Connected(WmiApiView),
    Failed(MigErrorView),
}

impl View for ConnectStep {
    type V = ConnectStepView;

    open spec fn view(&self) -> ConnectStepView {
        match *self {
            ConnectStep::Call { call, next } => ConnectStepView::Call { call: call@, next: next@ },
            ConnectStep::Connected(session) => ConnectStepView::Connected(session@),
            ConnectStep::Failed { error, com_api } => ConnectStepView::Failed(error@),
        }
    }
}

/// The remark of the error that a failure of `stage` ends in.
pub open spec fn connect_remark(stage: ConnectStage) -> Seq<char> {
    match stage {
        ConnectStage::Locator => REMARK_LOCATOR@,
        ConnectStage::Server => REMARK_CONNECT@,
        ConnectStage::Security => REMARK_BLANKET@,
    }
}

/// The first step of a handshake with the namespace of the given wide name:
/// the locator is asked for, from a server in the caller's process.
pub open spec fn connect_begin(namespace: Seq<u16>) -> ConnectStepView {
    ConnectStepView::Call {
        call: PlatformCallView::CoCreateInstance { context: CLSCTX_INPROC_SERVER },
        next: HandshakeView {
            namespace,
            phase: ConnectPhase::CreatingLocator,
            locator: 0,
            services: 0,
        },
    }
}

/// The handshake as a transition system: the step that follows `reply`.
///
/// The three calls follow one another, each on what the one before handed
/// out. A call fails where its status is negative or it hands out no object.
/// A failed call has its error code fetched before anything else is called;
/// then the objects obtained so far are released, the latest first, and the
/// handshake ends with the error of the failed call.
pub open spec fn connect_resume(handshake: HandshakeView, reply: PlatformReply) -> ConnectStepView {
    match handshake.phase {
        ConnectPhase::CreatingLocator => if reply.failed() || reply.object == 0 {
            ConnectStepView::Call {
                call: PlatformCallView::GetLastError,
                next: HandshakeView {
                    phase: ConnectPhase::Failed {
                        stage: ConnectStage::Locator,
                        status: reply.status,
                    },
                    ..handshake
                },
            }
        } else {
            ConnectStepView::Call {
                call: PlatformCallView::ConnectServer {
                    locator: reply.object,
                    namespace: handshake.namespace,
                },
                next: HandshakeView {
                    phase: ConnectPhase::Connecting,
                    locator: reply.object,
                    ..handshake
                },
            }
        },
        ConnectPhase::Connecting => if reply.failed() || reply.object == 0 {
            ConnectStepView::Call {
                call: PlatformCallView::GetLastError,
                next: HandshakeView {
                    phase: ConnectPhase::Failed {
                        stage: ConnectStage::Server,
                        status: reply.status,
                    },
                    ..handshake
                },
            }
        } else {
            ConnectStepView::Call {
                call: PlatformCallView::CoSetProxyBlanket {
                    proxy: reply.object,
                    authn_service: RPC_C_AUTHN_WINNT,
                    authz_service: RPC_C_AUTHZ_NONE,
                    authn_level: RPC_C_AUTHN_LEVEL_CALL,
                    imp_level: RPC_C_IMP_LEVEL_IMPERSONATE,
                    capabilities: EOAC_NONE,
                },
                next: HandshakeView {
                    phase: ConnectPhase::Securing,
                    services: reply.object,
                    ..handshake
                },
            }
        },
        ConnectPhase::Securing => if reply.failed() {
            ConnectStepView::Call {
                call: PlatformCallView::GetLastError,
                next: HandshakeView {
                    phase: ConnectPhase::Failed {
                        stage: ConnectStage::Security,
                        status: reply.status,
                    },
                    ..handshake
                },
            }
        } else {
            ConnectStepView::Connected(
                WmiApiView { locator: handshake.locator, services: handshake.services },
            )
        },
        ConnectPhase::Failed { stage, status } => match stage {
            ConnectStage::Locator => ConnectStepView::Failed(
                MigErrorView::platform(status, reply.status, connect_remark(stage)),
            ),
            ConnectStage::Server => ConnectStepView::Call {
                call: PlatformCallView::Release { object: handshake.locator },
                next: HandshakeView {
                    phase: ConnectPhase::ReleasingLocator {
                        stage,
                        status,
                        os_error: reply.status,
                    },
                    locator: 0,
                    ..handshake
                },
            },
            ConnectStage::Security => ConnectStepView::Call {
                call: PlatformCallView::Release { object: handshake.services },
                next: HandshakeView {
                    phase: ConnectPhase::ReleasingServices { status, os_error: reply.status },
                    services: 0,
                    ..handshake
                },
            },
        },
        ConnectPhase::ReleasingServices { status, os_error } => ConnectStepView::Call {
            call: PlatformCallView::Release { object: handshake.locator },
            next: HandshakeView {
                phase: ConnectPhase::ReleasingLocator {
                    stage: ConnectStage::Security,
                    status,
                    os_error,
                },
                locator: 0,
                ..handshake
            },
        },
        ConnectPhase::ReleasingLocator { stage, status, os_error } => ConnectStepView::Failed(
            MigErrorView::platform(status, os_error, connect_remark(stage)),
        ),
    }
}

/// Where a query stands: the platform call whose reply it waits for.
#[derive(Clone, Copy, Debug, PartialEq, Eq, Structural)]
pub enum QueryPhase {
    /// Waits for `ExecQuery`.
    Executing,
    /// `ExecQuery` failed with `status`; waits for the error code.
    Failed { status: i32 },
}

/// A query under way.
#[derive(Debug)]
pub struct PendingQuery {
    phase: QueryPhase,
}

impl View for PendingQuery {
    type V = QueryPhase;

    closed spec fn view(&self) -> QueryPhase {
        self.phase
    }
}

/// A step of a query.
#[derive(Debug)]
pub enum QueryStep {
    /// Make `call`, then resume `next` with its reply.
    Call { call: PlatformCall, next: PendingQuery },
    /// The query is over.
    Done(Result<(), MigError>),
}

/// The mathematical content of a [`QueryStep`].
pub enum QueryStepView {
    Call { call: PlatformCallView, next: QueryPhase },
    Done(Result<(), MigErrorView>),
}

impl View for QueryStep {
    type V = QueryStepView;

    open spec fn view(&self) -> QueryStepView {
        match *self {
            QueryStep::Call { call, next } => QueryStepView::Call { call: call@, next: next@ },
            QueryStep::Done(Ok(done)) => QueryStepView::Done(Ok(())),
            QueryStep::Done(Err(error)) => QueryStepView::Done(Err(error@)),
        }
    }
}

/// The first step of a query: the text goes to the connection as it is, in
/// wide characters, with the fixed language and flags.
pub open spec fn query_begin(services: usize, query: Seq<char>) -> QueryStepView {
    QueryStepView::Call {
        call: PlatformCallView::ExecQuery {
            services,
            language: utf16_units(QUERY_LANGUAGE@).push(0),
            query: utf16_units(query).push(0),
            flags: QUERY_FLAGS,
        },
        next: QueryPhase::Executing,
    }
}

/// The query as a transition system: the step that follows `reply`.
///
/// A failed `ExecQuery` has its error code fetched and ends in the error of
/// the platform. One that succeeds ends in the report that its result cannot
/// be handed out yet.
pub open spec fn query_resume(phase: QueryPhase, reply: PlatformReply) -> QueryStepView {
    match phase {
        QueryPhase::Executing => if reply.failed() {
            QueryStepView::Call {
                call: PlatformCallView::GetLastError,
                next: QueryPhase::Failed { status: reply.status },
            }
        } else {
            QueryStepView::Done(Err(MigErrorView::bare(MigErrorKind::NotImpl)))
        },
        QueryPhase::Failed { status } => QueryStepView::Done(
            Err(MigErrorView::platform(status, reply.status, REMARK_QUERY@)),
        ),
    }
}

/// The calls that end a session: the connection is released, then the
/// locator, then what the return of the activation handle asks for.
pub open spec fn close_calls(session: WmiApiView, registry: ComRegistryView) -> Seq<
    PlatformCallView,
> {
    let releases = seq![
        PlatformCallView::Release { object: session.services },
        PlatformCallView::Release { object: session.locator },
    ];
    match release_next(registry).1 {
        Some(call) => releases.push(call),
        None => releases,
    }
}

/// The content of each call of a list.
pub open spec fn call_views(calls: Seq<PlatformCall>) -> Seq<PlatformCallView> {
    Seq::new(calls.len(), |i: int| calls[i]@)
}

impl PendingQuery {
    /// Takes the reply to the call that the query waits for and says what
    /// follows, as [`query_resume`] has it.
    pub fn resume(self, reply: PlatformReply) -> (step: QueryStep)
        ensures
            step@ == query_resume(self@, reply),
    {
        match self.phase {
            QueryPhase::Executing => {
                if reply.is_failure() {
                    QueryStep::Call {
                        call: PlatformCall::GetLastError,
                        next: PendingQuery { phase: QueryPhase::Failed { status: reply.status } },
                    }
                } else {
                    QueryStep::Done(Err(MigError::from_kind(MigErrorKind::NotImpl)))
                }
            },
            QueryPhase::Failed { status } => QueryStep::Done(
                Err(MigError::from_os_error(status, reply.status, REMARK_QUERY)),
            ),
        }
    }
}

impl Handshake {
    #[verifier::type_invariant]
    spec fn inv(self) -> bool {
        self@.wf()
    }

    /// The error that ends the handshake after a failure of `stage`.
    fn failure(stage: ConnectStage, status: i32, os_error: i32) -> (error: MigError)
        ensures
            error@ == MigErrorView::platform(status, os_error, connect_remark(stage)),
    {
        match stage {
            ConnectStage::Locator => MigError::from_os_error(status, os_error, REMARK_LOCATOR),
            ConnectStage::Server => MigError::from_os_error(status, os_error, REMARK_CONNECT),
            ConnectStage::Security => MigError::from_os_error(status, os_error, REMARK_BLANKET),
        }
    }

    /// Takes the reply to the call that the handshake waits for and says what
    /// follows, as [`connect_resume`] has it. A session comes out only with
    /// both of its objects, an error only with the activation handle.
    pub fn resume(self, reply: PlatformReply) -> (step: ConnectStep)
        ensures
            self@.wf(),
            step@ == connect_resume(self@, reply),
            step@ matches ConnectStepView::Connected(session) ==> session.wf(),
            step@ matches ConnectStepView::Call { call, next } ==> next.wf(),
    {
        proof {
            use_type_invariant(&self);
        }
        let Handshake { com_api, namespace, phase, p_loc, p_svc } = self;
        match phase {
            ConnectPhase::CreatingLocator => {
                if reply.is_failure() || reply.object == 0 {
                    ConnectStep::Call {
                        call: PlatformCall::GetLastError,
                        next: Handshake {
                            com_api,
                            namespace,
                            phase: ConnectPhase::Failed {
                                stage: ConnectStage::Locator,
                                status: reply.status,
                            },
                            p_loc,
                            p_svc,
                        },
                    }
                } else {
                    ConnectStep::Call {
                        call: PlatformCall::ConnectServer {
                            locator: reply.object,
                            namespace: namespace.clone(),
                        },
                        next: Handshake {
                            com_api,
                            namespace,
                            phase: ConnectPhase::Connecting,
                            p_loc: reply.object,
                            p_svc,
                        },
                    }
                }
            },
            ConnectPhase::Connecting => {
                if reply.is_failure() || reply.object == 0 {
                    ConnectStep::Call {
                        call: PlatformCall::GetLastError,
                        next: Handshake {
                            com_api,
                            namespace,
                            phase: ConnectPhase::Failed {
                                stage: ConnectStage::Server,
                                status: reply.status,
                            },
                            p_loc,
                            p_svc,
                        },
                    }
                } else {
                    ConnectStep::Call {
                        call: PlatformCall::CoSetProxyBlanket {
                            proxy: reply.object,
                            authn_service: RPC_C_AUTHN_WINNT,
                            authz_service: RPC_C_AUTHZ_NONE,
                            authn_level: RPC_C_AUTHN_LEVEL_CALL,
                            imp_level: RPC_C_IMP_LEVEL_IMPERSONATE,
                            capabilities: EOAC_NONE,
                        },
                        next: Handshake {
                            com_api,
                            namespace,
                            phase: ConnectPhase::Securing,
                            p_loc,
                            p_svc: reply.object,
                        },
                    }
                }
            },
            ConnectPhase::Securing => {
                if reply.is_failure() {
                    ConnectStep::Call {
                        call: PlatformCall::GetLastError,
                        next: Handshake {
                            com_api,
                            namespace,
                            phase: ConnectPhase::Failed {
                                stage: ConnectStage::Security,
                                status: reply.status,
                            },
                            p_loc,
                            p_svc,
                        },
                    }
                } else {
                    ConnectStep::Connected(WmiAPI { com_api, p_loc, p_svc })
                }
            },
            ConnectPhase::Failed { stage, status } => match stage {
                ConnectStage::Locator => ConnectStep::Failed {
                    error: Handshake::failure(stage, status, reply.status),
                    com_api,
                },
                ConnectStage::Server => ConnectStep::Call {
                    call: PlatformCall::Release { object: p_loc },
                    next: Handshake {
                        com_api,
                        namespace,
                        phase: ConnectPhase::ReleasingLocator {
                            stage,
                            status,
                            os_error: reply.status,
                        },
                        p_loc: 0,
                        p_svc,
                    },
                },
                ConnectStage::Security => ConnectStep::Call {
                    call: PlatformCall::Release { object: p_svc },
                    next: Handshake {
                        com_api,
                        namespace,
                        phase: ConnectPhase::ReleasingServices { status, os_error: reply.status },
                        p_loc,
                        p_svc: 0,
                    },
                },
            },
            ConnectPhase::ReleasingServices { status, os_error } => ConnectStep::Call {
                call: PlatformCall::Release { object: p_loc },
                next: Handshake {
                    com_api,
                    namespace,
                    phase: ConnectPhase::ReleasingLocator {
                        stage: ConnectStage::Security,
                        status,
                        os_error,
                    },
                    p_loc: 0,
                    p_svc,
                },
            },
            ConnectPhase::ReleasingLocator { stage, status, os_error } => ConnectStep::Failed {
                error: Handshake::failure(stage, status, os_error),
                com_api,
            },
        }
    }
}

impl WmiAPI {
    #[verifier::type_invariant]
    spec fn inv(self) -> bool {
        self@.wf()
    }

    /// Begins the handshake with the namespace of the given name, on an
    /// activation that `h_com_api` keeps up.
    pub fn connect(h_com_api: HComApi, namespace: &str) -> (step: ConnectStep)
        ensures
            step@ == connect_begin(utf16_units(namespace@).push(0)),
    {
        ConnectStep::Call {
            call: PlatformCall::CoCreateInstance { context: CLSCTX_INPROC_SERVER },
            next: Handshake {
                com_api: h_com_api,
                namespace: to_wide_cstring(namespace),
                phase: ConnectPhase::CreatingLocator,
                p_loc: 0,
                p_svc: 0,
            },
        }
    }

    /// Begins the handshake with the default namespace.
    pub fn get_api_from_hcom(h_com_api: HComApi) -> (step: ConnectStep)
        ensures
            step@ == connect_begin(utf16_units(DEFAULT_NAMESPACE@).push(0)),
    {
        WmiAPI::connect(h_com_api, DEFAULT_NAMESPACE)
    }

    /// Goes on from the acquisition of the activation handle to the handshake
    /// with the default namespace. A failed acquisition is handed on, and
    /// nothing is asked of the platform.
    pub fn get_api(acquired: Result<HComApi, MigError>) -> (res: Result<ConnectStep, MigError>)
        ensures
            match acquired {
                Ok(h_com_api) => res matches Ok(step) && step@ == connect_begin(
                    utf16_units(DEFAULT_NAMESPACE@).push(0),
                ),
                Err(error) => res matches Err(e) && e@ == error@,
            },
    {
        match acquired {
            Ok(h_com_api) => Ok(WmiAPI::get_api_from_hcom(h_com_api)),
            Err(error) => Err(error),
        }
    }

    /// Address of the locator. It is never null.
    pub fn locator(&self) -> (address: usize)
        ensures
            address == self@.locator,
            self@.wf(),
    {
        proof {
            use_type_invariant(self);
        }
        self.p_loc
    }

    /// Address of the connection. It is never null.
    pub fn services(&self) -> (address: usize)
        ensures
            address == self@.services,
            self@.wf(),
    {
        proof {
            use_type_invariant(self);
        }
        self.p_svc
    }

    /// Begins a query with the given text, which is not examined. The session
    /// stays as it is.
    pub fn raw_query(&mut self, query: &str) -> (step: QueryStep)
        ensures
            final(self)@ == old(self)@,
            step@ == query_begin(old(self)@.services, query@),
    {
        QueryStep::Call {
            call: PlatformCall::ExecQuery {
                services: self.p_svc,
                language: to_wide_cstring(QUERY_LANGUAGE),
                query: to_wide_cstring(query),
                flags: QUERY_FLAGS,
            },
            next: PendingQuery { phase: QueryPhase::Executing },
        }
    }

    /// Ends the session: says which objects are to be released, in their
    /// order, and gives the activation handle back to `registry`.
    pub fn close(self, registry: &mut ComRegistry) -> (calls: Vec<PlatformCall>)
        ensures
            final(registry)@ == release_next(old(registry)@).0,
            call_views(calls@) == close_calls(self@, old(registry)@),
    {
        let WmiAPI { com_api, p_loc, p_svc } = self;
        let mut calls: Vec<PlatformCall> = Vec::new();
        calls.push(PlatformCall::Release { object: p_svc });
        calls.push(PlatformCall::Release { object: p_loc });
        match registry.release(com_api) {
            Some(call) => {
                calls.push(call);
            },
            None => {},
        }
        proof {
            assert(call_views(calls@) =~= close_calls(self@, old(registry)@));
        }
        calls
    }
}

/// What a driver sees of one handshake: the calls it asked for, in order, and
/// how it ended if it did end.
pub struct ConnectRun {
    pub calls: Seq<PlatformCallView>,
    pub outcome: Option<Result<WmiApiView, MigErrorView>>,
}

/// The handshake from `step` onwards, each call answered by the next of
/// `replies`. Replies beyond the end of the handshake are not looked at.
pub open spec fn connect_drive(step: ConnectStepView, replies: Seq<PlatformReply>) -> ConnectRun
    decreases replies.len(),
{
    match step {
        ConnectStepView::Connected(session) => ConnectRun {
            calls: Seq::empty(),
            outcome: Some(Ok(session)),
        },
        ConnectStepView::Failed(error) => ConnectRun {
            calls: Seq::empty(),
            outcome: Some(Err(error)),
        },
        ConnectStepView::Call { call, next } => if replies.len() == 0 {
            ConnectRun { calls: seq![call], outcome: None }
        } else {
            let rest = connect_drive(connect_resume(next, replies[0]), replies.drop_first());
            ConnectRun { calls: seq![call] + rest.calls, ..rest }
        },
    }
}

/// One handshake with the namespace of the given wide name.
pub open spec fn connect_run(namespace: Seq<u16>, replies: Seq<PlatformReply>) -> ConnectRun {
    connect_drive(connect_begin(namespace), replies)
}

/// What a driver sees of one query.
pub struct QueryRun {
    pub calls: Seq<PlatformCallView>,
    pub outcome: Option<Result<(), MigErrorView>>,
}

/// The query from `step` onwards, each call answered by the next of
/// `replies`.
pub open spec fn query_drive(step: QueryStepView, replies: Seq<PlatformReply>) -> QueryRun
    decreases replies.len(),
{
    match step {
        QueryStepView::Done(outcome) => QueryRun { calls: Seq::empty(), outcome: Some(outcome) },
        QueryStepView::Call { call, next } => if replies.len() == 0 {
            QueryRun { calls: seq![call], outcome: None }
        } else {
            let rest = query_drive(query_resume(next, replies[0]), replies.drop_first());
            QueryRun { calls: seq![call] + rest.calls, ..rest }
        },
    }
}

/// A reply that reports success and hands out an object.
pub open spec fn delivered(reply: PlatformReply) -> bool {
    !reply.failed() && reply.object != 0
}

/// The call that asks for the locator.
pub open spec fn call_locator() -> PlatformCallView {
    PlatformCallView::CoCreateInstance { context: CLSCTX_INPROC_SERVER }
}

/// The call that connects `locator` to the namespace.
pub open spec fn call_connect(locator: usize, namespace: Seq<u16>) -> PlatformCallView {
    PlatformCallView::ConnectServer { locator, namespace }
}

/// The call that sets the security of the connection `services`.
pub open spec fn call_blanket(services: usize) -> PlatformCallView {
    PlatformCallView::CoSetProxyBlanket {
        proxy: services,
        authn_service: RPC_C_AUTHN_WINNT,
        authz_service: RPC_C_AUTHZ_NONE,
        authn_level: RPC_C_AUTHN_LEVEL_CALL,
        imp_level: RPC_C_IMP_LEVEL_IMPERSONATE,
        capabilities: EOAC_NONE,
    }
}

/// The flags of a query are the two that it names, and no other.
pub proof fn lemma_query_flags()
    ensures
        QUERY_FLAGS == 0x30,
        QUERY_FLAGS & WBEM_FLAG_FORWARD_ONLY == WBEM_FLAG_FORWARD_ONLY,
        QUERY_FLAGS & WBEM_FLAG_RETURN_IMMEDIATELY == WBEM_FLAG_RETURN_IMMEDIATELY,
{
    assert(0x20i32 | 0x10i32 == 0x30i32) by (bit_vector);
    assert(0x30i32 & 0x20i32 == 0x20i32) by (bit_vector);
    assert(0x30i32 & 0x10i32 == 0x10i32) by (bit_vector);
}

/// A step keeps a handshake well formed, and a session that comes out of it
/// holds both of its objects.
pub proof fn lemma_resume_stays_wf(handshake: HandshakeView, reply: PlatformReply)
    requires
        handshake.wf(),
    ensures
        match connect_resume(handshake, reply) {
            ConnectStepView::Call { call, next } => next.wf() && next.namespace
                == handshake.namespace,
            ConnectStepView::Connected(session) => session.wf(),
            ConnectStepView::Failed(error) => error.kind == MigErrorKind::WinApi,
        },
{
}

/// The calls of a handshake keep their order: where the locator is not
/// obtained, the error code is fetched and nothing else is ever called,
/// neither the connection nor its security; and the handshake ends in the
/// error that names the call and holds its status and the error code.
pub proof fn lemma_locator_failure(namespace: Seq<u16>, replies: Seq<PlatformReply>)
    requires
        replies.len() >= 1,
        !delivered(replies[0]),
    ensures
        connect_run(namespace, replies).calls == seq![
            call_locator(),
            PlatformCallView::GetLastError,
        ],
        replies.len() >= 2 ==> connect_run(namespace, replies).outcome == Some(
            Err::<WmiApiView, MigErrorView>(
                MigErrorView::platform(replies[0].status, replies[1].status, REMARK_LOCATOR@),
            ),
        ),
        replies.len() < 2 ==> connect_run(namespace, replies).outcome is None,
{
    reveal_with_fuel(connect_drive, 4);
    let r1 = replies.drop_first();
    if r1.len() >= 1 {
        assert(r1[0] == replies[1]);
    }
    assert(connect_run(namespace, replies).calls =~= seq![
        call_locator(),
        PlatformCallView::GetLastError,
    ]);
}

/// Where the connection is not obtained, the error code is fetched, then the
/// locator is released, and the security is never set. The handshake ends in
/// the error that names the call and holds its status and the error code.
pub proof fn lemma_connect_failure(namespace: Seq<u16>, replies: Seq<PlatformReply>)
    requires
        replies.len() >= 4,
        delivered(replies[0]),
        !delivered(replies[1]),
    ensures
        connect_run(namespace, replies) == (ConnectRun {
            calls: seq![
                call_locator(),
                call_connect(replies[0].object, namespace),
                PlatformCallView::GetLastError,
                PlatformCallView::Release { object: replies[0].object },
            ],
            outcome: Some(
                Err(MigErrorView::platform(replies[1].status, replies[2].status, REMARK_CONNECT@)),
            ),
        }),
{
    reveal_with_fuel(connect_drive, 6);
    let r1 = replies.drop_first();
    let r2 = r1.drop_first();
    let r3 = r2.drop_first();
    assert(r1[0] == replies[1]);
    assert(r2[0] == replies[2]);
    assert(r3[0] == replies[3]);
    assert(connect_run(namespace, replies).calls =~= seq![
        call_locator(),
        call_connect(replies[0].object, namespace),
        PlatformCallView::GetLastError,
        PlatformCallView::Release { object: replies[0].object },
    ]);
}

/// Where the security of the connection cannot be set, the error code is
/// fetched, then the connection is released, then the locator. The handshake
/// ends in the error that names the call and holds its status and the error
/// code.
pub proof fn lemma_blanket_failure(namespace: Seq<u16>, replies: Seq<PlatformReply>)
    requires
        replies.len() >= 6,
        delivered(replies[0]),
        delivered(replies[1]),
        replies[2].failed(),
    ensures
        connect_run(namespace, replies) == (ConnectRun {
            calls: seq![
                call_locator(),
                call_connect(replies[0].object, namespace),
                call_blanket(replies[1].object),
                PlatformCallView::GetLastError,
                PlatformCallView::Release { object: replies[1].object },
                PlatformCallView::Release { object: replies[0].object },
            ],
            outcome: Some(
                Err(MigErrorView::platform(replies[2].status, replies[3].status, REMARK_BLANKET@)),
            ),
        }),
{
    reveal_with_fuel(connect_drive, 8);
    let r1 = replies.drop_first();
    let r2 = r1.drop_first();
    let r3 = r2.drop_first();
    let r4 = r3.drop_first();
    let r5 = r4.drop_first();
    assert(r1[0] == replies[1]);
    assert(r2[0] == replies[2]);
    assert(r3[0] == replies[3]);
    assert(r4[0] == replies[4]);
    assert(r5[0] == replies[5]);
    assert(connect_run(namespace, replies).calls =~= seq![
        call_locator(),
        call_connect(replies[0].object, namespace),
        call_blanket(replies[1].object),
        PlatformCallView::GetLastError,
        PlatformCallView::Release { object: replies[1].object },
        PlatformCallView::Release { object: replies[0].object },
    ]);
}

/// A session is whole or there is none: a handshake ends with a session
/// exactly if its three calls succeed, the first two handing out an object.
/// The session then holds these two objects, neither of them null, and the
/// three calls are all that was asked for.
pub proof fn lemma_session_is_whole(namespace: Seq<u16>, replies: Seq<PlatformReply>)
    ensures
        connect_run(namespace, replies).outcome matches Some(Ok(session)) <==> (replies.len() >= 3
            && delivered(replies[0]) && delivered(replies[1]) && !replies[2].failed()),
        connect_run(namespace, replies).outcome matches Some(Ok(session)) ==> {
            &&& session.wf()
            &&& session == (WmiApiView {
                locator: replies[0].object,
                services: replies[1].object,
            })
            &&& connect_run(namespace, replies).calls == seq![
                call_locator(),
                call_connect(replies[0].object, namespace),
                call_blanket(replies[1].object),
            ]
        },
{
    reveal_with_fuel(connect_drive, 8);
    let run = connect_run(namespace, replies);
    if replies.len() >= 2 {
        assert(replies.drop_first()[0] == replies[1]);
    }
    if replies.len() >= 3 {
        assert(replies.drop_first().drop_first()[0] == replies[2]);
    }
    if run.outcome matches Some(Ok(session)) {
        assert(run.calls =~= seq![
            call_locator(),
            call_connect(replies[0].object, namespace),
            call_blanket(replies[1].object),
        ]);
    }
}

/// A query whose execution succeeds still ends in the report that its result
/// cannot be handed out yet; nothing but the execution is asked for.
pub proof fn lemma_query_not_implemented(
    services: usize,
    query: Seq<char>,
    replies: Seq<PlatformReply>,
)
    requires
        replies.len() >= 1,
        !replies[0].failed(),
    ensures
        query_drive(query_begin(services, query), replies) == (QueryRun {
            calls: seq![
                PlatformCallView::ExecQuery {
                    services,
                    language: utf16_units(QUERY_LANGUAGE@).push(0),
                    query: utf16_units(query).push(0),
                    flags: QUERY_FLAGS,
                },
            ],
            outcome: Some(Err(MigErrorView::bare(MigErrorKind::NotImpl))),
        }),
{
    reveal_with_fuel(query_drive, 3);
    let run = query_drive(query_begin(services, query), replies);
    assert(run.calls =~= seq![
        PlatformCallView::ExecQuery {
            services,
            language: utf16_units(QUERY_LANGUAGE@).push(0),
            query: utf16_units(query).push(0),
            flags: QUERY_FLAGS,
        },
    ]);
}

/// A query whose execution fails has the error code fetched and ends in the
/// error that names the call and holds its status and the error code.
pub proof fn lemma_query_failure(services: usize, query: Seq<char>, replies: Seq<PlatformReply>)
    requires
        replies.len() >= 2,
        replies[0].failed(),
    ensures
        query_drive(query_begin(services, query), replies).outcome == Some(
            Err::<(), MigErrorView>(
                MigErrorView::platform(replies[0].status, replies[1].status, REMARK_QUERY@),
            ),
        ),
        query_drive(query_begin(services, query), replies).calls.len() == 2,
        query_drive(query_begin(services, query), replies).calls[1]
            == PlatformCallView::GetLastError,
{
    reveal_with_fuel(query_drive, 4);
    let r1 = replies.drop_first();
    assert(r1[0] == replies[1]);
}

} // verus!
