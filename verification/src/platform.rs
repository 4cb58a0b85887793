//! The foreign calls that the gateway asks for, and what a driver reports
//! back. Parameters that are always null or empty are not listed.

use vstd::prelude::*;

verus! {

/// Concurrency model of `CoInitializeEx`: free-threaded.
pub const COINIT_MULTITHREADED: u32 = 0;

/// Number of authentication services for `CoInitializeSecurity`: the platform
/// chooses them.
pub const AUTH_SERVICES_ANY: i32 = -1;

/// Authentication level: the platform's default.
pub const RPC_C_AUTHN_LEVEL_DEFAULT: u32 = 0;

/// Authentication level: at the beginning of each call.
pub const RPC_C_AUTHN_LEVEL_CALL: u32 = 3;

/// Impersonation level: the server may act as the client.
pub const RPC_C_IMP_LEVEL_IMPERSONATE: u32 = 3;

/// Authentication service: NTLM.
pub const RPC_C_AUTHN_WINNT: u32 = 10;

/// Authorization service: none.
pub const RPC_C_AUTHZ_NONE: u32 = 0;

/// Capabilities: none.
pub const EOAC_NONE: u32 = 0;

/// Class context: a server that runs in the caller's process.
pub const CLSCTX_INPROC_SERVER: u32 = 1;

/// Query flag: the call returns before the result is complete.
pub const WBEM_FLAG_RETURN_IMMEDIATELY: i32 = 0x10;

/// Query flag: the enumerator can be walked once, forwards.
pub const WBEM_FLAG_FORWARD_ONLY: i32 = 0x20;

/// A foreign call for the driver to make. Objects are given by address.
#[derive(Clone, Debug, PartialEq, Eq)]
pub enum PlatformCall {
    /// `CoInitializeEx`: initialize the object subsystem for the thread.
    CoInitializeEx { concurrency: u32 },
    /// `CoInitializeSecurity`: set the process-wide security defaults.
    CoInitializeSecurity { auth_services: i32, authn_level: u32, imp_level: u32, capabilities: u32 },
    /// `CoUninitialize`: shut the object subsystem down.
    CoUninitialize,
    /// `CoCreateInstance` for the WBEM locator class and interface.
    CoCreateInstance { context: u32 },
    /// `IWbemLocator::ConnectServer` on `locator`, with the zero-terminated
    /// name of the namespace.
    ConnectServer { locator: usize, namespace: Vec<u16> },
    /// `CoSetProxyBlanket` on `proxy`.
    CoSetProxyBlanket {
        proxy: usize,
        authn_service: u32,
        authz_service: u32,
        authn_level: u32,
        imp_level: u32,
        capabilities: u32,
    },
    /// `IWbemServices::ExecQuery` on `services`, with the zero-terminated
    /// names of the query language and the query.
    ExecQuery { services: usize, language: Vec<u16>, query: Vec<u16>, flags: i32 },
    /// `IUnknown::Release` on `object`.
    Release { object: usize },
    /// Fetch the calling thread's last error code.
    GetLastError,
}

/// The mathematical content of a [`PlatformCall`].
pub enum PlatformCallView {
    CoInitializeEx { concurrency: u32 },
    CoInitializeSecurity { auth_services: i32, authn_level: u32, imp_level: u32, capabilities: u32 },
    CoUninitialize,
    CoCreateInstance { context: u32 },
    ConnectServer { locator: usize, namespace: Seq<u16> },
    CoSetProxyBlanket {
        proxy: usize,
        authn_service: u32,
        authz_service: u32,
        authn_level: u32,
        imp_level: u32,
        capabilities: u32,
    },
    ExecQuery { services: usize, language: Seq<u16>, query: Seq<u16>, flags: i32 },
    Release { object: usize },
    GetLastError,
}

impl View for PlatformCall {
    type V = PlatformCallView;

    open spec fn view(&self) -> PlatformCallView {
        match *self {
            PlatformCall::CoInitializeEx { concurrency } => PlatformCallView::CoInitializeEx {
                concurrency,
            },
            PlatformCall::CoInitializeSecurity {
                auth_services,
                authn_level,
                imp_level,
                capabilities,
            } => PlatformCallView::CoInitializeSecurity {
                auth_services,
                authn_level,
                imp_level,
                capabilities,
            },
            PlatformCall::CoUninitialize => PlatformCallView::CoUninitialize,
            PlatformCall::CoCreateInstance { context } => PlatformCallView::CoCreateInstance {
                context,
            },
            PlatformCall::ConnectServer { locator, namespace } => PlatformCallView::ConnectServer {
                locator,
                namespace: namespace@,
            },
            PlatformCall::CoSetProxyBlanket {
                proxy,
                authn_service,
                authz_service,
                authn_level,
                imp_level,
                capabilities,
            } => PlatformCallView::CoSetProxyBlanket {
                proxy,
                authn_service,
                authz_service,
                authn_level,
                imp_level,
                capabilities,
            },
            PlatformCall::ExecQuery { services, language, query, flags } => {
                PlatformCallView::ExecQuery { services, language: language@, query: query@, flags }
            },
            PlatformCall::Release { object } => PlatformCallView::Release { object },
            PlatformCall::GetLastError => PlatformCallView::GetLastError,
        }
    }
}

/// What a foreign call returned.
#[derive(Clone, Copy, Debug, PartialEq, Eq, Structural)]
pub struct PlatformReply {
    /// The status that the call returned; for `GetLastError` the error code.
    /// A call that returns nothing is reported with any value.
    pub status: i32,
    /// Address of the object that the call handed out; zero where it handed
    /// out none.
    pub object: usize,
}

impl PlatformReply {
    /// A negative status reports failure.
    pub open spec fn failed(self) -> bool {
        self.status < 0
    }

    /// Whether the call failed.
    #[verifier::when_used_as_spec(failed)]
    pub fn is_failure(self) -> (failure: bool)
        ensures
            failure == self.failed(),
    {
        self.status < 0
    }
}

/// A step of an operation: the call to make next, or how the operation ended.
#[derive(Debug)]
pub enum Step<T> {
    Call(PlatformCall),
    Done(Result<T, crate::error::MigError>),
}

/// The mathematical content of a [`Step`].
pub enum StepView<T> {
    Call(PlatformCallView),
    Done(Result<T, crate::error::MigErrorView>),
}

impl<T: View> View for Step<T> {
    type V = StepView<T::V>;

    open spec fn view(&self) -> StepView<T::V> {
        match *self {
            Step::Call(call) => StepView::Call(call@),
            Step::Done(Ok(value)) => StepView::Done(Ok(value@)),
            Step::Done(Err(err)) => StepView::Done(Err(err@)),
        }
    }
}

} // verus!
