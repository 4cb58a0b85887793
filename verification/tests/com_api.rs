use win_api::com_api::{get_com_api, ComEvent, ComPhase, ComRegistry, HComApi};
use win_api::error::{MigError, MigErrorKind};
use win_api::platform::{PlatformCall, PlatformReply, Step};

/// Stands for the platform: answers each call with the status it was told
/// to, and counts the calls.
struct Double {
    init_status: i32,
    security_status: i32,
    last_error: i32,
    inits: u32,
    securities: u32,
    shutdowns: u32,
    last_errors: u32,
    log: Vec<PlatformCall>,
}

impl Double {
    fn new() -> Double {
        Double {
            init_status: 0,
            security_status: 0,
            last_error: 0,
            inits: 0,
            securities: 0,
            shutdowns: 0,
            last_errors: 0,
            log: Vec::new(),
        }
    }

    fn perform(&mut self, call: PlatformCall) -> PlatformReply {
        self.log.push(call.clone());
        let status = match call {
            PlatformCall::CoInitializeEx { .. } => {
                self.inits += 1;
                self.init_status
            }
            PlatformCall::CoInitializeSecurity { .. } => {
                self.securities += 1;
                self.security_status
            }
            PlatformCall::CoUninitialize => {
                self.shutdowns += 1;
                0
            }
            PlatformCall::GetLastError => {
                self.last_errors += 1;
                self.last_error
            }
            other => panic!("unexpected call {:?}", other),
        };
        PlatformReply { status, object: 0 }
    }

    fn acquire(&mut self, registry: &mut ComRegistry) -> Result<HComApi, MigError> {
        let mut step = get_com_api(registry, ComEvent::Begin { locked: true });
        loop {
            match step {
                Step::Call(call) => {
                    let reply = self.perform(call);
                    step = get_com_api(registry, ComEvent::Reply(reply));
                }
                Step::Done(result) => return result,
            }
        }
    }

    fn release(&mut self, registry: &mut ComRegistry, handle: HComApi) {
        if let Some(call) = registry.release(handle) {
            self.perform(call);
        }
    }
}

#[test]
fn new_registry_is_down() {
    let registry = ComRegistry::new();
    assert!(!registry.is_ready());
    assert_eq!(registry.handle_count(), 0);
    assert_eq!(registry.phase(), ComPhase::Idle);
}

#[test]
fn first_acquisition_initializes_with_the_fixed_parameters() {
    let mut registry = ComRegistry::new();
    let mut platform = Double::new();
    platform.acquire(&mut registry).unwrap();
    assert_eq!(
        platform.log,
        vec![
            PlatformCall::CoInitializeEx { concurrency: 0 },
            PlatformCall::CoInitializeSecurity {
                auth_services: -1,
                authn_level: 0,
                imp_level: 3,
                capabilities: 0,
            },
        ]
    );
    assert!(registry.is_ready());
    assert_eq!(registry.handle_count(), 1);
}

#[test]
fn acquisitions_share_one_initialization() {
    let mut registry = ComRegistry::new();
    let mut platform = Double::new();
    let mut handles = Vec::new();
    for _ in 0..5 {
        handles.push(platform.acquire(&mut registry).unwrap());
    }
    assert_eq!(handles.len(), 5);
    assert_eq!(platform.inits, 1);
    assert_eq!(platform.securities, 1);
    assert_eq!(platform.shutdowns, 0);
    assert_eq!(registry.handle_count(), 5);
}

#[test]
fn last_release_shuts_down_once() {
    let mut registry = ComRegistry::new();
    let mut platform = Double::new();
    let first = platform.acquire(&mut registry).unwrap();
    let second = platform.acquire(&mut registry).unwrap();
    let third = platform.acquire(&mut registry).unwrap();
    platform.release(&mut registry, second);
    platform.release(&mut registry, first);
    assert_eq!(platform.shutdowns, 0);
    assert!(registry.is_ready());
    platform.release(&mut registry, third);
    assert_eq!(platform.shutdowns, 1);
    assert!(!registry.is_ready());
    assert_eq!(registry.handle_count(), 0);
}

#[test]
fn acquisition_after_shutdown_initializes_again() {
    let mut registry = ComRegistry::new();
    let mut platform = Double::new();
    let handle = platform.acquire(&mut registry).unwrap();
    platform.release(&mut registry, handle);
    let again = platform.acquire(&mut registry).unwrap();
    assert_eq!(platform.inits, 2);
    assert_eq!(platform.securities, 2);
    assert_eq!(platform.shutdowns, 1);
    platform.release(&mut registry, again);
    assert_eq!(platform.shutdowns, 2);
}

#[test]
fn shutdown_never_comes_without_initialization() {
    let mut registry = ComRegistry::new();
    let mut platform = Double::new();
    platform.init_status = -5;
    assert!(platform.acquire(&mut registry).is_err());
    assert_eq!(platform.shutdowns, 0);
}

#[test]
fn failed_initialization_leaves_nothing_behind() {
    let mut registry = ComRegistry::new();
    let mut platform = Double::new();
    platform.init_status = -2147467259;
    platform.last_error = 1008;
    let err = platform.acquire(&mut registry).unwrap_err();
    assert_eq!(err.kind(), MigErrorKind::WinApi);
    assert_eq!(err.status(), Some(-2147467259));
    assert_eq!(err.os_error(), Some(1008));
    assert_eq!(err.remark(), "win_api::com_api::get_com_api: CoInitializeEx failed");
    assert!(err.remark().contains("CoInitializeEx"));
    assert_eq!(
        platform.log,
        vec![PlatformCall::CoInitializeEx { concurrency: 0 }, PlatformCall::GetLastError]
    );
    assert!(!registry.is_ready());
    assert_eq!(registry.phase(), ComPhase::Idle);
}

#[test]
fn security_failure_is_rolled_back() {
    let mut registry = ComRegistry::new();
    let mut platform = Double::new();
    platform.security_status = -1;
    platform.last_error = -1;
    let err = platform.acquire(&mut registry).unwrap_err();
    assert_eq!(err.kind(), MigErrorKind::WinApi);
    assert_eq!(err.status(), Some(-1));
    assert_eq!(err.os_error(), Some(-1));
    assert!(err.remark().contains("CoInitializeSecurity"));
    assert_eq!(platform.shutdowns, 1);
    assert!(!registry.is_ready());
    assert_eq!(registry.handle_count(), 0);
    assert_eq!(registry.phase(), ComPhase::Idle);
}

#[test]
fn rollback_comes_after_the_error_code_and_before_the_error() {
    let mut registry = ComRegistry::new();
    let ok = PlatformReply { status: 0, object: 0 };
    let step = get_com_api(&mut registry, ComEvent::Begin { locked: true });
    assert!(matches!(step, Step::Call(PlatformCall::CoInitializeEx { .. })));
    let step = get_com_api(&mut registry, ComEvent::Reply(ok));
    assert!(matches!(step, Step::Call(PlatformCall::CoInitializeSecurity { .. })));
    let step = get_com_api(&mut registry, ComEvent::Reply(PlatformReply { status: -7, object: 0 }));
    assert!(matches!(step, Step::Call(PlatformCall::GetLastError)));
    assert_eq!(registry.phase(), ComPhase::SecurityFailed { status: -7 });
    let step = get_com_api(&mut registry, ComEvent::Reply(PlatformReply { status: 5, object: 0 }));
    assert!(matches!(step, Step::Call(PlatformCall::CoUninitialize)));
    assert_eq!(registry.phase(), ComPhase::RollingBack { status: -7, os_error: 5 });
    let step = get_com_api(&mut registry, ComEvent::Reply(ok));
    match step {
        Step::Done(Err(err)) => {
            assert_eq!(err.status(), Some(-7));
            assert_eq!(err.os_error(), Some(5));
        }
        other => panic!("unexpected step {:?}", other),
    }
}

#[test]
fn acquisition_after_rollback_starts_from_scratch() {
    let mut registry = ComRegistry::new();
    let mut platform = Double::new();
    platform.security_status = -1;
    assert!(platform.acquire(&mut registry).is_err());
    platform.security_status = 0;
    let handle = platform.acquire(&mut registry).unwrap();
    assert_eq!(platform.inits, 2);
    assert_eq!(platform.securities, 2);
    assert_eq!(platform.shutdowns, 1);
    assert_eq!(registry.handle_count(), 1);
    platform.release(&mut registry, handle);
}

#[test]
fn positive_status_is_success() {
    let mut registry = ComRegistry::new();
    let mut platform = Double::new();
    platform.init_status = 1;
    platform.security_status = 1;
    assert!(platform.acquire(&mut registry).is_ok());
    assert_eq!(platform.last_errors, 0);
}

#[test]
fn caller_without_the_lock_is_turned_away() {
    let mut registry = ComRegistry::new();
    let step = get_com_api(&mut registry, ComEvent::Begin { locked: false });
    match step {
        Step::Done(Err(err)) => {
            assert_eq!(err.kind(), MigErrorKind::MutAccess);
            assert_eq!(err.remark(), "win_api::com_api::get_com_api: failed to lock mutex");
            assert_eq!(err.status(), None);
            assert_eq!(err.os_error(), None);
        }
        other => panic!("unexpected step {:?}", other),
    }
    assert!(!registry.is_ready());
    assert_eq!(registry.phase(), ComPhase::Idle);
}

#[test]
fn second_acquisition_during_the_first_is_turned_away() {
    let mut registry = ComRegistry::new();
    let step = get_com_api(&mut registry, ComEvent::Begin { locked: true });
    assert!(matches!(step, Step::Call(_)));
    let step = get_com_api(&mut registry, ComEvent::Begin { locked: true });
    match step {
        Step::Done(Err(err)) => assert_eq!(err.kind(), MigErrorKind::MutAccess),
        other => panic!("unexpected step {:?}", other),
    }
    assert_eq!(registry.phase(), ComPhase::Initializing);
}

#[test]
fn reply_without_a_pending_call_is_refused() {
    let mut registry = ComRegistry::new();
    let step = get_com_api(&mut registry, ComEvent::Reply(PlatformReply { status: 0, object: 0 }));
    match step {
        Step::Done(Err(err)) => assert_eq!(err.kind(), MigErrorKind::InvParam),
        other => panic!("unexpected step {:?}", other),
    }
    assert!(!registry.is_ready());
}

#[test]
fn closing_the_marker_asks_for_the_shutdown() {
    let mut registry = ComRegistry::new();
    let mut platform = Double::new();
    let handle = platform.acquire(&mut registry).unwrap();
    assert_eq!(registry.release(handle), Some(PlatformCall::CoUninitialize));
}

#[test]
fn error_constructors_keep_what_they_are_given() {
    let bare = MigError::from_kind(MigErrorKind::NotImpl);
    assert_eq!(bare.kind(), MigErrorKind::NotImpl);
    assert_eq!(bare.remark(), "");
    let remarked = MigError::from_remark(MigErrorKind::MutAccess, "busy");
    assert_eq!(remarked.kind(), MigErrorKind::MutAccess);
    assert_eq!(remarked.remark(), "busy");
    assert_eq!(remarked.status(), None);
    let platform = MigError::from_os_error(-3, 87, "call failed");
    assert_eq!(platform.kind(), MigErrorKind::WinApi);
    assert_eq!(platform.remark(), "call failed");
    assert_eq!(platform.status(), Some(-3));
    assert_eq!(platform.os_error(), Some(87));
}
