use wizard::flow::{flow_step, FlowEvent, FlowState};

const ALL_EVENTS: [FlowEvent; 6] = [
    FlowEvent::FilePicked,
    FlowEvent::InstallRequested,
    FlowEvent::AuthorizationGranted,
    FlowEvent::AuthorizationDenied,
    FlowEvent::TransactionSucceeded,
    FlowEvent::RpcFailed,
];

#[test]
fn pick_selects_file() {
    assert_eq!(
        flow_step(FlowState::NoFileSelected, FlowEvent::FilePicked),
        FlowState::FileSelected
    );
    assert_eq!(
        flow_step(FlowState::FileSelected, FlowEvent::FilePicked),
        FlowState::FileSelected
    );
}

#[test]
fn install_request_awaits_authorization() {
    assert_eq!(
        flow_step(FlowState::FileSelected, FlowEvent::InstallRequested),
        FlowState::AwaitingAuthorization
    );
}

#[test]
fn authorization_resolves() {
    assert_eq!(
        flow_step(FlowState::AwaitingAuthorization, FlowEvent::AuthorizationGranted),
        FlowState::Installing
    );
    assert_eq!(
        flow_step(FlowState::AwaitingAuthorization, FlowEvent::AuthorizationDenied),
        FlowState::Failed
    );
    assert_eq!(
        flow_step(FlowState::AwaitingAuthorization, FlowEvent::RpcFailed),
        FlowState::Failed
    );
}

#[test]
fn installing_resolves() {
    assert_eq!(
        flow_step(FlowState::Installing, FlowEvent::TransactionSucceeded),
        FlowState::Installed
    );
    assert_eq!(
        flow_step(FlowState::Installing, FlowEvent::RpcFailed),
        FlowState::Failed
    );
}

#[test]
fn installed_is_terminal() {
    for e in ALL_EVENTS {
        assert_eq!(flow_step(FlowState::Installed, e), FlowState::Installed);
    }
}

#[test]
fn failed_restarts_only_on_new_pick() {
    assert_eq!(
        flow_step(FlowState::Failed, FlowEvent::FilePicked),
        FlowState::NoFileSelected
    );
    for e in ALL_EVENTS {
        if e != FlowEvent::FilePicked {
            assert_eq!(flow_step(FlowState::Failed, e), FlowState::Failed);
        }
    }
}

#[test]
fn irrelevant_events_leave_state_unchanged() {
    assert_eq!(
        flow_step(FlowState::NoFileSelected, FlowEvent::InstallRequested),
        FlowState::NoFileSelected
    );
    assert_eq!(
        flow_step(FlowState::FileSelected, FlowEvent::TransactionSucceeded),
        FlowState::FileSelected
    );
    assert_eq!(
        flow_step(FlowState::AwaitingAuthorization, FlowEvent::FilePicked),
        FlowState::AwaitingAuthorization
    );
    assert_eq!(
        flow_step(FlowState::Installing, FlowEvent::AuthorizationGranted),
        FlowState::Installing
    );
}

#[test]
fn happy_path_runs_to_installed() {
    let mut s = FlowState::NoFileSelected;
    for e in [
        FlowEvent::FilePicked,
        FlowEvent::InstallRequested,
        FlowEvent::AuthorizationGranted,
        FlowEvent::TransactionSucceeded,
    ] {
        s = flow_step(s, e);
    }
    assert_eq!(s, FlowState::Installed);
}
