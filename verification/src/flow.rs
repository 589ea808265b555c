//! The install flow as a state machine.
//!
//! One install of a chosen file runs through six states: no file selected,
//! a file selected, authorization being checked, the daemon installing,
//! installed, or failed. Every remote-call failure resolves to `Failed`;
//! no response ever leaves the flow waiting.

use crate::package::AuthorizationEvent;
use crate::package::InstallError;
use crate::package::spec_grant_decision;
use crate::package::spec_grant_outcome;
use crate::package::spec_permission;
use crate::package::GrantStep;
use vstd::prelude::*;

verus! {

/// Where one install of a chosen file stands.
#[derive(Clone, Copy, Debug, PartialEq, Eq, Structural)]
pub enum FlowState {
    /// Initial: nothing chosen yet.
    NoFileSelected,
    /// A file path and name were captured.
    FileSelected,
    /// The authorization check is in flight.
    AwaitingAuthorization,
    /// The install call and the transaction run are in flight.
    Installing,
    /// Terminal: the transaction completed.
    Installed,
    /// Terminal: an error was surfaced; a new pick starts over.
    Failed,
}

/// What happened: a user action or the resolution of a remote call.
#[derive(Clone, Copy, Debug, PartialEq, Eq, Structural)]
pub enum FlowEvent {
    /// The file chooser returned a file.
    FilePicked,
    /// The user asked to install the selected file.
    InstallRequested,
    /// The authorization service allowed the install.
    AuthorizationGranted,
    /// The authorization service denied the install.
    AuthorizationDenied,
    /// The install transaction completed successfully.
    TransactionSucceeded,
    /// A remote call failed or returned an error.
    RpcFailed,
}

/// The transition table. An event that does not concern the current state
/// leaves it unchanged; `Failed` is left only by picking a new file, which
/// starts the flow over.
pub open spec fn spec_flow_step(s: FlowState, e: FlowEvent) -> FlowState {
    match (s, e) {
        (FlowState::NoFileSelected, FlowEvent::FilePicked) => FlowState::FileSelected,
        (FlowState::FileSelected, FlowEvent::FilePicked) => FlowState::FileSelected,
        (FlowState::FileSelected, FlowEvent::InstallRequested) => FlowState::AwaitingAuthorization,
        (FlowState::AwaitingAuthorization, FlowEvent::AuthorizationGranted) => FlowState::Installing,
        (FlowState::AwaitingAuthorization, FlowEvent::AuthorizationDenied) => FlowState::Failed,
        (FlowState::AwaitingAuthorization, FlowEvent::RpcFailed) => FlowState::Failed,
        (FlowState::Installing, FlowEvent::TransactionSucceeded) => FlowState::Installed,
        (FlowState::Installing, FlowEvent::RpcFailed) => FlowState::Failed,
        (FlowState::Failed, FlowEvent::FilePicked) => FlowState::NoFileSelected,
        (_, _) => s,
    }
}

/// Advances the flow by one event, exactly as the transition table states.
pub fn flow_step(s: FlowState, e: FlowEvent) -> (r: FlowState)
    ensures
        r == spec_flow_step(s, e),
{
    match (s, e) {
        (FlowState::NoFileSelected, FlowEvent::FilePicked) => FlowState::FileSelected,
        (FlowState::FileSelected, FlowEvent::FilePicked) => FlowState::FileSelected,
        (FlowState::FileSelected, FlowEvent::InstallRequested) => FlowState::AwaitingAuthorization,
        (FlowState::AwaitingAuthorization, FlowEvent::AuthorizationGranted) => FlowState::Installing,
        (FlowState::AwaitingAuthorization, FlowEvent::AuthorizationDenied) => FlowState::Failed,
        (FlowState::AwaitingAuthorization, FlowEvent::RpcFailed) => FlowState::Failed,
        (FlowState::Installing, FlowEvent::TransactionSucceeded) => FlowState::Installed,
        (FlowState::Installing, FlowEvent::RpcFailed) => FlowState::Failed,
        (FlowState::Failed, FlowEvent::FilePicked) => FlowState::NoFileSelected,
        (_, _) => s,
    }
}

/// Every remote-call failure surfaces as `Failed`: a failed call while
/// authorizing or installing ends the flow, and so does a denial while
/// authorizing.
pub proof fn lemma_failure_surfaces(s: FlowState)
    requires
        s == FlowState::AwaitingAuthorization || s == FlowState::Installing,
    ensures
        spec_flow_step(s, FlowEvent::RpcFailed) == FlowState::Failed,
        s == FlowState::AwaitingAuthorization ==> spec_flow_step(
            s,
            FlowEvent::AuthorizationDenied,
        ) == FlowState::Failed,
{
}

/// The flow never waits indefinitely: each possible resolution of the
/// authorization check leaves `AwaitingAuthorization`, and each possible
/// resolution of the transaction leaves `Installing`.
pub proof fn lemma_no_indefinite_wait(e: FlowEvent)
    ensures
        (e == FlowEvent::AuthorizationGranted || e == FlowEvent::AuthorizationDenied || e
            == FlowEvent::RpcFailed) ==> spec_flow_step(FlowState::AwaitingAuthorization, e)
            != FlowState::AwaitingAuthorization,
        (e == FlowEvent::TransactionSucceeded || e == FlowEvent::RpcFailed) ==> spec_flow_step(
            FlowState::Installing,
            e,
        ) != FlowState::Installing,
{
}

/// `Installed` is terminal: no event leaves it.
pub proof fn lemma_installed_terminal(e: FlowEvent)
    ensures
        spec_flow_step(FlowState::Installed, e) == FlowState::Installed,
{
}

/// `Failed` is terminal but for a restart: only picking a new file leaves
/// it, back to the initial state.
pub proof fn lemma_failed_restart(e: FlowEvent)
    ensures
        e == FlowEvent::FilePicked ==> spec_flow_step(FlowState::Failed, e)
            == FlowState::NoFileSelected,
        e != FlowEvent::FilePicked ==> spec_flow_step(FlowState::Failed, e) == FlowState::Failed,
{
}

/// The flow event a finished grant attempt corresponds to, seen from
/// `Installing`: the transaction succeeded, or the attempt failed — an
/// error, or any answer short of a completed install.
pub open spec fn spec_outcome_event(out: Result<bool, InstallError>) -> FlowEvent {
    match out {
        Ok(status) => if status {
            FlowEvent::TransactionSucceeded
        } else {
            FlowEvent::RpcFailed
        },
        Err(_) => FlowEvent::RpcFailed,
    }
}

/// The grant decision logic drives the flow machine from
/// `AwaitingAuthorization` to a resolved state, never leaving it waiting:
/// an early error or a denial ends in `Failed`; a granted permission moves
/// to `Installing`, whence the grant outcome ends in `Installed` exactly
/// when it reports a completed install, and in `Failed` otherwise.
pub proof fn lemma_grant_drives_flow(
    ev: AuthorizationEvent,
    daemon_ready: bool,
    install_accepted: bool,
    transaction_ready: bool,
    run_succeeded: bool,
)
    ensures
        spec_permission(ev) is Err ==> spec_flow_step(
            FlowState::AwaitingAuthorization,
            FlowEvent::RpcFailed,
        ) == FlowState::Failed,
        spec_permission(ev) == Ok::<bool, InstallError>(false) ==> spec_flow_step(
            FlowState::AwaitingAuthorization,
            FlowEvent::AuthorizationDenied,
        ) == FlowState::Failed,
        spec_permission(ev) == Ok::<bool, InstallError>(true) ==> {
            let next = spec_flow_step(FlowState::AwaitingAuthorization, FlowEvent::AuthorizationGranted);
            let out = spec_grant_outcome(
                ev,
                daemon_ready,
                install_accepted,
                transaction_ready,
                run_succeeded,
            );
            &&& next == FlowState::Installing
            &&& spec_grant_decision(spec_permission(ev)) == GrantStep::Proceed
            &&& (out == Ok::<bool, InstallError>(true) ==> spec_flow_step(
                next,
                spec_outcome_event(out),
            ) == FlowState::Installed)
            &&& (out != Ok::<bool, InstallError>(true) ==> spec_flow_step(
                next,
                spec_outcome_event(out),
            ) == FlowState::Failed)
        },
{
}

} // verus!
