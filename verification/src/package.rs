//! The record describing a chosen package file, and the decision logic of the
//! authorization and installation steps.
//!
//! A `Package` is built from the path the file chooser handed back; its `name`
//! is the final path component, computed the way the platform path type reads
//! a path: trailing separators and trailing `.` components are ignored, and a
//! final `..` component yields no name at all.

use vstd::prelude::*;
use vstd::string::*;

verus! {

/// The index just past the last character of the path's final component:
/// trailing `/` separators are dropped, and so is a trailing `.` component
/// (a lone `.` either at the start of the path or right after a `/`).
pub open spec fn trimmed_end(s: Seq<char>, end: int) -> int
    decreases end,
{
    if end <= 0 {
        0
    } else if s[end - 1] == '/' {
        trimmed_end(s, end - 1)
    } else if s[end - 1] == '.' && (end == 1 || s[end - 2] == '/') {
        trimmed_end(s, end - 1)
    } else {
        end
    }
}

/// The index just after the last `/` strictly before `end`, or 0 when no `/`
/// stands before `end`: where the final component begins.
pub open spec fn component_start(s: Seq<char>, end: int) -> int
    decreases end,
{
    if end <= 0 {
        0
    } else if s[end - 1] == '/' {
        end
    } else {
        component_start(s, end - 1)
    }
}

/// The file name of a path: its final component, or the empty sequence when
/// the path has no final component (it is empty, all separators, or ends in
/// a `..` component).
pub open spec fn file_name(path: Seq<char>) -> Seq<char> {
    let end = trimmed_end(path, path.len() as int);
    let start = component_start(path, end);
    let stem = path.subrange(start, end);
    if stem.len() == 2 && stem[0] == '.' && stem[1] == '.' {
        Seq::<char>::empty()
    } else {
        stem
    }
}

/// Extracts the file name of a path, as `file_name` states it.
pub fn file_name_of(s: &str) -> (name: String)
    ensures
        name@ == file_name(s@),
{
    let n = s.unicode_len();
    let mut end = n;
    loop
        invariant
            end <= n,
            n == s@.len(),
            trimmed_end(s@, n as int) == trimmed_end(s@, end as int),
        ensures
            end <= n,
            trimmed_end(s@, n as int) == end as int,
        decreases end,
    {
        if end == 0 {
            break;
        }
        let c = s.get_char(end - 1);
        if c == '/' {
            end = end - 1;
        } else if c == '.' && (end == 1 || s.get_char(end - 2) == '/') {
            end = end - 1;
        } else {
            break;
        }
    }
    let mut start = end;
    while start > 0 && s.get_char(start - 1) != '/'
        invariant
            start <= end,
            end <= n,
            n == s@.len(),
            component_start(s@, end as int) == component_start(s@, start as int),
        decreases start,
    {
        start = start - 1;
    }
    let stem = s.substring_char(start, end);
    if stem.unicode_len() == 2 && stem.get_char(0) == '.' && stem.get_char(1) == '.' {
        String::new()
    } else {
        stem.to_owned()
    }
}

/// A chosen package file: where it lies, what it is called, and whether it
/// has already been installed.
#[derive(Debug, Clone)]
pub struct Package {
    pub path: String,
    pub name: String,
    pub is_installed: bool,
}

/// The error type of the platform's file handling.
/// Relies on std::io::Error; only declared so that `Package::new` can keep
/// its `io::Result` signature. No value of it is ever produced here.
#[verifier::external_type_specification]
#[verifier::external_body]
pub struct ExIoError(std::io::Error);

impl Package {
    /// Builds the record for a freshly chosen file: the path as given, the
    /// name its final component, and not yet installed. Never fails.
    pub fn new(path: String) -> (r: Result<Package, std::io::Error>)
        ensures
            r is Ok,
            r matches Ok(p) ==> {
                &&& p.path@ == path@
                &&& p.name@ == file_name(path@)
                &&& !p.is_installed
            },
    {
        let name = file_name_of(path.as_str());
        Ok(Package { path, name, is_installed: false })
    }
}

/// Why an install was refused or failed: the errors the install flow
/// surfaces over the bus connection.
#[derive(Clone, Copy, Debug, PartialEq, Eq, Structural)]
pub enum InstallError {
    /// The subject describing this process could not be built for the
    /// authorization check.
    SubjectCreation,
    /// The authorization check call itself failed.
    AuthorizationCheck,
    /// The authorization service did not permit the install.
    NotPermitted,
    /// The installation failed after authorization was granted.
    Installation,
    /// The package daemon could not be reached.
    DaemonUnreachable,
    /// The daemon refused or failed the install request.
    InstallRequest,
    /// The transaction the daemon returned could not be attached to.
    TransactionAttach,
    /// The install transaction could not be run to completion.
    TransactionRun,
}

/// The text surfaced for each install error.
pub open spec fn spec_error_message(e: InstallError) -> Seq<char> {
    match e {
        InstallError::SubjectCreation => "could not create policykit1 subject"@,
        InstallError::AuthorizationCheck => "could not check policykit authorization"@,
        InstallError::NotPermitted => "Operation not permitted by Polkit"@,
        InstallError::Installation => "Error during installation"@,
        InstallError::DaemonUnreachable => "could not reach the package daemon"@,
        InstallError::InstallRequest => "the install request failed"@,
        InstallError::TransactionAttach => "could not attach to the install transaction"@,
        InstallError::TransactionRun => "Error running transaction"@,
    }
}

impl InstallError {
    /// The text surfaced for this error.
    pub fn message(&self) -> (m: String)
        ensures
            m@ == spec_error_message(*self),
    {
        match self {
            InstallError::SubjectCreation => "could not create policykit1 subject".to_owned(),
            InstallError::AuthorizationCheck => "could not check policykit authorization".to_owned(),
            InstallError::NotPermitted => "Operation not permitted by Polkit".to_owned(),
            InstallError::Installation => "Error during installation".to_owned(),
            InstallError::DaemonUnreachable => "could not reach the package daemon".to_owned(),
            InstallError::InstallRequest => "the install request failed".to_owned(),
            InstallError::TransactionAttach => "could not attach to the install transaction".to_owned(),
            InstallError::TransactionRun => "Error running transaction".to_owned(),
        }
    }
}

/// How the authorization step concluded. The authorization service is
/// consulted on every install request, whoever asks.
#[derive(Clone, Copy, Debug, PartialEq, Eq, Structural)]
pub enum AuthorizationEvent {
    /// The subject describing this process could not be built.
    SubjectFailed,
    /// The authorization check call failed.
    CheckFailed,
    /// The service answered; the payload is its authorization verdict.
    Checked(bool),
}

/// Whether the install is permitted, or which error ends the flow early:
/// only the authorization service's answer permits an install.
pub open spec fn spec_permission(ev: AuthorizationEvent) -> Result<bool, InstallError> {
    match ev {
        AuthorizationEvent::SubjectFailed => Err(InstallError::SubjectCreation),
        AuthorizationEvent::CheckFailed => Err(InstallError::AuthorizationCheck),
        AuthorizationEvent::Checked(authorized) => Ok(authorized),
    }
}

/// Decides from the authorization step's conclusion whether the install is
/// permitted, or which error ends the flow early.
pub fn permission_decision(ev: AuthorizationEvent) -> (r: Result<bool, InstallError>)
    ensures
        r == spec_permission(ev),
{
    match ev {
        AuthorizationEvent::SubjectFailed => Err(InstallError::SubjectCreation),
        AuthorizationEvent::CheckFailed => Err(InstallError::AuthorizationCheck),
        AuthorizationEvent::Checked(authorized) => Ok(authorized),
    }
}

/// What to do once the authorization step has concluded.
#[derive(Clone, Copy, Debug, PartialEq, Eq, Structural)]
pub enum GrantStep {
    /// Go on to the install calls.
    Proceed,
    /// Stop, surfacing this error.
    Fail(InstallError),
}

/// Permission granted means proceed; denial means the dedicated refusal
/// error; an early error is passed through.
pub open spec fn spec_grant_decision(permission: Result<bool, InstallError>) -> GrantStep {
    match permission {
        Ok(permitted) => if permitted {
            GrantStep::Proceed
        } else {
            GrantStep::Fail(InstallError::NotPermitted)
        },
        Err(e) => GrantStep::Fail(e),
    }
}

/// Decides from the permission verdict whether to run the install calls.
pub fn grant_decision(permission: Result<bool, InstallError>) -> (r: GrantStep)
    ensures
        r == spec_grant_decision(permission),
{
    match permission {
        Ok(permitted) => if permitted {
            GrantStep::Proceed
        } else {
            GrantStep::Fail(InstallError::NotPermitted)
        },
        Err(e) => GrantStep::Fail(e),
    }
}

/// The result of the daemon interaction, from the outcomes of its remote
/// steps: reaching the daemon, handing it the file, and attaching to the
/// transaction it returned. The first failed step's error is propagated;
/// only when all three worked does the run verdict decide between success
/// and the transaction-run error.
pub open spec fn spec_install_outcome(
    daemon_ready: bool,
    install_accepted: bool,
    transaction_ready: bool,
    run_succeeded: bool,
) -> Result<bool, InstallError> {
    if !daemon_ready {
        Err(InstallError::DaemonUnreachable)
    } else if !install_accepted {
        Err(InstallError::InstallRequest)
    } else if !transaction_ready {
        Err(InstallError::TransactionAttach)
    } else if run_succeeded {
        Ok(true)
    } else {
        Err(InstallError::TransactionRun)
    }
}

/// Decides the result of the daemon interaction from the outcomes of its
/// three remote steps and the transaction's run verdict.
pub fn install_outcome(
    daemon_ready: bool,
    install_accepted: bool,
    transaction_ready: bool,
    run_succeeded: bool,
) -> (r: Result<bool, InstallError>)
    ensures
        r == spec_install_outcome(daemon_ready, install_accepted, transaction_ready, run_succeeded),
{
    if !daemon_ready {
        Err(InstallError::DaemonUnreachable)
    } else if !install_accepted {
        Err(InstallError::InstallRequest)
    } else if !transaction_ready {
        Err(InstallError::TransactionAttach)
    } else if run_succeeded {
        Ok(true)
    } else {
        Err(InstallError::TransactionRun)
    }
}

/// The install result as the whole flow reports it: a success verdict is
/// passed through, and any install error is folded into the one generic
/// installation error.
pub open spec fn spec_conclude_install(
    install: Result<bool, InstallError>,
) -> Result<bool, InstallError> {
    match install {
        Ok(status) => Ok(status),
        Err(_) => Err(InstallError::Installation),
    }
}

/// Folds the install result into what the whole flow reports.
pub fn conclude_install(install: Result<bool, InstallError>) -> (r: Result<bool, InstallError>)
    ensures
        r == spec_conclude_install(install),
{
    match install {
        Ok(status) => Ok(status),
        Err(_) => Err(InstallError::Installation),
    }
}

/// The whole decision of the grant flow: from the authorization step's
/// conclusion and, where the install calls were reached, the outcomes of
/// the daemon's remote steps, what the flow returns.
pub open spec fn spec_grant_outcome(
    ev: AuthorizationEvent,
    daemon_ready: bool,
    install_accepted: bool,
    transaction_ready: bool,
    run_succeeded: bool,
) -> Result<bool, InstallError> {
    match spec_grant_decision(spec_permission(ev)) {
        GrantStep::Proceed => spec_conclude_install(
            spec_install_outcome(daemon_ready, install_accepted, transaction_ready, run_succeeded),
        ),
        GrantStep::Fail(e) => Err(e),
    }
}

} // verus!
