//! The service on Windows: a staged copy of the program, registered with
//! the service manager under an account of its own.

use vstd::prelude::*;
use vstd::string::*;
use crate::service::{RuntimeDir, Service, ServiceError, ServiceParams, ServiceStep};
use crate::text::{decimal, decimal_text};

verus! {

/// The service support of Windows.
#[derive(Debug, Clone, Copy)]
pub struct WindowsService;

/// What a look for the service at the service manager found.
#[derive(Debug, Clone, Copy, PartialEq, Eq, Structural)]
pub enum ServiceLookup {
    /// The service exists.
    Found,
    /// There is no such service.
    DoesNotExist,
    /// The look itself failed.
    Failed,
}

/// How to bring the service's registration up to date.
#[derive(Debug, Clone, Copy, PartialEq, Eq, Structural)]
pub enum ConfigureAction {
    /// Change the configuration of the existing service.
    ChangeConfig,
    /// Create the service.
    Create,
}

/// What came of asking the service manager to start or stop the service.
#[derive(Debug, Clone, Copy, PartialEq, Eq, Structural)]
pub enum ControlOutcome {
    /// It did as asked.
    Done,
    /// The service was in the asked-for state already.
    AlreadySo,
    /// It failed.
    Failed,
}

/// What the service manager does when the service fails.
#[derive(Debug, Clone, Copy, PartialEq, Eq, Structural)]
pub struct FailureActions {
    /// After how many seconds without failure the count starts anew.
    pub reset_period_secs: u64,
    /// The delay before the restart after the first failure, in
    /// milliseconds.
    pub first_restart_ms: u64,
    /// The delay before the restart after the second failure.
    pub second_restart_ms: u64,
    /// The delay before the restart after each later failure.
    pub later_restart_ms: u64,
    /// Whether an exit with an error counts as a failure, as a crash does.
    pub on_non_crash_failures: bool,
}

/// The registration of the service.
#[derive(Debug, Clone)]
pub struct ServiceConfig {
    pub name: String,
    pub display_name: String,
    pub description: String,
    pub executable_path: String,
    pub launch_arguments: Vec<String>,
    pub dependencies: Vec<String>,
    pub account_name: String,
    pub delayed_auto_start: bool,
    pub unrestricted_sid: bool,
    pub failure_actions: FailureActions,
}

/// The rights that the service account gets on a directory.
#[derive(Debug, Clone, Copy, PartialEq, Eq, Structural)]
pub struct AclGrant {
    pub dir: RuntimeDir,
    pub read: bool,
    pub write: bool,
    pub execute: bool,
    pub delete: bool,
    /// Whether files in the directory inherit the rights.
    pub inherit_to_files: bool,
    /// Whether directories in the directory inherit the rights.
    pub inherit_to_directories: bool,
}

/// The state of a removal of the service.
#[derive(Debug, Clone, Copy, PartialEq, Eq, Structural)]
pub enum Removal {
    /// The service is being looked for.
    Opening,
    /// The service is being marked for deletion.
    Deleting,
    /// The service is being stopped.
    Stopping,
    /// The service manager is asked whether the service is gone; so many
    /// seconds were waited already.
    Probing { waited_secs: u64 },
    /// A second is being waited; with it so many seconds were waited.
    Sleeping { waited_secs: u64 },
    /// The removal is over.
    Finished,
}

/// Something that happened during a removal.
#[derive(Debug, Clone, Copy, PartialEq, Eq, Structural)]
pub enum RemovalEvent {
    /// The look for the service came back.
    Looked { found: ServiceLookup },
    /// The service was marked for deletion, or could not be.
    Deleted { done: bool },
    /// The service manager answered the request to stop.
    Stopped { outcome: ControlOutcome },
    /// A second has gone by.
    Slept,
}

/// What the caller does next in a removal.
#[derive(Debug, Clone, Copy, PartialEq, Eq, Structural)]
pub enum RemovalAction {
    /// Mark the service for deletion.
    Delete,
    /// Ask the service to stop.
    Stop,
    /// Ask the service manager whether the service is still there.
    Probe,
    /// Wait a second.
    Sleep,
    /// The service is gone, or the wait for it is over: done.
    Finish,
    /// Give up.
    Fail,
    /// Nothing: the event has no meaning in this state.
    Nothing,
}

/// A request that the service manager makes of the running service.
#[derive(Debug, Clone, Copy, PartialEq, Eq, Structural)]
pub enum ControlEvent {
    /// Stop.
    Stop,
    /// Report the current status.
    Interrogate,
    /// A request that a user defined, with this code.
    UserEvent { code: u32 },
    /// Any other request.
    Other,
}

/// What the running service does with a request.
#[derive(Debug, Clone, Copy, PartialEq, Eq, Structural)]
pub enum ControlResponse {
    /// Accept the request and shut the service down.
    Shutdown,
    /// Accept the request; nothing else is to do.
    Acknowledge,
    /// Refuse the request as not implemented.
    NotImplemented,
}

/// The code of the user request that stops the service.
pub const STOP_EVENT_CODE: u32 = 130;

/// The seconds that a removal waits for the service to go away.
pub const REMOVAL_TIMEOUT_SECS: u64 = 5;

/// The state after `event`, and the action it calls for.
pub open spec fn removal_step(removal: Removal, event: RemovalEvent) -> (Removal, RemovalAction) {
    match (removal, event) {
        (Removal::Opening, RemovalEvent::Looked { found }) => match found {
            ServiceLookup::Found => (Removal::Deleting, RemovalAction::Delete),
            ServiceLookup::DoesNotExist => (Removal::Finished, RemovalAction::Finish),
            ServiceLookup::Failed => (Removal::Finished, RemovalAction::Fail),
        },
        (Removal::Deleting, RemovalEvent::Deleted { done }) => if done {
            (Removal::Stopping, RemovalAction::Stop)
        } else {
            (Removal::Finished, RemovalAction::Fail)
        },
        (Removal::Stopping, RemovalEvent::Stopped { outcome }) => match outcome {
            ControlOutcome::Failed => (Removal::Finished, RemovalAction::Fail),
            _ => (Removal::Probing { waited_secs: 0 }, RemovalAction::Probe),
        },
        (Removal::Probing { waited_secs }, RemovalEvent::Looked { found }) => match found {
            ServiceLookup::Found => (
                Removal::Sleeping {
                    waited_secs: if waited_secs < REMOVAL_TIMEOUT_SECS {
                        (waited_secs + 1) as u64
                    } else {
                        waited_secs
                    },
                },
                RemovalAction::Sleep,
            ),
            ServiceLookup::DoesNotExist => (Removal::Finished, RemovalAction::Finish),
            ServiceLookup::Failed => (Removal::Finished, RemovalAction::Fail),
        },
        (Removal::Sleeping { waited_secs }, RemovalEvent::Slept) => if waited_secs
            < REMOVAL_TIMEOUT_SECS {
            (Removal::Probing { waited_secs }, RemovalAction::Probe)
        } else {
            (Removal::Finished, RemovalAction::Finish)
        },
        _ => (removal, RemovalAction::Nothing),
    }
}

/// The arguments that the service manager starts the program with.
pub open spec fn launch_arguments(ssh_port: u16) -> Seq<Seq<char>> {
    seq!["run-service"@, "--ssh-port"@, decimal(ssh_port as nat)]
}

/// The runtime directories that do not exist yet, in the order in which
/// they are created.
pub open spec fn missing_directories(
    install_root_exists: bool,
    profile_root_exists: bool,
    ssh_dir_exists: bool,
) -> Seq<RuntimeDir> {
    (if install_root_exists {
        Seq::<RuntimeDir>::empty()
    } else {
        seq![RuntimeDir::InstallRoot]
    }) + (if profile_root_exists {
        Seq::<RuntimeDir>::empty()
    } else {
        seq![RuntimeDir::ProfileRoot]
    }) + (if ssh_dir_exists {
        Seq::<RuntimeDir>::empty()
    } else {
        seq![RuntimeDir::SshDir]
    })
}

/// The right to read, write, run and delete in `dir`, handed down to all
/// that is in it.
pub open spec fn modify_grant(dir: RuntimeDir) -> AclGrant {
    AclGrant {
        dir,
        read: true,
        write: true,
        execute: true,
        delete: true,
        inherit_to_files: true,
        inherit_to_directories: true,
    }
}

/// Restart after five seconds, then after a minute, then after ten minutes
/// each time; a day without failure starts the count anew.
pub open spec fn restart_policy() -> FailureActions {
    FailureActions {
        reset_period_secs: 86_400,
        first_restart_ms: 5_000,
        second_restart_ms: 60_000,
        later_restart_ms: 600_000,
        on_non_crash_failures: true,
    }
}

impl WindowsService {
    pub const SERVICE_NAME: &'static str = "iroh-ssh";

    pub const SERVICE_DISPLAY_NAME: &'static str = "iroh-ssh";

    pub const SERVICE_DESCRIPTION: &'static str = "SSH to any machine without ip";

    pub const SERVICE_ACCOUNT: &'static str = "NT SERVICE\\iroh-ssh";

    pub const SERVICE_DEPENDENCY: &'static str = "sshd";

    pub const INSTALL_ROOT: &'static str = r"C:\\ProgramData\\iroh-ssh";

    pub const SERVICE_BINARY_NAME: &'static str = "iroh-ssh.exe";

    pub const SERVICE_PROFILE_ROOT: &'static str = r"C:\\Windows\\ServiceProfiles\\iroh-ssh";

    pub const SERVICE_SSH_DIR: &'static str = r"C:\\Windows\\ServiceProfiles\\iroh-ssh\\.ssh";

    /// The path of a runtime directory.
    pub open spec fn dir_path(dir: RuntimeDir) -> Seq<char> {
        match dir {
            RuntimeDir::InstallRoot => Self::INSTALL_ROOT@,
            RuntimeDir::ProfileRoot => Self::SERVICE_PROFILE_ROOT@,
            RuntimeDir::SshDir => Self::SERVICE_SSH_DIR@,
        }
    }

    /// The path of a runtime directory.
    pub fn runtime_dir(dir: RuntimeDir) -> (path: &'static str)
        ensures
            path@ == Self::dir_path(dir),
    {
        match dir {
            RuntimeDir::InstallRoot => Self::INSTALL_ROOT,
            RuntimeDir::ProfileRoot => Self::SERVICE_PROFILE_ROOT,
            RuntimeDir::SshDir => Self::SERVICE_SSH_DIR,
        }
    }

    /// Sets the port that the running service works with. The port is set
    /// once: setting it again is accepted only with the same port.
    pub fn run_service_dispatcher(
        slot: &mut Option<u16>,
        service_params: ServiceParams,
    ) -> (outcome: Result<(), ServiceError>)
        ensures
            match *old(slot) {
                None => outcome is Ok && *final(slot) == Some(service_params.ssh_port),
                Some(port) => *final(slot) == *old(slot) && outcome == if port
                    == service_params.ssh_port {
                    Ok::<(), ServiceError>(())
                } else {
                    Err::<(), ServiceError>(ServiceError::PortConflict)
                },
            },
    {
        match *slot {
            None => {
                *slot = Some(service_params.ssh_port);
                Ok(())
            },
            Some(port) => {
                if port == service_params.ssh_port {
                    Ok(())
                } else {
                    Err(ServiceError::PortConflict)
                }
            },
        }
    }

    /// The port that the running service works with, once it is set.
    pub fn service_port(slot: &Option<u16>) -> (outcome: Result<u16, ServiceError>)
        ensures
            outcome == match *slot {
                Some(port) => Ok::<u16, ServiceError>(port),
                None => Err::<u16, ServiceError>(ServiceError::PortNotInitialized),
            },
    {
        match *slot {
            Some(port) => Ok(port),
            None => Err(ServiceError::PortNotInitialized),
        }
    }

    /// Plans the installation, step by step.
    pub fn install_blocking(service_params: ServiceParams) -> (steps: Vec<ServiceStep>)
        ensures
            steps@ == Self::install_plan(service_params),
    {
        let steps = vec![
            ServiceStep::StageBinary,
            ServiceStep::AddFirewallRules,
            ServiceStep::ConfigureService { ssh_port: service_params.ssh_port },
            ServiceStep::LookupServiceSid,
            ServiceStep::EnsureRuntimeDirectories,
            ServiceStep::GrantPermissions { dir: RuntimeDir::InstallRoot },
            ServiceStep::GrantPermissions { dir: RuntimeDir::ProfileRoot },
            ServiceStep::GrantPermissions { dir: RuntimeDir::SshDir },
            ServiceStep::StartService,
        ];
        assert(steps@ =~= Self::install_plan(service_params));
        steps
    }

    /// Plans the removal, step by step.
    pub fn uninstall_blocking() -> (steps: Vec<ServiceStep>)
        ensures
            steps@ == Self::uninstall_plan(),
    {
        let steps = vec![
            ServiceStep::RemoveService,
            ServiceStep::RemoveFirewallRules,
            ServiceStep::RemoveStagedBinary,
        ];
        assert(steps@ =~= Self::uninstall_plan());
        steps
    }

    /// Whether a directory has to be created: only one that does not exist.
    pub fn ensure_directory(exists: bool) -> (create: bool)
        ensures
            create == !exists,
    {
        !exists
    }

    /// The runtime directories to create, given which of them exist.
    pub fn ensure_runtime_directories(
        install_root_exists: bool,
        profile_root_exists: bool,
        ssh_dir_exists: bool,
    ) -> (dirs: Vec<RuntimeDir>)
        ensures
            dirs@ == missing_directories(install_root_exists, profile_root_exists, ssh_dir_exists),
    {
        let mut dirs: Vec<RuntimeDir> = Vec::new();
        if Self::ensure_directory(install_root_exists) {
            dirs.push(RuntimeDir::InstallRoot);
        }
        if Self::ensure_directory(profile_root_exists) {
            dirs.push(RuntimeDir::ProfileRoot);
        }
        if Self::ensure_directory(ssh_dir_exists) {
            dirs.push(RuntimeDir::SshDir);
        }
        assert(dirs@ =~= missing_directories(
            install_root_exists,
            profile_root_exists,
            ssh_dir_exists,
        ));
        dirs
    }

    /// The rights to grant to the service account on `dir`: none where the
    /// directory does not exist, else all rights short of changing the
    /// rights themselves, handed down to everything in the directory.
    pub fn apply_service_permissions(dir: RuntimeDir, exists: bool) -> (grant: Option<AclGrant>)
        ensures
            exists ==> grant == Some(modify_grant(dir)),
            !exists ==> grant is None,
    {
        if !exists {
            return None;
        }
        Some(
            AclGrant {
                dir,
                read: true,
                write: true,
                execute: true,
                delete: true,
                inherit_to_files: true,
                inherit_to_directories: true,
            },
        )
    }

    /// What the service manager does when the service fails: restart it,
    /// after five seconds, then after a minute, then after ten minutes each
    /// time; a day without failure starts the count anew.
    pub fn configure_failure_actions() -> (actions: FailureActions)
        ensures
            actions == restart_policy(),
    {
        FailureActions {
            reset_period_secs: 86_400,
            first_restart_ms: 5_000,
            second_restart_ms: 60_000,
            later_restart_ms: 600_000,
            on_non_crash_failures: true,
        }
    }

    /// The registration of the service for the program at `binary_path`,
    /// and how to put it in place given what a look for the service found.
    /// A look that failed leaves nothing to do.
    pub fn create_or_configure_service(
        binary_path: &str,
        service_params: &ServiceParams,
        found: ServiceLookup,
    ) -> (outcome: Result<(ConfigureAction, ServiceConfig), ServiceError>)
        ensures
            match outcome {
                Ok((action, config)) => {
                    &&& action == match found {
                        ServiceLookup::Found => ConfigureAction::ChangeConfig,
                        _ => ConfigureAction::Create,
                    }
                    &&& !(found is Failed)
                    &&& config.name@ == Self::SERVICE_NAME@
                    &&& config.display_name@ == Self::SERVICE_DISPLAY_NAME@
                    &&& config.description@ == Self::SERVICE_DESCRIPTION@
                    &&& config.executable_path@ == binary_path@
                    &&& config.launch_arguments.deep_view() == launch_arguments(
                        service_params.ssh_port,
                    )
                    &&& config.dependencies.deep_view() == seq![Self::SERVICE_DEPENDENCY@]
                    &&& config.account_name@ == Self::SERVICE_ACCOUNT@
                    &&& config.delayed_auto_start
                    &&& config.unrestricted_sid
                    &&& config.failure_actions == restart_policy()
                },
                Err(e) => found is Failed && e == ServiceError::ManagerFailure,
            },
    {
        let action = match found {
            ServiceLookup::Found => ConfigureAction::ChangeConfig,
            ServiceLookup::DoesNotExist => ConfigureAction::Create,
            ServiceLookup::Failed => {
                return Err(ServiceError::ManagerFailure);
            },
        };
        let launch = vec![
            String::from_str("run-service"),
            String::from_str("--ssh-port"),
            decimal_text(service_params.ssh_port),
        ];
        assert(launch.deep_view() =~= launch_arguments(service_params.ssh_port));
        let dependencies = vec![String::from_str(Self::SERVICE_DEPENDENCY)];
        assert(dependencies.deep_view() =~= seq![Self::SERVICE_DEPENDENCY@]);
        Ok(
            (
                action,
                ServiceConfig {
                    name: String::from_str(Self::SERVICE_NAME),
                    display_name: String::from_str(Self::SERVICE_DISPLAY_NAME),
                    description: String::from_str(Self::SERVICE_DESCRIPTION),
                    executable_path: String::from_str(binary_path),
                    launch_arguments: launch,
                    dependencies,
                    account_name: String::from_str(Self::SERVICE_ACCOUNT),
                    delayed_auto_start: true,
                    unrestricted_sid: true,
                    failure_actions: Self::configure_failure_actions(),
                },
            ),
        )
    }

    /// Judges the answer to the request to start the service: a service
    /// that runs already is as good as one that was started.
    pub fn start_service(outcome: ControlOutcome) -> (result: Result<(), ServiceError>)
        ensures
            result == if outcome is Failed {
                Err::<(), ServiceError>(ServiceError::ManagerFailure)
            } else {
                Ok::<(), ServiceError>(())
            },
    {
        match outcome {
            ControlOutcome::Failed => Err(ServiceError::ManagerFailure),
            _ => Ok(()),
        }
    }

    /// What the running service does with a request of the service manager:
    /// it shuts down when told to stop, by the manager or by the user request
    /// with the stop code, answers an interrogation, and implements nothing
    /// else.
    pub fn service_control(event: ControlEvent) -> (response: ControlResponse)
        ensures
            response == match event {
                ControlEvent::Stop => ControlResponse::Shutdown,
                ControlEvent::Interrogate => ControlResponse::Acknowledge,
                ControlEvent::UserEvent { code } => if code == STOP_EVENT_CODE {
                    ControlResponse::Shutdown
                } else {
                    ControlResponse::NotImplemented
                },
                ControlEvent::Other => ControlResponse::NotImplemented,
            },
    {
        match event {
            ControlEvent::Stop => ControlResponse::Shutdown,
            ControlEvent::Interrogate => ControlResponse::Acknowledge,
            ControlEvent::UserEvent { code } => {
                if code == STOP_EVENT_CODE {
                    ControlResponse::Shutdown
                } else {
                    ControlResponse::NotImplemented
                }
            },
            ControlEvent::Other => ControlResponse::NotImplemented,
        }
    }

    /// The state of a removal that is about to begin: the caller looks for
    /// the service first.
    pub fn removal() -> (removal: Removal)
        ensures
            removal == Removal::Opening,
    {
        Removal::Opening
    }

    /// Takes `event` into account: moves the removal on and says what to
    /// do. A service that does not exist is removed already; one that is
    /// still there after the time allowed is left to the service manager.
    pub fn remove_service(removal: &mut Removal, event: RemovalEvent) -> (action: RemovalAction)
        ensures
            (*final(removal), action) == removal_step(*old(removal), event),
    {
        let (next, action) = match (*removal, event) {
            (Removal::Opening, RemovalEvent::Looked { found }) => match found {
                ServiceLookup::Found => (Removal::Deleting, RemovalAction::Delete),
                ServiceLookup::DoesNotExist => (Removal::Finished, RemovalAction::Finish),
                ServiceLookup::Failed => (Removal::Finished, RemovalAction::Fail),
            },
            (Removal::Deleting, RemovalEvent::Deleted { done }) => {
                if done {
                    (Removal::Stopping, RemovalAction::Stop)
                } else {
                    (Removal::Finished, RemovalAction::Fail)
                }
            },
            (Removal::Stopping, RemovalEvent::Stopped { outcome }) => match outcome {
                ControlOutcome::Failed => (Removal::Finished, RemovalAction::Fail),
                _ => (Removal::Probing { waited_secs: 0 }, RemovalAction::Probe),
            },
            (Removal::Probing { waited_secs }, RemovalEvent::Looked { found }) => match found {
                ServiceLookup::Found => (
                    Removal::Sleeping {
                        waited_secs: if waited_secs < REMOVAL_TIMEOUT_SECS {
                            waited_secs + 1
                        } else {
                            waited_secs
                        },
                    },
                    RemovalAction::Sleep,
                ),
                ServiceLookup::DoesNotExist => (Removal::Finished, RemovalAction::Finish),
                ServiceLookup::Failed => (Removal::Finished, RemovalAction::Fail),
            },
            (Removal::Sleeping { waited_secs }, RemovalEvent::Slept) => {
                if waited_secs < REMOVAL_TIMEOUT_SECS {
                    (Removal::Probing { waited_secs }, RemovalAction::Probe)
                } else {
                    (Removal::Finished, RemovalAction::Finish)
                }
            },
            _ => (*removal, RemovalAction::Nothing),
        };
        *removal = next;
        action
    }
}

impl Service for WindowsService {
    open spec fn install_plan(service_params: ServiceParams) -> Seq<ServiceStep> {
        seq![
            ServiceStep::StageBinary,
            ServiceStep::AddFirewallRules,
            ServiceStep::ConfigureService { ssh_port: service_params.ssh_port },
            ServiceStep::LookupServiceSid,
            ServiceStep::EnsureRuntimeDirectories,
            ServiceStep::GrantPermissions { dir: RuntimeDir::InstallRoot },
            ServiceStep::GrantPermissions { dir: RuntimeDir::ProfileRoot },
            ServiceStep::GrantPermissions { dir: RuntimeDir::SshDir },
            ServiceStep::StartService,
        ]
    }

    open spec fn uninstall_plan() -> Seq<ServiceStep> {
        seq![
            ServiceStep::RemoveService,
            ServiceStep::RemoveFirewallRules,
            ServiceStep::RemoveStagedBinary,
        ]
    }

    fn install(service_params: ServiceParams) -> (steps: Vec<ServiceStep>) {
        Self::install_blocking(service_params)
    }

    fn uninstall() -> (steps: Vec<ServiceStep>) {
        Self::uninstall_blocking()
    }
}

} // verus!
