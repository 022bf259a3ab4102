//! Running the tunnel as a background service: what to do to install,
//! remove and run it on each platform.
//!
//! The library only plans. Each plan is a list of [`ServiceStep`]s that the
//! caller carries out in order, with the rights of an administrator.

pub mod firewall;
pub mod linux;
pub mod windows;

use vstd::prelude::*;
use crate::service::linux::LinuxService;
use crate::service::windows::WindowsService;

verus! {

/// What a service is installed with.
#[derive(Debug, Clone, Copy, PartialEq, Eq, Structural)]
pub struct ServiceParams {
    /// The port of the local shell service.
    pub ssh_port: u16,
}

/// The operating system that the program runs on.
#[derive(Debug, Clone, Copy, PartialEq, Eq, Structural)]
pub enum Platform {
    Linux,
    Windows,
    Other,
}

/// Why a service operation is refused.
#[derive(Debug, Clone, Copy, PartialEq, Eq, Structural)]
pub enum ServiceError {
    /// The platform has no service support for this operation.
    Unsupported,
    /// The service already runs with another port.
    PortConflict,
    /// The service has no port yet.
    PortNotInitialized,
    /// The service manager failed.
    ManagerFailure,
}

/// A directory that the installed service works in.
#[derive(Debug, Clone, Copy, PartialEq, Eq, Structural)]
pub enum RuntimeDir {
    /// Where the program is installed.
    InstallRoot,
    /// The profile of the service account.
    ProfileRoot,
    /// The key directory of the service account.
    SshDir,
}

/// One step of a plan.
#[derive(Debug, Clone, Copy, PartialEq, Eq, Structural)]
pub enum ServiceStep {
    /// Write the install script for this port to a new temporary file.
    WriteInstallScript { ssh_port: u16 },
    /// Write the uninstall script to a new temporary file.
    WriteUninstallScript,
    /// Run the script that was written, as administrator.
    RunScript,
    /// Copy the running program into the install directory.
    StageBinary,
    /// Let the staged program through the firewall.
    AddFirewallRules,
    /// Create the service, or bring an existing one up to date.
    ConfigureService { ssh_port: u16 },
    /// Find the security identifier of the service account.
    LookupServiceSid,
    /// Create the runtime directories that are missing.
    EnsureRuntimeDirectories,
    /// Let the service account work in this directory.
    GrantPermissions { dir: RuntimeDir },
    /// Start the service.
    StartService,
    /// Stop the service and delete it.
    RemoveService,
    /// Take the firewall rules away again.
    RemoveFirewallRules,
    /// Delete the staged program.
    RemoveStagedBinary,
}

/// What a failed step does to the rest of its plan.
#[derive(Debug, Clone, Copy, PartialEq, Eq, Structural)]
pub enum OnFailure {
    /// The plan is given up.
    Abort,
    /// The failure is recorded and the plan goes on.
    Warn,
}

impl ServiceStep {
    /// What a failure of this step does to the rest of its plan: only the
    /// firewall rules may fail to go away.
    pub open spec fn failure_policy(self) -> OnFailure {
        if self is RemoveFirewallRules {
            OnFailure::Warn
        } else {
            OnFailure::Abort
        }
    }

    /// What a failure of this step does to the rest of its plan.
    pub fn on_failure(&self) -> (policy: OnFailure)
        ensures
            policy == self.failure_policy(),
    {
        match self {
            ServiceStep::RemoveFirewallRules => OnFailure::Warn,
            _ => OnFailure::Abort,
        }
    }
}

/// The service support of one platform.
pub trait Service {
    /// The steps that install the service, in order.
    spec fn install_plan(service_params: ServiceParams) -> Seq<ServiceStep>;

    /// The steps that remove the service, in order.
    spec fn uninstall_plan() -> Seq<ServiceStep>;

    /// Plans the installation of the service.
    fn install(service_params: ServiceParams) -> (steps: Vec<ServiceStep>)
        ensures
            steps@ == Self::install_plan(service_params),
    ;

    /// Plans the removal of the service.
    fn uninstall() -> (steps: Vec<ServiceStep>)
        ensures
            steps@ == Self::uninstall_plan(),
    ;
}

/// The plan that installs the service on `platform`, where it has one.
pub open spec fn install_service_plan(platform: Platform, service_params: ServiceParams) -> Result<
    Seq<ServiceStep>,
    ServiceError,
> {
    match platform {
        Platform::Linux => Ok(LinuxService::install_plan(service_params)),
        Platform::Windows => Ok(WindowsService::install_plan(service_params)),
        Platform::Other => Err(ServiceError::Unsupported),
    }
}

/// The plan that removes the service on `platform`, where it has one.
pub open spec fn uninstall_service_plan(platform: Platform) -> Result<
    Seq<ServiceStep>,
    ServiceError,
> {
    match platform {
        Platform::Linux => Ok(LinuxService::uninstall_plan()),
        Platform::Windows => Ok(WindowsService::uninstall_plan()),
        Platform::Other => Err(ServiceError::Unsupported),
    }
}

/// The value of a planned outcome.
pub open spec fn plan_model(outcome: Result<Vec<ServiceStep>, ServiceError>) -> Result<
    Seq<ServiceStep>,
    ServiceError,
> {
    match outcome {
        Ok(steps) => Ok(steps@),
        Err(e) => Err(e),
    }
}

/// Plans the installation of the service on `platform`. Platforms other
/// than Linux and Windows have no service support.
pub fn install_service(platform: Platform, service_params: ServiceParams) -> (outcome: Result<
    Vec<ServiceStep>,
    ServiceError,
>)
    ensures
        plan_model(outcome) == install_service_plan(platform, service_params),
{
    match platform {
        Platform::Linux => Ok(LinuxService::install(service_params)),
        Platform::Windows => Ok(WindowsService::install(service_params)),
        Platform::Other => Err(ServiceError::Unsupported),
    }
}

/// Plans the removal of the service on `platform`. Platforms other than
/// Linux and Windows have no service support.
pub fn uninstall_service(platform: Platform) -> (outcome: Result<Vec<ServiceStep>, ServiceError>)
    ensures
        plan_model(outcome) == uninstall_service_plan(platform),
{
    match platform {
        Platform::Linux => Ok(LinuxService::uninstall()),
        Platform::Windows => Ok(WindowsService::uninstall()),
        Platform::Other => Err(ServiceError::Unsupported),
    }
}

/// The parameters to run the service with on `platform`. Only Windows runs
/// the program as a service of its own.
pub fn run_service(platform: Platform, ssh_port: u16) -> (outcome: Result<
    ServiceParams,
    ServiceError,
>)
    ensures
        outcome == match platform {
            Platform::Windows => Ok::<ServiceParams, ServiceError>(ServiceParams { ssh_port }),
            _ => Err::<ServiceParams, ServiceError>(ServiceError::Unsupported),
        },
{
    match platform {
        Platform::Windows => Ok(ServiceParams { ssh_port }),
        _ => Err(ServiceError::Unsupported),
    }
}

} // verus!
