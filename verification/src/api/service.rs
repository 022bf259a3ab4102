//! The service operations of the command line.

use vstd::prelude::*;
use crate::service::{
    install_service, install_service_plan, plan_model, uninstall_service,
    uninstall_service_plan, Platform, ServiceError, ServiceParams, ServiceStep,
};

verus! {

/// Plans the installation of the service for the shell port `ssh_port`.
pub fn install(platform: Platform, ssh_port: u16) -> (outcome: Result<
    Vec<ServiceStep>,
    ServiceError,
>)
    ensures
        plan_model(outcome) == install_service_plan(platform, ServiceParams { ssh_port }),
{
    install_service(platform, ServiceParams { ssh_port })
}

/// Plans the removal of the service.
pub fn uninstall(platform: Platform) -> (outcome: Result<Vec<ServiceStep>, ServiceError>)
    ensures
        plan_model(outcome) == uninstall_service_plan(platform),
{
    uninstall_service(platform)
}

} // verus!
