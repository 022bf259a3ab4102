use iroh_ssh::service::firewall::{add_firewall_rules, remove_firewall_rules};
use iroh_ssh::service::windows::{
    AclGrant, ConfigureAction, ControlEvent, ControlOutcome, ControlResponse, FailureActions,
    Removal, RemovalAction, RemovalEvent, ServiceLookup, STOP_EVENT_CODE,
};
use iroh_ssh::service::{OnFailure, Platform, RuntimeDir, ServiceError, ServiceStep};
use iroh_ssh::storage::StorageDir;
use iroh_ssh::{
    install_service, run_service, uninstall_service, LinuxService, Service, ServiceParams,
    WindowsService,
};

fn windows_install_plan(port: u16) -> Vec<ServiceStep> {
    vec![
        ServiceStep::StageBinary,
        ServiceStep::AddFirewallRules,
        ServiceStep::ConfigureService { ssh_port: port },
        ServiceStep::LookupServiceSid,
        ServiceStep::EnsureRuntimeDirectories,
        ServiceStep::GrantPermissions { dir: RuntimeDir::InstallRoot },
        ServiceStep::GrantPermissions { dir: RuntimeDir::ProfileRoot },
        ServiceStep::GrantPermissions { dir: RuntimeDir::SshDir },
        ServiceStep::StartService,
    ]
}

#[test]
fn linux_plans() {
    assert_eq!(
        LinuxService::install(ServiceParams { ssh_port: 2222 }),
        vec![ServiceStep::WriteInstallScript { ssh_port: 2222 }, ServiceStep::RunScript]
    );
    assert_eq!(
        LinuxService::uninstall(),
        vec![ServiceStep::WriteUninstallScript, ServiceStep::RunScript]
    );
}

#[test]
fn windows_plans() {
    assert_eq!(WindowsService::install(ServiceParams { ssh_port: 22 }), windows_install_plan(22));
    assert_eq!(
        WindowsService::install_blocking(ServiceParams { ssh_port: 8022 }),
        windows_install_plan(8022)
    );
    let removal = vec![
        ServiceStep::RemoveService,
        ServiceStep::RemoveFirewallRules,
        ServiceStep::RemoveStagedBinary,
    ];
    assert_eq!(WindowsService::uninstall(), removal);
    assert_eq!(WindowsService::uninstall_blocking(), removal);
}

#[test]
fn service_is_supported_on_linux_and_windows_only() {
    let params = ServiceParams { ssh_port: 22 };
    assert_eq!(install_service(Platform::Linux, params), Ok(LinuxService::install(params)));
    assert_eq!(install_service(Platform::Windows, params), Ok(windows_install_plan(22)));
    assert_eq!(install_service(Platform::Other, params), Err(ServiceError::Unsupported));
    assert_eq!(uninstall_service(Platform::Linux), Ok(LinuxService::uninstall()));
    assert_eq!(uninstall_service(Platform::Windows), Ok(WindowsService::uninstall()));
    assert_eq!(uninstall_service(Platform::Other), Err(ServiceError::Unsupported));
    assert_eq!(iroh_ssh::api::service::install(Platform::Other, 22), Err(ServiceError::Unsupported));
    assert_eq!(
        iroh_ssh::api::service::install(Platform::Linux, 23),
        Ok(LinuxService::install(ServiceParams { ssh_port: 23 }))
    );
    assert_eq!(iroh_ssh::api::service::uninstall(Platform::Other), Err(ServiceError::Unsupported));
    assert_eq!(
        iroh_ssh::api::service::uninstall(Platform::Windows),
        Ok(WindowsService::uninstall())
    );
}

#[test]
fn service_runs_on_windows_only() {
    assert_eq!(run_service(Platform::Windows, 2222), Ok(ServiceParams { ssh_port: 2222 }));
    assert_eq!(run_service(Platform::Linux, 2222), Err(ServiceError::Unsupported));
    assert_eq!(run_service(Platform::Other, 2222), Err(ServiceError::Unsupported));
}

#[test]
fn only_firewall_removal_may_fail() {
    assert_eq!(ServiceStep::RemoveFirewallRules.on_failure(), OnFailure::Warn);
    for step in windows_install_plan(22) {
        assert_eq!(step.on_failure(), OnFailure::Abort);
    }
    assert_eq!(ServiceStep::RemoveService.on_failure(), OnFailure::Abort);
    assert_eq!(ServiceStep::RemoveStagedBinary.on_failure(), OnFailure::Abort);
    assert_eq!(ServiceStep::RunScript.on_failure(), OnFailure::Abort);
}

#[test]
fn install_script_gets_the_port() {
    let file = LinuxService::init_install_script(
        "ExecStart=/usr/bin/iroh-ssh server --ssh-port [SSHPORT]\n# port [SSHPORT]\n",
        ServiceParams { ssh_port: 2222 },
    );
    assert_eq!(
        file.content,
        "ExecStart=/usr/bin/iroh-ssh server --ssh-port 2222\n# port 2222\n"
    );
    assert_eq!(file.dir, "/tmp");
    assert_eq!(file.prefix, "iroh_ssh_install-");
    assert_eq!(file.suffix, ".sh");
}

#[test]
fn install_script_without_placeholder_is_unchanged() {
    let file = LinuxService::init_install_script("echo [SSHPORT", ServiceParams { ssh_port: 1 });
    assert_eq!(file.content, "echo [SSHPORT");
    let file = LinuxService::init_install_script("", ServiceParams { ssh_port: 1 });
    assert_eq!(file.content, "");
}

#[test]
fn uninstall_script_is_the_template() {
    let file = LinuxService::init_uninstall_script("systemctl disable iroh-ssh [SSHPORT]\n");
    assert_eq!(file.content, "systemctl disable iroh-ssh [SSHPORT]\n");
    assert_eq!(file.dir, "/tmp");
    assert_eq!(file.prefix, "iroh_ssh_uninstall-");
    assert_eq!(file.suffix, ".sh");
}

#[test]
fn service_port_is_set_once() {
    let mut slot = None;
    assert_eq!(WindowsService::service_port(&slot), Err(ServiceError::PortNotInitialized));
    assert_eq!(
        WindowsService::run_service_dispatcher(&mut slot, ServiceParams { ssh_port: 22 }),
        Ok(())
    );
    assert_eq!(slot, Some(22));
    assert_eq!(WindowsService::service_port(&slot), Ok(22));
    assert_eq!(
        WindowsService::run_service_dispatcher(&mut slot, ServiceParams { ssh_port: 22 }),
        Ok(())
    );
    assert_eq!(
        WindowsService::run_service_dispatcher(&mut slot, ServiceParams { ssh_port: 23 }),
        Err(ServiceError::PortConflict)
    );
    assert_eq!(slot, Some(22));
    assert_eq!(WindowsService::service_port(&slot), Ok(22));
}

#[test]
fn windows_names() {
    assert_eq!(WindowsService::SERVICE_NAME, "iroh-ssh");
    assert_eq!(WindowsService::SERVICE_DISPLAY_NAME, "iroh-ssh");
    assert_eq!(WindowsService::SERVICE_DESCRIPTION, "SSH to any machine without ip");
    assert_eq!(WindowsService::SERVICE_ACCOUNT, "NT SERVICE\\iroh-ssh");
    assert_eq!(WindowsService::SERVICE_DEPENDENCY, "sshd");
    assert_eq!(WindowsService::SERVICE_BINARY_NAME, "iroh-ssh.exe");
    assert_eq!(WindowsService::runtime_dir(RuntimeDir::InstallRoot), WindowsService::INSTALL_ROOT);
    assert_eq!(
        WindowsService::runtime_dir(RuntimeDir::ProfileRoot),
        WindowsService::SERVICE_PROFILE_ROOT
    );
    assert_eq!(WindowsService::runtime_dir(RuntimeDir::SshDir), WindowsService::SERVICE_SSH_DIR);
    assert!(WindowsService::SERVICE_SSH_DIR.starts_with(WindowsService::SERVICE_PROFILE_ROOT));
    assert!(WindowsService::SERVICE_SSH_DIR.ends_with(".ssh"));
}

#[test]
fn missing_runtime_directories_are_created_in_order() {
    assert_eq!(
        WindowsService::ensure_runtime_directories(false, false, false),
        vec![RuntimeDir::InstallRoot, RuntimeDir::ProfileRoot, RuntimeDir::SshDir]
    );
    assert_eq!(WindowsService::ensure_runtime_directories(true, true, true), vec![]);
    assert_eq!(
        WindowsService::ensure_runtime_directories(true, false, true),
        vec![RuntimeDir::ProfileRoot]
    );
    assert_eq!(
        WindowsService::ensure_runtime_directories(false, true, false),
        vec![RuntimeDir::InstallRoot, RuntimeDir::SshDir]
    );
    assert!(WindowsService::ensure_directory(false));
    assert!(!WindowsService::ensure_directory(true));
}

#[test]
fn permissions_only_for_existing_directories() {
    assert_eq!(WindowsService::apply_service_permissions(RuntimeDir::SshDir, false), None);
    assert_eq!(
        WindowsService::apply_service_permissions(RuntimeDir::SshDir, true),
        Some(AclGrant {
            dir: RuntimeDir::SshDir,
            read: true,
            write: true,
            execute: true,
            delete: true,
            inherit_to_files: true,
            inherit_to_directories: true,
        })
    );
    assert_eq!(
        WindowsService::apply_service_permissions(RuntimeDir::InstallRoot, true).unwrap().dir,
        RuntimeDir::InstallRoot
    );
}

#[test]
fn failure_actions_restart_with_growing_delays() {
    assert_eq!(
        WindowsService::configure_failure_actions(),
        FailureActions {
            reset_period_secs: 86_400,
            first_restart_ms: 5_000,
            second_restart_ms: 60_000,
            later_restart_ms: 600_000,
            on_non_crash_failures: true,
        }
    );
}

#[test]
fn existing_service_is_reconfigured_and_missing_one_created() {
    let params = ServiceParams { ssh_port: 2222 };
    let (action, config) =
        WindowsService::create_or_configure_service("C:\\x\\iroh-ssh.exe", &params, ServiceLookup::Found)
            .unwrap();
    assert_eq!(action, ConfigureAction::ChangeConfig);
    assert_eq!(config.name, "iroh-ssh");
    assert_eq!(config.display_name, "iroh-ssh");
    assert_eq!(config.description, "SSH to any machine without ip");
    assert_eq!(config.executable_path, "C:\\x\\iroh-ssh.exe");
    assert_eq!(config.launch_arguments, vec!["run-service", "--ssh-port", "2222"]);
    assert_eq!(config.dependencies, vec!["sshd"]);
    assert_eq!(config.account_name, "NT SERVICE\\iroh-ssh");
    assert!(config.delayed_auto_start);
    assert!(config.unrestricted_sid);
    assert_eq!(config.failure_actions, WindowsService::configure_failure_actions());
    let (action, config) =
        WindowsService::create_or_configure_service("p", &params, ServiceLookup::DoesNotExist)
            .unwrap();
    assert_eq!(action, ConfigureAction::Create);
    assert_eq!(config.executable_path, "p");
    assert_eq!(
        WindowsService::create_or_configure_service("p", &params, ServiceLookup::Failed).err(),
        Some(ServiceError::ManagerFailure)
    );
}

#[test]
fn running_service_counts_as_started() {
    assert_eq!(WindowsService::start_service(ControlOutcome::Done), Ok(()));
    assert_eq!(WindowsService::start_service(ControlOutcome::AlreadySo), Ok(()));
    assert_eq!(
        WindowsService::start_service(ControlOutcome::Failed),
        Err(ServiceError::ManagerFailure)
    );
}

#[test]
fn removal_of_a_missing_service_is_done_at_once() {
    let mut removal = WindowsService::removal();
    assert_eq!(removal, Removal::Opening);
    let action = WindowsService::remove_service(
        &mut removal,
        RemovalEvent::Looked { found: ServiceLookup::DoesNotExist },
    );
    assert_eq!(action, RemovalAction::Finish);
    assert_eq!(removal, Removal::Finished);
}

#[test]
fn removal_deletes_stops_and_waits_until_gone() {
    let mut removal = WindowsService::removal();
    let found = RemovalEvent::Looked { found: ServiceLookup::Found };
    assert_eq!(WindowsService::remove_service(&mut removal, found), RemovalAction::Delete);
    assert_eq!(
        WindowsService::remove_service(&mut removal, RemovalEvent::Deleted { done: true }),
        RemovalAction::Stop
    );
    assert_eq!(
        WindowsService::remove_service(
            &mut removal,
            RemovalEvent::Stopped { outcome: ControlOutcome::AlreadySo }
        ),
        RemovalAction::Probe
    );
    assert_eq!(WindowsService::remove_service(&mut removal, found), RemovalAction::Sleep);
    assert_eq!(
        WindowsService::remove_service(&mut removal, RemovalEvent::Slept),
        RemovalAction::Probe
    );
    assert_eq!(
        WindowsService::remove_service(
            &mut removal,
            RemovalEvent::Looked { found: ServiceLookup::DoesNotExist }
        ),
        RemovalAction::Finish
    );
    assert_eq!(removal, Removal::Finished);
}

#[test]
fn removal_gives_up_waiting_after_five_seconds() {
    let mut removal = WindowsService::removal();
    let found = RemovalEvent::Looked { found: ServiceLookup::Found };
    WindowsService::remove_service(&mut removal, found);
    WindowsService::remove_service(&mut removal, RemovalEvent::Deleted { done: true });
    let mut action = WindowsService::remove_service(
        &mut removal,
        RemovalEvent::Stopped { outcome: ControlOutcome::Done },
    );
    let mut probes = 0;
    let mut sleeps = 0;
    while action != RemovalAction::Finish {
        match action {
            RemovalAction::Probe => {
                probes += 1;
                action = WindowsService::remove_service(&mut removal, found);
            }
            RemovalAction::Sleep => {
                sleeps += 1;
                action = WindowsService::remove_service(&mut removal, RemovalEvent::Slept);
            }
            other => panic!("unexpected action {:?}", other),
        }
        assert!(probes <= 5 && sleeps <= 5);
    }
    assert_eq!(probes, 5);
    assert_eq!(sleeps, 5);
    assert_eq!(removal, Removal::Finished);
}

#[test]
fn removal_fails_when_the_manager_fails() {
    let mut removal = WindowsService::removal();
    assert_eq!(
        WindowsService::remove_service(
            &mut removal,
            RemovalEvent::Looked { found: ServiceLookup::Failed }
        ),
        RemovalAction::Fail
    );
    let mut removal = Removal::Deleting;
    assert_eq!(
        WindowsService::remove_service(&mut removal, RemovalEvent::Deleted { done: false }),
        RemovalAction::Fail
    );
    let mut removal = Removal::Stopping;
    assert_eq!(
        WindowsService::remove_service(
            &mut removal,
            RemovalEvent::Stopped { outcome: ControlOutcome::Failed }
        ),
        RemovalAction::Fail
    );
    let mut removal = Removal::Probing { waited_secs: 2 };
    assert_eq!(
        WindowsService::remove_service(
            &mut removal,
            RemovalEvent::Looked { found: ServiceLookup::Failed }
        ),
        RemovalAction::Fail
    );
    assert_eq!(removal, Removal::Finished);
    assert_eq!(
        WindowsService::remove_service(&mut removal, RemovalEvent::Slept),
        RemovalAction::Nothing
    );
}

#[test]
fn firewall_script_names_the_program_three_times() {
    let command = add_firewall_rules("C:\\ProgramData\\iroh-ssh\\iroh-ssh.exe");
    assert_eq!(command.program, "powershell");
    assert_eq!(command.args.len(), 5);
    assert_eq!(command.args[..4], ["-NoProfile", "-ExecutionPolicy", "Bypass", "-Command"]);
    let script = &command.args[4];
    assert_eq!(script.matches("-Program 'C:\\ProgramData\\iroh-ssh\\iroh-ssh.exe' `").count(), 3);
    assert!(script.starts_with("\n$ErrorActionPreference = 'Stop'\n"));
    assert!(script.ends_with("Write-Host 'Added HTTPS rule'\n"));
    assert!(script.contains("-DisplayName 'iroh-ssh Service Outbound' `"));
    assert!(script.contains("-DisplayName 'iroh-ssh Service Inbound' `"));
    assert!(script.contains("-DisplayName 'iroh-ssh Service HTTPS' `"));
    assert!(script.contains("-RemotePort 443 `"));
    let expected = format!(
        "{}{p}{}{p}{}{p}{}",
        iroh_ssh::service::firewall::ADD_RULES_HEAD,
        iroh_ssh::service::firewall::ADD_RULES_INBOUND,
        iroh_ssh::service::firewall::ADD_RULES_HTTPS,
        iroh_ssh::service::firewall::ADD_RULES_TAIL,
        p = "C:\\ProgramData\\iroh-ssh\\iroh-ssh.exe"
    );
    assert_eq!(script, &expected);
}

#[test]
fn firewall_removal_script() {
    let command = remove_firewall_rules();
    assert_eq!(command.program, "powershell");
    assert_eq!(command.args[..4], ["-NoProfile", "-ExecutionPolicy", "Bypass", "-Command"]);
    assert_eq!(command.args[4].matches("Remove-NetFirewallRule").count(), 3);
    assert_eq!(command.args[4], iroh_ssh::service::firewall::REMOVE_RULES);
}

#[test]
fn storage_directory_depends_on_the_context() {
    assert_eq!(StorageDir::resolve(Platform::Linux, false), StorageDir::UserHome);
    assert_eq!(StorageDir::resolve(Platform::Windows, false), StorageDir::UserHome);
    assert_eq!(StorageDir::resolve(Platform::Other, false), StorageDir::UserHome);
    assert_eq!(StorageDir::resolve(Platform::Other, true), StorageDir::UserHome);
    assert_eq!(StorageDir::resolve(Platform::Linux, true), StorageDir::LinuxRoot);
    assert_eq!(StorageDir::resolve(Platform::Windows, true), StorageDir::WindowsServiceProfile);
    assert_eq!(StorageDir::UserHome.fixed_path(), None);
    assert_eq!(StorageDir::LinuxRoot.fixed_path(), Some("/root/.ssh"));
    assert_eq!(
        StorageDir::WindowsServiceProfile.fixed_path(),
        Some(WindowsService::SERVICE_SSH_DIR)
    );
    assert!(StorageDir::WindowsServiceProfile.create_first());
    assert!(!StorageDir::LinuxRoot.create_first());
    assert!(!StorageDir::UserHome.create_first());
    assert_eq!(iroh_ssh::storage::SSH_DIR_NAME, ".ssh");
}

#[test]
fn service_stops_on_request() {
    assert_eq!(STOP_EVENT_CODE, 130);
    assert_eq!(WindowsService::service_control(ControlEvent::Stop), ControlResponse::Shutdown);
    assert_eq!(
        WindowsService::service_control(ControlEvent::Interrogate),
        ControlResponse::Acknowledge
    );
    assert_eq!(
        WindowsService::service_control(ControlEvent::UserEvent { code: 130 }),
        ControlResponse::Shutdown
    );
    assert_eq!(
        WindowsService::service_control(ControlEvent::UserEvent { code: 131 }),
        ControlResponse::NotImplemented
    );
    assert_eq!(
        WindowsService::service_control(ControlEvent::Other),
        ControlResponse::NotImplemented
    );
}

#[test]
fn every_placeholder_is_replaced_from_the_left() {
    let cases = [
        ("[SSHPORT][SSHPORT]", 2222, "22222222"),
        ("[[SSHPORT]]", 22, "[22]"),
        ("[SSHPORT[SSHPORT]", 22, "[SSHPORT22"),
        ("a[SSHPORT]b[sshport]c", 22, "a22b[sshport]c"),
        ("[SSHPORT", 22, "[SSHPORT"),
        ("SSHPORT]", 22, "SSHPORT]"),
        ("\u{e9}[SSHPORT]\u{1f440}", 65535, "\u{e9}65535\u{1f440}"),
    ];
    for (template, ssh_port, expected) in cases {
        let file = LinuxService::init_install_script(template, ServiceParams { ssh_port });
        assert_eq!(file.content, expected);
    }
}
