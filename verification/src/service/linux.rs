//! The service on Linux: two shell scripts, run as administrator.

use vstd::prelude::*;
use vstd::string::*;
use crate::service::{Service, ServiceParams, ServiceStep};
use crate::text::{decimal, decimal_text};

verus! {

/// The service support of Linux.
#[derive(Debug, Clone, Copy)]
pub struct LinuxService;

/// A script to write to a new temporary file.
#[derive(Debug, Clone)]
pub struct ScriptFile {
    /// The directory of the file.
    pub dir: String,
    /// What the name of the file starts with.
    pub prefix: String,
    /// What the name of the file ends with.
    pub suffix: String,
    /// The text of the script.
    pub content: String,
}

/// `text` with each occurrence of `pattern` replaced by `with`, the
/// occurrences taken from the left and not overlapping. `pattern` is not
/// empty.
pub open spec fn replaced(text: Seq<char>, pattern: Seq<char>, with: Seq<char>) -> Seq<char>
    decreases text.len(),
{
    if pattern.len() == 0 || text.len() < pattern.len() {
        text
    } else if text.take(pattern.len() as int) == pattern {
        with + replaced(text.skip(pattern.len() as int), pattern, with)
    } else {
        seq![text[0]] + replaced(text.skip(1), pattern, with)
    }
}

/// Calls `str::replace`.
///
/// Trusted: every match of the pattern, found from the left and not
/// overlapping, is replaced, and the rest of the text is kept.
#[verifier::external_body]
fn replace_all(text: &str, pattern: &str, with: &str) -> (out: String)
    requires
        pattern@.len() > 0,
    ensures
        out@ == replaced(text@, pattern@, with@),
{
    text.replace(pattern, with)
}

impl LinuxService {
    /// The install script for a service on port `ssh_port`: the template
    /// with the port written in place of each `[SSHPORT]`.
    pub open spec fn install_script(template: Seq<char>, ssh_port: u16) -> Seq<char> {
        replaced(template, "[SSHPORT]"@, decimal(ssh_port as nat))
    }

    /// The file to write the install script to, and its text.
    pub fn init_install_script(template: &str, service_params: ServiceParams) -> (file: ScriptFile)
        ensures
            file.dir@ == "/tmp"@,
            file.prefix@ == "iroh_ssh_install-"@,
            file.suffix@ == ".sh"@,
            file.content@ == Self::install_script(template@, service_params.ssh_port),
    {
        proof {
            reveal_strlit("[SSHPORT]");
        }
        let port = decimal_text(service_params.ssh_port);
        ScriptFile {
            dir: String::from_str("/tmp"),
            prefix: String::from_str("iroh_ssh_install-"),
            suffix: String::from_str(".sh"),
            content: replace_all(template, "[SSHPORT]", port.as_str()),
        }
    }

    /// The file to write the uninstall script to, and its text: the
    /// template as it is.
    pub fn init_uninstall_script(template: &str) -> (file: ScriptFile)
        ensures
            file.dir@ == "/tmp"@,
            file.prefix@ == "iroh_ssh_uninstall-"@,
            file.suffix@ == ".sh"@,
            file.content@ == template@,
    {
        ScriptFile {
            dir: String::from_str("/tmp"),
            prefix: String::from_str("iroh_ssh_uninstall-"),
            suffix: String::from_str(".sh"),
            content: String::from_str(template),
        }
    }
}

impl Service for LinuxService {
    open spec fn install_plan(service_params: ServiceParams) -> Seq<ServiceStep> {
        seq![
            ServiceStep::WriteInstallScript { ssh_port: service_params.ssh_port },
            ServiceStep::RunScript,
        ]
    }

    open spec fn uninstall_plan() -> Seq<ServiceStep> {
        seq![ServiceStep::WriteUninstallScript, ServiceStep::RunScript]
    }

    fn install(service_params: ServiceParams) -> (steps: Vec<ServiceStep>) {
        let steps = vec![
            ServiceStep::WriteInstallScript { ssh_port: service_params.ssh_port },
            ServiceStep::RunScript,
        ];
        assert(steps@ =~= Self::install_plan(service_params));
        steps
    }

    fn uninstall() -> (steps: Vec<ServiceStep>) {
        let steps = vec![ServiceStep::WriteUninstallScript, ServiceStep::RunScript];
        assert(steps@ =~= Self::uninstall_plan());
        steps
    }
}

} // verus!
