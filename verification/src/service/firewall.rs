//! The firewall rules of the service on Windows, as PowerShell scripts.

use vstd::prelude::*;
use vstd::string::*;
use crate::process::Command;

verus! {

/// The script that adds the rules, up to the first mention of the program.
pub const ADD_RULES_HEAD: &'static str = r#"
$ErrorActionPreference = 'Stop'

# Remove old rules if they exist (ignore errors)
Remove-NetFirewallRule -DisplayName 'iroh-ssh Service Outbound' -ErrorAction SilentlyContinue
Remove-NetFirewallRule -DisplayName 'iroh-ssh Service Inbound' -ErrorAction SilentlyContinue

# Add outbound UDP rule for relay connections and STUN
New-NetFirewallRule `
    -DisplayName 'iroh-ssh Service Outbound' `
    -Description 'Allow outbound UDP for iroh-ssh QUIC, relay, and holepunching' `
    -Direction Outbound `
    -Action Allow `
    -Protocol UDP `
    -Program '"#;

/// The script that adds the rules, between the first and the second mention
/// of the program.
pub const ADD_RULES_INBOUND: &'static str = r#"' `
    -Profile Any `
    -Enabled True | Out-Null

Write-Host 'Added outbound rule'

# Add inbound UDP rule for accepting holepunched connections
New-NetFirewallRule `
    -DisplayName 'iroh-ssh Service Inbound' `
    -Description 'Allow inbound UDP for iroh-ssh holepunching and direct connections' `
    -Direction Inbound `
    -Action Allow `
    -Protocol UDP `
    -Program '"#;

/// The script that adds the rules, between the second and the third mention
/// of the program.
pub const ADD_RULES_HTTPS: &'static str = r#"' `
    -Profile Any `
    -Enabled True | Out-Null

Write-Host 'Added inbound rule'

# Also add outbound TCP rule for HTTPS relay connections
New-NetFirewallRule `
    -DisplayName 'iroh-ssh Service HTTPS' `
    -Description 'Allow outbound HTTPS for iroh-ssh relay server connections' `
    -Direction Outbound `
    -Action Allow `
    -Protocol TCP `
    -Program '"#;

/// The script that adds the rules, after the last mention of the program.
pub const ADD_RULES_TAIL: &'static str = r#"' `
    -RemotePort 443 `
    -Profile Any `
    -Enabled True | Out-Null

Write-Host 'Added HTTPS rule'
"#;

/// The script that removes the rules.
pub const REMOVE_RULES: &'static str = r#"
$ErrorActionPreference = 'Stop'

Remove-NetFirewallRule -DisplayName 'iroh-ssh Service Outbound' -ErrorAction Stop
Write-Host 'Removed outbound rule'

Remove-NetFirewallRule -DisplayName 'iroh-ssh Service Inbound' -ErrorAction Stop
Write-Host 'Removed inbound rule'

Remove-NetFirewallRule -DisplayName 'iroh-ssh Service HTTPS' -ErrorAction Stop
Write-Host 'Removed HTTPS rule'
"#;

/// The script that lets the program at `exe_path` send and receive UDP, and
/// reach relays over HTTPS.
pub open spec fn add_rules_script(exe_path: Seq<char>) -> Seq<char> {
    ADD_RULES_HEAD@ + exe_path + ADD_RULES_INBOUND@ + exe_path + ADD_RULES_HTTPS@ + exe_path
        + ADD_RULES_TAIL@
}

/// The arguments with which PowerShell runs `script`.
pub open spec fn powershell_arguments(script: Seq<char>) -> Seq<Seq<char>> {
    seq!["-NoProfile"@, "-ExecutionPolicy"@, "Bypass"@, "-Command"@, script]
}

fn powershell(script: String) -> (command: Command)
    ensures
        command.program@ == "powershell"@,
        command.args.deep_view() == powershell_arguments(script@),
{
    let args = vec![
        String::from_str("-NoProfile"),
        String::from_str("-ExecutionPolicy"),
        String::from_str("Bypass"),
        String::from_str("-Command"),
        script,
    ];
    assert(args.deep_view() =~= powershell_arguments(script@));
    Command { program: String::from_str("powershell"), args }
}

/// The command that adds the firewall rules for the program at
/// `executable_path`.
pub fn add_firewall_rules(executable_path: &str) -> (command: Command)
    ensures
        command.program@ == "powershell"@,
        command.args.deep_view() == powershell_arguments(add_rules_script(executable_path@)),
{
    let mut script = String::from_str(ADD_RULES_HEAD);
    script.append(executable_path);
    script.append(ADD_RULES_INBOUND);
    script.append(executable_path);
    script.append(ADD_RULES_HTTPS);
    script.append(executable_path);
    script.append(ADD_RULES_TAIL);
    powershell(script)
}

/// The command that removes the firewall rules.
pub fn remove_firewall_rules() -> (command: Command)
    ensures
        command.program@ == "powershell"@,
        command.args.deep_view() == powershell_arguments(REMOVE_RULES@),
{
    powershell(String::from_str(REMOVE_RULES))
}

} // verus!
