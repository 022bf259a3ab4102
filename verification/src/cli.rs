//! The arguments of each mode of operation, as plain values.

use vstd::prelude::*;

verus! {

/// The port of the local shell service where none is given.
pub const DEFAULT_SSH_PORT: u16 = 22;

/// Arguments of the proxy mode.
#[derive(Debug, Clone)]
pub struct ProxyArgs {
    /// The endpoint to reach, as text.
    pub endpoint_id: String,
}

/// Arguments of a client connection.
#[derive(Debug, Clone)]
pub struct ConnectArgs {
    /// Target in the form user@ENDPOINT_ID.
    pub target: String,
    pub ssh: SshOpts,
    pub remote_cmd: Vec<String>,
}

/// Arguments of a client connection that runs a command.
#[derive(Debug, Clone)]
pub struct ExecArgs {
    /// Target in the form user@ENDPOINT_ID.
    pub target: String,
    pub ssh: SshOpts,
    pub remote_cmd: Vec<String>,
}

/// Options handed on to the shell client.
#[derive(Debug, Clone)]
pub struct SshOpts {
    /// Identity file for public key authentication.
    pub identity_file: Option<String>,
    /// Local forwards, each `[bind_addr:]lport:host:rport`.
    pub local_forward: Vec<String>,
    /// Remote forwards, each `[bind_addr:]rport:host:lport`.
    pub remote_forward: Vec<String>,
    /// Port of the remote shell service.
    pub port: Option<u16>,
    /// Further options, each `KEY=VALUE`.
    pub options: Vec<String>,
    /// Enable agent forwarding.
    pub agent: bool,
    /// Disable agent forwarding.
    pub no_agent: bool,
    /// Enable X11 forwarding.
    pub x11: bool,
    /// Enable trusted X11 forwarding.
    pub x11_trusted: bool,
    /// Do not execute a remote command.
    pub no_cmd: bool,
    /// Force a pseudo-terminal.
    pub force_tty: bool,
    /// Disable the pseudo-terminal.
    pub no_tty: bool,
    /// Verbosity, counted.
    pub verbose: u8,
    /// Quiet mode.
    pub quiet: bool,
}

/// Arguments of the server mode.
#[derive(Debug, Clone)]
pub struct ServerArgs {
    pub ssh_port: u16,
    pub persist: bool,
}

/// What to do with the background service.
#[derive(Debug, Clone)]
pub enum ServiceCmd {
    Install { ssh_port: u16 },
    Uninstall,
}

/// Arguments of the service's own run.
#[derive(Debug, Clone)]
pub struct ServiceArgs {
    pub ssh_port: u16,
}

/// A subcommand.
#[derive(Debug, Clone)]
pub enum Cmd {
    Connect(ConnectArgs),
    Exec(ExecArgs),
    Server(ServerArgs),
    Service { op: ServiceCmd },
    Info,
    Proxy(ProxyArgs),
    RunService(ServiceArgs),
    Version,
}

/// A whole command line.
#[derive(Debug, Clone)]
pub struct Cli {
    pub cmd: Option<Cmd>,
    /// Target in the form user@ENDPOINT_ID.
    pub target: Option<String>,
    pub ssh: SshOpts,
    pub remote_cmd: Option<Vec<String>>,
}

/// The mode that a command line selects, with that mode's arguments.
#[derive(Debug, Clone)]
pub enum Mode {
    Client(ConnectArgs),
    Server(ServerArgs),
    Service(ServiceCmd),
    Info,
    Proxy(ProxyArgs),
    RunService(ServiceArgs),
    Version,
}

impl SshOpts {
    /// No option is set.
    pub open spec fn is_plain(self) -> bool {
        &&& self.identity_file is None
        &&& self.local_forward@.len() == 0
        &&& self.remote_forward@.len() == 0
        &&& self.port is None
        &&& self.options@.len() == 0
        &&& !self.agent
        &&& !self.no_agent
        &&& !self.x11
        &&& !self.x11_trusted
        &&& !self.no_cmd
        &&& !self.force_tty
        &&& !self.no_tty
        &&& self.verbose == 0
        &&& !self.quiet
    }
}

impl Default for SshOpts {
    fn default() -> (opts: SshOpts)
        ensures
            opts.is_plain(),
    {
        SshOpts {
            identity_file: None,
            local_forward: Vec::new(),
            remote_forward: Vec::new(),
            port: None,
            options: Vec::new(),
            agent: false,
            no_agent: false,
            x11: false,
            x11_trusted: false,
            no_cmd: false,
            force_tty: false,
            no_tty: false,
            verbose: 0,
            quiet: false,
        }
    }
}

impl Default for ServerArgs {
    fn default() -> (args: ServerArgs)
        ensures
            args.ssh_port == DEFAULT_SSH_PORT,
            !args.persist,
    {
        ServerArgs { ssh_port: DEFAULT_SSH_PORT, persist: false }
    }
}

impl Default for ServiceArgs {
    fn default() -> (args: ServiceArgs)
        ensures
            args.ssh_port == DEFAULT_SSH_PORT,
    {
        ServiceArgs { ssh_port: DEFAULT_SSH_PORT }
    }
}

impl Cli {
    /// Whether `mode` is the mode that this command line selects.
    ///
    /// Without a subcommand the line is a client connection, made of the
    /// line's own target, options and remote command; a target or a remote
    /// command that is not given is empty. `Exec` is a client connection too.
    pub open spec fn selects(self, mode: Mode) -> bool {
        match self.cmd {
            Some(Cmd::Connect(args)) => mode == Mode::Client(args),
            Some(Cmd::Exec(args)) => mode == Mode::Client(
                ConnectArgs { target: args.target, ssh: args.ssh, remote_cmd: args.remote_cmd },
            ),
            Some(Cmd::Server(args)) => mode == Mode::Server(args),
            Some(Cmd::Service { op }) => mode == Mode::Service(op),
            Some(Cmd::Info) => mode == Mode::Info,
            Some(Cmd::Proxy(args)) => mode == Mode::Proxy(args),
            Some(Cmd::RunService(args)) => mode == Mode::RunService(args),
            Some(Cmd::Version) => mode == Mode::Version,
            None => {
                &&& mode matches Mode::Client(args)
                &&& args.ssh == self.ssh
                &&& args.target@ == match self.target {
                    Some(target) => target@,
                    None => Seq::<char>::empty(),
                }
                &&& args.remote_cmd.deep_view() == match self.remote_cmd {
                    Some(remote_cmd) => remote_cmd.deep_view(),
                    None => Seq::<Seq<char>>::empty(),
                }
            },
        }
    }

    /// Selects the mode to run.
    pub fn mode(self) -> (mode: Mode)
        ensures
            self.selects(mode),
    {
        match self.cmd {
            Some(Cmd::Connect(args)) => Mode::Client(args),
            Some(Cmd::Exec(args)) => Mode::Client(
                ConnectArgs { target: args.target, ssh: args.ssh, remote_cmd: args.remote_cmd },
            ),
            Some(Cmd::Server(args)) => Mode::Server(args),
            Some(Cmd::Service { op }) => Mode::Service(op),
            Some(Cmd::Info) => Mode::Info,
            Some(Cmd::Proxy(args)) => Mode::Proxy(args),
            Some(Cmd::RunService(args)) => Mode::RunService(args),
            Some(Cmd::Version) => Mode::Version,
            None => {
                let target = match self.target {
                    Some(target) => target,
                    None => String::new(),
                };
                let remote_cmd = match self.remote_cmd {
                    Some(remote_cmd) => remote_cmd,
                    None => {
                        let none: Vec<String> = Vec::new();
                        assert(none.deep_view() =~= Seq::<Seq<char>>::empty());
                        none
                    },
                };
                Mode::Client(ConnectArgs { target, ssh: self.ssh, remote_cmd })
            },
        }
    }
}

} // verus!
