//! Identity and tunnel engine for reaching a shell service by node identity.
//!
//! The library holds the decisions of the tunnel: which identity a node
//! runs under, which inbound connections are served, how bytes travel
//! through a bridge, and which commands and plans the surrounding program
//! carries out. All input and output is left to the caller, who hands in
//! plain values and performs the actions that come back.

pub mod acceptor;
pub mod api;
pub mod bridge;
pub mod cli;
pub mod endpoint;
pub mod error;
pub mod identity;
pub mod initiator;
pub mod keys;
pub mod process;
pub mod service;
pub mod ssh;
pub mod storage;
pub mod supervisor;
pub mod text;

pub use cli::{
    Cli, Cmd, ConnectArgs, ExecArgs, Mode, ProxyArgs, ServerArgs, ServiceArgs, ServiceCmd, SshOpts,
};
pub use identity::dot_ssh;
pub use service::linux::LinuxService;
pub use service::windows::WindowsService;
pub use service::{install_service, run_service, uninstall_service, Service, ServiceParams};
pub use ssh::{Builder, IrohSsh};
