//! The modes of operation: what each of them sets up, and what it tells
//! the user.
//!
//! Each mode comes as a pair. The function named after the mode draws the
//! node's ephemeral key at random and hands it on; the function that ends in
//! `_plan` takes the key as an argument and is determined by its arguments.

pub mod service;

use vstd::prelude::*;
use vstd::string::*;
use crate::cli::{ConnectArgs, ProxyArgs, ServerArgs};
use crate::identity::{
    dot_ssh, load_or_create, IdentityError, KeyStore, Provision, ProvisionModel, StoreModel,
};
use crate::keys::{
    derive_public, endpoint_id_of, generate_secret, parse_endpoint_id, public_key_of,
};
use crate::process::Command;
use crate::ssh::{
    built, direct_dial, ssh_args, ssh_arguments, Builder, BuilderModel, Dial, DialModel, IrohSsh,
    NodeModel,
};
use crate::text::{decimal, decimal_text, hex_lower, hex_text, joined, push_line, push_text};

verus! {

/// Where the project lives.
pub const PROJECT_URL: &'static str = "https://github.com/rustonbsd/iroh-ssh";

/// What a server without stored keys tells the user.
pub const EPHEMERAL_WARNING: &'static str =
    "  warning: (using ephemeral keys, run 'iroh-ssh server --persist' to create persistent keys)";

/// What the info mode has to say.
#[derive(Debug, Clone)]
pub struct InfoReport {
    /// The lines to print.
    pub lines: Vec<String>,
    /// Whether any stored identity was found. Where none was, the mode ends
    /// with a failure.
    pub found: bool,
}

/// What the server mode sets up.
#[derive(Debug, Clone)]
pub struct ServerPlan {
    /// The node to bind.
    pub node: IrohSsh,
    /// What to write to the key store first, if the node is persistent.
    pub provision: Option<Provision>,
    /// The lines to print once the node is bound.
    pub banner: Vec<String>,
}

/// Mathematical value of a [`ServerPlan`].
pub struct ServerPlanModel {
    pub node: NodeModel,
    pub provision: Option<ProvisionModel>,
    pub banner: Seq<Seq<char>>,
}

/// What the proxy mode sets up.
#[derive(Debug, Clone)]
pub struct ProxyPlan {
    /// The node to bind.
    pub node: IrohSsh,
    /// The connection to make.
    pub dial: Dial,
}

/// Mathematical value of a [`ProxyPlan`].
pub struct ProxyPlanModel {
    pub node: NodeModel,
    pub dial: DialModel,
}

/// What the client mode sets up.
#[derive(Debug, Clone)]
pub struct ClientPlan {
    /// The node to bind.
    pub node: IrohSsh,
    /// The shell client to run.
    pub command: Command,
}

/// Why a target cannot be reached.
#[derive(Debug, Clone, Copy, PartialEq, Eq, Structural)]
pub enum TargetError {
    /// The text does not spell an endpoint identifier.
    InvalidEndpointId,
}

impl View for ServerPlan {
    type V = ServerPlanModel;

    open spec fn view(&self) -> ServerPlanModel {
        ServerPlanModel {
            node: self.node@,
            provision: match self.provision {
                Some(provision) => Some(provision@),
                None => None,
            },
            banner: self.banner.deep_view(),
        }
    }
}

impl View for ProxyPlan {
    type V = ProxyPlanModel;

    open spec fn view(&self) -> ProxyPlanModel {
        ProxyPlanModel { node: self.node@, dial: self.dial@ }
    }
}

/// The secret key that the store holds, if it holds a readable pair.
pub open spec fn stored_identity(store: StoreModel) -> Option<Seq<u8>> {
    match load_or_create(Seq::empty(), false, store) {
        Ok(provision) => Some(provision.secret_key),
        Err(_) => None,
    }
}

/// The line that tells a user how to reach the node with public key
/// `public_key`, run by `username`.
pub open spec fn connect_hint(username: Seq<char>, public_key: Seq<u8>) -> Seq<char> {
    "  iroh-ssh "@ + username + "@"@ + hex_lower(public_key)
}

/// The lines about one stored identity, under `heading`; none where there
/// is no such identity.
pub open spec fn identity_lines(
    heading: Seq<char>,
    username: Seq<char>,
    secret_key: Option<Seq<u8>>,
) -> Seq<Seq<char>> {
    match secret_key {
        Some(key) => seq![""@, heading, connect_hint(username, public_key_of(key)), ""@],
        None => Seq::empty(),
    }
}

/// The lines of the info mode, given the stored identities of the user and
/// of the service.
pub open spec fn info_lines(
    version: Seq<char>,
    username: Seq<char>,
    server_key: Option<Seq<u8>>,
    service_key: Option<Seq<u8>>,
) -> Seq<Seq<char>> {
    if server_key is None && service_key is None {
        seq![
            "No keys found, run for server or service:"@,
            "  'iroh-ssh server --persist' or '-p' to create it"@,
            ""@,
            "(if an iroh-ssh instance is currently running, it is using ephemeral keys)"@,
        ]
    } else {
        seq!["iroh-ssh version "@ + version, PROJECT_URL@, ""@] + identity_lines(
            "Your server iroh-ssh nodeid:"@,
            username,
            server_key,
        ) + identity_lines("Your service iroh-ssh nodeid:"@, username, service_key)
    }
}

/// The lines that the server prints once it is bound.
pub open spec fn server_banner(
    username: Seq<char>,
    public_key: Seq<u8>,
    persist: bool,
    ssh_dir: Seq<char>,
    ssh_port: u16,
) -> Seq<Seq<char>> {
    seq![
        "Connect to this this machine:"@,
        ""@,
        connect_hint(username, public_key),
        ""@,
        if persist {
            "  (using persistent keys in "@ + ssh_dir + ")"@
        } else {
            EPHEMERAL_WARNING@
        },
        ""@,
        "client -> iroh-ssh -> direct connect -> iroh-ssh -> local ssh :"@ + decimal(
            ssh_port as nat,
        ),
        "Waiting for incoming connections..."@,
        "Press Ctrl+C to exit"@,
    ]
}

/// The node of a server with secret key `secret_key` and shell port
/// `ssh_port`.
pub open spec fn server_node(secret_key: Seq<u8>, ssh_port: u16) -> NodeModel {
    built(BuilderModel { secret_key, accept_incoming: true, accept_port: Some(ssh_port) })
}

/// The node of a client or proxy with secret key `secret_key`.
pub open spec fn client_node(secret_key: Seq<u8>) -> NodeModel {
    built(BuilderModel { secret_key, accept_incoming: false, accept_port: None })
}

/// What the server mode sets up. A persistent server takes its identity
/// from the key store, storing the ephemeral key where none is stored, and
/// does not start if the store fails. Any other server runs under the
/// ephemeral key.
pub open spec fn planned_server(
    server_args: ServerArgs,
    ephemeral_key: Seq<u8>,
    store: StoreModel,
    username: Seq<char>,
    ssh_dir: Seq<char>,
) -> Result<ServerPlanModel, IdentityError> {
    let identity = if server_args.persist {
        match load_or_create(ephemeral_key, true, store) {
            Ok(provision) => Ok((provision.secret_key, Some(provision))),
            Err(e) => Err(e),
        }
    } else {
        Ok((ephemeral_key, None))
    };
    match identity {
        Ok((secret_key, provision)) => Ok(
            ServerPlanModel {
                node: server_node(secret_key, server_args.ssh_port),
                provision,
                banner: server_banner(
                    username,
                    public_key_of(secret_key),
                    server_args.persist,
                    ssh_dir,
                    server_args.ssh_port,
                ),
            },
        ),
        Err(e) => Err(e),
    }
}

/// What the proxy mode sets up: a node that only opens connections, and the
/// dial to the endpoint that the argument spells.
pub open spec fn planned_proxy(proxy_args: ProxyArgs, ephemeral_key: Seq<u8>) -> Result<
    ProxyPlanModel,
    TargetError,
> {
    match endpoint_id_of(proxy_args.endpoint_id@) {
        Some(peer) => Ok(
            ProxyPlanModel { node: client_node(ephemeral_key), dial: direct_dial(peer) },
        ),
        None => Err(TargetError::InvalidEndpointId),
    }
}

/// The value of an outcome of the server mode.
pub open spec fn server_model(outcome: Result<ServerPlan, IdentityError>) -> Result<
    ServerPlanModel,
    IdentityError,
> {
    match outcome {
        Ok(plan) => Ok(plan@),
        Err(e) => Err(e),
    }
}

/// The value of an outcome of the proxy mode.
pub open spec fn proxy_model(outcome: Result<ProxyPlan, TargetError>) -> Result<
    ProxyPlanModel,
    TargetError,
> {
    match outcome {
        Ok(plan) => Ok(plan@),
        Err(e) => Err(e),
    }
}

/// Whether `plan` is the client mode's for these arguments: a node that
/// only opens connections, and the shell client that reaches the target
/// through the proxy mode of the program at `exe`.
pub open spec fn is_client_plan(
    plan: ClientPlan,
    connect_args: ConnectArgs,
    ephemeral_key: Seq<u8>,
    exe: Seq<char>,
) -> bool {
    &&& plan.node@ == client_node(ephemeral_key)
    &&& plan.command.program@ == "ssh"@
    &&& plan.command.args.deep_view() == ssh_arguments(
        exe,
        connect_args.target@,
        connect_args.ssh,
        connect_args.remote_cmd.deep_view(),
    )
}

/// The secret key that `store` holds, if it holds a readable pair.
pub fn stored_key(store: &KeyStore) -> (secret_key: Option<[u8; 32]>)
    ensures
        match secret_key {
            Some(key) => stored_identity(store@) == Some(key@),
            None => stored_identity(store@) is None,
        },
{
    let unused = [0u8; 32];
    match dot_ssh(&unused, false, store) {
        Ok(provision) => Some(provision.secret_key),
        Err(_) => None,
    }
}

/// The line that tells a user how to reach the node with public key
/// `public_key`, run by `username`.
pub fn connect_line(username: &str, public_key: &[u8; 32]) -> (line: String)
    ensures
        line@ == connect_hint(username@, public_key@),
{
    let mut line = String::from_str("  iroh-ssh ");
    line.append(username);
    line.append("@");
    line.append(hex_text(public_key).as_str());
    line
}

fn push_identity(
    lines: &mut Vec<String>,
    heading: &str,
    username: &str,
    secret_key: &Option<[u8; 32]>,
)
    ensures
        final(lines).deep_view() == old(lines).deep_view() + identity_lines(
            heading@,
            username@,
            match *secret_key {
                Some(key) => Some(key@),
                None => None,
            },
        ),
{
    match secret_key {
        Some(key) => {
            push_line(lines, "");
            push_line(lines, heading);
            let public_key = derive_public(key);
            push_text(lines, connect_line(username, &public_key));
            push_line(lines, "");
            assert(lines.deep_view() =~= old(lines).deep_view() + identity_lines(
                heading@,
                username@,
                Some(key@),
            ));
        },
        None => {
            assert(lines.deep_view() =~= old(lines).deep_view() + identity_lines(
                heading@,
                username@,
                None,
            ));
        },
    }
}

/// Reports the identities that are stored for the user and for the
/// service, with the line by which each is reached.
pub fn info_mode(user_store: &KeyStore, service_store: &KeyStore, username: &str, version: &str)
    -> (report: InfoReport)
    ensures
        report.found == (stored_identity(user_store@) is Some || stored_identity(
            service_store@,
        ) is Some),
        report.lines.deep_view() == info_lines(
            version@,
            username@,
            stored_identity(user_store@),
            stored_identity(service_store@),
        ),
{
    let server_key = stored_key(user_store);
    let service_key = stored_key(service_store);
    let mut lines: Vec<String> = Vec::new();
    if server_key.is_none() && service_key.is_none() {
        push_line(&mut lines, "No keys found, run for server or service:");
        push_line(&mut lines, "  'iroh-ssh server --persist' or '-p' to create it");
        push_line(&mut lines, "");
        push_line(
            &mut lines,
            "(if an iroh-ssh instance is currently running, it is using ephemeral keys)",
        );
        assert(lines.deep_view() =~= info_lines(version@, username@, None, None));
        return InfoReport { lines, found: false };
    }
    push_text(&mut lines, joined("iroh-ssh version ", version));
    push_line(&mut lines, PROJECT_URL);
    push_line(&mut lines, "");
    assert(lines.deep_view() =~= seq!["iroh-ssh version "@ + version@, PROJECT_URL@, ""@]);
    push_identity(&mut lines, "Your server iroh-ssh nodeid:", username, &server_key);
    push_identity(&mut lines, "Your service iroh-ssh nodeid:", username, &service_key);
    InfoReport { lines, found: true }
}

/// Plans the server mode for a node whose ephemeral key is
/// `ephemeral_key`.
pub fn server_plan(
    server_args: &ServerArgs,
    ephemeral_key: &[u8; 32],
    store: &KeyStore,
    username: &str,
    ssh_dir: &str,
) -> (outcome: Result<ServerPlan, IdentityError>)
    ensures
        server_model(outcome) == planned_server(
            *server_args,
            ephemeral_key@,
            store@,
            username@,
            ssh_dir@,
        ),
{
    let builder = Builder::with_key(ephemeral_key).accept_incoming(true).accept_port(
        server_args.ssh_port,
    );
    let (builder, provision) = if server_args.persist {
        let (builder, outcome) = builder.dot_ssh_integration(true, store);
        match outcome {
            Ok(provision) => (builder, Some(provision)),
            Err(e) => {
                return Err(e);
            },
        }
    } else {
        (builder, None)
    };
    let node = builder.build();
    let mut banner: Vec<String> = Vec::new();
    push_line(&mut banner, "Connect to this this machine:");
    push_line(&mut banner, "");
    let public_key = node.endpoint_id();
    push_text(&mut banner, connect_line(username, &public_key));
    push_line(&mut banner, "");
    if server_args.persist {
        let mut line = joined("  (using persistent keys in ", ssh_dir);
        line.append(")");
        push_text(&mut banner, line);
    } else {
        push_line(&mut banner, EPHEMERAL_WARNING);
    }
    push_line(&mut banner, "");
    push_text(
        &mut banner,
        joined(
            "client -> iroh-ssh -> direct connect -> iroh-ssh -> local ssh :",
            decimal_text(server_args.ssh_port).as_str(),
        ),
    );
    push_line(&mut banner, "Waiting for incoming connections...");
    push_line(&mut banner, "Press Ctrl+C to exit");
    assert(banner.deep_view() =~= server_banner(
        username@,
        public_key@,
        server_args.persist,
        ssh_dir@,
        server_args.ssh_port,
    ));
    Ok(ServerPlan { node, provision, banner })
}

/// Plans the server mode for a node with a fresh ephemeral key.
pub fn server_mode(
    server_args: &ServerArgs,
    store: &KeyStore,
    username: &str,
    ssh_dir: &str,
) -> (outcome: Result<ServerPlan, IdentityError>)
    ensures
        exists|ephemeral_key: Seq<u8>|
            server_model(outcome) == #[trigger] planned_server(
                *server_args,
                ephemeral_key,
                store@,
                username@,
                ssh_dir@,
            ),
{
    let ephemeral_key = generate_secret();
    let outcome = server_plan(server_args, &ephemeral_key, store, username, ssh_dir);
    assert(server_model(outcome) == planned_server(
        *server_args,
        ephemeral_key@,
        store@,
        username@,
        ssh_dir@,
    ));
    outcome
}

/// Plans the proxy mode for a node whose ephemeral key is `ephemeral_key`.
pub fn proxy_plan(proxy_args: &ProxyArgs, ephemeral_key: &[u8; 32]) -> (outcome: Result<
    ProxyPlan,
    TargetError,
>)
    ensures
        proxy_model(outcome) == planned_proxy(*proxy_args, ephemeral_key@),
{
    let node = Builder::with_key(ephemeral_key).accept_incoming(false).build();
    match parse_endpoint_id(proxy_args.endpoint_id.as_str()) {
        Ok(peer) => {
            let dial = node.connect(peer);
            Ok(ProxyPlan { node, dial })
        },
        Err(_) => Err(TargetError::InvalidEndpointId),
    }
}

/// Plans the proxy mode for a node with a fresh ephemeral key.
pub fn proxy_mode(proxy_args: &ProxyArgs) -> (outcome: Result<ProxyPlan, TargetError>)
    ensures
        exists|ephemeral_key: Seq<u8>|
            proxy_model(outcome) == #[trigger] planned_proxy(*proxy_args, ephemeral_key),
{
    let ephemeral_key = generate_secret();
    let outcome = proxy_plan(proxy_args, &ephemeral_key);
    assert(proxy_model(outcome) == planned_proxy(*proxy_args, ephemeral_key@));
    outcome
}

/// Plans the client mode for a node whose ephemeral key is
/// `ephemeral_key`.
pub fn client_plan(
    connect_args: &ConnectArgs,
    ephemeral_key: &[u8; 32],
    exe: &str,
) -> (plan: ClientPlan)
    ensures
        is_client_plan(plan, *connect_args, ephemeral_key@, exe@),
{
    let node = Builder::with_key(ephemeral_key).accept_incoming(false).build();
    let args = ssh_args(
        exe,
        connect_args.target.as_str(),
        &connect_args.ssh,
        &connect_args.remote_cmd,
    );
    ClientPlan { node, command: Command { program: String::from_str("ssh"), args } }
}

/// Plans the client mode for a node with a fresh ephemeral key.
pub fn client_mode(connect_args: &ConnectArgs, exe: &str) -> (plan: ClientPlan)
    ensures
        exists|ephemeral_key: Seq<u8>|
            #[trigger] is_client_plan(plan, *connect_args, ephemeral_key, exe@),
{
    let ephemeral_key = generate_secret();
    let plan = client_plan(connect_args, &ephemeral_key, exe);
    assert(is_client_plan(plan, *connect_args, ephemeral_key@, exe@));
    plan
}

} // verus!
