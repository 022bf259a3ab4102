//! The node and its builder, and the command line of the shell client.

use vstd::prelude::*;
use vstd::string::*;
use crate::acceptor::Acceptor;
use crate::cli::{SshOpts, DEFAULT_SSH_PORT};
use crate::identity::{
    dot_ssh, load_or_create, outcome_model, IdentityError, KeyStore, Provision,
};
use crate::initiator::{tunnel_start, Tunnel, TunnelMode};
use crate::keys::{derive_public, generate_secret, public_key_of};
use crate::process::Command;
use crate::text::{decimal, decimal_text, push_text};

verus! {

/// Settings from which a node is built.
#[derive(Debug, Clone)]
pub struct Builder {
    secret_key: [u8; 32],
    accept_incoming: bool,
    accept_port: Option<u16>,
}

/// A node: its identity, and how it serves inbound connections.
#[derive(Debug, Clone)]
pub struct IrohSsh {
    secret_key: [u8; 32],
    public_key: [u8; 32],
    accept_incoming: bool,
    ssh_port: u16,
}

/// An outbound connection to make.
#[derive(Debug, Clone)]
pub struct Dial {
    /// The peer to reach.
    pub peer: [u8; 32],
    /// The application tag to negotiate.
    pub tag: Vec<u8>,
    /// The tunnel to run over the connection.
    pub tunnel: Tunnel,
}

/// Mathematical value of a [`Dial`].
pub struct DialModel {
    pub peer: Seq<u8>,
    pub tag: Seq<u8>,
    pub tunnel: Tunnel,
}

impl View for Dial {
    type V = DialModel;

    open spec fn view(&self) -> DialModel {
        DialModel { peer: self.peer@, tag: self.tag@, tunnel: self.tunnel }
    }
}

/// The dial of a direct proxy to `peer`.
pub open spec fn direct_dial(peer: Seq<u8>) -> DialModel {
    DialModel { peer, tag: tunnel_tag(), tunnel: tunnel_start(TunnelMode::DirectProxy) }
}

/// Mathematical value of a [`Builder`].
pub struct BuilderModel {
    pub secret_key: Seq<u8>,
    pub accept_incoming: bool,
    pub accept_port: Option<u16>,
}

/// Mathematical value of an [`IrohSsh`].
pub struct NodeModel {
    pub secret_key: Seq<u8>,
    pub public_key: Seq<u8>,
    pub accept_incoming: bool,
    pub ssh_port: u16,
}

impl View for Builder {
    type V = BuilderModel;

    closed spec fn view(&self) -> BuilderModel {
        BuilderModel {
            secret_key: self.secret_key@,
            accept_incoming: self.accept_incoming,
            accept_port: self.accept_port,
        }
    }
}

impl View for IrohSsh {
    type V = NodeModel;

    closed spec fn view(&self) -> NodeModel {
        NodeModel {
            secret_key: self.secret_key@,
            public_key: self.public_key@,
            accept_incoming: self.accept_incoming,
            ssh_port: self.ssh_port,
        }
    }
}

/// The bytes of the application tag that the tunnel negotiates: `/iroh/ssh`.
pub open spec fn tunnel_tag() -> Seq<u8> {
    seq![47u8, 105u8, 114u8, 111u8, 104u8, 47u8, 115u8, 115u8, 104u8]
}

/// The node that `builder` describes: the public key is the one of the
/// secret key, and the local shell port is the standard one unless another
/// was set.
pub open spec fn built(builder: BuilderModel) -> NodeModel {
    NodeModel {
        secret_key: builder.secret_key,
        public_key: public_key_of(builder.secret_key),
        accept_incoming: builder.accept_incoming,
        ssh_port: match builder.accept_port {
            Some(port) => port,
            None => DEFAULT_SSH_PORT,
        },
    }
}

impl Builder {
    /// A builder with a fresh random secret key, which accepts no inbound
    /// connection and names no port.
    pub fn new() -> (builder: Builder)
        ensures
            !builder@.accept_incoming,
            builder@.accept_port is None,
            builder@.secret_key.len() == 32,
    {
        Builder { secret_key: generate_secret(), accept_incoming: false, accept_port: None }
    }

    /// A builder with the secret key `secret_key`, which accepts no inbound
    /// connection and names no port.
    pub fn with_key(secret_key: &[u8; 32]) -> (builder: Builder)
        ensures
            builder@ == (BuilderModel {
                secret_key: secret_key@,
                accept_incoming: false,
                accept_port: None,
            }),
    {
        Builder { secret_key: *secret_key, accept_incoming: false, accept_port: None }
    }

    /// Sets whether the node serves inbound connections.
    pub fn accept_incoming(self, accept_incoming: bool) -> (builder: Builder)
        ensures
            builder@ == (BuilderModel { accept_incoming, ..self@ }),
    {
        Builder {
            secret_key: self.secret_key,
            accept_incoming,
            accept_port: self.accept_port,
        }
    }

    /// Sets the port of the local shell service.
    pub fn accept_port(self, accept_port: u16) -> (builder: Builder)
        ensures
            builder@ == (BuilderModel { accept_port: Some(accept_port), ..self@ }),
    {
        Builder {
            secret_key: self.secret_key,
            accept_incoming: self.accept_incoming,
            accept_port: Some(accept_port),
        }
    }

    /// Sets the secret key.
    pub fn secret_key(self, secret_key: &[u8; 32]) -> (builder: Builder)
        ensures
            builder@ == (BuilderModel { secret_key: secret_key@, ..self@ }),
    {
        Builder {
            secret_key: *secret_key,
            accept_incoming: self.accept_incoming,
            accept_port: self.accept_port,
        }
    }

    /// Takes the identity from the key store, with the builder's own key as
    /// the one to store where none is stored yet.
    ///
    /// On success the builder runs under the provision's key, and the caller
    /// carries out the provision. On failure the builder keeps its own key,
    /// and the caller reports the error and goes on.
    pub fn dot_ssh_integration(self, persist: bool, store: &KeyStore) -> (result: (
        Builder,
        Result<Provision, IdentityError>,
    ))
        ensures
            outcome_model(result.1) == load_or_create(self@.secret_key, persist, store@),
            result.0@ == (BuilderModel {
                secret_key: match result.1 {
                    Ok(provision) => provision.secret_key@,
                    Err(_) => self@.secret_key,
                },
                ..self@
            }),
    {
        let outcome = dot_ssh(&self.secret_key, persist, store);
        let secret_key = match &outcome {
            Ok(provision) => provision.secret_key,
            Err(_) => self.secret_key,
        };
        (
            Builder {
                secret_key,
                accept_incoming: self.accept_incoming,
                accept_port: self.accept_port,
            },
            outcome,
        )
    }

    /// The node that these settings describe.
    pub fn build(&self) -> (node: IrohSsh)
        ensures
            node@ == built(self@),
    {
        IrohSsh {
            secret_key: self.secret_key,
            public_key: derive_public(&self.secret_key),
            accept_incoming: self.accept_incoming,
            ssh_port: match self.accept_port {
                Some(port) => port,
                None => DEFAULT_SSH_PORT,
            },
        }
    }
}

impl Default for Builder {
    fn default() -> (builder: Builder)
        ensures
            !builder@.accept_incoming,
            builder@.accept_port is None,
            builder@.secret_key.len() == 32,
    {
        Builder::new()
    }
}

impl IrohSsh {
    /// A builder with a fresh random secret key.
    pub fn builder() -> (builder: Builder)
        ensures
            !builder@.accept_incoming,
            builder@.accept_port is None,
            builder@.secret_key.len() == 32,
    {
        Builder::new()
    }

    /// The application tag that the tunnel negotiates.
    #[allow(non_snake_case)]
    pub fn ALPN() -> (tag: Vec<u8>)
        ensures
            tag@ == tunnel_tag(),
    {
        let tag: Vec<u8> = vec![47u8, 105u8, 114u8, 111u8, 104u8, 47u8, 115u8, 115u8, 104u8];
        assert(tag@ =~= tunnel_tag());
        tag
    }

    /// The command that starts the shell client for `target`, reaching the
    /// host through the proxy mode of the program at `exe`.
    pub fn start_ssh(
        &self,
        exe: &str,
        target: String,
        ssh_opts: SshOpts,
        remote_cmd: Vec<String>,
    ) -> (command: Command)
        ensures
            command.program@ == "ssh"@,
            command.args.deep_view() == ssh_arguments(
                exe@,
                target@,
                ssh_opts,
                remote_cmd.deep_view(),
            ),
    {
        let args = ssh_args(exe, target.as_str(), &ssh_opts, &remote_cmd);
        Command { program: String::from_str("ssh"), args }
    }

    /// The identifier under which peers reach this node: its public key.
    pub fn endpoint_id(&self) -> (id: [u8; 32])
        ensures
            id@ == self@.public_key,
    {
        self.public_key
    }

    /// The secret key of this node.
    pub fn secret_key(&self) -> (key: [u8; 32])
        ensures
            key@ == self@.secret_key,
    {
        self.secret_key
    }

    /// The port of the local shell service.
    pub fn ssh_port(&self) -> (port: u16)
        ensures
            port == self@.ssh_port,
    {
        self.ssh_port
    }

    /// Whether this node serves inbound connections.
    pub fn accepts_incoming(&self) -> (accepts: bool)
        ensures
            accepts == self@.accept_incoming,
    {
        self.accept_incoming
    }

    /// The acceptor to register with the endpoint before its first use: one
    /// for the tunnel's tag and the node's shell port, if the node serves
    /// inbound connections. A node that does not may only open outbound
    /// connections.
    pub fn acceptor(&self) -> (acceptor: Option<Acceptor>)
        ensures
            acceptor is Some == self@.accept_incoming,
            acceptor matches Some(a) ==> a.tag() == tunnel_tag() && a.port() == self@.ssh_port,
    {
        if self.accept_incoming {
            Some(Acceptor::new(IrohSsh::ALPN(), self.ssh_port))
        } else {
            None
        }
    }

    /// What to dial to reach the peer `endpoint_id` as a direct proxy: the
    /// peer, the tunnel's tag, and a tunnel that is about to be set up.
    pub fn connect(&self, endpoint_id: [u8; 32]) -> (dial: Dial)
        ensures
            dial@ == direct_dial(endpoint_id@),
    {
        Dial {
            peer: endpoint_id,
            tag: IrohSsh::ALPN(),
            tunnel: Tunnel::start(TunnelMode::DirectProxy),
        }
    }
}

/// One argument if `on`, none otherwise.
pub open spec fn flag(on: bool, name: Seq<char>) -> Seq<Seq<char>> {
    if on {
        seq![name]
    } else {
        Seq::empty()
    }
}

/// `name` before each of `values`, in their order.
pub open spec fn paired(name: Seq<char>, values: Seq<Seq<char>>) -> Seq<Seq<char>> {
    Seq::new(
        2 * values.len(),
        |i: int|
            if i % 2 == 0 {
                name
            } else {
                values[i / 2]
            },
    )
}

/// `name`, `count` times.
pub open spec fn repeated(name: Seq<char>, count: nat) -> Seq<Seq<char>> {
    Seq::new(count, |i: int| name)
}

/// The option that makes the shell client reach its host through the proxy
/// mode of the program at `exe`.
pub open spec fn proxy_option(exe: Seq<char>) -> Seq<char> {
    "ProxyCommand="@ + exe + " proxy %h"@
}

/// The arguments of the shell client: the proxy option, then each option
/// that is set, in a fixed order, then the target and the remote command.
pub open spec fn ssh_arguments(
    exe: Seq<char>,
    target: Seq<char>,
    opts: SshOpts,
    remote_cmd: Seq<Seq<char>>,
) -> Seq<Seq<char>> {
    seq!["-o"@, proxy_option(exe)] + (match opts.port {
        Some(port) => seq!["-p"@, decimal(port as nat)],
        None => Seq::empty(),
    }) + (match opts.identity_file {
        Some(file) => seq!["-i"@, file@],
        None => Seq::empty(),
    }) + paired("-L"@, opts.local_forward.deep_view()) + paired(
        "-R"@,
        opts.remote_forward.deep_view(),
    ) + paired("-o"@, opts.options.deep_view()) + flag(opts.agent, "-A"@) + flag(
        opts.no_agent,
        "-a"@,
    ) + (if opts.x11_trusted {
        seq!["-Y"@]
    } else {
        flag(opts.x11, "-X"@)
    }) + flag(opts.no_cmd, "-N"@) + flag(opts.force_tty, "-t"@) + flag(opts.no_tty, "-T"@)
        + repeated("-v"@, opts.verbose as nat) + flag(opts.quiet, "-q"@) + seq![target]
        + remote_cmd
}

fn push_flag(args: &mut Vec<String>, on: bool, name: &str)
    ensures
        final(args).deep_view() == old(args).deep_view() + flag(on, name@),
{
    if on {
        push_text(args, String::from_str(name));
    }
    assert(args.deep_view() =~= old(args).deep_view() + flag(on, name@));
}

fn push_pairs(args: &mut Vec<String>, name: &str, values: &Vec<String>)
    ensures
        final(args).deep_view() == old(args).deep_view() + paired(name@, values.deep_view()),
{
    let mut i: usize = 0;
    while i < values.len()
        invariant
            i <= values.len(),
            args.deep_view().len() == old(args).deep_view().len() + 2 * i,
            forall|j: int|
                0 <= j < old(args).deep_view().len() ==> args.deep_view()[j] == old(
                    args,
                ).deep_view()[j],
            forall|j: int|
                0 <= j < 2 * i ==> args.deep_view()[old(args).deep_view().len() + j] == paired(
                    name@,
                    values.deep_view(),
                )[j],
        decreases values.len() - i,
    {
        push_text(args, String::from_str(name));
        push_text(args, values[i].clone());
        i += 1;
    }
    assert(args.deep_view() =~= old(args).deep_view() + paired(name@, values.deep_view()));
}

fn push_repeated(args: &mut Vec<String>, name: &str, count: u8)
    ensures
        final(args).deep_view() == old(args).deep_view() + repeated(name@, count as nat),
{
    let mut i: u8 = 0;
    assert(args.deep_view() =~= old(args).deep_view() + repeated(name@, 0));
    while i < count
        invariant
            i <= count,
            args.deep_view() == old(args).deep_view() + repeated(name@, i as nat),
        decreases count - i,
    {
        push_text(args, String::from_str(name));
        i += 1;
        assert(args.deep_view() =~= old(args).deep_view() + repeated(name@, i as nat));
    }
}

fn push_all(args: &mut Vec<String>, values: &Vec<String>)
    ensures
        final(args).deep_view() == old(args).deep_view() + values.deep_view(),
{
    let mut i: usize = 0;
    assert(args.deep_view() =~= old(args).deep_view() + values.deep_view().take(0));
    while i < values.len()
        invariant
            i <= values.len(),
            args.deep_view() == old(args).deep_view() + values.deep_view().take(i as int),
        decreases values.len() - i,
    {
        push_text(args, values[i].clone());
        i += 1;
        assert(args.deep_view() =~= old(args).deep_view() + values.deep_view().take(i as int));
    }
    assert(args.deep_view() =~= old(args).deep_view() + values.deep_view());
}

/// Composes the arguments of the shell client.
pub fn ssh_args(exe: &str, target: &str, opts: &SshOpts, remote_cmd: &Vec<String>) -> (args: Vec<
    String,
>)
    ensures
        args.deep_view() == ssh_arguments(exe@, target@, *opts, remote_cmd.deep_view()),
{
    let mut args: Vec<String> = Vec::new();
    let mut proxy = String::from_str("ProxyCommand=");
    proxy.append(exe);
    proxy.append(" proxy %h");
    push_text(&mut args, String::from_str("-o"));
    push_text(&mut args, proxy);
    assert(args.deep_view() =~= seq!["-o"@, proxy_option(exe@)]);
    match opts.port {
        Some(port) => {
            push_text(&mut args, String::from_str("-p"));
            push_text(&mut args, decimal_text(port));
            assert(args.deep_view() =~= seq!["-o"@, proxy_option(exe@)] + seq![
                "-p"@,
                decimal(port as nat),
            ]);
        },
        None => {
            assert(args.deep_view() =~= seq!["-o"@, proxy_option(exe@)] + Seq::<
                Seq<char>,
            >::empty());
        },
    }
    let ghost with_port = args.deep_view();
    match &opts.identity_file {
        Some(file) => {
            push_text(&mut args, String::from_str("-i"));
            push_text(&mut args, file.clone());
            assert(args.deep_view() =~= with_port + seq!["-i"@, file@]);
        },
        None => {
            assert(args.deep_view() =~= with_port + Seq::<Seq<char>>::empty());
        },
    }
    push_pairs(&mut args, "-L", &opts.local_forward);
    push_pairs(&mut args, "-R", &opts.remote_forward);
    push_pairs(&mut args, "-o", &opts.options);
    push_flag(&mut args, opts.agent, "-A");
    push_flag(&mut args, opts.no_agent, "-a");
    let ghost before_x11 = args.deep_view();
    if opts.x11_trusted {
        push_text(&mut args, String::from_str("-Y"));
        assert(args.deep_view() =~= before_x11 + seq!["-Y"@]);
    } else {
        push_flag(&mut args, opts.x11, "-X");
    }
    push_flag(&mut args, opts.no_cmd, "-N");
    push_flag(&mut args, opts.force_tty, "-t");
    push_flag(&mut args, opts.no_tty, "-T");
    push_repeated(&mut args, "-v", opts.verbose);
    push_flag(&mut args, opts.quiet, "-q");
    let ghost before_target = args.deep_view();
    push_text(&mut args, String::from_str(target));
    assert(args.deep_view() =~= before_target + seq![target@]);
    push_all(&mut args, remote_cmd);
    args
}

} // verus!
