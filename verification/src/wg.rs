//! The interface controller: planning of the OS/tunnel utility
//! invocations that create, configure, and destroy the tunnel
//! interface.
//!
//! The library never spawns a process. Each operation yields `WgCmd`
//! values — exact descriptions of the utility invocations — and the
//! surrounding process runs them in order, feeding each exit code back
//! through [`step_outcome`].

use vstd::prelude::*;
use vstd::string::*;

use crate::errors::DarkError;

verus! {

/// One invocation of an external utility, as planned by the
/// controller. [`cmd_program`], [`cmd_args`] and [`cmd_stdin`] give
/// the exact command line and standard input of each variant.
#[derive(Debug, Clone)]
pub enum WgCmd {
    /// `ip link add <iface> type wireguard`
    CreateInterface { iface: String },
    /// `ip link set mtu 1420 dev <iface>`
    SetMtu { iface: String },
    /// `ip addr add <cidr> dev <iface>`
    SetAddress { iface: String, cidr: String },
    /// `ip link set <iface> up`
    SetLinkUp { iface: String },
    /// `ip route add 10.13.37.0/24 dev <iface>`; failure is tolerated,
    /// since the route may pre-exist.
    AddRoute { iface: String },
    /// `wg addconf <iface> /dev/stdin` with `config` on standard
    /// input: an additive merge that never replaces earlier stanzas.
    MergeConfig { iface: String, config: String },
    /// `ip link del dev <iface>`
    DestroyInterface { iface: String },
    /// `wg genkey`
    GenPrivateKey,
    /// `wg pubkey` with the private key on standard input.
    DerivePublicKey { privkey: String },
}

/// The program a command runs: `ip` for interface manipulation, `wg`
/// for key handling and configuration merges.
pub open spec fn cmd_program_view(c: WgCmd) -> Seq<char> {
    match c {
        WgCmd::MergeConfig { .. } => "wg"@,
        WgCmd::GenPrivateKey => "wg"@,
        WgCmd::DerivePublicKey { .. } => "wg"@,
        _ => "ip"@,
    }
}

/// The argument list a command is run with.
pub open spec fn cmd_args_view(c: WgCmd) -> Seq<Seq<char>> {
    match c {
        WgCmd::CreateInterface { iface } => seq!["link"@, "add"@, iface@, "type"@, "wireguard"@],
        WgCmd::SetMtu { iface } => seq!["link"@, "set"@, "mtu"@, "1420"@, "dev"@, iface@],
        WgCmd::SetAddress { iface, cidr } => seq!["addr"@, "add"@, cidr@, "dev"@, iface@],
        WgCmd::SetLinkUp { iface } => seq!["link"@, "set"@, iface@, "up"@],
        WgCmd::AddRoute { iface } => seq!["route"@, "add"@, "10.13.37.0/24"@, "dev"@, iface@],
        WgCmd::MergeConfig { iface, .. } => seq!["addconf"@, iface@, "/dev/stdin"@],
        WgCmd::DestroyInterface { iface } => seq!["link"@, "del"@, "dev"@, iface@],
        WgCmd::GenPrivateKey => seq!["genkey"@],
        WgCmd::DerivePublicKey { .. } => seq!["pubkey"@],
    }
}

/// What a command receives on standard input: the configuration blob
/// for a merge, the private key for public-key derivation, nothing
/// otherwise.
pub open spec fn cmd_stdin_view(c: WgCmd) -> Option<Seq<char>> {
    match c {
        WgCmd::MergeConfig { config, .. } => Some(config@),
        WgCmd::DerivePublicKey { privkey } => Some(privkey@),
        _ => None,
    }
}

/// A best-effort command may fail without failing the operation it is
/// part of. Only the route addition is best-effort.
pub open spec fn is_best_effort(c: WgCmd) -> bool {
    c is AddRoute
}

/// The program to run for a command.
pub fn cmd_program(c: &WgCmd) -> (r: &'static str)
    ensures
        r@ == cmd_program_view(*c),
{
    match c {
        WgCmd::MergeConfig { .. } => "wg",
        WgCmd::GenPrivateKey => "wg",
        WgCmd::DerivePublicKey { .. } => "wg",
        _ => "ip",
    }
}

/// The argument list to run a command with.
pub fn cmd_args(c: &WgCmd) -> (r: Vec<String>)
    ensures
        r@.len() == cmd_args_view(*c).len(),
        forall|i: int| 0 <= i < r@.len() ==> r@[i]@ == cmd_args_view(*c)[i],
{
    let mut args: Vec<String> = Vec::new();
    match c {
        WgCmd::CreateInterface { iface } => {
            args.push(String::from_str("link"));
            args.push(String::from_str("add"));
            args.push(iface.clone());
            args.push(String::from_str("type"));
            args.push(String::from_str("wireguard"));
        },
        WgCmd::SetMtu { iface } => {
            args.push(String::from_str("link"));
            args.push(String::from_str("set"));
            args.push(String::from_str("mtu"));
            args.push(String::from_str("1420"));
            args.push(String::from_str("dev"));
            args.push(iface.clone());
        },
        WgCmd::SetAddress { iface, cidr } => {
            args.push(String::from_str("addr"));
            args.push(String::from_str("add"));
            args.push(cidr.clone());
            args.push(String::from_str("dev"));
            args.push(iface.clone());
        },
        WgCmd::SetLinkUp { iface } => {
            args.push(String::from_str("link"));
            args.push(String::from_str("set"));
            args.push(iface.clone());
            args.push(String::from_str("up"));
        },
        WgCmd::AddRoute { iface } => {
            args.push(String::from_str("route"));
            args.push(String::from_str("add"));
            args.push(String::from_str("10.13.37.0/24"));
            args.push(String::from_str("dev"));
            args.push(iface.clone());
        },
        WgCmd::MergeConfig { iface, .. } => {
            args.push(String::from_str("addconf"));
            args.push(iface.clone());
            args.push(String::from_str("/dev/stdin"));
        },
        WgCmd::DestroyInterface { iface } => {
            args.push(String::from_str("link"));
            args.push(String::from_str("del"));
            args.push(String::from_str("dev"));
            args.push(iface.clone());
        },
        WgCmd::GenPrivateKey => {
            args.push(String::from_str("genkey"));
        },
        WgCmd::DerivePublicKey { .. } => {
            args.push(String::from_str("pubkey"));
        },
    }
    args
}

/// What to hand a command on standard input, if anything.
pub fn cmd_stdin<'a>(c: &'a WgCmd) -> (r: Option<&'a String>)
    ensures
        match r {
            Some(text) => cmd_stdin_view(*c) == Some(text@),
            None => cmd_stdin_view(*c) is None,
        },
{
    match c {
        WgCmd::MergeConfig { config, .. } => Some(config),
        WgCmd::DerivePublicKey { privkey } => Some(privkey),
        _ => None,
    }
}

/// The declared failure policy for one executed command: a zero exit
/// proceeds; a non-zero exit is tolerated only for a best-effort
/// command and is otherwise fatal, with the exit code preserved.
pub fn step_outcome(c: &WgCmd, exit_code: i32) -> (r: Result<(), DarkError>)
    ensures
        exit_code == 0 ==> r is Ok,
        exit_code != 0 && is_best_effort(*c) ==> r is Ok,
        exit_code != 0 && !is_best_effort(*c) ==> r == Err::<(), DarkError>(
            DarkError::InterfaceCommandError(exit_code),
        ),
{
    if exit_code == 0 {
        Ok(())
    } else {
        match c {
            WgCmd::AddRoute { .. } => Ok(()),
            _ => Err(DarkError::InterfaceCommandError(exit_code)),
        }
    }
}

/// A base64-encoded static keypair, as produced by the tunnel
/// utility's key generator. The private key never leaves the process
/// except into the interface configuration.
#[derive(Debug, Clone)]
pub struct Keypair {
    pub privkey: String,
    pub pubkey: String,
}

/// Handle on one named tunnel interface. Creating the handle does not
/// create the interface in the OS; the planned commands do.
#[derive(Debug, Clone)]
pub struct Wg {
    pub iface: String,
}

/// The initial `[Interface]` stanza: the private key and the fixed
/// listen port, applied in the same bring-up step as creation.
pub open spec fn interface_stanza_view(privkey: Seq<char>) -> Seq<char> {
    "[Interface]\nPrivateKey = "@ + privkey + "\nListenPort = 1337"@
}

/// Build the `[Interface]` stanza applied at bring-up.
pub fn interface_stanza(privkey: &str) -> (r: String)
    ensures
        r@ == interface_stanza_view(privkey@),
{
    let mut r = String::from_str("[Interface]\nPrivateKey = ");
    r.append(privkey);
    r.append("\nListenPort = 1337");
    r
}

/// The ordered bring-up composite: create the interface, set its MTU,
/// assign the address, set the link up, best-effort add the darknet
/// route, then merge the `[Interface]` stanza carrying the private key
/// and listen port. There is no rollback: if an ordered step fails,
/// the effects of the earlier steps remain applied.
pub open spec fn is_up_plan(
    iface: Seq<char>,
    privkey: Seq<char>,
    address: Seq<char>,
    cmds: Seq<WgCmd>,
) -> bool {
    &&& cmds.len() == 6
    &&& cmds[0] matches WgCmd::CreateInterface { iface: f } && f@ == iface
    &&& cmds[1] matches WgCmd::SetMtu { iface: f } && f@ == iface
    &&& cmds[2] matches WgCmd::SetAddress { iface: f, cidr } && f@ == iface && cidr@ == address
    &&& cmds[3] matches WgCmd::SetLinkUp { iface: f } && f@ == iface
    &&& cmds[4] matches WgCmd::AddRoute { iface: f } && f@ == iface
    &&& cmds[5] matches WgCmd::MergeConfig { iface: f, config } && f@ == iface && config@
        == interface_stanza_view(privkey)
}

/// The `[Peer]` stanza that adds the coordination server itself as the
/// first peer: its public key from the join response, its endpoint
/// from the invite, the darknet's address range, and a keepalive.
pub open spec fn peer_stanza_view(pubkey: Seq<char>, host: Seq<char>, port: Seq<char>) -> Seq<
    char,
> {
    "[Peer]\nPublicKey = "@ + pubkey + "\nEndpoint = "@ + host + ":"@ + port
        + "\nAllowedIPs = 10.13.37.1/24\nPersistentKeepalive = 25\n"@
}

/// Build the `[Peer]` stanza that adds the coordination server as a
/// peer.
pub fn peer_stanza(pubkey: &str, host: &str, port: &str) -> (r: String)
    ensures
        r@ == peer_stanza_view(pubkey@, host@, port@),
{
    let mut r = String::from_str("[Peer]\nPublicKey = ");
    r.append(pubkey);
    r.append("\nEndpoint = ");
    r.append(host);
    r.append(":");
    r.append(port);
    r.append("\nAllowedIPs = 10.13.37.1/24\nPersistentKeepalive = 25\n");
    r
}

/// The path of the persisted configuration of a named darknet.
pub open spec fn config_path_view(name: Seq<char>) -> Seq<char> {
    "/etc/wireguard/"@ + name + ".conf"@
}

/// Build the path of the persisted configuration of a named darknet.
pub fn config_path(name: &str) -> (r: String)
    ensures
        r@ == config_path_view(name@),
{
    let mut r = String::from_str("/etc/wireguard/");
    r.append(name);
    r.append(".conf");
    r
}

impl Wg {
    /// Create a handle for a named interface. This does *not* create
    /// the interface in the OS.
    pub fn new(iface: &str) -> (r: Wg)
        ensures
            r.iface@ == iface@,
    {
        Wg { iface: iface.to_owned() }
    }

    /// The command that generates a fresh private key.
    pub fn genkey_cmd() -> (r: WgCmd)
        ensures
            r is GenPrivateKey,
    {
        WgCmd::GenPrivateKey
    }

    /// The command that derives the public key of `privkey`.
    pub fn pubkey_cmd(privkey: &str) -> (r: WgCmd)
        ensures
            r matches WgCmd::DerivePublicKey { privkey: p } && p@ == privkey@,
    {
        WgCmd::DerivePublicKey { privkey: privkey.to_owned() }
    }

    /// Assemble a static keypair from the outputs of the two key
    /// commands: the fresh private key printed by [`Wg::genkey_cmd`]
    /// and the public key that [`Wg::pubkey_cmd`] derived from it. A
    /// keypair is assembled once per join, before any join request is
    /// sent.
    pub fn generate_keypair(privkey: &str, pubkey: &str) -> (r: Keypair)
        ensures
            r.privkey@ == privkey@,
            r.pubkey@ == pubkey@,
    {
        Keypair { privkey: privkey.to_owned(), pubkey: pubkey.to_owned() }
    }

    /// Plan the ordered bring-up composite for this interface: the
    /// address assignment and the private key are applied in the same
    /// bring-up as the creation, so no partial address-only state is
    /// ever planned.
    pub fn up(&self, privkey: &str, address: &str) -> (cmds: Vec<WgCmd>)
        ensures
            is_up_plan(self.iface@, privkey@, address@, cmds@),
    {
        let mut cmds: Vec<WgCmd> = Vec::new();
        cmds.push(WgCmd::CreateInterface { iface: self.iface.clone() });
        cmds.push(WgCmd::SetMtu { iface: self.iface.clone() });
        cmds.push(WgCmd::SetAddress { iface: self.iface.clone(), cidr: address.to_owned() });
        cmds.push(WgCmd::SetLinkUp { iface: self.iface.clone() });
        cmds.push(WgCmd::AddRoute { iface: self.iface.clone() });
        cmds.push(
            WgCmd::MergeConfig { iface: self.iface.clone(), config: interface_stanza(privkey) },
        );
        cmds
    }

    /// Plan the teardown: a single destroy of this interface. The
    /// supervisor issues it exactly once per session.
    pub fn down(&self) -> (r: WgCmd)
        ensures
            r matches WgCmd::DestroyInterface { iface } && iface@ == self.iface@,
    {
        WgCmd::DestroyInterface { iface: self.iface.clone() }
    }

    /// Plan an additive merge of `config` into this interface's
    /// configuration. The merge appends; it never removes or replaces
    /// previously applied stanzas.
    pub fn add_config(&self, config: &str) -> (r: WgCmd)
        ensures
            r matches WgCmd::MergeConfig { iface, config: cfg } && iface@ == self.iface@ && cfg@
                == config@,
    {
        WgCmd::MergeConfig { iface: self.iface.clone(), config: config.to_owned() }
    }
}

} // verus!
