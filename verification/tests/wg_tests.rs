use wg_dark::errors::DarkError;
use wg_dark::wg::Wg;
use wg_dark::wg::WgCmd;
use wg_dark::wg::cmd_args;
use wg_dark::wg::cmd_program;
use wg_dark::wg::cmd_stdin;
use wg_dark::wg::config_path;
use wg_dark::wg::interface_stanza;
use wg_dark::wg::peer_stanza;
use wg_dark::wg::step_outcome;

#[test]
fn the_up_plan_is_the_ordered_bring_up_composite() {
    let wg = Wg::new("wgdark0");
    let cmds = wg.up("PRIV", "10.13.37.5/24");
    assert_eq!(cmds.len(), 6);
    assert!(matches!(&cmds[0], WgCmd::CreateInterface { iface } if iface == "wgdark0"));
    assert!(matches!(&cmds[1], WgCmd::SetMtu { iface } if iface == "wgdark0"));
    assert!(
        matches!(&cmds[2], WgCmd::SetAddress { iface, cidr } if iface == "wgdark0" && cidr == "10.13.37.5/24")
    );
    assert!(matches!(&cmds[3], WgCmd::SetLinkUp { iface } if iface == "wgdark0"));
    assert!(matches!(&cmds[4], WgCmd::AddRoute { iface } if iface == "wgdark0"));
    assert!(
        matches!(&cmds[5], WgCmd::MergeConfig { iface, config } if iface == "wgdark0"
            && config == "[Interface]\nPrivateKey = PRIV\nListenPort = 1337")
    );
}

#[test]
fn the_planned_command_lines_are_the_utility_invocations() {
    let wg = Wg::new("wg9");
    let cmds = wg.up("KEY", "10.13.37.7/24");
    let lines: Vec<(String, Vec<String>)> = cmds
        .iter()
        .map(|c| (cmd_program(c).to_string(), cmd_args(c)))
        .collect();
    assert_eq!(lines[0].0, "ip");
    assert_eq!(lines[0].1, vec!["link", "add", "wg9", "type", "wireguard"]);
    assert_eq!(lines[1].1, vec!["link", "set", "mtu", "1420", "dev", "wg9"]);
    assert_eq!(lines[2].1, vec!["addr", "add", "10.13.37.7/24", "dev", "wg9"]);
    assert_eq!(lines[3].1, vec!["link", "set", "wg9", "up"]);
    assert_eq!(lines[4].1, vec!["route", "add", "10.13.37.0/24", "dev", "wg9"]);
    assert_eq!(lines[5].0, "wg");
    assert_eq!(lines[5].1, vec!["addconf", "wg9", "/dev/stdin"]);
    assert_eq!(
        cmd_stdin(&cmds[5]).unwrap(),
        "[Interface]\nPrivateKey = KEY\nListenPort = 1337"
    );
    for c in cmds.iter().take(5) {
        assert!(cmd_stdin(c).is_none());
    }
}

#[test]
fn down_plans_a_single_destroy() {
    let wg = Wg::new("wgdark0");
    let c = wg.down();
    assert!(matches!(&c, WgCmd::DestroyInterface { iface } if iface == "wgdark0"));
    assert_eq!(cmd_program(&c), "ip");
    assert_eq!(cmd_args(&c), vec!["link", "del", "dev", "wgdark0"]);
}

#[test]
fn add_config_plans_a_merge_with_the_blob_on_stdin() {
    let wg = Wg::new("wgdark0");
    let c = wg.add_config("[Peer]\nPublicKey = X\n");
    assert_eq!(cmd_program(&c), "wg");
    assert_eq!(cmd_args(&c), vec!["addconf", "wgdark0", "/dev/stdin"]);
    assert_eq!(cmd_stdin(&c).unwrap(), "[Peer]\nPublicKey = X\n");
}

#[test]
fn the_key_commands_drive_the_generator() {
    let gen = Wg::genkey_cmd();
    assert_eq!(cmd_program(&gen), "wg");
    assert_eq!(cmd_args(&gen), vec!["genkey"]);
    assert!(cmd_stdin(&gen).is_none());
    let derive = Wg::pubkey_cmd("PRIV");
    assert_eq!(cmd_program(&derive), "wg");
    assert_eq!(cmd_args(&derive), vec!["pubkey"]);
    assert_eq!(cmd_stdin(&derive).unwrap(), "PRIV");
    let kp = Wg::generate_keypair("PRIV", "PUB");
    assert_eq!(kp.privkey, "PRIV");
    assert_eq!(kp.pubkey, "PUB");
}

#[test]
fn a_zero_exit_always_proceeds() {
    let wg = Wg::new("wg0");
    for c in wg.up("K", "10.0.0.2/24") {
        assert!(step_outcome(&c, 0).is_ok());
    }
}

#[test]
fn a_failed_route_addition_is_tolerated() {
    let c = WgCmd::AddRoute { iface: "wg0".to_string() };
    assert!(step_outcome(&c, 2).is_ok());
}

#[test]
fn any_other_failure_is_fatal_with_the_exit_code() {
    let c = WgCmd::CreateInterface { iface: "wg0".to_string() };
    assert_eq!(step_outcome(&c, 2).unwrap_err(), DarkError::InterfaceCommandError(2));
    let wg = Wg::new("wg0");
    assert_eq!(
        step_outcome(&wg.down(), 1).unwrap_err(),
        DarkError::InterfaceCommandError(1)
    );
}

#[test]
fn the_stanza_texts_are_exact() {
    assert_eq!(
        interface_stanza("PRIV"),
        "[Interface]\nPrivateKey = PRIV\nListenPort = 1337"
    );
    assert_eq!(
        peer_stanza("PK", "10.0.0.1", "51820"),
        "[Peer]\nPublicKey = PK\nEndpoint = 10.0.0.1:51820\nAllowedIPs = 10.13.37.1/24\nPersistentKeepalive = 25\n"
    );
}

#[test]
fn the_config_path_is_keyed_by_name() {
    assert_eq!(config_path("mynet"), "/etc/wireguard/mynet.conf");
}
