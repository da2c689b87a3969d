//! An in-memory model of the tunnel interface: the effect each planned
//! command has, when it succeeds, on the OS state it manipulates.
//!
//! The model is the in-memory stand-in for the real utilities: tests
//! drive their call-order and configuration assertions against it, and
//! the proofs that configuration merges are additive are stated over
//! its mathematical value, [`IfaceView`].

use vstd::prelude::*;

use crate::wg::WgCmd;
use crate::wg::interface_stanza_view;
use crate::wg::is_up_plan;

verus! {

/// Mathematical value of an [`IfaceModel`].
#[verifier::ext_equal]
pub struct IfaceView {
    pub present: bool,
    pub mtu_set: bool,
    pub address: Option<Seq<char>>,
    pub link_up: bool,
    pub route_added: bool,
    pub configs: Seq<Seq<char>>,
}

/// The modelled interface: whether it exists, what has been assigned
/// to it, and every configuration blob merged into it, in merge order.
pub struct IfaceModel {
    pub present: bool,
    pub mtu_set: bool,
    pub address: Option<String>,
    pub link_up: bool,
    pub route_added: bool,
    pub configs: Vec<String>,
}

impl View for IfaceModel {
    type V = IfaceView;

    open spec fn view(&self) -> IfaceView {
        IfaceView {
            present: self.present,
            mtu_set: self.mtu_set,
            address: match self.address {
                Some(a) => Some(a@),
                None => None,
            },
            link_up: self.link_up,
            route_added: self.route_added,
            configs: self.configs@.map_values(|s: String| s@),
        }
    }
}

/// The state before any command ran: no interface, nothing assigned,
/// no configuration.
pub open spec fn fresh_view() -> IfaceView {
    IfaceView {
        present: false,
        mtu_set: false,
        address: None,
        link_up: false,
        route_added: false,
        configs: Seq::empty(),
    }
}

/// A model of an interface that does not exist yet.
pub fn fresh_model() -> (r: IfaceModel)
    ensures
        r@ == fresh_view(),
{
    let r = IfaceModel {
        present: false,
        mtu_set: false,
        address: None,
        link_up: false,
        route_added: false,
        configs: Vec::new(),
    };
    proof {
        assert(r@ =~= fresh_view());
    }
    r
}

/// The effect of one successfully executed command. A configuration
/// merge appends its blob and touches nothing else; a destroy returns
/// the state to fresh; the key commands do not touch the interface.
pub open spec fn apply_view(v: IfaceView, c: WgCmd) -> IfaceView {
    match c {
        WgCmd::CreateInterface { .. } => IfaceView { present: true, ..v },
        WgCmd::SetMtu { .. } => IfaceView { mtu_set: true, ..v },
        WgCmd::SetAddress { cidr, .. } => IfaceView { address: Some(cidr@), ..v },
        WgCmd::SetLinkUp { .. } => IfaceView { link_up: true, ..v },
        WgCmd::AddRoute { .. } => IfaceView { route_added: true, ..v },
        WgCmd::MergeConfig { config, .. } => IfaceView { configs: v.configs.push(config@), ..v },
        WgCmd::DestroyInterface { .. } => fresh_view(),
        WgCmd::GenPrivateKey => v,
        WgCmd::DerivePublicKey { .. } => v,
    }
}

/// The effect of a sequence of successfully executed commands, first
/// command first.
pub open spec fn apply_all_view(v: IfaceView, cmds: Seq<WgCmd>) -> IfaceView
    decreases cmds.len(),
{
    if cmds.len() == 0 {
        v
    } else {
        apply_all_view(apply_view(v, cmds[0]), cmds.drop_first())
    }
}

/// Run one command against the model, assuming it succeeds.
pub fn apply(m: IfaceModel, c: &WgCmd) -> (r: IfaceModel)
    ensures
        r@ == apply_view(m@, *c),
{
    let ghost v0: IfaceView = m@;
    let mut cur = m;
    match c {
        WgCmd::CreateInterface { .. } => {
            cur.present = true;
        },
        WgCmd::SetMtu { .. } => {
            cur.mtu_set = true;
        },
        WgCmd::SetAddress { cidr, .. } => {
            cur.address = Some(cidr.clone());
        },
        WgCmd::SetLinkUp { .. } => {
            cur.link_up = true;
        },
        WgCmd::AddRoute { .. } => {
            cur.route_added = true;
        },
        WgCmd::MergeConfig { config, .. } => {
            cur.configs.push(config.clone());
        },
        WgCmd::DestroyInterface { .. } => {
            cur = fresh_model();
        },
        WgCmd::GenPrivateKey => {},
        WgCmd::DerivePublicKey { .. } => {},
    }
    proof {
        assert(cur@ =~= apply_view(v0, *c));
    }
    cur
}

/// Run a sequence of commands against the model, assuming they all
/// succeed.
pub fn apply_all(m: IfaceModel, cmds: &Vec<WgCmd>) -> (r: IfaceModel)
    ensures
        r@ == apply_all_view(m@, cmds@),
{
    let ghost v0: IfaceView = m@;
    let mut cur = m;
    let mut i: usize = 0;
    proof {
        assert(cmds@.subrange(0, cmds@.len() as int) =~= cmds@);
    }
    while i < cmds.len()
        invariant
            i <= cmds.len(),
            apply_all_view(v0, cmds@) == apply_all_view(cur@, cmds@.subrange(i as int, cmds@.len() as int)),
        decreases cmds.len() - i,
    {
        proof {
            let rest = cmds@.subrange(i as int, cmds@.len() as int);
            assert(rest[0] == cmds@[i as int]);
            assert(rest.drop_first() =~= cmds@.subrange(i as int + 1, cmds@.len() as int));
        }
        cur = apply(cur, &cmds[i]);
        i += 1;
    }
    proof {
        assert(cmds@.subrange(cmds@.len() as int, cmds@.len() as int) =~= Seq::<WgCmd>::empty());
    }
    cur
}

/// One configuration merge is additive: it appends exactly its own
/// blob, preserves every previously merged blob at its position, and
/// leaves the rest of the interface untouched.
pub proof fn lemma_merge_preserves_prior(v: IfaceView, c: WgCmd)
    requires
        (c is MergeConfig),
    ensures
        apply_view(v, c).configs.len() == v.configs.len() + 1,
        forall|k: int| 0 <= k < v.configs.len() ==> apply_view(v, c).configs[k] == v.configs[k],
        apply_view(v, c).configs.last() == c->MergeConfig_config@,
        apply_view(v, c) == (IfaceView { configs: apply_view(v, c).configs, ..v }),
{
}

/// Two consecutive configuration merges with distinct blobs leave both
/// stanzas present in the final configuration, in merge order; the
/// second merge never replaces the first.
pub proof fn lemma_merges_additive(v: IfaceView, c1: WgCmd, c2: WgCmd)
    requires
        (c1 is MergeConfig),
        (c2 is MergeConfig),
    ensures
        ({
            let v2 = apply_view(apply_view(v, c1), c2);
            &&& v2.configs == v.configs + seq![c1->MergeConfig_config@, c2->MergeConfig_config@]
            &&& v2.configs.len() == v.configs.len() + 2
            &&& v2.configs[v.configs.len() as int] == c1->MergeConfig_config@
            &&& v2.configs[v.configs.len() as int + 1] == c2->MergeConfig_config@
            &&& forall|k: int| 0 <= k < v.configs.len() ==> v2.configs[k] == v.configs[k]
        }),
{
    let v2 = apply_view(apply_view(v, c1), c2);
    assert(v2.configs =~= v.configs + seq![c1->MergeConfig_config@, c2->MergeConfig_config@]);
}

/// Applying the bring-up composite to any model yields the fully
/// configured interface: present, MTU set, the assigned address, link
/// up, route added, and exactly one new stanza — the `[Interface]` one
/// carrying the private key — appended to the configuration.
pub proof fn lemma_up_plan_effect(
    v: IfaceView,
    iface: Seq<char>,
    privkey: Seq<char>,
    address: Seq<char>,
    cmds: Seq<WgCmd>,
)
    requires
        is_up_plan(iface, privkey, address, cmds),
    ensures
        apply_all_view(v, cmds) == (IfaceView {
            present: true,
            mtu_set: true,
            address: Some(address),
            link_up: true,
            route_added: true,
            configs: v.configs.push(interface_stanza_view(privkey)),
        }),
{
    reveal_with_fuel(apply_all_view, 8);
    let r1 = cmds.drop_first();
    let r2 = r1.drop_first();
    let r3 = r2.drop_first();
    let r4 = r3.drop_first();
    let r5 = r4.drop_first();
    let r6 = r5.drop_first();
    assert(r1[0] == cmds[1] && r2[0] == cmds[2] && r3[0] == cmds[3] && r4[0] == cmds[4]
        && r5[0] == cmds[5]);
    assert(r6.len() == 0);
    assert(apply_all_view(v, cmds) =~= IfaceView {
        present: true,
        mtu_set: true,
        address: Some(address),
        link_up: true,
        route_added: true,
        configs: v.configs.push(interface_stanza_view(privkey)),
    });
}

} // verus!
