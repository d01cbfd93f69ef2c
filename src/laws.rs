use vstd::prelude::*;
use crate::action::ActionView;
use crate::command::{is_required, InvocationView};
use crate::execution::{fails_from, run_from};
use crate::plan::{
    bypass_removals, bypass_routes, linux_activate_spec, linux_deactivate_spec,
    linux_device_routes, linux_prelude_spec, macos_activate_spec, macos_deactivate_spec,
    restored_resolver, windows_activate_spec, windows_deactivate_spec,
};

verus! {

/// The part of a host's network state that transitions change.
pub struct HostView {
    /// The gateways of the default routes.
    pub default_gateways: Set<Seq<char>>,
    /// The resolver file's contents; none while the resolver service manages it.
    pub resolver: Option<Seq<char>>,
    /// The destinations that have a bypass route.
    pub bypass: Set<Seq<char>>,
}

/// What one action does to the host. Device and adapter settings belong to the
/// tunnel device and leave this state alone.
pub open spec fn effect(h: HostView, a: ActionView) -> HostView {
    match a {
        ActionView::DeleteDefaultRoute => HostView { default_gateways: Set::empty(), ..h },
        ActionView::AddTunnelDefaultRoute => HostView {
            default_gateways: h.default_gateways.insert("10.0.0.1"@),
            ..h
        },
        ActionView::RestoreDefaultRoute { gateway } => HostView {
            default_gateways: h.default_gateways.insert(gateway),
            ..h
        },
        ActionView::WriteResolver { contents } => HostView { resolver: Some(contents), ..h },
        ActionView::RestartResolver => HostView { resolver: None, ..h },
        ActionView::AddBypassRoute { destination, .. } => HostView {
            bypass: h.bypass.insert(destination),
            ..h
        },
        ActionView::DeleteBypassRoute { destination } => HostView {
            bypass: h.bypass.remove(destination),
            ..h
        },
        _ => h,
    }
}

/// The host after a sequence of actions has run in full.
pub open spec fn after(h: HostView, s: Seq<ActionView>) -> HostView
    decreases s.len(),
{
    if s.len() == 0 {
        h
    } else {
        effect(after(h, s.drop_last()), s.last())
    }
}

/// The number of actions in `s` that meet `f`.
pub open spec fn count_where(s: Seq<ActionView>, f: spec_fn(ActionView) -> bool) -> nat
    decreases s.len(),
{
    if s.len() == 0 {
        0
    } else {
        count_where(s.drop_last(), f) + if f(s.last()) {
            1nat
        } else {
            0nat
        }
    }
}

/// The bypass routes that a sequence installs.
pub open spec fn bypass_installs(s: Seq<ActionView>) -> nat {
    count_where(s, |a: ActionView| a is AddBypassRoute)
}

/// The bypass routes that a sequence removes.
pub open spec fn bypass_deletions(s: Seq<ActionView>) -> nat {
    count_where(s, |a: ActionView| a is DeleteBypassRoute)
}

proof fn lemma_after_push(h: HostView, s: Seq<ActionView>, a: ActionView)
    ensures
        after(h, s.push(a)) == effect(after(h, s), a),
{
    assert(s.push(a).drop_last() =~= s);
}

proof fn lemma_after_concat(h: HostView, s: Seq<ActionView>, t: Seq<ActionView>)
    ensures
        after(h, s + t) == after(after(h, s), t),
    decreases t.len(),
{
    if t.len() == 0 {
        assert(s + t =~= s);
    } else {
        lemma_after_concat(h, s, t.drop_last());
        assert((s + t).drop_last() =~= s + t.drop_last());
        assert((s + t).last() == t.last());
    }
}

proof fn lemma_count_concat(s: Seq<ActionView>, t: Seq<ActionView>, f: spec_fn(ActionView) -> bool)
    ensures
        count_where(s + t, f) == count_where(s, f) + count_where(t, f),
    decreases t.len(),
{
    if t.len() == 0 {
        assert(s + t =~= s);
    } else {
        lemma_count_concat(s, t.drop_last(), f);
        assert((s + t).drop_last() =~= s + t.drop_last());
        assert((s + t).last() == t.last());
    }
}

proof fn lemma_bypass_routes(h: HostView, dests: Seq<Seq<char>>, via: Seq<char>)
    ensures
        after(h, bypass_routes(dests, via)) == (HostView {
            bypass: h.bypass + dests.to_set(),
            ..h
        }),
        bypass_installs(bypass_routes(dests, via)) == dests.len(),
    decreases dests.len(),
{
    let s = bypass_routes(dests, via);
    if dests.len() == 0 {
        assert(dests.to_set() =~= Set::empty());
        assert(h.bypass + dests.to_set() =~= h.bypass);
    } else {
        lemma_bypass_routes(h, dests.drop_last(), via);
        assert(s.drop_last() =~= bypass_routes(dests.drop_last(), via));
        assert(dests.to_set() =~= dests.drop_last().to_set().insert(dests.last())) by {
            assert(dests =~= dests.drop_last().push(dests.last()));
            dests.drop_last().lemma_push_to_set_commute(dests.last());
        }
        assert(h.bypass + dests.to_set() =~= (h.bypass + dests.drop_last().to_set()).insert(
            dests.last(),
        ));
    }
}

proof fn lemma_bypass_removals(h: HostView, dests: Seq<Seq<char>>)
    ensures
        after(h, bypass_removals(dests)) == (HostView { bypass: h.bypass - dests.to_set(), ..h }),
        bypass_deletions(bypass_removals(dests)) == dests.len(),
    decreases dests.len(),
{
    let s = bypass_removals(dests);
    if dests.len() == 0 {
        assert(dests.to_set() =~= Set::empty());
        assert(h.bypass - dests.to_set() =~= h.bypass);
    } else {
        lemma_bypass_removals(h, dests.drop_last());
        assert(s.drop_last() =~= bypass_removals(dests.drop_last()));
        assert(dests.to_set() =~= dests.drop_last().to_set().insert(dests.last())) by {
            assert(dests =~= dests.drop_last().push(dests.last()));
            dests.drop_last().lemma_push_to_set_commute(dests.last());
        }
        assert(h.bypass - dests.to_set() =~= (h.bypass - dests.drop_last().to_set()).remove(
            dests.last(),
        ));
    }
}

proof fn lemma_count_push(s: Seq<ActionView>, a: ActionView, f: spec_fn(ActionView) -> bool)
    ensures
        count_where(s.push(a), f) == count_where(s, f) + if f(a) {
            1nat
        } else {
            0nat
        },
{
    assert(s.push(a).drop_last() =~= s);
}

proof fn lemma_after_two(h: HostView, x: ActionView, y: ActionView)
    ensures
        after(h, seq![x, y]) == effect(effect(h, x), y),
{
    assert(seq![x, y] =~= seq![x].push(y));
    lemma_after_push(h, Seq::empty(), x);
    lemma_after_push(h, seq![x], y);
}

proof fn lemma_after_three(h: HostView, x: ActionView, y: ActionView, z: ActionView)
    ensures
        after(h, seq![x, y, z]) == effect(effect(effect(h, x), y), z),
{
    assert(seq![x, y, z] =~= seq![x, y].push(z));
    lemma_after_two(h, x, y);
    lemma_after_push(h, seq![x, y], z);
}

proof fn lemma_count_two(x: ActionView, y: ActionView, f: spec_fn(ActionView) -> bool)
    ensures
        count_where(seq![x, y], f) == count_where(seq![x], f) + if f(y) {
            1nat
        } else {
            0nat
        },
        count_where(seq![x], f) == if f(x) {
            1nat
        } else {
            0nat
        },
{
    assert(seq![x, y] =~= seq![x].push(y));
    lemma_count_push(Seq::empty(), x, f);
    lemma_count_push(seq![x], y, f);
}

proof fn lemma_count_three(x: ActionView, y: ActionView, z: ActionView, f: spec_fn(ActionView) -> bool)
    ensures
        count_where(seq![x, y, z], f) == count_where(seq![x, y], f) + if f(z) {
            1nat
        } else {
            0nat
        },
{
    assert(seq![x, y, z] =~= seq![x, y].push(z));
    lemma_count_push(seq![x, y], z, f);
}

proof fn lemma_count_four(w: ActionView, x: ActionView, y: ActionView, z: ActionView, f: spec_fn(ActionView) -> bool)
    ensures
        count_where(seq![w, x, y, z], f) == count_where(seq![w, x, y], f) + if f(z) {
            1nat
        } else {
            0nat
        },
{
    assert(seq![w, x, y, z] =~= seq![w, x, y].push(z));
    lemma_count_push(seq![w, x, y], z, f);
}

/// Windows: activating and then deactivating with the gateway that was found
/// leaves the host with the default route it had, and its resolver file as it
/// was. (The resolver that activation sets belongs to the tunnel's adapter.)
pub proof fn law_windows_round_trip(
    h: HostView,
    bypass: Seq<Seq<char>>,
    device: Seq<char>,
    dns: Seq<char>,
    gateway: Seq<char>,
)
    requires
        h.default_gateways == set![gateway],
    ensures
        after(
            h,
            windows_activate_spec(bypass, device, dns, gateway) + windows_deactivate_spec(
                Some(gateway),
            ),
        ).default_gateways == h.default_gateways,
        after(
            h,
            windows_activate_spec(bypass, device, dns, gateway) + windows_deactivate_spec(
                Some(gateway),
            ),
        ).resolver == h.resolver,
{
    let x = ActionView::SetAdapterDns { device, dns };
    let y = ActionView::AddTunnelDefaultRoute;
    let act = windows_activate_spec(bypass, device, dns, gateway);
    lemma_after_concat(h, act, windows_deactivate_spec(Some(gateway)));
    lemma_after_concat(h, seq![x, y], bypass_routes(bypass, gateway));
    lemma_after_two(h, x, y);
    lemma_bypass_routes(after(h, seq![x, y]), bypass, gateway);
    lemma_after_two(
        after(h, act),
        ActionView::DeleteDefaultRoute,
        ActionView::RestoreDefaultRoute { gateway },
    );
    assert(Set::<Seq<char>>::empty().insert(gateway) =~= h.default_gateways);
}

/// macOS: activating and then deactivating with the gateway that was found
/// leaves the host with the default route it had; the resolver file comes
/// back as it was where it named that gateway.
pub proof fn law_macos_round_trip(h: HostView, bypass: Seq<Seq<char>>, device: Seq<char>, gateway: Seq<char>)
    requires
        h.default_gateways == set![gateway],
        h.resolver == Some(restored_resolver(gateway)),
    ensures
        after(
            h,
            macos_activate_spec(bypass, device, gateway) + macos_deactivate_spec(Some(gateway)),
        ).default_gateways == h.default_gateways,
        after(
            h,
            macos_activate_spec(bypass, device, gateway) + macos_deactivate_spec(Some(gateway)),
        ).resolver == h.resolver,
{
    let a1 = ActionView::AssignDeviceAddress { device };
    let a2 = ActionView::DeleteDefaultRoute;
    let a3 = ActionView::AddTunnelDefaultRoute;
    let w = ActionView::WriteResolver { contents: "nameserver 198.18.0.1\n"@ + "\n"@ };
    let head = seq![a1, a2, a3];
    let routes = bypass_routes(bypass, gateway);
    let act = macos_activate_spec(bypass, device, gateway);
    lemma_after_concat(h, act, macos_deactivate_spec(Some(gateway)));
    lemma_after_concat(h, head + routes, seq![w]);
    lemma_after_concat(h, head, routes);
    lemma_after_three(h, a1, a2, a3);
    lemma_bypass_routes(after(h, head), bypass, gateway);
    lemma_after_push(after(h, head + routes), Seq::empty(), w);
    lemma_after_three(
        after(h, act),
        ActionView::DeleteDefaultRoute,
        ActionView::RestoreDefaultRoute { gateway },
        ActionView::WriteResolver { contents: restored_resolver(gateway) },
    );
    assert(Set::<Seq<char>>::empty().insert(gateway) =~= h.default_gateways);
}

/// Linux: creating the device, activating and then deactivating leaves the
/// default routes, the bypass routes and the resolver as they were, where the
/// resolver service managed the resolver and no bypass destination had a
/// route of its own before.
pub proof fn law_linux_round_trip(h: HostView, bypass: Seq<Seq<char>>, device: Seq<char>, route: Seq<char>)
    requires
        h.resolver is None,
        h.bypass.disjoint(bypass.to_set()),
    ensures
        after(
            h,
            linux_prelude_spec(device) + linux_activate_spec(bypass, device, route)
                + linux_deactivate_spec(bypass, device),
        ) == h,
{
    let pre = linux_prelude_spec(device);
    let routes = bypass_routes(bypass, route);
    let devs = linux_device_routes(device);
    let w = ActionView::WriteResolver { contents: "nameserver 198.18.0.1\n"@ };
    let act = linux_activate_spec(bypass, device, route);
    let removals = bypass_removals(bypass);
    lemma_after_concat(h, pre + act, linux_deactivate_spec(bypass, device));
    lemma_after_concat(h, pre, act);
    lemma_after_two(h, ActionView::CreateDevice { device }, ActionView::BringUpDevice { device });
    lemma_after_concat(h, routes + devs, seq![w]);
    lemma_after_concat(h, routes, devs);
    lemma_bypass_routes(h, bypass, route);
    let h1 = after(h, routes);
    assert(devs =~= seq![devs[0], devs[1], devs[2]].push(devs[3]));
    lemma_after_three(h1, devs[0], devs[1], devs[2]);
    lemma_after_push(h1, seq![devs[0], devs[1], devs[2]], devs[3]);
    lemma_after_push(after(h, routes + devs), Seq::empty(), w);
    let on = after(h, act);
    lemma_after_concat(
        on,
        removals,
        seq![ActionView::DeleteDevice { device }, ActionView::RestartResolver],
    );
    lemma_bypass_removals(on, bypass);
    lemma_after_two(
        after(on, removals),
        ActionView::DeleteDevice { device },
        ActionView::RestartResolver,
    );
    assert((h.bypass + bypass.to_set()) - bypass.to_set() =~= h.bypass);
}

/// Deactivating on Windows or macOS with nothing remembered plans nothing,
/// and so leaves every host as it is.
pub proof fn law_unarmed_deactivate(h: HostView)
    ensures
        windows_deactivate_spec(None) == Seq::<ActionView>::empty(),
        macos_deactivate_spec(None) == Seq::<ActionView>::empty(),
        after(h, windows_deactivate_spec(None)) == h,
        after(h, macos_deactivate_spec(None)) == h,
{
}

/// Each platform's activation installs one bypass route per listed address,
/// and Linux's deactivation removes one per listed address.
pub proof fn law_bypass_counts(
    bypass: Seq<Seq<char>>,
    device: Seq<char>,
    dns: Seq<char>,
    gateway: Seq<char>,
    route: Seq<char>,
)
    ensures
        bypass_installs(windows_activate_spec(bypass, device, dns, gateway)) == bypass.len(),
        bypass_installs(linux_prelude_spec(device) + linux_activate_spec(bypass, device, route))
            == bypass.len(),
        bypass_installs(macos_activate_spec(bypass, device, gateway)) == bypass.len(),
        bypass_deletions(linux_deactivate_spec(bypass, device)) == bypass.len(),
{
    let fa = |a: ActionView| a is AddBypassRoute;
    let fd = |a: ActionView| a is DeleteBypassRoute;
    let h = HostView { default_gateways: Set::empty(), resolver: None, bypass: Set::empty() };
    lemma_bypass_routes(h, bypass, gateway);
    lemma_bypass_routes(h, bypass, route);
    lemma_bypass_removals(h, bypass);
    let x = ActionView::SetAdapterDns { device, dns };
    let y = ActionView::AddTunnelDefaultRoute;
    lemma_count_concat(seq![x, y], bypass_routes(bypass, gateway), fa);
    lemma_count_two(x, y, fa);
    let pre = linux_prelude_spec(device);
    let routes = bypass_routes(bypass, route);
    let devs = linux_device_routes(device);
    let w = ActionView::WriteResolver { contents: "nameserver 198.18.0.1\n"@ };
    lemma_count_concat(pre, linux_activate_spec(bypass, device, route), fa);
    lemma_count_two(ActionView::CreateDevice { device }, ActionView::BringUpDevice { device }, fa);
    lemma_count_concat(routes + devs, seq![w], fa);
    lemma_count_concat(routes, devs, fa);
    lemma_count_four(devs[0], devs[1], devs[2], devs[3], fa);
    lemma_count_three(devs[0], devs[1], devs[2], fa);
    lemma_count_two(devs[0], devs[1], fa);
    assert(devs =~= seq![devs[0], devs[1], devs[2], devs[3]]);
    lemma_count_push(Seq::empty(), w, fa);
    let a1 = ActionView::AssignDeviceAddress { device };
    let a2 = ActionView::DeleteDefaultRoute;
    let a3 = ActionView::AddTunnelDefaultRoute;
    let mw = ActionView::WriteResolver { contents: "nameserver 198.18.0.1\n"@ + "\n"@ };
    let mroutes = bypass_routes(bypass, gateway);
    lemma_count_concat(seq![a1, a2, a3] + mroutes, seq![mw], fa);
    lemma_count_concat(seq![a1, a2, a3], mroutes, fa);
    lemma_count_three(a1, a2, a3, fa);
    lemma_count_two(a1, a2, fa);
    lemma_count_push(Seq::empty(), mw, fa);
    let d1 = ActionView::DeleteDevice { device };
    let d2 = ActionView::RestartResolver;
    lemma_count_concat(bypass_removals(bypass), seq![d1, d2], fd);
    lemma_count_two(d1, d2, fd);
}

proof fn lemma_stop_from(steps: Seq<InvocationView>, outcomes: Seq<bool>, k: int, i: int)
    requires
        0 <= i <= k < steps.len(),
        k < outcomes.len(),
        is_required(steps[k]),
        !outcomes[k],
    ensures
        run_from(steps, outcomes, i) <= k + 1,
        fails_from(steps, outcomes, i),
        (forall|j: int| i <= j < k ==> !(is_required(steps[j]) && !outcomes[j])) ==> run_from(
            steps,
            outcomes,
            i,
        ) == k + 1,
    decreases k - i,
{
    if i < k && !(is_required(steps[i]) && !outcomes[i]) {
        lemma_stop_from(steps, outcomes, k, i + 1);
    }
}

/// Once a required step fails, no later step runs: where step `k` is required
/// and fails, at most `k + 1` steps run and the sequence is aborted; exactly
/// `k + 1` where no earlier required step failed.
pub proof fn law_failure_stops(steps: Seq<InvocationView>, outcomes: Seq<bool>, k: int)
    requires
        0 <= k < steps.len(),
        k < outcomes.len(),
        is_required(steps[k]),
        !outcomes[k],
    ensures
        run_from(steps, outcomes, 0) <= k + 1,
        fails_from(steps, outcomes, 0),
        (forall|j: int| 0 <= j < k ==> !(is_required(steps[j]) && !outcomes[j])) ==> run_from(
            steps,
            outcomes,
            0,
        ) == k + 1,
{
    lemma_stop_from(steps, outcomes, k, 0);
}

} // verus!
