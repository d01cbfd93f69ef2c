use vstd::prelude::*;
use vstd::string::StringExecFns;
use crate::action::{push_action, plan_view, Action, ActionView};
use crate::address::{tun_dns, Address, AddressView};
use crate::error::RouteError;
use crate::gateway::{candidates_view, pick_gateway, require_gateway, select_gateway};
use crate::state::TransitionState;

verus! {

/// The texts of a list of addresses.
pub open spec fn texts(b: Seq<Address>) -> Seq<Seq<char>> {
    b.map_values(|a: Address| a.text@)
}

/// One bypass route for each destination, in order, all through `via`.
pub open spec fn bypass_routes(dests: Seq<Seq<char>>, via: Seq<char>) -> Seq<ActionView> {
    Seq::new(dests.len(), |i: int| ActionView::AddBypassRoute { destination: dests[i], via })
}

/// The removal of each destination's bypass route, in order.
pub open spec fn bypass_removals(dests: Seq<Seq<char>>) -> Seq<ActionView> {
    Seq::new(dests.len(), |i: int| ActionView::DeleteBypassRoute { destination: dests[i] })
}

/// What the resolver file holds while the tunnel resolves names.
pub open spec fn reserved_resolver_line() -> Seq<char> {
    "nameserver 198.18.0.1\n"@
}

/// Windows: set the adapter's resolver, add the tunnel's default route, keep
/// each bypass destination on the original gateway.
pub open spec fn windows_activate_spec(
    bypass: Seq<Seq<char>>,
    device: Seq<char>,
    dns: Seq<char>,
    gateway: Seq<char>,
) -> Seq<ActionView> {
    seq![ActionView::SetAdapterDns { device, dns }, ActionView::AddTunnelDefaultRoute]
        + bypass_routes(bypass, gateway)
}

/// Windows: swap the default route back to the original gateway.
pub open spec fn windows_deactivate_spec(saved: Option<Seq<char>>) -> Seq<ActionView> {
    match saved {
        Some(g) => seq![
            ActionView::DeleteDefaultRoute,
            ActionView::RestoreDefaultRoute { gateway: g },
        ],
        None => seq![],
    }
}

/// Linux, before the original route is read: create the device and bring it up.
pub open spec fn linux_prelude_spec(device: Seq<char>) -> Seq<ActionView> {
    seq![ActionView::CreateDevice { device }, ActionView::BringUpDevice { device }]
}

/// The four routes that together cover all of IPv4 and IPv6 space.
pub open spec fn linux_device_routes(device: Seq<char>) -> Seq<ActionView> {
    seq![
        ActionView::AddDeviceRoute { prefix: "128.0.0.0/1"@, device },
        ActionView::AddDeviceRoute { prefix: "0.0.0.0/1"@, device },
        ActionView::AddDeviceRoute { prefix: "::/1"@, device },
        ActionView::AddDeviceRoute { prefix: "8000::/1"@, device },
    ]
}

/// Linux, once the rest of the original default route is known: bypass routes
/// through it, the device's routes, the reserved resolver.
pub open spec fn linux_activate_spec(
    bypass: Seq<Seq<char>>,
    device: Seq<char>,
    route: Seq<char>,
) -> Seq<ActionView> {
    bypass_routes(bypass, route) + linux_device_routes(device) + seq![
        ActionView::WriteResolver { contents: reserved_resolver_line() },
    ]
}

/// Linux: remove the bypass routes and the device, restart the resolver service.
pub open spec fn linux_deactivate_spec(bypass: Seq<Seq<char>>, device: Seq<char>) -> Seq<
    ActionView,
> {
    bypass_removals(bypass) + seq![ActionView::DeleteDevice { device }, ActionView::RestartResolver]
}

/// macOS: configure the device, replace the default route with the tunnel's,
/// keep each bypass destination on the original gateway, reserved resolver.
pub open spec fn macos_activate_spec(
    bypass: Seq<Seq<char>>,
    device: Seq<char>,
    gateway: Seq<char>,
) -> Seq<ActionView> {
    seq![
        ActionView::AssignDeviceAddress { device },
        ActionView::DeleteDefaultRoute,
        ActionView::AddTunnelDefaultRoute,
    ] + bypass_routes(bypass, gateway) + seq![
        ActionView::WriteResolver { contents: reserved_resolver_line() + "\n"@ },
    ]
}

/// What the resolver file holds once macOS is handed back to `gateway`.
pub open spec fn restored_resolver(gateway: Seq<char>) -> Seq<char> {
    "nameserver "@ + gateway + "\n\n"@
}

/// macOS: swap the default route back, point the resolver at the original gateway.
pub open spec fn macos_deactivate_spec(saved: Option<Seq<char>>) -> Seq<ActionView> {
    match saved {
        Some(g) => seq![
            ActionView::DeleteDefaultRoute,
            ActionView::RestoreDefaultRoute { gateway: g },
            ActionView::WriteResolver { contents: restored_resolver(g) },
        ],
        None => seq![],
    }
}

fn push_bypass_routes(plan: &mut Vec<Action>, bypass: &Vec<Address>, via: &String)
    ensures
        plan_view(final(plan)@) == plan_view(old(plan)@) + bypass_routes(texts(bypass@), via@),
{
    let ghost start = plan_view(plan@);
    let ghost dests = texts(bypass@);
    let mut i: usize = 0;
    while i < bypass.len()
        invariant
            dests == texts(bypass@),
            0 <= i <= bypass@.len(),
            plan_view(plan@) == start + bypass_routes(dests.take(i as int), via@),
        decreases bypass.len() - i,
    {
        push_action(
            plan,
            Action::AddBypassRoute { destination: bypass[i].text.clone(), via: via.clone() },
        );
        assert(bypass_routes(dests.take(i + 1), via@) =~= bypass_routes(dests.take(i as int), via@).push(
            ActionView::AddBypassRoute { destination: dests[i as int], via: via@ },
        ));
        assert(start + bypass_routes(dests.take(i + 1), via@) =~= (start + bypass_routes(
            dests.take(i as int),
            via@,
        )).push(ActionView::AddBypassRoute { destination: dests[i as int], via: via@ }));
        i = i + 1;
    }
    assert(dests.take(i as int) =~= dests);
}

fn push_bypass_removals(plan: &mut Vec<Action>, bypass: &Vec<Address>)
    ensures
        plan_view(final(plan)@) == plan_view(old(plan)@) + bypass_removals(texts(bypass@)),
{
    let ghost start = plan_view(plan@);
    let ghost dests = texts(bypass@);
    let mut i: usize = 0;
    while i < bypass.len()
        invariant
            dests == texts(bypass@),
            0 <= i <= bypass@.len(),
            plan_view(plan@) == start + bypass_removals(dests.take(i as int)),
        decreases bypass.len() - i,
    {
        push_action(plan, Action::DeleteBypassRoute { destination: bypass[i].text.clone() });
        assert(bypass_removals(dests.take(i + 1)) =~= bypass_removals(dests.take(i as int)).push(
            ActionView::DeleteBypassRoute { destination: dests[i as int] },
        ));
        assert(start + bypass_removals(dests.take(i + 1)) =~= (start + bypass_removals(
            dests.take(i as int),
        )).push(ActionView::DeleteBypassRoute { destination: dests[i as int] }));
        i = i + 1;
    }
    assert(dests.take(i as int) =~= dests);
}

/// The resolver that the tunnel adapter is given.
pub open spec fn dns_text(dns: Option<AddressView>) -> Seq<char> {
    match dns {
        Some(d) => d.text,
        None => "8.8.8.8"@,
    }
}

/// The text of a remembered gateway.
pub open spec fn saved_text(saved: Option<AddressView>) -> Option<Seq<char>> {
    match saved {
        Some(g) => Some(g.text),
        None => None,
    }
}

/// The text of an optional address, as a value.
pub open spec fn option_view(a: Option<Address>) -> Option<AddressView> {
    match a {
        Some(x) => Some(x@),
        None => None,
    }
}

/// Windows activation, given the candidates that adapter enumeration printed.
/// The original gateway is picked and remembered before any change is planned;
/// where none is found, nothing is planned and the state is left alone.
pub fn windows_activate(
    bypass: &Vec<Address>,
    tun_name: &str,
    dns: Option<Address>,
    candidates: &Vec<Option<Address>>,
    state: &mut TransitionState,
) -> (r: Result<Vec<Action>, RouteError>)
    ensures
        match pick_gateway(candidates_view(candidates@)) {
            Some(g) => r is Ok && plan_view(r->Ok_0@) == windows_activate_spec(
                texts(bypass@),
                tun_name@,
                dns_text(option_view(dns)),
                g.text,
            ) && final(state)@ == Some(g),
            None => r is Err && r->Err_0 is GatewayNotFound && final(state)@ == old(state)@,
        },
{
    let gateway = match select_gateway(candidates) {
        Ok(g) => g,
        Err(e) => {
            return Err(e);
        },
    };
    let via = gateway.text.clone();
    state.arm(gateway);
    let dns = match dns {
        Some(d) => d,
        None => tun_dns(),
    };
    let mut plan: Vec<Action> = Vec::new();
    assert(plan_view(plan@) =~= seq![]);
    push_action(&mut plan, Action::SetAdapterDns { device: String::from_str(tun_name), dns: dns.text });
    push_action(&mut plan, Action::AddTunnelDefaultRoute);
    push_bypass_routes(&mut plan, bypass, &via);
    Ok(plan)
}

/// Windows deactivation: where a gateway was remembered, the default route is
/// swapped back to it; otherwise nothing is planned. The state is emptied.
pub fn windows_deactivate(state: &mut TransitionState) -> (r: Vec<Action>)
    ensures
        plan_view(r@) == windows_deactivate_spec(saved_text(old(state)@)),
        final(state)@ is None,
{
    let mut plan: Vec<Action> = Vec::new();
    assert(plan_view(plan@) =~= seq![]);
    match state.disarm() {
        Some(g) => {
            push_action(&mut plan, Action::DeleteDefaultRoute);
            push_action(&mut plan, Action::RestoreDefaultRoute { gateway: g.text });
        },
        None => {},
    }
    plan
}

/// Linux activation, first part: the device is created and brought up.
pub fn linux_prelude(tun_name: &str) -> (r: Vec<Action>)
    ensures
        plan_view(r@) == linux_prelude_spec(tun_name@),
{
    let mut plan: Vec<Action> = Vec::new();
    assert(plan_view(plan@) =~= seq![]);
    push_action(&mut plan, Action::CreateDevice { device: String::from_str(tun_name) });
    push_action(&mut plan, Action::BringUpDevice { device: String::from_str(tun_name) });
    plan
}

/// Linux activation, second part, given the rest of the original default route
/// (what follows `default` on its line, trimmed).
pub fn linux_activate_via(bypass: &Vec<Address>, tun_name: &str, route: &str) -> (r: Vec<Action>)
    ensures
        plan_view(r@) == linux_activate_spec(texts(bypass@), tun_name@, route@),
{
    let mut plan: Vec<Action> = Vec::new();
    assert(plan_view(plan@) =~= seq![]);
    push_bypass_routes(&mut plan, bypass, &String::from_str(route));
    push_action(
        &mut plan,
        Action::AddDeviceRoute { prefix: String::from_str("128.0.0.0/1"), device: String::from_str(tun_name) },
    );
    push_action(
        &mut plan,
        Action::AddDeviceRoute { prefix: String::from_str("0.0.0.0/1"), device: String::from_str(tun_name) },
    );
    push_action(
        &mut plan,
        Action::AddDeviceRoute { prefix: String::from_str("::/1"), device: String::from_str(tun_name) },
    );
    push_action(
        &mut plan,
        Action::AddDeviceRoute { prefix: String::from_str("8000::/1"), device: String::from_str(tun_name) },
    );
    push_action(
        &mut plan,
        Action::WriteResolver { contents: String::from_str("nameserver 198.18.0.1\n") },
    );
    assert(plan_view(plan@) =~= linux_activate_spec(texts(bypass@), tun_name@, route@));
    plan
}

/// What `str::trim` leaves of a text.
pub uninterp spec fn trimmed(s: Seq<char>) -> Seq<char>;

/// Relies on `str::trim`: the text without its leading and trailing whitespace.
#[verifier::external_body]
fn trim_text(s: &str) -> (r: String)
    ensures
        r@ == trimmed(s@),
{
    s.trim().to_string()
}

/// Linux activation, second part, given what the default-route query printed.
pub fn linux_activate(bypass: &Vec<Address>, tun_name: &str, route_output: &str) -> (r: Vec<Action>)
    ensures
        plan_view(r@) == linux_activate_spec(texts(bypass@), tun_name@, trimmed(route_output@)),
{
    let route = trim_text(route_output);
    linux_activate_via(bypass, tun_name, route.as_str())
}

/// Linux deactivation: the bypass routes and the device go, and the resolver
/// service is restarted. Nothing here depends on an earlier activation.
pub fn linux_deactivate(bypass: &Vec<Address>, tun_name: &str) -> (r: Vec<Action>)
    ensures
        plan_view(r@) == linux_deactivate_spec(texts(bypass@), tun_name@),
{
    let mut plan: Vec<Action> = Vec::new();
    assert(plan_view(plan@) =~= seq![]);
    push_bypass_removals(&mut plan, bypass);
    push_action(&mut plan, Action::DeleteDevice { device: String::from_str(tun_name) });
    push_action(&mut plan, Action::RestartResolver);
    assert(plan_view(plan@) =~= linux_deactivate_spec(texts(bypass@), tun_name@));
    plan
}

/// macOS activation, given the address that the routing-table dump yielded.
/// The original gateway is remembered before any change is planned; where
/// none was found, nothing is planned and the state is left alone.
pub fn macos_activate(
    bypass: &Vec<Address>,
    tun_name: &str,
    found: Option<Address>,
    state: &mut TransitionState,
) -> (r: Result<Vec<Action>, RouteError>)
    ensures
        match found {
            Some(g) => r is Ok && plan_view(r->Ok_0@) == macos_activate_spec(
                texts(bypass@),
                tun_name@,
                g.text@,
            ) && final(state)@ == Some(g@),
            None => r is Err && r->Err_0 is GatewayNotFound && final(state)@ == old(state)@,
        },
{
    let gateway = match require_gateway(found) {
        Ok(g) => g,
        Err(e) => {
            return Err(e);
        },
    };
    let via = gateway.text.clone();
    state.arm(gateway);
    let mut plan: Vec<Action> = Vec::new();
    assert(plan_view(plan@) =~= seq![]);
    push_action(&mut plan, Action::AssignDeviceAddress { device: String::from_str(tun_name) });
    push_action(&mut plan, Action::DeleteDefaultRoute);
    push_action(&mut plan, Action::AddTunnelDefaultRoute);
    push_bypass_routes(&mut plan, bypass, &via);
    push_action(
        &mut plan,
        Action::WriteResolver { contents: String::from_str("nameserver 198.18.0.1\n\n") },
    );
    proof {
        assert(("nameserver 198.18.0.1\n\n"@) == reserved_resolver_line() + "\n"@) by {
            reveal_strlit("nameserver 198.18.0.1\n\n");
            reveal_strlit("nameserver 198.18.0.1\n");
            reveal_strlit("\n");
            assert(("nameserver 198.18.0.1\n\n"@) =~= reserved_resolver_line() + "\n"@);
        }
    }
    assert(plan_view(plan@) =~= macos_activate_spec(texts(bypass@), tun_name@, via@));
    Ok(plan)
}

/// macOS deactivation: where a gateway was remembered, the default route is
/// swapped back to it and the resolver file names it; otherwise nothing is
/// planned. The state is emptied.
pub fn macos_deactivate(state: &mut TransitionState) -> (r: Vec<Action>)
    ensures
        plan_view(r@) == macos_deactivate_spec(saved_text(old(state)@)),
        final(state)@ is None,
{
    let mut plan: Vec<Action> = Vec::new();
    assert(plan_view(plan@) =~= seq![]);
    match state.disarm() {
        Some(g) => {
            let contents = String::from_str("nameserver ").concat(g.text.as_str()).concat("\n\n");
            push_action(&mut plan, Action::DeleteDefaultRoute);
            push_action(&mut plan, Action::RestoreDefaultRoute { gateway: g.text });
            push_action(&mut plan, Action::WriteResolver { contents });
        },
        None => {},
    }
    plan
}

} // verus!
