use vstd::prelude::*;

verus! {

/// One change that a transition makes to the host, before it is put into the
/// words of a platform's tools.
#[derive(Clone, Debug)]
pub enum Action {
    /// Create the tunnel device.
    CreateDevice { device: String },
    /// Bring the tunnel device up.
    BringUpDevice { device: String },
    /// Give the tunnel device its fixed address, netmask and gateway.
    AssignDeviceAddress { device: String },
    /// Point the tunnel adapter's resolver at `dns`.
    SetAdapterDns { device: String, dns: String },
    /// Remove the default route.
    DeleteDefaultRoute,
    /// Add a default route through the tunnel's gateway.
    AddTunnelDefaultRoute,
    /// Send the prefix to the tunnel device.
    AddDeviceRoute { prefix: String, device: String },
    /// Keep `destination` on the original path: `via` names it (a gateway, or
    /// the rest of the original default route).
    AddBypassRoute { destination: String, via: String },
    /// Replace the resolver file's contents.
    WriteResolver { contents: String },
    /// Remove the route of a bypass destination.
    DeleteBypassRoute { destination: String },
    /// Remove the tunnel device.
    DeleteDevice { device: String },
    /// Restart the system's resolver service.
    RestartResolver,
    /// Add back a default route through the original gateway.
    RestoreDefaultRoute { gateway: String },
}

/// The mathematical value of an [`Action`].
pub enum ActionView {
    CreateDevice { device: Seq<char> },
    BringUpDevice { device: Seq<char> },
    AssignDeviceAddress { device: Seq<char> },
    SetAdapterDns { device: Seq<char>, dns: Seq<char> },
    DeleteDefaultRoute,
    AddTunnelDefaultRoute,
    AddDeviceRoute { prefix: Seq<char>, device: Seq<char> },
    AddBypassRoute { destination: Seq<char>, via: Seq<char> },
    WriteResolver { contents: Seq<char> },
    DeleteBypassRoute { destination: Seq<char> },
    DeleteDevice { device: Seq<char> },
    RestartResolver,
    RestoreDefaultRoute { gateway: Seq<char> },
}

impl View for Action {
    type V = ActionView;

    open spec fn view(&self) -> ActionView {
        match self {
            Action::CreateDevice { device } => ActionView::CreateDevice { device: device@ },
            Action::BringUpDevice { device } => ActionView::BringUpDevice { device: device@ },
            Action::AssignDeviceAddress { device } => ActionView::AssignDeviceAddress {
                device: device@,
            },
            Action::SetAdapterDns { device, dns } => ActionView::SetAdapterDns {
                device: device@,
                dns: dns@,
            },
            Action::DeleteDefaultRoute => ActionView::DeleteDefaultRoute,
            Action::AddTunnelDefaultRoute => ActionView::AddTunnelDefaultRoute,
            Action::AddDeviceRoute { prefix, device } => ActionView::AddDeviceRoute {
                prefix: prefix@,
                device: device@,
            },
            Action::AddBypassRoute { destination, via } => ActionView::AddBypassRoute {
                destination: destination@,
                via: via@,
            },
            Action::WriteResolver { contents } => ActionView::WriteResolver {
                contents: contents@,
            },
            Action::DeleteBypassRoute { destination } => ActionView::DeleteBypassRoute {
                destination: destination@,
            },
            Action::DeleteDevice { device } => ActionView::DeleteDevice { device: device@ },
            Action::RestartResolver => ActionView::RestartResolver,
            Action::RestoreDefaultRoute { gateway } => ActionView::RestoreDefaultRoute {
                gateway: gateway@,
            },
        }
    }
}

/// The actions of a plan, as values.
pub open spec fn plan_view(p: Seq<Action>) -> Seq<ActionView> {
    p.map_values(|a: Action| a@)
}

/// Appends an action to a plan.
pub fn push_action(plan: &mut Vec<Action>, a: Action)
    ensures
        plan_view(final(plan)@) == plan_view(old(plan)@).push(a@),
{
    let ghost before = plan@;
    plan.push(a);
    assert(plan_view(plan@) =~= plan_view(before).push(a@));
}

} // verus!
