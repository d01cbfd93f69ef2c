use tun_routes::action::Action;
use tun_routes::directions::{DataEvent, Direction, IncomingDataEvent, IncomingDirection, OutgoingDataEvent, OutgoingDirection};
use tun_routes::address::{tun_dns, tun_gateway, tun_ipv4, tun_netmask, Address, Family};
use tun_routes::command::{discovery_command, render, Invocation, Platform};
use tun_routes::error::{command_failed, failure_diagnostic, RouteError};
use tun_routes::execution::{render_plan, replay, Execution};
use tun_routes::gateway::{require_gateway, select_gateway};
use tun_routes::plan::{
    linux_activate, linux_activate_via, linux_deactivate, linux_prelude, macos_activate,
    macos_deactivate, windows_activate, windows_deactivate,
};
use tun_routes::state::TransitionState;

fn v4(s: &str) -> Address {
    Address { family: Family::V4, text: s.to_string() }
}

fn v6(s: &str) -> Address {
    Address { family: Family::V6, text: s.to_string() }
}

/// Each invocation as one line: the program and its arguments, or the resolver contents.
fn lines(p: Platform, plan: &Vec<Action>) -> Vec<String> {
    render_plan(p, plan)
        .iter()
        .map(|i| match i {
            Invocation::Run { command, required } => {
                let mut s = command.program.clone();
                for a in &command.args {
                    s.push(' ');
                    s.push_str(a);
                }
                if !required {
                    s.push_str(" [best effort]");
                }
                s
            }
            Invocation::WriteResolver { contents } => format!("resolver: {:?}", contents),
        })
        .collect()
}

#[test]
fn constants_are_the_tunnel_addresses() {
    assert_eq!(tun_ipv4().text, "10.0.0.33");
    assert_eq!(tun_netmask().text, "255.255.255.0");
    assert_eq!(tun_gateway().text, "10.0.0.1");
    assert_eq!(tun_dns().text, "8.8.8.8");
    assert_eq!(tun_ipv4().family, Family::V4);
}

#[test]
fn gateway_prefers_v4_over_v6() {
    let c = vec![None, Some(v6("fe80::1")), Some(v4("192.168.1.1")), None];
    let g = select_gateway(&c).unwrap();
    assert_eq!(g.text, "192.168.1.1");
    assert_eq!(g.family, Family::V4);
}

#[test]
fn gateway_takes_first_v4() {
    let c = vec![Some(v4("192.168.1.1")), Some(v6("fe80::1")), Some(v4("10.1.1.1"))];
    assert_eq!(select_gateway(&c).unwrap().text, "192.168.1.1");
}

#[test]
fn gateway_falls_back_to_v6() {
    let c = vec![None, Some(v6("fe80::1")), None];
    let g = select_gateway(&c).unwrap();
    assert_eq!(g.text, "fe80::1");
    assert_eq!(g.family, Family::V6);
}

#[test]
fn gateway_not_found_without_address() {
    let c: Vec<Option<Address>> = vec![None, None];
    assert!(matches!(select_gateway(&c), Err(RouteError::GatewayNotFound)));
    let empty: Vec<Option<Address>> = vec![];
    assert!(matches!(select_gateway(&empty), Err(RouteError::GatewayNotFound)));
    assert!(matches!(require_gateway(None), Err(RouteError::GatewayNotFound)));
    assert_eq!(require_gateway(Some(v4("192.168.0.1"))).unwrap().text, "192.168.0.1");
}

#[test]
fn discovery_commands() {
    let c = discovery_command(Platform::Linux);
    assert_eq!(c.program, "sh");
    assert_eq!(c.args, vec!["-c", "ip route | grep '^default' | cut -d ' ' -f 2-"]);
    let c = discovery_command(Platform::Macos);
    assert_eq!(c.args, vec!["-c", "netstat -rn | grep default | grep -E -o '[0-9\\.]+' | head -n 1"]);
    let c = discovery_command(Platform::Windows);
    assert_eq!(c.program, "powershell");
    assert_eq!(c.args[0], "-Command");
}

#[test]
fn macos_example_activate_then_deactivate() {
    let mut state = TransitionState::new();
    let bypass = vec![v4("203.0.113.9")];
    let plan = macos_activate(&bypass, "tun7", Some(v4("192.168.1.1")), &mut state).unwrap();
    assert!(state.is_armed());
    assert_eq!(
        lines(Platform::Macos, &plan),
        vec![
            "ifconfig tun7 10.0.0.33 10.0.0.1 netmask 255.255.255.0",
            "route delete 0.0.0.0",
            "route add -net 0.0.0.0 10.0.0.1",
            "route add 203.0.113.9 192.168.1.1",
            "resolver: \"nameserver 198.18.0.1\\n\\n\"",
        ]
    );
    let plan = macos_deactivate(&mut state);
    assert!(!state.is_armed());
    assert_eq!(
        lines(Platform::Macos, &plan),
        vec![
            "route delete 0.0.0.0",
            "route add -net 0.0.0.0 192.168.1.1",
            "resolver: \"nameserver 192.168.1.1\\n\\n\"",
        ]
    );
}

#[test]
fn macos_activate_without_gateway_changes_nothing() {
    let mut state = TransitionState::new();
    let r = macos_activate(&vec![v4("203.0.113.9")], "tun7", None, &mut state);
    assert!(matches!(r, Err(RouteError::GatewayNotFound)));
    assert!(!state.is_armed());
}

#[test]
fn windows_activate_then_deactivate() {
    let mut state = TransitionState::new();
    let bypass = vec![v4("1.2.3.4"), v6("2001:db8::1")];
    let cands = vec![None, Some(v4("192.168.0.1"))];
    let plan = windows_activate(&bypass, "utun3", None, &cands, &mut state).unwrap();
    assert_eq!(
        lines(Platform::Windows, &plan),
        vec![
            "netsh interface ip set dns \"utun3\" static 8.8.8.8",
            "route add 0.0.0.0 mask 0.0.0.0 10.0.0.1 metric 6",
            "route add 1.2.3.4 192.168.0.1 metric 1",
            "route add 2001:db8::1 192.168.0.1 metric 1",
        ]
    );
    let plan = windows_deactivate(&mut state);
    assert_eq!(
        lines(Platform::Windows, &plan),
        vec![
            "route delete 0.0.0.0 mask 0.0.0.0",
            "route add 0.0.0.0 mask 0.0.0.0 192.168.0.1 metric 200",
        ]
    );
    assert!(windows_deactivate(&mut state).is_empty());
}

#[test]
fn windows_activate_uses_given_dns() {
    let mut state = TransitionState::new();
    let cands = vec![Some(v4("192.168.0.1"))];
    let plan = windows_activate(&vec![], "wintun", Some(v4("1.1.1.1")), &cands, &mut state).unwrap();
    assert_eq!(lines(Platform::Windows, &plan)[0], "netsh interface ip set dns \"wintun\" static 1.1.1.1");
    assert_eq!(plan.len(), 2);
}

#[test]
fn windows_activate_without_gateway_fails_first() {
    let mut state = TransitionState::new();
    let r = windows_activate(&vec![v4("1.2.3.4")], "utun3", None, &vec![None], &mut state);
    assert!(matches!(r, Err(RouteError::GatewayNotFound)));
    assert!(!state.is_armed());
}

#[test]
fn deactivate_without_activate_plans_nothing() {
    let mut state = TransitionState::new();
    assert!(windows_deactivate(&mut state).is_empty());
    assert!(macos_deactivate(&mut state).is_empty());
    assert!(!state.is_armed());
}

#[test]
fn linux_activate_then_deactivate() {
    let bypass = vec![v4("1.2.3.4")];
    assert_eq!(
        lines(Platform::Linux, &linux_prelude("tun0")),
        vec!["ip tuntap add name tun0 mode tun", "ip link set tun0 up"]
    );
    let plan = linux_activate(&bypass, "tun0", "via 192.168.1.1 dev eth0 proto dhcp \n");
    assert_eq!(
        lines(Platform::Linux, &plan),
        vec![
            "sh -c ip route add 1.2.3.4 via 192.168.1.1 dev eth0 proto dhcp [best effort]",
            "ip route add 128.0.0.0/1 dev tun0",
            "ip route add 0.0.0.0/1 dev tun0",
            "ip route add ::/1 dev tun0",
            "ip route add 8000::/1 dev tun0",
            "resolver: \"nameserver 198.18.0.1\\n\"",
        ]
    );
    assert_eq!(
        lines(Platform::Linux, &linux_deactivate(&bypass, "tun0")),
        vec!["route del 1.2.3.4", "ip link del tun0", "systemctl restart systemd-resolved.service"]
    );
}

#[test]
fn linux_deactivate_without_bypass() {
    assert_eq!(
        lines(Platform::Linux, &linux_deactivate(&vec![], "tun0")),
        vec!["ip link del tun0", "systemctl restart systemd-resolved.service"]
    );
}

#[test]
fn bypass_count_matches_list() {
    let bypass = vec![v4("1.1.1.1"), v4("2.2.2.2"), v4("1.1.1.1")];
    let count = |p: &Vec<Action>| p.iter().filter(|a| matches!(a, Action::AddBypassRoute { .. })).count();
    let mut s = TransitionState::new();
    let w = windows_activate(&bypass, "t", None, &vec![Some(v4("9.9.9.9"))], &mut s).unwrap();
    assert_eq!(count(&w), 3);
    let m = macos_activate(&bypass, "t", Some(v4("9.9.9.9")), &mut s).unwrap();
    assert_eq!(count(&m), 3);
    let l = linux_activate_via(&bypass, "t", "via 9.9.9.9");
    assert_eq!(count(&l), 3);
    let d = linux_deactivate(&bypass, "t");
    assert_eq!(d.iter().filter(|a| matches!(a, Action::DeleteBypassRoute { .. })).count(), 3);
    let none = linux_activate_via(&vec![], "t", "via 9.9.9.9");
    assert_eq!(count(&none), 0);
}

#[test]
fn failure_stops_the_sequence() {
    let mut s = TransitionState::new();
    let plan = macos_activate(&vec![v4("203.0.113.9")], "tun7", Some(v4("192.168.1.1")), &mut s).unwrap();
    let steps = render_plan(Platform::Macos, &plan);
    assert_eq!(steps.len(), 5);
    let e = replay(steps, &vec![true, false, true, true, true]);
    assert!(e.is_aborted());
    assert_eq!(e.position(), 2);
    assert!(e.current().is_none());
}

#[test]
fn all_succeeding_completes() {
    let mut s = TransitionState::new();
    let plan = macos_activate(&vec![], "tun7", Some(v4("192.168.1.1")), &mut s).unwrap();
    let e = replay(render_plan(Platform::Macos, &plan), &vec![true; 4]);
    assert!(e.is_complete());
    assert_eq!(e.position(), 4);
}

#[test]
fn best_effort_failure_continues() {
    let plan = linux_activate_via(&vec![v4("1.2.3.4")], "tun0", "via 10.1.1.1");
    let e = replay(render_plan(Platform::Linux, &plan), &vec![false, true, true, true, true, true]);
    assert!(!e.is_aborted());
    assert!(e.is_complete());
    let e = replay(render_plan(Platform::Linux, &plan), &vec![true, true, false, true, true, true]);
    assert!(e.is_aborted());
    assert_eq!(e.position(), 3);
}

#[test]
fn stepwise_execution() {
    let plan = linux_prelude("tun0");
    let mut e = Execution::new(render_plan(Platform::Linux, &plan));
    assert!(e.current().is_some());
    e.report(true);
    assert_eq!(e.position(), 1);
    e.report(false);
    assert!(e.is_aborted());
    assert!(e.current().is_none());
    assert!(!e.is_complete());
}

#[test]
fn outcomes_running_out_stop_early() {
    let plan = linux_prelude("tun0");
    let e = replay(render_plan(Platform::Linux, &plan), &vec![true]);
    assert_eq!(e.position(), 1);
    assert!(!e.is_aborted());
    assert!(!e.is_complete());
}

#[test]
fn render_single_actions() {
    let i = render(Platform::Windows, &Action::RestoreDefaultRoute { gateway: "192.168.0.1".to_string() });
    match i {
        Invocation::Run { command, required } => {
            assert!(required);
            assert_eq!(command.program, "route");
            assert_eq!(command.args, vec!["add", "0.0.0.0", "mask", "0.0.0.0", "192.168.0.1", "metric", "200"]);
        }
        _ => panic!("expected a command"),
    }
}

#[test]
fn diagnostic_prefers_stderr() {
    assert_eq!(failure_diagnostic(b"out".to_vec(), b"err".to_vec()), b"err".to_vec());
    assert_eq!(failure_diagnostic(b"out".to_vec(), vec![]), b"out".to_vec());
    assert_eq!(failure_diagnostic(vec![], vec![]), Vec::<u8>::new());
}

#[test]
fn command_failure_carries_diagnostic() {
    let e = command_failed("route", vec!["add".to_string()], b"usage".to_vec(), b"bad \xff gateway".to_vec());
    match &e {
        RouteError::CommandFailed { program, args, diagnostic } => {
            assert_eq!(program, "route");
            assert_eq!(args, &vec!["add".to_string()]);
            assert_eq!(diagnostic, "bad \u{FFFD} gateway");
        }
        _ => panic!("expected a command failure"),
    }
    assert_eq!(e.describe(), "route failed with: \"bad \u{FFFD} gateway\"");
    let e = command_failed("ip", vec![], b"no such device".to_vec(), vec![]);
    assert_eq!(e.describe(), "ip failed with: \"no such device\"");
}

#[test]
fn error_descriptions() {
    assert_eq!(RouteError::GatewayNotFound.describe(), "No default gateway found");
    assert_eq!(
        RouteError::AddressParse { text: "1.2.3".to_string() }.describe(),
        "invalid IP address syntax: 1.2.3"
    );
}

#[test]
fn data_events_carry_direction_and_buffer() {
    let bytes = [1u8, 2, 3];
    let e: IncomingDataEvent = DataEvent { direction: IncomingDirection::FromServer, buffer: &bytes };
    assert_eq!(e.buffer.len(), 3);
    assert_eq!(Direction::Incoming(e.direction), Direction::Incoming(IncomingDirection::FromServer));
    let o: OutgoingDataEvent = DataEvent { direction: OutgoingDirection::ToClient, buffer: &bytes[..1] };
    assert_ne!(Direction::Outgoing(o.direction), Direction::Outgoing(OutgoingDirection::ToServer));
}
