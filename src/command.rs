use vstd::prelude::*;
use vstd::string::StringExecFns;
use crate::action::{Action, ActionView};

verus! {

/// The operating systems whose tools a transition speaks.
#[derive(Clone, Copy, PartialEq, Eq, Structural, Debug)]
pub enum Platform {
    /// Adapter DNS through `netsh`, routes through `route` with metrics.
    Windows,
    /// A device of its own through `ip`, resolver file, resolver service.
    Linux,
    /// Device set up through `ifconfig`, routes through `route`, resolver file.
    Macos,
}

/// An external program with its arguments.
#[derive(Clone, Debug)]
pub struct Command {
    pub program: String,
    pub args: Vec<String>,
}

/// The mathematical value of a [`Command`].
pub struct CommandView {
    pub program: Seq<char>,
    pub args: Seq<Seq<char>>,
}

impl View for Command {
    type V = CommandView;

    open spec fn view(&self) -> CommandView {
        CommandView { program: self.program@, args: self.args@.map_values(|s: String| s@) }
    }
}

/// What the caller is to do for one action.
#[derive(Clone, Debug)]
pub enum Invocation {
    /// Run the command; where `required` holds, its failure ends the sequence.
    Run { command: Command, required: bool },
    /// Replace the contents of the system resolver file.
    WriteResolver { contents: String },
}

/// The mathematical value of an [`Invocation`].
pub enum InvocationView {
    Run { command: CommandView, required: bool },
    WriteResolver { contents: Seq<char> },
}

impl View for Invocation {
    type V = InvocationView;

    open spec fn view(&self) -> InvocationView {
        match self {
            Invocation::Run { command, required } => InvocationView::Run {
                command: command@,
                required: *required,
            },
            Invocation::WriteResolver { contents } => InvocationView::WriteResolver {
                contents: contents@,
            },
        }
    }
}

/// Whether the failure of this invocation ends the sequence it stands in.
pub open spec fn is_required(i: InvocationView) -> bool {
    match i {
        InvocationView::Run { required, .. } => required,
        InvocationView::WriteResolver { .. } => true,
    }
}

/// A command of `program` with `args`, as a value.
pub open spec fn cmd(program: &str, args: Seq<Seq<char>>) -> CommandView {
    CommandView { program: program@, args }
}

/// A command whose failure ends the sequence.
pub open spec fn run(c: CommandView) -> InvocationView {
    InvocationView::Run { command: c, required: true }
}

/// The command that reads the original default gateway (or, on Linux, the rest
/// of the original default route).
pub open spec fn discovery_spec(p: Platform) -> CommandView {
    match p {
        Platform::Windows => cmd(
            "powershell",
            seq![
                "-Command"@,
                "Get-WmiObject -Class Win32_NetworkAdapterConfiguration -Filter IPEnabled=TRUE | ForEach-Object { $_.DefaultIPGateway }"@,
            ],
        ),
        Platform::Linux => cmd(
            "sh",
            seq!["-c"@, "ip route | grep '^default' | cut -d ' ' -f 2-"@],
        ),
        Platform::Macos => cmd(
            "sh",
            seq!["-c"@, "netstat -rn | grep default | grep -E -o '[0-9\\.]+' | head -n 1"@],
        ),
    }
}

/// How a platform's tools carry out an action.
pub open spec fn render_spec(p: Platform, a: ActionView) -> InvocationView {
    match a {
        ActionView::CreateDevice { device } => run(
            cmd("ip", seq!["tuntap"@, "add"@, "name"@, device, "mode"@, "tun"@]),
        ),
        ActionView::BringUpDevice { device } => run(
            cmd("ip", seq!["link"@, "set"@, device, "up"@]),
        ),
        ActionView::AssignDeviceAddress { device } => run(
            cmd(
                "ifconfig",
                seq![device, "10.0.0.33"@, "10.0.0.1"@, "netmask"@, "255.255.255.0"@],
            ),
        ),
        ActionView::SetAdapterDns { device, dns } => run(
            cmd(
                "netsh",
                seq![
                    "interface"@,
                    "ip"@,
                    "set"@,
                    "dns"@,
                    "\""@ + device + "\""@,
                    "static"@,
                    dns,
                ],
            ),
        ),
        ActionView::DeleteDefaultRoute => if p == Platform::Windows {
            run(cmd("route", seq!["delete"@, "0.0.0.0"@, "mask"@, "0.0.0.0"@]))
        } else {
            run(cmd("route", seq!["delete"@, "0.0.0.0"@]))
        },
        ActionView::AddTunnelDefaultRoute => if p == Platform::Windows {
            run(
                cmd(
                    "route",
                    seq![
                        "add"@,
                        "0.0.0.0"@,
                        "mask"@,
                        "0.0.0.0"@,
                        "10.0.0.1"@,
                        "metric"@,
                        "6"@,
                    ],
                ),
            )
        } else {
            run(cmd("route", seq!["add"@, "-net"@, "0.0.0.0"@, "10.0.0.1"@]))
        },
        ActionView::AddDeviceRoute { prefix, device } => run(
            cmd("ip", seq!["route"@, "add"@, prefix, "dev"@, device]),
        ),
        ActionView::AddBypassRoute { destination, via } => match p {
            Platform::Windows => run(
                cmd("route", seq!["add"@, destination, via, "metric"@, "1"@]),
            ),
            Platform::Linux => InvocationView::Run {
                command: cmd("sh", seq!["-c"@, "ip route add "@ + destination + " "@ + via]),
                required: false,
            },
            Platform::Macos => run(cmd("route", seq!["add"@, destination, via])),
        },
        ActionView::WriteResolver { contents } => InvocationView::WriteResolver { contents },
        ActionView::DeleteBypassRoute { destination } => run(
            cmd("route", seq!["del"@, destination]),
        ),
        ActionView::DeleteDevice { device } => run(cmd("ip", seq!["link"@, "del"@, device])),
        ActionView::RestartResolver => run(
            cmd("systemctl", seq!["restart"@, "systemd-resolved.service"@]),
        ),
        ActionView::RestoreDefaultRoute { gateway } => if p == Platform::Windows {
            run(
                cmd(
                    "route",
                    seq![
                        "add"@,
                        "0.0.0.0"@,
                        "mask"@,
                        "0.0.0.0"@,
                        gateway,
                        "metric"@,
                        "200"@,
                    ],
                ),
            )
        } else {
            run(cmd("route", seq!["add"@, "-net"@, "0.0.0.0"@, gateway]))
        },
    }
}

fn text(s: &str) -> (r: String)
    ensures
        r@ == s@,
{
    String::from_str(s)
}

fn args2(a: String, b: String) -> (r: Vec<String>)
    ensures
        r@.map_values(|s: String| s@) == seq![a@, b@],
{
    let r = vec![a, b];
    assert(r@.map_values(|s: String| s@) =~= seq![a@, b@]);
    r
}

fn args3(a: String, b: String, c: String) -> (r: Vec<String>)
    ensures
        r@.map_values(|s: String| s@) == seq![a@, b@, c@],
{
    let r = vec![a, b, c];
    assert(r@.map_values(|s: String| s@) =~= seq![a@, b@, c@]);
    r
}

fn args4(a: String, b: String, c: String, d: String) -> (r: Vec<String>)
    ensures
        r@.map_values(|s: String| s@) == seq![a@, b@, c@, d@],
{
    let r = vec![a, b, c, d];
    assert(r@.map_values(|s: String| s@) =~= seq![a@, b@, c@, d@]);
    r
}

fn args5(a: String, b: String, c: String, d: String, e: String) -> (r: Vec<String>)
    ensures
        r@.map_values(|s: String| s@) == seq![a@, b@, c@, d@, e@],
{
    let r = vec![a, b, c, d, e];
    assert(r@.map_values(|s: String| s@) =~= seq![a@, b@, c@, d@, e@]);
    r
}

fn args6(a: String, b: String, c: String, d: String, e: String, f: String) -> (r: Vec<String>)
    ensures
        r@.map_values(|s: String| s@) == seq![a@, b@, c@, d@, e@, f@],
{
    let r = vec![a, b, c, d, e, f];
    assert(r@.map_values(|s: String| s@) =~= seq![a@, b@, c@, d@, e@, f@]);
    r
}

fn args7(a: String, b: String, c: String, d: String, e: String, f: String, g: String) -> (r: Vec<String>)
    ensures
        r@.map_values(|s: String| s@) == seq![a@, b@, c@, d@, e@, f@, g@],
{
    let r = vec![a, b, c, d, e, f, g];
    assert(r@.map_values(|s: String| s@) =~= seq![a@, b@, c@, d@, e@, f@, g@]);
    r
}

fn command_of(program: &str, args: Vec<String>) -> (r: Command)
    ensures
        r@ == cmd(program, args@.map_values(|s: String| s@)),
{
    Command { program: text(program), args }
}

fn required(command: Command) -> (r: Invocation)
    ensures
        r@ == run(command@),
{
    Invocation::Run { command, required: true }
}

/// The command that reads the original default route on `p`.
pub fn discovery_command(p: Platform) -> (r: Command)
    ensures
        r@ == discovery_spec(p),
{
    let args = match p {
        Platform::Windows => vec![
            text("-Command"),
            text(
                "Get-WmiObject -Class Win32_NetworkAdapterConfiguration -Filter IPEnabled=TRUE | ForEach-Object { $_.DefaultIPGateway }",
            ),
        ],
        Platform::Linux => vec![
            text("-c"),
            text("ip route | grep '^default' | cut -d ' ' -f 2-"),
        ],
        Platform::Macos => vec![
            text("-c"),
            text("netstat -rn | grep default | grep -E -o '[0-9\\.]+' | head -n 1"),
        ],
    };
    let program = match p {
        Platform::Windows => "powershell",
        _ => "sh",
    };
    let r = command_of(program, args);
    assert(r@.args =~= discovery_spec(p).args);
    r
}

/// Puts an action into the words of the platform's tools.
pub fn render(p: Platform, a: &Action) -> (r: Invocation)
    ensures
        r@ == render_spec(p, a@),
{
    let r = match a {
        Action::CreateDevice { device } => required(
            command_of(
                "ip",
                args6(text("tuntap"), text("add"), text("name"), device.clone(), text("mode"), text("tun")),
            ),
        ),
        Action::BringUpDevice { device } => required(
            command_of("ip", args4(text("link"), text("set"), device.clone(), text("up"))),
        ),
        Action::AssignDeviceAddress { device } => required(
            command_of(
                "ifconfig",
                args5(
                    device.clone(),
                    text("10.0.0.33"),
                    text("10.0.0.1"),
                    text("netmask"),
                    text("255.255.255.0"),
                ),
            ),
        ),
        Action::SetAdapterDns { device, dns } => {
            let quoted = text("\"").concat(device.as_str()).concat("\"");
            required(
                command_of(
                    "netsh",
                    args7(
                        text("interface"),
                        text("ip"),
                        text("set"),
                        text("dns"),
                        quoted,
                        text("static"),
                        dns.clone(),
                    ),
                ),
            )
        },
        Action::DeleteDefaultRoute => match p {
            Platform::Windows => required(
                command_of("route", args4(text("delete"), text("0.0.0.0"), text("mask"), text("0.0.0.0"))),
            ),
            _ => required(command_of("route", args2(text("delete"), text("0.0.0.0")))),
        },
        Action::AddTunnelDefaultRoute => match p {
            Platform::Windows => required(
                command_of(
                    "route",
                    args7(
                        text("add"),
                        text("0.0.0.0"),
                        text("mask"),
                        text("0.0.0.0"),
                        text("10.0.0.1"),
                        text("metric"),
                        text("6"),
                    ),
                ),
            ),
            _ => required(
                command_of("route", args4(text("add"), text("-net"), text("0.0.0.0"), text("10.0.0.1"))),
            ),
        },
        Action::AddDeviceRoute { prefix, device } => required(
            command_of(
                "ip",
                args5(text("route"), text("add"), prefix.clone(), text("dev"), device.clone()),
            ),
        ),
        Action::AddBypassRoute { destination, via } => match p {
            Platform::Windows => required(
                command_of(
                    "route",
                    args5(text("add"), destination.clone(), via.clone(), text("metric"), text("1")),
                ),
            ),
            Platform::Linux => {
                let line = text("ip route add ").concat(destination.as_str()).concat(" ").concat(
                    via.as_str(),
                );
                Invocation::Run { command: command_of("sh", args2(text("-c"), line)), required: false }
            },
            Platform::Macos => required(
                command_of("route", args3(text("add"), destination.clone(), via.clone())),
            ),
        },
        Action::WriteResolver { contents } => Invocation::WriteResolver { contents: contents.clone() },
        Action::DeleteBypassRoute { destination } => required(
            command_of("route", args2(text("del"), destination.clone())),
        ),
        Action::DeleteDevice { device } => required(
            command_of("ip", args3(text("link"), text("del"), device.clone())),
        ),
        Action::RestartResolver => required(
            command_of("systemctl", args2(text("restart"), text("systemd-resolved.service"))),
        ),
        Action::RestoreDefaultRoute { gateway } => match p {
            Platform::Windows => required(
                command_of(
                    "route",
                    args7(
                        text("add"),
                        text("0.0.0.0"),
                        text("mask"),
                        text("0.0.0.0"),
                        gateway.clone(),
                        text("metric"),
                        text("200"),
                    ),
                ),
            ),
            _ => required(
                command_of("route", args4(text("add"), text("-net"), text("0.0.0.0"), gateway.clone())),
            ),
        },
    };
    r
}

} // verus!
