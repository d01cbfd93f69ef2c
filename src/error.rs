use vstd::prelude::*;
use vstd::string::StringExecFns;

verus! {

/// Why a transition step could not be carried out.
#[derive(Debug)]
pub enum RouteError {
    /// An external program exited with failure, or could not be started;
    /// `diagnostic` is what it printed on stderr, or on stdout if stderr was empty.
    CommandFailed { program: String, args: Vec<String>, diagnostic: String },
    /// The introspection output held no address that parses.
    GatewayNotFound,
    /// A text that should have been an address was not one.
    AddressParse { text: String },
}

/// The output that explains a failure: stderr, or stdout where stderr is empty.
pub open spec fn diagnostic_bytes(stdout: Seq<u8>, stderr: Seq<u8>) -> Seq<u8> {
    if stderr.len() == 0 {
        stdout
    } else {
        stderr
    }
}

/// The text that describes a failed command: its stderr, or its stdout where
/// stderr is empty.
pub fn failure_diagnostic(stdout: Vec<u8>, stderr: Vec<u8>) -> (r: Vec<u8>)
    ensures
        r@ == diagnostic_bytes(stdout@, stderr@),
{
    if stderr.len() == 0 {
        stdout
    } else {
        stderr
    }
}

/// What `String::from_utf8_lossy` makes of a byte string.
pub uninterp spec fn lossy_text(b: Seq<u8>) -> Seq<char>;

/// Relies on `String::from_utf8_lossy`: the bytes read as UTF-8, with each
/// invalid sequence replaced; the result depends on the bytes alone.
#[verifier::external_body]
fn decode_lossy(b: &Vec<u8>) -> (r: String)
    ensures
        r@ == lossy_text(b@),
{
    String::from_utf8_lossy(b.as_slice()).into_owned()
}

/// The error for a command that exited with failure, given what it printed.
pub fn command_failed(program: &str, args: Vec<String>, stdout: Vec<u8>, stderr: Vec<u8>) -> (r:
    RouteError)
    ensures
        r matches RouteError::CommandFailed { program: p, args: a, diagnostic: d } && p@
            == program@ && a@ == args@ && d@ == lossy_text(diagnostic_bytes(stdout@, stderr@)),
{
    let bytes = failure_diagnostic(stdout, stderr);
    let diagnostic = decode_lossy(&bytes);
    RouteError::CommandFailed { program: String::from_str(program), args, diagnostic }
}

impl RouteError {
    /// A line that tells a person what went wrong.
    pub fn describe(&self) -> (r: String)
        ensures
            r@ == match self {
                RouteError::CommandFailed { program, diagnostic, .. } => program@
                    + " failed with: \""@ + diagnostic@ + "\""@,
                RouteError::GatewayNotFound => "No default gateway found"@,
                RouteError::AddressParse { text } => "invalid IP address syntax: "@ + text@,
            },
    {
        match self {
            RouteError::CommandFailed { program, diagnostic, .. } => program.clone().concat(
                " failed with: \"",
            ).concat(diagnostic.as_str()).concat("\""),
            RouteError::GatewayNotFound => String::from_str("No default gateway found"),
            RouteError::AddressParse { text } => String::from_str(
                "invalid IP address syntax: ",
            ).concat(text.as_str()),
        }
    }
}

} // verus!
