//! The command line and the listening port.
//!
//! `pico_potion [OPTIONS] [PORT]`: `-h, --help` prints the usage; the port is
//! fixed at 8080, so a port given with `-p, --port` or on its own is accepted
//! and not used; any other option is refused.
use vstd::prelude::*;
use crate::numbers::{
    decimal_digits, law_decimal_digits_read_back, parse_unsigned, parse_unsigned_spec,
    without_plus_sign,
};
use crate::text::{chars_of, text_equal};

verus! {

/// The port the server listens on.
pub const DEFAULT_PORT: u16 = 8080;

/// Why a text is no port.
#[derive(Debug, Clone, Copy, PartialEq, Eq, Structural)]
pub enum PortError {
    /// The text is the number 0.
    Zero,
    /// The text is no number from 0 to 65535.
    Invalid,
}

/// A port read from a text as `str::parse::<u16>` reads it, refusing 0.
pub open spec fn port_spec(s: Seq<char>) -> Result<u16, PortError> {
    match parse_unsigned_spec(s, 65535) {
        Some(n) => if n == 0 {
            Err(PortError::Zero)
        } else {
            Ok(n as u16)
        },
        None => Err(PortError::Invalid),
    }
}

/// Reads a port: decimal digits after an optional `+`, from 1 to 65535.
pub fn parse_port(s: &str) -> (r: Result<u16, PortError>)
    ensures
        r == port_spec(s@),
{
    let v = chars_of(s);
    assert(v@.subrange(0, v@.len() as int) =~= s@);
    match parse_unsigned(&v, 0, v.len(), 65535) {
        Some(n) => if n == 0 {
            Err(PortError::Zero)
        } else {
            Ok(n as u16)
        },
        None => Err(PortError::Invalid),
    }
}

/// A port written in decimal reads back as itself; 0 is refused as zero, and
/// a number past 65535 as no port.
pub proof fn law_port_reads_back(n: nat)
    ensures
        0 < n <= 65535 ==> port_spec(decimal_digits(n)) == Ok::<u16, PortError>(n as u16),
        n == 0 ==> port_spec(decimal_digits(n)) == Err::<u16, PortError>(PortError::Zero),
        n > 65535 ==> port_spec(decimal_digits(n)) == Err::<u16, PortError>(PortError::Invalid),
{
    law_decimal_digits_read_back(n, 65535);
    assert(without_plus_sign(decimal_digits(n)) == decimal_digits(n));
}

/// The port the server listens on: fixed at the default port, whatever the
/// command line and the environment hold.
pub fn listen_port() -> (r: u16)
    ensures
        r == DEFAULT_PORT,
{
    DEFAULT_PORT
}

/// What the server does with its command line.
#[derive(Debug, PartialEq, Eq)]
pub enum CliAction {
    /// Print the usage and stop, successfully.
    ShowHelp,
    /// `-p` or `--port` came last, with no value after it: print an error and
    /// stop, unsuccessfully.
    MissingPortValue,
    /// An option the server does not know: print an error and the usage, and
    /// stop, unsuccessfully.
    UnknownArgument(String),
    /// Serve on this port.
    Run(u16),
}

/// `CliAction` with its text as a character sequence.
pub enum CliChoice {
    ShowHelp,
    MissingPortValue,
    UnknownArgument(Seq<char>),
    Run(u16),
}

impl View for CliAction {
    type V = CliChoice;

    open spec fn view(&self) -> CliChoice {
        match self {
            CliAction::ShowHelp => CliChoice::ShowHelp,
            CliAction::MissingPortValue => CliChoice::MissingPortValue,
            CliAction::UnknownArgument(a) => CliChoice::UnknownArgument(a@),
            CliAction::Run(p) => CliChoice::Run(*p),
        }
    }
}

pub open spec fn is_help_flag(a: Seq<char>) -> bool {
    a == seq!['-', 'h'] || a == seq!['-', '-', 'h', 'e', 'l', 'p']
}

pub open spec fn is_port_flag(a: Seq<char>) -> bool {
    a == seq!['-', 'p'] || a == seq!['-', '-', 'p', 'o', 'r', 't']
}

/// The action for the arguments after the program name. The first argument
/// decides: help; a port option, which needs a value after it; a port on its
/// own; or an unknown option. With no argument the server runs. It always
/// runs on the default port.
pub open spec fn command_line_action_spec(args: Seq<Seq<char>>) -> CliChoice {
    if args.len() == 0 {
        CliChoice::Run(DEFAULT_PORT)
    } else {
        let a = args[0];
        if is_help_flag(a) {
            CliChoice::ShowHelp
        } else if is_port_flag(a) {
            if args.len() > 1 {
                CliChoice::Run(DEFAULT_PORT)
            } else {
                CliChoice::MissingPortValue
            }
        } else if !(a.len() > 0 && a[0] == '-') {
            CliChoice::Run(DEFAULT_PORT)
        } else {
            CliChoice::UnknownArgument(a)
        }
    }
}

/// Decides what the server does with the arguments after the program name.
pub fn command_line_action(args: &Vec<String>) -> (r: CliAction)
    ensures
        r@ == command_line_action_spec(args.deep_view()),
{
    broadcast use vstd::string::group_string_axioms;

    proof {
        reveal_strlit("-h");
        reveal_strlit("--help");
        reveal_strlit("-p");
        reveal_strlit("--port");
    }
    assert("-h"@ =~= seq!['-', 'h']);
    assert("--help"@ =~= seq!['-', '-', 'h', 'e', 'l', 'p']);
    assert("-p"@ =~= seq!['-', 'p']);
    assert("--port"@ =~= seq!['-', '-', 'p', 'o', 'r', 't']);
    let ghost dv = args.deep_view();
    if args.len() == 0 {
        return CliAction::Run(listen_port());
    }
    let a = args[0].as_str();
    assert(dv[0] == a@);
    if text_equal(a, "-h") || text_equal(a, "--help") {
        return CliAction::ShowHelp;
    }
    if text_equal(a, "-p") || text_equal(a, "--port") {
        if args.len() > 1 {
            return CliAction::Run(listen_port());
        }
        return CliAction::MissingPortValue;
    }
    let v = chars_of(a);
    if !(v.len() > 0 && v[0] == '-') {
        return CliAction::Run(listen_port());
    }
    CliAction::UnknownArgument(a.to_string())
}

/// Whenever the server runs, it runs on the default port, whatever the
/// command line holds.
pub proof fn law_server_runs_on_default_port(args: Seq<Seq<char>>)
    ensures
        command_line_action_spec(args) matches CliChoice::Run(p) ==> p == DEFAULT_PORT,
{
}

} // verus!
