use pico_potion::cli::{command_line_action, listen_port, parse_port, CliAction, PortError, DEFAULT_PORT};

fn args(list: &[&str]) -> Vec<String> {
    list.iter().map(|s| s.to_string()).collect()
}

#[test]
fn listen_port_is_fixed_at_8080() {
    assert_eq!(listen_port(), 8080);
    assert_eq!(DEFAULT_PORT, 8080);
}

#[test]
fn parse_port_accepts_ports() {
    assert_eq!(parse_port("8080"), Ok(8080));
    assert_eq!(parse_port("1"), Ok(1));
    assert_eq!(parse_port("65535"), Ok(65535));
    assert_eq!(parse_port("+443"), Ok(443));
    assert_eq!(parse_port("0080"), Ok(80));
}

#[test]
fn parse_port_refuses_zero() {
    assert_eq!(parse_port("0"), Err(PortError::Zero));
    assert_eq!(parse_port("+000"), Err(PortError::Zero));
}

#[test]
fn parse_port_refuses_what_is_no_port() {
    for bad in ["", "+", "-1", "65536", "99999999999999999999999", " 80", "80 ", "8o", "++1", "-0", "８０"] {
        assert_eq!(parse_port(bad), Err(PortError::Invalid), "{bad:?}");
    }
}

#[test]
fn help_flags_show_the_usage() {
    assert_eq!(command_line_action(&args(&["-h"])), CliAction::ShowHelp);
    assert_eq!(command_line_action(&args(&["--help", "80"])), CliAction::ShowHelp);
}

#[test]
fn port_option_without_value_is_an_error() {
    assert_eq!(command_line_action(&args(&["-p"])), CliAction::MissingPortValue);
    assert_eq!(command_line_action(&args(&["--port"])), CliAction::MissingPortValue);
}

#[test]
fn unknown_options_are_errors() {
    assert_eq!(command_line_action(&args(&["-x"])), CliAction::UnknownArgument("-x".to_string()));
    assert_eq!(
        command_line_action(&args(&["--verbose", "80"])),
        CliAction::UnknownArgument("--verbose".to_string())
    );
    assert_eq!(command_line_action(&args(&["-"])), CliAction::UnknownArgument("-".to_string()));
}

#[test]
fn server_runs_on_the_default_port() {
    for list in [&[][..], &["-p", "9000"][..], &["--port", "x"][..], &["3000"][..], &[""][..], &["80", "-x"][..]] {
        assert_eq!(command_line_action(&args(list)), CliAction::Run(DEFAULT_PORT), "{list:?}");
    }
}
