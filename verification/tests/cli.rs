use b64hex::{
    basename, mode_from_name, no_input_message, parse_args, run, unknown_arg_message,
    unknown_mode_message, usage_text, HexCase, Mode, RunError,
};

#[test]
fn mode_from_recognized_names() {
    assert_eq!(mode_from_name("b64hex"), Some(Mode::B64ToHex));
    assert_eq!(mode_from_name("hexb64"), Some(Mode::HexToB64));
}

#[test]
fn mode_from_unknown_name() {
    assert_eq!(mode_from_name("base64"), None);
    assert_eq!(mode_from_name(""), None);
    assert_eq!(mode_from_name("B64HEX"), None);
}

#[test]
fn unknown_name_message_names_offender_and_remedies() {
    let m = unknown_mode_message("frob");
    assert!(m.contains("frob"));
    assert!(m.contains("b64hex"));
    assert!(m.contains("hexb64"));
    assert_eq!(
        m,
        "Unknown mode for executable name: frob\nUse hardlinks named 'b64hex' or 'hexb64'."
    );
}

#[test]
fn basename_strips_directories() {
    assert_eq!(basename("/usr/bin/b64hex"), "b64hex");
    assert_eq!(basename("hexb64"), "hexb64");
    assert_eq!(basename("./hexb64"), "hexb64");
    assert_eq!(basename("a/"), "");
}

#[test]
fn parse_args_defaults() {
    let o = parse_args(&vec![]).unwrap();
    assert_eq!(o.hex_case, HexCase::Lower);
    assert!(!o.urlsafe);
    assert_eq!(o.data, None);
}

#[test]
fn parse_args_flags_and_data() {
    let o = parse_args(&vec!["-up".to_string(), "aGVsbG8=".to_string()]).unwrap();
    assert_eq!(o.hex_case, HexCase::Upper);
    assert_eq!(o.data.as_deref(), Some("aGVsbG8="));

    let o = parse_args(&vec!["41".to_string(), "-url".to_string()]).unwrap();
    assert!(o.urlsafe);
    assert_eq!(o.data.as_deref(), Some("41"));
}

#[test]
fn parse_args_later_case_flag_wins() {
    let o = parse_args(&vec!["-up".to_string(), "-low".to_string()]).unwrap();
    assert_eq!(o.hex_case, HexCase::Lower);
    let o = parse_args(&vec!["-low".to_string(), "-up".to_string()]).unwrap();
    assert_eq!(o.hex_case, HexCase::Upper);
}

#[test]
fn parse_args_flags_are_global_literals() {
    // A flag of the other mode's vocabulary is accepted and inert: the scan
    // does not condition on the active mode.
    let o = parse_args(&vec!["-url".to_string(), "-up".to_string()]).unwrap();
    assert!(o.urlsafe);
    assert_eq!(o.hex_case, HexCase::Upper);
}

#[test]
fn parse_args_rejects_second_positional() {
    let e = parse_args(&vec!["41".to_string(), "42".to_string()]).unwrap_err();
    assert_eq!(e, "42");
    assert_eq!(unknown_arg_message(&e), "Unknown or misplaced argument: 42");
}

#[test]
fn parse_args_rejects_unknown_flag() {
    let e = parse_args(&vec!["--help".to_string()]).unwrap_err();
    assert_eq!(e, "--help");
    let e = parse_args(&vec!["-x".to_string(), "41".to_string()]).unwrap_err();
    assert_eq!(e, "-x");
}

#[test]
fn parse_args_empty_token_is_positional() {
    let o = parse_args(&vec!["".to_string()]).unwrap();
    assert_eq!(o.data.as_deref(), Some(""));
}

#[test]
fn run_b64_to_hex_scenario() {
    assert_eq!(
        run(Mode::B64ToHex, HexCase::Lower, false, "aGVsbG8="),
        Ok("68656c6c6f".to_string())
    );
    assert_eq!(
        run(Mode::B64ToHex, HexCase::Upper, false, "aGVsbG8="),
        Ok("68656C6C6F".to_string())
    );
}

#[test]
fn run_hex_to_b64_scenario() {
    assert_eq!(
        run(Mode::HexToB64, HexCase::Lower, false, "0x68656c6c6f"),
        Ok("aGVsbG8=".to_string())
    );
    assert_eq!(
        run(Mode::HexToB64, HexCase::Lower, true, "0x68656c6c6f"),
        Ok("aGVsbG8=".to_string())
    );
}

#[test]
fn run_odd_length_hex_fails_with_length_error() {
    match run(Mode::HexToB64, HexCase::Lower, false, "abc") {
        Err(RunError::Conv(m)) => assert!(m.contains("even length")),
        other => panic!("expected a conversion error, got {other:?}"),
    }
}

#[test]
fn run_whitespace_input_normalized() {
    assert_eq!(
        run(Mode::HexToB64, HexCase::Lower, false, "68 65 6c 6c 6f"),
        Ok("aGVsbG8=".to_string())
    );
    assert_eq!(
        run(Mode::B64ToHex, HexCase::Lower, false, " aGVs\nbG8= "),
        Ok("68656c6c6f".to_string())
    );
}

#[test]
fn run_empty_input_is_no_input() {
    assert_eq!(run(Mode::B64ToHex, HexCase::Lower, false, ""), Err(RunError::NoInput));
    assert_eq!(run(Mode::HexToB64, HexCase::Lower, false, " \n\t "), Err(RunError::NoInput));
    assert_eq!(no_input_message(), "No input data provided.");
}

#[test]
fn full_pipeline_as_invoked() {
    // As `b64hex -up aGVsbG8=` would run, step by step.
    let mode = mode_from_name(&basename("/usr/local/bin/b64hex")).unwrap();
    let opts = parse_args(&vec!["-up".to_string(), "aGVsbG8=".to_string()]).unwrap();
    let raw = opts.data.unwrap();
    assert_eq!(run(mode, opts.hex_case, opts.urlsafe, &raw), Ok("68656C6C6F".to_string()));
}

#[test]
fn usage_text_names_the_mode() {
    let u = usage_text(Mode::B64ToHex);
    assert!(u.starts_with("Usage: b64hex [-low|-up] [data]"));
    assert!(u.contains("-up"));
    let u = usage_text(Mode::HexToB64);
    assert!(u.starts_with("Usage: hexb64 [-url] [data]"));
    assert!(u.contains("-url"));
}
