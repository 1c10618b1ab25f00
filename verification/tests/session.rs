use hlr_provision::session::build_create_command;
use hlr_provision::session::build_key_command;
use hlr_provision::session::build_msisdn_command;
use hlr_provision::session::build_show_command;
use hlr_provision::session::elevate_command_text;
use hlr_provision::session::privileged_prompt_text;
use hlr_provision::session::response_has_body;
use hlr_provision::session::response_has_second_line;
use hlr_provision::session::subscriber_missing;
use hlr_provision::session::unauthenticated_prompt_text;
use hlr_provision::session::validate_response;

#[test]
fn command_grammar_is_exact() {
    assert_eq!(
        build_show_command("IMSI001234567890"),
        "subscriber imsi IMSI001234567890 show"
    );
    assert_eq!(
        build_create_command("IMSI001234567890"),
        "subscriber imsi IMSI001234567890 create"
    );
    assert_eq!(
        build_msisdn_command("IMSI001234567890", 90_400_001),
        "subscriber imsi IMSI001234567890 update msisdn 90400001"
    );
    assert_eq!(
        build_key_command("IMSI001234567890", "00112233445566778899aabbccddeeff", "ffeeddccbbaa99887766554433221100"),
        "subscriber imsi IMSI001234567890 update aud3g milenage k 00112233445566778899aabbccddeeff opc ffeeddccbbaa99887766554433221100"
    );
    assert_eq!(elevate_command_text(), "enable");
}

#[test]
fn prompt_markers_are_exact() {
    assert_eq!(unauthenticated_prompt_text(), "OsmoHLR> ");
    assert_eq!(privileged_prompt_text(), "OsmoHLR# ");
}

#[test]
fn expected_acknowledgement_passes_and_returns_the_body() {
    let raw = "subscriber imsi IMSI009999999999 create\r\n% Created subscriber IMSI009999999999\r\n";
    let body = validate_response(raw, "% Created subscriber").unwrap();
    assert_eq!(body, "% Created subscriber IMSI009999999999\r\n");
}

#[test]
fn unexpected_acknowledgement_is_a_protocol_violation() {
    let raw = "subscriber imsi IMSI009999999999 create\r\n% Some other text\r\n";
    assert!(validate_response(raw, "% Created subscriber").is_none());
}

#[test]
fn empty_expectation_demands_an_empty_body() {
    let ok = "subscriber imsi IMSI009999999999 update aud3g milenage k 00 opc 11\n";
    assert_eq!(validate_response(ok, ""), Some(""));
    let noisy = "subscriber imsi IMSI009999999999 update aud3g milenage k 00 opc 11\n% Unknown command\r\n";
    assert!(validate_response(noisy, "").is_none());
}

#[test]
fn response_without_echo_has_no_body() {
    assert!(!response_has_body("no newline anywhere"));
    assert!(response_has_body("echoed command\nrest"));
}

#[test]
fn absence_marker_on_the_second_line_means_missing() {
    let raw = "subscriber imsi IMSI009999999999 show\r\n% No subscriber for imsi = '009999999999'\r\n";
    assert_eq!(subscriber_missing(raw), Some(true));
}

#[test]
fn any_other_second_line_means_present() {
    let raw = "subscriber imsi IMSI001234567890 show\r\n    ID: 1\r\n    IMSI: 001234567890\r\n";
    assert_eq!(subscriber_missing(raw), Some(false));
}

#[test]
fn missing_second_line_is_detected() {
    assert!(!response_has_second_line("echo only, no newline"));
    assert!(!response_has_second_line("echoed command\n"));
    assert_eq!(subscriber_missing("echoed command\n"), None);
    assert!(response_has_second_line("echoed command\n\n"));
    assert_eq!(subscriber_missing("echoed command\n\n"), Some(false));
}
