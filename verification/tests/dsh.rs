use deepseek_harness_launcher::paths::strip_verbatim;
use deepseek_harness_launcher::readiness::parse_readiness_line;

#[test]
fn strip_verbatim_plain_path_unchanged() {
    assert_eq!(strip_verbatim(r"C:\foo\bar"), String::from(r"C:\foo\bar"));
}

#[test]
fn strip_verbatim_drive_prefix_removed() {
    assert_eq!(strip_verbatim(r"\\?\C:\foo\bar"), String::from(r"C:\foo\bar"));
}

#[test]
fn strip_verbatim_unc_prefix_restored() {
    assert_eq!(
        strip_verbatim(r"\\?\UNC\server\share\foo"),
        String::from(r"\\server\share\foo")
    );
}

#[test]
fn readiness_canonical_line() {
    assert_eq!(
        parse_readiness_line("dsh web: http://127.0.0.1:5173"),
        Some("http://127.0.0.1:5173".to_string())
    );
}

#[test]
fn readiness_vite_style_banner() {
    assert_eq!(
        parse_readiness_line("  ➜  Local:   http://localhost:3000/ "),
        Some("http://127.0.0.1:3000".to_string())
    );
}

#[test]
fn readiness_url_embedded_in_json() {
    assert_eq!(
        parse_readiness_line(r#"{"msg":"ready","url":"http://127.0.0.1:49152/#/home"}"#),
        Some("http://127.0.0.1:49152".to_string())
    );
}

#[test]
fn readiness_normalises_localhost() {
    assert_eq!(
        parse_readiness_line("listening on http://localhost:8080"),
        Some("http://127.0.0.1:8080".to_string())
    );
}

#[test]
fn readiness_rejects_invalid_ports() {
    assert_eq!(parse_readiness_line("http://127.0.0.1:00000"), None);
    assert_eq!(parse_readiness_line("http://127.0.0.1:99999999"), None);
    assert_eq!(parse_readiness_line("http://127.0.0.1:"), None);
    assert_eq!(parse_readiness_line("no url here"), None);
    assert_eq!(parse_readiness_line(""), None);
}

#[test]
fn readiness_accepts_port_boundaries() {
    assert_eq!(
        parse_readiness_line("http://127.0.0.1:1"),
        Some("http://127.0.0.1:1".to_string())
    );
    assert_eq!(
        parse_readiness_line("http://127.0.0.1:65535"),
        Some("http://127.0.0.1:65535".to_string())
    );
    assert_eq!(parse_readiness_line("http://127.0.0.1:65536"), None);
}

#[test]
fn readiness_crlf_trimmed() {
    assert_eq!(
        parse_readiness_line("dsh web: http://127.0.0.1:8000\r\n"),
        Some("http://127.0.0.1:8000".to_string())
    );
}

#[test]
fn readiness_leading_zeros_are_canonicalised() {
    assert_eq!(
        parse_readiness_line("http://127.0.0.1:0080"),
        Some("http://127.0.0.1:80".to_string())
    );
}

#[test]
fn readiness_falls_back_to_localhost_after_invalid_loopback_port() {
    assert_eq!(
        parse_readiness_line("http://127.0.0.1:0 then http://localhost:9"),
        Some("http://127.0.0.1:9".to_string())
    );
}

#[test]
fn readiness_only_first_loopback_occurrence_counts() {
    assert_eq!(
        parse_readiness_line("http://127.0.0.1:x http://127.0.0.1:5"),
        None
    );
}

#[test]
fn readiness_is_idempotent_on_its_output() {
    let once = parse_readiness_line("  Local: http://localhost:3000/").unwrap();
    assert_eq!(parse_readiness_line(&once), Some(once.clone()));
}

#[test]
fn readiness_line_endings_do_not_matter() {
    let line = "dsh web: http://127.0.0.1:4321";
    let with_endings = format!("{line}\r\n\n\r");
    assert_eq!(parse_readiness_line(&with_endings), parse_readiness_line(line));
}

#[test]
fn strip_verbatim_only_strips_leading_prefix() {
    assert_eq!(strip_verbatim(r"C:\\?\x"), String::from(r"C:\\?\x"));
    assert_eq!(strip_verbatim(r"\\?\UNC"), String::from("UNC"));
}
