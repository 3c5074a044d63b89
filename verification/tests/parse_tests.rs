use proxy_pool::parse_proxy_list;

#[test]
fn keeps_and_prefixes_lines() {
    let input = "socks5://1.2.3.4:1080\n5.6.7.8:1081\n# comment\n\nno-colon-here";
    let parsed = parse_proxy_list(input);
    assert_eq!(
        parsed,
        vec![
            "socks5://1.2.3.4:1080".to_string(),
            "socks5://5.6.7.8:1081".to_string(),
        ]
    );
}

#[test]
fn empty_input_yields_nothing() {
    let parsed = parse_proxy_list("");
    assert!(parsed.is_empty());
}

#[test]
fn trims_whitespace_and_carriage_returns() {
    let input = "  1.2.3.4:80  \r\n\t9.9.9.9:90\r\n";
    let parsed = parse_proxy_list(input);
    assert_eq!(
        parsed,
        vec![
            "socks5://1.2.3.4:80".to_string(),
            "socks5://9.9.9.9:90".to_string(),
        ]
    );
}

#[test]
fn prefixed_line_kept_verbatim_even_without_colon_suffix() {
    let parsed = parse_proxy_list("socks5://onlyhost");
    assert_eq!(parsed, vec!["socks5://onlyhost".to_string()]);
}

#[test]
fn comment_with_colon_is_discarded() {
    let parsed = parse_proxy_list("# 1.2.3.4:80\n#:\n1.1.1.1:1");
    assert_eq!(parsed, vec!["socks5://1.1.1.1:1".to_string()]);
}

#[test]
fn colon_only_line_is_prefixed() {
    let parsed = parse_proxy_list(":");
    assert_eq!(parsed, vec!["socks5://:".to_string()]);
}

#[test]
fn blank_and_whitespace_lines_are_discarded() {
    let parsed = parse_proxy_list("\n\n   \n\t\n");
    assert!(parsed.is_empty());
}
