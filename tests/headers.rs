use latency_probe::headers::{contains_chars, extract_diagnostics, header_targets, unknown_text};

fn found(response: &str) -> (String, String) {
    let d = extract_diagnostics(response.as_bytes());
    (d.response_region, d.ip_address)
}

#[test]
fn region_header_with_surrounding_name_text() {
    let (region, ip) = found("HTTP/1.1 200 OK\r\nX-Response-Region: us-east\r\n\r\nbody");
    assert_eq!(region, "us-east");
    assert_eq!(ip, "unknown");
}

#[test]
fn header_names_match_in_any_case() {
    let (region, ip) = found("HTTP/1.1 200 OK\r\nX-REGION: eu-west\r\nX-Ip_Address: 10.0.0.7\r\n\r\n");
    assert_eq!(region, "eu-west");
    assert_eq!(ip, "10.0.0.7");
}

#[test]
fn missing_headers_give_the_placeholder() {
    let (region, ip) = found("HTTP/1.1 200 OK\r\nContent-Type: text/html\r\nServer: x\r\n\r\n<html>");
    assert_eq!(region, "unknown");
    assert_eq!(ip, "unknown");
    assert!(!region.is_empty());
}

#[test]
fn empty_response_gives_the_placeholder() {
    let (region, ip) = found("");
    assert_eq!(region, "unknown");
    assert_eq!(ip, "unknown");
}

#[test]
fn last_matching_header_wins() {
    let (region, _) = found("HTTP/1.1 200 OK\r\nRegion: first\r\nFly-Region: second\r\n\r\n");
    assert_eq!(region, "second");
}

#[test]
fn line_without_colon_is_skipped() {
    let (region, _) = found("HTTP/1.1 200 OK\r\nX-Region: kept\r\nX-Region broken\r\n\r\n");
    assert_eq!(region, "kept");
    let (region, _) = found("HTTP/1.1 200 OK\r\nX-Region broken\r\n\r\n");
    assert_eq!(region, "unknown");
}

#[test]
fn status_line_is_not_a_header() {
    let (region, _) = found("HTTP/1.1 200 region: nowhere\r\n\r\n");
    assert_eq!(region, "unknown");
    let (region, _) = found("region: nowhere");
    assert_eq!(region, "unknown");
}

#[test]
fn body_lines_are_not_headers() {
    let (region, ip) = found("HTTP/1.1 200 OK\r\nServer: x\r\n\r\nX-Region: body\r\nip_address: 1.1.1.1\r\n");
    assert_eq!(region, "unknown");
    assert_eq!(ip, "unknown");
}

#[test]
fn value_is_trimmed_and_split_at_first_colon() {
    let (region, ip) = found("HTTP/1.1 200 OK\r\nX-Region:   ap-south  \r\nip_address: ::1\r\n\r\n");
    assert_eq!(region, "ap-south");
    assert_eq!(ip, "::1");
}

#[test]
fn one_header_can_feed_both_fields() {
    let (region, ip) = found("HTTP/1.1 200 OK\r\nregion_ip_address: both\r\n\r\n");
    assert_eq!(region, "both");
    assert_eq!(ip, "both");
}

#[test]
fn invalid_bytes_become_replacement_characters() {
    let mut raw = b"HTTP/1.1 200 OK\r\nX-Region: a".to_vec();
    raw.push(0xff);
    raw.extend_from_slice(b"b\r\n\r\n");
    let d = extract_diagnostics(&raw);
    assert_eq!(d.response_region, "a\u{fffd}b");
}

#[test]
fn header_without_blank_line_is_still_read() {
    let (region, _) = found("HTTP/1.1 200 OK\r\nX-Region: tail");
    assert_eq!(region, "tail");
}

#[test]
fn targets_of_lowered_lines() {
    let name: Vec<char> = "x-response-region".chars().collect();
    assert_eq!(header_targets(&name), (true, false));
    let name: Vec<char> = "x-ip_address".chars().collect();
    assert_eq!(header_targets(&name), (false, true));
    let name: Vec<char> = "x-ip-address".chars().collect();
    assert_eq!(header_targets(&name), (false, false));
    let name: Vec<char> = "X-REGION".chars().collect();
    assert_eq!(header_targets(&name), (false, false));
    let name: Vec<char> = "via".chars().collect();
    assert_eq!(header_targets(&name), (false, false));
}

#[test]
fn substring_search() {
    let hay: Vec<char> = "abcabd".chars().collect();
    let yes: Vec<char> = "abd".chars().collect();
    let no: Vec<char> = "abe".chars().collect();
    let empty: Vec<char> = Vec::new();
    let long: Vec<char> = "abcabdx".chars().collect();
    assert!(contains_chars(&hay, &yes));
    assert!(!contains_chars(&hay, &no));
    assert!(contains_chars(&hay, &empty));
    assert!(!contains_chars(&hay, &long));
    assert!(contains_chars(&empty, &empty));
}

#[test]
fn placeholder_text() {
    assert_eq!(unknown_text(), "unknown");
}

#[test]
fn keys_in_values_do_not_count() {
    let (region, ip) = found("HTTP/1.1 200 OK\r\nVia: region-gw\r\nX-Note: ip_address hidden\r\n\r\n");
    assert_eq!(region, "unknown");
    assert_eq!(ip, "unknown");
}

#[test]
fn key_in_value_does_not_override_earlier_header() {
    let (region, _) = found("HTTP/1.1 200 OK\r\nX-Region: kept\r\nVia: region-gw\r\n\r\n");
    assert_eq!(region, "kept");
}

#[test]
fn worked_example_of_loose_names() {
    let (region, ip) = found("HTTP/1.1 200 OK\r\nX-Response-Region: us-east\r\nx-IP_ADDRESS-Seen:  10.0.0.1 \r\n\r\n");
    assert_eq!(region, "us-east");
    assert_eq!(ip, "10.0.0.1");
}

#[test]
fn unicode_white_space_is_trimmed() {
    let (region, _) = found("HTTP/1.1 200 OK\r\nX-Region:\u{a0}\u{3000}eu\u{2009}\t\r\n\r\n");
    assert_eq!(region, "eu");
}
