use buckshot::socket::{gc_request, offset_from_round_trip, regular_request, snipe_succeeded};
use buckshot::sockets::{
    barrier_count, json_string_of, plan_requests, snipe_payload, sort_by_timestamp, status_code, Moment, ResData,
};

#[test]
fn name_change_request_text() {
    let p = snipe_payload("Dream", "tok123", false);
    assert_eq!(
        p,
        "PUT /minecraft/profile/name/Dream HTTP/1.1\r\nHost: api.minecraftservices.com\r\nConnection: close\r\nAuthorization: Bearer tok123\r\n"
    );
    // with the blank line sent at the snipe time the header block is complete
    assert!(format!("{}\r\n", p).ends_with("\r\n\r\n"));
}

#[test]
fn profile_creation_request_text() {
    let p = snipe_payload("Dream", "tok123", true);
    assert_eq!(
        p,
        "POST /minecraft/profile HTTP/1.1\r\nHost: api.minecraftservices.com\r\nConnection: close\r\nAuthorization: Bearer tok123\r\nContent-Type: application/json\r\nContent-Length: 23\r\n\r\n{\"profileName\":\"Dream\"}"
    );
}

#[test]
fn profile_creation_body_is_escaped_and_measured_in_bytes() {
    let p = snipe_payload("a\"é", "t", true);
    let body = "{\"profileName\":\"a\\\"é\"}";
    assert!(p.ends_with(&format!("Content-Length: {}\r\n\r\n{}", body.len(), body)));
    assert_eq!(body.len(), 23);
    assert_eq!(json_string_of("x\ny"), "\"x\\ny\"");
    assert_eq!(json_string_of("abc"), "\"abc\"");
    assert_eq!(json_string_of("\u{1}\t\\"), "\"\\u0001\\t\\\\\"");
    assert_eq!(json_string_of("\u{1f}é"), "\"\\u001fé\"");
}

#[test]
fn long_bodies_have_multi_digit_lengths() {
    let name = "n".repeat(1000);
    let p = snipe_payload(&name, "t", true);
    assert!(p.contains("Content-Length: 1018\r\n"));
}

#[test]
fn requests_are_spread_account_by_account() {
    let plan = plan_requests(3, 1_000_000, 25);
    assert_eq!(plan.len(), 6);
    let accounts: Vec<usize> = plan.iter().map(|r| r.account_idx).collect();
    assert_eq!(accounts, vec![0, 0, 1, 1, 2, 2]);
    let sends: Vec<i64> = plan.iter().map(|r| r.send_ms).collect();
    assert_eq!(sends, vec![1_000_000, 1_000_025, 1_000_050, 1_000_075, 1_000_100, 1_000_125]);
    assert!(plan.iter().all(|r| r.send_ms - r.handshake_ms == 32_000));
}

#[test]
fn no_accounts_no_requests() {
    assert!(plan_requests(0, 5, 10).is_empty());
}

#[test]
fn zero_spread_sends_together() {
    let plan = plan_requests(2, 7, 0);
    assert!(plan.iter().all(|r| r.send_ms == 7 && r.handshake_ms == 7 - 32_000));
}

#[test]
fn barrier_holds_all_requests_only_under_the_threshold() {
    assert_eq!(barrier_count(0, 5, 3), 6);
    assert_eq!(barrier_count(5, 5, 3), 6);
    assert_eq!(barrier_count(6, 5, 3), 0);
}

#[test]
fn status_codes_are_read_from_the_reply_head() {
    assert_eq!(status_code(b"HTTP/1.1 200"), Some(200));
    assert_eq!(status_code(b"HTTP/1.1 429"), Some(429));
    assert_eq!(status_code(b"HTTP/1.1 +42"), Some(42));
    assert_eq!(status_code(b"HTTP/1.1 2x0"), None);
    assert_eq!(status_code(b"HTTP/1.1 -20"), None);
    assert_eq!(status_code(b"HTTP/1.1  20"), None);
}

fn res(status: u16, secs: i64, nanos: u32, account_idx: usize) -> ResData {
    ResData { status, timestamp: Moment { secs, nanos }, account_idx }
}

#[test]
fn replies_are_sorted_by_time() {
    let v = vec![res(403, 10, 5, 0), res(200, 9, 999, 1), res(429, 10, 4, 2), res(403, 9, 1, 3)];
    let s = sort_by_timestamp(v);
    let order: Vec<usize> = s.iter().map(|r| r.account_idx).collect();
    assert_eq!(order, vec![3, 1, 2, 0]);
    assert!(sort_by_timestamp(vec![]).is_empty());
}

#[test]
fn old_style_requests() {
    let (head, tail) = regular_request("Marc", "tok", "Sniper");
    assert_eq!(
        head,
        "PUT /minecraft/profile/name/Marc HTTP/1.1\r\nHost: api.minecraftservices.com\r\nConnection: keep-alive\r\nContent-Length: 0\r\nAccept: */*\r\nAuthorization: Bearer tok\r\nUser-Agent: Sniper\r\n"
    );
    assert_eq!(tail, "\r\n");
    let (head, tail) = gc_request("Marc", "tok", "Sniper");
    assert_eq!(
        head,
        "POST /minecraft/profile/ HTTP/1.1\r\nHost: api.minecraftservices.com\r\nConnection: keep-alive\r\nContent-Type: application/json\r\nAccept: */*\r\nAuthorization: Bearer tok\r\nUser-Agent: Sniper\r\n"
    );
    assert_eq!(tail, "\r\n{\"profileName\":\"Marc\"}\r\n");
}

#[test]
fn a_snipe_succeeds_when_one_request_does() {
    assert!(snipe_succeeded(&vec![403, 200]));
    assert!(!snipe_succeeded(&vec![403, 429]));
    assert!(!snipe_succeeded(&vec![]));
}

#[test]
fn measured_offset() {
    assert_eq!(offset_from_round_trip(120, 40), 80);
    assert_eq!(offset_from_round_trip(10, 40), -30);
}
