use vstd::prelude::*;
use vstd::string::*;
use vstd::utf8::encode_utf8;
use crate::text::{decimal, push_decimal};

verus! {

broadcast use vstd::seq_lib::group_to_multiset_ensures;

/// Requests sent for each account.
pub const REQUESTS_PER_ACCOUNT: usize = 2;

/// How long before its send time a request opens its connection.
pub const HANDSHAKE_LEAD_MS: i64 = 32000;

/// A lower-case hexadecimal digit.
pub open spec fn hex_digit(d: u32) -> char {
    if d < 10 {
        (48 + d) as char
    } else {
        (87 + d) as char
    }
}

/// How one character stands inside a JSON string literal: the quote and
/// the backslash are escaped with a backslash, backspace, tab, line feed,
/// form feed and carriage return by their letter escapes, the other control
/// characters below 0x20 as `\u00XX` (lower-case hex), and every other
/// character as it is.
pub open spec fn json_escape(c: char) -> Seq<char> {
    let u = c as u32;
    if c == '"' {
        seq!['\\', '"']
    } else if c == '\\' {
        seq!['\\', '\\']
    } else if u == 0x08 {
        seq!['\\', 'b']
    } else if u == 0x09 {
        seq!['\\', 't']
    } else if u == 0x0a {
        seq!['\\', 'n']
    } else if u == 0x0c {
        seq!['\\', 'f']
    } else if u == 0x0d {
        seq!['\\', 'r']
    } else if u < 0x20 {
        seq!['\\', 'u', '0', '0', hex_digit(u / 16), hex_digit(u % 16)]
    } else {
        seq![c]
    }
}

/// The characters of `s`, each as it stands inside a JSON string literal.
pub open spec fn json_escaped(s: Seq<char>) -> Seq<char>
    decreases s.len(),
{
    if s.len() == 0 {
        Seq::empty()
    } else {
        json_escaped(s.drop_last()) + json_escape(s.last())
    }
}

/// The JSON string literal for `s`: its escaped characters between quotes.
pub open spec fn json_string(s: Seq<char>) -> Seq<char> {
    seq!['"'] + json_escaped(s) + seq!['"']
}

/// `serde_json::Error`, carried opaquely as the error of `serde_json::to_string`.
#[verifier::external_type_specification]
#[verifier::external_body]
pub struct ExSerdeJsonError(serde_json::Error);

/// `serde_json::to_string` on a string slice: the string as a JSON string
/// literal, quoted and escaped as its `format_escaped_str` and `ESCAPE` table
/// do (see `json_escape`). It writes into a `Vec<u8>`, which cannot fail, so
/// the result is always `Ok`.
#[verifier::external_body]
fn to_json_string(s: &str) -> (r: Result<String, serde_json::Error>)
    ensures
        r is Ok,
        r matches Ok(j) ==> j@ == json_string(s@),
{
    serde_json::to_string(s)
}

/// A point in time: seconds since the Unix epoch and the nanoseconds within
/// that second.
#[derive(Clone, Copy, Debug, PartialEq, Eq, Structural)]
pub struct Moment {
    pub secs: i64,
    pub nanos: u32,
}

/// `a` is not later than `b`.
pub open spec fn moment_le(a: Moment, b: Moment) -> bool {
    a.secs < b.secs || (a.secs == b.secs && a.nanos <= b.nanos)
}

/// Whether `a` is strictly earlier than `b`.
pub fn moment_lt(a: Moment, b: Moment) -> (r: bool)
    ensures
        r == !moment_le(b, a),
{
    a.secs < b.secs || (a.secs == b.secs && a.nanos < b.nanos)
}

/// What one snipe request got back.
#[derive(Clone, Copy, Debug, PartialEq, Eq, Structural)]
pub struct ResData {
    /// HTTP status code of the reply.
    pub status: u16,
    /// When the reply was read.
    pub timestamp: Moment,
    /// Which account (index into the bearer tokens) sent the request.
    pub account_idx: usize,
}

/// The replies are in order of their timestamps.
pub open spec fn sorted_by_time(s: Seq<ResData>) -> bool {
    forall|i: int, j: int| 0 <= i < j < s.len() ==> moment_le(#[trigger] s[i].timestamp, #[trigger] s[j].timestamp)
}

/// Orders the replies by the time they were read.
pub fn sort_by_timestamp(v: Vec<ResData>) -> (r: Vec<ResData>)
    ensures
        sorted_by_time(r@),
        r@.to_multiset() == v@.to_multiset(),
{
    let mut out: Vec<ResData> = Vec::new();
    let mut i: usize = 0;
    while i < v.len()
        invariant
            i <= v@.len(),
            out@.len() == i,
            sorted_by_time(out@),
            out@.to_multiset() == v@.take(i as int).to_multiset(),
        decreases v@.len() - i,
    {
        let x = v[i];
        let mut pos: usize = 0;
        while pos < out.len() && !moment_lt(x.timestamp, out[pos].timestamp)
            invariant
                pos <= out@.len(),
                forall|k: int| 0 <= k < pos ==> moment_le(#[trigger] out@[k].timestamp, x.timestamp),
            decreases out@.len() - pos,
        {
            pos = pos + 1;
        }
        let ghost before = out@;
        out.insert(pos, x);
        assert forall|a: int, b: int| 0 <= a < b < out@.len() implies moment_le(
            #[trigger] out@[a].timestamp,
            #[trigger] out@[b].timestamp,
        ) by {
            if b < pos {
                assert(out@[a] == before[a] && out@[b] == before[b]);
            } else if b == pos {
                assert(out@[a] == before[a]);
            } else if a < pos {
                assert(out@[a] == before[a] && out@[b] == before[b - 1]);
                assert(moment_le(before[a].timestamp, before[pos as int].timestamp)) by {
                    if a < pos as int {}
                }
            } else if a == pos {
                assert(out@[b] == before[b - 1]);
                assert(moment_le(x.timestamp, before[pos as int].timestamp));
                assert(moment_le(before[pos as int].timestamp, before[b - 1].timestamp)) by {
                    if pos as int != b - 1 {}
                }
            } else {
                assert(out@[a] == before[a - 1] && out@[b] == before[b - 1]);
            }
        }
        assert(v@.take(i + 1) =~= v@.take(i as int).push(x));
        i = i + 1;
    }
    assert(v@.take(v@.len() as int) =~= v@);
    out
}


/// `s` as a JSON string literal.
pub fn json_string_of(s: &str) -> (r: String)
    ensures
        r@ == json_string(s@),
{
    to_json_string(s).unwrap()
}

/// The JSON body that claims `name` for a gift-code account.
pub open spec fn gc_body(name: Seq<char>) -> Seq<char> {
    "{\"profileName\":"@ + json_string(name) + "}"@
}

/// The request of a gift-code snipe, up to the final line break that is
/// sent at the snipe time: the JSON body follows the header block.
pub open spec fn gc_payload(name: Seq<char>, token: Seq<char>) -> Seq<char> {
    "POST /minecraft/profile HTTP/1.1\r\nHost: api.minecraftservices.com\r\nConnection: close\r\nAuthorization: Bearer "@
        + token + "\r\nContent-Type: application/json\r\nContent-Length: "@ + decimal(
        encode_utf8(gc_body(name)).len(),
    ) + "\r\n\r\n"@ + gc_body(name)
}

/// The request of a name change, up to the blank line that is sent at the
/// snipe time.
pub open spec fn regular_payload(name: Seq<char>, token: Seq<char>) -> Seq<char> {
    "PUT /minecraft/profile/name/"@ + name + " HTTP/1.1\r\nHost: api.minecraftservices.com\r\nConnection: close\r\nAuthorization: Bearer "@
        + token + "\r\n"@
}

/// The request text that one account sends to claim `name`: a profile
/// creation for gift-code accounts, a name change otherwise.
pub fn snipe_payload(name: &str, bearer_token: &str, is_gc: bool) -> (r: String)
    ensures
        is_gc ==> r@ == gc_payload(name@, bearer_token@),
        !is_gc ==> r@ == regular_payload(name@, bearer_token@),
{
    if is_gc {
        let quoted = json_string_of(name);
        let mut body = String::from_str("{\"profileName\":");
        body.append(quoted.as_str());
        body.append("}");
        let mut p = String::from_str(
            "POST /minecraft/profile HTTP/1.1\r\nHost: api.minecraftservices.com\r\nConnection: close\r\nAuthorization: Bearer ",
        );
        p.append(bearer_token);
        p.append("\r\nContent-Type: application/json\r\nContent-Length: ");
        let body_len = body.as_str().as_bytes().len();
        assert(body_len as nat == encode_utf8(body@).len());
        push_decimal(&mut p, body_len as u64);
        p.append("\r\n\r\n");
        p.append(body.as_str());
        assert(body@ == gc_body(name@));
        assert(p@ =~= gc_payload(name@, bearer_token@));
        p
    } else {
        let mut p = String::from_str("PUT /minecraft/profile/name/");
        p.append(name);
        p.append(" HTTP/1.1\r\nHost: api.minecraftservices.com\r\nConnection: close\r\nAuthorization: Bearer ");
        p.append(bearer_token);
        p.append("\r\n");
        assert(p@ =~= regular_payload(name@, bearer_token@));
        p
    }
}


/// When one snipe request opens its connection and when it is completed.
#[derive(Clone, Copy, Debug, PartialEq, Eq, Structural)]
pub struct PlannedRequest {
    /// Which account (index into the bearer tokens) sends it.
    pub account_idx: usize,
    /// Milliseconds since the Unix epoch at which the connection is opened.
    pub handshake_ms: i64,
    /// Milliseconds since the Unix epoch at which the request is completed.
    pub send_ms: i64,
}

/// The `k`-th request of a snipe that starts at `snipe_ms`: each account in
/// turn sends two requests, and each request goes `spread` ms after the one
/// before it.
pub open spec fn planned_request(snipe_ms: int, spread: int, k: int) -> PlannedRequest {
    PlannedRequest {
        account_idx: (k / REQUESTS_PER_ACCOUNT as int) as usize,
        handshake_ms: (snipe_ms + k * spread - HANDSHAKE_LEAD_MS) as i64,
        send_ms: (snipe_ms + k * spread) as i64,
    }
}

/// The times of a snipe fit in the clock's range.
pub open spec fn plan_fits(accounts: nat, snipe_ms: int, spread: int) -> bool {
    &&& accounts * REQUESTS_PER_ACCOUNT <= usize::MAX
    &&& i64::MIN <= snipe_ms - HANDSHAKE_LEAD_MS
    &&& snipe_ms + accounts * REQUESTS_PER_ACCOUNT * spread <= i64::MAX
}

proof fn lemma_step_bound(k: int, n: int, spread: int)
    requires
        0 <= k < n,
        0 <= spread,
    ensures
        k * spread + spread <= n * spread,
        0 <= k * spread,
        (k + 1) * spread == k * spread + spread,
{
    assert((k + 1) * spread <= n * spread) by (nonlinear_arith)
        requires
            k + 1 <= n,
            0 <= spread,
    ;
    assert(0 <= k * spread) by (nonlinear_arith)
        requires
            0 <= k,
            0 <= spread,
    ;
    assert((k + 1) * spread == k * spread + spread) by (nonlinear_arith);
}

/// The timetable of a snipe with `accounts` accounts: two requests per
/// account, account after account, `spread` ms apart, the first at
/// `snipe_ms`; each connection is opened 32 s before its request completes.
pub fn plan_requests(accounts: usize, snipe_ms: i64, spread: u32) -> (r: Vec<PlannedRequest>)
    requires
        plan_fits(accounts as nat, snipe_ms as int, spread as int),
    ensures
        r@.len() == accounts * REQUESTS_PER_ACCOUNT,
        forall|k: int| 0 <= k < r@.len() ==> #[trigger] r@[k] == planned_request(snipe_ms as int, spread as int, k),
{
    let total = accounts * REQUESTS_PER_ACCOUNT;
    let mut r: Vec<PlannedRequest> = Vec::new();
    let mut send: i64 = snipe_ms;
    let mut k: usize = 0;
    while k < total
        invariant
            total == accounts * REQUESTS_PER_ACCOUNT,
            plan_fits(accounts as nat, snipe_ms as int, spread as int),
            k <= total,
            r@.len() == k,
            k < total ==> send == snipe_ms + k * spread,
            forall|j: int| 0 <= j < k ==> #[trigger] r@[j] == planned_request(snipe_ms as int, spread as int, j),
        decreases total - k,
    {
        proof {
            lemma_step_bound(k as int, total as int, spread as int);
        }
        r.push(PlannedRequest {
            account_idx: k / REQUESTS_PER_ACCOUNT,
            handshake_ms: send - HANDSHAKE_LEAD_MS,
            send_ms: send,
        });
        if k + 1 < total {
            send = send + spread as i64;
        }
        k = k + 1;
    }
    r
}


/// How many requests wait for each other before reading their replies:
/// all of them when the spread is at most `threshold`, none otherwise.
pub fn barrier_count(spread: u32, threshold: u32, accounts: usize) -> (r: usize)
    requires
        accounts * REQUESTS_PER_ACCOUNT <= usize::MAX,
    ensures
        spread <= threshold ==> r == accounts * REQUESTS_PER_ACCOUNT,
        spread > threshold ==> r == 0,
{
    if spread <= threshold {
        accounts * REQUESTS_PER_ACCOUNT
    } else {
        0
    }
}

/// An ASCII decimal digit.
pub open spec fn is_digit(b: u8) -> bool {
    48 <= b <= 57
}

/// The number that three characters spell when parsed as a `u16`: three
/// digits, or a plus sign and two digits.
pub open spec fn status_of(t: Seq<u8>) -> Option<u16> {
    if t[0] == 43 && is_digit(t[1]) && is_digit(t[2]) {
        Some((10 * (t[1] - 48) + (t[2] - 48)) as u16)
    } else if is_digit(t[0]) && is_digit(t[1]) && is_digit(t[2]) {
        Some((100 * (t[0] - 48) + 10 * (t[1] - 48) + (t[2] - 48)) as u16)
    } else {
        None
    }
}

/// The status code in the first twelve bytes of an HTTP reply
/// (`HTTP/1.1 200`): the characters after the ninth byte, read as a number.
pub fn status_code(head: &[u8]) -> (r: Option<u16>)
    requires
        head@.len() == 12,
    ensures
        r == status_of(head@.subrange(9, 12)),
{
    let a = head[9];
    let b = head[10];
    let c = head[11];
    let digit = |x: u8| -> (d: bool)
        ensures
            d == is_digit(x),
        { 48 <= x && x <= 57 };
    if a == 43 && digit(b) && digit(c) {
        Some(10 * (b - 48) as u16 + (c - 48) as u16)
    } else if digit(a) && digit(b) && digit(c) {
        Some(100 * (a - 48) as u16 + 10 * (b - 48) as u16 + (c - 48) as u16)
    } else {
        None
    }
}

} // verus!
