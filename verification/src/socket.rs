use vstd::prelude::*;
use crate::sockets::json_string;

verus! {

/// The header block of a name change, up to the final blank line, with
/// `access_token` as bearer token.
pub open spec fn regular_head(name: Seq<char>, access_token: Seq<char>, user_agent: Seq<char>) -> Seq<char> {
    "PUT /minecraft/profile/name/"@ + name
        + " HTTP/1.1\r\nHost: api.minecraftservices.com\r\nConnection: keep-alive\r\nContent-Length: 0\r\nAccept: */*\r\nAuthorization: Bearer "@
        + access_token + "\r\nUser-Agent: "@ + user_agent + "\r\n"@
}

/// The header block of a profile creation, up to the final blank line.
pub open spec fn gc_head(access_token: Seq<char>, user_agent: Seq<char>) -> Seq<char> {
    "POST /minecraft/profile/ HTTP/1.1\r\nHost: api.minecraftservices.com\r\nConnection: keep-alive\r\nContent-Type: application/json\r\nAccept: */*\r\nAuthorization: Bearer "@
        + access_token + "\r\nUser-Agent: "@ + user_agent + "\r\n"@
}

/// The rest of a profile creation, sent at the snipe time: the blank line,
/// the JSON body and a line break.
pub open spec fn gc_tail(name: Seq<char>) -> Seq<char> {
    "\r\n{\"profileName\":"@ + json_string(name) + "}\r\n"@
}

/// The two parts of a name change request: the header block, and the blank
/// line sent at the snipe time.
pub fn regular_request(name: &str, access_token: &str, user_agent: &str) -> (r: (String, String))
    ensures
        r.0@ == regular_head(name@, access_token@, user_agent@),
        r.1@ == "\r\n"@,
{
    let mut head = String::from_str("PUT /minecraft/profile/name/");
    head.append(name);
    head.append(
        " HTTP/1.1\r\nHost: api.minecraftservices.com\r\nConnection: keep-alive\r\nContent-Length: 0\r\nAccept: */*\r\nAuthorization: Bearer ",
    );
    head.append(access_token);
    head.append("\r\nUser-Agent: ");
    head.append(user_agent);
    head.append("\r\n");
    (head, String::from_str("\r\n"))
}

/// The two parts of a profile creation request: the header block, and the
/// rest (blank line and JSON body) sent at the snipe time.
pub fn gc_request(name: &str, access_token: &str, user_agent: &str) -> (r: (String, String))
    ensures
        r.0@ == gc_head(access_token@, user_agent@),
        r.1@ == gc_tail(name@),
{
    let mut head = String::from_str(
        "POST /minecraft/profile/ HTTP/1.1\r\nHost: api.minecraftservices.com\r\nConnection: keep-alive\r\nContent-Type: application/json\r\nAccept: */*\r\nAuthorization: Bearer ",
    );
    head.append(access_token);
    head.append("\r\nUser-Agent: ");
    head.append(user_agent);
    head.append("\r\n");
    let quoted = crate::sockets::json_string_of(name);
    let mut tail = String::from_str("\r\n{\"profileName\":");
    tail.append(quoted.as_str());
    tail.append("}\r\n");
    (head, tail)
}

/// A snipe succeeded when one of its requests got status 200.
pub fn snipe_succeeded(statuses: &Vec<u16>) -> (r: bool)
    ensures
        r == statuses@.contains(200),
{
    let mut i: usize = 0;
    while i < statuses.len()
        invariant
            i <= statuses@.len(),
            forall|k: int| 0 <= k < i ==> statuses@[k] != 200,
        decreases statuses@.len() - i,
    {
        if statuses[i] == 200 {
            return true;
        }
        i = i + 1;
    }
    false
}

/// The offset measured by a timed request: the round trip in ms (as an
/// `i32`, wrapping) less the time the server takes to answer.
pub fn offset_from_round_trip(round_trip_ms: u128, server_response_ms: i32) -> (r: i32)
    requires
        i32::MIN <= (round_trip_ms as i32) - server_response_ms <= i32::MAX,
    ensures
        r == (round_trip_ms as i32) - server_response_ms,
{
    #[verifier::truncate]
    (round_trip_ms as i32) - server_response_ms
}

} // verus!
