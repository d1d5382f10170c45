//! Opt-in firmware-update check: the Keychron Launcher API address for a
//! device and the latest-version field of the API's reply. The request
//! itself (the only network traffic of the program) is made by the caller,
//! with `REQUEST_HEADERS` and `TIMEOUT_SECS`.
//!
//! Endpoint: `GET https://launcher.keychron.cn/api/merchandise/product/vpId/{vpId}`,
//! `vpId = vid * 65536 + pid`; the latest version is `data.firmware.lasted.version`.

use vstd::prelude::*;

use crate::text::{append_radix, dec};

verus! {

/// Headers the API expects.
pub const REQUEST_HEADERS: [(&'static str, &'static str); 3] = [
    ("client", "launcher"),
    ("env", "PROD"),
    ("accept", "application/json"),
];

/// Request timeout.
pub const TIMEOUT_SECS: u64 = 5;

/// The API's product id for a vendor/product pair.
pub open spec fn vp_id(vid: u16, pid: u16) -> nat {
    vid as nat * 65536 + pid as nat
}

/// Lookup address for the device `vid:pid`.
pub fn firmware_url(vid: u16, pid: u16) -> (url: String)
    ensures
        url@ == "https://launcher.keychron.cn/api/merchandise/product/vpId/"@ + dec(
            vp_id(vid, pid),
        ),
{
    let vpid: u64 = (vid as u64) * 65536 + pid as u64;
    let mut url = String::from_str("https://launcher.keychron.cn/api/merchandise/product/vpId/");
    append_radix(&mut url, vpid, 10);
    url
}

/// The string that the JSON Pointer `pointer` (RFC 6901) addresses in
/// `body` read as JSON; `None` when `body` is not JSON, nothing is there,
/// or what is there is not a string. It names what three serde_json calls
/// give in a chain: `from_str` into a `Value`, `Value::pointer`, and
/// `Value::as_str`.
pub uninterp spec fn json_str_at_spec(body: Seq<char>, pointer: Seq<char>) -> Option<Seq<char>>;

/// Parses `body` with `serde_json::from_str` into a `Value`, looks up
/// `pointer` with `Value::pointer` and reads what it finds with
/// `Value::as_str`.
/// Trusted: the result is `json_str_at_spec(body, pointer)`; JSON syntax and
/// the pointer rules are not stated.
#[verifier::external_body]
fn json_str_at(body: &str, pointer: &str) -> (r: Option<String>)
    ensures
        r matches Some(v) ==> json_str_at_spec(body@, pointer@) == Some(v@),
        r is None ==> json_str_at_spec(body@, pointer@) is None,
{
    let value: serde_json::Value = serde_json::from_str(body).ok()?;
    value.pointer(pointer)?.as_str().map(str::to_string)
}

/// Where the API's reply holds the latest version: `data.firmware.lasted.version`.
pub open spec fn version_pointer() -> Seq<char> {
    "/data/firmware/lasted/version"@
}

/// Latest firmware version in an API reply: the string at
/// `data.firmware.lasted.version`; `None` when the reply is not JSON or
/// carries no version string there.
pub fn version_from_reply(body: &str) -> (r: Option<String>)
    ensures
        r matches Some(v) ==> json_str_at_spec(body@, version_pointer()) == Some(v@),
        r is None ==> json_str_at_spec(body@, version_pointer()) is None,
{
    let pointer = "/data/firmware/lasted/version";
    proof {
        assert(pointer@ == version_pointer());
    }
    json_str_at(body, pointer)
}

} // verus!
