//! The shape of the upstream access-control API the service talks to, and
//! the records the listing endpoints pass through.
//!
//! Every upstream call goes to the local upstream port with a bearer
//! credential; the library fixes each call's URL exactly. The calls
//! themselves are plain request/decode round trips performed outside the
//! library, which surfaces their failures through `Error`.

use vstd::prelude::*;

use crate::decimal::dec_digits;
use crate::decimal::usize_to_string;

verus! {

/// An upstream access rule: an opaque id, a name and description, and the
/// enforcement toggles of its blacklist and whitelist.
#[derive(Clone, Debug)]
pub struct AccessRule {
    pub id: String,
    pub name: String,
    pub desc: String,
    pub blacklist_enabled: bool,
    pub whitelist_enabled: bool,
}

/// The query of the blocklisted-IPs listing endpoint: which rule to list.
#[derive(Clone, Debug)]
pub struct AccessRuleQuery {
    pub rule_id: String,
}

/// A list of IPs to add to a rule's blocklist.
#[derive(Clone, Debug)]
pub struct IpsToBlacklist {
    pub ips: Vec<String>,
}

/// The payload of the access-rules listing endpoint.
#[derive(Clone, Debug)]
pub struct ListAccessRulesResponse {
    pub access_rules: Vec<AccessRule>,
}

/// The base of every upstream URL: the upstream API listens on a local port.
pub open spec fn upstream_base_spec(port: nat) -> Seq<char> {
    "http://localhost:"@ + dec_digits(port)
}

/// The URL that adds one IP to a rule's blocklist; the IP itself travels as
/// a query parameter appended by the caller.
pub open spec fn add_ip_url_spec(port: nat, rule_id: Seq<char>) -> Seq<char> {
    upstream_base_spec(port) + "/plugin/api/blacklist/ip/add?id="@ + rule_id
}

/// The URL that lists the access rules of the account.
pub open spec fn list_access_rules_url_spec(port: nat) -> Seq<char> {
    upstream_base_spec(port) + "/plugin/api/access/list"@
}

/// The URL that lists the IPs already blocklisted for one rule.
pub open spec fn list_blocklisted_ips_url_spec(port: nat, rule_id: Seq<char>) -> Seq<char> {
    upstream_base_spec(port) + "/plugin/api/blacklist/list?id="@ + rule_id + "&type=ip"@
}

/// Render the URL of the add-one-IP call.
pub fn add_ip_url(zoraxy_port: u16, access_rule_id: &str) -> (r: String)
    ensures
        r@ == add_ip_url_spec(zoraxy_port as nat, access_rule_id@),
{
    let mut s = String::from_str("http://localhost:");
    s.append(usize_to_string(zoraxy_port as usize).as_str());
    s.append("/plugin/api/blacklist/ip/add?id=");
    s.append(access_rule_id);
    s
}

/// Render the URL of the list-access-rules call.
pub fn list_access_rules_url(zoraxy_port: u16) -> (r: String)
    ensures
        r@ == list_access_rules_url_spec(zoraxy_port as nat),
{
    let mut s = String::from_str("http://localhost:");
    s.append(usize_to_string(zoraxy_port as usize).as_str());
    s.append("/plugin/api/access/list");
    s
}

/// Render the URL of the list-blocklisted-IPs call.
pub fn list_blocklisted_ips_url(zoraxy_port: u16, rule_id: &str) -> (r: String)
    ensures
        r@ == list_blocklisted_ips_url_spec(zoraxy_port as nat, rule_id@),
{
    let mut s = String::from_str("http://localhost:");
    s.append(usize_to_string(zoraxy_port as usize).as_str());
    s.append("/plugin/api/blacklist/list?id=");
    s.append(rule_id);
    s.append("&type=ip");
    s
}

/// The response to a request no route matches.
pub fn not_found_response() -> (r: (u16, String))
    ensures
        r.0 == 404,
        r.1@ == "Not Found"@,
{
    (404, String::from_str("Not Found"))
}

} // verus!
