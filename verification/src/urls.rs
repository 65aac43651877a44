use vstd::prelude::*;
use vstd::string::*;

use crate::error::FritzError;

verus! {

/// Upper bound, in characters, on what the library hands to the URL parser: the parser
/// keeps offsets in `u32`, so an address must stay well below 4 GiB once percent-encoded.
pub const MAX_URL_INPUT: usize = 0x0400_0000;

/// Upper bound, in characters, on each text that goes into a request's address.
pub const MAX_FIELD: usize = 0x0040_0000;

/// `s` is short enough to go into a request's address.
pub open spec fn field_ok(s: Seq<char>) -> bool {
    s.len() <= MAX_FIELD
}

/// The serialisation of the URL that `url::Url::parse_with_params` builds from `base`
/// and the query `pairs` (or the error with which it refuses `base`).
pub uninterp spec fn url_with_params(
    base: Seq<char>,
    pairs: Seq<(Seq<char>, Seq<char>)>,
) -> Result<Seq<char>, url::ParseError>;

/// Total number of characters in the query pairs.
pub open spec fn pairs_len(pairs: Seq<(Seq<char>, Seq<char>)>) -> nat
    decreases pairs.len(),
{
    if pairs.len() == 0 {
        0
    } else {
        pairs_len(pairs.drop_last()) + pairs.last().0.len() + pairs.last().1.len()
    }
}

/// Calls `reqwest::Url::parse_with_params` (the `url` crate's `Url::parse_with_params`)
/// and serialises the URL it builds. Claimed: the outcome is a function of `base` and
/// `pairs` alone, named `url_with_params`. Inputs are bounded so that the crate's `u32`
/// offsets cannot overflow.
#[verifier::external_body]
fn parse_with_params(base: &str, pairs: &Vec<(String, String)>) -> (r: Result<
    String,
    url::ParseError,
>)
    requires
        base@.len() + pairs_len(pairs.deep_view()) <= MAX_URL_INPUT,
    ensures
        match r {
            Ok(u) => url_with_params(base@, pairs.deep_view()) == Ok::<Seq<char>, url::ParseError>(u@),
            Err(e) => url_with_params(base@, pairs.deep_view()) == Err::<Seq<char>, url::ParseError>(e),
        },
{
    match reqwest::Url::parse_with_params(base, pairs.iter()) {
        Ok(u) => Ok(String::from(u)),
        Err(e) => Err(e),
    }
}

/// `r` is the outcome `expected` of the URL parser, its error wrapped as the library's.
pub open spec fn url_outcome(
    r: Result<String, FritzError>,
    expected: Result<Seq<char>, url::ParseError>,
) -> bool {
    match expected {
        Ok(u) => r matches Ok(s) && s@ == u,
        Err(e) => r == Err::<String, FritzError>(FritzError::InvalidUrl(e)),
    }
}

/// Maps the URL parser's outcome to the library's result.
pub fn url_result(parsed: Result<String, url::ParseError>) -> (r: Result<String, FritzError>)
    ensures
        match parsed {
            Ok(u) => r == Ok::<String, FritzError>(u),
            Err(e) => r == Err::<String, FritzError>(FritzError::InvalidUrl(e)),
        },
{
    match parsed {
        Ok(u) => Ok(u),
        Err(e) => Err(FritzError::InvalidUrl(e)),
    }
}

/// `protocol://host` followed by `path`.
pub open spec fn page(protocol: Seq<char>, host: Seq<char>, path: Seq<char>) -> Seq<char> {
    protocol + "://"@ + host + path
}

/// The box's login page.
pub open spec fn login_page(protocol: Seq<char>, host: Seq<char>) -> Seq<char> {
    page(protocol, host, "/login_sid.lua"@)
}

/// The box's home automation page.
pub open spec fn switch_page(protocol: Seq<char>, host: Seq<char>) -> Seq<char> {
    page(protocol, host, "/webservices/homeautoswitch.lua"@)
}

/// Builds `protocol://host` followed by `path`.
fn page_address(protocol: &str, host: &str, path: &str) -> (r: String)
    ensures
        r@ == page(protocol@, host@, path@),
{
    let mut s = String::from_str(protocol);
    s.append("://");
    s.append(host);
    s.append(path);
    s
}

/// The address of the login page, `protocol://host/login_sid.lua`.
pub fn login_address(protocol: &String, host: &String) -> (r: String)
    ensures
        r@ == login_page(protocol@, host@),
{
    page_address(protocol.as_str(), host.as_str(), "/login_sid.lua")
}

/// The address of the home automation page, `protocol://host/webservices/homeautoswitch.lua`.
pub fn switch_address(protocol: &String, host: &String) -> (r: String)
    ensures
        r@ == switch_page(protocol@, host@),
{
    page_address(protocol.as_str(), host.as_str(), "/webservices/homeautoswitch.lua")
}

/// A query pair of owned strings.
pub fn pair(key: &str, value: &str) -> (r: (String, String))
    ensures
        r.0@ == key@,
        r.1@ == value@,
{
    (String::from_str(key), String::from_str(value))
}

/// Builds the URL of `base` with the query `pairs`, as the URL parser does.
pub fn address_with_query(base: &String, pairs: &Vec<(String, String)>) -> (r: Result<
    String,
    FritzError,
>)
    requires
        base@.len() + pairs_len(pairs.deep_view()) <= MAX_URL_INPUT,
    ensures
        url_outcome(r, url_with_params(base@, pairs.deep_view())),
{
    url_result(parse_with_params(base.as_str(), pairs))
}

/// The query that logs the session `sid` out.
pub open spec fn logout_query(sid: Seq<char>) -> Seq<(Seq<char>, Seq<char>)> {
    seq![("sid"@, sid), ("logout"@, "1"@)]
}

/// The query that asks for the list of devices.
pub open spec fn device_list_query(sid: Seq<char>) -> Seq<(Seq<char>, Seq<char>)> {
    seq![("sid"@, sid), ("switchcmd"@, "getdevicelistinfos"@)]
}

/// The query that sends the command `cmd` to the device `ain`.
pub open spec fn device_query(sid: Seq<char>, ain: Seq<char>, cmd: Seq<char>) -> Seq<
    (Seq<char>, Seq<char>),
> {
    seq![("sid"@, sid), ("ain"@, ain), ("switchcmd"@, cmd)]
}

/// The address that logs the session `sid` out of the box at `protocol://host`.
pub fn logout_url(protocol: &String, host: &Option<String>, sid: &str) -> (r: Result<
    String,
    FritzError,
>)
    requires
        host is Some,
        field_ok(protocol@),
        field_ok(host->0@),
        field_ok(sid@),
    ensures
        url_outcome(r, url_with_params(login_page(protocol@, host->0@), logout_query(sid@))),
{
    let base = login_address(protocol, host.as_ref().unwrap());
    let mut pairs: Vec<(String, String)> = Vec::new();
    pairs.push(pair("sid", sid));
    pairs.push(pair("logout", "1"));
    proof {
        reveal_strlit("sid");
        reveal_strlit("logout");
        reveal_strlit("1");
        reveal_strlit("://");
        reveal_strlit("/login_sid.lua");
        reveal_with_fuel(pairs_len, 3);
        assert(pairs.deep_view() =~= logout_query(sid@));
    }
    address_with_query(&base, &pairs)
}

/// The address that asks the box at `protocol://host` for its list of devices.
pub fn device_list_url(protocol: &String, host: &Option<String>, sid: &str) -> (r: Result<
    String,
    FritzError,
>)
    requires
        host is Some,
        field_ok(protocol@),
        field_ok(host->0@),
        field_ok(sid@),
    ensures
        url_outcome(r, url_with_params(switch_page(protocol@, host->0@), device_list_query(sid@))),
{
    let base = switch_address(protocol, host.as_ref().unwrap());
    let mut pairs: Vec<(String, String)> = Vec::new();
    pairs.push(pair("sid", sid));
    pairs.push(pair("switchcmd", "getdevicelistinfos"));
    proof {
        reveal_strlit("sid");
        reveal_strlit("switchcmd");
        reveal_strlit("getdevicelistinfos");
        reveal_strlit("://");
        reveal_strlit("/webservices/homeautoswitch.lua");
        reveal_with_fuel(pairs_len, 3);
        assert(pairs.deep_view() =~= device_list_query(sid@));
    }
    address_with_query(&base, &pairs)
}

/// The address that sends the command `cmd` for the device `ain` to the box at
/// `protocol://host`.
pub fn device_command_url(
    protocol: &String,
    host: &Option<String>,
    sid: &str,
    ain: &str,
    cmd: &str,
) -> (r: Result<String, FritzError>)
    requires
        host is Some,
        field_ok(protocol@),
        field_ok(host->0@),
        field_ok(sid@),
        field_ok(ain@),
        cmd@.len() <= 64,
    ensures
        url_outcome(r, url_with_params(switch_page(protocol@, host->0@), device_query(sid@, ain@, cmd@))),
{
    let base = switch_address(protocol, host.as_ref().unwrap());
    let mut pairs: Vec<(String, String)> = Vec::new();
    pairs.push(pair("sid", sid));
    pairs.push(pair("ain", ain));
    pairs.push(pair("switchcmd", cmd));
    proof {
        reveal_strlit("sid");
        reveal_strlit("ain");
        reveal_strlit("switchcmd");
        reveal_strlit("://");
        reveal_strlit("/webservices/homeautoswitch.lua");
        reveal_with_fuel(pairs_len, 4);
        assert(pairs.deep_view() =~= device_query(sid@, ain@, cmd@));
    }
    address_with_query(&base, &pairs)
}

/// The address that asks whether the switch `ain` is on.
pub fn switch_state_url(protocol: &String, host: &Option<String>, sid: &str, ain: &str) -> (r:
    Result<String, FritzError>)
    requires
        host is Some,
        field_ok(protocol@),
        field_ok(host->0@),
        field_ok(sid@),
        field_ok(ain@),
    ensures
        url_outcome(
            r,
            url_with_params(
                switch_page(protocol@, host->0@),
                device_query(sid@, ain@, "getswitchstate"@),
            ),
        ),
{
    proof { reveal_strlit("getswitchstate"); }
    device_command_url(protocol, host, sid, ain, "getswitchstate")
}

/// The address that asks for the temperature that the device `ain` measures.
pub fn temperature_url(protocol: &String, host: &Option<String>, sid: &str, ain: &str) -> (r:
    Result<String, FritzError>)
    requires
        host is Some,
        field_ok(protocol@),
        field_ok(host->0@),
        field_ok(sid@),
        field_ok(ain@),
    ensures
        url_outcome(
            r,
            url_with_params(
                switch_page(protocol@, host->0@),
                device_query(sid@, ain@, "gettemperature"@),
            ),
        ),
{
    proof { reveal_strlit("gettemperature"); }
    device_command_url(protocol, host, sid, ain, "gettemperature")
}

/// The address that asks for the power that the switch `ain` draws.
pub fn power_url(protocol: &String, host: &Option<String>, sid: &str, ain: &str) -> (r: Result<
    String,
    FritzError,
>)
    requires
        host is Some,
        field_ok(protocol@),
        field_ok(host->0@),
        field_ok(sid@),
        field_ok(ain@),
    ensures
        url_outcome(
            r,
            url_with_params(
                switch_page(protocol@, host->0@),
                device_query(sid@, ain@, "getswitchpower"@),
            ),
        ),
{
    proof { reveal_strlit("getswitchpower"); }
    device_command_url(protocol, host, sid, ain, "getswitchpower")
}

/// The command that turns a switch on (`on`) or off.
pub open spec fn switch_on_off_command(on: bool) -> Seq<char> {
    if on {
        "setswitchon"@
    } else {
        "setswitchoff"@
    }
}

/// The address that turns the switch `ain` on (`on`) or off.
pub fn switch_on_off_url(
    protocol: &String,
    host: &Option<String>,
    sid: &str,
    ain: &str,
    on: bool,
) -> (r: Result<String, FritzError>)
    requires
        host is Some,
        field_ok(protocol@),
        field_ok(host->0@),
        field_ok(sid@),
        field_ok(ain@),
    ensures
        url_outcome(
            r,
            url_with_params(
                switch_page(protocol@, host->0@),
                device_query(sid@, ain@, switch_on_off_command(on)),
            ),
        ),
{
    proof {
        reveal_strlit("setswitchon");
        reveal_strlit("setswitchoff");
    }
    let command = if on {
        "setswitchon"
    } else {
        "setswitchoff"
    };
    device_command_url(protocol, host, sid, ain, command)
}

/// The pages of the box are addressed by protocol, `://`, host and the page's path.
pub proof fn pages_are_protocol_host_and_path(protocol: Seq<char>, host: Seq<char>)
    ensures
        login_page(protocol, host) == protocol + "://"@ + host + "/login_sid.lua"@,
        switch_page(protocol, host) == protocol + "://"@ + host
            + "/webservices/homeautoswitch.lua"@,
{
}

/// Every query carries the session id, the device and the command exactly as given,
/// each under its own key and in this order, and nothing else.
pub proof fn queries_carry_their_values(sid: Seq<char>, ain: Seq<char>, cmd: Seq<char>)
    ensures
        logout_query(sid).len() == 2,
        logout_query(sid)[0] == ("sid"@, sid),
        logout_query(sid)[1] == ("logout"@, "1"@),
        device_list_query(sid).len() == 2,
        device_list_query(sid)[0] == ("sid"@, sid),
        device_list_query(sid)[1] == ("switchcmd"@, "getdevicelistinfos"@),
        device_query(sid, ain, cmd).len() == 3,
        device_query(sid, ain, cmd)[0] == ("sid"@, sid),
        device_query(sid, ain, cmd)[1] == ("ain"@, ain),
        device_query(sid, ain, cmd)[2] == ("switchcmd"@, cmd),
        switch_on_off_command(true) == "setswitchon"@,
        switch_on_off_command(false) == "setswitchoff"@,
{
}

} // verus!
