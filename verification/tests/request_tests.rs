use fritzbox_rest::error::FritzError;
use fritzbox_rest::urls::{
    device_list_url, login_address, logout_url, power_url, switch_address, switch_on_off_url,
    switch_state_url, temperature_url, url_result,
};

fn http() -> String {
    "http".to_string()
}

fn fritz() -> Option<String> {
    Some("fritz.box".to_string())
}

#[test]
fn addresses_of_the_pages() {
    assert_eq!(login_address(&http(), &"fritz.box".to_string()), "http://fritz.box/login_sid.lua");
    assert_eq!(
        switch_address(&"https".to_string(), &"192.168.178.1".to_string()),
        "https://192.168.178.1/webservices/homeautoswitch.lua"
    );
}

#[test]
fn logout_url_names_the_session() {
    assert_eq!(
        logout_url(&http(), &fritz(), "abc123").unwrap(),
        "http://fritz.box/login_sid.lua?sid=abc123&logout=1"
    );
}

#[test]
fn device_list_url_asks_for_the_list() {
    assert_eq!(
        device_list_url(&http(), &fritz(), "abc").unwrap(),
        "http://fritz.box/webservices/homeautoswitch.lua?sid=abc&switchcmd=getdevicelistinfos"
    );
}

#[test]
fn device_urls_name_device_and_command() {
    let base = "http://fritz.box/webservices/homeautoswitch.lua?sid=s&ain=087610000434&switchcmd=";
    assert_eq!(switch_state_url(&http(), &fritz(), "s", "087610000434").unwrap(), format!("{}getswitchstate", base));
    assert_eq!(temperature_url(&http(), &fritz(), "s", "087610000434").unwrap(), format!("{}gettemperature", base));
    assert_eq!(power_url(&http(), &fritz(), "s", "087610000434").unwrap(), format!("{}getswitchpower", base));
    assert_eq!(switch_on_off_url(&http(), &fritz(), "s", "087610000434", true).unwrap(), format!("{}setswitchon", base));
    assert_eq!(switch_on_off_url(&http(), &fritz(), "s", "087610000434", false).unwrap(), format!("{}setswitchoff", base));
}

#[test]
fn query_values_are_form_encoded() {
    assert_eq!(
        switch_state_url(&http(), &fritz(), "a&b", "08761 0000434").unwrap(),
        "http://fritz.box/webservices/homeautoswitch.lua?sid=a%26b&ain=08761+0000434&switchcmd=getswitchstate"
    );
}

#[test]
fn an_address_without_a_scheme_is_refused() {
    match logout_url(&"".to_string(), &fritz(), "abc") {
        Err(FritzError::InvalidUrl(e)) => assert_eq!(e, url::ParseError::RelativeUrlWithoutBase),
        other => panic!("unexpected {:?}", other),
    }
    assert!(matches!(
        device_list_url(&http(), &Some("[::1".to_string()), "abc"),
        Err(FritzError::InvalidUrl(url::ParseError::InvalidIpv6Address))
    ));
}

#[test]
fn url_result_wraps_the_parser_error() {
    assert!(matches!(url_result(Ok("http://x/".to_string())), Ok(ref s) if s == "http://x/"));
    assert!(matches!(
        url_result(Err(url::ParseError::EmptyHost)),
        Err(FritzError::InvalidUrl(url::ParseError::EmptyHost))
    ));
}
