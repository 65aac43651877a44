use fritzbox_rest::login::{
    challenge_response, encode_utf16, login_response_url, to_hex_lower, utf16_le_bytes,
    LoginStage, SessionInfo, SidAction, SidLogin,
};

fn info(sid: &str, challenge: &str) -> SessionInfo {
    SessionInfo { sid: sid.to_string(), challenge: challenge.to_string() }
}

#[test]
fn encode_utf16_matches_std() {
    for s in ["", "abc", "äbc", "1234567z-äbc", "😀x", "\u{ffff}\u{10000}\u{10ffff}"] {
        let cs: Vec<char> = s.chars().collect();
        let expected: Vec<u16> = s.encode_utf16().collect();
        assert_eq!(encode_utf16(&cs), expected);
    }
    assert_eq!(encode_utf16(&vec!['😀']), vec![0xD83D, 0xDE00]);
}

#[test]
fn utf16_le_bytes_puts_low_byte_first() {
    assert_eq!(utf16_le_bytes(&vec![0x0031, 0x00e4, 0xD83D]), vec![0x31, 0x00, 0xe4, 0x00, 0x3D, 0xD8]);
    assert_eq!(utf16_le_bytes(&vec![]), Vec::<u8>::new());
}

#[test]
fn to_hex_lower_writes_two_digits_a_byte() {
    let hex: String = to_hex_lower(&[0x00, 0x0f, 0xa0, 0xff]).into_iter().collect();
    assert_eq!(hex, "000fa0ff");
}

#[test]
fn challenge_response_of_the_documented_example() {
    // The example of AVM's login documentation.
    assert_eq!(
        challenge_response("1234567z", "äbc"),
        "1234567z-9e224a41eeefa284df7bb0f26c2913e2"
    );
}

#[test]
fn challenge_response_hashes_the_password() {
    let a = challenge_response("c0ffee", "secret");
    let b = challenge_response("c0ffee", "Secret");
    assert!(a.starts_with("c0ffee-"));
    assert_eq!(a.len(), "c0ffee".len() + 33);
    assert_ne!(a, b);
    let digest = format!("{:x}", md5::compute(
        "c0ffee-secret".encode_utf16().flat_map(|u| u.to_le_bytes()).collect::<Vec<u8>>(),
    ));
    assert_eq!(a, format!("c0ffee-{}", digest));
}

#[test]
fn login_response_url_names_the_user() {
    let with_user = login_response_url(
        &"http".to_string(),
        &Some("fritz.box".to_string()),
        &Some("admin".to_string()),
        &Some("äbc".to_string()),
        "1234567z",
    )
    .unwrap();
    assert_eq!(
        with_user,
        "http://fritz.box/login_sid.lua?response=1234567z-9e224a41eeefa284df7bb0f26c2913e2&username=admin"
    );
    let without_user = login_response_url(
        &"http".to_string(),
        &Some("fritz.box".to_string()),
        &None,
        &Some("äbc".to_string()),
        "1234567z",
    )
    .unwrap();
    assert_eq!(
        without_user,
        "http://fritz.box/login_sid.lua?response=1234567z-9e224a41eeefa284df7bb0f26c2913e2"
    );
}

#[test]
fn login_with_a_given_sid_asks_nothing() {
    let mut login = SidLogin::new(&"http".to_string(), &None, &None, &None, &Some("cafe".to_string()));
    match login.start() {
        SidAction::Finished(sid) => assert_eq!(sid, "cafe"),
        SidAction::Fetch(_) => panic!("a given sid needs no request"),
    }
    assert!(login.stage == LoginStage::Done);
}

#[test]
fn login_asks_for_a_challenge_then_answers_it() {
    let mut login = SidLogin::new(
        &"http".to_string(),
        &Some("fritz.box".to_string()),
        &Some("admin".to_string()),
        &Some("äbc".to_string()),
        &None,
    );
    match login.start() {
        SidAction::Fetch(url) => assert_eq!(url, "http://fritz.box/login_sid.lua"),
        SidAction::Finished(_) => panic!("a challenge is due"),
    }
    assert!(login.stage == LoginStage::AwaitingChallenge);
    match login.on_reply(&info("0000000000000000", "1234567z")) {
        SidAction::Fetch(url) => assert_eq!(
            url,
            "http://fritz.box/login_sid.lua?response=1234567z-9e224a41eeefa284df7bb0f26c2913e2&username=admin"
        ),
        SidAction::Finished(_) => panic!("the answer is due"),
    }
    assert!(login.stage == LoginStage::AwaitingSid);
    match login.on_reply(&info("9f3a0e6c11b1a2f3", "ignored")) {
        SidAction::Finished(sid) => assert_eq!(sid, "9f3a0e6c11b1a2f3"),
        SidAction::Fetch(_) => panic!("the login is over"),
    }
    assert!(login.stage == LoginStage::Done);
}

#[test]
fn login_ends_with_the_fallback_where_no_answer_address_can_be_built() {
    let mut login = SidLogin::new(
        &"".to_string(),
        &Some("fritz.box".to_string()),
        &None,
        &Some("pw".to_string()),
        &None,
    );
    match login.start() {
        SidAction::Fetch(url) => assert_eq!(url, "://fritz.box/login_sid.lua"),
        SidAction::Finished(_) => panic!("a challenge is due"),
    }
    match login.on_reply(&info("0000000000000000", "abc")) {
        SidAction::Finished(sid) => assert_eq!(sid, "ddd"),
        SidAction::Fetch(_) => panic!("no address can be built"),
    }
    assert!(login.stage == LoginStage::Done);
}
