use fritzbox_rest::error::FritzError;
use fritzbox_rest::replies::{switch_state_from_reply, temperature_from_reply};

#[test]
fn switch_is_on_exactly_for_one() {
    assert!(matches!(switch_state_from_reply("1\n"), Ok(true)));
    assert!(matches!(switch_state_from_reply("0\n"), Ok(false)));
    assert!(matches!(switch_state_from_reply("+1"), Ok(true)));
    assert!(matches!(switch_state_from_reply("2"), Ok(false)));
    assert!(matches!(switch_state_from_reply("-1"), Ok(false)));
}

#[test]
fn switch_state_that_is_no_number_is_an_error() {
    assert!(matches!(switch_state_from_reply("inval\n"), Err(FritzError::NotANumber)));
    assert!(matches!(switch_state_from_reply(""), Err(FritzError::NotANumber)));
    assert!(matches!(switch_state_from_reply(" 1"), Err(FritzError::NotANumber)));
}

#[test]
fn temperature_is_read_or_zero() {
    assert_eq!(temperature_from_reply("215\n"), 215);
    assert_eq!(temperature_from_reply("\n2\n1\n"), 21);
    assert_eq!(temperature_from_reply("inval"), 0);
    assert_eq!(temperature_from_reply("-5"), 0);
    assert_eq!(temperature_from_reply(""), 0);
}

#[test]
fn line_feeds_anywhere_do_not_change_the_reading() {
    for (a, b) in [("1", ""), ("", "1"), ("2", "15"), ("in", "val")] {
        let with = format!("{}\n{}", a, b);
        let without = format!("{}{}", a, b);
        assert_eq!(temperature_from_reply(&with), temperature_from_reply(&without));
        assert_eq!(
            format!("{:?}", switch_state_from_reply(&with)),
            format!("{:?}", switch_state_from_reply(&without))
        );
    }
}
