use fritzbox_rest::commands::{session_plan, Commands};
use fritzbox_rest::presence::{PresenceChange, PresenceWatch, SunsetRise, POLL_INTERVAL_MS, STOP_HOUR};

#[test]
fn watch_reports_each_change_once() {
    let mut watch = PresenceWatch::new(false);
    let s = watch.observe(false, 18);
    assert_eq!(s.change, None);
    let s = watch.observe(true, 18);
    assert_eq!(s.change, Some(PresenceChange::CameOnline));
    assert!(watch.online);
    let s = watch.observe(true, 19);
    assert_eq!(s.change, None);
    let s = watch.observe(false, 20);
    assert_eq!(s.change, Some(PresenceChange::WentOffline));
    assert!(!watch.online);
}

#[test]
fn watch_stops_at_eleven_at_night() {
    let mut watch = PresenceWatch::new(true);
    assert!(watch.observe(true, 22).keep_watching);
    assert!(!watch.observe(true, 23).keep_watching);
    assert_eq!(STOP_HOUR, 23);
    assert_eq!(POLL_INTERVAL_MS, 10_000);
}

#[test]
fn watch_starts_an_hour_before_sunset() {
    let day = SunsetRise { sunset: 1_700_000_000, sunrise: 1_699_960_000 };
    assert_eq!(day.watch_start(), 1_699_996_400);
}

#[test]
fn session_plans_of_the_commands() {
    assert!(session_plan(&Commands::Test, &None).is_none());
    assert!(session_plan(&Commands::Timer, &None).is_none());
    let p = session_plan(&Commands::Sid, &None).unwrap();
    assert!(p.sid.is_none() && !p.logout);
    let p = session_plan(&Commands::List { sid: Some("s".to_string()) }, &None).unwrap();
    assert_eq!(p.sid.as_deref(), Some("s"));
    assert!(p.logout);
    let p = session_plan(
        &Commands::Switchstate { sid: None, ain: "1".to_string() },
        &Some("t".to_string()),
    )
    .unwrap();
    assert!(p.sid.is_none() && !p.logout);
}

#[test]
fn reported_changes_alternate_over_a_day() {
    let looks = [true, true, false, false, true, false, false, true, true];
    let mut watch = PresenceWatch::new(false);
    let mut reported = Vec::new();
    for (i, seen) in looks.iter().enumerate() {
        if let Some(c) = watch.observe(*seen, 18 + (i as u32 % 5)).change {
            reported.push(c);
        }
    }
    assert_eq!(reported[0], PresenceChange::CameOnline);
    for w in reported.windows(2) {
        assert_ne!(w[0], w[1]);
    }
    assert_eq!(reported.len(), 5);
}
