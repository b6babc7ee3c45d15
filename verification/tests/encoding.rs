use polonium::{decimal_string, Monospace, Priority, Sound, HTML};

#[test]
fn test_html() {
    assert_eq!("0", HTML::Disabled.to_string());
    assert_eq!("1", HTML::Enabled.to_string());
}

#[test]
fn test_monospace() {
    assert_eq!("0", Monospace::Disabled.to_string());
    assert_eq!("1", Monospace::Enabled.to_string());
}

#[test]
fn test_priority() {
    assert_eq!("-2", Priority::Lowest.to_string());
    assert_eq!("-1", Priority::Low.to_string());
    assert_eq!("0", Priority::Normal.to_string());
    assert_eq!("1", Priority::High.to_string());
    assert_eq!("2", Priority::Emergency.to_string());
}

#[test]
fn test_sound() {
    assert_eq!("pushover", Sound::Pushover.to_string());
    assert_eq!("bike", Sound::Bike.to_string());
    assert_eq!("bugle", Sound::Bugle.to_string());
    assert_eq!("cashregister", Sound::CashRegister.to_string());
    assert_eq!("classical", Sound::Classical.to_string());
    assert_eq!("cosmic", Sound::Cosmic.to_string());
    assert_eq!("falling", Sound::Falling.to_string());
    assert_eq!("gamelan", Sound::GameLan.to_string());
    assert_eq!("incoming", Sound::Incoming.to_string());
    assert_eq!("intermission", Sound::Intermission.to_string());
    assert_eq!("magic", Sound::Magic.to_string());
    assert_eq!("mechanical", Sound::Mechanical.to_string());
    assert_eq!("pianobar", Sound::PianoBar.to_string());
    assert_eq!("siren", Sound::Siren.to_string());
    assert_eq!("spacealarm", Sound::SpaceAlarm.to_string());
    assert_eq!("tugboat", Sound::Tugboat.to_string());
    assert_eq!("alien", Sound::Alien.to_string());
    assert_eq!("climb", Sound::Climb.to_string());
    assert_eq!("persistent", Sound::Persistent.to_string());
    assert_eq!("echo", Sound::Echo.to_string());
    assert_eq!("updown", Sound::UpDown.to_string());
    assert_eq!("vibrate", Sound::Vibrate.to_string());
    assert_eq!("none", Sound::Silent.to_string());
}

#[test]
fn sound_is_the_lower_case_name() {
    let sounds = [
        Sound::Pushover,
        Sound::Bike,
        Sound::Bugle,
        Sound::CashRegister,
        Sound::Classical,
        Sound::Cosmic,
        Sound::Falling,
        Sound::GameLan,
        Sound::Incoming,
        Sound::Intermission,
        Sound::Magic,
        Sound::Mechanical,
        Sound::PianoBar,
        Sound::Siren,
        Sound::SpaceAlarm,
        Sound::Tugboat,
        Sound::Alien,
        Sound::Climb,
        Sound::Persistent,
        Sound::Echo,
        Sound::UpDown,
        Sound::Vibrate,
    ];
    for sound in sounds {
        assert_eq!(format!("{:?}", sound).to_lowercase(), sound.to_string());
    }
}

#[test]
fn encoding_is_repeatable() {
    assert_eq!(Priority::Emergency.to_string(), Priority::Emergency.to_string());
    assert_eq!(Sound::SpaceAlarm.to_string(), Sound::SpaceAlarm.to_string());
    assert_eq!(HTML::Enabled, HTML::Enabled);
    assert_ne!(Monospace::Enabled, Monospace::Disabled);
}

#[test]
fn decimal_of_zero() {
    assert_eq!("0", decimal_string(0));
}

#[test]
fn decimal_of_single_digits() {
    assert_eq!("7", decimal_string(7));
    assert_eq!("9", decimal_string(9));
}

#[test]
fn decimal_of_round_numbers() {
    assert_eq!("10", decimal_string(10));
    assert_eq!("100", decimal_string(100));
    assert_eq!("1600000000", decimal_string(1_600_000_000));
}

#[test]
fn decimal_of_the_largest_number() {
    assert_eq!("18446744073709551615", decimal_string(u64::MAX));
}

#[test]
fn decimal_agrees_with_std() {
    let samples: [u64; 8] = [1, 12, 123, 1234, 90909, 1_000_001, 4_294_967_296, 9_999_999_999];
    for n in samples {
        assert_eq!(n.to_string(), decimal_string(n));
    }
}
