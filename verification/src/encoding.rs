//! The enumerations of a message and the text each value is sent as.

use vstd::prelude::*;

verus! {

/// Whether the message body is rendered as HTML.
#[derive(Clone, Copy, Debug, PartialEq, Eq, Structural)]
pub enum HTML {
    /// Displayed as plain text.
    Disabled,
    /// Displayed as HTML.
    Enabled,
}

/// Whether the message body is rendered in a monospace font.
#[derive(Clone, Copy, Debug, PartialEq, Eq, Structural)]
pub enum Monospace {
    /// Displayed in the normal font.
    Disabled,
    /// Displayed in a monospace font.
    Enabled,
}

/// How urgently a message is delivered.
#[derive(Clone, Copy, Debug, PartialEq, Eq, Structural)]
pub enum Priority {
    /// Normal priority.
    Normal,
    /// Lowest priority.
    Lowest,
    /// Low priority.
    Low,
    /// High priority.
    High,
    /// Emergency priority.
    Emergency,
}

/// The sound a device plays for a message.
#[derive(Clone, Copy, Debug, PartialEq, Eq, Structural)]
pub enum Sound {
    /// Pushover (the default).
    Pushover,
    /// Bike.
    Bike,
    /// Bugle.
    Bugle,
    /// Cash Register.
    CashRegister,
    /// Classical.
    Classical,
    /// Cosmic.
    Cosmic,
    /// Falling.
    Falling,
    /// Gamelan.
    GameLan,
    /// Incoming.
    Incoming,
    /// Intermission.
    Intermission,
    /// Magic.
    Magic,
    /// Mechanical.
    Mechanical,
    /// Piano Bar.
    PianoBar,
    /// Siren.
    Siren,
    /// Space Alarm.
    SpaceAlarm,
    /// Tug Boat.
    Tugboat,
    /// Alien Alarm (long).
    Alien,
    /// Climb (long).
    Climb,
    /// Persistent (long).
    Persistent,
    /// Pushover Echo (long).
    Echo,
    /// Up Down (long).
    UpDown,
    /// Vibrate only.
    Vibrate,
    /// No sound; sent as `none`.
    Silent,
}

impl HTML {
    /// The text this value is sent as in the `html` field.
    pub open spec fn wire(self) -> Seq<char> {
        match self {
            HTML::Disabled => "0"@,
            HTML::Enabled => "1"@,
        }
    }

    /// Encodes the value for the form.
    pub fn to_string(&self) -> (s: String)
        ensures
            s@ == self.wire(),
    {
        match self {
            HTML::Disabled => "0".to_owned(),
            HTML::Enabled => "1".to_owned(),
        }
    }
}

impl Monospace {
    /// The text this value is sent as in the `monospace` field.
    pub open spec fn wire(self) -> Seq<char> {
        match self {
            Monospace::Disabled => "0"@,
            Monospace::Enabled => "1"@,
        }
    }

    /// Encodes the value for the form.
    pub fn to_string(&self) -> (s: String)
        ensures
            s@ == self.wire(),
    {
        match self {
            Monospace::Disabled => "0".to_owned(),
            Monospace::Enabled => "1".to_owned(),
        }
    }
}

impl Priority {
    /// The text this value is sent as in the `priority` field.
    pub open spec fn wire(self) -> Seq<char> {
        match self {
            Priority::Lowest => "-2"@,
            Priority::Low => "-1"@,
            Priority::Normal => "0"@,
            Priority::High => "1"@,
            Priority::Emergency => "2"@,
        }
    }

    /// Encodes the value for the form.
    pub fn to_string(&self) -> (s: String)
        ensures
            s@ == self.wire(),
    {
        match self {
            Priority::Lowest => "-2".to_owned(),
            Priority::Low => "-1".to_owned(),
            Priority::Normal => "0".to_owned(),
            Priority::High => "1".to_owned(),
            Priority::Emergency => "2".to_owned(),
        }
    }
}

impl Sound {
    /// The text this value is sent as in the `sound` field: the variant's
    /// name in lower case, without separators; `none` for [`Sound::Silent`].
    pub open spec fn wire(self) -> Seq<char> {
        match self {
            Sound::Pushover => "pushover"@,
            Sound::Bike => "bike"@,
            Sound::Bugle => "bugle"@,
            Sound::CashRegister => "cashregister"@,
            Sound::Classical => "classical"@,
            Sound::Cosmic => "cosmic"@,
            Sound::Falling => "falling"@,
            Sound::GameLan => "gamelan"@,
            Sound::Incoming => "incoming"@,
            Sound::Intermission => "intermission"@,
            Sound::Magic => "magic"@,
            Sound::Mechanical => "mechanical"@,
            Sound::PianoBar => "pianobar"@,
            Sound::Siren => "siren"@,
            Sound::SpaceAlarm => "spacealarm"@,
            Sound::Tugboat => "tugboat"@,
            Sound::Alien => "alien"@,
            Sound::Climb => "climb"@,
            Sound::Persistent => "persistent"@,
            Sound::Echo => "echo"@,
            Sound::UpDown => "updown"@,
            Sound::Vibrate => "vibrate"@,
            Sound::Silent => "none"@,
        }
    }

    /// Encodes the value for the form.
    pub fn to_string(&self) -> (s: String)
        ensures
            s@ == self.wire(),
    {
        match self {
            Sound::Pushover => "pushover".to_owned(),
            Sound::Bike => "bike".to_owned(),
            Sound::Bugle => "bugle".to_owned(),
            Sound::CashRegister => "cashregister".to_owned(),
            Sound::Classical => "classical".to_owned(),
            Sound::Cosmic => "cosmic".to_owned(),
            Sound::Falling => "falling".to_owned(),
            Sound::GameLan => "gamelan".to_owned(),
            Sound::Incoming => "incoming".to_owned(),
            Sound::Intermission => "intermission".to_owned(),
            Sound::Magic => "magic".to_owned(),
            Sound::Mechanical => "mechanical".to_owned(),
            Sound::PianoBar => "pianobar".to_owned(),
            Sound::Siren => "siren".to_owned(),
            Sound::SpaceAlarm => "spacealarm".to_owned(),
            Sound::Tugboat => "tugboat".to_owned(),
            Sound::Alien => "alien".to_owned(),
            Sound::Climb => "climb".to_owned(),
            Sound::Persistent => "persistent".to_owned(),
            Sound::Echo => "echo".to_owned(),
            Sound::UpDown => "updown".to_owned(),
            Sound::Vibrate => "vibrate".to_owned(),
            Sound::Silent => "none".to_owned(),
        }
    }
}

/// The character of one decimal digit.
pub open spec fn digit_char(d: nat) -> char
    recommends
        d < 10,
{
    if d == 0 {
        '0'
    } else if d == 1 {
        '1'
    } else if d == 2 {
        '2'
    } else if d == 3 {
        '3'
    } else if d == 4 {
        '4'
    } else if d == 5 {
        '5'
    } else if d == 6 {
        '6'
    } else if d == 7 {
        '7'
    } else if d == 8 {
        '8'
    } else {
        '9'
    }
}

/// A number in decimal notation, most significant digit first, without
/// leading zeros.
pub open spec fn decimal_digits(n: nat) -> Seq<char>
    decreases n,
{
    if n < 10 {
        seq![digit_char(n)]
    } else {
        decimal_digits(n / 10).push(digit_char(n % 10))
    }
}

fn digit_str(d: u64) -> (s: &'static str)
    requires
        d < 10,
    ensures
        s@ == seq![digit_char(d as nat)],
{
    proof {
        reveal_strlit("0");
        reveal_strlit("1");
        reveal_strlit("2");
        reveal_strlit("3");
        reveal_strlit("4");
        reveal_strlit("5");
        reveal_strlit("6");
        reveal_strlit("7");
        reveal_strlit("8");
        reveal_strlit("9");
    }
    let s: &'static str = if d == 0 {
        "0"
    } else if d == 1 {
        "1"
    } else if d == 2 {
        "2"
    } else if d == 3 {
        "3"
    } else if d == 4 {
        "4"
    } else if d == 5 {
        "5"
    } else if d == 6 {
        "6"
    } else if d == 7 {
        "7"
    } else if d == 8 {
        "8"
    } else {
        "9"
    };
    assert(s@ =~= seq![digit_char(d as nat)]);
    s
}

/// Writes a number as decimal text, as the `timestamp` field carries it.
pub fn decimal_string(n: u64) -> (s: String)
    ensures
        s@ == decimal_digits(n as nat),
{
    let mut rest: u64 = n / 10;
    let mut s: String = digit_str(n % 10).to_owned();
    while rest > 0
        invariant
            rest > 0 ==> decimal_digits(n as nat) == decimal_digits(rest as nat) + s@,
            rest == 0 ==> decimal_digits(n as nat) == s@,
        decreases rest,
    {
        let head: String = digit_str(rest % 10).to_owned();
        let ghost tail = s@;
        s = head.concat(s.as_str());
        proof {
            let r = rest as nat;
            if r >= 10 {
                assert(decimal_digits(r) + tail =~= decimal_digits(r / 10) + s@);
            } else {
                assert(decimal_digits(r) + tail =~= s@);
            }
        }
        rest = rest / 10;
    }
    s
}

} // verus!
