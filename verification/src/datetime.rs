use vstd::prelude::*;
use vstd::string::*;

verus! {

/// A reference instant that elapsed time is measured from. Instants are
/// plain values: nanoseconds since the Unix epoch, possibly negative.
#[derive(Clone, Copy, PartialEq, Eq, Structural, Debug)]
pub enum Epoch {
    Unix,
    TwitterSnowflake,
    DiscordSnowflake,
    Custom(i64),
}

/// Each epoch's absolute instant, in nanoseconds since the Unix epoch.
pub open spec fn spec_epoch_nanos(e: Epoch) -> int {
    match e {
        Epoch::Unix => 0,
        Epoch::TwitterSnowflake => 1288834974657000000,
        Epoch::DiscordSnowflake => 1420070400000000000,
        Epoch::Custom(n) => n as int,
    }
}

/// The names the named epochs answer to on the command line.
pub open spec fn spec_parse_epoch_name(s: Seq<char>) -> Option<Epoch> {
    if s == "epoch"@ || s == "unix"@ {
        Some(Epoch::Unix)
    } else if s == "twitter"@ {
        Some(Epoch::TwitterSnowflake)
    } else if s == "discord"@ {
        Some(Epoch::DiscordSnowflake)
    } else {
        None
    }
}

impl Epoch {
    /// The epoch's instant as nanoseconds since the Unix epoch.
    pub fn to_utc(self) -> (r: i64)
        ensures
            r as int == spec_epoch_nanos(self),
    {
        match self {
            Epoch::Unix => 0,
            Epoch::TwitterSnowflake => 1288834974657000000,
            Epoch::DiscordSnowflake => 1420070400000000000,
            Epoch::Custom(n) => n,
        }
    }

    /// Parses the names of the built-in epochs; any other text is left to
    /// the caller, which may read it as a calendar timestamp instead.
    pub fn parse_named(s: &str) -> (r: Option<Epoch>)
        ensures
            r == spec_parse_epoch_name(s@),
    {
        let t = s.to_owned();
        if t == String::from_str("epoch") || t == String::from_str("unix") {
            Some(Epoch::Unix)
        } else if t == String::from_str("twitter") {
            Some(Epoch::TwitterSnowflake)
        } else if t == String::from_str("discord") {
            Some(Epoch::DiscordSnowflake)
        } else {
            None
        }
    }

    /// The command-line name of a built-in epoch; a custom instant has
    /// none and is rendered as a timestamp by the caller.
    pub fn named_label(&self) -> (r: Option<String>)
        ensures
            *self is Unix ==> (r matches Some(l) && l@ == "unix"@),
            *self is TwitterSnowflake ==> (r matches Some(l) && l@ == "twitter"@),
            *self is DiscordSnowflake ==> (r matches Some(l) && l@ == "discord"@),
            *self is Custom ==> r is None,
    {
        match self {
            Epoch::Unix => Some("unix".to_owned()),
            Epoch::TwitterSnowflake => Some("twitter".to_owned()),
            Epoch::DiscordSnowflake => Some("discord".to_owned()),
            Epoch::Custom(_) => None,
        }
    }
}

/// The number the elapsed-time tool prints: the time from the epoch to
/// `now`, in whole milliseconds or whole seconds; nothing when the epoch
/// lies after `now`.
pub fn elapsed_display_value(now_nanos: i64, epoch_nanos: i64, milliseconds: bool) -> (r: Option<
    i64,
>)
    ensures
        r is None <==> now_nanos < epoch_nanos,
        r matches Some(v) ==> v as int == (
        if milliseconds {
            (now_nanos - epoch_nanos) / 1_000_000
        } else {
            (now_nanos - epoch_nanos) / 1_000_000_000
        }),
{
    if now_nanos < epoch_nanos {
        return None;
    }
    let d = (now_nanos as i128) - (epoch_nanos as i128);
    let v = if milliseconds {
        d / 1_000_000
    } else {
        d / 1_000_000_000
    };
    Some(v as i64)
}

} // verus!
