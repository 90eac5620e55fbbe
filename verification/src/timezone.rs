use vstd::prelude::*;
use vstd::string::*;

verus! {

/// A day of the week, as the time service names it.
#[derive(Clone, Copy, PartialEq, Eq, Structural, Debug)]
pub enum DayOfWeek {
    Sunday,
    Monday,
    Tuesday,
    Wednesday,
    Thursday,
    Friday,
    Saturday,
}

/// ASCII lower-casing of one character: the letters `A` through `Z` move
/// down by 32 code points, everything else stays.
pub open spec fn lower_char(c: char) -> char {
    if 65 <= c as u32 <= 90 {
        (((c as u32) + 32) as u8) as char
    } else {
        c
    }
}

pub open spec fn lower_seq(s: Seq<char>) -> Seq<char> {
    Seq::new(s.len(), |i: int| lower_char(s[i]))
}

fn to_lower_char(c: char) -> (r: char)
    ensures
        r == lower_char(c),
{
    let u = c as u32;
    if 65 <= u && u <= 90 {
        ((u + 32) as u8) as char
    } else {
        c
    }
}

/// Case-insensitive comparison against an already-lower-case pattern.
fn eq_ignore_case(s: &str, lower: &str) -> (b: bool)
    ensures
        b == (lower_seq(s@) == lower@),
{
    let n = s.unicode_len();
    if n != lower.unicode_len() {
        proof {
            assert(lower_seq(s@).len() == s@.len());
        }
        return false;
    }
    let mut k: usize = 0;
    while k < n
        invariant
            n == s@.len(),
            n == lower@.len(),
            k <= n,
            forall|m: int| 0 <= m < k ==> lower_seq(s@)[m] == lower@[m],
        decreases n - k,
    {
        let c = s.get_char(k);
        let lc = to_lower_char(c);
        let d = lower.get_char(k);
        if lc != d {
            proof {
                assert(lower_seq(s@)[k as int] != lower@[k as int]);
            }
            return false;
        }
        k = k + 1;
    }
    proof {
        assert(lower_seq(s@) =~= lower@);
    }
    true
}

/// The day a name denotes, compared without regard to ASCII case.
pub open spec fn spec_parse_day(s: Seq<char>) -> Option<DayOfWeek> {
    let l = lower_seq(s);
    if l == "sunday"@ {
        Some(DayOfWeek::Sunday)
    } else if l == "monday"@ {
        Some(DayOfWeek::Monday)
    } else if l == "tuesday"@ {
        Some(DayOfWeek::Tuesday)
    } else if l == "wednesday"@ {
        Some(DayOfWeek::Wednesday)
    } else if l == "thursday"@ {
        Some(DayOfWeek::Thursday)
    } else if l == "friday"@ {
        Some(DayOfWeek::Friday)
    } else if l == "saturday"@ {
        Some(DayOfWeek::Saturday)
    } else {
        None
    }
}

/// The English name of each day, capitalized as the service writes it.
pub open spec fn spec_day_name(d: DayOfWeek) -> Seq<char> {
    match d {
        DayOfWeek::Sunday => "Sunday"@,
        DayOfWeek::Monday => "Monday"@,
        DayOfWeek::Tuesday => "Tuesday"@,
        DayOfWeek::Wednesday => "Wednesday"@,
        DayOfWeek::Thursday => "Thursday"@,
        DayOfWeek::Friday => "Friday"@,
        DayOfWeek::Saturday => "Saturday"@,
    }
}

impl DayOfWeek {
    /// Parses a day name, ignoring ASCII case; any other text is no day.
    pub fn from_str(s: &str) -> (r: Option<DayOfWeek>)
        ensures
            r == spec_parse_day(s@),
    {
        if eq_ignore_case(s, "sunday") {
            Some(DayOfWeek::Sunday)
        } else if eq_ignore_case(s, "monday") {
            Some(DayOfWeek::Monday)
        } else if eq_ignore_case(s, "tuesday") {
            Some(DayOfWeek::Tuesday)
        } else if eq_ignore_case(s, "wednesday") {
            Some(DayOfWeek::Wednesday)
        } else if eq_ignore_case(s, "thursday") {
            Some(DayOfWeek::Thursday)
        } else if eq_ignore_case(s, "friday") {
            Some(DayOfWeek::Friday)
        } else if eq_ignore_case(s, "saturday") {
            Some(DayOfWeek::Saturday)
        } else {
            None
        }
    }

    /// The day's English name.
    pub fn name(&self) -> (r: String)
        ensures
            r@ == spec_day_name(*self),
    {
        match self {
            DayOfWeek::Sunday => "Sunday".to_owned(),
            DayOfWeek::Monday => "Monday".to_owned(),
            DayOfWeek::Tuesday => "Tuesday".to_owned(),
            DayOfWeek::Wednesday => "Wednesday".to_owned(),
            DayOfWeek::Thursday => "Thursday".to_owned(),
            DayOfWeek::Friday => "Friday".to_owned(),
            DayOfWeek::Saturday => "Saturday".to_owned(),
        }
    }
}

/// Round trip: parsing a day's own printed name gives that day back.
pub proof fn lemma_day_name_round_trip(d: DayOfWeek)
    ensures
        spec_parse_day(spec_day_name(d)) == Some(d),
{
    reveal_strlit("Sunday");
    reveal_strlit("sunday");
    reveal_strlit("Monday");
    reveal_strlit("monday");
    reveal_strlit("Tuesday");
    reveal_strlit("tuesday");
    reveal_strlit("Wednesday");
    reveal_strlit("wednesday");
    reveal_strlit("Thursday");
    reveal_strlit("thursday");
    reveal_strlit("Friday");
    reveal_strlit("friday");
    reveal_strlit("Saturday");
    reveal_strlit("saturday");
    match d {
        DayOfWeek::Sunday => {
            assert(lower_seq("Sunday"@) =~= "sunday"@);
        },
        DayOfWeek::Monday => {
            assert(lower_seq("Monday"@) =~= "monday"@);
            assert("monday"@[0] == 'm' && "sunday"@[0] == 's');
        },
        DayOfWeek::Tuesday => {
            assert(lower_seq("Tuesday"@) =~= "tuesday"@);
        },
        DayOfWeek::Wednesday => {
            assert(lower_seq("Wednesday"@) =~= "wednesday"@);
        },
        DayOfWeek::Thursday => {
            assert(lower_seq("Thursday"@) =~= "thursday"@);
        },
        DayOfWeek::Friday => {
            assert(lower_seq("Friday"@) =~= "friday"@);
            assert("friday"@[0] == 'f' && "sunday"@[0] == 's' && "monday"@[0] == 'm');
        },
        DayOfWeek::Saturday => {
            assert(lower_seq("Saturday"@) =~= "saturday"@);
            assert("saturday"@[0] == 's' && "thursday"@[0] == 't');
        },
    }
}

impl Default for DayOfWeek {
    fn default() -> (r: Self)
        ensures
            r == DayOfWeek::Sunday,
    {
        DayOfWeek::Sunday
    }
}

/// One answer of the remote time service, decoded to plain values.
#[derive(Debug)]
pub struct GetTimeResponse {
    pub year: i32,
    pub month: i32,
    pub day: i32,
    pub hour: i32,
    pub minute: i32,
    pub seconds: i32,
    pub milli_seconds: i32,
    pub raw_date_time: String,
    pub raw_date: String,
    pub raw_time: String,
    pub time_zone: String,
    pub day_of_week: DayOfWeek,
    pub dst_active: bool,
}

} // verus!
