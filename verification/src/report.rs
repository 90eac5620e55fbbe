use vstd::prelude::*;
use vstd::string::*;
use crate::timing::{TimeSpan, Timing, NANOS_PER_SEC};

verus! {

// ---------------------------------------------------------------------------
// Decimal rendering, as a specification.
// ---------------------------------------------------------------------------

pub open spec fn digit_char(d: int) -> char {
    if d == 0 {
        '0'
    } else if d == 1 {
        '1'
    } else if d == 2 {
        '2'
    } else if d == 3 {
        '3'
    } else if d == 4 {
        '4'
    } else if d == 5 {
        '5'
    } else if d == 6 {
        '6'
    } else if d == 7 {
        '7'
    } else if d == 8 {
        '8'
    } else {
        '9'
    }
}

/// The base-ten rendering of a natural number, most significant digit first,
/// with no leading zeros (`0` itself renders as one digit).
pub open spec fn dec_rep(n: nat) -> Seq<char>
    decreases n,
{
    if n < 10 {
        seq![digit_char(n as int)]
    } else {
        dec_rep(n / 10) + seq![digit_char((n % 10) as int)]
    }
}

pub open spec fn zeros(k: nat) -> Seq<char> {
    Seq::new(k, |i: int| '0')
}

pub open spec fn spaces(k: nat) -> Seq<char> {
    Seq::new(k, |i: int| ' ')
}

/// `dec_rep` left-padded with zeros up to `width` characters.
pub open spec fn zero_pad(n: nat, width: nat) -> Seq<char> {
    if dec_rep(n).len() >= width {
        dec_rep(n)
    } else {
        zeros((width - dec_rep(n).len()) as nat) + dec_rep(n)
    }
}

/// Trailing `'0'` characters removed, but always at least one character kept.
pub open spec fn trim_zeros(s: Seq<char>) -> Seq<char>
    decreases s.len(),
{
    if s.len() <= 1 {
        s
    } else if s.last() == '0' {
        trim_zeros(s.drop_last())
    } else {
        s
    }
}

// ---------------------------------------------------------------------------
// The two line layouts, as specifications.
// ---------------------------------------------------------------------------

/// The fractional part of the POSIX layout: the nanoseconds written as nine
/// decimal places, trailing zeros dropped, at least one digit kept.
pub open spec fn posix_frac(nanos: nat) -> Seq<char> {
    trim_zeros(zero_pad(nanos, 9))
}

/// POSIX layout: `<label> <seconds>.<fraction>s`.
pub open spec fn posix_line(label: Seq<char>, secs: nat, nanos: nat) -> Seq<char> {
    label + " "@ + dec_rep(secs) + "."@ + posix_frac(nanos) + "s"@
}

/// The label of the human layout: `<label>:` left-justified to eight columns.
pub open spec fn human_label(label: Seq<char>) -> Seq<char> {
    if label.len() + 1 >= 8 {
        label + ":"@
    } else {
        label + ":"@ + spaces((8 - (label.len() + 1)) as nat)
    }
}

/// Human layout: `<label>:   <minutes>m<seconds>.<millis>s`, the seconds
/// truncated to three fractional digits.
pub open spec fn human_line(label: Seq<char>, secs: nat, nanos: nat) -> Seq<char> {
    human_label(label) + dec_rep(secs / 60) + "m"@ + dec_rep(secs % 60) + "."@ + zero_pad(
        nanos / 1_000_000,
        3,
    ) + "s"@
}

/// One report line in the layout the `posix` flag selects.
pub open spec fn report_line(label: Seq<char>, span: TimeSpan, posix: bool) -> Seq<char> {
    if posix {
        posix_line(label, span.secs as nat, span.nanos as nat)
    } else {
        human_line(label, span.secs as nat, span.nanos as nat)
    }
}

// ---------------------------------------------------------------------------
// Lemmas about the decimal rendering.
// ---------------------------------------------------------------------------

proof fn lemma_dec_len(n: nat)
    ensures
        dec_rep(n).len() >= 1,
        n < 10 ==> dec_rep(n).len() == 1,
        n >= 10 ==> dec_rep(n).len() == dec_rep(n / 10).len() + 1,
    decreases n,
{
    if n >= 10 {
        lemma_dec_len(n / 10);
    }
}

/// The length of the rendering, characterized range by range.
proof fn lemma_dec_len_ranges(n: nat)
    ensures
        n < 10 ==> dec_rep(n).len() == 1,
        10 <= n < 100 ==> dec_rep(n).len() == 2,
        100 <= n < 1000 ==> dec_rep(n).len() == 3,
        1000 <= n < 10000 ==> dec_rep(n).len() == 4,
        10000 <= n < 100_000 ==> dec_rep(n).len() == 5,
        100_000 <= n < 1_000_000 ==> dec_rep(n).len() == 6,
        1_000_000 <= n < 10_000_000 ==> dec_rep(n).len() == 7,
        10_000_000 <= n < 100_000_000 ==> dec_rep(n).len() == 8,
        100_000_000 <= n < 1_000_000_000 ==> dec_rep(n).len() == 9,
        1_000_000_000 <= n < 10_000_000_000 ==> dec_rep(n).len() == 10,
    decreases n,
{
    if n >= 10 {
        lemma_dec_len_ranges(n / 10);
        lemma_dec_len(n);
    }
}

pub open spec fn is_digit_char(c: char) -> bool {
    c == '0' || c == '1' || c == '2' || c == '3' || c == '4' || c == '5' || c == '6' || c == '7'
        || c == '8' || c == '9'
}

pub open spec fn all_digits(s: Seq<char>) -> bool {
    forall|i: int| 0 <= i < s.len() ==> is_digit_char(#[trigger] s[i])
}

proof fn lemma_dec_all_digits(n: nat)
    ensures
        all_digits(dec_rep(n)),
    decreases n,
{
    if n >= 10 {
        lemma_dec_all_digits(n / 10);
        assert forall|i: int| 0 <= i < dec_rep(n).len() implies is_digit_char(dec_rep(n)[i]) by {
            if i < dec_rep(n / 10).len() {
                assert(dec_rep(n)[i] == dec_rep(n / 10)[i]);
            }
        }
    }
}

proof fn lemma_zero_pad_digits(n: nat, width: nat)
    ensures
        all_digits(zero_pad(n, width)),
        zero_pad(n, width).len() >= 1,
        zero_pad(n, width).len() >= width,
        dec_rep(n).len() <= width ==> zero_pad(n, width).len() == width,
{
    lemma_dec_all_digits(n);
    lemma_dec_len(n);
    if dec_rep(n).len() < width {
        assert forall|i: int| 0 <= i < zero_pad(n, width).len() implies is_digit_char(
            zero_pad(n, width)[i],
        ) by {
            let pad = (width - dec_rep(n).len()) as nat;
            if i < pad {
                assert(zero_pad(n, width)[i] == '0');
            } else {
                assert(zero_pad(n, width)[i] == dec_rep(n)[i - pad]);
            }
        }
    }
}

proof fn lemma_trim_digits(s: Seq<char>)
    requires
        all_digits(s),
        s.len() >= 1,
    ensures
        all_digits(trim_zeros(s)),
        trim_zeros(s).len() >= 1,
    decreases s.len(),
{
    if s.len() > 1 && s.last() == '0' {
        assert(all_digits(s.drop_last())) by {
            assert forall|i: int| 0 <= i < s.drop_last().len() implies is_digit_char(
                s.drop_last()[i],
            ) by {
                assert(s.drop_last()[i] == s[i]);
            }
        }
        lemma_trim_digits(s.drop_last());
    }
}

// ---------------------------------------------------------------------------
// Faithfulness: the digit runs denote exactly the rendered numbers.
// ---------------------------------------------------------------------------

pub open spec fn digit_val(c: char) -> int {
    if c == '0' {
        0
    } else if c == '1' {
        1
    } else if c == '2' {
        2
    } else if c == '3' {
        3
    } else if c == '4' {
        4
    } else if c == '5' {
        5
    } else if c == '6' {
        6
    } else if c == '7' {
        7
    } else if c == '8' {
        8
    } else {
        9
    }
}

/// The number a run of digits denotes in base ten.
pub open spec fn dec_value(s: Seq<char>) -> int
    decreases s.len(),
{
    if s.len() == 0 {
        0
    } else {
        dec_value(s.drop_last()) * 10 + digit_val(s.last())
    }
}

proof fn lemma_digit_round_trip(d: int)
    requires
        0 <= d < 10,
    ensures
        digit_val(digit_char(d)) == d,
{
}

/// Reading the rendering back gives the number that was rendered.
pub proof fn lemma_dec_rep_faithful(n: nat)
    ensures
        dec_value(dec_rep(n)) == n,
    decreases n,
{
    lemma_dec_len(n);
    if n < 10 {
        lemma_digit_round_trip(n as int);
        assert(dec_rep(n).drop_last() =~= Seq::<char>::empty());
        assert(dec_rep(n).last() == digit_char(n as int));
        assert(dec_value(dec_rep(n)) == dec_value(dec_rep(n).drop_last()) * 10 + digit_val(
            dec_rep(n).last(),
        ));
    } else {
        lemma_dec_rep_faithful(n / 10);
        lemma_digit_round_trip((n % 10) as int);
        assert(dec_rep(n).drop_last() =~= dec_rep(n / 10));
        assert(dec_rep(n).last() == digit_char((n % 10) as int));
        assert(dec_value(dec_rep(n)) == dec_value(dec_rep(n).drop_last()) * 10 + digit_val(
            dec_rep(n).last(),
        ));
        assert(n == 10 * (n / 10) + n % 10);
    }
}

proof fn lemma_zeros_value(k: nat)
    ensures
        dec_value(zeros(k)) == 0,
    decreases k,
{
    if k > 0 {
        assert(zeros(k).drop_last() =~= zeros((k - 1) as nat));
        assert(zeros(k).last() == '0');
        lemma_zeros_value((k - 1) as nat);
    }
}

proof fn lemma_zero_prefix_value(k: nat, s: Seq<char>)
    ensures
        dec_value(zeros(k) + s) == dec_value(s),
    decreases s.len(),
{
    if s.len() == 0 {
        assert(zeros(k) + s =~= zeros(k));
        lemma_zeros_value(k);
    } else {
        assert((zeros(k) + s).drop_last() =~= zeros(k) + s.drop_last());
        assert((zeros(k) + s).last() == s.last());
        lemma_zero_prefix_value(k, s.drop_last());
    }
}

/// Leading zeros change nothing: the padded run still denotes the number.
pub proof fn lemma_zero_pad_faithful(n: nat, width: nat)
    ensures
        dec_value(zero_pad(n, width)) == n,
{
    lemma_dec_rep_faithful(n);
    if dec_rep(n).len() < width {
        lemma_zero_prefix_value((width - dec_rep(n).len()) as nat, dec_rep(n));
    }
}

/// Trimming only drops trailing zeros: restoring them gives the padded
/// run back, so the trimmed fraction still determines the nanoseconds.
pub proof fn lemma_trim_zeros_decomposition(s: Seq<char>)
    ensures
        trim_zeros(s).len() <= s.len(),
        s =~= trim_zeros(s) + zeros((s.len() - trim_zeros(s).len()) as nat),
    decreases s.len(),
{
    if s.len() > 1 && s.last() == '0' {
        lemma_trim_zeros_decomposition(s.drop_last());
        assert(s =~= s.drop_last() + seq![s.last()]);
        let k = (s.drop_last().len() - trim_zeros(s.drop_last()).len()) as nat;
        assert(zeros(k) + seq!['0'] =~= zeros((k + 1) as nat));
        assert((trim_zeros(s.drop_last()) + zeros(k)) + seq!['0'] =~= trim_zeros(s.drop_last())
            + zeros((k + 1) as nat));
    }
}

// ---------------------------------------------------------------------------
// Lemmas behind the trailing-zero trimming loop.
// ---------------------------------------------------------------------------

proof fn lemma_trim_step(v: nat, w: nat)
    requires
        v % 10 == 0,
        w > 1,
        dec_rep(v).len() <= w,
    ensures
        dec_rep(v / 10).len() <= w - 1,
        trim_zeros(zero_pad(v, w)) == trim_zeros(zero_pad(v / 10, (w - 1) as nat)),
{
    lemma_dec_len(v);
    lemma_dec_len(v / 10);
    if v == 0 {
        assert(zero_pad(0, w).last() == '0');
        assert(zero_pad(0, w).drop_last() =~= zero_pad(0, (w - 1) as nat));
    } else {
        assert(v >= 10);
        assert(dec_rep(v) == dec_rep(v / 10) + seq![digit_char((v % 10) as int)]);
        assert(zero_pad(v, w).last() == '0');
        assert(zero_pad(v, w).drop_last() =~= zero_pad(v / 10, (w - 1) as nat));
    }
    assert(zero_pad(v, w).len() >= 2) by {
        lemma_zero_pad_digits(v, w);
    }
}

proof fn lemma_trim_done(v: nat, w: nat)
    requires
        1 <= w,
        dec_rep(v).len() <= w,
        v % 10 != 0 || w == 1,
    ensures
        trim_zeros(zero_pad(v, w)) == zero_pad(v, w),
{
    lemma_dec_len(v);
    if v % 10 == 0 {
        // Then w == 1, so the rendering is the single digit `0`.
        assert(v < 10);
        assert(v == 0);
        assert(zero_pad(v, w).len() == 1);
    } else {
        assert(zero_pad(v, w).last() == digit_char((v % 10) as int));
        assert(zero_pad(v, w).last() != '0');
    }
}

// ---------------------------------------------------------------------------
// Executable rendering.
// ---------------------------------------------------------------------------

fn append_digit(d: u64, out: &mut String)
    requires
        d < 10,
    ensures
        final(out)@ == old(out)@ + seq![digit_char(d as int)],
{
    if d == 0 {
        out.append("0");
        proof {
            reveal_strlit("0");
            assert("0"@ =~= seq![digit_char(0int)]);
        }
    } else if d == 1 {
        out.append("1");
        proof {
            reveal_strlit("1");
            assert("1"@ =~= seq![digit_char(1int)]);
        }
    } else if d == 2 {
        out.append("2");
        proof {
            reveal_strlit("2");
            assert("2"@ =~= seq![digit_char(2int)]);
        }
    } else if d == 3 {
        out.append("3");
        proof {
            reveal_strlit("3");
            assert("3"@ =~= seq![digit_char(3int)]);
        }
    } else if d == 4 {
        out.append("4");
        proof {
            reveal_strlit("4");
            assert("4"@ =~= seq![digit_char(4int)]);
        }
    } else if d == 5 {
        out.append("5");
        proof {
            reveal_strlit("5");
            assert("5"@ =~= seq![digit_char(5int)]);
        }
    } else if d == 6 {
        out.append("6");
        proof {
            reveal_strlit("6");
            assert("6"@ =~= seq![digit_char(6int)]);
        }
    } else if d == 7 {
        out.append("7");
        proof {
            reveal_strlit("7");
            assert("7"@ =~= seq![digit_char(7int)]);
        }
    } else if d == 8 {
        out.append("8");
        proof {
            reveal_strlit("8");
            assert("8"@ =~= seq![digit_char(8int)]);
        }
    } else {
        out.append("9");
        proof {
            reveal_strlit("9");
            assert("9"@ =~= seq![digit_char(9int)]);
        }
    }
}

fn append_dec(n: u64, out: &mut String)
    ensures
        final(out)@ == old(out)@ + dec_rep(n as nat),
    decreases n,
{
    if n >= 10 {
        append_dec(n / 10, out);
    }
    append_digit(n % 10, out);
    proof {
        if n >= 10 {
            assert(old(out)@ + dec_rep(n as nat) =~= (old(out)@ + dec_rep((n / 10) as nat)) + seq![
                digit_char((n % 10) as int),
            ]);
        }
    }
}

fn append_zeros(k: usize, out: &mut String)
    ensures
        final(out)@ == old(out)@ + zeros(k as nat),
{
    let mut i: usize = 0;
    while i < k
        invariant
            i <= k,
            out@ == old(out)@ + zeros(i as nat),
        decreases k - i,
    {
        out.append("0");
        proof {
            reveal_strlit("0");
            assert(old(out)@ + zeros(i as nat) + "0"@ =~= old(out)@ + zeros((i + 1) as nat));
        }
        i = i + 1;
    }
    proof {
        assert(out@ =~= old(out)@ + zeros(k as nat));
    }
}

fn append_spaces(k: usize, out: &mut String)
    ensures
        final(out)@ == old(out)@ + spaces(k as nat),
{
    let mut i: usize = 0;
    while i < k
        invariant
            i <= k,
            out@ == old(out)@ + spaces(i as nat),
        decreases k - i,
    {
        out.append(" ");
        proof {
            reveal_strlit(" ");
            assert(old(out)@ + spaces(i as nat) + " "@ =~= old(out)@ + spaces((i + 1) as nat));
        }
        i = i + 1;
    }
    proof {
        assert(out@ =~= old(out)@ + spaces(k as nat));
    }
}

fn dec_len_u32(v: u32) -> (l: usize)
    ensures
        l == dec_rep(v as nat).len(),
{
    proof {
        lemma_dec_len_ranges(v as nat);
    }
    if v < 10 {
        1
    } else if v < 100 {
        2
    } else if v < 1000 {
        3
    } else if v < 10000 {
        4
    } else if v < 100_000 {
        5
    } else if v < 1_000_000 {
        6
    } else if v < 10_000_000 {
        7
    } else if v < 100_000_000 {
        8
    } else if v < 1_000_000_000 {
        9
    } else {
        10
    }
}

fn append_zero_pad3(m: u32, out: &mut String)
    requires
        m < 1000,
    ensures
        final(out)@ == old(out)@ + zero_pad(m as nat, 3),
{
    proof {
        lemma_dec_len_ranges(m as nat);
    }
    let l = dec_len_u32(m);
    if l < 3 {
        append_zeros(3 - l, out);
    }
    append_dec(m as u64, out);
    proof {
        if l < 3 {
            assert(old(out)@ + zeros((3 - l) as nat) + dec_rep(m as nat) =~= old(out)@ + zero_pad(
                m as nat,
                3,
            ));
        }
    }
}

fn append_posix_frac(nanos: u32, out: &mut String)
    requires
        nanos < NANOS_PER_SEC,
    ensures
        final(out)@ == old(out)@ + posix_frac(nanos as nat),
{
    let mut v: u32 = nanos;
    let mut w: usize = 9;
    proof {
        lemma_dec_len_ranges(nanos as nat);
    }
    while v % 10 == 0 && w > 1
        invariant
            1 <= w <= 9,
            v < NANOS_PER_SEC,
            dec_rep(v as nat).len() <= w as nat,
            trim_zeros(zero_pad(v as nat, w as nat)) == posix_frac(nanos as nat),
        decreases w,
    {
        proof {
            lemma_trim_step(v as nat, w as nat);
        }
        v = v / 10;
        w = w - 1;
    }
    proof {
        lemma_trim_done(v as nat, w as nat);
    }
    let l = dec_len_u32(v);
    if l < w {
        append_zeros(w - l, out);
    }
    append_dec(v as u64, out);
    proof {
        if l < w {
            assert(old(out)@ + zeros((w - l) as nat) + dec_rep(v as nat) =~= old(out)@ + zero_pad(
                v as nat,
                w as nat,
            ));
        } else {
            assert(zero_pad(v as nat, w as nat) == dec_rep(v as nat));
        }
    }
}

/// One line of the POSIX layout.
pub fn format_posix_line(label: &str, span: &TimeSpan) -> (r: String)
    requires
        span.wf(),
    ensures
        r@ == posix_line(label@, span.secs as nat, span.nanos as nat),
{
    let mut s = label.to_owned();
    s.append(" ");
    append_dec(span.secs, &mut s);
    s.append(".");
    append_posix_frac(span.nanos, &mut s);
    s.append("s");
    s
}

/// One line of the human layout.
pub fn format_human_line(label: &str, span: &TimeSpan) -> (r: String)
    requires
        span.wf(),
    ensures
        r@ == human_line(label@, span.secs as nat, span.nanos as nat),
{
    let mut s = label.to_owned();
    s.append(":");
    let l = label.unicode_len();
    if l < 7 {
        append_spaces(7 - l, &mut s);
    }
    append_dec(span.secs / 60, &mut s);
    s.append("m");
    append_dec(span.secs % 60, &mut s);
    s.append(".");
    let millis = span.nanos / 1_000_000;
    append_zero_pad3(millis, &mut s);
    s.append("s");
    s
}

/// One report line in the layout the `posix` flag selects.
pub fn format_report_line(label: &str, span: &TimeSpan, posix: bool) -> (r: String)
    requires
        span.wf(),
    ensures
        r@ == report_line(label@, *span, posix),
{
    if posix {
        format_posix_line(label, span)
    } else {
        format_human_line(label, span)
    }
}

/// The full timing report: the `real`, `user` and `sys` lines, in that
/// order, each in the selected layout. The report does not depend on how
/// the child ended; it is rendered for every run that was timed.
pub fn render_report(t: &Timing, posix: bool) -> (lines: Vec<String>)
    requires
        t.wf(),
    ensures
        lines.len() == 3,
        lines@[0]@ == report_line("real"@, t.real, posix),
        lines@[1]@ == report_line("user"@, t.user, posix),
        lines@[2]@ == report_line("sys"@, t.sys, posix),
{
    let mut v: Vec<String> = Vec::new();
    v.push(format_report_line("real", &t.real, posix));
    v.push(format_report_line("user", &t.user, posix));
    v.push(format_report_line("sys", &t.sys, posix));
    v
}

// ---------------------------------------------------------------------------
// Shape of the rendered lines.
// ---------------------------------------------------------------------------

/// Every POSIX line is the label, one space, a nonempty run of decimal
/// digits, a dot, a nonempty run of decimal digits, and a final `s`.
pub proof fn lemma_posix_line_shape(label: Seq<char>, secs: nat, nanos: nat)
    ensures
        posix_line(label, secs, nanos) == label + " "@ + dec_rep(secs) + "."@ + posix_frac(nanos)
            + "s"@,
        all_digits(dec_rep(secs)),
        dec_rep(secs).len() >= 1,
        all_digits(posix_frac(nanos)),
        posix_frac(nanos).len() >= 1,
{
    lemma_dec_all_digits(secs);
    lemma_dec_len(secs);
    lemma_zero_pad_digits(nanos, 9);
    lemma_trim_digits(zero_pad(nanos, 9));
}

/// Every human line is the padded label, a nonempty run of digits (the
/// minutes), `m`, a nonempty run of digits (the whole seconds), a dot,
/// exactly three digits (the milliseconds), and a final `s`.
pub proof fn lemma_human_line_shape(label: Seq<char>, secs: nat, nanos: nat)
    requires
        nanos < NANOS_PER_SEC,
    ensures
        human_line(label, secs, nanos) == human_label(label) + dec_rep(secs / 60) + "m"@ + dec_rep(
            secs % 60,
        ) + "."@ + zero_pad(nanos / 1_000_000, 3) + "s"@,
        all_digits(dec_rep(secs / 60)),
        dec_rep(secs / 60).len() >= 1,
        all_digits(dec_rep(secs % 60)),
        dec_rep(secs % 60).len() >= 1,
        all_digits(zero_pad(nanos / 1_000_000, 3)),
        zero_pad(nanos / 1_000_000, 3).len() == 3,
{
    lemma_dec_all_digits(secs / 60);
    lemma_dec_len(secs / 60);
    lemma_dec_all_digits(secs % 60);
    lemma_dec_len(secs % 60);
    lemma_zero_pad_digits(nanos / 1_000_000, 3);
    lemma_dec_len_ranges(nanos / 1_000_000);
}

} // verus!
