use vstd::prelude::*;

verus! {

/// The character that writes the digit `d`.
pub open spec fn digit_char(d: nat) -> char {
    if d == 0 {
        '0'
    } else if d == 1 {
        '1'
    } else if d == 2 {
        '2'
    } else if d == 3 {
        '3'
    } else if d == 4 {
        '4'
    } else if d == 5 {
        '5'
    } else if d == 6 {
        '6'
    } else if d == 7 {
        '7'
    } else if d == 8 {
        '8'
    } else {
        '9'
    }
}

/// `n` written in decimal, without sign or leading zeros.
pub open spec fn decimal_text(n: nat) -> Seq<char>
    decreases n,
{
    if n < 10 {
        seq![digit_char(n)]
    } else {
        decimal_text(n / 10).push(digit_char(n % 10))
    }
}

/// A span of `secs` seconds written as hours, minutes and seconds, each in
/// decimal and without padding, with colons between them.
pub open spec fn show_time_text(secs: nat) -> Seq<char> {
    decimal_text(secs / 60 / 60) + seq![':'] + decimal_text((secs / 60) % 60) + seq![':']
        + decimal_text(secs % 60)
}

/// The caption that shows the time left, around the already printed time.
pub open spec fn time_left_text(printed: Seq<char>) -> Seq<char> {
    "Time Left: "@ + printed + "s"@
}

/// `n` in decimal, with a zero in front where it has one digit only.
pub open spec fn two_digits(n: nat) -> Seq<char> {
    if n < 10 {
        seq!['0'] + decimal_text(n)
    } else {
        decimal_text(n)
    }
}

/// A span of `secs` seconds as hours, minutes and seconds, each of at least
/// two digits, with colons between them. The hours are counted in sixteen
/// bits and start again from zero beyond that.
pub open spec fn hms_text(secs: nat) -> Seq<char> {
    two_digits((secs / 3600) % 65536) + seq![':'] + two_digits((secs / 60) % 60) + seq![':']
        + two_digits(secs % 60)
}

/// Calls `print_duration::print_duration` on a span of `secs` whole seconds
/// with the field range `0..3`, which that function accepts for every span.
/// It prints the first three of its fields: the hours, which it holds in
/// sixteen bits, the minutes and the seconds, each padded with zeros to two
/// digits, joined by colons.
#[verifier::external_body]
fn print_hms(secs: u64) -> (printed: String)
    ensures
        printed@ == hms_text(secs as nat),
{
    print_duration::print_duration(std::time::Duration::from_secs(secs), 0..3)
}

/// The one-character text of the digit `d`.
fn digit_str(d: u32) -> (s: &'static str)
    requires
        d < 10,
    ensures
        s@ == seq![digit_char(d as nat)],
{
    proof {
        reveal_strlit("0");
        reveal_strlit("1");
        reveal_strlit("2");
        reveal_strlit("3");
        reveal_strlit("4");
        reveal_strlit("5");
        reveal_strlit("6");
        reveal_strlit("7");
        reveal_strlit("8");
        reveal_strlit("9");
    }
    let s = if d == 0 {
        "0"
    } else if d == 1 {
        "1"
    } else if d == 2 {
        "2"
    } else if d == 3 {
        "3"
    } else if d == 4 {
        "4"
    } else if d == 5 {
        "5"
    } else if d == 6 {
        "6"
    } else if d == 7 {
        "7"
    } else if d == 8 {
        "8"
    } else {
        "9"
    };
    assert(s@ =~= seq![digit_char(d as nat)]);
    s
}

/// `n` written in decimal.
pub fn decimal(n: u32) -> (s: String)
    ensures
        s@ == decimal_text(n as nat),
    decreases n,
{
    if n < 10 {
        String::from_str(digit_str(n))
    } else {
        let s = decimal(n / 10).concat(digit_str(n % 10));
        assert(s@ =~= decimal_text((n / 10) as nat).push(digit_char((n % 10) as nat)));
        s
    }
}

/// A span of `secs` seconds as `hours:minutes:seconds`, without padding.
pub fn show_time(secs: u32) -> (s: String)
    ensures
        s@ == show_time_text(secs as nat),
{
    proof {
        reveal_strlit(":");
    }
    let seconds: u32 = secs % 60;
    let minutes: u32 = (secs / 60) % 60;
    let hours: u32 = (secs / 60) / 60;
    let mut s = decimal(hours);
    s.append(":");
    s.append(decimal(minutes).as_str());
    s.append(":");
    s.append(decimal(seconds).as_str());
    assert(":"@ =~= seq![':']);
    s
}

/// The caption that shows the time left, given the printed time.
pub fn time_left_caption(printed: &str) -> (s: String)
    ensures
        s@ == time_left_text(printed@),
{
    let mut s = String::from_str("Time Left: ");
    s.append(printed);
    s.append("s");
    s
}

/// The caption that shows `secs` seconds as the time left, with the time
/// printed as hours, minutes and seconds.
pub fn time_left_label(secs: u32) -> (s: String)
    ensures
        s@ == time_left_text(hms_text(secs as nat)),
{
    let printed = print_hms(secs as u64);
    time_left_caption(printed.as_str())
}

} // verus!
