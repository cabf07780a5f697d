//! Shared utility functions.

use vstd::prelude::*;

verus! {

/// The ten decimal digits, in order.
pub open spec fn digit_chars() -> Seq<char> {
    seq!['0', '1', '2', '3', '4', '5', '6', '7', '8', '9']
}

/// The character of a single decimal digit `d` (`0 <= d < 10`).
pub open spec fn digit_char(d: nat) -> char {
    digit_chars()[d as int]
}

/// The decimal representation of `n`, without leading zeros.
pub open spec fn decimal(n: nat) -> Seq<char>
    decreases n,
{
    if n < 10 {
        seq![digit_char(n)]
    } else {
        decimal(n / 10).push(digit_char(n % 10))
    }
}

/// `n` in decimal, padded with zeros to at least two digits (`{:02}`).
pub open spec fn two_digits(n: nat) -> Seq<char> {
    if n < 10 {
        seq!['0', digit_char(n)]
    } else {
        decimal(n)
    }
}

/// `MM:SS` when the duration is under an hour, `HH:MM:SS` otherwise.
pub open spec fn clock_text(total: nat) -> Seq<char> {
    let hours = total / 3600;
    let minutes = (total % 3600) / 60;
    let secs = total % 60;
    if hours > 0 {
        two_digits(hours) + seq![':'] + two_digits(minutes) + seq![':'] + two_digits(secs)
    } else {
        two_digits(minutes) + seq![':'] + two_digits(secs)
    }
}

/// The value of a decimal digit character, read by its code point.
pub open spec fn digit_value(c: char) -> int {
    (c as int) - ('0' as int)
}

/// `c` is one of `'0'..='9'`.
pub open spec fn is_digit(c: char) -> bool {
    '0' as int <= c as int <= '9' as int
}

/// Every character of `s` is a decimal digit.
pub open spec fn all_digits(s: Seq<char>) -> bool {
    forall|i: int| 0 <= i < s.len() ==> is_digit(#[trigger] s[i])
}

/// `s` read back as a base-10 number.
pub open spec fn parse_decimal(s: Seq<char>) -> int
    decreases s.len(),
{
    if s.len() == 0 {
        0
    } else {
        parse_decimal(s.drop_last()) * 10 + digit_value(s.last())
    }
}

proof fn lemma_digit_char(d: nat)
    requires
        d < 10,
    ensures
        is_digit(digit_char(d)),
        digit_value(digit_char(d)) == d,
{
    assert(digit_chars()[0] == '0');
    assert(digit_chars()[1] == '1');
    assert(digit_chars()[2] == '2');
    assert(digit_chars()[3] == '3');
    assert(digit_chars()[4] == '4');
    assert(digit_chars()[5] == '5');
    assert(digit_chars()[6] == '6');
    assert(digit_chars()[7] == '7');
    assert(digit_chars()[8] == '8');
    assert(digit_chars()[9] == '9');
}

proof fn lemma_decimal(n: nat)
    ensures
        all_digits(decimal(n)),
        parse_decimal(decimal(n)) == n,
        n < 10 ==> decimal(n).len() == 1,
        10 <= n < 100 ==> decimal(n).len() == 2,
        decimal(n).len() >= 1,
    decreases n,
{
    if n < 10 {
        lemma_digit_char(n);
        let s = decimal(n);
        assert(s.drop_last() =~= Seq::<char>::empty());
        assert(parse_decimal(Seq::<char>::empty()) == 0);
        assert(s.last() == digit_char(n));
        assert(parse_decimal(s) == parse_decimal(s.drop_last()) * 10 + digit_value(s.last()));
    } else {
        let q: nat = n / 10;
        let r: nat = n % 10;
        lemma_decimal(q);
        lemma_digit_char(r);
        let s = decimal(n);
        assert(s == decimal(q).push(digit_char(r)));
        assert(s.drop_last() =~= decimal(q));
        assert(n == q * 10 + r);
        assert(s.last() == digit_char(r));
        assert(parse_decimal(s) == parse_decimal(s.drop_last()) * 10 + digit_value(s.last()));
        assert(parse_decimal(s) == q * 10 + r);
        assert(all_digits(s)) by {
            assert forall|i: int| 0 <= i < s.len() implies is_digit(#[trigger] s[i]) by {
                if i < decimal(q).len() {
                    assert(s[i] == decimal(q)[i]);
                }
            }
        }
        if n < 100 {
            assert(q < 10);
        }
    }
}

proof fn lemma_two_digits(n: nat)
    ensures
        all_digits(two_digits(n)),
        parse_decimal(two_digits(n)) == n,
        n < 100 ==> two_digits(n).len() == 2,
        two_digits(n).len() >= 2,
{
    if n < 10 {
        lemma_digit_char(n);
        let s = two_digits(n);
        assert(s.drop_last() =~= seq!['0']);
        assert(seq!['0'].drop_last() =~= Seq::<char>::empty());
        assert(digit_value('0') == 0);
        assert(is_digit('0'));
        assert(parse_decimal(Seq::<char>::empty()) == 0);
        assert(seq!['0'].last() == '0');
        assert(parse_decimal(seq!['0']) == parse_decimal(seq!['0'].drop_last()) * 10 + digit_value(
            '0',
        ));
        assert(parse_decimal(seq!['0']) == 0);
        assert(s.last() == digit_char(n));
        assert(parse_decimal(s) == parse_decimal(s.drop_last()) * 10 + digit_value(s.last()));
    } else {
        lemma_decimal(n);
        if n >= 100 {
            lemma_decimal(n / 10);
            assert(decimal(n) == decimal(n / 10).push(digit_char(n % 10)));
        }
    }
}

/// Each field of a formatted duration reads back as its value: under an hour
/// the text is `MM:SS` with the minutes `(t % 3600) / 60` and the seconds
/// `t % 60`; from one hour on it is `H..:MM:SS`, the hours `t / 3600` taking at
/// least two digits. Every field is made of decimal digits only.
pub proof fn lemma_clock_fields(t: nat)
    ensures
        t < 3600 ==> {
            let s = clock_text(t);
            &&& s.len() == 5
            &&& s[2] == ':'
            &&& all_digits(s.take(2)) && parse_decimal(s.take(2)) == (t % 3600) / 60
            &&& all_digits(s.skip(3)) && parse_decimal(s.skip(3)) == t % 60
        },
        t >= 3600 ==> {
            let s = clock_text(t);
            let h = s.len() - 6;
            &&& h >= 2
            &&& s[h] == ':'
            &&& s[h + 3] == ':'
            &&& all_digits(s.take(h)) && parse_decimal(s.take(h)) == t / 3600
            &&& all_digits(s.subrange(h + 1, h + 3)) && parse_decimal(s.subrange(h + 1, h + 3)) == (t
                % 3600) / 60
            &&& all_digits(s.skip(h + 4)) && parse_decimal(s.skip(h + 4)) == t % 60
        },
{
    let hours: nat = t / 3600;
    let minutes: nat = (t % 3600) / 60;
    let secs: nat = t % 60;
    lemma_two_digits(hours);
    lemma_two_digits(minutes);
    lemma_two_digits(secs);
    let s = clock_text(t);
    if t < 3600 {
        assert(s == two_digits(minutes) + seq![':'] + two_digits(secs));
        assert(s.take(2) =~= two_digits(minutes));
        assert(s.skip(3) =~= two_digits(secs));
    } else {
        let hd = two_digits(hours);
        assert(s == hd + seq![':'] + two_digits(minutes) + seq![':'] + two_digits(secs));
        let h = hd.len() as int;
        assert(s.len() - 6 == h);
        assert(s.take(h) =~= hd);
        assert(s.subrange(h + 1, h + 3) =~= two_digits(minutes));
        assert(s.skip(h + 4) =~= two_digits(secs));
    }
}

fn digit_str(d: u32) -> (s: &'static str)
    requires
        d < 10,
    ensures
        s@ == seq![digit_char(d as nat)],
{
    if d == 0 {
        proof { reveal_strlit("0"); }
        "0"
    } else if d == 1 {
        proof { reveal_strlit("1"); }
        "1"
    } else if d == 2 {
        proof { reveal_strlit("2"); }
        "2"
    } else if d == 3 {
        proof { reveal_strlit("3"); }
        "3"
    } else if d == 4 {
        proof { reveal_strlit("4"); }
        "4"
    } else if d == 5 {
        proof { reveal_strlit("5"); }
        "5"
    } else if d == 6 {
        proof { reveal_strlit("6"); }
        "6"
    } else if d == 7 {
        proof { reveal_strlit("7"); }
        "7"
    } else if d == 8 {
        proof { reveal_strlit("8"); }
        "8"
    } else {
        proof { reveal_strlit("9"); }
        "9"
    }
}

fn append_decimal(out: &mut String, n: u32)
    ensures
        final(out)@ == old(out)@ + decimal(n as nat),
    decreases n,
{
    if n >= 10 {
        append_decimal(out, n / 10);
    }
    out.append(digit_str(n % 10));
    proof {
        if n >= 10 {
            assert(decimal(n as nat) == decimal((n / 10) as nat).push(digit_char((n % 10) as nat)));
        }
    }
}

fn append_two_digits(out: &mut String, n: u32)
    ensures
        final(out)@ == old(out)@ + two_digits(n as nat),
{
    if n < 10 {
        out.append(digit_str(0));
        out.append(digit_str(n));
    } else {
        append_decimal(out, n);
    }
}

fn append_colon(out: &mut String)
    ensures
        final(out)@ == old(out)@ + seq![':'],
{
    proof { reveal_strlit(":"); }
    out.append(":");
}

/// Format a whole number of seconds as `MM:SS`, or `HH:MM:SS` from one hour
/// on. Every field has at least two digits; the hours take as many as they
/// need.
pub fn format_seconds(total_seconds: u32) -> (text: String)
    ensures
        text@ == clock_text(total_seconds as nat),
{
    let hours: u32 = total_seconds / 3600;
    let minutes: u32 = (total_seconds % 3600) / 60;
    let secs: u32 = total_seconds % 60;
    let mut text = String::new();
    if hours > 0 {
        append_two_digits(&mut text, hours);
        append_colon(&mut text);
    }
    append_two_digits(&mut text, minutes);
    append_colon(&mut text);
    append_two_digits(&mut text, secs);
    text
}

} // verus!
