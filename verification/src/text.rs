//! Text rendering shared by the notifiers: decimal numbers and bullet listings.
use vstd::prelude::*;
use vstd::string::*;

verus! {

/// The character that writes the decimal digit `d`.
pub open spec fn digit_char(d: int) -> char {
    if d == 0 {
        '0'
    } else if d == 1 {
        '1'
    } else if d == 2 {
        '2'
    } else if d == 3 {
        '3'
    } else if d == 4 {
        '4'
    } else if d == 5 {
        '5'
    } else if d == 6 {
        '6'
    } else if d == 7 {
        '7'
    } else if d == 8 {
        '8'
    } else {
        '9'
    }
}

/// Decimal digits of a natural number, most significant first, without leading zeros.
pub open spec fn nat_text(n: nat) -> Seq<char>
    decreases n,
{
    if n < 10 {
        seq![digit_char(n as int)]
    } else {
        nat_text(n / 10).push(digit_char((n % 10) as int))
    }
}

/// Decimal rendering of an integer: a minus sign for negatives, then the digits.
pub open spec fn int_text(n: int) -> Seq<char> {
    if n < 0 {
        seq!['-'] + nat_text((-n) as nat)
    } else {
        nat_text(n as nat)
    }
}

/// One bullet line: the key and the value, each in backticks.
pub open spec fn bullet_line(key: Seq<char>, value: Seq<char>) -> Seq<char> {
    "• `"@ + key + "` : `"@ + value + "`"@
}

/// The bullet lines of `entries` in order, joined by line feeds.
pub open spec fn bullet_lines(entries: Seq<(String, String)>) -> Seq<char>
    decreases entries.len(),
{
    if entries.len() == 0 {
        Seq::empty()
    } else if entries.len() == 1 {
        bullet_line(entries[0].0@, entries[0].1@)
    } else {
        bullet_lines(entries.drop_last()) + "\n"@ + bullet_line(
            entries.last().0@,
            entries.last().1@,
        )
    }
}

/// A titled listing: the heading, then the bullet lines, or `<None>` where
/// the lines come out empty.
pub open spec fn listing(heading: Seq<char>, entries: Seq<(String, String)>) -> Seq<char> {
    let body = bullet_lines(entries);
    heading + (if body.len() == 0 {
        "<None>"@
    } else {
        body
    })
}

/// `text` if present, else `fallback`.
pub open spec fn text_or(text: Option<String>, fallback: Seq<char>) -> Seq<char> {
    match text {
        Some(t) => t@,
        None => fallback,
    }
}

fn digit_str(d: u64) -> (s: &'static str)
    requires
        d < 10,
    ensures
        s@ == seq![digit_char(d as int)],
{
    proof {
        reveal_strlit("0");
        reveal_strlit("1");
        reveal_strlit("2");
        reveal_strlit("3");
        reveal_strlit("4");
        reveal_strlit("5");
        reveal_strlit("6");
        reveal_strlit("7");
        reveal_strlit("8");
        reveal_strlit("9");
    }
    let s = if d == 0 {
        "0"
    } else if d == 1 {
        "1"
    } else if d == 2 {
        "2"
    } else if d == 3 {
        "3"
    } else if d == 4 {
        "4"
    } else if d == 5 {
        "5"
    } else if d == 6 {
        "6"
    } else if d == 7 {
        "7"
    } else if d == 8 {
        "8"
    } else {
        "9"
    };
    assert(s@ =~= seq![digit_char(d as int)]);
    s
}

fn append_nat(out: &mut String, n: u64)
    ensures
        final(out)@ == old(out)@ + nat_text(n as nat),
    decreases n,
{
    if n >= 10 {
        append_nat(out, n / 10);
    }
    out.append(digit_str(n % 10));
    assert(out@ =~= old(out)@ + nat_text(n as nat));
}

/// Renders `n` in decimal.
pub fn decimal(n: i32) -> (s: String)
    ensures
        s@ == int_text(n as int),
{
    let mut s = String::new();
    if n < 0 {
        proof {
            reveal_strlit("-");
        }
        s.append("-");
        let wide: i64 = n as i64;
        let magnitude: u64 = (0 - wide) as u64;
        append_nat(&mut s, magnitude);
        assert(s@ =~= int_text(n as int));
    } else {
        append_nat(&mut s, n as u64);
        assert(s@ =~= int_text(n as int));
    }
    s
}

/// Renders `entries` as bullet lines joined by line feeds.
pub fn render_bullets(entries: &Vec<(String, String)>) -> (out: String)
    ensures
        out@ == bullet_lines(entries@),
{
    let mut out = String::new();
    let mut i: usize = 0;
    while i < entries.len()
        invariant
            i <= entries.len(),
            out@ == bullet_lines(entries@.take(i as int)),
        decreases entries.len() - i,
    {
        let ghost before = out@;
        if i > 0 {
            out.append("\n");
        }
        out.append("• `");
        out.append(entries[i].0.as_str());
        out.append("` : `");
        out.append(entries[i].1.as_str());
        out.append("`");
        proof {
            let next = entries@.take(i as int + 1);
            assert(next.drop_last() =~= entries@.take(i as int));
            assert(next.last() == entries@[i as int]);
            if i == 0 {
                assert(next[0] == entries@[0]);
                assert(out@ =~= bullet_line(entries@[0].0@, entries@[0].1@));
            } else {
                assert(out@ =~= before + "\n"@ + bullet_line(
                    entries@[i as int].0@,
                    entries@[i as int].1@,
                ));
            }
        }
        i += 1;
    }
    assert(entries@.take(i as int) =~= entries@);
    out
}

/// Renders a titled listing of `entries`.
pub fn render_listing(heading: &str, entries: &Vec<(String, String)>) -> (out: String)
    ensures
        out@ == listing(heading@, entries@),
{
    let body = render_bullets(entries);
    let mut out = String::from_str(heading);
    if body.as_str().is_empty() {
        out.append("<None>");
    } else {
        out.append(body.as_str());
    }
    out
}

/// Copies `text`, or `fallback` where it is absent.
pub fn text_or_else(text: &Option<String>, fallback: &str) -> (out: String)
    ensures
        out@ == text_or(*text, fallback@),
{
    match text {
        Some(t) => t.clone(),
        None => String::from_str(fallback),
    }
}

} // verus!
