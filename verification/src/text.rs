//! Building lines of text: joining parts and writing bytes in decimal.

use vstd::prelude::*;
use vstd::string::StringExecFns;

verus! {

/// The views of the given strings, in order.
pub open spec fn views(parts: Seq<String>) -> Seq<Seq<char>> {
    parts.map_values(|part: String| part@)
}

/// The parts written one after the other, with `separator` between each two
/// neighbours; empty when there is no part.
pub open spec fn joined(parts: Seq<Seq<char>>, separator: Seq<char>) -> Seq<char>
    decreases parts.len(),
{
    if parts.len() == 0 {
        Seq::empty()
    } else if parts.len() == 1 {
        parts[0]
    } else {
        joined(parts.drop_last(), separator) + separator + parts.last()
    }
}

/// Joins `parts` with `separator` between each two neighbours.
pub fn join(parts: &Vec<String>, separator: &str) -> (line: String)
    ensures
        line@ == joined(views(parts@), separator@),
{
    let mut line = String::new();
    let ghost all = views(parts@);
    let mut i: usize = 0;
    while i < parts.len()
        invariant
            i <= parts.len(),
            all == views(parts@),
            line@ == joined(all.take(i as int), separator@),
        decreases parts.len() - i,
    {
        if i > 0 {
            line.append(separator);
        }
        line.append(parts[i].as_str());
        proof {
            let next = all.take(i + 1);
            assert(next.drop_last() =~= all.take(i as int));
            assert(next.last() == parts@[i as int]@);
            if i == 0 {
                assert(line@ =~= next[0]);
            }
        }
        i += 1;
    }
    assert(all.take(parts.len() as int) =~= all);
    line
}

/// The character that writes the digit `d`.
pub open spec fn digit_char(d: int) -> char {
    if d == 0 {
        '0'
    } else if d == 1 {
        '1'
    } else if d == 2 {
        '2'
    } else if d == 3 {
        '3'
    } else if d == 4 {
        '4'
    } else if d == 5 {
        '5'
    } else if d == 6 {
        '6'
    } else if d == 7 {
        '7'
    } else if d == 8 {
        '8'
    } else {
        '9'
    }
}

/// The decimal notation of `n`, without leading zeros.
pub open spec fn decimal(n: nat) -> Seq<char>
    decreases n,
{
    if n < 10 {
        seq![digit_char(n as int)]
    } else {
        decimal(n / 10).push(digit_char((n % 10) as int))
    }
}

/// The decimal notations of the given bytes, in order.
pub open spec fn decimals(bytes: Seq<u8>) -> Seq<Seq<char>> {
    bytes.map_values(|byte: u8| decimal(byte as nat))
}

/// The bytes as a bracketed list of decimal numbers separated by a comma
/// and a space, such as `[1, 20, 255]`.
pub open spec fn byte_list(bytes: Seq<u8>) -> Seq<char> {
    seq!['['] + joined(decimals(bytes), seq![',', ' ']) + seq![']']
}

fn digit_str(d: u8) -> (digit: &'static str)
    requires
        d < 10,
    ensures
        digit@ == seq![digit_char(d as int)],
{
    proof {
        reveal_strlit("0");
        reveal_strlit("1");
        reveal_strlit("2");
        reveal_strlit("3");
        reveal_strlit("4");
        reveal_strlit("5");
        reveal_strlit("6");
        reveal_strlit("7");
        reveal_strlit("8");
        reveal_strlit("9");
    }
    let digit = if d == 0 {
        "0"
    } else if d == 1 {
        "1"
    } else if d == 2 {
        "2"
    } else if d == 3 {
        "3"
    } else if d == 4 {
        "4"
    } else if d == 5 {
        "5"
    } else if d == 6 {
        "6"
    } else if d == 7 {
        "7"
    } else if d == 8 {
        "8"
    } else {
        "9"
    };
    assert(digit@ =~= seq![digit_char(d as int)]);
    digit
}

/// Writes `byte` in decimal, without leading zeros.
pub fn format_byte(byte: u8) -> (text: String)
    ensures
        text@ == decimal(byte as nat),
{
    let mut text = String::new();
    if byte >= 100 {
        text.append(digit_str(byte / 100));
    }
    if byte >= 10 {
        text.append(digit_str((byte / 10) % 10));
    }
    text.append(digit_str(byte % 10));
    proof {
        reveal_with_fuel(decimal, 3);
        assert(text@ =~= decimal(byte as nat));
    }
    text
}

/// Writes `bytes` as a bracketed list of decimal numbers.
pub fn format_bytes(bytes: &Vec<u8>) -> (text: String)
    ensures
        text@ == byte_list(bytes@),
{
    let mut parts: Vec<String> = Vec::new();
    let mut i: usize = 0;
    while i < bytes.len()
        invariant
            i <= bytes.len(),
            views(parts@) == decimals(bytes@.take(i as int)),
        decreases bytes.len() - i,
    {
        let ghost before = parts@;
        parts.push(format_byte(bytes[i]));
        proof {
            let done = bytes@.take(i as int);
            let next = bytes@.take(i + 1);
            assert(views(before).len() == done.len());
            assert forall|k: int| 0 <= k < next.len() implies views(parts@)[k] == decimals(
                next,
            )[k] by {
                if k < i {
                    assert(views(before)[k] == decimals(done)[k]);
                    assert(parts@[k] == before[k]);
                    assert(next[k] == done[k]);
                }
            }
            assert(views(parts@) =~= decimals(next));
        }
        i += 1;
    }
    assert(bytes@.take(bytes.len() as int) =~= bytes@);
    proof {
        reveal_strlit("[");
        reveal_strlit(", ");
        reveal_strlit("]");
    }
    let mut text = String::from_str("[");
    let list = join(&parts, ", ");
    text.append(list.as_str());
    text.append("]");
    assert(", "@ =~= seq![',', ' ']);
    assert(text@ =~= byte_list(bytes@));
    text
}

/// What the `Debug` form of a string writes: the text between double quotes,
/// with quotes, backslashes and unprintable characters escaped.
pub uninterp spec fn debug_quoted(text: Seq<char>) -> Seq<char>;

/// Formats `text` with `{:?}`, which calls std's `Debug` for `str`. Trusted:
/// the result is the one named [`debug_quoted`] for this text.
#[verifier::external_body]
pub(crate) fn quote(text: &str) -> (quoted: String)
    ensures
        quoted@ == debug_quoted(text@),
{
    format!("{:?}", text)
}

} // verus!
