//! Decimal rendering, the names under which a tool is searched, and lists
//! of names.

use vstd::prelude::*;
use vstd::string::*;

verus! {

/// The character that stands for the digit `d`.
pub open spec fn digit_char(d: nat) -> char
    recommends
        d < 10,
{
    if d == 0 {
        '0'
    } else if d == 1 {
        '1'
    } else if d == 2 {
        '2'
    } else if d == 3 {
        '3'
    } else if d == 4 {
        '4'
    } else if d == 5 {
        '5'
    } else if d == 6 {
        '6'
    } else if d == 7 {
        '7'
    } else if d == 8 {
        '8'
    } else {
        '9'
    }
}

/// The decimal numeral of `n`, without leading zeros.
pub open spec fn decimal(n: nat) -> Seq<char>
    decreases n,
{
    if n < 10 {
        seq![digit_char(n)]
    } else {
        decimal(n / 10).push(digit_char(n % 10))
    }
}

/// The digit that a character stands for.
pub open spec fn digit_value(c: char) -> nat {
    if c == '1' {
        1
    } else if c == '2' {
        2
    } else if c == '3' {
        3
    } else if c == '4' {
        4
    } else if c == '5' {
        5
    } else if c == '6' {
        6
    } else if c == '7' {
        7
    } else if c == '8' {
        8
    } else if c == '9' {
        9
    } else {
        0
    }
}

/// True for the ten digits.
pub open spec fn is_digit(c: char) -> bool {
    c == '0' || digit_value(c) > 0
}

/// The number that a run of digits stands for.
pub open spec fn numeral_value(s: Seq<char>) -> nat
    decreases s.len(),
{
    if s.len() == 0 {
        0
    } else {
        numeral_value(s.drop_last()) * 10 + digit_value(s.last())
    }
}

/// A decimal numeral is a run of one or more digits that stands for its
/// number; so two numbers with the same numeral are the same.
pub proof fn decimal_reads_back(n: nat)
    ensures
        numeral_value(decimal(n)) == n,
        decimal(n).len() > 0,
        forall|i: int| 0 <= i < decimal(n).len() ==> is_digit(#[trigger] decimal(n)[i]),
    decreases n,
{
    if n < 10 {
        assert(decimal(n).drop_last() =~= Seq::<char>::empty());
        assert(numeral_value(decimal(n).drop_last()) == 0);
    } else {
        decimal_reads_back(n / 10);
        assert(decimal(n).drop_last() =~= decimal(n / 10));
    }
}

/// The versioned name of a tool: the tool's name, a hyphen, the major version.
pub open spec fn versioned_name_of(tool: Seq<char>, major: u64) -> Seq<char> {
    tool.push('-') + decimal(major as nat)
}

/// Two major versions of one tool never share a versioned name.
pub proof fn versioned_names_differ(tool: Seq<char>, a: u64, b: u64)
    requires
        versioned_name_of(tool, a) == versioned_name_of(tool, b),
    ensures
        a == b,
{
    let prefix = tool.push('-');
    let left = versioned_name_of(tool, a);
    let right = versioned_name_of(tool, b);
    assert(left.subrange(prefix.len() as int, left.len() as int) =~= decimal(a as nat));
    assert(right.subrange(prefix.len() as int, right.len() as int) =~= decimal(b as nat));
    decimal_reads_back(a as nat);
    decimal_reads_back(b as nat);
}

/// True where `text` is one of `entries`, letter for letter.
pub open spec fn is_entry(text: Seq<char>, entries: Seq<String>) -> bool {
    exists|i: int| 0 <= i < entries.len() && #[trigger] entries[i]@ == text
}

/// The entries in their order, each one kept where it first occurs and
/// dropped where it occurs again.
pub open spec fn distinct(entries: Seq<String>) -> Seq<String>
    decreases entries.len(),
{
    if entries.len() == 0 {
        Seq::empty()
    } else {
        let earlier = distinct(entries.drop_last());
        if is_entry(entries.last()@, earlier) {
            earlier
        } else {
            earlier.push(entries.last())
        }
    }
}

/// What `distinct` keeps holds no text twice, and holds exactly the texts
/// of the entries it was given.
pub proof fn distinct_keeps_each_once(entries: Seq<String>)
    ensures
        forall|i: int, j: int|
            0 <= i < j < distinct(entries).len() ==> distinct(entries)[i]@ != distinct(
                entries,
            )[j]@,
        forall|text: Seq<char>| is_entry(text, distinct(entries)) == is_entry(text, entries),
    decreases entries.len(),
{
    if entries.len() > 0 {
        let before = entries.drop_last();
        let earlier = distinct(before);
        let last = entries.last();
        distinct_keeps_each_once(before);
        assert forall|text: Seq<char>| is_entry(text, distinct(entries)) == is_entry(
            text,
            entries,
        ) by {
            if is_entry(text, entries) {
                let i = choose|i: int| 0 <= i < entries.len() && entries[i]@ == text;
                if i < before.len() {
                    assert(before[i]@ == text);
                    assert(is_entry(text, before));
                    let k = choose|k: int| 0 <= k < earlier.len() && earlier[k]@ == text;
                    assert(distinct(entries)[k]@ == text);
                } else if !is_entry(last@, earlier) {
                    assert(distinct(entries)[earlier.len() as int]@ == text);
                } else {
                    assert(is_entry(text, earlier));
                }
            }
            if is_entry(text, distinct(entries)) {
                let k = choose|k: int|
                    0 <= k < distinct(entries).len() && distinct(entries)[k]@ == text;
                if k < earlier.len() {
                    assert(earlier[k]@ == text);
                    assert(is_entry(text, before));
                    let i = choose|i: int| 0 <= i < before.len() && before[i]@ == text;
                    assert(entries[i]@ == text);
                } else {
                    assert(entries[entries.len() - 1]@ == text);
                }
            }
        }
        if !is_entry(last@, earlier) {
            assert forall|i: int, j: int| 0 <= i < j < distinct(entries).len() implies distinct(
                entries,
            )[i]@ != distinct(entries)[j]@ by {
                if j == earlier.len() {
                    assert(earlier[i]@ != last@);
                }
            }
        }
    }
}

/// The one-character string of a digit.
fn digit_str(d: u64) -> (r: &'static str)
    requires
        d < 10,
    ensures
        r@ == seq![digit_char(d as nat)],
{
    proof {
        reveal_strlit("0");
        reveal_strlit("1");
        reveal_strlit("2");
        reveal_strlit("3");
        reveal_strlit("4");
        reveal_strlit("5");
        reveal_strlit("6");
        reveal_strlit("7");
        reveal_strlit("8");
        reveal_strlit("9");
    }
    let r: &'static str = if d == 0 {
        "0"
    } else if d == 1 {
        "1"
    } else if d == 2 {
        "2"
    } else if d == 3 {
        "3"
    } else if d == 4 {
        "4"
    } else if d == 5 {
        "5"
    } else if d == 6 {
        "6"
    } else if d == 7 {
        "7"
    } else if d == 8 {
        "8"
    } else {
        "9"
    };
    assert(r@ =~= seq![digit_char(d as nat)]);
    r
}

/// Appends the decimal numeral of `n` to `out`.
pub fn push_decimal(out: &mut String, n: u64)
    ensures
        final(out)@ == old(out)@ + decimal(n as nat),
    decreases n,
{
    if n >= 10 {
        push_decimal(out, n / 10);
    }
    out.append(digit_str(n % 10));
    assert(final(out)@ =~= old(out)@ + decimal(n as nat));
}

/// The name `{tool}-{major}` under which a given major version of a tool is
/// installed.
pub fn versioned_name(tool: &str, major: u64) -> (r: String)
    ensures
        r@ == versioned_name_of(tool@, major),
{
    let mut out = String::from_str(tool);
    proof {
        reveal_strlit("-");
    }
    out.append("-");
    push_decimal(&mut out, major);
    assert(out@ =~= versioned_name_of(tool@, major));
    out
}

/// Tells whether a text is one of the entries of a list.
pub fn has_entry(entries: &Vec<String>, text: &String) -> (r: bool)
    ensures
        r == is_entry(text@, entries@),
{
    let mut i: usize = 0;
    while i < entries.len()
        invariant
            i <= entries.len(),
            forall|j: int| 0 <= j < i ==> (#[trigger] entries@[j])@ != text@,
        decreases entries.len() - i,
    {
        if entries[i] == *text {
            return true;
        }
        i += 1;
    }
    false
}

/// Drops the entries that repeat an earlier one, keeping the order.
pub fn distinct_entries(entries: Vec<String>) -> (r: Vec<String>)
    ensures
        r@ == distinct(entries@),
{
    let mut out: Vec<String> = Vec::new();
    let mut i: usize = 0;
    while i < entries.len()
        invariant
            i <= entries.len(),
            out@ == distinct(entries@.take(i as int)),
        decreases entries.len() - i,
    {
        proof {
            assert(entries@.take(i + 1).drop_last() =~= entries@.take(i as int));
        }
        if !has_entry(&out, &entries[i]) {
            out.push(entries[i].clone());
        }
        i += 1;
    }
    proof {
        assert(entries@.take(entries.len() as int) =~= entries@);
    }
    out
}

} // verus!
