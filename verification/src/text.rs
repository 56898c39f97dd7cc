//! Texts that the connection logic builds and tests: decimal numbers, prefixes, header values.
use vstd::prelude::*;

verus! {

/// The character of the decimal digit `d`.
pub open spec fn digit(d: nat) -> char {
    (48 + d) as char
}

/// The decimal notation of `n`, without leading zeros.
pub open spec fn decimal(n: nat) -> Seq<char>
    decreases n,
{
    if n < 10 {
        seq![digit(n)]
    } else {
        decimal(n / 10).push(digit(n % 10))
    }
}

/// Whether `c` may stand in the value of an HTTP header: a tab, or anything but a control character
/// of ASCII.
pub open spec fn header_char(c: char) -> bool {
    c == '\t' || (c as u32 >= 32 && c as u32 != 127)
}

/// Whether `text` can be the value of an HTTP header.
pub open spec fn header_text(text: Seq<char>) -> bool {
    forall|i: int| 0 <= i < text.len() ==> header_char(#[trigger] text[i])
}

fn digit_text(d: u64) -> (text: &'static str)
    requires
        d < 10,
    ensures
        text@ == seq![digit(d as nat)],
{
    proof {
        reveal_strlit("0");
        reveal_strlit("1");
        reveal_strlit("2");
        reveal_strlit("3");
        reveal_strlit("4");
        reveal_strlit("5");
        reveal_strlit("6");
        reveal_strlit("7");
        reveal_strlit("8");
        reveal_strlit("9");
    }
    match d {
        0 => "0",
        1 => "1",
        2 => "2",
        3 => "3",
        4 => "4",
        5 => "5",
        6 => "6",
        7 => "7",
        8 => "8",
        _ => "9",
    }
}

/// The decimal notation of `n`.
pub fn decimal_string(n: u64) -> (text: String)
    ensures
        text@ == decimal(n as nat),
    decreases n,
{
    if n < 10 {
        digit_text(n).to_string()
    } else {
        let mut text = decimal_string(n / 10);
        text.append(digit_text(n % 10));
        text
    }
}

/// `before`, `middle` and `after` in one text.
pub fn join(before: &str, middle: &str, after: &str) -> (text: String)
    ensures
        text@ == before@ + middle@ + after@,
{
    let mut text = before.to_string();
    text.append(middle);
    text.append(after);
    text
}

/// Whether `text` begins with `prefix`.
pub fn starts_with(text: &str, prefix: &str) -> (begins: bool)
    ensures
        begins == prefix@.is_prefix_of(text@),
{
    let len: usize = prefix.unicode_len();
    if text.unicode_len() < len {
        return false;
    }
    let mut i: usize = 0;
    while i < len
        invariant
            i <= len,
            len == prefix@.len(),
            len <= text@.len(),
            forall|j: int| 0 <= j < i ==> prefix@[j] == text@[j],
        decreases len - i,
    {
        if prefix.get_char(i) != text.get_char(i) {
            assert(text@.subrange(0, len as int)[i as int] == text@[i as int]);
            return false;
        }
        i += 1;
    }
    assert(prefix@ =~= text@.subrange(0, len as int));
    true
}

/// Whether `text` can be the value of an HTTP header.
pub fn is_header_text(text: &str) -> (valid: bool)
    ensures
        valid == header_text(text@),
{
    let len: usize = text.unicode_len();
    let mut i: usize = 0;
    while i < len
        invariant
            i <= len,
            len == text@.len(),
            forall|j: int| 0 <= j < i ==> header_char(#[trigger] text@[j]),
        decreases len - i,
    {
        let c: char = text.get_char(i);
        if !(c == '\t' || (c as u32 >= 32 && c as u32 != 127)) {
            assert(!header_char(text@[i as int]));
            return false;
        }
        i += 1;
    }
    true
}

/// Different numbers have different decimal notations.
pub proof fn decimal_is_injective(a: nat, b: nat)
    requires
        decimal(a) == decimal(b),
    ensures
        a == b,
    decreases a,
{
    decimal_len(a);
    decimal_len(b);
    if a < 10 && b < 10 {
        assert(decimal(a)[0] == digit(a) && decimal(b)[0] == digit(b));
    } else if a >= 10 && b >= 10 {
        assert(decimal(a).last() == digit(a % 10));
        assert(decimal(b).last() == digit(b % 10));
        assert(decimal(a).drop_last() =~= decimal(a / 10));
        assert(decimal(b).drop_last() =~= decimal(b / 10));
        decimal_is_injective(a / 10, b / 10);
    }
}

/// The number that a text of decimal digits says.
pub open spec fn number_of(text: Seq<char>) -> int
    decreases text.len(),
{
    if text.len() == 0 {
        0
    } else {
        10 * number_of(text.drop_last()) + (text.last() as int - '0' as int)
    }
}

/// The decimal notation of a number consists of digits, has no leading zero, and says that number.
pub proof fn decimal_says_the_number(n: nat)
    ensures
        number_of(decimal(n)) == n,
        decimal(n).len() >= 1,
        forall|i: int| 0 <= i < decimal(n).len() ==> '0' <= #[trigger] decimal(n)[i] <= '9',
        decimal(n).len() > 1 ==> decimal(n)[0] != '0',
    decreases n,
{
    if n < 10 {
        assert(decimal(n).drop_last() =~= seq![]);
        assert(number_of(decimal(n).drop_last()) == 0);
    } else {
        decimal_says_the_number(n / 10);
        assert(decimal(n).drop_last() =~= decimal(n / 10));
        assert(decimal(n).last() == digit(n % 10));
        if decimal(n / 10).len() == 1 {
            assert(decimal(n / 10).drop_last() =~= seq![]);
            assert(decimal(n)[0] == decimal(n / 10)[0]);
            assert(number_of(decimal(n / 10).drop_last()) == 0);
        } else {
            assert(decimal(n)[0] == decimal(n / 10)[0]);
        }
    }
}

/// A text can be the value of a header where each of its characters can, and a character can unless it
/// is a control character of ASCII other than the tab.
pub proof fn header_texts_hold_no_control_characters(text: Seq<char>)
    ensures
        header_text(text) <==> !exists|i: int|
            0 <= i < text.len() && ((#[trigger] text[i] as u32) < 32 && text[i] != '\t' || text[i]
                as u32 == 127),
{
    if !header_text(text) {
        let i = choose|i: int| 0 <= i < text.len() && !header_char(#[trigger] text[i]);
        assert((text[i] as u32) < 32 && text[i] != '\t' || text[i] as u32 == 127);
    }
}

proof fn decimal_len(n: nat)
    ensures
        decimal(n).len() >= 1,
        n >= 10 ==> decimal(n).len() >= 2,
    decreases n,
{
    if n >= 10 {
        decimal_len(n / 10);
    }
}

} // verus!
