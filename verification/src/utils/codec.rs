//! Lower-case hexadecimal text, the armour of every field a token carries.

use vstd::bytes::{spec_u128_to_le_bytes, u128_to_le_bytes};
use vstd::prelude::*;
use vstd::slice::slice_subrange;
use vstd::string::*;
use vstd::utf8::{decode_utf8, valid_utf8};

verus! {

/// The digit that stands for a value below sixteen.
pub open spec fn hex_digit(n: u8) -> char {
    if n < 10 {
        (n + 48) as u8 as char
    } else {
        (n + 87) as u8 as char
    }
}

/// The value of a digit; capital letters are no digits.
pub open spec fn hex_value(c: char) -> Option<u8> {
    if '0' <= c && c <= '9' {
        Some((c as u8 - 48) as u8)
    } else if 'a' <= c && c <= 'f' {
        Some((c as u8 - 87) as u8)
    } else {
        None
    }
}

/// The two digits of one byte, high half first.
pub open spec fn hex_pair(b: u8) -> Seq<char> {
    seq![hex_digit(b / 16), hex_digit(b % 16)]
}

/// The byte that two digits spell.
pub open spec fn pair_value(hi: char, lo: char) -> u8 {
    (hex_value(hi).unwrap() * 16 + hex_value(lo).unwrap()) as u8
}

/// The text of a byte string: two digits for each byte, in order.
pub open spec fn hex_text(bytes: Seq<u8>) -> Seq<char>
    decreases bytes.len(),
{
    if bytes.len() == 0 {
        Seq::empty()
    } else {
        hex_text(bytes.drop_last()) + hex_pair(bytes.last())
    }
}

/// Whether a text is made of whole pairs of digits.
pub open spec fn is_hex_text(text: Seq<char>) -> bool {
    &&& text.len() % 2 == 0
    &&& forall|i: int| 0 <= i < text.len() ==> (#[trigger] hex_value(text[i])) is Some
}

/// The bytes that a text of digit pairs spells.
pub open spec fn hex_bytes(text: Seq<char>) -> Seq<u8>
    decreases text.len(),
{
    if text.len() < 2 {
        Seq::empty()
    } else {
        hex_bytes(text.take(text.len() - 2)).push(
            pair_value(text[text.len() - 2], text[text.len() - 1]),
        )
    }
}

/// The digit of a value has that value, and is ASCII and no dot.
pub proof fn lemma_digit_round_trip(n: u8)
    requires
        n < 16,
    ensures
        hex_value(hex_digit(n)) == Some(n),
        hex_digit(n) != '.',
        '\0' <= hex_digit(n) <= '\u{7f}',
{
}

/// A digit is the digit of its value.
pub proof fn lemma_value_round_trip(c: char)
    requires
        hex_value(c) is Some,
    ensures
        hex_value(c).unwrap() < 16,
        hex_digit(hex_value(c).unwrap()) == c,
{
}

/// The text of a byte string has two characters for each byte.
pub proof fn lemma_hex_text_len(bytes: Seq<u8>)
    ensures
        hex_text(bytes).len() == 2 * bytes.len(),
    decreases bytes.len(),
{
    if bytes.len() > 0 {
        lemma_hex_text_len(bytes.drop_last());
    }
}

/// Text made from bytes is made of whole pairs of digits.
pub proof fn lemma_hex_text_is_hex(bytes: Seq<u8>)
    ensures
        is_hex_text(hex_text(bytes)),
    decreases bytes.len(),
{
    lemma_hex_text_len(bytes);
    if bytes.len() > 0 {
        let head = hex_text(bytes.drop_last());
        lemma_hex_text_is_hex(bytes.drop_last());
        lemma_hex_text_len(bytes.drop_last());
        lemma_digit_round_trip(bytes.last() / 16);
        lemma_digit_round_trip(bytes.last() % 16);
        assert forall|i: int| 0 <= i < hex_text(bytes).len() implies (#[trigger] hex_value(
            hex_text(bytes)[i],
        )) is Some by {
            if i < head.len() {
                assert(hex_text(bytes)[i] == head[i]);
            } else {
                assert(hex_text(bytes)[i] == hex_pair(bytes.last())[i - head.len()]);
            }
        }
    }
}

/// Reading the text of a byte string gives the byte string back.
pub proof fn lemma_hex_round_trip(bytes: Seq<u8>)
    ensures
        hex_bytes(hex_text(bytes)) == bytes,
    decreases bytes.len(),
{
    lemma_hex_text_len(bytes);
    if bytes.len() > 0 {
        let head = hex_text(bytes.drop_last());
        let text = hex_text(bytes);
        lemma_hex_round_trip(bytes.drop_last());
        lemma_hex_text_len(bytes.drop_last());
        lemma_digit_round_trip(bytes.last() / 16);
        lemma_digit_round_trip(bytes.last() % 16);
        assert(text.take(text.len() - 2) =~= head);
        assert(text[text.len() - 2] == hex_digit(bytes.last() / 16));
        assert(text[text.len() - 1] == hex_digit(bytes.last() % 16));
        assert(pair_value(text[text.len() - 2], text[text.len() - 1]) == bytes.last());
        assert(bytes.drop_last().push(bytes.last()) =~= bytes);
    }
}

/// A text of digit pairs is the only text of the bytes it spells.
pub proof fn lemma_hex_canonical(text: Seq<char>)
    requires
        is_hex_text(text),
    ensures
        hex_text(hex_bytes(text)) == text,
        hex_bytes(text).len() * 2 == text.len(),
    decreases text.len(),
{
    if text.len() >= 2 {
        let head = text.take(text.len() - 2);
        let hi = text[text.len() - 2];
        let lo = text[text.len() - 1];
        assert forall|i: int| 0 <= i < head.len() implies (#[trigger] hex_value(head[i])) is Some by {
            assert(head[i] == text[i]);
        }
        lemma_hex_canonical(head);
        lemma_value_round_trip(hi);
        lemma_value_round_trip(lo);
        let bytes = hex_bytes(text);
        assert(bytes.drop_last() =~= hex_bytes(head));
        assert(bytes.last() == pair_value(hi, lo));
        assert(bytes.last() / 16 == hex_value(hi).unwrap());
        assert(bytes.last() % 16 == hex_value(lo).unwrap());
        assert(head + hex_pair(bytes.last()) =~= text);
    } else {
        assert(text =~= Seq::empty());
    }
}

/// The digit of a value below sixteen, as a text of one character.
fn digit_text(n: u8) -> (text: &'static str)
    requires
        n < 16,
    ensures
        text@ == seq![hex_digit(n)],
{
    proof {
        reveal_strlit("0");
        reveal_strlit("1");
        reveal_strlit("2");
        reveal_strlit("3");
        reveal_strlit("4");
        reveal_strlit("5");
        reveal_strlit("6");
        reveal_strlit("7");
        reveal_strlit("8");
        reveal_strlit("9");
        reveal_strlit("a");
        reveal_strlit("b");
        reveal_strlit("c");
        reveal_strlit("d");
        reveal_strlit("e");
        reveal_strlit("f");
    }
    let text = match n {
        0 => "0",
        1 => "1",
        2 => "2",
        3 => "3",
        4 => "4",
        5 => "5",
        6 => "6",
        7 => "7",
        8 => "8",
        9 => "9",
        10 => "a",
        11 => "b",
        12 => "c",
        13 => "d",
        14 => "e",
        _ => "f",
    };
    assert(text@ =~= seq![hex_digit(n)]);
    text
}

/// The value of the digit with the given character code.
fn digit_value(code: u8) -> (value: Option<u8>)
    requires
        code < 128,
    ensures
        value == hex_value(code as char),
{
    if 48 <= code && code <= 57 {
        Some(code - 48)
    } else if 97 <= code && code <= 102 {
        Some(code - 87)
    } else {
        None
    }
}

/// Appends the text of a byte string.
pub fn push_hex(out: &mut String, bytes: &[u8])
    ensures
        final(out)@ == old(out)@ + hex_text(bytes@),
{
    let mut i: usize = 0;
    assert(bytes@.take(0) =~= Seq::empty());
    assert(out@ =~= old(out)@ + hex_text(bytes@.take(0)));
    while i < bytes.len()
        invariant
            i <= bytes.len(),
            out@ == old(out)@ + hex_text(bytes@.take(i as int)),
        decreases bytes.len() - i,
    {
        let b: u8 = bytes[i];
        let ghost before = out@;
        out.append(digit_text(b / 16));
        out.append(digit_text(b % 16));
        proof {
            let next = bytes@.take(i + 1);
            assert(next.drop_last() =~= bytes@.take(i as int));
            assert(next.last() == b);
            assert(out@ =~= before + hex_pair(b));
            assert(out@ =~= old(out)@ + hex_text(next));
        }
        i = i + 1;
    }
    assert(bytes@.take(i as int) =~= bytes@);
}

/// Reads the bytes spelled between two positions of an ASCII text, where that
/// stretch is made of whole pairs of digits.
#[verifier::rlimit(40)]
pub(crate) fn read_hex(text: &str, from: usize, to: usize) -> (bytes: Option<Vec<u8>>)
    requires
        text.is_ascii(),
        from <= to <= text@.len(),
    ensures
        bytes is Some <==> is_hex_text(text@.subrange(from as int, to as int)),
        bytes matches Some(b) ==> b@ == hex_bytes(text@.subrange(from as int, to as int)),
{
    let ghost whole = text@.subrange(from as int, to as int);
    if (to - from) % 2 != 0 {
        return None;
    }
    let mut out: Vec<u8> = Vec::new();
    let mut i: usize = from;
    assert(whole.take(0) =~= Seq::empty());
    while i < to
        invariant
            text.is_ascii(),
            from <= i <= to <= text@.len(),
            (i - from) % 2 == 0,
            (to - from) % 2 == 0,
            whole == text@.subrange(from as int, to as int),
            is_hex_text(whole.take(i - from)),
            out@ == hex_bytes(whole.take(i - from)),
        decreases to - i,
    {
        let hi_code: u8 = text.get_ascii(i);
        let lo_code: u8 = text.get_ascii(i + 1);
        let ghost hi = text@[i as int];
        let ghost lo = text@[i + 1];
        assert(hi_code as char == hi && lo_code as char == lo);
        assert(hi == whole[i - from] && lo == whole[i - from + 1]);
        match (digit_value(hi_code), digit_value(lo_code)) {
            (Some(h), Some(l)) => {
                proof {
                    lemma_value_round_trip(hi);
                    lemma_value_round_trip(lo);
                    let next = whole.take(i - from + 2);
                    assert(next.take(next.len() - 2) =~= whole.take(i - from));
                    assert forall|k: int| 0 <= k < next.len() implies (#[trigger] hex_value(
                        next[k],
                    )) is Some by {
                        if k < i - from {
                            assert(next[k] == whole.take(i - from)[k]);
                        }
                    }
                }
                out.push(h * 16 + l);
                i = i + 2;
            },
            _ => {
                assert(!is_hex_text(whole)) by {
                    if is_hex_text(whole) {
                        assert(hex_value(whole[i - from]) is Some);
                        assert(hex_value(whole[i - from + 1]) is Some);
                    }
                }
                return None;
            },
        }
    }
    assert(whole.take(i - from) =~= whole);
    Some(out)
}

/// Whether two texts are the same.
pub fn same_text(a: &str, b: &str) -> (same: bool)
    ensures
        same == (a@ == b@),
{
    String::from_str(a) == String::from_str(b)
}

/// `String::from_utf8`: the bytes become a text exactly when they are
/// well-formed UTF-8, and the text is then the one they encode.
#[verifier::external_body]
pub(crate) fn text_of(bytes: Vec<u8>) -> (text: Option<String>)
    ensures
        text is Some <==> valid_utf8(bytes@),
        text matches Some(s) ==> s@ == decode_utf8(bytes@),
{
    String::from_utf8(bytes).ok()
}


/// The sixteen bytes of a 128-bit number, highest first.
pub open spec fn be_bytes(id: u128) -> Seq<u8> {
    Seq::new(16, |i: int| spec_u128_to_le_bytes(id)[15 - i])
}

/// A 128-bit number written as a UUID: its bytes, highest first, as
/// lower-case digits in groups of eight, four, four, four and twelve with a
/// hyphen between the groups.
pub open spec fn uuid_text(id: u128) -> Seq<char> {
    let bytes = be_bytes(id);
    hex_text(bytes.subrange(0, 4)) + seq!['-'] + hex_text(bytes.subrange(4, 6)) + seq!['-']
        + hex_text(bytes.subrange(6, 8)) + seq!['-'] + hex_text(bytes.subrange(8, 10)) + seq![
        '-',
    ] + hex_text(bytes.subrange(10, 16))
}

/// Whether a text has the form of a UUID: thirty-six characters, hyphens
/// at the four places between the groups, lower-case digits elsewhere.
pub open spec fn is_hyphenated(text: Seq<char>) -> bool {
    &&& text.len() == 36
    &&& forall|i: int|
        0 <= i < 36 ==> if i == 8 || i == 13 || i == 18 || i == 23 {
            #[trigger] text[i] == '-'
        } else {
            hex_value(text[i]) is Some
        }
}

/// Every number is written in the form of a UUID.
#[verifier::rlimit(40)]
pub proof fn lemma_uuid_text_is_hyphenated(id: u128)
    ensures
        is_hyphenated(uuid_text(id)),
{
    let bytes = be_bytes(id);
    let a = hex_text(bytes.subrange(0, 4));
    let b = hex_text(bytes.subrange(4, 6));
    let c = hex_text(bytes.subrange(6, 8));
    let d = hex_text(bytes.subrange(8, 10));
    let e = hex_text(bytes.subrange(10, 16));
    lemma_hex_text_len(bytes.subrange(0, 4));
    lemma_hex_text_len(bytes.subrange(4, 6));
    lemma_hex_text_len(bytes.subrange(6, 8));
    lemma_hex_text_len(bytes.subrange(8, 10));
    lemma_hex_text_len(bytes.subrange(10, 16));
    lemma_hex_text_is_hex(bytes.subrange(0, 4));
    lemma_hex_text_is_hex(bytes.subrange(4, 6));
    lemma_hex_text_is_hex(bytes.subrange(6, 8));
    lemma_hex_text_is_hex(bytes.subrange(8, 10));
    lemma_hex_text_is_hex(bytes.subrange(10, 16));
    let text = uuid_text(id);
    assert(text.len() == 36);
    assert forall|i: int| 0 <= i < 36 implies if i == 8 || i == 13 || i == 18 || i == 23 {
        #[trigger] text[i] == '-'
    } else {
        hex_value(text[i]) is Some
    } by {
        if i < 8 {
            assert(text[i] == a[i]);
        } else if i == 8 {
        } else if i < 13 {
            assert(text[i] == b[i - 9]);
        } else if i == 13 {
        } else if i < 18 {
            assert(text[i] == c[i - 14]);
        } else if i == 18 {
        } else if i < 23 {
            assert(text[i] == d[i - 19]);
        } else if i == 23 {
        } else {
            assert(text[i] == e[i - 24]);
        }
    }
}

/// Writes a 128-bit number as a UUID.
#[verifier::rlimit(40)]
pub fn write_uuid(id: u128) -> (text: String)
    ensures
        text@ == uuid_text(id),
        is_hyphenated(text@),
{
    proof {
        reveal_strlit("-");
        lemma_uuid_text_is_hyphenated(id);
    }
    let low_first = u128_to_le_bytes(id);
    let mut bytes: Vec<u8> = Vec::new();
    let mut i: usize = 0;
    while i < 16
        invariant
            i <= 16,
            low_first@ == spec_u128_to_le_bytes(id),
            low_first@.len() == 16,
            bytes@ == Seq::new(i as nat, |k: int| spec_u128_to_le_bytes(id)[15 - k]),
        decreases 16 - i,
    {
        bytes.push(low_first[15 - i]);
        assert(bytes@ =~= Seq::new((i + 1) as nat, |k: int| spec_u128_to_le_bytes(id)[15 - k]));
        i = i + 1;
    }
    assert(bytes@ =~= be_bytes(id));
    let mut text = String::new();
    push_hex(&mut text, slice_subrange(bytes.as_slice(), 0, 4));
    text.append("-");
    push_hex(&mut text, slice_subrange(bytes.as_slice(), 4, 6));
    text.append("-");
    push_hex(&mut text, slice_subrange(bytes.as_slice(), 6, 8));
    text.append("-");
    push_hex(&mut text, slice_subrange(bytes.as_slice(), 8, 10));
    text.append("-");
    push_hex(&mut text, slice_subrange(bytes.as_slice(), 10, 16));
    assert(text@ =~= uuid_text(id));
    text
}


/// Whether a byte string holds another as a stretch of its own.
pub open spec fn holds(text: Seq<u8>, part: Seq<u8>) -> bool {
    exists|i: int|
        0 <= i && i + part.len() <= text.len() && #[trigger] text.subrange(i, i + part.len())
            == part
}

/// Looks for a byte string within another.
pub fn contains_bytes(text: &[u8], part: &[u8]) -> (found: bool)
    ensures
        found == holds(text@, part@),
{
    let n: usize = part.len();
    if n > text.len() {
        return false;
    }
    let last: usize = text.len() - n;
    let mut i: usize = 0;
    while i <= last
        invariant
            n == part.len(),
            n <= text.len(),
            last == text.len() - n,
            i <= last + 1,
            forall|k: int| 0 <= k < i ==> #[trigger] text@.subrange(k, k + n) != part@,
        decreases last + 1 - i,
    {
        let mut j: usize = 0;
        while j < n && text[i + j] == part[j]
            invariant
                n == part.len(),
                i + n <= text.len(),
                j <= n,
                forall|m: int| 0 <= m < j ==> text@[i + m] == part@[m],
            decreases n - j,
        {
            j = j + 1;
        }
        if j == n {
            assert(text@.subrange(i as int, i + n) =~= part@);
            return true;
        }
        assert(text@.subrange(i as int, i + n)[j as int] != part@[j as int]);
        i = i + 1;
    }
    false
}

} // verus!
