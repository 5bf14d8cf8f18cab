//! Decimal numbers and separated lists, as the configuration writes them and
//! the reports print them.

use vstd::prelude::*;

verus! {

/// The character that writes the digit `d`.
pub open spec fn digit_char(d: int) -> char {
    if d == 0 {
        '0'
    } else if d == 1 {
        '1'
    } else if d == 2 {
        '2'
    } else if d == 3 {
        '3'
    } else if d == 4 {
        '4'
    } else if d == 5 {
        '5'
    } else if d == 6 {
        '6'
    } else if d == 7 {
        '7'
    } else if d == 8 {
        '8'
    } else {
        '9'
    }
}

/// The digit that `c` writes, if it writes one.
pub open spec fn digit_of(c: char) -> Option<nat> {
    if c == '0' {
        Some(0)
    } else if c == '1' {
        Some(1)
    } else if c == '2' {
        Some(2)
    } else if c == '3' {
        Some(3)
    } else if c == '4' {
        Some(4)
    } else if c == '5' {
        Some(5)
    } else if c == '6' {
        Some(6)
    } else if c == '7' {
        Some(7)
    } else if c == '8' {
        Some(8)
    } else if c == '9' {
        Some(9)
    } else {
        None
    }
}

/// `n` in decimal, without sign or leading zeros.
pub open spec fn decimal(n: nat) -> Seq<char>
    decreases n,
{
    if n < 10 {
        seq![digit_char(n as int)]
    } else {
        decimal(n / 10).push(digit_char((n % 10) as int))
    }
}

/// Whether every character of `s` is a decimal digit.
pub open spec fn all_digits(s: Seq<char>) -> bool {
    forall|i: int| 0 <= i < s.len() ==> (#[trigger] digit_of(s[i])) is Some
}

/// The number that the digits `s` write, most significant first. A character
/// that is no digit counts as zero.
pub open spec fn digits_value(s: Seq<char>) -> nat
    decreases s.len(),
{
    if s.len() == 0 {
        0
    } else {
        digits_value(s.drop_last()) * 10 + match digit_of(s.last()) {
            Some(d) => d,
            None => 0,
        }
    }
}

/// The digits of an unsigned number written as `s`: `s` itself, or what
/// follows a leading `+`.
pub open spec fn unsigned_digits(s: Seq<char>) -> Seq<char> {
    if s.len() > 0 && s[0] == '+' {
        s.skip(1)
    } else {
        s
    }
}

/// The number that `s` writes: an optional `+`, then one or more decimal
/// digits and nothing else. `None` where `s` is not of that form.
pub open spec fn unsigned(s: Seq<char>) -> Option<nat> {
    let digits = unsigned_digits(s);
    if digits.len() > 0 && all_digits(digits) {
        Some(digits_value(digits))
    } else {
        None
    }
}

/// The number that `s` writes, if it writes one that is at most `max`.
pub open spec fn unsigned_up_to(s: Seq<char>, max: nat) -> Option<nat> {
    match unsigned(s) {
        Some(value) if value <= max => Some(value),
        _ => None,
    }
}

/// The fields of `s`: the stretches between one separator and the next, from
/// the start of `s` to its end. A text without a separator is one field; so
/// is the empty text.
pub open spec fn fields(s: Seq<char>, separator: char) -> Seq<Seq<char>>
    decreases s.len(),
{
    if s.len() == 0 {
        seq![Seq::empty()]
    } else {
        let before = fields(s.drop_last(), separator);
        if s.last() == separator {
            before.push(Seq::empty())
        } else {
            before.update(before.len() - 1, before.last().push(s.last()))
        }
    }
}

/// The fields written one after the other, with a separator between each
/// two.
pub open spec fn join(fields: Seq<Seq<char>>, separator: char) -> Seq<char>
    decreases fields.len(),
{
    if fields.len() == 0 {
        Seq::empty()
    } else if fields.len() == 1 {
        fields[0]
    } else {
        join(fields.drop_last(), separator).push(separator) + fields.last()
    }
}

/// What each text of `texts` holds.
pub open spec fn views(texts: Seq<String>) -> Seq<Seq<char>> {
    Seq::new(texts.len(), |i: int| texts[i]@)
}

/// The fields of a text are never none, hold no separator, and joined give
/// the text back.
pub proof fn lemma_fields_join(s: Seq<char>, separator: char)
    ensures
        fields(s, separator).len() >= 1,
        forall|i: int|
            0 <= i < fields(s, separator).len() ==> !(#[trigger] fields(s, separator)[i]).contains(
                separator,
            ),
        join(fields(s, separator), separator) == s,
    decreases s.len(),
{
    if s.len() > 0 {
        let before = fields(s.drop_last(), separator);
        let all = fields(s, separator);
        lemma_fields_join(s.drop_last(), separator);
        if s.last() == separator {
            assert(all.drop_last() =~= before);
            assert(join(all, separator) =~= s);
            assert forall|i: int| 0 <= i < all.len() implies !(#[trigger] all[i]).contains(
                separator,
            ) by {
                if i < before.len() {
                    assert(all[i] == before[i]);
                }
            }
        } else {
            let grown = before.last().push(s.last());
            assert(all.last() == grown);
            if before.len() == 1 {
                assert(join(before, separator) == before[0]);
                assert(all.len() == 1);
                assert(join(all, separator) == all[0]);
                assert(grown =~= s);
            } else {
                assert(all.drop_last() =~= before.drop_last());
                let head = join(before.drop_last(), separator).push(separator);
                assert(join(before, separator) == head + before.last());
                assert(join(all, separator) == head + grown);
                assert(head + grown =~= (head + before.last()).push(s.last()));
                assert(s.drop_last().push(s.last()) =~= s);
            }
            assert forall|i: int| 0 <= i < all.len() implies !(#[trigger] all[i]).contains(
                separator,
            ) by {
                if i < before.len() - 1 {
                    assert(all[i] == before[i]);
                } else {
                    assert(!before.last().contains(separator));
                    if grown.contains(separator) {
                        let k = choose|k: int| 0 <= k < grown.len() && grown[k] == separator;
                        if k < before.last().len() {
                            assert(before.last()[k] == separator);
                        }
                    }
                }
            }
        }
    }
}

/// The digits written by a prefix of `s` write no more than `s` does.
proof fn lemma_digits_value_grows(s: Seq<char>, k: int)
    requires
        0 <= k <= s.len(),
    ensures
        digits_value(s.take(k)) <= digits_value(s),
    decreases s.len(),
{
    if k < s.len() {
        lemma_digits_value_grows(s.drop_last(), k);
        assert(s.drop_last().take(k) =~= s.take(k));
    } else {
        assert(s.take(k) =~= s);
    }
}

/// The text of one decimal digit.
fn digit_text(d: u64) -> (text: &'static str)
    requires
        d < 10,
    ensures
        text@ == seq![digit_char(d as int)],
{
    proof {
        reveal_strlit("0");
        reveal_strlit("1");
        reveal_strlit("2");
        reveal_strlit("3");
        reveal_strlit("4");
        reveal_strlit("5");
        reveal_strlit("6");
        reveal_strlit("7");
        reveal_strlit("8");
        reveal_strlit("9");
    }
    let text = if d == 0 {
        "0"
    } else if d == 1 {
        "1"
    } else if d == 2 {
        "2"
    } else if d == 3 {
        "3"
    } else if d == 4 {
        "4"
    } else if d == 5 {
        "5"
    } else if d == 6 {
        "6"
    } else if d == 7 {
        "7"
    } else if d == 8 {
        "8"
    } else {
        "9"
    };
    assert(text@ =~= seq![digit_char(d as int)]);
    text
}

/// Appends `n` in decimal to `out`.
pub fn push_decimal(out: &mut String, n: u64)
    ensures
        final(out)@ == old(out)@ + decimal(n as nat),
    decreases n,
{
    if n >= 10 {
        push_decimal(out, n / 10);
    }
    out.append(digit_text(n % 10));
    assert(final(out)@ =~= old(out)@ + decimal(n as nat));
}

/// `n` in decimal.
pub fn decimal_string(n: u64) -> (text: String)
    ensures
        text@ == decimal(n as nat),
{
    let mut text = String::new();
    push_decimal(&mut text, n);
    assert(text@ =~= decimal(n as nat));
    text
}

/// The digit that `c` writes, if it writes one.
pub fn digit(c: char) -> (d: Option<u64>)
    ensures
        d is Some <==> digit_of(c) is Some,
        d is Some ==> d->0 == digit_of(c)->0,
{
    if c == '0' {
        Some(0)
    } else if c == '1' {
        Some(1)
    } else if c == '2' {
        Some(2)
    } else if c == '3' {
        Some(3)
    } else if c == '4' {
        Some(4)
    } else if c == '5' {
        Some(5)
    } else if c == '6' {
        Some(6)
    } else if c == '7' {
        Some(7)
    } else if c == '8' {
        Some(8)
    } else if c == '9' {
        Some(9)
    } else {
        None
    }
}

/// Reads an unsigned decimal number: an optional `+`, then one or more
/// digits and nothing else. `None` where the text is of another form or the
/// number does not fit.
pub fn parse_u64(text: &str) -> (number: Option<u64>)
    ensures
        number is Some <==> unsigned_up_to(text@, u64::MAX as nat) is Some,
        number is Some ==> number->0 == unsigned_up_to(text@, u64::MAX as nat)->0,
{
    let len: usize = text.unicode_len();
    let start: usize = if len > 0 && text.get_char(0) == '+' {
        1
    } else {
        0
    };
    let ghost digits = unsigned_digits(text@);
    assert(digits.len() == len - start);
    if start == len {
        return None;
    }
    let mut value: u64 = 0;
    let mut i: usize = start;
    while i < len
        invariant
            start <= i <= len,
            len == text@.len(),
            digits == unsigned_digits(text@),
            digits.len() == len - start,
            forall|j: int| 0 <= j < digits.len() ==> digits[j] == text@[start + j],
            all_digits(digits.take(i - start)),
            value == digits_value(digits.take(i - start)),
        decreases len - i,
    {
        let c: char = text.get_char(i);
        let ghost read = digits.take(i - start);
        let ghost next = digits.take(i - start + 1);
        proof {
            assert(next.drop_last() =~= read);
            assert(next.last() == c);
        }
        match digit(c) {
            None => {
                assert(digit_of(digits[i - start]) is None);
                return None;
            },
            Some(d) => {
                proof {
                    lemma_digits_value_grows(digits, i - start + 1);
                    assert forall|j: int| 0 <= j < next.len() implies (#[trigger] digit_of(
                        next[j],
                    )) is Some by {
                        if j < read.len() {
                            assert(next[j] == read[j]);
                        }
                    }
                }
                match value.checked_mul(10) {
                    None => {
                        return None;
                    },
                    Some(shifted) => match shifted.checked_add(d) {
                        None => {
                            return None;
                        },
                        Some(sum) => {
                            value = sum;
                        },
                    },
                }
            },
        }
        i = i + 1;
    }
    assert(digits.take(i - start) =~= digits);
    Some(value)
}

/// Reads an unsigned decimal number that fits 32 bits; `None` otherwise.
pub fn parse_u32(text: &str) -> (number: Option<u32>)
    ensures
        number is Some <==> unsigned_up_to(text@, u32::MAX as nat) is Some,
        number is Some ==> number->0 == unsigned_up_to(text@, u32::MAX as nat)->0,
{
    match parse_u64(text) {
        Some(value) => if value <= 0xffff_ffff {
            Some(value as u32)
        } else {
            None
        },
        None => None,
    }
}

/// Cuts a text at every separator.
pub fn split(text: &str, separator: char) -> (pieces: Vec<String>)
    ensures
        views(pieces@) == fields(text@, separator),
{
    let len: usize = text.unicode_len();
    let mut pieces: Vec<String> = Vec::new();
    let mut start: usize = 0;
    let mut i: usize = 0;
    proof {
        assert(text@.subrange(0, 0) =~= Seq::<char>::empty());
        assert(text@.take(0) =~= Seq::<char>::empty());
        assert(views(pieces@).push(text@.subrange(0, 0)) =~= seq![Seq::<char>::empty()]);
    }
    while i < len
        invariant
            start <= i <= len,
            len == text@.len(),
            views(pieces@).push(text@.subrange(start as int, i as int)) == fields(
                text@.take(i as int),
                separator,
            ),
        decreases len - i,
    {
        let ghost read = text@.take(i as int);
        let ghost next = text@.take(i + 1);
        let ghost open = text@.subrange(start as int, i as int);
        proof {
            assert(next.drop_last() =~= read);
            assert(next.last() == text@[i as int]);
        }
        if text.get_char(i) == separator {
            let piece = text.substring_char(start, i);
            let ghost before = views(pieces@);
            pieces.push(String::from_str(piece));
            proof {
                assert(views(pieces@) =~= before.push(open));
                assert(text@.subrange(i + 1, i + 1) =~= Seq::<char>::empty());
            }
            start = i + 1;
        } else {
            proof {
                let before = views(pieces@).push(open);
                assert(open.push(text@[i as int]) =~= text@.subrange(start as int, i + 1));
                assert(before.update(before.len() - 1, before.last().push(text@[i as int]))
                    =~= views(pieces@).push(text@.subrange(start as int, i + 1)));
            }
        }
        i = i + 1;
    }
    let piece = text.substring_char(start, len);
    let ghost before = views(pieces@);
    pieces.push(String::from_str(piece));
    proof {
        assert(views(pieces@) =~= before.push(text@.subrange(start as int, len as int)));
        assert(text@.take(len as int) =~= text@);
    }
    pieces
}

} // verus!
