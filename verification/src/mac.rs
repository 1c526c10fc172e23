//! Hardware addresses in text form: six hexadecimal numbers separated by
//! colons, as `ip link` prints them.

use vstd::prelude::*;

verus! {

/// Number of bytes of a hardware address.
pub const MAC_LEN: usize = 6;

/// The value of `c` as a hexadecimal digit, in either case.
pub open spec fn hex_value(c: char) -> Option<nat> {
    let v: u32 = c as u32;
    if 0x30 <= v <= 0x39 {
        Some((v - 0x30) as nat)
    } else if 0x61 <= v <= 0x66 {
        Some((v - 0x61 + 10) as nat)
    } else if 0x41 <= v <= 0x46 {
        Some((v - 0x41 + 10) as nat)
    } else {
        None
    }
}

/// Every character of `digits` is a hexadecimal digit.
pub open spec fn all_hex(digits: Seq<char>) -> bool {
    forall|i: int| 0 <= i < digits.len() ==> (#[trigger] hex_value(digits[i])) is Some
}

/// The number that `digits` writes in base 16, most significant digit first.
pub open spec fn number(digits: Seq<char>) -> nat
    recommends
        all_hex(digits),
    decreases digits.len(),
{
    if digits.len() == 0 {
        0
    } else {
        16 * number(digits.drop_last()) + hex_value(digits.last()).unwrap()
    }
}

/// `part` without the plus sign that may precede its digits.
pub open spec fn unsigned(part: Seq<char>) -> Seq<char> {
    if part.len() > 0 && part[0] == '+' {
        part.skip(1)
    } else {
        part
    }
}

/// The byte that `part` writes in base 16: an optional plus sign, then one or
/// more hexadecimal digits whose number is at most 255. Leading zeros count
/// for nothing. `None` for any other text.
pub open spec fn parse_hex(part: Seq<char>) -> Option<u8> {
    let digits = unsigned(part);
    if digits.len() > 0 && all_hex(digits) && number(digits) <= 255 {
        Some(number(digits) as u8)
    } else {
        None
    }
}

/// The pieces of `text` between its colons, in order. A text without a colon
/// is one piece, the empty text too; `n` colons make `n + 1` pieces, some of
/// which may be empty.
pub open spec fn split_colon(text: Seq<char>) -> Seq<Seq<char>>
    decreases text.len(),
{
    if text.len() == 0 {
        seq![Seq::empty()]
    } else {
        let before = split_colon(text.drop_last());
        if text.last() == ':' {
            before.push(Seq::empty())
        } else {
            before.update(before.len() - 1, before.last().push(text.last()))
        }
    }
}

/// The views of `parts`, one by one.
pub open spec fn part_views(parts: Seq<Vec<char>>) -> Seq<Seq<char>> {
    Seq::new(parts.len(), |i: int| parts[i]@)
}

/// The first index from `from` on at which a piece is no hexadecimal byte, or
/// the number of pieces where there is none.
pub open spec fn first_bad(parts: Seq<Seq<char>>, from: int) -> int
    decreases parts.len() - from,
{
    if from < 0 || from >= parts.len() {
        parts.len() as int
    } else if parse_hex(parts[from]) is None {
        from
    } else {
        first_bad(parts, from + 1)
    }
}

/// `parts` put together again with a colon between neighbours.
pub open spec fn join_colon(parts: Seq<Seq<char>>) -> Seq<char>
    recommends
        parts.len() >= 1,
    decreases parts.len(),
{
    if parts.len() <= 1 {
        parts.last()
    } else {
        join_colon(parts.drop_last()).push(':') + parts.last()
    }
}

/// Splitting loses nothing: the pieces, put together again with colons, are
/// the text.
pub proof fn lemma_split_colon_joins(text: Seq<char>)
    ensures
        join_colon(split_colon(text)) == text,
    decreases text.len(),
{
    if text.len() == 0 {
        assert(join_colon(split_colon(text)) =~= text);
    } else {
        let before = split_colon(text.drop_last());
        let c = text.last();
        lemma_split_colon_joins(text.drop_last());
        lemma_split_colon_pieces(text.drop_last());
        assert(text =~= text.drop_last().push(c));
        if c == ':' {
            let parts = before.push(Seq::empty());
            assert(parts.drop_last() =~= before);
            assert(join_colon(parts) =~= join_colon(before).push(':'));
        } else {
            let parts = before.update(before.len() - 1, before.last().push(c));
            if before.len() > 1 {
                assert(parts.drop_last() =~= before.drop_last());
                assert(join_colon(parts) =~= join_colon(before).push(c));
            } else {
                assert(join_colon(parts) =~= join_colon(before).push(c));
            }
        }
    }
}

/// There is always at least one piece, and no piece holds a colon.
pub proof fn lemma_split_colon_pieces(text: Seq<char>)
    ensures
        split_colon(text).len() >= 1,
        forall|i: int, j: int|
            0 <= i < split_colon(text).len() && 0 <= j < split_colon(text)[i].len()
                ==> split_colon(text)[i][j] != ':',
    decreases text.len(),
{
    if text.len() > 0 {
        lemma_split_colon_pieces(text.drop_last());
    }
}

/// The value of `c` as a hexadecimal digit.
pub fn hex_digit(c: char) -> (value: Option<u8>)
    ensures
        value is Some <==> hex_value(c) is Some,
        value matches Some(v) ==> v == hex_value(c).unwrap(),
{
    let v: u32 = c as u32;
    if 0x30 <= v && v <= 0x39 {
        Some((v - 0x30) as u8)
    } else if 0x61 <= v && v <= 0x66 {
        Some((v - 0x61 + 10) as u8)
    } else if 0x41 <= v && v <= 0x46 {
        Some((v - 0x41 + 10) as u8)
    } else {
        None
    }
}

/// Reads `part` as a byte written in base 16.
pub fn parse_hex_byte(part: &Vec<char>) -> (byte: Option<u8>)
    ensures
        byte == parse_hex(part@),
{
    let start: usize = if part.len() > 0 && part[0] == '+' {
        1
    } else {
        0
    };
    let ghost digits = unsigned(part@);
    if start == part.len() {
        return None;
    }
    let mut value: u32 = 0;
    let mut over: bool = false;
    let mut i: usize = start;
    while i < part.len()
        invariant
            start <= i <= part.len(),
            digits == part@.skip(start as int),
            digits == unsigned(part@),
            forall|j: int| 0 <= j < i - start ==> (#[trigger] hex_value(digits[j])) is Some,
            over ==> number(digits.take(i - start)) > 255,
            !over ==> value == number(digits.take(i - start)) && value <= 255,
        decreases part.len() - i,
    {
        let c: char = part[i];
        assert(c == digits[i - start]);
        let ghost seen = digits.take(i - start);
        let ghost next = digits.take(i - start + 1);
        assert(next.drop_last() =~= seen);
        assert(next.last() == c);
        match hex_digit(c) {
            None => {
                assert(!all_hex(digits));
                return None;
            },
            Some(d) => {
                assert(number(next) == 16 * number(seen) + d);
                if !over {
                    value = 16 * value + d as u32;
                    if value > 255 {
                        over = true;
                    }
                }
            },
        }
        i += 1;
    }
    assert(digits.take(i - start) =~= digits);
    assert(all_hex(digits));
    if over {
        None
    } else {
        Some(value as u8)
    }
}

/// Splits `text` at its colons.
pub fn split_at_colons(text: &Vec<char>) -> (parts: Vec<Vec<char>>)
    ensures
        part_views(parts@) == split_colon(text@),
{
    let mut parts: Vec<Vec<char>> = Vec::new();
    let mut current: Vec<char> = Vec::new();
    let mut i: usize = 0;
    assert(text@.take(0) =~= Seq::<char>::empty());
    assert(part_views(parts@).push(current@) =~= split_colon(text@.take(0)));
    while i < text.len()
        invariant
            i <= text.len(),
            part_views(parts@).push(current@) == split_colon(text@.take(i as int)),
        decreases text.len() - i,
    {
        let c: char = text[i];
        let ghost before = split_colon(text@.take(i as int));
        let ghost old_parts = part_views(parts@);
        let ghost old_current = current@;
        assert(text@.take(i + 1).drop_last() =~= text@.take(i as int));
        assert(text@.take(i + 1).last() == c);
        if c == ':' {
            parts.push(current);
            current = Vec::new();
            assert(part_views(parts@) =~= old_parts.push(old_current));
            assert(part_views(parts@).push(current@) =~= before.push(Seq::empty()));
        } else {
            current.push(c);
            assert(part_views(parts@).push(current@) =~= before.update(
                before.len() - 1,
                before.last().push(c),
            ));
        }
        i += 1;
    }
    assert(text@.take(i as int) =~= text@);
    let ghost done = part_views(parts@).push(current@);
    parts.push(current);
    assert(part_views(parts@) =~= done);
    parts
}

} // verus!
