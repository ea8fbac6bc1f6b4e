//! Address ranges in the notation of nmap: four octets separated by dots,
//! each a list, separated by commas, of numbers and dashed spans, as in
//! `192.6.1-8.1,3,50-60`.

use vstd::prelude::*;
use vstd::string::*;

verus! {

/// The pieces of `rest` between the separators `sep`, the first of them
/// continuing `current`.
pub open spec fn split_from(current: Seq<char>, rest: Seq<char>, sep: char) -> Seq<Seq<char>>
    decreases rest.len(),
{
    if rest.len() == 0 {
        seq![current]
    } else if rest[0] == sep {
        seq![current] + split_from(Seq::empty(), rest.drop_first(), sep)
    } else {
        split_from(current.push(rest[0]), rest.drop_first(), sep)
    }
}

/// The pieces of `text` between the separators `sep`. A text without a
/// separator is one piece, the empty text too.
pub open spec fn split_on(text: Seq<char>, sep: char) -> Seq<Seq<char>> {
    split_from(Seq::empty(), text, sep)
}

/// The characters of each of `pieces`.
pub open spec fn piece_texts(pieces: Seq<Vec<char>>) -> Seq<Seq<char>> {
    Seq::new(pieces.len(), |i: int| pieces[i]@)
}

/// Whether `c` is a decimal digit.
pub open spec fn is_digit(c: char) -> bool {
    '0' <= c <= '9'
}

/// The number a string of decimal digits stands for.
pub open spec fn digits_value(digits: Seq<char>) -> nat
    decreases digits.len(),
{
    if digits.len() == 0 {
        0
    } else {
        digits_value(digits.drop_last()) * 10 + (digits.last() as nat - '0' as nat) as nat
    }
}

/// The digits of a numeral: what follows its plus sign, if it has one.
pub open spec fn numeral_digits(text: Seq<char>) -> Seq<char> {
    if text.len() > 0 && text[0] == '+' {
        text.drop_first()
    } else {
        text
    }
}

/// The octet that `text` is the numeral of: a plus sign, if any, then one
/// or more decimal digits that stand for a number up to 255.
pub open spec fn numeral_value(text: Seq<char>) -> Option<u8> {
    let digits = numeral_digits(text);
    if digits.len() > 0 && (forall|i: int| 0 <= i < digits.len() ==> is_digit(#[trigger] digits[i]))
        && digits_value(digits) <= 255 {
        Some(digits_value(digits) as u8)
    } else {
        None
    }
}

/// The octets from `start` to `end`, both included.
pub open spec fn span_values(start: u8, end: u8) -> Seq<u8> {
    if start > end {
        Seq::empty()
    } else {
        Seq::new((end - start + 1) as nat, |i: int| (start + i) as u8)
    }
}

/// The octets that one part of a list stands for: a span where the part
/// holds a dash, a single octet otherwise, and nothing where it cannot be
/// read.
pub open spec fn part_values(part: Seq<char>) -> Seq<u8> {
    if part.contains('-') {
        let ends = split_on(part, '-');
        if ends.len() == 2 {
            match (numeral_value(ends[0]), numeral_value(ends[1])) {
                (Some(start), Some(end)) => span_values(start, end),
                _ => Seq::empty(),
            }
        } else {
            Seq::empty()
        }
    } else {
        match numeral_value(part) {
            Some(value) => seq![value],
            None => Seq::empty(),
        }
    }
}

/// The octets that the parts `parts` stand for, one part after the other.
pub open spec fn parts_values(parts: Seq<Seq<char>>) -> Seq<u8>
    decreases parts.len(),
{
    if parts.len() == 0 {
        Seq::empty()
    } else {
        parts_values(parts.drop_last()) + part_values(parts.last())
    }
}

/// The octets that a list of numbers and spans stands for.
pub open spec fn octet_values(octet: Seq<char>) -> Seq<u8> {
    parts_values(split_on(octet, ','))
}

/// The characters of `text`.
pub fn chars_of(text: &str) -> (chars: Vec<char>)
    ensures
        chars@ == text@,
{
    let n: usize = text.unicode_len();
    let mut chars: Vec<char> = Vec::new();
    let mut i: usize = 0;
    while i < n
        invariant
            i <= n,
            n == text@.len(),
            chars@ == text@.take(i as int),
        decreases n - i,
    {
        chars.push(text.get_char(i));
        assert(text@.take(i + 1) =~= text@.take(i as int).push(text@[i as int]));
        i += 1;
    }
    assert(text@.take(n as int) =~= text@);
    chars
}

/// Cuts `text` at every `sep`.
pub fn split_chars(text: &Vec<char>, sep: char) -> (pieces: Vec<Vec<char>>)
    ensures
        piece_texts(pieces@) == split_on(text@, sep),
        pieces@.len() >= 1,
{
    let mut pieces: Vec<Vec<char>> = Vec::new();
    let mut current: Vec<char> = Vec::new();
    let mut i: usize = 0;
    assert(text@.skip(0) =~= text@);
    assert(piece_texts(pieces@) + split_from(current@, text@.skip(0), sep) =~= split_on(
        text@,
        sep,
    ));
    while i < text.len()
        invariant
            i <= text.len(),
            piece_texts(pieces@) + split_from(current@, text@.skip(i as int), sep) == split_on(
                text@,
                sep,
            ),
        decreases text.len() - i,
    {
        let ghost rest = text@.skip(i as int);
        let ghost done = piece_texts(pieces@);
        let ghost piece = current@;
        assert(rest[0] == text@[i as int]);
        assert(rest.drop_first() =~= text@.skip(i + 1));
        if text[i] == sep {
            pieces.push(current);
            current = Vec::new();
            assert(piece_texts(pieces@) =~= done + seq![piece]);
            assert(piece_texts(pieces@) + split_from(current@, text@.skip(i + 1), sep) =~= done
                + split_from(piece, rest, sep));
        } else {
            current.push(text[i]);
        }
        i += 1;
    }
    let ghost done = piece_texts(pieces@);
    let ghost piece = current@;
    assert(text@.skip(text.len() as int).len() == 0);
    pieces.push(current);
    assert(piece_texts(pieces@) =~= done + seq![piece]);
    pieces
}

/// A longer string of digits does not stand for a smaller number.
pub proof fn lemma_digits_value_grows(digits: Seq<char>, k: int)
    requires
        0 <= k <= digits.len(),
        forall|i: int| 0 <= i < digits.len() ==> is_digit(#[trigger] digits[i]),
    ensures
        digits_value(digits.take(k)) <= digits_value(digits),
    decreases digits.len() - k,
{
    if k < digits.len() {
        let front = digits.take(k + 1);
        assert(front.drop_last() =~= digits.take(k));
        assert(front.last() == digits[k]);
        assert(is_digit(digits[k]));
        lemma_digits_value_grows(digits, k + 1);
    } else {
        assert(digits.take(k) =~= digits);
    }
}

/// Reads the numeral of an octet.
pub fn parse_octet(text: &Vec<char>) -> (value: Option<u8>)
    ensures
        value == numeral_value(text@),
{
    let start: usize = if text.len() > 0 && text[0] == '+' {
        1
    } else {
        0
    };
    let ghost digits = numeral_digits(text@);
    assert(digits =~= text@.skip(start as int));
    if start >= text.len() {
        return None;
    }
    let mut value: u32 = 0;
    let mut i: usize = start;
    assert(digits.take(0) =~= Seq::<char>::empty());
    while i < text.len()
        invariant
            start <= i <= text.len(),
            digits == text@.skip(start as int),
            digits == numeral_digits(text@),
            digits.len() > 0,
            forall|j: int| 0 <= j < i - start ==> is_digit(#[trigger] digits[j]),
            value as nat == digits_value(digits.take(i - start)),
            value <= 255,
        decreases text.len() - i,
    {
        let c = text[i];
        assert(digits[i - start] == c);
        if !('0' <= c && c <= '9') {
            assert(!is_digit(digits[i - start]));
            return None;
        }
        let digit: u32 = (c as u32) - ('0' as u32);
        proof {
            let front = digits.take(i - start + 1);
            assert(front.drop_last() =~= digits.take(i - start));
            assert(front.last() == c);
        }
        let next: u32 = value * 10 + digit;
        if next > 255 {
            proof {
                if forall|j: int| 0 <= j < digits.len() ==> is_digit(#[trigger] digits[j]) {
                    lemma_digits_value_grows(digits, i - start + 1);
                }
            }
            return None;
        }
        value = next;
        i += 1;
    }
    assert(digits.take(digits.len() as int) =~= digits);
    Some(value as u8)
}

/// Whether `c` occurs in `text`.
pub fn has_char(text: &Vec<char>, c: char) -> (found: bool)
    ensures
        found == text@.contains(c),
{
    let mut i: usize = 0;
    while i < text.len()
        invariant
            i <= text.len(),
            forall|j: int| 0 <= j < i ==> text@[j] != c,
        decreases text.len() - i,
    {
        if text[i] == c {
            return true;
        }
        i += 1;
    }
    false
}

/// Lists the octets from `start` to `end`, both included.
pub fn list_span(start: u8, end: u8) -> (values: Vec<u8>)
    ensures
        values@ == span_values(start, end),
{
    let mut values: Vec<u8> = Vec::new();
    if start > end {
        return values;
    }
    let mut next: u16 = start as u16;
    while next <= end as u16
        invariant
            start <= next <= end + 1,
            values@.len() == next - start,
            forall|i: int| 0 <= i < values@.len() ==> values@[i] == (start + i) as u8,
        decreases end + 1 - next,
    {
        values.push(next as u8);
        next += 1;
    }
    assert(values@ =~= span_values(start, end));
    values
}

/// Reads one part of a list of numbers and spans.
pub fn read_part(part: &Vec<char>) -> (values: Vec<u8>)
    ensures
        values@ == part_values(part@),
{
    if has_char(part, '-') {
        let ends = split_chars(part, '-');
        assert(piece_texts(ends@).len() == ends@.len());
        if ends.len() == 2 {
            assert(piece_texts(ends@)[0] == ends@[0]@);
            assert(piece_texts(ends@)[1] == ends@[1]@);
            match (parse_octet(&ends[0]), parse_octet(&ends[1])) {
                (Some(start), Some(end)) => list_span(start, end),
                _ => Vec::new(),
            }
        } else {
            Vec::new()
        }
    } else {
        match parse_octet(part) {
            Some(value) => {
                let mut values: Vec<u8> = Vec::new();
                values.push(value);
                assert(values@ =~= seq![value]);
                values
            },
            None => Vec::new(),
        }
    }
}

/// Reads a list of numbers and spans.
pub fn read_octet(octet: &Vec<char>) -> (values: Vec<u8>)
    ensures
        values@ == octet_values(octet@),
{
    let parts = split_chars(octet, ',');
    let ghost texts = piece_texts(parts@);
    let mut values: Vec<u8> = Vec::new();
    let mut i: usize = 0;
    while i < parts.len()
        invariant
            i <= parts.len(),
            texts == piece_texts(parts@),
            texts == split_on(octet@, ','),
            values@ == parts_values(texts.take(i as int)),
        decreases parts.len() - i,
    {
        let mut more = read_part(&parts[i]);
        proof {
            let front = texts.take(i + 1);
            assert(front.drop_last() =~= texts.take(i as int));
            assert(front.last() == parts@[i as int]@);
        }
        values.append(&mut more);
        i += 1;
    }
    assert(texts.take(parts.len() as int) =~= texts);
    values
}

/// The addresses whose octet at place `depth` is one of the first `count`
/// values listed for that place, and whose later octets are any of the
/// values listed for theirs; `prefix` is the number that the octets before
/// `depth` make. They come in the order of the lists, the last octet
/// changing fastest.
pub open spec fn combos_upto(octets: Seq<Seq<u8>>, depth: int, prefix: nat, count: int) -> Seq<u32>
    decreases 4 - depth, count,
{
    if depth >= 4 {
        seq![prefix as u32]
    } else if count <= 0 {
        Seq::empty()
    } else {
        combos_upto(octets, depth, prefix, count - 1) + combos_upto(
            octets,
            depth + 1,
            prefix * 256 + octets[depth][count - 1] as nat,
            if depth + 1 < 4 {
                octets[depth + 1].len() as int
            } else {
                0
            },
        )
    }
}

/// Every address that takes each of its four octets from the values listed
/// for it, as a number.
pub open spec fn addresses_of(octets: Seq<Seq<u8>>) -> Seq<u32> {
    combos_upto(octets, 0, 0, octets[0].len() as int)
}

/// The values of each of `lists`.
pub open spec fn list_values(lists: Seq<Vec<u8>>) -> Seq<Seq<u8>> {
    Seq::new(lists.len(), |i: int| lists[i]@)
}

/// The addresses that a range in the notation of nmap stands for: none
/// unless it has four octets.
pub open spec fn nmap_addresses(text: Seq<char>) -> Seq<u32> {
    let octets = split_on(text, '.');
    if octets.len() != 4 {
        Seq::empty()
    } else {
        addresses_of(Seq::new(4, |i: int| octet_values(octets[i])))
    }
}

/// The number of addresses that `depth` octets can make.
pub open spec fn octet_room(depth: int) -> nat {
    if depth <= 0 {
        1
    } else if depth == 1 {
        0x100
    } else if depth == 2 {
        0x1_0000
    } else if depth == 3 {
        0x100_0000
    } else {
        0x1_0000_0000
    }
}

/// Adds to `result` every address that begins with the octets that make
/// `current` and goes on with any of the values listed for the places from
/// `depth` on.
pub fn generate_ip_addresses(
    result: &mut Vec<u32>,
    octet_values: &Vec<Vec<u8>>,
    depth: usize,
    current: u32,
)
    requires
        octet_values@.len() == 4,
        depth <= 4,
        current < octet_room(depth as int),
    ensures
        final(result)@ == old(result)@ + combos_upto(
            list_values(octet_values@),
            depth as int,
            current as nat,
            if depth < 4 {
                octet_values@[depth as int]@.len() as int
            } else {
                0
            },
        ),
    decreases 4 - depth,
{
    let ghost lists = list_values(octet_values@);
    if depth == 4 {
        result.push(current);
        assert(final(result)@ =~= old(result)@ + seq![current]);
        return ;
    }
    let values = &octet_values[depth];
    assert(lists[depth as int] == values@);
    let mut k: usize = 0;
    assert(old(result)@ + combos_upto(lists, depth as int, current as nat, 0) =~= old(result)@);
    while k < values.len()
        invariant
            k <= values.len(),
            octet_values@.len() == 4,
            depth < 4,
            current < octet_room(depth as int),
            lists == list_values(octet_values@),
            lists[depth as int] == values@,
            result@ == old(result)@ + combos_upto(lists, depth as int, current as nat, k as int),
        decreases values.len() - k,
    {
        let next: u32 = current * 256 + values[k] as u32;
        let ghost before = result@;
        generate_ip_addresses(result, octet_values, depth + 1, next);
        proof {
            if depth + 1 < 4 {
                assert(lists[depth + 1] == octet_values@[depth + 1]@);
            }
            assert(result@ =~= old(result)@ + combos_upto(
                lists,
                depth as int,
                current as nat,
                k + 1,
            ));
        }
        k += 1;
    }
}

/// Lists the addresses that a range in the notation of nmap stands for, as
/// numbers, in the order of the lists and the last octet changing fastest.
/// A range that does not have four octets stands for none; a part of a list
/// that cannot be read adds none.
pub fn parse_nmap_range(range_str: &str) -> (addresses: Vec<u32>)
    ensures
        addresses@ == nmap_addresses(range_str@),
{
    let mut result: Vec<u32> = Vec::new();
    let text = chars_of(range_str);
    let octets = split_chars(&text, '.');
    let ghost texts = piece_texts(octets@);
    if octets.len() != 4 {
        return result;
    }
    let mut octet_lists: Vec<Vec<u8>> = Vec::new();
    let mut i: usize = 0;
    while i < 4
        invariant
            i <= 4,
            octets@.len() == 4,
            texts == piece_texts(octets@),
            octet_lists@.len() == i,
            forall|j: int| 0 <= j < i ==> (#[trigger] octet_lists@[j])@ == octet_values(texts[j]),
        decreases 4 - i,
    {
        let values = read_octet(&octets[i]);
        assert(texts[i as int] == octets@[i as int]@);
        octet_lists.push(values);
        i += 1;
    }
    generate_ip_addresses(&mut result, &octet_lists, 0, 0);
    proof {
        assert(list_values(octet_lists@) =~= Seq::new(4, |i: int| octet_values(texts[i])));
        assert(Seq::<u32>::empty() + addresses_of(list_values(octet_lists@)) =~= addresses_of(
            list_values(octet_lists@),
        ));
    }
    result
}

} // verus!
