//! The symbol table that links brightness bytes and ASCII-art characters.
//!
//! Seventy printable characters are ordered from the one with the most ink to
//! the one with the least (a space). The byte range is split into seventy
//! contiguous buckets, one per character.

use vstd::prelude::*;
use crate::converter::ConvertError;

verus! {

/// The number of characters in the table.
pub const SYMBOL_COUNT: usize = 70;

/// The character at `position` in the table, densest first.
pub open spec fn symbol_at(position: int) -> char {
    if 0 <= position < 70 {
        table_entry(position as u8)
    } else {
        ' '
    }
}

/// The table itself, indexed by a byte.
pub open spec fn table_entry(position: u8) -> char {
    match position {
        0 => '$',
        1 => '@',
        2 => 'B',
        3 => '%',
        4 => '8',
        5 => '&',
        6 => 'W',
        7 => 'M',
        8 => '#',
        9 => '*',
        10 => 'o',
        11 => 'a',
        12 => 'h',
        13 => 'k',
        14 => 'b',
        15 => 'd',
        16 => 'p',
        17 => 'q',
        18 => 'w',
        19 => 'm',
        20 => 'Z',
        21 => 'O',
        22 => '0',
        23 => 'Q',
        24 => 'L',
        25 => 'C',
        26 => 'J',
        27 => 'U',
        28 => 'Y',
        29 => 'X',
        30 => 'z',
        31 => 'c',
        32 => 'v',
        33 => 'u',
        34 => 'n',
        35 => 'x',
        36 => 'r',
        37 => 'j',
        38 => 'f',
        39 => 't',
        40 => '/',
        41 => '\\',
        42 => '|',
        43 => '(',
        44 => ')',
        45 => '1',
        46 => '{',
        47 => '}',
        48 => '[',
        49 => ']',
        50 => '?',
        51 => '-',
        52 => '_',
        53 => '+',
        54 => '~',
        55 => '<',
        56 => '>',
        57 => 'i',
        58 => '!',
        59 => 'l',
        60 => 'I',
        61 => ';',
        62 => ':',
        63 => ',',
        64 => '"',
        65 => '^',
        66 => '`',
        67 => '\'',
        68 => '.',
        69 => ' ',
        _ => ' ',
    }
}

/// The position of `c` in the table, or -1 where `c` is not in it.
pub open spec fn position_of(c: char) -> int {
    match c {
        '$' => 0,
        '@' => 1,
        'B' => 2,
        '%' => 3,
        '8' => 4,
        '&' => 5,
        'W' => 6,
        'M' => 7,
        '#' => 8,
        '*' => 9,
        'o' => 10,
        'a' => 11,
        'h' => 12,
        'k' => 13,
        'b' => 14,
        'd' => 15,
        'p' => 16,
        'q' => 17,
        'w' => 18,
        'm' => 19,
        'Z' => 20,
        'O' => 21,
        '0' => 22,
        'Q' => 23,
        'L' => 24,
        'C' => 25,
        'J' => 26,
        'U' => 27,
        'Y' => 28,
        'X' => 29,
        'z' => 30,
        'c' => 31,
        'v' => 32,
        'u' => 33,
        'n' => 34,
        'x' => 35,
        'r' => 36,
        'j' => 37,
        'f' => 38,
        't' => 39,
        '/' => 40,
        '\\' => 41,
        '|' => 42,
        '(' => 43,
        ')' => 44,
        '1' => 45,
        '{' => 46,
        '}' => 47,
        '[' => 48,
        ']' => 49,
        '?' => 50,
        '-' => 51,
        '_' => 52,
        '+' => 53,
        '~' => 54,
        '<' => 55,
        '>' => 56,
        'i' => 57,
        '!' => 58,
        'l' => 59,
        'I' => 60,
        ';' => 61,
        ':' => 62,
        ',' => 63,
        '"' => 64,
        '^' => 65,
        '`' => 66,
        '\'' => 67,
        '.' => 68,
        ' ' => 69,
        _ => -1,
    }
}

/// Whether `c` is one of the table's characters.
pub open spec fn is_symbol(c: char) -> bool {
    position_of(c) >= 0
}

/// The table as a sequence.
pub open spec fn symbols() -> Seq<char> {
    Seq::new(70, |i: int| symbol_at(i))
}

/// The bucket that a brightness byte falls into: `b / 3.65`, truncated.
pub open spec fn bucket_of(b: int) -> int {
    b * 20 / 73
}

/// The brightness that stands for the character at `position`: `position * 3.65`, truncated.
pub open spec fn brightness_at(position: int) -> int {
    position * 73 / 20
}

/// The character that stands for brightness `b`.
pub open spec fn spec_symbol_for_brightness(b: u8) -> char {
    symbol_at(bucket_of(b as int))
}

/// What looking up `c` gives: its brightness, or the unknown-symbol error.
pub open spec fn spec_brightness_for_symbol(c: char) -> Result<u8, ConvertError> {
    if is_symbol(c) {
        Ok(brightness_at(position_of(c)) as u8)
    } else {
        Err(ConvertError::UnknownASCIISymbol(c))
    }
}

/// The table's positions and characters match one for one.
pub proof fn lemma_position_of_symbol_at(i: int)
    requires
        0 <= i < 70,
    ensures
        position_of(symbol_at(i)) == i,
{
}

/// A character with a position is the character at that position.
pub proof fn lemma_symbol_at_position_of(c: char)
    requires
        is_symbol(c),
    ensures
        0 <= position_of(c) < 70,
        symbol_at(position_of(c)) == c,
{
}

proof fn lemma_bucket_in_range(b: int)
    requires
        0 <= b <= 255,
    ensures
        0 <= bucket_of(b) < 70,
{
    assert(0 <= b * 20 / 73 < 70) by (nonlinear_arith)
        requires
            0 <= b <= 255,
    ;
}

proof fn lemma_brightness_in_range(p: int)
    requires
        0 <= p < 70,
    ensures
        0 <= brightness_at(p) <= 251,
{
    assert(0 <= p * 73 / 20 <= 251) by (nonlinear_arith)
        requires
            0 <= p < 70,
    ;
}

/// The characters reached from bytes: the set of all `symbol_for_brightness(b)`.
pub open spec fn reachable_symbols() -> Set<char> {
    Set::new(|c: char| exists|b: u8| spec_symbol_for_brightness(b) == c)
}

/// No character appears twice in the table.
pub proof fn lemma_symbols_distinct()
    ensures
        symbols().no_duplicates(),
{
    assert forall|i: int, j: int| 0 <= i < symbols().len() && 0 <= j < symbols().len() && i != j
        implies symbols()[i] != symbols()[j] by {
        lemma_position_of_symbol_at(i);
        lemma_position_of_symbol_at(j);
    }
}

/// Every byte maps to one of the seventy characters, and every one of them is
/// reached by some byte, so the bytes reach exactly seventy characters.
pub proof fn lemma_every_byte_has_symbol()
    ensures
        forall|b: u8| symbols().contains(#[trigger] spec_symbol_for_brightness(b)),
        reachable_symbols() == symbols().to_set(),
        reachable_symbols().len() == 70,
{
    assert forall|b: u8| symbols().contains(#[trigger] spec_symbol_for_brightness(b)) by {
        lemma_bucket_in_range(b as int);
        assert(symbols()[bucket_of(b as int)] == spec_symbol_for_brightness(b));
    }
    assert forall|c: char| reachable_symbols().contains(c) <==> symbols().to_set().contains(c) by {
        if reachable_symbols().contains(c) {
            let b = choose|b: u8| spec_symbol_for_brightness(b) == c;
            assert(symbols().contains(spec_symbol_for_brightness(b)));
        }
        if symbols().to_set().contains(c) {
            let i = choose|i: int| 0 <= i < symbols().len() && symbols()[i] == c;
            lemma_bucket_of_first_brightness(i);
            assert(spec_symbol_for_brightness(first_brightness_of(i) as u8) == c);
        }
    }
    assert(reachable_symbols() =~= symbols().to_set());
    lemma_symbols_distinct();
    symbols().unique_seq_to_set();
}

/// The least byte of bucket `p`: `p * 73 / 20` rounded up.
pub open spec fn first_brightness_of(p: int) -> int {
    (p * 73 + 19) / 20
}

proof fn lemma_bucket_of_first_brightness(p: int)
    requires
        0 <= p < 70,
    ensures
        0 <= first_brightness_of(p) <= 255,
        bucket_of(first_brightness_of(p)) == p,
{
    let b = (p * 73 + 19) / 20;
    assert(20 * b <= p * 73 + 19 && p * 73 + 19 < 20 * b + 20) by (nonlinear_arith)
        requires
            b == (p * 73 + 19) / 20,
            0 <= p,
    ;
    assert(b * 20 / 73 == p) by (nonlinear_arith)
        requires
            20 * b <= p * 73 + 19,
            p * 73 <= 20 * b,
            0 <= p,
    ;
    assert(0 <= b <= 255) by (nonlinear_arith)
        requires
            b == (p * 73 + 19) / 20,
            0 <= p < 70,
    ;
}

/// Looking a character up and mapping the brightness back gives the same
/// character, for the characters whose brightness `position * 3.65` is a
/// whole number (positions 0, 20, 40 and 60). For the others the
/// truncation of `position * 3.65` lands in the bucket below.
pub proof fn lemma_symbol_round_trip(s: char)
    requires
        is_symbol(s),
        position_of(s) % 20 == 0,
    ensures
        spec_brightness_for_symbol(s) matches Ok(b) && spec_symbol_for_brightness(b) == s,
{
    let p = position_of(s);
    lemma_symbol_at_position_of(s);
    lemma_brightness_in_range(p);
    assert(brightness_at(p) * 20 / 73 == p) by (nonlinear_arith)
        requires
            p % 20 == 0,
            0 <= p,
            brightness_at(p) == p * 73 / 20,
    ;
}

/// The character for a byte depends on the byte alone: two lookups of the
/// same byte give the same character.
pub proof fn lemma_symbol_for_brightness_deterministic(b: u8, r1: char, r2: char)
    requires
        r1 == spec_symbol_for_brightness(b),
        r2 == spec_symbol_for_brightness(b),
    ensures
        r1 == r2,
{
}

/// Map a brightness byte to the character that stands for it.
pub fn symbol_for_brightness(brightness: u8) -> (r: char)
    ensures
        r == spec_symbol_for_brightness(brightness),
        is_symbol(r),
{
    let idx: u32 = brightness as u32 * 20 / 73;
    proof {
        lemma_bucket_in_range(brightness as int);
        lemma_position_of_symbol_at(idx as int);
    }
    symbol_at_index(idx)
}

/// Map a character of the table to its brightness byte.
///
/// A character that is not in the table gives
/// [`ConvertError::UnknownASCIISymbol`] with that character.
pub fn brightness_for_symbol(symbol: char) -> (r: Result<u8, ConvertError>)
    ensures
        r == spec_brightness_for_symbol(symbol),
{
    match index_of_symbol(symbol) {
        Some(p) => {
            proof {
                lemma_brightness_in_range(p as int);
            }
            Ok((p * 73 / 20) as u8)
        },
        None => Err(ConvertError::UnknownASCIISymbol(symbol)),
    }
}

fn symbol_at_index(i: u32) -> (r: char)
    requires
        i < 70,
    ensures
        r == symbol_at(i as int),
{
    match i {
        0 => '$',
        1 => '@',
        2 => 'B',
        3 => '%',
        4 => '8',
        5 => '&',
        6 => 'W',
        7 => 'M',
        8 => '#',
        9 => '*',
        10 => 'o',
        11 => 'a',
        12 => 'h',
        13 => 'k',
        14 => 'b',
        15 => 'd',
        16 => 'p',
        17 => 'q',
        18 => 'w',
        19 => 'm',
        20 => 'Z',
        21 => 'O',
        22 => '0',
        23 => 'Q',
        24 => 'L',
        25 => 'C',
        26 => 'J',
        27 => 'U',
        28 => 'Y',
        29 => 'X',
        30 => 'z',
        31 => 'c',
        32 => 'v',
        33 => 'u',
        34 => 'n',
        35 => 'x',
        36 => 'r',
        37 => 'j',
        38 => 'f',
        39 => 't',
        40 => '/',
        41 => '\\',
        42 => '|',
        43 => '(',
        44 => ')',
        45 => '1',
        46 => '{',
        47 => '}',
        48 => '[',
        49 => ']',
        50 => '?',
        51 => '-',
        52 => '_',
        53 => '+',
        54 => '~',
        55 => '<',
        56 => '>',
        57 => 'i',
        58 => '!',
        59 => 'l',
        60 => 'I',
        61 => ';',
        62 => ':',
        63 => ',',
        64 => '"',
        65 => '^',
        66 => '`',
        67 => '\'',
        68 => '.',
        69 => ' ',
        _ => ' ',
    }
}

fn index_of_symbol(c: char) -> (r: Option<u32>)
    ensures
        r matches Some(p) ==> is_symbol(c) && p as int == position_of(c) && p < 70,
        r is None ==> !is_symbol(c),
{
    match c {
        '$' => Some(0),
        '@' => Some(1),
        'B' => Some(2),
        '%' => Some(3),
        '8' => Some(4),
        '&' => Some(5),
        'W' => Some(6),
        'M' => Some(7),
        '#' => Some(8),
        '*' => Some(9),
        'o' => Some(10),
        'a' => Some(11),
        'h' => Some(12),
        'k' => Some(13),
        'b' => Some(14),
        'd' => Some(15),
        'p' => Some(16),
        'q' => Some(17),
        'w' => Some(18),
        'm' => Some(19),
        'Z' => Some(20),
        'O' => Some(21),
        '0' => Some(22),
        'Q' => Some(23),
        'L' => Some(24),
        'C' => Some(25),
        'J' => Some(26),
        'U' => Some(27),
        'Y' => Some(28),
        'X' => Some(29),
        'z' => Some(30),
        'c' => Some(31),
        'v' => Some(32),
        'u' => Some(33),
        'n' => Some(34),
        'x' => Some(35),
        'r' => Some(36),
        'j' => Some(37),
        'f' => Some(38),
        't' => Some(39),
        '/' => Some(40),
        '\\' => Some(41),
        '|' => Some(42),
        '(' => Some(43),
        ')' => Some(44),
        '1' => Some(45),
        '{' => Some(46),
        '}' => Some(47),
        '[' => Some(48),
        ']' => Some(49),
        '?' => Some(50),
        '-' => Some(51),
        '_' => Some(52),
        '+' => Some(53),
        '~' => Some(54),
        '<' => Some(55),
        '>' => Some(56),
        'i' => Some(57),
        '!' => Some(58),
        'l' => Some(59),
        'I' => Some(60),
        ';' => Some(61),
        ':' => Some(62),
        ',' => Some(63),
        '"' => Some(64),
        '^' => Some(65),
        '`' => Some(66),
        '\'' => Some(67),
        '.' => Some(68),
        ' ' => Some(69),
        _ => None,
    }
}

} // verus!
