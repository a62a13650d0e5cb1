//! Character-level helpers shared by path parsing and output naming:
//! ASCII lowercasing, lowercase hexadecimal encoding, and building
//! strings one character at a time.
use vstd::prelude::*;

verus! {

/// ASCII lowercase of one character; any other character is kept.
pub open spec fn lower_char(c: char) -> char {
    if 65 <= c as int && c as int <= 90 {
        ((c as int) + 32) as char
    } else {
        c
    }
}

/// ASCII lowercase of a whole character sequence.
pub open spec fn lower_seq(s: Seq<char>) -> Seq<char> {
    s.map_values(|c: char| lower_char(c))
}

/// The lowercase hexadecimal digit for a value below sixteen.
pub open spec fn hex_digit(n: int) -> char
    recommends
        0 <= n < 16,
{
    if n < 10 {
        (48 + n) as char
    } else {
        (87 + n) as char
    }
}

/// Lowercase hexadecimal encoding of a byte string: two digits per
/// byte, high nibble first.
pub open spec fn hex_of(bytes: Seq<u8>) -> Seq<char>
    decreases bytes.len(),
{
    if bytes.len() == 0 {
        Seq::empty()
    } else {
        hex_of(bytes.drop_last())
            + seq![hex_digit(bytes.last() as int / 16), hex_digit(bytes.last() as int % 16)]
    }
}

/// The hexadecimal encoding is twice as long as its input.
pub proof fn lemma_hex_of_len(bytes: Seq<u8>)
    ensures
        hex_of(bytes).len() == 2 * bytes.len(),
    decreases bytes.len(),
{
    if bytes.len() > 0 {
        lemma_hex_of_len(bytes.drop_last());
    }
}

/// Relies on `String::push`: appends exactly the given character.
#[verifier::external_body]
pub(crate) fn push_char(s: &mut String, c: char)
    ensures
        final(s)@ == old(s)@.push(c),
{
    s.push(c);
}

/// Appends the ASCII-lowercase form of `piece` to `acc`.
pub(crate) fn append_lowered(acc: &mut String, piece: &str)
    ensures
        final(acc)@ == old(acc)@ + lower_seq(piece@),
{
    let n = piece.unicode_len();
    let mut i: usize = 0;
    while i < n
        invariant
            n == piece@.len(),
            i <= n,
            acc@ == old(acc)@ + lower_seq(piece@).take(i as int),
        decreases n - i,
    {
        let c = piece.get_char(i);
        let code: u32 = c as u32;
        let lowered: char = if 65 <= code && code <= 90 {
            ((code + 32) as u8) as char
        } else {
            c
        };
        assert(lowered == lower_char(piece@[i as int]));
        push_char(acc, lowered);
        assert(acc@ =~= old(acc)@ + lower_seq(piece@).take(i + 1));
        i = i + 1;
    }
    assert(lower_seq(piece@).take(n as int) =~= lower_seq(piece@));
}

/// Appends the hexadecimal encoding of `bytes` to `acc`.
pub(crate) fn append_hex(acc: &mut String, bytes: &Vec<u8>)
    ensures
        final(acc)@ == old(acc)@ + hex_of(bytes@),
{
    let n = bytes.len();
    let mut i: usize = 0;
    while i < n
        invariant
            n == bytes@.len(),
            i <= n,
            acc@ == old(acc)@ + hex_of(bytes@.take(i as int)),
        decreases n - i,
    {
        let b = bytes[i];
        let hi: u8 = b / 16;
        let lo: u8 = b % 16;
        let hi_c: char = if hi < 10 {
            (48 + hi) as char
        } else {
            (87 + hi) as char
        };
        let lo_c: char = if lo < 10 {
            (48 + lo) as char
        } else {
            (87 + lo) as char
        };
        assert(hi_c == hex_digit(b as int / 16) && lo_c == hex_digit(b as int % 16));
        push_char(acc, hi_c);
        push_char(acc, lo_c);
        proof {
            let pre = bytes@.take(i as int);
            let cur = bytes@.take(i + 1);
            assert(cur.drop_last() =~= pre);
            assert(cur.last() == bytes@[i as int]);
            assert(acc@ =~= old(acc)@ + hex_of(cur));
        }
        i = i + 1;
    }
    assert(bytes@.take(n as int) =~= bytes@);
}

} // verus!
