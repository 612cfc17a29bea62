//! Upper-case hexadecimal rendering of byte strings.

use vstd::prelude::*;

use crate::text::push_char;

verus! {

/// The sixteen upper-case hexadecimal digits, indexed by nibble value.
pub const HEX_CHARS: [char; 16] = [
    '0', '1', '2', '3', '4', '5', '6', '7', '8', '9', 'A', 'B', 'C', 'D', 'E', 'F',
];

/// The digit that renders a nibble (a value below 16).
pub open spec fn hex_digit(n: int) -> char {
    if n < 10 {
        (n + 48) as char
    } else {
        (n + 55) as char
    }
}

/// The upper-case hex rendering of `bytes`: two digits per byte, high nibble first.
pub open spec fn hex_of(bytes: Seq<u8>) -> Seq<char>
    decreases bytes.len(),
{
    if bytes.len() == 0 {
        Seq::empty()
    } else {
        hex_of(bytes.drop_last()) + seq![
            hex_digit(bytes.last() as int / 16),
            hex_digit(bytes.last() as int % 16),
        ]
    }
}

proof fn lemma_hex_chars_table(i: int)
    requires
        0 <= i < 16,
    ensures
        HEX_CHARS@[i] == hex_digit(i),
{
}

/// Renders `bytes` as upper-case hexadecimal, two characters per byte.
pub fn to_hex_str(bytes: &[u8]) -> (rtn: String)
    ensures
        rtn@ == hex_of(bytes@),
{
    let mut rtn = String::new();
    let mut i: usize = 0;
    while i < bytes.len()
        invariant
            0 <= i <= bytes@.len(),
            rtn@ == hex_of(bytes@.subrange(0, i as int)),
        decreases bytes@.len() - i,
    {
        let byte = bytes[i];
        let upper = ((byte & 0xF0) >> 4) as usize;
        let lower = (byte & 0x0F) as usize;
        assert(upper == byte / 16 && lower == byte % 16) by (bit_vector)
            requires
                upper == ((byte & 0xF0) >> 4) as usize,
                lower == (byte & 0x0F) as usize,
        ;
        proof {
            lemma_hex_chars_table(upper as int);
            lemma_hex_chars_table(lower as int);
        }
        push_char(&mut rtn, HEX_CHARS[upper]);
        push_char(&mut rtn, HEX_CHARS[lower]);
        assert(bytes@.subrange(0, i + 1).drop_last() == bytes@.subrange(0, i as int));
        i = i + 1;
    }
    assert(bytes@.subrange(0, bytes@.len() as int) == bytes@);
    rtn
}

/// Whether `c` is one of the sixteen upper-case hexadecimal digits.
pub open spec fn is_upper_hex_digit(c: char) -> bool {
    ('0' <= c <= '9') || ('A' <= c <= 'F')
}

/// Hex rendering is compositional: the rendering of two byte strings one
/// after the other is the two renderings one after the other.
pub proof fn lemma_hex_of_concat(a: Seq<u8>, b: Seq<u8>)
    ensures
        hex_of(a + b) == hex_of(a) + hex_of(b),
    decreases b.len(),
{
    if b.len() == 0 {
        assert(a + b == a);
    } else {
        lemma_hex_of_concat(a, b.drop_last());
        assert((a + b).drop_last() == a + b.drop_last());
    }
}

/// Every byte becomes exactly two characters, each an upper-case hex digit.
pub proof fn lemma_hex_of_shape(bytes: Seq<u8>)
    ensures
        hex_of(bytes).len() == 2 * bytes.len(),
        forall|i: int| 0 <= i < hex_of(bytes).len() ==> is_upper_hex_digit(#[trigger] hex_of(bytes)[i]),
    decreases bytes.len(),
{
    if bytes.len() > 0 {
        lemma_hex_of_shape(bytes.drop_last());
        let prefix = hex_of(bytes.drop_last());
        let hi = bytes.last() as int / 16;
        let lo = bytes.last() as int % 16;
        assert(is_upper_hex_digit(hex_digit(hi)));
        assert(is_upper_hex_digit(hex_digit(lo)));
        assert forall|i: int| 0 <= i < hex_of(bytes).len() implies is_upper_hex_digit(
            #[trigger] hex_of(bytes)[i],
        ) by {
            if i < prefix.len() {
                assert(hex_of(bytes)[i] == prefix[i]);
            }
        }
    }
}

} // verus!
