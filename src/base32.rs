//! Unpadded RFC 4648 base32, the text form of a shared secret.
use data_encoding::{DecodeError, BASE32_NOPAD};
use vstd::arithmetic::power2::pow2;
use vstd::prelude::*;

verus! {

/// The error that the base32 decoder reports.
#[verifier::external_type_specification]
#[verifier::external_body]
pub struct ExDecodeError(DecodeError);

/// A symbol of the base32 alphabet `A`-`Z`, `2`-`7`.
pub open spec fn is_base32_symbol(c: char) -> bool {
    ('A' <= c && c <= 'Z') || ('2' <= c && c <= '7')
}

/// The five bits that a symbol stands for.
pub open spec fn symbol_value(c: char) -> nat {
    if 'A' <= c && c <= 'Z' {
        (c as int - 'A' as int) as nat
    } else {
        (c as int - '2' as int + 26) as nat
    }
}

/// The symbols' bits, first symbol most significant, read as one number.
pub open spec fn symbols_value(s: Seq<char>) -> nat
    decreases s.len(),
{
    if s.len() == 0 {
        0
    } else {
        symbols_value(s.drop_last()) * 32 + symbol_value(s.last())
    }
}

/// How many bits of `n` symbols are left over after the whole bytes.
pub open spec fn trailing_bits(n: nat) -> nat {
    (5 * n) % 8
}

/// How many bytes `n` symbols decode to.
pub open spec fn decoded_len(n: nat) -> nat {
    (5 * n) / 8
}

/// Valid unpadded base32: only symbols of the alphabet, a length that leaves fewer than
/// five trailing bits (a length of 0, 2, 4, 5 or 7 modulo 8), and trailing bits that are zero.
pub open spec fn is_base32_nopad(s: Seq<char>) -> bool {
    &&& forall|i: int| 0 <= i < s.len() ==> is_base32_symbol(#[trigger] s[i])
    &&& trailing_bits(s.len()) < 5
    &&& symbols_value(s) % pow2(trailing_bits(s.len())) == 0
}

/// Byte `i` of the decoded secret: the `i`-th group of eight bits, most significant first.
pub open spec fn decoded_byte(s: Seq<char>, i: int) -> u8 {
    ((symbols_value(s) / pow2(
        trailing_bits(s.len()) + 8 * (decoded_len(s.len()) - 1 - i) as nat,
    )) % 256) as u8
}

/// The bytes that a valid unpadded base32 text decodes to.
pub open spec fn base32_decoded(s: Seq<char>) -> Seq<u8> {
    Seq::new(decoded_len(s.len()), |i: int| decoded_byte(s, i))
}

/// Relies on `data_encoding::BASE32_NOPAD.decode`: it accepts exactly the valid unpadded
/// base32 texts and returns their bytes. It panics on an input of more than `usize::MAX / 8`
/// bytes, and a character takes at most four bytes.
#[verifier::external_body]
pub(crate) fn decode_base32(text: &str) -> (r: Result<Vec<u8>, DecodeError>)
    requires
        text@.len() <= usize::MAX / 32,
    ensures
        r is Ok <==> is_base32_nopad(text@),
        r is Ok ==> r->Ok_0@ == base32_decoded(text@),
{
    BASE32_NOPAD.decode(text.as_bytes())
}

/// A text holding a lower-case letter, `0`, `1`, `8`, `9` or `=` is not valid unpadded base32.
pub proof fn lemma_foreign_symbol_rejected(s: Seq<char>, i: int)
    requires
        0 <= i < s.len(),
        ('a' <= s[i] && s[i] <= 'z') || s[i] == '0' || s[i] == '1' || s[i] == '8' || s[i]
            == '9' || s[i] == '=',
    ensures
        !is_base32_nopad(s),
{
    assert(!is_base32_symbol(s[i]));
}

/// Decoding never yields more bytes than a length bound on the text allows.
pub proof fn lemma_decoded_len_bound(n: nat)
    requires
        n <= usize::MAX / 32,
    ensures
        decoded_len(n) < 0x2000_0000_0000_0000,
{
}

} // verus!
