use vstd::prelude::*;
use vstd::string::*;
use vstd::utf8::*;

verus! {

/// The characters that a sequence of ASCII bytes spells, one per byte.
pub open spec fn ascii_chars(bytes: Seq<u8>) -> Seq<char> {
    bytes.map_values(|b: u8| b as char)
}

/// True when every byte is below 128.
pub open spec fn all_ascii(bytes: Seq<u8>) -> bool {
    forall|i: int| 0 <= i < bytes.len() ==> #[trigger] bytes[i] < 128
}

proof fn lemma_encode_ascii_char(b: u8)
    requires
        b < 128,
    ensures
        encode_scalar((b as char) as u32) == seq![b],
{
    let c: u32 = (b as char) as u32;
    assert(c == b as u32);
    assert(has_width_1_encoding(c));
    assert(leading_byte_width_1(c) == b) by (bit_vector)
        requires
            c == b as u32,
            b < 128,
    ;
}

/// The UTF-8 encoding of the characters that ASCII bytes spell is those bytes.
pub proof fn lemma_encode_ascii_chars(bytes: Seq<u8>)
    requires
        all_ascii(bytes),
    ensures
        encode_utf8(ascii_chars(bytes)) == bytes,
    decreases bytes.len(),
{
    if bytes.len() > 0 {
        let rest = bytes.drop_first();
        assert(all_ascii(rest)) by {
            assert forall|i: int| 0 <= i < rest.len() implies #[trigger] rest[i] < 128 by {
                assert(rest[i] == bytes[i + 1]);
            }
        }
        lemma_encode_ascii_chars(rest);
        assert(ascii_chars(bytes).drop_first() =~= ascii_chars(rest));
        assert(bytes[0] < 128);
        lemma_encode_ascii_char(bytes[0]);
        assert(ascii_chars(bytes)[0] == bytes[0] as char);
        assert(encode_utf8(ascii_chars(bytes)) =~= seq![bytes[0]] + rest);
        assert(seq![bytes[0]] + rest =~= bytes);
    }
}

/// `std::str::from_utf8`: the bytes read as a string when they are valid
/// UTF-8, and an error otherwise; the string it returns borrows the bytes.
#[verifier::external_body]
fn str_from_utf8(bytes: &[u8]) -> (r: Result<&str, core::str::Utf8Error>)
    ensures
        r is Ok <==> valid_utf8(bytes@),
        r matches Ok(s) ==> s.spec_bytes() == bytes@,
{
    core::str::from_utf8(bytes)
}

#[verifier::external_type_specification]
#[verifier::external_body]
pub struct ExUtf8Error(core::str::Utf8Error);

/// Reads ASCII bytes as text.
pub fn ascii_str(bytes: &[u8]) -> (r: &str)
    requires
        all_ascii(bytes@),
    ensures
        r@ == ascii_chars(bytes@),
{
    proof {
        lemma_encode_ascii_chars(bytes@);
        encode_utf8_valid_utf8(ascii_chars(bytes@));
    }
    match str_from_utf8(bytes) {
        Ok(s) => {
            proof {
                encode_utf8_decode_utf8(s@);
                encode_utf8_decode_utf8(ascii_chars(bytes@));
            }
            s
        },
        Err(_) => {
            proof {
                assert(false);
            }
            ""
        },
    }
}

} // verus!
