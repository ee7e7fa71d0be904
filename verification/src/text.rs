use vstd::prelude::*;
use vstd::string::StringSliceAdditionalSpecFns;
use vstd::utf8::decode_utf8;
use vstd::utf8::valid_utf8;

verus! {

/// Relies on std::str::from_utf8: it returns text exactly when the bytes are
/// a valid UTF-8 encoding, and the returned text consists of those bytes.
#[verifier::external_body]
fn utf8_to_str(bytes: &[u8]) -> (r: Option<&str>)
    ensures
        r is Some <==> valid_utf8(bytes@),
        r is Some ==> r.unwrap().spec_bytes() == bytes@,
{
    std::str::from_utf8(bytes).ok()
}

/// ASCII bytes (below 0x80) are always valid UTF-8 and decode to one
/// character per byte, each with the byte's own code.
pub proof fn lemma_ascii_bytes_decode(bytes: Seq<u8>)
    requires
        forall|i: int| 0 <= i < bytes.len() ==> bytes[i] < 0x80,
    ensures
        valid_utf8(bytes),
        decode_utf8(bytes).len() == bytes.len(),
        forall|i: int|
            0 <= i < bytes.len() ==> (#[trigger] decode_utf8(bytes)[i]) as u32 == bytes[i],
    decreases bytes.len(),
{
    if bytes.len() > 0 {
        let b0 = bytes[0];
        assert(b0 & 0x7f == b0) by (bit_vector)
            requires
                b0 < 0x80,
        ;
        assert(vstd::utf8::valid_first_scalar(bytes));
        let rest = vstd::utf8::pop_first_scalar(bytes);
        assert(rest =~= bytes.subrange(1, bytes.len() as int));
        lemma_ascii_bytes_decode(rest);
        vstd::utf8::decode_utf8_first_scalar(bytes);
        let c = vstd::utf8::decode_first_scalar(bytes) as char;
        let v = c as u32;
        vstd::utf8::char_is_scalar(c);
        assert(vstd::utf8::take_first_scalar(bytes) =~= seq![b0]);
        if vstd::utf8::has_width_1_encoding(v) {
            assert(vstd::utf8::leading_byte_width_1(v) == b0);
            assert(v & 0x7f == v) by (bit_vector)
                requires
                    v <= 0x7f,
            ;
            assert(v == b0);
        } else {
            assert(vstd::utf8::encode_scalar(v).len() != 1);
        }
        assert(decode_utf8(bytes) == seq![c] + decode_utf8(rest));
        assert forall|i: int| 0 <= i < bytes.len() implies (#[trigger] decode_utf8(bytes)[i])
            as u32 == bytes[i] by {
            if i > 0 {
                assert(decode_utf8(bytes)[i] == decode_utf8(rest)[i - 1]);
                assert(rest[i - 1] == bytes[i]);
            }
        }
    }
}

/// Interprets bytes as owned text; `None` exactly on invalid UTF-8.
pub fn bytes_to_string(bytes: &[u8]) -> (r: Option<String>)
    ensures
        r is Some <==> valid_utf8(bytes@),
        r is Some ==> r.unwrap()@ == decode_utf8(bytes@),
{
    match utf8_to_str(bytes) {
        Some(s) => {
            proof {
                vstd::utf8::encode_utf8_decode_utf8(s@);
            }
            Some(s.to_owned())
        },
        None => None,
    }
}

/// Interprets bytes as text for presentation; substitutes a fixed
/// placeholder instead of failing on invalid UTF-8.
pub fn render_bytes(bytes: &[u8]) -> (r: String)
    ensures
        valid_utf8(bytes@) ==> r@ == decode_utf8(bytes@),
        !valid_utf8(bytes@) ==> r@ == "Invalid UTF-8"@,
{
    match bytes_to_string(bytes) {
        Some(s) => s,
        None => "Invalid UTF-8".to_owned(),
    }
}

} // verus!
