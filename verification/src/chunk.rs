use crate::chunk_type::tag_valid;
use crate::chunk_type::ChunkType;
use crate::text;
use crate::wire::lemma_u32_be_bytes_round_trip;
use crate::wire::spec_u32_from_be_bytes;
use crate::wire::spec_u32_to_be_bytes;
use crate::wire::u32_from_be_bytes;
use crate::wire::u32_to_be_bytes;
use vstd::prelude::*;
use vstd::utf8::decode_utf8;
use vstd::utf8::valid_utf8;

verus! {

/// Error returned when a byte buffer does not hold one well-formed chunk, or
/// when a payload is read as text but is not valid UTF-8.
#[derive(Debug)]
pub struct ChunkError;

/// The CRC-32 checksum (ISO-HDLC variant, as used by the PNG ecosystem) of a
/// byte sequence; a function of the bytes alone.
pub uninterp spec fn crc32_of(bytes: Seq<u8>) -> u32;

/// Relies on crc::Crc::<u32>::checksum with the CRC_32_ISO_HDLC algorithm:
/// the checksum depends on the input bytes alone.
#[verifier::external_body]
fn crc32_checksum(bytes: &[u8]) -> (r: u32)
    ensures
        r == crc32_of(bytes@),
{
    crc::Crc::<u32>::new(&crc::CRC_32_ISO_HDLC).checksum(bytes)
}

/// The wire layout of one chunk: 4-byte big-endian payload length, 4 tag
/// bytes, the payload, then the 4-byte big-endian checksum of (tag ‖ payload).
pub open spec fn spec_wire_encoding(tag: Seq<u8>, data: Seq<u8>) -> Seq<u8>
    recommends
        tag.len() == 4,
        data.len() <= u32::MAX,
{
    spec_u32_to_be_bytes(data.len() as u32) + tag + data + spec_u32_to_be_bytes(
        crc32_of(tag + data),
    )
}

/// The payload length a buffer declares in its first four bytes.
pub open spec fn parse_length(b: Seq<u8>) -> u32
    recommends
        b.len() >= 4,
{
    spec_u32_from_be_bytes(b.subrange(0, 4))
}

/// The four tag bytes of a buffer.
pub open spec fn parse_tag(b: Seq<u8>) -> Seq<u8>
    recommends
        b.len() >= 8,
{
    b.subrange(4, 8)
}

/// The payload bytes of a buffer, as many as its length field declares.
pub open spec fn parse_data(b: Seq<u8>) -> Seq<u8>
    recommends
        b.len() >= 8 + parse_length(b),
{
    b.subrange(8, 8 + parse_length(b) as int)
}

/// The trailing checksum field of a buffer.
pub open spec fn parse_crc_field(b: Seq<u8>) -> u32
    recommends
        b.len() >= 12 + parse_length(b),
{
    spec_u32_from_be_bytes(b.subrange(8 + parse_length(b) as int, 12 + parse_length(b) as int))
}

/// True iff a buffer holds exactly one well-formed chunk: the declared
/// length accounts for every byte after the fixed fields, the tag is four
/// ASCII letters, and the trailing checksum matches the recomputation over
/// (tag ‖ payload).
pub open spec fn parse_ok(b: Seq<u8>) -> bool {
    &&& b.len() >= 12
    &&& b.len() == 12 + parse_length(b)
    &&& tag_valid(parse_tag(b))
    &&& parse_crc_field(b) == crc32_of(parse_tag(b) + parse_data(b))
}

/// One length-prefixed, CRC-protected record: a type tag bound to a byte
/// payload, with a checksum over (tag bytes ‖ payload bytes).
#[derive(Debug)]
pub struct Chunk {
    length: u32,
    chunk_type: ChunkType,
    data: Vec<u8>,
    crc: u32,
}

impl Chunk {
    /// The stored payload byte count.
    pub closed spec fn spec_length(self) -> u32 {
        self.length
    }

    /// The four tag bytes.
    pub closed spec fn spec_tag(self) -> Seq<u8> {
        self.chunk_type@
    }

    /// The payload bytes.
    pub closed spec fn spec_data(self) -> Seq<u8> {
        self.data@
    }

    /// The stored checksum.
    pub closed spec fn spec_crc(self) -> u32 {
        self.crc
    }

    /// Every constructed chunk counts its payload in `length`, holds a
    /// well-formed tag, and stores the checksum of (tag ‖ payload).
    #[verifier::type_invariant]
    pub closed spec fn inv(self) -> bool {
        &&& self.length == self.data@.len()
        &&& tag_valid(self.chunk_type@)
        &&& self.crc == crc32_of(self.chunk_type@ + self.data@)
    }

    /// Builds a chunk from a tag and a payload; the length and the checksum
    /// are derived, so construction always succeeds.
    pub fn new(chunk_type: ChunkType, data: Vec<u8>) -> (r: Chunk)
        requires
            data@.len() <= u32::MAX,
        ensures
            r.spec_length() == data@.len(),
            r.spec_tag() == chunk_type@,
            r.spec_data() == data@,
            r.spec_crc() == crc32_of(chunk_type@ + data@),
    {
        proof {
            use_type_invariant(&chunk_type);
            chunk_type.lemma_valid();
        }
        let length = data.len() as u32;
        let tag = chunk_type.bytes();
        let mut buf: Vec<u8> = Vec::new();
        buf.push(tag[0]);
        buf.push(tag[1]);
        buf.push(tag[2]);
        buf.push(tag[3]);
        proof {
            assert(buf@ =~= chunk_type@ + data@.subrange(0, 0));
        }
        let n = data.len();
        let mut i: usize = 0;
        while i < n
            invariant
                n == data@.len(),
                i <= n,
                buf@ == chunk_type@ + data@.subrange(0, i as int),
            decreases n - i,
        {
            buf.push(data[i]);
            proof {
                assert(buf@ =~= chunk_type@ + data@.subrange(0, i + 1));
            }
            i += 1;
        }
        proof {
            assert(buf@ =~= chunk_type@ + data@);
        }
        let crc = crc32_checksum(buf.as_slice());
        Chunk { length, chunk_type, data, crc }
    }

    /// Parses one chunk out of a raw byte buffer: fails unless the buffer
    /// holds exactly the declared payload between a well-formed tag and a
    /// matching trailing checksum.
    pub fn try_from(value: &[u8]) -> (r: Result<Chunk, ChunkError>)
        ensures
            r is Ok <==> parse_ok(value@),
            r is Ok ==> r.unwrap().spec_length() == parse_length(value@),
            r is Ok ==> r.unwrap().spec_tag() == parse_tag(value@),
            r is Ok ==> r.unwrap().spec_data() == parse_data(value@),
            r is Ok ==> r.unwrap().spec_crc() == parse_crc_field(value@),
    {
        if value.len() < 12 {
            return Err(ChunkError);
        }
        let length = u32_from_be_bytes(value[0], value[1], value[2], value[3]);
        proof {
            assert(seq![value@[0], value@[1], value@[2], value@[3]] =~= value@.subrange(0, 4));
        }
        let n = length as usize;
        if value.len() - 12 != n {
            return Err(ChunkError);
        }
        let tag_bytes: [u8; 4] = [value[4], value[5], value[6], value[7]];
        proof {
            assert(tag_bytes@ =~= parse_tag(value@));
        }
        let chunk_type = match ChunkType::new(tag_bytes) {
            Ok(t) => t,
            Err(_) => {
                return Err(ChunkError);
            },
        };
        let mut data: Vec<u8> = Vec::new();
        let mut i: usize = 0;
        while i < n
            invariant
                i <= n,
                n + 12 <= usize::MAX,
                value@.len() == 12 + n,
                data@ == value@.subrange(8, 8 + i as int),
            decreases n - i,
        {
            data.push(value[8 + i]);
            proof {
                assert(data@ =~= value@.subrange(8, 8 + (i + 1)));
            }
            i += 1;
        }
        let mut buf: Vec<u8> = Vec::new();
        buf.push(value[4]);
        buf.push(value[5]);
        buf.push(value[6]);
        buf.push(value[7]);
        let mut j: usize = 0;
        while j < n
            invariant
                j <= n,
                n + 12 <= usize::MAX,
                value@.len() == 12 + n,
                buf@ == value@.subrange(4, 8 + j as int),
            decreases n - j,
        {
            buf.push(value[8 + j]);
            proof {
                assert(buf@ =~= value@.subrange(4, 8 + (j + 1)));
            }
            j += 1;
        }
        proof {
            assert(buf@ =~= parse_tag(value@) + parse_data(value@));
        }
        let crc_expected = crc32_checksum(buf.as_slice());
        let crc = u32_from_be_bytes(value[8 + n], value[9 + n], value[10 + n], value[11 + n]);
        proof {
            assert(seq![value@[8 + n], value@[9 + n], value@[10 + n], value@[11 + n]]
                =~= value@.subrange(8 + n as int, 12 + n as int));
        }
        if crc == crc_expected {
            Ok(Chunk { length, chunk_type, data, crc })
        } else {
            Err(ChunkError)
        }
    }

    /// The payload byte count; always the length of the payload itself.
    pub fn length(&self) -> (r: u32)
        ensures
            r == self.spec_length(),
            r == self.spec_data().len(),
    {
        proof {
            use_type_invariant(self);
        }
        self.length
    }

    /// The chunk's type tag.
    pub fn chunk_type(&self) -> (r: &ChunkType)
        ensures
            r@ == self.spec_tag(),
    {
        &self.chunk_type
    }

    /// The payload bytes.
    pub fn data(&self) -> (r: &[u8])
        ensures
            r@ == self.spec_data(),
    {
        self.data.as_slice()
    }

    /// The stored checksum; always the checksum of (tag ‖ payload).
    pub fn crc(&self) -> (r: u32)
        ensures
            r == self.spec_crc(),
            r == crc32_of(self.spec_tag() + self.spec_data()),
    {
        proof {
            use_type_invariant(self);
        }
        self.crc
    }

    /// The payload as owned text; fails exactly when it is not valid UTF-8.
    pub fn data_as_string(&self) -> (r: Result<String, ChunkError>)
        ensures
            r is Ok <==> valid_utf8(self.spec_data()),
            r is Ok ==> r.unwrap()@ == decode_utf8(self.spec_data()),
    {
        match text::bytes_to_string(self.data.as_slice()) {
            Some(s) => Ok(s),
            None => Err(ChunkError),
        }
    }

    /// The payload as text for presentation; substitutes a fixed placeholder
    /// instead of failing on invalid UTF-8.
    pub fn to_text(&self) -> (r: String)
        ensures
            valid_utf8(self.spec_data()) ==> r@ == decode_utf8(self.spec_data()),
            !valid_utf8(self.spec_data()) ==> r@ == "Invalid UTF-8"@,
    {
        text::render_bytes(self.data.as_slice())
    }

    /// A copy of the payload bytes alone, not the wire encoding.
    pub fn as_bytes(&self) -> (r: Vec<u8>)
        ensures
            r@ == self.spec_data(),
    {
        vstd::slice::slice_to_vec(self.data.as_slice())
    }

    /// The full wire encoding: length ‖ tag ‖ payload ‖ checksum.
    pub fn wire_bytes(&self) -> (r: Vec<u8>)
        ensures
            r@ == spec_wire_encoding(self.spec_tag(), self.spec_data()),
            tag_valid(self.spec_tag()),
            self.spec_data().len() <= u32::MAX,
    {
        proof {
            use_type_invariant(self);
        }
        let mut out: Vec<u8> = Vec::new();
        let len_bytes = u32_to_be_bytes(self.length);
        out.push(len_bytes[0]);
        out.push(len_bytes[1]);
        out.push(len_bytes[2]);
        out.push(len_bytes[3]);
        let tag = self.chunk_type.bytes();
        out.push(tag[0]);
        out.push(tag[1]);
        out.push(tag[2]);
        out.push(tag[3]);
        proof {
            assert(out@ =~= spec_u32_to_be_bytes(self.length) + self.chunk_type@
                + self.data@.subrange(0, 0));
        }
        let n = self.data.len();
        let mut i: usize = 0;
        while i < n
            invariant
                n == self.data@.len(),
                i <= n,
                out@ == spec_u32_to_be_bytes(self.length) + self.chunk_type@ + self.data@.subrange(
                    0,
                    i as int,
                ),
            decreases n - i,
        {
            out.push(self.data[i]);
            proof {
                assert(out@ =~= spec_u32_to_be_bytes(self.length) + self.chunk_type@
                    + self.data@.subrange(0, i + 1));
            }
            i += 1;
        }
        let crc_bytes = u32_to_be_bytes(self.crc);
        out.push(crc_bytes[0]);
        out.push(crc_bytes[1]);
        out.push(crc_bytes[2]);
        out.push(crc_bytes[3]);
        proof {
            assert(self.data@.subrange(0, n as int) =~= self.data@);
            assert(out@ =~= spec_wire_encoding(self.spec_tag(), self.spec_data()));
        }
        out
    }
}

/// Law: the wire encoding of any well-formed tag and any payload whose
/// length fits 32 bits parses back with the same length, tag, payload and
/// checksum.
pub proof fn lemma_wire_round_trip(tag: Seq<u8>, data: Seq<u8>)
    requires
        tag_valid(tag),
        data.len() <= u32::MAX,
    ensures
        parse_ok(spec_wire_encoding(tag, data)),
        parse_length(spec_wire_encoding(tag, data)) == data.len(),
        parse_tag(spec_wire_encoding(tag, data)) == tag,
        parse_data(spec_wire_encoding(tag, data)) == data,
        parse_crc_field(spec_wire_encoding(tag, data)) == crc32_of(tag + data),
{
    let w = spec_wire_encoding(tag, data);
    let n = data.len() as u32;
    lemma_u32_be_bytes_round_trip(n);
    lemma_u32_be_bytes_round_trip(crc32_of(tag + data));
    assert(w.subrange(0, 4) =~= spec_u32_to_be_bytes(n));
    assert(parse_length(w) == n);
    assert(w.subrange(4, 8) =~= tag);
    assert(w.subrange(8, 8 + n as int) =~= data);
    assert(w.subrange(8 + n as int, 12 + n as int) =~= spec_u32_to_be_bytes(crc32_of(tag + data)));
}

/// Law: a buffer shorter than the 12 bytes of fixed fields never parses.
pub proof fn lemma_short_buffer_rejected(b: Seq<u8>)
    requires
        b.len() < 12,
    ensures
        !parse_ok(b),
{
}

/// Law: the integrity gate. A buffer whose trailing checksum field differs
/// from the checksum recomputed over its tag and payload never parses, so a
/// corruption of tag or payload goes undetected only if the two checksums
/// collide.
pub proof fn lemma_checksum_mismatch_rejected(b: Seq<u8>)
    requires
        parse_crc_field(b) != crc32_of(parse_tag(b) + parse_data(b)),
    ensures
        !parse_ok(b),
{
}

} // verus!
