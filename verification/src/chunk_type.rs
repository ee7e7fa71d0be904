use vstd::prelude::*;

verus! {

/// Error returned when candidate bytes do not form a well-formed type tag.
#[derive(Debug, Clone, PartialEq, Eq)]
pub struct ChunkTypeError;

/// True iff `b` is an ASCII letter (A-Z or a-z).
pub open spec fn is_ascii_alpha(b: u8) -> bool {
    is_ascii_upper(b) || is_ascii_lower(b)
}

/// True iff `b` is an ASCII uppercase letter.
pub open spec fn is_ascii_upper(b: u8) -> bool {
    65 <= b && b <= 90
}

/// True iff `b` is an ASCII lowercase letter.
pub open spec fn is_ascii_lower(b: u8) -> bool {
    97 <= b && b <= 122
}

/// A well-formed type tag: exactly four bytes, all ASCII letters.
pub open spec fn tag_valid(bytes: Seq<u8>) -> bool {
    bytes.len() == 4 && (forall|i: int| 0 <= i < 4 ==> is_ascii_alpha(#[trigger] bytes[i]))
}

/// Executable check that a byte is an ASCII letter.
fn byte_is_alpha(b: u8) -> (r: bool)
    ensures
        r == is_ascii_alpha(b),
{
    (65 <= b && b <= 90) || (97 <= b && b <= 122)
}

/// Executable check that a byte is an ASCII uppercase letter.
fn byte_is_upper(b: u8) -> (r: bool)
    ensures
        r == is_ascii_upper(b),
{
    65 <= b && b <= 90
}

/// Executable check that a byte is an ASCII lowercase letter.
fn byte_is_lower(b: u8) -> (r: bool)
    ensures
        r == is_ascii_lower(b),
{
    97 <= b && b <= 122
}

/// The 4-byte ASCII type identifier attached to every chunk. The case of
/// each byte encodes one property flag; the flags are computed once at
/// construction and never change.
#[derive(Debug, PartialEq, Eq)]
pub struct ChunkType {
    bytes: [u8; 4],
    is_valid: bool,
    is_critical: bool,
    is_public: bool,
    is_reserved_bit_valid: bool,
    is_safe_to_copy: bool,
}

impl View for ChunkType {
    type V = Seq<u8>;

    closed spec fn view(&self) -> Seq<u8> {
        self.bytes@
    }
}

impl ChunkType {
    /// Every constructed tag holds four ASCII letters, and each stored flag
    /// matches the case of its byte position.
    #[verifier::type_invariant]
    pub closed spec fn inv(self) -> bool {
        &&& tag_valid(self.bytes@)
        &&& self.is_valid == true
        &&& self.is_critical == is_ascii_upper(self.bytes@[0])
        &&& self.is_public == is_ascii_upper(self.bytes@[1])
        &&& self.is_reserved_bit_valid == is_ascii_upper(self.bytes@[2])
        &&& self.is_safe_to_copy == is_ascii_lower(self.bytes@[3])
    }

    /// Builds a tag from four raw bytes; fails unless all four are ASCII
    /// letters.
    pub fn new(bytes: [u8; 4]) -> (r: Result<Self, ChunkTypeError>)
        ensures
            r is Ok <==> tag_valid(bytes@),
            r is Ok ==> r.unwrap()@ == bytes@,
    {
        let is_valid = byte_is_alpha(bytes[0]) && byte_is_alpha(bytes[1]) && byte_is_alpha(
            bytes[2],
        ) && byte_is_alpha(bytes[3]);
        let is_critical = byte_is_upper(bytes[0]);
        let is_public = byte_is_upper(bytes[1]);
        let is_reserved_bit_valid = byte_is_upper(bytes[2]);
        let is_safe_to_copy = byte_is_lower(bytes[3]);

        if is_valid {
            Ok(
                ChunkType {
                    bytes,
                    is_valid,
                    is_critical,
                    is_public,
                    is_reserved_bit_valid,
                    is_safe_to_copy,
                },
            )
        } else {
            Err(ChunkTypeError)
        }
    }

    /// Builds a tag from four raw bytes; same behaviour as `new`.
    pub fn try_from(value: [u8; 4]) -> (r: Result<Self, ChunkTypeError>)
        ensures
            r is Ok <==> tag_valid(value@),
            r is Ok ==> r.unwrap()@ == value@,
    {
        ChunkType::new(value)
    }

    /// Builds a tag from the first four bytes of a textual label; labels
    /// longer than four bytes are silently truncated, shorter ones are
    /// rejected.
    pub fn from_str(s: &str) -> (r: Result<Self, ChunkTypeError>)
        ensures
            r is Ok <==> (vstd::utf8::encode_utf8(s@).len() >= 4 && tag_valid(
                vstd::utf8::encode_utf8(s@).subrange(0, 4),
            )),
            r is Ok ==> r.unwrap()@ == vstd::utf8::encode_utf8(s@).subrange(0, 4),
    {
        let bytes = s.as_bytes();
        if bytes.len() >= 4 {
            let chunk_bytes: [u8; 4] = [bytes[0], bytes[1], bytes[2], bytes[3]];
            proof {
                assert(chunk_bytes@ =~= vstd::utf8::encode_utf8(s@).subrange(0, 4));
            }
            ChunkType::new(chunk_bytes)
        } else {
            Err(ChunkTypeError)
        }
    }

    /// True iff the four bytes are all ASCII letters; always true of a
    /// constructed tag, kept as queryable state.
    pub fn is_valid(&self) -> (r: bool)
        ensures
            r == tag_valid(self@),
    {
        proof {
            use_type_invariant(&*self);
        }
        self.is_valid
    }

    /// The flag decoded from the case of the first byte: uppercase means
    /// critical.
    pub fn is_critical(&self) -> (r: bool)
        ensures
            r == is_ascii_upper(self@[0]),
    {
        proof {
            use_type_invariant(&*self);
        }
        self.is_critical
    }

    /// The flag decoded from the case of the second byte: uppercase means
    /// public.
    pub fn is_public(&self) -> (r: bool)
        ensures
            r == is_ascii_upper(self@[1]),
    {
        proof {
            use_type_invariant(&*self);
        }
        self.is_public
    }

    /// The flag decoded from the case of the third byte: uppercase means the
    /// reserved bit is valid.
    pub fn is_reserved_bit_valid(&self) -> (r: bool)
        ensures
            r == is_ascii_upper(self@[2]),
    {
        proof {
            use_type_invariant(&*self);
        }
        self.is_reserved_bit_valid
    }

    /// The flag decoded from the case of the fourth byte: lowercase means
    /// safe to copy.
    pub fn is_safe_to_copy(&self) -> (r: bool)
        ensures
            r == is_ascii_lower(self@[3]),
    {
        proof {
            use_type_invariant(&*self);
        }
        self.is_safe_to_copy
    }

    /// The tag reinterpreted as text. A constructed tag is always ASCII, so
    /// this never falls back to the fixed placeholder for invalid UTF-8:
    /// the result is one character per tag byte, with the byte's own code.
    pub fn to_text(&self) -> (r: String)
        ensures
            r@ == vstd::utf8::decode_utf8(self@),
            r@.len() == 4,
            forall|i: int| 0 <= i < 4 ==> (#[trigger] r@[i]) as u32 == self@[i],
    {
        proof {
            use_type_invariant(&*self);
            assert forall|i: int| 0 <= i < self.bytes@.len() implies self.bytes@[i] < 0x80 by {
                assert(is_ascii_alpha(self.bytes@[i]));
            }
            crate::text::lemma_ascii_bytes_decode(self.bytes@);
        }
        crate::text::render_bytes(self.bytes.as_slice())
    }

    /// The raw four bytes of the tag.
    pub fn bytes(&self) -> (r: [u8; 4])
        ensures
            r@ == self@,
    {
        self.bytes
    }

    /// The construction invariant guarantees four ASCII letters; other
    /// modules combine this with `use_type_invariant`.
    pub proof fn lemma_valid(&self)
        requires
            self.inv(),
        ensures
            tag_valid(self@),
    {
    }
}

} // verus!
