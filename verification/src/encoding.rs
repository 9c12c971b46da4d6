//! The text-encoding guess: a byte string is decodable Unicode text when it
//! is valid UTF-8, an ASCII subset when every byte is below 0x80, and binary
//! otherwise. The whole content is examined, never a sampled prefix, so the
//! guess is exact for the bytes given.

use vstd::prelude::*;

use vstd::utf8::{
    codepoint_width_2, codepoint_width_3, codepoint_width_4, is_continuation_byte,
    is_leading_byte_width_1, is_leading_byte_width_2, is_leading_byte_width_3,
    is_leading_byte_width_4, length_of_first_scalar, not_overlong_encoding, not_surrogate,
    partial_valid_partial_invalid_utf8, partial_valid_utf8, partial_valid_utf8_extend,
    valid_first_scalar, valid_leading_and_continuation_bytes_first_codepoint, valid_utf8,
};

verus! {

/// How a regular file's content decodes as text, if it does.
#[derive(Clone, Copy, Debug, PartialEq, Eq, Structural)]
pub enum TextEncoding {
    /// The bytes decode as UTF-8 and some byte lies outside the ASCII range.
    UnicodeText,
    /// The bytes decode as UTF-8 and all lie in the ASCII range; ASCII text
    /// is also Unicode text.
    AsciiText,
    /// The bytes do not decode as UTF-8.
    Binary,
}

/// True when every byte lies in the ASCII range.
pub open spec fn spec_all_ascii(b: Seq<u8>) -> bool {
    forall|i: int| 0 <= i < b.len() ==> #[trigger] b[i] < 0x80
}

/// The encoding guess for a byte string.
pub open spec fn spec_encoding_of(b: Seq<u8>) -> TextEncoding {
    if valid_utf8(b) {
        if spec_all_ascii(b) {
            TextEncoding::AsciiText
        } else {
            TextEncoding::UnicodeText
        }
    } else {
        TextEncoding::Binary
    }
}

/// Decides whether the bytes form a valid UTF-8 encoding, scanning one
/// encoded scalar at a time.
pub fn is_valid_utf8(bytes: &[u8]) -> (r: bool)
    ensures
        r == valid_utf8(bytes@),
{
    let n = bytes.len();
    let mut i: usize = 0;
    while i < n
        invariant
            0 <= i <= n == bytes@.len(),
            partial_valid_utf8(bytes@, i as int),
        decreases n - i,
    {
        let ghost suffix = bytes@.subrange(i as int, n as int);
        let b0 = bytes[i];
        proof {
            assert(suffix.len() == n - i);
            assert(suffix[0] == b0);
        }
        if b0 < 0x80 {
            proof {
                assert(is_leading_byte_width_1(suffix[0]));
                assert((b0 & 0x7F) < 0x80) by (bit_vector);
                assert(valid_first_scalar(suffix));
                assert(length_of_first_scalar(suffix) == 1);
                partial_valid_utf8_extend(bytes@, i as int);
            }
            i = i + 1;
        } else if b0 < 0xC0 {
            // a continuation byte cannot lead an encoding
            proof {
                assert(!valid_leading_and_continuation_bytes_first_codepoint(suffix));
                lemma_invalid_here(bytes@, i as int);
            }
            return false;
        } else if b0 < 0xE0 {
            if n - i < 2 {
                proof {
                    assert(suffix.len() < 2);
                    assert(!valid_leading_and_continuation_bytes_first_codepoint(suffix));
                    lemma_invalid_here(bytes@, i as int);
                }
                return false;
            }
            let b1 = bytes[i + 1];
            proof {
                assert(suffix[1] == b1);
            }
            if b1 < 0x80 || b1 > 0xBF {
                proof {
                    assert(!valid_leading_and_continuation_bytes_first_codepoint(suffix));
                    lemma_invalid_here(bytes@, i as int);
                }
                return false;
            }
            let cp: u32 = (((b0 & 0x1F) as u32) << 6) | ((b1 & 0x3F) as u32);
            proof {
                assert(cp == codepoint_width_2(b0, b1));
            }
            if cp < 0x80 {
                // overlong two-byte encoding
                proof {
                    assert(!not_overlong_encoding(codepoint_width_2(b0, b1), 2));
                    lemma_invalid_here(bytes@, i as int);
                }
                return false;
            }
            proof {
                assert((((b0 & 0x1F) as u32) << 6) | ((b1 & 0x3F) as u32) <= 0x7FF)
                    by (bit_vector);
                assert(valid_first_scalar(suffix));
                assert(length_of_first_scalar(suffix) == 2);
                partial_valid_utf8_extend(bytes@, i as int);
            }
            i = i + 2;
        } else if b0 < 0xF0 {
            if n - i < 3 {
                proof {
                    assert(suffix.len() < 3);
                    assert(!valid_leading_and_continuation_bytes_first_codepoint(suffix));
                    lemma_invalid_here(bytes@, i as int);
                }
                return false;
            }
            let b1 = bytes[i + 1];
            let b2 = bytes[i + 2];
            proof {
                assert(suffix[1] == b1);
                assert(suffix[2] == b2);
            }
            if b1 < 0x80 || b1 > 0xBF || b2 < 0x80 || b2 > 0xBF {
                proof {
                    assert(!valid_leading_and_continuation_bytes_first_codepoint(suffix));
                    lemma_invalid_here(bytes@, i as int);
                }
                return false;
            }
            let cp: u32 = (((b0 & 0x0F) as u32) << 12) | (((b1 & 0x3F) as u32) << 6) | ((b2
                & 0x3F) as u32);
            proof {
                assert(cp == codepoint_width_3(b0, b1, b2));
            }
            if cp < 0x800 {
                // overlong three-byte encoding
                proof {
                    assert(!not_overlong_encoding(codepoint_width_3(b0, b1, b2), 3));
                    lemma_invalid_here(bytes@, i as int);
                }
                return false;
            }
            if cp >= 0xD800 && cp <= 0xDFFF {
                // surrogate range
                proof {
                    assert(!not_surrogate(codepoint_width_3(b0, b1, b2)));
                    lemma_invalid_here(bytes@, i as int);
                }
                return false;
            }
            proof {
                assert(valid_first_scalar(suffix));
                assert(length_of_first_scalar(suffix) == 3);
                partial_valid_utf8_extend(bytes@, i as int);
            }
            i = i + 3;
        } else if b0 < 0xF8 {
            if n - i < 4 {
                proof {
                    assert(suffix.len() < 4);
                    assert(!valid_leading_and_continuation_bytes_first_codepoint(suffix));
                    lemma_invalid_here(bytes@, i as int);
                }
                return false;
            }
            let b1 = bytes[i + 1];
            let b2 = bytes[i + 2];
            let b3 = bytes[i + 3];
            proof {
                assert(suffix[1] == b1);
                assert(suffix[2] == b2);
                assert(suffix[3] == b3);
            }
            if b1 < 0x80 || b1 > 0xBF || b2 < 0x80 || b2 > 0xBF || b3 < 0x80 || b3 > 0xBF {
                proof {
                    assert(!valid_leading_and_continuation_bytes_first_codepoint(suffix));
                    lemma_invalid_here(bytes@, i as int);
                }
                return false;
            }
            let cp: u32 = (((b0 & 0x07) as u32) << 18) | (((b1 & 0x3F) as u32) << 12) | (((b2
                & 0x3F) as u32) << 6) | ((b3 & 0x3F) as u32);
            proof {
                assert(cp == codepoint_width_4(b0, b1, b2, b3));
            }
            if cp < 0x10000 || cp > 0x10FFFF {
                // overlong four-byte encoding, or beyond the scalar range
                proof {
                    assert(!not_overlong_encoding(codepoint_width_4(b0, b1, b2, b3), 4));
                    lemma_invalid_here(bytes@, i as int);
                }
                return false;
            }
            proof {
                assert(valid_first_scalar(suffix));
                assert(length_of_first_scalar(suffix) == 4);
                partial_valid_utf8_extend(bytes@, i as int);
            }
            i = i + 4;
        } else {
            // no leading-byte form starts at or above 0xF8
            proof {
                assert(!valid_leading_and_continuation_bytes_first_codepoint(suffix));
                lemma_invalid_here(bytes@, i as int);
            }
            return false;
        }
    }
    proof {
        assert(bytes@.subrange(0, n as int) =~= bytes@);
    }
    true
}

/// A sequence whose valid prefix is followed by an ill-formed scalar
/// encoding is not valid UTF-8.
proof fn lemma_invalid_here(bytes: Seq<u8>, i: int)
    requires
        0 <= i < bytes.len(),
        partial_valid_utf8(bytes, i),
        !valid_first_scalar(bytes.subrange(i, bytes.len() as int)),
    ensures
        !valid_utf8(bytes),
{
    let suffix = bytes.subrange(i, bytes.len() as int);
    assert(suffix.len() > 0);
    assert(!valid_utf8(suffix));
    partial_valid_partial_invalid_utf8(bytes, i);
}

/// Decides whether every byte lies in the ASCII range.
pub fn all_ascii(bytes: &[u8]) -> (r: bool)
    ensures
        r == spec_all_ascii(bytes@),
{
    let n = bytes.len();
    let mut i: usize = 0;
    while i < n
        invariant
            0 <= i <= n == bytes@.len(),
            forall|j: int| 0 <= j < i ==> #[trigger] bytes@[j] < 0x80,
        decreases n - i,
    {
        if bytes[i] >= 0x80 {
            return false;
        }
        i = i + 1;
    }
    true
}

/// Guesses the encoding of a regular file's content by attempting a full
/// UTF-8 decode, then checking for the ASCII subset.
pub fn encoding_of(bytes: &[u8]) -> (e: TextEncoding)
    ensures
        e == spec_encoding_of(bytes@),
{
    if is_valid_utf8(bytes) {
        if all_ascii(bytes) {
            TextEncoding::AsciiText
        } else {
            TextEncoding::UnicodeText
        }
    } else {
        TextEncoding::Binary
    }
}

/// ASCII content is always decodable as Unicode text: a byte string whose
/// bytes all lie in the ASCII range is valid UTF-8.
pub proof fn lemma_ascii_is_unicode(b: Seq<u8>)
    requires
        spec_all_ascii(b),
    ensures
        valid_utf8(b),
{
    assert(partial_valid_utf8(b, 0)) by {
        assert(b.subrange(0, 0) =~= Seq::<u8>::empty());
    }
    assert(forall|i: int| 0 <= i < b.len() ==> is_leading_byte_width_1(#[trigger] b[i]));
    vstd::utf8::partial_valid_utf8_extend_ascii_block(b, 0, b.len() as int);
    assert(b.subrange(0, b.len() as int) =~= b);
}

} // verus!
