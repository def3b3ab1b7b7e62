//! The owning box for UTF-8 text.
//!
//! [`MStr`] is a malloc-backed sequence of bytes whose invariant is that the
//! bytes are a valid UTF-8 encoding for as long as the box exists.  Text
//! decomposes losslessly into its byte-sequence form and reconstructs from
//! it without copying; the checked path validates the bytes with a verified
//! validator and, on failure, hands the caller the untouched bytes back.

use vstd::prelude::*;

use crate::free::Free;
use crate::heap::alloc_step;
use crate::heap::gen_free;
use crate::heap::gen_malloc;
use crate::heap::Heap;
use crate::heap::SENTINEL;
use crate::slice::MSlice;
use vstd::layout::size_of;
use vstd::string::StringSliceAdditionalSpecFns;
use vstd::utf8::codepoint_width_1;
use vstd::utf8::codepoint_width_2;
use vstd::utf8::codepoint_width_3;
use vstd::utf8::codepoint_width_4;
use vstd::utf8::decode_utf8;
use vstd::utf8::encode_utf8;
use vstd::utf8::is_continuation_byte;
use vstd::utf8::is_leading_byte_width_1;
use vstd::utf8::is_leading_byte_width_2;
use vstd::utf8::is_leading_byte_width_3;
use vstd::utf8::is_leading_byte_width_4;
use vstd::utf8::not_overlong_encoding;
use vstd::utf8::not_surrogate;
use vstd::utf8::pop_first_scalar;
use vstd::utf8::valid_first_scalar;
use vstd::utf8::valid_leading_and_continuation_bytes_first_codepoint;
use vstd::utf8::valid_utf8;
use vstd::utf8::valid_utf8_concat;

verus! {

broadcast use vstd::layout::layout_of_primitives;

/// A well-formed scalar encoding of width `w` sits at the front of `s`:
/// then `s` is valid UTF-8 exactly when the rest of it is, and the `w` bytes
/// on their own are a valid encoding.
proof fn lemma_first_scalar(s: Seq<u8>, w: int, cp: u32)
    requires
        1 <= w <= 4,
        s.len() >= w,
        w == 1 ==> is_leading_byte_width_1(s[0]) && cp == codepoint_width_1(s[0]),
        w == 2 ==> is_leading_byte_width_2(s[0]) && is_continuation_byte(s[1]) && cp
            == codepoint_width_2(s[0], s[1]),
        w == 3 ==> is_leading_byte_width_3(s[0]) && is_continuation_byte(s[1])
            && is_continuation_byte(s[2]) && cp == codepoint_width_3(s[0], s[1], s[2]),
        w == 4 ==> is_leading_byte_width_4(s[0]) && is_continuation_byte(s[1])
            && is_continuation_byte(s[2]) && is_continuation_byte(s[3]) && cp == codepoint_width_4(
            s[0],
            s[1],
            s[2],
            s[3],
        ),
        not_overlong_encoding(cp, w),
        not_surrogate(cp),
    ensures
        valid_first_scalar(s),
        vstd::utf8::length_of_first_scalar(s) == w,
        valid_utf8(s) <==> valid_utf8(s.subrange(w, s.len() as int)),
        valid_utf8(s.subrange(0, w)),
{
    assert(valid_leading_and_continuation_bytes_first_codepoint(s));
    assert(valid_first_scalar(s));
    assert(pop_first_scalar(s) =~= s.subrange(w, s.len() as int));
    let t = s.subrange(0, w);
    assert(valid_leading_and_continuation_bytes_first_codepoint(t));
    assert(valid_first_scalar(t));
    assert(pop_first_scalar(t) =~= Seq::<u8>::empty());
    assert(valid_utf8(Seq::<u8>::empty()));
    assert(valid_utf8(t));
}

/// Checks whether `bytes` is a valid UTF-8 encoding.
///
/// On failure, reports the length of the longest prefix of whole,
/// well-formed scalar encodings; the remainder beginning there is not valid
/// UTF-8, whatever follows it.
pub fn validate_utf8(bytes: &[u8]) -> (r: Result<(), usize>)
    ensures
        r is Ok <==> valid_utf8(bytes@),
        r matches Err(i) ==> {
            &&& i < bytes@.len()
            &&& valid_utf8(bytes@.subrange(0, i as int))
            &&& !valid_utf8(bytes@.subrange(i as int, bytes@.len() as int))
        },
{
    let n = bytes.len();
    let mut i: usize = 0;
    proof {
        assert(bytes@.subrange(0, n as int) =~= bytes@);
        assert(bytes@.subrange(0, 0) =~= Seq::<u8>::empty());
    }
    while i < n
        invariant
            n == bytes@.len(),
            i <= n,
            valid_utf8(bytes@.subrange(0, i as int)),
            valid_utf8(bytes@) <==> valid_utf8(bytes@.subrange(i as int, n as int)),
        decreases n - i,
    {
        let ghost s = bytes@.subrange(i as int, n as int);
        let remaining = n - i;
        let b0 = bytes[i];
        let width: usize;
        let cp: u32;
        if b0 < 0x80 {
            width = 1;
            cp = (b0 & 0x7f) as u32;
            proof {
                assert(b0 & 0x7f == b0) by (bit_vector)
                    requires
                        b0 < 0x80,
                ;
            }
        } else if b0 < 0xc2 {
            // either a stray continuation byte, or a two-byte leading byte
            // so low that every encoding it starts is overlong
            proof {
                assert(!valid_first_scalar(s)) by {
                    if 0xc0 <= b0 && valid_leading_and_continuation_bytes_first_codepoint(s) {
                        let b1 = s[1];
                        assert((((b0 & 0x1f) as u32) << 6 | ((b1 & 0x3f) as u32)) < 0x80)
                            by (bit_vector)
                            requires
                                0xc0 <= b0 < 0xc2,
                        ;
                    }
                }
            }
            return Err(i);
        } else if b0 < 0xe0 {
            if remaining < 2 || !is_continuation(bytes[i + 1]) {
                proof {
                    assert(!valid_first_scalar(s));
                }
                return Err(i);
            }
            let b1 = bytes[i + 1];
            width = 2;
            cp = (((b0 & 0x1f) as u32) << 6) | ((b1 & 0x3f) as u32);
            proof {
                assert(0x80 <= (((b0 & 0x1f) as u32) << 6 | ((b1 & 0x3f) as u32)) <= 0x7ff)
                    by (bit_vector)
                    requires
                        0xc2 <= b0 < 0xe0,
                        0x80 <= b1 < 0xc0,
                ;
            }
        } else if b0 < 0xf0 {
            if remaining < 3 || !is_continuation(bytes[i + 1]) || !is_continuation(bytes[i + 2]) {
                proof {
                    assert(!valid_first_scalar(s));
                }
                return Err(i);
            }
            let b1 = bytes[i + 1];
            let b2 = bytes[i + 2];
            width = 3;
            cp = (((b0 & 0x0f) as u32) << 12) | (((b1 & 0x3f) as u32) << 6) | ((b2 & 0x3f) as u32);
            proof {
                assert((((b0 & 0x0f) as u32) << 12 | ((b1 & 0x3f) as u32) << 6 | ((b2
                    & 0x3f) as u32)) <= 0xffff) by (bit_vector);
            }
            if cp < 0x800 || (0xd800 <= cp && cp <= 0xdfff) {
                // an overlong three-byte encoding, or a surrogate
                proof {
                    assert(!valid_first_scalar(s));
                }
                return Err(i);
            }
        } else if b0 < 0xf8 {
            if remaining < 4 || !is_continuation(bytes[i + 1]) || !is_continuation(bytes[i + 2])
                || !is_continuation(bytes[i + 3]) {
                proof {
                    assert(!valid_first_scalar(s));
                }
                return Err(i);
            }
            let b1 = bytes[i + 1];
            let b2 = bytes[i + 2];
            let b3 = bytes[i + 3];
            width = 4;
            cp = (((b0 & 0x07) as u32) << 18) | (((b1 & 0x3f) as u32) << 12) | (((b2
                & 0x3f) as u32) << 6) | ((b3 & 0x3f) as u32);
            if cp < 0x10000 || cp > 0x10ffff {
                // an overlong four-byte encoding, or beyond the last scalar
                proof {
                    assert(!valid_first_scalar(s));
                }
                return Err(i);
            }
        } else {
            // 0xf8 and above lead no scalar encoding at all
            proof {
                assert(!valid_first_scalar(s));
            }
            return Err(i);
        }
        proof {
            lemma_first_scalar(s, width as int, cp);
            assert(s.subrange(width as int, s.len() as int) =~= bytes@.subrange(
                (i + width) as int,
                n as int,
            ));
            assert(s.subrange(0, width as int) =~= bytes@.subrange(i as int, (i + width) as int));
            valid_utf8_concat(
                bytes@.subrange(0, i as int),
                bytes@.subrange(i as int, (i + width) as int),
            );
            assert(bytes@.subrange(0, i as int) + bytes@.subrange(i as int, (i + width) as int)
                =~= bytes@.subrange(0, (i + width) as int));
        }
        i = i + width;
    }
    proof {
        assert(bytes@.subrange(i as int, n as int) =~= Seq::<u8>::empty());
    }
    Ok(())
}

/// Whether `b` has the bit pattern of a UTF-8 continuation byte.
fn is_continuation(b: u8) -> (r: bool)
    ensures
        r == is_continuation_byte(b),
{
    0x80 <= b && b < 0xc0
}

/// Copies a borrowed byte slice into a fresh vector.
fn copy_bytes(src: &[u8]) -> (r: Vec<u8>)
    ensures
        r@ == src@,
{
    let n = src.len();
    let mut out: Vec<u8> = Vec::new();
    let mut i: usize = 0;
    while i < n
        invariant
            n == src@.len(),
            i <= n,
            out@ == src@.subrange(0, i as int),
        decreases n - i,
    {
        out.push(src[i]);
        proof {
            assert(src@.subrange(0, i as int).push(src@[i as int]) =~= src@.subrange(
                0,
                (i + 1) as int,
            ));
        }
        i = i + 1;
    }
    proof {
        assert(src@.subrange(0, n as int) =~= src@);
    }
    out
}

#[verifier::external_type_specification]
#[verifier::external_body]
pub struct ExUtf8Error(core::str::Utf8Error);

/// Relies on `core::str::from_utf8`: it returns `Ok` exactly when the bytes
/// are a valid UTF-8 encoding, and the returned string slice contains those
/// same bytes.
pub assume_specification[ core::str::from_utf8 ](v: &[u8]) -> (r: Result<
    &str,
    core::str::Utf8Error,
>)
    ensures
        r is Ok <==> valid_utf8(v@),
        r matches Ok(s) ==> s.spec_bytes() == v@,
;

/// The textual-validity error: the bytes were not valid UTF-8.
///
/// The error keeps the rejected byte sequence, still fully owned and
/// unmodified, so the caller loses nothing by trying the checked path.
pub struct Utf8Error {
    valid_up_to: usize,
    bytes: MSlice<u8>,
}

impl Utf8Error {
    /// The rejected byte-sequence box, exactly as it was handed in.
    pub closed spec fn spec_slice(&self) -> MSlice<u8> {
        self.bytes
    }

    /// Length of the longest prefix of whole, well-formed scalar encodings.
    pub closed spec fn spec_valid_up_to(&self) -> usize {
        self.valid_up_to
    }

    /// Length of the longest prefix of whole, well-formed scalar encodings.
    pub fn valid_up_to(&self) -> (n: usize)
        ensures
            n == self.spec_valid_up_to(),
    {
        self.valid_up_to
    }

    /// Hands the rejected bytes back to the caller.
    pub fn into_bytes(self) -> (r: MSlice<u8>)
        ensures
            r == self.spec_slice(),
    {
        self.bytes
    }
}

/// A malloc-backed string: the exclusive owner of one allocation holding
/// UTF-8 text.
///
/// The box pairs the allocation's address with the encoded bytes stored
/// there; its view is the byte sequence, and [`MStr::chars`] is the decoded
/// character sequence.  The bytes are valid UTF-8 whenever the box exists.
pub struct MStr {
    handle: usize,
    bytes: Vec<u8>,
}

impl View for MStr {
    type V = Seq<u8>;

    closed spec fn view(&self) -> Seq<u8> {
        self.bytes@
    }
}

impl Free for MStr {
    closed spec fn spec_handle(&self) -> usize {
        self.handle
    }

    open spec fn wf(&self) -> bool {
        &&& self.spec_handle() != 0
        &&& self.spec_handle() == SENTINEL ==> self@.len() == 0
        &&& valid_utf8(self@)
    }

    /// UTF-8 bytes need no element-wise destruction: text frees by
    /// reinterpreting itself as its byte sequence and delegating.
    fn free(self, heap: &mut Heap) {
        self.into_bytes().free(heap);
    }
}

impl MStr {
    /// The decoded character sequence.
    pub open spec fn chars(&self) -> Seq<char> {
        decode_utf8(self@)
    }

    /// Number of UTF-8 code units (bytes).
    pub fn len(&self) -> (n: usize)
        ensures
            n == self@.len(),
    {
        self.bytes.len()
    }

    /// The address owned by the box: non-null even for empty text.
    pub fn as_ptr(&self) -> (p: usize)
        requires
            self.wf(),
        ensures
            p == self.spec_handle(),
            p != 0,
    {
        self.handle
    }

    /// The text's bytes, as a borrowed slice.
    pub fn as_bytes(&self) -> (r: &[u8])
        ensures
            r@ == self@,
    {
        self.bytes.as_slice()
    }

    /// The text, as a borrowed string slice.
    pub fn as_str(&self) -> (r: &str)
        requires
            self.wf(),
        ensures
            r.spec_bytes() == self@,
            r@ == self.chars(),
    {
        match core::str::from_utf8(self.bytes.as_slice()) {
            Ok(s) => {
                proof {
                    vstd::utf8::encode_utf8_decode_utf8(s@);
                }
                s
            },
            Err(_) => vstd::pervasive::unreached(),
        }
    }

    /// Creates a string box from an owned byte-sequence box, reporting a
    /// textual-validity error — with the bytes handed back untouched — when
    /// the bytes are not valid UTF-8.
    ///
    /// No allocator call and no copy is made on either path: the same
    /// allocation is reinterpreted, or returned.
    pub fn from_utf8(bytes: MSlice<u8>) -> (r: Result<MStr, Utf8Error>)
        requires
            bytes.wf(),
        ensures
            r is Ok <==> valid_utf8(bytes@),
            r matches Ok(s) ==> {
                &&& s.wf()
                &&& s@ == bytes@
                &&& s.spec_handle() == bytes.spec_handle()
            },
            r matches Err(e) ==> {
                &&& e.spec_slice() == bytes
                &&& e.spec_valid_up_to() < bytes@.len()
                &&& valid_utf8(bytes@.subrange(0, e.spec_valid_up_to() as int))
                &&& !valid_utf8(
                    bytes@.subrange(e.spec_valid_up_to() as int, bytes@.len() as int),
                )
            },
    {
        match validate_utf8(bytes.as_slice()) {
            Ok(_) => {
                let (handle, items) = bytes.into_raw_parts();
                Ok(MStr { handle, bytes: items })
            },
            Err(valid_up_to) => Err(Utf8Error { valid_up_to, bytes }),
        }
    }

    /// Creates a string box from an owned byte-sequence box that the caller
    /// has already established to be valid UTF-8; nothing is checked, copied
    /// or allocated.
    pub fn from_utf8_unchecked(bytes: MSlice<u8>) -> (s: MStr)
        requires
            bytes.wf(),
            valid_utf8(bytes@),
        ensures
            s.wf(),
            s@ == bytes@,
            s.spec_handle() == bytes.spec_handle(),
    {
        let (handle, items) = bytes.into_raw_parts();
        MStr { handle, bytes: items }
    }

    /// Decomposes the string box into its byte-sequence form, keeping the
    /// same allocation.
    pub fn into_bytes(self) -> (r: MSlice<u8>)
        requires
            self.wf(),
        ensures
            r.wf(),
            r@ == self@,
            r.spec_handle() == self.spec_handle(),
            valid_utf8(r@),
    {
        let MStr { handle, bytes } = self;
        MSlice::from_owned_parts(handle, bytes)
    }

    /// Wraps an address and the UTF-8 code units stored at it as a string
    /// box, trusting the caller about validity as [`MStr::from_utf8_unchecked`]
    /// does and about the allocation as [`MSlice::from_raw_parts`] does.
    pub fn from_raw_utf8_parts_unchecked(heap: &Heap, handle: usize, bytes: Vec<u8>) -> (s: MStr)
        requires
            handle != 0,
            handle == SENTINEL ==> bytes@.len() == 0,
            handle != SENTINEL ==> heap.is_live(handle),
            valid_utf8(bytes@),
        ensures
            s.wf(),
            s.owned_in(*heap),
            s.spec_handle() == handle,
            s@ == bytes@,
    {
        MStr { handle, bytes }
    }

    /// Wraps an address and the bytes stored at it as a string box, checking
    /// that the bytes are valid UTF-8; on failure the bytes come back as an
    /// owned byte-sequence box inside the error.
    pub fn from_raw_utf8_parts(heap: &Heap, handle: usize, bytes: Vec<u8>) -> (r: Result<
        MStr,
        Utf8Error,
    >)
        requires
            handle != 0,
            handle == SENTINEL ==> bytes@.len() == 0,
            handle != SENTINEL ==> heap.is_live(handle),
        ensures
            r is Ok <==> valid_utf8(bytes@),
            r matches Ok(s) ==> {
                &&& s.wf()
                &&& s.owned_in(*heap)
                &&& s@ == bytes@
                &&& s.spec_handle() == handle
            },
            r matches Err(e) ==> {
                &&& e.spec_slice()@ == bytes@
                &&& e.spec_slice().spec_handle() == handle
                &&& e.spec_valid_up_to() < bytes@.len()
            },
    {
        let slice = MSlice::from_raw_parts(heap, handle, bytes);
        MStr::from_utf8(slice)
    }

    /// Creates a string box by copying the contents of a borrowed string
    /// slice into a fresh allocation.
    pub fn from_str(heap: &mut Heap, text: &str) -> (s: MStr)
        requires
            old(heap).wf(),
            text.spec_bytes().len() != 0 ==> old(heap).can_allocate(),
        ensures
            final(heap).wf(),
            s.wf(),
            s.owned_in(*final(heap)),
            s@ == text.spec_bytes(),
            s.chars() == text@,
            text.spec_bytes().len() == 0 ==> *final(heap) == *old(heap),
            text.spec_bytes().len() != 0 ==> alloc_step(*old(heap), *final(heap), s.spec_handle()),
    {
        let src = text.as_bytes();
        let items = copy_bytes(src);
        let n = items.len();
        let elem_size = core::mem::size_of::<u8>();
        proof {
            assert(size_of::<u8>() == 1);
            assert(elem_size == 1);
            assert(elem_size * n == n);
        }
        let handle = gen_malloc(heap, elem_size, n);
        proof {
            vstd::utf8::encode_utf8_valid_utf8(text@);
            vstd::utf8::encode_utf8_decode_utf8(text@);
        }
        MStr { handle, bytes: items }
    }

    /// Duplicates the text into a fresh box of its own; the original is
    /// untouched.
    pub fn clone_in(&self, heap: &mut Heap) -> (s: MStr)
        requires
            old(heap).wf(),
            self.wf(),
            self.owned_in(*old(heap)),
            self@.len() != 0 ==> old(heap).can_allocate(),
        ensures
            final(heap).wf(),
            s.wf(),
            s.owned_in(*final(heap)),
            self.owned_in(*final(heap)),
            s@ == self@,
            self@.len() != 0 ==> s.spec_handle() != self.spec_handle(),
    {
        let items = copy_bytes(self.bytes.as_slice());
        let n = items.len();
        let elem_size = core::mem::size_of::<u8>();
        proof {
            assert(size_of::<u8>() == 1);
            assert(elem_size == 1);
            assert(elem_size * n == n);
        }
        let handle = gen_malloc(heap, elem_size, n);
        proof {
            if self@.len() != 0 {
                old(heap).lemma_live_is_real(self.spec_handle());
            }
        }
        MStr { handle, bytes: items }
    }
}

impl Default for MStr {
    /// Empty text: carries the sentinel and never touches the allocator.
    fn default() -> (s: MStr)
        ensures
            s.wf(),
            s@ == Seq::<u8>::empty(),
            s.spec_handle() == SENTINEL,
    {
        MStr { handle: SENTINEL, bytes: Vec::new() }
    }
}

/// Law (round trip, decoding): reading a valid UTF-8 byte buffer as text and
/// taking the text's encoded bytes reproduces the buffer exactly.
pub proof fn lemma_text_bytes_round_trip(bytes: Seq<u8>)
    requires
        valid_utf8(bytes),
    ensures
        encode_utf8(decode_utf8(bytes)) == bytes,
{
    vstd::utf8::decode_utf8_encode_utf8(bytes);
}

/// Law (round trip, encoding): the UTF-8 encoding of any character sequence
/// is valid, and decoding it gives the characters back exactly.
pub proof fn lemma_chars_bytes_round_trip(chars: Seq<char>)
    ensures
        valid_utf8(encode_utf8(chars)),
        decode_utf8(encode_utf8(chars)) == chars,
{
    vstd::utf8::encode_utf8_valid_utf8(chars);
    vstd::utf8::encode_utf8_decode_utf8(chars);
}

} // verus!
