//! An owned, null-terminated byte buffer for C interop.
//!
//! `FreeString` owns a byte buffer that is guaranteed to end with exactly one
//! null byte and to contain no other null byte, so it can be handed to native
//! call sites that expect a C-style string. Validation of the null-terminator
//! placement is verified here; the raw-pointer plumbing that passes the bytes
//! across the foreign boundary lives outside the verified library.

use vstd::prelude::*;

verus! {

/// Holds when no byte of `b` is null.
pub open spec fn nul_free(b: Seq<u8>) -> bool {
    forall|i: int| 0 <= i < b.len() ==> b[i] != 0
}

/// Holds when `b` is a well-formed C string: non-empty, terminated by a
/// single null byte, with no interior null byte.
pub open spec fn is_c_string(b: Seq<u8>) -> bool {
    &&& b.len() >= 1
    &&& b[b.len() - 1] == 0
    &&& forall|i: int| 0 <= i < b.len() - 1 ==> b[i] != 0
}

/// Error of `FreeString::new`: the input held a null byte, at the index
/// carried here (the first occurrence).
#[derive(Clone, Copy, Debug, PartialEq, Eq, Structural)]
pub struct NulError(pub usize);

/// Error of `FreeString::from_bytes_with_nul`.
#[derive(Clone, Copy, Debug, PartialEq, Eq, Structural)]
pub enum FromBytesWithNulError {
    /// The input held no null byte at all.
    NotNulTerminated,
    /// The input held a null byte at the carried index (the first
    /// occurrence), which is not its final position.
    InteriorNul(usize),
}

/// An owned, null-terminated byte buffer, safe to hand to native call sites.
///
/// Every live value satisfies the C-string invariant: the buffer is
/// non-empty, its final byte is null, and no other byte is null. The buffer
/// is immutable after construction and is released exactly once, when the
/// value is dropped; ownership is move-only, so no second release can occur.
#[derive(Debug)]
pub struct FreeString {
    buf: Vec<u8>,
}

impl View for FreeString {
    type V = Seq<u8>;

    closed spec fn view(&self) -> Seq<u8> {
        self.buf@
    }
}

/// Relies on memchr::memchr: returns the index of the first occurrence of
/// the needle byte in the haystack, which is less than the haystack's
/// length, or None when the byte does not occur at all.
#[verifier::external_body]
fn find_nul(bytes: &[u8]) -> (r: Option<usize>)
    ensures
        match r {
            Some(i) => i < bytes@.len() && bytes@[i as int] == 0 && (forall|j: int|
                0 <= j < i ==> bytes@[j] != 0),
            None => nul_free(bytes@),
        },
{
    memchr::memchr(0, bytes)
}

impl FreeString {
    #[verifier::type_invariant]
    spec fn wf(&self) -> bool {
        is_c_string(self.buf@)
    }

    /// Construct from a byte buffer; a trailing null byte is appended.
    /// Fails with the index of the first null byte if the input holds one.
    pub fn new(bytes: &[u8]) -> (r: Result<FreeString, NulError>)
        ensures
            match r {
                Ok(s) => nul_free(bytes@) && s@ == bytes@.push(0u8),
                Err(e) => e.0 < bytes@.len() && bytes@[e.0 as int] == 0 && (forall|j: int|
                    0 <= j < e.0 ==> bytes@[j] != 0),
            },
    {
        match find_nul(bytes) {
            Some(i) => Err(NulError(i)),
            None => Ok(Self::from_bytes_unchecked(bytes)),
        }
    }

    /// Construct from a byte buffer that already ends with a null byte; the
    /// input is copied verbatim, with no byte appended. Fails when the input
    /// holds no null byte, or when its first null byte is not its last byte.
    pub fn from_bytes_with_nul(bytes: &[u8]) -> (r: Result<FreeString, FromBytesWithNulError>)
        ensures
            match r {
                Ok(s) => is_c_string(bytes@) && s@ == bytes@,
                Err(FromBytesWithNulError::NotNulTerminated) => nul_free(bytes@),
                Err(FromBytesWithNulError::InteriorNul(i)) => i + 1 < bytes@.len()
                    && bytes@[i as int] == 0 && (forall|j: int| 0 <= j < i ==> bytes@[j] != 0),
            },
    {
        let len = bytes.len();
        let nul_pos = find_nul(bytes);
        if let Some(nul_pos) = nul_pos {
            if nul_pos + 1 != len {
                return Err(FromBytesWithNulError::InteriorNul(nul_pos));
            }
            Ok(Self::from_bytes_with_nul_unchecked(bytes))
        } else {
            Err(FromBytesWithNulError::NotNulTerminated)
        }
    }

    /// Construct from bytes known to hold no null byte, appending the
    /// trailing null terminator.
    pub fn from_bytes_unchecked(bytes: &[u8]) -> (r: FreeString)
        requires
            nul_free(bytes@),
        ensures
            r@ == bytes@.push(0u8),
    {
        let mut buf = vstd::slice::slice_to_vec(bytes);
        buf.push(0u8);
        FreeString { buf }
    }

    /// Construct from bytes known to end with their only null byte; the
    /// input is copied verbatim.
    pub fn from_bytes_with_nul_unchecked(bytes: &[u8]) -> (r: FreeString)
        requires
            is_c_string(bytes@),
        ensures
            r@ == bytes@,
    {
        FreeString { buf: vstd::slice::slice_to_vec(bytes) }
    }

    /// Take ownership of a buffer that ends with a null byte somewhere,
    /// measuring its logical length by a scan to the first null byte
    /// (terminator included), as a C-side length measurement would.
    pub fn from_raw(buf: Vec<u8>) -> (r: FreeString)
        requires
            exists|i: int| 0 <= i < buf@.len() && buf@[i] == 0,
        ensures
            is_c_string(r@),
            r@.len() <= buf@.len(),
            r@ == buf@.subrange(0, r@.len() as int),
    {
        let mut buf = buf;
        match find_nul(buf.as_slice()) {
            Some(i) => {
                proof {
                    assert(i < buf.len());
                }
                buf.truncate(i + 1);
                FreeString { buf }
            },
            None => {
                proof {
                    let i = choose|i: int| 0 <= i < buf@.len() && buf@[i] == 0;
                    assert(buf@[i] != 0);
                }
                vstd::pervasive::unreached()
            },
        }
    }

    /// Take ownership of a buffer that is already a well-formed C string,
    /// terminator included, without copying it.
    pub fn from_raw_parts(buf: Vec<u8>) -> (r: FreeString)
        requires
            is_c_string(buf@),
        ensures
            r@ == buf@,
    {
        FreeString { buf }
    }

    /// The raw read-only view of the owned buffer, terminator included,
    /// suitable for handing to a native call site. It borrows from the owned
    /// buffer and must not outlive it.
    pub fn as_raw(&self) -> (r: &[u8])
        ensures
            r@ == self@,
            is_c_string(r@),
    {
        proof {
            use_type_invariant(&*self);
        }
        self.buf.as_slice()
    }

    /// A read-only view of exactly the owned bytes, trailing null included.
    pub fn as_slice(&self) -> (r: &[u8])
        ensures
            r@ == self@,
            is_c_string(r@),
    {
        proof {
            use_type_invariant(&*self);
        }
        self.buf.as_slice()
    }

    /// The validated C-string view over the owned bytes: zero-copy, and
    /// known well-formed without re-validation.
    pub fn as_c_str(&self) -> (r: CStrView<'_>)
        ensures
            r@ == self@,
    {
        proof {
            use_type_invariant(&*self);
        }
        CStrView { bytes: self.buf.as_slice() }
    }
}

/// A read-only, validated view of a null-terminated byte sequence, borrowed
/// from a `FreeString`.
pub struct CStrView<'a> {
    bytes: &'a [u8],
}

impl<'a> View for CStrView<'a> {
    type V = Seq<u8>;

    closed spec fn view(&self) -> Seq<u8> {
        self.bytes@
    }
}

impl<'a> CStrView<'a> {
    #[verifier::type_invariant]
    spec fn wf(&self) -> bool {
        is_c_string(self.bytes@)
    }

    /// The viewed bytes without the trailing null terminator.
    pub fn to_bytes(&self) -> (r: &'a [u8])
        ensures
            r@ == self@.subrange(0, self@.len() - 1),
            nul_free(r@),
    {
        proof {
            use_type_invariant(&*self);
        }
        vstd::slice::slice_subrange(self.bytes, 0, self.bytes.len() - 1)
    }

    /// The viewed bytes, trailing null terminator included.
    pub fn to_bytes_with_nul(&self) -> (r: &'a [u8])
        ensures
            r@ == self@,
            is_c_string(r@),
    {
        proof {
            use_type_invariant(&*self);
        }
        self.bytes
    }
}

/// Round trip of construction and the C-string view: building from a
/// nul-free byte sequence yields a well-formed C string, and reading it back
/// without its terminator (as `CStrView::to_bytes` does) gives exactly the
/// input bytes.
pub proof fn lemma_new_round_trip(b: Seq<u8>)
    requires
        nul_free(b),
    ensures
        is_c_string(b.push(0u8)),
        b.push(0u8).subrange(0, b.len() as int) == b,
{
    assert(b.push(0u8).subrange(0, b.len() as int) =~= b);
}

/// A well-formed C string has no proper well-formed prefix. So re-measuring
/// a constructed buffer by a scan to its first null byte (as `from_raw`
/// does) recovers exactly the length that construction stored.
pub proof fn lemma_c_string_prefix_unique(s: Seq<u8>, n: int)
    requires
        is_c_string(s),
        0 <= n <= s.len(),
        is_c_string(s.subrange(0, n)),
    ensures
        n == s.len(),
{
    if n < s.len() {
        assert(s.subrange(0, n)[n - 1] == s[n - 1]);
    }
}

} // verus!
