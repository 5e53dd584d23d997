//! Turning the bytes of a file-system path into the NUL-terminated string
//! that the ASSIST C library reads its kernel files from.

use vstd::prelude::*;
use vstd::utf8::{is_leading_byte_width_1, partial_valid_utf8, partial_valid_utf8_extend_ascii_block, valid_utf8};

verus! {

/// Why a path cannot be handed to the C library.
#[derive(Debug, PartialEq, Eq, Structural)]
pub enum PathError {
    /// The path is not valid UTF-8.
    NotUtf8,
    /// The path holds a NUL byte; the position is that of the first one.
    InteriorNul(usize),
}

/// `i` is the position of the first NUL byte of `bytes`.
pub open spec fn is_first_nul(bytes: Seq<u8>, i: int) -> bool {
    &&& 0 <= i < bytes.len()
    &&& bytes[i] == 0
    &&& forall|j: int| 0 <= j < i ==> bytes[j] != 0
}

/// What converting `path` gives: the UTF-8 check comes first, then the
/// NUL check, and a path that passes both comes back with one NUL appended.
pub open spec fn path_to_cstring_spec(path: Seq<u8>, r: Result<Seq<u8>, PathError>) -> bool {
    if !valid_utf8(path) {
        r == Err::<Seq<u8>, PathError>(PathError::NotUtf8)
    } else if path.contains(0u8) {
        r matches Err(PathError::InteriorNul(p)) && is_first_nul(path, p as int)
    } else {
        r == Ok::<Seq<u8>, PathError>(path.push(0u8))
    }
}

/// Wraps `std::str::from_utf8`, which succeeds exactly when the bytes are
/// well-formed UTF-8 (the Unicode definition that vstd's `valid_utf8` states).
#[verifier::external_body]
fn utf8_is_valid(bytes: &[u8]) -> (ok: bool)
    ensures
        ok == valid_utf8(bytes@),
{
    std::str::from_utf8(bytes).is_ok()
}

/// Converts the bytes of a path into the bytes of a C string: the path must
/// be UTF-8 and hold no NUL byte, and the result is the path followed by a
/// single NUL terminator.
pub fn path_to_cstring(path: &[u8]) -> (r: Result<Vec<u8>, PathError>)
    requires
        path@.len() < usize::MAX,
    ensures
        path_to_cstring_spec(
            path@,
            match r {
                Ok(v) => Ok(v@),
                Err(e) => Err(e),
            },
        ),
        r is Ok <==> valid_utf8(path@) && !path@.contains(0u8),
        r matches Ok(c) ==> c@ == path@.push(0u8),
        r == Err::<Vec<u8>, PathError>(PathError::NotUtf8) <==> !valid_utf8(path@),
{
    if !utf8_is_valid(path) {
        return Err(PathError::NotUtf8);
    }
    let n = path.len();
    let mut out: Vec<u8> = Vec::with_capacity(n + 1);
    let mut i: usize = 0;
    while i < n
        invariant
            n == path@.len(),
            valid_utf8(path@),
            i <= n,
            out@ == path@.subrange(0, i as int),
            forall|j: int| 0 <= j < i ==> path@[j] != 0,
        decreases n - i,
    {
        let b = path[i];
        if b == 0 {
            proof {
                assert(path@.contains(0u8)) by {
                    assert(path@[i as int] == 0u8);
                }
                assert(is_first_nul(path@, i as int));
            }
            return Err(PathError::InteriorNul(i));
        }
        out.push(b);
        assert(out@ =~= path@.subrange(0, i + 1));
        i = i + 1;
    }
    proof {
        assert(out@ =~= path@);
        assert(!path@.contains(0u8)) by {
            if path@.contains(0u8) {
                let k = choose|k: int| 0 <= k < path@.len() && path@[k] == 0u8;
                assert(path@[k] != 0);
            }
        }
    }
    out.push(0u8);
    Ok(out)
}

/// A C string made from a path gives the path back: dropping its terminator
/// yields the path, and the terminator is its only NUL byte.
pub proof fn lemma_cstring_roundtrip(path: Seq<u8>, c: Seq<u8>)
    requires
        path_to_cstring_spec(path, Ok(c)),
    ensures
        c.len() == path.len() + 1,
        c.drop_last() == path,
        c.last() == 0u8,
        forall|i: int| 0 <= i < c.len() - 1 ==> c[i] != 0u8,
{
    assert(c.drop_last() =~= path);
    assert forall|i: int| 0 <= i < c.len() - 1 implies c[i] != 0u8 by {
        assert(c[i] == path[i]);
        if path[i] == 0u8 {
            assert(path.contains(0u8));
        }
    }
}

/// What a conversion gives, in terms of the path alone: a path is refused as
/// not UTF-8 exactly when it is not well-formed UTF-8; it converts exactly
/// when it is well-formed UTF-8 without a NUL byte, and then into the path
/// followed by one NUL; and a NUL refusal names a NUL byte with none before it.
pub proof fn lemma_path_conversion_outcomes(path: Seq<u8>, r: Result<Seq<u8>, PathError>)
    requires
        path_to_cstring_spec(path, r),
    ensures
        r == Err::<Seq<u8>, PathError>(PathError::NotUtf8) <==> !valid_utf8(path),
        r is Ok <==> valid_utf8(path) && !path.contains(0u8),
        r matches Ok(c) ==> c == path.push(0u8),
        r matches Err(PathError::InteriorNul(p)) ==> {
            &&& valid_utf8(path)
            &&& 0 <= p < path.len()
            &&& path[p as int] == 0u8
            &&& forall|j: int| 0 <= j < p ==> path[j] != 0u8
        },
{
}

/// Every well-formed UTF-8 path without a NUL byte converts, whatever
/// characters it holds, into the path followed by one NUL.
pub proof fn lemma_utf8_path_converts(path: Seq<u8>)
    requires
        valid_utf8(path),
        !path.contains(0u8),
    ensures
        path_to_cstring_spec(path, Ok(path.push(0u8))),
{
}

/// Every path made of ASCII characters other than NUL converts.
pub proof fn lemma_ascii_path_converts(path: Seq<u8>)
    requires
        forall|i: int| 0 <= i < path.len() ==> 0 < #[trigger] path[i] < 0x80,
    ensures
        path_to_cstring_spec(path, Ok(path.push(0u8))),
{
    assert forall|i: int| 0 <= 0 <= i < path.len() <= path.len() implies #[trigger] is_leading_byte_width_1(path[i]) by {}
    assert(path.subrange(0, 0) =~= Seq::<u8>::empty());
    assert(partial_valid_utf8(path, 0));
    partial_valid_utf8_extend_ascii_block(path, 0, path.len() as int);
    assert(path.subrange(0, path.len() as int) =~= path);
    assert(!path.contains(0u8));
}

} // verus!
