//! Identifiers as the host reads them: null-terminated byte strings.

use vstd::prelude::*;
use vstd::string::StringSliceAdditionalSpecFns;

verus! {

/// Why an operation on the host's event API could not be made.
#[derive(Debug, Clone, Copy, PartialEq, Eq, Structural)]
pub enum EventError {
    /// The identifier text holds a null byte, so it has no null-terminated form.
    EmbeddedNul,
    /// The host's capability table was read before the host installed it.
    Uninitialized,
}

/// Whether a byte sequence holds a null byte.
pub open spec fn has_nul(bytes: Seq<u8>) -> bool {
    exists|i: int| 0 <= i < bytes.len() && bytes[i] == 0u8
}

/// The null-terminated form of the UTF-8 text `s`.
pub open spec fn c_form(s: &str) -> Seq<u8> {
    s.spec_bytes().push(0u8)
}

/// Converts identifier text into the null-terminated byte string that the host
/// reads. Fails when the text holds a null byte: the result is never a
/// truncated identifier.
pub fn str_to_c(identifier: &str) -> (r: Result<Vec<u8>, EventError>)
    ensures
        has_nul(identifier.spec_bytes()) <==> r is Err,
        r is Err ==> r == Err::<Vec<u8>, EventError>(EventError::EmbeddedNul),
        r matches Ok(c) ==> c@ == c_form(identifier),
{
    let bytes = identifier.as_bytes();
    let mut out: Vec<u8> = Vec::new();
    let mut i: usize = 0;
    while i < bytes.len()
        invariant
            bytes@ == identifier.spec_bytes(),
            i <= bytes@.len(),
            out@ == bytes@.subrange(0, i as int),
            forall|j: int| 0 <= j < i ==> bytes@[j] != 0u8,
        decreases bytes@.len() - i,
    {
        if bytes[i] == 0u8 {
            return Err(EventError::EmbeddedNul);
        }
        out.push(bytes[i]);
        i = i + 1;
        assert(out@ =~= bytes@.subrange(0, i as int));
    }
    assert(out@ =~= bytes@);
    out.push(0u8);
    Ok(out)
}

/// A copy of a byte string.
pub(crate) fn copy_bytes(v: &Vec<u8>) -> (r: Vec<u8>)
    ensures
        r@ == v@,
{
    let mut r: Vec<u8> = Vec::new();
    let mut i: usize = 0;
    while i < v.len()
        invariant
            i <= v@.len(),
            r@ == v@.subrange(0, i as int),
        decreases v@.len() - i,
    {
        r.push(v[i]);
        i = i + 1;
        assert(r@ =~= v@.subrange(0, i as int));
    }
    assert(r@ =~= v@);
    r
}

} // verus!
