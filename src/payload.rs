//! Payload erasure: a typed value travels through the host as its byte image,
//! and only code that knows the payload type turns the bytes back into a value.

use vstd::prelude::*;

verus! {

/// A payload type of an event channel: a value with a fixed byte image.
pub trait Payload: Sized {
    /// The byte image of a value, as the host carries it.
    spec fn spec_encode(&self) -> Seq<u8>;

    /// The value whose image a byte sequence is, if it is one.
    spec fn spec_decode(bytes: Seq<u8>) -> Option<Self>;

    /// Reading back the image of a value gives that value.
    proof fn lemma_decode_encode(v: Self)
        ensures
            Self::spec_decode(v.spec_encode()) == Some(v),
    ;

    fn encode(&self) -> (r: Vec<u8>)
        ensures
            r@ == self.spec_encode(),
    ;

    fn decode(bytes: &[u8]) -> (r: Option<Self>)
        ensures
            r == Self::spec_decode(bytes@),
    ;
}

/// The unit payload: only the presence of the pointer carries meaning.
impl Payload for () {
    open spec fn spec_encode(&self) -> Seq<u8> {
        Seq::empty()
    }

    open spec fn spec_decode(bytes: Seq<u8>) -> Option<()> {
        if bytes.len() == 0 {
            Some(())
        } else {
            None
        }
    }

    proof fn lemma_decode_encode(v: ()) {
    }

    fn encode(&self) -> (r: Vec<u8>) {
        Vec::new()
    }

    fn decode(bytes: &[u8]) -> (r: Option<()>) {
        if bytes.len() == 0 {
            Some(())
        } else {
            None
        }
    }
}

/// The little-endian image of a 32-bit word.
pub open spec fn le_bytes_u32(x: u32) -> Seq<u8> {
    seq![
        (x & 0xff) as u8,
        ((x >> 8u32) & 0xff) as u8,
        ((x >> 16u32) & 0xff) as u8,
        ((x >> 24u32) & 0xff) as u8,
    ]
}

/// The 32-bit word whose little-endian image is `b0 b1 b2 b3`.
pub open spec fn word_of_le(b0: u8, b1: u8, b2: u8, b3: u8) -> u32 {
    (b0 as u32) | ((b1 as u32) << 8u32) | ((b2 as u32) << 16u32) | ((b3 as u32) << 24u32)
}

/// The word read from a four-byte little-endian image, if the image has four bytes.
pub open spec fn spec_decode_u32(bytes: Seq<u8>) -> Option<u32> {
    if bytes.len() == 4 {
        Some(word_of_le(bytes[0], bytes[1], bytes[2], bytes[3]))
    } else {
        None
    }
}

proof fn lemma_word_of_le_bytes(x: u32)
    ensures
        word_of_le(
            (x & 0xff) as u8,
            ((x >> 8u32) & 0xff) as u8,
            ((x >> 16u32) & 0xff) as u8,
            ((x >> 24u32) & 0xff) as u8,
        ) == x,
{
    assert(((((x & 0xff) as u8) as u32) | (((((x >> 8u32) & 0xff) as u8) as u32) << 8u32) | (
    ((((x >> 16u32) & 0xff) as u8) as u32) << 16u32) | (((((x >> 24u32) & 0xff) as u8) as u32)
        << 24u32)) == x) by (bit_vector);
}

fn encode_u32(x: u32) -> (r: Vec<u8>)
    ensures
        r@ == le_bytes_u32(x),
{
    let mut r: Vec<u8> = Vec::new();
    r.push((x & 0xff) as u8);
    r.push(((x >> 8u32) & 0xff) as u8);
    r.push(((x >> 16u32) & 0xff) as u8);
    r.push(((x >> 24u32) & 0xff) as u8);
    assert(r@ =~= le_bytes_u32(x));
    r
}

fn decode_u32(bytes: &[u8]) -> (r: Option<u32>)
    ensures
        r == spec_decode_u32(bytes@),
{
    if bytes.len() == 4 {
        let w = (bytes[0] as u32) | ((bytes[1] as u32) << 8u32) | ((bytes[2] as u32) << 16u32) | ((
        bytes[3] as u32) << 24u32);
        Some(w)
    } else {
        None
    }
}

impl Payload for u32 {
    open spec fn spec_encode(&self) -> Seq<u8> {
        le_bytes_u32(*self)
    }

    open spec fn spec_decode(bytes: Seq<u8>) -> Option<u32> {
        spec_decode_u32(bytes)
    }

    proof fn lemma_decode_encode(v: u32) {
        lemma_word_of_le_bytes(v);
    }

    fn encode(&self) -> (r: Vec<u8>) {
        encode_u32(*self)
    }

    fn decode(bytes: &[u8]) -> (r: Option<u32>) {
        decode_u32(bytes)
    }
}

impl Payload for i32 {
    open spec fn spec_encode(&self) -> Seq<u8> {
        le_bytes_u32(*self as u32)
    }

    open spec fn spec_decode(bytes: Seq<u8>) -> Option<i32> {
        match spec_decode_u32(bytes) {
            Some(w) => Some(w as i32),
            None => None,
        }
    }

    proof fn lemma_decode_encode(v: i32) {
        lemma_word_of_le_bytes(v as u32);
        assert((v as u32) as i32 == v) by (bit_vector);
    }

    fn encode(&self) -> (r: Vec<u8>) {
        encode_u32(*self as u32)
    }

    fn decode(bytes: &[u8]) -> (r: Option<i32>) {
        match decode_u32(bytes) {
            Some(w) => Some(w as i32),
            None => None,
        }
    }
}

/// The body of a trampoline for payload type `T`: what the host hands over
/// (no pointer, or the bytes behind one) becomes the optional value that the
/// user callback receives. No pointer is always observed as no value.
pub fn event_consume<T: Payload>(data: Option<&[u8]>) -> (r: Option<T>)
    ensures
        data is None ==> r is None,
        data matches Some(b) ==> r == T::spec_decode(b@),
{
    match data {
        Some(b) => T::decode(b),
        None => None,
    }
}

} // verus!
