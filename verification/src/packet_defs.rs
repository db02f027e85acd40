//! The contract between a fixed-width buffer and the typed value it carries.

use vstd::prelude::*;
use crate::error::{ParseError, Result};

verus! {

/// A buffer whose width is fixed by its format.
pub trait Packet: Sized {
    /// The bytes of the buffer, first on the wire first.
    spec fn wire(&self) -> Seq<u8>;

    /// The width that every buffer of this format has.
    spec fn width() -> usize;

    /// The format's width.
    fn size() -> (n: usize)
        ensures
            n == Self::width(),
    ;

    /// A buffer of zero bytes.
    fn blank() -> (p: Self)
        ensures
            p.wire() == Seq::new(Self::width() as nat, |i: int| 0u8),
    ;

    /// The buffer that holds the bytes of `buff`, which must have the
    /// format's width.
    fn load(buff: &[u8]) -> (p: Self)
        requires
            buff@.len() == Self::width(),
        ensures
            p.wire() == buff@,
    ;
}

impl<const N: usize> Packet for [u8; N] {
    open spec fn wire(&self) -> Seq<u8> {
        self@
    }

    open spec fn width() -> usize {
        N
    }

    fn size() -> (n: usize) {
        N
    }

    fn blank() -> (p: Self) {
        let p: [u8; N] = [0u8; N];
        assert(p@ =~= Seq::new(N as nat, |i: int| 0u8));
        p
    }

    fn load(buff: &[u8]) -> (p: Self) {
        let mut p: [u8; N] = [0u8; N];
        let mut i: usize = 0;
        while i < N
            invariant
                0 <= i <= N,
                buff@.len() == N,
                forall|j: int| 0 <= j < i ==> p@[j] == buff@[j],
            decreases N - i,
        {
            p[i] = buff[i];
            i = i + 1;
        }
        assert(p@ =~= buff@);
        p
    }
}

/// Four bytes that carry a single number.
pub type FourBytePkt = [u8; 4];

/// A value that one format carries: it can be written into a buffer of that
/// format and read back from one.
pub trait IntoData<T: Packet>: Sized {
    /// What a buffer holding `bytes` decodes to.
    spec fn data_of(bytes: Seq<u8>) -> Result<Self>;

    /// The bytes that encode the value.
    spec fn packet_of(self) -> Seq<u8>;

    /// An encoded value has the format's width and decodes to itself.
    proof fn round_trip(self)
        ensures
            self.packet_of().len() == T::width(),
            Self::data_of(self.packet_of()) == Ok::<Self, ParseError>(self),
    ;

    /// Decodes a buffer.
    fn into_data(p: T) -> (r: Result<Self>)
        ensures
            r == Self::data_of(p.wire()),
    ;

    /// Encodes the value.
    fn into_packet(self) -> (p: T)
        ensures
            p.wire() == self.packet_of(),
    ;
}

/// What an input of any length decodes to: the length is held against the
/// format's width first, then the bytes are read.
pub open spec fn decoded<T: Packet, K: IntoData<T>>(bytes: Seq<u8>) -> Result<K> {
    if bytes.len() != T::width() {
        Err(ParseError::WrongLen { expected: T::width(), actual: bytes.len() as usize })
    } else {
        K::data_of(bytes)
    }
}

/// Decodes an input of any length: one whose length is not the format's
/// width is refused before any byte is read.
pub fn decode<T: Packet, K: IntoData<T>>(buff: &[u8]) -> (r: Result<K>)
    ensures
        r == decoded::<T, K>(buff@),
{
    let expected: usize = T::size();
    let actual: usize = buff.len();
    if actual != expected {
        Err(ParseError::WrongLen { expected, actual })
    } else {
        K::into_data(T::load(buff))
    }
}

/// An encoded value, handed to the decoder that takes any length, decodes to
/// itself.
pub proof fn lemma_decode_round_trip<T: Packet, K: IntoData<T>>(value: K)
    ensures
        decoded::<T, K>(value.packet_of()) == Ok::<K, ParseError>(value),
{
    value.round_trip();
}

/// An input whose length is not the format's width is refused with both
/// lengths, whatever its bytes are.
pub proof fn lemma_decode_wrong_len<T: Packet, K: IntoData<T>>(bytes: Seq<u8>)
    requires
        bytes.len() != T::width(),
        bytes.len() <= usize::MAX,
    ensures
        decoded::<T, K>(bytes) matches Err(ParseError::WrongLen { expected, actual })
            && expected == T::width() && actual == bytes.len(),
{
}

} // verus!
