//! Big-endian 32-bit integers on the wire: the model, a sequential reader
//! and a writer of consecutive fields.

use vstd::prelude::*;

verus! {

/// The number that the first four bytes of `b` spell, most significant
/// byte first.
pub open spec fn be_u32(b: Seq<u8>) -> u32
    recommends
        b.len() >= 4,
{
    (b[0] * 0x100_0000 + b[1] * 0x1_0000 + b[2] * 0x100 + b[3]) as u32
}

/// The four bytes that spell `v`, most significant byte first.
pub open spec fn be_bytes(v: u32) -> Seq<u8> {
    seq![
        (v / 0x100_0000) as u8,
        (v / 0x1_0000 % 0x100) as u8,
        (v / 0x100 % 0x100) as u8,
        (v % 0x100) as u8,
    ]
}

/// Reading back the bytes of a number gives the number.
pub proof fn lemma_be_u32_of_be_bytes(v: u32)
    ensures
        be_bytes(v).len() == 4,
        be_u32(be_bytes(v)) == v,
{
}

/// Spells `v` in network byte order.
pub fn u32_to_be(v: u32) -> (b: [u8; 4])
    ensures
        b@ == be_bytes(v),
{
    let b: [u8; 4] = [
        (v / 0x100_0000) as u8,
        (v / 0x1_0000 % 0x100) as u8,
        (v / 0x100 % 0x100) as u8,
        (v % 0x100) as u8,
    ];
    assert(b@ =~= be_bytes(v));
    b
}

/// Reads four bytes in network byte order.
pub fn u32_from_be(b: [u8; 4]) -> (v: u32)
    ensures
        v == be_u32(b@),
{
    let b0: u32 = b[0] as u32;
    let b1: u32 = b[1] as u32;
    let b2: u32 = b[2] as u32;
    let b3: u32 = b[3] as u32;
    b0 * 0x100_0000 + b1 * 0x1_0000 + b2 * 0x100 + b3
}

/// Sequential reader of big-endian 32-bit fields over a byte slice.
pub struct BuffConverter<'a> {
    buff: &'a [u8],
    index: usize,
}

impl<'a> BuffConverter<'a> {
    /// The bytes the reader walks over.
    pub closed spec fn bytes(&self) -> Seq<u8> {
        self.buff@
    }

    /// How many bytes have been consumed.
    pub closed spec fn position(&self) -> nat {
        self.index as nat
    }

    /// The reader never stands beyond the end of its bytes.
    pub closed spec fn wf(&self) -> bool {
        self.index <= self.buff@.len()
    }

    /// The bytes not yet consumed.
    pub open spec fn remaining(&self) -> Seq<u8> {
        self.bytes().skip(self.position() as int)
    }

    /// A reader at the start of `buff`.
    pub fn new(buff: &'a [u8]) -> (c: Self)
        ensures
            c.wf(),
            c.bytes() == buff@,
            c.position() == 0,
    {
        Self { buff, index: 0 }
    }

    /// Consumes the next four bytes as one big-endian number, or reports that
    /// fewer than four are left and consumes nothing.
    pub fn get_next_u32(&mut self) -> (r: Option<u32>)
        requires
            old(self).wf(),
        ensures
            final(self).wf(),
            final(self).bytes() == old(self).bytes(),
            old(self).position() + 4 <= old(self).bytes().len() ==> {
                &&& r == Some(be_u32(old(self).remaining()))
                &&& final(self).position() == old(self).position() + 4
            },
            old(self).position() + 4 > old(self).bytes().len() ==> {
                &&& r is None
                &&& final(self).position() == old(self).position()
            },
    {
        if self.buff.len() - self.index >= 4 {
            let i: usize = self.index;
            let buff: [u8; 4] = [self.buff[i], self.buff[i + 1], self.buff[i + 2], self.buff[i + 3]];
            self.index = i + 4;
            let value: u32 = u32_from_be(buff);
            Some(value)
        } else {
            None
        }
    }
}

/// The encodings of the numbers of `ints`, one after the other.
pub open spec fn be_fields(ints: Seq<u32>) -> Seq<u8> {
    Seq::new(4 * ints.len(), |j: int| be_bytes(ints[j / 4])[j % 4])
}

/// Each number written by the writer of fields is the number that the reader
/// finds at the place of that field.
pub proof fn lemma_fields_read_back(ints: Seq<u32>, k: int)
    requires
        0 <= k < ints.len(),
    ensures
        be_fields(ints).len() == 4 * ints.len(),
        be_u32(be_fields(ints).skip(4 * k)) == ints[k],
{
    let field = be_fields(ints).skip(4 * k);
    lemma_be_u32_of_be_bytes(ints[k]);
    assert(field.take(4) =~= be_bytes(ints[k]));
}

/// Writes each number of `ints` as four big-endian bytes, one after the other
/// from the start of `buff`, and leaves the bytes behind them as they were.
pub fn insert_bytes(buff: &mut [u8], ints: &[u32])
    requires
        4 * ints@.len() <= old(buff)@.len(),
    ensures
        final(buff)@ == be_fields(ints@) + old(buff)@.skip(be_fields(ints@).len() as int),
{
    let n: usize = ints.len();
    let len: usize = buff.len();
    let mut k: usize = 0;
    while k < n
        invariant
            n == ints@.len(),
            len == buff@.len(),
            0 <= k <= n,
            4 * n <= buff@.len(),
            buff@.len() == old(buff)@.len(),
            forall|j: int| 0 <= j < 4 * k ==> buff@[j] == be_bytes(ints@[j / 4])[j % 4],
            forall|j: int| 4 * k <= j < buff@.len() ==> buff@[j] == old(buff)@[j],
        decreases n - k,
    {
        let val: [u8; 4] = u32_to_be(ints[k]);
        let i: usize = 4 * k;
        buff[i] = val[0];
        buff[i + 1] = val[1];
        buff[i + 2] = val[2];
        buff[i + 3] = val[3];
        k = k + 1;
    }
    assert(buff@ =~= be_fields(ints@) + old(buff)@.skip(be_fields(ints@).len() as int));
}

} // verus!
