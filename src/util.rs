use vstd::prelude::*;

verus! {

/// The unsigned value of two bytes read little-endian.
pub open spec fn le_u16(lo: u8, hi: u8) -> u16 {
    (lo as int + 256 * (hi as int)) as u16
}

/// Reads a little-endian `u16` from the first two bytes of `slice`.
pub fn try_u16_from_le_slice(slice: &[u8]) -> (r: Option<u16>)
    ensures
        slice@.len() >= 2 ==> r == Some(le_u16(slice@[0], slice@[1])),
        slice@.len() < 2 ==> r.is_none(),
{
    if slice.len() < 2 {
        return None;
    }
    Some(slice[0] as u16 + (slice[1] as u16) * 256)
}

/// A forward cursor over a byte slice.
pub struct ByteReader<'a> {
    bytes: &'a [u8],
    pos: usize,
}

impl<'a> ByteReader<'a> {
    /// The bytes that have not been read yet.
    pub closed spec fn rest(&self) -> Seq<u8> {
        self.bytes@.subrange(self.pos as int, self.bytes@.len() as int)
    }

    /// The whole slice the reader walks over.
    pub closed spec fn source(&self) -> Seq<u8> {
        self.bytes@
    }

    /// How many bytes have been read.
    pub closed spec fn consumed(&self) -> int {
        self.pos as int
    }

    pub closed spec fn wf(&self) -> bool {
        self.pos <= self.bytes@.len()
    }

    pub fn new(bytes: &'a [u8]) -> (r: Self)
        ensures
            r.wf(),
            r.source() == bytes@,
            r.consumed() == 0,
            r.rest() == bytes@,
    {
        let r = ByteReader { bytes, pos: 0 };
        assert(r.rest() =~= bytes@);
        r
    }

    pub fn position(&self) -> (r: usize)
        requires
            self.wf(),
        ensures
            r == self.consumed(),
    {
        self.pos
    }

    pub fn remaining(&self) -> (r: usize)
        requires
            self.wf(),
        ensures
            r == self.rest().len(),
    {
        self.bytes.len() - self.pos
    }

    /// Takes the next byte, if any is left.
    pub fn next(&mut self) -> (r: Option<u8>)
        requires
            old(self).wf(),
        ensures
            final(self).wf(),
            final(self).source() == old(self).source(),
            old(self).rest().len() == 0 ==> r.is_none() && *final(self) == *old(self),
            old(self).rest().len() > 0 ==> r == Some(old(self).rest()[0]) && final(self).consumed()
                == old(self).consumed() + 1,
            final(self).rest() == if old(self).rest().len() > 0 {
                old(self).rest().drop_first()
            } else {
                old(self).rest()
            },
    {
        if self.pos < self.bytes.len() {
            let b = self.bytes[self.pos];
            self.pos = self.pos + 1;
            proof {
                assert(self.rest() =~= old(self).rest().drop_first());
            }
            Some(b)
        } else {
            None
        }
    }
}

/// Reads a little-endian `u16` from the next two bytes of `iter`.
pub fn try_u16_from_iter(iter: &mut ByteReader) -> (r: Option<u16>)
    requires
        old(iter).wf(),
    ensures
        final(iter).wf(),
        final(iter).source() == old(iter).source(),
        old(iter).rest().len() >= 2 ==> r == Some(le_u16(old(iter).rest()[0], old(iter).rest()[1]))
            && final(iter).rest() == old(iter).rest().skip(2) && final(iter).consumed() == old(
            iter,
        ).consumed() + 2,
        old(iter).rest().len() < 2 ==> r.is_none() && final(iter).rest().len() == 0,
{
    let lo = match iter.next() {
        Some(b) => b,
        None => return None,
    };
    let hi = match iter.next() {
        Some(b) => b,
        None => return None,
    };
    proof {
        assert(final(iter).rest() =~= old(iter).rest().skip(2));
    }
    Some(lo as u16 + (hi as u16) * 256)
}

/// A copy of `s[start..end]`.
pub fn slice_range(s: &[u8], start: usize, end: usize) -> (r: Vec<u8>)
    requires
        start <= end <= s@.len(),
    ensures
        r@ == s@.subrange(start as int, end as int),
{
    let mut r: Vec<u8> = Vec::new();
    let mut i: usize = start;
    while i < end
        invariant
            start <= i <= end <= s@.len(),
            r@ == s@.subrange(start as int, i as int),
        decreases end - i,
    {
        r.push(s[i]);
        i = i + 1;
        proof {
            assert(r@ =~= s@.subrange(start as int, i as int));
        }
    }
    r
}

} // verus!
