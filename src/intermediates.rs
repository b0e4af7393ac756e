//! The bounded buffer of intermediate bytes of an escape or control sequence.
use vstd::prelude::*;

verus! {

/// The number of intermediate bytes that a [`VtIntermediates`] keeps.
pub const MAX_INTERMEDIATES: usize = 2;

/// What a [`VtIntermediates`] holds: the bytes kept, in order, and whether a
/// push was ever dropped for want of room.
pub struct IntermediatesView {
    pub chars: Seq<u8>,
    pub overrun: bool,
}

/// The buffer after pushing `c`: appended while there is room, and otherwise
/// dropped with the overrun flag raised.
pub open spec fn push_intermediate(v: IntermediatesView, c: u8) -> IntermediatesView {
    if v.chars.len() < MAX_INTERMEDIATES {
        IntermediatesView { chars: v.chars.push(c), overrun: v.overrun }
    } else {
        IntermediatesView { chars: v.chars, overrun: true }
    }
}

/// The empty buffer, without overrun.
pub open spec fn no_intermediates() -> IntermediatesView {
    IntermediatesView { chars: Seq::empty(), overrun: false }
}

/// Zero or more intermediate characters that appeared as part of an
/// escape sequence.
///
/// The slots past the last byte kept are always zero, so two buffers with
/// the same contents are equal as values.
#[derive(Clone, Copy, PartialEq, Eq, Debug)]
pub struct VtIntermediates {
    buf: [u8; 2],
    // a value past the capacity of `buf` marks an overrun
    len: u8,
}

impl View for VtIntermediates {
    type V = IntermediatesView;

    closed spec fn view(&self) -> IntermediatesView {
        let n = if self.len <= MAX_INTERMEDIATES { self.len as int } else { MAX_INTERMEDIATES as int };
        IntermediatesView { chars: self.buf@.subrange(0, n), overrun: self.len > MAX_INTERMEDIATES }
    }
}

impl VtIntermediates {
    /// The buffer's internal invariant.
    pub closed spec fn wf(&self) -> bool {
        &&& self.len <= MAX_INTERMEDIATES + 1
        &&& forall|i: int| self.len <= i < MAX_INTERMEDIATES ==> self.buf@[i] == 0
    }

    /// Constructs a new zero-length [`VtIntermediates`].
    pub fn new() -> (r: Self)
        ensures
            r.wf(),
            r@ == no_intermediates(),
    {
        let r = VtIntermediates { buf: [0u8; 2], len: 0 };
        assert(r@.chars =~= Seq::<u8>::empty());
        r
    }

    /// Constructs a new [`VtIntermediates`] containing the bytes in the given
    /// slice, which holds at most two bytes.
    pub fn from_slice(from: &[u8]) -> (r: Self)
        requires
            from@.len() <= MAX_INTERMEDIATES,
        ensures
            r.wf(),
            r@ == (IntermediatesView { chars: from@, overrun: false }),
    {
        let mut r = Self::new();
        let n = from.len();
        let mut i: usize = 0;
        assert(from@.subrange(0, 0) =~= Seq::<u8>::empty());
        while i < n
            invariant
                n == from@.len(),
                n <= MAX_INTERMEDIATES,
                i <= n,
                r.wf(),
                r@ == (IntermediatesView { chars: from@.subrange(0, i as int), overrun: false }),
            decreases n - i,
        {
            r.push(from[i]);
            i = i + 1;
            assert(r@.chars =~= from@.subrange(0, i as int));
        }
        assert(from@.subrange(0, n as int) =~= from@);
        r
    }

    /// Attempts to push a new byte. Once two bytes are held, further pushes
    /// are dropped and the buffer records that it has overrun.
    pub fn push(&mut self, c: u8)
        requires
            old(self).wf(),
        ensures
            final(self).wf(),
            final(self)@ == push_intermediate(old(self)@, c),
    {
        if (self.len as usize) >= MAX_INTERMEDIATES {
            self.len = (MAX_INTERMEDIATES + 1) as u8;
            assert(self@.chars =~= old(self)@.chars);
        } else {
            let i = self.len as usize;
            self.buf[i] = c;
            self.len = self.len + 1;
            assert(self@.chars =~= old(self)@.chars.push(c));
        }
    }

    /// Discards all of the intermediate bytes and the overrun mark.
    pub fn clear(&mut self)
        ensures
            final(self).wf(),
            final(self)@ == no_intermediates(),
    {
        *self = Self::new();
    }

    /// Returns the intermediate bytes that were kept, in order.
    pub fn chars(&self) -> (r: &[u8])
        requires
            self.wf(),
        ensures
            r@ == self@.chars,
    {
        let n = self.len();
        vstd::slice::slice_subrange(self.buf.as_slice(), 0, n)
    }

    /// Returns the number of intermediate bytes that were kept.
    pub fn len(&self) -> (r: usize)
        requires
            self.wf(),
        ensures
            r == self@.chars.len(),
    {
        if (self.len as usize) <= MAX_INTERMEDIATES {
            self.len as usize
        } else {
            MAX_INTERMEDIATES
        }
    }

    /// Returns true if callers have attempted to push more than two
    /// intermediate bytes, and so some were discarded.
    pub fn has_overrun(&self) -> (r: bool)
        requires
            self.wf(),
        ensures
            r == self@.overrun,
    {
        (self.len as usize) > MAX_INTERMEDIATES
    }
}

} // verus!
