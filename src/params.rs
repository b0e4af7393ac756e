//! The bounded buffer of numeric parameters of a control sequence.
use vstd::prelude::*;

verus! {

/// The number of parameters that a [`VtParams`] can hold.
pub const MAX_PARAMS: usize = 16;

/// `p` with `v` appended, unless `p` is already full.
pub open spec fn push_capped(p: Seq<u16>, v: u16) -> Seq<u16> {
    if p.len() < MAX_PARAMS {
        p.push(v)
    } else {
        p
    }
}

/// The parameters after the byte `b` (a decimal digit or `;`) of a control
/// sequence: `;` starts a new parameter at zero, and a digit extends the last
/// parameter (starting the first one if there is none), modulo 2^16.
pub open spec fn with_param_byte(p: Seq<u16>, b: u8) -> Seq<u16> {
    if b == 0x3b {
        push_capped(p, 0)
    } else {
        let q = if p.len() == 0 { seq![0u16] } else { p };
        let last = q[q.len() - 1];
        q.update(q.len() - 1, ((last * 10 + (b - 0x30)) % 0x10000) as u16)
    }
}

/// Zero or more `u16` values given as parameters in a control sequence, or
/// similar.
///
/// The slots past the last parameter are always zero, so two buffers with
/// the same parameters are equal as values.
#[derive(Clone, Copy, PartialEq, Eq, Debug)]
pub struct VtParams {
    buf: [u16; 16],
    len: u8,
}

impl View for VtParams {
    type V = Seq<u16>;

    closed spec fn view(&self) -> Seq<u16> {
        self.buf@.subrange(0, self.len as int)
    }
}

impl VtParams {
    /// The buffer's internal invariant.
    pub closed spec fn wf(&self) -> bool {
        &&& self.len <= MAX_PARAMS
        &&& forall|i: int| self.len <= i < MAX_PARAMS ==> self.buf@[i] == 0
    }

    /// Constructs a new zero-length [`VtParams`].
    pub fn new() -> (r: Self)
        ensures
            r.wf(),
            r@ == Seq::<u16>::empty(),
    {
        let r = VtParams { buf: [0u16; 16], len: 0 };
        assert(r@ =~= Seq::<u16>::empty());
        r
    }

    /// Constructs a new [`VtParams`] containing the values in the given slice,
    /// which holds at most sixteen values.
    pub fn from_slice(from: &[u16]) -> (r: Self)
        requires
            from@.len() <= MAX_PARAMS,
        ensures
            r.wf(),
            r@ == from@,
    {
        let mut r = Self::new();
        let n = from.len();
        let mut i: usize = 0;
        while i < n
            invariant
                n == from@.len(),
                n <= MAX_PARAMS,
                i <= n,
                r.wf(),
                r@ == from@.subrange(0, i as int),
            decreases n - i,
        {
            r.push(from[i]);
            i = i + 1;
            assert(r@ =~= from@.subrange(0, i as int));
        }
        assert(from@.subrange(0, n as int) =~= from@);
        r
    }

    /// Appends a value; once sixteen values are held, further pushes are
    /// silently ignored.
    pub fn push(&mut self, v: u16)
        requires
            old(self).wf(),
        ensures
            final(self).wf(),
            final(self)@ == push_capped(old(self)@, v),
    {
        if (self.len as usize) < MAX_PARAMS {
            let i = self.len as usize;
            self.buf[i] = v;
            self.len = self.len + 1;
            assert(self@ =~= old(self)@.push(v));
        }
    }

    /// Feeds one byte of a control sequence's parameter text: a decimal digit
    /// or the separator `;`.
    pub fn push_param_byte(&mut self, b: u8)
        requires
            old(self).wf(),
            b == 0x3b || 0x30 <= b <= 0x39,
        ensures
            final(self).wf(),
            final(self)@ == with_param_byte(old(self)@, b),
    {
        if b == 0x3b {
            self.push(0);
        } else {
            if self.len == 0 {
                self.push(0);
                assert(self@ =~= seq![0u16]);
            }
            assert(self@.len() == self.len);
            let i = (self.len - 1) as usize;
            let digit = (b - 0x30) as u16;
            let cur = self.buf[i];
            let next = cur.wrapping_mul(10).wrapping_add(digit);
            proof {
                let x = cur * 10;
                vstd::arithmetic::div_mod::lemma_add_mod_noop_right(digit as int, x, 0x10000);
                vstd::arithmetic::div_mod::lemma_small_mod(digit as nat, 0x10000);
                assert(next as int == (x + digit) % 0x10000);
            }
            let ghost before = self@;
            assert(cur == before[i as int]);
            self.buf[i] = next;
            assert(self@ =~= before.update(i as int, next));
        }
    }

    /// Discards all of the parameters.
    pub fn clear(&mut self)
        ensures
            final(self).wf(),
            final(self)@ == Seq::<u16>::empty(),
    {
        *self = Self::new();
    }

    /// Returns the parameter values in order.
    pub fn values(&self) -> (r: &[u16])
        requires
            self.wf(),
        ensures
            r@ == self@,
    {
        vstd::slice::slice_subrange(self.buf.as_slice(), 0, self.len as usize)
    }

    /// Returns the current number of parameters.
    pub fn len(&self) -> (r: usize)
        requires
            self.wf(),
        ensures
            r == self@.len(),
    {
        self.len as usize
    }
}

} // verus!
