use vstd::prelude::*;
use crate::error::CodecError;

verus! {

/// A byte source read front to back, that can be asked for an exact number
/// of bytes.
///
/// Its view is the sequence of bytes not read yet.
pub struct ByteReader {
    bytes: Vec<u8>,
    pos: usize,
}

impl View for ByteReader {
    type V = Seq<u8>;

    closed spec fn view(&self) -> Seq<u8> {
        self.bytes@.subrange(self.pos as int, self.bytes@.len() as int)
    }
}

impl ByteReader {
    #[verifier::type_invariant]
    spec fn inv(&self) -> bool {
        self.pos <= self.bytes@.len()
    }

    /// A reader over `bytes`, positioned at the first byte.
    pub fn new(bytes: Vec<u8>) -> (r: Self)
        ensures
            r@ == bytes@,
    {
        let r = ByteReader { bytes, pos: 0 };
        assert(r@ =~= r.bytes@);
        r
    }

    /// The number of bytes not read yet.
    pub fn remaining(&self) -> (n: usize)
        ensures
            n == self@.len(),
    {
        proof {
            use_type_invariant(self);
        }
        self.bytes.len() - self.pos
    }

    /// Reads exactly `n` bytes, or fails without consuming anything when fewer
    /// than `n` are left.
    pub fn read_exact(&mut self, n: usize) -> (r: Result<Vec<u8>, CodecError>)
        ensures
            match r {
                Ok(v) => {
                    &&& n <= old(self)@.len()
                    &&& v@ == old(self)@.take(n as int)
                    &&& final(self)@ == old(self)@.skip(n as int)
                },
                Err(e) => {
                    &&& old(self)@.len() < n
                    &&& e == CodecError::UnexpectedEnd
                    &&& final(self)@ == old(self)@
                },
            },
    {
        proof {
            use_type_invariant(&*self);
        }
        if self.bytes.len() - self.pos < n {
            return Err(CodecError::UnexpectedEnd);
        }
        let start = self.pos;
        let mut out: Vec<u8> = Vec::with_capacity(n);
        let mut i: usize = 0;
        while i < n
            invariant
                start == self.pos,
                start + n <= self.bytes.len(),
                i <= n,
                out@ == self.bytes@.subrange(start as int, start + i),
            decreases n - i,
        {
            out.push(self.bytes[start + i]);
            i = i + 1;
            assert(out@ =~= self.bytes@.subrange(start as int, start + i));
        }
        self.pos = start + n;
        assert(out@ =~= old(self)@.take(n as int));
        assert(self@ =~= old(self)@.skip(n as int));
        Ok(out)
    }
}

} // verus!
