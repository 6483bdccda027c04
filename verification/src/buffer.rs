//! A reference-counted, immutable run of bytes. Cloning or slicing a buffer
//! shares the underlying allocation instead of copying it; the view is the
//! bytes from the buffer's offset to the end of the allocation.
use vstd::prelude::*;
use std::sync::Arc;

verus! {

#[derive(Debug)]
pub struct Buffer {
    data: Arc<Vec<u8>>,
    offset: usize,
}

/// Relies on std's Arc::clone: returns a second handle to the same allocation,
/// carrying the same value.
#[verifier::external_body]
fn share_bytes(a: &Arc<Vec<u8>>) -> (r: Arc<Vec<u8>>)
    ensures
        r == *a,
{
    Arc::clone(a)
}

/// Relies on std's Arc deref (Arc::as_ref): borrows the shared value.
#[verifier::external_body]
fn borrow_bytes<'a>(a: &'a Arc<Vec<u8>>) -> (r: &'a Vec<u8>)
    ensures
        *r == **a,
{
    a.as_ref()
}

impl View for Buffer {
    type V = Seq<u8>;

    closed spec fn view(&self) -> Seq<u8> {
        if self.offset <= self.data@.len() {
            self.data@.skip(self.offset as int)
        } else {
            Seq::empty()
        }
    }
}

impl Clone for Buffer {
    /// A clone shares the same allocation and sees the same bytes.
    fn clone(&self) -> (r: Self)
        ensures
            r == *self,
    {
        Buffer { data: share_bytes(&self.data), offset: self.offset }
    }
}

impl Buffer {
    /// Wraps freshly built bytes into a shared buffer.
    pub fn from_vec(v: Vec<u8>) -> (r: Buffer)
        ensures
            r@ == v@,
    {
        let r = Buffer { data: Arc::new(v), offset: 0 };
        assert(r@ =~= r.data@);
        r
    }

    pub fn len(&self) -> (r: usize)
        ensures
            r == self@.len(),
    {
        let n = borrow_bytes(&self.data).len();
        if self.offset <= n {
            n - self.offset
        } else {
            0
        }
    }

    /// The byte at index `i` of the view.
    pub fn byte(&self, i: usize) -> (r: u8)
        requires
            i < self@.len(),
        ensures
            r == self@[i as int],
    {
        let d = borrow_bytes(&self.data);
        // a Vec's length is a usize, which bounds offset + i
        let n = d.len();
        d[self.offset + i]
    }

    /// Drops the first `offset` bytes without copying: the result shares the
    /// same allocation, shifted.
    pub fn slice(&self, offset: usize) -> (r: Buffer)
        requires
            offset <= self@.len(),
        ensures
            r@ == self@.skip(offset as int),
    {
        // a Vec's length is a usize, which bounds the combined offset
        let total = borrow_bytes(&self.data).len();
        let r = Buffer { data: share_bytes(&self.data), offset: self.offset + offset };
        assert(r@ =~= self@.skip(offset as int));
        r
    }

    /// Copies `len` bytes starting at `start` out of the view.
    pub fn read_bytes(&self, start: usize, len: usize) -> (r: Vec<u8>)
        requires
            start + len <= self@.len(),
        ensures
            r@ == self@.subrange(start as int, start as int + len as int),
    {
        let total = self.len();
        let mut out: Vec<u8> = Vec::new();
        let mut i: usize = 0;
        while i < len
            invariant
                i <= len,
                start + len <= self@.len(),
                total == self@.len(),
                out@ == self@.subrange(start as int, start as int + i as int),
            decreases len - i,
        {
            let b = self.byte(start + i);
            out.push(b);
            assert(out@ =~= self@.subrange(start as int, start as int + (i + 1) as int));
            i = i + 1;
        }
        out
    }
}

} // verus!
