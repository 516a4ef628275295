use vstd::prelude::*;
use vstd::slice::SliceAdditionalExecFns;

verus! {

/// Accumulates the bytes of one outgoing message.
pub struct MessageWriter {
    data: Vec<u8>,
}

impl View for MessageWriter {
    type V = Seq<u8>;

    closed spec fn view(&self) -> Seq<u8> {
        self.data@
    }
}

impl MessageWriter {
    pub fn new() -> (r: MessageWriter)
        ensures
            r@ == Seq::<u8>::empty(),
    {
        MessageWriter { data: Vec::new() }
    }

    /// Drops everything written so far.
    pub fn clear(&mut self)
        ensures
            final(self)@ == Seq::<u8>::empty(),
    {
        self.data.clear();
    }

    /// Appends `buf` and returns how many bytes were taken, which is all of them.
    pub fn write(&mut self, buf: &[u8]) -> (r: usize)
        ensures
            final(self)@ == old(self)@ + buf@,
            r == buf@.len(),
    {
        let mut i: usize = 0;
        while i < buf.len()
            invariant
                i <= buf@.len(),
                self@ == old(self)@ + buf@.subrange(0, i as int),
            decreases buf@.len() - i,
        {
            self.data.push(buf[i]);
            i = i + 1;
            assert(buf@.subrange(0, i as int) == buf@.subrange(0, i - 1) + seq![buf@[i - 1]]);
        }
        assert(buf@.subrange(0, i as int) == buf@);
        i
    }

    /// Number of bytes written since the last clear.
    pub fn len(&self) -> (r: usize)
        ensures
            r == self@.len(),
    {
        self.data.len()
    }

    pub fn is_empty(&self) -> (r: bool)
        ensures
            r == (self@.len() == 0),
    {
        self.data.len() == 0
    }

    /// A copy of the bytes written.
    pub fn to_bytes(&self) -> (r: Vec<u8>)
        ensures
            r@ == self@,
    {
        self.data.clone()
    }
}

/// The bytes of `s`, one piece after another.
pub open spec fn flatten(s: Seq<Seq<u8>>) -> Seq<u8>
    decreases s.len(),
{
    if s.len() == 0 {
        Seq::empty()
    } else {
        s[0] + flatten(s.drop_first())
    }
}

/// Reader of a received message held in several slices.
///
/// `fill_buf` hands out the rest of the current slice without copying;
/// `consume` marks bytes of it as read.
pub struct MessageReader {
    slices: Vec<Vec<u8>>,
    index: usize,
    offset: usize,
    length: usize,
}

impl MessageReader {
    pub closed spec fn pieces(&self) -> Seq<Seq<u8>> {
        self.slices@.map_values(|v: Vec<u8>| v@)
    }

    /// The bytes not read yet.
    pub closed spec fn rest(&self) -> Seq<u8> {
        if self.index < self.slices@.len() {
            self.pieces()[self.index as int].subrange(self.offset as int, self.pieces()[self.index as int].len() as int)
                + flatten(self.pieces().subrange(self.index + 1, self.pieces().len() as int))
        } else {
            Seq::empty()
        }
    }

    /// Unread bytes left in the current slice.
    pub closed spec fn chunk_len(&self) -> nat {
        if self.index < self.slices@.len() {
            (self.slices@[self.index as int]@.len() - self.offset) as nat
        } else {
            0
        }
    }

    pub closed spec fn wf(&self) -> bool {
        &&& self.slices@.len() <= usize::MAX
        &&& forall|j: int| 0 <= j < self.slices@.len() ==> (#[trigger] self.slices@[j])@.len() <= usize::MAX
        &&& self.index <= self.slices@.len()
        &&& self.index < self.slices@.len() ==> self.offset <= self.slices@[self.index as int]@.len()
        &&& self.length == self.rest().len()
    }

    /// A reader of the bytes of `slices`, one after another.
    pub fn new(slices: Vec<Vec<u8>>) -> (r: MessageReader)
        requires
            flatten(slices@.map_values(|v: Vec<u8>| v@)).len() <= usize::MAX,
        ensures
            r.wf(),
            r.rest() == flatten(slices@.map_values(|v: Vec<u8>| v@)),
    {
        let ghost pieces = slices@.map_values(|v: Vec<u8>| v@);
        let mut length: usize = 0;
        let mut i: usize = slices.len();
        proof {
            assert(pieces.subrange(i as int, pieces.len() as int) =~= Seq::<Seq<u8>>::empty());
        }
        while i > 0
            invariant
                i <= slices@.len(),
                pieces == slices@.map_values(|v: Vec<u8>| v@),
                flatten(pieces).len() <= usize::MAX,
                length == flatten(pieces.subrange(i as int, pieces.len() as int)).len(),
                length <= flatten(pieces).len(),
            decreases i,
        {
            i = i - 1;
            proof {
                assert(pieces.subrange(i as int, pieces.len() as int).drop_first() =~= pieces.subrange(
                    i + 1,
                    pieces.len() as int,
                ));
                lemma_flatten_suffix_len(pieces, i as int);
            }
            length = length + slices[i].len();
        }
        proof {
            assert(pieces.subrange(0, pieces.len() as int) =~= pieces);
        }
        let n = slices.len();
        let r = MessageReader { slices, index: 0, offset: 0, length };
        proof {
            assert forall|j: int| 0 <= j < r.slices@.len() implies (#[trigger] r.slices@[j])@.len() <= usize::MAX by {
                lemma_flatten_suffix_len(pieces, j);
                assert(pieces[j] == r.slices@[j]@);
            }
            if pieces.len() > 0 {
                assert(pieces[0].subrange(0, pieces[0].len() as int) =~= pieces[0]);
                assert(pieces.drop_first() =~= pieces.subrange(1, pieces.len() as int));
            }
            assert(r.pieces() == pieces);
        }
        r
    }

    /// Number of bytes not read yet.
    pub fn pending_bytes_count(&self) -> (r: usize)
        requires
            self.wf(),
        ensures
            r == self.rest().len(),
    {
        self.length
    }

    /// The next bytes of the message, without copying: the unread part of
    /// the current slice, or nothing at the end of the message.
    pub fn fill_buf(&mut self) -> (r: &[u8])
        requires
            old(self).wf(),
        ensures
            final(self).wf(),
            final(self).rest() == old(self).rest(),
            r@.len() > 0 <==> old(self).rest().len() > 0,
            r@ == old(self).rest().subrange(0, r@.len() as int),
            r@.len() == final(self).chunk_len(),
    {
        if self.length == 0 {
            return &[];
        }
        self.advance();
        let piece = &self.slices[self.index];
        proof {
            assert(self.pieces()[self.index as int] == piece@);
        }
        let r = slice_from(piece.as_slice(), self.offset);
        r
    }

    /// Moves past used-up slices, so that the current slice has unread bytes.
    fn advance(&mut self)
        requires
            old(self).wf(),
            old(self).rest().len() > 0,
        ensures
            final(self).wf(),
            final(self).rest() == old(self).rest(),
            final(self).index < final(self).slices@.len(),
            final(self).offset < final(self).slices@[final(self).index as int]@.len(),
            final(self).slices@ == old(self).slices@,
    {
        while self.offset == self.slices[self.index].len()
            invariant
                self.wf(),
                self.rest() == old(self).rest(),
                self.rest().len() > 0,
                self.index < self.slices@.len(),
                self.slices@ == old(self).slices@,
            decreases self.slices@.len() - self.index,
        {
            proof {
                let p = self.pieces();
                let i = self.index as int;
                assert(p[i].subrange(self.offset as int, p[i].len() as int) =~= Seq::<u8>::empty());
                assert(self.rest() =~= flatten(p.subrange(i + 1, p.len() as int)));
                if i + 1 < p.len() {
                    assert(p.subrange(i + 1, p.len() as int).drop_first() =~= p.subrange(i + 2, p.len() as int));
                    assert(p[i + 1].subrange(0, p[i + 1].len() as int) =~= p[i + 1]);
                } else {
                    assert(p.subrange(i + 1, p.len() as int) =~= Seq::<Seq<u8>>::empty());
                }
            }
            self.index = self.index + 1;
            self.offset = 0;
        }
    }

    /// Marks the first `amt` bytes handed out by `fill_buf` as read.
    pub fn consume(&mut self, amt: usize)
        requires
            old(self).wf(),
            amt <= old(self).chunk_len(),
        ensures
            final(self).wf(),
            final(self).rest() == old(self).rest().subrange(amt as int, old(self).rest().len() as int),
    {
        if amt == 0 {
            proof {
                assert(self.rest().subrange(0, self.rest().len() as int) =~= self.rest());
            }
            return;
        }
        proof {
            let p = self.pieces();
            let i = self.index as int;
            let o = self.offset as int;
            assert(p[i] == self.slices@[i]@);
            let tail = flatten(p.subrange(i + 1, p.len() as int));
            assert(p[i].subrange(o + amt, p[i].len() as int) + tail =~= (p[i].subrange(o, p[i].len() as int) + tail).subrange(amt as int, self.rest().len() as int));
        }
        self.length = self.length - amt;
        self.offset = self.offset + amt;
    }
}

impl MessageReader {
    /// Reads up to `buf.len()` bytes into the front of `buf`, and returns how
    /// many. Returns 0 only at the end of the message or for an empty `buf`.
    pub fn read(&mut self, buf: &mut [u8]) -> (r: usize)
        requires
            old(self).wf(),
        ensures
            final(self).wf(),
            r <= old(buf)@.len(),
            r <= old(self).rest().len(),
            r == 0 ==> old(buf)@.len() == 0 || old(self).rest().len() == 0,
            final(buf)@ == old(self).rest().subrange(0, r as int) + old(buf)@.subrange(
                r as int,
                old(buf)@.len() as int,
            ),
            final(self).rest() == old(self).rest().subrange(r as int, old(self).rest().len() as int),
    {
        let ghost rest0 = self.rest();
        let bytes = self.fill_buf();
        let amt: usize = if buf.len() < bytes.len() {
            buf.len()
        } else {
            bytes.len()
        };
        let mut i: usize = 0;
        while i < amt
            invariant
                i <= amt,
                amt <= buf@.len(),
                amt <= bytes@.len(),
                buf@.len() == old(buf)@.len(),
                forall|j: int| 0 <= j < i ==> buf@[j] == bytes@[j],
                forall|j: int| amt <= j < buf@.len() ==> buf@[j] == old(buf)@[j],
            decreases amt - i,
        {
            buf.set(i, bytes[i]);
            i = i + 1;
        }
        proof {
            assert(buf@ =~= rest0.subrange(0, amt as int) + old(buf)@.subrange(
                amt as int,
                old(buf)@.len() as int,
            ));
        }
        self.consume(amt);
        amt
    }

    /// Appends every unread byte to `buf` and returns how many there were.
    pub fn read_to_end(&mut self, buf: &mut Vec<u8>) -> (r: usize)
        requires
            old(self).wf(),
        ensures
            final(self).wf(),
            r == old(self).rest().len(),
            final(buf)@ == old(buf)@ + old(self).rest(),
            final(self).rest().len() == 0,
    {
        let total = self.length;
        let mut done: usize = 0;
        while self.length > 0
            invariant
                self.wf(),
                done + self.rest().len() == old(self).rest().len(),
                old(self).rest() == old(self).rest().subrange(0, done as int) + self.rest(),
                buf@ == old(buf)@ + old(self).rest().subrange(0, done as int),
                total == old(self).rest().len(),
            decreases self.rest().len(),
        {
            let bytes = self.fill_buf();
            let n = bytes.len();
            let mut i: usize = 0;
            while i < n
                invariant
                    i <= n,
                    n == bytes@.len(),
                    buf@ == old(buf)@ + old(self).rest().subrange(0, done as int) + bytes@.subrange(0, i as int),
                decreases n - i,
            {
                buf.push(bytes[i]);
                i = i + 1;
                proof {
                    assert(bytes@.subrange(0, i as int) =~= bytes@.subrange(0, i - 1) + seq![bytes@[i - 1]]);
                }
            }
            self.consume(n);
            proof {
                assert(bytes@.subrange(0, n as int) =~= bytes@);
                assert(old(self).rest().subrange(0, done + n) =~= old(self).rest().subrange(0, done as int) + bytes@);
                assert(old(self).rest() =~= old(self).rest().subrange(0, done + n) + self.rest());
            }
            done = done + n;
        }
        proof {
            assert(old(self).rest().subrange(0, done as int) =~= old(self).rest());
        }
        done
    }
}

/// The part of `s` from `start` on.
fn slice_from(s: &[u8], start: usize) -> (r: &[u8])
    requires
        start <= s@.len(),
    ensures
        r@ == s@.subrange(start as int, s@.len() as int),
{
    let n = s.len();
    &s[start..n]
}

proof fn lemma_flatten_suffix_len(s: Seq<Seq<u8>>, i: int)
    requires
        0 <= i < s.len(),
    ensures
        flatten(s.subrange(i, s.len() as int)).len() == s[i].len() + flatten(s.subrange(i + 1, s.len() as int)).len(),
        flatten(s.subrange(i, s.len() as int)).len() <= flatten(s).len(),
    decreases i,
{
    assert(s.subrange(i, s.len() as int).drop_first() =~= s.subrange(i + 1, s.len() as int));
    if i > 0 {
        lemma_flatten_suffix_len(s, i - 1);
    } else {
        assert(s.subrange(0, s.len() as int) =~= s);
    }
}

} // verus!
