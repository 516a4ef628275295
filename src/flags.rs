use vstd::prelude::*;

verus! {

/// Native flag bit: the write may be buffered instead of flushed at once.
pub const WRITE_BUFFER_HINT: u32 = 1;

/// Native flag bit: compression is disabled for the write.
pub const WRITE_NO_COMPRESS: u32 = 2;

/// Sets or clears the bits of `flag` in `*flags`.
pub fn change_flag(flags: &mut u32, flag: u32, set: bool)
    ensures
        set ==> *final(flags) == *old(flags) | flag,
        !set ==> *final(flags) == *old(flags) & !flag,
{
    if set {
        *flags = *flags | flag;
    } else {
        *flags = *flags & !flag;
    }
}


/// Flags of a write operation.
#[derive(Clone, Copy, Debug, PartialEq, Eq, Structural)]
pub struct WriteFlags {
    pub flags: u32,
}

impl WriteFlags {
    pub open spec fn hint_set(self) -> bool {
        self.flags & WRITE_BUFFER_HINT != 0
    }

    pub open spec fn no_compress_set(self) -> bool {
        self.flags & WRITE_NO_COMPRESS != 0
    }

    /// No flag set.
    pub fn new() -> (r: WriteFlags)
        ensures
            r.flags == 0,
            !r.hint_set(),
            !r.no_compress_set(),
    {
        proof {
            assert(0u32 & 1u32 == 0u32) by (bit_vector);
            assert(0u32 & 2u32 == 0u32) by (bit_vector);
        }
        WriteFlags { flags: 0 }
    }

    /// Hint that the write may be buffered and need not go out on the wire
    /// immediately. Other flags are kept.
    pub fn buffer_hint(self, need_buffered: bool) -> (r: WriteFlags)
        ensures
            r.hint_set() == need_buffered,
            r.no_compress_set() == self.no_compress_set(),
            need_buffered ==> r.flags == self.flags | WRITE_BUFFER_HINT,
            !need_buffered ==> r.flags == self.flags & !WRITE_BUFFER_HINT,
    {
        let mut flags = self.flags;
        change_flag(&mut flags, WRITE_BUFFER_HINT, need_buffered);
        proof {
            let f = self.flags;
            assert((f | 1u32) & 1u32 != 0u32) by (bit_vector);
            assert((f & !1u32) & 1u32 == 0u32) by (bit_vector);
            assert(((f | 1u32) & 2u32 != 0u32) == (f & 2u32 != 0u32)) by (bit_vector);
            assert(((f & !1u32) & 2u32 != 0u32) == (f & 2u32 != 0u32)) by (bit_vector);
        }
        WriteFlags { flags }
    }

    /// Forces compression to be disabled, or lifts that. Other flags are kept.
    pub fn force_no_compress(self, no_compress: bool) -> (r: WriteFlags)
        ensures
            r.no_compress_set() == no_compress,
            r.hint_set() == self.hint_set(),
            no_compress ==> r.flags == self.flags | WRITE_NO_COMPRESS,
            !no_compress ==> r.flags == self.flags & !WRITE_NO_COMPRESS,
    {
        let mut flags = self.flags;
        change_flag(&mut flags, WRITE_NO_COMPRESS, no_compress);
        proof {
            let f = self.flags;
            assert((f | 2u32) & 2u32 != 0u32) by (bit_vector);
            assert((f & !2u32) & 2u32 == 0u32) by (bit_vector);
            assert(((f | 2u32) & 1u32 != 0u32) == (f & 1u32 != 0u32)) by (bit_vector);
            assert(((f & !2u32) & 1u32 != 0u32) == (f & 1u32 != 0u32)) by (bit_vector);
        }
        WriteFlags { flags }
    }

    /// Whether the buffer hint is set.
    pub fn get_buffer_hint(self) -> (r: bool)
        ensures
            r == self.hint_set(),
    {
        (self.flags & WRITE_BUFFER_HINT) != 0
    }

    /// Whether compression is disabled.
    pub fn get_force_no_compress(self) -> (r: bool)
        ensures
            r == self.no_compress_set(),
    {
        (self.flags & WRITE_NO_COMPRESS) != 0
    }
}

} // verus!
