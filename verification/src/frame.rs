//! The frame buffer state: an append-only pixel byte sequence plus a
//! fixed-size auxiliary store simulating memory attached to the graphics
//! subsystem.

use vstd::prelude::*;

verus! {

/// Horizontal resolution of the captured frame, in pixels.
pub const VGA_WIDTH: usize = 640;

/// Vertical resolution of the captured frame, in pixels.
pub const VGA_HEIGHT: usize = 480;

/// Byte length of one complete frame: four bytes per pixel (RGBA).
pub const VGA_BYTES: usize = 640 * 480 * 4;

/// Number of 16-bit words in the auxiliary store.
pub const SRAM_CAPACITY: usize = 1024 * 1024;

/// Initial value of every auxiliary-store word: the all-ones sentinel,
/// marking a cell as unwritten.
pub const SRAM_SENTINEL: u16 = 0xFFFF;

/// The four bytes appended to the pixel buffer for one pixel sample:
/// the three color channels followed by a fully opaque alpha channel.
pub open spec fn pixel_bytes(r: u8, g: u8, b: u8) -> Seq<u8> {
    seq![r, g, b, 255u8]
}

/// The pixel byte sequence produced by a sequence of pixel-cycle calls,
/// starting from an empty buffer: the samples' bytes in call order.
pub open spec fn frame_of(calls: Seq<(u8, u8, u8)>) -> Seq<u8>
    decreases calls.len(),
{
    if calls.len() == 0 {
        Seq::empty()
    } else {
        frame_of(calls.drop_last()) + pixel_bytes(calls.last().0, calls.last().1, calls.last().2)
    }
}

/// One frame's worth of in-flight pixel data, together with the auxiliary
/// store that is allocated atomically with it.
pub struct State {
    /// Pixel samples in raster order, four bytes (r, g, b, alpha) per pixel.
    pub vga_buffer: Vec<u8>,
    /// Simulated attached RAM; not touched by the capture path.
    pub sram: Vec<u16>,
}

impl State {
    /// Well-formedness: only whole pixel samples have been appended, and the
    /// auxiliary store has its configured length with every word still equal
    /// to the sentinel.
    pub open spec fn wf(self) -> bool {
        &&& self.vga_buffer@.len() % 4 == 0
        &&& self.sram@ == Seq::new(SRAM_CAPACITY as nat, |i: int| SRAM_SENTINEL)
    }

    /// Creates the state with an empty pixel buffer and the auxiliary store
    /// filled with the sentinel value.
    pub fn new() -> (s: State)
        ensures
            s.wf(),
            s.vga_buffer@ == Seq::<u8>::empty(),
    {
        let vga_buffer: Vec<u8> = Vec::with_capacity(VGA_BYTES);
        let mut sram: Vec<u16> = Vec::with_capacity(SRAM_CAPACITY);
        while sram.len() < SRAM_CAPACITY
            invariant
                sram@.len() <= SRAM_CAPACITY,
                forall|i: int| 0 <= i < sram@.len() ==> sram@[i] == SRAM_SENTINEL,
            decreases SRAM_CAPACITY - sram@.len(),
        {
            sram.push(SRAM_SENTINEL);
        }
        proof {
            assert(sram@ =~= Seq::new(SRAM_CAPACITY as nat, |i: int| SRAM_SENTINEL));
        }
        State { vga_buffer, sram }
    }

    /// Appends one pixel sample: the three channel bytes and an opaque alpha
    /// byte, in call order, at the end of the buffer. Never checks the frame
    /// size: overflow past one frame is tolerated until save time. Leaves the
    /// auxiliary store untouched.
    pub fn vga_cycle(&mut self, r: u8, g: u8, b: u8)
        ensures
            final(self).vga_buffer@ == old(self).vga_buffer@ + pixel_bytes(r, g, b),
            final(self).sram@ == old(self).sram@,
            old(self).wf() ==> final(self).wf(),
    {
        self.vga_buffer.push(r);
        self.vga_buffer.push(g);
        self.vga_buffer.push(b);
        self.vga_buffer.push(255);
        proof {
            assert(self.vga_buffer@ =~= old(self).vga_buffer@ + pixel_bytes(r, g, b));
        }
    }

    /// Checks the buffer against the expected byte count of one complete
    /// frame. If it matches, hands the whole buffer out and resets it to
    /// empty; otherwise changes nothing and reports the observed length.
    pub fn take_and_reset_if_complete(&mut self, width: usize, height: usize) -> (r: Result<
        Vec<u8>,
        usize,
    >)
        requires
            width * height * 4 <= usize::MAX,
        ensures
            final(self).sram@ == old(self).sram@,
            old(self).vga_buffer@.len() == width * height * 4 ==> {
                &&& r matches Ok(taken) && taken@ == old(self).vga_buffer@
                &&& final(self).vga_buffer@ == Seq::<u8>::empty()
            },
            old(self).vga_buffer@.len() != width * height * 4 ==> {
                &&& r matches Err(actual) && actual == old(self).vga_buffer@.len()
                &&& final(self).vga_buffer@ == old(self).vga_buffer@
            },
            old(self).wf() ==> final(self).wf(),
    {
        let expected: usize = width * height * 4;
        if self.vga_buffer.len() != expected {
            return Err(self.vga_buffer.len());
        }
        let mut taken: Vec<u8> = Vec::new();
        core::mem::swap(&mut self.vga_buffer, &mut taken);
        Ok(taken)
    }
}

/// Law: appending is strictly append-only and order-preserving. Two
/// pixel-cycle calls on a buffer leave the buffer's prior contents in place,
/// put the first call's bytes directly after them, and the second call's
/// bytes directly after those.
pub proof fn lemma_append_order(buf: Seq<u8>, r1: u8, g1: u8, b1: u8, r2: u8, g2: u8, b2: u8)
    ensures
        ({
            let after = (buf + pixel_bytes(r1, g1, b1)) + pixel_bytes(r2, g2, b2);
            &&& after.subrange(0, buf.len() as int) == buf
            &&& after.subrange(buf.len() as int, buf.len() as int + 4) == pixel_bytes(r1, g1, b1)
            &&& after.subrange(buf.len() as int + 4, buf.len() as int + 8) == pixel_bytes(r2, g2, b2)
        }),
{
    let after = (buf + pixel_bytes(r1, g1, b1)) + pixel_bytes(r2, g2, b2);
    assert(after.subrange(0, buf.len() as int) =~= buf);
    assert(after.subrange(buf.len() as int, buf.len() as int + 4) =~= pixel_bytes(r1, g1, b1));
    assert(after.subrange(buf.len() as int + 4, buf.len() as int + 8) =~= pixel_bytes(r2, g2, b2));
}

/// Law: one more pixel-cycle call extends the modeled buffer exactly as
/// `vga_cycle` extends the real one, by that call's four bytes at the end;
/// so `frame_of` of a call sequence is the buffer those calls build.
pub proof fn lemma_frame_of_push(calls: Seq<(u8, u8, u8)>, c: (u8, u8, u8))
    ensures
        frame_of(calls.push(c)) == frame_of(calls) + pixel_bytes(c.0, c.1, c.2),
{
    assert(calls.push(c).drop_last() =~= calls);
}

/// Law: the buffer built by a sequence of pixel-cycle calls holds four bytes
/// per call, and the bytes of call `i` stand at positions `4*i .. 4*i + 4`,
/// as that call's (r, g, b) arguments followed by an opaque alpha byte.
pub proof fn lemma_frame_of_pixels(calls: Seq<(u8, u8, u8)>)
    ensures
        frame_of(calls).len() == 4 * calls.len(),
        forall|i: int|
            0 <= i < calls.len() ==> {
                &&& frame_of(calls)[4 * i] == (#[trigger] calls[i]).0
                &&& frame_of(calls)[4 * i + 1] == calls[i].1
                &&& frame_of(calls)[4 * i + 2] == calls[i].2
                &&& frame_of(calls)[4 * i + 3] == 255
            },
    decreases calls.len(),
{
    if calls.len() > 0 {
        let prefix = calls.drop_last();
        lemma_frame_of_pixels(prefix);
        assert forall|i: int| 0 <= i < calls.len() implies {
            &&& frame_of(calls)[4 * i] == (#[trigger] calls[i]).0
            &&& frame_of(calls)[4 * i + 1] == calls[i].1
            &&& frame_of(calls)[4 * i + 2] == calls[i].2
            &&& frame_of(calls)[4 * i + 3] == 255
        } by {
            if i < calls.len() - 1 {
                assert(calls[i] == prefix[i]);
            }
        }
    }
}

/// The buffer contents after one save attempt: a complete frame is taken and
/// the buffer reset to empty; anything else is left untouched.
pub open spec fn buffer_after_save(buf: Seq<u8>) -> Seq<u8> {
    if buf.len() == VGA_BYTES {
        Seq::empty()
    } else {
        buf
    }
}

/// Law: exactly width times height pixel-cycle calls on an empty buffer build
/// a complete frame, which a save takes and resets rather than reporting
/// incomplete.
pub proof fn lemma_complete_frame_is_saved(calls: Seq<(u8, u8, u8)>)
    requires
        calls.len() == VGA_WIDTH * VGA_HEIGHT,
    ensures
        frame_of(calls).len() == VGA_BYTES,
        buffer_after_save(frame_of(calls)).len() == 0,
{
    lemma_frame_of_pixels(calls);
}

/// Law: after a successful save the buffer is empty, so a second save with no
/// pixel-cycle calls in between finds an incomplete frame of length zero.
pub proof fn lemma_second_save_incomplete(buf: Seq<u8>)
    requires
        buf.len() == VGA_BYTES,
    ensures
        buffer_after_save(buf).len() == 0,
        buffer_after_save(buffer_after_save(buf)) == buffer_after_save(buf),
        buffer_after_save(buf).len() != VGA_BYTES,
{
}

} // verus!
