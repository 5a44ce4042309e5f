//! The capture surface around the frame buffer: frame validation, PNG
//! encoding of a complete frame, and the reset that starts the next frame.
//!
//! The byte layout of the PNG container is the encoder crate's business, so
//! the encoded bytes are only named here, never spelled out; everything
//! around the encoding call is verified.

use vstd::prelude::*;
use crate::frame::{State, VGA_WIDTH, VGA_HEIGHT, VGA_BYTES, buffer_after_save};

verus! {

/// The PNG encoding of an RGBA8 image of the given dimensions whose raster
/// bytes are `pixels`. The encoder is deterministic: the bytes depend on the
/// dimensions and the pixel data alone.
pub uninterp spec fn png_encoding(width: int, height: int, pixels: Seq<u8>) -> Seq<u8>;

/// Relies on png::Encoder::new, set_color, set_depth, Writer::write_image_data
/// and Writer::finish: encodes the raster bytes as an 8-bit-per-channel RGBA
/// PNG image, writing into an in-memory buffer. The encode cannot fail here:
/// header validation rejects only zero dimensions and invalid colour/depth
/// combinations (RGBA at eight bits is valid), the image-data size check asks
/// for exactly `4 * width * height` bytes, every write goes to memory, and
/// the size bound keeps the encoder's row and buffer arithmetic (up to
/// `(4 * width + 1) * height` words plus a sub-percent stored-block margin)
/// inside `usize`. Every step is a deterministic function of the dimensions
/// and the data.
#[verifier::external_body]
fn encode_rgba_png(width: u32, height: u32, pixels: &Vec<u8>) -> (r: Vec<u8>)
    requires
        0 < width,
        0 < height,
        pixels@.len() == 4 * width * height,
        2 * (4 * width + 1) * height <= usize::MAX,
    ensures
        r@ == png_encoding(width as int, height as int, pixels@),
{
    let mut out: Vec<u8> = Vec::new();
    let mut encoder = png::Encoder::new(&mut out, width, height);
    encoder.set_color(png::ColorType::Rgba);
    encoder.set_depth(png::BitDepth::Eight);
    let mut writer = encoder.write_header().expect("valid non-zero RGBA8 header");
    writer.write_image_data(pixels.as_slice()).expect("in-memory encode of an exact-size buffer");
    writer.finish().expect("in-memory flush");
    out
}

/// What one save attempt came to.
pub enum SaveOutcome {
    /// The frame was complete; these are the encoded PNG bytes to be written
    /// to the output path.
    Saved(Vec<u8>),
    /// The buffer did not hold exactly one frame; it was left untouched, and
    /// this is its observed byte length, for the diagnostic.
    Incomplete(usize),
}

/// One save attempt at the configured resolution. A buffer holding exactly
/// one complete frame is taken, reset to empty and encoded as a PNG image;
/// any other buffer length is reported and nothing changes. The in-memory
/// encode of a complete frame always succeeds, so a complete frame always
/// comes back as its encoded bytes.
pub fn save_frame(state: &mut State) -> (r: SaveOutcome)
    ensures
        final(state).sram@ == old(state).sram@,
        final(state).vga_buffer@ == buffer_after_save(old(state).vga_buffer@),
        old(state).vga_buffer@.len() != VGA_BYTES ==> r == SaveOutcome::Incomplete(
            old(state).vga_buffer@.len() as usize,
        ),
        old(state).vga_buffer@.len() == VGA_BYTES ==> (r matches SaveOutcome::Saved(bytes)
            && bytes@ == png_encoding(VGA_WIDTH as int, VGA_HEIGHT as int, old(state).vga_buffer@)),
        old(state).wf() ==> final(state).wf(),
{
    match state.take_and_reset_if_complete(VGA_WIDTH, VGA_HEIGHT) {
        Err(actual) => SaveOutcome::Incomplete(actual),
        Ok(frame) => SaveOutcome::Saved(
            encode_rgba_png(VGA_WIDTH as u32, VGA_HEIGHT as u32, &frame),
        ),
    }
}

} // verus!
