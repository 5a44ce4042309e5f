use gpu_cosim::capture::{save_frame, SaveOutcome};
use gpu_cosim::frame::{State, SRAM_CAPACITY, SRAM_SENTINEL, VGA_BYTES, VGA_HEIGHT, VGA_WIDTH};

/// Decodes PNG bytes and returns (width, height, raster bytes), panicking on
/// any malformed input.
fn decode_png(bytes: &[u8]) -> (u32, u32, Vec<u8>) {
    let decoder = png::Decoder::new(bytes);
    let mut reader = decoder.read_info().expect("valid PNG header");
    let mut buf = vec![0u8; reader.output_buffer_size()];
    let info = reader.next_frame(&mut buf).expect("valid PNG image data");
    assert_eq!(info.color_type, png::ColorType::Rgba);
    assert_eq!(info.bit_depth, png::BitDepth::Eight);
    buf.truncate(info.buffer_size());
    (info.width, info.height, buf)
}

/// The (r, g, b) sample for call number `i` of the incrementing pattern.
fn triple(i: usize) -> (u8, u8, u8) {
    ((i % 256) as u8, ((i / 256) % 256) as u8, ((i / 65536) % 256) as u8)
}

#[test]
fn new_state_is_empty_with_sentinel_sram() {
    let s = State::new();
    assert_eq!(s.vga_buffer.len(), 0);
    assert_eq!(s.sram.len(), SRAM_CAPACITY);
    assert_eq!(SRAM_CAPACITY, 1024 * 1024);
    assert!(s.sram.iter().all(|&w| w == SRAM_SENTINEL));
    assert_eq!(SRAM_SENTINEL, 0xFFFF);
}

#[test]
fn cycle_appends_in_order_with_opaque_alpha() {
    let mut s = State::new();
    s.vga_cycle(1, 2, 3);
    s.vga_cycle(9, 8, 7);
    assert_eq!(s.vga_buffer, vec![1, 2, 3, 255, 9, 8, 7, 255]);
}

#[test]
fn save_with_no_pixels_reports_zero_and_writes_nothing() {
    let mut s = State::new();
    match save_frame(&mut s) {
        SaveOutcome::Incomplete(actual) => assert_eq!(actual, 0),
        _ => panic!("an empty buffer must be reported incomplete"),
    }
    assert_eq!(s.vga_buffer.len(), 0);
}

#[test]
fn short_frame_is_kept_and_appending_continues() {
    let mut s = State::new();
    for i in 0..10 {
        let (r, g, b) = triple(i);
        s.vga_cycle(r, g, b);
    }
    match save_frame(&mut s) {
        SaveOutcome::Incomplete(actual) => assert_eq!(actual, 40),
        _ => panic!("a short buffer must be reported incomplete"),
    }
    // The buffer was not reset: the next call appends at position 10 * 4.
    assert_eq!(s.vga_buffer.len(), 40);
    s.vga_cycle(11, 22, 33);
    assert_eq!(s.vga_buffer.len(), 44);
    assert_eq!(&s.vga_buffer[40..], &[11, 22, 33, 255]);
    assert_eq!(&s.vga_buffer[0..4], &[0, 0, 0, 255]);
}

#[test]
fn over_length_frame_is_reported_incomplete_and_kept() {
    let mut s = State::new();
    let count = VGA_WIDTH * VGA_HEIGHT + 1;
    for i in 0..count {
        let (r, g, b) = triple(i);
        s.vga_cycle(r, g, b);
    }
    match save_frame(&mut s) {
        SaveOutcome::Incomplete(actual) => assert_eq!(actual, count * 4),
        _ => panic!("an over-length buffer must be reported incomplete"),
    }
    assert_eq!(s.vga_buffer.len(), count * 4);
}

#[test]
fn full_frame_round_trips_through_png() {
    let mut s = State::new();
    let count = VGA_WIDTH * VGA_HEIGHT;
    assert_eq!(count, 307200);
    let mut expected: Vec<u8> = Vec::with_capacity(VGA_BYTES);
    for i in 0..count {
        let (r, g, b) = triple(i);
        s.vga_cycle(r, g, b);
        expected.extend_from_slice(&[r, g, b, 255]);
    }
    let bytes = match save_frame(&mut s) {
        SaveOutcome::Saved(bytes) => bytes,
        SaveOutcome::Incomplete(actual) => panic!("complete frame reported as {actual}"),
    };
    // The buffer is reset immediately after a successful save.
    assert_eq!(s.vga_buffer.len(), 0);
    // The emitted image is 640x480 RGBA and byte-exact against the calls.
    let (w, h, raster) = decode_png(&bytes);
    assert_eq!(w, VGA_WIDTH as u32);
    assert_eq!(h, VGA_HEIGHT as u32);
    assert_eq!(raster.len(), VGA_BYTES);
    assert_eq!(raster, expected);
    assert!(raster.chunks(4).all(|px| px[3] == 255));
}

#[test]
fn save_after_save_reports_incomplete_zero() {
    let mut s = State::new();
    for i in 0..VGA_WIDTH * VGA_HEIGHT {
        let (r, g, b) = triple(i);
        s.vga_cycle(r, g, b);
    }
    assert!(matches!(save_frame(&mut s), SaveOutcome::Saved(_)));
    match save_frame(&mut s) {
        SaveOutcome::Incomplete(actual) => assert_eq!(actual, 0),
        _ => panic!("the buffer must be empty right after a successful save"),
    }
}

#[test]
fn sram_never_changes_through_cycles_and_saves() {
    let mut s = State::new();
    for i in 0..VGA_WIDTH * VGA_HEIGHT {
        let (r, g, b) = triple(i);
        s.vga_cycle(r, g, b);
    }
    assert!(matches!(save_frame(&mut s), SaveOutcome::Saved(_)));
    assert!(matches!(save_frame(&mut s), SaveOutcome::Incomplete(0)));
    assert_eq!(s.sram.len(), SRAM_CAPACITY);
    assert!(s.sram.iter().all(|&w| w == SRAM_SENTINEL));
}

#[test]
fn take_and_reset_checks_exact_length_for_given_dimensions() {
    let mut s = State::new();
    s.vga_cycle(5, 6, 7);
    s.vga_cycle(8, 9, 10);
    // Two pixels are exactly one 2x1 frame.
    let taken = s.take_and_reset_if_complete(2, 1).expect("frame is complete");
    assert_eq!(taken, vec![5, 6, 7, 255, 8, 9, 10, 255]);
    assert_eq!(s.vga_buffer.len(), 0);
    // And no longer one after the reset.
    assert_eq!(s.take_and_reset_if_complete(2, 1), Err(0));
}
