use raytrace::framebuffer::CHANNELS;
use raytrace::Framebuffer;

#[test]
fn new_frame_is_black_and_sized() {
    let fb = Framebuffer::new(400, 225);
    assert_eq!(fb.width, 400);
    assert_eq!(fb.height, 225);
    assert_eq!(fb.buf.len(), 400 * 225 * 3);
    assert!(fb.buf.iter().all(|&b| b == 0));
}

#[test]
fn empty_frame_has_no_bytes() {
    let fb = Framebuffer::new(0, 7);
    assert!(fb.buf.is_empty());
    let fb = Framebuffer::new(5, 0);
    assert!(fb.buf.is_empty());
}

#[test]
fn write_is_row_major_top_row_first() {
    let mut fb = Framebuffer::new(2, 2);
    fb.write(1, 0, [10, 20, 30]);
    assert_eq!(fb.buf, vec![0, 0, 0, 0, 0, 0, 10, 20, 30, 0, 0, 0]);
    fb.write(0, 1, [1, 2, 3]);
    assert_eq!(fb.buf, vec![0, 0, 0, 1, 2, 3, 10, 20, 30, 0, 0, 0]);
}

#[test]
fn write_last_pixel() {
    let mut fb = Framebuffer::new(3, 2);
    fb.write(1, 2, [255, 128, 7]);
    assert_eq!(&fb.buf[15..18], &[255, 128, 7]);
    assert!(fb.buf[..15].iter().all(|&b| b == 0));
}

#[test]
fn write_overwrites_same_pixel() {
    let mut fb = Framebuffer::new(1, 1);
    fb.write(0, 0, [9, 9, 9]);
    fb.write(0, 0, [4, 5, 6]);
    assert_eq!(fb.buf, vec![4, 5, 6]);
    assert_eq!(CHANNELS, 3);
}
