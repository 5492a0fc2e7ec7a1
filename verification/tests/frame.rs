use tracer::error::TracerError;
use tracer::frame::Framebuffer;

#[test]
fn new_frame_is_black() {
    let frame = Framebuffer::new(3, 2).unwrap();
    assert_eq!((frame.width, frame.height), (3, 2));
    assert_eq!(frame.pixels, vec![[0u8, 0, 0]; 6]);
    let empty = Framebuffer::new(0, 5).unwrap();
    assert!(empty.pixels.is_empty());
}

#[test]
fn frame_from_pixels_checks_the_count() {
    assert!(Framebuffer::from_pixels(2, 2, vec![[1, 2, 3]; 4]).is_some());
    assert!(Framebuffer::from_pixels(2, 2, vec![[1, 2, 3]; 3]).is_none());
    assert!(Framebuffer::from_pixels(2, 2, vec![[1, 2, 3]; 5]).is_none());
    assert!(Framebuffer::from_pixels(0, 2, vec![]).is_some());
}

#[test]
fn set_and_get_address_rows_from_the_top() {
    let mut frame = Framebuffer::new(3, 2).unwrap();
    frame.set(1, 0, [10, 20, 30]);
    frame.set(2, 1, [40, 50, 60]);
    assert_eq!(frame.get(1, 0), [10, 20, 30]);
    assert_eq!(frame.get(2, 1), [40, 50, 60]);
    assert_eq!(frame.get(0, 0), [0, 0, 0]);
    assert_eq!(frame.index(1, 0), 1);
    assert_eq!(frame.index(2, 1), 5);
    assert_eq!(frame.pixels[1], [10, 20, 30]);
    assert_eq!(frame.pixels[5], [40, 50, 60]);
}

#[test]
fn text_lists_rows_from_the_bottom() {
    let frame = Framebuffer::from_pixels(
        2,
        2,
        vec![[255, 0, 0], [0, 255, 0], [0, 0, 255], [12, 103, 9]],
    )
    .unwrap();
    let text = String::from_utf8(frame.to_ppm()).unwrap();
    assert_eq!(text, "P3\n2 2\n255\n0 0 255\n12 103 9\n255 0 0\n0 255 0\n");
}

#[test]
fn text_of_a_larger_frame() {
    let mut frame = Framebuffer::new(12, 1).unwrap();
    frame.set(11, 0, [1, 10, 100]);
    let text = String::from_utf8(frame.to_ppm()).unwrap();
    let mut want = String::from("P3\n12 1\n255\n");
    for _ in 0..11 {
        want.push_str("0 0 0\n");
    }
    want.push_str("1 10 100\n");
    assert_eq!(text, want);
}

#[test]
fn text_of_an_empty_frame_is_its_head() {
    let frame = Framebuffer::new(0, 0).unwrap();
    assert_eq!(String::from_utf8(frame.to_ppm()).unwrap(), "P3\n0 0\n255\n");
}

#[test]
fn error_messages() {
    assert_eq!(TracerError::FsError("x".to_string()).message(), "fs error");
    assert_eq!(TracerError::ImageError("y".to_string()).message(), "image error");
    assert_eq!(TracerError::BvhBoundingBoxError.message(), "null bound box error");
    assert_eq!(TracerError::Infallible.message(), "null bound box error");
}
