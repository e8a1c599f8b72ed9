use wolf3d::canvas::{Canvas, RGBColor};

#[test]
fn new_canvas_is_blank() {
    let c = Canvas::new(4, 3);
    assert_eq!(c.width, 4);
    assert_eq!(c.height, 3);
    assert_eq!(c.buffer.len(), 48);
    assert!(c.buffer.iter().all(|b| *b == 0));
}

#[test]
fn put_pixel_writes_rgba() {
    let mut c = Canvas::new(4, 3);
    c.put_pixel(1, 2, RGBColor { r: 10, g: 20, b: 30 });
    let off = (2 * 4 + 1) * 4;
    assert_eq!(c.buffer[off], 10);
    assert_eq!(c.buffer[off + 1], 20);
    assert_eq!(c.buffer[off + 2], 30);
    assert_eq!(c.buffer[off + 3], 255);
    // the rest of the buffer is untouched
    assert_eq!(c.buffer.iter().map(|b| *b as u32).sum::<u32>(), (10 + 20 + 30 + 255));
}
