use pixely::framebuffer::FrameBuffer;
use pixely::framebuffer::Pixel;

const BLACK: [u8; 4] = [0, 0, 0, 255];

fn color(n: u8) -> Pixel {
    Pixel { red: n, green: n + 1, blue: n + 2, alpha: n + 3 }
}

#[test]
fn black_is_opaque_black() {
    let black = Pixel::black();
    assert_eq!(black, Pixel { red: 0, green: 0, blue: 0, alpha: 255 });
    assert_eq!(black.red, 0);
    assert_eq!(black.green, 0);
    assert_eq!(black.blue, 0);
    assert_eq!(black.alpha, 255);
}

#[test]
fn pixels_compare_by_channel() {
    assert_eq!(color(7), color(7));
    assert_ne!(color(7), color(8));
    assert_ne!(Pixel { alpha: 0, ..Pixel::black() }, Pixel::black());
    let copy = color(3);
    let same = copy;
    assert_eq!(copy, same);
}

#[test]
fn new_buffer_has_width_times_height_black_pixels() {
    let buffer = FrameBuffer::new(3, 2);
    assert_eq!(buffer.width(), 3);
    assert_eq!(buffer.height(), 2);
    let bytes = buffer.as_bytes();
    assert_eq!(bytes.len(), 3 * 2 * 4);
    for cell in bytes.chunks(4) {
        assert_eq!(cell, &BLACK[..]);
    }
}

#[test]
fn new_buffer_of_one_pixel() {
    let buffer = FrameBuffer::new(1, 1);
    assert_eq!(buffer.as_bytes(), &BLACK[..]);
}

#[test]
fn new_buffer_without_area_has_no_bytes() {
    let flat = FrameBuffer::new(5, 0);
    assert_eq!(flat.width(), 5);
    assert_eq!(flat.height(), 0);
    assert!(flat.as_bytes().is_empty());
    let thin = FrameBuffer::new(0, 5);
    assert_eq!(thin.width(), 0);
    assert_eq!(thin.height(), 5);
    assert!(thin.as_bytes().is_empty());
    assert!(FrameBuffer::new(0, 0).as_bytes().is_empty());
}

#[test]
fn set_pixel_shows_at_the_row_major_offset() {
    let mut buffer = FrameBuffer::new(3, 2);
    let pixel = Pixel { red: 10, green: 20, blue: 30, alpha: 40 };
    buffer.set_pixel(1, 1, pixel);
    let bytes = buffer.as_bytes();
    let offset = 4 * (1 * 3 + 1);
    assert_eq!(&bytes[offset..offset + 4], &[10, 20, 30, 40][..]);
    for (i, cell) in bytes.chunks(4).enumerate() {
        if i != 4 {
            assert_eq!(cell, &BLACK[..]);
        }
    }
}

#[test]
fn set_pixel_reaches_every_cell() {
    let mut buffer = FrameBuffer::new(4, 3);
    for y in 0..3 {
        for x in 0..4 {
            buffer.set_pixel(x, y, color((y * 4 + x) as u8 * 4));
        }
    }
    let bytes = buffer.as_bytes();
    assert_eq!(bytes.len(), 48);
    for (i, byte) in bytes.iter().enumerate() {
        assert_eq!(*byte as usize, i);
    }
}

#[test]
fn set_pixel_overwrites() {
    let mut buffer = FrameBuffer::new(2, 2);
    buffer.set_pixel(0, 1, color(1));
    buffer.set_pixel(0, 1, color(100));
    assert_eq!(&buffer.as_bytes()[8..12], &[100, 101, 102, 103][..]);
}

#[test]
fn as_bytes_orders_channels_red_green_blue_alpha() {
    let mut buffer = FrameBuffer::new(2, 1);
    buffer.set_pixel(0, 0, Pixel { red: 1, green: 2, blue: 3, alpha: 4 });
    assert_eq!(buffer.as_bytes(), &[1, 2, 3, 4, 0, 0, 0, 255][..]);
}

#[test]
fn set_pixel_outside_the_grid_changes_nothing() {
    let mut buffer = FrameBuffer::new(3, 2);
    buffer.set_pixel(2, 1, color(50));
    let before = buffer.as_bytes().to_vec();
    let pixel = Pixel { red: 9, green: 9, blue: 9, alpha: 9 };
    buffer.set_pixel(3, 0, pixel);
    buffer.set_pixel(0, 2, pixel);
    buffer.set_pixel(3, 2, pixel);
    buffer.set_pixel(6, 0, pixel);
    buffer.set_pixel(100, 100, pixel);
    buffer.set_pixel(usize::MAX, 0, pixel);
    buffer.set_pixel(0, usize::MAX, pixel);
    buffer.set_pixel(usize::MAX, usize::MAX, pixel);
    assert_eq!(buffer.as_bytes(), &before[..]);
    assert_eq!(buffer.width(), 3);
    assert_eq!(buffer.height(), 2);
}

#[test]
fn set_pixel_past_the_row_end_does_not_spill_into_the_next_row() {
    let mut buffer = FrameBuffer::new(2, 2);
    buffer.set_pixel(2, 0, color(1));
    buffer.set_pixel(3, 0, color(1));
    for cell in buffer.as_bytes().chunks(4) {
        assert_eq!(cell, &BLACK[..]);
    }
}

#[test]
fn set_pixel_on_a_buffer_without_area_does_nothing() {
    let mut empty = FrameBuffer::new(0, 0);
    empty.set_pixel(0, 0, color(1));
    empty.set_pixel(5, 7, color(1));
    assert!(empty.as_bytes().is_empty());
    let mut flat = FrameBuffer::new(4, 0);
    flat.set_pixel(1, 0, color(1));
    assert!(flat.as_bytes().is_empty());
    let mut thin = FrameBuffer::new(0, 4);
    thin.set_pixel(0, 1, color(1));
    assert!(thin.as_bytes().is_empty());
}
