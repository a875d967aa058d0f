use cfctl::framebuffer::{
    argb_channels, centered_rect, fb_bitfield, fb_var_screeninfo, fill_rect, frame_layout,
    orange_pixel, rgb565_channels, DrawError, Rect, FBIOGET_VSCREENINFO, ORANGE_ARGB8888,
    ORANGE_RGB565,
};

#[test]
fn test_fb_var_screeninfo_size() {
    let size = std::mem::size_of::<fb_var_screeninfo>();
    assert!(size >= 160);
}

#[test]
fn test_fb_bitfield_size() {
    let size = std::mem::size_of::<fb_bitfield>();
    assert_eq!(size, 12);
}

#[test]
fn test_orange_color_constants() {
    let orange_32 = argb_channels(ORANGE_ARGB8888);
    assert_eq!(orange_32.alpha, 0xFF);
    assert_eq!(orange_32.red, 0xFF);
    assert_eq!(orange_32.green, 0x88);
    assert_eq!(orange_32.blue, 0x00);

    let orange_565: u16 = 0xF880;
    assert_eq!(ORANGE_RGB565, orange_565);
    let drawn = rgb565_channels(orange_565);
    assert_eq!(drawn.red, 31);
    assert_eq!(drawn.green, 4);
    assert_eq!(drawn.blue, 0);

    // The pixel with channels 31, 17 and 0.
    let half_green = rgb565_channels(0xFA20);
    assert_eq!(half_green.red, 31);
    assert_eq!(half_green.green, 17);
    assert_eq!(half_green.blue, 0);
}

#[test]
fn test_buffer_size_calculation() {
    let width = 1080;
    let xres_virtual = 1088;
    let height = 1920;

    let layout_32 = frame_layout(xres_virtual, height, 32).unwrap();
    assert_eq!(layout_32.bytes_per_pixel, 4);
    assert_eq!(layout_32.line_length, 1088 * 4);
    assert_eq!(layout_32.buffer_size, 1088 * 4 * 1920);
    assert!(layout_32.buffer_size > width * (height as usize) * 4);

    let layout_16 = frame_layout(xres_virtual, height, 16).unwrap();
    assert_eq!(layout_16.buffer_size, 1088 * 2 * 1920);
}

#[test]
fn test_rect_calculations() {
    let width = 1080;
    let height = 1920;

    let rect = centered_rect(width, height);

    assert_eq!(rect.width, 540);
    assert_eq!(rect.height, 960);
    assert_eq!(rect.x, 270);
    assert_eq!(rect.y, 480);

    assert!(rect.x + rect.width <= width);
    assert!(rect.y + rect.height <= height);
}

#[test]
fn test_ioctl_constant() {
    assert_eq!(FBIOGET_VSCREENINFO, 0x4600);
}

#[test]
fn orange_pixel_bytes_by_depth() {
    assert_eq!(orange_pixel(32), Some(vec![0x00, 0x88, 0xFF, 0xFF]));
    assert_eq!(orange_pixel(24), Some(vec![0x00, 0x88, 0xFF]));
    assert_eq!(orange_pixel(16), Some(vec![0x80, 0xF8]));
    assert_eq!(orange_pixel(8), None);
    assert_eq!(ORANGE_ARGB8888.to_le_bytes().to_vec(), vec![0x00, 0x88, 0xFF, 0xFF]);
    assert_eq!(ORANGE_RGB565.to_le_bytes().to_vec(), vec![0x80, 0xF8]);
}

#[test]
fn fill_rect_paints_only_the_rectangle() {
    // Four lines of ten bytes; pixels of two bytes; lines hold four pixels and two bytes of padding.
    let mut fb = vec![0u8; 40];
    let rect = Rect { x: 1, y: 1, width: 2, height: 2 };
    let pixel = vec![0xAA, 0xBB];
    assert_eq!(fill_rect(&mut fb, 10, rect, &pixel), Ok(()));
    let mut expected = vec![0u8; 40];
    for row in 1..3 {
        for col in 1..3 {
            expected[row * 10 + col * 2] = 0xAA;
            expected[row * 10 + col * 2 + 1] = 0xBB;
        }
    }
    assert_eq!(fb, expected);
}

#[test]
fn fill_rect_rejects_what_does_not_fit() {
    let mut fb = vec![7u8; 40];
    let pixel = vec![1, 2];
    let too_wide = Rect { x: 4, y: 0, width: 2, height: 1 };
    assert_eq!(fill_rect(&mut fb, 10, too_wide, &pixel), Err(DrawError::OutOfBounds));
    let too_tall = Rect { x: 0, y: 3, width: 1, height: 2 };
    assert_eq!(fill_rect(&mut fb, 10, too_tall, &pixel), Err(DrawError::OutOfBounds));
    assert_eq!(fill_rect(&mut fb, 10, too_tall, &Vec::new()), Err(DrawError::EmptyPixel));
    assert_eq!(fb, vec![7u8; 40]);
}

#[test]
fn fill_rect_with_nothing_to_draw_changes_nothing() {
    let mut fb = vec![3u8; 12];
    let empty = Rect { x: 0, y: 0, width: 0, height: 2 };
    assert_eq!(fill_rect(&mut fb, 6, empty, &vec![9, 9, 9]), Ok(()));
    assert_eq!(fb, vec![3u8; 12]);
}

#[test]
fn frame_layout_of_an_empty_screen() {
    let layout = frame_layout(0, 0, 32).unwrap();
    assert_eq!(layout.line_length, 0);
    assert_eq!(layout.buffer_size, 0);
}

#[test]
fn centered_rect_of_odd_sizes() {
    let rect = centered_rect(5, 3);
    assert_eq!(rect, Rect { x: 1, y: 1, width: 2, height: 1 });
}
