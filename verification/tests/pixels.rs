use redeye::{buffer_layout, overlay_pixel, overlay_row, BufferLayout};

#[test]
fn layout_of_full_hd_surface() {
    let layout = buffer_layout(1920, 1080).unwrap();
    assert_eq!(
        layout,
        BufferLayout {
            stride: 7680,
            size: 8_294_400
        }
    );
}

#[test]
fn layout_of_smallest_surface() {
    assert_eq!(
        buffer_layout(1, 1).unwrap(),
        BufferLayout { stride: 4, size: 4 }
    );
}

#[test]
fn layout_rejects_too_wide_row() {
    let err = buffer_layout(0x4000_0000, 1).unwrap_err();
    assert_eq!(err.to_string(), "Overlay width is too large");
    let err = buffer_layout(u32::MAX, 0).unwrap_err();
    assert_eq!(err.to_string(), "Overlay width is too large");
}

#[test]
fn layout_rejects_too_large_surface() {
    let err = buffer_layout(0x1000_0000, 16).unwrap_err();
    assert_eq!(err.to_string(), "Overlay surface is too large");
}

#[test]
fn layout_rejects_buffer_beyond_shm_limit() {
    let err = buffer_layout(0x1000_0000, 2).unwrap_err();
    assert_eq!(err.to_string(), "Overlay buffer is too large for Wayland shm");
}

#[test]
fn layout_accepts_image_at_shm_limit() {
    // 4 * 0x1fff_ffff bytes is just below i32::MAX.
    assert_eq!(
        buffer_layout(0x1fff_ffff, 1).unwrap(),
        BufferLayout {
            stride: 0x7fff_fffc,
            size: 0x7fff_fffc
        }
    );
    assert_eq!(
        buffer_layout(0x3fff_ffff, 0).unwrap(),
        BufferLayout {
            stride: 0xffff_fffc,
            size: 0
        }
    );
}

#[test]
fn pixel_for_opaque_and_transparent() {
    assert_eq!(overlay_pixel(255), 0xffff_7600);
    assert_eq!(overlay_pixel(0), 0);
}

#[test]
fn pixel_green_channel_scales_with_alpha() {
    // 100 * 118 / 255 = 46
    assert_eq!(overlay_pixel(100), 0x6464_2e00);
    // 178 * 118 / 255 = 82
    assert_eq!(overlay_pixel(178), 0xb2b2_5200);
}

#[test]
fn row_repeats_pixel_in_native_order() {
    let row = overlay_row(3, 255);
    let pixel = 0xffff_7600u32.to_ne_bytes();
    let mut expected = Vec::new();
    for _ in 0..3 {
        expected.extend_from_slice(&pixel);
    }
    assert_eq!(row, expected);
    assert!(row[0..4] == [0x00, 0x76, 0xff, 0xff] || row[0..4] == [0xff, 0xff, 0x76, 0x00]);
}

#[test]
fn empty_row_has_no_bytes() {
    assert!(overlay_row(0, 200).is_empty());
}
