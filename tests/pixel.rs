use anyrender_vello_cpu::pixel::{convert_pixel, convert_pixels, PremulPixel};
use anyrender_vello_cpu::RenderError;

fn px(r: u8, g: u8, b: u8, a: u8) -> PremulPixel {
    PremulPixel { r, g, b, a }
}

#[test]
fn transparent_pixel_becomes_all_bits_set() {
    assert_eq!(convert_pixel(px(10, 20, 30, 0)), 0xFFFF_FFFF);
    assert_eq!(convert_pixel(px(0, 0, 0, 0)), u32::MAX);
    assert_eq!(convert_pixel(px(255, 255, 255, 0)), u32::MAX);
}

#[test]
fn opaque_pixel_is_packed_as_rgb() {
    assert_eq!(convert_pixel(px(0x0A, 0x14, 0x1E, 255)), 0x000A_141E);
    assert_eq!(convert_pixel(px(0, 0, 0, 255)), 0);
    assert_eq!(convert_pixel(px(255, 255, 255, 255)), 0x00FF_FFFF);
}

#[test]
fn partial_alpha_is_dropped_without_blending() {
    assert_eq!(convert_pixel(px(255, 0, 0, 1)), 0x00FF_0000);
    assert_eq!(convert_pixel(px(0, 0x80, 0, 128)), 0x0000_8000);
}

#[test]
fn converts_every_pixel_in_order() {
    let src = vec![px(1, 2, 3, 255), px(9, 9, 9, 0), px(0xAB, 0xCD, 0xEF, 7)];
    let mut dest = vec![0u32; 3];
    assert_eq!(convert_pixels(&src, &mut dest), Ok(()));
    assert_eq!(dest, vec![0x0001_0203, 0xFFFF_FFFF, 0x00AB_CDEF]);
}

#[test]
fn empty_frame_converts_to_nothing() {
    let src: Vec<PremulPixel> = Vec::new();
    let mut dest: Vec<u32> = Vec::new();
    assert_eq!(convert_pixels(&src, &mut dest), Ok(()));
    assert!(dest.is_empty());
}

#[test]
fn pixel_count_mismatch_fails_and_writes_nothing() {
    let src = vec![px(1, 2, 3, 255); 4];
    let mut dest = vec![42u32; 3];
    assert_eq!(
        convert_pixels(&src, &mut dest),
        Err(RenderError::PixelCountMismatch { pixmap_len: 4, surface_len: 3 })
    );
    assert_eq!(dest, vec![42u32; 3]);

    let mut larger = vec![7u32; 5];
    assert_eq!(
        convert_pixels(&src, &mut larger),
        Err(RenderError::PixelCountMismatch { pixmap_len: 4, surface_len: 5 })
    );
    assert_eq!(larger, vec![7u32; 5]);
}

#[test]
fn solid_opaque_frame_fills_surface_with_its_colour() {
    let colour = px(0x12, 0x34, 0x56, 255);
    let src = vec![colour; 800 * 600];
    let mut dest = vec![0u32; 800 * 600];
    assert_eq!(convert_pixels(&src, &mut dest), Ok(()));
    assert!(dest.iter().all(|&v| v == 0x0012_3456));
}
