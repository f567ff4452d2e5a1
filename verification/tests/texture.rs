use citro3d::texture::{TexFormat, TexKind, TexParams};

#[test]
fn bits_per_pixel_of_each_format() {
    assert_eq!(TexFormat::Rgba8.bits_per_pixel(), 32);
    assert_eq!(TexFormat::Rgb8.bits_per_pixel(), 24);
    assert_eq!(TexFormat::Rgba5551.bits_per_pixel(), 16);
    assert_eq!(TexFormat::Rgb565.bits_per_pixel(), 16);
    assert_eq!(TexFormat::Rgba4.bits_per_pixel(), 16);
    assert_eq!(TexFormat::La8.bits_per_pixel(), 16);
    assert_eq!(TexFormat::HiLo8.bits_per_pixel(), 16);
    assert_eq!(TexFormat::L8.bits_per_pixel(), 8);
    assert_eq!(TexFormat::A8.bits_per_pixel(), 8);
    assert_eq!(TexFormat::La4.bits_per_pixel(), 8);
    assert_eq!(TexFormat::Etc1A4.bits_per_pixel(), 8);
    assert_eq!(TexFormat::L4.bits_per_pixel(), 4);
    assert_eq!(TexFormat::A4.bits_per_pixel(), 4);
    assert_eq!(TexFormat::Etc1.bits_per_pixel(), 4);
}

#[test]
fn upload_needs_all_the_pixels() {
    assert!(TexFormat::Rgba8.fits(4, 4, 64));
    assert!(TexFormat::Rgba8.fits(4, 4, 65));
    assert!(!TexFormat::Rgba8.fits(4, 4, 63));
    assert!(TexFormat::Rgb8.fits(3, 3, 27));
    assert!(!TexFormat::Rgb8.fits(3, 3, 26));
    assert!(TexFormat::L4.fits(3, 1, 1));
    assert!(!TexFormat::L4.fits(4, 1, 1));
    assert!(TexFormat::L4.fits(4, 1, 2));
    assert!(TexFormat::A8.fits(0, 100, 0));
    assert!(TexFormat::Rgb565.fits(480, 320, 480 * 320 * 2));
    assert!(!TexFormat::Rgb565.fits(480, 320, 480 * 320 * 2 - 1));
    assert!(!TexFormat::Rgba8.fits(u16::MAX, u16::MAX, 1024));
}

#[test]
fn params_start_as_2d_rgba8_in_cpu_memory() {
    let p = TexParams::new_2d(480, 320);
    assert_eq!(p.parts(), (false, 480, 320, TexFormat::Rgba8, TexKind::Tex2d));
}

#[test]
fn params_builders_change_one_thing_each() {
    let p = TexParams::new_2d(480, 320).use_vram(true);
    assert_eq!(p.parts(), (true, 480, 320, TexFormat::Rgba8, TexKind::Tex2d));
    let p = p.width(64);
    assert_eq!(p.parts(), (true, 64, 320, TexFormat::Rgba8, TexKind::Tex2d));
    let p = p.height(32);
    assert_eq!(p.parts(), (true, 64, 32, TexFormat::Rgba8, TexKind::Tex2d));
    let p = p.format(TexFormat::Etc1A4);
    assert_eq!(p.parts(), (true, 64, 32, TexFormat::Etc1A4, TexKind::Tex2d));
    let p = p.make_2d();
    assert_eq!(p.parts(), (true, 64, 32, TexFormat::Etc1A4, TexKind::Tex2d));
    let p = p.use_vram(false);
    assert_eq!(p.parts(), (false, 64, 32, TexFormat::Etc1A4, TexKind::Tex2d));
}
