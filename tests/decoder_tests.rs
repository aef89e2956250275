use motex::{decode, decode_window, pad_to_length, Color, DecodeFault, ImageData, ImgFormat};

fn pixels(data: &[u8], format: ImgFormat, width: usize, height: usize) -> Vec<u8> {
    decode(data, format, width, height).unwrap().pixels
}

#[test]
fn every_supported_format_gives_four_bytes_per_texel() {
    let data = [0x12u8, 0x34, 0x56];
    for format in ImgFormat::get_all_formats() {
        match format {
            ImgFormat::CI4 | ImgFormat::CI8 | ImgFormat::IA32 => {}
            _ => {
                let img = decode(&data, format, 3, 2).unwrap();
                assert_eq!(img.pixels.len(), 3 * 2 * 4);
                assert_eq!(img.width, 3);
                assert_eq!(img.height, 2);
                assert!(pixels(&data, format, 0, 0).is_empty());
                assert!(pixels(&data, format, 5, 0).is_empty());
            }
        }
    }
}

#[test]
fn rgba32_bytes_decode_to_the_same_colour() {
    let c = Color::new_rgba(0x12, 0x34, 0x56, 0x78);
    let out = pixels(&[c.r, c.g, c.b, c.a], ImgFormat::RGBA32, 1, 1);
    assert_eq!(out, vec![0x12, 0x34, 0x56, 0x78]);
}

#[test]
fn rgba16_channels_survive_widening_and_packing() {
    let widened = Color::from_u16(0b10101 << 11);
    assert_eq!(widened.r, 0xAD);
    assert_eq!(widened.rgba_to_u16() >> 11, 0b10101);
    for p in [0u16, 1, 0xA800, 0xF801, 0x07C0, 0x1234, 0xFFFF] {
        assert_eq!(Color::from_u16(p).rgba_to_u16(), p);
    }
}

#[test]
fn arbitrary_colours_do_not_survive_packing() {
    let c = Color::new_rgba(0x01, 0x02, 0x03, 0x80);
    assert_eq!(c.rgba_to_u16(), 0);
    assert_ne!(Color::from_u16(c.rgba_to_u16()), c);
}

#[test]
fn i4_splits_a_byte_high_nibble_first() {
    let out = pixels(&[0xA5], ImgFormat::I4, 2, 1);
    assert_eq!(out, vec![0xA0, 0xA0, 0xA0, 0xFF, 0x50, 0x50, 0x50, 0xFF]);
}

#[test]
fn short_source_is_zero_filled() {
    let out = pixels(&[0x10, 0x80], ImgFormat::I8, 4, 1);
    assert_eq!(out, vec![0x10, 0x10, 0x10, 0xFF, 0x80, 0x80, 0x80, 0xFF, 0, 0, 0, 0, 0, 0, 0, 0]);
}

#[test]
fn partial_wide_texel_is_zero_filled() {
    assert_eq!(pixels(&[0xFF], ImgFormat::RGBA16, 1, 1), vec![0, 0, 0, 0]);
    assert_eq!(pixels(&[0xFF, 0xFF, 0xFF], ImgFormat::RGBA32, 1, 1), vec![0, 0, 0, 0]);
}

#[test]
fn bytes_past_the_image_are_ignored() {
    assert_eq!(pixels(&[7, 8, 9], ImgFormat::I8, 1, 1), vec![7, 7, 7, 0xFF]);
}

#[test]
fn window_past_the_end_has_nothing_to_draw() {
    let data = [1u8, 2, 3];
    assert!(decode_window(&data, 4, ImgFormat::I8, 2, 1).unwrap().is_none());
    assert!(decode_window(&data, 4, ImgFormat::CI4, 2, 1).unwrap().is_none());
}

#[test]
fn window_at_the_end_is_all_transparent() {
    let data = [1u8, 2, 3];
    let img = decode_window(&data, 3, ImgFormat::I8, 2, 1).unwrap().unwrap();
    assert_eq!(img.pixels, vec![0; 8]);
}

#[test]
fn window_at_the_last_byte_decodes_a_partial_tile() {
    let data = [1u8, 2, 3];
    let img = decode_window(&data, 2, ImgFormat::I8, 2, 1).unwrap().unwrap();
    assert_eq!(img.pixels, vec![3, 3, 3, 0xFF, 0, 0, 0, 0]);
    let img = decode_window(&data, 0, ImgFormat::I8, 2, 1).unwrap().unwrap();
    assert_eq!(img.pixels, vec![1, 1, 1, 0xFF, 2, 2, 2, 0xFF]);
}

#[test]
fn window_faults_for_palette_formats() {
    let data = [1u8, 2, 3];
    assert_eq!(decode_window(&data, 1, ImgFormat::CI8, 1, 1).err(), Some(DecodeFault::UnresolvedPaletteFormat));
}

#[test]
fn from_u32_reads_bytes_most_significant_first() {
    assert_eq!(Color::rgba_from_u32(0x00000000), Color::new_rgba(0, 0, 0, 0));
    assert_eq!(Color::rgba_from_u32(0xFF0000FF), Color::new_rgba(255, 0, 0, 255));
    assert_eq!(Color::rgba_from_u32(0x12345678), Color::new_rgba(0x12, 0x34, 0x56, 0x78));
}

#[test]
fn one_bit_texels_are_white_or_black() {
    let out = pixels(&[0b1010_0000], ImgFormat::OneBPP, 8, 1);
    let w = [255u8, 255, 255, 255];
    let b = [0u8, 0, 0, 255];
    let expected: Vec<u8> = [w, b, w, b, b, b, b, b].concat();
    assert_eq!(out, expected);
}

#[test]
fn rows_start_on_a_byte() {
    let w = [255u8, 255, 255, 255];
    let b = [0u8, 0, 0, 255];
    let out = pixels(&[0b1000_0000, 0b0100_0000], ImgFormat::OneBPP, 3, 2);
    assert_eq!(out, [w, b, b, b, w, b].concat());
    let out = pixels(&[0x12, 0x30, 0x45, 0x60], ImgFormat::I4, 3, 2);
    let g = |i: u8| [i, i, i, 0xFF];
    assert_eq!(out, [g(0x10), g(0x20), g(0x30), g(0x40), g(0x50), g(0x60)].concat());
}

#[test]
fn ia4_widens_three_bit_intensity_and_one_bit_alpha() {
    assert_eq!(pixels(&[0xF1], ImgFormat::IA4, 2, 1), vec![255, 255, 255, 255, 0, 0, 0, 255]);
    assert_eq!(pixels(&[0xA0], ImgFormat::IA4, 2, 1), vec![182, 182, 182, 0, 0, 0, 0, 0]);
}

#[test]
fn ia8_splits_intensity_and_alpha_nibbles() {
    assert_eq!(pixels(&[0x9C], ImgFormat::IA8, 1, 1), vec![0x90, 0x90, 0x90, 0xC0]);
}

#[test]
fn ia16_takes_intensity_then_alpha() {
    assert_eq!(pixels(&[0x40, 0x80], ImgFormat::IA16, 1, 1), vec![0x40, 0x40, 0x40, 0x80]);
}

#[test]
fn rgba16_reads_big_endian_texels() {
    assert_eq!(pixels(&[0xF8, 0x01], ImgFormat::RGBA16, 1, 1), vec![255, 0, 0, 255]);
    assert_eq!(pixels(&[0x07, 0xC0], ImgFormat::RGBA16, 1, 1), vec![0, 255, 0, 0]);
}

#[test]
fn palette_and_unknown_formats_fault() {
    assert_eq!(decode(&[1], ImgFormat::CI4, 1, 1).err(), Some(DecodeFault::UnresolvedPaletteFormat));
    assert_eq!(decode(&[1], ImgFormat::CI8, 1, 1).err(), Some(DecodeFault::UnresolvedPaletteFormat));
    assert_eq!(decode(&[1, 2, 3, 4], ImgFormat::IA32, 1, 1).err(), Some(DecodeFault::UnsupportedFormat));
}

#[test]
fn image_data_decodes_its_bytes() {
    let img = ImageData::read(vec![0x40, 0x80], ImgFormat::IA16, 1, 1);
    assert_eq!(img.width, 1);
    assert_eq!(img.decode().unwrap().pixels, vec![0x40, 0x40, 0x40, 0x80]);
}

#[test]
fn pad_to_length_fills_or_cuts() {
    assert_eq!(pad_to_length(vec![1, 2, 3], 5), vec![1, 2, 3, 0, 0]);
    assert_eq!(pad_to_length(vec![1, 2, 3], 2), vec![1, 2]);
    assert_eq!(pad_to_length(vec![1, 2, 3], 3), vec![1, 2, 3]);
    assert_eq!(pad_to_length(vec![], 0), Vec::<u8>::new());
}

#[test]
fn format_bits_per_pixel() {
    assert_eq!(ImgFormat::OneBPP.bits_per_pixel(), 1);
    assert_eq!(ImgFormat::CI4.bits_per_pixel(), 4);
    assert_eq!(ImgFormat::IA8.bits_per_pixel(), 8);
    assert_eq!(ImgFormat::RGBA16.bits_per_pixel(), 16);
    assert_eq!(ImgFormat::RGBA32.bits_per_pixel(), 32);
    assert_eq!(ImgFormat::default(), ImgFormat::RGBA16);
    assert_eq!(Color::transparent(), Color::new_rgba(0, 0, 0, 0));
}
