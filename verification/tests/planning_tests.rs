use mipidsi::dcs::{BitsPerPixel, PixelFormat, SetAddressMode};
use mipidsi::graphics::{
    fill_buffer, nth_u32, repeat_pixel_to_buffer_bytes, take_skip_collect, take_u32,
};
use mipidsi::interface::{rgb565_to_bytes, rgb565_to_u16, rgb666_to_bytes};
use mipidsi::models::{InitStep, Model, ST7789};
use mipidsi::options::orientation::{MemoryMapping, Orientation as Orient, Rotation};
use mipidsi::options::{
    ColorInversion, ColorOrder, HorizontalRefreshOrder, ModelOptions, Orientation, RefreshOrder,
    VerticalRefreshOrder,
};
use mipidsi::pixelcolor::{Rgb565, Rgb666};
use mipidsi::Builder;

#[test]
fn fill_buffer_writes_whole_pixels_only() {
    let mut buffer = [0xEEu8; 7];
    assert_eq!(fill_buffer(&mut buffer, [1u8, 2, 3]), 2);
    assert_eq!(buffer, [1, 2, 3, 1, 2, 3, 0xEE]);
}

#[test]
fn repeat_pixel_fills_the_whole_buffer() {
    let mut buffer = [0u8; 7];
    assert_eq!(repeat_pixel_to_buffer_bytes(&[1, 2, 3], &mut buffer), 3);
    assert_eq!(buffer, [1, 2, 3, 1, 2, 3, 1]);
}

#[test]
fn take_and_nth() {
    let items = [10, 11, 12, 13];
    assert_eq!(take_u32(&items, 2), vec![10, 11]);
    assert_eq!(take_u32(&items, 9), vec![10, 11, 12, 13]);
    assert_eq!(nth_u32(&items, 1, 2), Some(13));
    assert_eq!(nth_u32(&items, 1, 3), None);
}

#[test]
fn take_skip_collect_selects_rows() {
    let items: Vec<u32> = (0..20).collect();
    // start at 1, take 3, skip 2, at most 7 items
    assert_eq!(
        take_skip_collect(&items, 1, 3, 2, 7),
        vec![1, 2, 3, 6, 7, 8, 11]
    );
    // the items run out before the count is reached
    assert_eq!(take_skip_collect(&items, 15, 3, 2, 10), vec![15, 16, 17]);
}

#[test]
fn pixel_bytes() {
    let c = Rgb565::new(0b10101, 0b110011, 0b01110);
    assert_eq!(c.into_storage(), 0b10101_110011_01110);
    assert_eq!(rgb565_to_bytes(c), [0b1010_1110, 0b0110_1110]);
    assert_eq!(rgb565_to_u16(c), [0b10101_110011_01110]);
    let masked = Rgb565::new(0xFF, 0xFF, 0xFF);
    assert_eq!((masked.r(), masked.g(), masked.b()), (31, 63, 31));
    assert_eq!(rgb666_to_bytes(Rgb666::new(63, 1, 32)), [252, 4, 128]);
}

#[test]
fn bits_per_pixel_and_pixel_format() {
    assert_eq!(BitsPerPixel::from_rgb_color(1, 1, 1), BitsPerPixel::Three);
    assert_eq!(BitsPerPixel::from_rgb_color(15, 15, 15), BitsPerPixel::Twelve);
    assert_eq!(BitsPerPixel::Sixteen.code(), 0b101);
    assert_eq!(PixelFormat::with_all(BitsPerPixel::Sixteen).as_u8(), 0x55);
    assert_eq!(PixelFormat::with_all(BitsPerPixel::Eighteen).as_u8(), 0x66);
    assert_eq!(
        PixelFormat::new(BitsPerPixel::Eighteen, BitsPerPixel::Sixteen).as_u8(),
        0x65
    );
}

#[test]
fn rotations() {
    assert_eq!(Rotation::Deg90.degree(), 90);
    assert_eq!(Rotation::Deg270.rotate(Rotation::Deg180), Rotation::Deg90);
    assert!(Rotation::Deg180.is_horizontal());
    assert!(Rotation::Deg270.is_vertical());
    for r in [Rotation::Deg0, Rotation::Deg90, Rotation::Deg180, Rotation::Deg270] {
        assert_eq!(Rotation::try_from_degree(r.degree()), Ok(r));
    }
}

#[test]
fn orientation_flips_undo_themselves() {
    for rotation in [Rotation::Deg0, Rotation::Deg90, Rotation::Deg180, Rotation::Deg270] {
        for mirrored in [false, true] {
            let o = Orient { rotation, mirrored };
            assert_eq!(o.flip_horizontal().flip_horizontal(), o);
            assert_eq!(o.flip_vertical().flip_vertical(), o);
            assert_eq!(o.rotate(Rotation::Deg90).rotate(Rotation::Deg270), o);
        }
    }
    assert_eq!(Orient::default(), Orient::new());
}

#[test]
fn memory_mappings_differ_for_different_orientations() {
    let mut seen: Vec<MemoryMapping> = Vec::new();
    for rotation in [Rotation::Deg0, Rotation::Deg90, Rotation::Deg180, Rotation::Deg270] {
        for mirrored in [false, true] {
            let m = MemoryMapping::from_orientation(Orient { rotation, mirrored });
            assert!(!seen.contains(&m));
            seen.push(m);
        }
    }
}

#[test]
fn refresh_order_flips() {
    let order = RefreshOrder::new(
        VerticalRefreshOrder::TopToBottom,
        HorizontalRefreshOrder::LeftToRight,
    );
    assert_eq!(
        order.flip_vertical(),
        RefreshOrder::new(
            VerticalRefreshOrder::BottomToTop,
            HorizontalRefreshOrder::LeftToRight
        )
    );
    assert_eq!(order.flip_horizontal().flip_horizontal(), order);
    assert_eq!(
        VerticalRefreshOrder::BottomToTop.flip(),
        VerticalRefreshOrder::TopToBottom
    );
    assert_eq!(
        HorizontalRefreshOrder::RightToLeft.flip(),
        HorizontalRefreshOrder::LeftToRight
    );
}

#[test]
fn model_options_display_size_follows_orientation() {
    let mut options = ModelOptions::with_all((135, 240), (52, 40));
    assert_eq!(options.display_size(), (135, 240));
    options.orientation = Orientation::Landscape(true);
    assert_eq!(options.display_size(), (240, 135));
    options.orientation = Orientation::PortraitInverted(false);
    assert_eq!(options.display_size(), (135, 240));
    options.set_invert_colors(ColorInversion::Inverted);
    assert_eq!(options.invert_colors, ColorInversion::Inverted);
    assert_eq!(ModelOptions::full_size((240, 320)).display_offset, (0, 0));
}

#[test]
fn address_mode_from_options() {
    let mut options = ModelOptions::full_size((240, 320));
    options.color_order = ColorOrder::Bgr;
    options.orientation = Orientation::PortraitInverted(false);
    let madctl = SetAddressMode::from_options(&options);
    assert_eq!(madctl, SetAddressMode::from(&options));
    assert_eq!(
        madctl,
        SetAddressMode::new(
            ColorOrder::Bgr,
            Orientation::PortraitInverted(false),
            RefreshOrder::default()
        )
    );
}

#[test]
fn st7789_init_script() {
    let mut builder = Builder::st7789(());
    let (steps, madctl) = builder.init_steps(false);
    assert_eq!(ST7789::framebuffer_size(), (240, 320));
    let expected = vec![
        InitStep::DelayUs(150_000),
        InitStep::Command { instruction: 0x11, params: vec![] },
        InitStep::DelayUs(10_000),
        InitStep::Command { instruction: 0x36, params: vec![0] },
        InitStep::Command { instruction: 0x20, params: vec![] },
        InitStep::Command { instruction: 0x3A, params: vec![0x55] },
        InitStep::DelayUs(10_000),
        InitStep::Command { instruction: 0x13, params: vec![] },
        InitStep::DelayUs(10_000),
        InitStep::Command { instruction: 0x29, params: vec![] },
        InitStep::DelayUs(120_000),
    ];
    assert_eq!(steps, expected);
    assert_eq!(madctl, SetAddressMode::default());
}

#[test]
fn st7789_pico1_uses_inverted_colors_and_offset() {
    let mut builder = Builder::st7789_pico1(());
    let (steps, _madctl) = builder.init_steps(false);
    assert!(steps.contains(&InitStep::Command { instruction: 0x21, params: vec![] }));
}
