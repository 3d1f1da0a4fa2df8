use embedded_graphics_core::pixelcolor::{Rgb565, Rgb666, Rgb888, RgbColor};
use mipidsi::dcs::BitsPerPixel;
use mipidsi::graphics::TakeSkip;

#[test]
fn bpp_from_rgb_color_works() {
    assert_eq!(
        BitsPerPixel::from_rgb_color(Rgb565::MAX_R, Rgb565::MAX_G, Rgb565::MAX_B),
        BitsPerPixel::Sixteen
    );
    assert_eq!(
        BitsPerPixel::from_rgb_color(Rgb666::MAX_R, Rgb666::MAX_G, Rgb666::MAX_B),
        BitsPerPixel::Eighteen
    );
    assert_eq!(
        BitsPerPixel::from_rgb_color(Rgb888::MAX_R, Rgb888::MAX_G, Rgb888::MAX_B),
        BitsPerPixel::TwentyFour
    );
}

#[test]
fn take_skip_iter() {
    let items: Vec<i32> = (0..11).collect();
    let mut iter = TakeSkip::new(&items, 3, 2);
    assert_eq!(iter.next(), Some(0));
    assert_eq!(iter.next(), Some(1));
    assert_eq!(iter.next(), Some(2));
    // Skip 3 and 4
    assert_eq!(iter.next(), Some(5));
    assert_eq!(iter.next(), Some(6));
    assert_eq!(iter.next(), Some(7));
    // Skip 8 and 9
    assert_eq!(iter.next(), Some(10));
    assert_eq!(iter.next(), None);
}

#[test]
fn take_skip_with_take_equals_zero() {
    // take == 0 should not cause an integer overflow or infinite loop and
    // just return None
    let items: Vec<i32> = (0..11).collect();
    let mut iter = TakeSkip::new(&items, 0, 2);
    assert_eq!(iter.next(), None);
}
