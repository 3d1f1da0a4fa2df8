use mipidsi::dcs::{DcsCommand, SetAddressMode, SetColumnAddress, SetInvertMode};
use mipidsi::error::Error;
use mipidsi::options::{
    ColorInversion, ColorOrder, HorizontalRefreshOrder, Orientation, RefreshOrder,
    VerticalRefreshOrder,
};

#[test]
fn madctl_bit_operations() -> Result<(), Error> {
    let madctl = SetAddressMode::default()
        .with_color_order(ColorOrder::Bgr)
        .with_refresh_order(RefreshOrder::new(
            VerticalRefreshOrder::BottomToTop,
            HorizontalRefreshOrder::RightToLeft,
        ))
        .with_orientation(Orientation::LandscapeInverted(true));

    let mut bytes = [0u8];
    assert_eq!(madctl.fill_params_buf(&mut bytes)?, 1);
    assert_eq!(bytes, [0b1011_1100u8]);

    let madctl = madctl.with_orientation(Orientation::default());
    assert_eq!(madctl.fill_params_buf(&mut bytes)?, 1);
    assert_eq!(bytes, [0b0001_1100u8]);

    let madctl = madctl.with_color_order(ColorOrder::Rgb);
    assert_eq!(madctl.fill_params_buf(&mut bytes)?, 1);
    assert_eq!(bytes, [0b0001_0100u8]);

    let madctl = madctl.with_refresh_order(RefreshOrder::default());
    assert_eq!(madctl.fill_params_buf(&mut bytes)?, 1);
    assert_eq!(bytes, [0b0000_0000u8]);

    Ok(())
}

#[test]
fn caset_fills_data_properly() -> Result<(), Error> {
    let caset = SetColumnAddress::new(0, 320);

    let mut buffer = [0u8; 4];
    assert_eq!(caset.fill_params_buf(&mut buffer)?, 4);
    assert_eq!(buffer, [0, 0, 0x1, 0x40]);

    Ok(())
}

#[test]
fn set_invert_mode_chooses_correct_instruction() -> Result<(), Error> {
    let ste = SetInvertMode(ColorInversion::Inverted);

    let mut buffer = [0u8; 0];
    assert_eq!(ste.instruction(), 0x21);
    assert_eq!(ste.fill_params_buf(&mut buffer)?, 0);

    Ok(())
}
