use mipidsi::geometry::{Point, Rectangle, Size};
use mipidsi::interface::Interface;
use mipidsi::_mock::{MockDisplayInterface, MockOutputPin};
use mipidsi::models::{ILI9341Rgb565, ILI9342CRgb565, InitStep, Model};
use mipidsi::options::{ColorOrder, Orientation, TearingEffect};
use mipidsi::pixelcolor::Rgb565;
use mipidsi::{Builder, Display, NoResetPin};

/// What a recording interface has seen.
#[derive(Debug, Clone, PartialEq, Eq)]
enum Seen {
    Command(u8, Vec<u8>),
    Pixels(Vec<u8>),
    Repeated(Vec<u8>, u32),
}

/// An interface that records every transfer, and refuses every transfer once
/// `limit` of them were recorded.
#[derive(Default)]
struct Recorder {
    log: Vec<Seen>,
    limit: Option<usize>,
}

impl Recorder {
    fn accept(&mut self, seen: Seen) -> Result<(), ()> {
        if let Some(limit) = self.limit {
            if self.log.len() >= limit {
                return Err(());
            }
        }
        self.log.push(seen);
        Ok(())
    }
}

impl Interface for Recorder {
    type Word = u8;
    type Error = ();

    fn send_command(&mut self, command: u8, args: &[u8]) -> Result<(), ()> {
        self.accept(Seen::Command(command, args.to_vec()))
    }

    fn send_pixels<const N: usize>(&mut self, pixels: &[[u8; N]]) -> Result<(), ()> {
        self.accept(Seen::Pixels(pixels.iter().flatten().copied().collect()))
    }

    fn send_pixels_from_buffer(&mut self, pixels: &[u8]) -> Result<(), ()> {
        self.accept(Seen::Pixels(pixels.to_vec()))
    }

    fn send_repeated_pixel<const N: usize>(&mut self, pixel: [u8; N], count: u32) -> Result<(), ()> {
        self.accept(Seen::Repeated(pixel.to_vec(), count))
    }

    fn send_repeated_pixel_raw(&mut self, pixel_data: &[u8], count: u32) -> Result<(), ()> {
        self.accept(Seen::Repeated(pixel_data.to_vec(), count))
    }
}

fn recording_display() -> Display<Recorder, ILI9341Rgb565, NoResetPin> {
    let mut builder = Builder::new(ILI9341Rgb565, Recorder::default());
    let (steps, madctl) = builder.init_steps(false);
    for step in steps.iter() {
        if let InitStep::Command { instruction, params } = step {
            builder.send_init_command(*instruction, params).unwrap();
        }
    }
    let mut display = builder.into_display::<NoResetPin>(madctl, None);
    display.dcs().log.clear();
    display
}

fn rect(x: i32, y: i32, width: u32, height: u32) -> Rectangle {
    Rectangle::new(Point { x, y }, Size { width, height })
}

#[test]
fn ili9341_init_sets_address_mode_first_and_display_on_last() {
    let mut builder = Builder::new(ILI9341Rgb565, Recorder::default());
    let (steps, _madctl) = builder.init_steps(false);
    let commands: Vec<u8> = steps
        .iter()
        .filter_map(|s| match s {
            InitStep::Command { instruction, .. } => Some(*instruction),
            _ => None,
        })
        .collect();
    assert_eq!(
        commands,
        vec![0x36, 0xB4, 0x20, 0x3A, 0x13, 0x11, 0x29]
    );
}

#[test]
fn fill_solid_clips_to_the_display() {
    let mut display = recording_display();
    let red = Rgb565::new(31, 0, 0);
    display.fill_solid(&rect(-10, -10, 20, 20), red).unwrap();
    assert_eq!(
        display.dcs().log,
        vec![
            Seen::Command(0x2A, vec![0, 0, 0, 9]),
            Seen::Command(0x2B, vec![0, 0, 0, 9]),
            Seen::Command(0x2C, vec![]),
            Seen::Repeated(vec![0xF8, 0x00], 100),
        ]
    );
}

#[test]
fn fill_solid_outside_the_display_sends_nothing() {
    let mut display = recording_display();
    display
        .fill_solid(&rect(300, 400, 5, 5), Rgb565::new(0, 63, 0))
        .unwrap();
    assert!(display.dcs().log.is_empty());
}

#[test]
fn fill_contiguous_sends_the_visible_colors() {
    let mut display = recording_display();
    // a 3x2 area whose left column lies left of the display
    let colors: Vec<Rgb565> = (0..6).map(|i| Rgb565::new(i, 0, 0)).collect();
    display.fill_contiguous(&rect(-1, 0, 3, 2), &colors).unwrap();
    let bytes = |c: &Rgb565| c.to_be_bytes();
    let mut expected_pixels = Vec::new();
    for i in [1usize, 2, 4, 5] {
        expected_pixels.extend_from_slice(&bytes(&colors[i]));
    }
    assert_eq!(
        display.dcs().log,
        vec![
            Seen::Command(0x2A, vec![0, 0, 0, 1]),
            Seen::Command(0x2B, vec![0, 0, 0, 1]),
            Seen::Command(0x2C, vec![]),
            Seen::Pixels(expected_pixels),
        ]
    );
}

#[test]
fn set_pixel_sends_one_pixel_window() {
    let mut display = recording_display();
    let c = Rgb565::new(1, 2, 3);
    display.set_pixel(5, 7, c).unwrap();
    assert_eq!(
        display.dcs().log,
        vec![
            Seen::Command(0x2A, vec![0, 5, 0, 5]),
            Seen::Command(0x2B, vec![0, 7, 0, 7]),
            Seen::Command(0x2C, vec![]),
            Seen::Pixels(c.to_be_bytes().to_vec()),
        ]
    );
}

#[test]
fn set_orientation_is_read_back() {
    let mut display = recording_display();
    assert_eq!(display.orientation(), Orientation::Portrait(false));
    display.set_orientation(Orientation::Landscape(false)).unwrap();
    assert_eq!(display.orientation(), Orientation::Landscape(false));
    assert_eq!(display.dcs().log, vec![Seen::Command(0x36, vec![0x20])]);
    let size = display.size();
    assert_eq!((size.width, size.height), (320, 240));
}

#[test]
fn sleep_and_wake_toggle_sleeping() {
    let mut display = recording_display();
    assert!(!display.is_sleeping());
    display.sleep().unwrap();
    assert!(display.is_sleeping());
    display.wake().unwrap();
    assert!(!display.is_sleeping());
    assert_eq!(
        display.dcs().log,
        vec![Seen::Command(0x10, vec![]), Seen::Command(0x11, vec![])]
    );
}

#[test]
fn vertical_scroll_region_and_offset() {
    let mut display = recording_display();
    display.set_vertical_scroll_region(10, 20).unwrap();
    display.set_vertical_scroll_region(200, 200).unwrap();
    display.set_vertical_scroll_offset(0x0102).unwrap();
    assert_eq!(
        display.dcs().log,
        vec![
            Seen::Command(0x33, vec![0, 10, 1, 34, 0, 20]),
            Seen::Command(0x33, vec![1, 64, 0, 0, 0, 0]),
            Seen::Command(0x37, vec![1, 2]),
        ]
    );
}

#[test]
fn tearing_effect_commands() {
    let mut display = recording_display();
    display.set_tearing_effect(TearingEffect::Off).unwrap();
    display.set_tearing_effect(TearingEffect::Vertical).unwrap();
    display
        .set_tearing_effect(TearingEffect::HorizontalAndVertical)
        .unwrap();
    assert_eq!(
        display.dcs().log,
        vec![
            Seen::Command(0x34, vec![]),
            Seen::Command(0x35, vec![0]),
            Seen::Command(0x35, vec![1]),
        ]
    );
}

#[test]
fn release_gives_back_the_parts() {
    let display = recording_display();
    let (di, _model, rst) = display.release();
    assert!(di.log.is_empty());
    assert!(rst.is_none());
}

#[test]
fn model_write_pixels_starts_a_memory_write() {
    let mut recorder = Recorder::default();
    let colors = [Rgb565::new(31, 0, 0), Rgb565::new(0, 0, 31)];
    let mut model = ILI9341Rgb565;
    model.write_pixels(&mut recorder, &colors).unwrap();
    assert_eq!(
        recorder.log,
        vec![
            Seen::Command(0x2C, vec![]),
            Seen::Pixels(vec![0xF8, 0x00, 0x00, 0x1F]),
        ]
    );
}

#[test]
fn fill_contiguous_clips_a_corner_off_the_display() {
    let mut display = recording_display();
    // a 3x3 area whose top row and left column lie outside the display
    let colors: Vec<Rgb565> = (0..9).map(|i| Rgb565::new(i, 0, 0)).collect();
    assert_eq!(display.fill_contiguous(&rect(-1, -1, 3, 3), &colors), Ok(()));
    let mut expected_pixels = Vec::new();
    for i in [4usize, 5, 7, 8] {
        expected_pixels.extend_from_slice(&colors[i].to_be_bytes());
    }
    assert_eq!(
        display.dcs().log,
        vec![
            Seen::Command(0x2A, vec![0, 0, 0, 1]),
            Seen::Command(0x2B, vec![0, 0, 0, 1]),
            Seen::Command(0x2C, vec![]),
            Seen::Pixels(expected_pixels),
        ]
    );
}

#[test]
fn set_pixels_stops_at_the_first_failed_transfer() {
    let mut display = recording_display();
    display.dcs().limit = Some(1);
    let colors = [Rgb565::new(1, 2, 3); 4];
    assert_eq!(display.set_pixels(0, 0, 1, 1, &colors), Err(()));
    // the column address went out; the page address failed and nothing followed
    assert_eq!(display.dcs().log, vec![Seen::Command(0x2A, vec![0, 0, 0, 1])]);
}

#[test]
fn fill_solid_stops_at_the_first_failed_transfer() {
    let mut display = recording_display();
    display.dcs().limit = Some(2);
    assert_eq!(display.fill_solid(&rect(0, 0, 2, 2), Rgb565::new(0, 0, 31)), Err(()));
    assert_eq!(
        display.dcs().log,
        vec![
            Seen::Command(0x2A, vec![0, 0, 0, 1]),
            Seen::Command(0x2B, vec![0, 0, 0, 1]),
        ]
    );
}

#[test]
fn set_pixel_on_the_mock_display_succeeds() {
    let mut display = mipidsi::_mock::new_mock_display();
    assert_eq!(display.set_pixel(100, 200, Rgb565::new(251, 188, 20)), Ok(()));
}

#[test]
fn init_commands_stop_at_waits_and_failures() {
    let mut builder = Builder::new(ILI9341Rgb565, Recorder::default());
    let (steps, _) = builder.init_steps(false);
    let (next, r) = builder.send_init_commands(&steps, 0);
    assert_eq!(r, Ok(()));
    assert!(next == steps.len() || !matches!(steps[next], InitStep::Command { .. }));
    let sent = steps[..next]
        .iter()
        .filter(|s| matches!(s, InitStep::Command { .. }))
        .count();
    assert_eq!(sent, next);

    let mut failing = Builder::new(ILI9341Rgb565, Recorder { log: Vec::new(), limit: Some(0) });
    let (steps, _) = failing.init_steps(false);
    let first_command = steps
        .iter()
        .position(|s| matches!(s, InitStep::Command { .. }))
        .unwrap();
    let (next, r) = failing.send_init_commands(&steps, first_command);
    assert_eq!(r, Err(()));
    assert_eq!(next, first_command + 1);
}

#[test]
fn builder_on_an_infallible_interface_gives_an_awake_display() {
    let mut builder = Builder::new(ILI9342CRgb565, MockDisplayInterface::new())
        .with_color_order(ColorOrder::Bgr)
        .with_display_size(320, 240);
    let (steps, madctl) = builder.init_steps(true);
    let mut at = 0;
    while at < steps.len() {
        let (next, r) = builder.send_init_commands(&steps, at);
        assert_eq!(r, Ok(()));
        // waits and reset pin levels take no time on the mock
        at = next + 1;
    }
    let display = builder.into_display(madctl, Some(MockOutputPin));
    assert!(!display.is_sleeping());
    assert_eq!(display.size(), Size { width: 320, height: 240 });
}

#[test]
fn sleeping_follows_the_last_successful_call() {
    let mut display = recording_display();
    display.sleep().unwrap();
    // a failed wake leaves the display asleep
    display.dcs().limit = Some(1);
    assert_eq!(display.wake(), Err(()));
    assert!(display.is_sleeping());
    display.dcs().limit = None;
    display.wake().unwrap();
    assert!(!display.is_sleeping());
    // a failed sleep leaves it awake
    display.dcs().limit = Some(2);
    assert_eq!(display.sleep(), Err(()));
    assert!(!display.is_sleeping());
}
