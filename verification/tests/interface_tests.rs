use std::cell::RefCell;
use std::rc::Rc;

use mipidsi::interface::parallel::{bus_pin_writes, repeat_plan_u16, repeat_plan_u8, RepeatPlan};
use mipidsi::interface::spi::{fill_pixel_chunk, fill_repeated_pixel, RepeatedPixelPlan};
use mipidsi::interface::{
    BufferedInterface, FlushingError, FlushingInterface, Interface, PGpio16BitInterface,
    PGpio8BitInterface, SpiInterface,
};

/// What a recording interface has seen.
#[derive(Debug, Clone, PartialEq, Eq)]
enum Seen {
    Command(u8, Vec<u8>),
    Pixels(Vec<u8>),
    Repeated(Vec<u8>, u32),
}

/// An interface that records every transfer in a shared log, and fails once
/// `fail_after` transfers have been accepted.
struct Recorder {
    log: Rc<RefCell<Vec<Seen>>>,
    fail_after: usize,
}

impl Recorder {
    fn new(fail_after: usize) -> (Self, Rc<RefCell<Vec<Seen>>>) {
        let log = Rc::new(RefCell::new(Vec::new()));
        (Recorder { log: log.clone(), fail_after }, log)
    }

    fn accept(&mut self, seen: Seen) -> Result<(), &'static str> {
        if self.log.borrow().len() >= self.fail_after {
            return Err("inner failure");
        }
        self.log.borrow_mut().push(seen);
        Ok(())
    }
}

impl Interface for Recorder {
    type Word = u8;
    type Error = &'static str;

    fn send_command(&mut self, command: u8, args: &[u8]) -> Result<(), Self::Error> {
        self.accept(Seen::Command(command, args.to_vec()))
    }

    fn send_pixels<const N: usize>(&mut self, pixels: &[[u8; N]]) -> Result<(), Self::Error> {
        self.accept(Seen::Pixels(pixels.iter().flatten().copied().collect()))
    }

    fn send_pixels_from_buffer(&mut self, pixels: &[u8]) -> Result<(), Self::Error> {
        self.accept(Seen::Pixels(pixels.to_vec()))
    }

    fn send_repeated_pixel<const N: usize>(
        &mut self,
        pixel: [u8; N],
        count: u32,
    ) -> Result<(), Self::Error> {
        self.accept(Seen::Repeated(pixel.to_vec(), count))
    }

    fn send_repeated_pixel_raw(&mut self, pixel_data: &[u8], count: u32) -> Result<(), Self::Error> {
        self.accept(Seen::Repeated(pixel_data.to_vec(), count))
    }
}

/// The writes an SPI interface makes for a run of pixels through `buffer`.
fn spi_pixel_writes<const N: usize>(buffer: &mut [u8], pixels: &[[u8; N]]) -> Vec<Vec<u8>> {
    let cap = buffer.len() / N;
    let mut writes = Vec::new();
    let mut start = 0;
    loop {
        let end = fill_pixel_chunk(buffer, pixels, start);
        writes.push(buffer[..(end - start) * N].to_vec());
        if end - start < cap {
            break;
        }
        start = end;
    }
    writes
}

#[test]
fn spi_pixel_chunks_cover_all_pixels() {
    let pixels: Vec<[u8; 2]> = (0..7u8).map(|i| [i, 100 + i]).collect();
    let mut buffer = [0u8; 6];
    let writes = spi_pixel_writes(&mut buffer, &pixels);
    assert_eq!(
        writes,
        vec![
            vec![0, 100, 1, 101, 2, 102],
            vec![3, 103, 4, 104, 5, 105],
            vec![6, 106],
        ]
    );
    let all: Vec<u8> = writes.concat();
    let expected: Vec<u8> = pixels.iter().flatten().copied().collect();
    assert_eq!(all, expected);
}

#[test]
fn spi_pixel_chunks_end_with_an_empty_write_when_the_buffer_fills_exactly() {
    let pixels: Vec<[u8; 2]> = (0..6u8).map(|i| [i, i]).collect();
    let mut buffer = [0u8; 7];
    let writes = spi_pixel_writes(&mut buffer, &pixels);
    assert_eq!(writes.len(), 3);
    assert_eq!(writes[2], Vec::<u8>::new());
    let none: Vec<[u8; 2]> = Vec::new();
    assert_eq!(spi_pixel_writes(&mut buffer, &none), vec![Vec::<u8>::new()]);
}

#[test]
fn spi_repeated_pixel_plan() {
    let mut buffer = [0u8; 8];
    let plan = fill_repeated_pixel(&mut buffer, &[0xAB, 0xCD], 10);
    assert_eq!(
        plan,
        RepeatedPixelPlan { filled_len: 8, full_writes: 2, rest_len: 4 }
    );
    assert_eq!(buffer, [0xAB, 0xCD, 0xAB, 0xCD, 0xAB, 0xCD, 0xAB, 0xCD]);

    let mut small = [0u8; 100];
    let plan = fill_repeated_pixel(&mut small, &[1, 2, 3], 2);
    assert_eq!(
        plan,
        RepeatedPixelPlan { filled_len: 6, full_writes: 1, rest_len: 0 }
    );
    assert_eq!(&small[..7], &[1, 2, 3, 1, 2, 3, 0]);

    // the bytes of all writes together are the pixel `count` times over
    let mut data = Vec::new();
    for _ in 0..plan.full_writes {
        data.extend_from_slice(&small[..plan.filled_len]);
    }
    data.extend_from_slice(&small[..plan.rest_len]);
    assert_eq!(data, vec![1, 2, 3, 1, 2, 3]);
}

#[test]
fn parallel_bus_drives_changed_pins_only() {
    assert_eq!(
        bus_pin_writes(None, 0b1010_0101, 8),
        vec![
            (0, true),
            (1, false),
            (2, true),
            (3, false),
            (4, false),
            (5, true),
            (6, false),
            (7, true)
        ]
    );
    assert_eq!(
        bus_pin_writes(Some(0b1010_0101), 0b1010_0111, 8),
        vec![(1, true)]
    );
    assert_eq!(bus_pin_writes(Some(0x1234), 0x1234, 16), vec![]);
    assert_eq!(bus_pin_writes(Some(0x0000), 0x8001, 16), vec![(0, true), (15, true)]);
}

#[test]
fn parallel_repeat_plans() {
    assert_eq!(repeat_plan_u8(&[7, 7], 0), RepeatPlan::Nothing);
    assert_eq!(
        repeat_plan_u8(&[7, 7], 5),
        RepeatPlan::SameWord { word: 7, strobes: 9 }
    );
    assert_eq!(repeat_plan_u8(&[7, 8], 5), RepeatPlan::Words { count: 5 });
    assert_eq!(
        repeat_plan_u16(&[0xF800], 3),
        RepeatPlan::SameWord { word: 0xF800, strobes: 2 }
    );
}

#[test]
fn interface_parts_are_kept() {
    let mut spi = SpiInterface::new(1u8, 2u8, [0u8; 4]);
    let (s, d, b) = spi.parts_mut();
    assert_eq!((*s, *d, b.len()), (1, 2, 4));
    let mut p8 = PGpio8BitInterface::new(3u8, 4u8, 5u8);
    *p8.parts_mut().0 = 9;
    assert_eq!(p8.release(), (9, 4, 5));
    let p16 = PGpio16BitInterface::new(6u8, 7u8, 8u8);
    assert_eq!(p16.release(), (6, 7, 8));
}

#[test]
fn buffered_interface_sends_in_order_on_flush() {
    let (inner, log) = Recorder::new(usize::MAX);
    let mut buffer = [0u8; 64];
    let mut bi: BufferedInterface<'_, Recorder, 8> = BufferedInterface::new(inner, &mut buffer);
    bi.send_command(0x2A, &[0, 1, 0, 2]).unwrap();
    bi.send_pixels(&[[1u8, 2], [3, 4]]).unwrap();
    bi.send_repeated_pixel([9u8, 8], 40).unwrap();
    assert!(log.borrow().is_empty());
    bi.flush().unwrap();
    assert_eq!(
        *log.borrow(),
        vec![
            Seen::Command(0x2A, vec![0, 1, 0, 2]),
            Seen::Pixels(vec![1, 2, 3, 4]),
            Seen::Repeated(vec![9, 8], 40),
        ]
    );
    // a second flush sends nothing more
    bi.flush().unwrap();
    assert_eq!(log.borrow().len(), 3);
}

#[test]
fn buffered_interface_reports_a_full_buffer() {
    let (inner, log) = Recorder::new(usize::MAX);
    let mut buffer = [0u8; 6];
    let mut bi: BufferedInterface<'_, Recorder, 8> = BufferedInterface::new(inner, &mut buffer);
    // a command with its parameters must leave a byte to spare
    assert!(matches!(
        bi.send_command(0x2A, &[0, 1, 0, 2, 3]),
        Err(FlushingError::BufferOverflow)
    ));
    bi.send_command(0x2A, &[0, 1, 0, 2]).unwrap();
    // pixels may fill the buffer to the last byte
    bi.send_pixels(&[[7u8]]).unwrap();
    assert!(matches!(
        bi.send_pixels(&[[8u8]]),
        Err(FlushingError::BufferOverflow)
    ));
    assert!(matches!(
        bi.send_repeated_pixel([1u8], 3),
        Err(FlushingError::BufferOverflow)
    ));
    bi.flush().unwrap();
    assert_eq!(
        *log.borrow(),
        vec![Seen::Command(0x2A, vec![0, 1, 0, 2]), Seen::Pixels(vec![7])]
    );
}

#[test]
fn buffered_interface_limits_the_operations() {
    let (inner, log) = Recorder::new(usize::MAX);
    let mut buffer = [0u8; 64];
    let mut bi: BufferedInterface<'_, Recorder, 2> = BufferedInterface::new(inner, &mut buffer);
    bi.send_command(0x10, &[]).unwrap();
    bi.send_command(0x11, &[]).unwrap();
    assert!(matches!(
        bi.send_command(0x29, &[]),
        Err(FlushingError::MaxOperationsReached)
    ));
    bi.flush().unwrap();
    bi.send_command(0x29, &[]).unwrap();
    bi.flush().unwrap();
    assert_eq!(
        *log.borrow(),
        vec![
            Seen::Command(0x10, vec![]),
            Seen::Command(0x11, vec![]),
            Seen::Command(0x29, vec![])
        ]
    );
}

#[test]
fn buffered_interface_passes_on_inner_errors() {
    let (inner, log) = Recorder::new(1);
    let mut buffer = [0u8; 64];
    let mut bi: BufferedInterface<'_, Recorder, 8> = BufferedInterface::new(inner, &mut buffer);
    bi.send_command(0x10, &[]).unwrap();
    bi.send_command(0x11, &[]).unwrap();
    bi.send_command(0x29, &[]).unwrap();
    assert!(matches!(
        bi.flush(),
        Err(FlushingError::Underlaying("inner failure"))
    ));
    assert_eq!(*log.borrow(), vec![Seen::Command(0x10, vec![])]);
    assert!(matches!(
        bi.send_pixels_from_buffer(&[1, 2]),
        Err(FlushingError::Underlaying(_))
    ));
    let converted: FlushingError<u8> = FlushingError::from(5u8);
    assert!(matches!(converted, FlushingError::Underlaying(5)));
}

#[test]
fn buffered_interface_sends_raw_data_at_once() {
    let (inner, log) = Recorder::new(usize::MAX);
    let mut buffer = [0u8; 64];
    let mut bi: BufferedInterface<'_, Recorder, 8> = BufferedInterface::new(inner, &mut buffer);
    bi.send_pixels_from_buffer(&[1, 2, 3]).unwrap();
    bi.send_repeated_pixel_raw(&[4, 5], 6).unwrap();
    assert_eq!(
        *log.borrow(),
        vec![Seen::Pixels(vec![1, 2, 3]), Seen::Repeated(vec![4, 5], 6)]
    );
}

/// An interface that refuses its first `refusals` transfers and records the rest.
struct Flaky {
    log: Rc<RefCell<Vec<Seen>>>,
    refusals: usize,
}

impl Flaky {
    fn accept(&mut self, seen: Seen) -> Result<(), &'static str> {
        if self.refusals > 0 {
            self.refusals -= 1;
            return Err("refused");
        }
        self.log.borrow_mut().push(seen);
        Ok(())
    }
}

impl Interface for Flaky {
    type Word = u8;
    type Error = &'static str;

    fn send_command(&mut self, command: u8, args: &[u8]) -> Result<(), Self::Error> {
        self.accept(Seen::Command(command, args.to_vec()))
    }

    fn send_pixels<const N: usize>(&mut self, pixels: &[[u8; N]]) -> Result<(), Self::Error> {
        self.accept(Seen::Pixels(pixels.iter().flatten().copied().collect()))
    }

    fn send_pixels_from_buffer(&mut self, pixels: &[u8]) -> Result<(), Self::Error> {
        self.accept(Seen::Pixels(pixels.to_vec()))
    }

    fn send_repeated_pixel<const N: usize>(
        &mut self,
        pixel: [u8; N],
        count: u32,
    ) -> Result<(), Self::Error> {
        self.accept(Seen::Repeated(pixel.to_vec(), count))
    }

    fn send_repeated_pixel_raw(&mut self, pixel_data: &[u8], count: u32) -> Result<(), Self::Error> {
        self.accept(Seen::Repeated(pixel_data.to_vec(), count))
    }
}

#[test]
fn buffered_interface_keeps_later_operations_after_a_failed_flush() {
    let log = Rc::new(RefCell::new(Vec::new()));
    let inner = Flaky { log: log.clone(), refusals: 1 };
    let mut buffer = [0u8; 6];
    let mut bi: BufferedInterface<'_, Flaky, 8> = BufferedInterface::new(inner, &mut buffer);
    bi.send_command(0x10, &[1, 2]).unwrap();
    bi.send_command(0x11, &[]).unwrap();
    // the first command is refused and dropped
    assert!(matches!(bi.flush(), Err(FlushingError::Underlaying("refused"))));
    assert!(log.borrow().is_empty());
    // the buffer was not freed: four of its six bytes are still in use
    assert!(matches!(
        bi.send_command(0x29, &[1]),
        Err(FlushingError::BufferOverflow)
    ));
    // the later command is still kept and goes out on the next flush
    bi.flush().unwrap();
    assert_eq!(*log.borrow(), vec![Seen::Command(0x11, vec![])]);
    bi.send_command(0x29, &[1]).unwrap();
}

#[test]
fn repeating_a_pixel_no_times_plans_no_write() {
    let mut buffer = [7u8; 8];
    let plan = fill_repeated_pixel(&mut buffer, &[0xAB, 0xCD], 0);
    assert_eq!(
        plan,
        RepeatedPixelPlan { filled_len: 0, full_writes: 0, rest_len: 0 }
    );
    assert_eq!(buffer, [7u8; 8]);
    // no room for a pixel is fine when none is sent
    let mut tiny = [0u8; 1];
    let plan = fill_repeated_pixel(&mut tiny, &[1, 2, 3], 0);
    assert_eq!(plan.full_writes, 0);
    assert_eq!(plan.rest_len, 0);
}
