//! Mock implementations of the interface trait.
//!
//! Do not use types in this module outside of tests.

use vstd::prelude::*;

use crate::builder::default_options;
use crate::dcs::address_mode_bits_of;
use crate::interface::{pixel_words, Interface, Transfer};
use crate::models::{ILI9341Rgb565, InitStep};
use crate::{Builder, Display, NoResetPin};

verus! {

/// An output pin that accepts every level and drives nothing.
pub struct MockOutputPin;

/// An SPI device that accepts every transaction and sends nothing anywhere.
pub struct MockSpi;

/// A delay that takes no time.
pub struct MockDelay;

/// An interface that accepts every transfer and sends nothing anywhere.
pub struct MockDisplayInterface {
    sent: Ghost<Seq<Transfer<u8>>>,
}

impl MockDisplayInterface {
    /// Creates a mock interface that has carried out no transfer.
    pub fn new() -> (r: Self)
        ensures
            r.transfers() == Seq::<Transfer<u8>>::empty(),
            r.infallible(),
    {
        MockDisplayInterface { sent: Ghost(Seq::empty()) }
    }
}

impl Interface for MockDisplayInterface {
    type Word = u8;

    type Error = ();

    closed spec fn transfers(&self) -> Seq<Transfer<u8>> {
        self.sent@
    }

    closed spec fn infallible(&self) -> bool {
        true
    }

    fn send_command(&mut self, command: u8, args: &[u8]) -> (r: Result<(), Self::Error>)
        ensures
            r is Ok,
    {
        proof {
            self.sent@ = self.sent@.push(Transfer::Command { instruction: command, params: args@ });
            assert(self.sent@ =~= old(self).sent@ + seq![Transfer::Command { instruction: command, params: args@ }]);
        }
        Ok(())
    }

    fn send_pixels<const N: usize>(&mut self, pixels: &[[u8; N]]) -> (r: Result<(), Self::Error>)
        ensures
            r is Ok,
    {
        proof {
            self.sent@ = self.sent@.push(Transfer::Pixels { words: pixel_words(pixels@) });
            assert(self.sent@ =~= old(self).sent@ + seq![Transfer::Pixels { words: pixel_words(pixels@) }]);
        }
        Ok(())
    }

    fn send_pixels_from_buffer(&mut self, pixels: &[u8]) -> (r: Result<(), Self::Error>)
        ensures
            r is Ok,
    {
        proof {
            self.sent@ = self.sent@.push(Transfer::Pixels { words: pixels@ });
            assert(self.sent@ =~= old(self).sent@ + seq![Transfer::Pixels { words: pixels@ }]);
        }
        Ok(())
    }

    fn send_repeated_pixel_raw(&mut self, pixel_data: &[u8], count: u32) -> (r: Result<
        (),
        Self::Error,
    >)
        ensures
            r is Ok,
    {
        proof {
            self.sent@ = self.sent@.push(Transfer::RepeatedPixel { pixel: pixel_data@, count });
            assert(self.sent@ =~= old(self).sent@ + seq![Transfer::RepeatedPixel { pixel: pixel_data@, count }]);
        }
        Ok(())
    }

    fn send_repeated_pixel<const N: usize>(&mut self, pixel: [u8; N], count: u32) -> (r: Result<
        (),
        Self::Error,
    >)
        ensures
            r is Ok,
    {
        proof {
            self.sent@ = self.sent@.push(Transfer::RepeatedPixel { pixel: pixel@, count });
            assert(self.sent@ =~= old(self).sent@ + seq![Transfer::RepeatedPixel { pixel: pixel@, count }]);
        }
        Ok(())
    }
}

/// An initialized ILI9341 display in Rgb565 color mode on a mock interface.
pub fn new_mock_display() -> (r: Display<MockDisplayInterface, ILI9341Rgb565, NoResetPin>)
    ensures
        r.model_options() == default_options((240, 320)),
        r.address_mode().bits() == address_mode_bits_of(default_options((240, 320))),
        r.reset_pin() is None,
        !r.asleep(),
        r.interface().infallible(),
{
    let mut builder = Builder::new(ILI9341Rgb565, MockDisplayInterface::new());
    let (steps, madctl) = builder.init_steps(false);
    let mut i: usize = 0;
    while i < steps.len()
        invariant
            builder.model_options() == default_options((240, 320)),
            builder.interface().infallible(),
        decreases steps@.len() - i,
    {
        match &steps[i] {
            InitStep::Command { instruction, params } => {
                let _ = builder.send_init_command(*instruction, params.as_slice());
            },
            // waits take no time and there is no reset pin
            _ => {},
        }
        i = i + 1;
    }
    builder.into_display(madctl, None)
}

} // verus!
