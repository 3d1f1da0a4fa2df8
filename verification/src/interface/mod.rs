//! Interface traits and implementations

pub mod async_interface;
pub mod buffered;
pub mod parallel;
pub mod spi;
pub use async_interface::{AsyncSpiError, AsyncSpiInterface};
pub use buffered::{BufferedInterface, FlushingError, FlushingInterface};
pub use parallel::{OutputBus, PGpio16BitInterface, PGpio8BitInterface, ParallelError};
pub use spi::{SpiError, SpiInterface};

use vstd::prelude::*;

use crate::pixelcolor::{u16_be_bytes, Rgb565, Rgb666};

verus! {

/// One transfer that an interface has carried out, as the display sees it.
pub ghost enum Transfer<W> {
    /// A command byte followed by its parameter bytes.
    Command { instruction: u8, params: Seq<u8> },
    /// Pixel data: the words of a run of pixels, one after another.
    Pixels { words: Seq<W> },
    /// One pixel, given by its words, sent `count` times.
    RepeatedPixel { pixel: Seq<W>, count: u32 },
}

/// Command and pixel interface
pub trait Interface: Sized {
    /// The native width of the interface
    ///
    /// In most cases this will be u8, except for larger parallel interfaces such as
    /// 16 bit (currently supported)
    /// or 9 or 18 bit (currently unsupported)
    type Word: Copy;

    /// Error type
    type Error;

    /// The transfers that this interface has carried out so far.
    ///
    /// An interface written outside the verified code may leave this out; the
    /// contracts of its methods then promise that no transfer succeeds, which
    /// such an interface does not keep, so nothing proved of what a display
    /// sends holds for it.
    open spec fn transfers(&self) -> Seq<Transfer<Self::Word>> {
        Seq::empty()
    }

    /// The errors that this interface has returned so far, in order.
    ///
    /// An interface written outside the verified code may leave this out, as
    /// [`Interface::transfers`].
    open spec fn errors(&self) -> Seq<Self::Error> {
        Seq::empty()
    }

    /// Whether every call of this interface succeeds, now and after any call.
    ///
    /// An interface written outside the verified code may leave this out; it
    /// is then not known to succeed.
    open spec fn infallible(&self) -> bool {
        false
    }

    /// Send a command with optional parameters
    fn send_command(&mut self, command: u8, args: &[u8]) -> (r: Result<(), Self::Error>)
        ensures
            call_outcome(
                old(self).transfers(),
                final(self).transfers(),
                old(self).errors(),
                final(self).errors(),
                old(self).infallible(),
                final(self).infallible(),
                seq![Transfer::Command { instruction: command, params: args@ }],
                r,
            ),
    ;

    /// Send a sequence of pixels
    ///
    /// `WriteMemoryStart` must be sent before calling this function
    fn send_pixels<const N: usize>(&mut self, pixels: &[[Self::Word; N]]) -> (r: Result<
        (),
        Self::Error,
    >)
        ensures
            call_outcome(
                old(self).transfers(),
                final(self).transfers(),
                old(self).errors(),
                final(self).errors(),
                old(self).infallible(),
                final(self).infallible(),
                seq![Transfer::Pixels { words: pixel_words(pixels@) }],
                r,
            ),
    ;

    /// Send pixel data that is already laid out as words
    ///
    /// `WriteMemoryStart` must be sent before calling this function
    fn send_pixels_from_buffer(&mut self, pixels: &[Self::Word]) -> (r: Result<(), Self::Error>)
        ensures
            call_outcome(
                old(self).transfers(),
                final(self).transfers(),
                old(self).errors(),
                final(self).errors(),
                old(self).infallible(),
                final(self).infallible(),
                seq![Transfer::Pixels { words: pixels@ }],
                r,
            ),
    ;

    /// Send the same pixel value multiple times
    ///
    /// `WriteMemoryStart` must be sent before calling this function
    fn send_repeated_pixel<const N: usize>(&mut self, pixel: [Self::Word; N], count: u32) -> (r:
        Result<(), Self::Error>)
        ensures
            call_outcome(
                old(self).transfers(),
                final(self).transfers(),
                old(self).errors(),
                final(self).errors(),
                old(self).infallible(),
                final(self).infallible(),
                seq![Transfer::RepeatedPixel { pixel: pixel@, count }],
                r,
            ),
    ;

    /// Send the same pixel, given as words, multiple times
    ///
    /// `WriteMemoryStart` must be sent before calling this function
    fn send_repeated_pixel_raw(&mut self, pixel_data: &[Self::Word], count: u32) -> (r: Result<
        (),
        Self::Error,
    >)
        ensures
            call_outcome(
                old(self).transfers(),
                final(self).transfers(),
                old(self).errors(),
                final(self).errors(),
                old(self).infallible(),
                final(self).infallible(),
                seq![Transfer::RepeatedPixel { pixel: pixel_data@, count }],
                r,
            ),
    ;
}

/// How a call that was to carry out the `intended` transfers went: where it
/// succeeded, they were all carried out and no error was returned; where it
/// failed, the transfers before the failing one were carried out, the failing
/// one was not, and its error is the one returned. An infallible interface
/// succeeds and stays infallible.
pub open spec fn sent<DI: Interface>(
    before: DI,
    after: DI,
    intended: Seq<Transfer<DI::Word>>,
    r: Result<(), DI::Error>,
) -> bool {
    call_outcome(
        before.transfers(),
        after.transfers(),
        before.errors(),
        after.errors(),
        before.infallible(),
        after.infallible(),
        intended,
        r,
    )
}

/// [`sent`], in terms of the records of the interface before and after the
/// call.
pub open spec fn call_outcome<W, E>(
    transfers_before: Seq<Transfer<W>>,
    transfers_after: Seq<Transfer<W>>,
    errors_before: Seq<E>,
    errors_after: Seq<E>,
    infallible_before: bool,
    infallible_after: bool,
    intended: Seq<Transfer<W>>,
    r: Result<(), E>,
) -> bool {
    &&& infallible_before ==> r is Ok && infallible_after
    &&& match r {
        Ok(_) => transfers_after == transfers_before + intended && errors_after == errors_before,
        Err(e) => errors_after == errors_before.push(e) && exists|k: int|
            0 <= k < intended.len() && transfers_after == transfers_before + #[trigger] intended.take(k),
    }
}

/// A call that succeeded, followed by another call, is one call that was to
/// carry out the transfers of both.
pub proof fn sent_then<DI: Interface>(
    a: DI,
    b: DI,
    c: DI,
    first: Seq<Transfer<DI::Word>>,
    second: Seq<Transfer<DI::Word>>,
    r1: Result<(), DI::Error>,
    r2: Result<(), DI::Error>,
)
    requires
        sent(a, b, first, r1),
        r1 is Ok,
        sent(b, c, second, r2),
    ensures
        sent(a, c, first + second, r2),
{
    match r2 {
        Ok(_) => {
            assert(c.transfers() =~= a.transfers() + (first + second));
        },
        Err(_) => {
            let k = choose|k: int| 0 <= k < second.len() && c.transfers() == b.transfers() + #[trigger] second.take(k);
            assert((first + second).take(first.len() + k) =~= first + second.take(k));
            assert(c.transfers() =~= a.transfers() + (first + second).take(first.len() + k));
        },
    }
}

/// A call that failed failed also as part of a longer run of transfers.
pub proof fn sent_stop<DI: Interface>(
    a: DI,
    b: DI,
    first: Seq<Transfer<DI::Word>>,
    rest: Seq<Transfer<DI::Word>>,
    r: Result<(), DI::Error>,
)
    requires
        sent(a, b, first, r),
        r is Err,
    ensures
        sent(a, b, first + rest, r),
{
    let k = choose|k: int| 0 <= k < first.len() && b.transfers() == a.transfers() + #[trigger] first.take(k);
    assert((first + rest).take(k) =~= first.take(k));
}

/// Nothing to carry out, and nothing done.
pub proof fn sent_nothing<DI: Interface>(a: DI)
    ensures
        sent(a, a, Seq::empty(), Ok(())),
{
    assert(a.transfers() + Seq::<Transfer<DI::Word>>::empty() =~= a.transfers());
}

/// The words of a sequence of pixels, one pixel after another.
pub open spec fn pixel_words<W, const N: usize>(pixels: Seq<[W; N]>) -> Seq<W> {
    pixels.map_values(|p: [W; N]| p@).flatten()
}

/// A pixel, given by its words, repeated `count` times: the data that a
/// repeated pixel puts on the bus.
pub open spec fn pixel_run<W>(pixel: Seq<W>, count: nat) -> Seq<W> {
    Seq::new(count * pixel.len(), |i: int| pixel[i % (pixel.len() as int)])
}

/// Two runs of the same pixel, one after the other, are one run.
pub proof fn pixel_run_concat<W>(pixel: Seq<W>, a: nat, b: nat)
    requires
        pixel.len() > 0,
    ensures
        pixel_run(pixel, a) + pixel_run(pixel, b) == pixel_run(pixel, a + b),
{
    let n = pixel.len() as int;
    assert((a + b) * n == a * n + b * n) by (nonlinear_arith);
    assert(a * n == n * a) by (nonlinear_arith);
    assert forall|i: int| a * n <= i < (a + b) * n implies #[trigger] pixel[(i - a * n) % n] == pixel[i
        % n] by {
        vstd::arithmetic::div_mod::lemma_mod_multiples_vanish(a as int, i - a * n, n);
    }
    assert(pixel_run(pixel, a) + pixel_run(pixel, b) =~= pixel_run(pixel, a + b));
}

/// A shorter run of a pixel is a prefix of a longer one.
pub proof fn pixel_run_prefix<W>(pixel: Seq<W>, a: nat, b: nat)
    requires
        b <= a,
    ensures
        pixel_run(pixel, a).take((b * pixel.len()) as int) == pixel_run(pixel, b),
{
    let n = pixel.len();
    assert(b * n <= a * n) by (nonlinear_arith)
        requires
            b <= a,
    ;
    assert(pixel_run(pixel, a).take((b * pixel.len()) as int) =~= pixel_run(pixel, b));
}

/// `q` copies of a run of `f` pixels, one after another, are a run of `q * f` pixels.
pub proof fn pixel_run_repeated<W>(pixel: Seq<W>, f: nat, q: nat)
    requires
        pixel.len() > 0,
    ensures
        Seq::new(q, |_i: int| pixel_run(pixel, f)).flatten() == pixel_run(pixel, q * f),
    decreases q,
{
    broadcast use Seq::lemma_flatten_push;

    if q == 0 {
        assert(pixel_run(pixel, 0) =~= Seq::<W>::empty());
    } else {
        let prev = (q - 1) as nat;
        pixel_run_repeated(pixel, f, prev);
        assert(Seq::new(q, |_i: int| pixel_run(pixel, f)) =~= Seq::new(
            prev,
            |_i: int| pixel_run(pixel, f),
        ).push(pixel_run(pixel, f)));
        pixel_run_concat(pixel, prev * f, f);
        assert(prev * f + f == q * f) by (nonlinear_arith)
            requires
                prev + 1 == q,
        ;
    }
}

/// The bytes that an Rgb565 pixel is sent as: its storage, most significant byte first.
pub fn rgb565_to_bytes(pixel: Rgb565) -> (bytes: [u8; 2])
    ensures
        bytes@ == u16_be_bytes(pixel.storage()),
{
    pixel.to_be_bytes()
}

/// The word that an Rgb565 pixel is sent as on a 16 bit interface: its storage.
pub fn rgb565_to_u16(pixel: Rgb565) -> (words: [u16; 1])
    ensures
        words@ == seq![pixel.storage() as u16],
{
    let words = [pixel.into_storage()];
    assert(words@ =~= seq![pixel.storage() as u16]);
    words
}

/// The bytes that an Rgb666 pixel is sent as: each channel shifted into the six
/// most significant bits of a byte.
pub fn rgb666_to_bytes(pixel: Rgb666) -> (bytes: [u8; 3])
    ensures
        bytes@ == seq![
            (pixel.red() * 4) as u8,
            (pixel.green() * 4) as u8,
            (pixel.blue() * 4) as u8,
        ],
{
    let bytes = [pixel.r() * 4, pixel.g() * 4, pixel.b() * 4];
    assert(bytes@ =~= seq![
        (pixel.red() * 4) as u8,
        (pixel.green() * 4) as u8,
        (pixel.blue() * 4) as u8,
    ]);
    bytes
}

/// This is an implementation detail, it should not be implemented or used outside this crate
pub trait InterfacePixelFormat<Word>: Sized {
    /// The words that a pixel is sent as.
    spec fn spec_words(self) -> Seq<Word>;

    /// Sends a sequence of pixels of this format.
    fn send_pixels<DI: Interface<Word = Word>>(di: &mut DI, pixels: &[Self]) -> (r: Result<
        (),
        DI::Error,
    >)
        ensures
            sent::<DI>(
                *old(di),
                *final(di),
                seq![Transfer::Pixels { words: pixels@.map_values(|p: Self| p.spec_words()).flatten() }],
                r,
            ),
    ;

    /// Sends a pixel of this format `count` times.
    fn send_repeated_pixel<DI: Interface<Word = Word>>(di: &mut DI, pixel: Self, count: u32) -> (r:
        Result<(), DI::Error>)
        ensures
            sent::<DI>(
                *old(di),
                *final(di),
                seq![Transfer::RepeatedPixel { pixel: pixel.spec_words(), count }],
                r,
            ),
    ;
}

impl InterfacePixelFormat<u8> for Rgb565 {
    open spec fn spec_words(self) -> Seq<u8> {
        u16_be_bytes(self.storage())
    }

    fn send_pixels<DI: Interface<Word = u8>>(di: &mut DI, pixels: &[Self]) -> (r: Result<
        (),
        DI::Error,
    >) {
        let mut words: Vec<[u8; 2]> = Vec::new();
        let mut i: usize = 0;
        while i < pixels.len()
            invariant
                i <= pixels@.len(),
                words@.len() == i,
                forall|j: int|
                    0 <= j < i ==> (#[trigger] words@[j])@ == u16_be_bytes(pixels@[j].storage()),
            decreases pixels@.len() - i,
        {
            words.push(rgb565_to_bytes(pixels[i]));
            i = i + 1;
        }
        assert(words@.map_values(|p: [u8; 2]| p@) =~= pixels@.map_values(|p: Self| p.spec_words()));
        di.send_pixels(words.as_slice())
    }

    fn send_repeated_pixel<DI: Interface<Word = u8>>(di: &mut DI, pixel: Self, count: u32) -> (r:
        Result<(), DI::Error>) {
        di.send_repeated_pixel(rgb565_to_bytes(pixel), count)
    }
}

impl InterfacePixelFormat<u8> for Rgb666 {
    open spec fn spec_words(self) -> Seq<u8> {
        seq![(self.red() * 4) as u8, (self.green() * 4) as u8, (self.blue() * 4) as u8]
    }

    fn send_pixels<DI: Interface<Word = u8>>(di: &mut DI, pixels: &[Self]) -> (r: Result<
        (),
        DI::Error,
    >) {
        let mut words: Vec<[u8; 3]> = Vec::new();
        let mut i: usize = 0;
        while i < pixels.len()
            invariant
                i <= pixels@.len(),
                words@.len() == i,
                forall|j: int|
                    0 <= j < i ==> (#[trigger] words@[j])@ == pixels@[j].spec_words(),
            decreases pixels@.len() - i,
        {
            words.push(rgb666_to_bytes(pixels[i]));
            i = i + 1;
        }
        assert(words@.map_values(|p: [u8; 3]| p@) =~= pixels@.map_values(|p: Self| p.spec_words()));
        di.send_pixels(words.as_slice())
    }

    fn send_repeated_pixel<DI: Interface<Word = u8>>(di: &mut DI, pixel: Self, count: u32) -> (r:
        Result<(), DI::Error>) {
        di.send_repeated_pixel(rgb666_to_bytes(pixel), count)
    }
}

impl InterfacePixelFormat<u16> for Rgb565 {
    open spec fn spec_words(self) -> Seq<u16> {
        seq![self.storage() as u16]
    }

    fn send_pixels<DI: Interface<Word = u16>>(di: &mut DI, pixels: &[Self]) -> (r: Result<
        (),
        DI::Error,
    >) {
        let mut words: Vec<[u16; 1]> = Vec::new();
        let mut i: usize = 0;
        while i < pixels.len()
            invariant
                i <= pixels@.len(),
                words@.len() == i,
                forall|j: int|
                    0 <= j < i ==> (#[trigger] words@[j])@ == seq![pixels@[j].storage() as u16],
            decreases pixels@.len() - i,
        {
            words.push(rgb565_to_u16(pixels[i]));
            i = i + 1;
        }
        assert(words@.map_values(|p: [u16; 1]| p@) =~= pixels@.map_values(|p: Self| p.spec_words()));
        di.send_pixels(words.as_slice())
    }

    fn send_repeated_pixel<DI: Interface<Word = u16>>(di: &mut DI, pixel: Self, count: u32) -> (r:
        Result<(), DI::Error>) {
        di.send_repeated_pixel(rgb565_to_u16(pixel), count)
    }
}

} // verus!
