//! Parallel "8080" style interfaces: their parts, the pins a generic bus drives,
//! and how a repeated pixel is latched.

use vstd::prelude::*;

use crate::interface::pixel_run;

verus! {

/// This trait represents the data pins of a parallel bus.
///
/// See [`bus_pin_writes`] for the pins that a generic implementation over
/// single output pins drives.
pub trait OutputBus {
    /// [u8] for 8-bit buses, [u16] for 16-bit buses, etc.
    type Word: Copy;

    /// Error type
    type Error;

    /// Set the output bus to a specific value
    fn set_value(&mut self, value: Self::Word) -> Result<(), Self::Error>;
}

/// Whether pin `i` of a bus shows a high level for `value`.
pub open spec fn pin_high(value: u16, i: u16) -> bool {
    value & (1u16 << i) != 0
}

/// The pins that a generic bus drives to show `value`: those whose level
/// differs from the last value it showed, or all of them where it has shown
/// none yet.
pub open spec fn changed_pins(last: Option<u16>, value: u16) -> u16 {
    match last {
        Some(old_value) => value ^ old_value,
        None => 0xffff,
    }
}

/// The pin writes, in order of the pins, that a generic bus of `width` pins
/// makes to show `value`: each pin that [`changed_pins`] names is set to its
/// level in `value`, the least significant bit on pin 0.
pub open spec fn pin_writes(changed: u16, value: u16, width: nat) -> Seq<(u16, bool)>
    decreases width,
{
    if width == 0 {
        Seq::empty()
    } else {
        let i = (width - 1) as u16;
        pin_writes(changed, value, (width - 1) as nat) + if pin_high(changed, i) {
            seq![(i, pin_high(value, i))]
        } else {
            Seq::empty()
        }
    }
}

/// Returns the pins that a generic bus drives to show `value`.
fn changed_pins_of(last: Option<u16>, value: u16) -> (r: u16)
    ensures
        r == changed_pins(last, value),
{
    match last {
        Some(old_value) => value ^ old_value,
        None => 0xffff,
    }
}

/// Returns the pin writes, in order of the pins, that a generic bus of `width`
/// pins makes to show `value` after it last showed `last`, if anything.
pub fn bus_pin_writes(last: Option<u16>, value: u16, width: u16) -> (r: Vec<(u16, bool)>)
    requires
        width <= 16,
    ensures
        r@ == pin_writes(changed_pins(last, value), value, width as nat),
{
    let changed = changed_pins_of(last, value);
    let mut writes: Vec<(u16, bool)> = Vec::new();
    let mut i: u16 = 0;
    while i < width
        invariant
            i <= width <= 16,
            changed == changed_pins(last, value),
            writes@ == pin_writes(changed, value, i as nat),
        decreases width - i,
    {
        let mask: u16 = 1u16 << i;
        if changed & mask != 0 {
            writes.push((i, value & mask != 0));
        }
        proof {
            assert((i + 1) as nat - 1 == i as nat);
        }
        i = i + 1;
    }
    writes
}

/// After a generic bus shows a new value, every pin shows its bit of it: the
/// pins it writes get their level in the new value, and those it leaves
/// already had it.
pub proof fn bus_pins_show_value(last: Option<u16>, value: u16, i: u16)
    requires
        i < 16,
    ensures
        pin_high(changed_pins(last, value), i) || (last matches Some(old_value) && pin_high(
            old_value,
            i,
        ) == pin_high(value, i)),
{
    match last {
        Some(old_value) => {
            assert((value ^ old_value) & (1u16 << i) == 0 ==> (old_value & (1u16 << i) != 0)
                == (value & (1u16 << i) != 0)) by (bit_vector)
                requires
                    i < 16,
            ;
        },
        None => {
            assert(0xffffu16 & (1u16 << i) != 0) by (bit_vector)
                requires
                    i < 16,
            ;
        },
    }
}

/// A bus that already shows a value drives no pin to show it again.
pub proof fn bus_repeat_value_writes_nothing(value: u16, width: nat)
    ensures
        pin_writes(changed_pins(Some(value), value), value, width) == Seq::<(u16, bool)>::empty(),
    decreases width,
{
    if width > 0 {
        let i = (width - 1) as u16;
        bus_repeat_value_writes_nothing(value, (width - 1) as nat);
        assert((value ^ value) & (1u16 << i) == 0) by (bit_vector);
    }
}

/// Parallel interface error
#[derive(Clone, Copy, Debug)]
pub enum ParallelError<BUS, DC, WR> {
    /// Bus error
    Bus(BUS),
    /// Data/command pin error
    Dc(DC),
    /// Write pin error
    Wr(WR),
}

/// How a repeated pixel is latched by a parallel interface.
#[derive(Clone, Copy, Debug, PartialEq, Eq)]
pub enum RepeatPlan<W> {
    /// Nothing is latched.
    Nothing,
    /// Every word of the pixel is the same: it is put on the bus and latched
    /// once, then latched `strobes` more times by pulsing the write pin alone.
    SameWord { word: W, strobes: u32 },
    /// The words of the pixel are put on the bus and latched one by one,
    /// `count` times over.
    Words { count: u32 },
}

/// The words that the display latches when a plan is carried out for `pixel`.
pub open spec fn latched_words<W>(plan: RepeatPlan<W>, pixel: Seq<W>) -> Seq<W> {
    match plan {
        RepeatPlan::Nothing => Seq::empty(),
        RepeatPlan::SameWord { word, strobes } => Seq::new((strobes + 1) as nat, |_i: int| word),
        RepeatPlan::Words { count } => pixel_run(pixel, count as nat),
    }
}

/// Whether every word of a pixel is the same.
pub open spec fn all_words_equal<W>(pixel: Seq<W>) -> bool {
    forall|i: int| 0 <= i < pixel.len() ==> #[trigger] pixel[i] == pixel[0]
}

/// Returns how `count` copies of a pixel are latched by an 8 bit interface:
/// one latch for each word where all its words are the same, else word by word.
pub fn repeat_plan_u8(pixel: &[u8], count: u32) -> (plan: RepeatPlan<u8>)
    requires
        pixel@.len() > 0,
        all_words_equal(pixel@) ==> count * pixel@.len() <= u32::MAX,
    ensures
        count == 0 ==> plan == RepeatPlan::<u8>::Nothing,
        count > 0 && all_words_equal(pixel@) ==> plan == (RepeatPlan::SameWord {
            word: pixel@[0],
            strobes: (count * pixel@.len() - 1) as u32,
        }),
        count > 0 && !all_words_equal(pixel@) ==> plan == (RepeatPlan::<u8>::Words { count }),
        latched_words(plan, pixel@) == pixel_run(pixel@, count as nat),
{
    if count == 0 {
        assert(pixel_run(pixel@, 0) =~= Seq::<u8>::empty());
        return RepeatPlan::Nothing;
    }
    let first = pixel[0];
    let mut i: usize = 1;
    let mut same = true;
    while i < pixel.len()
        invariant
            1 <= i <= pixel@.len(),
            first == pixel@[0],
            same <==> forall|j: int| 0 <= j < i ==> #[trigger] pixel@[j] == pixel@[0],
        decreases pixel@.len() - i,
    {
        if pixel[i] != first {
            same = false;
        }
        i = i + 1;
    }
    if same {
        proof {
            assert(all_words_equal(pixel@));
            assert(pixel@.len() <= count * pixel@.len()) by (nonlinear_arith)
                requires
                    count >= 1,
            ;
        }
        let n: u32 = pixel.len() as u32;
        let strobes = count * n - 1;
        proof {
            same_words_run(pixel@, count as nat);
        }
        RepeatPlan::SameWord { word: first, strobes }
    } else {
        RepeatPlan::Words { count }
    }
}

/// Returns how `count` copies of a pixel are latched by a 16 bit interface:
/// one latch for each word where all its words are the same, else word by word.
pub fn repeat_plan_u16(pixel: &[u16], count: u32) -> (plan: RepeatPlan<u16>)
    requires
        pixel@.len() > 0,
        all_words_equal(pixel@) ==> count * pixel@.len() <= u32::MAX,
    ensures
        count == 0 ==> plan == RepeatPlan::<u16>::Nothing,
        count > 0 && all_words_equal(pixel@) ==> plan == (RepeatPlan::SameWord {
            word: pixel@[0],
            strobes: (count * pixel@.len() - 1) as u32,
        }),
        count > 0 && !all_words_equal(pixel@) ==> plan == (RepeatPlan::<u16>::Words { count }),
        latched_words(plan, pixel@) == pixel_run(pixel@, count as nat),
{
    if count == 0 {
        assert(pixel_run(pixel@, 0) =~= Seq::<u16>::empty());
        return RepeatPlan::Nothing;
    }
    let first = pixel[0];
    let mut i: usize = 1;
    let mut same = true;
    while i < pixel.len()
        invariant
            1 <= i <= pixel@.len(),
            first == pixel@[0],
            same <==> forall|j: int| 0 <= j < i ==> #[trigger] pixel@[j] == pixel@[0],
        decreases pixel@.len() - i,
    {
        if pixel[i] != first {
            same = false;
        }
        i = i + 1;
    }
    if same {
        proof {
            assert(all_words_equal(pixel@));
            assert(pixel@.len() <= count * pixel@.len()) by (nonlinear_arith)
                requires
                    count >= 1,
            ;
        }
        let n: u32 = pixel.len() as u32;
        let strobes = count * n - 1;
        proof {
            same_words_run(pixel@, count as nat);
        }
        RepeatPlan::SameWord { word: first, strobes }
    } else {
        RepeatPlan::Words { count }
    }
}

/// A run of a pixel whose words are all the same is that word, once for each
/// word of the run.
proof fn same_words_run<W>(pixel: Seq<W>, count: nat)
    requires
        pixel.len() > 0,
        count > 0,
        all_words_equal(pixel),
    ensures
        pixel_run(pixel, count) == Seq::new(
            ((count * pixel.len() - 1) as nat + 1) as nat,
            |_i: int| pixel[0],
        ),
{
    let len = pixel.len();
    assert(count * len >= 1) by (nonlinear_arith)
        requires
            count >= 1,
            len >= 1,
    ;
    assert forall|k: int| 0 <= k < count * len implies #[trigger] pixel[k % (len as int)]
        == pixel[0] by {
        vstd::arithmetic::div_mod::lemma_mod_bound(k, len as int);
    }
    assert(pixel_run(pixel, count) =~= Seq::new(
        ((count * pixel.len() - 1) as nat + 1) as nat,
        |_i: int| pixel[0],
    ));
}

/// Parallel 8 Bit communication interface
///
/// This interface implements an 8-Bit "8080" style write-only display interface using any
/// 8-bit [OutputBus] implementation as well as one
/// `OutputPin` for the data/command selection and one `OutputPin` for the write-enable flag.
///
/// All pins are supposed to be high-active, high for the D/C pin meaning "data" and the
/// write-enable being pulled low before the setting of the bits and supposed to be sampled at a
/// low to high edge.
pub struct PGpio8BitInterface<BUS, DC, WR> {
    bus: BUS,
    dc: DC,
    wr: WR,
}

impl<BUS, DC, WR> PGpio8BitInterface<BUS, DC, WR> {
    /// The bus.
    pub closed spec fn bus(&self) -> BUS {
        self.bus
    }

    /// The data/command pin.
    pub closed spec fn dc(&self) -> DC {
        self.dc
    }

    /// The write-enable pin.
    pub closed spec fn wr(&self) -> WR {
        self.wr
    }

    /// Create new parallel GPIO interface for communication with a display driver
    pub fn new(bus: BUS, dc: DC, wr: WR) -> (r: Self)
        ensures
            r.bus() == bus,
            r.dc() == dc,
            r.wr() == wr,
    {
        Self { bus, dc, wr }
    }

    /// Consume the display interface and return
    /// the bus and GPIO pins used by it
    pub fn release(self) -> (r: (BUS, DC, WR))
        ensures
            r == (self.bus(), self.dc(), self.wr()),
    {
        (self.bus, self.dc, self.wr)
    }

    /// The bus and the pins, to carry out transfers with.
    pub fn parts_mut(&mut self) -> (r: (&mut BUS, &mut DC, &mut WR))
        ensures
            *r.0 == old(self).bus(),
            *r.1 == old(self).dc(),
            *r.2 == old(self).wr(),
            final(self).bus() == *final(r.0),
            final(self).dc() == *final(r.1),
            final(self).wr() == *final(r.2),
    {
        (&mut self.bus, &mut self.dc, &mut self.wr)
    }
}

/// Parallel 16 Bit communication interface
///
/// This interface implements a 16-Bit "8080" style write-only display interface using any
/// 16-bit [OutputBus] implementation as well as one
/// `OutputPin` for the data/command selection and one `OutputPin` for the write-enable flag.
///
/// All pins are supposed to be high-active, high for the D/C pin meaning "data" and the
/// write-enable being pulled low before the setting of the bits and supposed to be sampled at a
/// low to high edge.
pub struct PGpio16BitInterface<BUS, DC, WR> {
    bus: BUS,
    dc: DC,
    wr: WR,
}

impl<BUS, DC, WR> PGpio16BitInterface<BUS, DC, WR> {
    /// The bus.
    pub closed spec fn bus(&self) -> BUS {
        self.bus
    }

    /// The data/command pin.
    pub closed spec fn dc(&self) -> DC {
        self.dc
    }

    /// The write-enable pin.
    pub closed spec fn wr(&self) -> WR {
        self.wr
    }

    /// Create new parallel GPIO interface for communication with a display driver
    pub fn new(bus: BUS, dc: DC, wr: WR) -> (r: Self)
        ensures
            r.bus() == bus,
            r.dc() == dc,
            r.wr() == wr,
    {
        Self { bus, dc, wr }
    }

    /// Consume the display interface and return
    /// the bus and GPIO pins used by it
    pub fn release(self) -> (r: (BUS, DC, WR))
        ensures
            r == (self.bus(), self.dc(), self.wr()),
    {
        (self.bus, self.dc, self.wr)
    }

    /// The bus and the pins, to carry out transfers with.
    pub fn parts_mut(&mut self) -> (r: (&mut BUS, &mut DC, &mut WR))
        ensures
            *r.0 == old(self).bus(),
            *r.1 == old(self).dc(),
            *r.2 == old(self).wr(),
            final(self).bus() == *final(r.0),
            final(self).dc() == *final(r.1),
            final(self).wr() == *final(r.2),
    {
        (&mut self.bus, &mut self.dc, &mut self.wr)
    }
}

} // verus!
