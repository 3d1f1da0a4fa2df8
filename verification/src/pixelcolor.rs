//! The pixel colors that the display models draw with.

use vstd::prelude::*;

verus! {

/// A color with 5 bits of red, 6 bits of green and 5 bits of blue.
#[derive(Debug, Clone, Copy, PartialEq, Eq, Structural)]
pub struct Rgb565 {
    r: u8,
    g: u8,
    b: u8,
}

/// A color with 6 bits each of red, green and blue.
#[derive(Debug, Clone, Copy, PartialEq, Eq, Structural)]
pub struct Rgb666 {
    r: u8,
    g: u8,
    b: u8,
}

/// A color with 5 bits of blue, 6 bits of green and 5 bits of red, blue in the
/// most significant bits of its storage.
#[derive(Debug, Clone, Copy, PartialEq, Eq, Structural)]
pub struct Bgr565 {
    r: u8,
    g: u8,
    b: u8,
}

/// A color format whose red, green and blue channels have fixed numbers of bits.
pub trait ChannelBits {
    /// The numbers of bits of the red, green and blue channels.
    spec fn channel_bits() -> (nat, nat, nat);
}

impl ChannelBits for Rgb565 {
    open spec fn channel_bits() -> (nat, nat, nat) {
        (5, 6, 5)
    }
}

impl ChannelBits for Rgb666 {
    open spec fn channel_bits() -> (nat, nat, nat) {
        (6, 6, 6)
    }
}

impl ChannelBits for Bgr565 {
    open spec fn channel_bits() -> (nat, nat, nat) {
        (5, 6, 5)
    }
}

/// The largest value of a 5 bit channel.
pub const MAX_5_BIT: u8 = 31;

/// The largest value of a 6 bit channel.
pub const MAX_6_BIT: u8 = 63;

/// A channel maximum of 31 has 5 trailing one bits.
pub proof fn trailing_ones_of_5_bit_max()
    ensures
        u8::trailing_ones(31u8) == 5,
{
    vstd::std_specs::bits::axiom_u8_trailing_ones(31u8);
    let t = u8::trailing_ones(31u8);
    if t < 5 {
        let x = t as u8;
        assert((31u8 >> x) & 1u8 == 1u8) by (bit_vector)
            requires
                x < 5,
        ;
    }
    if t > 5 {
        assert((31u8 >> 5u8) & 1u8 == 0u8) by (bit_vector);
        assert((31u8 >> 5u8) & 1u8 == 1u8);
    }
}

/// A channel maximum of 63 has 6 trailing one bits.
pub proof fn trailing_ones_of_6_bit_max()
    ensures
        u8::trailing_ones(63u8) == 6,
{
    vstd::std_specs::bits::axiom_u8_trailing_ones(63u8);
    let t = u8::trailing_ones(63u8);
    if t < 6 {
        let x = t as u8;
        assert((63u8 >> x) & 1u8 == 1u8) by (bit_vector)
            requires
                x < 6,
        ;
    }
    if t > 6 {
        assert((63u8 >> 6u8) & 1u8 == 0u8) by (bit_vector);
        assert((63u8 >> 6u8) & 1u8 == 1u8);
    }
}

/// The two bytes of a 16 bit value, most significant first.
pub open spec fn u16_be_bytes(v: int) -> Seq<u8> {
    seq![(v / 256) as u8, (v % 256) as u8]
}

impl Rgb565 {
    #[verifier::type_invariant]
    spec fn channels_in_range(self) -> bool {
        self.r < 32 && self.g < 64 && self.b < 32
    }

    /// The red channel.
    pub closed spec fn red(self) -> u8 {
        self.r
    }

    /// The green channel.
    pub closed spec fn green(self) -> u8 {
        self.g
    }

    /// The blue channel.
    pub closed spec fn blue(self) -> u8 {
        self.b
    }

    /// The 16 bit storage of the color: red in bits 11 to 15, green in bits 5
    /// to 10, blue in bits 0 to 4.
    pub open spec fn storage(self) -> int {
        self.red() * 2048 + self.green() * 32 + self.blue()
    }

    /// Creates a color; channel values that are too large lose their unused
    /// most significant bits.
    pub fn new(r: u8, g: u8, b: u8) -> (c: Self)
        ensures
            c.red() == r % 32,
            c.green() == g % 64,
            c.blue() == b % 32,
    {
        Rgb565 { r: r % 32, g: g % 64, b: b % 32 }
    }

    /// Returns the red channel.
    pub fn r(&self) -> (v: u8)
        ensures
            v == self.red(),
            v < 32,
    {
        proof {
            use_type_invariant(self);
        }
        self.r
    }

    /// Returns the green channel.
    pub fn g(&self) -> (v: u8)
        ensures
            v == self.green(),
            v < 64,
    {
        proof {
            use_type_invariant(self);
        }
        self.g
    }

    /// Returns the blue channel.
    pub fn b(&self) -> (v: u8)
        ensures
            v == self.blue(),
            v < 32,
    {
        proof {
            use_type_invariant(self);
        }
        self.b
    }

    /// Returns the 16 bit storage of the color.
    pub fn into_storage(self) -> (v: u16)
        ensures
            v == self.storage(),
    {
        proof {
            use_type_invariant(&self);
        }
        self.r as u16 * 2048 + self.g as u16 * 32 + self.b as u16
    }

    /// Returns the storage bytes, most significant first.
    pub fn to_be_bytes(self) -> (bytes: [u8; 2])
        ensures
            bytes@ == u16_be_bytes(self.storage()),
    {
        let v = self.into_storage();
        let bytes = [(v / 256) as u8, (v % 256) as u8];
        assert(bytes@ =~= u16_be_bytes(self.storage()));
        bytes
    }
}

impl Rgb666 {
    #[verifier::type_invariant]
    spec fn channels_in_range(self) -> bool {
        self.r < 64 && self.g < 64 && self.b < 64
    }

    /// The red channel.
    pub closed spec fn red(self) -> u8 {
        self.r
    }

    /// The green channel.
    pub closed spec fn green(self) -> u8 {
        self.g
    }

    /// The blue channel.
    pub closed spec fn blue(self) -> u8 {
        self.b
    }

    /// Creates a color; channel values that are too large lose their unused
    /// most significant bits.
    pub fn new(r: u8, g: u8, b: u8) -> (c: Self)
        ensures
            c.red() == r % 64,
            c.green() == g % 64,
            c.blue() == b % 64,
    {
        Rgb666 { r: r % 64, g: g % 64, b: b % 64 }
    }

    /// Returns the red channel.
    pub fn r(&self) -> (v: u8)
        ensures
            v == self.red(),
            v < 64,
    {
        proof {
            use_type_invariant(self);
        }
        self.r
    }

    /// Returns the green channel.
    pub fn g(&self) -> (v: u8)
        ensures
            v == self.green(),
            v < 64,
    {
        proof {
            use_type_invariant(self);
        }
        self.g
    }

    /// Returns the blue channel.
    pub fn b(&self) -> (v: u8)
        ensures
            v == self.blue(),
            v < 64,
    {
        proof {
            use_type_invariant(self);
        }
        self.b
    }
}

impl Bgr565 {
    #[verifier::type_invariant]
    spec fn channels_in_range(self) -> bool {
        self.r < 32 && self.g < 64 && self.b < 32
    }

    /// The red channel.
    pub closed spec fn red(self) -> u8 {
        self.r
    }

    /// The green channel.
    pub closed spec fn green(self) -> u8 {
        self.g
    }

    /// The blue channel.
    pub closed spec fn blue(self) -> u8 {
        self.b
    }

    /// The 16 bit storage of the color: blue in bits 11 to 15, green in bits 5
    /// to 10, red in bits 0 to 4.
    pub open spec fn storage(self) -> int {
        self.blue() * 2048 + self.green() * 32 + self.red()
    }

    /// Creates a color; channel values that are too large lose their unused
    /// most significant bits.
    pub fn new(r: u8, g: u8, b: u8) -> (c: Self)
        ensures
            c.red() == r % 32,
            c.green() == g % 64,
            c.blue() == b % 32,
    {
        Bgr565 { r: r % 32, g: g % 64, b: b % 32 }
    }

    /// Returns the 16 bit storage of the color.
    pub fn into_storage(self) -> (v: u16)
        ensures
            v == self.storage(),
    {
        proof {
            use_type_invariant(&self);
        }
        self.b as u16 * 2048 + self.g as u16 * 32 + self.r as u16
    }
}

} // verus!
