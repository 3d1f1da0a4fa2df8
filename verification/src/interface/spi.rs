//! SPI interface: its parts, and the writes that carry pixel data through its
//! buffer.

use vstd::prelude::*;

use crate::graphics::fill_pixel_run;
use crate::interface::{pixel_run, pixel_run_concat, pixel_run_prefix, pixel_run_repeated, pixel_words};

verus! {

/// Spi interface error
#[derive(Clone, Copy, Debug)]
pub enum SpiError<SPI, DC> {
    /// SPI bus error
    Spi(SPI),
    /// Data/command pin error
    Dc(DC),
}

/// Spi interface, including a buffer
///
/// The buffer is used to gather batches of pixel data to be sent over SPI.
/// Larger buffers will genererally be faster (with diminishing returns), at the expense of using more RAM.
/// The buffer should be at least big enough to hold a few pixels of data.
///
/// Commands are sent with the data/command pin low for the command byte and
/// high for its parameters. Pixel data goes out in the writes that
/// [`spi_pixel_chunks`] and [`spi_repeated_chunks`] describe, which
/// [`fill_pixel_chunk`] and [`fill_repeated_pixel`] lay out in the buffer.
pub struct SpiInterface<SPI, DC, B> {
    spi: SPI,
    dc: DC,
    buffer: B,
}

impl<SPI, DC, B> SpiInterface<SPI, DC, B> {
    /// The SPI device.
    pub closed spec fn spi(&self) -> SPI {
        self.spi
    }

    /// The data/command pin.
    pub closed spec fn dc(&self) -> DC {
        self.dc
    }

    /// The buffer that pixel data is gathered in.
    pub closed spec fn buffer(&self) -> B {
        self.buffer
    }

    /// Create new interface
    pub fn new(spi: SPI, dc: DC, buffer: B) -> (r: Self)
        ensures
            r.spi() == spi,
            r.dc() == dc,
            r.buffer() == buffer,
    {
        Self { spi, dc, buffer }
    }

    /// The SPI device, the data/command pin and the buffer, to carry out transfers with.
    pub fn parts_mut(&mut self) -> (r: (&mut SPI, &mut DC, &mut B))
        ensures
            *r.0 == old(self).spi(),
            *r.1 == old(self).dc(),
            *r.2 == old(self).buffer(),
            final(self).spi() == *final(r.0),
            final(self).dc() == *final(r.1),
            final(self).buffer() == *final(r.2),
    {
        (&mut self.spi, &mut self.dc, &mut self.buffer)
    }
}

/// The writes that carry a run of pixels through a buffer that holds `cap` of
/// them: as many full buffers as the pixels fill, then one with the rest, which
/// is empty where the pixels fill the last buffer exactly.
pub open spec fn spi_pixel_chunks<const N: usize>(pixels: Seq<[u8; N]>, cap: nat) -> Seq<Seq<u8>>
    decreases pixels.len(),
{
    if cap == 0 || pixels.len() < cap {
        seq![pixel_words(pixels)]
    } else {
        seq![pixel_words(pixels.take(cap as int))] + spi_pixel_chunks(pixels.skip(cap as int), cap)
    }
}

/// The words of a run of pixels followed by one more pixel.
pub proof fn pixel_words_push<W, const N: usize>(pixels: Seq<[W; N]>, p: [W; N])
    ensures
        pixel_words(pixels.push(p)) == pixel_words(pixels) + p@,
{
    broadcast use Seq::lemma_flatten_push;

    assert(pixels.push(p).map_values(|q: [W; N]| q@) =~= pixels.map_values(|q: [W; N]| q@).push(
        p@,
    ));
}

/// The words of two runs of pixels, one after the other.
pub proof fn pixel_words_concat<W, const N: usize>(a: Seq<[W; N]>, b: Seq<[W; N]>)
    ensures
        pixel_words(a + b) == pixel_words(a) + pixel_words(b),
{
    assert((a + b).map_values(|q: [W; N]| q@) =~= a.map_values(|q: [W; N]| q@) + b.map_values(
        |q: [W; N]| q@,
    ));
    vstd::seq_lib::lemma_flatten_concat(
        a.map_values(|q: [W; N]| q@),
        b.map_values(|q: [W; N]| q@),
    );
}

/// The writes of a run of pixels, one after another, are the words of the pixels:
/// no word is lost, repeated or moved.
pub proof fn spi_pixel_chunks_carry_pixels<const N: usize>(pixels: Seq<[u8; N]>, cap: nat)
    requires
        cap > 0,
    ensures
        spi_pixel_chunks(pixels, cap).flatten() == pixel_words(pixels),
    decreases pixels.len(),
{
    let chunks = spi_pixel_chunks(pixels, cap);
    if pixels.len() < cap {
        seq![pixel_words(pixels)].lemma_flatten_one_element();
    } else {
        let rest = spi_pixel_chunks(pixels.skip(cap as int), cap);
        spi_pixel_chunks_carry_pixels(pixels.skip(cap as int), cap);
        assert(chunks.first() == pixel_words(pixels.take(cap as int)));
        assert(chunks.drop_first() =~= rest);
        assert(pixels =~= pixels.take(cap as int) + pixels.skip(cap as int));
        pixel_words_concat(pixels.take(cap as int), pixels.skip(cap as int));
    }
}

/// The number of writes of a run of pixels: one for each time the pixels fill
/// the buffer, and one more.
pub proof fn spi_pixel_chunks_count<const N: usize>(pixels: Seq<[u8; N]>, cap: nat)
    requires
        cap > 0,
    ensures
        spi_pixel_chunks(pixels, cap).len() == pixels.len() / cap + 1,
    decreases pixels.len(),
{
    if pixels.len() < cap {
        vstd::arithmetic::div_mod::lemma_basic_div(pixels.len() as int, cap as int);
    } else {
        spi_pixel_chunks_count(pixels.skip(cap as int), cap);
        vstd::arithmetic::div_mod::lemma_div_plus_one(
            (pixels.len() - cap) as int,
            cap as int,
        );
    }
}

/// Copies the words of the pixels from `start` on into the front of `buffer`,
/// as many whole pixels as fit, and returns the position after the last pixel
/// copied. The copied words are the first write of the pixels from `start` on;
/// where the buffer was filled, the writes of the pixels after it follow.
pub fn fill_pixel_chunk<const N: usize>(buffer: &mut [u8], pixels: &[[u8; N]], start: usize) -> (end:
    usize)
    requires
        N > 0,
        old(buffer)@.len() >= N,
        start <= pixels@.len(),
    ensures
        ({
            let cap = old(buffer)@.len() / (N as nat);
            let chunks = spi_pixel_chunks(pixels@.skip(start as int), cap);
            &&& end == if start + cap < pixels@.len() {
                start + cap
            } else {
                pixels@.len() as int
            }
            &&& final(buffer)@.len() == old(buffer)@.len()
            &&& final(buffer)@.take((end - start) * N) == chunks[0]
            &&& end - start == cap ==> chunks.drop_first() == spi_pixel_chunks(
                pixels@.skip(end as int),
                cap,
            )
            &&& end - start < cap ==> chunks.len() == 1
        }),
{
    let blen = buffer.len();
    let cap = blen / N;
    proof {
        vstd::arithmetic::div_mod::lemma_fundamental_div_mod(buffer@.len() as int, N as int);
        assert(cap * N == N * cap) by (nonlinear_arith);
        assert(cap >= 1) by {
            vstd::arithmetic::div_mod::lemma_div_is_ordered(N as int, buffer@.len() as int, N as int);
            vstd::arithmetic::div_mod::lemma_div_by_self(N as int);
        }
    }
    let end: usize = if cap < pixels.len() - start {
        start + cap
    } else {
        pixels.len()
    };
    let mut k: usize = start;
    let mut pos: usize = 0;
    while k < end
        invariant
            N > 0,
            start <= k <= end <= pixels@.len(),
            end - start <= cap,
            cap * N <= buffer@.len(),
            buffer@.len() == old(buffer)@.len(),
            buffer@.len() == blen,
            pos == (k - start) * N,
            buffer@.take(pos as int) == pixel_words(pixels@.subrange(start as int, k as int)),
        decreases end - k,
    {
        let pixel = pixels[k];
        proof {
            assert((k - start + 1) * N <= cap * N) by (nonlinear_arith)
                requires
                    k - start + 1 <= cap,
            ;
            assert((k - start + 1) * N == (k - start) * N + N) by (nonlinear_arith);
        }
        let ghost before = buffer@;
        let mut j: usize = 0;
        while j < N
            invariant
                N > 0,
                j <= N,
                pos + N <= buffer@.len(),
                buffer@.len() == blen,
                buffer@.len() == before.len(),
                buffer@.take(pos as int) == before.take(pos as int),
                forall|t: int| 0 <= t < j ==> buffer@[pos + t] == pixel@[t],
            decreases N - j,
        {
            buffer[pos + j] = pixel[j];
            j = j + 1;
        }
        proof {
            pixel_words_push(pixels@.subrange(start as int, k as int), pixel);
            assert(pixels@.subrange(start as int, k + 1) =~= pixels@.subrange(
                start as int,
                k as int,
            ).push(pixel));
            assert(buffer@.take(pos + N) =~= before.take(pos as int) + pixel@);
        }
        pos = pos + N;
        k = k + 1;
    }
    proof {
        let rest = pixels@.skip(start as int);
        if rest.len() < cap {
            assert(rest =~= pixels@.subrange(start as int, end as int));
        } else {
            assert(rest.take(cap as int) =~= pixels@.subrange(start as int, end as int));
            assert(rest.skip(cap as int) =~= pixels@.skip(end as int));
        }
    }
    end
}

/// The writes that carry `count` copies of a pixel, `fill` of them to a full
/// buffer: as many full buffers as the copies fill, then the rest, if any.
pub open spec fn spi_repeated_chunks(pixel: Seq<u8>, count: nat, fill: nat) -> Seq<Seq<u8>> {
    Seq::new(count / fill, |_i: int| pixel_run(pixel, fill)) + if count % fill == 0 {
        Seq::empty()
    } else {
        seq![pixel_run(pixel, count % fill)]
    }
}

/// The writes of a repeated pixel, one after another, are the pixel repeated
/// `count` times.
pub proof fn spi_repeated_chunks_carry_pixels(pixel: Seq<u8>, count: nat, fill: nat)
    requires
        pixel.len() > 0,
        fill > 0,
    ensures
        spi_repeated_chunks(pixel, count, fill).flatten() == pixel_run(pixel, count),
{
    let q = count / fill;
    let r = count % fill;
    let full = Seq::new(q, |_i: int| pixel_run(pixel, fill));
    let tail: Seq<Seq<u8>> = if r == 0 {
        Seq::empty()
    } else {
        seq![pixel_run(pixel, r)]
    };
    pixel_run_repeated(pixel, fill, q);
    vstd::seq_lib::lemma_flatten_concat(full, tail);
    if r == 0 {
        assert(tail.flatten() =~= pixel_run(pixel, 0));
    } else {
        tail.lemma_flatten_one_element();
    }
    pixel_run_concat(pixel, q * fill, r);
    vstd::arithmetic::div_mod::lemma_fundamental_div_mod(count as int, fill as int);
    assert(q * fill == fill * q) by (nonlinear_arith);
}

/// How a repeated pixel goes out through the buffer: `full_writes` writes of the
/// first `filled_len` bytes of the buffer, then, unless `rest_len` is zero, one
/// write of its first `rest_len` bytes.
#[derive(Clone, Copy, Debug, PartialEq, Eq)]
pub struct RepeatedPixelPlan {
    /// The number of bytes of the buffer that hold copies of the pixel.
    pub filled_len: usize,
    /// How many times the filled part of the buffer is written.
    pub full_writes: u32,
    /// The number of bytes of the last, shorter write; zero for none.
    pub rest_len: usize,
}

/// How many copies of a pixel of `n` bytes the buffer of `len` bytes is filled
/// with for `count` of them: all of them where they fit, else as many as fit,
/// that number taken modulo 2^32.
pub open spec fn repeated_fill(len: nat, n: nat, count: u32) -> nat {
    let cap = ((len / n) as usize) as u32;
    if count < cap {
        count as nat
    } else {
        cap as nat
    }
}

/// Fills the front of `buffer` with copies of `pixel` and returns how the
/// `count` copies go out through it. No copy at all goes out as no write.
pub fn fill_repeated_pixel(buffer: &mut [u8], pixel: &[u8], count: u32) -> (plan:
    RepeatedPixelPlan)
    requires
        pixel@.len() > 0,
        count > 0 ==> repeated_fill(old(buffer)@.len(), pixel@.len(), count) > 0,
    ensures
        count == 0 ==> plan == (RepeatedPixelPlan { filled_len: 0, full_writes: 0, rest_len: 0 })
            && final(buffer)@ == old(buffer)@,
        count > 0 ==> ({
            let n = pixel@.len();
            let fill = repeated_fill(old(buffer)@.len(), n, count);
            &&& plan.filled_len == fill * n
            &&& plan.full_writes == (count as nat) / fill
            &&& plan.rest_len == ((count as nat) % fill) * n
            &&& final(buffer)@.len() == old(buffer)@.len()
            &&& final(buffer)@.take(plan.filled_len as int) == pixel_run(pixel@, fill)
            &&& final(buffer)@.take(plan.rest_len as int) == pixel_run(pixel@, (count as nat) % fill)
            &&& spi_repeated_chunks(pixel@, count as nat, fill) == Seq::new(
                plan.full_writes as nat,
                |_i: int| final(buffer)@.take(plan.filled_len as int),
            ) + if plan.rest_len == 0 {
                Seq::<Seq<u8>>::empty()
            } else {
                seq![final(buffer)@.take(plan.rest_len as int)]
            }
        }),
{
    if count == 0 {
        return RepeatedPixelPlan { filled_len: 0, full_writes: 0, rest_len: 0 };
    }
    let n = pixel.len();
    let len = buffer.len();
    let cap = len / n;
    let cap32 = cap as u32;
    let fill: u32 = if count < cap32 {
        count
    } else {
        cap32
    };
    let ghost f = fill as nat;
    proof {
        assert(cap32 as usize <= cap) by (bit_vector)
            requires
                cap32 == cap as u32,
        ;
        vstd::arithmetic::div_mod::lemma_fundamental_div_mod(len as int, n as int);
        assert(fill * n <= cap * n) by (nonlinear_arith)
            requires
                fill <= cap,
        ;
        assert(cap * n == n * cap) by (nonlinear_arith);
    }
    let filled_len = fill as usize * n;
    fill_pixel_run(buffer, pixel, fill as usize);
    let full_writes = count / fill;
    let rest = count % fill;
    proof {
        assert(rest * n <= fill * n) by (nonlinear_arith)
            requires
                rest <= fill,
        ;
    }
    let rest_len = rest as usize * n;
    proof {
        pixel_run_prefix(pixel@, f, rest as nat);
        assert(buffer@.take(rest_len as int) =~= buffer@.take(filled_len as int).take(
            rest_len as int,
        ));
        assert(rest_len == 0 <==> rest == 0) by (nonlinear_arith)
            requires
                rest_len == rest * n,
                n > 0,
        ;
        assert(Seq::new(full_writes as nat, |_i: int| pixel_run(pixel@, f)) =~= Seq::new(
            full_writes as nat,
            |_i: int| buffer@.take(filled_len as int),
        ));
    }
    RepeatedPixelPlan { filled_len, full_writes, rest_len }
}

} // verus!
