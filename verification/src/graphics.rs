//! Selection of the pixels of a drawing request that fall on the display.

use vstd::prelude::*;

use crate::interface::pixel_run;

verus! {

/// The position in the source sequence of the `k`-th item that a [`TakeSkip`]
/// yields when it starts at `start`, takes `take` items and then skips `skip`.
pub open spec fn take_skip_index(start: int, take: int, skip: int, k: int) -> int {
    start + (k / take) * (take + skip) + k % take
}

/// Whether `selection` is what a [`TakeSkip`] yields from `items` after the
/// first `start` elements were consumed, limited to `count` elements: the
/// elements at the positions [`take_skip_index`] gives, up to the first
/// position past the end of `items`.
pub open spec fn is_take_skip_selection<T>(
    selection: Seq<T>,
    items: Seq<T>,
    start: int,
    take: int,
    skip: int,
    count: int,
) -> bool {
    &&& selection.len() <= count
    &&& forall|k: int|
        0 <= k < selection.len() ==> #[trigger] take_skip_index(start, take, skip, k) < items.len()
            && selection[k] == items[take_skip_index(start, take, skip, k)]
    &&& selection.len() < count ==> take_skip_index(start, take, skip, selection.len() as int)
        >= items.len()
}

/// A selection is determined by what it is selected from: two selections of
/// the same elements with the same start, run lengths and limit are equal.
pub proof fn take_skip_selection_unique<T>(
    a: Seq<T>,
    b: Seq<T>,
    items: Seq<T>,
    start: int,
    take: int,
    skip: int,
    count: int,
)
    requires
        is_take_skip_selection(a, items, start, take, skip, count),
        is_take_skip_selection(b, items, start, take, skip, count),
    ensures
        a == b,
{
    if a.len() < b.len() {
        assert(take_skip_index(start, take, skip, a.len() as int) < items.len());
    } else if b.len() < a.len() {
        assert(take_skip_index(start, take, skip, b.len() as int) < items.len());
    }
    assert(a.len() == b.len());
    assert forall|k: int| 0 <= k < a.len() implies a[k] == b[k] by {
        assert(take_skip_index(start, take, skip, k) < items.len());
    }
    assert(a =~= b);
}

/// Without skipping, the `k`-th element taken is the `k`-th element after the start.
pub proof fn take_skip_index_without_skip(start: int, take: int, k: int)
    requires
        take > 0,
        k >= 0,
    ensures
        take_skip_index(start, take, 0, k) == start + k,
{
    vstd::arithmetic::div_mod::lemma_fundamental_div_mod(k, take);
    assert(k == take * (k / take) + k % take);
    assert((k / take) * take == take * (k / take)) by (nonlinear_arith);
}

/// Without skipping, the run length does not change what is selected.
pub proof fn selection_without_skip(start: int, take1: int, take2: int)
    requires
        take1 > 0,
        take2 > 0,
    ensures
        forall|k: int|
            #![trigger take_skip_index(start, take1, 0, k)]
            #![trigger take_skip_index(start, take2, 0, k)]
            k >= 0 ==> take_skip_index(start, take1, 0, k) == take_skip_index(start, take2, 0, k),
{
    assert forall|k: int| k >= 0 implies #[trigger] take_skip_index(start, take1, 0, k)
        == take_skip_index(start, take2, 0, k) by {
        take_skip_index_without_skip(start, take1, k);
        take_skip_index_without_skip(start, take2, k);
    }
}

/// The first `max_count` elements of a sequence, or all of them if there are fewer.
pub fn take_u32<T: Copy>(items: &[T], max_count: u32) -> (r: Vec<T>)
    ensures
        r@ == items@.take(if max_count < items@.len() { max_count as int } else { items@.len() as int }),
        max_count > 0 ==> is_take_skip_selection(r@, items@, 0, max_count as int, 0, max_count as int),
{
    let n: usize = if (max_count as usize) < items.len() { max_count as usize } else { items.len() };
    let prefix = vstd::slice::slice_subrange(items, 0, n);
    let r = vstd::slice::slice_to_vec(prefix);
    proof {
        if max_count > 0 {
            assert forall|k: int| 0 <= k < r@.len() implies #[trigger] take_skip_index(0, max_count as int, 0, k) == k by {
                take_skip_index_of_run(0, max_count as int, 0, k, 0, k);
            }
            if r@.len() < max_count {
                take_skip_index_of_run(0, max_count as int, 0, r@.len() as int, 0, r@.len() as int);
            }
        }
    }
    r
}

/// The element `n` places after position `pos` of a sequence, if there is one.
pub fn nth_u32<T: Copy>(items: &[T], pos: usize, n: u32) -> (r: Option<T>)
    requires
        pos <= items@.len(),
    ensures
        pos + n < items@.len() ==> r == Some(items@[pos + n]),
        pos + n >= items@.len() ==> r is None,
{
    if (n as usize) < items.len() - pos {
        Some(items[pos + n as usize])
    } else {
        None
    }
}

/// A pixel: a point and a color.
#[derive(Debug, Clone, Copy, PartialEq, Eq)]
pub struct Pixel<C>(pub crate::geometry::Point, pub C);

/// An iterator that alternately takes and skips elements of a sequence.
pub struct TakeSkip<'a, T> {
    items: &'a [T],
    pos: usize,
    take: u32,
    take_remaining: u32,
    skip: u32,
}

impl<'a, T: Copy> TakeSkip<'a, T> {
    /// The sequence that is iterated.
    pub closed spec fn items(&self) -> Seq<T> {
        self.items@
    }

    /// The position of the next element of the underlying sequence.
    pub closed spec fn pos(&self) -> int {
        self.pos as int
    }

    /// How many elements are taken in a row.
    pub closed spec fn take(&self) -> u32 {
        self.take
    }

    /// How many elements are still taken before the next skip.
    pub closed spec fn take_remaining(&self) -> u32 {
        self.take_remaining
    }

    /// How many elements are skipped after each run of taken elements.
    pub closed spec fn skip(&self) -> u32 {
        self.skip
    }

    /// Creates an iterator over `iter` that takes `take` elements, skips `skip`,
    /// and so on.
    pub fn new(iter: &'a [T], take: u32, skip: u32) -> (r: Self)
        ensures
            r.items() == iter@,
            r.pos() == 0,
            r.take() == take,
            r.take_remaining() == take,
            r.skip() == skip,
    {
        Self { items: iter, pos: 0, take, take_remaining: take, skip }
    }

    /// Creates the iterator as [`TakeSkip::new`] does, after the first `start`
    /// elements of `iter` were consumed.
    fn starting_at(iter: &'a [T], start: usize, take: u32, skip: u32) -> (r: Self)
        requires
            start <= iter@.len(),
        ensures
            r.items() == iter@,
            r.pos() == start,
            r.take() == take,
            r.take_remaining() == take,
            r.skip() == skip,
    {
        Self { items: iter, pos: start, take, take_remaining: take, skip }
    }

    /// Returns the next element of the underlying sequence.
    fn next_item(&mut self) -> (r: Option<T>)
        requires
            old(self).pos() <= old(self).items().len(),
        ensures
            final(self).items() == old(self).items(),
            final(self).take() == old(self).take(),
            final(self).take_remaining() == old(self).take_remaining(),
            final(self).skip() == old(self).skip(),
            old(self).pos() < old(self).items().len() ==> r == Some(
                old(self).items()[old(self).pos()],
            ) && final(self).pos() == old(self).pos() + 1,
            old(self).pos() >= old(self).items().len() ==> r is None && final(self).pos()
                == old(self).pos(),
    {
        if self.pos < self.items.len() {
            let item = self.items[self.pos];
            self.pos = self.pos + 1;
            Some(item)
        } else {
            None
        }
    }

    /// Skips `n` elements of the underlying sequence and returns the one after them.
    fn nth_item(&mut self, n: u32) -> (r: Option<T>)
        requires
            old(self).pos() <= old(self).items().len(),
        ensures
            final(self).items() == old(self).items(),
            final(self).take() == old(self).take(),
            final(self).take_remaining() == old(self).take_remaining(),
            final(self).skip() == old(self).skip(),
            final(self).pos() <= final(self).items().len(),
            old(self).pos() + n < old(self).items().len() ==> r == Some(
                old(self).items()[old(self).pos() + n],
            ) && final(self).pos() == old(self).pos() + n + 1,
            old(self).pos() + n >= old(self).items().len() ==> r is None,
    {
        let r = nth_u32(self.items, self.pos, n);
        let len = self.items.len();
        if (n as usize) < len - self.pos {
            self.pos = self.pos + n as usize + 1;
        } else {
            self.pos = len;
        }
        r
    }

    /// Returns the next element: one of the `take` elements of the current run,
    /// or, once the run is over, the element after the next `skip` ones.
    pub fn next(&mut self) -> (r: Option<T>)
        requires
            old(self).pos() <= old(self).items().len(),
        ensures
            final(self).items() == old(self).items(),
            final(self).take() == old(self).take(),
            final(self).skip() == old(self).skip(),
            final(self).pos() <= final(self).items().len(),
            old(self).take_remaining() > 0 ==> {
                &&& final(self).take_remaining() == old(self).take_remaining() - 1
                &&& old(self).pos() < old(self).items().len() ==> r == Some(
                    old(self).items()[old(self).pos()],
                ) && final(self).pos() == old(self).pos() + 1
                &&& old(self).pos() >= old(self).items().len() ==> r is None
            },
            old(self).take_remaining() == 0 && old(self).take() > 0 ==> {
                &&& final(self).take_remaining() == old(self).take() - 1
                &&& old(self).pos() + old(self).skip() < old(self).items().len() ==> r == Some(
                    old(self).items()[old(self).pos() + old(self).skip()],
                ) && final(self).pos() == old(self).pos() + old(self).skip() + 1
                &&& old(self).pos() + old(self).skip() >= old(self).items().len() ==> r is None
            },
            old(self).take_remaining() == 0 && old(self).take() == 0 ==> r is None
                && final(self).take_remaining() == 0,
    {
        if self.take_remaining > 0 {
            self.take_remaining = self.take_remaining - 1;
            self.next_item()
        } else if self.take > 0 {
            self.take_remaining = self.take - 1;
            let skip = self.skip;
            self.nth_item(skip)
        } else {
            None
        }
    }
}

/// Splits `k` into a run number and a position within the run, given `take > 0`.
proof fn take_skip_index_of_run(start: int, take: int, skip: int, k: int, row: int, col: int)
    requires
        take > 0,
        skip >= 0,
        0 <= col < take,
        row >= 0,
        k == row * take + col,
    ensures
        take_skip_index(start, take, skip, k) == start + row * (take + skip) + col,
{
    vstd::arithmetic::div_mod::lemma_fundamental_div_mod_converse(k, take, row, col);
}

/// The elements of `items` that a [`TakeSkip`] yields after the first `start`
/// elements were consumed, limited to `count` elements and ending at the first
/// position past the end of `items`.
pub fn take_skip_collect<T: Copy>(items: &[T], start: u32, take: u32, skip: u32, count: u32) -> (r:
    Vec<T>)
    requires
        take > 0,
    ensures
        is_take_skip_selection(r@, items@, start as int, take as int, skip as int, count as int),
{
    let mut out: Vec<T> = Vec::new();
    if start as usize >= items.len() {
        proof {
            take_skip_index_of_run(start as int, take as int, skip as int, 0, 0, 0);
        }
        return out;
    }
    let mut iter = TakeSkip::starting_at(items, start as usize, take, skip);
    let mut k: u32 = 0;
    let ghost mut row: int = 0;
    let ghost mut col: int = 0;
    while k < count
        invariant_except_break
            k <= count,
            iter.items() == items@,
            iter.take() == take,
            iter.skip() == skip,
            iter.pos() <= items@.len(),
            0 <= col < take,
            row >= 0,
            k == row * take + col,
            out@.len() == k,
            k > 0 && col == 0 ==> iter.take_remaining() == 0 && iter.pos() + skip == start + row
                * (take + skip) + col,
            !(k > 0 && col == 0) ==> iter.take_remaining() == take - col && iter.pos() == start
                + row * (take + skip) + col,
        invariant
            take > 0,
            out@.len() <= count,
            forall|j: int|
                0 <= j < out@.len() ==> #[trigger] take_skip_index(start as int, take as int, skip as int, j)
                    < items@.len() && out@[j] == items@[take_skip_index(
                    start as int,
                    take as int,
                    skip as int,
                    j,
                )],
        ensures
            out@.len() <= count,
            forall|j: int|
                0 <= j < out@.len() ==> #[trigger] take_skip_index(start as int, take as int, skip as int, j)
                    < items@.len() && out@[j] == items@[take_skip_index(
                    start as int,
                    take as int,
                    skip as int,
                    j,
                )],
            out@.len() < count ==> take_skip_index(
                start as int,
                take as int,
                skip as int,
                out@.len() as int,
            ) >= items@.len(),
        decreases count - k,
    {
        proof {
            take_skip_index_of_run(start as int, take as int, skip as int, k as int, row, col);
        }
        let ghost idx = start + row * (take + skip) + col;
        match iter.next() {
            Some(item) => {
                assert(idx < items@.len() && item == items@[idx]);
                out.push(item);
                proof {
                    if col + 1 < take {
                        col = col + 1;
                    } else {
                        assert(row * take + col + 1 == (row + 1) * take) by (nonlinear_arith)
                            requires
                                col + 1 == take,
                        ;
                        assert(start + row * (take + skip) + take + skip == start + (row + 1) * (
                        take + skip)) by (nonlinear_arith);
                        row = row + 1;
                        col = 0;
                    }
                }
                k = k + 1;
            },
            None => {
                assert(idx >= items@.len());
                break ;
            },
        }
    }
    out
}

/// Writes `pixel` over and over into the first `total` bytes of `buffer`,
/// leaving the rest of it as it was.
fn fill_cyclic(buffer: &mut [u8], pixel: &[u8], total: usize)
    requires
        total <= old(buffer)@.len(),
        pixel@.len() > 0 || total == 0,
    ensures
        final(buffer)@.len() == old(buffer)@.len(),
        forall|t: int| 0 <= t < total ==> final(buffer)@[t] == pixel@[t % (pixel@.len() as int)],
        forall|t: int| total <= t < final(buffer)@.len() ==> final(buffer)@[t] == old(buffer)@[t],
{
    if total == 0 {
        return ;
    }
    let n = pixel.len();
    let mut i: usize = 0;
    let mut j: usize = 0;
    let ghost mut q: int = 0;
    while i < total
        invariant
            n == pixel@.len(),
            n > 0,
            total <= buffer@.len(),
            buffer@.len() == old(buffer)@.len(),
            i <= total,
            j < n,
            q >= 0,
            i == q * n + j,
            forall|t: int| 0 <= t < i ==> buffer@[t] == pixel@[t % (n as int)],
            forall|t: int| total <= t < buffer@.len() ==> buffer@[t] == old(buffer)@[t],
        decreases total - i,
    {
        proof {
            vstd::arithmetic::div_mod::lemma_mod_multiples_vanish(q, j as int, n as int);
            vstd::arithmetic::div_mod::lemma_small_mod(j as nat, n as nat);
            assert(q * n == n * q) by (nonlinear_arith);
        }
        buffer[i] = pixel[j];
        i = i + 1;
        if j + 1 == n {
            j = 0;
            proof {
                q = q + 1;
                assert(q * n == (q - 1) * n + n) by (nonlinear_arith);
            }
        } else {
            j = j + 1;
        }
    }
}

/// Writes `count` copies of `pixel` to the front of `buffer`, leaving the rest
/// of it as it was.
pub fn fill_pixel_run(buffer: &mut [u8], pixel: &[u8], count: usize)
    requires
        count * pixel@.len() <= old(buffer)@.len(),
    ensures
        final(buffer)@.len() == old(buffer)@.len(),
        final(buffer)@.take(count * pixel@.len()) == pixel_run(pixel@, count as nat),
        final(buffer)@.skip(count * pixel@.len()) == old(buffer)@.skip(count * pixel@.len()),
{
    let n = pixel.len();
    let len = buffer.len();
    assert(count * n <= len);
    let total = count * n;
    fill_cyclic(buffer, pixel, total);
    assert(buffer@.take(count * pixel@.len()) =~= pixel_run(pixel@, count as nat));
    assert(buffer@.skip(count * pixel@.len()) =~= old(buffer)@.skip(count * pixel@.len()));
}

/// Fills `buffer` with as many whole copies of `data` as fit, leaves the bytes
/// after them as they were, and returns how many copies that is.
pub fn fill_buffer<const N: usize>(buffer: &mut [u8], data: [u8; N]) -> (r: usize)
    requires
        N > 0,
    ensures
        r == old(buffer)@.len() / (N as nat),
        final(buffer)@.len() == old(buffer)@.len(),
        final(buffer)@.take(r * N) == pixel_run(data@, r as nat),
        final(buffer)@.skip(r * N) == old(buffer)@.skip(r * N),
{
    let r = buffer.len() / N;
    proof {
        vstd::arithmetic::div_mod::lemma_fundamental_div_mod(buffer@.len() as int, N as int);
        assert(r * N == N * r) by (nonlinear_arith);
    }
    fill_pixel_run(buffer, data.as_slice(), r);
    r
}

/// Fills all of `buf` with the bytes of a pixel, over and over, the last copy
/// cut short where the buffer ends, and returns the size of the pixel.
pub fn repeat_pixel_to_buffer_bytes(bytes: &[u8], buf: &mut [u8]) -> (r: usize)
    requires
        bytes@.len() > 0 || old(buf)@.len() == 0,
    ensures
        r == bytes@.len(),
        final(buf)@.len() == old(buf)@.len(),
        forall|t: int| 0 <= t < final(buf)@.len() ==> final(buf)@[t] == bytes@[t % (r as int)],
{
    let total = buf.len();
    fill_cyclic(buf, bytes, total);
    bytes.len()
}

} // verus!
