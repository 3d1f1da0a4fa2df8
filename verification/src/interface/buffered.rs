//! An interface that gathers commands and pixel data in a buffer and sends
//! them on when flushed.

use vstd::prelude::*;

use crate::interface::spi::pixel_words_push;
use crate::interface::{call_outcome, pixel_words, Interface, Transfer};

verus! {

///
/// Interface with intermediate results and a flush method to apply them.
///
pub trait FlushingInterface: Interface {
    ///
    /// Applies changed in buffer to display
    ///
    /// The transfers asked of the interface stay as they were; an error that
    /// comes back is recorded as the newest one.
    fn flush(&mut self) -> (r: Result<(), Self::Error>)
        ensures
            final(self).transfers() == old(self).transfers(),
            r is Ok ==> final(self).errors() == old(self).errors(),
            r matches Err(e) ==> final(self).errors() == old(self).errors().push(e),
    ;
}

///
/// Error wrapper for [FlushingInterface] with differentiation between
/// underlaying errors on the internal [Interface] and maximum operations limit being
/// reached.
///
#[derive(Debug)]
pub enum FlushingError<E> {
    /// Unerlaying error reported from the internal [Interface]
    Underlaying(E),
    /// Maximum number of operations reached
    MaxOperationsReached,
    /// Buffer overflow
    BufferOverflow,
}

impl<E> From<E> for FlushingError<E> {
    fn from(value: E) -> (r: Self) {
        FlushingError::Underlaying(value)
    }
}

impl<E> vstd::std_specs::convert::FromSpecImpl<E> for FlushingError<E> {
    open spec fn obeys_from_spec() -> bool {
        true
    }

    open spec fn from_spec(v: E) -> Self {
        FlushingError::Underlaying(v)
    }
}

// Operation and byte index/size information for each
#[derive(Debug, Clone, Copy)]
enum Chunk {
    // index of command byte in buffer + size of argument bytes following it
    Command(usize, usize),
    // index of pixel bytes in buffer + their byte size
    Pixels(usize, usize),
    // index of pixel bytes in buffer for one pixel, size of the pixel bytes data + count for repeat operation
    Repeat(usize, usize, u32),
}

/// The position after the last byte of the buffer that an operation uses.
spec fn chunk_end(c: Chunk) -> int {
    match c {
        Chunk::Command(i, n) => i + 1 + n,
        Chunk::Pixels(i, n) => i + n,
        Chunk::Repeat(i, n, _) => i + n,
    }
}

/// The transfer that an operation stands for, read from the buffer.
spec fn decode(c: Chunk, buf: Seq<u8>) -> Transfer<u8> {
    match c {
        Chunk::Command(i, n) => Transfer::Command {
            instruction: buf[i as int],
            params: buf.subrange(i + 1, i + 1 + n),
        },
        Chunk::Pixels(i, n) => Transfer::Pixels { words: buf.subrange(i as int, i + n) },
        Chunk::Repeat(i, n, count) => Transfer::RepeatedPixel {
            pixel: buf.subrange(i as int, i + n),
            count,
        },
    }
}

/// A borrowed view of one kept operation: what is sent on for it.
enum OpView<'a> {
    Command(u8, &'a [u8]),
    Pixels(&'a [u8]),
    Repeat(&'a [u8], u32),
}

/// The transfer that a view of an operation sends on.
spec fn view_transfer(v: OpView<'_>) -> Transfer<u8> {
    match v {
        OpView::Command(c, args) => Transfer::Command { instruction: c, params: args@ },
        OpView::Pixels(bytes) => Transfer::Pixels { words: bytes@ },
        OpView::Repeat(bytes, count) => Transfer::RepeatedPixel { pixel: bytes@, count },
    }
}

/// The operations kept by a [`BufferedInterface`] and the buffer that holds
/// their bytes.
struct OpBuffer<'buffer, const MAX_OPS: usize> {
    buffer: &'buffer mut [u8],
    index: usize,
    ops: Vec<Chunk>,
}

impl<'buffer, const MAX_OPS: usize> OpBuffer<'buffer, MAX_OPS> {
    /// The operations lie in the used part of the buffer, which lies in the
    /// buffer, and there are at most `MAX_OPS` of them.
    #[verifier::type_invariant]
    spec fn layout(self) -> bool {
        &&& self.index <= self.buffer@.len()
        &&& self.ops@.len() <= MAX_OPS
        &&& forall|k: int| 0 <= k < self.ops@.len() ==> chunk_end(#[trigger] self.ops@[k]) <= self.index
    }

    /// The transfers kept in the buffer, oldest first.
    spec fn pending(&self) -> Seq<Transfer<u8>> {
        self.ops@.map_values(|c: Chunk| decode(c, self.buffer@))
    }

    /// The number of bytes of the buffer that the kept transfers use.
    spec fn used(&self) -> nat {
        self.index as nat
    }

    /// The size of the buffer.
    spec fn capacity(&self) -> nat {
        self.buffer@.len()
    }

    fn new(buffer: &'buffer mut [u8]) -> (r: Self)
        ensures
            r.pending() == Seq::<Transfer<u8>>::empty(),
            r.used() == 0,
            r.capacity() == old(buffer)@.len(),
    {
        let r = Self { buffer, index: 0, ops: Vec::new() };
        assert(r.pending() =~= Seq::<Transfer<u8>>::empty());
        r
    }

    /// Keeps `op` as the newest operation, its bytes already in the buffer, and
    /// moves the used part of the buffer past them.
    fn keep(&mut self, op: Chunk, new_index: usize, Ghost(t): Ghost<Transfer<u8>>)
        requires
            old(self).ops@.len() < MAX_OPS,
            old(self).index <= new_index <= old(self).buffer@.len(),
            chunk_end(op) == new_index,
            decode(op, old(self).buffer@) == t,
        ensures
            final(self).capacity() == old(self).capacity(),
            final(self).used() == new_index,
            final(self).pending() == old(self).pending().push(t),
    {
        proof {
            use_type_invariant(&*self);
        }
        let ghost old_pending = self.pending();
        let mut ops = Vec::new();
        std::mem::swap(&mut ops, &mut self.ops);
        ops.push(op);
        self.index = new_index;
        self.ops = ops;
        assert(self.pending() =~= old_pending.push(t));
    }

    /// Keeps a command with its parameters.
    fn push_command<E>(&mut self, command: u8, args: &[u8]) -> (r: Result<(), FlushingError<E>>)
        ensures
            final(self).capacity() == old(self).capacity(),
            old(self).used() + args@.len() + 1 >= old(self).capacity() ==> r == Err::<
                (),
                FlushingError<E>,
            >(FlushingError::BufferOverflow),
            old(self).used() + args@.len() + 1 < old(self).capacity() && old(self).pending().len()
                == MAX_OPS ==> r == Err::<(), FlushingError<E>>(
                FlushingError::MaxOperationsReached,
            ),
            old(self).used() + args@.len() + 1 < old(self).capacity() && old(self).pending().len()
                < MAX_OPS ==> r is Ok,
            r is Ok ==> final(self).pending() == old(self).pending().push(
                Transfer::Command { instruction: command, params: args@ },
            ) && final(self).used() == old(self).used() + args@.len() + 1,
            r is Err ==> final(self).pending() == old(self).pending() && final(self).used() == old(
                self,
            ).used(),
    {
        proof {
            use_type_invariant(&*self);
        }
        let len = self.buffer.len();
        if self.index >= len || args.len() >= len - self.index - 1 {
            return Err(FlushingError::BufferOverflow);
        }
        if self.ops.len() >= MAX_OPS {
            return Err(FlushingError::MaxOperationsReached);
        }
        let start = self.index;
        let ghost before = self.buffer@;
        self.buffer[start] = command;
        let mut j: usize = 0;
        while j < args.len()
            invariant
                start + 1 + args@.len() < len,
                self.buffer@.len() == len,
                self.buffer@[start as int] == command,
                forall|t: int| 0 <= t < start ==> self.buffer@[t] == before[t],
                forall|t: int| 0 <= t < j ==> self.buffer@[start + 1 + t] == args@[t],
                self.index == start,
                self.ops == old(self).ops,
                before == old(self).buffer@,
                self.layout(),
            decreases args@.len() - j,
        {
            self.buffer[start + 1 + j] = args[j];
            j = j + 1;
        }
        let op = Chunk::Command(start, args.len());
        let ghost t = Transfer::Command { instruction: command, params: args@ };
        proof {
            assert(self.buffer@.subrange(start + 1, start + 1 + args@.len()) =~= args@);
            pending_untouched(self.ops@, before, self.buffer@, start as int);
        }
        self.keep(op, start + 1 + args.len(), Ghost(t));
        Ok(())
    }

    /// Keeps the words of a run of pixels.
    fn push_pixels<const N: usize, E>(&mut self, pixels: &[[u8; N]]) -> (r: Result<
        (),
        FlushingError<E>,
    >)
        ensures
            final(self).capacity() == old(self).capacity(),
            old(self).used() + pixel_words(pixels@).len() > old(self).capacity() ==> r == Err::<
                (),
                FlushingError<E>,
            >(FlushingError::BufferOverflow),
            old(self).used() + pixel_words(pixels@).len() <= old(self).capacity() && old(
                self,
            ).pending().len() == MAX_OPS ==> r == Err::<(), FlushingError<E>>(
                FlushingError::MaxOperationsReached,
            ),
            old(self).used() + pixel_words(pixels@).len() <= old(self).capacity() && old(
                self,
            ).pending().len() < MAX_OPS ==> r is Ok,
            r is Ok ==> final(self).pending() == old(self).pending().push(
                Transfer::Pixels { words: pixel_words(pixels@) },
            ) && final(self).used() == old(self).used() + pixel_words(pixels@).len(),
            r is Err ==> final(self).pending() == old(self).pending() && final(self).used() == old(
                self,
            ).used(),
    {
        proof {
            use_type_invariant(&*self);
        }
        let len = self.buffer.len();
        let index = self.index;
        let ghost before = self.buffer@;
        let ghost old_pending = self.pending();
        let mut bytes: usize = 0;
        let mut k: usize = 0;
        while k < pixels.len()
            invariant
                index <= len,
                self.buffer@.len() == len,
                index + bytes <= len,
                k <= pixels@.len(),
                bytes == pixel_words(pixels@.take(k as int)).len(),
                before.len() == len,
                index == old(self).index,
                self.buffer@.subrange(index as int, index + bytes) == pixel_words(
                    pixels@.take(k as int),
                ),
                forall|t: int| 0 <= t < index ==> self.buffer@[t] == before[t],
                self.index == index,
                self.ops == old(self).ops,
                before == old(self).buffer@,
                old_pending == old(self).pending(),
                self.layout(),
            decreases pixels@.len() - k,
        {
            let pixel = pixels[k];
            let ghost row_start = self.buffer@;
            let mut j: usize = 0;
            while j < N
                invariant
                    j <= N,
                    index <= len,
                    self.buffer@.len() == len,
                    index + bytes + j <= len,
                    k < pixels@.len(),
                    pixel == pixels@[k as int],
                    bytes == pixel_words(pixels@.take(k as int)).len(),
                    before.len() == len,
                    index == old(self).index,
                    self.buffer@.subrange(index as int, index + bytes) == row_start.subrange(
                        index as int,
                        index + bytes,
                    ),
                    forall|t: int| 0 <= t < index ==> self.buffer@[t] == row_start[t],
                    forall|t: int| 0 <= t < index ==> row_start[t] == before[t],
                    forall|t: int| 0 <= t < j ==> self.buffer@[index + bytes + t] == pixel@[t],
                    self.index == index,
                    self.ops == old(self).ops,
                    before == old(self).buffer@,
                    old_pending == old(self).pending(),
                    self.layout(),
                decreases N - j,
            {
                if index + bytes + j >= len {
                    proof {
                        pixel_words_take_grows(pixels@, k as int);
                        pending_untouched(self.ops@, before, self.buffer@, index as int);
                    }
                    return Err(FlushingError::BufferOverflow);
                }
                self.buffer[index + bytes + j] = pixel[j];
                j = j + 1;
            }
            proof {
                pixel_words_push(pixels@.take(k as int), pixel);
                assert(pixels@.take(k + 1) =~= pixels@.take(k as int).push(pixel));
                assert(self.buffer@.subrange(index as int, index + bytes + N) =~= row_start.subrange(
                    index as int,
                    index + bytes,
                ) + pixel@);
            }
            bytes = bytes + N;
            k = k + 1;
        }
        proof {
            assert(pixels@.take(pixels@.len() as int) =~= pixels@);
            pending_untouched(self.ops@, before, self.buffer@, index as int);
        }
        if self.ops.len() >= MAX_OPS {
            return Err(FlushingError::MaxOperationsReached);
        }
        let op = Chunk::Pixels(index, bytes);
        let ghost t = Transfer::Pixels { words: pixel_words(pixels@) };
        self.keep(op, index + bytes, Ghost(t));
        Ok(())
    }

    /// Keeps a pixel that is to be repeated `count` times.
    fn push_repeated<const N: usize, E>(&mut self, pixel: [u8; N], count: u32) -> (r: Result<
        (),
        FlushingError<E>,
    >)
        ensures
            final(self).capacity() == old(self).capacity(),
            old(self).used() + N >= old(self).capacity() ==> r == Err::<(), FlushingError<E>>(
                FlushingError::BufferOverflow,
            ),
            old(self).used() + N < old(self).capacity() && old(self).pending().len() == MAX_OPS
                ==> r == Err::<(), FlushingError<E>>(FlushingError::MaxOperationsReached),
            old(self).used() + N < old(self).capacity() && old(self).pending().len() < MAX_OPS
                ==> r is Ok,
            r is Ok ==> final(self).pending() == old(self).pending().push(
                Transfer::RepeatedPixel { pixel: pixel@, count },
            ) && final(self).used() == old(self).used() + N,
            r is Err ==> final(self).pending() == old(self).pending() && final(self).used() == old(
                self,
            ).used(),
    {
        proof {
            use_type_invariant(&*self);
        }
        let len = self.buffer.len();
        if self.index >= len || N >= len - self.index {
            return Err(FlushingError::BufferOverflow);
        }
        if self.ops.len() >= MAX_OPS {
            return Err(FlushingError::MaxOperationsReached);
        }
        let start = self.index;
        let ghost before = self.buffer@;
        let mut j: usize = 0;
        while j < N
            invariant
                start + N < len,
                self.buffer@.len() == len,
                forall|t: int| 0 <= t < start ==> self.buffer@[t] == before[t],
                forall|t: int| 0 <= t < j ==> self.buffer@[start + t] == pixel@[t],
                self.index == start,
                self.ops == old(self).ops,
                before == old(self).buffer@,
                self.layout(),
            decreases N - j,
        {
            self.buffer[start + j] = pixel[j];
            j = j + 1;
        }
        let op = Chunk::Repeat(start, N, count);
        let ghost t = Transfer::RepeatedPixel { pixel: pixel@, count };
        proof {
            assert(self.buffer@.subrange(start as int, start + N) =~= pixel@);
            pending_untouched(self.ops@, before, self.buffer@, start as int);
        }
        self.keep(op, start + N, Ghost(t));
        Ok(())
    }

    /// The number of kept operations.
    fn op_count(&self) -> (n: usize)
        ensures
            n == self.pending().len(),
    {
        self.ops.len()
    }

    /// A view of the `k`-th kept operation, oldest first.
    fn op_at(&self, k: usize) -> (v: OpView<'_>)
        requires
            k < self.pending().len(),
        ensures
            view_transfer(v) == self.pending()[k as int],
    {
        proof {
            use_type_invariant(self);
        }
        let buf: &[u8] = &*self.buffer;
        match self.ops[k] {
            Chunk::Command(i, n) => {
                let args = vstd::slice::slice_subrange(buf, i + 1, i + 1 + n);
                OpView::Command(buf[i], args)
            },
            Chunk::Pixels(i, n) => OpView::Pixels(vstd::slice::slice_subrange(buf, i, i + n)),
            Chunk::Repeat(i, n, count) => OpView::Repeat(
                vstd::slice::slice_subrange(buf, i, i + n),
                count,
            ),
        }
    }

    /// Forgets the oldest `n` kept operations.
    fn discard(&mut self, n: usize)
        requires
            n <= old(self).pending().len(),
        ensures
            final(self).capacity() == old(self).capacity(),
            final(self).used() == old(self).used(),
            final(self).pending() == old(self).pending().skip(n as int),
    {
        proof {
            use_type_invariant(&*self);
        }
        let ghost old_pending = self.pending();
        let rest = vstd::slice::slice_to_vec(
            vstd::slice::slice_subrange(self.ops.as_slice(), n, self.ops.len()),
        );
        self.ops = rest;
        assert(self.pending() =~= old_pending.skip(n as int));
    }

    /// Forgets all kept operations and frees the buffer.
    fn clear(&mut self)
        ensures
            final(self).capacity() == old(self).capacity(),
            final(self).used() == 0,
            final(self).pending() == Seq::<Transfer<u8>>::empty(),
    {
        proof {
            use_type_invariant(&*self);
        }
        self.ops = Vec::new();
        self.index = 0;
        assert(self.pending() =~= Seq::<Transfer<u8>>::empty());
    }
}

///
/// Interface that uses user provided buffer to store operations data
/// that will be sent to the display.
///
/// Its [`Interface::transfers`] are those asked of it, in order. Commands and
/// pixels are kept in the buffer, at most `MAX_OPS` of them, until
/// [`FlushingInterface::flush`] sends them on; see
/// [`BufferedInterface::delivered_in_order`]. Raw pixel data is sent on at once.
///
pub struct BufferedInterface<'buffer, DI: Interface, const MAX_OPS: usize> {
    di: DI,
    ops: OpBuffer<'buffer, MAX_OPS>,
    asked: Ghost<Seq<Transfer<u8>>>,
    returned: Ghost<Seq<FlushingError<DI::Error>>>,
}

/// A call that was refused before it carried out anything.
proof fn refused<W, E>(transfers: Seq<Transfer<W>>, errors: Seq<E>, t: Transfer<W>, e: E)
    ensures
        call_outcome(transfers, transfers, errors, errors.push(e), false, false, seq![t], Err(e)),
{
    assert(transfers + seq![t].take(0) =~= transfers);
}

impl<'buffer, DI: Interface, const MAX_OPS: usize> BufferedInterface<'buffer, DI, MAX_OPS> {
    /// The interface that the operations are sent on to.
    pub closed spec fn inner(&self) -> DI {
        self.di
    }

    /// The transfers kept in the buffer, oldest first.
    pub closed spec fn pending(&self) -> Seq<Transfer<u8>> {
        self.ops.pending()
    }

    /// The number of bytes of the buffer that the kept transfers use.
    pub closed spec fn used(&self) -> nat {
        self.ops.used()
    }

    /// The size of the buffer.
    pub closed spec fn capacity(&self) -> nat {
        self.ops.capacity()
    }

    /// The transfers asked of this interface, in order.
    pub closed spec fn asked(&self) -> Seq<Transfer<u8>> {
        self.asked@
    }

    /// At most `MAX_OPS` transfers are kept, and their bytes lie in the buffer.
    pub open spec fn within_limits(&self) -> bool {
        self.pending().len() <= MAX_OPS && self.used() <= self.capacity()
    }

    ///
    /// Create new [BufferedInterface] with a given [Interface] to send buffer
    /// contents to the display and user provided &[u8] buffer to store them.
    ///
    pub fn new(di: DI, buffer: &'buffer mut [u8]) -> (r: Self)
        where
            DI: Interface<Word = u8>,
        ensures
            r.inner() == di,
            r.pending() == Seq::<Transfer<u8>>::empty(),
            r.used() == 0,
            r.capacity() == old(buffer)@.len(),
            r.within_limits(),
            r.asked() == di.transfers(),
            r.transfers() == di.transfers(),
            r.errors() == Seq::<FlushingError<DI::Error>>::empty(),
    {
        Self {
            di,
            ops: OpBuffer::new(buffer),
            asked: Ghost(di.transfers()),
            returned: Ghost(Seq::empty()),
        }
    }

    /// Whether the inner interface, once the kept transfers are sent on, will
    /// have got the transfers asked of this one, in order.
    pub open spec fn delivered_in_order(&self) -> bool
        where
            DI: Interface<Word = u8>,
    {
        self.inner().transfers() + self.pending() == self.asked()
    }
}

impl<'buffer, DI: Interface<Word = u8>, const MAX_OPS: usize> BufferedInterface<
    'buffer,
    DI,
    MAX_OPS,
> {
    /// What a successful buffered call with transfer `t` did: `t` is asked of
    /// the interface and kept as the newest pending transfer, and the inner
    /// interface is left as it was.
    pub open spec fn kept_call(self, after: Self, t: Transfer<u8>) -> bool {
        &&& after.inner() == self.inner()
        &&& after.pending() == self.pending().push(t)
        &&& after.transfers() == self.transfers().push(t)
    }

    /// What a successful flush did: the inner interface got the pending
    /// transfers, oldest first, and the buffer is empty and free.
    pub open spec fn flushed_into(self, after: Self) -> bool {
        &&& after.inner().transfers() == self.inner().transfers() + self.pending()
        &&& after.pending() == Seq::<Transfer<u8>>::empty()
        &&& after.used() == 0
        &&& after.transfers() == self.transfers()
    }

    /// Law: a flush that succeeds after buffered calls made while nothing was
    /// pending sends the transfers of those calls on to the inner interface,
    /// in the order the calls were made, and leaves the buffer empty.
    pub proof fn flush_replays_calls(states: Seq<Self>, calls: Seq<Transfer<u8>>, flushed: Self)
        requires
            states.len() == calls.len() + 1,
            states[0].pending().len() == 0,
            forall|i: int|
                0 <= i < calls.len() ==> #[trigger] states[i].kept_call(states[i + 1], calls[i]),
            states.last().flushed_into(flushed),
        ensures
            flushed.inner().transfers() == states[0].inner().transfers() + calls,
            flushed.pending().len() == 0,
            flushed.used() == 0,
    {
        Self::calls_kept_in_order(states, calls, calls.len() as int);
        assert(calls.take(calls.len() as int) =~= calls);
    }

    /// After the first `j` buffered calls, their transfers are pending in order
    /// and the inner interface is untouched.
    proof fn calls_kept_in_order(states: Seq<Self>, calls: Seq<Transfer<u8>>, j: int)
        requires
            states.len() == calls.len() + 1,
            states[0].pending().len() == 0,
            forall|i: int|
                0 <= i < calls.len() ==> #[trigger] states[i].kept_call(states[i + 1], calls[i]),
            0 <= j <= calls.len(),
        ensures
            states[j].pending() == calls.take(j),
            states[j].inner() == states[0].inner(),
        decreases j,
    {
        if j == 0 {
            assert(states[0].pending() =~= calls.take(0));
        } else {
            Self::calls_kept_in_order(states, calls, j - 1);
            let k = j - 1;
            assert(states[k].kept_call(states[k + 1], calls[k]));
            assert(calls.take(j) =~= calls.take(j - 1).push(calls[j - 1]));
        }
    }
}

impl<DI, const MAX_OPS: usize> Interface for BufferedInterface<'_, DI, MAX_OPS> where
    DI: Interface<Word = u8>,
 {
    type Word = u8;

    type Error = FlushingError<DI::Error>;

    closed spec fn transfers(&self) -> Seq<Transfer<u8>> {
        self.asked@
    }

    closed spec fn errors(&self) -> Seq<FlushingError<DI::Error>> {
        self.returned@
    }

    fn send_command(&mut self, command: u8, args: &[u8]) -> (r: Result<(), Self::Error>)
        ensures
            final(self).inner() == old(self).inner(),
            final(self).capacity() == old(self).capacity(),
            final(self).within_limits(),
            old(self).used() + args@.len() + 1 >= old(self).capacity() ==> r == Err::<
                (),
                Self::Error,
            >(FlushingError::BufferOverflow),
            old(self).used() + args@.len() + 1 < old(self).capacity() && old(self).pending().len()
                == MAX_OPS ==> r == Err::<(), Self::Error>(FlushingError::MaxOperationsReached),
            old(self).used() + args@.len() + 1 < old(self).capacity() && old(self).pending().len()
                < MAX_OPS ==> r is Ok,
            r is Ok ==> final(self).pending() == old(self).pending().push(
                Transfer::Command { instruction: command, params: args@ },
            ) && final(self).used() == old(self).used() + args@.len() + 1,
            r is Err ==> final(self).pending() == old(self).pending() && final(self).used() == old(
                self,
            ).used() && final(self).asked() == old(self).asked(),
            old(self).delivered_in_order() ==> final(self).delivered_in_order(),
            r is Ok ==> old(self).kept_call(*final(self), Transfer::Command { instruction: command, params: args@ }),
    {
        let ghost t = Transfer::Command { instruction: command, params: args@ };
        let r = self.ops.push_command(command, args);
        proof {
            use_type_invariant(&self.ops);
        }
        match r {
            Ok(()) => {
                let ghost asked = self.asked@.push(t);
                assert(asked =~= old(self).asked@ + seq![t]);
                self.asked = Ghost(asked);
                Ok(())
            },
            Err(e) => {
                let ghost returned = self.returned@.push(e);
                proof {
                    refused(self.asked@, self.returned@, t, e);
                }
                self.returned = Ghost(returned);
                Err(e)
            },
        }
    }

    fn send_pixels<const N: usize>(&mut self, pixels: &[[u8; N]]) -> (r: Result<(), Self::Error>)
        ensures
            final(self).inner() == old(self).inner(),
            final(self).capacity() == old(self).capacity(),
            final(self).within_limits(),
            old(self).used() + pixel_words(pixels@).len() > old(self).capacity() ==> r == Err::<
                (),
                Self::Error,
            >(FlushingError::BufferOverflow),
            old(self).used() + pixel_words(pixels@).len() <= old(self).capacity() && old(
                self,
            ).pending().len() == MAX_OPS ==> r == Err::<(), Self::Error>(
                FlushingError::MaxOperationsReached,
            ),
            old(self).used() + pixel_words(pixels@).len() <= old(self).capacity() && old(
                self,
            ).pending().len() < MAX_OPS ==> r is Ok,
            r is Ok ==> final(self).pending() == old(self).pending().push(
                Transfer::Pixels { words: pixel_words(pixels@) },
            ) && final(self).used() == old(self).used() + pixel_words(pixels@).len(),
            r is Err ==> final(self).pending() == old(self).pending() && final(self).used() == old(
                self,
            ).used() && final(self).asked() == old(self).asked(),
            old(self).delivered_in_order() ==> final(self).delivered_in_order(),
            r is Ok ==> old(self).kept_call(*final(self), Transfer::Pixels { words: pixel_words(pixels@) }),
    {
        let ghost t = Transfer::Pixels { words: pixel_words(pixels@) };
        let r = self.ops.push_pixels(pixels);
        proof {
            use_type_invariant(&self.ops);
        }
        match r {
            Ok(()) => {
                let ghost asked = self.asked@.push(t);
                assert(asked =~= old(self).asked@ + seq![t]);
                self.asked = Ghost(asked);
                Ok(())
            },
            Err(e) => {
                let ghost returned = self.returned@.push(e);
                proof {
                    refused(self.asked@, self.returned@, t, e);
                }
                self.returned = Ghost(returned);
                Err(e)
            },
        }
    }

    fn send_pixels_from_buffer(&mut self, pixels: &[u8]) -> (r: Result<(), Self::Error>)
        ensures
            final(self).pending() == old(self).pending(),
            final(self).used() == old(self).used(),
            final(self).capacity() == old(self).capacity(),
            final(self).within_limits() == old(self).within_limits(),
            old(self).inner().infallible() ==> r is Ok && final(self).inner().infallible(),
            r is Ok ==> final(self).inner().transfers() == old(self).inner().transfers().push(
                Transfer::Pixels { words: pixels@ },
            ) && final(self).inner().errors() == old(self).inner().errors(),
            r is Err ==> final(self).asked() == old(self).asked() && final(self).inner().transfers()
                == old(self).inner().transfers(),
            r matches Err(e) ==> e matches FlushingError::Underlaying(ie)
                && final(self).inner().errors() == old(self).inner().errors().push(ie),
            r is Ok && old(self).delivered_in_order() && old(self).pending().len() == 0
                ==> final(self).delivered_in_order(),
    {
        let ghost t = Transfer::Pixels { words: pixels@ };
        let ghost inner_before = self.di.transfers();
        match self.di.send_pixels_from_buffer(pixels) {
            Ok(()) => {
                let ghost asked = self.asked@.push(t);
                assert(asked =~= old(self).asked@ + seq![t]);
                assert(self.di.transfers() =~= inner_before.push(t));
                self.asked = Ghost(asked);
                Ok(())
            },
            Err(e) => {
                assert(self.di.transfers() =~= inner_before) by {
                    assert(seq![t].take(0) =~= Seq::<Transfer<u8>>::empty());
                    assert(inner_before + Seq::<Transfer<u8>>::empty() =~= inner_before);
                }
                let err = FlushingError::Underlaying(e);
                let ghost returned = self.returned@.push(err);
                proof {
                    refused(self.asked@, self.returned@, t, err);
                }
                self.returned = Ghost(returned);
                Err(err)
            },
        }
    }

    fn send_repeated_pixel<const N: usize>(&mut self, pixel: [u8; N], count: u32) -> (r: Result<
        (),
        Self::Error,
    >)
        ensures
            final(self).inner() == old(self).inner(),
            final(self).capacity() == old(self).capacity(),
            final(self).within_limits(),
            old(self).used() + N >= old(self).capacity() ==> r == Err::<(), Self::Error>(
                FlushingError::BufferOverflow,
            ),
            old(self).used() + N < old(self).capacity() && old(self).pending().len() == MAX_OPS
                ==> r == Err::<(), Self::Error>(FlushingError::MaxOperationsReached),
            old(self).used() + N < old(self).capacity() && old(self).pending().len() < MAX_OPS
                ==> r is Ok,
            r is Ok ==> final(self).pending() == old(self).pending().push(
                Transfer::RepeatedPixel { pixel: pixel@, count },
            ) && final(self).used() == old(self).used() + N,
            r is Err ==> final(self).pending() == old(self).pending() && final(self).used() == old(
                self,
            ).used() && final(self).asked() == old(self).asked(),
            old(self).delivered_in_order() ==> final(self).delivered_in_order(),
            r is Ok ==> old(self).kept_call(*final(self), Transfer::RepeatedPixel { pixel: pixel@, count }),
    {
        let ghost t = Transfer::RepeatedPixel { pixel: pixel@, count };
        let r = self.ops.push_repeated(pixel, count);
        proof {
            use_type_invariant(&self.ops);
        }
        match r {
            Ok(()) => {
                let ghost asked = self.asked@.push(t);
                assert(asked =~= old(self).asked@ + seq![t]);
                self.asked = Ghost(asked);
                Ok(())
            },
            Err(e) => {
                let ghost returned = self.returned@.push(e);
                proof {
                    refused(self.asked@, self.returned@, t, e);
                }
                self.returned = Ghost(returned);
                Err(e)
            },
        }
    }

    fn send_repeated_pixel_raw(&mut self, pixel_data: &[u8], count: u32) -> (r: Result<
        (),
        Self::Error,
    >)
        ensures
            final(self).pending() == old(self).pending(),
            final(self).used() == old(self).used(),
            final(self).capacity() == old(self).capacity(),
            final(self).within_limits() == old(self).within_limits(),
            old(self).inner().infallible() ==> r is Ok && final(self).inner().infallible(),
            r is Ok ==> final(self).inner().transfers() == old(self).inner().transfers().push(
                Transfer::RepeatedPixel { pixel: pixel_data@, count },
            ) && final(self).inner().errors() == old(self).inner().errors(),
            r is Err ==> final(self).asked() == old(self).asked() && final(self).inner().transfers()
                == old(self).inner().transfers(),
            r matches Err(e) ==> e matches FlushingError::Underlaying(ie)
                && final(self).inner().errors() == old(self).inner().errors().push(ie),
            r is Ok && old(self).delivered_in_order() && old(self).pending().len() == 0
                ==> final(self).delivered_in_order(),
    {
        let ghost t = Transfer::RepeatedPixel { pixel: pixel_data@, count };
        let ghost inner_before = self.di.transfers();
        match self.di.send_repeated_pixel_raw(pixel_data, count) {
            Ok(()) => {
                let ghost asked = self.asked@.push(t);
                assert(asked =~= old(self).asked@ + seq![t]);
                assert(self.di.transfers() =~= inner_before.push(t));
                self.asked = Ghost(asked);
                Ok(())
            },
            Err(e) => {
                assert(self.di.transfers() =~= inner_before) by {
                    assert(seq![t].take(0) =~= Seq::<Transfer<u8>>::empty());
                    assert(inner_before + Seq::<Transfer<u8>>::empty() =~= inner_before);
                }
                let err = FlushingError::Underlaying(e);
                let ghost returned = self.returned@.push(err);
                proof {
                    refused(self.asked@, self.returned@, t, err);
                }
                self.returned = Ghost(returned);
                Err(err)
            },
        }
    }
}

impl<DI, const MAX_OPS: usize> FlushingInterface for BufferedInterface<'_, DI, MAX_OPS> where
    DI: Interface<Word = u8>,
 {
    /// Sends the kept transfers on, oldest first. Where the inner interface
    /// refuses one, its error is returned: the transfers before it were sent
    /// on and are no longer kept, the refused one is dropped, the later ones
    /// stay kept, and the buffer is not freed.
    fn flush(&mut self) -> (r: Result<(), Self::Error>)
        ensures
            final(self).asked() == old(self).asked(),
            final(self).capacity() == old(self).capacity(),
            final(self).within_limits(),
            old(self).inner().infallible() ==> r is Ok && final(self).inner().infallible(),
            r is Ok ==> final(self).inner().transfers() == old(self).inner().transfers() + old(
                self,
            ).pending() && final(self).inner().errors() == old(self).inner().errors(),
            r is Ok ==> final(self).pending() == Seq::<Transfer<u8>>::empty() && final(self).used()
                == 0,
            r is Ok && old(self).delivered_in_order() ==> final(self).delivered_in_order(),
            r is Ok ==> old(self).flushed_into(*final(self)),
            r is Err ==> final(self).used() == old(self).used() && exists|k: int|
                0 <= k < old(self).pending().len() && final(self).pending() == old(
                    self,
                ).pending().skip(k + 1) && final(self).inner().transfers() == old(
                    self,
                ).inner().transfers() + #[trigger] old(self).pending().take(k),
            r matches Err(e) ==> e matches FlushingError::Underlaying(ie)
                && final(self).inner().errors() == old(self).inner().errors().push(ie),
    {
        let n = self.ops.op_count();
        let ghost pending = self.ops.pending();
        let ghost inner_before = self.di.transfers();
        let mut k: usize = 0;
        while k < n
            invariant
                n == pending.len(),
                k <= n,
                pending == old(self).pending(),
                self.ops == old(self).ops,
                self.asked == old(self).asked,
                self.returned == old(self).returned,
                inner_before == old(self).di.transfers(),
                self.di.transfers() == inner_before + pending.take(k as int),
                self.di.errors() == old(self).di.errors(),
                old(self).di.infallible() ==> self.di.infallible(),
            decreases n - k,
        {
            let ghost sent_before = self.di.transfers();
            let ghost t = pending[k as int];
            let res = match self.ops.op_at(k) {
                OpView::Command(c, args) => self.di.send_command(c, args),
                OpView::Pixels(bytes) => self.di.send_pixels_from_buffer(bytes),
                OpView::Repeat(bytes, count) => self.di.send_repeated_pixel_raw(bytes, count),
            };
            match res {
                Ok(()) => {},
                Err(e) => {
                    assert(self.di.transfers() =~= inner_before + pending.take(k as int)) by {
                        assert(seq![t].take(0) =~= Seq::<Transfer<u8>>::empty());
                        assert(sent_before + Seq::<Transfer<u8>>::empty() =~= sent_before);
                    }
                    self.ops.discard(k + 1);
                    proof {
                        use_type_invariant(&self.ops);
                    }
                    let err = FlushingError::Underlaying(e);
                    let ghost returned = self.returned@.push(err);
                    self.returned = Ghost(returned);
                    return Err(err);
                },
            }
            proof {
                assert(pending.take(k + 1) =~= pending.take(k as int).push(pending[k as int]));
                assert(self.di.transfers() =~= inner_before + pending.take(k + 1));
            }
            k = k + 1;
        }
        proof {
            assert(pending.take(n as int) =~= pending);
        }
        self.ops.clear();
        proof {
            use_type_invariant(&self.ops);
        }
        Ok(())
    }
}

/// The words of more pixels are at least as many.
proof fn pixel_words_take_grows<const N: usize>(pixels: Seq<[u8; N]>, k: int)
    requires
        0 <= k < pixels.len(),
    ensures
        pixel_words(pixels).len() >= pixel_words(pixels.take(k)).len() + N,
    decreases pixels.len() - k,
{
    pixel_words_push(pixels.take(k), pixels[k]);
    assert(pixels.take(k + 1) =~= pixels.take(k).push(pixels[k]));
    if k + 1 < pixels.len() {
        pixel_words_take_grows(pixels, k + 1);
    } else {
        assert(pixels.take(k + 1) =~= pixels);
    }
}

/// Writes at or after `index` leave the transfers of operations that end by
/// `index` as they were.
proof fn pending_untouched(ops: Seq<Chunk>, before: Seq<u8>, after: Seq<u8>, index: int)
    requires
        forall|k: int| 0 <= k < ops.len() ==> chunk_end(#[trigger] ops[k]) <= index,
        index <= before.len(),
        before.len() == after.len(),
        forall|t: int| 0 <= t < index ==> after[t] == before[t],
    ensures
        ops.map_values(|c: Chunk| decode(c, after)) == ops.map_values(|c: Chunk| decode(c, before)),
{
    assert forall|k: int| 0 <= k < ops.len() implies decode(#[trigger] ops[k], after) == decode(
        ops[k],
        before,
    ) by {
        match ops[k] {
            Chunk::Command(i, n) => {
                assert(after.subrange(i + 1, i + 1 + n) =~= before.subrange(i + 1, i + 1 + n));
            },
            Chunk::Pixels(i, n) => {
                assert(after.subrange(i as int, i + n) =~= before.subrange(i as int, i + n));
            },
            Chunk::Repeat(i, n, _) => {
                assert(after.subrange(i as int, i + n) =~= before.subrange(i as int, i + n));
            },
        }
    }
    assert(ops.map_values(|c: Chunk| decode(c, after)) =~= ops.map_values(
        |c: Chunk| decode(c, before),
    ));
}

} // verus!
