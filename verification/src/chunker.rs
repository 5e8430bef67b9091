//! The pixel chunker: a pixel buffer cut into bursts that fit one transfer.
//!
//! A frame's bytes form one pixel stream. The bus moves at most a fixed
//! number of bytes per transaction, so the stream goes out as a row of
//! bursts: windows of `chunk` bytes, the last one possibly shorter. The first
//! burst is addressed to "memory write", which resets the controller's write
//! pointer; every later one to "memory write continue".
//!
//! [`bursts`] is the mathematical row of bursts of a buffer. [`PixelStream`]
//! walks it: the caller performs each transaction it is handed and reports
//! how it went.

use vstd::prelude::*;
use vstd::arithmetic::div_mod::lemma_fundamental_div_mod_converse;
use vstd::slice::slice_subrange;
use crate::commands::{RAMWR, RAMWRC};
use crate::transaction::{Frame, Transaction, TransactionView, lemma_command_address, pixel_frame};

verus! {

/// Place of a burst in its stream.
#[derive(Clone, Copy, Debug, PartialEq, Eq, Structural)]
pub enum BurstRole {
    /// The burst that opens the stream.
    First,
    /// Any burst after the first.
    Continuation,
}

/// The role of the burst at `index`: a function of the position alone.
pub open spec fn role_at(index: nat) -> BurstRole {
    if index == 0 {
        BurstRole::First
    } else {
        BurstRole::Continuation
    }
}

/// The controller command that a burst of the given role is addressed to.
pub open spec fn role_command(role: BurstRole) -> u8 {
    match role {
        BurstRole::First => RAMWR,
        BurstRole::Continuation => RAMWRC,
    }
}

impl BurstRole {
    /// Role of the burst at `index`.
    pub fn at(index: usize) -> (role: BurstRole)
        ensures
            role == role_at(index as nat),
    {
        if index == 0 {
            BurstRole::First
        } else {
            BurstRole::Continuation
        }
    }

    /// Controller command that a burst of this role is addressed to.
    pub fn command(self) -> (cmd: u8)
        ensures
            cmd == role_command(self),
    {
        match self {
            BurstRole::First => RAMWR,
            BurstRole::Continuation => RAMWRC,
        }
    }
}

/// Number of bursts that `len` bytes take with bursts of at most `chunk`
/// bytes: `len / chunk`, rounded up.
pub open spec fn burst_count(len: nat, chunk: nat) -> nat
    recommends
        chunk > 0,
{
    if len % chunk == 0 {
        len / chunk
    } else {
        len / chunk + 1
    }
}

/// Whether `count` windows of `chunk` bytes reach over `len` bytes.
pub open spec fn covers(len: nat, chunk: nat, count: nat) -> bool {
    len <= count * chunk
}

/// Offset of the first byte of burst `index`.
pub open spec fn burst_start(chunk: nat, index: nat) -> nat {
    index * chunk
}

/// Offset one past the last byte of burst `index`: a full window further, or
/// the end of the buffer where that comes first.
pub open spec fn burst_end(len: nat, chunk: nat, index: nat) -> nat {
    if burst_start(chunk, index) + chunk < len {
        burst_start(chunk, index) + chunk
    } else {
        len
    }
}

/// The transaction that carries burst `index` of `pixels`.
pub open spec fn burst(pixels: Seq<u8>, chunk: nat, index: nat) -> TransactionView {
    TransactionView {
        frame: pixel_frame(role_command(role_at(index))),
        payload: pixels.subrange(
            burst_start(chunk, index) as int,
            burst_end(pixels.len(), chunk, index) as int,
        ),
    }
}

/// The transactions that carry `pixels`, in the order in which they go out.
pub open spec fn bursts(pixels: Seq<u8>, chunk: nat) -> Seq<TransactionView> {
    Seq::new(burst_count(pixels.len(), chunk), |i: int| burst(pixels, chunk, i as nat))
}

/// The payloads of the first `n` transactions of `row`, joined end to end.
pub open spec fn joined_payloads(row: Seq<TransactionView>, n: nat) -> Seq<u8>
    decreases n,
{
    if n == 0 {
        Seq::empty()
    } else {
        joined_payloads(row, (n - 1) as nat) + row[n - 1].payload
    }
}

/// Quotient and remainder of `len` by `chunk`, spelled out.
proof fn lemma_quotient_remainder(len: nat, chunk: nat)
    requires
        chunk > 0,
    ensures
        len == (len / chunk) * chunk + len % chunk,
        0 <= len % chunk < chunk,
        0 <= len / chunk <= (len / chunk) * chunk,
        len / chunk == 0 <==> len < chunk,
        len < chunk ==> len % chunk == len,
{
    let q = len / chunk;
    let r = len % chunk;
    assert(len == q * chunk + r && 0 <= r < chunk && 0 <= q) by (nonlinear_arith)
        requires
            q == len / chunk,
            r == len % chunk,
            chunk > 0,
    ;
    assert(q <= q * chunk) by (nonlinear_arith)
        requires
            q >= 0,
            chunk > 0,
    ;
    assert(q >= 1 ==> q * chunk >= chunk) by (nonlinear_arith)
        requires
            chunk > 0,
    ;
    assert(q == 0 ==> q * chunk == 0) by (nonlinear_arith);
}

/// The burst count is the ceiling of `len / chunk`: the least number of
/// windows of `chunk` bytes that reach over `len` bytes. No bytes take no
/// burst, and no buffer takes more bursts than it has bytes.
pub proof fn lemma_burst_count_is_ceiling(len: nat, chunk: nat)
    requires
        chunk > 0,
    ensures
        covers(len, chunk, burst_count(len, chunk)),
        forall|k: nat| #[trigger] covers(len, chunk, k) ==> burst_count(len, chunk) <= k,
        burst_count(len, chunk) == (len + chunk - 1) / (chunk as int),
        burst_count(len, chunk) <= len,
        len == 0 <==> burst_count(len, chunk) == 0,
{
    let q = len / chunk;
    let r = len % chunk;
    lemma_quotient_remainder(len, chunk);
    assert((q + 1) * chunk == q * chunk + chunk) by (nonlinear_arith);
    assert forall|k: nat| #[trigger] covers(len, chunk, k) implies burst_count(len, chunk)
        <= k by {
        if k < burst_count(len, chunk) {
            // `k` windows end before the last byte
            if r == 0 {
                assert(k * chunk <= q * chunk - chunk) by (nonlinear_arith)
                    requires
                        k <= q - 1,
                        chunk > 0,
                ;
            } else {
                assert(k * chunk <= q * chunk) by (nonlinear_arith)
                    requires
                        k <= q,
                        chunk > 0,
                ;
            }
        }
    }
    assert(burst_count(len, chunk) == (len + chunk - 1) / (chunk as int)) by {
        if r == 0 {
            lemma_fundamental_div_mod_converse(
                len + chunk - 1,
                chunk as int,
                q as int,
                chunk - 1,
            );
        } else {
            lemma_fundamental_div_mod_converse(
                len + chunk - 1,
                chunk as int,
                q as int + 1,
                r - 1,
            );
        }
    }
}

/// Where each burst lies: the first starts at the buffer's start, bursts
/// follow one another without gap or overlap, every burst but the last is a
/// full window, none is empty, none is longer than `chunk`, and the last one
/// ends where the buffer ends.
pub proof fn lemma_burst_bounds(len: nat, chunk: nat, index: nat)
    requires
        chunk > 0,
        index < burst_count(len, chunk),
    ensures
        index == 0 ==> burst_start(chunk, index) == 0,
        burst_start(chunk, index) < burst_end(len, chunk, index) <= len,
        burst_end(len, chunk, index) - burst_start(chunk, index) <= chunk,
        index + 1 < burst_count(len, chunk) ==> {
            &&& burst_end(len, chunk, index) == burst_start(chunk, index) + chunk
            &&& burst_end(len, chunk, index) == burst_start(chunk, index + 1)
        },
        index + 1 == burst_count(len, chunk) ==> burst_end(len, chunk, index) == len,
{
    let count = burst_count(len, chunk);
    lemma_burst_count_is_ceiling(len, chunk);
    assert((index + 1) * chunk == index * chunk + chunk) by (nonlinear_arith);
    assert(index == 0 ==> index * chunk == 0) by (nonlinear_arith);
    // fewer than `count` windows do not reach over the buffer
    assert(!covers(len, chunk, index));
    if index + 1 < count {
        assert(!covers(len, chunk, index + 1));
    } else {
        assert(covers(len, chunk, index + 1));
    }
}

/// Every burst but the last carries exactly `chunk` bytes. The last carries
/// what is left: `len % chunk` bytes, or `chunk` where that is zero. So no
/// burst is empty and none is over `chunk` bytes.
pub proof fn lemma_burst_lengths(pixels: Seq<u8>, chunk: nat, index: nat)
    requires
        chunk > 0,
        index < bursts(pixels, chunk).len(),
    ensures
        ({
            let row = bursts(pixels, chunk);
            let carried = row[index as int].payload.len();
            let rest = pixels.len() % chunk;
            &&& index + 1 < row.len() ==> carried == chunk
            &&& index + 1 == row.len() ==> carried == if rest == 0 {
                chunk
            } else {
                rest
            }
            &&& 0 < carried <= chunk
        }),
{
    let len = pixels.len();
    let q = len / chunk;
    let r = len % chunk;
    lemma_burst_bounds(len, chunk, index);
    lemma_quotient_remainder(len, chunk);
    if index + 1 == burst_count(len, chunk) {
        // the last burst starts at the last multiple of `chunk` below `len`
        if r == 0 {
            assert(index * chunk == q * chunk - chunk) by (nonlinear_arith)
                requires
                    index == q - 1,
            ;
        } else {
            assert(index == q);
        }
    }
}

/// The first burst of a stream is addressed to "memory write", every later
/// one to "memory write continue", and the two addresses differ. All bursts
/// go out as pixel transactions: pixel opcode, four data lanes.
pub proof fn lemma_burst_addressing(pixels: Seq<u8>, chunk: nat, index: nat)
    requires
        chunk > 0,
        index < bursts(pixels, chunk).len(),
    ensures
        index == 0 ==> bursts(pixels, chunk)[index as int].frame == pixel_frame(RAMWR),
        index > 0 ==> bursts(pixels, chunk)[index as int].frame == pixel_frame(RAMWRC),
        pixel_frame(RAMWR).address == 0x2C00,
        pixel_frame(RAMWRC).address == 0x3C00,
{
    lemma_command_address(RAMWR);
    lemma_command_address(RAMWRC);
}

/// The bursts carry the buffer: their payloads, joined in order, are the
/// pixel bytes, each byte once.
pub proof fn lemma_bursts_carry_pixels(pixels: Seq<u8>, chunk: nat)
    requires
        chunk > 0,
    ensures
        joined_payloads(bursts(pixels, chunk), bursts(pixels, chunk).len()) == pixels,
{
    let count = burst_count(pixels.len(), chunk);
    lemma_joined_prefix(pixels, chunk, count);
    if count == 0 {
        lemma_burst_count_is_ceiling(pixels.len(), chunk);
        assert(pixels.subrange(0, 0) =~= pixels);
    } else {
        lemma_burst_bounds(pixels.len(), chunk, (count - 1) as nat);
        assert(pixels.subrange(0, pixels.len() as int) =~= pixels);
    }
}

/// The first `n` bursts, joined, are the buffer up to the end of burst `n - 1`.
proof fn lemma_joined_prefix(pixels: Seq<u8>, chunk: nat, n: nat)
    requires
        chunk > 0,
        n <= burst_count(pixels.len(), chunk),
    ensures
        joined_payloads(bursts(pixels, chunk), n) == pixels.subrange(
            0,
            if n == 0 {
                0
            } else {
                burst_end(pixels.len(), chunk, (n - 1) as nat) as int
            },
        ),
    decreases n,
{
    let row = bursts(pixels, chunk);
    if n == 0 {
        assert(joined_payloads(row, n) =~= pixels.subrange(0, 0));
    } else {
        let last = (n - 1) as nat;
        lemma_joined_prefix(pixels, chunk, last);
        lemma_burst_bounds(pixels.len(), chunk, last);
        let start = burst_start(chunk, last) as int;
        let end = burst_end(pixels.len(), chunk, last) as int;
        if last > 0 {
            lemma_burst_bounds(pixels.len(), chunk, (last - 1) as nat);
        }
        assert(joined_payloads(row, last) == pixels.subrange(0, start));
        assert(row[last as int].payload == pixels.subrange(start, end));
        assert(pixels.subrange(0, start) + pixels.subrange(start, end) =~= pixels.subrange(
            0,
            end,
        ));
    }
}

/// What a stream asks of its caller next.
#[derive(Debug, PartialEq, Eq)]
pub enum PixelStep<'a, E> {
    /// Perform this transaction, then report its outcome.
    Send(Transaction<'a>),
    /// The stream is over, with this result.
    Done(Result<(), E>),
}

/// A walk over the bursts of one pixel buffer.
///
/// The stream decides; the caller transfers. Each call of
/// [`advance`](PixelStream::advance) takes the outcome of the transaction
/// handed out before it and answers with the next transaction, or with the
/// result of the whole stream. A stream is made for one buffer and keeps
/// nothing beyond it.
pub struct PixelStream<'a> {
    pixels: &'a [u8],
    chunk: usize,
    issued: usize,
    offset: usize,
}

impl<'a> PixelStream<'a> {
    #[verifier::type_invariant]
    spec fn inv(self) -> bool {
        &&& self.chunk > 0
        &&& self.issued <= burst_count(self.pixels@.len(), self.chunk as nat)
        &&& self.offset == if self.issued == 0 {
            0
        } else {
            burst_end(self.pixels@.len(), self.chunk as nat, (self.issued - 1) as nat)
        }
    }

    /// The bytes of the buffer.
    pub closed spec fn pixels(&self) -> Seq<u8> {
        self.pixels@
    }

    /// The most bytes that one burst carries.
    pub closed spec fn chunk(&self) -> nat {
        self.chunk as nat
    }

    /// Number of bursts handed out so far.
    pub closed spec fn issued(&self) -> nat {
        self.issued as nat
    }

    /// The transactions of the whole stream, handed out or not.
    pub open spec fn bursts(&self) -> Seq<TransactionView> {
        bursts(self.pixels(), self.chunk())
    }

    /// A stream over `pixels` in bursts of at most `chunk` bytes, with no
    /// burst handed out yet.
    pub fn new(pixels: &'a [u8], chunk: usize) -> (stream: Self)
        requires
            chunk > 0,
        ensures
            stream.pixels() == pixels@,
            stream.chunk() == chunk,
            stream.chunk() > 0,
            stream.issued() == 0,
    {
        PixelStream { pixels, chunk, issued: 0, offset: 0 }
    }

    /// Takes the outcome of the last transaction, `Ok(())` where none went
    /// before, and says what comes next.
    ///
    /// A failure ends the stream at once with that very error. After a
    /// success the next burst of [`bursts`] goes out, and when none is left
    /// the stream ends in success: it does so only when every burst has been
    /// handed out. An empty buffer ends in success without a single
    /// transaction. No transaction is empty, and none carries more than the
    /// stream's chunk size.
    pub fn advance<E>(&mut self, outcome: Result<(), E>) -> (step: PixelStep<'a, E>)
        ensures
            final(self).pixels() == old(self).pixels(),
            final(self).chunk() == old(self).chunk(),
            final(self).chunk() > 0,
            final(self).issued() <= final(self).bursts().len(),
            step == PixelStep::<'a, E>::Done(Ok(())) ==> final(self).issued()
                == final(self).bursts().len(),
            step matches PixelStep::Send(t) ==> 0 < t.payload@.len() <= old(self).chunk(),
            match outcome {
                Err(_) => {
                    &&& step == PixelStep::<'a, E>::Done(outcome)
                    &&& final(self).issued() == old(self).issued()
                },
                Ok(_) => if old(self).issued() < old(self).bursts().len() {
                    &&& step matches PixelStep::Send(t)
                    &&& t@ == old(self).bursts()[old(self).issued() as int]
                    &&& final(self).issued() == old(self).issued() + 1
                } else {
                    &&& step == PixelStep::<'a, E>::Done(outcome)
                    &&& final(self).issued() == old(self).issued()
                },
            },
    {
        let len = self.pixels.len();
        proof {
            use_type_invariant(&*self);
            let count = burst_count(len as nat, self.chunk as nat);
            lemma_burst_count_is_ceiling(len as nat, self.chunk as nat);
            if self.issued < count {
                lemma_burst_bounds(len as nat, self.chunk as nat, self.issued as nat);
                lemma_burst_lengths(self.pixels@, self.chunk as nat, self.issued as nat);
            }
            if self.issued > 0 {
                lemma_burst_bounds(len as nat, self.chunk as nat, (self.issued - 1) as nat);
            }
        }
        if outcome.is_ok() && self.offset < len {
            let left = len - self.offset;
            let take = if left < self.chunk {
                left
            } else {
                self.chunk
            };
            let end = self.offset + take;
            let frame = Frame::pixel(BurstRole::at(self.issued).command());
            let payload = slice_subrange(self.pixels, self.offset, end);
            *self = PixelStream {
                pixels: self.pixels,
                chunk: self.chunk,
                issued: self.issued + 1,
                offset: end,
            };
            PixelStep::Send(Transaction { frame, payload })
        } else {
            PixelStep::Done(outcome)
        }
    }
}

} // verus!
