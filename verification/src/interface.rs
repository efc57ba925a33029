//! Connection between the driver and the panel, modeled as a log of bus
//! operations.
//!
//! The physical link is a byte bus gated by a command/data select line, a
//! reset line, a busy input and a delay source. The driver's protocol
//! decisions are recorded here as [`BusOp`] values in issue order; a
//! transport layer drains the log and performs each operation on the real
//! lines. The contracts state exactly which operations each call appends.

use vstd::prelude::*;

verus! {

/// One operation on the panel's bus or control lines, in the order the
/// transport must perform them.
#[derive(Clone, PartialEq, Eq, Debug)]
pub enum BusOp {
    /// Assert command-select and write this opcode byte.
    Command(u8),
    /// Assert data-select and write these payload bytes.
    Data(Vec<u8>),
    /// Assert data-select and write one byte value this many times.
    RepeatData(u8, u32),
    /// Suspend until the busy line reaches its ready level; the flag says
    /// whether busy is asserted low.
    WaitIdle(bool),
    /// Drive the reset line to this level.
    ResetLine(bool),
    /// Pause for this many microseconds.
    DelayUs(u32),
}

/// Mathematical model of one bus operation.
#[verifier::ext_equal]
pub enum BusOpView {
    /// Assert command-select and write this opcode byte.
    Command(u8),
    /// Assert data-select and write these payload bytes.
    Data(Seq<u8>),
    /// Assert data-select and write one byte value this many times.
    RepeatData(u8, u32),
    /// Suspend until the busy line reaches its ready level.
    WaitIdle(bool),
    /// Drive the reset line to this level.
    ResetLine(bool),
    /// Pause for this many microseconds.
    DelayUs(u32),
}

impl View for BusOp {
    type V = BusOpView;

    open spec fn view(&self) -> BusOpView {
        match self {
            BusOp::Command(c) => BusOpView::Command(*c),
            BusOp::Data(d) => BusOpView::Data(d@),
            BusOp::RepeatData(b, n) => BusOpView::RepeatData(*b, *n),
            BusOp::WaitIdle(l) => BusOpView::WaitIdle(*l),
            BusOp::ResetLine(l) => BusOpView::ResetLine(*l),
            BusOp::DelayUs(us) => BusOpView::DelayUs(*us),
        }
    }
}

/// The models of a sequence of recorded operations.
pub open spec fn ops_as_views(s: Seq<BusOp>) -> Seq<BusOpView> {
    s.map(|i: int, op: BusOp| op@)
}

/// The operations a hardware reset issues: reset high, an initial settle,
/// reset low for the hold duration, then reset high with a fixed 200 ms
/// settle. The two delays are explicit parameters; the final settle is a
/// hardware-mandated minimum.
pub open spec fn reset_ops(initial_delay: u32, duration: u32) -> Seq<BusOpView> {
    seq![
        BusOpView::ResetLine(true),
        BusOpView::DelayUs(initial_delay),
        BusOpView::ResetLine(false),
        BusOpView::DelayUs(duration),
        BusOpView::ResetLine(true),
        BusOpView::DelayUs(200_000),
    ]
}

/// The byte sequence split front to back into maximal runs of at most `max`
/// bytes: how a transport must divide one payload that exceeds its largest
/// single transfer.
pub open spec fn chunked(s: Seq<u8>, max: int) -> Seq<Seq<u8>>
    decreases s.len(),
    when max >= 1
{
    if s.len() == 0 {
        Seq::<Seq<u8>>::empty()
    } else if s.len() <= max {
        seq![s]
    } else {
        seq![s.take(max)] + chunked(s.skip(max), max)
    }
}

/// The models of a sequence of chunk vectors.
pub open spec fn chunk_views(s: Seq<Vec<u8>>) -> Seq<Seq<u8>> {
    s.map(|i: int, c: Vec<u8>| c@)
}

/// Splitting is transparent: the chunks concatenated in order are exactly
/// the original bytes, with no reordering and no gaps, and every chunk is
/// nonempty and at most `max` bytes long.
pub proof fn lemma_chunked_transparent(s: Seq<u8>, max: int)
    requires
        max >= 1,
    ensures
        chunked(s, max).flatten() == s,
        forall|k: int|
            0 <= k < chunked(s, max).len() ==> 1 <= (#[trigger] chunked(s, max)[k]).len() <= max,
    decreases s.len(),
{
    let cs = chunked(s, max);
    if s.len() == 0 {
        assert(cs.flatten() =~= s);
    } else if s.len() <= max {
        cs.lemma_flatten_one_element();
        assert(cs.flatten() =~= s);
    } else {
        lemma_chunked_transparent(s.skip(max), max);
        assert(cs.drop_first() =~= chunked(s.skip(max), max));
        assert(cs.flatten() == s.take(max) + chunked(s.skip(max), max).flatten());
        assert(cs.flatten() =~= s);
        assert forall|k: int| 0 <= k < cs.len() implies 1 <= (#[trigger] cs[k]).len() <= max by {
            if k > 0 {
                assert(cs[k] == chunked(s.skip(max), max)[k - 1]);
            }
        }
    }
}

/// Split a payload into transfers of at most `max_chunk` bytes each, in
/// order: exactly the division [`chunked`] describes.
pub fn split_chunks(data: &[u8], max_chunk: usize) -> (r: Vec<Vec<u8>>)
    requires
        max_chunk >= 1,
    ensures
        chunk_views(r@) == chunked(data@, max_chunk as int),
{
    let mut r: Vec<Vec<u8>> = Vec::new();
    let mut i: usize = 0;
    let len = data.len();
    proof {
        assert(data@.skip(0) =~= data@);
        assert(chunk_views(r@) =~= Seq::<Seq<u8>>::empty());
    }
    while i < len
        invariant
            max_chunk >= 1,
            i <= len,
            len == data@.len(),
            chunked(data@, max_chunk as int) == chunk_views(r@) + chunked(
                data@.skip(i as int),
                max_chunk as int,
            ),
        decreases len - i,
    {
        let end = if len - i < max_chunk {
            len
        } else {
            i + max_chunk
        };
        let mut chunk: Vec<u8> = Vec::new();
        let mut j = i;
        proof {
            assert(chunk@ =~= data@.subrange(i as int, i as int));
        }
        while j < end
            invariant
                i <= j <= end <= len,
                len == data@.len(),
                chunk@ == data@.subrange(i as int, j as int),
            decreases end - j,
        {
            let b = *vstd::slice::slice_index_get(data, j);
            chunk.push(b);
            proof {
                assert(chunk@ =~= data@.subrange(i as int, j as int + 1));
            }
            j = j + 1;
        }
        proof {
            let s = data@;
            let mi = max_chunk as int;
            let ii = i as int;
            let e = end as int;
            let rem = s.skip(ii);
            assert(rem.len() == len - ii);
            if len - i < max_chunk {
                assert(chunk@ =~= rem);
            } else {
                assert(rem.take(mi) =~= s.subrange(ii, ii + mi));
                assert(rem.skip(mi) =~= s.skip(e));
                if rem.len() == mi {
                    assert(s.skip(e) =~= Seq::<u8>::empty());
                    assert(chunked(rem, mi) == seq![rem]);
                    assert(chunk@ =~= rem);
                } else {
                    assert(chunked(rem, mi) == seq![rem.take(mi)] + chunked(s.skip(e), mi));
                    assert(chunk@ =~= rem.take(mi));
                }
            }
            assert(chunk_views(r@.push(chunk)) =~= chunk_views(r@).push(chunk@));
        }
        r.push(chunk);
        i = end;
        proof {
            assert(chunked(data@, max_chunk as int) =~= chunk_views(r@) + chunked(
                data@.skip(i as int),
                max_chunk as int,
            ));
        }
    }
    proof {
        assert(data@.skip(len as int) =~= Seq::<u8>::empty());
        assert(chunk_views(r@) =~= chunked(data@, max_chunk as int));
    }
    r
}

/// Recording end of the panel connection: every protocol step the driver
/// takes is appended here, and the transport replays the log in order.
pub struct DisplayInterface {
    ops: Vec<BusOp>,
}

impl DisplayInterface {
    /// The operations issued so far, oldest first.
    pub closed spec fn log(self) -> Seq<BusOpView> {
        ops_as_views(self.ops@)
    }

    /// A fresh connection with an empty log.
    pub fn new() -> (r: DisplayInterface)
        ensures
            r.log() == Seq::<BusOpView>::empty(),
    {
        let r = DisplayInterface { ops: Vec::new() };
        proof {
            assert(r.log() =~= Seq::<BusOpView>::empty());
        }
        r
    }

    /// Record one opcode byte sent in command mode.
    pub fn cmd(&mut self, opcode: u8)
        ensures
            final(self).log() == old(self).log().push(BusOpView::Command(opcode)),
    {
        self.ops.push(BusOp::Command(opcode));
        proof {
            assert(self.log() =~= old(self).log().push(BusOpView::Command(opcode)));
        }
    }

    /// Record a payload sent in data mode.
    pub fn data(&mut self, data: &[u8])
        ensures
            final(self).log() == old(self).log().push(BusOpView::Data(data@)),
    {
        let payload: Vec<u8> = vstd::slice::slice_to_vec(data);
        self.ops.push(BusOp::Data(payload));
        proof {
            assert(self.log() =~= old(self).log().push(BusOpView::Data(data@)));
        }
    }

    /// Record a command followed by its payload.
    pub fn cmd_with_data(&mut self, opcode: u8, data: &[u8])
        ensures
            final(self).log() == old(self).log() + seq![
                BusOpView::Command(opcode),
                BusOpView::Data(data@),
            ],
    {
        self.cmd(opcode);
        self.data(data);
        proof {
            assert(self.log() =~= old(self).log() + seq![
                BusOpView::Command(opcode),
                BusOpView::Data(data@),
            ]);
        }
    }

    /// Record one byte value repeated `repetitions` times in data mode, for
    /// bulk clears without materializing a buffer.
    pub fn data_x_times(&mut self, val: u8, repetitions: u32)
        ensures
            final(self).log() == old(self).log().push(BusOpView::RepeatData(val, repetitions)),
    {
        self.ops.push(BusOp::RepeatData(val, repetitions));
        proof {
            assert(self.log() =~= old(self).log().push(BusOpView::RepeatData(val, repetitions)));
        }
    }

    /// Record a suspension until the busy line reaches its ready level;
    /// `is_busy_low` gives the line's polarity, which differs by panel
    /// revision.
    pub fn wait_until_idle(&mut self, is_busy_low: bool)
        ensures
            final(self).log() == old(self).log().push(BusOpView::WaitIdle(is_busy_low)),
    {
        self.ops.push(BusOp::WaitIdle(is_busy_low));
        proof {
            assert(self.log() =~= old(self).log().push(BusOpView::WaitIdle(is_busy_low)));
        }
    }

    /// Record a pause of `us` microseconds.
    pub fn delay_us(&mut self, us: u32)
        ensures
            final(self).log() == old(self).log().push(BusOpView::DelayUs(us)),
    {
        self.ops.push(BusOp::DelayUs(us));
        proof {
            assert(self.log() =~= old(self).log().push(BusOpView::DelayUs(us)));
        }
    }

    /// Record a hardware reset: the exact line levels and delays of
    /// [`reset_ops`], in order.
    pub fn reset(&mut self, initial_delay: u32, duration: u32)
        ensures
            final(self).log() == old(self).log() + reset_ops(initial_delay, duration),
    {
        self.set_reset_line(true);
        self.delay_us(initial_delay);
        self.set_reset_line(false);
        self.delay_us(duration);
        self.set_reset_line(true);
        self.delay_us(200_000);
        proof {
            assert(self.log() =~= old(self).log() + reset_ops(initial_delay, duration));
        }
    }

    /// Record a level change of the reset line.
    fn set_reset_line(&mut self, level: bool)
        ensures
            final(self).log() == old(self).log().push(BusOpView::ResetLine(level)),
    {
        self.ops.push(BusOp::ResetLine(level));
        proof {
            assert(self.log() =~= old(self).log().push(BusOpView::ResetLine(level)));
        }
    }

    /// Hand the recorded operations to the transport and leave the log
    /// empty.
    pub fn take_ops(&mut self) -> (r: Vec<BusOp>)
        ensures
            ops_as_views(r@) == old(self).log(),
            final(self).log() == Seq::<BusOpView>::empty(),
    {
        let mut taken: Vec<BusOp> = Vec::new();
        core::mem::swap(&mut taken, &mut self.ops);
        proof {
            assert(self.log() =~= Seq::<BusOpView>::empty());
        }
        taken
    }
}

} // verus!
