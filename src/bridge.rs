//! The copy loops of a bridge session: what each does with one read, and
//! how the bytes it forwards relate to the bytes it read.

use vstd::prelude::*;

verus! {

/// The read-half a copy loop drains.
#[derive(Clone, Copy, Debug, PartialEq, Eq, Structural)]
pub enum ReadHalf {
    /// The client's standard input: a zero-length read is retried.
    Stdin,
    /// The server's TCP connection to the forward target: a zero-length
    /// read is end-of-stream.
    Tcp,
    /// The receive-half of the tunnel stream: end-of-stream is reported
    /// apart, and a zero-length chunk is retried.
    Stream,
}

/// What one read on a read-half gave.
#[derive(Debug)]
pub enum ReadOutcome {
    /// No data is available yet and the half has not ended.
    Pending,
    /// The bytes read, possibly none.
    Data(Vec<u8>),
    /// The half has ended.
    End,
    /// The read failed.
    Failed,
}

/// Why a copy loop stopped.
#[derive(Clone, Copy, Debug, PartialEq, Eq, Structural)]
pub enum StopReason {
    EndOfInput,
    ReadFailed,
    WriteFailed,
}

/// What a copy loop does after one read.
#[derive(Debug)]
pub enum Step {
    /// Read again; nothing is written.
    Retry,
    /// Write these bytes in full to the other side and flush, then read
    /// again.
    Forward(Vec<u8>),
    /// The loop is over.
    Stop(StopReason),
}

/// Whether a zero-length read on `half` ends its loop.
pub open spec fn zero_read_ends(half: ReadHalf) -> bool {
    half == ReadHalf::Tcp
}

/// Whether a loop draining `half` stops on the read `r`, and why.
pub open spec fn stop_of(half: ReadHalf, r: ReadOutcome) -> Option<StopReason> {
    match r {
        ReadOutcome::Pending => None,
        ReadOutcome::Data(d) => if d@.len() == 0 && zero_read_ends(half) {
            Some(StopReason::EndOfInput)
        } else {
            None
        },
        ReadOutcome::End => Some(StopReason::EndOfInput),
        ReadOutcome::Failed => Some(StopReason::ReadFailed),
    }
}

/// The bytes a loop forwards for the read `r`, when it does not stop.
pub open spec fn chunk_of(r: ReadOutcome) -> Seq<u8> {
    match r {
        ReadOutcome::Data(d) => d@,
        _ => Seq::empty(),
    }
}

/// The step a loop draining `half` takes on the read `r`.
pub fn decide(half: ReadHalf, r: ReadOutcome) -> (s: Step)
    ensures
        stop_of(half, r) matches Some(why) ==> s == Step::Stop(why),
        stop_of(half, r) is None && chunk_of(r).len() == 0 ==> s is Retry,
        stop_of(half, r) is None && chunk_of(r).len() > 0 ==> (s matches Step::Forward(d)
            && d@ == chunk_of(r)),
        r is Pending ==> s is Retry,
        r matches ReadOutcome::Data(d) && d@.len() == 0 ==> (s is Stop <==> half
            == ReadHalf::Tcp),
        s matches Step::Forward(d) ==> d@.len() > 0,
{
    match r {
        ReadOutcome::Pending => Step::Retry,
        ReadOutcome::Data(d) => {
            if d.len() > 0 {
                Step::Forward(d)
            } else if half == ReadHalf::Tcp {
                Step::Stop(StopReason::EndOfInput)
            } else {
                Step::Retry
            }
        },
        ReadOutcome::End => Step::Stop(StopReason::EndOfInput),
        ReadOutcome::Failed => Step::Stop(StopReason::ReadFailed),
    }
}


/// One direction of a bridge: drains a read-half and writes what it reads
/// to the other side, until a read ends or fails or a write fails.
#[derive(Debug)]
pub struct CopyLoop {
    pub half: ReadHalf,
    /// `None` while the loop runs; why it stopped afterwards.
    pub stopped: Option<StopReason>,
}

impl CopyLoop {
    /// A running loop draining `half`.
    pub fn new(half: ReadHalf) -> (r: CopyLoop)
        ensures
            r.half == half,
            r.stopped is None,
    {
        CopyLoop { half, stopped: None }
    }

    /// Whether the loop still runs.
    pub fn is_running(&self) -> (r: bool)
        ensures
            r == self.stopped is None,
    {
        self.stopped.is_none()
    }

    /// Takes the result of one read and says what to do with it; a step
    /// that stops the loop also records why.
    pub fn on_read(&mut self, r: ReadOutcome) -> (s: Step)
        requires
            old(self).stopped is None,
        ensures
            final(self).half == old(self).half,
            final(self).stopped == stop_of(old(self).half, r),
            stop_of(old(self).half, r) matches Some(why) ==> s == Step::Stop(why),
            stop_of(old(self).half, r) is None && chunk_of(r).len() == 0 ==> s is Retry,
            stop_of(old(self).half, r) is None && chunk_of(r).len() > 0 ==> (s matches Step::Forward(
                d,
            ) && d@ == chunk_of(r)),
    {
        let s = decide(self.half, r);
        if let Step::Stop(why) = s {
            self.stopped = Some(why);
        }
        s
    }

    /// Takes the result of writing and flushing a forwarded chunk: a
    /// failed write stops the loop.
    pub fn on_write(&mut self, ok: bool)
        requires
            old(self).stopped is None,
        ensures
            final(self).half == old(self).half,
            final(self).stopped == (if ok {
                None
            } else {
                Some(StopReason::WriteFailed)
            }),
    {
        if !ok {
            self.stopped = Some(StopReason::WriteFailed);
        }
    }
}

/// Why a loop draining `half` stops within the reads `reads`: the reason
/// of the first read that stops it, if any does.
pub open spec fn first_stop(half: ReadHalf, reads: Seq<ReadOutcome>) -> Option<StopReason>
    decreases reads.len(),
{
    if reads.len() == 0 {
        None
    } else {
        match first_stop(half, reads.drop_last()) {
            Some(why) => Some(why),
            None => stop_of(half, reads.last()),
        }
    }
}

/// The bytes a loop draining `half` writes, in order, when its reads give
/// `reads` and every write succeeds: the chunks read before it stops.
pub open spec fn forwarded(half: ReadHalf, reads: Seq<ReadOutcome>) -> Seq<u8>
    decreases reads.len(),
{
    if reads.len() == 0 {
        Seq::empty()
    } else if first_stop(half, reads.drop_last()) is Some {
        forwarded(half, reads.drop_last())
    } else {
        forwarded(half, reads.drop_last()) + chunk_of(reads.last())
    }
}

/// All the bytes the reads `reads` carry, in order.
pub open spec fn data_of(reads: Seq<ReadOutcome>) -> Seq<u8>
    decreases reads.len(),
{
    if reads.len() == 0 {
        Seq::empty()
    } else {
        data_of(reads.drop_last()) + chunk_of(reads.last())
    }
}

/// A loop that does not stop forwards every byte it reads, in the order
/// read, once each.
pub proof fn lemma_forwarded_is_data(half: ReadHalf, reads: Seq<ReadOutcome>)
    requires
        first_stop(half, reads) is None,
    ensures
        forwarded(half, reads) == data_of(reads),
    decreases reads.len(),
{
    if reads.len() > 0 {
        lemma_forwarded_is_data(half, reads.drop_last());
    }
}

/// Once a loop has stopped, later reads change neither why it stopped nor
/// what it forwarded.
proof fn lemma_stop_is_final(half: ReadHalf, reads: Seq<ReadOutcome>, k: int)
    requires
        0 <= k <= reads.len(),
        first_stop(half, reads.subrange(0, k)) is Some,
    ensures
        first_stop(half, reads) == first_stop(half, reads.subrange(0, k)),
        forwarded(half, reads) == forwarded(half, reads.subrange(0, k)),
    decreases reads.len() - k,
{
    if k < reads.len() {
        assert(reads.subrange(0, k + 1).drop_last() =~= reads.subrange(0, k));
        lemma_stop_is_final(half, reads, k + 1);
    } else {
        assert(reads.subrange(0, k) =~= reads);
    }
}

/// What a loop did with a whole sequence of reads.
#[derive(Debug)]
pub struct Relayed {
    /// The bytes written to the other side, in order.
    pub bytes: Vec<u8>,
    /// Why the loop stopped, if it did.
    pub stopped: Option<StopReason>,
}

/// Runs a loop draining `half` over the reads `reads`, against a lossless
/// sink that takes every write: the loop stops at the first read that
/// stops it, and the reads after it are not looked at.
pub fn relay(half: ReadHalf, reads: Vec<ReadOutcome>) -> (r: Relayed)
    ensures
        r.bytes@ == forwarded(half, reads@),
        r.stopped == first_stop(half, reads@),
{
    let ghost all = reads@;
    let mut rest = reads;
    let mut out: Vec<u8> = Vec::new();
    let mut lp = CopyLoop::new(half);
    let ghost mut i: int = 0;
    while rest.len() > 0 && lp.is_running()
        invariant
            0 <= i <= all.len(),
            rest@ == all.subrange(i, all.len() as int),
            lp.half == half,
            lp.stopped == first_stop(half, all.subrange(0, i)),
            out@ == forwarded(half, all.subrange(0, i)),
        decreases rest.len(),
    {
        let r = rest.remove(0);
        proof {
            assert(all.subrange(0, i + 1).drop_last() =~= all.subrange(0, i));
            assert(all.subrange(0, i + 1).last() == r);
        }
        let s = lp.on_read(r);
        if let Step::Forward(mut d) = s {
            out.append(&mut d);
            lp.on_write(true);
        }
        proof {
            i = i + 1;
        }
    }
    proof {
        if rest.len() == 0 {
            assert(all.subrange(0, i) =~= all);
        } else {
            lemma_stop_is_final(half, all, i);
        }
    }
    Relayed { bytes: out, stopped: lp.stopped }
}

/// Bytes cross the tunnel unchanged. The loop on one end reads the chunks
/// `sent` from its local read-half `source`, and none of them stops it; the
/// lossless transport hands the downstream loop on the other end the chunks
/// `received`, cut anywhere, that carry what was forwarded, and none of them
/// stops it either. Then the other end writes out exactly the bytes that
/// were read from `source`: none lost, repeated or reordered.
pub proof fn lemma_tunnel_carries_bytes(
    source: ReadHalf,
    sent: Seq<ReadOutcome>,
    received: Seq<ReadOutcome>,
)
    requires
        first_stop(source, sent) is None,
        first_stop(ReadHalf::Stream, received) is None,
        data_of(received) == forwarded(source, sent),
    ensures
        forwarded(ReadHalf::Stream, received) == data_of(sent),
{
    lemma_forwarded_is_data(source, sent);
    lemma_forwarded_is_data(ReadHalf::Stream, received);
}

} // verus!
