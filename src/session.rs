//! The decisions of a bounded capture session. The caller performs each
//! blocking read on the capture channel and hands its outcome to the session,
//! which decodes frames, keeps the records in arrival order, and says when the
//! requested number has been reached.
use vstd::prelude::*;

use crate::frame::{decode, decoded, DecodedRecord, RecordView};

verus! {

/// The outcome of one read on a capture channel.
pub enum ReadOutcome<'a> {
    /// One raw link-layer frame.
    Frame(&'a [u8]),
    /// The read failed in a way that a later read may not.
    TransientError,
}

/// What the caller does after handing over a read outcome.
#[derive(PartialEq, Eq, Structural, Clone, Copy, Debug)]
pub enum NextStep {
    ReadAgain,
    Finished,
}

/// The records that a sequence of frames decodes to, in arrival order;
/// frames that decode to nothing are left out.
pub open spec fn decoded_records(frames: Seq<Seq<u8>>) -> Seq<RecordView>
    decreases frames.len(),
{
    if frames.len() == 0 {
        Seq::empty()
    } else {
        let earlier = decoded_records(frames.drop_last());
        match decoded(frames.last()) {
            Some(rec) => earlier.push(rec),
            None => earlier,
        }
    }
}

/// A capture session that collects a fixed number of decoded records.
pub struct CaptureSession {
    requested: usize,
    records: Vec<DecodedRecord>,
    frames: Ghost<Seq<Seq<u8>>>,
}

/// Mathematical value of a [`CaptureSession`]: the requested count, the
/// records kept so far, and every frame that was handed over and considered.
pub struct SessionView {
    pub requested: nat,
    pub records: Seq<RecordView>,
    pub frames: Seq<Seq<u8>>,
}

impl View for CaptureSession {
    type V = SessionView;

    closed spec fn view(&self) -> SessionView {
        SessionView {
            requested: self.requested as nat,
            records: self.records@.map_values(|r: DecodedRecord| r@),
            frames: self.frames@,
        }
    }
}

impl CaptureSession {
    /// The session's invariant: no more records than requested, and the
    /// records are exactly those that the frames considered decode to.
    pub closed spec fn wf(&self) -> bool {
        &&& self.records@.len() <= self.requested
        &&& self.records@.map_values(|r: DecodedRecord| r@) == decoded_records(self.frames@)
    }

    /// The session has collected all the records it was asked for.
    pub open spec fn complete(&self) -> bool {
        self@.records.len() == self@.requested
    }

    /// Starts a session that asks for `count` records. With `count == 0` it is
    /// complete at once, so no read is needed.
    pub fn new(count: usize) -> (s: CaptureSession)
        ensures
            s.wf(),
            s@.requested == count,
            s@.frames == Seq::<Seq<u8>>::empty(),
            s@.records == Seq::<RecordView>::empty(),
    {
        let s = CaptureSession { requested: count, records: Vec::new(), frames: Ghost(Seq::empty()) };
        assert(s.records@.map_values(|r: DecodedRecord| r@) =~= Seq::<RecordView>::empty());
        s
    }

    /// Whether the requested number of records has been collected.
    pub fn is_complete(&self) -> (r: bool)
        ensures
            r == self.complete(),
    {
        self.records.len() == self.requested
    }

    /// Takes the outcome of one read. A frame is decoded and, if it yields a
    /// record, kept; a transient read error changes nothing, and reading again
    /// is always the answer to it: there is no cap on retries. Once the session
    /// is complete, further outcomes are ignored.
    pub fn on_read(&mut self, outcome: ReadOutcome) -> (step: NextStep)
        requires
            old(self).wf(),
        ensures
            final(self).wf(),
            final(self)@.requested == old(self)@.requested,
            old(self).complete() ==> final(self)@ == old(self)@,
            !old(self).complete() && outcome is TransientError ==> final(self)@ == old(self)@,
            outcome matches ReadOutcome::Frame(f) ==> (!old(self).complete() ==> {
                &&& final(self)@.frames == old(self)@.frames.push(f@)
                &&& final(self)@.records == match decoded(f@) {
                    Some(rec) => old(self)@.records.push(rec),
                    None => old(self)@.records,
                }
            }),
            final(self)@.records == decoded_records(final(self)@.frames),
            final(self)@.records.len() <= final(self)@.requested,
            step == NextStep::Finished <==> final(self).complete(),
    {
        if self.records.len() == self.requested {
            return NextStep::Finished;
        }
        match outcome {
            ReadOutcome::Frame(bytes) => {
                let ghost before = self.records@.map_values(|r: DecodedRecord| r@);
                let ghost frames = self.frames@.push(bytes@);
                let found = decode(bytes);
                match found {
                    Some(rec) => {
                        self.records.push(rec);
                    },
                    None => {},
                }
                self.frames = Ghost(frames);
                proof {
                    assert(frames.drop_last() =~= old(self).frames@);
                    let after = self.records@.map_values(|r: DecodedRecord| r@);
                    match decoded(bytes@) {
                        Some(r) => {
                            assert(after =~= before.push(r));
                        },
                        None => {
                            assert(after =~= before);
                        },
                    }
                }
            },
            ReadOutcome::TransientError => {},
        }
        if self.records.len() == self.requested {
            NextStep::Finished
        } else {
            NextStep::ReadAgain
        }
    }

    /// Ends the session. It hands back the records, exactly as many as were
    /// requested and in arrival order, only if the session is complete; an
    /// incomplete session gives `None` rather than a shorter list.
    pub fn finish(self) -> (r: Option<Vec<DecodedRecord>>)
        requires
            self.wf(),
        ensures
            r is Some <==> self.complete(),
            r matches Some(v) ==> v@.len() == self@.requested && v@.map_values(
                |x: DecodedRecord| x@,
            ) == self@.records && self@.records == decoded_records(self@.frames),
    {
        if self.records.len() == self.requested {
            Some(self.records)
        } else {
            None
        }
    }
}

} // verus!
