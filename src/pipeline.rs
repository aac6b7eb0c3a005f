use vstd::prelude::*;
use crate::image::{build_header, header_matches, stamp_le, HeaderError, ImageHeader, Stamp};

verus! {

/// How the process ends.
#[derive(Clone, Copy, Debug, PartialEq, Eq, Structural)]
pub enum Exit {
    /// The stream ended, or a frame could not be decoded: orderly shutdown.
    Success,
    /// No decode session could be opened for the locator.
    SessionFailed,
    /// The negotiated geometry has no representable row stride.
    InvalidGeometry,
    /// The clock could not be read for a frame.
    ClockFailed,
}

/// The process exit code of an ending: zero only for an orderly end.
pub open spec fn exit_code_of(e: Exit) -> i32 {
    if e == Exit::Success { 0 } else { 1 }
}

impl Exit {
    pub fn code(&self) -> (r: i32)
        ensures
            r == exit_code_of(*self),
    {
        match self {
            Exit::Success => 0,
            _ => 1,
        }
    }
}

/// What the loop waits for.
#[derive(Clone, Copy, Debug, PartialEq, Eq, Structural)]
pub enum Phase {
    /// The next frame is to be pulled from the decode session.
    AwaitFrame,
    /// A frame was pulled; the clock is to be read for it.
    AwaitStamp,
    /// The message is complete and is to be handed to the sink.
    AwaitPublish,
    /// The loop is over.
    Finished(Exit),
}

/// What the caller is to do next.
#[derive(Clone, Copy, Debug, PartialEq, Eq, Structural)]
pub enum Action {
    Pull,
    ReadClock,
    Publish,
    Stop(Exit),
}

/// The action that a phase asks for.
pub open spec fn action_of(p: Phase) -> Action {
    match p {
        Phase::AwaitFrame => Action::Pull,
        Phase::AwaitStamp => Action::ReadClock,
        Phase::AwaitPublish => Action::Publish,
        Phase::Finished(e) => Action::Stop(e),
    }
}

/// The outcome of one pull from the decode session.
pub enum Pulled {
    /// A decoded frame: packed pixel bytes, three per pixel.
    Frame(Vec<u8>),
    /// End of stream, or a decode error.
    End,
}

/// Each element is not later than the next.
pub open spec fn stamps_ordered(s: Seq<Stamp>) -> bool {
    forall|i: int, j: int| 0 <= i < j < s.len() ==> stamp_le(#[trigger] s[i], #[trigger] s[j])
}

/// One published message: its timestamp and its payload.
pub type Sent = (Stamp, Seq<u8>);

/// The timestamps of the published messages, in order.
pub open spec fn sent_stamps(s: Seq<Sent>) -> Seq<Stamp> {
    s.map_values(|m: Sent| m.0)
}

/// The frame-to-message loop of one decode session. The header is fixed
/// when the session opens; the timestamp and payload are replaced for each
/// frame.
pub struct DecodeLoop {
    header: ImageHeader,
    stamp: Stamp,
    data: Vec<u8>,
    phase: Phase,
    big_endian: Ghost<bool>,
    pulls: Ghost<nat>,
    frames: Ghost<Seq<Seq<u8>>>,
    readings: Ghost<Seq<Stamp>>,
    sent: Ghost<Seq<Sent>>,
}

impl DecodeLoop {
    pub closed spec fn spec_header(&self) -> ImageHeader {
        self.header
    }

    pub closed spec fn spec_stamp(&self) -> Stamp {
        self.stamp
    }

    pub closed spec fn spec_data(&self) -> Seq<u8> {
        self.data@
    }

    pub closed spec fn spec_phase(&self) -> Phase {
        self.phase
    }

    pub closed spec fn spec_big_endian(&self) -> bool {
        self.big_endian@
    }

    /// Number of pulls made from the decode session, the one that ended it
    /// included.
    pub closed spec fn pulls(&self) -> nat {
        self.pulls@
    }

    /// The frames pulled, in pull order.
    pub closed spec fn frames(&self) -> Seq<Seq<u8>> {
        self.frames@
    }

    /// The clock readings taken, in order.
    pub closed spec fn readings(&self) -> Seq<Stamp> {
        self.readings@
    }

    /// The messages handed to the sink, in order.
    pub closed spec fn sent(&self) -> Seq<Sent> {
        self.sent@
    }

    /// The loop's invariant: every frame but possibly the last in flight was
    /// published, in pull order, stamped with the clock reading taken for it,
    /// and the header stays that of the session's geometry.
    pub closed spec fn wf(&self) -> bool {
        &&& header_matches(self.header, self.header.width, self.header.height, self.big_endian@)
        &&& self.frames@.len() <= self.pulls@
        &&& self.readings@.len() <= self.frames@.len()
        &&& self.sent@.len() <= self.readings@.len()
        &&& forall|i: int| 0 <= i < self.sent@.len() ==> (#[trigger] self.sent@[i]).0 == self.readings@[i]
            && self.sent@[i].1 == self.frames@[i]
        &&& match self.phase {
            Phase::AwaitFrame => self.frames@.len() == self.pulls@
                && self.readings@.len() == self.pulls@ && self.sent@.len() == self.pulls@,
            Phase::AwaitStamp => self.frames@.len() == self.pulls@
                && self.readings@.len() + 1 == self.pulls@ && self.sent@.len() + 1 == self.pulls@
                && self.data@ == self.frames@.last(),
            Phase::AwaitPublish => self.frames@.len() == self.pulls@
                && self.readings@.len() == self.pulls@ && self.sent@.len() + 1 == self.pulls@
                && self.data@ == self.frames@.last() && self.stamp == self.readings@.last(),
            Phase::Finished(e) => (e == Exit::Success ==> self.frames@.len() + 1 == self.pulls@)
                && (e == Exit::ClockFailed ==> self.frames@.len() == self.pulls@)
                && (e == Exit::Success || e == Exit::ClockFailed)
                && self.readings@.len() + 1 == self.pulls@ && self.sent@.len() + 1 == self.pulls@,
        }
    }

    /// Starts the loop for a session: `None` when the session could not be
    /// opened, else its negotiated output geometry (width, height).
    pub fn open(geometry: Option<(u32, u32)>, big_endian: bool) -> (r: Result<DecodeLoop, Exit>)
        ensures
            geometry is None ==> r == Err::<DecodeLoop, Exit>(Exit::SessionFailed),
            geometry is Some ==> match r {
                Ok(l) => crate::image::stride_fits(geometry->Some_0.0) && l.wf()
                    && header_matches(l.spec_header(), geometry->Some_0.0, geometry->Some_0.1, big_endian)
                    && l.spec_big_endian() == big_endian
                    && l.spec_phase() == Phase::AwaitFrame && l.pulls() == 0
                    && l.frames().len() == 0 && l.readings().len() == 0 && l.sent().len() == 0,
                Err(e) => !crate::image::stride_fits(geometry->Some_0.0) && e == Exit::InvalidGeometry,
            },
    {
        match geometry {
            None => Err(Exit::SessionFailed),
            Some((width, height)) => match build_header(width, height, big_endian) {
                Err(HeaderError::StrideOverflow) => Err(Exit::InvalidGeometry),
                Ok(header) => Ok(DecodeLoop {
                    header,
                    stamp: Stamp { sec: 0, nanosec: 0 },
                    data: Vec::new(),
                    phase: Phase::AwaitFrame,
                    big_endian: Ghost(big_endian),
                    pulls: Ghost(0),
                    frames: Ghost(Seq::empty()),
                    readings: Ghost(Seq::empty()),
                    sent: Ghost(Seq::empty()),
                }),
            },
        }
    }

    /// What the caller is to do next.
    pub fn next_action(&self) -> (r: Action)
        ensures
            r == action_of(self.spec_phase()),
    {
        match self.phase {
            Phase::AwaitFrame => Action::Pull,
            Phase::AwaitStamp => Action::ReadClock,
            Phase::AwaitPublish => Action::Publish,
            Phase::Finished(e) => Action::Stop(e),
        }
    }
    /// Takes the outcome of a pull. A frame becomes the pending payload,
    /// replacing the previous one, and the clock is to be read next; the end
    /// of the stream ends the loop in order. Outside the pulling phase the
    /// loop is left as it is.
    pub fn on_pulled(&mut self, p: Pulled) -> (r: Action)
        requires
            old(self).wf(),
        ensures
            final(self).wf(),
            r == action_of(final(self).spec_phase()),
            final(self).spec_header() == old(self).spec_header(),
            final(self).spec_big_endian() == old(self).spec_big_endian(),
            old(self).spec_phase() != Phase::AwaitFrame ==> *final(self) == *old(self),
            old(self).spec_phase() == Phase::AwaitFrame ==> {
                &&& final(self).pulls() == old(self).pulls() + 1
                &&& final(self).readings() == old(self).readings()
                &&& final(self).sent() == old(self).sent()
                &&& match p {
                    Pulled::Frame(d) => final(self).spec_phase() == Phase::AwaitStamp
                        && final(self).frames() == old(self).frames().push(d@)
                        && final(self).spec_data() == d@,
                    Pulled::End => final(self).spec_phase() == Phase::Finished(Exit::Success)
                        && final(self).frames() == old(self).frames(),
                }
            },
    {
        if self.phase != Phase::AwaitFrame {
            return self.next_action();
        }
        self.pulls = Ghost(self.pulls@ + 1);
        match p {
            Pulled::Frame(d) => {
                self.frames = Ghost(self.frames@.push(d@));
                self.data = d;
                self.phase = Phase::AwaitStamp;
            },
            Pulled::End => {
                self.phase = Phase::Finished(Exit::Success);
            },
        }
        self.next_action()
    }

    /// Takes the clock reading for the pending frame: `None` when the clock
    /// failed, which ends the loop without publishing that frame. Outside the
    /// stamping phase the loop is left as it is.
    pub fn on_clock(&mut self, reading: Option<Stamp>) -> (r: Action)
        requires
            old(self).wf(),
        ensures
            final(self).wf(),
            r == action_of(final(self).spec_phase()),
            final(self).spec_header() == old(self).spec_header(),
            final(self).spec_big_endian() == old(self).spec_big_endian(),
            old(self).spec_phase() != Phase::AwaitStamp ==> *final(self) == *old(self),
            old(self).spec_phase() == Phase::AwaitStamp ==> {
                &&& final(self).pulls() == old(self).pulls()
                &&& final(self).frames() == old(self).frames()
                &&& final(self).sent() == old(self).sent()
                &&& final(self).spec_data() == old(self).spec_data()
                &&& match reading {
                    Some(t) => final(self).spec_phase() == Phase::AwaitPublish
                        && final(self).spec_stamp() == t
                        && final(self).readings() == old(self).readings().push(t),
                    None => final(self).spec_phase() == Phase::Finished(Exit::ClockFailed)
                        && final(self).readings() == old(self).readings(),
                }
            },
    {
        if self.phase != Phase::AwaitStamp {
            return self.next_action();
        }
        match reading {
            Some(t) => {
                self.readings = Ghost(self.readings@.push(t));
                self.stamp = t;
                self.phase = Phase::AwaitPublish;
            },
            None => {
                self.phase = Phase::Finished(Exit::ClockFailed);
            },
        }
        self.next_action()
    }

    /// Records that the message was handed to the sink. Delivery is best
    /// effort: whether the sink reported success does not change what
    /// happens next, which is the next pull. Outside the publishing phase the
    /// loop is left as it is.
    pub fn on_published(&mut self, delivered: bool) -> (r: Action)
        requires
            old(self).wf(),
        ensures
            final(self).wf(),
            r == action_of(final(self).spec_phase()),
            final(self).spec_header() == old(self).spec_header(),
            final(self).spec_big_endian() == old(self).spec_big_endian(),
            old(self).spec_phase() != Phase::AwaitPublish ==> *final(self) == *old(self),
            old(self).spec_phase() == Phase::AwaitPublish ==> {
                &&& r == Action::Pull
                &&& final(self).spec_phase() == Phase::AwaitFrame
                &&& final(self).pulls() == old(self).pulls()
                &&& final(self).frames() == old(self).frames()
                &&& final(self).readings() == old(self).readings()
                &&& final(self).sent() == old(self).sent().push(
                    (old(self).spec_stamp(), old(self).spec_data()),
                )
            },
    {
        if self.phase != Phase::AwaitPublish {
            return self.next_action();
        }
        let ghost m: Sent = (self.stamp, self.data@);
        self.sent = Ghost(self.sent@.push(m));
        self.phase = Phase::AwaitFrame;
        proof {
            assert forall|i: int| 0 <= i < self.sent@.len() implies (#[trigger] self.sent@[i]).0
                == self.readings@[i] && self.sent@[i].1 == self.frames@[i] by {
                if i < self.sent@.len() - 1 {
                    assert(self.sent@[i] == old(self).sent@[i]);
                }
            }
        }
        self.next_action()
    }

    /// The fixed header of the session's messages.
    pub fn header(&self) -> (r: &ImageHeader)
        ensures
            *r == self.spec_header(),
    {
        &self.header
    }

    /// The timestamp of the current message.
    pub fn stamp(&self) -> (r: Stamp)
        ensures
            r == self.spec_stamp(),
    {
        self.stamp
    }

    /// The payload of the current message.
    pub fn data(&self) -> (r: &Vec<u8>)
        ensures
            r@ == self.spec_data(),
    {
        &self.data
    }

    /// The loop's current phase.
    pub fn phase(&self) -> (r: Phase)
        ensures
            r == self.spec_phase(),
    {
        self.phase
    }
}

/// Every message of a session carries a row stride of three bytes per pixel
/// of its width: the header is built so and no step of the loop changes it.
pub proof fn lemma_stride_is_three_per_pixel(l: &DecodeLoop)
    requires
        l.wf(),
    ensures
        l.spec_header().step == l.spec_header().width * 3,
{
}

/// Messages leave in the order their frames were pulled, each with the
/// payload of its own frame and the clock reading taken for it.
pub proof fn lemma_sent_in_pull_order(l: &DecodeLoop)
    requires
        l.wf(),
    ensures
        l.sent().len() <= l.frames().len(),
        l.sent().len() <= l.readings().len(),
        forall|i: int| 0 <= i < l.sent().len() ==> (#[trigger] l.sent()[i]).1 == l.frames()[i]
            && l.sent()[i].0 == l.readings()[i],
{
}

/// With a clock whose readings never go back, the timestamps of the
/// published messages never go back either.
pub proof fn lemma_sent_stamps_ordered(l: &DecodeLoop)
    requires
        l.wf(),
        stamps_ordered(l.readings()),
    ensures
        stamps_ordered(sent_stamps(l.sent())),
{
    let s = sent_stamps(l.sent());
    assert forall|i: int, j: int| 0 <= i < j < s.len() implies stamp_le(#[trigger] s[i], #[trigger] s[j]) by {
        assert(s[i] == l.sent()[i].0);
        assert(s[j] == l.sent()[j].0);
        assert(l.sent()[i].0 == l.readings()[i]);
        assert(l.sent()[j].0 == l.readings()[j]);
    }
}

/// When the stream ends on pull `n`, exactly `n - 1` messages went to the
/// sink, and the loop asks for no further pull.
pub proof fn lemma_end_of_stream_count(l: &DecodeLoop)
    requires
        l.wf(),
        l.spec_phase() == Phase::Finished(Exit::Success),
    ensures
        l.pulls() >= 1,
        l.sent().len() == l.pulls() - 1,
        l.frames().len() == l.pulls() - 1,
        action_of(l.spec_phase()) == Action::Stop(Exit::Success),
{
}

/// While the loop waits for a frame, every pull so far brought a frame and
/// each of them was published: a failed publish loses no pull.
pub proof fn lemma_every_pull_published(l: &DecodeLoop)
    requires
        l.wf(),
        l.spec_phase() == Phase::AwaitFrame,
    ensures
        l.sent().len() == l.pulls(),
        l.frames().len() == l.pulls(),
{
}

} // verus!
