//! MAX98357A playback, as decisions: the speaker queues sample-rate
//! changes and s16le chunks for the playback thread, which rebuilds its
//! I2S driver when the rate changes and plays chunks in order.
use vstd::prelude::*;

verus! {

/// The runtime's TTS default rate, used until tts/meta says otherwise.
pub const DEFAULT_RATE: u32 = 24_000;

/// A message for the playback thread.
#[derive(Debug, Clone, PartialEq, Eq)]
pub enum SpeakerMsg {
    Rate(u32),
    Chunk(Vec<u8>),
}

pub enum SpeakerMsgView {
    Rate(u32),
    Chunk(Seq<u8>),
}

impl View for SpeakerMsg {
    type V = SpeakerMsgView;

    open spec fn view(&self) -> SpeakerMsgView {
        match self {
            SpeakerMsg::Rate(r) => SpeakerMsgView::Rate(*r),
            SpeakerMsg::Chunk(c) => SpeakerMsgView::Chunk(c@),
        }
    }
}

/// The speaker: the messages queued for the playback thread, in order.
pub struct Speaker {
    queued: Vec<SpeakerMsg>,
}

impl View for Speaker {
    type V = Seq<SpeakerMsgView>;

    closed spec fn view(&self) -> Seq<SpeakerMsgView> {
        self.queued@.map_values(|m: SpeakerMsg| m@)
    }
}

impl Speaker {
    /// A speaker with nothing queued.
    pub fn new() -> (s: Self)
        ensures
            s@ == Seq::<SpeakerMsgView>::empty(),
    {
        let s = Speaker { queued: Vec::new() };
        assert(s@ =~= Seq::<SpeakerMsgView>::empty());
        s
    }

    /// From tts/meta; the driver is rebuilt if the rate changed.
    pub fn set_sample_rate(&mut self, rate: u32)
        ensures
            final(self)@ == old(self)@.push(SpeakerMsgView::Rate(rate)),
    {
        self.queued.push(SpeakerMsg::Rate(rate));
        assert(self@ =~= old(self)@.push(SpeakerMsgView::Rate(rate)));
    }

    /// Enqueues one s16le mono chunk; chunks play in order.
    pub fn enqueue(&mut self, chunk: Vec<u8>)
        ensures
            final(self)@ == old(self)@.push(SpeakerMsgView::Chunk(chunk@)),
    {
        let ghost c = chunk@;
        self.queued.push(SpeakerMsg::Chunk(chunk));
        assert(self@ =~= old(self)@.push(SpeakerMsgView::Chunk(c)));
    }

    /// Hands the queued messages to the playback thread, in order.
    pub fn take_queued(&mut self) -> (msgs: Vec<SpeakerMsg>)
        ensures
            msgs@.map_values(|m: SpeakerMsg| m@) == old(self)@,
            final(self)@ == Seq::<SpeakerMsgView>::empty(),
    {
        let mut out: Vec<SpeakerMsg> = Vec::new();
        std::mem::swap(&mut out, &mut self.queued);
        assert(self@ =~= Seq::<SpeakerMsgView>::empty());
        out
    }
}

/// What the playback thread does with a message.
#[derive(Debug, Clone, PartialEq, Eq)]
pub enum Playback {
    /// Drop the driver and rebuild it at the new rate.
    Rebuild,
    /// Write the chunk to the driver.
    Play(Vec<u8>),
    /// Nothing to do (the rate did not change).
    Keep,
}

/// The playback thread's step: the rate it then plays at, and what it
/// does.
pub fn playback_step(rate: u32, msg: SpeakerMsg) -> (r: (u32, Playback))
    ensures
        match msg@ {
            SpeakerMsgView::Rate(new_rate) => if new_rate != rate {
                r.0 == new_rate && r.1 == Playback::Rebuild
            } else {
                r.0 == rate && r.1 == Playback::Keep
            },
            SpeakerMsgView::Chunk(c) => r.0 == rate && (r.1 matches Playback::Play(b) && b@ == c),
        },
{
    match msg {
        SpeakerMsg::Rate(r) => if r != rate { (r, Playback::Rebuild) } else { (rate, Playback::Keep) },
        SpeakerMsg::Chunk(bytes) => (rate, Playback::Play(bytes)),
    }
}

} // verus!
