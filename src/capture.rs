//! The capture buffer: samples delivered by the real-time audio callback
//! during one recording session.
use vstd::prelude::*;
use crate::wav::{samples_to_wav, wav_bytes, MAX_WAV_SAMPLES, SAMPLE_RATE};

verus! {

/// The samples captured so far and whether a stream is delivering them.
pub struct Recorder {
    samples: Vec<i16>,
    streaming: bool,
}

/// The model of a [`Recorder`].
pub struct RecorderView {
    pub samples: Seq<i16>,
    pub streaming: bool,
}

impl View for Recorder {
    type V = RecorderView;

    closed spec fn view(&self) -> RecorderView {
        RecorderView { samples: self.samples@, streaming: self.streaming }
    }
}

/// The buffer after a frame arrives: appended while streaming, as far as the
/// container's size limit allows; ignored otherwise.
pub open spec fn after_frame(v: RecorderView, frame: Seq<i16>) -> Seq<i16> {
    if v.streaming {
        let room = MAX_WAV_SAMPLES - v.samples.len();
        if frame.len() <= room {
            v.samples + frame
        } else {
            v.samples + frame.take(room)
        }
    } else {
        v.samples
    }
}

impl Recorder {
    /// The buffer never holds more samples than a container can describe.
    pub open spec fn wf(&self) -> bool {
        self@.samples.len() <= MAX_WAV_SAMPLES
    }

    pub fn new() -> (r: Recorder)
        ensures
            r.wf(),
            r@.samples.len() == 0,
            !r@.streaming,
    {
        Recorder { samples: Vec::new(), streaming: false }
    }

    /// Begins a session: clears the buffer and accepts frames.
    pub fn start(&mut self)
        ensures
            final(self).wf(),
            final(self)@.samples.len() == 0,
            final(self)@.streaming,
    {
        self.samples.clear();
        self.streaming = true;
    }

    /// Whether a session is accepting frames.
    pub fn is_streaming(&self) -> (r: bool)
        ensures
            r == self@.streaming,
    {
        self.streaming
    }

    /// Number of samples held.
    pub fn len(&self) -> (r: usize)
        ensures
            r == self@.samples.len(),
    {
        self.samples.len()
    }

    /// Appends one frame of converted samples delivered by the audio callback.
    pub fn push_frame(&mut self, frame: &[i16])
        requires
            old(self).wf(),
        ensures
            final(self).wf(),
            final(self)@.streaming == old(self)@.streaming,
            final(self)@.samples == after_frame(old(self)@, frame@),
    {
        if !self.streaming {
            return;
        }
        let room = MAX_WAV_SAMPLES - self.samples.len();
        let n = if frame.len() <= room { frame.len() } else { room };
        let ghost start = self.samples@;
        let mut i: usize = 0;
        while i < n
            invariant
                n <= frame@.len(),
                n <= room,
                room == MAX_WAV_SAMPLES - start.len(),
                0 <= i <= n,
                self.samples@ == start + frame@.take(i as int),
                self.streaming,
            decreases n - i,
        {
            self.samples.push(frame[i]);
            i = i + 1;
            assert(self.samples@ =~= start + frame@.take(i as int));
        }
        assert(frame@.take(frame@.len() as int) =~= frame@);
    }

    /// Ends the session: stops accepting frames and returns the session's
    /// samples as a WAV container; with no session active, an empty one.
    pub fn stop(&mut self) -> (r: Vec<u8>)
        requires
            old(self).wf(),
        ensures
            final(self).wf(),
            !final(self)@.streaming,
            final(self)@.samples == old(self)@.samples,
            r@ == wav_bytes(
                SAMPLE_RATE as int,
                if old(self)@.streaming { old(self)@.samples } else { Seq::empty() },
            ),
    {
        let was_streaming = self.streaming;
        self.streaming = false;
        if was_streaming {
            samples_to_wav(self.samples.as_slice())
        } else {
            let none: Vec<i16> = Vec::new();
            samples_to_wav(none.as_slice())
        }
    }
}

} // verus!
