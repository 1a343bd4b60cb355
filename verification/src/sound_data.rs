//! The live side of one playing track: the session record the engine owns
//! while a stream plays, and the analyzer that folds decoded packets into a
//! coarse amplitude envelope for display.
//!
//! The output device and the demuxer are external collaborators. They report
//! durations and positions in milliseconds, playback rate and volume in
//! thousandths of the multiplier (1000 is x1.0), and each decoded packet's
//! mean absolute amplitude already quantised to the display scale, where
//! `AMPLITUDE_FULL_SCALE` stands for full amplitude.

use vstd::prelude::*;

verus! {

/// How many per-packet amplitudes are averaged into one envelope byte.
/// A tunable constant: larger windows trade resolution for smoothness.
pub const PACKETS_PER_WINDOW: usize = 20;

/// The quantised amplitude that stands for a mean absolute sample value of
/// 1.0: twice the byte maximum, so that ordinary material (well under full
/// scale) still spreads over the byte range. Window averages are clamped to a
/// byte on output.
pub const AMPLITUDE_FULL_SCALE: u32 = 510;

/// The session record for one playing stream: what the engine remembers about
/// it between commands. The stream handle itself and the analyzer task live
/// with the output collaborator; they are started and torn down in step with
/// this record.
#[derive(Debug, Clone, Copy, PartialEq, Eq, Structural)]
pub struct CurrentSoundData {
    /// Stream length in milliseconds, as the output collaborator reported it
    /// when the stream was opened.
    pub duration: u64,
    /// Whether the stream is currently paused (it starts out playing).
    pub paused: bool,
    /// The playback rate last asserted on this stream, in thousandths.
    pub rate: u32,
}

impl CurrentSoundData {
    /// A freshly opened stream: playing, with the rate the caller asserts on
    /// it at start.
    pub fn new(duration: u64, rate: u32) -> (r: CurrentSoundData)
        ensures
            r == (CurrentSoundData { duration, paused: false, rate }),
    {
        CurrentSoundData { duration, paused: false, rate }
    }
}

/// What the demux/decode collaborator yielded for one step of the analysis
/// loop. The loop itself runs outside; every decision about the envelope is
/// taken here.
#[derive(Debug, Clone, Copy)]
pub enum PacketEvent {
    /// A packet of the selected track decoded cleanly; its mean absolute
    /// amplitude, on the `AMPLITUDE_FULL_SCALE` scale.
    Decoded { amplitude: u32 },
    /// A packet of some other track: skipped.
    OtherTrack,
    /// A single bad or unreadable packet: skipped, never fatal.
    DecodeError,
    /// The stream ended: a normal termination, not an error.
    EndOfStream,
    /// An unrecoverable demux or decode condition: the analysis stops,
    /// keeping whatever envelope was already produced.
    FatalError,
}

/// Sum of a window of quantised amplitudes.
pub open spec fn amp_sum(s: Seq<u32>) -> int
    decreases s.len(),
{
    if s.len() == 0 {
        0
    } else {
        amp_sum(s.drop_last()) + s.last()
    }
}

/// The envelope byte a full window collapses to: the mean of its amplitudes,
/// clamped to a byte.
pub open spec fn quantize(s: Seq<u32>) -> u8
    recommends
        s.len() > 0,
{
    let avg = amp_sum(s) / (s.len() as int);
    if avg > 255 {
        255u8
    } else {
        avg as u8
    }
}

/// Folds per-packet amplitudes into the waveform envelope of one session:
/// collects them in a fixed-size window, and each time the window fills,
/// appends the window's mean (clamped to a byte) to the envelope and starts
/// the window over. The envelope only ever grows; nothing written to it is
/// removed or reordered, whatever events follow.
pub struct WaveformAnalyzer {
    /// The envelope produced so far, one byte per full window.
    pub wave: Vec<u8>,
    /// Amplitudes of the current, not yet full window.
    pub window: Vec<u32>,
}

impl WaveformAnalyzer {
    /// The window is never left full: it collapses into an envelope byte the
    /// moment it fills.
    pub open spec fn wf(self) -> bool {
        self.window@.len() < PACKETS_PER_WINDOW
    }

    /// An empty envelope and an empty window.
    pub fn new() -> (r: WaveformAnalyzer)
        ensures
            r.wf(),
            r.wave@ =~= Seq::<u8>::empty(),
            r.window@ =~= Seq::<u32>::empty(),
    {
        WaveformAnalyzer { wave: Vec::new(), window: Vec::new() }
    }

    /// Takes one step of the analysis for the event the collaborator yielded,
    /// and says whether the loop should go on. Skippable events change
    /// nothing; a terminal event changes nothing and stops the loop, leaving
    /// the envelope as it stands; a decoded packet extends the window, and a
    /// window that thereby fills collapses into one appended envelope byte.
    pub fn on_event(&mut self, event: PacketEvent) -> (go_on: bool)
        requires
            old(self).wf(),
        ensures
            final(self).wf(),
            // The envelope only grows: what was written stays, in place.
            old(self).wave@.is_prefix_of(final(self).wave@),
            match event {
                PacketEvent::Decoded { amplitude } => {
                    &&& go_on
                    &&& if old(self).window@.len() + 1 == PACKETS_PER_WINDOW {
                        &&& final(self).wave@ == old(self).wave@.push(
                            quantize(old(self).window@.push(amplitude)),
                        )
                        &&& final(self).window@ == Seq::<u32>::empty()
                    } else {
                        &&& final(self).wave@ == old(self).wave@
                        &&& final(self).window@ == old(self).window@.push(amplitude)
                    }
                },
                PacketEvent::OtherTrack | PacketEvent::DecodeError => {
                    go_on && *final(self) == *old(self)
                },
                PacketEvent::EndOfStream | PacketEvent::FatalError => {
                    !go_on && *final(self) == *old(self)
                },
            },
    {
        match event {
            PacketEvent::Decoded { amplitude } => {
                self.window.push(amplitude);
                if self.window.len() >= PACKETS_PER_WINDOW {
                    let b = quantize_window(&self.window);
                    self.wave.push(b);
                    self.window.clear();
                }
                proof {
                    assert(old(self).wave@.is_prefix_of(self.wave@));
                }
                true
            },
            PacketEvent::OtherTrack | PacketEvent::DecodeError => true,
            PacketEvent::EndOfStream | PacketEvent::FatalError => false,
        }
    }
}

proof fn lemma_amp_sum_bound(s: Seq<u32>)
    ensures
        0 <= amp_sum(s) <= s.len() * (u32::MAX as int),
    decreases s.len(),
{
    if s.len() > 0 {
        lemma_amp_sum_bound(s.drop_last());
        vstd::arithmetic::mul::lemma_mul_inequality(
            s.len() - 1,
            s.len() as int,
            u32::MAX as int,
        );
    }
}

proof fn lemma_amp_sum_take_step(s: Seq<u32>, i: int)
    requires
        0 <= i < s.len(),
    ensures
        amp_sum(s.take(i + 1)) == amp_sum(s.take(i)) + s[i],
{
    assert(s.take(i + 1).drop_last() =~= s.take(i));
    assert(s.take(i + 1).last() == s[i]);
}

/// The mean of the window's amplitudes, clamped to a byte.
fn quantize_window(window: &Vec<u32>) -> (b: u8)
    requires
        0 < window@.len() <= PACKETS_PER_WINDOW,
    ensures
        b == quantize(window@),
{
    proof {
        lemma_amp_sum_bound(window@);
    }
    let n: usize = window.len();
    let mut sum: u64 = 0;
    let mut i: usize = 0;
    while i < n
        invariant
            i <= n,
            n == window@.len() <= PACKETS_PER_WINDOW,
            sum == amp_sum(window@.take(i as int)),
            amp_sum(window@.take(i as int)) <= i * (u32::MAX as int),
        decreases n - i,
    {
        proof {
            lemma_amp_sum_take_step(window@, i as int);
            lemma_amp_sum_bound(window@.take(i as int));
        }
        sum = sum + window[i] as u64;
        i = i + 1;
    }
    proof {
        assert(window@.take(n as int) =~= window@);
    }
    let avg: u64 = sum / n as u64;
    if avg > 255 {
        255u8
    } else {
        avg as u8
    }
}

} // verus!
