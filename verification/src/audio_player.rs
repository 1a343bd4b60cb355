//! The playback engine: the single authoritative owner of "what plays now".
//!
//! It keeps the tracklist, the current-track index, the persisted volume and
//! playback-rate knobs, and the record of the active sound session. Every
//! operation of the control surface is a decision taken here; the output
//! collaborator that owns the device performs what the decision asks for
//! (open this path, pause the stream, seek) and reports back plain values
//! (the duration of a freshly opened stream, the playback position polled
//! for the advance check).
//!
//! Durations and positions are in milliseconds; volume and rate are in
//! thousandths of the multiplier, 1000 standing for x1.0.

use vstd::prelude::*;

use crate::sound_data::CurrentSoundData;
use crate::track::TrackInfo;
use crate::track::format_is_supported;
use crate::track::importable;
use crate::track::spec_stem;
use crate::track::supported_format;
use crate::track::track_from_path;

verus! {

/// Volume multiplier the engine starts with: x1.0.
pub const DEFAULT_VOLUME: u32 = 1000;

/// Playback-rate multiplier the engine starts with: x1.0.
pub const DEFAULT_PLAYBACK_RATE: u32 = 1000;

/// Slack absorbed when deciding that a stream has finished, in milliseconds.
/// A tunable constant: it papers over stream-boundary jitter in the position
/// the output collaborator reports.
pub const ADVANCE_EPSILON_MS: u64 = 10;

/// The engine's state as mathematics: what every contract of [`AudioPlayer`]
/// speaks about. Each engine operation is described by one transition
/// function on this model.
#[verifier::ext_equal]
pub struct PlayerModel {
    pub tracklist: Seq<TrackInfo>,
    pub current_track_index: Option<usize>,
    pub playback_rate: u32,
    pub volume: u32,
    pub current_sound: Option<CurrentSoundData>,
}

impl PlayerModel {
    /// The invariant every operation preserves: a current index, when
    /// present, points into the tracklist.
    pub open spec fn wf(self) -> bool {
        self.current_track_index matches Some(i) ==> i < self.tracklist.len()
    }

    /// A fresh engine: empty tracklist, nothing current, both knobs at x1.0.
    pub open spec fn init() -> PlayerModel {
        PlayerModel {
            tracklist: Seq::empty(),
            current_track_index: None,
            playback_rate: DEFAULT_PLAYBACK_RATE,
            volume: DEFAULT_VOLUME,
            current_sound: None,
        }
    }

    /// Appending a track touches nothing else.
    pub open spec fn after_add_track(self, track: TrackInfo) -> PlayerModel {
        PlayerModel { tracklist: self.tracklist.push(track), ..self }
    }

    /// Clearing stops playback, forgets the current index and empties the
    /// list; the volume and rate knobs persist.
    pub open spec fn after_clear_tracklist(self) -> PlayerModel {
        PlayerModel {
            tracklist: Seq::empty(),
            current_track_index: None,
            current_sound: None,
            ..self
        }
    }

    /// Where a moved track's neighbour lies, upwards: the entry above, with
    /// wraparound from the first entry to the last.
    pub open spec fn move_up_target(self, track_index: usize) -> usize {
        if track_index == 0 {
            (self.tracklist.len() - 1) as usize
        } else {
            (track_index - 1) as usize
        }
    }

    /// Where a moved track's neighbour lies, downwards: the entry below,
    /// with wraparound from the last entry to the first.
    pub open spec fn move_down_target(self, track_index: usize) -> usize {
        if track_index + 1 == self.tracklist.len() {
            0usize
        } else {
            (track_index + 1) as usize
        }
    }

    /// Swaps the entries at `track_index` and `target`, and keeps the
    /// current index pointing at the same logical entry: if the moved entry
    /// was current it follows to the target; if the target was current it
    /// follows to the vacated index.
    pub open spec fn after_swap(self, track_index: usize, target: usize) -> PlayerModel {
        PlayerModel {
            tracklist: self.tracklist
                .update(track_index as int, self.tracklist[target as int])
                .update(target as int, self.tracklist[track_index as int]),
            current_track_index: if self.current_track_index == Some(track_index) {
                Some(target)
            } else if self.current_track_index == Some(target) {
                Some(track_index)
            } else {
                self.current_track_index
            },
            ..self
        }
    }

    /// A move up swaps with the upper neighbour (wrapping at the top); a
    /// list of at most one entry, or an out-of-range index, changes nothing.
    pub open spec fn after_move_up(self, track_index: usize) -> PlayerModel {
        if self.tracklist.len() <= 1 || track_index >= self.tracklist.len() {
            self
        } else {
            self.after_swap(track_index, self.move_up_target(track_index))
        }
    }

    /// A move down swaps with the lower neighbour (wrapping at the bottom);
    /// a list of at most one entry, or an out-of-range index, changes
    /// nothing.
    pub open spec fn after_move_down(self, track_index: usize) -> PlayerModel {
        if self.tracklist.len() <= 1 || track_index >= self.tracklist.len() {
            self
        } else {
            self.after_swap(track_index, self.move_down_target(track_index))
        }
    }

    /// Removing the current entry stops playback and clears the index;
    /// removing an entry above the current one shifts the index down with
    /// the entry it names; removing below leaves it alone. An out-of-range
    /// index changes nothing.
    pub open spec fn after_remove_track(self, track_index: usize) -> PlayerModel {
        if track_index >= self.tracklist.len() {
            self
        } else if self.current_track_index == Some(track_index) {
            PlayerModel {
                tracklist: self.tracklist.remove(track_index as int),
                current_track_index: None,
                current_sound: None,
                ..self
            }
        } else {
            PlayerModel {
                tracklist: self.tracklist.remove(track_index as int),
                current_track_index: match self.current_track_index {
                    Some(c) => if c > track_index {
                        Some((c - 1) as usize)
                    } else {
                        Some(c)
                    },
                    None => None,
                },
                ..self
            }
        }
    }

    /// Choosing a track makes it current and tears the old session down; the
    /// new stream is attached by [`AudioPlayer::play`] once the collaborator
    /// has opened it. An out-of-range index changes nothing.
    pub open spec fn after_play_track(self, track_index: usize) -> PlayerModel {
        if track_index >= self.tracklist.len() {
            self
        } else {
            PlayerModel {
                current_track_index: Some(track_index),
                current_sound: None,
                ..self
            }
        }
    }

    /// Attaching a freshly opened stream: the session starts out playing,
    /// with the engine's persisted rate asserted on it.
    pub open spec fn after_play(self, duration: u64) -> PlayerModel {
        PlayerModel {
            current_sound: Some(
                CurrentSoundData { duration, paused: false, rate: self.playback_rate },
            ),
            ..self
        }
    }

    /// Stopping tears the session down and nothing else; the current index
    /// survives (clearing the tracklist is what resets it).
    pub open spec fn after_stop(self) -> PlayerModel {
        PlayerModel { current_sound: None, ..self }
    }

    /// Toggling pause flips the session's paused flag; with no session
    /// nothing changes.
    pub open spec fn after_pause_resume(self) -> PlayerModel {
        match self.current_sound {
            Some(s) => PlayerModel {
                current_sound: Some(CurrentSoundData { paused: !s.paused, ..s }),
                ..self
            },
            None => self,
        }
    }

    /// The volume knob persists on the engine; the collaborator applies it
    /// to the device's main track.
    pub open spec fn after_set_volume(self, volume: u32) -> PlayerModel {
        PlayerModel { volume, ..self }
    }

    /// The rate knob persists on the engine and is re-asserted on the active
    /// session, if any.
    pub open spec fn after_set_playback_rate(self, rate: u32) -> PlayerModel {
        PlayerModel {
            playback_rate: rate,
            current_sound: match self.current_sound {
                Some(s) => Some(CurrentSoundData { rate, ..s }),
                None => None,
            },
            ..self
        }
    }

    /// The advance check fires when a session and a current track exist and
    /// the polled position has reached the stream's end, up to the epsilon.
    pub open spec fn advance_triggers(self, position: u64) -> bool {
        &&& self.current_sound matches Some(s) && position + ADVANCE_EPSILON_MS >= s.duration
        &&& self.current_track_index is Some
    }

    /// The track after the current one, with wraparound from the last entry
    /// back to the first.
    pub open spec fn next_track_index(self) -> usize {
        let i = self.current_track_index->Some_0;
        if i + 1 == self.tracklist.len() {
            0usize
        } else {
            (i + 1) as usize
        }
    }

    /// One poll of the advance monitor: if the current stream has finished,
    /// the next track (with wraparound) becomes current, exactly as if it
    /// had been chosen by hand; otherwise nothing changes.
    pub open spec fn after_advance(self, position: u64) -> PlayerModel {
        if self.advance_triggers(position) {
            self.after_play_track(self.next_track_index())
        } else {
            self
        }
    }
}

/// The engine. One per process; the front-end, the advance monitor and the
/// analyzer all reach it through these methods, under one exclusive lock the
/// embedding provides.
pub struct AudioPlayer {
    pub tracklist: Vec<TrackInfo>,
    pub current_track_index: Option<usize>,
    pub playback_rate: u32,
    pub volume: u32,
    pub current_sound: Option<CurrentSoundData>,
}

impl View for AudioPlayer {
    type V = PlayerModel;

    open spec fn view(&self) -> PlayerModel {
        PlayerModel {
            tracklist: self.tracklist@,
            current_track_index: self.current_track_index,
            playback_rate: self.playback_rate,
            volume: self.volume,
            current_sound: self.current_sound,
        }
    }
}

impl AudioPlayer {
    /// A fresh engine with the default knobs and an empty tracklist. The
    /// embedding owns the output device and the monitor task; this is only
    /// the state they act on.
    pub fn new() -> (r: AudioPlayer)
        ensures
            r@ == PlayerModel::init(),
            r@.wf(),
    {
        let r = AudioPlayer {
            tracklist: Vec::new(),
            current_track_index: None,
            playback_rate: DEFAULT_PLAYBACK_RATE,
            volume: DEFAULT_VOLUME,
            current_sound: None,
        };
        proof {
            assert(r@ =~= PlayerModel::init());
        }
        r
    }

    /// Membership in the import allow-list.
    pub fn is_format_supported(extension: &str) -> (r: bool)
        ensures
            r == supported_format(extension@),
    {
        format_is_supported(extension)
    }

    pub fn get_current_track_index(&self) -> (r: Option<usize>)
        ensures
            r == self@.current_track_index,
    {
        self.current_track_index
    }

    pub fn get_tracklist(&self) -> (r: &Vec<TrackInfo>)
        ensures
            r@ == self@.tracklist,
    {
        &self.tracklist
    }

    /// The session record of the active stream, if one is attached.
    pub fn get_current_sound(&self) -> (r: Option<CurrentSoundData>)
        ensures
            r == self@.current_sound,
    {
        self.current_sound
    }

    /// Appends a track to the playlist.
    pub fn add_track(&mut self, track: TrackInfo)
        requires
            old(self)@.wf(),
        ensures
            final(self)@.wf(),
            final(self)@ == old(self)@.after_add_track(track),
    {
        self.tracklist.push(track);
        proof {
            assert(self@ =~= old(self)@.after_add_track(track));
        }
    }

    /// Imports the file at `path` as a track, silently ignoring paths whose
    /// extension is not on the allow-list. Returns whether a track was
    /// added.
    pub fn try_importing_track_from_path(&mut self, path: &str) -> (r: bool)
        requires
            old(self)@.wf(),
        ensures
            final(self)@.wf(),
            r == importable(path@),
            !r ==> final(self)@ == old(self)@,
            r ==> {
                &&& final(self)@.tracklist.len() == old(self)@.tracklist.len() + 1
                &&& final(self)@.tracklist.last().name@ == spec_stem(path@)
                &&& final(self)@.tracklist.last().path@ == path@
                &&& final(self)@.tracklist.drop_last() == old(self)@.tracklist
                &&& final(self)@ == old(self)@.after_add_track(final(self)@.tracklist.last())
            },
    {
        match track_from_path(path) {
            Some(track) => {
                self.add_track(track);
                proof {
                    assert(self@.tracklist.drop_last() =~= old(self)@.tracklist);
                }
                true
            },
            None => {
                proof {
                    assert(self@ =~= old(self)@);
                }
                false
            },
        }
    }

    /// Stops playback, forgets the current track and empties the playlist.
    pub fn clear_tracklist(&mut self)
        requires
            old(self)@.wf(),
        ensures
            final(self)@.wf(),
            final(self)@ == old(self)@.after_clear_tracklist(),
    {
        self.stop();
        self.current_track_index = None;
        self.tracklist.clear();
        proof {
            assert(self@ =~= old(self)@.after_clear_tracklist());
        }
    }

    /// Swaps the entries at `lo` and `hi` in the tracklist.
    fn swap_tracks(&mut self, lo: usize, hi: usize)
        requires
            lo < hi < old(self)@.tracklist.len(),
        ensures
            final(self)@ == (PlayerModel {
                tracklist: old(self)@.tracklist
                    .update(lo as int, old(self)@.tracklist[hi as int])
                    .update(hi as int, old(self)@.tracklist[lo as int]),
                ..old(self)@
            }),
    {
        let upper = TrackInfo {
            name: self.tracklist[lo].name.clone(),
            path: self.tracklist[lo].path.clone(),
        };
        let lower = TrackInfo {
            name: self.tracklist[hi].name.clone(),
            path: self.tracklist[hi].path.clone(),
        };
        proof {
            assert(upper == old(self)@.tracklist[lo as int]);
            assert(lower == old(self)@.tracklist[hi as int]);
        }
        self.tracklist.set(lo, lower);
        self.tracklist.set(hi, upper);
        proof {
            assert(self@ =~= (PlayerModel {
                tracklist: old(self)@.tracklist
                    .update(lo as int, old(self)@.tracklist[hi as int])
                    .update(hi as int, old(self)@.tracklist[lo as int]),
                ..old(self)@
            }));
        }
    }

    /// Swaps the entry at `track_index` with its upper neighbour, wrapping
    /// the first entry around to the last; the current index keeps pointing
    /// at the same logical entry. No-op on lists of at most one entry and on
    /// out-of-range indices.
    pub fn move_track_up(&mut self, track_index: usize)
        requires
            old(self)@.wf(),
        ensures
            final(self)@.wf(),
            final(self)@ == old(self)@.after_move_up(track_index),
            // Wraparound at the top, stated plainly:
            old(self)@.tracklist.len() > 1 && track_index == 0 ==> final(self)@.tracklist
                == old(self)@.tracklist
                .update(0, old(self)@.tracklist.last())
                .update(old(self)@.tracklist.len() - 1, old(self)@.tracklist[0]),
    {
        let len = self.tracklist.len();
        if len <= 1 || track_index >= len {
            return;
        }
        let target = if track_index == 0 {
            len - 1
        } else {
            track_index - 1
        };
        if track_index < target {
            self.swap_tracks(track_index, target);
        } else {
            self.swap_tracks(target, track_index);
        }
        if let Some(current) = self.current_track_index {
            if current == track_index {
                self.current_track_index = Some(target);
            } else if current == target {
                self.current_track_index = Some(track_index);
            }
        }
        proof {
            assert(self@ =~= old(self)@.after_move_up(track_index));
        }
    }

    /// Swaps the entry at `track_index` with its lower neighbour, wrapping
    /// the last entry around to the first; the current index keeps pointing
    /// at the same logical entry. No-op on lists of at most one entry and on
    /// out-of-range indices.
    pub fn move_track_down(&mut self, track_index: usize)
        requires
            old(self)@.wf(),
        ensures
            final(self)@.wf(),
            final(self)@ == old(self)@.after_move_down(track_index),
            // Wraparound at the bottom, stated plainly:
            old(self)@.tracklist.len() > 1 && track_index == old(self)@.tracklist.len() - 1
                ==> final(self)@.tracklist == old(self)@.tracklist
                .update(track_index as int, old(self)@.tracklist[0])
                .update(0, old(self)@.tracklist[track_index as int]),
    {
        let len = self.tracklist.len();
        if len <= 1 || track_index >= len {
            return;
        }
        let target = if track_index == len - 1 {
            0
        } else {
            track_index + 1
        };
        if track_index < target {
            self.swap_tracks(track_index, target);
        } else {
            self.swap_tracks(target, track_index);
        }
        if let Some(current) = self.current_track_index {
            if current == track_index {
                self.current_track_index = Some(target);
            } else if current == target {
                self.current_track_index = Some(track_index);
            }
        }
        proof {
            assert(self@ =~= old(self)@.after_move_down(track_index));
        }
    }

    /// Removes the entry at `track_index`. Removing the current track stops
    /// playback and clears the current index; removing a track above the
    /// current one pulls the index down by exactly one so it names the same
    /// entry; removing below leaves it untouched. No-op on out-of-range
    /// indices.
    pub fn remove_track(&mut self, track_index: usize)
        requires
            old(self)@.wf(),
        ensures
            final(self)@.wf(),
            final(self)@ == old(self)@.after_remove_track(track_index),
            // Index renormalisation, stated case by case:
            old(self)@.current_track_index == Some(track_index)
                && track_index < old(self)@.tracklist.len() ==> {
                &&& final(self)@.current_track_index is None
                &&& final(self)@.current_sound is None
            },
            old(self)@.current_track_index matches Some(c) ==> {
                &&& track_index < c ==> final(self)@.current_track_index == Some(
                    (c - 1) as usize,
                )
                &&& c < track_index < old(self)@.tracklist.len()
                    ==> final(self)@.current_track_index == Some(c)
            },
    {
        if track_index >= self.tracklist.len() {
            proof {
                assert(self@ =~= old(self)@.after_remove_track(track_index));
            }
            return;
        }
        if let Some(current) = self.current_track_index {
            if current == track_index {
                self.current_track_index = None;
                self.stop();
            }
        }
        self.tracklist.remove(track_index);
        if let Some(current) = self.current_track_index {
            if current > track_index {
                self.current_track_index = Some(current - 1);
            }
        }
        proof {
            assert(self@ =~= old(self)@.after_remove_track(track_index));
        }
    }

    /// Makes the track at `track_index` current and tears the old session
    /// down. Returns whether a stream should now be opened for that track's
    /// path; on an out-of-range index nothing changes and nothing is owed.
    /// The collaborator attaches the opened stream with [`Self::play`].
    pub fn play_track(&mut self, track_index: usize) -> (r: bool)
        requires
            old(self)@.wf(),
        ensures
            final(self)@.wf(),
            final(self)@ == old(self)@.after_play_track(track_index),
            r == (track_index < old(self)@.tracklist.len()),
    {
        if track_index >= self.tracklist.len() {
            proof {
                assert(self@ =~= old(self)@.after_play_track(track_index));
            }
            return false;
        }
        self.current_track_index = Some(track_index);
        self.current_sound = None;
        proof {
            assert(self@ =~= old(self)@.after_play_track(track_index));
        }
        true
    }

    /// Attaches the stream the output collaborator has just opened, with the
    /// duration it reported. The new session starts out playing and carries
    /// the engine's persisted playback rate, which is returned so the
    /// collaborator can assert it on the stream — the device resets the rate
    /// per stream, the engine does not.
    pub fn play(&mut self, duration: u64) -> (r: u32)
        requires
            old(self)@.wf(),
        ensures
            final(self)@.wf(),
            final(self)@ == old(self)@.after_play(duration),
            r == old(self)@.playback_rate,
    {
        self.current_sound = Some(CurrentSoundData::new(duration, self.playback_rate));
        proof {
            assert(self@ =~= old(self)@.after_play(duration));
        }
        self.playback_rate
    }

    /// Tears the current session down. With no session this changes nothing
    /// at all; it never fails. The current index survives.
    pub fn stop(&mut self)
        requires
            old(self)@.wf(),
        ensures
            final(self)@.wf(),
            final(self)@ == old(self)@.after_stop(),
            old(self)@.current_sound is None ==> final(self)@ == old(self)@,
    {
        self.current_sound = None;
        proof {
            assert(self@ =~= old(self)@.after_stop());
            if old(self)@.current_sound is None {
                assert(self@ =~= old(self)@);
            }
        }
    }

    /// Toggles the current session between paused and playing. Returns what
    /// the collaborator should now do to the stream — `Some(true)` to pause
    /// it, `Some(false)` to resume it — or nothing when no session exists.
    pub fn pause_resume(&mut self) -> (r: Option<bool>)
        requires
            old(self)@.wf(),
        ensures
            final(self)@.wf(),
            final(self)@ == old(self)@.after_pause_resume(),
            r == match old(self)@.current_sound {
                Some(s) => Some(!s.paused),
                None => None::<bool>,
            },
    {
        match self.current_sound {
            None => {
                proof {
                    assert(self@ =~= old(self)@.after_pause_resume());
                }
                None
            },
            Some(s) => {
                self.current_sound = Some(
                    CurrentSoundData { paused: !s.paused, ..s },
                );
                proof {
                    assert(self@ =~= old(self)@.after_pause_resume());
                }
                Some(!s.paused)
            },
        }
    }

    /// Persists the volume knob. The collaborator applies it to the device's
    /// main track whether or not a session exists.
    pub fn set_volume(&mut self, volume: u32)
        requires
            old(self)@.wf(),
        ensures
            final(self)@.wf(),
            final(self)@ == old(self)@.after_set_volume(volume),
    {
        self.volume = volume;
        proof {
            assert(self@ =~= old(self)@.after_set_volume(volume));
        }
    }

    pub fn get_volume(&self) -> (r: u32)
        ensures
            r == self@.volume,
    {
        self.volume
    }

    /// Persists the rate knob and re-asserts it on the active session, if
    /// any; it will also be asserted on every future session.
    pub fn set_playback_rate(&mut self, rate: u32)
        requires
            old(self)@.wf(),
        ensures
            final(self)@.wf(),
            final(self)@ == old(self)@.after_set_playback_rate(rate),
    {
        self.playback_rate = rate;
        match self.current_sound {
            Some(s) => {
                self.current_sound = Some(CurrentSoundData { rate, ..s });
            },
            None => {},
        }
        proof {
            assert(self@ =~= old(self)@.after_set_playback_rate(rate));
        }
    }

    pub fn get_playback_rate(&self) -> (r: u32)
        ensures
            r == self@.playback_rate,
    {
        self.playback_rate
    }

    /// Length of the current stream in milliseconds, 0 when none is
    /// attached. Pure read; never fails.
    pub fn get_current_sound_duration(&self) -> (r: u64)
        ensures
            r == match self@.current_sound {
                Some(s) => s.duration,
                None => 0u64,
            },
    {
        match self.current_sound {
            Some(s) => s.duration,
            None => 0,
        }
    }

    /// Decides whether a seek should be performed: only when a session
    /// exists. The engine's own state does not change; the position lives
    /// with the stream.
    pub fn set_current_sound_pos(&mut self, position: u64) -> (r: bool)
        requires
            old(self)@.wf(),
        ensures
            final(self)@.wf(),
            final(self)@ == old(self)@,
            r == (old(self)@.current_sound is Some),
    {
        let r = match self.current_sound {
            Some(_) => true,
            None => false,
        };
        proof {
            assert(self@ =~= old(self)@);
        }
        let _ = position;
        r
    }

    /// One poll of the advance monitor, with the position the collaborator
    /// read off the stream. When the current stream has reached its end (up
    /// to [`ADVANCE_EPSILON_MS`]), the next track — wrapping around from
    /// the last to the first — becomes current exactly as through
    /// [`Self::play_track`], and its index is returned so the collaborator
    /// opens its path; otherwise nothing changes.
    pub fn advance_if_finished(&mut self, position: u64) -> (r: Option<usize>)
        requires
            old(self)@.wf(),
        ensures
            final(self)@.wf(),
            final(self)@ == old(self)@.after_advance(position),
            r == if old(self)@.advance_triggers(position) {
                Some(old(self)@.next_track_index())
            } else {
                None::<usize>
            },
            // Wraparound at the end of the list, stated plainly:
            old(self)@.advance_triggers(position) && old(self)@.current_track_index
                == Some((old(self)@.tracklist.len() - 1) as usize)
                ==> final(self)@.current_track_index == Some(0usize),
    {
        let sound = match self.current_sound {
            Some(s) => s,
            None => {
                proof {
                    assert(self@ =~= old(self)@.after_advance(position));
                }
                return None;
            },
        };
        let current = match self.current_track_index {
            Some(i) => i,
            None => {
                proof {
                    assert(self@ =~= old(self)@.after_advance(position));
                }
                return None;
            },
        };
        let finished = position >= sound.duration
            || sound.duration - position <= ADVANCE_EPSILON_MS;
        if !finished {
            proof {
                assert(self@ =~= old(self)@.after_advance(position));
            }
            return None;
        }
        let len = self.tracklist.len();
        let next = if current + 1 == len {
            0
        } else {
            current + 1
        };
        self.current_track_index = Some(next);
        self.current_sound = None;
        proof {
            assert(self@ =~= old(self)@.after_advance(position));
        }
        Some(next)
    }
}

/// The playback rate outlives any one stream: setting it, then choosing
/// another track and attaching the stream the collaborator opened, yields a
/// session that already carries that rate — no second rate command occurs
/// between the three steps.
pub proof fn lemma_rate_persists_across_track_change(
    m: PlayerModel,
    rate: u32,
    track_index: usize,
    duration: u64,
)
    requires
        m.wf(),
        track_index < m.tracklist.len(),
    ensures
        m.after_set_playback_rate(rate).after_play_track(track_index).after_play(
            duration,
        ).current_sound == Some(CurrentSoundData { duration, paused: false, rate }),
        m.after_set_playback_rate(rate).after_play_track(track_index).after_play(
            duration,
        ).playback_rate == rate,
{
}

/// Moving the first entry up swaps it with the last: the list is circular
/// for reordering.
pub proof fn lemma_move_up_wraps(m: PlayerModel)
    requires
        m.wf(),
        1 < m.tracklist.len() <= usize::MAX,
    ensures
        m.after_move_up(0).tracklist == m.tracklist.update(0, m.tracklist.last()).update(
            m.tracklist.len() - 1,
            m.tracklist[0],
        ),
{
}

/// Moving the last entry down swaps it with the first: the list is circular
/// for reordering.
pub proof fn lemma_move_down_wraps(m: PlayerModel)
    requires
        m.wf(),
        1 < m.tracklist.len() <= usize::MAX,
    ensures
        m.after_move_down((m.tracklist.len() - 1) as usize).tracklist == m.tracklist.update(
            m.tracklist.len() - 1,
            m.tracklist[0],
        ).update(0, m.tracklist.last()),
{
    assert(m.after_move_down((m.tracklist.len() - 1) as usize).tracklist =~= m.tracklist.update(
        m.tracklist.len() - 1,
        m.tracklist[0],
    ).update(0, m.tracklist.last()));
}

/// The advance monitor wraps around: a stream finishing on the last track
/// makes the first track current.
pub proof fn lemma_advance_wraps(m: PlayerModel, position: u64)
    requires
        m.wf(),
        0 < m.tracklist.len() <= usize::MAX,
        m.current_track_index == Some((m.tracklist.len() - 1) as usize),
        m.current_sound matches Some(s) && position + ADVANCE_EPSILON_MS >= s.duration,
    ensures
        m.after_advance(position).current_track_index == Some(0usize),
{
}

} // verus!
