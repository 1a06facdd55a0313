//! Transport coordinator: the playback state machine. It owns the library of
//! track names, the current selection, the display metadata, elapsed-time
//! accrual against a wall-clock anchor, the volume, and the
//! stopped/playing/paused flag.
//!
//! The coordinator never touches the clock, the file system or the audio
//! engine itself: the host reads the clock and performs engine work, and each
//! transport operation takes the host's observations (the current instant in
//! milliseconds, the outcome of loading a file, the end-of-stream signal) and
//! answers with what the engine must now do.

use vstd::prelude::*;
use vstd::arithmetic::div_mod::{lemma_div_pos_is_pos, lemma_multiply_divide_le};
use vstd::arithmetic::mul::{lemma_mul_is_commutative, lemma_mul_inequality, lemma_mul_nonnegative,
    lemma_mul_upper_bound};
use vstd::string::*;
use crate::metadata::{TagInfo, artist_of, load_metadata, title_of};
use crate::scanner::{FileEntry, scan, scan_spec};

verus! {

/// Full scale of the volume control, in per-mille: 1000 stands for 1.0.
pub const VOLUME_MAX: u32 = 1000;

/// The volume a fresh coordinator starts with: half of full scale.
pub const DEFAULT_VOLUME: u32 = 500;

/// The placeholder total duration shown before any track was loaded: 200 s.
pub const DEFAULT_TOTAL_MS: u64 = 200000;

/// Tracks no longer than this (10 s) have each tick's delta scaled down by
/// `total / SHORT_TRACK_MS`: a deliberate quirk of the accounting for short
/// clips, which therefore run the progress display slower than wall time.
pub const SHORT_TRACK_MS: u64 = 10000;

/// The playback state machine's three states.
#[derive(Clone, Copy, PartialEq, Eq, Structural, Debug)]
pub enum PlayState {
    Stopped,
    Playing,
    Paused,
}

/// What came of the host's attempt to open the selected track: the embedded
/// tag it could read (if any) and the probed duration, or failure to open or
/// decode the file at all.
pub enum LoadOutcome {
    Opened { tag: Option<TagInfo>, duration_ms: u64 },
    OpenFailed,
}

/// What an advance of the selection decided: load the track at this index,
/// stop because the last track was already selected, or nothing because no
/// track was selected.
#[derive(Clone, Copy, PartialEq, Eq, Structural, Debug)]
pub enum AdvanceOutcome {
    Advanced(usize),
    ReachedEnd,
    NoSelection,
}

/// What the play/pause toggle decided the engine must do: pause, resume, run
/// the load flow for this index, or nothing for want of a selection.
#[derive(Clone, Copy, PartialEq, Eq, Structural, Debug)]
pub enum ToggleOutcome {
    NowPaused,
    NowPlaying,
    StartLoad(usize),
    NoTrack,
}

/// The playback/transport coordinator's whole state.
pub struct Transport {
    /// The library: file names of the playable tracks, in scan order.
    pub songs: Vec<String>,
    /// The selected track, an index into `songs`, if any.
    pub selected: Option<usize>,
    /// Display title of the loaded track.
    pub title: String,
    /// Display artist of the loaded track.
    pub artist: String,
    /// Elapsed playback time of the session, in milliseconds.
    pub elapsed_ms: u64,
    /// Total duration of the loaded track, in milliseconds.
    pub total_ms: u64,
    /// The wall-clock instant accrual last restarted from, while one is set.
    pub anchor_ms: Option<u64>,
    /// Volume in per-mille of full scale.
    pub volume: u32,
    /// Stopped, playing or paused.
    pub state: PlayState,
}

impl Transport {
    /// The coordinator's invariant: the selection, if any, indexes into the
    /// library; elapsed time never exceeds the total duration; the volume
    /// never exceeds full scale.
    pub open spec fn wf(self) -> bool {
        &&& match self.selected {
            Some(i) => i < self.songs.len(),
            None => true,
        }
        &&& self.elapsed_ms <= self.total_ms
        &&& self.volume <= VOLUME_MAX
    }
}

/// The wall-clock delta a tick observes: how far `now_ms` lies past the
/// anchor, zero without an anchor or with a clock that did not move forward.
pub open spec fn tick_delta(t: Transport, now_ms: u64) -> int {
    match t.anchor_ms {
        Some(a) => if now_ms >= a {
            now_ms - a
        } else {
            0
        },
        None => 0,
    }
}

/// The delta a tick accrues: the raw wall-clock delta, except that for a
/// track of at most `SHORT_TRACK_MS` total duration the delta is scaled down
/// to `delta * total / SHORT_TRACK_MS` (the short-clip quirk).
pub open spec fn normalized_delta(total_ms: u64, delta: int) -> int {
    if total_ms <= SHORT_TRACK_MS {
        (delta * total_ms) / (SHORT_TRACK_MS as int)
    } else {
        delta
    }
}

/// The elapsed time after a tick: the accrued delta is added and the sum is
/// clamped to the total duration.
pub open spec fn tick_elapsed(t: Transport, now_ms: u64) -> u64 {
    let e = t.elapsed_ms + normalized_delta(t.total_ms, tick_delta(t, now_ms));
    if e >= t.total_ms {
        t.total_ms
    } else {
        e as u64
    }
}

/// What one tick does to the whole state: while playing with an anchor set,
/// accrue the clamped delta and move the anchor to `now_ms`; otherwise
/// nothing.
pub open spec fn spec_tick(t: Transport, now_ms: u64) -> Transport {
    if t.state is Playing && t.anchor_ms is Some {
        Transport { elapsed_ms: tick_elapsed(t, now_ms), anchor_ms: Some(now_ms), ..t }
    } else {
        t
    }
}

/// A playback session was shut down: stopped, elapsed time reset, anchor
/// cleared, and everything else — library, selection, metadata, duration,
/// volume — kept.
pub open spec fn session_stopped(pre: Transport, post: Transport) -> bool {
    &&& post.state is Stopped
    &&& post.elapsed_ms == 0
    &&& post.anchor_ms is None
    &&& post.songs == pre.songs
    &&& post.selected == pre.selected
    &&& post.title == pre.title
    &&& post.artist == pre.artist
    &&& post.total_ms == pre.total_ms
    &&& post.volume == pre.volume
}

/// What advancing the selection by one does: with no selection, nothing;
/// below the last index, move the selection up one; at the last index, stop
/// the session and keep the selection where it is — no wraparound.
pub open spec fn advance_post(pre: Transport, post: Transport, r: AdvanceOutcome) -> bool {
    match pre.selected {
        None => post == pre && r == AdvanceOutcome::NoSelection,
        Some(i) => if i + 1 < pre.songs.len() {
            &&& r == AdvanceOutcome::Advanced((i + 1) as usize)
            &&& post == Transport { selected: Some((i + 1) as usize), ..pre }
        } else {
            &&& r == AdvanceOutcome::ReachedEnd
            &&& session_stopped(pre, post)
        },
    }
}

/// A seek target clamped to the loaded track: negative positions become 0,
/// positions past the total duration become the total duration.
pub open spec fn clamp_position(position_ms: i64, total_ms: u64) -> u64 {
    if position_ms < 0 {
        0
    } else if position_ms > total_ms {
        total_ms
    } else {
        position_ms as u64
    }
}

/// A volume clamped to full scale.
pub open spec fn clamp_volume(volume: u32) -> u32 {
    if volume > VOLUME_MAX {
        VOLUME_MAX
    } else {
        volume
    }
}

impl Transport {
    /// A fresh coordinator over the given library: nothing selected, nothing
    /// loaded, placeholder metadata and duration, half volume, stopped.
    pub fn new(songs: Vec<String>) -> (t: Transport)
        ensures
            t.wf(),
            t.songs == songs,
            t.selected is None,
            t.title@ == "Song Title"@,
            t.artist@ == "Unknown Artist"@,
            t.elapsed_ms == 0,
            t.total_ms == DEFAULT_TOTAL_MS,
            t.anchor_ms is None,
            t.volume == DEFAULT_VOLUME,
            t.state is Stopped,
    {
        Transport {
            songs,
            selected: None,
            title: String::from_str("Song Title"),
            artist: String::from_str("Unknown Artist"),
            elapsed_ms: 0,
            total_ms: DEFAULT_TOTAL_MS,
            anchor_ms: None,
            volume: DEFAULT_VOLUME,
            state: PlayState::Stopped,
        }
    }

    /// Shut the session down: transition to `Stopped`, reset elapsed time to
    /// zero and clear the anchor. The engine-side counterpart is halting and
    /// discarding the sink.
    pub fn stop(&mut self)
        requires
            old(self).wf(),
        ensures
            final(self).wf(),
            session_stopped(*old(self), *final(self)),
    {
        self.state = PlayState::Stopped;
        self.elapsed_ms = 0;
        self.anchor_ms = None;
    }

    /// Start or resume playback at the instant `now_ms`: transition to
    /// `Playing` and restart accrual from `now_ms`. The engine-side
    /// counterpart is resuming the sink at the current volume.
    pub fn play(&mut self, now_ms: u64)
        requires
            old(self).wf(),
        ensures
            final(self).wf(),
            *final(self) == (Transport {
                state: PlayState::Playing,
                anchor_ms: Some(now_ms),
                ..*old(self)
            }),
    {
        self.state = PlayState::Playing;
        self.anchor_ms = Some(now_ms);
    }

    /// Suspend playback: transition to `Paused` and clear the anchor, so
    /// elapsed time freezes. The engine-side counterpart is pausing the sink.
    pub fn pause(&mut self)
        requires
            old(self).wf(),
        ensures
            final(self).wf(),
            *final(self) == (Transport { state: PlayState::Paused, anchor_ms: None, ..*old(self) }),
    {
        self.state = PlayState::Paused;
        self.anchor_ms = None;
    }

    /// Select the track at `index`, if it is in range, shutting the current
    /// session down first; the host is then expected to run the load flow.
    /// Out of range, nothing changes.
    pub fn select(&mut self, index: usize) -> (ok: bool)
        requires
            old(self).wf(),
        ensures
            final(self).wf(),
            ok == (index < old(self).songs.len()),
            ok ==> final(self).selected == Some(index) && session_stopped(
                Transport { selected: Some(index), ..*old(self) },
                *final(self),
            ),
            !ok ==> *final(self) == *old(self),
    {
        if index < self.songs.len() {
            self.selected = Some(index);
            self.stop();
            true
        } else {
            false
        }
    }

    /// Record what loading the selected track yielded. Opened: display
    /// metadata is derived from the tag with the selected file name as the
    /// fallback title, the probed duration is taken over and elapsed time
    /// resets to zero. Failed to open: the display falls back to a
    /// placeholder, and the session is otherwise left alone.
    pub fn apply_load(&mut self, outcome: LoadOutcome)
        requires
            old(self).wf(),
            old(self).selected is Some,
        ensures
            final(self).wf(),
            final(self).songs == old(self).songs,
            final(self).selected == old(self).selected,
            final(self).volume == old(self).volume,
            final(self).state == old(self).state,
            final(self).anchor_ms == old(self).anchor_ms,
            outcome matches LoadOutcome::Opened { tag, duration_ms } ==> {
                &&& old(self).selected matches Some(i) ==> final(self).title@ == title_of(
                    tag,
                    old(self).songs@[i as int]@,
                )
                &&& final(self).artist@ == artist_of(tag)
                &&& final(self).total_ms == duration_ms
                &&& final(self).elapsed_ms == 0
            },
            outcome is OpenFailed ==> {
                &&& final(self).title@ == "Failed to load song"@
                &&& final(self).artist@ == "Unknown Artist"@
                &&& final(self).total_ms == old(self).total_ms
                &&& final(self).elapsed_ms == old(self).elapsed_ms
            },
    {
        match outcome {
            LoadOutcome::Opened { tag, duration_ms } => {
                if let Some(i) = self.selected {
                    let m = load_metadata(tag, self.songs[i].as_str());
                    self.title = m.title;
                    self.artist = m.artist;
                    self.total_ms = duration_ms;
                    self.elapsed_ms = 0;
                }
            },
            LoadOutcome::OpenFailed => {
                self.title = String::from_str("Failed to load song");
                self.artist = String::from_str("Unknown Artist");
            },
        }
    }

    /// The whole load flow for the selected track: shut the current session
    /// down, record the load's outcome, and — only when the track opened —
    /// start playing at `now_ms`. A track that failed to open leaves the
    /// coordinator stopped, showing the placeholder.
    pub fn load_and_play(&mut self, outcome: LoadOutcome, now_ms: u64)
        requires
            old(self).wf(),
            old(self).selected is Some,
        ensures
            final(self).wf(),
            final(self).songs == old(self).songs,
            final(self).selected == old(self).selected,
            final(self).volume == old(self).volume,
            outcome matches LoadOutcome::Opened { tag, duration_ms } ==> {
                &&& old(self).selected matches Some(i) ==> final(self).title@ == title_of(
                    tag,
                    old(self).songs@[i as int]@,
                )
                &&& final(self).artist@ == artist_of(tag)
                &&& final(self).total_ms == duration_ms
                &&& final(self).elapsed_ms == 0
                &&& final(self).state is Playing
                &&& final(self).anchor_ms == Some(now_ms)
            },
            outcome is OpenFailed ==> {
                &&& final(self).title@ == "Failed to load song"@
                &&& final(self).artist@ == "Unknown Artist"@
                &&& final(self).total_ms == old(self).total_ms
                &&& final(self).elapsed_ms == 0
                &&& final(self).state is Stopped
                &&& final(self).anchor_ms is None
            },
    {
        let opened = match &outcome {
            LoadOutcome::Opened { .. } => true,
            LoadOutcome::OpenFailed => false,
        };
        self.stop();
        self.apply_load(outcome);
        if opened {
            self.play(now_ms);
        }
    }

    /// Advance the selection by one. At the last index the session stops and
    /// the selection stays put — no wraparound to the first track. With no
    /// selection, nothing happens.
    pub fn next(&mut self) -> (r: AdvanceOutcome)
        requires
            old(self).wf(),
        ensures
            final(self).wf(),
            advance_post(*old(self), *final(self), r),
    {
        match self.selected {
            Some(i) => {
                if i + 1 < self.songs.len() {
                    self.selected = Some(i + 1);
                    AdvanceOutcome::Advanced(i + 1)
                } else {
                    self.stop();
                    AdvanceOutcome::ReachedEnd
                }
            },
            None => AdvanceOutcome::NoSelection,
        }
    }

    /// Move the selection back by one and report which track to load. At
    /// index 0, and with no selection, this is a no-op.
    pub fn previous(&mut self) -> (r: Option<usize>)
        requires
            old(self).wf(),
        ensures
            final(self).wf(),
            match old(self).selected {
                Some(i) => if i > 0 {
                    r == Some((i - 1) as usize) && *final(self) == (Transport {
                        selected: Some((i - 1) as usize),
                        ..*old(self)
                    })
                } else {
                    r is None && *final(self) == *old(self)
                },
                None => r is None && *final(self) == *old(self),
            },
    {
        match self.selected {
            Some(i) => {
                if i > 0 {
                    self.selected = Some(i - 1);
                    Some(i - 1)
                } else {
                    None
                }
            },
            None => None,
        }
    }

    /// Toggle between playing and paused. From `Stopped` it behaves as a
    /// select of the already chosen track, telling the host to run the load
    /// flow; with nothing chosen it does nothing.
    pub fn toggle_play_pause(&mut self, now_ms: u64) -> (r: ToggleOutcome)
        requires
            old(self).wf(),
        ensures
            final(self).wf(),
            old(self).state is Playing ==> r == ToggleOutcome::NowPaused && *final(self)
                == (Transport { state: PlayState::Paused, anchor_ms: None, ..*old(self) }),
            old(self).state is Paused ==> r == ToggleOutcome::NowPlaying && *final(self)
                == (Transport {
                state: PlayState::Playing,
                anchor_ms: Some(now_ms),
                ..*old(self)
            }),
            old(self).state is Stopped ==> match old(self).selected {
                Some(i) => r == ToggleOutcome::StartLoad(i) && session_stopped(
                    *old(self),
                    *final(self),
                ),
                None => r == ToggleOutcome::NoTrack && *final(self) == *old(self),
            },
    {
        match self.state {
            PlayState::Playing => {
                self.pause();
                ToggleOutcome::NowPaused
            },
            PlayState::Paused => {
                self.play(now_ms);
                ToggleOutcome::NowPlaying
            },
            PlayState::Stopped => {
                match self.selected {
                    Some(i) => {
                        self.stop();
                        ToggleOutcome::StartLoad(i)
                    },
                    None => ToggleOutcome::NoTrack,
                }
            },
        }
    }

    /// One tick of the host's refresh loop at instant `now_ms`. While
    /// playing, the wall-clock delta since the anchor — scaled down for
    /// short tracks — is added to elapsed time, clamped to the total
    /// duration, and the anchor moves to `now_ms`; in any other state
    /// nothing changes. Elapsed time never leaves `[0, total_ms]`.
    pub fn tick(&mut self, now_ms: u64)
        requires
            old(self).wf(),
        ensures
            final(self).wf(),
            *final(self) == spec_tick(*old(self), now_ms),
    {
        let playing = match self.state {
            PlayState::Playing => true,
            _ => false,
        };
        if playing {
            if let Some(a) = self.anchor_ms {
                let delta: u64 = if now_ms >= a {
                    now_ms - a
                } else {
                    0
                };
                let nd: u64 = if self.total_ms <= SHORT_TRACK_MS {
                    proof {
                        lemma_mul_upper_bound(
                            delta as int,
                            0xffffffffffffffff,
                            self.total_ms as int,
                            SHORT_TRACK_MS as int,
                        );
                    }
                    let prod: u128 = (delta as u128) * (self.total_ms as u128);
                    let wide: u128 = prod / (SHORT_TRACK_MS as u128);
                    proof {
                        lemma_mul_nonnegative(delta as int, self.total_ms as int);
                        lemma_div_pos_is_pos(
                            delta as int * self.total_ms as int,
                            SHORT_TRACK_MS as int,
                        );
                        lemma_mul_inequality(
                            self.total_ms as int,
                            SHORT_TRACK_MS as int,
                            delta as int,
                        );
                        lemma_mul_is_commutative(delta as int, self.total_ms as int);
                        lemma_mul_is_commutative(SHORT_TRACK_MS as int, delta as int);
                        lemma_multiply_divide_le(
                            delta as int * self.total_ms as int,
                            SHORT_TRACK_MS as int,
                            delta as int,
                        );
                    }
                    wide as u64
                } else {
                    delta
                };
                let room: u64 = self.total_ms - self.elapsed_ms;
                if nd >= room {
                    self.elapsed_ms = self.total_ms;
                } else {
                    self.elapsed_ms = self.elapsed_ms + nd;
                }
                self.anchor_ms = Some(now_ms);
            }
        }
    }

    /// Record that the engine signalled the end of the stream: when the
    /// polled flag was set, advance to the next track (the auto-advance);
    /// otherwise nothing happens.
    pub fn check_finished(&mut self, finished: bool) -> (r: Option<AdvanceOutcome>)
        requires
            old(self).wf(),
        ensures
            final(self).wf(),
            !finished ==> r is None && *final(self) == *old(self),
            finished ==> (r matches Some(a) && advance_post(*old(self), *final(self), a)),
    {
        if finished {
            Some(self.next())
        } else {
            None
        }
    }

    /// Seek the loaded track to `position_ms`, clamped to `[0, total_ms]`:
    /// elapsed time jumps to the clamped target and playback resumes at
    /// `now_ms`. The clamped target is handed back for the engine-side seek;
    /// with no selection the seek is a no-op.
    pub fn seek_to(&mut self, position_ms: i64, now_ms: u64) -> (r: Option<u64>)
        requires
            old(self).wf(),
        ensures
            final(self).wf(),
            old(self).selected is None ==> r is None && *final(self) == *old(self),
            old(self).selected is Some ==> r == Some(
                clamp_position(position_ms, old(self).total_ms),
            ) && *final(self) == (Transport {
                elapsed_ms: clamp_position(position_ms, old(self).total_ms),
                state: PlayState::Playing,
                anchor_ms: Some(now_ms),
                ..*old(self)
            }),
    {
        match self.selected {
            Some(_) => {
                let target: u64 = if position_ms < 0 {
                    0
                } else {
                    let p = position_ms as u64;
                    if p > self.total_ms {
                        self.total_ms
                    } else {
                        p
                    }
                };
                self.elapsed_ms = target;
                self.state = PlayState::Playing;
                self.anchor_ms = Some(now_ms);
                Some(target)
            },
            None => None,
        }
    }

    /// Move the progress display to `position_ms`, clamped to the total
    /// duration; nothing else changes.
    pub fn set_elapsed(&mut self, position_ms: u64)
        requires
            old(self).wf(),
        ensures
            final(self).wf(),
            *final(self) == (Transport {
                elapsed_ms: if position_ms > old(self).total_ms {
                    old(self).total_ms
                } else {
                    position_ms
                },
                ..*old(self)
            }),
    {
        if position_ms > self.total_ms {
            self.elapsed_ms = self.total_ms;
        } else {
            self.elapsed_ms = position_ms;
        }
    }

    /// Set the volume, clamped to full scale: a request above `VOLUME_MAX`
    /// sticks at `VOLUME_MAX`. The engine-side counterpart forwards the new
    /// volume to the sink, playing or paused.
    pub fn set_volume(&mut self, volume: u32)
        requires
            old(self).wf(),
        ensures
            final(self).wf(),
            *final(self) == (Transport { volume: clamp_volume(volume), ..*old(self) }),
    {
        if volume > VOLUME_MAX {
            self.volume = VOLUME_MAX;
        } else {
            self.volume = volume;
        }
    }

    /// Switch to a new directory listing: the library is rebuilt from a scan
    /// of the listing, the selection is cleared and the session shut down.
    pub fn change_directory(&mut self, entries: &Vec<FileEntry>)
        requires
            old(self).wf(),
        ensures
            final(self).wf(),
            final(self).songs@.map_values(|s: String| s@) == scan_spec(entries@),
            final(self).selected is None,
            final(self).state is Stopped,
            final(self).elapsed_ms == 0,
            final(self).anchor_ms is None,
            final(self).title == old(self).title,
            final(self).artist == old(self).artist,
            final(self).total_ms == old(self).total_ms,
            final(self).volume == old(self).volume,
    {
        self.songs = scan(entries);
        self.selected = None;
        self.stop();
    }
}

/// Elapsed-time accounting is idempotent in the clock instant: once a tick
/// has run at `now_ms`, a second tick at the same `now_ms` observes a zero
/// delta and changes nothing, so the same instant is never counted twice.
pub proof fn lemma_tick_idempotent(t: Transport, now_ms: u64)
    ensures
        spec_tick(spec_tick(t, now_ms), now_ms) == spec_tick(t, now_ms),
{
    let t1 = spec_tick(t, now_ms);
    if t.state is Playing && t.anchor_ms is Some {
        assert(tick_delta(t1, now_ms) == 0);
        assert(normalized_delta(t1.total_ms, 0) == 0);
        assert(tick_elapsed(t1, now_ms) == t1.elapsed_ms);
        assert(spec_tick(t1, now_ms) == t1);
    }
}

/// A tick keeps elapsed time clamped: from any well-formed state, the state
/// after a tick is well-formed again, so over any sequence of ticks elapsed
/// time stays within `[0, total_ms]`.
pub proof fn lemma_tick_clamps(t: Transport, now_ms: u64)
    requires
        t.wf(),
    ensures
        spec_tick(t, now_ms).wf(),
        spec_tick(t, now_ms).elapsed_ms <= spec_tick(t, now_ms).total_ms,
{
    if t.state is Playing && t.anchor_ms is Some {
        let delta = tick_delta(t, now_ms);
        if t.total_ms <= SHORT_TRACK_MS {
            lemma_mul_nonnegative(delta, t.total_ms as int);
            lemma_div_pos_is_pos(delta * t.total_ms as int, SHORT_TRACK_MS as int);
        }
    }
}

} // verus!
