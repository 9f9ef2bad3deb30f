//! Remote control of the player (the desktop's media keys and applets): what each command
//! does to the player's state, where a seek lands, and what the player reports back.
use crate::app::{App, LoopMode};
use crate::paths::{file_name, path_file_name};
use crate::text::owned;
use vstd::prelude::*;

verus! {

/// A command from the desktop's media controls. Volume changes are handled apart.
#[derive(Debug, Clone, Copy, PartialEq, Eq, Structural)]
pub enum PlayerCommand {
    Play,
    Pause,
    PlayPause,
    Stop,
    Next,
    Previous,
    /// Move by this many microseconds, backwards when negative.
    Seek(i64),
    /// Go to this position, in microseconds.
    SetPosition(i64),
    SetLoop(LoopMode),
}

/// Where a seek lands.
#[derive(Debug, Clone, Copy, PartialEq, Eq, Structural)]
pub enum SeekTarget {
    /// This many microseconds into the track.
    Micros(u64),
    /// The end of the track.
    End,
}

/// The outside work a command asks for.
#[derive(Debug, Clone, Copy, PartialEq, Eq, Structural)]
pub enum CommandEffect {
    /// Nothing beyond the change of state.
    Nothing,
    /// Play the next track (see `App::next_track`).
    NextTrack,
    /// Play the previous track (see `App::previous_track`).
    PreviousTrack,
    /// Seek the audio output.
    SeekTo(SeekTarget),
}

/// The furthest position a position can be, in microseconds.
pub open spec fn max_position() -> int {
    (u64::MAX as int) * 1_000_000 + 999_999
}

/// A position of `p` microseconds, kept within a track of `duration` microseconds when
/// its length is known.
pub open spec fn within_track(p: u64, duration: Option<u128>) -> SeekTarget {
    match duration {
        Some(d) => if p > d {
            SeekTarget::End
        } else {
            SeekTarget::Micros(p)
        },
        None => SeekTarget::Micros(p),
    }
}

/// Where a relative seek lands from `current` microseconds: at the start when it would go
/// before it; else the sum, taken modulo 2^64 as a microsecond count is, and kept within
/// the track.
pub open spec fn seek_landing(current: int, offset: int, duration: Option<u128>) -> SeekTarget {
    let n = current + offset;
    if n < 0 {
        SeekTarget::Micros(0)
    } else {
        within_track((n % 0x1_0000_0000_0000_0000) as u64, duration)
    }
}

/// Where an absolute seek lands: the position's bits read as unsigned, kept within the
/// track.
pub open spec fn position_landing(position: i64, duration: Option<u128>) -> SeekTarget {
    within_track(position as u64, duration)
}

/// Where a seek by `offset` microseconds from `current` lands.
pub fn seek_target(current: u128, offset: i64, duration: Option<u128>) -> (t: SeekTarget)
    requires
        current <= max_position(),
    ensures
        t == seek_landing(current as int, offset as int, duration),
{
    let n: i128 = current as i128 + offset as i128;
    if n < 0 {
        SeekTarget::Micros(0)
    } else {
        let p: u64 = (n % 0x1_0000_0000_0000_0000i128) as u64;
        match duration {
            Some(d) => if (p as u128) > d {
                SeekTarget::End
            } else {
                SeekTarget::Micros(p)
            },
            None => SeekTarget::Micros(p),
        }
    }
}

/// Where a seek to `position` microseconds lands.
pub fn position_target(position: i64, duration: Option<u128>) -> (t: SeekTarget)
    ensures
        t == position_landing(position, duration),
{
    let p: u64 = position as u64;
    match duration {
        Some(d) => if (p as u128) > d {
            SeekTarget::End
        } else {
            SeekTarget::Micros(p)
        },
        None => SeekTarget::Micros(p),
    }
}

/// What the player reports of its playback.
#[derive(Debug, Clone, Copy, PartialEq, Eq, Structural)]
pub enum PlaybackState {
    Playing,
    Paused,
    Stopped,
}

impl App {
    /// The state after `cmd`: play and pause set the pause flag (when there is an audio
    /// output), play-pause flips it, stop pauses, and a loop status sets the loop mode.
    pub open spec fn after_command(self, cmd: PlayerCommand) -> App {
        let flip = App { is_paused: !self.is_paused, ..self };
        match cmd {
            PlayerCommand::Play => if self.is_paused && self.has_sink {
                flip
            } else {
                self
            },
            PlayerCommand::Pause | PlayerCommand::Stop => if !self.is_paused && self.has_sink {
                flip
            } else {
                self
            },
            PlayerCommand::PlayPause => if self.has_sink {
                flip
            } else {
                self
            },
            PlayerCommand::SetLoop(l) => App { loop_mode: l, ..self },
            _ => self,
        }
    }

    /// Carries out a media-control command on the state and says what outside work it
    /// asks for. `position` is where the track is now and `duration` its length, in
    /// microseconds.
    pub fn handle_mpris_command(&mut self, cmd: PlayerCommand, position: u128, duration: Option<u128>) -> (e: CommandEffect)
        requires
            position <= max_position(),
        ensures
            *final(self) == old(self).after_command(cmd),
            e == match cmd {
                PlayerCommand::Next => CommandEffect::NextTrack,
                PlayerCommand::Previous => CommandEffect::PreviousTrack,
                PlayerCommand::Seek(off) => CommandEffect::SeekTo(
                    seek_landing(position as int, off as int, duration),
                ),
                PlayerCommand::SetPosition(p) => CommandEffect::SeekTo(position_landing(p, duration)),
                _ => CommandEffect::Nothing,
            },
    {
        match cmd {
            PlayerCommand::Play => {
                if self.is_paused {
                    self.toggle_pause();
                }
                CommandEffect::Nothing
            },
            PlayerCommand::Pause | PlayerCommand::Stop => {
                if !self.is_paused {
                    self.toggle_pause();
                }
                CommandEffect::Nothing
            },
            PlayerCommand::PlayPause => {
                self.toggle_pause();
                CommandEffect::Nothing
            },
            PlayerCommand::Next => CommandEffect::NextTrack,
            PlayerCommand::Previous => CommandEffect::PreviousTrack,
            PlayerCommand::Seek(off) => CommandEffect::SeekTo(seek_target(position, off, duration)),
            PlayerCommand::SetPosition(p) => CommandEffect::SeekTo(position_target(p, duration)),
            PlayerCommand::SetLoop(l) => {
                self.loop_mode = l;
                CommandEffect::Nothing
            },
        }
    }

    /// What the player reports: stopped without a track, without an audio output, or when
    /// the output has run dry; else paused or playing.
    pub open spec fn playback_state(self, sink_empty: bool) -> PlaybackState {
        if self.current_track is Some && self.has_sink && !sink_empty {
            if self.is_paused {
                PlaybackState::Paused
            } else {
                PlaybackState::Playing
            }
        } else {
            PlaybackState::Stopped
        }
    }

    /// The playback state reported to the desktop; `sink_empty` tells whether the audio
    /// output has nothing left to play.
    pub fn playback_status(&self, sink_empty: bool) -> (s: PlaybackState)
        ensures
            s == self.playback_state(sink_empty),
    {
        if self.current_track.is_some() && self.has_sink && !sink_empty {
            if self.is_paused {
                PlaybackState::Paused
            } else {
                PlaybackState::Playing
            }
        } else {
            PlaybackState::Stopped
        }
    }

    /// The title reported to the desktop: the file name of the current track (`Unknown`
    /// when it has none), or nothing without a track.
    pub fn mpris_title(&self) -> (t: String)
        ensures
            t@ == match self.current_track {
                Some(p) => match path_file_name(p@) {
                    Some(n) => n,
                    None => "Unknown"@,
                },
                None => Seq::empty(),
            },
    {
        match &self.current_track {
            Some(p) => match file_name(p.as_str()) {
                Some(n) => n,
                None => owned("Unknown"),
            },
            None => String::new(),
        }
    }
}

/// Play and pause are idempotent, and play-pause twice gives back the state, when there is
/// an audio output.
pub proof fn law_play_pause(app: App)
    ensures
        app.after_command(PlayerCommand::Play).after_command(PlayerCommand::Play) == app.after_command(
            PlayerCommand::Play,
        ),
        app.after_command(PlayerCommand::Pause).after_command(PlayerCommand::Pause)
            == app.after_command(PlayerCommand::Pause),
        app.after_command(PlayerCommand::PlayPause).after_command(PlayerCommand::PlayPause) == app,
        app.has_sink ==> !app.after_command(PlayerCommand::Play).is_paused,
        app.has_sink ==> app.after_command(PlayerCommand::Pause).is_paused,
{
}

/// A seek never lands past the end of a track of known length, nor before the start.
pub proof fn law_seek_within_track(current: int, offset: int, d: u128)
    ensures
        seek_landing(current, offset, Some(d)) matches SeekTarget::Micros(p) ==> p <= d,
        (0 <= current + offset <= d && current + offset <= u64::MAX) ==> seek_landing(current, offset, Some(d))
            == SeekTarget::Micros((current + offset) as u64),
{
    let n = current + offset;
    if 0 <= n <= u64::MAX {
        assert(n % 0x1_0000_0000_0000_0000 == n);
    }
}

/// A set-position lands where it asks: at that many microseconds into the track when the
/// track's length is unknown or the position is not past it, and at the end only when the
/// position is past the track's length.
pub proof fn law_set_position_lands_there(p: i64, d: u128)
    requires
        p >= 0,
    ensures
        p <= d ==> position_landing(p, Some(d)) == SeekTarget::Micros(p as u64),
        p > d ==> position_landing(p, Some(d)) == SeekTarget::End,
        position_landing(p, None) == SeekTarget::Micros(p as u64),
        position_landing(p, Some(d)) matches SeekTarget::Micros(q) ==> q == p && q <= d,
{
}

} // verus!
