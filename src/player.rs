//! The playback controller: its state, the intents it reacts to, and the commands it
//! hands to the audio side.
use vstd::prelude::*;

use crate::track::{base_name, base_name_of};
use crate::volume::{lower, lowered, percent, raise, raised, INITIAL_VOLUME, MAX_VOLUME};

verus! {

/// A user intent, delivered to the controller one at a time.
#[derive(Debug, Clone, PartialEq, Eq)]
pub enum Message {
    /// Pause the loaded track if it is playing, resume it otherwise.
    PlayPause,
    /// Stop the loaded track (it is not rewound).
    Stop,
    /// Ask the user for an audio file.
    OpenFile,
    /// The user picked the file at this path.
    FileSelected(String),
    /// One volume step louder.
    VolumeUp,
    /// One volume step quieter.
    VolumeDown,
}

/// What the audio side is to do after the controller has handled an event.
#[derive(Debug, Clone, PartialEq, Eq)]
pub enum Command {
    /// Nothing.
    Nothing,
    /// Pause the live sink.
    PauseSink,
    /// Resume the live sink.
    ResumeSink,
    /// Stop the live sink.
    StopSink,
    /// Prompt the user for a file, without blocking; a pick comes back as
    /// `Message::FileSelected`, a dismissal as `Message::Stop`.
    PickFile,
    /// Drop the live sink and its output stream first; then open the default output,
    /// make a sink on it, decode the file at this path into it, and report the outcome
    /// with `MusicPlayer::load_finished`.
    LoadFile(String),
    /// Set the live sink's gain to this many tenths of full gain.
    SetSinkVolume(u8),
}

/// How an attempt to load a file ended.
#[derive(Debug, Clone, Copy, PartialEq, Eq, Structural)]
pub enum LoadOutcome {
    /// The file was decoded and queued on a new sink, which is now the live one.
    Loaded,
    /// The default audio output could not be opened.
    OutputUnavailable,
    /// The file could not be opened or decoded as audio.
    DecodeFailed,
}

/// What the player shows as its status line.
#[derive(Debug, Clone, Copy, PartialEq, Eq, Structural)]
pub enum Status {
    /// Audio is rendering.
    Playing,
    /// A track is known but not rendering.
    Paused,
    /// No file has been loaded.
    NoFile,
}

/// The controller's state as a mathematical value.
pub struct PlayerState {
    /// Audio is rendering.
    pub playing: bool,
    /// The label of the last track that was loaded.
    pub track: Option<Seq<char>>,
    /// A sink is alive on the audio side.
    pub sink_loaded: bool,
    /// The path of a file whose loading has been commanded and not yet reported.
    pub pending: Option<Seq<char>>,
    /// The volume, in tenths of full gain.
    pub volume: nat,
}

impl PlayerState {
    /// The volume lies within its bounds, and only a live sink can be playing.
    pub open spec fn wf(self) -> bool {
        &&& self.volume <= MAX_VOLUME
        &&& self.playing ==> self.sink_loaded
    }
}

/// The state of a new player: nothing loaded, not playing, half volume.
pub open spec fn initial_state() -> PlayerState {
    PlayerState {
        playing: false,
        track: None,
        sink_loaded: false,
        pending: None,
        volume: INITIAL_VOLUME as nat,
    }
}

/// The state after the controller has handled a message.
pub open spec fn step(s: PlayerState, m: Message) -> PlayerState {
    match m {
        Message::PlayPause => if s.sink_loaded {
            PlayerState { playing: !s.playing, ..s }
        } else {
            s
        },
        Message::Stop => if s.sink_loaded {
            PlayerState { playing: false, ..s }
        } else {
            s
        },
        Message::OpenFile => s,
        Message::FileSelected(path) => PlayerState {
            playing: false,
            sink_loaded: false,
            pending: Some(path@),
            ..s
        },
        Message::VolumeUp => PlayerState { volume: raised(s.volume), ..s },
        Message::VolumeDown => PlayerState { volume: lowered(s.volume), ..s },
    }
}

/// The command the controller issues for a message.
pub open spec fn command_for(s: PlayerState, m: Message) -> Command {
    match m {
        Message::PlayPause => if !s.sink_loaded {
            Command::Nothing
        } else if s.playing {
            Command::PauseSink
        } else {
            Command::ResumeSink
        },
        Message::Stop => if s.sink_loaded {
            Command::StopSink
        } else {
            Command::Nothing
        },
        Message::OpenFile => Command::PickFile,
        Message::FileSelected(path) => Command::LoadFile(path),
        Message::VolumeUp => if s.sink_loaded {
            Command::SetSinkVolume(raised(s.volume) as u8)
        } else {
            Command::Nothing
        },
        Message::VolumeDown => if s.sink_loaded {
            Command::SetSinkVolume(lowered(s.volume) as u8)
        } else {
            Command::Nothing
        },
    }
}

/// The state after the audio side has reported how loading went. On success the new
/// sink is the live one, paused, and the track is labelled by the file's base name; on
/// failure no sink is alive and the label stays as it was. A report with no load
/// pending changes nothing.
pub open spec fn finish(s: PlayerState, o: LoadOutcome) -> PlayerState {
    match s.pending {
        None => s,
        Some(path) => match o {
            LoadOutcome::Loaded => PlayerState {
                playing: false,
                track: Some(base_name_of(path)),
                sink_loaded: true,
                pending: None,
                volume: s.volume,
            },
            _ => PlayerState { playing: false, sink_loaded: false, pending: None, ..s },
        },
    }
}

/// The command the controller issues on a load report: the new sink gets the current
/// volume.
pub open spec fn finish_command(s: PlayerState, o: LoadOutcome) -> Command {
    if s.pending is Some && o == LoadOutcome::Loaded {
        Command::SetSinkVolume(s.volume as u8)
    } else {
        Command::Nothing
    }
}

/// The status line for a state.
pub open spec fn status_of(s: PlayerState) -> Status {
    if s.playing {
        Status::Playing
    } else if s.track is Some {
        Status::Paused
    } else {
        Status::NoFile
    }
}

/// The playback controller. The audio sink itself lives with the audio side; the
/// controller knows whether one is alive.
pub struct MusicPlayer {
    is_playing: bool,
    current_track: Option<String>,
    sink_loaded: bool,
    pending: Option<String>,
    volume: u8,
}

impl View for MusicPlayer {
    type V = PlayerState;

    closed spec fn view(&self) -> PlayerState {
        PlayerState {
            playing: self.is_playing,
            track: match self.current_track {
                Some(t) => Some(t@),
                None => None,
            },
            sink_loaded: self.sink_loaded,
            pending: match self.pending {
                Some(p) => Some(p@),
                None => None,
            },
            volume: self.volume as nat,
        }
    }
}

impl Default for MusicPlayer {
    fn default() -> (r: Self)
        ensures
            r@ == initial_state(),
            r@.wf(),
    {
        MusicPlayer::new()
    }
}

impl MusicPlayer {
    /// A player with nothing loaded, not playing, at half volume.
    pub fn new() -> (r: Self)
        ensures
            r@ == initial_state(),
            r@.wf(),
    {
        MusicPlayer {
            is_playing: false,
            current_track: None,
            sink_loaded: false,
            pending: None,
            volume: INITIAL_VOLUME,
        }
    }

    /// Handles one user intent: moves to the next state and returns the command for
    /// the audio side.
    pub fn update(&mut self, message: Message) -> (r: Command)
        requires
            old(self)@.wf(),
        ensures
            final(self)@ == step(old(self)@, message),
            r == command_for(old(self)@, message),
            final(self)@.wf(),
    {
        match message {
            Message::PlayPause => {
                if self.sink_loaded {
                    if self.is_playing {
                        self.is_playing = false;
                        Command::PauseSink
                    } else {
                        self.is_playing = true;
                        Command::ResumeSink
                    }
                } else {
                    Command::Nothing
                }
            },
            Message::Stop => {
                if self.sink_loaded {
                    self.is_playing = false;
                    Command::StopSink
                } else {
                    Command::Nothing
                }
            },
            Message::OpenFile => Command::PickFile,
            Message::FileSelected(path) => {
                self.sink_loaded = false;
                self.is_playing = false;
                self.pending = Some(path.clone());
                Command::LoadFile(path)
            },
            Message::VolumeUp => {
                self.volume = raise(self.volume);
                if self.sink_loaded {
                    Command::SetSinkVolume(self.volume)
                } else {
                    Command::Nothing
                }
            },
            Message::VolumeDown => {
                self.volume = lower(self.volume);
                if self.sink_loaded {
                    Command::SetSinkVolume(self.volume)
                } else {
                    Command::Nothing
                }
            },
        }
    }

    /// Takes the audio side's report on the load that `update` commanded: returns the
    /// command that gives a new sink the current volume.
    pub fn load_finished(&mut self, outcome: LoadOutcome) -> (r: Command)
        requires
            old(self)@.wf(),
        ensures
            final(self)@ == finish(old(self)@, outcome),
            r == finish_command(old(self)@, outcome),
            final(self)@.wf(),
    {
        match self.pending.take() {
            None => Command::Nothing,
            Some(path) => {
                self.is_playing = false;
                match outcome {
                    LoadOutcome::Loaded => {
                        self.current_track = Some(base_name(path.as_str()));
                        self.sink_loaded = true;
                        Command::SetSinkVolume(self.volume)
                    },
                    _ => {
                        self.sink_loaded = false;
                        Command::Nothing
                    },
                }
            },
        }
    }

    /// Audio is rendering.
    pub fn is_playing(&self) -> (r: bool)
        ensures
            r == self@.playing,
    {
        self.is_playing
    }

    /// The label of the loaded track, if a track was ever loaded.
    pub fn current_track(&self) -> (r: Option<&str>)
        ensures
            match r {
                Some(t) => self@.track == Some(t@),
                None => self@.track is None,
            },
    {
        match &self.current_track {
            Some(t) => Some(t.as_str()),
            None => None,
        }
    }

    /// A sink is alive on the audio side.
    pub fn has_sink(&self) -> (r: bool)
        ensures
            r == self@.sink_loaded,
    {
        self.sink_loaded
    }

    /// The volume, in tenths of full gain.
    pub fn volume(&self) -> (r: u8)
        ensures
            r as nat == self@.volume,
    {
        self.volume
    }

    /// The volume as a percentage of full gain.
    pub fn volume_percent(&self) -> (r: u8)
        requires
            self@.wf(),
        ensures
            r as nat == self@.volume * 10,
    {
        percent(self.volume)
    }

    /// The status line to show.
    pub fn status(&self) -> (r: Status)
        ensures
            r == status_of(self@),
    {
        if self.is_playing {
            Status::Playing
        } else if self.current_track.is_some() {
            Status::Paused
        } else {
            Status::NoFile
        }
    }
}

} // verus!
