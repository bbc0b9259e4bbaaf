//! A model of the single audio output device: the sequence of sources it has
//! been given (head playing, rest pending), its paused flag, volume and
//! playback position. Every mutating operation also records the device
//! command it stands for, so the unverified device layer can replay exactly
//! the calls this model decided on, in order, without re-deciding anything.

use crate::clamped_volume;
use vstd::prelude::*;

verus! {

/// Why a track could not be taken: its file was unreadable, its contents
/// were not a supported audio stream, or the output device failed.
#[derive(Clone, Copy, Debug, PartialEq, Eq, Structural)]
pub enum AudioError {
    Io,
    Decoder,
    Play,
}

impl AudioError {
    /// A short description for a non-fatal notice.
    pub fn describe(&self) -> (s: String)
        ensures
            s@ == match self {
                AudioError::Io => "IO error"@,
                AudioError::Decoder => "Decoder error"@,
                AudioError::Play => "Stream error"@,
            },
    {
        match self {
            AudioError::Io => "IO error".to_owned(),
            AudioError::Decoder => "Decoder error".to_owned(),
            AudioError::Play => "Stream error".to_owned(),
        }
    }
}

/// One call for the device layer to perform, in the order recorded.
#[derive(Debug, PartialEq)]
pub enum SinkCommand {
    /// Replace the device state with a fresh sink playing this file at this
    /// volume.
    Load { path: String, level: i16 },
    /// Add this file to the end of the device's play sequence.
    Append { path: String },
    /// Discard everything loaded and pause the device.
    Clear,
    /// Pause playback.
    Pause,
    /// Resume playback.
    Resume,
    /// Set the playback volume.
    SetVolume { level: i16 },
}

/// The mathematical value of a `SinkCommand`.
#[verifier::ext_equal]
pub enum CommandView {
    Load { path: Seq<char>, level: i16 },
    Append { path: Seq<char> },
    Clear,
    Pause,
    Resume,
    SetVolume { level: i16 },
}

impl View for SinkCommand {
    type V = CommandView;

    open spec fn view(&self) -> CommandView {
        match self {
            SinkCommand::Load { path, level } => CommandView::Load { path: path@, level: *level },
            SinkCommand::Append { path } => CommandView::Append { path: path@ },
            SinkCommand::Clear => CommandView::Clear,
            SinkCommand::Pause => CommandView::Pause,
            SinkCommand::Resume => CommandView::Resume,
            SinkCommand::SetVolume { level } => CommandView::SetVolume { level: *level },
        }
    }
}

/// The mathematical value of the device model.
#[verifier::ext_equal]
pub struct SinkView {
    /// The files in the device's play sequence; the head is the one heard.
    pub sources: Seq<Seq<char>>,
    /// Whether playback is paused. Meaningful only while a source is loaded.
    pub paused: bool,
    /// The volume, clamped to 0..=100.
    pub vol: i16,
    /// The playback offset of the head source, in milliseconds.
    pub pos_millis: u64,
    /// The device calls recorded and not yet handed out.
    pub commands: Seq<CommandView>,
}

impl SinkView {
    /// The device holds nothing: no source playing, none pending.
    pub open spec fn is_empty(self) -> bool {
        self.sources.len() == 0
    }

    /// The state after loading `path` as the sole source, playing, at a
    /// clamped volume.
    pub open spec fn loaded(self, path: Seq<char>, level: i16) -> SinkView {
        let lv = clamped_volume(level as int) as i16;
        SinkView {
            sources: seq![path],
            paused: false,
            vol: lv,
            pos_millis: 0,
            commands: self.commands.push(CommandView::Load { path, level: lv }),
        }
    }

    /// The state after appending `path` to the play sequence; nothing
    /// happens when no source is loaded, which is a caller error.
    pub open spec fn appended(self, path: Seq<char>) -> SinkView {
        if self.sources.len() >= 1 {
            SinkView {
                sources: self.sources.push(path),
                commands: self.commands.push(CommandView::Append { path }),
                ..self
            }
        } else {
            self
        }
    }

    /// The state after discarding all loaded audio: empty and paused.
    pub open spec fn cleared(self) -> SinkView {
        SinkView {
            sources: Seq::empty(),
            paused: true,
            pos_millis: 0,
            commands: self.commands.push(CommandView::Clear),
            ..self
        }
    }

    /// The state after flipping paused and playing; unchanged when empty.
    pub open spec fn toggled(self) -> SinkView {
        if self.sources.len() == 0 {
            self
        } else if self.paused {
            SinkView { paused: false, commands: self.commands.push(CommandView::Resume), ..self }
        } else {
            SinkView { paused: true, commands: self.commands.push(CommandView::Pause), ..self }
        }
    }

    /// The state after setting the volume to a clamped level. The device is
    /// told only while a source is loaded; a later load re-applies the level.
    pub open spec fn volume_set(self, level: int) -> SinkView {
        let lv = clamped_volume(level) as i16;
        if self.sources.len() > 0 {
            SinkView { vol: lv, commands: self.commands.push(CommandView::SetVolume { level: lv }), ..self }
        } else {
            SinkView { vol: lv, ..self }
        }
    }

    /// The state after the device finished the head source on its own and
    /// moved to the next; no command is recorded, the device already acted.
    pub open spec fn advanced(self) -> SinkView {
        if self.sources.len() == 0 {
            self
        } else {
            SinkView { sources: self.sources.skip(1), pos_millis: 0, ..self }
        }
    }

    /// The state after a position report from the device; an empty device is
    /// always at offset zero.
    pub open spec fn positioned(self, millis: u64) -> SinkView {
        if self.sources.len() == 0 {
            SinkView { pos_millis: 0, ..self }
        } else {
            SinkView { pos_millis: millis, ..self }
        }
    }
}

/// The model of the single output device.
pub struct SinkHandler {
    pub sources: Vec<String>,
    pub paused: bool,
    pub vol: i16,
    pub pos_millis: u64,
    pub commands: Vec<SinkCommand>,
}

impl View for SinkHandler {
    type V = SinkView;

    open spec fn view(&self) -> SinkView {
        SinkView {
            sources: self.sources@.map_values(|p: String| p@),
            paused: self.paused,
            vol: self.vol,
            pos_millis: self.pos_millis,
            commands: self.commands@.map_values(|c: SinkCommand| c@),
        }
    }
}

impl SinkHandler {
    /// A fresh model: no device state, full volume.
    pub fn new() -> (s: SinkHandler)
        ensures
            s@.sources == Seq::<Seq<char>>::empty(),
            s@.paused == false,
            s@.vol == 100i16,
            s@.pos_millis == 0u64,
            s@.commands == Seq::<CommandView>::empty(),
    {
        let s = SinkHandler {
            sources: Vec::new(),
            paused: false,
            vol: 100,
            pos_millis: 0,
            commands: Vec::new(),
        };
        proof {
            assert(s@.sources =~= Seq::<Seq<char>>::empty());
            assert(s@.commands =~= Seq::<CommandView>::empty());
        }
        s
    }

    /// Replaces whatever is loaded with `path` alone and begins playback at
    /// volume `level`.
    pub fn play_file(&mut self, path: &String, level: i16)
        ensures
            final(self)@ == old(self)@.loaded(path@, level),
    {
        self.sources.clear();
        self.sources.push(path.clone());
        self.paused = false;
        self.vol = clamp_volume(level);
        self.pos_millis = 0;
        self.commands.push(SinkCommand::Load { path: path.clone(), level: self.vol });
        proof {
            assert(final(self)@ =~~= old(self)@.loaded(path@, level));
        }
    }

    /// Adds `path` to the end of the play sequence, only if a source is
    /// already loaded; callers must load first.
    pub fn append_to_sink(&mut self, path: &String)
        ensures
            final(self)@ == old(self)@.appended(path@),
    {
        if self.sources.len() >= 1 {
            self.sources.push(path.clone());
            self.commands.push(SinkCommand::Append { path: path.clone() });
        }
        proof {
            assert(final(self)@ =~~= old(self)@.appended(path@));
        }
    }

    /// Flips paused and playing; does nothing when empty.
    pub fn toggle_play_pause(&mut self)
        ensures
            final(self)@ == old(self)@.toggled(),
    {
        if !self.sources.is_empty() {
            if self.paused {
                self.paused = false;
                self.commands.push(SinkCommand::Resume);
            } else {
                self.paused = true;
                self.commands.push(SinkCommand::Pause);
            }
        }
        proof {
            assert(final(self)@ =~~= old(self)@.toggled());
        }
    }

    /// Sets the playback volume, clamped to 0..=100.
    pub fn set_volume(&mut self, level: i16)
        ensures
            final(self)@ == old(self)@.volume_set(level as int),
    {
        self.vol = clamp_volume(level);
        if !self.sources.is_empty() {
            self.commands.push(SinkCommand::SetVolume { level: self.vol });
        }
        proof {
            assert(final(self)@ =~~= old(self)@.volume_set(level as int));
        }
    }

    /// Moves the volume by `delta` from where it stands, clamped.
    pub fn adjust_volume(&mut self, delta: i16)
        ensures
            final(self)@ == old(self)@.volume_set(old(self)@.vol + delta),
    {
        let target: i32 = self.vol as i32 + delta as i32;
        let clamped: i16 = if target < 0 {
            0
        } else if target > 100 {
            100
        } else {
            target as i16
        };
        self.vol = clamped;
        if !self.sources.is_empty() {
            self.commands.push(SinkCommand::SetVolume { level: self.vol });
        }
        proof {
            assert(final(self)@ =~~= old(self)@.volume_set(old(self)@.vol + delta));
        }
    }

    /// Discards all loaded audio and pauses; idempotent on the device state.
    pub fn clear(&mut self)
        ensures
            final(self)@ == old(self)@.cleared(),
    {
        self.sources.clear();
        self.paused = true;
        self.pos_millis = 0;
        self.commands.push(SinkCommand::Clear);
        proof {
            assert(final(self)@ =~~= old(self)@.cleared());
        }
    }

    /// Records that the device finished the head source and moved on.
    pub fn advance(&mut self)
        ensures
            final(self)@ == old(self)@.advanced(),
    {
        if !self.sources.is_empty() {
            self.sources.remove(0);
            self.pos_millis = 0;
        }
        proof {
            assert(final(self)@ =~~= old(self)@.advanced());
        }
    }

    /// Records the playback offset the device reported.
    pub fn update_position(&mut self, millis: u64)
        ensures
            final(self)@ == old(self)@.positioned(millis),
    {
        if self.sources.is_empty() {
            self.pos_millis = 0;
        } else {
            self.pos_millis = millis;
        }
        proof {
            assert(final(self)@ =~~= old(self)@.positioned(millis));
        }
    }

    /// The playback offset in whole seconds; zero when empty.
    pub fn sink_pos(&self) -> (r: u64)
        ensures
            r == if self@.is_empty() {
                0u64
            } else {
                self@.pos_millis / 1000u64
            },
    {
        if self.sources.is_empty() {
            0
        } else {
            self.pos_millis / 1000
        }
    }

    /// The playback offset in milliseconds; zero when empty.
    pub fn sink_pos_millis(&self) -> (r: u128)
        ensures
            r == if self@.is_empty() {
                0u128
            } else {
                self@.pos_millis as u128
            },
    {
        if self.sources.is_empty() {
            0
        } else {
            self.pos_millis as u128
        }
    }

    /// How many sources the device holds, the playing one included.
    pub fn get_len(&self) -> (n: usize)
        ensures
            n == self@.sources.len(),
    {
        self.sources.len()
    }

    /// Whether the device holds nothing.
    pub fn is_empty(&self) -> (b: bool)
        ensures
            b == self@.is_empty(),
    {
        self.sources.is_empty()
    }

    /// Hands out the recorded device calls, oldest first, and forgets them;
    /// the device layer performs each in order.
    pub fn take_commands(&mut self) -> (r: Vec<SinkCommand>)
        ensures
            (r@.map_values(|c: SinkCommand| c@) == old(self)@.commands),
            (final(self)@ == SinkView { commands: Seq::empty(), ..old(self)@ }),
    {
        let mut r: Vec<SinkCommand> = Vec::new();
        core::mem::swap(&mut self.commands, &mut r);
        proof {
            assert(final(self)@ =~~= (SinkView { commands: Seq::empty(), ..old(self)@ }));
        }
        r
    }
}

/// Clamps a requested volume into the device range 0..=100.
pub fn clamp_volume(level: i16) -> (v: i16)
    ensures
        v as int == clamped_volume(level as int),
{
    if level < 0 {
        0
    } else if level > 100 {
        100
    } else {
        level
    }
}

} // verus!
