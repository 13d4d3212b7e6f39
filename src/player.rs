use vstd::prelude::*;
use crate::time::{offset_timestamp, skip_target, SkipType, TimeBase, TimeMarker};

verus! {

/// Where the engine is in its life.
#[derive(Clone, Copy, Debug, PartialEq, Eq, Structural)]
pub enum PlayerState {
    Unloaded,
    Paused,
    Playing,
    Closed,
}

/// A command to the engine.
#[derive(Clone, Debug)]
pub enum Message {
    /// Load the file at this path.
    Load(String),
    /// Switch between playing and paused.
    TogglePlay,
    /// Set the cue point while not playing; return to it while playing.
    Cue,
    /// Skip forward by this many milliseconds.
    SkipForward(u64),
    /// Skip backward by this many milliseconds.
    SkipBackward(u64),
    /// Stop the engine for good.
    Close,
}

/// Why a track could not be loaded.
#[derive(Clone, Copy, Debug, PartialEq, Eq, Structural)]
pub enum LoadError {
    NotFound,
    UnsupportedFormat,
    NoDecodableTrack,
}

/// Why a seek did not take place.
#[derive(Clone, Copy, Debug, PartialEq, Eq, Structural)]
pub enum SeekError {
    SeekFailed,
    ResetRequired,
}

/// What the decoder gave back when asked for the next packet.
#[derive(Clone, Copy, Debug, PartialEq, Eq, Structural)]
pub enum PacketOutcome {
    /// A packet with this timestamp was decoded.
    Decoded(u64),
    /// The stream has ended.
    EndOfStream,
    /// The packet was malformed and is skipped.
    DecodeError,
    /// The stream changed format; the decoder must be built anew.
    ResetRequired,
}

/// What the engine asks of the one who runs it.
#[derive(Clone, Debug, PartialEq, Eq)]
pub enum Action {
    /// Nothing to do.
    Idle,
    /// Open the file at this path and report with `load`.
    Open(String),
    /// Drain the audio sink.
    FlushSink,
    /// Seek the decoder to this timestamp and report with `seek_finished`.
    Seek(u64),
    /// Hand the decoded packet to the sink and its preview to the preview buffer.
    Write,
    /// Rebuild the decoder for the stream's new format and report with `reset`.
    Rebuild,
    /// Flush and close the sink; the engine has stopped.
    Exit,
}

/// The playback engine's decisions: its state, the playhead and the cue point.
pub struct Player {
    state: PlayerState,
    position: Option<TimeMarker>,
    cue_point: Option<TimeMarker>,
}

/// The playhead `pos`, where there is one, moved to `ts`.
pub open spec fn moved(pos: Option<TimeMarker>, ts: u64) -> Option<TimeMarker> {
    match pos {
        Some(m) => Some(m.moved_to(ts)),
        None => None,
    }
}

/// A step on a packet outcome: the playhead moves only to the timestamp of a
/// packet that is handed to the sink, and only while playing.
pub open spec fn packet_step(p: Player, outcome: PacketOutcome, q: Player, a: Action) -> bool {
    if p.state() != PlayerState::Playing {
        q == p && a == Action::Idle
    } else {
        match outcome {
            PacketOutcome::Decoded(ts) => {
                &&& q.state() == PlayerState::Playing
                &&& q.cue_point() == p.cue_point()
                &&& q.position() == moved(p.position(), ts)
                &&& a == Action::Write
            },
            PacketOutcome::EndOfStream => {
                &&& q.state() == PlayerState::Paused
                &&& q.position() == p.position()
                &&& q.cue_point() == p.cue_point()
                &&& a == Action::FlushSink
            },
            PacketOutcome::DecodeError => q == p && a == Action::Idle,
            PacketOutcome::ResetRequired => q == p && a == Action::Rebuild,
        }
    }
}

/// A step on a seek's result: on success the playhead jumps to where the decoder
/// landed; on failure nothing changes.
pub open spec fn seek_step(p: Player, result: Result<u64, SeekError>, q: Player) -> bool {
    match result {
        Ok(ts) => {
            &&& q.state() == p.state()
            &&& q.cue_point() == p.cue_point()
            &&& q.position() == moved(p.position(), ts)
        },
        Err(_) => q == p,
    }
}

/// A step on the result of opening a track: on success the track is loaded and
/// paused at its start, with the cue point there too; on failure nothing changes.
pub open spec fn load_step(
    p: Player,
    result: Result<TimeBase, LoadError>,
    q: Player,
    r: Result<(), LoadError>,
) -> bool {
    match result {
        Ok(tb) => if tb.valid() {
            &&& q.state() == PlayerState::Paused
            &&& q.position() == Some(TimeMarker::start_of(tb))
            &&& q.cue_point() == q.position()
            &&& r == Ok::<(), LoadError>(())
        } else {
            q == p && r == Err::<(), LoadError>(LoadError::NoDecodableTrack)
        },
        Err(e) => q == p && r == Err::<(), LoadError>(e),
    }
}

/// A step on the result of rebuilding the decoder after a format change: on
/// success the playhead and cue point go to the new track's start; on failure
/// playback stops where it was.
pub open spec fn reset_step(
    p: Player,
    result: Result<TimeBase, LoadError>,
    q: Player,
    r: Result<(), LoadError>,
) -> bool {
    if p.state() != PlayerState::Playing && p.state() != PlayerState::Paused {
        q == p && r == Ok::<(), LoadError>(())
    } else {
        match result {
            Ok(tb) => if tb.valid() {
                &&& q.state() == p.state()
                &&& q.position() == Some(TimeMarker::start_of(tb))
                &&& q.cue_point() == q.position()
                &&& r == Ok::<(), LoadError>(())
            } else {
                &&& q.state() == PlayerState::Paused
                &&& q.position() == p.position()
                &&& q.cue_point() == p.cue_point()
                &&& r == Err::<(), LoadError>(LoadError::NoDecodableTrack)
            },
            Err(e) => {
                &&& q.state() == PlayerState::Paused
                &&& q.position() == p.position()
                &&& q.cue_point() == p.cue_point()
                &&& r == Err::<(), LoadError>(e)
            },
        }
    }
}

/// Play and pause swap; with no track, or once closed, nothing happens. Pausing
/// drains the sink.
pub open spec fn toggle_step(p: Player, q: Player, a: Action) -> bool {
    match p.state() {
        PlayerState::Paused => {
            &&& q.state() == PlayerState::Playing
            &&& q.position() == p.position()
            &&& q.cue_point() == p.cue_point()
            &&& a == Action::Idle
        },
        PlayerState::Playing => {
            &&& q.state() == PlayerState::Paused
            &&& q.position() == p.position()
            &&& q.cue_point() == p.cue_point()
            &&& a == Action::FlushSink
        },
        _ => q == p && a == Action::Idle,
    }
}

/// Not playing, the cue point becomes the playhead; playing, the engine seeks back
/// to the cue point, where there is one.
pub open spec fn cue_step(p: Player, q: Player, a: Action) -> bool {
    if p.state() == PlayerState::Closed {
        q == p && a == Action::Idle
    } else if p.state() != PlayerState::Playing {
        &&& q.state() == p.state()
        &&& q.position() == p.position()
        &&& q.cue_point() == p.position()
        &&& a == Action::Idle
    } else {
        &&& q == p
        &&& a == match p.cue_point() {
            Some(c) => Action::Seek(c.ts() as u64),
            None => Action::Idle,
        }
    }
}

/// A skip asks for a seek to the playhead moved by `ms` milliseconds, where a
/// track is loaded.
pub open spec fn skip_action(p: Player, ms: u64, dir: SkipType) -> Action {
    if (p.state() == PlayerState::Paused || p.state() == PlayerState::Playing)
        && p.position().is_some() {
        Action::Seek(
            skip_target(p.position().unwrap().time_base(), p.position().unwrap().ts(), ms as nat, dir)
                as u64,
        )
    } else {
        Action::Idle
    }
}

/// The engine's response to one command.
pub open spec fn handle_step(p: Player, msg: Message, q: Player, a: Action) -> bool {
    if p.state() == PlayerState::Closed {
        q == p && a == Action::Idle
    } else {
        match msg {
            Message::Load(path) => q == p && a == Action::Open(path),
            Message::TogglePlay => toggle_step(p, q, a),
            Message::Cue => cue_step(p, q, a),
            Message::SkipForward(ms) => q == p && a == skip_action(p, ms, SkipType::Forward),
            Message::SkipBackward(ms) => q == p && a == skip_action(p, ms, SkipType::Backward),
            Message::Close => {
                &&& q.state() == PlayerState::Closed
                &&& q.position() == p.position()
                &&& q.cue_point() == p.cue_point()
                &&& a == Action::Exit
            },
        }
    }
}

impl Player {
    pub closed spec fn state(self) -> PlayerState {
        self.state
    }

    /// The playhead, while a track is loaded.
    pub closed spec fn position(self) -> Option<TimeMarker> {
        self.position
    }

    pub closed spec fn cue_point(self) -> Option<TimeMarker> {
        self.cue_point
    }

    /// A track is loaded exactly when there is a playhead; markers convert.
    pub open spec fn wf(self) -> bool {
        &&& (self.state() == PlayerState::Paused || self.state() == PlayerState::Playing)
            ==> self.position().is_some()
        &&& self.state() == PlayerState::Unloaded ==> self.position().is_none()
        &&& self.position().is_some() ==> self.position().unwrap().wf()
        &&& self.cue_point().is_some() ==> self.cue_point().unwrap().wf()
    }

    /// An engine with no track.
    pub fn new() -> (r: Self)
        ensures
            r.wf(),
            r.state() == PlayerState::Unloaded,
            r.position().is_none(),
            r.cue_point().is_none(),
    {
        Player { state: PlayerState::Unloaded, position: None, cue_point: None }
    }

    pub fn get_state(&self) -> (r: PlayerState)
        ensures
            r == self.state(),
    {
        self.state
    }

    /// A copy of the playhead, for readers.
    pub fn get_position(&self) -> (r: Option<TimeMarker>)
        ensures
            r == self.position(),
    {
        self.position
    }

    pub fn get_cue_point(&self) -> (r: Option<TimeMarker>)
        ensures
            r == self.cue_point(),
    {
        self.cue_point
    }

    /// Whether the next loop iteration should pull a packet from the decoder.
    pub fn wants_packet(&self) -> (r: bool)
        ensures
            r == (self.state() == PlayerState::Playing),
    {
        self.state == PlayerState::Playing
    }

    /// Takes in the result of opening a track (its time base, or why it failed).
    /// A closed engine opens nothing.
    pub fn load(&mut self, result: Result<TimeBase, LoadError>) -> (r: Result<(), LoadError>)
        requires
            old(self).wf(),
            old(self).state() != PlayerState::Closed,
        ensures
            final(self).wf(),
            load_step(*old(self), result, *final(self), r),
    {
        match result {
            Ok(tb) => {
                if tb.numer == 0 || tb.denom == 0 {
                    return Err(LoadError::NoDecodableTrack);
                }
                let m = TimeMarker::new(tb);
                self.state = PlayerState::Paused;
                self.position = Some(m);
                self.cue_point = Some(m);
                Ok(())
            },
            Err(e) => Err(e),
        }
    }

    /// Takes in the result of rebuilding the decoder after the stream changed format.
    pub fn reset(&mut self, result: Result<TimeBase, LoadError>) -> (r: Result<(), LoadError>)
        requires
            old(self).wf(),
        ensures
            final(self).wf(),
            reset_step(*old(self), result, *final(self), r),
    {
        if self.state != PlayerState::Playing && self.state != PlayerState::Paused {
            return Ok(());
        }
        match result {
            Ok(tb) => {
                if tb.numer == 0 || tb.denom == 0 {
                    self.state = PlayerState::Paused;
                    return Err(LoadError::NoDecodableTrack);
                }
                let m = TimeMarker::new(tb);
                self.position = Some(m);
                self.cue_point = Some(m);
                Ok(())
            },
            Err(e) => {
                self.state = PlayerState::Paused;
                Err(e)
            },
        }
    }

    /// Switches between playing and paused.
    pub fn toggle_play(&mut self) -> (a: Action)
        requires
            old(self).wf(),
        ensures
            final(self).wf(),
            toggle_step(*old(self), *final(self), a),
    {
        match self.state {
            PlayerState::Paused => {
                self.state = PlayerState::Playing;
                Action::Idle
            },
            PlayerState::Playing => {
                self.state = PlayerState::Paused;
                Action::FlushSink
            },
            _ => Action::Idle,
        }
    }

    /// Sets the cue point while not playing; asks to return to it while playing.
    pub fn cue(&mut self) -> (a: Action)
        requires
            old(self).wf(),
        ensures
            final(self).wf(),
            cue_step(*old(self), *final(self), a),
    {
        match self.state {
            PlayerState::Closed => Action::Idle,
            PlayerState::Playing => match &self.cue_point {
                Some(c) => Action::Seek(c.get_timestamp()),
                None => Action::Idle,
            },
            _ => {
                self.cue_point = self.position;
                Action::Idle
            },
        }
    }

    /// Asks for a seek `offset` milliseconds away from the playhead; the playhead
    /// itself moves only once the seek has succeeded.
    pub fn skip(&self, offset: u64, t: SkipType) -> (a: Action)
        requires
            self.wf(),
        ensures
            a == skip_action(*self, offset, t),
    {
        if self.state != PlayerState::Paused && self.state != PlayerState::Playing {
            return Action::Idle;
        }
        match &self.position {
            Some(m) => Action::Seek(offset_timestamp(m.get_time_base(), m.get_timestamp(), offset, t)),
            None => Action::Idle,
        }
    }

    /// Takes in the result of a seek: where the decoder landed, or why it did not.
    pub fn seek_finished(&mut self, result: Result<u64, SeekError>) -> (r: Result<(), SeekError>)
        requires
            old(self).wf(),
        ensures
            final(self).wf(),
            seek_step(*old(self), result, *final(self)),
            r == match result {
                Ok(_) => Ok::<(), SeekError>(()),
                Err(e) => Err::<(), SeekError>(e),
            },
    {
        match result {
            Ok(ts) => {
                match &mut self.position {
                    Some(m) => {
                        m.go_to(ts);
                    },
                    None => {},
                }
                Ok(())
            },
            Err(e) => Err(e),
        }
    }

    /// Takes in what the decoder gave for the next packet. A decoded packet moves
    /// the playhead to its timestamp, ahead of being written; a malformed one is
    /// skipped; the end of the stream pauses.
    pub fn on_packet(&mut self, outcome: PacketOutcome) -> (a: Action)
        requires
            old(self).wf(),
        ensures
            final(self).wf(),
            packet_step(*old(self), outcome, *final(self), a),
    {
        if self.state != PlayerState::Playing {
            return Action::Idle;
        }
        match outcome {
            PacketOutcome::Decoded(ts) => {
                match &mut self.position {
                    Some(m) => {
                        m.go_to(ts);
                    },
                    None => {},
                }
                Action::Write
            },
            PacketOutcome::EndOfStream => {
                self.state = PlayerState::Paused;
                Action::FlushSink
            },
            PacketOutcome::DecodeError => Action::Idle,
            PacketOutcome::ResetRequired => Action::Rebuild,
        }
    }

    /// Stops the engine for good.
    pub fn close(&mut self) -> (a: Action)
        requires
            old(self).wf(),
        ensures
            final(self).wf(),
            final(self).state() == PlayerState::Closed,
            final(self).position() == old(self).position(),
            final(self).cue_point() == old(self).cue_point(),
            a == Action::Exit,
    {
        self.state = PlayerState::Closed;
        Action::Exit
    }

    /// Applies one command from the inbox.
    pub fn handle(&mut self, msg: Message) -> (a: Action)
        requires
            old(self).wf(),
        ensures
            final(self).wf(),
            handle_step(*old(self), msg, *final(self), a),
    {
        if self.state == PlayerState::Closed {
            return Action::Idle;
        }
        match msg {
            Message::Load(path) => Action::Open(path),
            Message::TogglePlay => self.toggle_play(),
            Message::Cue => self.cue(),
            Message::SkipForward(ms) => self.skip(ms, SkipType::Forward),
            Message::SkipBackward(ms) => self.skip(ms, SkipType::Backward),
            Message::Close => self.close(),
        }
    }
}

/// After a packet step the playhead stands at the timestamp of the packet handed to
/// the sink in that step, or where it stood before: never ahead of written audio.
pub proof fn lemma_playhead_follows_written(p: Player, outcome: PacketOutcome, q: Player, a: Action)
    requires
        p.wf(),
        packet_step(p, outcome, q, a),
    ensures
        a == Action::Write ==> match outcome {
            PacketOutcome::Decoded(ts) => q.position().is_some() && q.position().unwrap().ts() == ts,
            _ => false,
        },
        a != Action::Write ==> q.position() == p.position(),
{
    if a == Action::Write {
        if let PacketOutcome::Decoded(ts) = outcome {
            p.position().unwrap().lemma_moved_to(ts);
        }
    }
}

/// A skip or a return to the cue point whose seek fails leaves the playhead as it
/// was before the command.
pub proof fn lemma_failed_seek_keeps_playhead(
    p: Player,
    msg: Message,
    q: Player,
    ts: u64,
    e: SeekError,
    r: Player,
)
    requires
        handle_step(p, msg, q, Action::Seek(ts)),
        seek_step(q, Err(e), r),
    ensures
        r.position() == p.position(),
{
}

} // verus!
