//! The protocol of the audio thread.
//!
//! One thread owns the sink that plays. The session sends it commands; the
//! thread answers with messages. This module holds the decisions of that
//! thread: which state a command leads to, what is done to the sink, and
//! what is reported. The thread itself waits for its next wake, asks
//! `Coordinator::step` what to do, and does it.
//!
//! Volumes are counted in thousandths of the full volume, positions and
//! durations in milliseconds.

use vstd::prelude::*;

verus! {

/// The full volume.
pub const FULL_VOLUME: u16 = 1000;

/// How long the thread waits for a command before it reports the position
/// on its own, in milliseconds.
pub const TICK_MS: u64 = 500;

/// What the session asks of the audio thread.
#[derive(Debug)]
pub enum Command<S> {
    /// Play the source in place of whatever is loaded.
    Play(S),
    Pause,
    Resume,
    VolumeUp(u16),
    VolumeDown(u16),
    SetVolume(u16),
    SeekForward(u64),
    SeekBackward(u64),
    /// Report the position.
    SendState,
}

/// What the audio thread tells the session.
#[derive(Debug, Clone, Copy, PartialEq, Eq, Structural)]
pub enum Message {
    /// The source was played to its end.
    TrackEnded,
    CurrentVolume(u16),
    CurrentPos(u64),
}

/// The state of the audio thread.
#[derive(Debug, Clone, Copy, PartialEq, Eq, Structural)]
pub enum Playback {
    /// Nothing is loaded.
    Idle,
    Playing,
    Paused,
}

/// What wakes the audio thread.
#[derive(Debug)]
pub enum Wake<S> {
    Command(Command<S>),
    /// No command came within `TICK_MS`.
    Timeout,
    /// The source that was playing has no more samples.
    Exhausted,
    /// The session is gone.
    Disconnected,
}

/// One thing that the audio thread does in answer to a wake.
#[derive(Debug)]
pub enum Effect<S> {
    /// Empty the sink, load the source and start it.
    Load(S),
    PauseSink,
    ResumeSink,
    SetSinkVolume(u16),
    /// Move the playing source to the position.
    SeekTo(u64),
    /// Empty the sink.
    Unload,
    /// Send the message to the session.
    Emit(Message),
    /// Read the position from the sink and send it as `Message::CurrentPos`.
    ReportPosition,
}

/// What the audio thread keeps between two wakes.
#[derive(Debug, Clone, Copy, PartialEq, Eq, Structural)]
pub struct Coordinator {
    pub playback: Playback,
    pub volume: u16,
}

/// The answer to a wake: what to do, in this order, and whether the thread
/// ends afterwards.
#[derive(Debug)]
pub struct Reaction<S> {
    pub effects: Vec<Effect<S>>,
    pub stop: bool,
}

/// A reaction as contracts speak of it.
pub struct ReactionView<S> {
    pub effects: Seq<Effect<S>>,
    pub stop: bool,
}

impl<S> View for Reaction<S> {
    type V = ReactionView<S>;

    open spec fn view(&self) -> ReactionView<S> {
        ReactionView { effects: self.effects@, stop: self.stop }
    }
}

/// The volume after it was raised by `delta`: never more than the full volume.
pub open spec fn raised(volume: u16, delta: u16) -> u16 {
    if volume + delta >= FULL_VOLUME {
        FULL_VOLUME
    } else {
        (volume + delta) as u16
    }
}

/// The volume after it was lowered by `delta`: never less than silence.
pub open spec fn lowered(volume: u16, delta: u16) -> u16 {
    if volume <= delta {
        0
    } else {
        (volume - delta) as u16
    }
}

/// The position after a seek forward by `delta`, as far as positions can be
/// counted.
pub open spec fn forward_target(pos: u64, delta: u64) -> u64 {
    if pos + delta > u64::MAX {
        u64::MAX
    } else {
        (pos + delta) as u64
    }
}

/// The position after a seek backward by `delta`: never before the start.
pub open spec fn backward_target(pos: u64, delta: u64) -> u64 {
    if pos <= delta {
        0
    } else {
        (pos - delta) as u64
    }
}

/// Whether a seek forward from `pos` by `delta` leaves a source of length
/// `total`. Of a source of unknown length this is never said.
pub open spec fn seeks_past_end(pos: u64, delta: u64, total: Option<u64>) -> bool {
    match total {
        Some(length) => pos + delta >= length,
        None => false,
    }
}

impl Coordinator {
    /// The state in which the wake leaves the thread.
    pub open spec fn next<S>(self, wake: Wake<S>, pos: u64, total: Option<u64>) -> Coordinator {
        match wake {
            Wake::Command(Command::Play(_)) => Coordinator { playback: Playback::Playing, ..self },
            Wake::Command(Command::Pause) => if self.playback == Playback::Idle {
                self
            } else {
                Coordinator { playback: Playback::Paused, ..self }
            },
            Wake::Command(Command::Resume) => if self.playback == Playback::Idle {
                self
            } else {
                Coordinator { playback: Playback::Playing, ..self }
            },
            Wake::Command(Command::VolumeUp(delta)) => Coordinator {
                volume: raised(self.volume, delta),
                ..self
            },
            Wake::Command(Command::VolumeDown(delta)) => Coordinator {
                volume: lowered(self.volume, delta),
                ..self
            },
            Wake::Command(Command::SetVolume(volume)) => Coordinator { volume, ..self },
            Wake::Command(Command::SeekForward(delta)) => if self.playback != Playback::Idle
                && seeks_past_end(pos, delta, total) {
                Coordinator { playback: Playback::Idle, ..self }
            } else {
                self
            },
            Wake::Command(Command::SeekBackward(_)) => self,
            Wake::Command(Command::SendState) => self,
            Wake::Timeout => self,
            Wake::Exhausted => Coordinator { playback: Playback::Idle, ..self },
            Wake::Disconnected => self,
        }
    }

    /// What the thread does on the wake, in this order.
    pub open spec fn effects<S>(self, wake: Wake<S>, pos: u64, total: Option<u64>) -> Seq<
        Effect<S>,
    > {
        match wake {
            Wake::Command(Command::Play(source)) => seq![
                Effect::Load(source),
                Effect::ReportPosition,
            ],
            Wake::Command(Command::Pause) => if self.playback == Playback::Idle {
                seq![]
            } else {
                seq![Effect::PauseSink]
            },
            Wake::Command(Command::Resume) => if self.playback == Playback::Idle {
                seq![]
            } else {
                seq![Effect::ResumeSink, Effect::ReportPosition]
            },
            Wake::Command(Command::VolumeUp(delta)) => seq![
                Effect::SetSinkVolume(raised(self.volume, delta)),
                Effect::Emit(Message::CurrentVolume(raised(self.volume, delta))),
            ],
            Wake::Command(Command::VolumeDown(delta)) => seq![
                Effect::SetSinkVolume(lowered(self.volume, delta)),
                Effect::Emit(Message::CurrentVolume(lowered(self.volume, delta))),
            ],
            Wake::Command(Command::SetVolume(volume)) => seq![
                Effect::SetSinkVolume(volume),
                Effect::Emit(Message::CurrentVolume(volume)),
            ],
            Wake::Command(Command::SeekForward(delta)) => if self.playback == Playback::Idle {
                seq![]
            } else if seeks_past_end(pos, delta, total) {
                seq![Effect::Unload, Effect::Emit(Message::TrackEnded)]
            } else {
                seq![Effect::SeekTo(forward_target(pos, delta)), Effect::ReportPosition]
            },
            Wake::Command(Command::SeekBackward(delta)) => if self.playback == Playback::Idle {
                seq![]
            } else {
                seq![Effect::SeekTo(backward_target(pos, delta)), Effect::ReportPosition]
            },
            Wake::Command(Command::SendState) => if self.playback == Playback::Playing {
                seq![Effect::ReportPosition]
            } else {
                seq![]
            },
            Wake::Timeout => if self.playback == Playback::Playing {
                seq![Effect::ReportPosition]
            } else {
                seq![]
            },
            Wake::Exhausted => if self.playback == Playback::Idle {
                seq![]
            } else {
                seq![Effect::Unload, Effect::Emit(Message::TrackEnded)]
            },
            Wake::Disconnected => seq![],
        }
    }

    /// The thread as it starts: nothing loaded, the volume as the sink has it.
    pub fn new(volume: u16) -> (coordinator: Self)
        ensures
            coordinator == (Coordinator { playback: Playback::Idle, volume }),
    {
        Coordinator { playback: Playback::Idle, volume }
    }

    /// What the thread reports when it starts: its volume.
    pub fn greeting(&self) -> (message: Message)
        ensures
            message == Message::CurrentVolume(self.volume),
    {
        Message::CurrentVolume(self.volume)
    }

    /// Answers one wake. `pos` is the position of the sink and `total` the
    /// length of the loaded source, if it is known, both as they were when
    /// the thread woke. The thread ends only when the session is gone.
    pub fn step<S>(&mut self, wake: Wake<S>, pos: u64, total: Option<u64>) -> (reaction: Reaction<
        S,
    >)
        ensures
            *final(self) == old(self).next(wake, pos, total),
            reaction@.effects == old(self).effects(wake, pos, total),
            reaction@.stop == (wake is Disconnected),
    {
        let mut effects: Vec<Effect<S>> = Vec::new();
        let mut stop = false;
        let active = self.playback != Playback::Idle;
        match wake {
            Wake::Command(command) => {
                match command {
                    Command::Play(source) => {
                        self.playback = Playback::Playing;
                        effects.push(Effect::Load(source));
                        effects.push(Effect::ReportPosition);
                    },
                    Command::Pause => {
                        if active {
                            self.playback = Playback::Paused;
                            effects.push(Effect::PauseSink);
                        }
                    },
                    Command::Resume => {
                        if active {
                            self.playback = Playback::Playing;
                            effects.push(Effect::ResumeSink);
                            effects.push(Effect::ReportPosition);
                        }
                    },
                    Command::VolumeUp(delta) => {
                        let volume = volume_up(self.volume, delta);
                        self.volume = volume;
                        effects.push(Effect::SetSinkVolume(volume));
                        effects.push(Effect::Emit(Message::CurrentVolume(volume)));
                    },
                    Command::VolumeDown(delta) => {
                        let volume = volume_down(self.volume, delta);
                        self.volume = volume;
                        effects.push(Effect::SetSinkVolume(volume));
                        effects.push(Effect::Emit(Message::CurrentVolume(volume)));
                    },
                    Command::SetVolume(volume) => {
                        self.volume = volume;
                        effects.push(Effect::SetSinkVolume(volume));
                        effects.push(Effect::Emit(Message::CurrentVolume(volume)));
                    },
                    Command::SeekForward(delta) => {
                        if active {
                            let target = pos.saturating_add(delta);
                            let past_end = match total {
                                Some(length) => pos >= length || delta >= length - pos,
                                None => false,
                            };
                            if past_end {
                                self.playback = Playback::Idle;
                                effects.push(Effect::Unload);
                                effects.push(Effect::Emit(Message::TrackEnded));
                            } else {
                                effects.push(Effect::SeekTo(target));
                                effects.push(Effect::ReportPosition);
                            }
                        }
                    },
                    Command::SeekBackward(delta) => {
                        if active {
                            let target = pos.saturating_sub(delta);
                            effects.push(Effect::SeekTo(target));
                            effects.push(Effect::ReportPosition);
                        }
                    },
                    Command::SendState => {
                        if self.playback == Playback::Playing {
                            effects.push(Effect::ReportPosition);
                        }
                    },
                }
            },
            Wake::Timeout => {
                if self.playback == Playback::Playing {
                    effects.push(Effect::ReportPosition);
                }
            },
            Wake::Exhausted => {
                if active {
                    self.playback = Playback::Idle;
                    effects.push(Effect::Unload);
                    effects.push(Effect::Emit(Message::TrackEnded));
                }
            },
            Wake::Disconnected => {
                stop = true;
            },
        }
        proof {
            assert(effects@ =~= old(self).effects(wake, pos, total));
        }
        Reaction { effects, stop }
    }
}

/// The volume raised by `delta`.
pub fn volume_up(volume: u16, delta: u16) -> (louder: u16)
    ensures
        louder == raised(volume, delta),
{
    if volume >= FULL_VOLUME || delta >= FULL_VOLUME - volume {
        FULL_VOLUME
    } else {
        volume + delta
    }
}

/// The volume lowered by `delta`.
pub fn volume_down(volume: u16, delta: u16) -> (quieter: u16)
    ensures
        quieter == lowered(volume, delta),
{
    volume.saturating_sub(delta)
}

impl<S> Command<S> {
    pub fn play(source: S) -> (command: Self)
        ensures
            command == Command::Play(source),
    {
        Command::Play(source)
    }

    pub fn resume() -> (command: Self)
        ensures
            command == Command::<S>::Resume,
    {
        Command::Resume
    }

    pub fn pause() -> (command: Self)
        ensures
            command == Command::<S>::Pause,
    {
        Command::Pause
    }

    pub fn volume_up(vol: u16) -> (command: Self)
        ensures
            command == Command::<S>::VolumeUp(vol),
    {
        Self::VolumeUp(vol)
    }

    pub fn volume_down(vol: u16) -> (command: Self)
        ensures
            command == Command::<S>::VolumeDown(vol),
    {
        Self::VolumeDown(vol)
    }

    pub fn seek_forward(dur: u64) -> (command: Self)
        ensures
            command == Command::<S>::SeekForward(dur),
    {
        Self::SeekForward(dur)
    }

    pub fn seek_backward(dur: u64) -> (command: Self)
        ensures
            command == Command::<S>::SeekBackward(dur),
    {
        Self::SeekBackward(dur)
    }
}

/// Whatever the wake, the volume and the state stay within what the
/// protocol knows: a wake that is no command leaves the volume alone, only
/// `Play` and `Resume` lead to `Playing`, only `Pause` leads to `Paused`, and
/// the thread ends on `Disconnected` alone.
pub proof fn law_transitions<S>(c: Coordinator, wake: Wake<S>, pos: u64, total: Option<u64>)
    ensures
        !(wake is Command) ==> c.next(wake, pos, total).volume == c.volume,
        c.next(wake, pos, total).playback == Playback::Playing && c.playback != Playback::Playing
            ==> (wake matches Wake::Command(cmd) && (cmd is Play || cmd is Resume)),
        c.next(wake, pos, total).playback == Playback::Paused && c.playback != Playback::Paused
            ==> (wake matches Wake::Command(cmd) && cmd is Pause),
        c.playback == Playback::Idle && !(wake matches Wake::Command(cmd) && cmd is Play) ==> c.next(
            wake,
            pos,
            total,
        ).playback == Playback::Idle,
{
}

/// A seek never leads before the start of the source, and a seek forward
/// that would lead to the end of a source of known length or beyond is never
/// carried out: it ends the track instead.
pub proof fn law_seeks_are_clamped<S>(c: Coordinator, delta: u64, pos: u64, total: Option<u64>)
    requires
        c.playback != Playback::Idle,
    ensures
        backward_target(pos, delta) <= pos,
        c.effects::<S>(Wake::Command(Command::SeekBackward(delta)), pos, total)[0]
            == Effect::<S>::SeekTo(backward_target(pos, delta)),
        total matches Some(length) ==> {
            let effects = c.effects::<S>(Wake::Command(Command::SeekForward(delta)), pos, total);
            if pos + delta >= length {
                effects == seq![Effect::<S>::Unload, Effect::Emit(Message::TrackEnded)]
            } else {
                effects[0] == Effect::<S>::SeekTo((pos + delta) as u64)
            }
        },
{
}

} // verus!
