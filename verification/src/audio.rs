//! Which sound plays when, and the state of the two sound channels.
use vstd::prelude::*;

verus! {

/// The sounds of the game: looping background music and one-shot effects.
#[derive(Clone, Copy, PartialEq, Eq, Structural, Debug, Hash)]
pub enum AudioKind {
    BGMExplore,
    BGMBattle,
    BGMBattleLast,
    BGMWin,
    BGMLose,
    SEAttack,
    SEHeal,
    SETown,
}

/// A request to the sound system.
#[derive(Clone, Copy, PartialEq, Eq, Structural, Debug)]
pub enum AudioEvent {
    Play(AudioKind),
    Stop(AudioKind),
}

/// The two channels: background music and sound effects.
#[derive(Clone, Copy, PartialEq, Eq, Structural, Debug, Hash)]
pub enum Channel {
    Bgm,
    Se,
}

/// Whether a sound is a one-shot effect.
pub open spec fn is_effect(kind: AudioKind) -> bool {
    kind == AudioKind::SEAttack || kind == AudioKind::SEHeal || kind == AudioKind::SETown
}

/// The channel a sound plays on: effects on the effect channel, music on the music channel.
pub fn channel_of(kind: &AudioKind) -> (r: Channel)
    ensures
        r == (if is_effect(*kind) { Channel::Se } else { Channel::Bgm }),
{
    match kind {
        AudioKind::SEAttack | AudioKind::SEHeal | AudioKind::SETown => Channel::Se,
        _ => Channel::Bgm,
    }
}

/// The name of a channel in the sound system.
pub fn channel_name(channel: Channel) -> (r: &'static str)
    ensures
        channel == Channel::Bgm ==> r@ == "bgm"@,
        channel == Channel::Se ==> r@ == "se"@,
{
    match channel {
        Channel::Bgm => "bgm",
        Channel::Se => "se",
    }
}

/// What the sound system knows of a channel.
#[derive(Clone, Copy, PartialEq, Eq, Structural, Debug)]
pub struct ChannelAudioState {
    pub stopped: bool,
    pub paused: bool,
    pub loop_started: bool,
}

impl Default for ChannelAudioState {
    /// A fresh channel: stopped, not paused, no loop playing.
    fn default() -> (r: Self)
        ensures
            r == (ChannelAudioState { stopped: true, paused: false, loop_started: false }),
    {
        ChannelAudioState { stopped: true, paused: false, loop_started: false }
    }
}

/// What the sound system is told to do on a channel.
#[derive(Clone, Copy, PartialEq, Eq, Structural, Debug)]
pub enum AudioCommand {
    /// Play the sound once.
    PlayOnce(AudioKind),
    /// Play the sound in a loop.
    PlayLooped(AudioKind),
    /// Stop the channel.
    StopChannel,
    /// Nothing.
    Nothing,
}

/// How a channel answers a request: effects always play once; music starts
/// looping unless a loop already plays; a stop stops a channel that is not
/// stopped and resets it.
pub open spec fn answer(state: ChannelAudioState, event: AudioEvent) -> (ChannelAudioState, AudioCommand) {
    match event {
        AudioEvent::Play(kind) => if is_effect(kind) {
            (ChannelAudioState { paused: false, stopped: false, ..state }, AudioCommand::PlayOnce(kind))
        } else if state.loop_started {
            (state, AudioCommand::Nothing)
        } else {
            (ChannelAudioState { loop_started: true, stopped: false, ..state }, AudioCommand::PlayLooped(kind))
        },
        AudioEvent::Stop(_) => if state.stopped {
            (state, AudioCommand::Nothing)
        } else {
            (ChannelAudioState { stopped: true, paused: false, loop_started: false }, AudioCommand::StopChannel)
        },
    }
}

impl ChannelAudioState {
    /// Answers a request on this channel and says what to tell the sound system.
    pub fn handle(&mut self, event: &AudioEvent) -> (r: AudioCommand)
        ensures
            (*final(self), r) == answer(*old(self), *event),
    {
        match event {
            AudioEvent::Play(kind) => match kind {
                AudioKind::SEAttack | AudioKind::SEHeal | AudioKind::SETown => {
                    self.paused = false;
                    self.stopped = false;
                    AudioCommand::PlayOnce(*kind)
                },
                _ => {
                    if self.loop_started {
                        AudioCommand::Nothing
                    } else {
                        self.loop_started = true;
                        self.stopped = false;
                        AudioCommand::PlayLooped(*kind)
                    }
                },
            },
            AudioEvent::Stop(_) => {
                if self.stopped {
                    AudioCommand::Nothing
                } else {
                    *self = ChannelAudioState::default();
                    AudioCommand::StopChannel
                }
            },
        }
    }

    /// The state after every channel is stopped on leaving a scene: nothing
    /// paused, nothing looping, and not marked stopped.
    pub fn after_scene_exit(&mut self)
        ensures
            *final(self) == (ChannelAudioState { stopped: false, paused: false, loop_started: false }),
    {
        self.paused = false;
        self.stopped = false;
        self.loop_started = false;
    }
}

/// A channel that loops music is never marked stopped.
pub open spec fn channel_consistent(s: ChannelAudioState) -> bool {
    s.loop_started ==> !s.stopped
}

/// Every channel state the game reaches is consistent: a fresh channel, one
/// reset on leaving a scene, and one after answering any request.
pub proof fn lemma_channel_consistent(s: ChannelAudioState, e: AudioEvent)
    requires
        channel_consistent(s),
    ensures
        channel_consistent(answer(s, e).0),
        channel_consistent(ChannelAudioState { stopped: true, paused: false, loop_started: false }),
        channel_consistent(ChannelAudioState { stopped: false, paused: false, loop_started: false }),
{
}

/// Background music plays once per scene: a second request while it loops
/// changes nothing, and after a stop the next request starts it again.
/// Effects play on every request.
pub proof fn lemma_music_plays_once(state: ChannelAudioState, kind: AudioKind, other: AudioKind)
    requires
        !is_effect(kind),
        channel_consistent(state),
    ensures
        answer(answer(state, AudioEvent::Play(kind)).0, AudioEvent::Play(other)).1
            == (if is_effect(other) { AudioCommand::PlayOnce(other) } else { AudioCommand::Nothing }),
        answer(answer(answer(state, AudioEvent::Play(kind)).0, AudioEvent::Stop(kind)).0, AudioEvent::Play(kind)).1
            == AudioCommand::PlayLooped(kind),
        forall|s: ChannelAudioState, e: AudioKind| is_effect(e) ==> answer(s, AudioEvent::Play(e)).1 == AudioCommand::PlayOnce(e),
{
}

} // verus!
