//! Playback channels: the slots of the mixer in which samples play.

use vstd::prelude::*;
use crate::call::Call;
use crate::chunk::Chunk;
use crate::marshal::{c_bool, c_int};
use crate::volume::effective_volume;

verus! {

/// Whether a channel, or the music, is fading, and which way.
#[derive(Debug, Copy, Clone, PartialEq, Eq, Hash, Structural)]
pub enum Fading {
    NoFading,
    FadingOut,
    FadingIn,
}

impl Fading {
    /// The fading state that the native code `code` stands for.
    pub open spec fn spec_from_native(code: u32) -> Fading {
        if code == 1 {
            Fading::FadingOut
        } else if code == 2 {
            Fading::FadingIn
        } else {
            Fading::NoFading
        }
    }

    /// The native code of a fading state.
    pub open spec fn spec_code(self) -> u32 {
        match self {
            Fading::NoFading => 0,
            Fading::FadingOut => 1,
            Fading::FadingIn => 2,
        }
    }

    /// Reads a native fading code: 0 is no fading, 1 fading out, 2 fading
    /// in. A code outside these is read as no fading.
    #[verifier::when_used_as_spec(spec_from_native)]
    pub fn from_native(code: u32) -> (r: Fading)
        ensures
            r == Fading::spec_from_native(code),
    {
        if code == 1 {
            Fading::FadingOut
        } else if code == 2 {
            Fading::FadingIn
        } else {
            Fading::NoFading
        }
    }

    /// The native code of this fading state.
    #[verifier::when_used_as_spec(spec_code)]
    pub fn code(self) -> (r: u32)
        ensures
            r == self.spec_code(),
    {
        match self {
            Fading::NoFading => 0,
            Fading::FadingOut => 1,
            Fading::FadingIn => 2,
        }
    }
}

/// Every fading state is read back from its own code.
pub proof fn lemma_fading_round_trip(fading: Fading)
    ensures
        Fading::from_native(fading.code()) == fading,
{
}

/// Sound effect channel: the index of a slot of the mixer, or one of two
/// sentinels, -1 for every channel and -2 for the stage after mixing.
#[derive(Debug, Copy, Clone, PartialEq, Eq, Structural)]
pub struct Channel(pub isize);

/// The channel with index `chan`.
pub fn channel(chan: isize) -> (r: Channel)
    ensures
        r == Channel(chan),
{
    Channel(chan)
}

/// The call that sets the number of channels being mixed. The native layer
/// answers with the number now allocated.
pub fn allocate_channels(numchans: isize) -> (call: Call)
    ensures
        call == (Call::AllocateChannels { numchans: c_int(numchans) }),
{
    Call::AllocateChannels { numchans: c_int(numchans) }
}

/// The call that counts the channels that are playing.
pub fn get_playing_channels_number() -> (call: Call)
    ensures
        call == (Call::Playing { channel: -1i32 }),
{
    Call::Playing { channel: -1 }
}

/// The call that counts the channels that are paused.
pub fn get_paused_channels_number() -> (call: Call)
    ensures
        call == (Call::Paused { channel: -1i32 }),
{
    Call::Paused { channel: -1 }
}

impl Channel {
    /// The sentinel for every channel (-1): an operation on it goes to all
    /// channels, and a start of playback on it picks the first free one.
    pub fn all() -> (r: Channel)
        ensures
            r == Channel(-1isize),
    {
        Channel(-1)
    }

    /// The stage after mixing (-2), to which effects can be attached.
    pub fn post() -> (r: Channel)
        ensures
            r == Channel(-2isize),
    {
        Channel(-2)
    }

    /// The channel, or the failure, in the native answer to a start of
    /// playback.
    pub open spec fn spec_started(answer: i32, error: String) -> Result<Channel, String> {
        if answer == -1 {
            Err(error)
        } else {
            Ok(Channel(answer as isize))
        }
    }

    /// The call that sets the channel's volume, clamped to the scale. The
    /// native layer answers with the volume before.
    pub fn set_volume(self, volume: isize) -> (call: Call)
        ensures
            call == (Call::Volume { channel: c_int(self.0), volume: effective_volume(volume) }),
    {
        Call::Volume { channel: c_int(self.0), volume: effective_volume(volume) }
    }

    /// The call that asks for the channel's volume and leaves it as it is.
    pub fn get_volume(self) -> (call: Call)
        ensures
            call == (Call::Volume { channel: c_int(self.0), volume: -1i32 }),
    {
        Call::Volume { channel: c_int(self.0), volume: -1 }
    }

    /// The call that plays `chunk` on this channel, or on the first free
    /// one if this is [`Channel::all`], once and then `loops` times more,
    /// for ever if `loops` is -1. [`Channel::started`] reads the answer.
    pub fn play(self, chunk: &Chunk, loops: isize) -> (call: Call)
        ensures
            call == (Call::PlayChannelTimed {
                channel: c_int(self.0),
                chunk: chunk.raw,
                loops: c_int(loops),
                ticks: -1i32,
            }),
    {
        self.play_timed(chunk, loops, -1)
    }

    /// As [`Channel::play`], but the sample stops after `ticks`
    /// milliseconds at the latest; -1 sets no limit.
    pub fn play_timed(self, chunk: &Chunk, loops: isize, ticks: isize) -> (call: Call)
        ensures
            call == (Call::PlayChannelTimed {
                channel: c_int(self.0),
                chunk: chunk.raw,
                loops: c_int(loops),
                ticks: c_int(ticks),
            }),
    {
        Call::PlayChannelTimed {
            channel: c_int(self.0),
            chunk: chunk.raw,
            loops: c_int(loops),
            ticks: c_int(ticks),
        }
    }

    /// As [`Channel::play`], with the volume rising from silence over `ms`
    /// milliseconds.
    pub fn fade_in(self, chunk: &Chunk, loops: isize, ms: isize) -> (call: Call)
        ensures
            call == (Call::FadeInChannelTimed {
                channel: c_int(self.0),
                chunk: chunk.raw,
                loops: c_int(loops),
                ms: c_int(ms),
                ticks: -1i32,
            }),
    {
        self.fade_in_timed(chunk, loops, ms, -1)
    }

    /// As [`Channel::fade_in`], but the sample stops after `ticks`
    /// milliseconds at the latest; -1 sets no limit.
    pub fn fade_in_timed(self, chunk: &Chunk, loops: isize, ms: isize, ticks: isize) -> (call: Call)
        ensures
            call == (Call::FadeInChannelTimed {
                channel: c_int(self.0),
                chunk: chunk.raw,
                loops: c_int(loops),
                ms: c_int(ms),
                ticks: c_int(ticks),
            }),
    {
        Call::FadeInChannelTimed {
            channel: c_int(self.0),
            chunk: chunk.raw,
            loops: c_int(loops),
            ms: c_int(ms),
            ticks: c_int(ticks),
        }
    }

    /// Reads the answer to a start of playback: -1 is a failure with the
    /// native error text, any other answer is the channel that the mixer
    /// chose. That channel, not the one asked for, is the one to address
    /// from then on; it is never the sentinel for every channel.
    pub fn started(answer: i32, error: String) -> (r: Result<Channel, String>)
        ensures
            r == Channel::spec_started(answer, error),
            r matches Ok(chosen) ==> chosen != Channel(-1isize),
    {
        if answer == -1 {
            Err(error)
        } else {
            Ok(Channel(answer as isize))
        }
    }

    /// The call that pauses the channel, or every playing channel.
    pub fn pause(self) -> (call: Call)
        ensures
            call == (Call::Pause { channel: c_int(self.0) }),
    {
        Call::Pause { channel: c_int(self.0) }
    }

    /// The call that resumes the channel, or every paused channel.
    pub fn resume(self) -> (call: Call)
        ensures
            call == (Call::Resume { channel: c_int(self.0) }),
    {
        Call::Resume { channel: c_int(self.0) }
    }

    /// The call that halts the channel, or every channel.
    pub fn halt(self) -> (call: Call)
        ensures
            call == (Call::HaltChannel { channel: c_int(self.0) }),
    {
        Call::HaltChannel { channel: c_int(self.0) }
    }

    /// The call that halts the channel after `ticks` milliseconds. The
    /// native layer answers with the number of channels set to expire.
    pub fn expire(self, ticks: isize) -> (call: Call)
        ensures
            call == (Call::ExpireChannel { channel: c_int(self.0), ticks: c_int(ticks) }),
    {
        Call::ExpireChannel { channel: c_int(self.0), ticks: c_int(ticks) }
    }

    /// The call that fades the channel out over `ms` milliseconds. The
    /// native layer answers with the number of channels set to fade out.
    pub fn fade_out(self, ms: isize) -> (call: Call)
        ensures
            call == (Call::FadeOutChannel { which: c_int(self.0), ms: c_int(ms) }),
    {
        Call::FadeOutChannel { which: c_int(self.0), ms: c_int(ms) }
    }

    /// The call that asks whether the channel is playing; any answer but 0
    /// is yes.
    pub fn is_playing(self) -> (call: Call)
        ensures
            call == (Call::Playing { channel: c_int(self.0) }),
    {
        Call::Playing { channel: c_int(self.0) }
    }

    /// The call that asks whether the channel is paused; any answer but 0
    /// is yes.
    pub fn is_paused(self) -> (call: Call)
        ensures
            call == (Call::Paused { channel: c_int(self.0) }),
    {
        Call::Paused { channel: c_int(self.0) }
    }

    /// The call that asks whether the channel is fading;
    /// [`Fading::from_native`] reads the answer.
    pub fn get_fading(self) -> (call: Call)
        ensures
            call == (Call::FadingChannel { which: c_int(self.0) }),
    {
        Call::FadingChannel { which: c_int(self.0) }
    }

    /// The call that asks for the sample most recently played on the
    /// channel; [`Chunk::borrowed`] reads the answer.
    pub fn get_chunk(self) -> (call: Call)
        ensures
            call == (Call::GetChunk { channel: c_int(self.0) }),
    {
        Call::GetChunk { channel: c_int(self.0) }
    }

    /// The call that removes every effect from the channel. The native
    /// layer answers 0 on failure.
    pub fn unregister_all_effects(self) -> (call: Call)
        ensures
            call == (Call::UnregisterAllEffects { channel: c_int(self.0) }),
    {
        Call::UnregisterAllEffects { channel: c_int(self.0) }
    }

    /// The call that sets the panning effect: the volumes of the left and
    /// the right side, from 0 (silence) to 255 (loud). The native layer
    /// answers 0 on failure.
    pub fn set_panning(self, left: u8, right: u8) -> (call: Call)
        ensures
            call == (Call::SetPanning { channel: c_int(self.0), left, right }),
    {
        Call::SetPanning { channel: c_int(self.0), left, right }
    }

    /// The call that removes the panning effect: both sides at full volume.
    pub fn unset_panning(self) -> (call: Call)
        ensures
            call == (Call::SetPanning { channel: c_int(self.0), left: 255u8, right: 255u8 }),
    {
        Call::SetPanning { channel: c_int(self.0), left: 255, right: 255 }
    }

    /// The call that sets the distance effect, from 0 (close, loud) to 255
    /// (far, quiet). The native layer answers 0 on failure.
    pub fn set_distance(self, distance: u8) -> (call: Call)
        ensures
            call == (Call::SetDistance { channel: c_int(self.0), distance }),
    {
        Call::SetDistance { channel: c_int(self.0), distance }
    }

    /// The call that removes the distance effect: distance 0.
    pub fn unset_distance(self) -> (call: Call)
        ensures
            call == (Call::SetDistance { channel: c_int(self.0), distance: 0u8 }),
    {
        Call::SetDistance { channel: c_int(self.0), distance: 0 }
    }

    /// The call that sets the position effect: an angle in degrees,
    /// clockwise from straight ahead, and a distance from 0 (close, loud)
    /// to 255 (far, quiet). The native layer answers 0 on failure.
    pub fn set_position(self, angle: i16, distance: u8) -> (call: Call)
        ensures
            call == (Call::SetPosition { channel: c_int(self.0), angle, distance }),
    {
        Call::SetPosition { channel: c_int(self.0), angle, distance }
    }

    /// The call that removes the position effect: straight ahead, distance 0.
    pub fn unset_position(self) -> (call: Call)
        ensures
            call == (Call::SetPosition { channel: c_int(self.0), angle: 0i16, distance: 0u8 }),
    {
        Call::SetPosition { channel: c_int(self.0), angle: 0, distance: 0 }
    }

    /// The call that swaps the left and the right side if `flip`, and
    /// removes the effect if not. The native layer answers 0 on failure.
    pub fn set_reverse_stereo(self, flip: bool) -> (call: Call)
        ensures
            call == (Call::SetReverseStereo { channel: c_int(self.0), flip: c_bool(flip) }),
    {
        Call::SetReverseStereo { channel: c_int(self.0), flip: c_bool(flip) }
    }
}

/// The two readings of the answer to a start of playback agree: it is an
/// error exactly where the call's status is a failure.
pub proof fn lemma_started_fails_together(call: Call, answer: i32, error: String)
    requires
        call is PlayChannelTimed || call is FadeInChannelTimed,
    ensures
        Channel::spec_started(answer, error) is Err <==> call.fails(answer),
{
}

} // verus!
