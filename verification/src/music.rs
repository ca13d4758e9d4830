//! Music: the one track that the mixer plays beside the channels.

use vstd::prelude::*;
use vstd::string::StringExecFns;
use crate::call::Call;
use crate::hook::Slot;
use crate::marshal::c_int;
use crate::volume::effective_volume;

verus! {

/// The call that counts the music decoders.
pub fn get_music_decoders_number() -> (call: Call)
    ensures
        call == Call::GetNumMusicDecoders,
{
    Call::GetNumMusicDecoders
}

/// The call that asks for the name of the music decoder at `index`.
pub fn get_music_decoder(index: isize) -> (call: Call)
    ensures
        call == (Call::GetMusicDecoder { index: c_int(index) }),
{
    Call::GetMusicDecoder { index: c_int(index) }
}

/// How a music track is encoded.
#[derive(Debug, Copy, Clone, PartialEq, Eq, Hash, Structural)]
pub enum MusicType {
    MusicNone,
    MusicCmd,
    MusicWav,
    MusicMod,
    MusicMid,
    MusicOgg,
    MusicMp3,
    MusicMp3Mad,
    MusicFlac,
    MusicModPlug,
}

impl MusicType {
    /// The music type that the native code `code` stands for.
    pub open spec fn spec_from_native(code: u32) -> MusicType {
        if code == 1 {
            MusicType::MusicCmd
        } else if code == 2 {
            MusicType::MusicWav
        } else if code == 3 {
            MusicType::MusicMod
        } else if code == 4 {
            MusicType::MusicMid
        } else if code == 5 {
            MusicType::MusicOgg
        } else if code == 6 {
            MusicType::MusicMp3
        } else if code == 7 {
            MusicType::MusicMp3Mad
        } else if code == 8 {
            MusicType::MusicFlac
        } else if code == 9 {
            MusicType::MusicModPlug
        } else {
            MusicType::MusicNone
        }
    }

    /// The native code of a music type.
    pub open spec fn spec_code(self) -> u32 {
        match self {
            MusicType::MusicNone => 0,
            MusicType::MusicCmd => 1,
            MusicType::MusicWav => 2,
            MusicType::MusicMod => 3,
            MusicType::MusicMid => 4,
            MusicType::MusicOgg => 5,
            MusicType::MusicMp3 => 6,
            MusicType::MusicMp3Mad => 7,
            MusicType::MusicFlac => 8,
            MusicType::MusicModPlug => 9,
        }
    }

    /// Reads a native music type code. The codes run from 0, for no type,
    /// to 9; a code outside these is read as no type.
    #[verifier::when_used_as_spec(spec_from_native)]
    pub fn from_native(code: u32) -> (r: MusicType)
        ensures
            r == MusicType::spec_from_native(code),
    {
        match code {
            0 => MusicType::MusicNone,
            1 => MusicType::MusicCmd,
            2 => MusicType::MusicWav,
            3 => MusicType::MusicMod,
            4 => MusicType::MusicMid,
            5 => MusicType::MusicOgg,
            6 => MusicType::MusicMp3,
            7 => MusicType::MusicMp3Mad,
            8 => MusicType::MusicFlac,
            9 => MusicType::MusicModPlug,
            _ => MusicType::MusicNone,
        }
    }

    /// The native code of this music type.
    #[verifier::when_used_as_spec(spec_code)]
    pub fn code(self) -> (r: u32)
        ensures
            r == self.spec_code(),
    {
        match self {
            MusicType::MusicNone => 0,
            MusicType::MusicCmd => 1,
            MusicType::MusicWav => 2,
            MusicType::MusicMod => 3,
            MusicType::MusicMid => 4,
            MusicType::MusicOgg => 5,
            MusicType::MusicMp3 => 6,
            MusicType::MusicMp3Mad => 7,
            MusicType::MusicFlac => 8,
            MusicType::MusicModPlug => 9,
        }
    }
}

/// Every music type is read back from its own code.
pub proof fn lemma_music_type_round_trip(music_type: MusicType)
    ensures
        MusicType::from_native(music_type.code()) == music_type,
{
}

/// A music track in the native mixer's memory. As with a sample, a handle
/// frees the track when it is released if and only if it owns it.
#[derive(Debug, PartialEq, Eq, Structural)]
pub struct Music {
    /// Address of the native track.
    pub raw: usize,
    /// Whether this handle frees the track.
    pub owned: bool,
}

impl Music {
    /// The handle for the track at `raw` as the loader returns it.
    pub open spec fn spec_loaded(raw: usize, error: String) -> Result<Music, String> {
        if raw == 0 {
            Err(error)
        } else {
            Ok(Music { raw, owned: true })
        }
    }

    /// The call that a released handle owes the mixer, if it owes one.
    pub open spec fn spec_release(self) -> Option<Call> {
        if self.owned {
            Some(Call::FreeMusic { music: self.raw })
        } else {
            None
        }
    }

    /// The call that loads the music file at `path`. The native layer
    /// answers with the track's address, null on failure; [`Music::loaded`]
    /// reads it.
    pub fn from_file(path: &str) -> (call: Call)
        ensures
            call matches Call::LoadMus { file } && file@ == path@,
    {
        Call::LoadMus { file: String::from_str(path) }
    }

    /// Reads the loader's answer: a null address is a failure with the
    /// native error text, any other is a track that the new handle owns.
    pub fn loaded(raw: usize, error: String) -> (r: Result<Music, String>)
        ensures
            r == Music::spec_loaded(raw, error),
    {
        if raw == 0 {
            Err(error)
        } else {
            Ok(Music { raw, owned: true })
        }
    }

    /// Ends the handle's life. An owning handle owes the mixer the call that
    /// frees its track; a borrowed one owes nothing.
    pub fn release(self) -> (r: Option<Call>)
        ensures
            r == self.spec_release(),
    {
        if self.owned {
            Some(Call::FreeMusic { music: self.raw })
        } else {
            None
        }
    }

    /// The call that asks for the encoding of the track;
    /// [`MusicType::from_native`] reads the answer.
    pub fn get_type(&self) -> (call: Call)
        ensures
            call == (Call::GetMusicType { music: self.raw }),
    {
        Call::GetMusicType { music: self.raw }
    }

    /// The call that plays the track `loops` times through, for ever if
    /// `loops` is -1, in place of whatever music played before. The native
    /// layer answers -1 on failure.
    pub fn play(&self, loops: isize) -> (call: Call)
        ensures
            call == (Call::PlayMusic { music: self.raw, loops: c_int(loops) }),
    {
        Call::PlayMusic { music: self.raw, loops: c_int(loops) }
    }

    /// As [`Music::play`], with the volume rising from silence over `ms`
    /// milliseconds.
    pub fn fade_in(&self, loops: isize, ms: isize) -> (call: Call)
        ensures
            call == (Call::FadeInMusic { music: self.raw, loops: c_int(loops), ms: c_int(ms) }),
    {
        Call::FadeInMusic { music: self.raw, loops: c_int(loops), ms: c_int(ms) }
    }

    /// As [`Music::fade_in`], starting at a position in the track. The
    /// position is a number of seconds with a fraction; it is handed to the
    /// native layer as it is, beside this call.
    pub fn fade_in_from_pos(&self, loops: isize, ms: isize) -> (call: Call)
        ensures
            call == (Call::FadeInMusicPos { music: self.raw, loops: c_int(loops), ms: c_int(ms) }),
    {
        Call::FadeInMusicPos { music: self.raw, loops: c_int(loops), ms: c_int(ms) }
    }

    /// The call that asks for the music volume and leaves it as it is.
    pub fn get_volume() -> (call: Call)
        ensures
            call == (Call::VolumeMusic { volume: -1i32 }),
    {
        Call::VolumeMusic { volume: -1 }
    }

    /// The call that sets the music volume, clamped to the scale.
    pub fn set_volume(volume: isize) -> (call: Call)
        ensures
            call == (Call::VolumeMusic { volume: effective_volume(volume) }),
    {
        Call::VolumeMusic { volume: effective_volume(volume) }
    }

    /// The call that pauses the music.
    pub fn pause() -> (call: Call)
        ensures
            call == Call::PauseMusic,
    {
        Call::PauseMusic
    }

    /// The call that resumes the music.
    pub fn resume() -> (call: Call)
        ensures
            call == Call::ResumeMusic,
    {
        Call::ResumeMusic
    }

    /// The call that rewinds the music to its start.
    pub fn rewind() -> (call: Call)
        ensures
            call == Call::RewindMusic,
    {
        Call::RewindMusic
    }

    /// The call that moves the playing music to a position. The position
    /// is handed to the native layer as it is, beside this call. The native
    /// layer answers -1 on failure.
    pub fn set_pos() -> (call: Call)
        ensures
            call == Call::SetMusicPosition,
    {
        Call::SetMusicPosition
    }

    /// The call that makes the native layer play music through the command
    /// line `command`. The native layer answers -1 on failure.
    pub fn set_command(command: &str) -> (call: Call)
        ensures
            call matches Call::SetMusicCmd { command: sent } && sent@ == command@,
    {
        Call::SetMusicCmd { command: String::from_str(command) }
    }

    /// The call that halts the music.
    pub fn halt() -> (call: Call)
        ensures
            call == Call::HaltMusic,
    {
        Call::HaltMusic
    }

    /// The call that fades the music out over `ms` milliseconds. The native
    /// layer answers -1 on failure.
    pub fn fade_out(ms: isize) -> (call: Call)
        ensures
            call == (Call::FadeOutMusic { ms: c_int(ms) }),
    {
        Call::FadeOutMusic { ms: c_int(ms) }
    }

    /// Registers `f` as the handler of the end of the music: stores it in
    /// `slot`, in place of any handler stored before, and yields the call
    /// that hands the trampoline to the native layer.
    pub fn hook_finished<H>(slot: &mut Slot<H>, f: H) -> (call: Call)
        ensures
            *final(slot) == old(slot).spec_set(f),
            final(slot)@ == Some(f),
            call == (Call::HookMusicFinished { hooked: true }),
    {
        slot.set(f);
        Call::HookMusicFinished { hooked: true }
    }

    /// Begins to unregister the handler of the end of the music: yields the
    /// call that takes the trampoline from the native layer. The slot is
    /// left as it is; [`Slot::unhooked`] clears it once the call was made.
    pub fn unhook_finished<H>(slot: &Slot<H>) -> (call: Call)
        ensures
            call == (Call::HookMusicFinished { hooked: false }),
    {
        Call::HookMusicFinished { hooked: false }
    }

    /// The call that asks whether music is playing; the answer 1 is yes.
    pub fn is_playing() -> (call: Call)
        ensures
            call == Call::PlayingMusic,
    {
        Call::PlayingMusic
    }

    /// The call that asks whether the music is paused; the answer 1 is yes.
    pub fn is_paused() -> (call: Call)
        ensures
            call == Call::PausedMusic,
    {
        Call::PausedMusic
    }

    /// The call that asks whether the music is fading;
    /// [`crate::channel::Fading::from_native`] reads the answer.
    pub fn get_fading() -> (call: Call)
        ensures
            call == Call::FadingMusic,
    {
        Call::FadingMusic
    }
}

} // verus!
