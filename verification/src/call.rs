//! The native entry points of the mixer, as values.
//!
//! Nothing in this crate touches the audio device. Every operation is worked
//! out here as a [`Call`]: which native entry point to enter and with which
//! C-typed arguments. The program that links the native mixer performs the
//! call and hands the answer back to the function that reads it.

use vstd::prelude::*;

verus! {

/// One call into the native mixer, arguments already in their C types.
///
/// Sample buffers, music tracks and byte streams are named by their native
/// address; `0` is the null handle.
#[derive(Debug, PartialEq, Eq)]
pub enum Call {
    /// `Mix_Linked_Version()`
    LinkedVersion,
    /// `Mix_Init(flags)`
    Init { flags: i32 },
    /// `Mix_Quit()`
    Quit,
    /// `Mix_OpenAudio(frequency, format, channels, chunksize)`
    OpenAudio { frequency: i32, format: u16, channels: i32, chunksize: i32 },
    /// `Mix_CloseAudio()`
    CloseAudio,
    /// `Mix_QuerySpec(&frequency, &format, &channels)`
    QuerySpec,
    /// `Mix_GetNumChunkDecoders()`
    GetNumChunkDecoders,
    /// `Mix_GetChunkDecoder(index)`
    GetChunkDecoder { index: i32 },
    /// `Mix_LoadWAV_RW(src, freesrc)`
    LoadWavRw { src: usize, freesrc: i32 },
    /// `Mix_FreeChunk(chunk)`
    FreeChunk { chunk: usize },
    /// `Mix_VolumeChunk(chunk, volume)`
    VolumeChunk { chunk: usize, volume: i32 },
    /// `Mix_AllocateChannels(numchans)`
    AllocateChannels { numchans: i32 },
    /// `Mix_ChannelFinished(..)`: the trampoline when `hooked`, null otherwise.
    ChannelFinished { hooked: bool },
    /// `Mix_Volume(channel, volume)`
    Volume { channel: i32, volume: i32 },
    /// `Mix_PlayChannelTimed(channel, chunk, loops, ticks)`
    PlayChannelTimed { channel: i32, chunk: usize, loops: i32, ticks: i32 },
    /// `Mix_FadeInChannelTimed(channel, chunk, loops, ms, ticks)`
    FadeInChannelTimed { channel: i32, chunk: usize, loops: i32, ms: i32, ticks: i32 },
    /// `Mix_Pause(channel)`
    Pause { channel: i32 },
    /// `Mix_Resume(channel)`
    Resume { channel: i32 },
    /// `Mix_HaltChannel(channel)`
    HaltChannel { channel: i32 },
    /// `Mix_ExpireChannel(channel, ticks)`
    ExpireChannel { channel: i32, ticks: i32 },
    /// `Mix_FadeOutChannel(which, ms)`
    FadeOutChannel { which: i32, ms: i32 },
    /// `Mix_Playing(channel)`
    Playing { channel: i32 },
    /// `Mix_Paused(channel)`
    Paused { channel: i32 },
    /// `Mix_FadingChannel(which)`
    FadingChannel { which: i32 },
    /// `Mix_GetChunk(channel)`
    GetChunk { channel: i32 },
    /// `Mix_UnregisterAllEffects(channel)`
    UnregisterAllEffects { channel: i32 },
    /// `Mix_SetPanning(channel, left, right)`
    SetPanning { channel: i32, left: u8, right: u8 },
    /// `Mix_SetDistance(channel, distance)`
    SetDistance { channel: i32, distance: u8 },
    /// `Mix_SetPosition(channel, angle, distance)`
    SetPosition { channel: i32, angle: i16, distance: u8 },
    /// `Mix_SetReverseStereo(channel, flip)`
    SetReverseStereo { channel: i32, flip: i32 },
    /// `Mix_ReserveChannels(num)`
    ReserveChannels { num: i32 },
    /// `Mix_GroupChannels(from, to, tag)`
    GroupChannels { from: i32, to: i32, tag: i32 },
    /// `Mix_GroupChannel(which, tag)`
    GroupChannel { which: i32, tag: i32 },
    /// `Mix_GroupCount(tag)`
    GroupCount { tag: i32 },
    /// `Mix_GroupAvailable(tag)`
    GroupAvailable { tag: i32 },
    /// `Mix_GroupOldest(tag)`
    GroupOldest { tag: i32 },
    /// `Mix_GroupNewer(tag)`
    GroupNewer { tag: i32 },
    /// `Mix_FadeOutGroup(tag, ms)`
    FadeOutGroup { tag: i32, ms: i32 },
    /// `Mix_HaltGroup(tag)`
    HaltGroup { tag: i32 },
    /// `Mix_GetNumMusicDecoders()`
    GetNumMusicDecoders,
    /// `Mix_GetMusicDecoder(index)`
    GetMusicDecoder { index: i32 },
    /// `Mix_LoadMUS(file)`
    LoadMus { file: String },
    /// `Mix_FreeMusic(music)`
    FreeMusic { music: usize },
    /// `Mix_GetMusicType(music)`
    GetMusicType { music: usize },
    /// `Mix_PlayMusic(music, loops)`
    PlayMusic { music: usize, loops: i32 },
    /// `Mix_FadeInMusic(music, loops, ms)`
    FadeInMusic { music: usize, loops: i32, ms: i32 },
    /// `Mix_FadeInMusicPos(music, loops, ms, position)`; the position, a
    /// number of seconds with a fraction, travels beside the call.
    FadeInMusicPos { music: usize, loops: i32, ms: i32 },
    /// `Mix_VolumeMusic(volume)`
    VolumeMusic { volume: i32 },
    /// `Mix_PauseMusic()`
    PauseMusic,
    /// `Mix_ResumeMusic()`
    ResumeMusic,
    /// `Mix_RewindMusic()`
    RewindMusic,
    /// `Mix_SetMusicPosition(position)`; the position travels beside the call.
    SetMusicPosition,
    /// `Mix_SetMusicCMD(command)`
    SetMusicCmd { command: String },
    /// `Mix_HaltMusic()`
    HaltMusic,
    /// `Mix_FadeOutMusic(ms)`
    FadeOutMusic { ms: i32 },
    /// `Mix_HookMusicFinished(..)`: the trampoline when `hooked`, null otherwise.
    HookMusicFinished { hooked: bool },
    /// `Mix_PlayingMusic()`
    PlayingMusic,
    /// `Mix_PausedMusic()`
    PausedMusic,
    /// `Mix_FadingMusic()`
    FadingMusic,
}

} // verus!
