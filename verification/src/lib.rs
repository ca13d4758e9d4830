//! The deciding half of a binding to the SDL2_mixer audio library.
//!
//! A binding to a native mixer does two things: it decides, and it calls.
//! This crate is the part that decides. It narrows arguments to C integers,
//! clamps volumes, works out which native call an operation comes to, reads
//! what the native layer answered, tells which decoders are missing after
//! an initialisation, knows which handle frees a sample, and keeps the one
//! handler of a finish event. The calls themselves are made by the program
//! that links the mixer: it performs each [`Call`] and hands the answer to
//! the function that reads it.

pub mod answer;
pub mod call;
pub mod channel;
pub mod chunk;
pub mod flags;
pub mod format;
pub mod group;
pub mod hook;
pub mod marshal;
pub mod music;
pub mod session;
pub mod volume;

pub use crate::call::Call;
pub use crate::channel::{
    allocate_channels, channel, get_paused_channels_number, get_playing_channels_number, Channel,
    Fading,
};
pub use crate::chunk::{get_chunk_decoder, get_chunk_decoders_number, load_wav, Chunk};
pub use crate::flags::{
    Decoder, InitFlag, INIT_FLAC, INIT_FLUIDSYNTH, INIT_MOD, INIT_MODPLUG, INIT_MP3, INIT_OGG,
};
pub use crate::format::{
    AudioFormat, AUDIO_F32, AUDIO_F32LSB, AUDIO_F32MSB, AUDIO_F32SYS, AUDIO_S16, AUDIO_S16LSB,
    AUDIO_S16MSB, AUDIO_S16SYS, AUDIO_S32, AUDIO_S32LSB, AUDIO_S32MSB, AUDIO_S32SYS, AUDIO_S8,
    AUDIO_U16, AUDIO_U16LSB, AUDIO_U16MSB, AUDIO_U16SYS, AUDIO_U8, DEFAULT_CHANNELS,
    DEFAULT_FORMAT, DEFAULT_FREQUENCY,
};
pub use crate::group::{reserve_channels, Group};
pub use crate::hook::{
    channel_finished, music_finished, set_channel_finished, unset_channel_finished, Slot,
};
pub use crate::music::{get_music_decoder, get_music_decoders_number, Music, MusicType};
pub use crate::session::{
    close_audio, device_spec, get_linked_version, init, init_outcome, open_audio, query_spec,
    InitOutcome, Sdl2MixerContext,
};
pub use crate::volume::{effective_volume, MAX_VOLUME};
