//! Sample formats and the suggested settings of the audio device.

use vstd::prelude::*;

verus! {

/// How a sample is encoded: signedness, bit width and byte order, packed
/// into sixteen bits as the native layer packs them.
pub type AudioFormat = u16;

/// Unsigned 8-bit samples.
pub const AUDIO_U8: AudioFormat = 0x0008;

/// Signed 8-bit samples.
pub const AUDIO_S8: AudioFormat = 0x8008;

/// Unsigned 16-bit samples, low byte first.
pub const AUDIO_U16LSB: AudioFormat = 0x0010;

/// Signed 16-bit samples, low byte first.
pub const AUDIO_S16LSB: AudioFormat = 0x8010;

/// Unsigned 16-bit samples, high byte first.
pub const AUDIO_U16MSB: AudioFormat = 0x1010;

/// Signed 16-bit samples, high byte first.
pub const AUDIO_S16MSB: AudioFormat = 0x9010;

/// Unsigned 16-bit samples.
pub const AUDIO_U16: AudioFormat = AUDIO_U16LSB;

/// Signed 16-bit samples.
pub const AUDIO_S16: AudioFormat = AUDIO_S16LSB;

/// Signed 32-bit samples, low byte first.
pub const AUDIO_S32LSB: AudioFormat = 0x8020;

/// Signed 32-bit samples, high byte first.
pub const AUDIO_S32MSB: AudioFormat = 0x9020;

/// Signed 32-bit samples.
pub const AUDIO_S32: AudioFormat = AUDIO_S32LSB;

/// 32-bit floating-point samples, low byte first.
pub const AUDIO_F32LSB: AudioFormat = 0x8120;

/// 32-bit floating-point samples, high byte first.
pub const AUDIO_F32MSB: AudioFormat = 0x9120;

/// 32-bit floating-point samples.
pub const AUDIO_F32: AudioFormat = AUDIO_F32LSB;

/// Unsigned 16-bit samples in the byte order of the host.
pub const AUDIO_U16SYS: AudioFormat = AUDIO_U16LSB;

/// Signed 16-bit samples in the byte order of the host.
pub const AUDIO_S16SYS: AudioFormat = AUDIO_S16LSB;

/// Signed 32-bit samples in the byte order of the host.
pub const AUDIO_S32SYS: AudioFormat = AUDIO_S32LSB;

/// 32-bit floating-point samples in the byte order of the host.
pub const AUDIO_F32SYS: AudioFormat = AUDIO_F32LSB;

/// The suggested default is signed 16bit samples in host byte order.
pub const DEFAULT_FORMAT: AudioFormat = AUDIO_S16SYS;

/// Default channels: Stereo.
pub const DEFAULT_CHANNELS: isize = 2;

/// Good default sample rate in Hz (samples per second) for PC sound cards.
pub const DEFAULT_FREQUENCY: isize = 22050;

} // verus!
