//! Bringing the mixer up and down: loading decoders, opening the device.

use vstd::prelude::*;
use vstd::string::StringExecFns;
use crate::call::Call;
use crate::flags::{decoders_in, lemma_word_of_set, names, word_of, Decoder, InitFlag};
use crate::format::AudioFormat;
use crate::marshal::{bits_to_c_int, c_int, c_int_to_bits, lemma_bits_round_trip, unsigned_bits};

verus! {

/// The token of an initialised mixer. It comes from a successful
/// initialisation and from nowhere else, it cannot be copied, and whoever
/// holds it owes the mixer one [`Sdl2MixerContext::quit`] when it is given
/// up.
#[derive(Debug, PartialEq, Eq)]
pub struct Sdl2MixerContext {
    token: (),
}

impl Sdl2MixerContext {
    /// Gives the token up: the call that unloads every decoder.
    pub fn quit(self) -> (call: Call)
        ensures
            call == Call::Quit,
    {
        Call::Quit
    }
}

/// The call that reports the version of the linked mixer.
pub fn get_linked_version() -> (call: Call)
    ensures
        call == Call::LinkedVersion,
{
    Call::LinkedVersion
}

/// The call that loads the decoders in `flags`. The native layer answers
/// with a flag word of the decoders that are loaded now; [`init_outcome`]
/// reads it.
pub fn init(flags: InitFlag) -> (call: Call)
    ensures
        call == (Call::Init { flags: word_of(flags@) as i32 }),
{
    Call::Init { flags: bits_to_c_int(flags.bits()) }
}

/// The decoders that the native layer reports as loaded in `answer`.
pub open spec fn loaded(answer: i32) -> Set<Decoder> {
    decoders_in(unsigned_bits(answer))
}

/// The message for decoders that did not load, made here when the native
/// layer gave none.
pub open spec fn could_not_init(missing: Set<Decoder>) -> Seq<char> {
    "Could not init: "@ + names(missing)
}

/// How an initialisation ended.
#[derive(Debug, PartialEq, Eq)]
pub enum InitOutcome {
    /// Every decoder that was asked for is loaded.
    Ready(Sdl2MixerContext),
    /// A decoder is missing, and the native layer said why.
    Refused(String),
    /// A decoder is missing and the native layer left no text. The message
    /// names what is missing; it is to be recorded as the last error.
    Unexplained(String),
}

impl InitOutcome {
    /// The token, or the text of the failure.
    pub fn into_result(self) -> (r: Result<Sdl2MixerContext, String>)
        ensures
            match self {
                InitOutcome::Ready(context) => r == Ok::<Sdl2MixerContext, String>(context),
                InitOutcome::Refused(error) => r == Err::<Sdl2MixerContext, String>(error),
                InitOutcome::Unexplained(message) => r == Err::<Sdl2MixerContext, String>(message),
            },
    {
        match self {
            InitOutcome::Ready(context) => Ok(context),
            InitOutcome::Refused(error) => Err(error),
            InitOutcome::Unexplained(message) => Err(message),
        }
    }
}

/// Reads the answer to [`init`]. The initialisation succeeded if and only if
/// every decoder in `flags` is among those that `answer` reports; decoders
/// that are loaded beyond those do no harm. `error` is the native layer's
/// last error string.
pub fn init_outcome(flags: InitFlag, answer: i32, error: String) -> (r: InitOutcome)
    ensures
        flags@.subset_of(loaded(answer)) ==> r is Ready,
        !flags@.subset_of(loaded(answer)) && error@.len() > 0 ==> r == InitOutcome::Refused(error),
        !flags@.subset_of(loaded(answer)) && error@.len() == 0 ==> (r matches InitOutcome::Unexplained(
            message,
        ) && message@ == could_not_init(flags@.difference(loaded(answer)))),
{
    let return_flags = InitFlag::from_bits_truncate(c_int_to_bits(answer));
    if return_flags.contains(flags) {
        InitOutcome::Ready(Sdl2MixerContext { token: () })
    } else if error.as_str().is_empty() {
        let un_init_flags = flags.difference(return_flags);
        let message = String::from_str("Could not init: ").concat(un_init_flags.to_string().as_str());
        InitOutcome::Unexplained(message)
    } else {
        InitOutcome::Refused(error)
    }
}

/// The call that opens the audio device. The native layer answers `0` on
/// success.
pub fn open_audio(frequency: isize, format: AudioFormat, channels: isize, chunksize: isize) -> (call:
    Call)
    ensures
        call == (Call::OpenAudio {
            frequency: c_int(frequency),
            format,
            channels: c_int(channels),
            chunksize: c_int(chunksize),
        }),
{
    Call::OpenAudio {
        frequency: c_int(frequency),
        format,
        channels: c_int(channels),
        chunksize: c_int(chunksize),
    }
}

/// The call that shuts the audio device.
pub fn close_audio() -> (call: Call)
    ensures
        call == Call::CloseAudio,
{
    Call::CloseAudio
}

/// The call that asks for the format of the opened device. The native layer
/// answers with how often the device was opened, `0` meaning failure, and
/// fills in frequency, format and channel count; [`device_spec`] reads them.
pub fn query_spec() -> (call: Call)
    ensures
        call == Call::QuerySpec,
{
    Call::QuerySpec
}

/// The format of the device, or the failure, in the native answer to
/// [`query_spec`].
pub open spec fn spec_device_spec(
    opened: i32,
    frequency: i32,
    format: AudioFormat,
    channels: i32,
    error: String,
) -> Result<(isize, AudioFormat, isize), String> {
    if opened == 0 {
        Err(error)
    } else {
        Ok((frequency as isize, format, channels as isize))
    }
}

/// Reads the answer to [`query_spec`]: `opened` is what the native layer
/// returned, 0 meaning failure, and `frequency`, `format` and `channels`
/// are what it filled in.
pub fn device_spec(opened: i32, frequency: i32, format: AudioFormat, channels: i32, error: String) -> (r:
    Result<(isize, AudioFormat, isize), String>)
    ensures
        r == spec_device_spec(opened, frequency, format, channels, error),
{
    if opened == 0 {
        Err(error)
    } else {
        Ok((frequency as isize, format, channels as isize))
    }
}

/// Asking for the device's format fails exactly on the answers that the
/// call's status reads as a failure.
pub proof fn lemma_device_spec_fails_together(
    opened: i32,
    frequency: i32,
    format: AudioFormat,
    channels: i32,
    error: String,
)
    ensures
        spec_device_spec(opened, frequency, format, channels, error) is Err
            <==> Call::QuerySpec.fails(opened),
{
}

/// An answer that echoes the request is a success: where the native layer
/// reports exactly the decoders that were asked for, every one of them is
/// loaded.
pub proof fn lemma_echo_is_ready(flags: Set<Decoder>)
    ensures
        loaded(word_of(flags) as i32) == flags,
{
    lemma_word_of_set(flags);
    let bits = word_of(flags) as u32;
    lemma_bits_round_trip(bits);
}

} // verus!
