//! What the native mixer's status codes mean.
//!
//! The native layer reports failure by a sentinel, and not the same one for
//! every entry point: some answer 0 on success, some 0 on failure, some -1
//! on failure. Yes and no come in two forms as well. The tables are here,
//! keyed by the call that was made.

use vstd::prelude::*;
use crate::call::Call;

verus! {

impl Call {
    /// Whether `answer`, given to this call, reports a failure.
    ///
    /// Opening the device answers 0 on success. Asking for the device's
    /// format and setting or removing an effect answer 0 on failure.
    /// Starting a sample and everything about music that can fail answer -1
    /// on failure. To the other calls no status code reports a failure: a
    /// loader fails by a null address, a search by finding nothing.
    pub open spec fn fails(self, answer: i32) -> bool {
        match self {
            Call::OpenAudio { .. } => answer != 0,
            Call::QuerySpec
            | Call::UnregisterAllEffects { .. }
            | Call::SetPanning { .. }
            | Call::SetDistance { .. }
            | Call::SetPosition { .. }
            | Call::SetReverseStereo { .. } => answer == 0,
            Call::PlayChannelTimed { .. }
            | Call::FadeInChannelTimed { .. }
            | Call::PlayMusic { .. }
            | Call::FadeInMusic { .. }
            | Call::FadeInMusicPos { .. }
            | Call::SetMusicPosition
            | Call::SetMusicCmd { .. }
            | Call::FadeOutMusic { .. } => answer == -1,
            _ => false,
        }
    }

    /// Whether `answer`, given to this call, says yes.
    ///
    /// Whether a channel plays or is paused is answered by a count, and any
    /// count but 0 is yes. Whether a channel joined a group, and whether
    /// music plays or is paused, is answered by 1 for yes. To the other
    /// calls no answer says yes.
    pub open spec fn affirms(self, answer: i32) -> bool {
        match self {
            Call::Playing { .. } | Call::Paused { .. } => answer != 0,
            Call::GroupChannel { .. } | Call::PlayingMusic | Call::PausedMusic => answer == 1,
            _ => false,
        }
    }

    /// Reads the answer to this call as success or failure. A failure
    /// carries `error`, the native layer's last error string as it stood
    /// right after the call; it may be empty.
    pub fn status(&self, answer: i32, error: String) -> (r: Result<(), String>)
        ensures
            self.fails(answer) ==> r == Err::<(), String>(error),
            !self.fails(answer) ==> r == Ok::<(), String>(()),
    {
        let failed = match self {
            Call::OpenAudio { .. } => answer != 0,
            Call::QuerySpec
            | Call::UnregisterAllEffects { .. }
            | Call::SetPanning { .. }
            | Call::SetDistance { .. }
            | Call::SetPosition { .. }
            | Call::SetReverseStereo { .. } => answer == 0,
            Call::PlayChannelTimed { .. }
            | Call::FadeInChannelTimed { .. }
            | Call::PlayMusic { .. }
            | Call::FadeInMusic { .. }
            | Call::FadeInMusicPos { .. }
            | Call::SetMusicPosition
            | Call::SetMusicCmd { .. }
            | Call::FadeOutMusic { .. } => answer == -1,
            _ => false,
        };
        if failed {
            Err(error)
        } else {
            Ok(())
        }
    }

    /// Reads the answer to this call as yes or no.
    pub fn truth(&self, answer: i32) -> (r: bool)
        ensures
            r == self.affirms(answer),
    {
        match self {
            Call::Playing { .. } | Call::Paused { .. } => answer != 0,
            Call::GroupChannel { .. } | Call::PlayingMusic | Call::PausedMusic => answer == 1,
            _ => false,
        }
    }
}

} // verus!
