//! Sample buffers and who frees them.

use vstd::prelude::*;
use crate::call::Call;
use crate::marshal::c_int;
use crate::volume::effective_volume;

verus! {

/// The call that counts the sample decoders.
pub fn get_chunk_decoders_number() -> (call: Call)
    ensures
        call == Call::GetNumChunkDecoders,
{
    Call::GetNumChunkDecoders
}

/// The call that asks for the name of the sample decoder at `index`.
pub fn get_chunk_decoder(index: isize) -> (call: Call)
    ensures
        call == (Call::GetChunkDecoder { index: c_int(index) }),
{
    Call::GetChunkDecoder { index: c_int(index) }
}

/// The call that decodes a sample from the byte stream at `stream`. The
/// stream stays open: whoever opened it closes it. The native layer answers
/// with the sample's address, null on failure; [`Chunk::loaded`] reads it.
pub fn load_wav(stream: usize) -> (call: Call)
    ensures
        call == (Call::LoadWavRw { src: stream, freesrc: 0 }),
{
    Call::LoadWavRw { src: stream, freesrc: 0 }
}

/// A decoded sample in the native mixer's memory.
///
/// A handle either owns its sample, and then frees it when it is released,
/// or only looks at a sample that the mixer holds, and then never frees it.
#[derive(Debug, PartialEq, Eq, Structural)]
pub struct Chunk {
    /// Address of the native sample.
    pub raw: usize,
    /// Whether this handle frees the sample.
    pub owned: bool,
}

impl Chunk {
    /// The handle for the sample at `raw` as a loader returns it.
    pub open spec fn spec_loaded(raw: usize, error: String) -> Result<Chunk, String> {
        if raw == 0 {
            Err(error)
        } else {
            Ok(Chunk { raw, owned: true })
        }
    }

    /// The handle for the sample at `raw` as a channel reports it.
    pub open spec fn spec_borrowed(raw: usize) -> Option<Chunk> {
        if raw == 0 {
            None
        } else {
            Some(Chunk { raw, owned: false })
        }
    }

    /// The call that a released handle owes the mixer, if it owes one.
    pub open spec fn spec_release(self) -> Option<Call> {
        if self.owned {
            Some(Call::FreeChunk { chunk: self.raw })
        } else {
            None
        }
    }

    /// Loads a sample from a file, given what came of opening it for
    /// reading: the stream's address, or the text of the failure. A file
    /// that did not open is an error with that text; one that did yields the
    /// call of [`load_wav`] on its stream.
    pub fn from_file(stream: Result<usize, String>) -> (r: Result<Call, String>)
        ensures
            match stream {
                Ok(src) => r == Ok::<Call, String>(Call::LoadWavRw { src, freesrc: 0 }),
                Err(error) => r == Err::<Call, String>(error),
            },
    {
        match stream {
            Ok(src) => Ok(load_wav(src)),
            Err(error) => Err(error),
        }
    }

    /// Reads a loader's answer: a null address is a failure with the native
    /// error text, any other is a sample that the new handle owns.
    pub fn loaded(raw: usize, error: String) -> (r: Result<Chunk, String>)
        ensures
            r == Chunk::spec_loaded(raw, error),
    {
        if raw == 0 {
            Err(error)
        } else {
            Ok(Chunk { raw, owned: true })
        }
    }

    /// Reads a channel's answer to the question which sample it plays: a
    /// null address is no sample, any other is a sample that the mixer keeps
    /// and the new handle only looks at.
    pub fn borrowed(raw: usize) -> (r: Option<Chunk>)
        ensures
            r == Chunk::spec_borrowed(raw),
    {
        if raw == 0 {
            None
        } else {
            Some(Chunk { raw, owned: false })
        }
    }

    /// The call that sets the sample's volume, clamped to the scale. The
    /// native layer answers with the volume before.
    pub fn set_volume(&mut self, volume: isize) -> (call: Call)
        ensures
            *final(self) == *old(self),
            call == (Call::VolumeChunk { chunk: old(self).raw, volume: effective_volume(volume) }),
    {
        Call::VolumeChunk { chunk: self.raw, volume: effective_volume(volume) }
    }

    /// The call that asks for the sample's volume and leaves it as it is.
    pub fn get_volume(&self) -> (call: Call)
        ensures
            call == (Call::VolumeChunk { chunk: self.raw, volume: -1i32 }),
    {
        Call::VolumeChunk { chunk: self.raw, volume: -1 }
    }

    /// Ends the handle's life. An owning handle owes the mixer the call that
    /// frees its sample; a borrowed one owes nothing.
    pub fn release(self) -> (r: Option<Call>)
        ensures
            r == self.spec_release(),
    {
        if self.owned {
            Some(Call::FreeChunk { chunk: self.raw })
        } else {
            None
        }
    }
}

/// Whatever address a channel reports, releasing the handle made for it
/// frees nothing: the sample stays with its owner.
pub proof fn lemma_borrowed_frees_nothing(raw: usize)
    ensures
        Chunk::spec_borrowed(raw) matches Some(chunk) ==> chunk.spec_release() is None,
{
}

/// A handle frees a sample if and only if it owns it, and then it frees its
/// own sample.
pub proof fn lemma_release_by_owner(chunk: Chunk)
    ensures
        chunk.spec_release() is Some <==> chunk.owned,
        chunk.owned ==> chunk.spec_release() == Some(Call::FreeChunk { chunk: chunk.raw }),
{
}

} // verus!
