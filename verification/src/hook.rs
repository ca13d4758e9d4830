//! The slot that holds the one handler of a finish event.
//!
//! The native mixer reports a finished channel, or the end of the music, by
//! calling back from its own thread. It takes one target per event, so
//! there is one slot per event, and a slot holds at most one handler: a new
//! one takes the old one's place.

use vstd::prelude::*;
use crate::call::Call;
use crate::channel::Channel;

verus! {

/// A slot for at most one handler of type `H`.
pub struct Slot<H> {
    handler: Option<H>,
}

impl<H> View for Slot<H> {
    type V = Option<H>;

    closed spec fn view(&self) -> Option<H> {
        self.handler
    }
}

impl<H> Slot<H> {
    /// The slot after `handler` was stored in it.
    pub closed spec fn spec_set(self, handler: H) -> Slot<H> {
        Slot { handler: Some(handler) }
    }

    /// The slot after it was cleared.
    pub closed spec fn spec_cleared(self) -> Slot<H> {
        Slot { handler: None }
    }

    /// An empty slot.
    pub fn new() -> (r: Slot<H>)
        ensures
            r@ is None,
    {
        Slot { handler: None }
    }

    /// Stores `handler`, in place of any handler stored before.
    pub fn set(&mut self, handler: H)
        ensures
            *final(self) == old(self).spec_set(handler),
            final(self)@ == Some(handler),
    {
        self.handler = Some(handler);
    }

    /// Clears the slot. This is the answer to the native layer's having
    /// unregistered the trampoline: until then the slot keeps its handler,
    /// so that an event that is already on its way still finds it.
    pub fn unhooked(&mut self)
        ensures
            *final(self) == old(self).spec_cleared(),
            final(self)@ is None,
    {
        self.handler = None;
    }

    /// The handler that an event reaches now: the one stored last, if the
    /// slot was not cleared since.
    pub fn fire(&self) -> (r: Option<&H>)
        ensures
            match self@ {
                Some(handler) => r == Some(&handler),
                None => r is None,
            },
    {
        self.handler.as_ref()
    }
}

/// Registers `f` as the handler of finished channels: stores it in `slot`,
/// in place of any handler stored before, and yields the call that hands
/// the trampoline to the native layer.
pub fn set_channel_finished<H>(slot: &mut Slot<H>, f: H) -> (call: Call)
    ensures
        *final(slot) == old(slot).spec_set(f),
        final(slot)@ == Some(f),
        call == (Call::ChannelFinished { hooked: true }),
{
    slot.set(f);
    Call::ChannelFinished { hooked: true }
}

/// Begins to unregister the handler of finished channels: yields the call
/// that takes the trampoline from the native layer. The slot is left as it
/// is; [`Slot::unhooked`] clears it once the call was made.
pub fn unset_channel_finished<H>(slot: &Slot<H>) -> (call: Call)
    ensures
        call == (Call::ChannelFinished { hooked: false }),
{
    Call::ChannelFinished { hooked: false }
}

/// What the trampoline does when the native layer reports that channel
/// `ch` finished: the handler to call, with the channel to call it on, or
/// nothing where no handler is stored.
pub fn channel_finished<H>(slot: &Slot<H>, ch: i32) -> (r: Option<(&H, Channel)>)
    ensures
        match slot@ {
            Some(handler) => r == Some((&handler, Channel(ch as isize))),
            None => r is None,
        },
{
    match slot.fire() {
        None => None,
        Some(cb) => Some((cb, Channel(ch as isize))),
    }
}

/// What the trampoline does when the native layer reports that the music
/// finished: the handler to call, or nothing where no handler is stored.
pub fn music_finished<H>(slot: &Slot<H>) -> (r: Option<&H>)
    ensures
        match slot@ {
            Some(handler) => r == Some(&handler),
            None => r is None,
        },
{
    slot.fire()
}

/// A handler that is registered takes the place of the one before it: what
/// came first leaves no trace in the slot, and an event reaches the second
/// handler and nothing else.
pub proof fn lemma_last_handler_wins<H>(slot: Slot<H>, first: H, second: H)
    ensures
        slot.spec_set(first).spec_set(second) == slot.spec_set(second),
        slot.spec_set(first).spec_set(second)@ == Some(second),
{
}

/// A cleared slot holds no handler, whatever was stored before.
pub proof fn lemma_cleared_is_empty<H>(slot: Slot<H>, handler: H)
    ensures
        slot.spec_set(handler).spec_cleared()@ is None,
{
}

} // verus!
