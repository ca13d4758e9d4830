//! Groups: tags that part the channels for operations on many at once.

use vstd::prelude::*;
use crate::call::Call;
use crate::channel::Channel;
use crate::marshal::c_int;

verus! {

/// The call that keeps the first `num` channels from being chosen when a
/// sample is played on the first free channel. The native layer answers
/// with the number of channels now reserved.
pub fn reserve_channels(num: isize) -> (call: Call)
    ensures
        call == (Call::ReserveChannels { num: c_int(num) }),
{
    Call::ReserveChannels { num: c_int(num) }
}

/// Sound effect channel grouping: a tag, or -1 for the channels outside
/// every group.
#[derive(Debug, Copy, Clone, PartialEq, Eq, Structural)]
pub struct Group(pub isize);

impl Default for Group {
    /// The tag of the channels outside every group.
    fn default() -> (r: Group)
        ensures
            r == Group(-1isize),
    {
        Group(-1)
    }
}

impl Group {
    /// The channel, if any, in the native answer to a search.
    pub open spec fn spec_found(answer: i32) -> Option<Channel> {
        if answer == -1 {
            None
        } else {
            Some(Channel(answer as isize))
        }
    }

    /// The call that gives the channels from `from` up through `to` this
    /// tag. The native layer answers with the number of channels tagged.
    pub fn add_channels_range(self, from: isize, to: isize) -> (call: Call)
        ensures
            call == (Call::GroupChannels { from: c_int(from), to: c_int(to), tag: c_int(self.0) }),
    {
        Call::GroupChannels { from: c_int(from), to: c_int(to), tag: c_int(self.0) }
    }

    /// The call that gives `channel` this tag. The native layer answers 1
    /// when it did.
    pub fn add_channel(self, channel: Channel) -> (call: Call)
        ensures
            call == (Call::GroupChannel { which: c_int(channel.0), tag: c_int(self.0) }),
    {
        Call::GroupChannel { which: c_int(channel.0), tag: c_int(self.0) }
    }

    /// The call that counts the channels in the group.
    pub fn count(self) -> (call: Call)
        ensures
            call == (Call::GroupCount { tag: c_int(self.0) }),
    {
        Call::GroupCount { tag: c_int(self.0) }
    }

    /// The call that looks for the first channel of the group that is not
    /// playing; [`Group::found`] reads the answer.
    pub fn find_available(self) -> (call: Call)
        ensures
            call == (Call::GroupAvailable { tag: c_int(self.0) }),
    {
        Call::GroupAvailable { tag: c_int(self.0) }
    }

    /// The call that looks for the channel of the group that has been
    /// playing longest; [`Group::found`] reads the answer.
    pub fn find_oldest(self) -> (call: Call)
        ensures
            call == (Call::GroupOldest { tag: c_int(self.0) }),
    {
        Call::GroupOldest { tag: c_int(self.0) }
    }

    /// The call that looks for the channel of the group that started
    /// playing last; [`Group::found`] reads the answer.
    pub fn find_newest(self) -> (call: Call)
        ensures
            call == (Call::GroupNewer { tag: c_int(self.0) }),
    {
        Call::GroupNewer { tag: c_int(self.0) }
    }

    /// Reads the answer to a search in a group. That no channel matched is
    /// an ordinary answer, -1, and is read as `None`; nothing here is an
    /// error.
    pub fn found(answer: i32) -> (r: Option<Channel>)
        ensures
            r == Group::spec_found(answer),
            r is None <==> answer == -1,
    {
        if answer == -1 {
            None
        } else {
            Some(Channel(answer as isize))
        }
    }

    /// The call that fades out the channels of the group over `ms`
    /// milliseconds. The native layer answers with the number of channels
    /// set to fade out.
    pub fn fade_out(self, ms: isize) -> (call: Call)
        ensures
            call == (Call::FadeOutGroup { tag: c_int(self.0), ms: c_int(ms) }),
    {
        Call::FadeOutGroup { tag: c_int(self.0), ms: c_int(ms) }
    }

    /// The call that halts the channels of the group.
    pub fn halt(self) -> (call: Call)
        ensures
            call == (Call::HaltGroup { tag: c_int(self.0) }),
    {
        Call::HaltGroup { tag: c_int(self.0) }
    }
}

} // verus!
