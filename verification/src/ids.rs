//! Allocators for job, channel and group identifiers.

use vstd::prelude::*;

verus! {

/// The identifier a counter standing at `state` hands out next.
pub open spec fn next_id(state: u32) -> u32 {
    if state == u32::MAX {
        0
    } else {
        (state + 1) as u32
    }
}

/// A counter of identifiers; the first id issued is 1.
#[derive(Clone, Copy, Debug, PartialEq, Eq, Structural)]
pub struct Id {
    pub state: u32,
}

impl Id {
    pub fn new() -> (r: Self)
        ensures
            r.state == 0,
    {
        Id { state: 0 }
    }

    /// The next identifier: the counter incremented by one, wrapping at the
    /// u32 limit.
    pub fn next(&mut self) -> (r: u32)
        ensures
            final(self).state == next_id(old(self).state),
            r == final(self).state,
    {
        if self.state == u32::MAX {
            self.state = 0;
        } else {
            self.state = self.state + 1;
        }
        self.state
    }
}

/// Issues channel identifiers and group identifiers from two independent
/// counters; channel ids are unique across all groups.
#[derive(Clone, Copy, Debug, PartialEq, Eq, Structural)]
pub struct GroupId {
    pub group_ids: Id,
    pub channel_ids: Id,
}

impl GroupId {
    pub fn new() -> (r: Self)
        ensures
            r.group_ids.state == 0,
            r.channel_ids.state == 0,
    {
        GroupId { group_ids: Id::new(), channel_ids: Id::new() }
    }

    /// A fresh group identifier.
    pub fn new_group_id(&mut self) -> (r: u32)
        ensures
            final(self).group_ids.state == next_id(old(self).group_ids.state),
            r == final(self).group_ids.state,
            final(self).channel_ids == old(self).channel_ids,
    {
        self.group_ids.next()
    }

    /// A fresh channel identifier; channel ids come from one space shared by
    /// every group, so the group argument does not shape the result.
    pub fn new_channel_id(&mut self, _group_id: u32) -> (r: u32)
        ensures
            final(self).channel_ids.state == next_id(old(self).channel_ids.state),
            r == final(self).channel_ids.state,
            final(self).group_ids == old(self).group_ids,
    {
        self.channel_ids.next()
    }
}

} // verus!
