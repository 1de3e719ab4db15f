//! The health flag of every channel, as the latest frame reported it.

use vstd::prelude::*;
use crate::copy::copy_of;
use crate::wifi::packet::{channel_healthy, healthy_bit};

verus! {

/// One health flag per channel, `true` for healthy. Only the latest report
/// is kept.
pub struct ChannelStatus {
    flags: Vec<bool>,
}

impl View for ChannelStatus {
    type V = Seq<bool>;

    closed spec fn view(&self) -> Seq<bool> {
        self.flags@
    }
}

impl ChannelStatus {
    /// Flags for `channels` channels, all healthy.
    pub fn new(channels: usize) -> (status: Self)
        ensures
            status@ == Seq::new(channels as nat, |i: int| true),
    {
        let mut flags: Vec<bool> = Vec::new();
        let mut i: usize = 0;
        while i < channels
            invariant
                i <= channels,
                flags@ == Seq::new(i as nat, |k: int| true),
            decreases channels - i,
        {
            flags.push(true);
            i += 1;
            assert(flags@ =~= Seq::new(i as nat, |k: int| true));
        }
        ChannelStatus { flags }
    }

    /// Number of channels.
    pub fn channels(&self) -> (n: usize)
        ensures
            n == self@.len(),
    {
        self.flags.len()
    }

    /// Overwrites every flag from the bitmask of a frame: bit `12 + i` set
    /// makes channel `i` unhealthy, clear makes it healthy.
    pub fn update(&mut self, mask: u32)
        ensures
            final(self)@.len() == old(self)@.len(),
            forall|i: int|
                0 <= i < old(self)@.len() ==> #[trigger] final(self)@[i] == channel_healthy(
                    mask,
                    i,
                ),
    {
        let n: usize = self.flags.len();
        let mut i: usize = 0;
        while i < n
            invariant
                i <= n,
                self.flags@.len() == n,
                forall|j: int| 0 <= j < i ==> #[trigger] self.flags@[j] == channel_healthy(mask, j),
            decreases n - i,
        {
            self.flags[i] = healthy_bit(mask, i);
            i += 1;
        }
    }

    /// The flag of channel `i`; `None` where there is no such channel.
    pub fn get(&self, i: usize) -> (flag: Option<bool>)
        ensures
            flag == if i < self@.len() {
                Some(self@[i as int])
            } else {
                None
            },
    {
        if i < self.flags.len() {
            Some(self.flags[i])
        } else {
            None
        }
    }

    /// A copy of all flags.
    pub fn snapshot(&self) -> (flags: Vec<bool>)
        ensures
            flags@ == self@,
    {
        copy_of(&self.flags)
    }
}

} // verus!
