//! The LED channel variant: addressing only, no conversion.

use vstd::prelude::*;

use crate::channel::base::Channel;
use crate::errors::ChannelRangeError;

verus! {

/// A channel whose tick values are used directly as raw on/off timing values,
/// for binary or dimmed LED control. It carries no settings and performs no
/// conversion.
#[derive(Clone, Copy, Debug)]
pub struct LedChannel {
    channel_num: u8,
}

impl LedChannel {
    /// Creates an `LedChannel` at the given channel index. Succeeds exactly
    /// when the index is one of the chip's sixteen channels.
    pub fn new(channel_num: u8) -> (r: Result<LedChannel, ChannelRangeError>)
        ensures
            channel_num <= 15 ==> (r matches Ok(c) && c.index() == channel_num),
            channel_num > 15 ==> r is Err,
    {
        if channel_num > 15 {
            return Err(ChannelRangeError);
        }
        Ok(LedChannel { channel_num })
    }
}

impl Channel for LedChannel {
    closed spec fn index(&self) -> u8 {
        self.channel_num
    }

    fn channel_num(&self) -> (r: u8)
        ensures
            r == self.index(),
    {
        self.channel_num
    }
}

} // verus!
