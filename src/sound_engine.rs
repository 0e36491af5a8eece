use vstd::prelude::*;
use crate::script::{Script, temporary_post_steps};

verus! {

/// Entry point of the sound engine's helpers.
pub struct SoundEngine {}

/// The callback side of a fire-and-forget post at a location: the callback
/// mask asked for, and whether the last mask given asked for any callback.
#[derive(Clone, Copy, Debug, PartialEq, Eq, Structural)]
pub struct CallbackRequest {
    /// The callback mask handed to the middleware.
    pub flags: u32,
    /// Whether the mask given last asked for any callback.
    pub has_flags: bool,
}

impl CallbackRequest {
    /// No callback asked for.
    pub fn new() -> (r: Self)
        ensures
            r.flags == 0,
            !r.has_flags,
    {
        CallbackRequest { flags: 0, has_flags: false }
    }

    /// Adds `flags` to the mask. Whether callbacks are wanted goes by the
    /// flags added now.
    pub fn add_flags(&mut self, flags: u32)
        ensures
            final(self).flags == old(self).flags | flags,
            final(self).has_flags == (flags > 0),
    {
        self.has_flags = flags > 0;
        self.flags = self.flags | flags;
    }

    /// Sets the mask to `flags`.
    pub fn set_flags(&mut self, flags: u32)
        ensures
            final(self).flags == flags,
            final(self).has_flags == (flags > 0),
    {
        self.has_flags = flags > 0;
        self.flags = flags;
    }

    /// Whether the callbacks go to a channel: they are wanted, and a channel
    /// was given.
    pub fn with_callback(&self, has_channel: bool) -> (r: bool)
        ensures
            r == (self.has_flags && has_channel),
    {
        self.has_flags && has_channel
    }

    /// Whether callbacks are wanted but no channel was given to carry them.
    pub fn drops_callbacks(&self, has_channel: bool) -> (r: bool)
        ensures
            r == (self.has_flags && !has_channel),
    {
        self.has_flags && !has_channel
    }

    /// The steps of the post, on a temporary game object.
    pub fn script(&self, has_channel: bool) -> (r: Script)
        ensures
            r.starts(temporary_post_steps(self.has_flags && has_channel)),
    {
        Script::for_temporary_post(self.with_callback(has_channel))
    }
}

} // verus!
