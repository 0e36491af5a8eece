use vstd::prelude::*;
use crate::playing::{PlayingIds, without_id};
use crate::text::{decimal, decimal_text};

verus! {

/// The callback flag the middleware raises when an event has finished playing.
pub const END_OF_EVENT: u32 = 1;

/// The playing ID that stands for "no event was posted".
pub const INVALID_PLAYING_ID: u32 = 0;

/// An event of the middleware, by name or by numeric ID.
#[derive(Debug, PartialEq, Eq)]
pub enum EventId {
    Name(String),
    Id(u32),
}

/// How to post an event on a registered game object.
#[derive(Clone, Copy, Debug, PartialEq, Eq, Structural)]
pub struct PostPlan {
    /// The game object to post on.
    pub object_id: u64,
    /// The callback flags handed to the middleware.
    pub flags: u32,
    /// Whether the middleware's callbacks are sent on to the callback channel.
    pub forward_callbacks: bool,
    /// Whether callbacks were asked for but no channel was given to carry them.
    pub callbacks_dropped: bool,
}

/// Whether a callback mask asks for any callback.
pub open spec fn wants_callbacks(flags: u32) -> bool {
    flags > 0
}

/// The plan for posting with `flags` on `object_id`, with or without a channel.
///
/// The end-of-event callback is always asked for, since it is what takes a
/// finished event off the emitter. The caller's flags go along only when a
/// channel can carry their callbacks.
pub open spec fn post_plan(object_id: u64, flags: u32, has_channel: bool) -> PostPlan {
    PostPlan {
        object_id,
        flags: if has_channel { flags | END_OF_EVENT } else { END_OF_EVENT },
        forward_callbacks: wants_callbacks(flags) && has_channel,
        callbacks_dropped: wants_callbacks(flags) && !has_channel,
    }
}

/// Sound emitter configuration.
///
/// Tracks the playing IDs of the events posted on it, and the game object it
/// was registered under once the middleware knows it.
pub struct RrEmitter {
    /// The event to pre-set on this emitter; by default no event (the empty name).
    pub event_id: EventId,
    /// Mask of the callbacks to subscribe to; by default none.
    pub flags: u32,
    /// Whether to post the associated event when this emitter gets registered.
    pub auto_post: bool,
    /// Whether to despawn this emitter once no event plays on it any more.
    pub despawn_on_silent: bool,
    /// The playing IDs of the events that play on this emitter.
    pub playing_ids: PlayingIds,
    /// The game object this emitter was registered under, if any.
    pub entity: Option<u64>,
}

impl RrEmitter {
    /// The playing IDs of the events that play on this emitter.
    pub open spec fn playing(&self) -> Seq<u32> {
        self.playing_ids@
    }

    /// The game object this emitter was registered under, if any.
    pub open spec fn object(&self) -> Option<u64> {
        self.entity
    }

    /// Sets the event to associate with this emitter and registers it for
    /// auto play; with `despawn_on_silent`, the emitter is despawned once it
    /// has finished playing all its events.
    pub fn with_event(self, event: EventId, despawn_on_silent: bool) -> (r: Self)
        ensures
            r.event_id == event,
            r.auto_post,
            r.despawn_on_silent == despawn_on_silent,
            r.flags == self.flags,
            r.playing() == self.playing(),
            r.object() == self.object(),
    {
        let mut s = self;
        s.event_id = event;
        s.auto_post = true;
        s.despawn_on_silent = despawn_on_silent;
        s
    }

    /// Sets the callback flags to associate with this emitter.
    pub fn with_flags(self, flags: u32) -> (r: Self)
        ensures
            r.flags == flags,
            r.event_id == self.event_id,
            r.auto_post == self.auto_post,
            r.despawn_on_silent == self.despawn_on_silent,
            r.playing() == self.playing(),
            r.object() == self.object(),
    {
        let mut s = self;
        s.flags = flags;
        s
    }

    /// Whether any event is playing on this emitter.
    pub fn is_playing(&self) -> (r: bool)
        ensures
            r == (self.playing().len() > 0),
    {
        self.playing_ids.is_playing()
    }

    /// Whether this emitter appears to be registered in the middleware.
    pub fn is_registered(&self) -> (r: bool)
        ensures
            r == (self.object() is Some),
    {
        self.entity.is_some()
    }

    /// The game object this emitter was registered under, if any.
    pub fn game_object(&self) -> (r: Option<u64>)
        ensures
            r == self.object(),
    {
        self.entity
    }

    /// The game object on which to stop every playing event; none while the
    /// emitter is not registered.
    pub fn stop_target(&self) -> (r: Option<u64>)
        ensures
            r == self.object(),
    {
        self.entity
    }

    /// The playing IDs of the events that play on this emitter.
    pub fn playing_ids(&self) -> (r: &PlayingIds)
        ensures
            r@ == self.playing(),
    {
        &self.playing_ids
    }

    /// Binds this emitter to the game object it is being registered under.
    pub fn register_as(&mut self, object_id: u64)
        ensures
            final(self).object() == Some(object_id),
            final(self).playing() == old(self).playing(),
            final(self).event_id == old(self).event_id,
            final(self).flags == old(self).flags,
            final(self).auto_post == old(self).auto_post,
            final(self).despawn_on_silent == old(self).despawn_on_silent,
    {
        self.entity = Some(object_id);
    }

    /// How to post an event with `flags` (this emitter's own flags are not
    /// read); none while the emitter is not registered.
    pub fn plan_post(&self, flags: u32, has_channel: bool) -> (r: Option<PostPlan>)
        ensures
            r == match self.object() {
                Some(id) => Some(post_plan(id, flags, has_channel)),
                None => None,
            },
    {
        match self.entity {
            Some(object_id) => {
                let has_flags = flags > 0;
                let plan = if !has_flags {
                    assert(flags == 0);
                    assert(0u32 | 1u32 == 1u32) by (bit_vector);
                    PostPlan {
                        object_id,
                        flags: flags | END_OF_EVENT,
                        forward_callbacks: false,
                        callbacks_dropped: false,
                    }
                } else if !has_channel {
                    PostPlan {
                        object_id,
                        flags: END_OF_EVENT,
                        forward_callbacks: false,
                        callbacks_dropped: true,
                    }
                } else {
                    PostPlan {
                        object_id,
                        flags: flags | END_OF_EVENT,
                        forward_callbacks: true,
                        callbacks_dropped: false,
                    }
                };
                Some(plan)
            },
            None => None,
        }
    }

    /// How to post this emitter's associated event with its own flags.
    pub fn plan_associated_post(&self, has_channel: bool) -> (r: Option<PostPlan>)
        ensures
            r == match self.object() {
                Some(id) => Some(post_plan(id, self.flags, has_channel)),
                None => None,
            },
    {
        self.plan_post(self.flags, has_channel)
    }

    /// Takes in what posting gave: the playing ID of the event on success,
    /// which now plays on this emitter. Returns that ID, or
    /// `INVALID_PLAYING_ID` when the post failed.
    pub fn settle_post(&mut self, posted: Option<u32>) -> (r: u32)
        ensures
            r == match posted {
                Some(id) => id,
                None => INVALID_PLAYING_ID,
            },
            final(self).playing() == match posted {
                Some(id) => old(self).playing().push(id),
                None => old(self).playing(),
            },
            final(self).object() == old(self).object(),
            final(self).event_id == old(self).event_id,
            final(self).flags == old(self).flags,
            final(self).auto_post == old(self).auto_post,
            final(self).despawn_on_silent == old(self).despawn_on_silent,
    {
        match posted {
            Some(id) => {
                self.playing_ids.record(id);
                id
            },
            None => INVALID_PLAYING_ID,
        }
    }

    /// Takes in a callback of the middleware for an event posted on this
    /// emitter: the end of an event takes its playing ID off the emitter;
    /// any other callback changes nothing.
    pub fn on_callback(&mut self, playing_id: u32, callback_type: u32)
        ensures
            final(self).playing() == if callback_type == END_OF_EVENT {
                without_id(old(self).playing(), playing_id)
            } else {
                old(self).playing()
            },
            final(self).object() == old(self).object(),
            final(self).event_id == old(self).event_id,
            final(self).flags == old(self).flags,
            final(self).auto_post == old(self).auto_post,
            final(self).despawn_on_silent == old(self).despawn_on_silent,
    {
        if callback_type == END_OF_EVENT {
            self.playing_ids.end_of_event(playing_id);
        }
    }

    /// Whether this emitter is to be despawned: it asked for it, and no event
    /// plays on it any more.
    pub fn should_despawn(&self) -> (r: bool)
        ensures
            r == (self.despawn_on_silent && self.playing().len() == 0),
    {
        self.despawn_on_silent && !self.playing_ids.is_playing()
    }
}

impl Default for RrEmitter {
    /// A pure emitter (no transform) that can later be used to post events on:
    /// no event nor auto post, no callback flags, no despawn on silent.
    fn default() -> (r: Self)
        ensures
            r.event_id matches EventId::Name(n) && n@.len() == 0,
            r.flags == 0,
            !r.auto_post,
            !r.despawn_on_silent,
            r.playing().len() == 0,
            r.object() is None,
    {
        RrEmitter {
            event_id: EventId::Name(String::new()),
            flags: 0,
            auto_post: false,
            despawn_on_silent: false,
            playing_ids: PlayingIds::new(),
            entity: None,
        }
    }
}

/// Sound listener.
pub struct RrListener {
    is_default: bool,
    entity: Option<u64>,
}

impl RrListener {
    /// Whether this listener belongs to the default listener set.
    pub closed spec fn default_listener(&self) -> bool {
        self.is_default
    }

    /// The game object this listener was registered under, if any.
    pub closed spec fn object(&self) -> Option<u64> {
        self.entity
    }

    /// A listener that is not registered yet.
    pub fn new(is_default: bool) -> (r: Self)
        ensures
            r.default_listener() == is_default,
            r.object() is None,
    {
        RrListener { is_default, entity: None }
    }

    /// Whether this listener belongs to the default listener set.
    pub fn is_default(&self) -> (r: bool)
        ensures
            r == self.default_listener(),
    {
        self.is_default
    }

    /// Sets whether this listener belongs to the default listener set.
    pub fn with_is_default(self, is_default: bool) -> (r: Self)
        ensures
            r.default_listener() == is_default,
            r.object() == self.object(),
    {
        RrListener { is_default, entity: self.entity }
    }

    /// The game object this listener was registered under, if any.
    pub fn game_object(&self) -> (r: Option<u64>)
        ensures
            r == self.object(),
    {
        self.entity
    }

    /// Binds this listener to the game object it is being registered under.
    pub fn register_as(&mut self, object_id: u64)
        ensures
            final(self).object() == Some(object_id),
            final(self).default_listener() == old(self).default_listener(),
    {
        self.entity = Some(object_id);
    }
}

impl Default for RrListener {
    /// A default listener, not registered yet.
    fn default() -> (r: Self)
        ensures
            r.default_listener(),
            r.object() is None,
    {
        RrListener { is_default: true, entity: None }
    }
}

/// The name a game object is registered under: its own name if it has one,
/// else `prefix` followed by its index in decimal.
pub open spec fn object_name_text(name: Option<Seq<char>>, prefix: Seq<char>, index: u32) -> Seq<char> {
    match name {
        Some(n) => n,
        None => prefix + decimal_text(index as nat),
    }
}

fn object_name(name: Option<String>, prefix: &str, index: u32) -> (r: String)
    ensures
        r@ == object_name_text(
            match name {
                Some(n) => Some(n@),
                None => None,
            },
            prefix@,
            index,
        ),
{
    match name {
        Some(n) => n,
        None => {
            let mut r = prefix.to_owned();
            let digits = decimal(index);
            r.append(digits.as_str());
            r
        },
    }
}

/// The name a listener's game object is registered under.
pub fn listener_object_name(name: Option<String>, index: u32) -> (r: String)
    ensures
        r@ == object_name_text(
            match name {
                Some(n) => Some(n@),
                None => None,
            },
            "RrListener_"@,
            index,
        ),
{
    object_name(name, "RrListener_", index)
}

/// The name an emitter's game object is registered under.
pub fn emitter_object_name(name: Option<String>, index: u32) -> (r: String)
    ensures
        r@ == object_name_text(
            match name {
                Some(n) => Some(n@),
                None => None,
            },
            "RrEmitter_"@,
            index,
        ),
{
    object_name(name, "RrEmitter_", index)
}

} // verus!
