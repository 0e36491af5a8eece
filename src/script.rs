use vstd::prelude::*;

verus! {

/// A call the application makes on the middleware or the ECS world, in an
/// order that a [`Script`] lays down.
#[derive(Clone, Copy, Debug, PartialEq, Eq, Structural)]
pub enum Action {
    /// Registers the game object with the middleware (under its name where
    /// names are kept).
    RegisterObject,
    /// Adds the game object to the default listener set.
    AddDefaultListener,
    /// Copies the game object's transform into the middleware.
    SetPosition,
    /// Posts the emitter's associated event.
    PostAssociatedEvent,
    /// Marks the entity as registered.
    MarkRegistered,
    /// Posts the event, handing the callbacks to a channel or not.
    PostEvent { with_callback: bool },
    /// Unregisters the game object.
    UnregisterObject,
    /// Initialises the memory manager.
    InitMemory,
    /// Initialises the streaming manager on the banks folder.
    InitStreaming,
    /// Sets the current language.
    SetLanguage,
    /// Initialises the sound engine.
    InitSound,
    /// Initialises the music engine.
    InitMusic,
    /// Initialises the profiling communication.
    InitComms,
    /// Checks that the sound engine reports itself initialised.
    CheckInitialized,
    /// Loads the initialisation soundbank.
    LoadInitBank,
    /// Spawns the default listener.
    SpawnDefaultListener,
    /// Stops every event on every game object.
    StopAll,
    /// Unregisters every game object.
    UnregisterAll,
    /// Terminates the profiling communication.
    TermComms,
    /// Terminates the music engine.
    TermMusic,
    /// Terminates the sound engine.
    TermSound,
    /// Terminates the streaming manager.
    TermStreaming,
    /// Terminates the memory manager.
    TermMemory,
}

/// One step of a script: an action, and whether its failure ends the script.
#[derive(Clone, Copy, Debug, PartialEq, Eq, Structural)]
pub struct Step {
    pub action: Action,
    pub required: bool,
}

/// A step whose failure ends the script.
pub open spec fn required(action: Action) -> Step {
    Step { action, required: true }
}

/// A step whose failure is reported and passed over.
pub open spec fn optional(action: Action) -> Step {
    Step { action, required: false }
}

/// Registering a listener: register, join the default set if it belongs to
/// it, place it, mark it; the first failure leaves the rest undone.
pub open spec fn listener_steps(is_default: bool) -> Seq<Step> {
    if is_default {
        seq![
            required(Action::RegisterObject),
            required(Action::AddDefaultListener),
            required(Action::SetPosition),
            optional(Action::MarkRegistered),
        ]
    } else {
        seq![
            required(Action::RegisterObject),
            required(Action::SetPosition),
            optional(Action::MarkRegistered),
        ]
    }
}

/// Registering an emitter: register, place it, post its event if it auto
/// posts, mark it; a failure to register or place it leaves the rest undone.
pub open spec fn emitter_steps(auto_post: bool) -> Seq<Step> {
    if auto_post {
        seq![
            required(Action::RegisterObject),
            required(Action::SetPosition),
            optional(Action::PostAssociatedEvent),
            optional(Action::MarkRegistered),
        ]
    } else {
        seq![
            required(Action::RegisterObject),
            required(Action::SetPosition),
            optional(Action::MarkRegistered),
        ]
    }
}

/// Posting on a temporary game object: register and place it, post, and
/// unregister it whatever the post gave. A failure to register or place it
/// leaves the rest undone.
pub open spec fn temporary_post_steps(with_callback: bool) -> Seq<Step> {
    seq![
        required(Action::RegisterObject),
        required(Action::SetPosition),
        optional(Action::PostEvent { with_callback }),
        optional(Action::UnregisterObject),
    ]
}

/// Bringing the middleware up, each stage on the one before; the profiling
/// communication only where it is wanted.
pub open spec fn engine_init_steps(with_comms: bool) -> Seq<Step> {
    let head = seq![
        required(Action::InitMemory),
        required(Action::InitStreaming),
        required(Action::SetLanguage),
        required(Action::InitSound),
        required(Action::InitMusic),
    ];
    if with_comms {
        head + seq![required(Action::InitComms), required(Action::CheckInitialized)]
    } else {
        head.push(required(Action::CheckInitialized))
    }
}

/// Getting ready to play: load the initialisation soundbank, then spawn the
/// default listener where it is wanted.
pub open spec fn setup_steps(spawn_default_listener: bool) -> Seq<Step> {
    if spawn_default_listener {
        seq![required(Action::LoadInitBank), optional(Action::SpawnDefaultListener)]
    } else {
        seq![required(Action::LoadInitBank)]
    }
}

/// Taking the middleware down in the reverse order of its bring-up, once
/// every game object is stopped and unregistered.
pub open spec fn engine_term_steps(with_comms: bool) -> Seq<Step> {
    let tail = seq![
        optional(Action::TermMusic),
        optional(Action::TermSound),
        optional(Action::TermStreaming),
        optional(Action::TermMemory),
    ];
    let head = seq![optional(Action::StopAll), required(Action::UnregisterAll)];
    if with_comms {
        head.push(optional(Action::TermComms)) + tail
    } else {
        head + tail
    }
}

/// The action that ends the stage an action of the bring-up starts, if any.
pub open spec fn teardown_of(a: Action) -> Seq<Action> {
    match a {
        Action::InitMemory => seq![Action::TermMemory],
        Action::InitStreaming => seq![Action::TermStreaming],
        Action::InitSound => seq![Action::TermSound],
        Action::InitMusic => seq![Action::TermMusic],
        Action::InitComms => seq![Action::TermComms],
        _ => Seq::empty(),
    }
}

/// The actions that end the stages `actions` start, last started first ended.
pub open spec fn teardowns(actions: Seq<Action>) -> Seq<Action>
    decreases actions.len(),
{
    if actions.len() == 0 {
        Seq::empty()
    } else {
        teardowns(actions.drop_first()) + teardown_of(actions[0])
    }
}

/// The actions of a sequence of steps.
pub open spec fn actions_of(steps: Seq<Step>) -> Seq<Action> {
    steps.map_values(|s: Step| s.action)
}

/// Once every game object is stopped and unregistered, the teardown ends
/// each stage that the bring-up starts, in the reverse order.
pub proof fn lemma_teardown_reverses_init(with_comms: bool)
    ensures
        engine_term_steps(with_comms).len() >= 2,
        actions_of(engine_term_steps(with_comms)).subrange(0, 2) == seq![
            Action::StopAll,
            Action::UnregisterAll,
        ],
        actions_of(engine_term_steps(with_comms)).subrange(
            2,
            engine_term_steps(with_comms).len() as int,
        ) == teardowns(actions_of(engine_init_steps(with_comms))),
{
    let init = actions_of(engine_init_steps(with_comms));
    let term = actions_of(engine_term_steps(with_comms));
    reveal_with_fuel(teardowns, 8);
    if with_comms {
        assert(init =~= seq![
            Action::InitMemory,
            Action::InitStreaming,
            Action::SetLanguage,
            Action::InitSound,
            Action::InitMusic,
            Action::InitComms,
            Action::CheckInitialized,
        ]);
        assert(term.subrange(2, term.len() as int) =~= teardowns(init));
    } else {
        assert(init =~= seq![
            Action::InitMemory,
            Action::InitStreaming,
            Action::SetLanguage,
            Action::InitSound,
            Action::InitMusic,
            Action::CheckInitialized,
        ]);
        assert(term.subrange(2, term.len() as int) =~= teardowns(init));
    }
    assert(term.subrange(0, 2) =~= seq![Action::StopAll, Action::UnregisterAll]);
}

/// A sequence of steps that the application performs one at a time,
/// reporting each outcome; the failure of a required step ends it.
pub struct Script {
    steps: Vec<Step>,
    next: usize,
    aborted: bool,
}

impl Script {
    /// The steps of the script.
    pub closed spec fn steps(&self) -> Seq<Step> {
        self.steps@
    }

    /// How many steps have been reported.
    pub closed spec fn done(&self) -> nat {
        self.next as nat
    }

    /// Whether a required step failed.
    pub closed spec fn aborted(&self) -> bool {
        self.aborted
    }

    #[verifier::type_invariant]
    spec fn within_steps(&self) -> bool {
        self.next <= self.steps.len()
    }

    /// A fresh script that runs `steps`.
    pub open spec fn starts(&self, steps: Seq<Step>) -> bool {
        &&& self.steps() == steps
        &&& self.done() == 0
        &&& !self.aborted()
    }

    fn start(steps: Vec<Step>) -> (r: Self)
        ensures
            r.starts(steps@),
    {
        Script { steps, next: 0, aborted: false }
    }

    /// Registering a listener.
    pub fn for_listener(is_default: bool) -> (r: Self)
        ensures
            r.starts(listener_steps(is_default)),
    {
        let mut v: Vec<Step> = Vec::new();
        v.push(Step { action: Action::RegisterObject, required: true });
        if is_default {
            v.push(Step { action: Action::AddDefaultListener, required: true });
        }
        v.push(Step { action: Action::SetPosition, required: true });
        v.push(Step { action: Action::MarkRegistered, required: false });
        assert(v@ =~= listener_steps(is_default));
        Script::start(v)
    }

    /// Registering an emitter.
    pub fn for_emitter(auto_post: bool) -> (r: Self)
        ensures
            r.starts(emitter_steps(auto_post)),
    {
        let mut v: Vec<Step> = Vec::new();
        v.push(Step { action: Action::RegisterObject, required: true });
        v.push(Step { action: Action::SetPosition, required: true });
        if auto_post {
            v.push(Step { action: Action::PostAssociatedEvent, required: false });
        }
        v.push(Step { action: Action::MarkRegistered, required: false });
        assert(v@ =~= emitter_steps(auto_post));
        Script::start(v)
    }

    /// Posting on a temporary game object.
    pub fn for_temporary_post(with_callback: bool) -> (r: Self)
        ensures
            r.starts(temporary_post_steps(with_callback)),
    {
        let mut v: Vec<Step> = Vec::new();
        v.push(Step { action: Action::RegisterObject, required: true });
        v.push(Step { action: Action::SetPosition, required: true });
        v.push(Step { action: Action::PostEvent { with_callback }, required: false });
        v.push(Step { action: Action::UnregisterObject, required: false });
        assert(v@ =~= temporary_post_steps(with_callback));
        Script::start(v)
    }

    /// Bringing the middleware up.
    pub fn for_engine_init(with_comms: bool) -> (r: Self)
        ensures
            r.starts(engine_init_steps(with_comms)),
    {
        let mut v: Vec<Step> = Vec::new();
        v.push(Step { action: Action::InitMemory, required: true });
        v.push(Step { action: Action::InitStreaming, required: true });
        v.push(Step { action: Action::SetLanguage, required: true });
        v.push(Step { action: Action::InitSound, required: true });
        v.push(Step { action: Action::InitMusic, required: true });
        if with_comms {
            v.push(Step { action: Action::InitComms, required: true });
        }
        v.push(Step { action: Action::CheckInitialized, required: true });
        assert(v@ =~= engine_init_steps(with_comms));
        Script::start(v)
    }

    /// Getting ready to play.
    pub fn for_setup(spawn_default_listener: bool) -> (r: Self)
        ensures
            r.starts(setup_steps(spawn_default_listener)),
    {
        let mut v: Vec<Step> = Vec::new();
        v.push(Step { action: Action::LoadInitBank, required: true });
        if spawn_default_listener {
            v.push(Step { action: Action::SpawnDefaultListener, required: false });
        }
        assert(v@ =~= setup_steps(spawn_default_listener));
        Script::start(v)
    }

    /// Taking the middleware down.
    pub fn for_engine_term(with_comms: bool) -> (r: Self)
        ensures
            r.starts(engine_term_steps(with_comms)),
    {
        let mut v: Vec<Step> = Vec::new();
        v.push(Step { action: Action::StopAll, required: false });
        v.push(Step { action: Action::UnregisterAll, required: true });
        if with_comms {
            v.push(Step { action: Action::TermComms, required: false });
        }
        v.push(Step { action: Action::TermMusic, required: false });
        v.push(Step { action: Action::TermSound, required: false });
        v.push(Step { action: Action::TermStreaming, required: false });
        v.push(Step { action: Action::TermMemory, required: false });
        assert(v@ =~= engine_term_steps(with_comms));
        Script::start(v)
    }

    /// The action to perform now: none once the script is over, whether all
    /// its steps ran or a required one failed.
    pub fn next_action(&self) -> (r: Option<Action>)
        ensures
            r == if !self.aborted() && self.done() < self.steps().len() {
                Some(self.steps()[self.done() as int].action)
            } else {
                None
            },
    {
        if !self.aborted && self.next < self.steps.len() {
            Some(self.steps[self.next].action)
        } else {
            None
        }
    }

    /// Reports the outcome of the action that [`Script::next_action`] gave.
    /// The failure of a required step ends the script; once it is over,
    /// a report changes nothing.
    pub fn report(&mut self, succeeded: bool)
        ensures
            final(self).steps() == old(self).steps(),
            !old(self).aborted() && old(self).done() < old(self).steps().len() ==> {
                &&& final(self).done() == old(self).done() + 1
                &&& final(self).aborted() == (!succeeded
                    && old(self).steps()[old(self).done() as int].required)
            },
            old(self).aborted() || old(self).done() >= old(self).steps().len() ==> {
                &&& final(self).done() == old(self).done()
                &&& final(self).aborted() == old(self).aborted()
            },
    {
        proof {
            use_type_invariant(&*self);
        }
        if !self.aborted && self.next < self.steps.len() {
            let required = self.steps[self.next].required;
            self.aborted = !succeeded && required;
            self.next = self.next + 1;
        }
    }

    /// Whether every step ran and no required one failed.
    pub fn is_complete(&self) -> (r: bool)
        ensures
            r == (!self.aborted() && self.done() == self.steps().len()),
    {
        !self.aborted && self.next == self.steps.len()
    }

    /// Whether a required step failed, which ended the script.
    pub fn has_failed(&self) -> (r: bool)
        ensures
            r == self.aborted(),
    {
        self.aborted
    }
}

} // verus!
