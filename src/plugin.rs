use vstd::prelude::*;

verus! {

/// Plugin basic settings.
pub struct RriseBasicSettings {
    /// One of the languages the sound project supports; by default `English(US)`.
    pub init_language: String,
    /// Where the generated soundbanks are, relative to the asset folder unless
    /// absolute, without the platform folder; by default `soundbanks`.
    pub banks_location: String,
    /// Whether to spawn a default listener once the engine is ready; by
    /// default yes.
    pub spawn_default_listener: bool,
}

impl Default for RriseBasicSettings {
    fn default() -> (r: Self)
        ensures
            r.init_language@ == "English(US)"@,
            r.banks_location@ == "soundbanks"@,
            r.spawn_default_listener,
    {
        RriseBasicSettings {
            init_language: "English(US)".to_owned(),
            banks_location: "soundbanks".to_owned(),
            spawn_default_listener: true,
        }
    }
}

/// What the sound engine does at the end of a frame.
#[derive(Clone, Copy, Debug, PartialEq, Eq, Structural)]
pub enum FrameAction {
    /// Nothing: the engine is not running.
    Idle,
    /// Terminate the engine: the application is exiting.
    Terminate,
    /// Render the frame's audio.
    Render,
}

/// The end-of-frame action for an engine that is or is not initialised, in
/// an application that is or is not exiting.
pub open spec fn frame_action_of(initialized: bool, exiting: bool) -> FrameAction {
    if !initialized {
        FrameAction::Idle
    } else if exiting {
        FrameAction::Terminate
    } else {
        FrameAction::Render
    }
}

/// Decides the end-of-frame action.
pub fn frame_action(initialized: bool, exiting: bool) -> (r: FrameAction)
    ensures
        r == frame_action_of(initialized, exiting),
{
    if !initialized {
        FrameAction::Idle
    } else if exiting {
        FrameAction::Terminate
    } else {
        FrameAction::Render
    }
}

} // verus!
