use vstd::prelude::*;
use crate::config::InitError;

verus! {

/// Where a plugin instance stands in its life.
#[derive(Debug, Clone, Copy, PartialEq, Eq, Structural)]
pub enum LifecycleState {
    Unloaded,
    SharedCreated,
    MainThreadCreated,
    Activated,
    Deactivated,
}

/// The audio configuration a host activates the plugin with, as far as the
/// plugin reads it: the bounds on the frame count of one block.
#[derive(Debug, Clone, Copy, PartialEq, Eq, Structural)]
pub struct AudioConfig {
    pub min_frames: u32,
    pub max_frames: u32,
}

/// Why an activation was refused; the plugin stays loaded.
#[derive(Debug, Clone, Copy, PartialEq, Eq, Structural)]
pub enum ActivationError {
    /// A frame bound is zero, or the lower bound exceeds the upper.
    BadFrameBounds,
}

/// What the host does to the plugin.
#[derive(Debug, Clone, Copy)]
pub enum LifecycleEvent {
    /// Creation with the host's handle; `host_usable` is false for a handle
    /// without a function table.
    CreateShared { host_usable: bool },
    /// Creation of the main-thread part, with the outcome of reading the
    /// static configuration.
    CreateMainThread { config: Result<(), InitError> },
    Activate { audio: AudioConfig },
    Deactivate,
    Unload,
}

/// Why a lifecycle event was refused.
#[derive(Debug, Clone, Copy, PartialEq, Eq, Structural)]
pub enum LifecycleError {
    Init(InitError),
    Activation(ActivationError),
    /// The event does not fit the current state.
    OutOfOrder,
}

/// An audio configuration that the plugin supports.
pub open spec fn supported_config(c: AudioConfig) -> bool {
    c.min_frames > 0 && c.max_frames > 0 && c.min_frames <= c.max_frames
}

/// The state after `e` in state `s`, or why `e` is refused there.
pub open spec fn transition(s: LifecycleState, e: LifecycleEvent) -> Result<
    LifecycleState,
    LifecycleError,
> {
    match (s, e) {
        (LifecycleState::Unloaded, LifecycleEvent::CreateShared { host_usable }) => {
            if host_usable {
                Ok(LifecycleState::SharedCreated)
            } else {
                Err(LifecycleError::Init(InitError::HostUnusable))
            }
        },
        (LifecycleState::SharedCreated, LifecycleEvent::CreateMainThread { config }) => {
            match config {
                Ok(()) => Ok(LifecycleState::MainThreadCreated),
                Err(err) => Err(LifecycleError::Init(err)),
            }
        },
        (LifecycleState::MainThreadCreated, LifecycleEvent::Activate { audio })
        | (LifecycleState::Deactivated, LifecycleEvent::Activate { audio }) => {
            if supported_config(audio) {
                Ok(LifecycleState::Activated)
            } else {
                Err(LifecycleError::Activation(ActivationError::BadFrameBounds))
            }
        },
        (LifecycleState::Activated, LifecycleEvent::Deactivate) => Ok(LifecycleState::Deactivated),
        (LifecycleState::SharedCreated, LifecycleEvent::Unload)
        | (LifecycleState::MainThreadCreated, LifecycleEvent::Unload)
        | (LifecycleState::Deactivated, LifecycleEvent::Unload) => Ok(LifecycleState::Unloaded),
        _ => Err(LifecycleError::OutOfOrder),
    }
}

/// Checks an audio configuration before activation.
pub fn check_audio_config(c: AudioConfig) -> (r: Result<(), ActivationError>)
    ensures
        r is Ok <==> supported_config(c),
{
    if c.min_frames == 0 || c.max_frames == 0 || c.min_frames > c.max_frames {
        Err(ActivationError::BadFrameBounds)
    } else {
        Ok(())
    }
}

/// The state after `e` in state `s`, or why `e` is refused there. A refused
/// event leaves the caller in `s`: an activation refused for its
/// configuration may be tried again with another.
pub fn next_state(s: LifecycleState, e: LifecycleEvent) -> (r: Result<
    LifecycleState,
    LifecycleError,
>)
    ensures
        r == transition(s, e),
{
    match (s, e) {
        (LifecycleState::Unloaded, LifecycleEvent::CreateShared { host_usable }) => {
            if host_usable {
                Ok(LifecycleState::SharedCreated)
            } else {
                Err(LifecycleError::Init(InitError::HostUnusable))
            }
        },
        (LifecycleState::SharedCreated, LifecycleEvent::CreateMainThread { config }) => {
            match config {
                Ok(()) => Ok(LifecycleState::MainThreadCreated),
                Err(err) => Err(LifecycleError::Init(err)),
            }
        },
        (LifecycleState::MainThreadCreated, LifecycleEvent::Activate { audio })
        | (LifecycleState::Deactivated, LifecycleEvent::Activate { audio }) => {
            match check_audio_config(audio) {
                Ok(()) => Ok(LifecycleState::Activated),
                Err(err) => Err(LifecycleError::Activation(err)),
            }
        },
        (LifecycleState::Activated, LifecycleEvent::Deactivate) => Ok(LifecycleState::Deactivated),
        (LifecycleState::SharedCreated, LifecycleEvent::Unload)
        | (LifecycleState::MainThreadCreated, LifecycleEvent::Unload)
        | (LifecycleState::Deactivated, LifecycleEvent::Unload) => Ok(LifecycleState::Unloaded),
        _ => Err(LifecycleError::OutOfOrder),
    }
}

/// Audio is processed only while activated: no event leads from a state other
/// than an inactive one with a main-thread part into the activated state, and
/// the only way out of it is deactivation.
pub proof fn lemma_activation_boundary(s: LifecycleState, e: LifecycleEvent)
    ensures
        transition(s, e) == Ok::<LifecycleState, LifecycleError>(LifecycleState::Activated) ==> (s
            == LifecycleState::MainThreadCreated || s == LifecycleState::Deactivated),
        s == LifecycleState::Activated && transition(s, e) is Ok ==> e is Deactivate
            && transition(s, e) == Ok::<LifecycleState, LifecycleError>(
            LifecycleState::Deactivated,
        ),
{
}

} // verus!
