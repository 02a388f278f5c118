//! The handle on the local power backend.

use vstd::prelude::*;

verus! {

/// The platforms that the program is built for: the one that has backends
/// for volume and power, and every other.
#[derive(Debug, Clone, Copy, PartialEq, Eq, Structural)]
pub enum Platform {
    Windows,
    Other,
}

/// Why a local backend is not at hand.
#[derive(Debug, Clone, Copy, PartialEq, Eq, Structural)]
pub enum BackendError {
    /// No backend is written for this platform.
    Unsupported,
    /// The platform's primitive failed.
    Failed,
}

impl BackendError {
    /// What to tell the user.
    pub fn message(&self) -> (text: &'static str)
        ensures
            text@ == match *self {
                BackendError::Unsupported => "no volume controller is currently implemented for this platform. consider opening a PR?"@,
                BackendError::Failed => "the platform's backend failed"@,
            },
    {
        match self {
            BackendError::Unsupported => "no volume controller is currently implemented for this platform. consider opening a PR?",
            BackendError::Failed => "the platform's backend failed",
        }
    }
}

/// Whether the platform has backends; the error says that it has none.
pub fn supported(platform: Platform) -> (support: Result<(), BackendError>)
    ensures
        support == match platform {
            Platform::Windows => Ok::<(), BackendError>(()),
            Platform::Other => Err::<(), BackendError>(BackendError::Unsupported),
        },
{
    match platform {
        Platform::Windows => Ok(()),
        Platform::Other => Err(BackendError::Unsupported),
    }
}

/// Handle on the Windows primitive that ends display standby. It holds no
/// state: to wake the screen is to nudge the pointer by one unit and back.
#[derive(Debug, Clone, Copy, PartialEq, Eq, Structural)]
pub struct PowerControllerImpl {}

impl PowerControllerImpl {
    /// The handle for the system's display. Making it cannot fail.
    pub fn new_system_default() -> (handle: Result<PowerControllerImpl, BackendError>)
        ensures
            handle == Ok::<PowerControllerImpl, BackendError>(PowerControllerImpl {  }),
    {
        Ok(PowerControllerImpl {  })
    }

    /// How to wake the screen: the two relative pointer movements, as
    /// (dx, dy), that end display standby and leave the pointer where it was.
    pub fn wake_screen(&self) -> (moves: [(i32, i32); 2])
        ensures
            moves@ == seq![(0i32, 1i32), (0i32, -1i32)],
    {
        [(0, 1), (0, -1)]
    }
}

/// Control of the system's power state, on the platforms that have a
/// backend for it.
#[derive(Debug, Clone, Copy, PartialEq, Eq, Structural)]
pub struct PowerController(pub PowerControllerImpl);

impl PowerController {
    /// The controller for the system's display: at hand on Windows, and
    /// unsupported on every other platform.
    pub fn new_system_default(platform: Platform) -> (controller: Result<
        PowerController,
        BackendError,
    >)
        ensures
            controller == match platform {
                Platform::Windows => Ok::<PowerController, BackendError>(
                    PowerController(PowerControllerImpl {  }),
                ),
                Platform::Other => Err::<PowerController, BackendError>(BackendError::Unsupported),
            },
    {
        match supported(platform) {
            Ok(()) => match PowerControllerImpl::new_system_default() {
                Ok(handle) => Ok(PowerController(handle)),
                Err(e) => Err(e),
            },
            Err(e) => Err(e),
        }
    }

    /// How to wake the screen (in case it was in standby mode): the pointer
    /// movements that [`PowerControllerImpl::wake_screen`] gives.
    pub fn wake_screen(&self) -> (moves: [(i32, i32); 2])
        ensures
            moves@ == seq![(0i32, 1i32), (0i32, -1i32)],
    {
        self.0.wake_screen()
    }
}

} // verus!
