//! What an application tells the engine about itself.

use vstd::prelude::*;

verus! {

/// Name and version of the application, handed to the driver once when the
/// instance is created.
#[derive(Debug)]
pub struct GameInfo {
    pub app_name: String,
    pub major: u32,
    pub minor: u32,
    pub patch: u32,
}

impl Default for GameInfo {
    /// An unnamed application of version 0.0.0.
    fn default() -> (info: Self)
        ensures
            info.app_name@.len() == 0,
            info.major == 0,
            info.minor == 0,
            info.patch == 0,
    {
        GameInfo { app_name: String::new(), major: 0, minor: 0, patch: 0 }
    }
}

} // verus!
