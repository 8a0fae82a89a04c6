//! What the application keeps between requests.

use vstd::prelude::*;

verus! {

/// State shared by every request. There is none yet: each request carries all it needs.
#[derive(Clone, Copy, Debug, PartialEq, Eq, Structural)]
pub struct AppState {}

impl Default for AppState {
    fn default() -> (state: AppState)
        ensures
            state == (AppState {  }),
    {
        AppState {  }
    }
}

/// The channel the user picked last, as it is kept in the settings store.
pub struct ChannelData {
    pub channel_id: String,
    pub channel_name: String,
    pub guild_name: String,
}

} // verus!
