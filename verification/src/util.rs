//! Static process configuration and the per-connection state shared with the
//! transport.

use vstd::prelude::*;

verus! {

/// What every handler needs to know about the running connection.
#[derive(Clone)]
pub struct GlobalState {
    pub bot_name: String,
    pub channel_name: String,
}

/// The startup configuration record, loaded once by the surrounding process.
#[derive(Clone)]
pub struct Config {
    pub oauth_token: String,
    pub bot_name: String,
    pub channel_name: String,
    pub draw_window: bool,
}

} // verus!
