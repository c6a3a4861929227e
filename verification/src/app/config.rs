//! Static configuration of the application.
use vstd::prelude::*;

use crate::event::key::Key;

verus! {

/// The quit key and the redraw tick rate.
#[derive(Debug, Copy, Clone)]
pub struct AppConfig {
    pub quit_key: Key,
    pub tick_rate_millis: u64,
}

impl Default for AppConfig {
    /// Quit on `q`; redraw every hundred milliseconds.
    fn default() -> (r: AppConfig)
        ensures
            r.quit_key == Key::Char('q'),
            r.tick_rate_millis == 100,
    {
        AppConfig { quit_key: Key::Char('q'), tick_rate_millis: 100 }
    }
}

} // verus!
