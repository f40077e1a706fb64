//! Events fed to the render loop, and the loop's immutable configuration.
//!
//! Two producer threads — a blocking input reader and a periodic ticker —
//! feed one consumer over a single channel. The threads and the channel live
//! outside this crate; what the consumer decides about each received event is
//! the verified part, in `render_loop`.

use vstd::prelude::*;

verus! {

/// Tick rate used when the caller configures none, in milliseconds.
pub const DEFAULT_TICK_RATE: u64 = 1000;

/// One event received by the render loop: either a key press forwarded by
/// the input-reader thread, or a periodic tick from the ticker thread.
#[derive(Debug)]
pub enum Event<I> {
    Input(I),
    Tick,
}

/// Immutable configuration of the event fan-in and the render loop: which
/// key exits, and how long the ticker sleeps between ticks, in milliseconds.
#[derive(Clone, Copy, Debug, PartialEq, Eq, Structural)]
pub struct Config {
    pub exit_key: char,
    pub tick_rate_ms: u64,
}

impl Config {
    /// A configuration with the given tick rate and the standard exit key.
    pub fn new(tick_rate: u64) -> (c: Config)
        ensures
            c == (Config { exit_key: 'q', tick_rate_ms: tick_rate }),
    {
        Config { exit_key: 'q', tick_rate_ms: tick_rate }
    }

    /// `Config::new` for a given tick rate, the default configuration for
    /// none.
    pub fn new_or_default(tick_rate: Option<u64>) -> (c: Config)
        ensures
            c.exit_key == 'q',
            c.tick_rate_ms == match tick_rate {
                Some(t) => t,
                None => DEFAULT_TICK_RATE,
            },
    {
        if let Some(t) = tick_rate {
            Config::new(t)
        } else {
            Config::default()
        }
    }
}

impl Default for Config {
    /// The standard configuration: exit on `q`, one tick per second.
    fn default() -> (c: Config)
        ensures
            c == (Config { exit_key: 'q', tick_rate_ms: DEFAULT_TICK_RATE }),
    {
        Config { exit_key: 'q', tick_rate_ms: DEFAULT_TICK_RATE }
    }
}

} // verus!
