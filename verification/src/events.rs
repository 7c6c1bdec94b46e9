//! Events: keys as they are pressed, and the ticks of a clock in between.

use vstd::prelude::*;

verus! {

/// One event: an input, or a tick of the clock.
#[derive(Debug)]
pub enum Event<I> {
    Input(I),
    Tick,
}

/// How the stream of events is set up.
#[derive(Debug, Clone, Copy)]
pub struct Config {
    /// The time from one tick to the next, in milliseconds.
    pub tick_rate: u64,
}

impl Default for Config {
    /// Four ticks a second.
    fn default() -> (config: Config)
        ensures
            config.tick_rate == 250,
    {
        Config { tick_rate: 250 }
    }
}

} // verus!
