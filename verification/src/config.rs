//! Static reward-rate parameters.
use vstd::prelude::*;

verus! {

/// The reward rate per block, as the rational number
/// `reward_numerator / reward_denominator` applied to staked balance.
///
/// Immutable after initialization.
#[derive(Clone, Copy, Debug, PartialEq, Eq, Structural)]
pub struct Config {
    pub reward_numerator: u64,
    pub reward_denominator: u64,
}

impl Config {
    /// A configuration is well formed when its rate has a nonzero divisor.
    pub open spec fn wf(self) -> bool {
        self.reward_denominator > 0
    }

    /// The default rate: 500 / 100000, that is 0.5% of stake per block.
    pub open spec fn default_config() -> Config {
        Config { reward_numerator: 500, reward_denominator: 100000 }
    }
}

impl Default for Config {
    fn default() -> (c: Config)
        ensures
            c == Config::default_config(),
            c.wf(),
    {
        Config { reward_numerator: 500, reward_denominator: 100000 }
    }
}

} // verus!
