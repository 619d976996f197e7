use vstd::prelude::*;

verus! {

/// The largest bias, in hundredths of a percent: heads on every trial.
pub const MAX_BIAS_HUNDREDTHS: u32 = 10000;

/// The settings of one run. The bias is the chance of heads, in hundredths
/// of a percent (`7000` is 70.00%).
#[derive(Clone, Copy, Debug, PartialEq, Eq)]
pub struct Config {
    pub trial_count: u64,
    pub bias_hundredths: u32,
    pub worker_count: usize,
    pub sink_enabled: bool,
}

/// Why a set of settings is refused before any trial runs.
#[derive(Clone, Copy, Debug, PartialEq, Eq, Structural)]
pub enum ConfigError {
    /// No trials were asked for.
    ZeroTrials,
    /// The bias lies outside 0.00% ..= 100.00%.
    BiasOutOfRange,
    /// No workers were asked for.
    ZeroWorkers,
}

/// The bias rounded to a whole percent, halves rounded up: a draw in
/// `0..100` below this number is heads.
pub open spec fn heads_threshold(bias_hundredths: u32) -> int {
    (bias_hundredths + 50) / 100
}

impl Config {
    pub open spec fn valid(&self) -> bool {
        &&& self.trial_count > 0
        &&& self.bias_hundredths <= MAX_BIAS_HUNDREDTHS
        &&& self.worker_count >= 1
    }

    /// Checks the settings, the trial count first, then the bias, then the
    /// worker count.
    pub fn new(trial_count: u64, bias_hundredths: i64, worker_count: usize, sink_enabled: bool) -> (r:
        Result<Config, ConfigError>)
        ensures
            r == Err::<Config, ConfigError>(ConfigError::ZeroTrials) <==> trial_count == 0,
            r == Err::<Config, ConfigError>(ConfigError::BiasOutOfRange) <==> (trial_count > 0 && (
            bias_hundredths < 0 || bias_hundredths > MAX_BIAS_HUNDREDTHS)),
            r == Err::<Config, ConfigError>(ConfigError::ZeroWorkers) <==> (trial_count > 0 && 0
                <= bias_hundredths <= MAX_BIAS_HUNDREDTHS && worker_count == 0),
            r is Ok <==> (trial_count > 0 && 0 <= bias_hundredths <= MAX_BIAS_HUNDREDTHS
                && worker_count >= 1),
            r matches Ok(c) ==> (c.valid() && c.trial_count == trial_count && c.bias_hundredths
                == bias_hundredths && c.worker_count == worker_count && c.sink_enabled
                == sink_enabled),
    {
        if trial_count == 0 {
            Err(ConfigError::ZeroTrials)
        } else if bias_hundredths < 0 || bias_hundredths > MAX_BIAS_HUNDREDTHS as i64 {
            Err(ConfigError::BiasOutOfRange)
        } else if worker_count == 0 {
            Err(ConfigError::ZeroWorkers)
        } else {
            Ok(Config {
                trial_count,
                bias_hundredths: bias_hundredths as u32,
                worker_count,
                sink_enabled,
            })
        }
    }

    /// The whole percent below which a draw is heads.
    pub fn threshold(&self) -> (r: u32)
        ensures
            r == heads_threshold(self.bias_hundredths),
    {
        threshold_of(self.bias_hundredths)
    }
}

/// The whole percent below which a draw is heads, for a bias in hundredths.
pub fn threshold_of(bias_hundredths: u32) -> (r: u32)
    ensures
        r == heads_threshold(bias_hundredths),
{
    let up: u32 = if bias_hundredths % 100 >= 50 { 1 } else { 0 };
    bias_hundredths / 100 + up
}

} // verus!
