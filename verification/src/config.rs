//! The configuration of the hazard pointer reclamation scheme.

use vstd::prelude::*;

verus! {

/// The default initial size of the cache used for scanning hazard pointers.
pub const DEFAULT_SCAN_CACHE_SIZE: usize = 128;
/// The default initial capacity of a thread's cache of retired records.
pub const DEFAULT_RETIRE_CACHE_SIZE: usize = 128;
/// The default number of counted operations after which a reclamation is attempted.
pub const DEFAULT_OPS_COUNT_THRESHOLD: u32 = 100;

/// The kind of operation that counts towards the reclamation threshold.
#[derive(Copy, Clone, Debug, Hash, PartialEq, Eq, Structural, PartialOrd, Ord)]
#[non_exhaustive]
pub enum CountStrategy {
    /// Releasing (or dropping) a guard counts.
    Release,
    /// Retiring a record counts.
    Retire,
}

/// The count strategy used when none is configured.
pub open spec fn default_count_strategy() -> CountStrategy {
    CountStrategy::Retire
}

impl Default for CountStrategy {
    fn default() -> (s: Self)
        ensures
            s == default_count_strategy(),
    {
        CountStrategy::Retire
    }
}

/// A builder for a [`Config`], in which every setting left unset takes its
/// default value.
#[derive(Copy, Clone, Debug, Hash, PartialEq, Eq, Structural, PartialOrd, Ord)]
pub struct ConfigBuilder {
    pub initial_scan_cache_size: Option<usize>,
    pub initial_retire_cache_size: Option<usize>,
    pub ops_count_threshold: Option<u32>,
    pub count_strategy: Option<CountStrategy>,
}

/// The configuration of the reclamation scheme.
#[derive(Copy, Clone, Debug, Hash, PartialEq, Eq, Structural, PartialOrd, Ord)]
#[non_exhaustive]
pub struct Config {
    /// The initial size of the scan cache; a suitably large size avoids
    /// re-allocations at runtime.
    pub initial_scan_cache_size: usize,
    /// The initial capacity of a thread's cache of retired records.
    pub initial_retire_cache_size: usize,
    /// The number of counted operations after which a reclamation is attempted.
    pub ops_count_threshold: u32,
    /// The kind of operation that is counted.
    pub count_strategy: CountStrategy,
}

/// The configuration with every setting at its default.
pub open spec fn default_config() -> Config {
    Config {
        initial_scan_cache_size: DEFAULT_SCAN_CACHE_SIZE,
        initial_retire_cache_size: DEFAULT_RETIRE_CACHE_SIZE,
        ops_count_threshold: DEFAULT_OPS_COUNT_THRESHOLD,
        count_strategy: default_count_strategy(),
    }
}

/// The configuration a builder produces: each set value, else the default.
pub open spec fn built_config(b: ConfigBuilder) -> Config {
    Config {
        initial_scan_cache_size: b.initial_scan_cache_size.unwrap_or(DEFAULT_SCAN_CACHE_SIZE),
        initial_retire_cache_size: b.initial_retire_cache_size.unwrap_or(
            DEFAULT_RETIRE_CACHE_SIZE,
        ),
        ops_count_threshold: b.ops_count_threshold.unwrap_or(DEFAULT_OPS_COUNT_THRESHOLD),
        count_strategy: b.count_strategy.unwrap_or(default_count_strategy()),
    }
}

impl Default for ConfigBuilder {
    fn default() -> (b: Self)
        ensures
            b.initial_scan_cache_size is None,
            b.initial_retire_cache_size is None,
            b.ops_count_threshold is None,
            b.count_strategy is None,
    {
        ConfigBuilder {
            initial_scan_cache_size: None,
            initial_retire_cache_size: None,
            ops_count_threshold: None,
            count_strategy: None,
        }
    }
}

impl ConfigBuilder {
    /// Creates a builder with no setting chosen.
    pub fn new() -> (b: Self)
        ensures
            b.initial_scan_cache_size is None,
            b.initial_retire_cache_size is None,
            b.ops_count_threshold is None,
            b.count_strategy is None,
    {
        Self::default()
    }

    /// Chooses the initial size of the scan cache.
    pub fn set_initial_scan_cache_size(self, val: usize) -> (b: Self)
        ensures
            b == (ConfigBuilder { initial_scan_cache_size: Some(val), ..self }),
    {
        let mut b = self;
        b.initial_scan_cache_size = Some(val);
        b
    }

    /// Chooses the initial capacity of the retired records cache.
    pub fn set_initial_retire_cache_size(self, val: usize) -> (b: Self)
        ensures
            b == (ConfigBuilder { initial_retire_cache_size: Some(val), ..self }),
    {
        let mut b = self;
        b.initial_retire_cache_size = Some(val);
        b
    }

    /// Chooses the reclamation threshold, a positive number of operations.
    pub fn set_ops_count_threshold(self, val: u32) -> (b: Self)
        requires
            val > 0,
        ensures
            b == (ConfigBuilder { ops_count_threshold: Some(val), ..self }),
    {
        let mut b = self;
        b.ops_count_threshold = Some(val);
        b
    }

    /// Chooses the kind of counted operation.
    pub fn set_count_strategy(self, val: CountStrategy) -> (b: Self)
        ensures
            b == (ConfigBuilder { count_strategy: Some(val), ..self }),
    {
        let mut b = self;
        b.count_strategy = Some(val);
        b
    }

    /// Builds the configuration, using the default for every unset value.
    pub fn build(self) -> (c: Config)
        requires
            self.ops_count_threshold != Some(0u32),
        ensures
            c == built_config(self),
            c.ops_count_threshold > 0,
            self.initial_scan_cache_size is None ==> c.initial_scan_cache_size
                == DEFAULT_SCAN_CACHE_SIZE,
            self.initial_scan_cache_size matches Some(v) ==> c.initial_scan_cache_size == v,
            self.initial_retire_cache_size is None ==> c.initial_retire_cache_size
                == DEFAULT_RETIRE_CACHE_SIZE,
            self.initial_retire_cache_size matches Some(v) ==> c.initial_retire_cache_size == v,
            self.ops_count_threshold is None ==> c.ops_count_threshold
                == DEFAULT_OPS_COUNT_THRESHOLD,
            self.ops_count_threshold matches Some(v) ==> c.ops_count_threshold == v,
            self.count_strategy is None ==> c.count_strategy == CountStrategy::Retire,
            self.count_strategy matches Some(v) ==> c.count_strategy == v,
    {
        Config {
            initial_scan_cache_size: self.initial_scan_cache_size.unwrap_or(
                DEFAULT_SCAN_CACHE_SIZE,
            ),
            initial_retire_cache_size: self.initial_retire_cache_size.unwrap_or(
                DEFAULT_RETIRE_CACHE_SIZE,
            ),
            ops_count_threshold: self.ops_count_threshold.unwrap_or(DEFAULT_OPS_COUNT_THRESHOLD),
            count_strategy: match self.count_strategy {
                Some(s) => s,
                None => CountStrategy::default(),
            },
        }
    }
}

impl Default for Config {
    fn default() -> (c: Self)
        ensures
            c == default_config(),
    {
        Config {
            initial_scan_cache_size: DEFAULT_SCAN_CACHE_SIZE,
            initial_retire_cache_size: DEFAULT_RETIRE_CACHE_SIZE,
            ops_count_threshold: DEFAULT_OPS_COUNT_THRESHOLD,
            count_strategy: CountStrategy::default(),
        }
    }
}

/// Each setting of a built configuration is the value chosen for it, or its
/// default when none was chosen, whatever the other settings are.
pub proof fn lemma_build_takes_each_setting(b: ConfigBuilder)
    ensures
        built_config(b).initial_scan_cache_size == (match b.initial_scan_cache_size {
            Some(v) => v,
            None => 128usize,
        }),
        built_config(b).initial_retire_cache_size == (match b.initial_retire_cache_size {
            Some(v) => v,
            None => 128usize,
        }),
        built_config(b).ops_count_threshold == (match b.ops_count_threshold {
            Some(v) => v,
            None => 100u32,
        }),
        built_config(b).count_strategy == (match b.count_strategy {
            Some(v) => v,
            None => CountStrategy::Retire,
        }),
{
}

/// Choosing one setting changes that setting of the built configuration
/// only: the others are built as before.
pub proof fn lemma_one_setting_leaves_others(b: ConfigBuilder, scan: usize, retire: usize)
    ensures
        ({
            let c = built_config(b);
            let with_scan = built_config(ConfigBuilder { initial_scan_cache_size: Some(scan), ..b });
            &&& with_scan.initial_scan_cache_size == scan
            &&& with_scan.initial_retire_cache_size == c.initial_retire_cache_size
            &&& with_scan.ops_count_threshold == c.ops_count_threshold
            &&& with_scan.count_strategy == c.count_strategy
        }),
        ({
            let c = built_config(b);
            let with_retire = built_config(
                ConfigBuilder { initial_retire_cache_size: Some(retire), ..b },
            );
            &&& with_retire.initial_retire_cache_size == retire
            &&& with_retire.initial_scan_cache_size == c.initial_scan_cache_size
            &&& with_retire.ops_count_threshold == c.ops_count_threshold
            &&& with_retire.count_strategy == c.count_strategy
        }),
{
}

/// Building from a fresh builder gives the default configuration.
pub proof fn lemma_fresh_builder_builds_default(b: ConfigBuilder)
    requires
        b.initial_scan_cache_size is None,
        b.initial_retire_cache_size is None,
        b.ops_count_threshold is None,
        b.count_strategy is None,
    ensures
        built_config(b) == default_config(),
{
}

} // verus!
