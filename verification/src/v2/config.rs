//! The configuration of the alternative interface.

use vstd::prelude::*;

verus! {

/// The default initial size of the scan cache.
pub const DEFAULT_SCAN_CACHE_SIZE: usize = 128;
/// The default maximum number of hazard pointers a thread keeps reserved.
pub const DEFAULT_MAX_RESERVED_HAZARD_POINTERS: u32 = 16;
/// The default number of counted operations after which a reclamation is attempted.
pub const DEFAULT_OPS_COUNT_THRESHOLD: u32 = 128;

/// The kind of operation that counts towards the reclamation threshold.
#[derive(Copy, Clone, Debug, Hash, PartialEq, Eq, Structural, PartialOrd, Ord)]
#[non_exhaustive]
pub enum Operation {
    /// Releasing a guard.
    Release,
    /// Retiring a record.
    Retire,
}

/// The kind of operation counted when none is configured.
pub open spec fn default_operation() -> Operation {
    Operation::Retire
}

impl Default for Operation {
    fn default() -> (op: Self)
        ensures
            op == default_operation(),
    {
        Operation::Retire
    }
}

/// A builder for a [`Config`], in which every unset setting takes its default.
#[derive(Copy, Clone, Debug, Hash, PartialEq, Eq, Structural, PartialOrd, Ord)]
pub struct ConfigBuilder {
    pub initial_scan_cache_size: Option<usize>,
    pub max_reserved_hazard_pointers: Option<u32>,
    pub ops_count_threshold: Option<u32>,
    pub count_strategy: Option<Operation>,
}

/// The configuration.
#[derive(Copy, Clone, Debug, Hash, PartialEq, Eq, Structural, PartialOrd, Ord)]
#[non_exhaustive]
pub struct Config {
    /// The initial size of the scan cache.
    pub initial_scan_cache_size: usize,
    /// The maximum number of hazard pointers a thread keeps reserved.
    pub max_reserved_hazard_pointers: u32,
    /// The number of counted operations after which a reclamation is attempted.
    pub ops_count_threshold: u32,
    /// The kind of operation that is counted.
    pub count_strategy: Operation,
}

/// The configuration with every setting at its default.
pub open spec fn default_config() -> Config {
    Config {
        initial_scan_cache_size: DEFAULT_SCAN_CACHE_SIZE,
        max_reserved_hazard_pointers: DEFAULT_MAX_RESERVED_HAZARD_POINTERS,
        ops_count_threshold: DEFAULT_OPS_COUNT_THRESHOLD,
        count_strategy: default_operation(),
    }
}

/// The configuration a builder produces: each set value, else the default.
pub open spec fn built_config(b: ConfigBuilder) -> Config {
    Config {
        initial_scan_cache_size: b.initial_scan_cache_size.unwrap_or(DEFAULT_SCAN_CACHE_SIZE),
        max_reserved_hazard_pointers: b.max_reserved_hazard_pointers.unwrap_or(
            DEFAULT_MAX_RESERVED_HAZARD_POINTERS,
        ),
        ops_count_threshold: b.ops_count_threshold.unwrap_or(DEFAULT_OPS_COUNT_THRESHOLD),
        count_strategy: b.count_strategy.unwrap_or(default_operation()),
    }
}

impl Default for ConfigBuilder {
    fn default() -> (b: Self)
        ensures
            b.initial_scan_cache_size is None,
            b.max_reserved_hazard_pointers is None,
            b.ops_count_threshold is None,
            b.count_strategy is None,
    {
        ConfigBuilder {
            initial_scan_cache_size: None,
            max_reserved_hazard_pointers: None,
            ops_count_threshold: None,
            count_strategy: None,
        }
    }
}

impl ConfigBuilder {
    /// Creates a builder with no setting chosen.
    pub fn new() -> (b: Self)
        ensures
            b.initial_scan_cache_size is None,
            b.max_reserved_hazard_pointers is None,
            b.ops_count_threshold is None,
            b.count_strategy is None,
    {
        Self::default()
    }

    /// Chooses the initial size of the scan cache.
    pub fn initial_scan_cache_size(self, val: usize) -> (b: Self)
        ensures
            b == (ConfigBuilder { initial_scan_cache_size: Some(val), ..self }),
    {
        let mut b = self;
        b.initial_scan_cache_size = Some(val);
        b
    }

    /// Builds the configuration, using the default for every unset value.
    pub fn build(self) -> (c: Config)
        ensures
            c == built_config(self),
    {
        Config {
            initial_scan_cache_size: self.initial_scan_cache_size.unwrap_or(
                DEFAULT_SCAN_CACHE_SIZE,
            ),
            max_reserved_hazard_pointers: self.max_reserved_hazard_pointers.unwrap_or(
                DEFAULT_MAX_RESERVED_HAZARD_POINTERS,
            ),
            ops_count_threshold: self.ops_count_threshold.unwrap_or(DEFAULT_OPS_COUNT_THRESHOLD),
            count_strategy: match self.count_strategy {
                Some(op) => op,
                None => Operation::default(),
            },
        }
    }
}

impl Config {
    /// Returns `true` if releasing guards is counted.
    pub fn is_count_release(&self) -> (b: bool)
        ensures
            b == (self.count_strategy == Operation::Release),
    {
        self.count_strategy == Operation::Release
    }

    /// Returns `true` if retiring records is counted.
    pub fn is_count_retire(&self) -> (b: bool)
        ensures
            b == (self.count_strategy == Operation::Retire),
    {
        self.count_strategy == Operation::Retire
    }
}

impl Default for Config {
    fn default() -> (c: Self)
        ensures
            c == default_config(),
    {
        Config {
            initial_scan_cache_size: DEFAULT_SCAN_CACHE_SIZE,
            max_reserved_hazard_pointers: DEFAULT_MAX_RESERVED_HAZARD_POINTERS,
            ops_count_threshold: DEFAULT_OPS_COUNT_THRESHOLD,
            count_strategy: Operation::default(),
        }
    }
}

} // verus!
