//! Hazard pointer based memory reclamation: the bookkeeping of hazard
//! pointers, retired records and the decisions of when and what to reclaim.

pub mod config;
pub mod hazard;
pub mod queue;
pub mod retired;
pub mod scan_cache;
pub mod strategy;
pub mod v2;
pub mod global;
pub mod local;
pub mod guard;

use vstd::prelude::*;

pub use crate::config::{Config, ConfigBuilder, CountStrategy};
pub use crate::local::Local;
pub use crate::strategy::{GlobalRetire, LocalRetire};

use crate::config::default_config;
use crate::global::{abandoned_records, global_queue, Global};
use crate::local::inner::LocalInner;
use crate::strategy::{GlobalRetireState, RetireStrategy, RetiredPtr};

verus! {

/// The state of the hazard pointer reclamation scheme shared by all threads,
/// with the configuration threads use by default.
#[derive(Debug)]
pub struct Hp<S> {
    /// The default configuration for threads.
    pub config: Config,
    /// The global state: all hazard pointers and the global retire state.
    pub state: Global,
    /// The retire strategy.
    pub retire_strategy: S,
}

impl Hp<GlobalRetire> {
    /// Creates the scheme with the global retire strategy and `config`.
    pub fn global_retire(config: Config) -> (hp: Self)
        ensures
            hp.config == config,
            hp.state.wf(),
            hp.state.hazards@ == Seq::<usize>::empty(),
            hp.state.retire_state is GlobalStrategy,
            global_queue(&hp.state) == Seq::<RetiredPtr>::empty(),
    {
        Hp {
            config,
            state: Global::new(GlobalRetireState::global_strategy()),
            retire_strategy: GlobalRetire,
        }
    }
}

impl Hp<LocalRetire> {
    /// Creates the scheme with the local retire strategy and `config`.
    pub fn local_retire(config: Config) -> (hp: Self)
        ensures
            hp.config == config,
            hp.state.wf(),
            hp.state.hazards@ == Seq::<usize>::empty(),
            hp.state.retire_state is LocalStrategy,
            abandoned_records(&hp.state) == vstd::multiset::Multiset::<RetiredPtr>::empty(),
    {
        let hp = Hp {
            config,
            state: Global::new(GlobalRetireState::local_strategy()),
            retire_strategy: LocalRetire,
        };
        proof {
            reveal_with_fuel(crate::strategy::local_retire::all_records, 1);
        }
        hp
    }
}

impl<S: RetireStrategy> Hp<S> {
    /// Builds the state of a new thread, with `config` if given and the
    /// scheme's configuration otherwise.
    pub fn build_local(&mut self, config: Option<Config>) -> (local: LocalInner)
        requires
            old(self).state.wf(),
        ensures
            local.inv(&final(self).state),
            local.config() == config.unwrap_or(old(self).config),
            local.ops_count() == 0,
            local.cache() == Seq::<usize>::empty(),
            final(self).config == old(self).config,
            final(self).state.hazards == old(self).state.hazards,
            local.is_local() == (old(self).state.retire_state is LocalStrategy),
            local.is_local() ==> local.retired().to_multiset() == abandoned_records(
                &old(self).state,
            ),
            local.is_local() ==> abandoned_records(&final(self).state)
                == vstd::multiset::Multiset::<RetiredPtr>::empty(),
            !local.is_local() ==> global_queue(&final(self).state) == global_queue(
                &old(self).state,
            ),
    {
        let config = match config {
            Some(config) => config,
            None => self.config,
        };
        let local = LocalInner::new(config, &mut self.state);
        proof {
            local.lemma_inv_wf(&self.state);
        }
        local
    }
}

impl Default for Hp<GlobalRetire> {
    fn default() -> (hp: Self)
        ensures
            hp.config == default_config(),
            hp.state.wf(),
            hp.state.retire_state is GlobalStrategy,
    {
        Self::global_retire(Config::default())
    }
}

impl Default for Hp<LocalRetire> {
    fn default() -> (hp: Self)
        ensures
            hp.config == default_config(),
            hp.state.wf(),
            hp.state.retire_state is LocalStrategy,
    {
        Self::local_retire(Config::default())
    }
}

} // verus!

