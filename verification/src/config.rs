//! Limits of a run.
use vstd::prelude::*;

verus! {

#[derive(Debug, Clone)]
pub struct OrchConfig {
    /// How many souls one prompt may call at most.
    pub max_concurrent_souls: usize,
    /// How many memory items are injected per soul at most: the limit that its
    /// memory is asked to keep to.
    pub memory_context_limit: usize,
    /// Whether the secondary souls of a route are called. Without it only the
    /// primary one is, the first that the route names.
    pub multi_soul_enabled: bool,
}

impl Default for OrchConfig {
    fn default() -> (config: OrchConfig)
        ensures
            config.max_concurrent_souls == 3,
            config.memory_context_limit == 5,
            config.multi_soul_enabled,
    {
        OrchConfig {
            max_concurrent_souls: 3,
            memory_context_limit: 5,
            multi_soul_enabled: true,
        }
    }
}

impl OrchConfig {
    /// How many souls of a route are called at most.
    pub open spec fn soul_limit(self) -> nat {
        if self.multi_soul_enabled || self.max_concurrent_souls == 0 {
            self.max_concurrent_souls as nat
        } else {
            1
        }
    }

    /// The souls that are called when a route names `souls`: its first ones, in
    /// its order, as far as the limit goes.
    pub open spec fn called(self, souls: Seq<String>) -> Seq<String> {
        if souls.len() <= self.soul_limit() {
            souls
        } else {
            souls.take(self.soul_limit() as int)
        }
    }

    /// Cuts the souls of a route down to those that are called.
    pub fn limit_souls(&self, souls: Vec<String>) -> (called: Vec<String>)
        ensures
            called@ == self.called(souls@),
    {
        let limit: usize = if self.multi_soul_enabled || self.max_concurrent_souls == 0 {
            self.max_concurrent_souls
        } else {
            1
        };
        let mut called = souls;
        if called.len() > limit {
            called.truncate(limit);
        }
        called
    }
}

/// The souls called are the first of the route, as many as the limit allows: never more than
/// `max_concurrent_souls`, and the primary one alone where secondary souls are off.
pub proof fn law_souls_called_are_limited(config: OrchConfig, souls: Seq<String>)
    ensures
        config.called(souls).is_prefix_of(souls),
        config.called(souls).len() <= config.max_concurrent_souls,
        config.multi_soul_enabled && souls.len() <= config.max_concurrent_souls ==> config.called(
            souls,
        ) == souls,
        config.multi_soul_enabled && souls.len() > config.max_concurrent_souls ==> config.called(
            souls,
        ).len() == config.max_concurrent_souls,
        !config.multi_soul_enabled ==> config.called(souls).len() <= 1,
        souls.len() > 0 && config.max_concurrent_souls > 0 ==> config.called(souls).len() > 0
            && config.called(souls)[0] == souls[0],
{
}

} // verus!
