//! Configuration for RedisMq
use vstd::prelude::*;

use apalis_core::backend::poll_strategy::MultiStrategy;

verus! {

/// The polling strategy of `apalis_core`, carried through the configuration
/// unchanged: nothing of its inside is read here.
#[verifier::external_type_specification]
#[verifier::external_body]
pub struct ExMultiStrategy(MultiStrategy);

/// `MultiStrategy::clone` (derived by `apalis_core` over its one field, an
/// `Arc` of the list of strategies): the clone shares the same list, and so
/// is the same value.
pub assume_specification[ <MultiStrategy as Clone>::clone ](s: &MultiStrategy) -> (r: MultiStrategy)
    ensures
        r == *s,
;

/// The buffer size of a configuration made with the default settings.
pub const DEFAULT_BUFFER_SIZE: usize = 100;

/// The queue name of a configuration made with the default settings.
pub open spec fn default_namespace() -> Seq<char> {
    seq!['d', 'e', 'f', 'a', 'u', 'l', 't', '_', 'q', 'u', 'e', 'u', 'e']
}

/// What a configuration holds.
pub struct ConfigView {
    /// The strategy that decides when the queue is polled.
    pub poll_strategy: MultiStrategy,
    /// The buffer size.
    pub buffer_size: usize,
    /// The name of the queue that messages go to and come from.
    pub namespace: Seq<char>,
}

impl ConfigView {
    /// This configuration with another namespace.
    pub open spec fn with_namespace(self, namespace: Seq<char>) -> ConfigView {
        ConfigView { namespace, ..self }
    }

    /// This configuration with another buffer size.
    pub open spec fn with_buffer_size(self, buffer_size: usize) -> ConfigView {
        ConfigView { buffer_size, ..self }
    }

    /// This configuration with another polling strategy.
    pub open spec fn with_poll_strategy(self, poll_strategy: MultiStrategy) -> ConfigView {
        ConfigView { poll_strategy, ..self }
    }
}

/// Configuration for RedisMq
#[derive(Debug)]
pub struct Config {
    poll_strategy: MultiStrategy,
    buffer_size: usize,
    namespace: String,
}

impl View for Config {
    type V = ConfigView;

    closed spec fn view(&self) -> ConfigView {
        ConfigView {
            poll_strategy: self.poll_strategy,
            buffer_size: self.buffer_size,
            namespace: self.namespace@,
        }
    }
}

impl Config {
    /// Creates a new configuration
    pub fn new(poll_strategy: MultiStrategy, buffer_size: usize, namespace: String) -> (c: Self)
        ensures
            c@ == (ConfigView { poll_strategy, buffer_size, namespace: namespace@ }),
    {
        Self { poll_strategy, buffer_size, namespace }
    }

    /// Creates the default configuration around the given polling strategy:
    /// a buffer of 100 and the queue `default_queue`.
    pub fn default_with_strategy(poll_strategy: MultiStrategy) -> (c: Self)
        ensures
            c@ == (ConfigView {
                poll_strategy,
                buffer_size: DEFAULT_BUFFER_SIZE,
                namespace: default_namespace(),
            }),
    {
        let namespace = String::from_str("default_queue");
        proof {
            reveal_strlit("default_queue");
        }
        assert(namespace@ =~= default_namespace());
        Self { poll_strategy, buffer_size: DEFAULT_BUFFER_SIZE, namespace }
    }

    /// Gets the namespace
    pub fn namespace(&self) -> (ns: &str)
        ensures
            ns@ == self@.namespace,
    {
        self.namespace.as_str()
    }

    /// Sets the namespace
    pub fn set_namespace(&mut self, namespace: String)
        ensures
            final(self)@ == old(self)@.with_namespace(namespace@),
    {
        self.namespace = namespace;
    }

    /// Gets the polling strategy
    pub fn poll_strategy(&self) -> (s: &MultiStrategy)
        ensures
            *s == self@.poll_strategy,
    {
        &self.poll_strategy
    }

    /// Sets the polling strategy
    pub fn set_poll_strategy(&mut self, strategy: MultiStrategy)
        ensures
            final(self)@ == old(self)@.with_poll_strategy(strategy),
    {
        self.poll_strategy = strategy;
    }

    /// Gets the buffer size
    pub fn buffer_size(&self) -> (size: usize)
        ensures
            size == self@.buffer_size,
    {
        self.buffer_size
    }

    /// Sets the buffer size
    pub fn set_buffer_size(&mut self, size: usize)
        ensures
            final(self)@ == old(self)@.with_buffer_size(size),
    {
        self.buffer_size = size;
    }
}

impl Clone for Config {
    /// A copy with the same polling strategy, buffer size and namespace.
    fn clone(&self) -> (c: Self)
        ensures
            c@ == self@,
    {
        Config {
            poll_strategy: self.poll_strategy.clone(),
            buffer_size: self.buffer_size,
            namespace: self.namespace.clone(),
        }
    }
}

/// Setting one field of a configuration changes that field alone, and
/// reading it back gives what was set.
pub proof fn lemma_config_set_then_get(
    c: ConfigView,
    namespace: Seq<char>,
    buffer_size: usize,
    poll_strategy: MultiStrategy,
)
    ensures
        c.with_namespace(namespace).namespace == namespace,
        c.with_namespace(namespace).buffer_size == c.buffer_size,
        c.with_namespace(namespace).poll_strategy == c.poll_strategy,
        c.with_buffer_size(buffer_size).buffer_size == buffer_size,
        c.with_buffer_size(buffer_size).namespace == c.namespace,
        c.with_buffer_size(buffer_size).poll_strategy == c.poll_strategy,
        c.with_poll_strategy(poll_strategy).poll_strategy == poll_strategy,
        c.with_poll_strategy(poll_strategy).namespace == c.namespace,
        c.with_poll_strategy(poll_strategy).buffer_size == c.buffer_size,
{
}

} // verus!
