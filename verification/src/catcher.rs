//! Setting up the shared state of one observed process.

use crate::state::{Configuration, State, StateView, Statistics};
use crate::storage::{Address, Allocation, AllocationsStorage, BtreeMapStorage};
use vstd::prelude::*;

verus! {

/// What to start with. Nothing given means no tracing and an empty store.
pub struct Options<S: AllocationsStorage> {
    pub initial_configuration: Option<Configuration>,
    pub storage: Option<S>,
}

impl<S: AllocationsStorage> Default for Options<S> {
    fn default() -> (options: Self)
        ensures
            options.initial_configuration is None,
            options.storage is None,
    {
        Self { initial_configuration: None, storage: None }
    }
}

/// The configuration that a catcher starts with.
pub open spec fn initial_configuration(given: Option<Configuration>) -> Configuration {
    match given {
        Some(configuration) => configuration,
        None => Configuration::zero(),
    }
}

/// The observer's state, from its start to its end.
pub struct AllocationCatcher<S: AllocationsStorage> {
    state: State<S>,
}

impl<S: AllocationsStorage> View for AllocationCatcher<S> {
    type V = StateView;

    closed spec fn view(&self) -> StateView {
        self.state@
    }
}

impl<S: AllocationsStorage> AllocationCatcher<S> {
    /// Starts with the records of `storage`, the configuration given or
    /// else no tracing, and all counters zero.
    pub fn with_storage(configuration: Option<Configuration>, storage: S) -> (catcher: Self)
        ensures
            catcher@.configuration == initial_configuration(configuration),
            catcher@.allocations == storage.contents(),
            catcher@.statistics == Statistics::zero(),
    {
        let configuration = match configuration {
            Some(configuration) => configuration,
            None => Configuration::default(),
        };
        Self { state: State::new(configuration, storage) }
    }

    /// The state.
    pub fn state(&self) -> (state: &State<S>)
        ensures
            state@ == self@,
    {
        &self.state
    }

    /// Hands the state over, to the handler that records into it.
    pub fn into_state(self) -> (state: State<S>)
        ensures
            state@ == self@,
    {
        self.state
    }
}

impl AllocationCatcher<BtreeMapStorage> {
    /// Starts as the options say. A store that is not given is an empty
    /// ordered map.
    pub fn init(options: Options<BtreeMapStorage>) -> (catcher: Self)
        ensures
            catcher@.configuration == initial_configuration(
                options.initial_configuration,
            ),
            catcher@.allocations == match options.storage {
                Some(storage) => storage.contents(),
                None => Map::<Address, Allocation>::empty(),
            },
            catcher@.statistics == Statistics::zero(),
    {
        let storage = match options.storage {
            Some(storage) => storage,
            None => BtreeMapStorage::new(),
        };
        Self::with_storage(options.initial_configuration, storage)
    }
}

} // verus!
