//! A cache of downloaded assets by address.
use vstd::prelude::*;

use std::collections::HashMap;

verus! {

/// The state of an asset download.
pub enum FetcherCache<T> {
    Queued,
    Failed,
    Fetched(T),
}

/// Downloads of assets of type `T`, by address.
pub struct Fetcher<T> {
    cache: HashMap<String, FetcherCache<T>>,
}

impl<T> View for Fetcher<T> {
    type V = Map<String, FetcherCache<T>>;

    closed spec fn view(&self) -> Map<String, FetcherCache<T>> {
        self.cache@
    }
}

impl<T> Fetcher<T> {
    /// A fetcher that knows no download.
    pub fn new() -> (fetcher: Self)
        ensures
            fetcher@ == Map::<String, FetcherCache<T>>::empty(),
    {
        Self { cache: HashMap::new() }
    }

    /// Forgets every download.
    pub fn clear(&mut self)
        ensures
            final(self)@ == Map::<String, FetcherCache<T>>::empty(),
    {
        self.cache = HashMap::new();
    }
}

} // verus!
