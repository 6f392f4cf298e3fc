//! The options that a caller may hand to the store when it opens one.
//!
//! Every field is optional. The store reads only the page size of the
//! storage section; the other fields are carried and not acted on.

use vstd::prelude::*;

verus! {

/// Options of the storage layer.
#[derive(Debug)]
pub struct StorageConfig {
    /// Reserved: carried, and given no behaviour.
    pub mode: Option<String>,
    /// Reserved: carried, and given no behaviour.
    pub workdir: Option<String>,
    /// The page size, in bytes, to open the store with in place of the
    /// default. It has to be positive.
    pub page_size: Option<usize>,
}

/// Options of a server in front of the store. The store does not read them.
#[derive(Debug)]
pub struct ServerConfig {
    pub port: Option<u16>,
    pub debug: Option<bool>,
}

/// All options of an application that uses the store.
#[derive(Debug)]
pub struct Config {
    pub app_name: Option<String>,
    pub storage: Option<StorageConfig>,
    pub server: Option<ServerConfig>,
}

impl Config {
    /// The page size that these options ask for, if they ask for one.
    pub open spec fn page_size_override(&self) -> Option<usize> {
        match self.storage {
            Some(storage) => storage.page_size,
            None => None,
        }
    }
}

} // verus!
