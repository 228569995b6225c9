//! What a caller asks of each provider.

use vstd::prelude::*;

verus! {

/// A query to the provider with two rating tiers.
#[derive(Clone, Debug, PartialEq, Eq)]
pub struct Safebooru {
    /// Show what is known of the image.
    pub details: bool,
    /// Restrict the query to questionable images.
    pub questionable: bool,
    /// The raw tags, separated by spaces or commas.
    pub tags: Option<String>,
}

/// A query to the provider with three rating tiers.
#[derive(Clone, Debug, PartialEq, Eq)]
pub struct Danbooru {
    /// Show what is known of the image.
    pub details: bool,
    /// Restrict the query to safe images.
    pub safe: bool,
    /// Restrict the query to questionable images.
    pub questionable: bool,
    /// Restrict the query to explicit images.
    pub explicit: bool,
    /// The raw tags, separated by spaces or commas.
    pub tags: Option<String>,
    /// The account to query as.
    pub username: Option<String>,
    /// The account's key.
    pub key: Option<String>,
}

/// An account name and key found outside the query itself.
#[derive(Clone, Debug, PartialEq, Eq)]
pub struct Credentials {
    pub username: Option<String>,
    pub key: Option<String>,
}

} // verus!
