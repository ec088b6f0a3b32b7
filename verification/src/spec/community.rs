//! Community-node handling for a `Cluster`.
use vstd::prelude::*;
use crate::spec::common::SharedStorage;

verus! {

/// Community-node handling. In queue mode a node installed on one pod isn't
/// visible to the others, so pick one strategy: declarative `packages`, a
/// shared `nodes` volume (`shared_storage`), or the legacy `reinstall_missing`.
/// They are mutually exclusive.
#[derive(Debug, Clone)]
pub struct CommunityNodesConfig {
    /// `N8N_COMMUNITY_PACKAGES_ENABLED`. Omit for the n8n default (true).
    pub enabled: Option<bool>,
    /// Declaratively managed package set.
    pub packages: Vec<CommunityPackage>,
    /// Shared volume mounted at `~/.n8n/nodes` on every role.
    pub shared_storage: Option<SharedStorage>,
    /// `N8N_REINSTALL_MISSING_PACKAGES`.
    pub reinstall_missing: Option<bool>,
}

/// One npm package of the declarative set.
#[derive(Debug, Clone)]
pub struct CommunityPackage {
    pub name: String,
    pub version: Option<String>,
    pub checksum: Option<String>,
}

} // verus!
