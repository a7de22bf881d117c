//! Shapes for the commit-detail endpoint.

use vstd::prelude::*;

verus! {

/// A project a commit belongs to.
#[derive(Debug, Clone)]
pub struct Project {
    /// Unique id of project.
    pub id: String,
    /// Project name.
    pub name: String,
    /// Project privacy setting.
    pub privacy: Option<String>,
    /// The repository backing the project.
    pub repository: Repository,
}

/// A remote repository.
#[derive(Debug, Clone)]
pub struct Repository {
    /// Default branch if given for this repo.
    pub default_branch: String,
    /// Remote repository description.
    pub description: String,
    /// Number of repo forks if available.
    pub fork_count: u64,
    /// Username and repo name, ex: `wakatime/wakadump`.
    pub full_name: String,
    /// Homepage of repository.
    pub homepage: Option<String>,
    /// HTML url for repository.
    pub html_url: Option<String>,
    /// Unique id of repository.
    pub id: String,
    /// Whether this repo is a fork or original.
    pub is_fork: bool,
    /// Whether this repo is private or public.
    pub is_private: bool,
    /// Last time this repo was synced with remote provider ISO 8601 format.
    pub last_synced_at: Option<String>,
    /// Repository name.
    pub name: String,
    /// Remote provider of repository, ex: `github`.
    pub provider: String,
    /// Number of repo stars if available.
    pub star_count: u64,
    /// API url of remote repository.
    pub url: String,
    /// Number of watchers of repo if available.
    pub watch_count: u64,
}

} // verus!
