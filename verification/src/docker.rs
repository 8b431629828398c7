//! Docker Cloud automated builds.

use crate::environment::{lookup, Environment, Variables};
use vstd::prelude::*;

verus! {

/// What Docker Cloud tells an automated build about itself.
#[derive(Clone, Debug)]
#[non_exhaustive]
pub struct Docker {
    /// The name of the branch or the tag that is currently being tested.
    pub source_branch: String,
    /// The SHA1 hash of the commit being tested.
    pub source_commit: String,
    /// The message from the commit being tested and built.
    pub commit_msg: String,
    /// The name of the Docker repository being built.
    pub repo: String,
    /// The Docker repository tag being built.
    pub cache_tag: String,
    /// The name and tag of the Docker repository being built.
    /// (This variable is a combination of `DOCKER_REPO`:`CACHE_TAG`.)
    pub image_name: String,
}

impl Docker {
    /// Every field holds the value of its variable, which is present.
    pub open spec fn reflects(&self, vars: Variables) -> bool {
        &&& Some(self.source_branch@) == lookup(vars, "SOURCE_BRANCH"@)
        &&& Some(self.source_commit@) == lookup(vars, "SOURCE_COMMIT"@)
        &&& Some(self.commit_msg@) == lookup(vars, "COMMIT_MSG"@)
        &&& Some(self.repo@) == lookup(vars, "DOCKER_REPO"@)
        &&& Some(self.cache_tag@) == lookup(vars, "CACHE_TAG"@)
        &&& Some(self.image_name@) == lookup(vars, "IMAGE_NAME"@)
    }

    /// All the variables that Docker Cloud sets are present. No pair of a
    /// variable and a value marks this vendor: it is known by these alone.
    pub open spec fn complete(vars: Variables) -> bool {
        &&& lookup(vars, "SOURCE_BRANCH"@) is Some
        &&& lookup(vars, "SOURCE_COMMIT"@) is Some
        &&& lookup(vars, "COMMIT_MSG"@) is Some
        &&& lookup(vars, "DOCKER_REPO"@) is Some
        &&& lookup(vars, "CACHE_TAG"@) is Some
        &&& lookup(vars, "IMAGE_NAME"@) is Some
    }

    /// Construct this provider's information from the environment.
    pub fn from_env(env: &Environment) -> (found: Option<Docker>)
        ensures
            found is Some <==> Docker::complete(env@),
            found matches Some(docker) ==> docker.reflects(env@),
    {
        Some(
            Docker {
                source_branch: env.lookup("SOURCE_BRANCH")?,
                source_commit: env.lookup("SOURCE_COMMIT")?,
                commit_msg: env.lookup("COMMIT_MSG")?,
                repo: env.lookup("DOCKER_REPO")?,
                cache_tag: env.lookup("CACHE_TAG")?,
                image_name: env.lookup("IMAGE_NAME")?,
            },
        )
    }
}

} // verus!
