//! Codefresh CI.

use crate::environment::{lookup, path_in, Environment, Variables};
use crate::text::same_text;
use std::path::PathBuf;
use vstd::prelude::*;

verus! {

/// How the current build was triggered.
#[derive(Copy, Clone, Debug, Eq, PartialEq, Hash, Structural)]
#[non_exhaustive]
pub enum BuildTrigger {
    /// The build was triggered from the build button.
    Build,
    /// The build was triggered from a control version webhook.
    Webhook,
}

impl BuildTrigger {
    /// The trigger that a token names. Tokens are lower case.
    pub open spec fn named(token: Seq<char>) -> Option<BuildTrigger> {
        if token == "build"@ {
            Some(BuildTrigger::Build)
        } else if token == "webhook"@ {
            Some(BuildTrigger::Webhook)
        } else {
            None
        }
    }

    /// Reads a trigger from its token.
    pub fn from_str(s: &str) -> (parsed: Result<BuildTrigger, ()>)
        ensures
            parsed == match BuildTrigger::named(s@) {
                Some(value) => Ok::<BuildTrigger, ()>(value),
                None => Err(()),
            },
    {
        if same_text(s, "build") {
            Ok(BuildTrigger::Build)
        } else if same_text(s, "webhook") {
            Ok(BuildTrigger::Webhook)
        } else {
            Err(())
        }
    }
}

/// The trigger that a variable names, if it names one.
pub open spec fn trigger_in(vars: Variables, name: Seq<char>) -> Option<BuildTrigger> {
    match lookup(vars, name) {
        Some(token) => BuildTrigger::named(token),
        None => None,
    }
}

/// What Codefresh tells a build about itself.
#[derive(Clone, Debug)]
#[non_exhaustive]
pub struct Codefresh {
    /// Repository owner.
    pub repo_owner: String,
    /// Repository name.
    pub repo_name: String,
    /// Branch name of the Git repository of the main pipeline, at the time of execution.
    pub branch: String,
    /// Commit author.
    pub commit_author: String,
    /// Commit url.
    pub commit_url: String,
    /// Commit message of the git repository revision, at the time of execution.
    pub commit_message: String,
    /// Revision of the Git repository of the main pipeline, at the time of execution.
    pub revision: String,
    /// Abbreviated 7-character revision hash, as used in git.
    pub short_revision: String,
    /// Will refer to the volume that was generated for the specific flow.
    /// Can be used in conjunction with a composition to provide access to your cloned repository.
    pub volume_name: String,
    /// Will refer to the mounted path of the workflow volume inside a Freestyle container.
    pub volume_path: PathBuf,
    /// Will be an indication of the current build was triggered.
    pub build_trigger: BuildTrigger,
    /// The build id.
    pub build_id: String,
    /// The timestamp the build was created.
    pub build_timestamp: String,
    /// The URL to the build in Codefresh
    pub build_url: String,
    /// Path to kubeconfig if exist
    pub kubeconfig_path: Option<PathBuf>,
}

impl Codefresh {
    /// Every variable that Codefresh always sets is present and holds a value
    /// of its field's type. No pair of a variable and a value marks this
    /// vendor: it is known by these alone.
    pub open spec fn complete(vars: Variables) -> bool {
        &&& lookup(vars, "CF_REPO_OWNER"@) is Some
        &&& lookup(vars, "CF_REPO_NAME"@) is Some
        &&& lookup(vars, "CF_BRANCH"@) is Some
        &&& lookup(vars, "CF_COMMIT_AUTHOR"@) is Some
        &&& lookup(vars, "CF_COMMIT_URL"@) is Some
        &&& lookup(vars, "CF_COMMIT_MESSAGE"@) is Some
        &&& lookup(vars, "CF_REVISION"@) is Some
        &&& lookup(vars, "CF_SHORT_REVISION"@) is Some
        &&& lookup(vars, "CF_VOLUME_NAME"@) is Some
        &&& lookup(vars, "CF_VOLUME_PATH"@) is Some
        &&& trigger_in(vars, "CF_BUILD_TRIGGER"@) is Some
        &&& lookup(vars, "CF_BUILD_ID"@) is Some
        &&& lookup(vars, "CF_BUILD_TIMESTAMP"@) is Some
        &&& lookup(vars, "CF_BUILD_URL"@) is Some
    }

    /// Every field holds what its variable gives: a required field the value
    /// of its variable, an optional field that value or nothing.
    pub open spec fn reflects(&self, vars: Variables) -> bool {
        &&& Some(self.repo_owner@) == lookup(vars, "CF_REPO_OWNER"@)
        &&& Some(self.repo_name@) == lookup(vars, "CF_REPO_NAME"@)
        &&& Some(self.branch@) == lookup(vars, "CF_BRANCH"@)
        &&& Some(self.commit_author@) == lookup(vars, "CF_COMMIT_AUTHOR"@)
        &&& Some(self.commit_url@) == lookup(vars, "CF_COMMIT_URL"@)
        &&& Some(self.commit_message@) == lookup(vars, "CF_COMMIT_MESSAGE"@)
        &&& Some(self.revision@) == lookup(vars, "CF_REVISION"@)
        &&& Some(self.short_revision@) == lookup(vars, "CF_SHORT_REVISION"@)
        &&& Some(self.volume_name@) == lookup(vars, "CF_VOLUME_NAME"@)
        &&& Some(self.volume_path) == path_in(vars, "CF_VOLUME_PATH"@)
        &&& Some(self.build_trigger) == trigger_in(vars, "CF_BUILD_TRIGGER"@)
        &&& Some(self.build_id@) == lookup(vars, "CF_BUILD_ID"@)
        &&& Some(self.build_timestamp@) == lookup(vars, "CF_BUILD_TIMESTAMP"@)
        &&& Some(self.build_url@) == lookup(vars, "CF_BUILD_URL"@)
        &&& self.kubeconfig_path == path_in(vars, "CF_KUBECONFIG_PATH"@)
    }

    /// Construct this provider's information from the environment.
    ///
    /// The result is `None` unless the environment holds every variable that
    /// Codefresh always sets.
    pub fn from_env(env: &Environment) -> (found: Option<Codefresh>)
        ensures
            found is Some <==> Codefresh::complete(env@),
            found matches Some(it) ==> it.reflects(env@),
    {
        Some(
            Codefresh {
                repo_owner: env.lookup("CF_REPO_OWNER")?,
                repo_name: env.lookup("CF_REPO_NAME")?,
                branch: env.lookup("CF_BRANCH")?,
                commit_author: env.lookup("CF_COMMIT_AUTHOR")?,
                commit_url: env.lookup("CF_COMMIT_URL")?,
                commit_message: env.lookup("CF_COMMIT_MESSAGE")?,
                revision: env.lookup("CF_REVISION")?,
                short_revision: env.lookup("CF_SHORT_REVISION")?,
                volume_name: env.lookup("CF_VOLUME_NAME")?,
                volume_path: env.path("CF_VOLUME_PATH")?,
                build_trigger: trigger_named(env.lookup("CF_BUILD_TRIGGER"))?,
                build_id: env.lookup("CF_BUILD_ID")?,
                build_timestamp: env.lookup("CF_BUILD_TIMESTAMP")?,
                build_url: env.lookup("CF_BUILD_URL")?,
                kubeconfig_path: env.path("CF_KUBECONFIG_PATH"),
            },
        )
    }
}

/// The trigger that the text of a variable names.
fn trigger_named(text: Option<String>) -> (value: Option<BuildTrigger>)
    ensures
        value == match text {
            Some(token) => BuildTrigger::named(token@),
            None => None,
        },
{
    match text {
        Some(token) => match BuildTrigger::from_str(token.as_str()) {
            Ok(value) => Some(value),
            Err(_) => None,
        },
        None => None,
    }
}

} // verus!
