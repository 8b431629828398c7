//! Jenkins CI.

use crate::environment::{lookup, number_in, path_in, text_of, Environment, Variables};
use std::path::PathBuf;
use vstd::prelude::*;

verus! {

/// What Jenkins tells a build about itself.
#[derive(Clone, Debug)]
#[non_exhaustive]
pub struct Jenkins {
    /// The current build number, such as `153`
    pub build_number: usize,
    /// The current build id, such as `2005-08-22_23-59-59`
    /// (`YYYY-MM-DD_hh-mm-ss`, defunct since version 1.597)
    pub build_id: String,
    /// The URL where the results of this build can be found
    /// (e.g. `http://buildserver/jenkins/job/MyJobName/666/`)
    pub build_url: String,
    /// The name of the node the current build is running on. Equals `master` for master node.
    pub node_name: String,
    /// Name of the project of this build.
    /// This is the name you gave your job when you first set it up.
    /// It's the third column of the Jenkins Dashboard main page.
    pub job_name: String,
    /// String of `jenkins-${JOB_NAME}-${BUILD_NUMBER}`.
    /// Convenient to put into a resource file, a jar file, etc for easier identification.
    pub build_tag: String,
    /// Set to the URL of the Jenkins master that's running the build.
    pub jenkins_url: String,
    /// The unique number that identifies the current executor (among executors of the same machine)
    /// that's carrying out this build. This is the number you see in the "build executor status",
    /// except that the number starts from 0, not 1.
    pub executor_number: String,
    /// The absolute path of the workspace.
    pub workspace: PathBuf,
    /// For Subversion-based projects, this variable contains the revision number of the module.
    /// If you have more than one module specified, this won't be set.
    pub svn_revision: Option<String>,
    /// For CVS-based projects, this variable contains the branch of the module.
    /// If CVS is configured to check out the trunk, this environment variable will not be set.
    pub cvs_branch: Option<String>,
    /// For Git-based projects, this variable contains the Git hash of the commit
    /// checked out for the build (like `ce9a3c1404e8c91be604088670e93434c4253f03`)
    /// (all the `git_*` variables require git plugin)
    pub git_commit: Option<String>,
    /// For Git-based projects, this variable contains the Git url
    /// (like `git@github.com:user/repo.git` or `[https://github.com/user/repo.git]`)
    pub git_url: Option<String>,
    /// For Git-based projects, this variable contains the Git branch
    /// that was checked out for the build (normally `origin/master`)
    pub git_branch: Option<String>,
    /// Jenkins GitHub pull request builder plugin settings
    pub ghprb: Option<GHPRB>,
}

impl Jenkins {
    /// Every variable that Jenkins always sets is present and holds a value
    /// of its field's type. No pair of a variable and a value marks this
    /// vendor: it is known by these alone.
    pub open spec fn complete(vars: Variables) -> bool {
        &&& number_in(vars, "BUILD_NUMBER"@, usize::MAX as nat) is Some
        &&& lookup(vars, "BUILD_ID"@) is Some
        &&& lookup(vars, "BUILD_URL"@) is Some
        &&& lookup(vars, "NODE_NAME"@) is Some
        &&& lookup(vars, "JOB_NAME"@) is Some
        &&& lookup(vars, "BUILD_TAG"@) is Some
        &&& lookup(vars, "JENKINS_URL"@) is Some
        &&& lookup(vars, "EXECUTOR_NUMBER"@) is Some
        &&& lookup(vars, "WORKSPACE"@) is Some
    }

    /// Every field holds what its variable gives: a required field the value
    /// of its variable, an optional field that value or nothing. The settings
    /// of the pull request builder are there if and only if all of them are.
    pub open spec fn reflects(&self, vars: Variables) -> bool {
        &&& Some(self.build_number as nat) == number_in(vars, "BUILD_NUMBER"@, usize::MAX as nat)
        &&& Some(self.build_id@) == lookup(vars, "BUILD_ID"@)
        &&& Some(self.build_url@) == lookup(vars, "BUILD_URL"@)
        &&& Some(self.node_name@) == lookup(vars, "NODE_NAME"@)
        &&& Some(self.job_name@) == lookup(vars, "JOB_NAME"@)
        &&& Some(self.build_tag@) == lookup(vars, "BUILD_TAG"@)
        &&& Some(self.jenkins_url@) == lookup(vars, "JENKINS_URL"@)
        &&& Some(self.executor_number@) == lookup(vars, "EXECUTOR_NUMBER"@)
        &&& Some(self.workspace) == path_in(vars, "WORKSPACE"@)
        &&& text_of(self.svn_revision) == lookup(vars, "SVN_REVISION"@)
        &&& text_of(self.cvs_branch) == lookup(vars, "CVS_BRANCH"@)
        &&& text_of(self.git_commit) == lookup(vars, "GIT_COMMIT"@)
        &&& text_of(self.git_url) == lookup(vars, "GIT_URL"@)
        &&& text_of(self.git_branch) == lookup(vars, "GIT_BRANCH"@)
        &&& (self.ghprb is Some <==> GHPRB::complete(vars))
        &&& (self.ghprb matches Some(it) ==> it.reflects(vars))
    }

    /// Construct this provider's information from the environment.
    ///
    /// The result is `None` unless the environment holds every variable that
    /// Jenkins always sets.
    pub fn from_env(env: &Environment) -> (found: Option<Jenkins>)
        ensures
            found is Some <==> Jenkins::complete(env@),
            found matches Some(it) ==> it.reflects(env@),
    {
        Some(
            Jenkins {
                build_number: env.size("BUILD_NUMBER")?,
                build_id: env.lookup("BUILD_ID")?,
                build_url: env.lookup("BUILD_URL")?,
                node_name: env.lookup("NODE_NAME")?,
                job_name: env.lookup("JOB_NAME")?,
                build_tag: env.lookup("BUILD_TAG")?,
                jenkins_url: env.lookup("JENKINS_URL")?,
                executor_number: env.lookup("EXECUTOR_NUMBER")?,
                workspace: env.path("WORKSPACE")?,
                svn_revision: env.lookup("SVN_REVISION"),
                cvs_branch: env.lookup("CVS_BRANCH"),
                git_commit: env.lookup("GIT_COMMIT"),
                git_url: env.lookup("GIT_URL"),
                git_branch: env.lookup("GIT_BRANCH"),
                ghprb: GHPRB::from_env(env),
            },
        )
    }
}

/// What the GitHub pull request builder plugin of Jenkins tells a build.
#[derive(Clone, Debug)]
#[non_exhaustive]
pub struct GHPRB {
    /// The commit of the pull request that is built.
    pub actual_commit: String,
    /// The author of that commit.
    pub actual_commit_author: String,
    /// The e-mail address of the author of that commit.
    pub actual_commit_author_email: String,
    /// The description of the pull request.
    pub pull_description: String,
    /// The number of the pull request.
    pub pull_id: String,
    /// The URL of the pull request.
    pub pull_link: String,
    /// The title of the pull request.
    pub pull_title: String,
    /// The branch that the pull request comes from.
    pub source_branch: String,
    /// The branch that the pull request goes to.
    pub target_branch: String,
    /// The comment that started the build.
    pub comment_body: String,
    /// The commit or the merge reference that is checked out.
    pub sha1: String,
}

impl GHPRB {
    /// Every variable that the plugin sets is present.
    pub open spec fn complete(vars: Variables) -> bool {
        &&& lookup(vars, "ghprbActualCommit"@) is Some
        &&& lookup(vars, "ghprbActualCommitAuthor"@) is Some
        &&& lookup(vars, "ghprbActualCommitAuthorEmail"@) is Some
        &&& lookup(vars, "ghprbPullDescription"@) is Some
        &&& lookup(vars, "ghprbPullId"@) is Some
        &&& lookup(vars, "ghprbPullLink"@) is Some
        &&& lookup(vars, "ghprbPullTitle"@) is Some
        &&& lookup(vars, "ghprbSourceBranch"@) is Some
        &&& lookup(vars, "ghprbTargetBranch"@) is Some
        &&& lookup(vars, "ghprbCommentBody"@) is Some
        &&& lookup(vars, "sha1"@) is Some
    }

    /// Every field holds the value of its variable, which is present.
    pub open spec fn reflects(&self, vars: Variables) -> bool {
        &&& Some(self.actual_commit@) == lookup(vars, "ghprbActualCommit"@)
        &&& Some(self.actual_commit_author@) == lookup(vars, "ghprbActualCommitAuthor"@)
        &&& Some(self.actual_commit_author_email@) == lookup(vars, "ghprbActualCommitAuthorEmail"@)
        &&& Some(self.pull_description@) == lookup(vars, "ghprbPullDescription"@)
        &&& Some(self.pull_id@) == lookup(vars, "ghprbPullId"@)
        &&& Some(self.pull_link@) == lookup(vars, "ghprbPullLink"@)
        &&& Some(self.pull_title@) == lookup(vars, "ghprbPullTitle"@)
        &&& Some(self.source_branch@) == lookup(vars, "ghprbSourceBranch"@)
        &&& Some(self.target_branch@) == lookup(vars, "ghprbTargetBranch"@)
        &&& Some(self.comment_body@) == lookup(vars, "ghprbCommentBody"@)
        &&& Some(self.sha1@) == lookup(vars, "sha1"@)
    }

    /// Construct this provider's information from the environment.
    ///
    /// The result is `None` unless the environment holds every variable that
    /// the plugin sets.
    pub fn from_env(env: &Environment) -> (found: Option<GHPRB>)
        ensures
            found is Some <==> GHPRB::complete(env@),
            found matches Some(it) ==> it.reflects(env@),
    {
        Some(
            GHPRB {
                actual_commit: env.lookup("ghprbActualCommit")?,
                actual_commit_author: env.lookup("ghprbActualCommitAuthor")?,
                actual_commit_author_email: env.lookup("ghprbActualCommitAuthorEmail")?,
                pull_description: env.lookup("ghprbPullDescription")?,
                pull_id: env.lookup("ghprbPullId")?,
                pull_link: env.lookup("ghprbPullLink")?,
                pull_title: env.lookup("ghprbPullTitle")?,
                source_branch: env.lookup("ghprbSourceBranch")?,
                target_branch: env.lookup("ghprbTargetBranch")?,
                comment_body: env.lookup("ghprbCommentBody")?,
                sha1: env.lookup("sha1")?,
            },
        )
    }
}

/// [`GHPRB`] by its long name, which says whose plugin it is.
pub type JenkinsGHPRB = GHPRB;

} // verus!
