//! Appveyor CI.

use crate::descriptor::{
    gate_matches, DescriptorView, FieldSpec, FieldView, KindView, ValueKind, VendorDescriptor,
};
use crate::environment::{
    flag_in, lookup, number_in, path_in, text_of, u32_of, Environment, Variables,
};
use crate::record::{
    failure_of, lemma_complete_gives_required, FailureView, LazyRecord, MissingRequiredField,
    RecordView,
};
use crate::text::{first_index, lemma_first_index, lemma_truth_tokens, same_text, texts, truth_tokens};
use std::path::PathBuf;
use vstd::prelude::*;

verus! {

/// The service that hosts a repository.
#[derive(Copy, Clone, Debug, Eq, PartialEq, Hash, Structural)]
#[non_exhaustive]
pub enum RepoProvider {
    Github,
    BitBucket,
    Kiln,
    Vso,
    Gitlab,
}

impl RepoProvider {
    /// The tokens of the type, in the order of its variants.
    pub open spec fn tokens() -> Seq<Seq<char>> {
        seq!["github"@, "bitbucket"@, "kiln"@, "vso"@, "gitlab"@]
    }

    /// A token names a variant exactly when it is one of the tokens.
    pub proof fn lemma_tokens(token: Seq<char>)
        ensures
            RepoProvider::named(token) is Some <==> first_index(RepoProvider::tokens(), token) is Some,
    {
        lemma_first_index(RepoProvider::tokens(), token);
        assert(RepoProvider::tokens()[0] == "github"@);
        assert(RepoProvider::tokens()[1] == "bitbucket"@);
        assert(RepoProvider::tokens()[2] == "kiln"@);
        assert(RepoProvider::tokens()[3] == "vso"@);
        assert(RepoProvider::tokens()[4] == "gitlab"@);
    }

    /// The kind of a field of this type: one of its tokens.
    pub fn kind() -> (kind: ValueKind)
        ensures
            kind@ == KindView::Token(RepoProvider::tokens()),
    {
        let mut tokens: Vec<String> = Vec::new();
        tokens.push("github".to_owned());
        tokens.push("bitbucket".to_owned());
        tokens.push("kiln".to_owned());
        tokens.push("vso".to_owned());
        tokens.push("gitlab".to_owned());
        assert(texts(tokens@) =~= RepoProvider::tokens());
        ValueKind::Token(tokens)
    }

    /// The provider that a token names. Tokens are lower case.
    pub open spec fn named(token: Seq<char>) -> Option<RepoProvider> {
        if token == "github"@ {
            Some(RepoProvider::Github)
        } else if token == "bitbucket"@ {
            Some(RepoProvider::BitBucket)
        } else if token == "kiln"@ {
            Some(RepoProvider::Kiln)
        } else if token == "vso"@ {
            Some(RepoProvider::Vso)
        } else if token == "gitlab"@ {
            Some(RepoProvider::Gitlab)
        } else {
            None
        }
    }

    /// Reads a provider from its token.
    pub fn from_str(s: &str) -> (parsed: Result<RepoProvider, ()>)
        ensures
            parsed == match RepoProvider::named(s@) {
                Some(value) => Ok::<RepoProvider, ()>(value),
                None => Err(()),
            },
    {
        if same_text(s, "github") {
            Ok(RepoProvider::Github)
        } else if same_text(s, "bitbucket") {
            Ok(RepoProvider::BitBucket)
        } else if same_text(s, "kiln") {
            Ok(RepoProvider::Kiln)
        } else if same_text(s, "vso") {
            Ok(RepoProvider::Vso)
        } else if same_text(s, "gitlab") {
            Ok(RepoProvider::Gitlab)
        } else {
            Err(())
        }
    }
}

/// The provider that a variable names, if it names one.
pub open spec fn provider_in(vars: Variables, name: Seq<char>) -> Option<RepoProvider> {
    match lookup(vars, name) {
        Some(token) => RepoProvider::named(token),
        None => None,
    }
}

/// The version control system of a repository.
#[derive(Copy, Clone, Debug, Eq, PartialEq, Hash, Structural)]
#[non_exhaustive]
pub enum RepoSCM {
    Git,
    Mercurial,
}

impl RepoSCM {
    /// The tokens of the type, in the order of its variants.
    pub open spec fn tokens() -> Seq<Seq<char>> {
        seq!["git"@, "mercurial"@]
    }

    /// A token names a variant exactly when it is one of the tokens.
    pub proof fn lemma_tokens(token: Seq<char>)
        ensures
            RepoSCM::named(token) is Some <==> first_index(RepoSCM::tokens(), token) is Some,
    {
        lemma_first_index(RepoSCM::tokens(), token);
        assert(RepoSCM::tokens()[0] == "git"@);
        assert(RepoSCM::tokens()[1] == "mercurial"@);
    }

    /// The kind of a field of this type: one of its tokens.
    pub fn kind() -> (kind: ValueKind)
        ensures
            kind@ == KindView::Token(RepoSCM::tokens()),
    {
        let mut tokens: Vec<String> = Vec::new();
        tokens.push("git".to_owned());
        tokens.push("mercurial".to_owned());
        assert(texts(tokens@) =~= RepoSCM::tokens());
        ValueKind::Token(tokens)
    }

    /// The system that a token names. Tokens are lower case.
    pub open spec fn named(token: Seq<char>) -> Option<RepoSCM> {
        if token == "git"@ {
            Some(RepoSCM::Git)
        } else if token == "mercurial"@ {
            Some(RepoSCM::Mercurial)
        } else {
            None
        }
    }

    /// Reads a system from its token.
    pub fn from_str(s: &str) -> (parsed: Result<RepoSCM, ()>)
        ensures
            parsed == match RepoSCM::named(s@) {
                Some(value) => Ok::<RepoSCM, ()>(value),
                None => Err(()),
            },
    {
        if same_text(s, "git") {
            Ok(RepoSCM::Git)
        } else if same_text(s, "mercurial") {
            Ok(RepoSCM::Mercurial)
        } else {
            Err(())
        }
    }
}

/// The system that a variable names, if it names one.
pub open spec fn scm_in(vars: Variables, name: Seq<char>) -> Option<RepoSCM> {
    match lookup(vars, name) {
        Some(token) => RepoSCM::named(token),
        None => None,
    }
}

/// What Appveyor tells a build about itself.
#[derive(Clone, Debug)]
#[non_exhaustive]
pub struct Appveyor {
    /// The URL of the build worker's API.
    pub api_url: String,
    /// The name of the account.
    pub account_name: String,
    /// The id of the project.
    pub project_id: String,
    /// The name of the project.
    pub project_name: String,
    /// The slug of the project, as in its URL.
    pub project_slug: String,
    /// The directory that the repository was cloned to.
    pub build_folder: PathBuf,
    /// The id of the build.
    pub build_id: String,
    /// The number of the build.
    pub build_number: u32,
    /// The version of the build.
    pub build_version: String,
    /// The image of the build worker.
    pub build_worker_image: String,
    /// The number of the pull request, on a build of one.
    pub pull_request_number: Option<u32>,
    /// The title of the pull request, on a build of one.
    pub pull_request_title: Option<String>,
    /// The repository that the pull request comes from.
    pub pull_request_head_repo_name: Option<String>,
    /// The branch that the pull request comes from.
    pub pull_request_head_repo_branch: Option<String>,
    /// The head commit of the pull request.
    pub pull_request_head_commit: Option<String>,
    /// The id of the job.
    pub job_id: String,
    /// The name of the job.
    pub job_name: String,
    /// The number of the job.
    pub job_number: u32,
    /// The service that hosts the repository.
    pub repo_provider: RepoProvider,
    /// The version control system of the repository.
    pub repo_scm: RepoSCM,
    /// The name of the repository, as `owner/name`.
    pub repo_name: String,
    /// The branch that is built.
    pub repo_branch: String,
    /// Whether the build was started by a pushed tag.
    pub repo_tag: bool,
    /// The name of the tag, on a build started by one.
    pub repo_tag_name: Option<String>,
    /// The hash of the commit that is built.
    pub repo_commit: String,
    /// The author of the commit.
    pub repo_commit_author: String,
    /// The e-mail address of the author of the commit.
    pub repo_commit_author_email: String,
    /// The time of the commit.
    pub repo_commit_timestamp: String,
    /// The message of the commit.
    pub repo_commit_message: String,
    /// The rest of the message of the commit, after its first line.
    pub repo_commit_message_extended: String,
    /// Whether the build runs by schedule.
    pub scheduled_build: bool,
    /// Whether the build was started by hand.
    pub forced_build: bool,
    /// Whether the build repeats an earlier one.
    pub re_build: bool,
    /// The platform of the build.
    pub platform: String,
    /// The configuration of the build.
    pub configuration: String,
}

impl Appveyor {
    /// What an environment of Appveyor must hold: the pairs of its gate, and the
    /// fields that Appveyor always sets, in the order of their declaration. The
    /// optional fields are not listed: nothing fails for them.
    pub open spec fn requirements() -> DescriptorView {
        DescriptorView {
            gate: seq![("APPVEYOR"@, "True"@), ("CI"@, "True"@)],
            fields: seq![
                FieldView { name: "api_url"@, variable: "APPVEYOR_API_URL"@, kind: KindView::Text, required: true },
                FieldView { name: "account_name"@, variable: "APPVEYOR_ACCOUNT_NAME"@, kind: KindView::Text, required: true },
                FieldView { name: "project_id"@, variable: "APPVEYOR_PROJECT_ID"@, kind: KindView::Text, required: true },
                FieldView { name: "project_name"@, variable: "APPVEYOR_PROJECT_NAME"@, kind: KindView::Text, required: true },
                FieldView { name: "project_slug"@, variable: "APPVEYOR_PROJECT_SLUG"@, kind: KindView::Text, required: true },
                FieldView { name: "build_folder"@, variable: "APPVEYOR_BUILD_FOLDER"@, kind: KindView::Path, required: true },
                FieldView { name: "build_id"@, variable: "APPVEYOR_BUILD_ID"@, kind: KindView::Text, required: true },
                FieldView { name: "build_number"@, variable: "APPVEYOR_BUILD_NUMBER"@, kind: KindView::Unsigned, required: true },
                FieldView { name: "build_version"@, variable: "APPVEYOR_BUILD_VERSION"@, kind: KindView::Text, required: true },
                FieldView { name: "build_worker_image"@, variable: "APPVEYOR_BUILD_WORKER_IMAGE"@, kind: KindView::Text, required: true },
                FieldView { name: "job_id"@, variable: "APPVEYOR_JOB_ID"@, kind: KindView::Text, required: true },
                FieldView { name: "job_name"@, variable: "APPVEYOR_JOB_NAME"@, kind: KindView::Text, required: true },
                FieldView { name: "job_number"@, variable: "APPVEYOR_JOB_NUMBER"@, kind: KindView::Unsigned, required: true },
                FieldView { name: "repo_provider"@, variable: "APPVEYOR_REPO_PROVIDER"@, kind: KindView::Token(RepoProvider::tokens()), required: true },
                FieldView { name: "repo_scm"@, variable: "APPVEYOR_REPO_SCM"@, kind: KindView::Token(RepoSCM::tokens()), required: true },
                FieldView { name: "repo_name"@, variable: "APPVEYOR_REPO_NAME"@, kind: KindView::Text, required: true },
                FieldView { name: "repo_branch"@, variable: "APPVEYOR_REPO_BRANCH"@, kind: KindView::Text, required: true },
                FieldView { name: "repo_tag"@, variable: "APPVEYOR_REPO_TAG"@, kind: KindView::Token(truth_tokens()), required: true },
                FieldView { name: "repo_commit"@, variable: "APPVEYOR_REPO_COMMIT"@, kind: KindView::Text, required: true },
                FieldView { name: "repo_commit_author"@, variable: "APPVEYOR_REPO_COMMIT_AUTHOR"@, kind: KindView::Text, required: true },
                FieldView { name: "repo_commit_author_email"@, variable: "APPVEYOR_REPO_COMMIT_AUTHOR_EMAIL"@, kind: KindView::Text, required: true },
                FieldView { name: "repo_commit_timestamp"@, variable: "APPVEYOR_REPO_COMMIT_TIMESTAMP"@, kind: KindView::Text, required: true },
                FieldView { name: "repo_commit_message"@, variable: "APPVEYOR_REPO_COMMIT_MESSAGE"@, kind: KindView::Text, required: true },
                FieldView { name: "repo_commit_message_extended"@, variable: "APPVEYOR_REPO_COMMIT_MESSAGE_EXTENDED"@, kind: KindView::Text, required: true },
                FieldView { name: "platform"@, variable: "PLATFORM"@, kind: KindView::Text, required: true },
                FieldView { name: "configuration"@, variable: "CONFIGURATION"@, kind: KindView::Text, required: true },
            ],
        }
    }

    /// The environment is one of Appveyor: every pair of its gate holds.
    pub open spec fn gate(vars: Variables) -> bool {
        gate_matches(Appveyor::requirements().gate, vars)
    }

    /// Every variable that Appveyor always sets is present and holds a value of
    /// its field's type.
    pub open spec fn complete(vars: Variables) -> bool {
        RecordView::fresh(Appveyor::requirements()).first_failure(0, vars)
            == Appveyor::requirements().fields.len()
    }

    /// The failure of the first required field, in the order of declaration,
    /// that the environment gives no value.
    pub open spec fn failure(vars: Variables) -> FailureView {
        failure_of(
            Appveyor::requirements().fields[RecordView::fresh(Appveyor::requirements()).first_failure(0, vars)],
            vars,
        )
    }

    /// Every field holds what its variable gives: a required field the value
    /// of its variable, an optional field that value or nothing.
    pub open spec fn reflects(&self, vars: Variables) -> bool {
        &&& Some(self.api_url@) == lookup(vars, "APPVEYOR_API_URL"@)
        &&& Some(self.account_name@) == lookup(vars, "APPVEYOR_ACCOUNT_NAME"@)
        &&& Some(self.project_id@) == lookup(vars, "APPVEYOR_PROJECT_ID"@)
        &&& Some(self.project_name@) == lookup(vars, "APPVEYOR_PROJECT_NAME"@)
        &&& Some(self.project_slug@) == lookup(vars, "APPVEYOR_PROJECT_SLUG"@)
        &&& Some(self.build_folder) == path_in(vars, "APPVEYOR_BUILD_FOLDER"@)
        &&& Some(self.build_id@) == lookup(vars, "APPVEYOR_BUILD_ID"@)
        &&& Some(self.build_number as nat) == number_in(vars, "APPVEYOR_BUILD_NUMBER"@, u32::MAX as nat)
        &&& Some(self.build_version@) == lookup(vars, "APPVEYOR_BUILD_VERSION"@)
        &&& Some(self.build_worker_image@) == lookup(vars, "APPVEYOR_BUILD_WORKER_IMAGE"@)
        &&& u32_of(self.pull_request_number) == number_in(vars, "APPVEYOR_PULL_REQUEST_NUMBER"@, u32::MAX as nat)
        &&& text_of(self.pull_request_title) == lookup(vars, "APPVEYOR_PULL_REQUEST_TITLE"@)
        &&& text_of(self.pull_request_head_repo_name) == lookup(vars, "APPVEYOR_PULL_REQUEST_HEAD_REPO_NAME"@)
        &&& text_of(self.pull_request_head_repo_branch) == lookup(vars, "APPVEYOR_PULL_REQUEST_HEAD_REPO_BRANCH"@)
        &&& text_of(self.pull_request_head_commit) == lookup(vars, "APPVEYOR_PULL_REQUEST_HEAD_COMMIT"@)
        &&& Some(self.job_id@) == lookup(vars, "APPVEYOR_JOB_ID"@)
        &&& Some(self.job_name@) == lookup(vars, "APPVEYOR_JOB_NAME"@)
        &&& Some(self.job_number as nat) == number_in(vars, "APPVEYOR_JOB_NUMBER"@, u32::MAX as nat)
        &&& Some(self.repo_provider) == provider_in(vars, "APPVEYOR_REPO_PROVIDER"@)
        &&& Some(self.repo_scm) == scm_in(vars, "APPVEYOR_REPO_SCM"@)
        &&& Some(self.repo_name@) == lookup(vars, "APPVEYOR_REPO_NAME"@)
        &&& Some(self.repo_branch@) == lookup(vars, "APPVEYOR_REPO_BRANCH"@)
        &&& Some(self.repo_tag) == flag_in(vars, "APPVEYOR_REPO_TAG"@)
        &&& text_of(self.repo_tag_name) == lookup(vars, "APPVEYOR_REPO_TAG_NAME"@)
        &&& Some(self.repo_commit@) == lookup(vars, "APPVEYOR_REPO_COMMIT"@)
        &&& Some(self.repo_commit_author@) == lookup(vars, "APPVEYOR_REPO_COMMIT_AUTHOR"@)
        &&& Some(self.repo_commit_author_email@) == lookup(vars, "APPVEYOR_REPO_COMMIT_AUTHOR_EMAIL"@)
        &&& Some(self.repo_commit_timestamp@) == lookup(vars, "APPVEYOR_REPO_COMMIT_TIMESTAMP"@)
        &&& Some(self.repo_commit_message@) == lookup(vars, "APPVEYOR_REPO_COMMIT_MESSAGE"@)
        &&& Some(self.repo_commit_message_extended@) == lookup(vars, "APPVEYOR_REPO_COMMIT_MESSAGE_EXTENDED"@)
        &&& self.scheduled_build == lookup(vars, "APPVEYOR_SCHEDULED_BUILD"@) is Some
        &&& self.forced_build == lookup(vars, "APPVEYOR_FORCED_BUILD"@) is Some
        &&& self.re_build == lookup(vars, "APPVEYOR_RE_BUILD"@) is Some
        &&& Some(self.platform@) == lookup(vars, "PLATFORM"@)
        &&& Some(self.configuration@) == lookup(vars, "CONFIGURATION"@)
    }

    /// The descriptor of Appveyor: its gate and the fields that it always sets.
    pub fn descriptor() -> (descriptor: VendorDescriptor)
        ensures
            descriptor@ == Appveyor::requirements(),
    {
        let mut gate: Vec<(String, String)> = Vec::new();
        gate.push(("APPVEYOR".to_owned(), "True".to_owned()));
        gate.push(("CI".to_owned(), "True".to_owned()));
        let mut fields: Vec<FieldSpec> = Vec::new();
        fields.push(FieldSpec::required("api_url", "APPVEYOR_API_URL", ValueKind::Text));
        fields.push(FieldSpec::required("account_name", "APPVEYOR_ACCOUNT_NAME", ValueKind::Text));
        fields.push(FieldSpec::required("project_id", "APPVEYOR_PROJECT_ID", ValueKind::Text));
        fields.push(FieldSpec::required("project_name", "APPVEYOR_PROJECT_NAME", ValueKind::Text));
        fields.push(FieldSpec::required("project_slug", "APPVEYOR_PROJECT_SLUG", ValueKind::Text));
        fields.push(FieldSpec::required("build_folder", "APPVEYOR_BUILD_FOLDER", ValueKind::Path));
        fields.push(FieldSpec::required("build_id", "APPVEYOR_BUILD_ID", ValueKind::Text));
        fields.push(FieldSpec::required("build_number", "APPVEYOR_BUILD_NUMBER", ValueKind::Unsigned));
        fields.push(FieldSpec::required("build_version", "APPVEYOR_BUILD_VERSION", ValueKind::Text));
        fields.push(FieldSpec::required("build_worker_image", "APPVEYOR_BUILD_WORKER_IMAGE", ValueKind::Text));
        fields.push(FieldSpec::required("job_id", "APPVEYOR_JOB_ID", ValueKind::Text));
        fields.push(FieldSpec::required("job_name", "APPVEYOR_JOB_NAME", ValueKind::Text));
        fields.push(FieldSpec::required("job_number", "APPVEYOR_JOB_NUMBER", ValueKind::Unsigned));
        fields.push(FieldSpec::required("repo_provider", "APPVEYOR_REPO_PROVIDER", RepoProvider::kind()));
        fields.push(FieldSpec::required("repo_scm", "APPVEYOR_REPO_SCM", RepoSCM::kind()));
        fields.push(FieldSpec::required("repo_name", "APPVEYOR_REPO_NAME", ValueKind::Text));
        fields.push(FieldSpec::required("repo_branch", "APPVEYOR_REPO_BRANCH", ValueKind::Text));
        fields.push(FieldSpec::required("repo_tag", "APPVEYOR_REPO_TAG", ValueKind::truth()));
        fields.push(FieldSpec::required("repo_commit", "APPVEYOR_REPO_COMMIT", ValueKind::Text));
        fields.push(FieldSpec::required("repo_commit_author", "APPVEYOR_REPO_COMMIT_AUTHOR", ValueKind::Text));
        fields.push(FieldSpec::required("repo_commit_author_email", "APPVEYOR_REPO_COMMIT_AUTHOR_EMAIL", ValueKind::Text));
        fields.push(FieldSpec::required("repo_commit_timestamp", "APPVEYOR_REPO_COMMIT_TIMESTAMP", ValueKind::Text));
        fields.push(FieldSpec::required("repo_commit_message", "APPVEYOR_REPO_COMMIT_MESSAGE", ValueKind::Text));
        fields.push(FieldSpec::required("repo_commit_message_extended", "APPVEYOR_REPO_COMMIT_MESSAGE_EXTENDED", ValueKind::Text));
        fields.push(FieldSpec::required("platform", "PLATFORM", ValueKind::Text));
        fields.push(FieldSpec::required("configuration", "CONFIGURATION", ValueKind::Text));
        let descriptor = VendorDescriptor::new(gate, fields);
        assert(descriptor@.gate =~= Appveyor::requirements().gate);
        assert(descriptor@.fields =~= Appveyor::requirements().fields);
        descriptor
    }

    /// Construct this provider's information from the environment.
    ///
    /// The result is `Ok(None)` where the environment is not one of Appveyor.
    /// Where it is, every required field must resolve: the first that does
    /// not is an error, which names the field, its variable and what the
    /// variable held.
    pub fn from_env(env: &Environment) -> (found: Result<Option<Appveyor>, MissingRequiredField>)
        ensures
            !Appveyor::gate(env@) ==> found matches Ok(None),
            Appveyor::gate(env@) && Appveyor::complete(env@) ==> (found matches Ok(Some(it)) && it.reflects(
                env@,
            )),
            Appveyor::gate(env@) && !Appveyor::complete(env@) ==> (found matches Err(failure) && failure@
                == Appveyor::failure(env@)),
    {
        let mut record = match LazyRecord::lazy(Appveyor::descriptor(), env) {
            Some(record) => record,
            None => {
                return Ok(None);
            },
        };
        match record.load(env) {
            Ok(_) => {},
            Err(failure) => {
                return Err(failure);
            },
        }
        proof {
            lemma_complete_gives_required(Appveyor::requirements(), 0, env@);
            lemma_complete_gives_required(Appveyor::requirements(), 1, env@);
            lemma_complete_gives_required(Appveyor::requirements(), 2, env@);
            lemma_complete_gives_required(Appveyor::requirements(), 3, env@);
            lemma_complete_gives_required(Appveyor::requirements(), 4, env@);
            lemma_complete_gives_required(Appveyor::requirements(), 5, env@);
            lemma_complete_gives_required(Appveyor::requirements(), 6, env@);
            lemma_complete_gives_required(Appveyor::requirements(), 7, env@);
            lemma_complete_gives_required(Appveyor::requirements(), 8, env@);
            lemma_complete_gives_required(Appveyor::requirements(), 9, env@);
            lemma_complete_gives_required(Appveyor::requirements(), 10, env@);
            lemma_complete_gives_required(Appveyor::requirements(), 11, env@);
            lemma_complete_gives_required(Appveyor::requirements(), 12, env@);
            lemma_complete_gives_required(Appveyor::requirements(), 13, env@);
            RepoProvider::lemma_tokens(lookup(env@, "APPVEYOR_REPO_PROVIDER"@).unwrap());
            lemma_complete_gives_required(Appveyor::requirements(), 14, env@);
            RepoSCM::lemma_tokens(lookup(env@, "APPVEYOR_REPO_SCM"@).unwrap());
            lemma_complete_gives_required(Appveyor::requirements(), 15, env@);
            lemma_complete_gives_required(Appveyor::requirements(), 16, env@);
            lemma_complete_gives_required(Appveyor::requirements(), 17, env@);
            lemma_truth_tokens(lookup(env@, "APPVEYOR_REPO_TAG"@).unwrap());
            lemma_complete_gives_required(Appveyor::requirements(), 18, env@);
            lemma_complete_gives_required(Appveyor::requirements(), 19, env@);
            lemma_complete_gives_required(Appveyor::requirements(), 20, env@);
            lemma_complete_gives_required(Appveyor::requirements(), 21, env@);
            lemma_complete_gives_required(Appveyor::requirements(), 22, env@);
            lemma_complete_gives_required(Appveyor::requirements(), 23, env@);
            lemma_complete_gives_required(Appveyor::requirements(), 24, env@);
            lemma_complete_gives_required(Appveyor::requirements(), 25, env@);
        }
        Ok(
            Some(
                Appveyor {
                    api_url: env.lookup("APPVEYOR_API_URL").unwrap(),
                    account_name: env.lookup("APPVEYOR_ACCOUNT_NAME").unwrap(),
                    project_id: env.lookup("APPVEYOR_PROJECT_ID").unwrap(),
                    project_name: env.lookup("APPVEYOR_PROJECT_NAME").unwrap(),
                    project_slug: env.lookup("APPVEYOR_PROJECT_SLUG").unwrap(),
                    build_folder: env.path("APPVEYOR_BUILD_FOLDER").unwrap(),
                    build_id: env.lookup("APPVEYOR_BUILD_ID").unwrap(),
                    build_number: env.number("APPVEYOR_BUILD_NUMBER").unwrap(),
                    build_version: env.lookup("APPVEYOR_BUILD_VERSION").unwrap(),
                    build_worker_image: env.lookup("APPVEYOR_BUILD_WORKER_IMAGE").unwrap(),
                    pull_request_number: env.number("APPVEYOR_PULL_REQUEST_NUMBER"),
                    pull_request_title: env.lookup("APPVEYOR_PULL_REQUEST_TITLE"),
                    pull_request_head_repo_name: env.lookup("APPVEYOR_PULL_REQUEST_HEAD_REPO_NAME"),
                    pull_request_head_repo_branch: env.lookup("APPVEYOR_PULL_REQUEST_HEAD_REPO_BRANCH"),
                    pull_request_head_commit: env.lookup("APPVEYOR_PULL_REQUEST_HEAD_COMMIT"),
                    job_id: env.lookup("APPVEYOR_JOB_ID").unwrap(),
                    job_name: env.lookup("APPVEYOR_JOB_NAME").unwrap(),
                    job_number: env.number("APPVEYOR_JOB_NUMBER").unwrap(),
                    repo_provider: provider_named(env.lookup("APPVEYOR_REPO_PROVIDER")).unwrap(),
                    repo_scm: scm_named(env.lookup("APPVEYOR_REPO_SCM")).unwrap(),
                    repo_name: env.lookup("APPVEYOR_REPO_NAME").unwrap(),
                    repo_branch: env.lookup("APPVEYOR_REPO_BRANCH").unwrap(),
                    repo_tag: env.flag("APPVEYOR_REPO_TAG").unwrap(),
                    repo_tag_name: env.lookup("APPVEYOR_REPO_TAG_NAME"),
                    repo_commit: env.lookup("APPVEYOR_REPO_COMMIT").unwrap(),
                    repo_commit_author: env.lookup("APPVEYOR_REPO_COMMIT_AUTHOR").unwrap(),
                    repo_commit_author_email: env.lookup("APPVEYOR_REPO_COMMIT_AUTHOR_EMAIL").unwrap(),
                    repo_commit_timestamp: env.lookup("APPVEYOR_REPO_COMMIT_TIMESTAMP").unwrap(),
                    repo_commit_message: env.lookup("APPVEYOR_REPO_COMMIT_MESSAGE").unwrap(),
                    repo_commit_message_extended: env.lookup("APPVEYOR_REPO_COMMIT_MESSAGE_EXTENDED").unwrap(),
                    scheduled_build: env.lookup("APPVEYOR_SCHEDULED_BUILD").is_some(),
                    forced_build: env.lookup("APPVEYOR_FORCED_BUILD").is_some(),
                    re_build: env.lookup("APPVEYOR_RE_BUILD").is_some(),
                    platform: env.lookup("PLATFORM").unwrap(),
                    configuration: env.lookup("CONFIGURATION").unwrap(),
                },
            ),
        )
    }
}

/// The provider that the text of a variable names.
fn provider_named(text: Option<String>) -> (value: Option<RepoProvider>)
    ensures
        value == match text {
            Some(token) => RepoProvider::named(token@),
            None => None,
        },
{
    match text {
        Some(token) => match RepoProvider::from_str(token.as_str()) {
            Ok(value) => Some(value),
            Err(_) => None,
        },
        None => None,
    }
}

/// The system that the text of a variable names.
fn scm_named(text: Option<String>) -> (value: Option<RepoSCM>)
    ensures
        value == match text {
            Some(token) => RepoSCM::named(token@),
            None => None,
        },
{
    match text {
        Some(token) => match RepoSCM::from_str(token.as_str()) {
            Ok(value) => Some(value),
            Err(_) => None,
        },
        None => None,
    }
}

} // verus!
