//! Travis CI.

use crate::descriptor::{
    gate_matches, DescriptorView, FieldSpec, FieldView, KindView, ValueKind, VendorDescriptor,
};
use crate::environment::{
    flag_in, lookup, lookup_unless, number_in, path_in, text_of, Environment, Variables,
};
use crate::record::{
    failure_of, lemma_complete_gives_required, FailureView, LazyRecord, MissingRequiredField,
    RecordView,
};
use crate::text::{first_index, lemma_first_index, lemma_truth_tokens, same_text, texts, truth_tokens};
use std::path::PathBuf;
use vstd::prelude::*;

verus! {

/// Indicates how the build was triggered.
#[derive(Copy, Clone, Debug, Eq, PartialEq, Hash, Structural)]
#[non_exhaustive]
pub enum EventType {
    Push,
    PullRequest,
    Api,
    Cron,
}

impl EventType {
    /// The tokens of the type, in the order of its variants.
    pub open spec fn tokens() -> Seq<Seq<char>> {
        seq!["push"@, "pull_request"@, "api"@, "cron"@]
    }

    /// A token names a variant exactly when it is one of the tokens.
    pub proof fn lemma_tokens(token: Seq<char>)
        ensures
            EventType::named(token) is Some <==> first_index(EventType::tokens(), token) is Some,
    {
        lemma_first_index(EventType::tokens(), token);
        assert(EventType::tokens()[0] == "push"@);
        assert(EventType::tokens()[1] == "pull_request"@);
        assert(EventType::tokens()[2] == "api"@);
        assert(EventType::tokens()[3] == "cron"@);
    }

    /// The kind of a field of this type: one of its tokens.
    pub fn kind() -> (kind: ValueKind)
        ensures
            kind@ == KindView::Token(EventType::tokens()),
    {
        let mut tokens: Vec<String> = Vec::new();
        tokens.push("push".to_owned());
        tokens.push("pull_request".to_owned());
        tokens.push("api".to_owned());
        tokens.push("cron".to_owned());
        assert(texts(tokens@) =~= EventType::tokens());
        ValueKind::Token(tokens)
    }

    /// The event that a token names. Tokens are lower case.
    pub open spec fn named(token: Seq<char>) -> Option<EventType> {
        if token == "push"@ {
            Some(EventType::Push)
        } else if token == "pull_request"@ {
            Some(EventType::PullRequest)
        } else if token == "api"@ {
            Some(EventType::Api)
        } else if token == "cron"@ {
            Some(EventType::Cron)
        } else {
            None
        }
    }

    /// Reads an event from its token.
    pub fn from_str(s: &str) -> (parsed: Result<EventType, ()>)
        ensures
            parsed == match EventType::named(s@) {
                Some(event) => Ok::<EventType, ()>(event),
                None => Err(()),
            },
    {
        if same_text(s, "push") {
            Ok(EventType::Push)
        } else if same_text(s, "pull_request") {
            Ok(EventType::PullRequest)
        } else if same_text(s, "api") {
            Ok(EventType::Api)
        } else if same_text(s, "cron") {
            Ok(EventType::Cron)
        } else {
            Err(())
        }
    }
}

/// On multi-OS builds, this value indicates the platform the job is running on.
#[derive(Copy, Clone, Debug, Eq, PartialEq, Hash, Structural)]
#[non_exhaustive]
pub enum OS {
    Linux,
    MacOS,
}

impl OS {
    /// The platform that a token names.
    pub open spec fn named(token: Seq<char>) -> Option<OS> {
        if token == "linux"@ {
            Some(OS::Linux)
        } else if token == "osx"@ {
            Some(OS::MacOS)
        } else {
            None
        }
    }

    /// Reads a platform from its token.
    pub fn from_str(s: &str) -> (parsed: Result<OS, ()>)
        ensures
            parsed == match OS::named(s@) {
                Some(os) => Ok::<OS, ()>(os),
                None => Err(()),
            },
    {
        if same_text(s, "linux") {
            Ok(OS::Linux)
        } else if same_text(s, "osx") {
            Ok(OS::MacOS)
        } else {
            Err(())
        }
    }
}

/// [`EventType`] by its long name, which says whose event it is.
pub type TravisEventType = EventType;

/// [`OS`] by its long name, which says whose platform it is.
pub type TravisOS = OS;

/// The event that a variable names, if it names one.
pub open spec fn event_in(vars: Variables, name: Seq<char>) -> Option<EventType> {
    match lookup(vars, name) {
        Some(token) => EventType::named(token),
        None => None,
    }
}

/// The platform that a variable names, if it names one.
pub open spec fn os_in(vars: Variables, name: Seq<char>) -> Option<OS> {
    match lookup(vars, name) {
        Some(token) => OS::named(token),
        None => None,
    }
}

/// What Travis CI tells a build about itself.
#[derive(Clone, Debug)]
#[non_exhaustive]
pub struct Travis {
    /// - set to `true` if the job is allowed to fail.
    /// - set to `false` if the job is not allowed to fail.
    pub allow_failure: bool,
    /// - for push builds, or builds not triggered by a pull request,
    ///   this is the name of the branch.
    /// - for builds triggered by a pull request
    ///   this is the name of the branch targeted by the pull request.
    /// - for builds triggered by a tag,
    ///   this is the same as the name of the tag (`TRAVIS_TAG`).
    pub branch: String,
    /// The absolute path to the directory where the repository
    /// being built has been copied on the worker.
    pub build_dir: PathBuf,
    /// The id of the current build that Travis CI uses internally.
    pub build_id: String,
    /// The number of the current build (for example, `4`).
    pub build_number: usize,
    /// The commit that the current build is testing.
    pub commit: String,
    /// The commit subject and body, unwrapped.
    pub commit_message: String,
    /// The range of commits that were included in the push or pull request.
    /// (Note that this is empty for builds triggered by the initial commit of a new branch.)
    pub commit_range: Option<String>,
    /// Indicates how the build was triggered.
    pub event_type: EventType,
    /// The id of the current job that Travis CI uses internally.
    pub job_id: String,
    /// The number of the current job (for example, `4.1`).
    pub job_number: String,
    /// On multi-OS builds, this value indicates the platform the job is running on.
    pub os: Option<OS>,
    /// The `osx_image` value configured in `.travis.yml`.
    /// If this is not set in `.travis.yml`, it is empty.
    pub osx_image: Option<String>,
    /// The pull request number if the current job is a pull request.
    pub pull_request: Option<String>,
    /// If the current job is a pull request, the name of the branch from which the PR originated.
    pub pull_request_branch: Option<String>,
    /// If the current job is a pull request, the commit SHA of the HEAD commit of the PR.
    pub pull_request_sha: Option<String>,
    /// If the current job is a pull request, the slug (in the form `owner_name/repo_name`)
    /// of the repository from which the PR originated.
    pub pull_request_slug: Option<String>,
    /// The slug (in form: `owner_name/repo_name`) of the repository currently being built.
    pub repo_slug: String,
    /// - set to `true` if there are any encrypted environment variables.
    /// - set to `false` if no encrypted environment variables are available.
    pub secure_env_vars: bool,
    /// `true` or `false` based on whether `sudo` is enabled.
    pub sudo: bool,
    /// If the current build is for a git tag, this variable is set to the tag's name.
    pub tag: Option<String>,
    /// The current version of dart being used to run the build (if any).
    pub dart_version: Option<String>,
    /// The current version of go being used to run the build (if any).
    pub go_version: Option<String>,
    /// The current version of haxe being used to run the build (if any).
    pub haxe_version: Option<String>,
    /// The current version of jdk being used to run the build (if any).
    pub jdk_version: Option<String>,
    /// The current version of julia being used to run the build (if any).
    pub julia_version: Option<String>,
    /// The current version of node being used to run the build (if any).
    pub node_version: Option<String>,
    /// The current version of otp being used to run the build (if any).
    pub otp_release: Option<String>,
    /// The current version of perl being used to run the build (if any).
    pub perl_version: Option<String>,
    /// The current version of php being used to run the build (if any).
    pub php_version: Option<String>,
    /// The current version of python being used to run the build (if any).
    pub python_version: Option<String>,
    /// The current version of r being used to run the build (if any).
    pub r_version: Option<String>,
    /// The current version of ruby being used to run the build (if any).
    pub ruby_version: Option<String>,
    /// The current version of rust being used to run the build (if any).
    pub rust_version: Option<String>,
    /// The current version of scala being used to run the build (if any).
    pub scala_version: Option<String>,
    /// The current XCode SDK being used to run the build (if any).
    pub xcode_sdk: Option<String>,
    /// The current XCode Scheme being used to run the build (if any).
    pub xcode_scheme: Option<String>,
    /// The current XCode Project being used to run the build (if any).
    pub xcode_project: Option<String>,
    /// The current XCode Workspace being used to run the build (if any).
    pub xcode_workspace: Option<String>,
}

impl Travis {
    /// What an environment of Travis CI must hold: the pairs of its gate, and the
    /// fields that Travis CI always sets, in the order of their declaration. The
    /// optional fields are not listed: nothing fails for them.
    pub open spec fn requirements() -> DescriptorView {
        DescriptorView {
            gate: seq![("CI"@, "true"@), ("TRAVIS"@, "true"@), ("CONTINUOUS_INTEGRATION"@, "true"@), ("DEBIAN_FRONTEND"@, "noninteractive"@), ("HAS_JOSH_K_SEAL_OF_APPROVAL"@, "true"@)],
            fields: seq![
                FieldView { name: "allow_failure"@, variable: "TRAVIS_ALLOW_FAILURE"@, kind: KindView::Token(truth_tokens()), required: true },
                FieldView { name: "branch"@, variable: "TRAVIS_BRANCH"@, kind: KindView::Text, required: true },
                FieldView { name: "build_dir"@, variable: "TRAVIS_BUILD_DIR"@, kind: KindView::Path, required: true },
                FieldView { name: "build_id"@, variable: "TRAVIS_BUILD_ID"@, kind: KindView::Text, required: true },
                FieldView { name: "build_number"@, variable: "TRAVIS_BUILD_NUMBER"@, kind: KindView::Size, required: true },
                FieldView { name: "commit"@, variable: "TRAVIS_COMMIT"@, kind: KindView::Text, required: true },
                FieldView { name: "commit_message"@, variable: "TRAVIS_COMMIT_MESSAGE"@, kind: KindView::Text, required: true },
                FieldView { name: "event_type"@, variable: "TRAVIS_EVENT_TYPE"@, kind: KindView::Token(EventType::tokens()), required: true },
                FieldView { name: "job_id"@, variable: "TRAVIS_JOB_ID"@, kind: KindView::Text, required: true },
                FieldView { name: "job_number"@, variable: "TRAVIS_JOB_NUMBER"@, kind: KindView::Text, required: true },
                FieldView { name: "repo_slug"@, variable: "TRAVIS_REPO_SLUG"@, kind: KindView::Text, required: true },
                FieldView { name: "secure_env_vars"@, variable: "TRAVIS_SECURE_ENV_VARS"@, kind: KindView::Token(truth_tokens()), required: true },
                FieldView { name: "sudo"@, variable: "TRAVIS_SUDO"@, kind: KindView::Token(truth_tokens()), required: true },
            ],
        }
    }

    /// The environment is one of Travis CI: every pair of its gate holds.
    pub open spec fn gate(vars: Variables) -> bool {
        gate_matches(Travis::requirements().gate, vars)
    }

    /// Every variable that Travis CI always sets is present and holds a value of
    /// its field's type.
    pub open spec fn complete(vars: Variables) -> bool {
        RecordView::fresh(Travis::requirements()).first_failure(0, vars)
            == Travis::requirements().fields.len()
    }

    /// The failure of the first required field, in the order of declaration,
    /// that the environment gives no value.
    pub open spec fn failure(vars: Variables) -> FailureView {
        failure_of(
            Travis::requirements().fields[RecordView::fresh(Travis::requirements()).first_failure(0, vars)],
            vars,
        )
    }

    /// Every field holds what its variable gives: a required field the value
    /// of its variable, an optional field that value or nothing.
    pub open spec fn reflects(&self, vars: Variables) -> bool {
        &&& Some(self.allow_failure) == flag_in(vars, "TRAVIS_ALLOW_FAILURE"@)
        &&& Some(self.branch@) == lookup(vars, "TRAVIS_BRANCH"@)
        &&& Some(self.build_dir) == path_in(vars, "TRAVIS_BUILD_DIR"@)
        &&& Some(self.build_id@) == lookup(vars, "TRAVIS_BUILD_ID"@)
        &&& Some(self.build_number as nat) == number_in(vars, "TRAVIS_BUILD_NUMBER"@, usize::MAX as nat)
        &&& Some(self.commit@) == lookup(vars, "TRAVIS_COMMIT"@)
        &&& Some(self.commit_message@) == lookup(vars, "TRAVIS_COMMIT_MESSAGE"@)
        &&& text_of(self.commit_range) == lookup(vars, "TRAVIS_COMMIT_RANGE"@)
        &&& Some(self.event_type) == event_in(vars, "TRAVIS_EVENT_TYPE"@)
        &&& Some(self.job_id@) == lookup(vars, "TRAVIS_JOB_ID"@)
        &&& Some(self.job_number@) == lookup(vars, "TRAVIS_JOB_NUMBER"@)
        &&& self.os == os_in(vars, "TRAVIS_OS_NAME"@)
        &&& text_of(self.osx_image) == lookup(vars, "TRAVIS_OSX_IMAGE"@)
        &&& text_of(self.pull_request) == lookup_unless(vars, "TRAVIS_PULL_REQUEST"@, "false"@)
        &&& text_of(self.pull_request_branch) == lookup(vars, "TRAVIS_PULL_REQUEST_BRANCH"@)
        &&& text_of(self.pull_request_sha) == lookup(vars, "TRAVIS_PULL_REQUEST_SHA"@)
        &&& text_of(self.pull_request_slug) == lookup(vars, "TRAVIS_PULL_REQUEST_SLUG"@)
        &&& Some(self.repo_slug@) == lookup(vars, "TRAVIS_REPO_SLUG"@)
        &&& Some(self.secure_env_vars) == flag_in(vars, "TRAVIS_SECURE_ENV_VARS"@)
        &&& Some(self.sudo) == flag_in(vars, "TRAVIS_SUDO"@)
        &&& text_of(self.tag) == lookup(vars, "TRAVIS_TAG"@)
        &&& text_of(self.dart_version) == lookup(vars, "TRAVIS_DART_VERSION"@)
        &&& text_of(self.go_version) == lookup(vars, "TRAVIS_GO_VERSION"@)
        &&& text_of(self.haxe_version) == lookup(vars, "TRAVIS_HAXE_VERSION"@)
        &&& text_of(self.jdk_version) == lookup(vars, "TRAVIS_JDK_VERSION"@)
        &&& text_of(self.julia_version) == lookup(vars, "TRAVIS_JULIA_VERSION"@)
        &&& text_of(self.node_version) == lookup(vars, "TRAVIS_NODE_VERSION"@)
        &&& text_of(self.otp_release) == lookup(vars, "TRAVIS_OTP_RELEASE"@)
        &&& text_of(self.perl_version) == lookup(vars, "TRAVIS_PERL_VERSION"@)
        &&& text_of(self.php_version) == lookup(vars, "TRAVIS_PHP_VERSION"@)
        &&& text_of(self.python_version) == lookup(vars, "TRAVIS_PYTHON_VERSION"@)
        &&& text_of(self.r_version) == lookup(vars, "TRAVIS_R_VERSION"@)
        &&& text_of(self.ruby_version) == lookup(vars, "TRAVIS_RUBY_VERSION"@)
        &&& text_of(self.rust_version) == lookup(vars, "TRAVIS_RUST_VERSION"@)
        &&& text_of(self.scala_version) == lookup(vars, "TRAVIS_SCALA_VERSION"@)
        &&& text_of(self.xcode_sdk) == lookup(vars, "TRAVIS_XCODE_SDK"@)
        &&& text_of(self.xcode_scheme) == lookup(vars, "TRAVIS_XCODE_SCHEME"@)
        &&& text_of(self.xcode_project) == lookup(vars, "TRAVIS_XCODE_PROJECT"@)
        &&& text_of(self.xcode_workspace) == lookup(vars, "TRAVIS_XCODE_WORKSPACE"@)
    }

    /// The descriptor of Travis CI: its gate and the fields that it always sets.
    pub fn descriptor() -> (descriptor: VendorDescriptor)
        ensures
            descriptor@ == Travis::requirements(),
    {
        let mut gate: Vec<(String, String)> = Vec::new();
        gate.push(("CI".to_owned(), "true".to_owned()));
        gate.push(("TRAVIS".to_owned(), "true".to_owned()));
        gate.push(("CONTINUOUS_INTEGRATION".to_owned(), "true".to_owned()));
        gate.push(("DEBIAN_FRONTEND".to_owned(), "noninteractive".to_owned()));
        gate.push(("HAS_JOSH_K_SEAL_OF_APPROVAL".to_owned(), "true".to_owned()));
        let mut fields: Vec<FieldSpec> = Vec::new();
        fields.push(FieldSpec::required("allow_failure", "TRAVIS_ALLOW_FAILURE", ValueKind::truth()));
        fields.push(FieldSpec::required("branch", "TRAVIS_BRANCH", ValueKind::Text));
        fields.push(FieldSpec::required("build_dir", "TRAVIS_BUILD_DIR", ValueKind::Path));
        fields.push(FieldSpec::required("build_id", "TRAVIS_BUILD_ID", ValueKind::Text));
        fields.push(FieldSpec::required("build_number", "TRAVIS_BUILD_NUMBER", ValueKind::Size));
        fields.push(FieldSpec::required("commit", "TRAVIS_COMMIT", ValueKind::Text));
        fields.push(FieldSpec::required("commit_message", "TRAVIS_COMMIT_MESSAGE", ValueKind::Text));
        fields.push(FieldSpec::required("event_type", "TRAVIS_EVENT_TYPE", EventType::kind()));
        fields.push(FieldSpec::required("job_id", "TRAVIS_JOB_ID", ValueKind::Text));
        fields.push(FieldSpec::required("job_number", "TRAVIS_JOB_NUMBER", ValueKind::Text));
        fields.push(FieldSpec::required("repo_slug", "TRAVIS_REPO_SLUG", ValueKind::Text));
        fields.push(FieldSpec::required("secure_env_vars", "TRAVIS_SECURE_ENV_VARS", ValueKind::truth()));
        fields.push(FieldSpec::required("sudo", "TRAVIS_SUDO", ValueKind::truth()));
        let descriptor = VendorDescriptor::new(gate, fields);
        assert(descriptor@.gate =~= Travis::requirements().gate);
        assert(descriptor@.fields =~= Travis::requirements().fields);
        descriptor
    }

    /// Construct this provider's information from the environment.
    ///
    /// The result is `Ok(None)` where the environment is not one of Travis CI.
    /// Where it is, every required field must resolve: the first that does
    /// not is an error, which names the field, its variable and what the
    /// variable held.
    pub fn from_env(env: &Environment) -> (found: Result<Option<Travis>, MissingRequiredField>)
        ensures
            !Travis::gate(env@) ==> found matches Ok(None),
            Travis::gate(env@) && Travis::complete(env@) ==> (found matches Ok(Some(it)) && it.reflects(
                env@,
            )),
            Travis::gate(env@) && !Travis::complete(env@) ==> (found matches Err(failure) && failure@
                == Travis::failure(env@)),
    {
        let mut record = match LazyRecord::lazy(Travis::descriptor(), env) {
            Some(record) => record,
            None => {
                return Ok(None);
            },
        };
        match record.load(env) {
            Ok(_) => {},
            Err(failure) => {
                return Err(failure);
            },
        }
        proof {
            lemma_complete_gives_required(Travis::requirements(), 0, env@);
            lemma_truth_tokens(lookup(env@, "TRAVIS_ALLOW_FAILURE"@).unwrap());
            lemma_complete_gives_required(Travis::requirements(), 1, env@);
            lemma_complete_gives_required(Travis::requirements(), 2, env@);
            lemma_complete_gives_required(Travis::requirements(), 3, env@);
            lemma_complete_gives_required(Travis::requirements(), 4, env@);
            lemma_complete_gives_required(Travis::requirements(), 5, env@);
            lemma_complete_gives_required(Travis::requirements(), 6, env@);
            lemma_complete_gives_required(Travis::requirements(), 7, env@);
            EventType::lemma_tokens(lookup(env@, "TRAVIS_EVENT_TYPE"@).unwrap());
            lemma_complete_gives_required(Travis::requirements(), 8, env@);
            lemma_complete_gives_required(Travis::requirements(), 9, env@);
            lemma_complete_gives_required(Travis::requirements(), 10, env@);
            lemma_complete_gives_required(Travis::requirements(), 11, env@);
            lemma_truth_tokens(lookup(env@, "TRAVIS_SECURE_ENV_VARS"@).unwrap());
            lemma_complete_gives_required(Travis::requirements(), 12, env@);
            lemma_truth_tokens(lookup(env@, "TRAVIS_SUDO"@).unwrap());
        }
        Ok(
            Some(
                Travis {
                    allow_failure: env.flag("TRAVIS_ALLOW_FAILURE").unwrap(),
                    branch: env.lookup("TRAVIS_BRANCH").unwrap(),
                    build_dir: env.path("TRAVIS_BUILD_DIR").unwrap(),
                    build_id: env.lookup("TRAVIS_BUILD_ID").unwrap(),
                    build_number: env.size("TRAVIS_BUILD_NUMBER").unwrap(),
                    commit: env.lookup("TRAVIS_COMMIT").unwrap(),
                    commit_message: env.lookup("TRAVIS_COMMIT_MESSAGE").unwrap(),
                    commit_range: env.lookup("TRAVIS_COMMIT_RANGE"),
                    event_type: event_named(env.lookup("TRAVIS_EVENT_TYPE")).unwrap(),
                    job_id: env.lookup("TRAVIS_JOB_ID").unwrap(),
                    job_number: env.lookup("TRAVIS_JOB_NUMBER").unwrap(),
                    os: os_named(env.lookup("TRAVIS_OS_NAME")),
                    osx_image: env.lookup("TRAVIS_OSX_IMAGE"),
                    pull_request: env.lookup_unless("TRAVIS_PULL_REQUEST", "false"),
                    pull_request_branch: env.lookup("TRAVIS_PULL_REQUEST_BRANCH"),
                    pull_request_sha: env.lookup("TRAVIS_PULL_REQUEST_SHA"),
                    pull_request_slug: env.lookup("TRAVIS_PULL_REQUEST_SLUG"),
                    repo_slug: env.lookup("TRAVIS_REPO_SLUG").unwrap(),
                    secure_env_vars: env.flag("TRAVIS_SECURE_ENV_VARS").unwrap(),
                    sudo: env.flag("TRAVIS_SUDO").unwrap(),
                    tag: env.lookup("TRAVIS_TAG"),
                    dart_version: env.lookup("TRAVIS_DART_VERSION"),
                    go_version: env.lookup("TRAVIS_GO_VERSION"),
                    haxe_version: env.lookup("TRAVIS_HAXE_VERSION"),
                    jdk_version: env.lookup("TRAVIS_JDK_VERSION"),
                    julia_version: env.lookup("TRAVIS_JULIA_VERSION"),
                    node_version: env.lookup("TRAVIS_NODE_VERSION"),
                    otp_release: env.lookup("TRAVIS_OTP_RELEASE"),
                    perl_version: env.lookup("TRAVIS_PERL_VERSION"),
                    php_version: env.lookup("TRAVIS_PHP_VERSION"),
                    python_version: env.lookup("TRAVIS_PYTHON_VERSION"),
                    r_version: env.lookup("TRAVIS_R_VERSION"),
                    ruby_version: env.lookup("TRAVIS_RUBY_VERSION"),
                    rust_version: env.lookup("TRAVIS_RUST_VERSION"),
                    scala_version: env.lookup("TRAVIS_SCALA_VERSION"),
                    xcode_sdk: env.lookup("TRAVIS_XCODE_SDK"),
                    xcode_scheme: env.lookup("TRAVIS_XCODE_SCHEME"),
                    xcode_project: env.lookup("TRAVIS_XCODE_PROJECT"),
                    xcode_workspace: env.lookup("TRAVIS_XCODE_WORKSPACE"),
                },
            ),
        )
    }
}

/// The event that the text of a variable names.
fn event_named(text: Option<String>) -> (event: Option<EventType>)
    ensures
        event == match text {
            Some(token) => EventType::named(token@),
            None => None,
        },
{
    match text {
        Some(token) => match EventType::from_str(token.as_str()) {
            Ok(event) => Some(event),
            Err(_) => None,
        },
        None => None,
    }
}

/// The platform that the text of a variable names.
fn os_named(text: Option<String>) -> (os: Option<OS>)
    ensures
        os == match text {
            Some(token) => OS::named(token@),
            None => None,
        },
{
    match text {
        Some(token) => match OS::from_str(token.as_str()) {
            Ok(os) => Some(os),
            Err(_) => None,
        },
        None => None,
    }
}

} // verus!
