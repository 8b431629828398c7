//! Codeship CI.

use crate::descriptor::{
    gate_matches, DescriptorView, FieldSpec, FieldView, KindView, ValueKind, VendorDescriptor,
};
use crate::environment::{lookup, Environment, Variables};
use crate::record::{
    failure_of, lemma_complete_gives_required, FailureView, LazyRecord, MissingRequiredField,
    RecordView,
};
use vstd::prelude::*;

verus! {

/// What Codeship tells a build about itself.
#[derive(Clone, Debug)]
#[non_exhaustive]
pub struct Codeship {
    /// The branch that is built.
    pub branch: String,
    /// The number of the build.
    pub build_number: String,
    /// The URL of the build.
    pub build_url: String,
    /// The e-mail address of the committer.
    pub committer_email: String,
    /// The name of the committer.
    pub committer_name: String,
    /// The user name of the committer.
    pub committer_username: String,
    /// The hash of the commit that is built.
    pub commit_id: String,
    /// The message of the commit that is built.
    pub message: String,
    /// The name of the repository.
    pub repo_name: String,
}

impl Codeship {
    /// What an environment of Codeship must hold: the pairs of its gate, and the
    /// fields that Codeship always sets, in the order of their declaration. The
    /// optional fields are not listed: nothing fails for them.
    pub open spec fn requirements() -> DescriptorView {
        DescriptorView {
            gate: seq![("CI"@, "true"@), ("CI_NAME"@, "codeship"@)],
            fields: seq![
                FieldView { name: "branch"@, variable: "CI_BRANCH"@, kind: KindView::Text, required: true },
                FieldView { name: "build_number"@, variable: "CI_BUILD_NUMBER"@, kind: KindView::Text, required: true },
                FieldView { name: "build_url"@, variable: "CI_BUILD_URL"@, kind: KindView::Text, required: true },
                FieldView { name: "committer_email"@, variable: "CI_COMMITTER_EMAIL"@, kind: KindView::Text, required: true },
                FieldView { name: "committer_name"@, variable: "CI_COMMITTER_NAME"@, kind: KindView::Text, required: true },
                FieldView { name: "committer_username"@, variable: "CI_COMMITTER_USERNAME"@, kind: KindView::Text, required: true },
                FieldView { name: "commit_id"@, variable: "CI_COMMIT_ID"@, kind: KindView::Text, required: true },
                FieldView { name: "message"@, variable: "CI_MESSAGE"@, kind: KindView::Text, required: true },
                FieldView { name: "repo_name"@, variable: "CI_REPO_NAME"@, kind: KindView::Text, required: true },
            ],
        }
    }

    /// The environment is one of Codeship: every pair of its gate holds.
    pub open spec fn gate(vars: Variables) -> bool {
        gate_matches(Codeship::requirements().gate, vars)
    }

    /// Every variable that Codeship always sets is present and holds a value of
    /// its field's type.
    pub open spec fn complete(vars: Variables) -> bool {
        RecordView::fresh(Codeship::requirements()).first_failure(0, vars)
            == Codeship::requirements().fields.len()
    }

    /// The failure of the first required field, in the order of declaration,
    /// that the environment gives no value.
    pub open spec fn failure(vars: Variables) -> FailureView {
        failure_of(
            Codeship::requirements().fields[RecordView::fresh(Codeship::requirements()).first_failure(0, vars)],
            vars,
        )
    }

    /// Every field holds what its variable gives: a required field the value
    /// of its variable, an optional field that value or nothing.
    pub open spec fn reflects(&self, vars: Variables) -> bool {
        &&& Some(self.branch@) == lookup(vars, "CI_BRANCH"@)
        &&& Some(self.build_number@) == lookup(vars, "CI_BUILD_NUMBER"@)
        &&& Some(self.build_url@) == lookup(vars, "CI_BUILD_URL"@)
        &&& Some(self.committer_email@) == lookup(vars, "CI_COMMITTER_EMAIL"@)
        &&& Some(self.committer_name@) == lookup(vars, "CI_COMMITTER_NAME"@)
        &&& Some(self.committer_username@) == lookup(vars, "CI_COMMITTER_USERNAME"@)
        &&& Some(self.commit_id@) == lookup(vars, "CI_COMMIT_ID"@)
        &&& Some(self.message@) == lookup(vars, "CI_MESSAGE"@)
        &&& Some(self.repo_name@) == lookup(vars, "CI_REPO_NAME"@)
    }

    /// The descriptor of Codeship: its gate and the fields that it always sets.
    pub fn descriptor() -> (descriptor: VendorDescriptor)
        ensures
            descriptor@ == Codeship::requirements(),
    {
        let mut gate: Vec<(String, String)> = Vec::new();
        gate.push(("CI".to_owned(), "true".to_owned()));
        gate.push(("CI_NAME".to_owned(), "codeship".to_owned()));
        let mut fields: Vec<FieldSpec> = Vec::new();
        fields.push(FieldSpec::required("branch", "CI_BRANCH", ValueKind::Text));
        fields.push(FieldSpec::required("build_number", "CI_BUILD_NUMBER", ValueKind::Text));
        fields.push(FieldSpec::required("build_url", "CI_BUILD_URL", ValueKind::Text));
        fields.push(FieldSpec::required("committer_email", "CI_COMMITTER_EMAIL", ValueKind::Text));
        fields.push(FieldSpec::required("committer_name", "CI_COMMITTER_NAME", ValueKind::Text));
        fields.push(FieldSpec::required("committer_username", "CI_COMMITTER_USERNAME", ValueKind::Text));
        fields.push(FieldSpec::required("commit_id", "CI_COMMIT_ID", ValueKind::Text));
        fields.push(FieldSpec::required("message", "CI_MESSAGE", ValueKind::Text));
        fields.push(FieldSpec::required("repo_name", "CI_REPO_NAME", ValueKind::Text));
        let descriptor = VendorDescriptor::new(gate, fields);
        assert(descriptor@.gate =~= Codeship::requirements().gate);
        assert(descriptor@.fields =~= Codeship::requirements().fields);
        descriptor
    }

    /// Construct this provider's information from the environment.
    ///
    /// The result is `Ok(None)` where the environment is not one of Codeship.
    /// Where it is, every required field must resolve: the first that does
    /// not is an error, which names the field, its variable and what the
    /// variable held.
    pub fn from_env(env: &Environment) -> (found: Result<Option<Codeship>, MissingRequiredField>)
        ensures
            !Codeship::gate(env@) ==> found matches Ok(None),
            Codeship::gate(env@) && Codeship::complete(env@) ==> (found matches Ok(Some(it)) && it.reflects(
                env@,
            )),
            Codeship::gate(env@) && !Codeship::complete(env@) ==> (found matches Err(failure) && failure@
                == Codeship::failure(env@)),
    {
        let mut record = match LazyRecord::lazy(Codeship::descriptor(), env) {
            Some(record) => record,
            None => {
                return Ok(None);
            },
        };
        match record.load(env) {
            Ok(_) => {},
            Err(failure) => {
                return Err(failure);
            },
        }
        proof {
            lemma_complete_gives_required(Codeship::requirements(), 0, env@);
            lemma_complete_gives_required(Codeship::requirements(), 1, env@);
            lemma_complete_gives_required(Codeship::requirements(), 2, env@);
            lemma_complete_gives_required(Codeship::requirements(), 3, env@);
            lemma_complete_gives_required(Codeship::requirements(), 4, env@);
            lemma_complete_gives_required(Codeship::requirements(), 5, env@);
            lemma_complete_gives_required(Codeship::requirements(), 6, env@);
            lemma_complete_gives_required(Codeship::requirements(), 7, env@);
            lemma_complete_gives_required(Codeship::requirements(), 8, env@);
        }
        Ok(
            Some(
                Codeship {
                    branch: env.lookup("CI_BRANCH").unwrap(),
                    build_number: env.lookup("CI_BUILD_NUMBER").unwrap(),
                    build_url: env.lookup("CI_BUILD_URL").unwrap(),
                    committer_email: env.lookup("CI_COMMITTER_EMAIL").unwrap(),
                    committer_name: env.lookup("CI_COMMITTER_NAME").unwrap(),
                    committer_username: env.lookup("CI_COMMITTER_USERNAME").unwrap(),
                    commit_id: env.lookup("CI_COMMIT_ID").unwrap(),
                    message: env.lookup("CI_MESSAGE").unwrap(),
                    repo_name: env.lookup("CI_REPO_NAME").unwrap(),
                },
            ),
        )
    }
}

} // verus!
