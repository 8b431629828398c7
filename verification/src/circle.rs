//! Circle CI.

use crate::descriptor::{
    gate_matches, DescriptorView, FieldSpec, FieldView, KindView, ValueKind, VendorDescriptor,
};
use crate::environment::Environment;
use crate::record::{
    failure_of, LazyRecord, MissingRequiredField, RecordView, ResolutionView, ValueView,
};
use std::path::PathBuf;
use vstd::prelude::*;

verus! {

/// What Circle CI tells a build about itself. Each field is read from the
/// environment when it is first asked for and kept from then on.
#[derive(Debug)]
pub struct Circle {
    record: LazyRecord,
}

impl View for Circle {
    type V = RecordView;

    closed spec fn view(&self) -> RecordView {
        self.record@
    }
}

impl Clone for Circle {
    fn clone(&self) -> (copy: Circle)
        ensures
            copy@ == self@,
    {
        Circle { record: self.record.clone() }
    }
}

impl Circle {
    /// Circle CI as a table: its gate and its fields.
    pub open spec fn table() -> DescriptorView {
        DescriptorView {
            gate: seq![("CI"@, "true"@), ("CIRCLECI"@, "true"@)],
            fields: seq![
                FieldView { name: "home"@, variable: "HOME"@, kind: KindView::Path, required: false },
                FieldView { name: "branch"@, variable: "CIRCLE_BRANCH"@, kind: KindView::Text, required: false },
                FieldView { name: "node_total"@, variable: "CIRCLE_NODE_TOTAL"@, kind: KindView::Unsigned, required: false },
                FieldView { name: "node_index"@, variable: "CIRCLE_NODE_INDEX"@, kind: KindView::Unsigned, required: false },
                FieldView { name: "build_num"@, variable: "CIRCLE_BUILD_NUM"@, kind: KindView::Unsigned, required: true },
                FieldView { name: "previous_build_num"@, variable: "CIRCLE_PREVIOUS_BUILD_NUM"@, kind: KindView::Unsigned, required: false },
                FieldView { name: "build_url"@, variable: "CIRCLE_BUILD_URL"@, kind: KindView::Text, required: false },
                FieldView { name: "sha1"@, variable: "CIRCLE_SHA1"@, kind: KindView::Text, required: false },
                FieldView { name: "username"@, variable: "CIRCLE_USERNAME"@, kind: KindView::Text, required: false },
                FieldView { name: "job"@, variable: "CIRCLE_JOB"@, kind: KindView::Text, required: false },
                FieldView { name: "working_directory"@, variable: "CIRCLE_WORKING_DIRECTORY"@, kind: KindView::Path, required: false },
                FieldView { name: "compare_url"@, variable: "CIRCLE_COMPARE_URL"@, kind: KindView::Text, required: false },
                FieldView { name: "repository_url"@, variable: "CIRCLE_REPOSITORY_URL"@, kind: KindView::Text, required: false },
                FieldView { name: "pr_number"@, variable: "CIRCLE_PR_NUMBER"@, kind: KindView::Unsigned, required: false },
                FieldView { name: "pr_reponame"@, variable: "CIRCLE_PR_REPONAME"@, kind: KindView::Text, required: false },
                FieldView { name: "pr_username"@, variable: "CIRCLE_PR_USERNAME"@, kind: KindView::Text, required: false },
                FieldView { name: "pull_requests"@, variable: "CIRCLE_PULL_REQUESTS"@, kind: KindView::Text, required: false },
                FieldView { name: "pull_request"@, variable: "CIRCLE_PULL_REQUEST"@, kind: KindView::Text, required: false },
                FieldView { name: "tag"@, variable: "CIRCLE_TAG"@, kind: KindView::Text, required: false },
                FieldView { name: "project_username"@, variable: "CIRCLE_PROJECT_USERNAME"@, kind: KindView::Text, required: true },
                FieldView { name: "project_reponame"@, variable: "CIRCLE_PROJECT_REPONAME"@, kind: KindView::Text, required: false },
                FieldView { name: "internal_task_data"@, variable: "CIRCLE_INTERNAL_TASK_DATA"@, kind: KindView::Path, required: false },
                FieldView { name: "stage"@, variable: "CIRCLE_STAGE"@, kind: KindView::Text, required: false },
            ],
        }
    }

    /// The record is one of Circle CI, and well formed.
    pub open spec fn well_formed(&self) -> bool {
        &&& self@.descriptor == Circle::table()
        &&& self@.well_formed()
    }

    /// The descriptor of Circle CI.
    pub fn descriptor() -> (descriptor: VendorDescriptor)
        ensures
            descriptor@ == Circle::table(),
    {
        let mut gate: Vec<(String, String)> = Vec::new();
        gate.push(("CI".to_owned(), "true".to_owned()));
        gate.push(("CIRCLECI".to_owned(), "true".to_owned()));
        let mut fields: Vec<FieldSpec> = Vec::new();
        fields.push(FieldSpec::optional("home", "HOME", ValueKind::Path));
        fields.push(FieldSpec::optional("branch", "CIRCLE_BRANCH", ValueKind::Text));
        fields.push(FieldSpec::optional("node_total", "CIRCLE_NODE_TOTAL", ValueKind::Unsigned));
        fields.push(FieldSpec::optional("node_index", "CIRCLE_NODE_INDEX", ValueKind::Unsigned));
        fields.push(FieldSpec::required("build_num", "CIRCLE_BUILD_NUM", ValueKind::Unsigned));
        fields.push(FieldSpec::optional("previous_build_num", "CIRCLE_PREVIOUS_BUILD_NUM", ValueKind::Unsigned));
        fields.push(FieldSpec::optional("build_url", "CIRCLE_BUILD_URL", ValueKind::Text));
        fields.push(FieldSpec::optional("sha1", "CIRCLE_SHA1", ValueKind::Text));
        fields.push(FieldSpec::optional("username", "CIRCLE_USERNAME", ValueKind::Text));
        fields.push(FieldSpec::optional("job", "CIRCLE_JOB", ValueKind::Text));
        fields.push(FieldSpec::optional("working_directory", "CIRCLE_WORKING_DIRECTORY", ValueKind::Path));
        fields.push(FieldSpec::optional("compare_url", "CIRCLE_COMPARE_URL", ValueKind::Text));
        fields.push(FieldSpec::optional("repository_url", "CIRCLE_REPOSITORY_URL", ValueKind::Text));
        fields.push(FieldSpec::optional("pr_number", "CIRCLE_PR_NUMBER", ValueKind::Unsigned));
        fields.push(FieldSpec::optional("pr_reponame", "CIRCLE_PR_REPONAME", ValueKind::Text));
        fields.push(FieldSpec::optional("pr_username", "CIRCLE_PR_USERNAME", ValueKind::Text));
        fields.push(FieldSpec::optional("pull_requests", "CIRCLE_PULL_REQUESTS", ValueKind::Text));
        fields.push(FieldSpec::optional("pull_request", "CIRCLE_PULL_REQUEST", ValueKind::Text));
        fields.push(FieldSpec::optional("tag", "CIRCLE_TAG", ValueKind::Text));
        fields.push(FieldSpec::required("project_username", "CIRCLE_PROJECT_USERNAME", ValueKind::Text));
        fields.push(FieldSpec::optional("project_reponame", "CIRCLE_PROJECT_REPONAME", ValueKind::Text));
        fields.push(FieldSpec::optional("internal_task_data", "CIRCLE_INTERNAL_TASK_DATA", ValueKind::Path));
        fields.push(FieldSpec::optional("stage", "CIRCLE_STAGE", ValueKind::Text));
        let descriptor = VendorDescriptor::new(gate, fields);
        assert(descriptor@.gate =~= Circle::table().gate);
        assert(descriptor@.fields =~= Circle::table().fields);
        descriptor
    }

    /// Construct a lazy instance of this CI's configuration.
    ///
    /// Returns `None` if the environment doesn't look like the CI's: the
    /// pairs of its gate, `CI=true` and `CIRCLECI=true`, are checked here,
    /// and no field is read.
    pub fn lazy(env: &Environment) -> (circle: Option<Circle>)
        ensures
            circle is Some <==> gate_matches(Circle::table().gate, env@),
            circle matches Some(c) ==> c@ == RecordView::fresh(Circle::table()) && c.well_formed(),
    {
        match LazyRecord::lazy(Circle::descriptor(), env) {
            Some(record) => Some(Circle { record }),
            None => None,
        }
    }

    /// Reads every field that was not read yet, in the order of the table.
    /// The first required field that does not resolve ends the load with
    /// its error.
    pub fn load(&mut self, env: &Environment) -> (loaded: Result<(), MissingRequiredField>)
        requires
            old(self).well_formed(),
        ensures
            final(self).well_formed(),
            final(self)@ == old(self)@.loaded(old(self)@.first_failure(0, env@), env@),
            match loaded {
                Ok(_) => old(self)@.first_failure(0, env@) == old(self)@.slots.len(),
                Err(failure) => {
                    let at = old(self)@.first_failure(0, env@);
                    &&& 0 <= at < old(self)@.slots.len()
                    &&& failure@ == failure_of(old(self)@.descriptor.fields[at], env@)
                },
            },
    {
        self.record.load(env)
    }

    /// Construct an instance of this CI's configuration and load it eagerly.
    ///
    /// The result is `Ok(None)` if the environment doesn't look like the
    /// CI's, and an error if it does and a required field does not resolve.
    pub fn eager(env: &Environment) -> (circle: Result<Option<Circle>, MissingRequiredField>)
        ensures
            !gate_matches(Circle::table().gate, env@) ==> circle matches Ok(None),
            gate_matches(Circle::table().gate, env@) ==> {
                let fresh = RecordView::fresh(Circle::table());
                let at = fresh.first_failure(0, env@);
                if at == fresh.slots.len() {
                    circle matches Ok(Some(c)) && c@ == fresh.loaded(at, env@) && c.well_formed()
                } else {
                    circle matches Err(failure) && failure@ == failure_of(
                        Circle::table().fields[at],
                        env@,
                    )
                }
            },
    {
        match Circle::lazy(env) {
            None => Ok(None),
            Some(mut circle) => match circle.load(env) {
                Ok(_) => Ok(Some(circle)),
                Err(failure) => Err(failure),
            },
        }
    }

    /// The record behind the typed fields.
    pub fn record(&self) -> (record: &LazyRecord)
        ensures
            record@ == self@,
    {
        &self.record
    }

    /// Wraps a record of Circle CI.
    pub fn from_record(record: LazyRecord) -> (circle: Circle)
        requires
            record@.descriptor == Circle::table(),
            record@.well_formed(),
        ensures
            circle@ == record@,
            circle.well_formed(),
    {
        Circle { record }
    }

    /// Your home directory.
    pub fn home(&mut self, env: &Environment) -> (field: Option<PathBuf>)
        requires
            old(self).well_formed(),
        ensures
            final(self).well_formed(),
            final(self)@ == old(self)@.after(0, env@),
            match field {
                Some(value) => old(self)@.outcome(0, env@) == ResolutionView::Value(ValueView::Path(value)),
                None => old(self)@.outcome(0, env@) == ResolutionView::Missing,
            },
    {
        self.record.optional_path(0, env)
    }

    /// The name of the Git branch currently being built.
    pub fn branch(&mut self, env: &Environment) -> (field: Option<String>)
        requires
            old(self).well_formed(),
        ensures
            final(self).well_formed(),
            final(self)@ == old(self)@.after(1, env@),
            match field {
                Some(value) => old(self)@.outcome(1, env@) == ResolutionView::Value(ValueView::Text(value@)),
                None => old(self)@.outcome(1, env@) == ResolutionView::Missing,
            },
    {
        self.record.optional_text(1, env)
    }

    /// An integer representing the number of total build instances.
    pub fn node_total(&mut self, env: &Environment) -> (field: Option<u32>)
        requires
            old(self).well_formed(),
        ensures
            final(self).well_formed(),
            final(self)@ == old(self)@.after(2, env@),
            match field {
                Some(value) => old(self)@.outcome(2, env@) == ResolutionView::Value(ValueView::Unsigned(value as nat)),
                None => old(self)@.outcome(2, env@) == ResolutionView::Missing,
            },
    {
        self.record.optional_unsigned(2, env)
    }

    /// An integer between 0 and (`node_total` - 1) representing a specific build instance.
    pub fn node_index(&mut self, env: &Environment) -> (field: Option<u32>)
        requires
            old(self).well_formed(),
        ensures
            final(self).well_formed(),
            final(self)@ == old(self)@.after(3, env@),
            match field {
                Some(value) => old(self)@.outcome(3, env@) == ResolutionView::Value(ValueView::Unsigned(value as nat)),
                None => old(self)@.outcome(3, env@) == ResolutionView::Missing,
            },
    {
        self.record.optional_unsigned(3, env)
    }

    /// The CircleCI build number.
    pub fn build_num(&mut self, env: &Environment) -> (field: Result<u32, MissingRequiredField>)
        requires
            old(self).well_formed(),
        ensures
            final(self).well_formed(),
            final(self)@ == old(self)@.after(4, env@),
            match field {
                Ok(value) => old(self)@.outcome(4, env@) == ResolutionView::Value(ValueView::Unsigned(value as nat)),
                Err(failure) => old(self)@.outcome(4, env@) == ResolutionView::Fatal(failure@),
            },
    {
        self.record.required_unsigned(4, env)
    }

    /// The number of previous builds in the branch.
    pub fn previous_build_num(&mut self, env: &Environment) -> (field: Option<u32>)
        requires
            old(self).well_formed(),
        ensures
            final(self).well_formed(),
            final(self)@ == old(self)@.after(5, env@),
            match field {
                Some(value) => old(self)@.outcome(5, env@) == ResolutionView::Value(ValueView::Unsigned(value as nat)),
                None => old(self)@.outcome(5, env@) == ResolutionView::Missing,
            },
    {
        self.record.optional_unsigned(5, env)
    }

    /// The URL for the current build.
    pub fn build_url(&mut self, env: &Environment) -> (field: Option<String>)
        requires
            old(self).well_formed(),
        ensures
            final(self).well_formed(),
            final(self)@ == old(self)@.after(6, env@),
            match field {
                Some(value) => old(self)@.outcome(6, env@) == ResolutionView::Value(ValueView::Text(value@)),
                None => old(self)@.outcome(6, env@) == ResolutionView::Missing,
            },
    {
        self.record.optional_text(6, env)
    }

    /// The SHA1 hash for the current build's last commit.
    pub fn sha1(&mut self, env: &Environment) -> (field: Option<String>)
        requires
            old(self).well_formed(),
        ensures
            final(self).well_formed(),
            final(self)@ == old(self)@.after(7, env@),
            match field {
                Some(value) => old(self)@.outcome(7, env@) == ResolutionView::Value(ValueView::Text(value@)),
                None => old(self)@.outcome(7, env@) == ResolutionView::Missing,
            },
    {
        self.record.optional_text(7, env)
    }

    /// The GitHub/Bitbucket username of the user who triggered the build.
    pub fn username(&mut self, env: &Environment) -> (field: Option<String>)
        requires
            old(self).well_formed(),
        ensures
            final(self).well_formed(),
            final(self)@ == old(self)@.after(8, env@),
            match field {
                Some(value) => old(self)@.outcome(8, env@) == ResolutionView::Value(ValueView::Text(value@)),
                None => old(self)@.outcome(8, env@) == ResolutionView::Missing,
            },
    {
        self.record.optional_text(8, env)
    }

    /// The current job's name.
    pub fn job(&mut self, env: &Environment) -> (field: Option<String>)
        requires
            old(self).well_formed(),
        ensures
            final(self).well_formed(),
            final(self)@ == old(self)@.after(9, env@),
            match field {
                Some(value) => old(self)@.outcome(9, env@) == ResolutionView::Value(ValueView::Text(value@)),
                None => old(self)@.outcome(9, env@) == ResolutionView::Missing,
            },
    {
        self.record.optional_text(9, env)
    }

    /// The `working_directory` for the current job.
    pub fn working_directory(&mut self, env: &Environment) -> (field: Option<PathBuf>)
        requires
            old(self).well_formed(),
        ensures
            final(self).well_formed(),
            final(self)@ == old(self)@.after(10, env@),
            match field {
                Some(value) => old(self)@.outcome(10, env@) == ResolutionView::Value(ValueView::Path(value)),
                None => old(self)@.outcome(10, env@) == ResolutionView::Missing,
            },
    {
        self.record.optional_path(10, env)
    }

    /// The GitHub/Bitbucket compare URL between commits in the build.
    pub fn compare_url(&mut self, env: &Environment) -> (field: Option<String>)
        requires
            old(self).well_formed(),
        ensures
            final(self).well_formed(),
            final(self)@ == old(self)@.after(11, env@),
            match field {
                Some(value) => old(self)@.outcome(11, env@) == ResolutionView::Value(ValueView::Text(value@)),
                None => old(self)@.outcome(11, env@) == ResolutionView::Missing,
            },
    {
        self.record.optional_text(11, env)
    }

    /// The GitHub/Bitbucket repository URL.
    pub fn repository_url(&mut self, env: &Environment) -> (field: Option<String>)
        requires
            old(self).well_formed(),
        ensures
            final(self).well_formed(),
            final(self)@ == old(self)@.after(12, env@),
            match field {
                Some(value) => old(self)@.outcome(12, env@) == ResolutionView::Value(ValueView::Text(value@)),
                None => old(self)@.outcome(12, env@) == ResolutionView::Missing,
            },
    {
        self.record.optional_text(12, env)
    }

    /// The GitHub/Bitbucket pull request number.
    pub fn pr_number(&mut self, env: &Environment) -> (field: Option<u32>)
        requires
            old(self).well_formed(),
        ensures
            final(self).well_formed(),
            final(self)@ == old(self)@.after(13, env@),
            match field {
                Some(value) => old(self)@.outcome(13, env@) == ResolutionView::Value(ValueView::Unsigned(value as nat)),
                None => old(self)@.outcome(13, env@) == ResolutionView::Missing,
            },
    {
        self.record.optional_unsigned(13, env)
    }

    /// The GitHub/Bitbucket repository name in which the pull request was made.
    pub fn pr_reponame(&mut self, env: &Environment) -> (field: Option<String>)
        requires
            old(self).well_formed(),
        ensures
            final(self).well_formed(),
            final(self)@ == old(self)@.after(14, env@),
            match field {
                Some(value) => old(self)@.outcome(14, env@) == ResolutionView::Value(ValueView::Text(value@)),
                None => old(self)@.outcome(14, env@) == ResolutionView::Missing,
            },
    {
        self.record.optional_text(14, env)
    }

    /// The GitHub/Bitbucket username of the user who created the pull request.
    pub fn pr_username(&mut self, env: &Environment) -> (field: Option<String>)
        requires
            old(self).well_formed(),
        ensures
            final(self).well_formed(),
            final(self)@ == old(self)@.after(15, env@),
            match field {
                Some(value) => old(self)@.outcome(15, env@) == ResolutionView::Value(ValueView::Text(value@)),
                None => old(self)@.outcome(15, env@) == ResolutionView::Missing,
            },
    {
        self.record.optional_text(15, env)
    }

    /// Comma-separated list of URLs of pull requests this build is a part of.
    pub fn pull_requests(&mut self, env: &Environment) -> (field: Option<String>)
        requires
            old(self).well_formed(),
        ensures
            final(self).well_formed(),
            final(self)@ == old(self)@.after(16, env@),
            match field {
                Some(value) => old(self)@.outcome(16, env@) == ResolutionView::Value(ValueView::Text(value@)),
                None => old(self)@.outcome(16, env@) == ResolutionView::Missing,
            },
    {
        self.record.optional_text(16, env)
    }

    /// If this build is part of only one pull request, its URL will be populated here.
    /// If there was more than one pull request,
    /// it will contain one of the pull request URLs (picked randomly).
    pub fn pull_request(&mut self, env: &Environment) -> (field: Option<String>)
        requires
            old(self).well_formed(),
        ensures
            final(self).well_formed(),
            final(self)@ == old(self)@.after(17, env@),
            match field {
                Some(value) => old(self)@.outcome(17, env@) == ResolutionView::Value(ValueView::Text(value@)),
                None => old(self)@.outcome(17, env@) == ResolutionView::Missing,
            },
    {
        self.record.optional_text(17, env)
    }

    /// The name of the git tag being tested, e.g. 'release-v1.5.4', if the build is running for a tag.
    pub fn tag(&mut self, env: &Environment) -> (field: Option<String>)
        requires
            old(self).well_formed(),
        ensures
            final(self).well_formed(),
            final(self)@ == old(self)@.after(18, env@),
            match field {
                Some(value) => old(self)@.outcome(18, env@) == ResolutionView::Value(ValueView::Text(value@)),
                None => old(self)@.outcome(18, env@) == ResolutionView::Missing,
            },
    {
        self.record.optional_text(18, env)
    }

    /// The username or organization name of the project being tested,
    /// i.e. "foo" in circleci.com/gh/foo/bar/123.
    pub fn project_username(&mut self, env: &Environment) -> (field: Result<String, MissingRequiredField>)
        requires
            old(self).well_formed(),
        ensures
            final(self).well_formed(),
            final(self)@ == old(self)@.after(19, env@),
            match field {
                Ok(value) => old(self)@.outcome(19, env@) == ResolutionView::Value(ValueView::Text(value@)),
                Err(failure) => old(self)@.outcome(19, env@) == ResolutionView::Fatal(failure@),
            },
    {
        self.record.required_text(19, env)
    }

    /// The repository name of the project being tested,
    /// i.e. "bar" in circleci.com/gh/foo/bar/123.
    pub fn project_reponame(&mut self, env: &Environment) -> (field: Option<String>)
        requires
            old(self).well_formed(),
        ensures
            final(self).well_formed(),
            final(self)@ == old(self)@.after(20, env@),
            match field {
                Some(value) => old(self)@.outcome(20, env@) == ResolutionView::Value(ValueView::Text(value@)),
                None => old(self)@.outcome(20, env@) == ResolutionView::Missing,
            },
    {
        self.record.optional_text(20, env)
    }

    /// The directory where test timing data can be found.
    pub fn internal_task_data(&mut self, env: &Environment) -> (field: Option<PathBuf>)
        requires
            old(self).well_formed(),
        ensures
            final(self).well_formed(),
            final(self)@ == old(self)@.after(21, env@),
            match field {
                Some(value) => old(self)@.outcome(21, env@) == ResolutionView::Value(ValueView::Path(value)),
                None => old(self)@.outcome(21, env@) == ResolutionView::Missing,
            },
    {
        self.record.optional_path(21, env)
    }

    /// The job being executed. The default 2.0 job is `build` without using Workflows.
    pub fn stage(&mut self, env: &Environment) -> (field: Option<String>)
        requires
            old(self).well_formed(),
        ensures
            final(self).well_formed(),
            final(self)@ == old(self)@.after(22, env@),
            match field {
                Some(value) => old(self)@.outcome(22, env@) == ResolutionView::Value(ValueView::Text(value@)),
                None => old(self)@.outcome(22, env@) == ResolutionView::Missing,
            },
    {
        self.record.optional_text(22, env)
    }
}

} // verus!
