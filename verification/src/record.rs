//! Lazy records: one slot for each field of a vendor, filled from the
//! environment when the field is first asked for and kept from then on.

use crate::descriptor::{
    gate_matches, names, position, DescriptorView, FieldView, KindView, ValueKind,
    VendorDescriptor,
};
use crate::environment::{lookup, text_of, Environment, Variables};
use crate::path::{path_of, to_path};
use crate::text::{
    bounded_value, find_text, first_index, lemma_first_index, parse_u32, parse_usize, texts,
};
use std::path::PathBuf;
use vstd::prelude::*;
use vstd::string::StringExecFns;

verus! {

/// The value of a field.
#[derive(Debug, PartialEq, Eq)]
pub enum Value {
    /// A text, as it stands in the variable.
    Text(String),
    /// A number of 32 bits.
    Unsigned(u32),
    /// A number of the machine's word size.
    Size(usize),
    /// A file-system path.
    Path(PathBuf),
    /// A token, by its position in the list of tokens of the field's kind.
    Token(usize),
}

/// The model of a [`Value`].
pub enum ValueView {
    Text(Seq<char>),
    Unsigned(nat),
    Size(nat),
    Path(PathBuf),
    Token(nat),
}

impl View for Value {
    type V = ValueView;

    open spec fn view(&self) -> ValueView {
        match self {
            Value::Text(text) => ValueView::Text(text@),
            Value::Unsigned(number) => ValueView::Unsigned(*number as nat),
            Value::Size(number) => ValueView::Size(*number as nat),
            Value::Path(path) => ValueView::Path(*path),
            Value::Token(index) => ValueView::Token(*index as nat),
        }
    }
}

impl Clone for Value {
    fn clone(&self) -> (copy: Value)
        ensures
            copy@ == self@,
    {
        match self {
            Value::Text(text) => Value::Text(text.clone()),
            Value::Unsigned(number) => Value::Unsigned(*number),
            Value::Size(number) => Value::Size(*number),
            Value::Path(path) => Value::Path(path.clone()),
            Value::Token(index) => Value::Token(*index),
        }
    }
}

/// The model of an optional value.
pub open spec fn value_of(value: Option<Value>) -> Option<ValueView> {
    match value {
        Some(v) => Some(v@),
        None => None,
    }
}

/// The value that a text has as a value of the given kind, if it has one.
/// Any text is a text and a path; a number must be an unsigned base-10
/// integer that fits 32 bits or the machine's word, as the kind says; a
/// token must stand in the kind's list of tokens, and its value is the
/// first position at which it stands.
pub open spec fn parse_value(kind: KindView, text: Seq<char>) -> Option<ValueView> {
    match kind {
        KindView::Text => Some(ValueView::Text(text)),
        KindView::Unsigned => match bounded_value(text, u32::MAX as nat) {
            Some(n) => Some(ValueView::Unsigned(n)),
            None => None,
        },
        KindView::Size => match bounded_value(text, usize::MAX as nat) {
            Some(n) => Some(ValueView::Size(n)),
            None => None,
        },
        KindView::Path => Some(ValueView::Path(path_of(text))),
        KindView::Token(tokens) => match first_index(tokens, text) {
            Some(i) => Some(ValueView::Token(i as nat)),
            None => None,
        },
    }
}

/// The value that the environment gives a field: that of the text of its
/// variable, if the variable is present and its text has one.
pub open spec fn field_value(field: FieldView, vars: Variables) -> Option<ValueView> {
    match lookup(vars, field.variable) {
        Some(text) => parse_value(field.kind, text),
        None => None,
    }
}

/// A value is one of the given kind.
pub open spec fn value_fits(value: ValueView, kind: KindView) -> bool {
    match value {
        ValueView::Text(_) => kind is Text,
        ValueView::Unsigned(n) => kind is Unsigned && n <= u32::MAX,
        ValueView::Size(n) => kind is Size && n <= usize::MAX,
        ValueView::Path(_) => kind is Path,
        ValueView::Token(i) => kind matches KindView::Token(tokens) && i < tokens.len(),
    }
}

/// Parses the text of a variable as a value of the given kind.
pub fn parse(kind: &ValueKind, text: &str) -> (value: Option<Value>)
    ensures
        value_of(value) == parse_value(kind@, text@),
        value matches Some(v) ==> value_fits(v@, kind@),
{
    match kind {
        ValueKind::Text => Some(Value::Text(text.to_owned())),
        ValueKind::Unsigned => match parse_u32(text) {
            Some(number) => Some(Value::Unsigned(number)),
            None => None,
        },
        ValueKind::Size => match parse_usize(text) {
            Some(number) => Some(Value::Size(number)),
            None => None,
        },
        ValueKind::Path => Some(Value::Path(to_path(text.to_owned()))),
        ValueKind::Token(tokens) => match find_text(tokens, text) {
            Some(index) => {
                proof {
                    lemma_first_index(texts(tokens@), text@);
                }
                Some(Value::Token(index))
            },
            None => None,
        },
    }
}

/// A required field that could not be resolved: its variable was absent or
/// its text could not be parsed.
#[derive(Debug, PartialEq, Eq)]
pub struct MissingRequiredField {
    /// The name of the field.
    pub field: String,
    /// The variable behind the field.
    pub variable: String,
    /// The type that the variable's text was to be parsed to.
    pub expected: ValueKind,
    /// The text that the variable held, or nothing where it was absent.
    pub observed: Option<String>,
}

/// The model of a [`MissingRequiredField`].
pub struct FailureView {
    pub field: Seq<char>,
    pub variable: Seq<char>,
    pub expected: KindView,
    pub observed: Option<Seq<char>>,
}

impl View for MissingRequiredField {
    type V = FailureView;

    open spec fn view(&self) -> FailureView {
        FailureView {
            field: self.field@,
            variable: self.variable@,
            expected: self.expected@,
            observed: text_of(self.observed),
        }
    }
}

/// The name under which a kind appears in a message.
pub open spec fn kind_name(kind: KindView) -> Seq<char> {
    match kind {
        KindView::Text => "String"@,
        KindView::Unsigned => "u32"@,
        KindView::Size => "usize"@,
        KindView::Path => "PathBuf"@,
        KindView::Token(_) => "token"@,
    }
}

/// The text that a variable held, in quotes, or the word `absent`.
pub open spec fn observed_text(observed: Option<Seq<char>>) -> Seq<char> {
    match observed {
        Some(text) => "\""@ + text + "\""@,
        None => "absent"@,
    }
}

/// The message of a failure: it names the variable, the type that its text
/// was to be parsed to, and what the variable held.
pub open spec fn message_text(failure: FailureView) -> Seq<char> {
    "Environment variable "@ + failure.variable + " expected to parse to "@ + kind_name(
        failure.expected,
    ) + " but failed; was "@ + observed_text(failure.observed)
}

impl MissingRequiredField {
    /// The failure in words.
    pub fn message(&self) -> (text: String)
        ensures
            text@ == message_text(self@),
    {
        let kind = match &self.expected {
            ValueKind::Text => "String",
            ValueKind::Unsigned => "u32",
            ValueKind::Size => "usize",
            ValueKind::Path => "PathBuf",
            ValueKind::Token(_) => "token",
        };
        let mut text = "Environment variable ".to_owned();
        text.append(self.variable.as_str());
        text.append(" expected to parse to ");
        text.append(kind);
        text.append(" but failed; was ");
        match &self.observed {
            Some(held) => {
                let mut quoted = "\"".to_owned();
                quoted.append(held.as_str());
                quoted.append("\"");
                text.append(quoted.as_str());
            },
            None => {
                text.append("absent");
            },
        }
        text
    }
}

/// The failure that a required field gives in an environment that does not
/// let it resolve.
pub open spec fn failure_of(field: FieldView, vars: Variables) -> FailureView {
    FailureView {
        field: field.name,
        variable: field.variable,
        expected: field.kind,
        observed: lookup(vars, field.variable),
    }
}

/// What resolving a field gives.
#[derive(Debug, PartialEq, Eq)]
pub enum Resolution {
    /// The value of the field.
    Value(Value),
    /// Nothing: the field is optional, and its variable is absent or cannot
    /// be parsed.
    Missing,
    /// An error: the field is required, and its variable is absent or cannot
    /// be parsed.
    Fatal(MissingRequiredField),
}

/// The model of a [`Resolution`].
pub enum ResolutionView {
    Value(ValueView),
    Missing,
    Fatal(FailureView),
}

impl View for Resolution {
    type V = ResolutionView;

    open spec fn view(&self) -> ResolutionView {
        match self {
            Resolution::Value(value) => ResolutionView::Value(value@),
            Resolution::Missing => ResolutionView::Missing,
            Resolution::Fatal(failure) => ResolutionView::Fatal(failure@),
        }
    }
}

/// The state of one field of a record.
#[derive(Debug, PartialEq, Eq)]
pub enum Slot {
    /// The field was not asked for yet, or it is required and did not
    /// resolve when it was.
    Unresolved,
    /// The field has this value for good.
    Resolved(Value),
    /// The field is optional and has no value, for good.
    ResolvedAbsent,
}

/// The model of a [`Slot`].
pub enum SlotView {
    Unresolved,
    Resolved(ValueView),
    ResolvedAbsent,
}

impl View for Slot {
    type V = SlotView;

    open spec fn view(&self) -> SlotView {
        match self {
            Slot::Unresolved => SlotView::Unresolved,
            Slot::Resolved(value) => SlotView::Resolved(value@),
            Slot::ResolvedAbsent => SlotView::ResolvedAbsent,
        }
    }
}

impl Clone for Slot {
    fn clone(&self) -> (copy: Slot)
        ensures
            copy@ == self@,
    {
        match self {
            Slot::Unresolved => Slot::Unresolved,
            Slot::Resolved(value) => Slot::Resolved(value.clone()),
            Slot::ResolvedAbsent => Slot::ResolvedAbsent,
        }
    }
}

/// The model of each slot of a list.
pub open spec fn slot_views(slots: Seq<Slot>) -> Seq<SlotView> {
    Seq::new(slots.len(), |i: int| slots[i]@)
}

/// A slot may belong to the field: a value is of the field's kind, and only
/// an optional field is absent for good.
pub open spec fn slot_fits(slot: SlotView, field: FieldView) -> bool {
    match slot {
        SlotView::Unresolved => true,
        SlotView::Resolved(value) => value_fits(value, field.kind),
        SlotView::ResolvedAbsent => !field.required,
    }
}

/// What asking for a field gives. A slot that is resolved answers by itself,
/// whatever the environment holds by now. An unresolved slot takes the value
/// that the environment gives the field; without one, an optional field is
/// missing and a required field fails.
pub open spec fn slot_outcome(slot: SlotView, field: FieldView, vars: Variables) -> ResolutionView {
    match slot {
        SlotView::Resolved(value) => ResolutionView::Value(value),
        SlotView::ResolvedAbsent => ResolutionView::Missing,
        SlotView::Unresolved => match field_value(field, vars) {
            Some(value) => ResolutionView::Value(value),
            None => if field.required {
                ResolutionView::Fatal(failure_of(field, vars))
            } else {
                ResolutionView::Missing
            },
        },
    }
}

/// The slot after its field was asked for. A resolved slot never changes.
/// An unresolved slot keeps the value that the environment gives the field;
/// without one, the slot of an optional field is absent for good, and the
/// slot of a required field stays unresolved.
pub open spec fn slot_after(slot: SlotView, field: FieldView, vars: Variables) -> SlotView {
    match slot {
        SlotView::Unresolved => match field_value(field, vars) {
            Some(value) => SlotView::Resolved(value),
            None => if field.required {
                SlotView::Unresolved
            } else {
                SlotView::ResolvedAbsent
            },
        },
        resolved => resolved,
    }
}

/// The model of a [`LazyRecord`]: the descriptor it was made from and the
/// state of each field.
pub struct RecordView {
    pub descriptor: DescriptorView,
    pub slots: Seq<SlotView>,
}

impl RecordView {
    /// The record of a vendor before any field was asked for.
    pub open spec fn fresh(descriptor: DescriptorView) -> RecordView {
        RecordView {
            descriptor,
            slots: Seq::new(descriptor.fields.len(), |i: int| SlotView::Unresolved),
        }
    }

    /// The record has one slot for each field, and each slot may belong to
    /// its field.
    pub open spec fn well_formed(self) -> bool {
        &&& self.slots.len() == self.descriptor.fields.len()
        &&& forall|i: int|
            0 <= i < self.slots.len() ==> slot_fits(#[trigger] self.slots[i], self.descriptor.fields[i])
    }

    /// What asking for the field at `index` gives.
    pub open spec fn outcome(self, index: int, vars: Variables) -> ResolutionView {
        slot_outcome(self.slots[index], self.descriptor.fields[index], vars)
    }

    /// Asking for the field at `index` fails.
    pub open spec fn fails_at(self, index: int, vars: Variables) -> bool {
        self.outcome(index, vars) is Fatal
    }

    /// The record after the field at `index` was asked for: only the slot
    /// of that field can have changed.
    pub open spec fn after(self, index: int, vars: Variables) -> RecordView {
        RecordView {
            descriptor: self.descriptor,
            slots: self.slots.update(
                index,
                slot_after(self.slots[index], self.descriptor.fields[index], vars),
            ),
        }
    }

    /// The record after each field below `bound` was asked for.
    pub open spec fn loaded(self, bound: int, vars: Variables) -> RecordView {
        RecordView {
            descriptor: self.descriptor,
            slots: Seq::new(
                self.slots.len(),
                |i: int|
                    if i < bound {
                        slot_after(self.slots[i], self.descriptor.fields[i], vars)
                    } else {
                        self.slots[i]
                    },
            ),
        }
    }

    /// The least position from `from` on at which asking for the field
    /// fails, or the number of slots where none does.
    pub open spec fn first_failure(self, from: int, vars: Variables) -> int
        decreases self.slots.len() - from,
    {
        if from < 0 || from >= self.slots.len() {
            self.slots.len() as int
        } else if self.fails_at(from, vars) {
            from
        } else {
            self.first_failure(from + 1, vars)
        }
    }
}

/// `first_failure` gives the least position from `from` on at which asking
/// for the field fails; it gives the number of slots exactly when no field
/// from `from` on fails.
pub proof fn lemma_first_failure(record: RecordView, from: int, vars: Variables)
    requires
        0 <= from <= record.slots.len(),
    ensures
        from <= record.first_failure(from, vars) <= record.slots.len(),
        record.first_failure(from, vars) < record.slots.len() ==> record.fails_at(
            record.first_failure(from, vars),
            vars,
        ),
        forall|i: int| from <= i < record.first_failure(from, vars) ==> !record.fails_at(i, vars),
    decreases record.slots.len() - from,
{
    if from < record.slots.len() && !record.fails_at(from, vars) {
        lemma_first_failure(record, from + 1, vars);
    }
}

/// The position that `first_failure` gives from the start is known by two
/// things: no field before it fails, and the field at it fails, unless it
/// is the number of slots.
pub proof fn lemma_first_failure_is(record: RecordView, at: int, vars: Variables)
    requires
        0 <= at <= record.slots.len(),
        forall|j: int| 0 <= j < at ==> !record.fails_at(j, vars),
        at < record.slots.len() ==> record.fails_at(at, vars),
    ensures
        record.first_failure(0, vars) == at,
{
    lemma_first_failure(record, 0, vars);
    let found = record.first_failure(0, vars);
    if found < at {
        assert(!record.fails_at(found, vars));
    }
}

/// A fresh record and every record that comes of it is well formed: asking
/// for a field keeps a record well formed, and so does a load.
pub proof fn lemma_well_formed_is_kept(record: RecordView, index: int, bound: int, vars: Variables)
    requires
        record.well_formed(),
        0 <= index < record.slots.len(),
    ensures
        RecordView::fresh(record.descriptor).well_formed(),
        record.after(index, vars).well_formed(),
        record.loaded(bound, vars).well_formed(),
{
    lemma_parse_value_fits(record.descriptor.fields[index], vars);
    assert forall|i: int| 0 <= i < record.slots.len() implies slot_fits(
        #[trigger] record.loaded(bound, vars).slots[i],
        record.descriptor.fields[i],
    ) by {
        lemma_parse_value_fits(record.descriptor.fields[i], vars);
        assert(slot_fits(record.slots[i], record.descriptor.fields[i]));
    }
}

/// The value that the environment gives a field is one of the field's kind.
pub proof fn lemma_parse_value_fits(field: FieldView, vars: Variables)
    ensures
        field_value(field, vars) matches Some(value) ==> value_fits(value, field.kind),
{
    if let Some(text) = lookup(vars, field.variable) {
        if let KindView::Token(tokens) = field.kind {
            lemma_first_index(tokens, text);
        }
    }
}

/// Memoization. Once asking for a field has given an answer that is no
/// failure, asking again gives the identical answer and changes nothing,
/// whatever the environment holds by then: the environment is not consulted
/// a second time. Asking for a field never touches another field's slot.
pub proof fn lemma_resolution_is_kept(
    record: RecordView,
    index: int,
    first: Variables,
    second: Variables,
)
    requires
        record.well_formed(),
        0 <= index < record.slots.len(),
        !record.fails_at(index, first),
    ensures
        record.after(index, first).outcome(index, second) == record.outcome(index, first),
        record.after(index, first).after(index, second) == record.after(index, first),
        !(record.after(index, first).slots[index] is Unresolved),
        forall|other: int|
            0 <= other < record.slots.len() && other != index ==> record.after(
                index,
                first,
            ).slots[other] == record.slots[other],
{
    let kept = record.after(index, first);
    assert(kept.after(index, second).slots =~= kept.slots);
}

/// A slot that has left the unresolved state answers without the
/// environment: every environment gives the same outcome and leaves the
/// record as it is.
pub proof fn lemma_resolved_slot_is_final(
    record: RecordView,
    index: int,
    first: Variables,
    second: Variables,
)
    requires
        record.well_formed(),
        0 <= index < record.slots.len(),
        !(record.slots[index] is Unresolved),
    ensures
        record.outcome(index, first) == record.outcome(index, second),
        record.after(index, first) == record,
{
    assert(record.after(index, first).slots =~= record.slots);
}

/// A load that does not fail leaves no field unresolved: from then on the
/// record answers every field by itself, whatever the environment holds.
pub proof fn lemma_load_resolves_every_field(
    record: RecordView,
    index: int,
    first: Variables,
    second: Variables,
)
    requires
        record.well_formed(),
        0 <= index < record.slots.len(),
        record.first_failure(0, first) == record.slots.len(),
    ensures
        !(record.loaded(record.slots.len() as int, first).slots[index] is Unresolved),
        record.loaded(record.slots.len() as int, first).outcome(index, second) == record.outcome(
            index,
            first,
        ),
{
    lemma_first_failure(record, 0, first);
    assert(!record.fails_at(index, first));
}

/// Optional fields degrade. An optional field whose variable is absent, and
/// that was not resolved before, resolves to nothing and never fails: asking
/// for it gives `Missing` and leaves its slot absent for good, and a load
/// does not end at it and leaves it absent as well.
pub proof fn lemma_optional_field_degrades(record: RecordView, index: int, vars: Variables)
    requires
        record.well_formed(),
        0 <= index < record.slots.len(),
        record.slots[index] is Unresolved,
        !record.descriptor.fields[index].required,
        lookup(vars, record.descriptor.fields[index].variable) is None,
    ensures
        record.outcome(index, vars) == ResolutionView::Missing,
        record.after(index, vars).slots[index] == SlotView::ResolvedAbsent,
        record.first_failure(0, vars) != index,
        index < record.first_failure(0, vars) ==> record.loaded(
            record.first_failure(0, vars),
            vars,
        ).slots[index] == SlotView::ResolvedAbsent,
{
    lemma_first_failure(record, 0, vars);
}

/// Required fields are fatal to a load and to nothing else. Where a required
/// field that was not resolved before finds its variable absent, a load of
/// the record fails, at that field or before it. Asking for any other field
/// gives what it gives without the failing one: a field that is optional, or
/// that the environment gives a value, does not fail.
pub proof fn lemma_required_field_is_fatal(
    record: RecordView,
    index: int,
    other: int,
    vars: Variables,
)
    requires
        record.well_formed(),
        0 <= index < record.slots.len(),
        0 <= other < record.slots.len(),
        record.slots[index] is Unresolved,
        record.descriptor.fields[index].required,
        lookup(vars, record.descriptor.fields[index].variable) is None,
    ensures
        record.outcome(index, vars) == ResolutionView::Fatal(
            failure_of(record.descriptor.fields[index], vars),
        ),
        record.first_failure(0, vars) <= index,
        !record.descriptor.fields[other].required || field_value(
            record.descriptor.fields[other],
            vars,
        ) is Some ==> !record.fails_at(other, vars),
{
    lemma_first_failure(record, 0, vars);
    assert(record.fails_at(index, vars));
}

/// A load of a fresh record of a vendor does not fail if and only if the
/// environment gives every required field of the vendor a value.
pub proof fn lemma_complete_iff(descriptor: DescriptorView, vars: Variables)
    ensures
        RecordView::fresh(descriptor).first_failure(0, vars) == descriptor.fields.len() <==> forall|
            i: int,
        |
            0 <= i < descriptor.fields.len() && (#[trigger] descriptor.fields[i]).required
                ==> field_value(descriptor.fields[i], vars) is Some,
{
    let fresh = RecordView::fresh(descriptor);
    lemma_first_failure(fresh, 0, vars);
    let at = fresh.first_failure(0, vars);
    if at == descriptor.fields.len() {
        assert forall|i: int|
            0 <= i < descriptor.fields.len() && (#[trigger] descriptor.fields[i]).required implies field_value(
            descriptor.fields[i],
            vars,
        ) is Some by {
            assert(!fresh.fails_at(i, vars));
        }
    } else {
        assert(fresh.fails_at(at, vars));
        assert(descriptor.fields[at].required && field_value(descriptor.fields[at], vars) is None);
    }
}

/// Where a load of a fresh record of a vendor does not fail, the environment
/// gives every required field of the vendor a value.
pub proof fn lemma_complete_gives_required(descriptor: DescriptorView, index: int, vars: Variables)
    requires
        0 <= index < descriptor.fields.len(),
        descriptor.fields[index].required,
        RecordView::fresh(descriptor).first_failure(0, vars) == descriptor.fields.len(),
    ensures
        field_value(descriptor.fields[index], vars) is Some,
{
    let fresh = RecordView::fresh(descriptor);
    lemma_first_failure(fresh, 0, vars);
    assert(!fresh.fails_at(index, vars));
}

/// In a well-formed record, the value that asking for a field gives is one
/// of the field's kind, only a required field fails, and only an optional
/// field is missing.
pub proof fn lemma_outcome_fits(record: RecordView, index: int, vars: Variables)
    requires
        record.well_formed(),
        0 <= index < record.slots.len(),
    ensures
        match record.outcome(index, vars) {
            ResolutionView::Value(value) => value_fits(value, record.descriptor.fields[index].kind),
            ResolutionView::Missing => !record.descriptor.fields[index].required,
            ResolutionView::Fatal(_) => record.descriptor.fields[index].required,
        },
{
    lemma_parse_value_fits(record.descriptor.fields[index], vars);
    assert(slot_fits(record.slots[index], record.descriptor.fields[index]));
}

/// The fields of one vendor, each resolved from the environment when it is
/// first asked for.
#[derive(Debug)]
pub struct LazyRecord {
    descriptor: VendorDescriptor,
    slots: Vec<Slot>,
}

impl View for LazyRecord {
    type V = RecordView;

    closed spec fn view(&self) -> RecordView {
        RecordView { descriptor: self.descriptor@, slots: slot_views(self.slots@) }
    }
}

impl Clone for LazyRecord {
    fn clone(&self) -> (copy: LazyRecord)
        ensures
            copy@ == self@,
    {
        let mut slots: Vec<Slot> = Vec::new();
        let mut i: usize = 0;
        while i < self.slots.len()
            invariant
                i <= self.slots.len(),
                slots@.len() == i,
                forall|k: int| 0 <= k < i ==> slots@[k]@ == self.slots@[k]@,
            decreases self.slots.len() - i,
        {
            slots.push(self.slots[i].clone());
            i = i + 1;
        }
        assert(slot_views(slots@) =~= slot_views(self.slots@));
        LazyRecord { descriptor: self.descriptor.clone(), slots }
    }
}

impl LazyRecord {
    /// A record of the vendor in which no field is resolved.
    pub fn new(descriptor: VendorDescriptor) -> (record: LazyRecord)
        ensures
            record@ == RecordView::fresh(descriptor@),
            record@.well_formed(),
    {
        let mut slots: Vec<Slot> = Vec::new();
        let mut i: usize = 0;
        while i < descriptor.fields.len()
            invariant
                i <= descriptor.fields.len(),
                slots@.len() == i,
                forall|k: int| 0 <= k < i ==> slots@[k]@ == SlotView::Unresolved,
            decreases descriptor.fields.len() - i,
        {
            slots.push(Slot::Unresolved);
            i = i + 1;
        }
        assert(slot_views(slots@) =~= RecordView::fresh(descriptor@).slots);
        LazyRecord { descriptor, slots }
    }

    /// A record of the vendor, if the environment is one of that vendor:
    /// only its gate is looked at, and no field is resolved.
    pub fn lazy(descriptor: VendorDescriptor, env: &Environment) -> (record: Option<LazyRecord>)
        ensures
            record is Some <==> gate_matches(descriptor@.gate, env@),
            record matches Some(r) ==> r@ == RecordView::fresh(descriptor@) && r@.well_formed(),
    {
        if descriptor.matches(env) {
            Some(LazyRecord::new(descriptor))
        } else {
            None
        }
    }

    /// The descriptor that the record was made from.
    pub fn descriptor(&self) -> (descriptor: &VendorDescriptor)
        ensures
            descriptor@ == self@.descriptor,
    {
        &self.descriptor
    }

    /// Whether the field at `index` was asked for and keeps its answer.
    pub fn is_resolved(&self, index: usize) -> (resolved: bool)
        requires
            self@.well_formed(),
            index < self@.descriptor.fields.len(),
        ensures
            resolved == !(self@.slots[index as int] is Unresolved),
    {
        match &self.slots[index] {
            Slot::Unresolved => false,
            _ => true,
        }
    }

    /// Asks for the field at `index`, resolving it from the environment if
    /// it has no answer yet.
    pub fn resolve_at(&mut self, index: usize, env: &Environment) -> (outcome: Resolution)
        requires
            old(self)@.well_formed(),
            index < old(self)@.descriptor.fields.len(),
        ensures
            outcome@ == old(self)@.outcome(index as int, env@),
            final(self)@ == old(self)@.after(index as int, env@),
            final(self)@.well_formed(),
    {
        let ghost before = self@;
        match &self.slots[index] {
            Slot::Resolved(value) => {
                assert(before.after(index as int, env@).slots =~= before.slots);
                return Resolution::Value(value.clone());
            },
            Slot::ResolvedAbsent => {
                assert(before.after(index as int, env@).slots =~= before.slots);
                return Resolution::Missing;
            },
            Slot::Unresolved => {},
        }
        let field = &self.descriptor.fields[index];
        assert(field@ == before.descriptor.fields[index as int]);
        let observed = env.lookup(field.variable.as_str());
        let parsed = match &observed {
            Some(text) => parse(&field.kind, text.as_str()),
            None => None,
        };
        match parsed {
            Some(value) => {
                let answer = value.clone();
                self.slots.set(index, Slot::Resolved(value));
                assert(self@.slots =~= before.after(index as int, env@).slots);
                Resolution::Value(answer)
            },
            None => {
                if field.required {
                    assert(before.after(index as int, env@).slots =~= before.slots);
                    Resolution::Fatal(
                        MissingRequiredField {
                            field: field.name.clone(),
                            variable: field.variable.clone(),
                            expected: field.kind.clone(),
                            observed,
                        },
                    )
                } else {
                    self.slots.set(index, Slot::ResolvedAbsent);
                    assert(self@.slots =~= before.after(index as int, env@).slots);
                    Resolution::Missing
                }
            },
        }
    }

    /// Asks for the first field with the given name. The result is `None`,
    /// and the record unchanged, where no field has that name.
    pub fn resolve(&mut self, name: &str, env: &Environment) -> (outcome: Option<Resolution>)
        requires
            old(self)@.well_formed(),
        ensures
            final(self)@.well_formed(),
            match position(old(self)@.descriptor.fields, name@) {
                Some(index) => outcome matches Some(o) && o@ == old(self)@.outcome(index, env@)
                    && final(self)@ == old(self)@.after(index, env@),
                None => outcome is None && final(self)@ == old(self)@,
            },
    {
        match self.descriptor.position(name) {
            Some(index) => {
                proof {
                    lemma_first_index(names(self@.descriptor.fields), name@);
                }
                Some(self.resolve_at(index, env))
            },
            None => None,
        }
    }

    /// Asks for every field, in the order of the descriptor, so that each
    /// keeps its answer. The first required field that fails ends the load
    /// with its error; the fields before it are resolved by then, the
    /// fields from it on are as they were.
    pub fn load(&mut self, env: &Environment) -> (loaded: Result<(), MissingRequiredField>)
        requires
            old(self)@.well_formed(),
        ensures
            final(self)@.well_formed(),
            final(self)@ == old(self)@.loaded(old(self)@.first_failure(0, env@), env@),
            match loaded {
                Ok(_) => old(self)@.first_failure(0, env@) == old(self)@.slots.len(),
                Err(failure) => {
                    let at = old(self)@.first_failure(0, env@);
                    &&& 0 <= at < old(self)@.slots.len()
                    &&& failure@ == failure_of(old(self)@.descriptor.fields[at], env@)
                },
            },
    {
        let ghost before = self@;
        let mut i: usize = 0;
        assert(self@.slots =~= before.loaded(0, env@).slots);
        while i < self.slots.len()
            invariant
                before == old(self)@,
                before.well_formed(),
                self@.well_formed(),
                i <= self.slots.len(),
                self@ == before.loaded(i as int, env@),
                before.first_failure(0, env@) == before.first_failure(i as int, env@),
            decreases self.slots.len() - i,
        {
            let ghost current = self@;
            assert(current.outcome(i as int, env@) == before.outcome(i as int, env@));
            match self.resolve_at(i, env) {
                Resolution::Fatal(failure) => {
                    assert(before.fails_at(i as int, env@));
                    assert(self@.slots =~= current.slots);
                    return Err(failure);
                },
                _ => {
                    assert(!before.fails_at(i as int, env@));
                    assert(self@.slots =~= before.loaded(i + 1, env@).slots);
                },
            }
            i = i + 1;
        }
        Ok(())
    }

    /// Asks for the required field at `index`, which holds a text.
    pub fn required_text(&mut self, index: usize, env: &Environment) -> (field: Result<
        String,
        MissingRequiredField,
    >)
        requires
            old(self)@.well_formed(),
            index < old(self)@.descriptor.fields.len(),
            old(self)@.descriptor.fields[index as int].kind is Text,
            old(self)@.descriptor.fields[index as int].required,
        ensures
            final(self)@.well_formed(),
            final(self)@ == old(self)@.after(index as int, env@),
            match field {
                Ok(value) => old(self)@.outcome(index as int, env@) == ResolutionView::Value(
                    ValueView::Text(value@),
                ),
                Err(failure) => old(self)@.outcome(index as int, env@) == ResolutionView::Fatal(
                    failure@,
                ),
            },
    {
        proof {
            lemma_outcome_fits(self@, index as int, env@);
        }
        match self.resolve_at(index, env) {
            Resolution::Value(Value::Text(value)) => Ok(value),
            Resolution::Fatal(failure) => Err(failure),
            _ => unreached(),
        }
    }

    /// Asks for the optional field at `index`, which holds a text.
    pub fn optional_text(&mut self, index: usize, env: &Environment) -> (field: Option<String>)
        requires
            old(self)@.well_formed(),
            index < old(self)@.descriptor.fields.len(),
            old(self)@.descriptor.fields[index as int].kind is Text,
            !old(self)@.descriptor.fields[index as int].required,
        ensures
            final(self)@.well_formed(),
            final(self)@ == old(self)@.after(index as int, env@),
            match field {
                Some(value) => old(self)@.outcome(index as int, env@) == ResolutionView::Value(
                    ValueView::Text(value@),
                ),
                None => old(self)@.outcome(index as int, env@) == ResolutionView::Missing,
            },
    {
        proof {
            lemma_outcome_fits(self@, index as int, env@);
        }
        match self.resolve_at(index, env) {
            Resolution::Value(Value::Text(value)) => Some(value),
            Resolution::Missing => None,
            _ => unreached(),
        }
    }

    /// Asks for the required field at `index`, which holds a number.
    pub fn required_unsigned(&mut self, index: usize, env: &Environment) -> (field: Result<
        u32,
        MissingRequiredField,
    >)
        requires
            old(self)@.well_formed(),
            index < old(self)@.descriptor.fields.len(),
            old(self)@.descriptor.fields[index as int].kind is Unsigned,
            old(self)@.descriptor.fields[index as int].required,
        ensures
            final(self)@.well_formed(),
            final(self)@ == old(self)@.after(index as int, env@),
            match field {
                Ok(value) => old(self)@.outcome(index as int, env@) == ResolutionView::Value(
                    ValueView::Unsigned(value as nat),
                ),
                Err(failure) => old(self)@.outcome(index as int, env@) == ResolutionView::Fatal(
                    failure@,
                ),
            },
    {
        proof {
            lemma_outcome_fits(self@, index as int, env@);
        }
        match self.resolve_at(index, env) {
            Resolution::Value(Value::Unsigned(value)) => Ok(value),
            Resolution::Fatal(failure) => Err(failure),
            _ => unreached(),
        }
    }

    /// Asks for the optional field at `index`, which holds a number.
    pub fn optional_unsigned(&mut self, index: usize, env: &Environment) -> (field: Option<u32>)
        requires
            old(self)@.well_formed(),
            index < old(self)@.descriptor.fields.len(),
            old(self)@.descriptor.fields[index as int].kind is Unsigned,
            !old(self)@.descriptor.fields[index as int].required,
        ensures
            final(self)@.well_formed(),
            final(self)@ == old(self)@.after(index as int, env@),
            match field {
                Some(value) => old(self)@.outcome(index as int, env@) == ResolutionView::Value(
                    ValueView::Unsigned(value as nat),
                ),
                None => old(self)@.outcome(index as int, env@) == ResolutionView::Missing,
            },
    {
        proof {
            lemma_outcome_fits(self@, index as int, env@);
        }
        match self.resolve_at(index, env) {
            Resolution::Value(Value::Unsigned(value)) => Some(value),
            Resolution::Missing => None,
            _ => unreached(),
        }
    }

    /// Asks for the required field at `index`, which holds a path.
    pub fn required_path(&mut self, index: usize, env: &Environment) -> (field: Result<
        PathBuf,
        MissingRequiredField,
    >)
        requires
            old(self)@.well_formed(),
            index < old(self)@.descriptor.fields.len(),
            old(self)@.descriptor.fields[index as int].kind is Path,
            old(self)@.descriptor.fields[index as int].required,
        ensures
            final(self)@.well_formed(),
            final(self)@ == old(self)@.after(index as int, env@),
            match field {
                Ok(value) => old(self)@.outcome(index as int, env@) == ResolutionView::Value(
                    ValueView::Path(value),
                ),
                Err(failure) => old(self)@.outcome(index as int, env@) == ResolutionView::Fatal(
                    failure@,
                ),
            },
    {
        proof {
            lemma_outcome_fits(self@, index as int, env@);
        }
        match self.resolve_at(index, env) {
            Resolution::Value(Value::Path(value)) => Ok(value),
            Resolution::Fatal(failure) => Err(failure),
            _ => unreached(),
        }
    }

    /// Asks for the optional field at `index`, which holds a path.
    pub fn optional_path(&mut self, index: usize, env: &Environment) -> (field: Option<PathBuf>)
        requires
            old(self)@.well_formed(),
            index < old(self)@.descriptor.fields.len(),
            old(self)@.descriptor.fields[index as int].kind is Path,
            !old(self)@.descriptor.fields[index as int].required,
        ensures
            final(self)@.well_formed(),
            final(self)@ == old(self)@.after(index as int, env@),
            match field {
                Some(value) => old(self)@.outcome(index as int, env@) == ResolutionView::Value(
                    ValueView::Path(value),
                ),
                None => old(self)@.outcome(index as int, env@) == ResolutionView::Missing,
            },
    {
        proof {
            lemma_outcome_fits(self@, index as int, env@);
        }
        match self.resolve_at(index, env) {
            Resolution::Value(Value::Path(value)) => Some(value),
            Resolution::Missing => None,
            _ => unreached(),
        }
    }
}

} // verus!
