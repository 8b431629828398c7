//! Vendor descriptors: the table of fields that a vendor publishes and the
//! gate, the pairs of a variable and a value that identify the vendor.

use crate::environment::{binding_texts, holds, Environment, Variables};
use crate::text::{
    all_distinct, first_index, lemma_first_index, lemma_first_index_found, same_text, texts,
    truth_tokens,
};
use vstd::prelude::*;

verus! {

/// The type of a field's value, which decides how the text of its variable
/// is parsed.
#[derive(Debug, PartialEq, Eq)]
pub enum ValueKind {
    /// Any text.
    Text,
    /// An unsigned base-10 integer of 32 bits.
    Unsigned,
    /// An unsigned base-10 integer of the machine's word size.
    Size,
    /// A file-system path: any text.
    Path,
    /// One of a fixed list of tokens, compared exactly.
    Token(Vec<String>),
}

/// The model of a [`ValueKind`].
pub enum KindView {
    Text,
    Unsigned,
    Size,
    Path,
    Token(Seq<Seq<char>>),
}

impl View for ValueKind {
    type V = KindView;

    open spec fn view(&self) -> KindView {
        match self {
            ValueKind::Text => KindView::Text,
            ValueKind::Unsigned => KindView::Unsigned,
            ValueKind::Size => KindView::Size,
            ValueKind::Path => KindView::Path,
            ValueKind::Token(tokens) => KindView::Token(texts(tokens@)),
        }
    }
}

impl ValueKind {
    /// The kind of a truth value: the tokens `true` and `false`.
    pub fn truth() -> (kind: ValueKind)
        ensures
            kind@ == KindView::Token(truth_tokens()),
    {
        let mut tokens: Vec<String> = Vec::new();
        tokens.push("true".to_owned());
        tokens.push("false".to_owned());
        assert(texts(tokens@) =~= truth_tokens());
        ValueKind::Token(tokens)
    }
}

impl Clone for ValueKind {
    fn clone(&self) -> (copy: ValueKind)
        ensures
            copy@ == self@,
    {
        match self {
            ValueKind::Text => ValueKind::Text,
            ValueKind::Unsigned => ValueKind::Unsigned,
            ValueKind::Size => ValueKind::Size,
            ValueKind::Path => ValueKind::Path,
            ValueKind::Token(tokens) => {
                let copy = tokens.clone();
                assert(texts(copy@) =~= texts(tokens@));
                ValueKind::Token(copy)
            },
        }
    }
}

/// One field of a vendor: its name, the variable behind it, the type that
/// the variable's text is parsed to, and whether the vendor always sets it.
#[derive(Debug, PartialEq, Eq)]
pub struct FieldSpec {
    pub name: String,
    pub variable: String,
    pub kind: ValueKind,
    pub required: bool,
}

/// The model of a [`FieldSpec`].
pub struct FieldView {
    pub name: Seq<char>,
    pub variable: Seq<char>,
    pub kind: KindView,
    pub required: bool,
}

impl View for FieldSpec {
    type V = FieldView;

    open spec fn view(&self) -> FieldView {
        FieldView {
            name: self.name@,
            variable: self.variable@,
            kind: self.kind@,
            required: self.required,
        }
    }
}

impl Clone for FieldSpec {
    fn clone(&self) -> (copy: FieldSpec)
        ensures
            copy@ == self@,
    {
        FieldSpec {
            name: self.name.clone(),
            variable: self.variable.clone(),
            kind: self.kind.clone(),
            required: self.required,
        }
    }
}

impl FieldSpec {
    /// A field that the vendor always sets: its absence is an error.
    pub fn required(name: &str, variable: &str, kind: ValueKind) -> (field: FieldSpec)
        ensures
            field@ == (FieldView { name: name@, variable: variable@, kind: kind@, required: true }),
    {
        FieldSpec { name: name.to_owned(), variable: variable.to_owned(), kind, required: true }
    }

    /// A field that the vendor sets on some builds only.
    pub fn optional(name: &str, variable: &str, kind: ValueKind) -> (field: FieldSpec)
        ensures
            field@ == (FieldView { name: name@, variable: variable@, kind: kind@, required: false }),
    {
        FieldSpec { name: name.to_owned(), variable: variable.to_owned(), kind, required: false }
    }
}

/// The model of each field of a list.
pub open spec fn field_views(fields: Seq<FieldSpec>) -> Seq<FieldView> {
    Seq::new(fields.len(), |i: int| fields[i]@)
}

/// A vendor as plain data: its gate and its fields, both in a fixed order.
#[derive(Debug, PartialEq, Eq)]
pub struct VendorDescriptor {
    /// The pairs of a variable and the value it must hold.
    pub gate: Vec<(String, String)>,
    /// The fields, in the order in which they are declared.
    pub fields: Vec<FieldSpec>,
}

/// The model of a [`VendorDescriptor`].
pub struct DescriptorView {
    pub gate: Seq<(Seq<char>, Seq<char>)>,
    pub fields: Seq<FieldView>,
}

impl View for VendorDescriptor {
    type V = DescriptorView;

    open spec fn view(&self) -> DescriptorView {
        DescriptorView { gate: binding_texts(self.gate@), fields: field_views(self.fields@) }
    }
}

/// Every pair of a gate holds in the environment. A vendor is detected as
/// a whole or not at all; a gate without pairs is met by every environment.
pub open spec fn gate_matches(gate: Seq<(Seq<char>, Seq<char>)>, vars: Variables) -> bool {
    forall|i: int| 0 <= i < gate.len() ==> holds(vars, (#[trigger] gate[i]).0, gate[i].1)
}

/// The names of the fields, in their order.
pub open spec fn names(fields: Seq<FieldView>) -> Seq<Seq<char>> {
    Seq::new(fields.len(), |i: int| fields[i].name)
}

/// The position of the first field with the given name.
pub open spec fn position(fields: Seq<FieldView>, name: Seq<char>) -> Option<int> {
    first_index(names(fields), name)
}

/// What is wrong with a descriptor.
#[derive(Copy, Clone, Debug, PartialEq, Eq, Structural)]
pub enum MalformedDescriptor {
    /// No pair stands in its gate, so the vendor cannot be told from any other
    /// environment.
    EmptyGate,
    /// The field at this position has the name of an earlier field.
    DuplicateField(usize),
}

/// The least position below `n` of a name that also stands at an earlier
/// position.
pub open spec fn first_repeat(items: Seq<Seq<char>>, n: int) -> Option<int>
    decreases n,
{
    if n <= 0 || n > items.len() {
        None
    } else {
        match first_repeat(items, n - 1) {
            Some(j) => Some(j),
            None => if first_index(items.take(n - 1), items[n - 1]) is Some {
                Some(n - 1)
            } else {
                None
            },
        }
    }
}

/// The fault that a check of a descriptor reports: an empty gate first, else
/// the first field whose name an earlier field has.
pub open spec fn first_fault(descriptor: DescriptorView) -> Option<MalformedDescriptor> {
    if descriptor.gate.len() == 0 {
        Some(MalformedDescriptor::EmptyGate)
    } else {
        match first_repeat(names(descriptor.fields), descriptor.fields.len() as int) {
            Some(j) => Some(MalformedDescriptor::DuplicateField(j as usize)),
            None => None,
        }
    }
}

/// `first_repeat` finds no name exactly when the first `n` names are all
/// distinct, and else the least position of a name that stood before.
pub proof fn lemma_first_repeat(items: Seq<Seq<char>>, n: int)
    requires
        0 <= n <= items.len(),
    ensures
        match first_repeat(items, n) {
            Some(j) => 0 < j < n && (exists|i: int| 0 <= i < j && items[i] == items[j])
                && all_distinct(items.take(j)),
            None => all_distinct(items.take(n)),
        },
    decreases n,
{
    if n > 0 {
        lemma_first_repeat(items, n - 1);
        let before = items.take(n - 1);
        lemma_first_index(before, items[n - 1]);
        if first_repeat(items, n - 1) is None {
            match first_index(before, items[n - 1]) {
                Some(i) => {
                    assert(before[i] == items[i]);
                },
                None => {
                    assert forall|i: int, j: int| 0 <= i < j < n implies items.take(n)[i]
                        != items.take(n)[j] by {
                        if j < n - 1 {
                            assert(before[i] != before[j]);
                        } else {
                            assert(before[i] != items[n - 1]);
                        }
                    }
                },
            }
        }
    }
}

/// A descriptor without a fault has a gate, and its fields have distinct
/// names.
pub proof fn lemma_first_fault(descriptor: DescriptorView)
    ensures
        first_fault(descriptor) is None <==> descriptor.gate.len() > 0 && all_distinct(
            names(descriptor.fields),
        ),
{
    let all = names(descriptor.fields);
    lemma_first_repeat(all, all.len() as int);
    assert(all.take(all.len() as int) =~= all);
    if let Some(j) = first_repeat(all, all.len() as int) {
        let i = choose|i: int| 0 <= i < j && all[i] == all[j];
        assert(all[i] == all[j]);
    }
}

impl Clone for VendorDescriptor {
    fn clone(&self) -> (copy: VendorDescriptor)
        ensures
            copy@ == self@,
    {
        let mut gate: Vec<(String, String)> = Vec::new();
        let mut i: usize = 0;
        while i < self.gate.len()
            invariant
                i <= self.gate.len(),
                gate@.len() == i,
                forall|k: int| 0 <= k < i ==> gate@[k].0@ == self.gate@[k].0@ && gate@[k].1@ == self.gate@[k].1@,
            decreases self.gate.len() - i,
        {
            gate.push((self.gate[i].0.clone(), self.gate[i].1.clone()));
            i = i + 1;
        }
        let mut fields: Vec<FieldSpec> = Vec::new();
        let mut j: usize = 0;
        while j < self.fields.len()
            invariant
                j <= self.fields.len(),
                fields@.len() == j,
                forall|k: int| 0 <= k < j ==> fields@[k]@ == self.fields@[k]@,
            decreases self.fields.len() - j,
        {
            fields.push(self.fields[j].clone());
            j = j + 1;
        }
        assert(binding_texts(gate@) =~= binding_texts(self.gate@));
        assert(field_views(fields@) =~= field_views(self.fields@));
        VendorDescriptor { gate, fields }
    }
}

impl VendorDescriptor {
    /// A descriptor with the given gate and fields.
    pub fn new(gate: Vec<(String, String)>, fields: Vec<FieldSpec>) -> (descriptor: VendorDescriptor)
        ensures
            descriptor@ == (DescriptorView {
                gate: binding_texts(gate@),
                fields: field_views(fields@),
            }),
    {
        VendorDescriptor { gate, fields }
    }

    /// Whether the environment is one of this vendor: every pair of its gate
    /// holds. The pairs are tried in order, up to the first that fails.
    pub fn matches(&self, env: &Environment) -> (matched: bool)
        ensures
            matched == gate_matches(self@.gate, env@),
    {
        let mut i: usize = 0;
        while i < self.gate.len()
            invariant
                i <= self.gate.len(),
                forall|k: int|
                    0 <= k < i ==> holds(env@, (#[trigger] self@.gate[k]).0, self@.gate[k].1),
            decreases self.gate.len() - i,
        {
            let pair = &self.gate[i];
            if !env.holds(pair.0.as_str(), pair.1.as_str()) {
                assert(!holds(env@, self@.gate[i as int].0, self@.gate[i as int].1));
                return false;
            }
            i = i + 1;
        }
        true
    }

    /// The position of the first field with the given name, if there is one.
    pub fn position(&self, name: &str) -> (found: Option<usize>)
        ensures
            match found {
                Some(i) => position(self@.fields, name@) == Some(i as int),
                None => position(self@.fields, name@) is None,
            },
    {
        let ghost all = names(self@.fields);
        let mut i: usize = 0;
        while i < self.fields.len()
            invariant
                i <= self.fields.len(),
                all == names(self@.fields),
                first_index(all.take(i as int), name@) is None,
            decreases self.fields.len() - i,
        {
            if same_text(self.fields[i].name.as_str(), name) {
                proof {
                    lemma_first_index_found(all, i as int, name@);
                }
                return Some(i);
            }
            assert(all.take(i + 1).drop_last() =~= all.take(i as int));
            i = i + 1;
        }
        assert(all.take(i as int) =~= all);
        None
    }

    /// Checks what no table of a vendor may lack: a gate with at least one
    /// pair, and a name for each field that no earlier field has.
    pub fn check(&self) -> (verdict: Result<(), MalformedDescriptor>)
        ensures
            verdict == match first_fault(self@) {
                Some(fault) => Err::<(), MalformedDescriptor>(fault),
                None => Ok(()),
            },
    {
        if self.gate.len() == 0 {
            return Err(MalformedDescriptor::EmptyGate);
        }
        let ghost all = names(self@.fields);
        let mut j: usize = 0;
        while j < self.fields.len()
            invariant
                j <= self.fields.len(),
                self.gate.len() > 0,
                all == names(self@.fields),
                first_repeat(all, j as int) is None,
            decreases self.fields.len() - j,
        {
            let name = self.fields[j].name.as_str();
            let ghost before = all.take(j as int);
            let mut i: usize = 0;
            while i < j
                invariant
                    i <= j < self.fields.len(),
                    self.gate.len() > 0,
                    all == names(self@.fields),
                    before == all.take(j as int),
                    name@ == all[j as int],
                    first_repeat(all, j as int) is None,
                    first_index(before.take(i as int), name@) is None,
                decreases j - i,
            {
                if same_text(self.fields[i].name.as_str(), name) {
                    proof {
                        assert(before[i as int] == all[i as int]);
                        lemma_first_index_found(before, i as int, name@);
                        assert(first_repeat(all, j + 1) == Some(j as int));
                        lemma_first_repeat_keeps(all, j + 1, all.len() as int);
                    }
                    return Err(MalformedDescriptor::DuplicateField(j));
                }
                assert(before.take(i + 1).drop_last() =~= before.take(i as int));
                assert(before.take(i + 1).last() == all[i as int]);
                i = i + 1;
            }
            assert(before.take(i as int) =~= before);
            j = j + 1;
        }
        Ok(())
    }
}

/// A repeat found below `n` is the one found below any larger bound.
pub proof fn lemma_first_repeat_keeps(items: Seq<Seq<char>>, n: int, m: int)
    requires
        0 <= n <= m <= items.len(),
        first_repeat(items, n) is Some,
    ensures
        first_repeat(items, m) == first_repeat(items, n),
    decreases m - n,
{
    if n < m {
        lemma_first_repeat_keeps(items, n, m - 1);
    }
}

} // verus!
