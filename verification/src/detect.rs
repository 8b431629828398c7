//! Detection: which vendor of a list, in the order of the list, is the first
//! whose gate the environment meets.

use crate::descriptor::{gate_matches, DescriptorView, VendorDescriptor};
use crate::environment::{holds, lookup, Environment, Variables};
use crate::record::{
    failure_of, lemma_first_failure, lemma_required_field_is_fatal, FailureView, LazyRecord,
    MissingRequiredField, RecordView,
};
use vstd::prelude::*;

verus! {

/// A vendor that was detected: its position in the list that was searched,
/// and its record.
#[derive(Debug)]
pub struct Detection {
    /// The position of the vendor in the list of vendors.
    pub vendor: usize,
    /// The record of the vendor.
    pub record: LazyRecord,
}

/// The model of each descriptor of a list.
pub open spec fn descriptor_views(vendors: Seq<VendorDescriptor>) -> Seq<DescriptorView> {
    Seq::new(vendors.len(), |i: int| vendors[i]@)
}

/// The vendor at `index` is the one that detection finds: the environment
/// meets its gate and that of no vendor before it.
pub open spec fn is_first_match(vendors: Seq<DescriptorView>, vars: Variables, index: int) -> bool {
    &&& 0 <= index < vendors.len()
    &&& gate_matches(vendors[index].gate, vars)
    &&& forall|j: int| 0 <= j < index ==> !gate_matches((#[trigger] vendors[j]).gate, vars)
}

/// The position of the vendor that detection finds, if it finds one.
pub open spec fn first_match(vendors: Seq<DescriptorView>, vars: Variables) -> Option<int> {
    if exists|i: int| is_first_match(vendors, vars, i) {
        Some(choose|i: int| is_first_match(vendors, vars, i))
    } else {
        None
    }
}

/// What eager detection gives: nothing where no vendor is found; else the
/// record of the vendor that is found with every field resolved, or the
/// failure of its first required field that does not resolve.
pub open spec fn eager_outcome(vendors: Seq<DescriptorView>, vars: Variables) -> Result<
    Option<(int, RecordView)>,
    FailureView,
> {
    match first_match(vendors, vars) {
        None => Ok(None),
        Some(index) => {
            let fresh = RecordView::fresh(vendors[index]);
            let at = fresh.first_failure(0, vars);
            if at == fresh.slots.len() {
                Ok(Some((index, fresh.loaded(at, vars))))
            } else {
                Err(failure_of(vendors[index].fields[at], vars))
            }
        },
    }
}

/// Detection finds the vendor at `index` if and only if the environment
/// meets every pair of that vendor's gate and the whole gate of no vendor
/// that stands before it in the list.
pub proof fn lemma_first_match(vendors: Seq<DescriptorView>, vars: Variables, index: int)
    ensures
        first_match(vendors, vars) == Some(index) <==> is_first_match(vendors, vars, index),
        first_match(vendors, vars) is None <==> forall|j: int|
            0 <= j < vendors.len() ==> !gate_matches((#[trigger] vendors[j]).gate, vars),
{
    if exists|i: int| is_first_match(vendors, vars, i) {
        let found = choose|i: int| is_first_match(vendors, vars, i);
        if is_first_match(vendors, vars, index) {
            if found < index {
                assert(!gate_matches(vendors[found].gate, vars));
            }
            if index < found {
                assert(!gate_matches(vendors[index].gate, vars));
            }
        }
        assert(gate_matches(vendors[found].gate, vars));
    } else {
        if exists|j: int| 0 <= j < vendors.len() && gate_matches((#[trigger] vendors[j]).gate, vars) {
            let some = choose|j: int|
                0 <= j < vendors.len() && gate_matches((#[trigger] vendors[j]).gate, vars);
            lemma_least_match(vendors, vars, some);
        }
    }
}

/// Where the environment meets some vendor's gate, detection finds a
/// vendor at that position or before it.
pub proof fn lemma_least_match(vendors: Seq<DescriptorView>, vars: Variables, index: int)
    requires
        0 <= index < vendors.len(),
        gate_matches(vendors[index].gate, vars),
    ensures
        exists|i: int| 0 <= i <= index && is_first_match(vendors, vars, i),
    decreases index,
{
    if exists|j: int| 0 <= j < index && gate_matches((#[trigger] vendors[j]).gate, vars) {
        let earlier = choose|j: int|
            0 <= j < index && gate_matches((#[trigger] vendors[j]).gate, vars);
        lemma_least_match(vendors, vars, earlier);
        let i = choose|i: int| 0 <= i <= earlier && is_first_match(vendors, vars, i);
        assert(0 <= i <= index && is_first_match(vendors, vars, i));
    } else {
        assert(is_first_match(vendors, vars, index));
    }
}

/// Priority: where the environment meets the gates of two vendors, the one
/// that stands later in the list is never the one that detection finds, and
/// the one that is found stands at the earlier position or before it.
pub proof fn lemma_priority(vendors: Seq<DescriptorView>, vars: Variables, first: int, second: int)
    requires
        0 <= first < second < vendors.len(),
        gate_matches(vendors[first].gate, vars),
        gate_matches(vendors[second].gate, vars),
    ensures
        first_match(vendors, vars) matches Some(found) && found <= first,
        first_match(vendors, vars) != Some(second),
{
    lemma_least_match(vendors, vars, first);
    let i = choose|i: int| 0 <= i <= first && is_first_match(vendors, vars, i);
    lemma_first_match(vendors, vars, i);
    lemma_first_match(vendors, vars, second);
}

/// A gate fails as soon as one of its variables holds another value than
/// the one that its pair expects, whatever the other variables hold.
pub proof fn lemma_gate_needs_each_pair(
    gate: Seq<(Seq<char>, Seq<char>)>,
    vars: Variables,
    pair: int,
    value: Seq<char>,
)
    requires
        0 <= pair < gate.len(),
        value != gate[pair].1,
    ensures
        !gate_matches(gate, vars.insert(gate[pair].0, value)),
        !gate_matches(gate, vars.remove(gate[pair].0)),
{
    assert(!holds(vars.insert(gate[pair].0, value), gate[pair].0, gate[pair].1));
    assert(!holds(vars.remove(gate[pair].0), gate[pair].0, gate[pair].1));
}

/// A vendor whose gate lost one pair to a change of the environment is not
/// the vendor that detection finds.
pub proof fn lemma_detection_needs_each_pair(
    vendors: Seq<DescriptorView>,
    vars: Variables,
    index: int,
    pair: int,
    value: Seq<char>,
)
    requires
        0 <= index < vendors.len(),
        0 <= pair < vendors[index].gate.len(),
        value != vendors[index].gate[pair].1,
    ensures
        first_match(vendors, vars.insert(vendors[index].gate[pair].0, value)) != Some(index),
{
    let changed = vars.insert(vendors[index].gate[pair].0, value);
    lemma_gate_needs_each_pair(vendors[index].gate, vars, pair, value);
    lemma_first_match(vendors, changed, index);
}

/// A required field that is unset is fatal to eager detection and not to
/// lazy detection. Where the vendor that detection finds has a required
/// field whose variable is absent, eager detection is an error, while lazy
/// detection finds the vendor all the same.
pub proof fn lemma_eager_detection_needs_required_fields(
    vendors: Seq<DescriptorView>,
    vars: Variables,
    index: int,
    field: int,
)
    requires
        is_first_match(vendors, vars, index),
        0 <= field < vendors[index].fields.len(),
        vendors[index].fields[field].required,
        lookup(vars, vendors[index].fields[field].variable) is None,
    ensures
        first_match(vendors, vars) == Some(index),
        eager_outcome(vendors, vars) is Err,
{
    lemma_first_match(vendors, vars, index);
    let fresh = RecordView::fresh(vendors[index]);
    lemma_required_field_is_fatal(fresh, field, field, vars);
}

/// Eager detection succeeds exactly when lazy detection finds a vendor and
/// no required field of that vendor fails to resolve; it finds nothing
/// exactly when lazy detection finds nothing.
pub proof fn lemma_eager_outcome(vendors: Seq<DescriptorView>, vars: Variables)
    ensures
        eager_outcome(vendors, vars) matches Ok(None) <==> first_match(vendors, vars) is None,
        eager_outcome(vendors, vars) is Err <==> (first_match(vendors, vars) matches Some(index)
            && exists|field: int|
            0 <= field < vendors[index].fields.len() && RecordView::fresh(vendors[index]).fails_at(
                field,
                vars,
            )),
{
    if let Some(index) = first_match(vendors, vars) {
        let fresh = RecordView::fresh(vendors[index]);
        lemma_first_failure(fresh, 0, vars);
        let at = fresh.first_failure(0, vars);
        if at < fresh.slots.len() {
            assert(fresh.fails_at(at, vars));
        }
    }
}

/// Finds the first vendor of the list whose gate the environment meets and
/// hands out its record with every field unresolved.
pub fn detect_lazy(vendors: &Vec<VendorDescriptor>, env: &Environment) -> (found: Option<Detection>)
    ensures
        match first_match(descriptor_views(vendors@), env@) {
            Some(index) => found matches Some(detection) && detection.vendor == index
                && detection.record@ == RecordView::fresh(vendors@[index]@)
                && detection.record@.well_formed(),
            None => found is None,
        },
{
    let ghost all = descriptor_views(vendors@);
    let mut i: usize = 0;
    while i < vendors.len()
        invariant
            i <= vendors.len(),
            all == descriptor_views(vendors@),
            forall|j: int| 0 <= j < i ==> !gate_matches((#[trigger] all[j]).gate, env@),
        decreases vendors.len() - i,
    {
        if vendors[i].matches(env) {
            let record = LazyRecord::new(vendors[i].clone());
            proof {
                assert(all[i as int] == vendors@[i as int]@);
                assert(is_first_match(all, env@, i as int));
                lemma_first_match(all, env@, i as int);
            }
            return Some(Detection { vendor: i, record });
        }
        i = i + 1;
    }
    proof {
        lemma_first_match(all, env@, 0);
    }
    None
}

/// Finds the first vendor of the list whose gate the environment meets and
/// resolves every field of its record. A vendor whose gate is met while one
/// of its required fields does not resolve is an error, not an absence: the
/// environment claims to be that vendor's and is not complete.
pub fn detect_eager(vendors: &Vec<VendorDescriptor>, env: &Environment) -> (found: Result<
    Option<Detection>,
    MissingRequiredField,
>)
    ensures
        match eager_outcome(descriptor_views(vendors@), env@) {
            Ok(None) => found matches Ok(None),
            Ok(Some((index, record))) => found matches Ok(Some(detection)) && detection.vendor
                == index && detection.record@ == record && detection.record@.well_formed(),
            Err(failure) => found matches Err(error) && error@ == failure,
        },
{
    match detect_lazy(vendors, env) {
        None => Ok(None),
        Some(detection) => {
            let Detection { vendor, mut record } = detection;
            match record.load(env) {
                Ok(_) => Ok(Some(Detection { vendor, record })),
                Err(failure) => Err(failure),
            }
        },
    }
}

} // verus!
