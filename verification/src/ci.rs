//! The vendor that a process runs under, whichever it is.

use crate::circle::Circle;
use crate::descriptor::{DescriptorView, VendorDescriptor};
use crate::detect::{
    descriptor_views, detect_eager, detect_lazy, eager_outcome, first_match, lemma_first_match,
};
use crate::environment::Environment;
use crate::record::{MissingRequiredField, RecordView};
use vstd::prelude::*;

verus! {

/// Grab the configuration from whatever CI you're on.
#[derive(Debug)]
#[non_exhaustive]
pub enum CI {
    /// Circle CI
    Circle(Box<Circle>),
}

impl View for CI {
    type V = RecordView;

    open spec fn view(&self) -> RecordView {
        match self {
            CI::Circle(circle) => circle@,
        }
    }
}

impl Clone for CI {
    fn clone(&self) -> (copy: CI)
        ensures
            copy@ == self@,
            copy.vendor() == self.vendor(),
    {
        match self {
            CI::Circle(circle) => CI::Circle(Box::new((**circle).clone())),
        }
    }
}

impl CI {
    /// The vendors that detection knows, in the order of their priority:
    /// where the environment meets the gates of two, the first is taken.
    pub open spec fn catalog() -> Seq<DescriptorView> {
        seq![Circle::table()]
    }

    /// The position of this vendor in the catalog.
    pub open spec fn vendor(&self) -> int {
        match self {
            CI::Circle(_) => 0,
        }
    }

    /// The record is well formed and one of the vendor that the variant
    /// names.
    pub open spec fn well_formed(&self) -> bool {
        &&& self@.descriptor == CI::catalog()[self.vendor()]
        &&& self@.well_formed()
    }

    /// The descriptors of the vendors that detection knows, in the order of
    /// their priority.
    pub fn priority() -> (vendors: Vec<VendorDescriptor>)
        ensures
            descriptor_views(vendors@) == CI::catalog(),
    {
        let mut vendors: Vec<VendorDescriptor> = Vec::new();
        vendors.push(Circle::descriptor());
        assert(descriptor_views(vendors@) =~= CI::catalog());
        vendors
    }

    /// Grab the CI environment information lazily: the first vendor of the
    /// catalog whose gate the environment meets, with no field read yet.
    pub fn lazy(env: &Environment) -> (ci: Option<CI>)
        ensures
            match first_match(CI::catalog(), env@) {
                Some(index) => ci matches Some(found) && found.vendor() == index && found@
                    == RecordView::fresh(CI::catalog()[index]) && found.well_formed(),
                None => ci is None,
            },
    {
        let vendors = CI::priority();
        proof {
            lemma_first_match(CI::catalog(), env@, 0);
        }
        match detect_lazy(&vendors, env) {
            Some(detection) => {
                assert(descriptor_views(vendors@)[0] == vendors@[0]@);
                Some(CI::Circle(Box::new(Circle::from_record(detection.record))))
            },
            None => None,
        }
    }

    /// Grab the CI environment information eagerly: the first vendor of the
    /// catalog whose gate the environment meets, with every field read. It
    /// is an error, and no absence, if a required field of that vendor does
    /// not resolve.
    pub fn eager(env: &Environment) -> (ci: Result<Option<CI>, MissingRequiredField>)
        ensures
            match eager_outcome(CI::catalog(), env@) {
                Ok(None) => ci matches Ok(None),
                Ok(Some((index, record))) => ci matches Ok(Some(found)) && found.vendor() == index
                    && found@ == record && found.well_formed(),
                Err(failure) => ci matches Err(error) && error@ == failure,
            },
    {
        let vendors = CI::priority();
        proof {
            lemma_first_match(CI::catalog(), env@, 0);
        }
        match detect_eager(&vendors, env) {
            Ok(Some(detection)) => {
                assert(descriptor_views(vendors@)[0] == vendors@[0]@);
                Ok(Some(CI::Circle(Box::new(Circle::from_record(detection.record)))))
            },
            Ok(None) => Ok(None),
            Err(failure) => Err(failure),
        }
    }
}

} // verus!
