//! A snapshot of the environment variables that detection reads.
//!
//! The library never reads the process environment itself. Its caller takes
//! the variables once and hands them over as an [`Environment`], so that the
//! same variables give the same answers.

use crate::path::{path_of, to_path};
use crate::text::{bool_value, bounded_value, parse_bool, parse_u32, parse_usize, same_text};
use std::path::PathBuf;
use vstd::prelude::*;

verus! {

/// The variables of an environment: a map from each name that is set to its
/// value. A name that is set to the empty text is in the map.
pub type Variables = Map<Seq<char>, Seq<char>>;

/// The value that a lookup of `name` gives: the value that the name is set
/// to, unless that value is empty. A name that is not set and a name that is
/// set to the empty text are both absent.
pub open spec fn lookup(vars: Variables, name: Seq<char>) -> Option<Seq<char>> {
    if vars.contains_key(name) && vars[name].len() > 0 {
        Some(vars[name])
    } else {
        None
    }
}

/// The variable `name` is set to exactly `expected`, which is not empty.
pub open spec fn holds(vars: Variables, name: Seq<char>, expected: Seq<char>) -> bool {
    lookup(vars, name) == Some(expected)
}

/// The value of a variable with one text taken out: where the variable holds
/// exactly `sentinel`, the vendor means that there is no value.
pub open spec fn lookup_unless(vars: Variables, name: Seq<char>, sentinel: Seq<char>) -> Option<
    Seq<char>,
> {
    match lookup(vars, name) {
        Some(text) => if text == sentinel {
            None
        } else {
            Some(text)
        },
        None => None,
    }
}

/// The truth value that a variable holds: absent when the variable is absent
/// or holds anything but `true` or `false`.
pub open spec fn flag_in(vars: Variables, name: Seq<char>) -> Option<bool> {
    match lookup(vars, name) {
        Some(text) => bool_value(text),
        None => None,
    }
}

/// The number that a variable holds: absent when the variable is absent, is
/// no unsigned base-10 integer, or exceeds `max`.
pub open spec fn number_in(vars: Variables, name: Seq<char>, max: nat) -> Option<nat> {
    match lookup(vars, name) {
        Some(text) => bounded_value(text, max),
        None => None,
    }
}

/// The path that a variable holds. Every text that is not empty is a path.
pub open spec fn path_in(vars: Variables, name: Seq<char>) -> Option<PathBuf> {
    match lookup(vars, name) {
        Some(text) => Some(path_of(text)),
        None => None,
    }
}

/// The number in an optional 32-bit integer.
pub open spec fn u32_of(value: Option<u32>) -> Option<nat> {
    match value {
        Some(n) => Some(n as nat),
        None => None,
    }
}

/// The number in an optional machine word.
pub open spec fn usize_of(value: Option<usize>) -> Option<nat> {
    match value {
        Some(n) => Some(n as nat),
        None => None,
    }
}

/// The characters of an optional string.
pub open spec fn text_of(value: Option<String>) -> Option<Seq<char>> {
    match value {
        Some(s) => Some(s@),
        None => None,
    }
}

/// The characters of each name and value of a list of bindings.
pub open spec fn binding_texts(pairs: Seq<(String, String)>) -> Seq<(Seq<char>, Seq<char>)> {
    Seq::new(pairs.len(), |i: int| (pairs[i].0@, pairs[i].1@))
}

/// The variables that a list of bindings sets. Where a name occurs more than
/// once, the binding that comes last holds.
pub open spec fn bindings_map(bindings: Seq<(Seq<char>, Seq<char>)>) -> Variables
    decreases bindings.len(),
{
    if bindings.len() == 0 {
        Map::empty()
    } else {
        bindings_map(bindings.drop_last()).insert(bindings.last().0, bindings.last().1)
    }
}

/// A fixed set of environment variables.
pub struct Environment {
    bindings: Vec<(String, String)>,
}

impl View for Environment {
    type V = Variables;

    closed spec fn view(&self) -> Variables {
        bindings_map(binding_texts(self.bindings@))
    }
}

impl Environment {
    /// The environment in which no variable is set.
    pub fn new() -> (env: Environment)
        ensures
            env@ == Map::<Seq<char>, Seq<char>>::empty(),
    {
        Environment { bindings: Vec::new() }
    }

    /// The environment that a list of `(name, value)` bindings describes,
    /// such as the one that `std::env::vars()` yields.
    pub fn from_pairs(pairs: Vec<(String, String)>) -> (env: Environment)
        ensures
            env@ == bindings_map(binding_texts(pairs@)),
    {
        Environment { bindings: pairs }
    }

    /// Sets `name` to `value`, in place of any value it had.
    pub fn set(&mut self, name: &str, value: &str)
        ensures
            final(self)@ == old(self)@.insert(name@, value@),
    {
        let ghost before = binding_texts(self.bindings@);
        self.bindings.push((name.to_owned(), value.to_owned()));
        assert(binding_texts(self.bindings@).drop_last() =~= before);
    }

    /// Looks a variable up by its exact name. The result is `None` both when
    /// the variable is not set and when it is set to the empty text.
    pub fn lookup(&self, name: &str) -> (value: Option<String>)
        ensures
            text_of(value) == lookup(self@, name@),
    {
        let ghost all = binding_texts(self.bindings@);
        let mut i: usize = self.bindings.len();
        assert(all.take(i as int) =~= all);
        while i > 0
            invariant
                i <= self.bindings.len(),
                all == binding_texts(self.bindings@),
                bindings_map(all).contains_key(name@) == bindings_map(all.take(i as int)).contains_key(
                    name@,
                ),
                bindings_map(all).contains_key(name@) ==> bindings_map(all)[name@] == bindings_map(
                    all.take(i as int),
                )[name@],
            decreases i,
        {
            i = i - 1;
            assert(all.take(i + 1).drop_last() =~= all.take(i as int));
            assert(all.take(i + 1).last() == all[i as int]);
            let binding = &self.bindings[i];
            if same_text(binding.0.as_str(), name) {
                if binding.1.as_str().is_empty() {
                    return None;
                }
                return Some(binding.1.clone());
            }
        }
        assert(all.take(0).len() == 0);
        None
    }

    /// Whether `name` is set to exactly `expected`.
    pub fn holds(&self, name: &str, expected: &str) -> (held: bool)
        ensures
            held == holds(self@, name@, expected@),
    {
        match self.lookup(name) {
            Some(text) => same_text(text.as_str(), expected),
            None => false,
        }
    }

    /// Looks a variable up and takes the text `sentinel` for no value.
    pub fn lookup_unless(&self, name: &str, sentinel: &str) -> (value: Option<String>)
        ensures
            text_of(value) == lookup_unless(self@, name@, sentinel@),
    {
        match self.lookup(name) {
            Some(text) => if same_text(text.as_str(), sentinel) {
                None
            } else {
                Some(text)
            },
            None => None,
        }
    }

    /// Looks a truth value up.
    pub fn flag(&self, name: &str) -> (value: Option<bool>)
        ensures
            value == flag_in(self@, name@),
    {
        match self.lookup(name) {
            Some(text) => parse_bool(text.as_str()),
            None => None,
        }
    }

    /// Looks a 32-bit unsigned integer up.
    pub fn number(&self, name: &str) -> (value: Option<u32>)
        ensures
            u32_of(value) == number_in(self@, name@, u32::MAX as nat),
    {
        match self.lookup(name) {
            Some(text) => parse_u32(text.as_str()),
            None => None,
        }
    }

    /// Looks an unsigned integer of the machine's word size up.
    pub fn size(&self, name: &str) -> (value: Option<usize>)
        ensures
            usize_of(value) == number_in(self@, name@, usize::MAX as nat),
    {
        match self.lookup(name) {
            Some(text) => parse_usize(text.as_str()),
            None => None,
        }
    }

    /// Looks a path up.
    pub fn path(&self, name: &str) -> (value: Option<PathBuf>)
        ensures
            value == path_in(self@, name@),
    {
        match self.lookup(name) {
            Some(text) => Some(to_path(text)),
            None => None,
        }
    }
}

} // verus!
