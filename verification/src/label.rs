//! The labels under which tasks are registered and shown.

use crate::text::{str_less, text_less};
use std::cmp::Ordering;
use vstd::prelude::*;

verus! {

/// The name of a task.
#[derive(Eq, Debug, Hash, Ord)]
pub struct TaskLabel(String);

impl View for TaskLabel {
    type V = Seq<char>;

    closed spec fn view(&self) -> Seq<char> {
        self.0@
    }
}

impl TaskLabel {
    /// A label with the given name.
    pub fn new<S: Into<String>>(s: S) -> (label: Self)
        ensures
            exists|name: String| #[trigger] call_ensures(S::into, (s,), name) && label@ == name@,
    {
        let name: String = s.into();
        TaskLabel(name)
    }

    /// The name that this label stands for.
    pub fn ident(&self) -> (name: &str)
        ensures
            name@ == self@,
    {
        self.0.as_str()
    }

    /// The label as it is written out: its name.
    pub fn to_string(&self) -> (text: String)
        ensures
            text@ == self@,
    {
        self.0.clone()
    }

    /// Whether this label has the name `name`.
    pub fn is_named(&self, name: &TaskLabel) -> (same: bool)
        ensures
            same == (self@ == name@),
    {
        self.0 == name.0
    }
}

impl PartialEq for TaskLabel {
    fn eq(&self, other: &TaskLabel) -> (same: bool) {
        self.is_named(other)
    }
}

impl vstd::std_specs::cmp::PartialEqSpecImpl for TaskLabel {
    open spec fn obeys_eq_spec() -> bool {
        true
    }

    /// Labels are the same where their names are.
    open spec fn eq_spec(&self, other: &TaskLabel) -> bool {
        self@ == other@
    }
}

impl PartialOrd for TaskLabel {
    fn partial_cmp(&self, other: &TaskLabel) -> (order: Option<Ordering>) {
        if str_less(self.ident(), other.ident()) {
            Some(Ordering::Less)
        } else if self.is_named(other) {
            Some(Ordering::Equal)
        } else {
            Some(Ordering::Greater)
        }
    }
}

impl vstd::std_specs::cmp::PartialOrdSpecImpl for TaskLabel {
    open spec fn obeys_partial_cmp_spec() -> bool {
        true
    }

    /// Labels are ordered as their names are.
    open spec fn partial_cmp_spec(&self, other: &TaskLabel) -> Option<Ordering> {
        if text_less(self@, other@) {
            Some(Ordering::Less)
        } else if self@ == other@ {
            Some(Ordering::Equal)
        } else {
            Some(Ordering::Greater)
        }
    }
}

impl Clone for TaskLabel {
    fn clone(&self) -> (label: Self)
        ensures
            label@ == self@,
    {
        TaskLabel::new(self.0.clone())
    }
}

} // verus!
