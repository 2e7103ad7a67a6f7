//! Queries: what to select in a document, expressed with strings (sets,
//! classes, processors) before they are encoded for a particular document.

use vstd::prelude::*;
use crate::types::{ElementType, ElementGroup};
use crate::metadata::ProcessorType;

verus! {

/// What a query does with what it finds.
#[derive(Copy, Clone, PartialEq, Eq, Structural, Debug)]
pub enum Action {
    Select,
}

impl Default for Action {
    fn default() -> (r: Action)
        ensures
            r == Action::Select,
    {
        Action::Select
    }
}

/// A comparison with an optional value.
pub enum Cmp<T> {
    ///Any includes None, unlike Present
    Any,
    Is(T),
    ///Present does not include None, unlike Any
    Present,
    Absent,
    Unmatchable,
}

impl<T> Default for Cmp<T> {
    fn default() -> (r: Cmp<T>)
        ensures
            r is Any,
    {
        Cmp::Any
    }
}

/// A value that a comparison can test for: its test of sameness is verified against a
/// statement of what it means.
pub trait Matchable: Sized {
    /// Whether two values are the same.
    spec fn same_as(&self, other: &Self) -> bool;

    /// Tests whether two values are the same.
    fn same(&self, other: &Self) -> (r: bool)
        ensures
            r == self.same_as(other),
    ;
}

impl Matchable for ElementType {
    open spec fn same_as(&self, other: &Self) -> bool {
        *self == *other
    }

    fn same(&self, other: &Self) -> (r: bool) {
        *self == *other
    }
}

impl Matchable for ElementGroup {
    open spec fn same_as(&self, other: &Self) -> bool {
        *self == *other
    }

    fn same(&self, other: &Self) -> (r: bool) {
        *self == *other
    }
}

impl Matchable for ProcessorType {
    open spec fn same_as(&self, other: &Self) -> bool {
        *self == *other
    }

    fn same(&self, other: &Self) -> (r: bool) {
        *self == *other
    }
}

impl Matchable for String {
    open spec fn same_as(&self, other: &Self) -> bool {
        self@ == other@
    }

    fn same(&self, other: &Self) -> (r: bool) {
        crate::util::str_eq(self.as_str(), other.as_str())
    }
}

impl<T: Matchable> Cmp<T> {
    /// Whether the comparison accepts a value (or its absence).
    pub open spec fn accepts(&self, other: Option<T>) -> bool {
        match self {
            Cmp::Any => true,
            Cmp::Is(v) => other matches Some(x) && v.same_as(&x),
            Cmp::Absent => other is None,
            Cmp::Present => other is Some,
            Cmp::Unmatchable => false,
        }
    }

    ///Tests whether the comparison accepts a value (or its absence)
    pub fn matches(&self, other: Option<&T>) -> (r: bool)
        ensures
            r == self.accepts(match other { Some(x) => Some(*x), None => None }),
    {
        match self {
            Cmp::Any => true,
            Cmp::Is(value) => match other {
                Some(x) => value.same(x),
                None => false,
            },
            Cmp::Absent => other.is_none(),
            Cmp::Present => other.is_some(),
            Cmp::Unmatchable => false,
        }
    }
}

/// A query: constraints on element type, group, set, class, processor and so on.
pub struct Query {
    pub action: Action,
    pub elementtype: Cmp<ElementType>,
    pub elementgroup: Cmp<ElementGroup>,
    ///needed for features
    pub contexttype: Cmp<ElementType>,
    pub set: Cmp<String>,
    pub class: Cmp<String>,
    pub processor: Cmp<String>,
    pub subset: Cmp<String>,
    pub annotator: Cmp<String>,
    pub annotatortype: Cmp<ProcessorType>,
    ///a confidence value, as a literal
    pub confidence: Cmp<String>,
}

impl Query {
    ///Constrains the query by element type
    pub fn element(self, value: Cmp<ElementType>) -> (q: Self)
        ensures
            q == (Query { elementtype: value, ..self }),
    {
        Query { elementtype: value, ..self }
    }

    ///Constrains the query by the type of the element that holds a feature
    pub fn contexttype(self, value: Cmp<ElementType>) -> (q: Self)
        ensures
            q == (Query { contexttype: value, ..self }),
    {
        Query { contexttype: value, ..self }
    }

    ///Constrains the query by element group
    pub fn elementgroup(self, value: Cmp<ElementGroup>) -> (q: Self)
        ensures
            q == (Query { elementgroup: value, ..self }),
    {
        Query { elementgroup: value, ..self }
    }

    ///Constrains the query by set
    pub fn set(self, value: Cmp<String>) -> (q: Self)
        ensures
            q == (Query { set: value, ..self }),
    {
        Query { set: value, ..self }
    }

    ///Constrains the query by class
    pub fn class(self, value: Cmp<String>) -> (q: Self)
        ensures
            q == (Query { class: value, ..self }),
    {
        Query { class: value, ..self }
    }

    ///Constrains the query by processor
    pub fn processor(self, value: Cmp<String>) -> (q: Self)
        ensures
            q == (Query { processor: value, ..self }),
    {
        Query { processor: value, ..self }
    }

    ///Constrains the query by annotator
    pub fn annotator(self, value: Cmp<String>) -> (q: Self)
        ensures
            q == (Query { annotator: value, ..self }),
    {
        Query { annotator: value, ..self }
    }

    ///Constrains the query by annotator type
    pub fn annotatortype(self, value: Cmp<ProcessorType>) -> (q: Self)
        ensures
            q == (Query { annotatortype: value, ..self }),
    {
        Query { annotatortype: value, ..self }
    }

    ///Constrains the query by subset (for features)
    pub fn subset(self, value: Cmp<String>) -> (q: Self)
        ensures
            q == (Query { subset: value, ..self }),
    {
        Query { subset: value, ..self }
    }

    ///Constrains the query by confidence
    pub fn confidence(self, value: Cmp<String>) -> (q: Self)
        ensures
            q == (Query { confidence: value, ..self }),
    {
        Query { confidence: value, ..self }
    }

    ///A query that selects anything
    pub fn select() -> (q: Self)
        ensures
            q.action == Action::Select,
            q.elementtype is Any,
            q.elementgroup is Any,
            q.contexttype is Any,
            q.set is Any,
            q.class is Any,
            q.processor is Any,
            q.subset is Any,
            q.annotator is Any,
            q.annotatortype is Any,
            q.confidence is Any,
    {
        Query {
            action: Action::Select,
            elementtype: Cmp::Any,
            elementgroup: Cmp::Any,
            contexttype: Cmp::Any,
            set: Cmp::Any,
            class: Cmp::Any,
            processor: Cmp::Any,
            subset: Cmp::Any,
            annotator: Cmp::Any,
            annotatortype: Cmp::Any,
            confidence: Cmp::Any,
        }
    }
}

impl Default for Query {
    fn default() -> (q: Self)
        ensures
            q.elementtype is Any,
            q.elementgroup is Any,
            q.contexttype is Any,
            q.set is Any,
            q.class is Any,
            q.processor is Any,
            q.subset is Any,
    {
        Query::select()
    }
}

} // verus!
