//! Selection of the data items in a document: a selector (an encoded query)
//! and a depth-first walk over the data under an element.

use vstd::prelude::*;
use crate::types::{ElementType, ElementGroup, ElementKey, DecKey, ClassKey, ProcKey, SubsetKey, DataType};
use crate::document::Document;
use crate::element::Element;
use crate::query::{Action, Cmp, Query};
use crate::error::FoliaError;
use crate::metadata::{Declaration, declaration_id, opt_index};

verus! {

/// The kinds of data items that a selector yields.
#[derive(Copy, Clone, PartialEq, Eq, Structural, Debug)]
pub enum DataTypeSelector {
    Elements,
    Text,
    Comments,
}

///The selector defines matching criteria for a selection.
///It is constructed from a ``Query`` given a document, i.e. it is the encoded
///form of a query.
pub struct Selector {
    pub action: Action,
    ///if left empty, matches anything
    pub datatypes: Vec<DataTypeSelector>,
    pub elementtype: Cmp<ElementType>,
    pub elementgroup: Cmp<ElementGroup>,
    ///only used for features
    pub contexttype: Cmp<ElementType>,
    pub set: Cmp<DecKey>,
    pub class: Cmp<ClassKey>,
    pub processor: Cmp<ProcKey>,
    pub subset: Cmp<SubsetKey>,
    pub confidence: Cmp<String>,
    ///another selector, whose matches are added to the matches of this one
    pub next: Option<Box<Selector>>,
}

/// An element that a selector (not joined with another) accepts meets each of its constraints:
/// its type and group, and the set, subset, class and processor that the selector names (or
/// their absence where it asks for none).
pub proof fn lemma_accepted_meets_constraints(s: Selector, doc: Document, k: ElementKey)
    requires
        s.next is None,
        s.accepts(doc, DataType::Element(k)),
    ensures
        doc.element_at(k as int) is Some,
        ({
            let e = doc.element_at(k as int)->0;
            &&& s.elementtype matches Cmp::Is(t) ==> e.elementtype == t
            &&& s.elementgroup matches Cmp::Is(g) ==> g.has(e.elementtype)
            &&& s.set matches Cmp::Is(x) ==> e.dec_key_of() == Some(x)
            &&& s.subset matches Cmp::Is(x) ==> e.subset_key_of() == Some(x)
            &&& s.class matches Cmp::Is(x) ==> e.class_key_of() == Some(x)
            &&& s.processor matches Cmp::Is(x) ==> e.proc_key_of() == Some(x)
            &&& s.set is Absent ==> e.dec_key_of() is None
            &&& s.subset is Absent ==> e.subset_key_of() is None
            &&& s.class is Absent ==> e.class_key_of() is None
            &&& s.processor is Absent ==> e.proc_key_of() is None
            &&& s.set is Present ==> e.dec_key_of() is Some
            &&& s.subset is Present ==> e.subset_key_of() is Some
            &&& s.class is Present ==> e.class_key_of() is Some
            &&& s.processor is Present ==> e.proc_key_of() is Some
        }),
{
}

/// Whether a comparison on element groups accepts an element type.
pub open spec fn group_accepts(c: Cmp<ElementGroup>, t: ElementType) -> bool {
    match c {
        Cmp::Is(g) => g.has(t),
        Cmp::Any | Cmp::Present => true,
        Cmp::Absent | Cmp::Unmatchable => false,
    }
}

/// Whether a comparison on element types accepts an element type.
pub open spec fn type_accepts(c: Cmp<ElementType>, t: ElementType) -> bool {
    match c {
        Cmp::Is(x) => x == t,
        Cmp::Any | Cmp::Present => true,
        Cmp::Absent | Cmp::Unmatchable => false,
    }
}

/// Whether a comparison on keys accepts a key (or its absence).
pub open spec fn key_accepts<T>(c: Cmp<T>, v: Option<T>) -> bool {
    match c {
        Cmp::Is(x) => v == Some(x),
        Cmp::Any => true,
        Cmp::Present => v is Some,
        Cmp::Absent => v is None,
        Cmp::Unmatchable => false,
    }
}

/// Compares a key with a comparison on keys.
fn key_matches<T: Copy + PartialEq + vstd::std_specs::cmp::PartialEqSpec>(c: &Cmp<T>, v: Option<T>) -> (r: bool)
    requires
        T::obeys_eq_spec(),
        forall|a: T, b: T| a.eq_spec(&b) <==> a == b,
    ensures
        r == key_accepts(*c, v),
{
    match c {
        Cmp::Is(x) => match v {
            Some(y) => *x == y,
            None => false,
        },
        Cmp::Any => true,
        Cmp::Present => v.is_some(),
        Cmp::Absent => v.is_none(),
        Cmp::Unmatchable => false,
    }
}

/// A copy of a comparison on element types.
pub fn copy_type_constraint(c: &Cmp<ElementType>) -> (r: Cmp<ElementType>)
    ensures
        r == *c,
{
    match c {
        Cmp::Is(x) => Cmp::Is(*x),
        Cmp::Any => Cmp::Any,
        Cmp::Present => Cmp::Present,
        Cmp::Absent => Cmp::Absent,
        Cmp::Unmatchable => Cmp::Unmatchable,
    }
}

/// A copy of a comparison on element groups.
pub fn copy_group_constraint(c: &Cmp<ElementGroup>) -> (r: Cmp<ElementGroup>)
    ensures
        r == *c,
{
    match c {
        Cmp::Is(x) => Cmp::Is(*x),
        Cmp::Any => Cmp::Any,
        Cmp::Present => Cmp::Present,
        Cmp::Absent => Cmp::Absent,
        Cmp::Unmatchable => Cmp::Unmatchable,
    }
}

impl Default for Selector {
    fn default() -> (s: Self)
        ensures
            s.is_default(),
    {
        Selector {
            action: Action::Select,
            datatypes: Vec::new(),
            elementtype: Cmp::Any,
            elementgroup: Cmp::Any,
            contexttype: Cmp::Any,
            set: Cmp::Any,
            class: Cmp::Any,
            processor: Cmp::Any,
            subset: Cmp::Any,
            confidence: Cmp::Any,
            next: None,
        }
    }
}

impl Selector {
    /// A selector that constrains nothing (but selects no text or comments).
    pub open spec fn is_default(&self) -> bool {
        self.datatypes@.len() == 0 && self.unconstrained()
    }

    /// No constraint but the kinds of data items.
    pub open spec fn unconstrained(&self) -> bool {
        &&& self.action == Action::Select
        &&& self.elementtype is Any
        &&& self.elementgroup is Any
        &&& self.contexttype is Any
        &&& self.set is Any
        &&& self.class is Any
        &&& self.processor is Any
        &&& self.subset is Any
        &&& self.confidence is Any
        &&& self.next is None
    }

    /// The selector is the encoded form of the query for the document.
    pub open spec fn encodes(&self, doc: Document, query: Query) -> bool {
        let set = encoded_set(doc, query);
        &&& self.action == Action::Select
        &&& self.datatypes@ == seq![DataTypeSelector::Elements]
        &&& self.elementtype == query.elementtype
        &&& self.elementgroup == query.elementgroup
        &&& self.contexttype == query.contexttype
        &&& self.set == set
        &&& self.subset == encoded_subset(doc, query, set)
        &&& self.class == encoded_class(doc, query, set, self.subset)
        &&& self.processor == encoded_processor(doc, query)
        &&& self.confidence is Any
        &&& self.next is None
    }

    /// The selector refers to sets, classes and processors that exist.
    pub open spec fn is_matchable(&self) -> bool {
        !(self.set is Unmatchable) && !(self.class is Unmatchable) && !(self.processor is Unmatchable)
    }

    /// Whether the selector (or one it was joined with) matches a data item of the document.
    pub open spec fn accepts(&self, doc: Document, item: DataType) -> bool
        decreases self,
    {
        let here = match item {
            DataType::Element(k) | DataType::SpanReference(k) => {
                &&& (self.datatypes@.len() == 0 || self.datatypes@.contains(DataTypeSelector::Elements))
                &&& match doc.element_at(k as int) {
                    Some(e) => {
                        &&& group_accepts(self.elementgroup, e.elementtype)
                        &&& type_accepts(self.elementtype, e.elementtype)
                        &&& key_accepts(self.set, e.dec_key_of())
                        &&& key_accepts(self.subset, e.subset_key_of())
                        &&& key_accepts(self.class, e.class_key_of())
                        &&& key_accepts(self.processor, e.proc_key_of())
                    },
                    None => false,
                }
            },
            DataType::Text(_) => self.datatypes@.len() == 0 || self.datatypes@.contains(DataTypeSelector::Text),
            DataType::Comment(_) => self.datatypes@.len() == 0 || self.datatypes@.contains(DataTypeSelector::Comments),
            DataType::AddElement(_) => false,
        };
        here || match self.next {
            Some(n) => n.accepts(doc, item),
            None => false,
        }
    }

    ///Creates a selector on elements
    pub fn elements() -> (s: Self)
        ensures
            s.unconstrained(),
            s.datatypes@ == seq![DataTypeSelector::Elements],
    {
        let mut selector = Selector::default();
        selector.datatypes = vec![DataTypeSelector::Elements];
        selector
    }

    ///Creates a selector on all data (alias for Selector::default())
    pub fn all_data() -> (s: Self)
        ensures
            s.is_default(),
    {
        Selector::default()
    }

    ///Sets the selector to also yield FoLiA elements
    pub fn with_elements(self) -> (s: Self)
        ensures
            s.datatypes@ == self.datatypes@.push(DataTypeSelector::Elements),
            s == (Selector { datatypes: s.datatypes, ..self }),
    {
        let mut s = self;
        s.datatypes.push(DataTypeSelector::Elements);
        s
    }

    ///Sets the selector to also yield XML text
    pub fn with_text(self) -> (s: Self)
        ensures
            s.datatypes@ == self.datatypes@.push(DataTypeSelector::Text),
            s == (Selector { datatypes: s.datatypes, ..self }),
    {
        let mut s = self;
        s.datatypes.push(DataTypeSelector::Text);
        s
    }

    ///Sets the selector to also yield XML comments
    pub fn with_comments(self) -> (s: Self)
        ensures
            s.datatypes@ == self.datatypes@.push(DataTypeSelector::Comments),
            s == (Selector { datatypes: s.datatypes, ..self }),
    {
        let mut s = self;
        s.datatypes.push(DataTypeSelector::Comments);
        s
    }

    ///Constrains the selector by element type
    pub fn element(self, value: Cmp<ElementType>) -> (s: Self)
        ensures
            s == (Selector { elementtype: value, ..self }),
    {
        Selector { elementtype: value, ..self }
    }

    ///Constrains the selector by element group
    pub fn elementgroup(self, value: Cmp<ElementGroup>) -> (s: Self)
        ensures
            s == (Selector { elementgroup: value, ..self }),
    {
        Selector { elementgroup: value, ..self }
    }

    /// The selectors joined in this one, in order, each without the ones that follow it.
    pub open spec fn chain(self) -> Seq<Selector>
        decreases self,
    {
        let head = Selector { next: None, ..self };
        match self.next {
            Some(n) => seq![head] + n.chain(),
            None => seq![head],
        }
    }

    ///Add another selector, the resulting selection will then consist of the union
    ///of the selectors. This can be chained multiple times.
    pub fn and(self, selector: Selector) -> (s: Self)
        ensures
            s.chain() == self.chain() + selector.chain(),
            forall|doc: Document, item: DataType| #[trigger] s.accepts(doc, item)
                == (self.accepts(doc, item) || selector.accepts(doc, item)),
        decreases self,
    {
        let ghost orig = self;
        let Selector { action, datatypes, elementtype, elementgroup, contexttype, set, class, processor, subset,
            confidence, next } = self;
        let rest = match next {
            Some(n) => (*n).and(selector),
            None => selector,
        };
        let s = Selector { action, datatypes, elementtype, elementgroup, contexttype, set, class, processor, subset,
            confidence, next: Some(Box::new(rest)) };
        proof {
            match orig.next {
                Some(n) => {
                    assert(s.chain() =~= seq![Selector { next: None, ..orig }] + rest.chain());
                    assert(orig.chain() + selector.chain() =~= seq![Selector { next: None, ..orig }] + (n.chain() + selector.chain()));
                },
                None => {
                    assert(s.chain() =~= orig.chain() + selector.chain());
                },
            }
            assert forall|doc: Document, item: DataType| #[trigger] s.accepts(doc, item)
                == (orig.accepts(doc, item) || selector.accepts(doc, item)) by {
                assert(s.accepts(doc, item) == (Selector { next: None, ..s }.accepts(doc, item) || rest.accepts(doc, item)));
                assert(Selector { next: None, ..s } == Selector { next: None, ..orig });
            }
        }
        s
    }

    ///The selector determines whether it is matchable in the encoding stage, when references are
    ///made to sets or classes that don't exist in the document, then it is unmatchable and there
    ///is no sense in actually performing any matching.
    pub fn matchable(&self) -> (r: bool)
        ensures
            r == self.is_matchable(),
    {
        !(matches!(self.set, Cmp::Unmatchable) || matches!(self.class, Cmp::Unmatchable)
            || matches!(self.processor, Cmp::Unmatchable))
    }

    /// Whether the selector lists a kind of data item.
    fn has_datatype(&self, t: DataTypeSelector) -> (r: bool)
        ensures
            r == self.datatypes@.contains(t),
    {
        let mut i: usize = 0;
        while i < self.datatypes.len()
            invariant
                i <= self.datatypes@.len(),
                forall|j: int| 0 <= j < i ==> self.datatypes@[j] != t,
            decreases self.datatypes@.len() - i,
        {
            if self.datatypes[i] == t {
                assert(self.datatypes@[i as int] == t);
                return true;
            }
            i += 1;
        }
        false
    }

    ///Tests if the selector matches against the specified data item of a document.
    pub fn matches(&self, document: &Document, item: &DataType) -> (r: bool)
        requires
            document.wf(),
        ensures
            r == self.accepts(*document, *item),
        decreases self,
    {
        let here = match item {
            DataType::Element(key) | DataType::SpanReference(key) => {
                if self.datatypes.len() > 0 && !self.has_datatype(DataTypeSelector::Elements) {
                    false
                } else {
                    match document.get_element(*key) {
                        Some(element) => {
                            let t = element.elementtype();
                            let group_ok = match &self.elementgroup {
                                Cmp::Is(g) => g.contains(t),
                                Cmp::Any | Cmp::Present => true,
                                Cmp::Absent | Cmp::Unmatchable => false,
                            };
                            let type_ok = match &self.elementtype {
                                Cmp::Is(x) => *x == t,
                                Cmp::Any | Cmp::Present => true,
                                Cmp::Absent | Cmp::Unmatchable => false,
                            };
                            group_ok && type_ok && key_matches(&self.set, element.declaration_key())
                                && key_matches(&self.subset, element.subset_key())
                                && key_matches(&self.class, element.class_key())
                                && key_matches(&self.processor, element.processor_key())
                        },
                        None => false,
                    }
                }
            },
            DataType::Text(_) => self.datatypes.len() == 0 || self.has_datatype(DataTypeSelector::Text),
            DataType::Comment(_) => self.datatypes.len() == 0 || self.has_datatype(DataTypeSelector::Comments),
            DataType::AddElement(_) => false,
        };
        match &self.next {
            Some(n) => here || n.matches(document, item),
            None => here,
        }
    }
}

/// The element type whose annotation type a query's set belongs to: the context type when
/// the query constrains a subset (features), the element type otherwise.
pub open spec fn elementtype_source(q: Query) -> Cmp<ElementType> {
    match q.subset {
        Cmp::Present | Cmp::Is(_) => q.contexttype,
        _ => q.elementtype,
    }
}

/// The declaration that a query's set stands for in a document.
pub open spec fn encoded_set(doc: Document, q: Query) -> Cmp<DecKey> {
    let lookup = |set: Option<Seq<char>>| match elementtype_source(q) {
        Cmp::Is(t) => match t.annotation() {
            Some(a) => if doc.declaration_index().contains_key(declaration_id(a, set)) {
                Cmp::Is(doc.declaration_index()[declaration_id(a, set)] as DecKey)
            } else {
                Cmp::Unmatchable
            },
            None => Cmp::Unmatchable,
        },
        _ => Cmp::Unmatchable,
    };
    match q.set {
        Cmp::Is(set) => lookup(Some(set@)),
        Cmp::Absent => lookup(None),
        Cmp::Any => Cmp::Any,
        Cmp::Present => Cmp::Present,
        Cmp::Unmatchable => Cmp::Unmatchable,
    }
}

/// The subset that a query's subset stands for, given the encoded set.
pub open spec fn encoded_subset(doc: Document, q: Query, set: Cmp<DecKey>) -> Cmp<SubsetKey> {
    match q.subset {
        Cmp::Is(subset) => match set {
            Cmp::Is(k) => match doc.declaration_at(k as int) {
                Some(d) => if opt_index(d.subsets).contains_key(subset@) {
                    Cmp::Is(opt_index(d.subsets)[subset@] as SubsetKey)
                } else {
                    Cmp::Unmatchable
                },
                None => Cmp::Unmatchable,
            },
            _ => Cmp::Unmatchable,
        },
        Cmp::Any => Cmp::Any,
        Cmp::Present => Cmp::Present,
        Cmp::Absent => Cmp::Absent,
        Cmp::Unmatchable => Cmp::Unmatchable,
    }
}

/// The class that a query's class stands for, given the encoded set and subset: a subclass
/// where a subset is asked for.
pub open spec fn encoded_class(doc: Document, q: Query, set: Cmp<DecKey>, subset: Cmp<SubsetKey>) -> Cmp<ClassKey> {
    match q.class {
        Cmp::Is(class) => match set {
            Cmp::Is(k) => match doc.declaration_at(k as int) {
                Some(d) => {
                    let store = match subset {
                        Cmp::Is(_) | Cmp::Present => d.subclasses,
                        _ => d.classes,
                    };
                    if opt_index(store).contains_key(class@) {
                        Cmp::Is(opt_index(store)[class@] as ClassKey)
                    } else {
                        Cmp::Unmatchable
                    }
                },
                None => Cmp::Unmatchable,
            },
            _ => Cmp::Unmatchable,
        },
        Cmp::Any => Cmp::Any,
        Cmp::Present => Cmp::Present,
        Cmp::Absent => Cmp::Absent,
        Cmp::Unmatchable => Cmp::Unmatchable,
    }
}

/// The processor that a query's processor stands for in a document.
pub open spec fn encoded_processor(doc: Document, q: Query) -> Cmp<ProcKey> {
    match q.processor {
        Cmp::Is(id) => if doc.processor_index().contains_key(id@) {
            Cmp::Is(doc.processor_index()[id@] as ProcKey)
        } else {
            Cmp::Unmatchable
        },
        Cmp::Any => Cmp::Any,
        Cmp::Present => Cmp::Present,
        Cmp::Absent => Cmp::Absent,
        Cmp::Unmatchable => Cmp::Unmatchable,
    }
}

/// Encodes a set for a query, looking up the declaration of the given set (or of no set).
fn lookup_set(document: &Document, source: &Cmp<ElementType>, set: Option<&str>) -> (r: Cmp<DecKey>)
    requires
        document.wf(),
    ensures
        r == match *source {
            Cmp::Is(t) => match t.annotation() {
                Some(a) => {
                    let id = declaration_id(a, match set { Some(s) => Some(s@), None => None });
                    if document.declaration_index().contains_key(id) {
                        Cmp::Is(document.declaration_index()[id] as DecKey)
                    } else {
                        Cmp::<DecKey>::Unmatchable
                    }
                },
                None => Cmp::Unmatchable,
            },
            _ => Cmp::Unmatchable,
        },
{
    match source {
        Cmp::Is(t) => match t.annotationtype() {
            Some(a) => match document.get_declaration_key_by_id(Declaration::index_id(a, &set).as_str()) {
                Some(k) => Cmp::Is(k),
                None => Cmp::Unmatchable,
            },
            None => Cmp::Unmatchable,
        },
        _ => Cmp::Unmatchable,
    }
}

impl Selector {
    ///Builds a new selector given a query and a document (effectively encoding the query into a
    ///selector for the specified document). Sets, classes, subsets and processors that the
    ///document does not have make the selector unmatchable. A subset can only be encoded
    ///together with a context type and a set.
    pub fn from_query(document: &Document, query: &Query) -> (r: Result<Selector, FoliaError>)
        requires
            document.wf(),
        ensures
            ({
                let set = encoded_set(*document, *query);
                &&& (query.subset is Is && !(set is Is)) ==> (r matches Err(FoliaError::QueryError(m))
                    && m@ == "Selector::from_query() can't match on a subset without a contexttype and a set, Add a .contextype() and .set() call."@)
                &&& !(query.subset is Is && !(set is Is)) ==> (r matches Ok(s) && s.encodes(*document, *query))
            }),
    {
        let source = match &query.subset {
            Cmp::Present | Cmp::Is(_) => &query.contexttype,
            _ => &query.elementtype,
        };
        let set: Cmp<DecKey> = match &query.set {
            Cmp::Is(set) => lookup_set(document, source, Some(set.as_str())),
            Cmp::Absent => lookup_set(document, source, None),
            Cmp::Any => Cmp::Any,
            Cmp::Present => Cmp::Present,
            Cmp::Unmatchable => Cmp::Unmatchable,
        };
        let subset: Cmp<SubsetKey> = match &query.subset {
            Cmp::Is(subset) => match &set {
                Cmp::Is(k) => match document.get_declaration(*k) {
                    Some(d) => match d.subset_key(subset.as_str()) {
                        Some(x) => Cmp::Is(x),
                        None => Cmp::Unmatchable,
                    },
                    None => Cmp::Unmatchable,
                },
                _ => {
                    return Err(FoliaError::QueryError("Selector::from_query() can't match on a subset without a contexttype and a set, Add a .contextype() and .set() call.".to_owned()));
                },
            },
            Cmp::Any => Cmp::Any,
            Cmp::Present => Cmp::Present,
            Cmp::Absent => Cmp::Absent,
            Cmp::Unmatchable => Cmp::Unmatchable,
        };
        let class: Cmp<ClassKey> = match &query.class {
            Cmp::Is(class) => match &set {
                Cmp::Is(k) => match document.get_declaration(*k) {
                    Some(d) => {
                        let found = match &subset {
                            Cmp::Is(_) | Cmp::Present => d.subclass_key(class.as_str()),
                            _ => d.class_key(class.as_str()),
                        };
                        match found {
                            Some(c) => Cmp::Is(c),
                            None => Cmp::Unmatchable,
                        }
                    },
                    None => Cmp::Unmatchable,
                },
                _ => Cmp::Unmatchable,
            },
            Cmp::Any => Cmp::Any,
            Cmp::Present => Cmp::Present,
            Cmp::Absent => Cmp::Absent,
            Cmp::Unmatchable => Cmp::Unmatchable,
        };
        let processor: Cmp<ProcKey> = match &query.processor {
            Cmp::Is(id) => match document.get_processor_key_by_id(id.as_str()) {
                Some(k) => Cmp::Is(k),
                None => Cmp::Unmatchable,
            },
            Cmp::Any => Cmp::Any,
            Cmp::Present => Cmp::Present,
            Cmp::Absent => Cmp::Absent,
            Cmp::Unmatchable => Cmp::Unmatchable,
        };
        let s = Selector {
            action: Action::Select,
            datatypes: vec![DataTypeSelector::Elements],
            elementtype: copy_type_constraint(&query.elementtype),
            elementgroup: copy_group_constraint(&query.elementgroup),
            contexttype: copy_type_constraint(&query.contexttype),
            set,
            class,
            processor,
            subset,
            confidence: Cmp::Any,
            next: None,
        };
        proof {
            assert(s.set == encoded_set(*document, *query));
            assert(s.subset == encoded_subset(*document, *query, s.set));
            assert(s.class == encoded_class(*document, *query, s.set, s.subset));
            assert(s.processor == encoded_processor(*document, *query));
            assert(s.action == Action::Select);
            assert(s.datatypes@ == seq![DataTypeSelector::Elements]);
            assert(s.elementtype == query.elementtype);
            assert(s.elementgroup == query.elementgroup);
            assert(s.contexttype == query.contexttype);
            assert(s.confidence is Any);
            assert(s.next is None);
            assert(s.encodes(*document, *query));
        }
        Ok(s)
    }
}

/// A visit of the walk: the key of the element, the position of the data item in it, and
/// the depth (1 for the items directly under the element where the walk starts).
pub type Visit = (ElementKey, nat, nat);

/// The view of a visit as the walk records it.
pub open spec fn visit_of(t: (ElementKey, usize, usize)) -> Visit {
    (t.0, t.1 as nat, t.2 as nat)
}

/// The data items under an element, from position `cursor` on, in depth-first order when
/// `recursive` (descending into child elements at most `fuel` levels deep).
pub open spec fn walk(doc: Document, key: ElementKey, cursor: nat, depth: nat, recursive: bool, fuel: nat) -> Seq<Visit>
    decreases fuel, (match doc.element_at(key as int) { Some(e) => e.data@.len() - cursor, None => 0int }),
{
    match doc.element_at(key as int) {
        Some(e) => if cursor < e.data@.len() {
            let below = if recursive && fuel > 0 {
                match e.data@[cursor as int] {
                    DataType::Element(k) => walk(doc, k, 0, depth + 1, recursive, (fuel - 1) as nat),
                    _ => Seq::empty(),
                }
            } else {
                Seq::empty()
            };
            seq![(key, cursor, depth)] + below + walk(doc, key, cursor + 1, depth, recursive, fuel)
        } else {
            Seq::empty()
        },
        None => Seq::empty(),
    }
}

/// A walk is depth first and visits in pre-order: the first visit of a walk from a position
/// that holds a data item is that item itself, and where the item is a child element with data
/// of its own that the walk descends into, the next visit is the first item under that child,
/// before anything that follows the item.
pub proof fn lemma_walk_preorder(doc: Document, key: ElementKey, cursor: nat, depth: nat, recursive: bool, fuel: nat)
    requires
        doc.element_at(key as int) matches Some(e) && cursor < e.data@.len(),
    ensures
        ({
            let e = doc.element_at(key as int)->0;
            let w = walk(doc, key, cursor, depth, recursive, fuel);
            let k = e.data@[cursor as int]->Element_0;
            &&& w.len() > 0
            &&& w[0] == (key, cursor, depth)
            &&& recursive && fuel > 0 && e.data@[cursor as int] is Element && doc.element_at(k as int) is Some
                && doc.element_at(k as int)->0.data@.len() > 0
                ==> w.len() > 1 && w[1] == (k, 0nat, depth + 1)
        }),
{
    let e = doc.element_at(key as int)->0;
    if recursive && fuel > 0 {
        if let DataType::Element(k) = e.data@[cursor as int] {
            if let Some(c) = doc.element_at(k as int) {
                if c.data@.len() > 0 {
                    let below = walk(doc, k, 0, depth + 1, recursive, (fuel - 1) as nat);
                    assert(below.len() > 0 && below[0] == (k, 0nat, depth + 1));
                }
            }
        }
    }
}

/// How deep a walk over a document descends at most: no tree of its elements is deeper.
pub open spec fn walk_fuel(doc: Document) -> nat {
    if doc.elems().len() < usize::MAX - 1 { doc.elems().len() } else { (usize::MAX - 2) as nat }
}

/// The data item that a visit refers to.
pub open spec fn visit_item(doc: Document, v: Visit) -> DataType {
    doc.element_at(v.0 as int)->0.data@[v.1 as int]
}

/// A visit refers to a data item that exists.
pub open spec fn visit_valid(doc: Document, v: Visit) -> bool {
    doc.element_at(v.0 as int) matches Some(e) && v.1 < e.data@.len()
}

/// Every visit of a walk refers to a data item that exists.
pub proof fn lemma_walk_valid(doc: Document, key: ElementKey, cursor: nat, depth: nat, recursive: bool, fuel: nat)
    ensures
        forall|i: int| 0 <= i < walk(doc, key, cursor, depth, recursive, fuel).len()
            ==> visit_valid(doc, #[trigger] walk(doc, key, cursor, depth, recursive, fuel)[i]),
    decreases fuel, (match doc.element_at(key as int) { Some(e) => e.data@.len() - cursor, None => 0int }),
{
    match doc.element_at(key as int) {
        Some(e) => if cursor < e.data@.len() {
            let below = if recursive && fuel > 0 {
                match e.data@[cursor as int] {
                    DataType::Element(k) => walk(doc, k, 0, depth + 1, recursive, (fuel - 1) as nat),
                    _ => Seq::empty(),
                }
            } else {
                Seq::empty()
            };
            if recursive && fuel > 0 {
                match e.data@[cursor as int] {
                    DataType::Element(k) => {
                        lemma_walk_valid(doc, k, 0, depth + 1, recursive, (fuel - 1) as nat);
                    },
                    _ => {},
                }
            }
            lemma_walk_valid(doc, key, cursor + 1, depth, recursive, fuel);
            let rest = walk(doc, key, cursor + 1, depth, recursive, fuel);
            let w = walk(doc, key, cursor, depth, recursive, fuel);
            assert(w == seq![(key, cursor, depth)] + below + rest);
            assert forall|i: int| 0 <= i < w.len() implies visit_valid(doc, #[trigger] w[i]) by {
                if i == 0 {
                } else if i < 1 + below.len() {
                    assert(w[i] == below[i - 1]);
                } else {
                    assert(w[i] == rest[i - 1 - below.len()]);
                }
            }
        },
        None => {},
    }
}

/// Whether a visit is selected: the selector accepts its item, and in a recursive walk the item
/// is no back reference from a spanned element to its span (the span is reached in its layer).
pub open spec fn selected(doc: Document, selector: Selector, recursive: bool) -> spec_fn(Visit) -> bool {
    |v: Visit| selector.accepts(doc, visit_item(doc, v)) && !(recursive && visit_item(doc, v) is SpanReference)
}

/// The visits that a selection over the data under an element yields.
pub open spec fn selection(doc: Document, selector: Selector, key: ElementKey, recursive: bool) -> Seq<Visit> {
    if selector.is_matchable() {
        walk(doc, key, 0, 1, recursive, walk_fuel(doc)).filter(selected(doc, selector, recursive))
    } else {
        Seq::empty()
    }
}

/// Records the walk over the data under an element.
fn walk_into(doc: &Document, key: ElementKey, depth: usize, recursive: bool, fuel: usize,
    out: &mut Vec<(ElementKey, usize, usize)>)
    requires
        doc.wf(),
        depth + fuel < usize::MAX,
    ensures
        final(out)@.map_values(|t: (ElementKey, usize, usize)| visit_of(t))
            == old(out)@.map_values(|t: (ElementKey, usize, usize)| visit_of(t))
            + walk(*doc, key, 0, depth as nat, recursive, fuel as nat),
    decreases fuel,
{
    let ghost f = |t: (ElementKey, usize, usize)| visit_of(t);
    match doc.get_elementdata(key) {
        Some(e) => {
            let mut cursor: usize = 0;
            proof {
                assert(walk(*doc, key, 0, depth as nat, recursive, fuel as nat).len() >= 0);
            }
            while cursor < e.data.len()
                invariant
                    doc.wf(),
                    depth + fuel < usize::MAX,
                    doc.element_at(key as int) == Some(*e),
                    cursor <= e.data@.len(),
                    f == |t: (ElementKey, usize, usize)| visit_of(t),
                    old(out)@.map_values(f) + walk(*doc, key, 0, depth as nat, recursive, fuel as nat)
                        == out@.map_values(f) + walk(*doc, key, cursor as nat, depth as nat, recursive, fuel as nat),
                decreases e.data@.len() - cursor,
            {
                let ghost before = out@.map_values(f);
                let ghost rest = walk(*doc, key, cursor as nat + 1, depth as nat, recursive, fuel as nat);
                out.push((key, cursor, depth));
                assert(out@.map_values(f) =~= before.push((key, cursor as nat, depth as nat)));
                let ghost mid = out@.map_values(f);
                if recursive && fuel > 0 {
                    if let DataType::Element(k) = &e.data[cursor] {
                        walk_into(doc, *k, depth + 1, recursive, fuel - 1, out);
                    }
                }
                proof {
                    let below = if recursive && fuel > 0 {
                        match e.data@[cursor as int] {
                            DataType::Element(k) => walk(*doc, k, 0, depth as nat + 1, recursive, (fuel - 1) as nat),
                            _ => Seq::empty(),
                        }
                    } else {
                        Seq::empty()
                    };
                    assert(out@.map_values(f) =~= mid + below);
                    assert(walk(*doc, key, cursor as nat, depth as nat, recursive, fuel as nat)
                        == seq![(key, cursor as nat, depth as nat)] + below + rest);
                    assert(before + walk(*doc, key, cursor as nat, depth as nat, recursive, fuel as nat)
                        =~= out@.map_values(f) + rest);
                }
                cursor += 1;
            }
            proof {
                assert(walk(*doc, key, cursor as nat, depth as nat, recursive, fuel as nat) =~= Seq::<Visit>::empty());
                assert(out@.map_values(f) + Seq::<Visit>::empty() =~= out@.map_values(f));
            }
        },
        None => {
            proof {
                assert(walk(*doc, key, 0, depth as nat, recursive, fuel as nat) =~= Seq::<Visit>::empty());
                assert(old(out)@.map_values(f) + Seq::<Visit>::empty() =~= old(out)@.map_values(f));
            }
        },
    }
}

///An item of a selection: a data item, with the key of the element that holds it, its
///position there and its depth below the element where the selection started.
#[derive(Clone, Copy)]
pub struct SelectItem<'a> {
    pub data: &'a DataType,
    pub parent_key: ElementKey,
    pub cursor: usize,
    pub depth: usize,
}

/// The item is the data item that the visit refers to.
pub open spec fn item_at_visit(doc: Document, item: SelectItem, v: Visit) -> bool {
    &&& item.parent_key == v.0
    &&& item.cursor == v.1
    &&& item.depth == v.2
    &&& *item.data == visit_item(doc, v)
}

/// The keys of the elements (and span references) among the items that the visits refer to.
pub open spec fn element_keys(doc: Document, visits: Seq<Visit>) -> Seq<ElementKey>
    decreases visits.len(),
{
    if visits.len() == 0 {
        Seq::empty()
    } else {
        let rest = element_keys(doc, visits.drop_last());
        match visit_item(doc, visits.last()) {
            DataType::Element(k) | DataType::SpanReference(k) => rest.push(k),
            _ => rest,
        }
    }
}

/// A selector only accepts elements and span references to elements that exist.
pub proof fn lemma_accepts_element(selector: Selector, doc: Document, item: DataType)
    requires
        selector.accepts(doc, item),
    ensures
        item matches DataType::Element(k) ==> doc.element_at(k as int) is Some,
        item matches DataType::SpanReference(k) ==> doc.element_at(k as int) is Some,
    decreases selector,
{
    match selector.next {
        Some(n) => {
            if n.accepts(doc, item) {
                lemma_accepts_element(*n, doc, item);
            }
        },
        None => {},
    }
}

///A selection of the data items (elements, text, comments) under an element, in depth-first
///order if recursive. It is consumed with ``next()``.
pub struct SelectIterator<'a> {
    ///The document to draw elements from
    pub document: &'a Document,
    ///The selector to apply to test for matching data items
    pub selector: Selector,
    ///Apply the selector recursively (depth-first search) or not (plain linear search)
    pub recursive: bool,
    pub items: Vec<SelectItem<'a>>,
    pub position: usize,
}

impl<'a> SelectIterator<'a> {
    /// The items of the selection.
    pub open spec fn items_view(&self) -> Seq<SelectItem<'a>> {
        self.items@
    }

    /// How many items have been taken.
    pub open spec fn position_view(&self) -> nat {
        self.position as nat
    }

    /// The items correspond to the selection from an element.
    pub open spec fn selects_from(&self, key: ElementKey) -> bool {
        let sel = selection(*self.document, self.selector, key, self.recursive);
        &&& self.items_view().len() == sel.len()
        &&& forall|i: int| 0 <= i < sel.len() ==> item_at_visit(*self.document, #[trigger] self.items_view()[i], sel[i])
    }

    ///Creates a new ``SelectIterator`` over the data under the element with the given key.
    pub fn new(document: &'a Document, selector: Selector, key: ElementKey, recursive: bool) -> (it: SelectIterator<'a>)
        requires
            document.wf(),
        ensures
            it.document == document,
            it.selector == selector,
            it.recursive == recursive,
            it.selects_from(key),
            it.position_view() == 0,
    {
        let ghost f = |t: (ElementKey, usize, usize)| visit_of(t);
        let mut visits: Vec<(ElementKey, usize, usize)> = Vec::new();
        let mut items: Vec<SelectItem<'a>> = Vec::new();
        if selector.matchable() {
            let n = document.elementstore.store.len();
            let fuel: usize = if n < usize::MAX - 1 { n } else { usize::MAX - 2 };
            walk_into(document, key, 1, recursive, fuel, &mut visits);
            let ghost w = walk(*document, key, 0, 1, recursive, walk_fuel(*document));
            proof {
                assert(visits@.map_values(f) =~= w);
                lemma_walk_valid(*document, key, 0, 1, recursive, walk_fuel(*document));
            }
            let ghost p = selected(*document, selector, recursive);
            let mut i: usize = 0;
            while i < visits.len()
                invariant
                    document.wf(),
                    f == |t: (ElementKey, usize, usize)| visit_of(t),
                    visits@.map_values(f) == w,
                    p == selected(*document, selector, recursive),
                    forall|j: int| 0 <= j < w.len() ==> visit_valid(*document, #[trigger] w[j]),
                    i <= visits@.len(),
                    items@.len() == w.take(i as int).filter(p).len(),
                    forall|j: int| 0 <= j < items@.len() ==>
                        item_at_visit(*document, #[trigger] items@[j], w.take(i as int).filter(p)[j]),
                decreases visits@.len() - i,
            {
                let (k, c, d) = visits[i];
                proof {
                    reveal(Seq::filter);
                    assert(w.take(i + 1).drop_last() =~= w.take(i as int));
                    assert(w[i as int] == visit_of(visits@[i as int]));
                    assert(visit_valid(*document, w[i as int]));
                }
                match document.get_elementdata(k) {
                    Some(e) => {
                        if c < e.data.len() {
                            let item = &e.data[c];
                            let is_back_reference = match item {
                                DataType::SpanReference(_) => true,
                                _ => false,
                            };
                            if selector.matches(document, item) && !(recursive && is_back_reference) {
                                items.push(SelectItem { data: item, parent_key: k, cursor: c, depth: d });
                            }
                        }
                    },
                    None => {},
                }
                i += 1;
            }
            proof {
                assert(w.take(i as int) =~= w);
            }
        }
        SelectIterator { document, selector, recursive, items, position: 0 }
    }

    ///Returns the selector component of the iterator
    pub fn selector(&self) -> (r: &Selector)
        ensures
            *r == self.selector,
    {
        &self.selector
    }

    ///Takes the next item of the selection, if any is left
    pub fn next(&mut self) -> (r: Option<SelectItem<'a>>)
        ensures
            final(self).document == old(self).document,
            final(self).selector == old(self).selector,
            final(self).recursive == old(self).recursive,
            final(self).items_view() == old(self).items_view(),
            old(self).position_view() < old(self).items_view().len() ==>
                r == Some(old(self).items_view()[old(self).position_view() as int])
                && final(self).position_view() == old(self).position_view() + 1,
            old(self).position_view() >= old(self).items_view().len() ==>
                r is None && final(self).position_view() == old(self).position_view(),
    {
        if self.position < self.items.len() {
            let item = self.items[self.position];
            self.position += 1;
            Some(item)
        } else {
            None
        }
    }
}

///A selection of the elements under an element (a ``SelectIterator`` that yields only
///elements, and the spans that span references refer to). It is consumed with ``next()``.
pub struct SelectElementsIterator<'a> {
    pub document: &'a Document,
    pub selector: Selector,
    pub items: Vec<Element<'a>>,
    pub position: usize,
}

impl<'a> SelectElementsIterator<'a> {
    /// The elements of the selection.
    pub open spec fn items_view(&self) -> Seq<Element<'a>> {
        self.items@
    }

    /// How many elements have been taken.
    pub open spec fn position_view(&self) -> nat {
        self.position as nat
    }

    /// The elements are those with the given keys, in their document.
    pub open spec fn yields(&self, keys: Seq<ElementKey>) -> bool {
        &&& self.items_view().len() == keys.len()
        &&& forall|i: int| 0 <= i < keys.len() ==> {
            &&& (#[trigger] self.items_view()[i]).key == keys[i]
            &&& self.items_view()[i].wf()
            &&& self.items_view()[i].document == self.document
        }
    }

    /// A selection made of given elements.
    pub fn from_elements(document: &'a Document, selector: Selector, items: Vec<Element<'a>>) -> (it: Self)
        ensures
            it.document == document,
            it.selector == selector,
            it.items_view() == items@,
            it.position_view() == 0,
    {
        SelectElementsIterator { document, selector, items, position: 0 }
    }

    ///Creates a new ``SelectElementsIterator`` over the elements under the element with the given key.
    pub fn new(document: &'a Document, selector: Selector, key: ElementKey, recursive: bool) -> (it: Self)
        requires
            document.wf(),
        ensures
            it.document == document,
            it.selector == selector,
            it.yields(element_keys(*document, selection(*document, selector, key, recursive))),
            it.position_view() == 0,
    {
        let ghost sel = selection(*document, selector, key, recursive);
        let mut inner = SelectIterator::new(document, selector, key, recursive);
        let mut items: Vec<Element<'a>> = Vec::new();
        let mut i: usize = 0;
        while i < inner.items.len()
            invariant
                document.wf(),
                inner.document == document,
                inner.selects_from(key),
                sel == selection(*document, inner.selector, key, inner.recursive),
                i <= inner.items@.len(),
                items@.len() == element_keys(*document, sel.take(i as int)).len(),
                forall|j: int| 0 <= j < items@.len() ==> {
                    &&& (#[trigger] items@[j]).key == element_keys(*document, sel.take(i as int))[j]
                    &&& items@[j].wf()
                    &&& items@[j].document == document
                },
            decreases inner.items@.len() - i,
        {
            let item = inner.items[i];
            proof {
                assert(sel.take(i + 1).drop_last() =~= sel.take(i as int));
                assert(item_at_visit(*document, item, sel[i as int]));
                if sel.len() > 0 {
                    assert(selected(*document, inner.selector, inner.recursive)(sel[i as int])) by {
                        let w = walk(*document, key, 0, 1, inner.recursive, walk_fuel(*document));
                        w.lemma_filter_pred(selected(*document, inner.selector, inner.recursive), i as int);
                    }
                    lemma_accepts_element(inner.selector, *document, visit_item(*document, sel[i as int]));
                }
            }
            match item.data {
                DataType::Element(k) | DataType::SpanReference(k) => {
                    match document.get_element(*k) {
                        Some(e) => {
                            items.push(e);
                        },
                        None => {},
                    }
                },
                _ => {},
            }
            i += 1;
        }
        proof {
            assert(sel.take(i as int) =~= sel);
        }
        SelectElementsIterator { document, selector: inner.selector, items, position: 0 }
    }

    ///Returns the selector component of the iterator
    pub fn selector(&self) -> (r: &Selector)
        ensures
            *r == self.selector,
    {
        &self.selector
    }

    ///Takes the next element of the selection, if any is left
    pub fn next(&mut self) -> (r: Option<Element<'a>>)
        ensures
            final(self).document == old(self).document,
            final(self).selector == old(self).selector,
            final(self).items_view() == old(self).items_view(),
            old(self).position_view() < old(self).items_view().len() ==>
                r == Some(old(self).items_view()[old(self).position_view() as int])
                && final(self).position_view() == old(self).position_view() + 1,
            old(self).position_view() >= old(self).items_view().len() ==>
                r is None && final(self).position_view() == old(self).position_view(),
    {
        if self.position < self.items.len() {
            let item = self.items[self.position];
            self.position += 1;
            Some(item)
        } else {
            None
        }
    }
}

impl Document {
    ///Selects the data items under the element specified by ``key``: a depth-first walk if
    ///``recursive``, the items directly under it otherwise.
    pub fn select_data_by_key(&self, key: ElementKey, selector: Selector, recursive: bool) -> (it: SelectIterator<'_>)
        requires
            self.wf(),
        ensures
            *it.document == *self,
            it.selector == selector,
            it.recursive == recursive,
            it.selects_from(key),
            it.position_view() == 0,
    {
        SelectIterator::new(self, selector, key, recursive)
    }

    ///Selects the data items under the root element (see ``select_data_by_key``).
    pub fn select_data(&self, selector: Selector, recursive: bool) -> (it: SelectIterator<'_>)
        requires
            self.wf(),
        ensures
            *it.document == *self,
            it.selector == selector,
            it.recursive == recursive,
            it.selects_from(0),
            it.position_view() == 0,
    {
        SelectIterator::new(self, selector, 0, recursive)
    }

    ///Selects the elements under the element specified by ``key``
    pub fn select_by_key(&self, key: ElementKey, selector: Selector, recursive: bool) -> (it: SelectElementsIterator<'_>)
        requires
            self.wf(),
        ensures
            *it.document == *self,
            it.selector == selector,
            it.yields(element_keys(*self, selection(*self, selector, key, recursive))),
            it.position_view() == 0,
    {
        SelectElementsIterator::new(self, selector, key, recursive)
    }

    ///Selects the elements under the root element
    pub fn select(&self, selector: Selector, recursive: bool) -> (it: SelectElementsIterator<'_>)
        requires
            self.wf(),
        ensures
            *it.document == *self,
            it.selector == selector,
            it.yields(element_keys(*self, selection(*self, selector, 0, recursive))),
            it.position_view() == 0,
    {
        SelectElementsIterator::new(self, selector, 0, recursive)
    }
}

impl<'a> Element<'a> {
    ///Selects the data items under this element
    pub fn select_data(&self, selector: Selector, recursive: bool) -> (it: SelectIterator<'a>)
        requires
            self.wf(),
        ensures
            it.document == self.document,
            it.selector == selector,
            it.recursive == recursive,
            it.selects_from(self.key),
            it.position_view() == 0,
    {
        SelectIterator::new(self.document, selector, self.key, recursive)
    }

    ///Selects the elements under this element
    pub fn select(&self, selector: Selector, recursive: bool) -> (it: SelectElementsIterator<'a>)
        requires
            self.wf(),
        ensures
            it.document == self.document,
            it.selector == selector,
            it.yields(element_keys(*self.document, selection(*self.document, selector, self.key, recursive))),
            it.position_view() == 0,
    {
        SelectElementsIterator::new(self.document, selector, self.key, recursive)
    }
}

/// The ancestors of an element, from its parent upwards (at most `fuel` of them), as far as
/// they exist.
pub open spec fn ancestor_keys(doc: Document, key: ElementKey, fuel: nat) -> Seq<ElementKey>
    decreases fuel,
{
    if fuel == 0 {
        Seq::empty()
    } else {
        match doc.element_at(key as int) {
            Some(e) => match e.parent {
                Some(p) => if doc.element_at(p as int) is Some {
                    seq![p] + ancestor_keys(doc, p, (fuel - 1) as nat)
                } else {
                    Seq::empty()
                },
                None => Seq::empty(),
            },
            None => Seq::empty(),
        }
    }
}

/// Whether the selector matches the element with a key.
pub open spec fn accepts_key(doc: Document, selector: Selector) -> spec_fn(ElementKey) -> bool {
    |k: ElementKey| selector.accepts(doc, DataType::Element(k))
}

/// The ancestors of an element that the selector matches, from the parent upwards.
pub open spec fn ancestors_of(doc: Document, key: ElementKey, selector: Selector) -> Seq<ElementKey> {
    ancestor_keys(doc, key, walk_fuel(doc)).filter(accepts_key(doc, selector))
}

/// Every ancestor exists.
pub proof fn lemma_ancestors_exist(doc: Document, key: ElementKey, fuel: nat)
    ensures
        forall|i: int| 0 <= i < ancestor_keys(doc, key, fuel).len()
            ==> doc.element_at(#[trigger] ancestor_keys(doc, key, fuel)[i] as int) is Some,
    decreases fuel,
{
    if fuel > 0 {
        lemma_ancestors_exist(doc, key, (fuel - 1) as nat);
        match doc.element_at(key as int) {
            Some(e) => match e.parent {
                Some(p) => if doc.element_at(p as int) is Some {
                    lemma_ancestors_exist(doc, p, (fuel - 1) as nat);
                    let rest = ancestor_keys(doc, p, (fuel - 1) as nat);
                    assert forall|i: int| 0 <= i < ancestor_keys(doc, key, fuel).len() implies
                        doc.element_at(#[trigger] ancestor_keys(doc, key, fuel)[i] as int) is Some by {
                        if i > 0 {
                            assert(ancestor_keys(doc, key, fuel)[i] == rest[i - 1]);
                        }
                    }
                },
                None => {},
            },
            None => {},
        }
    }
}

impl Document {
    ///The keys of the ancestors of an element that the selector matches, starting with the
    ///parent and moving up the tree.
    pub fn ancestors_by_key(&self, key: ElementKey, selector: &Selector) -> (r: Vec<ElementKey>)
        requires
            self.wf(),
        ensures
            r@ == ancestors_of(*self, key, *selector),
    {
        let n = self.elementstore.store.len();
        let fuel: usize = if n < usize::MAX - 1 { n } else { usize::MAX - 2 };
        let ghost all = ancestor_keys(*self, key, fuel as nat);
        let ghost p = accepts_key(*self, *selector);
        let mut result: Vec<ElementKey> = Vec::new();
        let mut current = key;
        let mut remaining = fuel;
        let ghost mut taken: Seq<ElementKey> = Seq::empty();
        while remaining > 0
            invariant
                self.wf(),
                p == accepts_key(*self, *selector),
                all == taken + ancestor_keys(*self, current, remaining as nat),
                result@ == taken.filter(p),
                remaining <= fuel,
            ensures
                all == taken,
                result@ == taken.filter(p),
            decreases remaining,
        {
            let parent = match self.get_elementdata(current) {
                Some(e) => e.parent,
                None => None,
            };
            match parent {
                Some(pk) => {
                    if self.get_elementdata(pk).is_some() {
                        proof {
                            reveal(Seq::filter);
                            assert((taken.push(pk)).drop_last() =~= taken);
                            assert(ancestor_keys(*self, current, remaining as nat)
                                == seq![pk] + ancestor_keys(*self, pk, (remaining - 1) as nat));
                            assert(taken + ancestor_keys(*self, current, remaining as nat)
                                =~= taken.push(pk) + ancestor_keys(*self, pk, (remaining - 1) as nat));
                        }
                        if selector.matches(self, &DataType::Element(pk)) {
                            result.push(pk);
                        }
                        proof {
                            taken = taken.push(pk);
                        }
                        current = pk;
                        remaining -= 1;
                    } else {
                        proof {
                            assert(ancestor_keys(*self, current, remaining as nat) =~= Seq::<ElementKey>::empty());
                            assert(taken + Seq::<ElementKey>::empty() =~= taken);
                        }
                        break;
                    }
                },
                None => {
                    proof {
                        assert(ancestor_keys(*self, current, remaining as nat) =~= Seq::<ElementKey>::empty());
                        assert(taken + Seq::<ElementKey>::empty() =~= taken);
                    }
                    break;
                },
            }
        }
        proof {
            assert(fuel as nat == walk_fuel(*self));
        }
        result
    }

    ///The ancestors that all the given elements have in common and that the selector matches,
    ///from the closest (to the first element) upwards.
    pub fn common_ancestors(&self, selector: &Selector, keys: &Vec<ElementKey>) -> (r: Vec<ElementKey>)
        requires
            self.wf(),
        ensures
            keys@.len() == 0 ==> r@.len() == 0,
            keys@.len() > 0 ==> r@ == ancestors_of(*self, keys@[0], *selector).filter(
                |a: ElementKey| forall|j: int| 0 < j < keys@.len() ==>
                    ancestor_keys(*self, #[trigger] keys@[j], walk_fuel(*self)).contains(a)),
    {
        let mut result: Vec<ElementKey> = Vec::new();
        if keys.len() == 0 {
            return result;
        }
        let first = self.ancestors_by_key(keys[0], selector);
        let ghost q = |a: ElementKey| forall|j: int| 0 < j < keys@.len() ==>
            ancestor_keys(*self, #[trigger] keys@[j], walk_fuel(*self)).contains(a);
        let all = Selector::default();
        let mut others: Vec<Vec<ElementKey>> = Vec::new();
        let mut j: usize = 1;
        while j < keys.len()
            invariant
                self.wf(),
                all.is_default(),
                1 <= j <= keys@.len(),
                others@.len() == j - 1,
                forall|m: int| 0 <= m < others@.len() ==> (#[trigger] others@[m])@
                    == ancestors_of(*self, keys@[m + 1], all),
            decreases keys@.len() - j,
        {
            let a = self.ancestors_by_key(keys[j], &all);
            others.push(a);
            j += 1;
        }
        let mut i: usize = 0;
        while i < first.len()
            invariant
                self.wf(),
                all.is_default(),
                i <= first@.len(),
                others@.len() == keys@.len() - 1,
                forall|m: int| 0 <= m < others@.len() ==> (#[trigger] others@[m])@
                    == ancestors_of(*self, keys@[m + 1], all),
                q == (|a: ElementKey| forall|j: int| 0 < j < keys@.len() ==>
                    ancestor_keys(*self, #[trigger] keys@[j], walk_fuel(*self)).contains(a)),
                first@ == ancestors_of(*self, keys@[0], *selector),
                result@ == first@.take(i as int).filter(q),
            decreases first@.len() - i,
        {
            let a = first[i];
            let mut in_all = true;
            let mut m: usize = 0;
            while m < others.len()
                invariant
                    self.wf(),
                    all.is_default(),
                    m <= others@.len(),
                    others@.len() == keys@.len() - 1,
                    forall|mm: int| 0 <= mm < others@.len() ==> (#[trigger] others@[mm])@
                        == ancestors_of(*self, keys@[mm + 1], all),
                    in_all == forall|mm: int| 0 <= mm < m ==>
                        ancestor_keys(*self, #[trigger] keys@[mm + 1], walk_fuel(*self)).contains(a),
                decreases others@.len() - m,
            {
                let list = &others[m];
                let mut found = false;
                let mut n: usize = 0;
                while n < list.len()
                    invariant
                        n <= list@.len(),
                        found == exists|x: int| 0 <= x < n && list@[x] == a,
                    decreases list@.len() - n,
                {
                    if list[n] == a {
                        found = true;
                    }
                    n += 1;
                }
                proof {
                    lemma_ancestors_exist(*self, keys@[m + 1], walk_fuel(*self));
                    lemma_default_accepts_all(*self, all, ancestor_keys(*self, keys@[m + 1], walk_fuel(*self)));
                    assert(found == list@.contains(a));
                }
                in_all = in_all && found;
                m += 1;
            }
            proof {
                reveal(Seq::filter);
                assert(first@.take(i + 1).drop_last() =~= first@.take(i as int));
                assert(in_all == q(a)) by {
                    if in_all {
                        assert forall|j: int| 0 < j < keys@.len() implies
                            ancestor_keys(*self, #[trigger] keys@[j], walk_fuel(*self)).contains(a) by {
                            assert(keys@[(j - 1) + 1] == keys@[j]);
                        }
                    }
                }
            }
            if in_all {
                result.push(a);
            }
            i += 1;
        }
        proof {
            assert(first@.take(i as int) =~= first@);
        }
        result
    }
}

/// A default selector matches every element that exists, so filtering by it keeps all ancestors.
pub proof fn lemma_default_accepts_all(doc: Document, all: Selector, keys: Seq<ElementKey>)
    requires
        all.is_default(),
        forall|i: int| 0 <= i < keys.len() ==> doc.element_at(#[trigger] keys[i] as int) is Some,
    ensures
        keys.filter(accepts_key(doc, all)) == keys,
    decreases keys.len(),
{
    reveal(Seq::filter);
    if keys.len() > 0 {
        lemma_default_accepts_all(doc, all, keys.drop_last());
        assert(accepts_key(doc, all)(keys.last()));
        assert(keys.drop_last().push(keys.last()) =~= keys);
    }
}

/// The query for elements of a type (and set).
pub open spec fn element_query(elementtype: ElementType, set: Cmp<String>) -> Query {
    Query {
        action: Action::Select,
        elementtype: Cmp::Is(elementtype),
        elementgroup: Cmp::Any,
        contexttype: Cmp::Any,
        set,
        class: Cmp::Any,
        processor: Cmp::Any,
        subset: Cmp::Any,
        annotator: Cmp::Any,
        annotatortype: Cmp::Any,
        confidence: Cmp::Any,
    }
}

/// The query for elements of a group (and set).
pub open spec fn group_query(elementgroup: ElementGroup, set: Cmp<String>) -> Query {
    Query { elementtype: Cmp::Any, elementgroup: Cmp::Is(elementgroup), ..element_query(ElementType::Feature, set) }
}

/// The elements with the given keys, all of which exist.
fn elements_of<'a>(document: &'a Document, keys: &Vec<ElementKey>) -> (r: Vec<Element<'a>>)
    requires
        document.wf(),
        forall|i: int| 0 <= i < keys@.len() ==> document.element_at(#[trigger] keys@[i] as int) is Some,
    ensures
        r@.len() == keys@.len(),
        forall|i: int| 0 <= i < keys@.len() ==> {
            &&& (#[trigger] r@[i]).key == keys@[i]
            &&& r@[i].wf()
            &&& r@[i].document == document
        },
{
    let mut r: Vec<Element<'a>> = Vec::new();
    let mut i: usize = 0;
    while i < keys.len()
        invariant
            document.wf(),
            forall|i: int| 0 <= i < keys@.len() ==> document.element_at(#[trigger] keys@[i] as int) is Some,
            i <= keys@.len(),
            r@.len() == i,
            forall|j: int| 0 <= j < i ==> {
                &&& (#[trigger] r@[j]).key == keys@[j]
                &&& r@[j].wf()
                &&& r@[j].document == document
            },
        decreases keys@.len() - i,
    {
        match document.get_element(keys[i]) {
            Some(e) => {
                r.push(e);
            },
            None => {
                proof {
                    assert(document.element_at(keys@[i as int] as int) is Some);
                }
            },
        }
        i += 1;
    }
    r
}

/// The ancestors that a selector accepts exist.
pub proof fn lemma_ancestors_of_exist(doc: Document, key: ElementKey, selector: Selector)
    ensures
        forall|i: int| 0 <= i < ancestors_of(doc, key, selector).len()
            ==> doc.element_at(#[trigger] ancestors_of(doc, key, selector)[i] as int) is Some,
{
    let a = ancestors_of(doc, key, selector);
    assert forall|i: int| 0 <= i < a.len() implies doc.element_at(#[trigger] a[i] as int) is Some by {
        ancestor_keys(doc, key, walk_fuel(doc)).lemma_filter_pred(accepts_key(doc, selector), i);
        lemma_accepts_element(selector, doc, DataType::Element(a[i]));
    }
}

impl<'a> Element<'a> {
    ///The elements of a type (and set) under this element
    pub fn get_elements(&self, elementtype: ElementType, set: Cmp<String>, recursive: bool) -> (it: SelectElementsIterator<'a>)
        requires
            self.wf(),
        ensures
            it.document == self.document,
            it.selector.encodes(*self.document, element_query(elementtype, set)),
            it.yields(element_keys(*self.document, selection(*self.document, it.selector, self.key, recursive))),
            it.position_view() == 0,
    {
        let ghost q = element_query(elementtype, set);
        let query = Query::select().element(Cmp::Is(elementtype)).set(set);
        assert(query == q);
        match Selector::from_query(self.document, &query) {
            Ok(selector) => self.select(selector, recursive),
            Err(_) => {
                proof {
                    assert(false);
                }
                SelectElementsIterator::from_elements(self.document, Selector::default(), Vec::new())
            },
        }
    }

    ///The first element of a type (and set) under this element, if any
    pub fn get_element(&self, elementtype: ElementType, set: Cmp<String>, recursive: bool) -> (r: Option<Element<'a>>)
        requires
            self.wf(),
        ensures
            exists|s: Selector| #[trigger] s.encodes(*self.document, element_query(elementtype, set)) && {
                let keys = element_keys(*self.document, selection(*self.document, s, self.key, recursive));
                &&& keys.len() == 0 ==> r is None
                &&& keys.len() > 0 ==> (r matches Some(e) && e.key == keys[0] && e.wf() && e.document == self.document)
            },
    {
        let mut it = self.get_elements(elementtype, set, recursive);
        it.next()
    }

    ///The first annotation of a type (and set) under this element, if any
    pub fn get_annotation(&self, annotationtype: crate::types::AnnotationType, set: Cmp<String>, recursive: bool) -> (r: Option<Element<'a>>)
        requires
            self.wf(),
        ensures
            exists|s: Selector| #[trigger] s.encodes(*self.document, element_query(annotationtype.primary(), set)) && {
                let keys = element_keys(*self.document, selection(*self.document, s, self.key, recursive));
                &&& keys.len() == 0 ==> r is None
                &&& keys.len() > 0 ==> (r matches Some(e) && e.key == keys[0] && e.wf() && e.document == self.document)
            },
    {
        self.get_element(annotationtype.elementtype(), set, recursive)
    }

    ///The annotations of a type (and set) under this element
    pub fn get_annotations(&self, annotationtype: crate::types::AnnotationType, set: Cmp<String>, recursive: bool) -> (it: SelectElementsIterator<'a>)
        requires
            self.wf(),
        ensures
            it.document == self.document,
            it.selector.encodes(*self.document, element_query(annotationtype.primary(), set)),
            it.yields(element_keys(*self.document, selection(*self.document, it.selector, self.key, recursive))),
            it.position_view() == 0,
    {
        self.get_elements(annotationtype.elementtype(), set, recursive)
    }
}

/// The query for the features of an element (of a subset): features in the context of the
/// element's type, with the element's set (or none).
pub open spec fn feature_query_of(q: Query, doc: Document, e: crate::element::ElementData, subset: Cmp<String>) -> bool {
    &&& q.action == Action::Select
    &&& q.elementtype == Cmp::Is(ElementType::Feature)
    &&& q.contexttype == Cmp::Is(e.elementtype)
    &&& q.subset == subset
    &&& q.elementgroup is Any && q.class is Any && q.processor is Any
    &&& q.annotator is Any && q.annotatortype is Any && q.confidence is Any
    &&& match crate::element::set_of(doc, e) {
        Some(s) => q.set is Is && q.set->Is_0@ == s,
        None => q.set is Absent,
    }
}

/// A selector accepts an element exactly where it accepts a span reference to it.
pub proof fn lemma_accepts_reference(s: Selector, doc: Document, k: ElementKey)
    ensures
        s.accepts(doc, DataType::SpanReference(k)) == s.accepts(doc, DataType::Element(k)),
    decreases s,
{
    match s.next {
        Some(n) => {
            lemma_accepts_reference(*n, doc, k);
        },
        None => {},
    }
}

/// The elements of visits that a selector all accepts are elements the selector accepts.
pub proof fn lemma_element_keys_accepted(doc: Document, s: Selector, visits: Seq<Visit>)
    requires
        forall|i: int| 0 <= i < visits.len() ==> s.accepts(doc, #[trigger] visit_item(doc, visits[i])),
    ensures
        forall|j: int| 0 <= j < element_keys(doc, visits).len()
            ==> s.accepts(doc, DataType::Element(#[trigger] element_keys(doc, visits)[j])),
    decreases visits.len(),
{
    if visits.len() > 0 {
        let rest = visits.drop_last();
        assert forall|i: int| 0 <= i < rest.len() implies s.accepts(doc, #[trigger] visit_item(doc, rest[i])) by {
            assert(rest[i] == visits[i]);
        }
        lemma_element_keys_accepted(doc, s, rest);
        assert(s.accepts(doc, visit_item(doc, visits[visits.len() - 1])));
        let rk = element_keys(doc, rest);
        let ks = element_keys(doc, visits);
        match visit_item(doc, visits.last()) {
            DataType::SpanReference(k) => {
                lemma_accepts_reference(s, doc, k);
                assert(ks == rk.push(k));
            },
            DataType::Element(k) => {
                assert(ks == rk.push(k));
            },
            _ => {
                assert(ks == rk);
            },
        }
        assert forall|j: int| 0 <= j < ks.len() implies s.accepts(doc, DataType::Element(#[trigger] ks[j])) by {
            if j < rk.len() {
                assert(ks[j] == rk[j]);
            }
        }
    }
}

/// Every element that a selection under an element yields is one that the selector accepts.
pub proof fn lemma_selection_accepted(doc: Document, s: Selector, key: ElementKey, recursive: bool)
    ensures
        forall|j: int| 0 <= j < element_keys(doc, selection(doc, s, key, recursive)).len()
            ==> s.accepts(doc, DataType::Element(#[trigger] element_keys(doc, selection(doc, s, key, recursive))[j])),
{
    broadcast use vstd::seq_lib::group_filter_ensures;
    let v = selection(doc, s, key, recursive);
    assert forall|i: int| 0 <= i < v.len() implies s.accepts(doc, #[trigger] visit_item(doc, v[i])) by {
        if s.is_matchable() {
            let w = walk(doc, key, 0, 1, recursive, walk_fuel(doc));
            assert(selected(doc, s, recursive)(v[i]));
        }
    }
    lemma_element_keys_accepted(doc, s, v);
}

/// Every element that a selection for a subset given by name yields (such as a feature that
/// ``get_feature`` or ``get_features`` returns for ``Cmp::Is(subset)``) has that subset.
pub proof fn lemma_selected_subset(doc: Document, q: Query, s: Selector, key: ElementKey, recursive: bool, j: int)
    requires
        doc.wf(),
        s.encodes(doc, q),
        q.subset is Is,
        0 <= j < element_keys(doc, selection(doc, s, key, recursive)).len(),
    ensures
        doc.element_at(element_keys(doc, selection(doc, s, key, recursive))[j] as int) is Some,
        crate::element::subset_of(doc, doc.element_at(element_keys(doc, selection(doc, s, key, recursive))[j] as int)->0)
            == Some(q.subset->Is_0@),
{
    let k = element_keys(doc, selection(doc, s, key, recursive))[j];
    lemma_selection_accepted(doc, s, key, recursive);
    assert(s.accepts(doc, DataType::Element(k)));
    lemma_accepted_meets_constraints(s, doc, k);
    let e = doc.element_at(k as int)->0;
    let name = q.subset->Is_0@;
    let dk = s.set->Is_0;
    let d = doc.declaration_at(dk as int)->0;
    let sk = s.subset->Is_0;
    assert(e.dec_key_of() == Some(dk));
    assert(e.subset_key_of() == Some(sk));
    assert(opt_index(d.subsets).contains_key(name));
    assert(d.subsets is Some);
    assert(d.wf());
    let st = d.subsets->0;
    st.lemma_index(name);
    assert(opt_index(d.subsets)[name] == sk);
    assert(st.item(sk as int)->0@ == name);
    assert(crate::metadata::opt_names(d.subsets)[sk as int] == Some(name));
}

impl<'a> Element<'a> {
    ///The features (of a subset) of this element: the features of its annotation type and set
    ///directly under it. Where the subset cannot be encoded (the element has no declaration
    ///in the document), there are none.
    pub fn get_features(&self, subset: Cmp<String>) -> (it: SelectElementsIterator<'a>)
        requires
            self.wf(),
        ensures
            it.document == self.document,
            it.position_view() == 0,
            exists|q: Query| {
                &&& #[trigger] feature_query_of(q, *self.document, *self.data, subset)
                &&& if q.subset is Is && !(encoded_set(*self.document, q) is Is) {
                    it.items_view().len() == 0
                } else {
                    it.selector.encodes(*self.document, q)
                    && it.yields(element_keys(*self.document, selection(*self.document, it.selector, self.key, false)))
                }
            },
    {
        let set: Cmp<String> = match self.set() {
            Some(s) => Cmp::Is(s.to_owned()),
            None => Cmp::Absent,
        };
        let query = Query::select().element(Cmp::Is(ElementType::Feature)).contexttype(Cmp::Is(self.data.elementtype))
            .set(set).subset(subset);
        assert(feature_query_of(query, *self.document, *self.data, subset));
        match Selector::from_query(self.document, &query) {
            Ok(selector) => self.select(selector, false),
            Err(_) => SelectElementsIterator::from_elements(self.document, Selector::default(), Vec::new()),
        }
    }

    ///The first feature (of a subset) of this element, if any
    pub fn get_feature(&self, subset: Cmp<String>) -> (r: Option<Element<'a>>)
        requires
            self.wf(),
        ensures
            exists|q: Query| {
                &&& #[trigger] feature_query_of(q, *self.document, *self.data, subset)
                &&& if q.subset is Is && !(encoded_set(*self.document, q) is Is) {
                    r is None
                } else {
                    exists|s: Selector| #[trigger] s.encodes(*self.document, q) && {
                        let keys = element_keys(*self.document, selection(*self.document, s, self.key, false));
                        &&& keys.len() == 0 ==> r is None
                        &&& keys.len() > 0 ==> (r matches Some(e) && e.key == keys[0] && e.wf()
                            && e.document == self.document)
                    }
                }
            },
    {
        let mut it = self.get_features(subset);
        let ghost it0 = it;
        let r = it.next();
        proof {
            let q = choose|q: Query| {
                &&& #[trigger] feature_query_of(q, *self.document, *self.data, subset)
                &&& if q.subset is Is && !(encoded_set(*self.document, q) is Is) {
                    it0.items_view().len() == 0
                } else {
                    it0.selector.encodes(*self.document, q)
                    && it0.yields(element_keys(*self.document, selection(*self.document, it0.selector, self.key, false)))
                }
            };
            assert(feature_query_of(q, *self.document, *self.data, subset));
            if !(q.subset is Is && !(encoded_set(*self.document, q) is Is)) {
                let keys = element_keys(*self.document, selection(*self.document, it0.selector, self.key, false));
                assert(it0.selector.encodes(*self.document, q));
                if keys.len() > 0 {
                    assert(it0.items_view()[0].key == keys[0]);
                }
            }
        }
        r
    }

    ///The ancestors of this element that a selector matches, from the parent upwards
    pub fn ancestors(&self, selector: Selector) -> (it: SelectElementsIterator<'a>)
        requires
            self.wf(),
        ensures
            it.document == self.document,
            it.selector == selector,
            it.yields(ancestors_of(*self.document, self.key, selector)),
            it.position_view() == 0,
    {
        let keys = self.document.ancestors_by_key(self.key, &selector);
        proof {
            lemma_ancestors_of_exist(*self.document, self.key, selector);
        }
        let items = elements_of(self.document, &keys);
        SelectElementsIterator::from_elements(self.document, selector, items)
    }

    ///The ancestors of this element of a type (and set), from the parent upwards
    pub fn get_ancestors(&self, elementtype: ElementType, set: Cmp<String>) -> (it: SelectElementsIterator<'a>)
        requires
            self.wf(),
        ensures
            it.document == self.document,
            it.selector.encodes(*self.document, element_query(elementtype, set)),
            it.yields(ancestors_of(*self.document, self.key, it.selector)),
            it.position_view() == 0,
    {
        let ghost q = element_query(elementtype, set);
        let query = Query::select().element(Cmp::Is(elementtype)).set(set);
        assert(query == q);
        match Selector::from_query(self.document, &query) {
            Ok(selector) => self.ancestors(selector),
            Err(_) => {
                proof {
                    assert(false);
                }
                SelectElementsIterator::from_elements(self.document, Selector::default(), Vec::new())
            },
        }
    }

    ///The ancestors of this element of a group (and set), from the parent upwards
    pub fn get_ancestors_by_group(&self, elementgroup: ElementGroup, set: Cmp<String>) -> (it: SelectElementsIterator<'a>)
        requires
            self.wf(),
        ensures
            it.document == self.document,
            it.selector.encodes(*self.document, group_query(elementgroup, set)),
            it.yields(ancestors_of(*self.document, self.key, it.selector)),
            it.position_view() == 0,
    {
        let ghost q = group_query(elementgroup, set);
        let query = Query::select().elementgroup(Cmp::Is(elementgroup)).set(set);
        assert(query == q);
        match Selector::from_query(self.document, &query) {
            Ok(selector) => self.ancestors(selector),
            Err(_) => {
                proof {
                    assert(false);
                }
                SelectElementsIterator::from_elements(self.document, Selector::default(), Vec::new())
            },
        }
    }

    ///The closest ancestor of this element of a type (and set), if any
    pub fn get_ancestor(&self, elementtype: ElementType, set: Cmp<String>) -> (r: Option<Element<'a>>)
        requires
            self.wf(),
        ensures
            exists|s: Selector| #[trigger] s.encodes(*self.document, element_query(elementtype, set)) && {
                let keys = ancestors_of(*self.document, self.key, s);
                &&& keys.len() == 0 ==> r is None
                &&& keys.len() > 0 ==> (r matches Some(e) && e.key == keys[0] && e.wf() && e.document == self.document)
            },
    {
        let mut it = self.get_ancestors(elementtype, set);
        it.next()
    }

    ///The closest ancestor of this element of a group (and set), if any
    pub fn get_ancestor_by_group(&self, elementgroup: ElementGroup, set: Cmp<String>) -> (r: Option<Element<'a>>)
        requires
            self.wf(),
        ensures
            exists|s: Selector| #[trigger] s.encodes(*self.document, group_query(elementgroup, set)) && {
                let keys = ancestors_of(*self.document, self.key, s);
                &&& keys.len() == 0 ==> r is None
                &&& keys.len() > 0 ==> (r matches Some(e) && e.key == keys[0] && e.wf() && e.document == self.document)
            },
    {
        let mut it = self.get_ancestors_by_group(elementgroup, set);
        it.next()
    }
}

} // verus!
