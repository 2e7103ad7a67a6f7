//! FoLiA elements: the data an element owns (its type, attributes and data
//! items), and the read interface to an element within a document.

use vstd::prelude::*;
use crate::types::{ElementType, ElementKey, DataType, DecKey, ClassKey, ProcKey, SubsetKey};
use crate::attrib::{Attribute, AttribType};
use crate::error::FoliaError;
use crate::util::str_eq;
use crate::store::Storable;
use crate::document::Document;
use crate::metadata::{Declaration, Processor, ProcessorType, opt_view, opt_name};

verus! {

/// The position of the first item of `s` that satisfies `p`, or the length of `s`.
pub open spec fn first_index<T>(s: Seq<T>, p: spec_fn(T) -> bool) -> int
    decreases s.len(),
{
    if s.len() == 0 {
        0
    } else if p(s[0]) {
        0
    } else {
        1 + first_index(s.skip(1), p)
    }
}

/// `first_index` is a position within the sequence (or its end), with no
/// earlier item satisfying the predicate, and the item there satisfying it.
pub proof fn lemma_first_index<T>(s: Seq<T>, p: spec_fn(T) -> bool)
    ensures
        0 <= first_index(s, p) <= s.len(),
        first_index(s, p) < s.len() ==> p(s[first_index(s, p)]),
        forall|j: int| 0 <= j < first_index(s, p) ==> !p(#[trigger] s[j]),
    decreases s.len(),
{
    if s.len() > 0 && !p(s[0]) {
        lemma_first_index(s.skip(1), p);
        assert forall|j: int| 0 <= j < first_index(s, p) implies !p(#[trigger] s[j]) by {
            if j > 0 {
                assert(s[j] == s.skip(1)[j - 1]);
            }
        }
    }
}

/// Establishes `first_index` from a scan that found the first match (or none) at `i`.
pub proof fn lemma_first_index_at<T>(s: Seq<T>, p: spec_fn(T) -> bool, i: int)
    requires
        0 <= i <= s.len(),
        i < s.len() ==> p(s[i]),
        forall|j: int| 0 <= j < i ==> !p(#[trigger] s[j]),
    ensures
        first_index(s, p) == i,
{
    lemma_first_index(s, p);
    let f = first_index(s, p);
    if f < i {
        assert(!p(s[f]));
    }
    if i < f {
        assert(!p(s[i]));
    }
}

/// Appending an item that does not satisfy the predicate does not move the first one that does.
pub proof fn lemma_first_index_push<T>(s: Seq<T>, p: spec_fn(T) -> bool, x: T)
    requires
        !p(x),
    ensures
        first_index(s, p) < s.len() ==> first_index(s.push(x), p) == first_index(s, p),
        first_index(s, p) == s.len() ==> first_index(s.push(x), p) == s.len() + 1,
{
    lemma_first_index(s, p);
    let i = first_index(s, p);
    if i < s.len() {
        assert(s.push(x)[i] == s[i]);
        assert forall|j: int| 0 <= j < i implies !p(#[trigger] s.push(x)[j]) by {
            assert(s.push(x)[j] == s[j]);
        }
        lemma_first_index_at(s.push(x), p, i);
    } else {
        assert forall|j: int| 0 <= j < s.len() + 1 implies !p(#[trigger] s.push(x)[j]) by {
            if j < s.len() {
                assert(s.push(x)[j] == s[j]);
            }
        }
        lemma_first_index_at(s.push(x), p, (s.len() + 1) as int);
    }
}

/// Holds for a word reference to the given ID that is still to be added.
pub open spec fn is_new_wref(d: DataType, id: Seq<char>) -> bool {
    match d {
        DataType::AddElement(w) => {
            &&& w.elementtype == ElementType::WordReference
            &&& w.attribs@.len() == 1
            &&& w.attribs@[0] matches Attribute::Idref(s)
            &&& w.attribs@[0]->Idref_0@ == id
            &&& w.data@.len() == 0
            &&& w.key is None
            &&& w.parent is None
        },
        _ => false,
    }
}

/// Holds for an ID reference attribute.
pub open spec fn is_idref() -> spec_fn(Attribute) -> bool {
    |a: Attribute| a is Idref
}

/// Holds for an annotator attribute.
pub open spec fn is_annotator() -> spec_fn(Attribute) -> bool {
    |a: Attribute| a is Annotator
}

/// Holds for an annotator type attribute.
pub open spec fn is_annotatortype() -> spec_fn(Attribute) -> bool {
    |a: Attribute| a is AnnotatorType
}

/// Holds for a confidence attribute.
pub open spec fn is_confidence() -> spec_fn(Attribute) -> bool {
    |a: Attribute| a is Confidence
}

/// Holds for an attribute of the given type.
pub open spec fn has_type(t: AttribType) -> spec_fn(Attribute) -> bool {
    |a: Attribute| a.atype() == t
}

///How thoroughly to validate elements
#[derive(Copy, Clone, PartialEq, Eq, Structural, Debug)]
pub enum ValidationStrategy {
    NoValidation,
    ShallowValidation,
    DeepValidation,
}

/// The attributes after one is set: the first of its type, if any, is replaced, and the new one
/// comes last.
pub open spec fn with_set(attribs: Seq<Attribute>, a: Attribute) -> Seq<Attribute> {
    let i = first_index(attribs, has_type(a.atype()));
    if i < attribs.len() { attribs.remove(i).push(a) } else { attribs.push(a) }
}

/// Two data items are the same: texts or comments with the same text, or references to the same
/// element (an element still to be added is the same as none).
pub open spec fn same_item(a: DataType, b: DataType) -> bool {
    match (a, b) {
        (DataType::Text(x), DataType::Text(y)) => x@ == y@,
        (DataType::Comment(x), DataType::Comment(y)) => x@ == y@,
        (DataType::Element(x), DataType::Element(y)) => x == y,
        (DataType::SpanReference(x), DataType::SpanReference(y)) => x == y,
        _ => false,
    }
}

/// At most one attribute is of the type.
pub open spec fn at_most_one(attribs: Seq<Attribute>, t: AttribType) -> bool {
    forall|i: int, j: int| 0 <= i < j < attribs.len() && (#[trigger] attribs[i]).atype() == t
        ==> (#[trigger] attribs[j]).atype() != t
}

/// Setting an attribute where at most one of its type is set: reading its type gives it back, and
/// still at most one of its type is set.
pub proof fn lemma_set_then_get(attribs: Seq<Attribute>, a: Attribute)
    requires
        at_most_one(attribs, a.atype()),
    ensures
        first_index(with_set(attribs, a), has_type(a.atype())) == with_set(attribs, a).len() - 1,
        with_set(attribs, a).last() == a,
        at_most_one(with_set(attribs, a), a.atype()),
{
    let t = a.atype();
    let p = has_type(t);
    lemma_first_index(attribs, p);
    let i = first_index(attribs, p);
    let s = with_set(attribs, a);
    if i < attribs.len() {
        let r = attribs.remove(i);
        assert forall|j: int| 0 <= j < r.len() implies !p(#[trigger] r[j]) by {
            if j < i {
                assert(r[j] == attribs[j]);
            } else {
                assert(r[j] == attribs[j + 1]);
                assert(attribs[i].atype() == t);
            }
        }
        assert forall|j: int| 0 <= j < s.len() - 1 implies !p(#[trigger] s[j]) by {
            assert(s[j] == r[j]);
        }
        lemma_first_index_at(s, p, s.len() - 1);
    } else {
        assert forall|j: int| 0 <= j < s.len() - 1 implies !p(#[trigger] s[j]) by {
            assert(s[j] == attribs[j]);
        }
        lemma_first_index_at(s, p, s.len() - 1);
    }
    assert forall|x: int, y: int| 0 <= x < y < s.len() && (#[trigger] s[x]).atype() == t
        implies (#[trigger] s[y]).atype() != t by {
        assert(!p(s[x]));
    }
}

/// Deleting the attribute of a type where at most one of it is set leaves none of that type.
pub proof fn lemma_del_then_absent(attribs: Seq<Attribute>, t: AttribType)
    requires
        at_most_one(attribs, t),
    ensures
        ({
            let i = first_index(attribs, has_type(t));
            let after = if i < attribs.len() { attribs.remove(i) } else { attribs };
            first_index(after, has_type(t)) == after.len()
        }),
{
    let p = has_type(t);
    lemma_first_index(attribs, p);
    let i = first_index(attribs, p);
    if i < attribs.len() {
        let r = attribs.remove(i);
        assert forall|j: int| 0 <= j < r.len() implies !p(#[trigger] r[j]) by {
            if j < i {
                assert(r[j] == attribs[j]);
            } else {
                assert(r[j] == attribs[j + 1]);
                assert(attribs[i].atype() == t);
            }
        }
        lemma_first_index_at(r, p, r.len() as int);
    } else {
        lemma_first_index_at(attribs, p, attribs.len() as int);
    }
}

/// The mathematical content of an element's data.
#[verifier::ext_equal]
pub struct ElementModel {
    pub elementtype: ElementType,
    pub attribs: Seq<Attribute>,
    pub data: Seq<DataType>,
    pub key: Option<ElementKey>,
    pub parent: Option<ElementKey>,
}

///This is the structure that represents any instance of a FoLiA element. The type of the structure
///is represented by ``elementtype``. An elements holds and owns attributes, encoded attributes (if
///it is encoded already),  data items (which may be text, comments or child elements (by key)), and a link
///to its parent (by key).
pub struct ElementData {
    pub elementtype: ElementType,
    pub attribs: Vec<Attribute>,
    pub data: Vec<DataType>,
    pub key: Option<ElementKey>,
    pub parent: Option<ElementKey>,
}

impl View for ElementData {
    type V = ElementModel;

    open spec fn view(&self) -> ElementModel {
        ElementModel {
            elementtype: self.elementtype,
            attribs: self.attribs@,
            data: self.data@,
            key: self.key,
            parent: self.parent,
        }
    }
}

impl ElementData {
    /// The first attribute of the given type, if any.
    pub open spec fn attrib_of(self, t: AttribType) -> Option<Attribute> {
        let i = first_index(self.attribs@, has_type(t));
        if i < self.attribs@.len() { Some(self.attribs@[i]) } else { None }
    }

    /// The ID of the element: the value of its first `Id` attribute.
    pub open spec fn id_of(self) -> Option<Seq<char>> {
        match self.attrib_of(AttribType::ID) {
            Some(Attribute::Id(s)) => Some(s@),
            _ => None,
        }
    }

    /// Holds when some attribute still has to be encoded.
    pub open spec fn is_encodable(self) -> bool {
        exists|i: int| 0 <= i < self.attribs@.len() && (#[trigger] self.attribs@[i]).is_encodable()
    }

    ///Simple constructor for an empty element (optionally with attributes)
    pub fn new(elementtype: ElementType) -> (e: ElementData)
        ensures
            e.elementtype == elementtype,
            e.attribs@.len() == 0,
            e.data@.len() == 0,
            e.key is None,
            e.parent is None,
    {
        ElementData { elementtype, attribs: Vec::new(), data: Vec::new(), key: None, parent: None }
    }

    ///Get the first attribute of the given type
    pub fn attrib(&self, atype: AttribType) -> (r: Option<&Attribute>)
        ensures
            r == match self.attrib_of(atype) { Some(a) => Some(&a), None => None },
    {
        let mut i: usize = 0;
        while i < self.attribs.len()
            invariant
                i <= self.attribs@.len(),
                forall|j: int| 0 <= j < i ==> !has_type(atype)(#[trigger] self.attribs@[j]),
            decreases self.attribs@.len() - i,
        {
            if self.attribs[i].attribtype() == atype {
                proof {
                    lemma_first_index_at(self.attribs@, has_type(atype), i as int);
                }
                return Some(&self.attribs[i]);
            }
            i += 1;
        }
        proof {
            lemma_first_index_at(self.attribs@, has_type(atype), i as int);
        }
        None
    }

    ///Check if the attribute exists
    pub fn has_attrib(&self, atype: AttribType) -> (r: bool)
        ensures
            r == self.attrib_of(atype) is Some,
            r == exists|i: int| 0 <= i < self.attribs@.len() && (#[trigger] self.attribs@[i]).atype() == atype,
    {
        proof {
            lemma_first_index(self.attribs@, has_type(atype));
        }
        self.attrib(atype).is_some()
    }

    ///Returns the ID of the element (if any)
    pub fn id(&self) -> (r: Option<&str>)
        ensures
            r matches Some(s) ==> self.id_of() == Some(s@),
            r is None ==> self.id_of() is None,
    {
        match self.attrib(AttribType::ID) {
            Some(Attribute::Id(s)) => Some(s.as_str()),
            _ => None,
        }
    }

    ///Returns ``true`` if this element is encodable, i.e. if it needs to be encoded
    ///prior to being stored. An element is encodable if it has one or more encodable attributes.
    pub fn encodable(&self) -> (r: bool)
        ensures
            r == self.is_encodable(),
    {
        let mut i: usize = 0;
        while i < self.attribs.len()
            invariant
                i <= self.attribs@.len(),
                forall|j: int| 0 <= j < i ==> !(#[trigger] self.attribs@[j]).is_encodable(),
            decreases self.attribs@.len() - i,
        {
            if self.attribs[i].encodable() {
                return true;
            }
            i += 1;
        }
        false
    }

    ///Returns the key of the current element
    pub fn key(&self) -> (r: Option<ElementKey>)
        ensures
            r == self.key,
    {
        self.key
    }

    ///Sets the key of the current element
    pub fn assign_key(&mut self, key: ElementKey)
        ensures
            *final(self) == (ElementData { key: Some(key), ..*old(self) }),
    {
        self.key = Some(key);
    }

    ///Whether the element holds no data items
    pub fn is_empty(&self) -> (r: bool)
        ensures
            r == (self.data@.len() == 0),
    {
        self.data.len() == 0
    }

    ///Gives access to all attributes
    pub fn attribs(&self) -> (r: &Vec<Attribute>)
        ensures
            r == &self.attribs,
    {
        &self.attribs
    }

    ///Deletes (and returns) the first attribute of the specified type
    pub fn del_attrib(&mut self, atype: AttribType) -> (r: Option<Attribute>)
        ensures
            ({
                let i = first_index(old(self).attribs@, has_type(atype));
                &&& i < old(self).attribs@.len() ==> r == Some(old(self).attribs@[i])
                    && final(self).attribs@ == old(self).attribs@.remove(i)
                &&& i == old(self).attribs@.len() ==> r is None && final(self).attribs@ == old(self).attribs@
            }),
            final(self).elementtype == old(self).elementtype,
            final(self).data == old(self).data,
            final(self).key == old(self).key,
            final(self).parent == old(self).parent,
    {
        proof {
            lemma_first_index(self.attribs@, has_type(atype));
        }
        let mut i: usize = 0;
        while i < self.attribs.len()
            invariant
                i <= self.attribs@.len(),
                *self == *old(self),
                forall|j: int| 0 <= j < i ==> !has_type(atype)(#[trigger] self.attribs@[j]),
            decreases self.attribs@.len() - i,
        {
            if self.attribs[i].attribtype() == atype {
                proof {
                    lemma_first_index_at(self.attribs@, has_type(atype), i as int);
                }
                return Some(self.attribs.remove(i));
            }
            i += 1;
        }
        proof {
            lemma_first_index_at(self.attribs@, has_type(atype), i as int);
        }
        None
    }

    ///Sets/adds an attribute: the first attribute of the same type (if any) is
    ///removed, the new one is appended
    pub fn set_attrib(&mut self, attrib: Attribute)
        ensures
            final(self).attribs@ == with_set(old(self).attribs@, attrib),
            final(self).elementtype == old(self).elementtype,
            final(self).data == old(self).data,
            final(self).key == old(self).key,
            final(self).parent == old(self).parent,
    {
        let t = attrib.attribtype();
        self.del_attrib(t);
        let ghost mid = self.attribs@;
        self.attribs.push(attrib);
        proof {
            let i = first_index(old(self).attribs@, has_type(t));
            lemma_first_index(old(self).attribs@, has_type(t));
            assert(has_type(t) == has_type(attrib.atype()));
            if i < old(self).attribs@.len() {
                assert(mid == old(self).attribs@.remove(i));
            } else {
                assert(mid == old(self).attribs@);
            }
            assert(self.attribs@ =~= with_set(old(self).attribs@, attrib));
        }
    }

    ///Sets/adds an attribute (builder pattern)
    pub fn with_attrib(self, attrib: Attribute) -> (e: Self)
        ensures
            e.attribs@ == with_set(self.attribs@, attrib),
            e.elementtype == self.elementtype,
            e.data == self.data,
            e.key == self.key,
            e.parent == self.parent,
    {
        let mut e = self;
        e.set_attrib(attrib);
        e
    }

    ///Appends an attribute (that is not an ID) without removing any
    pub fn push_attrib(&mut self, attrib: Attribute)
        requires
            attrib.atype() != AttribType::ID,
        ensures
            final(self).attribs@ == old(self).attribs@.push(attrib),
            *final(self) == (ElementData { attribs: final(self).attribs, ..*old(self) }),
            final(self).id_of() == old(self).id_of(),
    {
        proof {
            lemma_first_index_push(self.attribs@, has_type(AttribType::ID), attrib);
            lemma_first_index(self.attribs@, has_type(AttribType::ID));
        }
        self.attribs.push(attrib);
        proof {
            let i = first_index(old(self).attribs@, has_type(AttribType::ID));
            if i < old(self).attribs@.len() {
                assert(self.attribs@[i] == old(self).attribs@[i]);
            }
        }
    }

    ///Sets all attributes at once (takes ownership)
    pub fn set_attribs(&mut self, attribs: Vec<Attribute>)
        ensures
            *final(self) == (ElementData { attribs, ..*old(self) }),
    {
        self.attribs = attribs;
    }

    ///Sets all attributes at once (builder pattern)
    pub fn with_attribs(self, attribs: Vec<Attribute>) -> (e: Self)
        ensures
            e == (ElementData { attribs, ..self }),
    {
        let mut e = self;
        e.set_attribs(attribs);
        e
    }

    ///High-level builder method to provide the span: adds, for each ID, a word
    ///reference to be constructed
    pub fn with_span(self, span_ids: &[&str]) -> (e: Self)
        ensures
            e.elementtype == self.elementtype,
            e.attribs == self.attribs,
            e.key == self.key,
            e.parent == self.parent,
            e.data@.len() == self.data@.len() + span_ids@.len(),
            e.data@.subrange(0, self.data@.len() as int) == self.data@,
            forall|i: int| 0 <= i < span_ids@.len() ==> is_new_wref(#[trigger] e.data@[self.data@.len() + i], span_ids@[i]@),
    {
        let mut e = self;
        let mut i: usize = 0;
        while i < span_ids.len()
            invariant
                i <= span_ids@.len(),
                e.elementtype == self.elementtype,
                e.attribs == self.attribs,
                e.key == self.key,
                e.parent == self.parent,
                e.data@.len() == self.data@.len() + i,
                e.data@.subrange(0, self.data@.len() as int) == self.data@,
                forall|j: int| 0 <= j < i ==> is_new_wref(#[trigger] e.data@[self.data@.len() + j], span_ids@[j]@),
            decreases span_ids@.len() - i,
        {
            let mut w = ElementData::new(ElementType::WordReference);
            w.attribs.push(Attribute::Idref(span_ids[i].to_owned()));
            let ghost before = e.data@;
            e.data.push(DataType::AddElement(w));
            assert(e.data@.subrange(0, self.data@.len() as int) =~= before.subrange(0, self.data@.len() as int));
            i += 1;
        }
        e
    }

    ///High-level builder method to provide textcontent: adds a text content
    ///element (to be constructed) holding the text
    pub fn with_text(self, text: String) -> (e: Self)
        ensures
            e.elementtype == self.elementtype,
            e.attribs == self.attribs,
            e.key == self.key,
            e.parent == self.parent,
            e.data@.len() == self.data@.len() + 1,
            e.data@.drop_last() == self.data@,
            e.data@.last() matches DataType::AddElement(t)
                && t.elementtype == ElementType::TextContent
                && t.attribs@.len() == 0
                && t.data@ == seq![DataType::Text(text)]
                && t.key is None && t.parent is None,
    {
        let mut t = ElementData::new(ElementType::TextContent);
        t.data.push(DataType::Text(text));
        self.add_element(t)
    }

    ///High-level builder method: add child to be constructed. The actual encoding happens later
    ///when ``Document.add_element()`` is called.
    pub fn add_element(self, data: ElementData) -> (e: Self)
        ensures
            e == (ElementData { data: e.data, ..self }),
            e.data@ == self.data@.push(DataType::AddElement(data)),
    {
        let mut e = self;
        e.data.push(DataType::AddElement(data));
        e
    }

    ///Low-level add function
    pub fn push(&mut self, datatype: DataType)
        ensures
            *final(self) == (ElementData { data: final(self).data, ..*old(self) }),
            final(self).data@ == old(self).data@.push(datatype),
    {
        self.data.push(datatype);
    }

    ///Builder variant for push that adds data
    pub fn with(self, data: DataType) -> (e: Self)
        ensures
            e == (ElementData { data: e.data, ..self }),
            e.data@ == self.data@.push(data),
    {
        let mut e = self;
        e.data.push(data);
        e
    }

    ///Low-level add function, element children are expressed as keys (``DataType::Element(key)``)
    pub fn with_children(self, data: Vec<DataType>) -> (e: Self)
        ensures
            e == (ElementData { data: e.data, ..self }),
            e.data@ == self.data@ + data@,
    {
        let mut e = self;
        let mut data = data;
        let ghost orig = data@;
        e.data.append(&mut data);
        e
    }

    ///Returns the key of the parent element of this element
    pub fn parent_key(&self) -> (r: Option<ElementKey>)
        ensures
            r == self.parent,
    {
        self.parent
    }

    ///Sets the key of the parent element of this element
    pub fn set_parent_key(&mut self, parent: Option<ElementKey>)
        ensures
            *final(self) == (ElementData { parent, ..*old(self) }),
    {
        self.parent = parent;
    }

    ///Builder method (can be chained) that sets the key of the parent element of this element
    pub fn with_parent_key(self, parent: Option<ElementKey>) -> (e: Self)
        ensures
            e == (ElementData { parent, ..self }),
    {
        let mut e = self;
        e.set_parent_key(parent);
        e
    }

    ///Low-level get function
    pub fn get_data_at(&self, index: usize) -> (r: Option<&DataType>)
        ensures
            index < self.data@.len() ==> r == Some(&self.data@[index as int]),
            index >= self.data@.len() ==> r is None,
    {
        if index < self.data.len() {
            Some(&self.data[index])
        } else {
            None
        }
    }

    ///Returns the number of data items contained in this element
    pub fn len(&self) -> (r: usize)
        ensures
            r == self.data@.len(),
    {
        self.data.len()
    }

    ///Remove (and return) the child at the specified index, does not delete it from the underlying store
    pub fn remove(&mut self, index: usize) -> (r: Option<DataType>)
        ensures
            index < old(self).data@.len() ==> r == Some(old(self).data@[index as int])
                && final(self).data@ == old(self).data@.remove(index as int),
            index >= old(self).data@.len() ==> r is None && final(self).data@ == old(self).data@,
            *final(self) == (ElementData { data: final(self).data, ..*old(self) }),
    {
        if index >= self.data.len() {
            None
        } else {
            Some(self.data.remove(index))
        }
    }

    ///Returns the index of the first data item that equals the given one (an element still to be
    ///added equals none)
    pub fn index(&self, refchild: &DataType) -> (r: Option<usize>)
        ensures
            r matches Some(i) ==> i < self.data@.len() && same_item(self.data@[i as int], *refchild)
                && forall|j: int| 0 <= j < i ==> !same_item(self.data@[j], *refchild),
            r is None ==> forall|j: int| 0 <= j < self.data@.len() ==> !same_item(self.data@[j], *refchild),
    {
        let mut i: usize = 0;
        while i < self.data.len()
            invariant
                i <= self.data@.len(),
                forall|j: int| 0 <= j < i ==> !same_item(self.data@[j], *refchild),
            decreases self.data@.len() - i,
        {
            let same = match (&self.data[i], refchild) {
                (DataType::Text(a), DataType::Text(b)) => str_eq(a.as_str(), b.as_str()),
                (DataType::Comment(a), DataType::Comment(b)) => str_eq(a.as_str(), b.as_str()),
                (DataType::Element(a), DataType::Element(b)) => *a == *b,
                (DataType::SpanReference(a), DataType::SpanReference(b)) => *a == *b,
                _ => false,
            };
            if same {
                return Some(i);
            }
            i += 1;
        }
        None
    }

    ///Returns the index of the first data item that refers to the given element (by key)
    pub fn index_of_element(&self, key: ElementKey) -> (r: Option<usize>)
        ensures
            r matches Some(i) ==> i < self.data@.len() && self.data@[i as int] == DataType::Element(key)
                && forall|j: int| 0 <= j < i ==> self.data@[j] != DataType::Element(key),
            r is None ==> forall|j: int| 0 <= j < self.data@.len() ==> self.data@[j] != DataType::Element(key),
    {
        let mut i: usize = 0;
        while i < self.data.len()
            invariant
                i <= self.data@.len(),
                forall|j: int| 0 <= j < i ==> self.data@[j] != DataType::Element(key),
            decreases self.data@.len() - i,
        {
            if let DataType::Element(k) = &self.data[i] {
                if *k == key {
                    return Some(i);
                }
            }
            i += 1;
        }
        None
    }
}

/// Where a scan for a decoded attribute of the given kind stops: at the first
/// attribute of that kind or the first encoded one.
pub open spec fn decoded_scan(t: AttribType) -> spec_fn(Attribute) -> bool {
    |a: Attribute| (a.atype() == t && a.borrowed_value() is Some) || a.is_decodable()
}

/// Where a scan for an encoded attribute of the given kind stops: at the first
/// attribute of that kind or the first one still to be encoded.
pub open spec fn encoded_scan(t: AttribType) -> spec_fn(Attribute) -> bool {
    |a: Attribute| (a.atype() == t && a.is_decodable()) || a.is_encodable()
}

impl ElementData {
    /// The value of the first decoded attribute of type `t`, where a scan for it meets
    /// no encoded attribute first.
    pub open spec fn decoded_value(self, t: AttribType) -> Option<Seq<char>> {
        let i = first_index(self.attribs@, decoded_scan(t));
        if i < self.attribs@.len() && !self.attribs@[i].is_decodable() {
            self.attribs@[i].borrowed_value()
        } else {
            None
        }
    }

    /// A scan for a decoded attribute of type `t` meets no encoded attribute first.
    pub open spec fn decoded_ok(self, t: AttribType) -> bool {
        let i = first_index(self.attribs@, decoded_scan(t));
        i == self.attribs@.len() || !self.attribs@[i].is_decodable()
    }

    /// The declaration key of an encoded element, if it has one.
    pub open spec fn dec_key_of(self) -> Option<DecKey> {
        let i = first_index(self.attribs@, encoded_scan(AttribType::SET));
        if i < self.attribs@.len() && self.attribs@[i] is DeclarationRef {
            Some(self.attribs@[i]->DeclarationRef_0)
        } else {
            None
        }
    }

    /// The class key of an encoded element, if it has one.
    pub open spec fn class_key_of(self) -> Option<ClassKey> {
        let i = first_index(self.attribs@, encoded_scan(AttribType::CLASS));
        if i < self.attribs@.len() && self.attribs@[i] is ClassRef {
            Some(self.attribs@[i]->ClassRef_0)
        } else {
            None
        }
    }

    /// The processor key of an encoded element, if it has one.
    pub open spec fn proc_key_of(self) -> Option<ProcKey> {
        let i = first_index(self.attribs@, encoded_scan(AttribType::PROCESSOR));
        if i < self.attribs@.len() && self.attribs@[i] is ProcessorRef {
            Some(self.attribs@[i]->ProcessorRef_0)
        } else {
            None
        }
    }

    /// The subset key of an encoded element, if it has one.
    pub open spec fn subset_key_of(self) -> Option<SubsetKey> {
        let i = first_index(self.attribs@, encoded_scan(AttribType::SUBSET));
        if i < self.attribs@.len() && self.attribs@[i] is SubsetRef {
            Some(self.attribs@[i]->SubsetRef_0)
        } else {
            None
        }
    }
}

impl ElementData {
    ///Get the FoLiA class if the element is not encoded yet, returns an error otherwise
    pub fn class(&self) -> (r: Result<Option<&str>, FoliaError>)
        ensures
            ({
                let i = first_index(self.attribs@, decoded_scan(AttribType::CLASS));
                &&& i == self.attribs@.len() ==> r == Ok::<Option<&str>, FoliaError>(None)
                &&& (i < self.attribs@.len() && self.attribs@[i] is Class) ==>
                    (r matches Ok(Some(s)) && s@ == self.attribs@[i]->Class_0@)
                &&& (i < self.attribs@.len() && !(self.attribs@[i] is Class)) ==>
                    (r matches Err(FoliaError::EncodeError(m))
                    && m@ == "Querying for a decoded attribute on attributes that are not decoded yet"@)
            }),
    {
        let mut i: usize = 0;
        while i < self.attribs.len()
            invariant
                i <= self.attribs@.len(),
                forall|j: int| 0 <= j < i ==> !decoded_scan(AttribType::CLASS)(#[trigger] self.attribs@[j]),
            decreases self.attribs@.len() - i,
        {
            if let Attribute::Class(s) = &self.attribs[i] {
                proof {
                    lemma_first_index_at(self.attribs@, decoded_scan(AttribType::CLASS), i as int);
                }
                return Ok(Some(s.as_str()));
            } else if self.attribs[i].decodable() {
                proof {
                    lemma_first_index_at(self.attribs@, decoded_scan(AttribType::CLASS), i as int);
                }
                return Err(FoliaError::EncodeError("Querying for a decoded attribute on attributes that are not decoded yet".to_owned()));
            }
            i += 1;
        }
        proof {
            lemma_first_index_at(self.attribs@, decoded_scan(AttribType::CLASS), i as int);
        }
        Ok(None)
    }

    ///Get the FoLiA set if the element is not encoded yet, returns an error otherwise
    pub fn set(&self) -> (r: Result<Option<&str>, FoliaError>)
        ensures
            ({
                let i = first_index(self.attribs@, decoded_scan(AttribType::SET));
                &&& i == self.attribs@.len() ==> r == Ok::<Option<&str>, FoliaError>(None)
                &&& (i < self.attribs@.len() && self.attribs@[i] is SetName) ==>
                    (r matches Ok(Some(s)) && s@ == self.attribs@[i]->SetName_0@)
                &&& (i < self.attribs@.len() && !(self.attribs@[i] is SetName)) ==>
                    (r matches Err(FoliaError::EncodeError(m))
                    && m@ == "Querying for a decoded attribute on attributes that are not decoded yet"@)
            }),
    {
        let mut i: usize = 0;
        while i < self.attribs.len()
            invariant
                i <= self.attribs@.len(),
                forall|j: int| 0 <= j < i ==> !decoded_scan(AttribType::SET)(#[trigger] self.attribs@[j]),
            decreases self.attribs@.len() - i,
        {
            if let Attribute::SetName(s) = &self.attribs[i] {
                proof {
                    lemma_first_index_at(self.attribs@, decoded_scan(AttribType::SET), i as int);
                }
                return Ok(Some(s.as_str()));
            } else if self.attribs[i].decodable() {
                proof {
                    lemma_first_index_at(self.attribs@, decoded_scan(AttribType::SET), i as int);
                }
                return Err(FoliaError::EncodeError("Querying for a decoded attribute on attributes that are not decoded yet".to_owned()));
            }
            i += 1;
        }
        proof {
            lemma_first_index_at(self.attribs@, decoded_scan(AttribType::SET), i as int);
        }
        Ok(None)
    }

    ///Get the FoLiA subset (only applies to elements of type ``ElementType::Feature``) if the element is not encoded yet, returns an error otherwise
    pub fn subset(&self) -> (r: Result<Option<&str>, FoliaError>)
        ensures
            ({
                let i = first_index(self.attribs@, decoded_scan(AttribType::SUBSET));
                &&& i == self.attribs@.len() ==> r == Ok::<Option<&str>, FoliaError>(None)
                &&& (i < self.attribs@.len() && self.attribs@[i] is Subset) ==>
                    (r matches Ok(Some(s)) && s@ == self.attribs@[i]->Subset_0@)
                &&& (i < self.attribs@.len() && !(self.attribs@[i] is Subset)) ==>
                    (r matches Err(FoliaError::EncodeError(m))
                    && m@ == "Querying for a decoded attribute on attributes that are not decoded yet"@)
            }),
    {
        let mut i: usize = 0;
        while i < self.attribs.len()
            invariant
                i <= self.attribs@.len(),
                forall|j: int| 0 <= j < i ==> !decoded_scan(AttribType::SUBSET)(#[trigger] self.attribs@[j]),
            decreases self.attribs@.len() - i,
        {
            if let Attribute::Subset(s) = &self.attribs[i] {
                proof {
                    lemma_first_index_at(self.attribs@, decoded_scan(AttribType::SUBSET), i as int);
                }
                return Ok(Some(s.as_str()));
            } else if self.attribs[i].decodable() {
                proof {
                    lemma_first_index_at(self.attribs@, decoded_scan(AttribType::SUBSET), i as int);
                }
                return Err(FoliaError::EncodeError("Querying for a decoded attribute on attributes that are not decoded yet".to_owned()));
            }
            i += 1;
        }
        proof {
            lemma_first_index_at(self.attribs@, decoded_scan(AttribType::SUBSET), i as int);
        }
        Ok(None)
    }

    ///Get the Processor ID if the element is not encoded yet, returns an error otherwise
    pub fn processor(&self) -> (r: Result<Option<&str>, FoliaError>)
        ensures
            ({
                let i = first_index(self.attribs@, decoded_scan(AttribType::PROCESSOR));
                &&& i == self.attribs@.len() ==> r == Ok::<Option<&str>, FoliaError>(None)
                &&& (i < self.attribs@.len() && self.attribs@[i] is Processor) ==>
                    (r matches Ok(Some(s)) && s@ == self.attribs@[i]->Processor_0@)
                &&& (i < self.attribs@.len() && !(self.attribs@[i] is Processor)) ==>
                    (r matches Err(FoliaError::EncodeError(m))
                    && m@ == "Querying for a decoded attribute on attributes that are not decoded yet"@)
            }),
    {
        let mut i: usize = 0;
        while i < self.attribs.len()
            invariant
                i <= self.attribs@.len(),
                forall|j: int| 0 <= j < i ==> !decoded_scan(AttribType::PROCESSOR)(#[trigger] self.attribs@[j]),
            decreases self.attribs@.len() - i,
        {
            if let Attribute::Processor(s) = &self.attribs[i] {
                proof {
                    lemma_first_index_at(self.attribs@, decoded_scan(AttribType::PROCESSOR), i as int);
                }
                return Ok(Some(s.as_str()));
            } else if self.attribs[i].decodable() {
                proof {
                    lemma_first_index_at(self.attribs@, decoded_scan(AttribType::PROCESSOR), i as int);
                }
                return Err(FoliaError::EncodeError("Querying for a decoded attribute on attributes that are not decoded yet".to_owned()));
            }
            i += 1;
        }
        proof {
            lemma_first_index_at(self.attribs@, decoded_scan(AttribType::PROCESSOR), i as int);
        }
        Ok(None)
    }

    ///Get the FoLiA class key if the element is encoded, returns an error otherwise
    pub fn class_key(&self) -> (r: Result<Option<ClassKey>, FoliaError>)
        ensures
            ({
                let i = first_index(self.attribs@, encoded_scan(AttribType::CLASS));
                &&& i == self.attribs@.len() ==> r == Ok::<Option<ClassKey>, FoliaError>(None)
                &&& (i < self.attribs@.len() && self.attribs@[i] is ClassRef) ==>
                    r == Ok::<Option<ClassKey>, FoliaError>(Some(self.attribs@[i]->ClassRef_0))
                &&& (i < self.attribs@.len() && !(self.attribs@[i] is ClassRef)) ==>
                    (r matches Err(FoliaError::EncodeError(m))
                    && m@ == "Querying for an encoded attribute on attributes that are not encoded yet"@)
            }),
    {
        let mut i: usize = 0;
        while i < self.attribs.len()
            invariant
                i <= self.attribs@.len(),
                forall|j: int| 0 <= j < i ==> !encoded_scan(AttribType::CLASS)(#[trigger] self.attribs@[j]),
            decreases self.attribs@.len() - i,
        {
            if let Attribute::ClassRef(k) = &self.attribs[i] {
                proof {
                    lemma_first_index_at(self.attribs@, encoded_scan(AttribType::CLASS), i as int);
                }
                return Ok(Some(*k));
            } else if self.attribs[i].encodable() {
                proof {
                    lemma_first_index_at(self.attribs@, encoded_scan(AttribType::CLASS), i as int);
                }
                return Err(FoliaError::EncodeError("Querying for an encoded attribute on attributes that are not encoded yet".to_owned()));
            }
            i += 1;
        }
        proof {
            lemma_first_index_at(self.attribs@, encoded_scan(AttribType::CLASS), i as int);
        }
        Ok(None)
    }

    ///Get the FoLiA set/declaration key if the element is encoded, returns an error otherwise
    pub fn declaration_key(&self) -> (r: Result<Option<DecKey>, FoliaError>)
        ensures
            ({
                let i = first_index(self.attribs@, encoded_scan(AttribType::SET));
                &&& i == self.attribs@.len() ==> r == Ok::<Option<DecKey>, FoliaError>(None)
                &&& (i < self.attribs@.len() && self.attribs@[i] is DeclarationRef) ==>
                    r == Ok::<Option<DecKey>, FoliaError>(Some(self.attribs@[i]->DeclarationRef_0))
                &&& (i < self.attribs@.len() && !(self.attribs@[i] is DeclarationRef)) ==>
                    (r matches Err(FoliaError::EncodeError(m))
                    && m@ == "Querying for an encoded attribute on attributes that are not encoded yet"@)
            }),
    {
        let mut i: usize = 0;
        while i < self.attribs.len()
            invariant
                i <= self.attribs@.len(),
                forall|j: int| 0 <= j < i ==> !encoded_scan(AttribType::SET)(#[trigger] self.attribs@[j]),
            decreases self.attribs@.len() - i,
        {
            if let Attribute::DeclarationRef(k) = &self.attribs[i] {
                proof {
                    lemma_first_index_at(self.attribs@, encoded_scan(AttribType::SET), i as int);
                }
                return Ok(Some(*k));
            } else if self.attribs[i].encodable() {
                proof {
                    lemma_first_index_at(self.attribs@, encoded_scan(AttribType::SET), i as int);
                }
                return Err(FoliaError::EncodeError("Querying for an encoded attribute on attributes that are not encoded yet".to_owned()));
            }
            i += 1;
        }
        proof {
            lemma_first_index_at(self.attribs@, encoded_scan(AttribType::SET), i as int);
        }
        Ok(None)
    }

    ///Get the FoLiA processor key if the element is encoded, returns an error otherwise
    pub fn processor_key(&self) -> (r: Result<Option<ProcKey>, FoliaError>)
        ensures
            ({
                let i = first_index(self.attribs@, encoded_scan(AttribType::PROCESSOR));
                &&& i == self.attribs@.len() ==> r == Ok::<Option<ProcKey>, FoliaError>(None)
                &&& (i < self.attribs@.len() && self.attribs@[i] is ProcessorRef) ==>
                    r == Ok::<Option<ProcKey>, FoliaError>(Some(self.attribs@[i]->ProcessorRef_0))
                &&& (i < self.attribs@.len() && !(self.attribs@[i] is ProcessorRef)) ==>
                    (r matches Err(FoliaError::EncodeError(m))
                    && m@ == "Querying for an encoded attribute on attributes that are not encoded yet"@)
            }),
    {
        let mut i: usize = 0;
        while i < self.attribs.len()
            invariant
                i <= self.attribs@.len(),
                forall|j: int| 0 <= j < i ==> !encoded_scan(AttribType::PROCESSOR)(#[trigger] self.attribs@[j]),
            decreases self.attribs@.len() - i,
        {
            if let Attribute::ProcessorRef(k) = &self.attribs[i] {
                proof {
                    lemma_first_index_at(self.attribs@, encoded_scan(AttribType::PROCESSOR), i as int);
                }
                return Ok(Some(*k));
            } else if self.attribs[i].encodable() {
                proof {
                    lemma_first_index_at(self.attribs@, encoded_scan(AttribType::PROCESSOR), i as int);
                }
                return Err(FoliaError::EncodeError("Querying for an encoded attribute on attributes that are not encoded yet".to_owned()));
            }
            i += 1;
        }
        proof {
            lemma_first_index_at(self.attribs@, encoded_scan(AttribType::PROCESSOR), i as int);
        }
        Ok(None)
    }

    ///Get the FoLiA subset key if the element is encoded, returns an error otherwise
    pub fn subset_key(&self) -> (r: Result<Option<SubsetKey>, FoliaError>)
        ensures
            ({
                let i = first_index(self.attribs@, encoded_scan(AttribType::SUBSET));
                &&& i == self.attribs@.len() ==> r == Ok::<Option<SubsetKey>, FoliaError>(None)
                &&& (i < self.attribs@.len() && self.attribs@[i] is SubsetRef) ==>
                    r == Ok::<Option<SubsetKey>, FoliaError>(Some(self.attribs@[i]->SubsetRef_0))
                &&& (i < self.attribs@.len() && !(self.attribs@[i] is SubsetRef)) ==>
                    (r matches Err(FoliaError::EncodeError(m))
                    && m@ == "Querying for an encoded attribute on attributes that are not encoded yet"@)
            }),
    {
        let mut i: usize = 0;
        while i < self.attribs.len()
            invariant
                i <= self.attribs@.len(),
                forall|j: int| 0 <= j < i ==> !encoded_scan(AttribType::SUBSET)(#[trigger] self.attribs@[j]),
            decreases self.attribs@.len() - i,
        {
            if let Attribute::SubsetRef(k) = &self.attribs[i] {
                proof {
                    lemma_first_index_at(self.attribs@, encoded_scan(AttribType::SUBSET), i as int);
                }
                return Ok(Some(*k));
            } else if self.attribs[i].encodable() {
                proof {
                    lemma_first_index_at(self.attribs@, encoded_scan(AttribType::SUBSET), i as int);
                }
                return Err(FoliaError::EncodeError("Querying for an encoded attribute on attributes that are not encoded yet".to_owned()));
            }
            i += 1;
        }
        proof {
            lemma_first_index_at(self.attribs@, encoded_scan(AttribType::SUBSET), i as int);
        }
        Ok(None)
    }

    ///Get the confidence value, as the literal it was given in
    pub fn confidence(&self) -> (r: Option<&str>)
        ensures
            ({
                let i = first_index(self.attribs@, is_confidence());
                &&& i == self.attribs@.len() ==> r is None
                &&& i < self.attribs@.len() ==> (r matches Some(s) && s@ == self.attribs@[i]->Confidence_0@)
            }),
    {
        let mut i: usize = 0;
        while i < self.attribs.len()
            invariant
                i <= self.attribs@.len(),
                forall|j: int| 0 <= j < i ==> !(#[trigger] self.attribs@[j] is Confidence),
            decreases self.attribs@.len() - i,
        {
            if let Attribute::Confidence(s) = &self.attribs[i] {
                proof {
                    lemma_first_index_at(self.attribs@, is_confidence(), i as int);
                }
                return Some(s.as_str());
            }
            i += 1;
        }
        proof {
            lemma_first_index_at(self.attribs@, is_confidence(), i as int);
        }
        None
    }

    ///Get the ID reference if this element is a wref
    pub fn idref(&self) -> (r: Option<&str>)
        ensures
            ({
                let i = first_index(self.attribs@, is_idref());
                &&& i == self.attribs@.len() ==> r is None
                &&& i < self.attribs@.len() ==> (r matches Some(s) && s@ == self.attribs@[i]->Idref_0@)
            }),
    {
        let mut i: usize = 0;
        while i < self.attribs.len()
            invariant
                i <= self.attribs@.len(),
                forall|j: int| 0 <= j < i ==> !(#[trigger] self.attribs@[j] is Idref),
            decreases self.attribs@.len() - i,
        {
            if let Attribute::Idref(s) = &self.attribs[i] {
                proof {
                    lemma_first_index_at(self.attribs@, is_idref(), i as int);
                }
                return Some(s.as_str());
            }
            i += 1;
        }
        proof {
            lemma_first_index_at(self.attribs@, is_idref(), i as int);
        }
        None
    }

}

impl Storable for ElementData {
    proof fn lemma_keyed_id(self, key: nat) {
    }

    open spec fn id_view(&self) -> Option<Seq<char>> {
        self.id_of()
    }

    open spec fn keyed(self, key: nat) -> Self {
        ElementData { key: Some(key as ElementKey), ..self }
    }

    fn maybe_id(&self) -> (r: Option<String>) {
        match self.id() {
            Some(s) => Some(s.to_owned()),
            None => None,
        }
    }

    fn set_key(&mut self, key: usize) {
        self.key = Some(key as ElementKey);
    }
}

/// The set of an element in a document: that of its declaration.
pub open spec fn set_of(doc: Document, e: ElementData) -> Option<Seq<char>> {
    match e.dec_key_of() {
        Some(k) => match doc.declaration_at(k as int) {
            Some(d) => opt_view(d.set),
            None => None,
        },
        None => None,
    }
}

/// The class of an element in a document: a subclass where the element has a subset.
pub open spec fn class_of(doc: Document, e: ElementData) -> Option<Seq<char>> {
    match (e.class_key_of(), e.dec_key_of()) {
        (Some(c), Some(k)) => match doc.declaration_at(k as int) {
            Some(d) => if e.subset_key_of() is Some {
                opt_name(d.subclasses, c as int)
            } else {
                opt_name(d.classes, c as int)
            },
            None => None,
        },
        _ => None,
    }
}

/// The subset of an element (a feature) in a document.
pub open spec fn subset_of(doc: Document, e: ElementData) -> Option<Seq<char>> {
    match (e.subset_key_of(), e.dec_key_of()) {
        (Some(x), Some(k)) => match doc.declaration_at(k as int) {
            Some(d) => opt_name(d.subsets, x as int),
            None => None,
        },
        _ => None,
    }
}

/// The processor of an element in a document, if it refers to one that exists.
pub open spec fn processor_of(doc: Document, e: ElementData) -> Option<Processor> {
    match e.proc_key_of() {
        Some(p) => doc.processor_at(p as int),
        None => None,
    }
}

/// The annotator of an element: the name of its processor, or else its first annotator attribute.
pub open spec fn annotator_of(doc: Document, e: ElementData) -> Option<Seq<char>> {
    match processor_of(doc, e) {
        Some(p) => Some(p.name@),
        None => {
            let i = first_index(e.attribs@, is_annotator());
            if i < e.attribs@.len() { Some(e.attribs@[i]->Annotator_0@) } else { None }
        },
    }
}

/// The annotator type of an element: the type of its processor, or else its first annotator type attribute.
pub open spec fn annotatortype_of(doc: Document, e: ElementData) -> Option<ProcessorType> {
    match processor_of(doc, e) {
        Some(p) => Some(p.processortype),
        None => {
            let i = first_index(e.attribs@, is_annotatortype());
            if i < e.attribs@.len() { Some(e.attribs@[i]->AnnotatorType_0) } else { None }
        },
    }
}

///Interface to a FoLiA element within its document
#[derive(Clone, Copy)]
pub struct Element<'a> {
    pub document: &'a Document,
    pub data: &'a ElementData,
    pub key: ElementKey,
}

impl<'a> Element<'a> {
    /// The element is the one stored under its key in a well-formed document.
    pub open spec fn wf(&self) -> bool {
        &&& self.document.wf()
        &&& self.document.element_at(self.key as int) == Some(*self.data)
    }

    ///The data of the element
    pub fn elementdata(&self) -> (r: &'a ElementData)
        ensures
            *r == *self.data,
    {
        self.data
    }

    ///The document the element is in
    pub fn document(&self) -> (r: &'a Document)
        ensures
            *r == *self.document,
    {
        self.document
    }

    ///Return the key of this element
    pub fn key(&self) -> (r: Option<ElementKey>)
        ensures
            r == Some(self.key),
    {
        Some(self.key)
    }

    ///Get the element type of this element
    pub fn elementtype(&self) -> (r: ElementType)
        ensures
            r == self.data.elementtype,
    {
        self.data.elementtype
    }

    ///Gives access to all attributes
    pub fn attribs(&self) -> (r: &'a Vec<Attribute>)
        ensures
            r@ == self.data.attribs@,
    {
        &self.data.attribs
    }

    ///Get a specific attribute by type
    pub fn attrib(&self, atype: AttribType) -> (r: Option<&'a Attribute>)
        ensures
            r == match self.data.attrib_of(atype) { Some(a) => Some(&a), None => None },
    {
        self.data.attrib(atype)
    }

    ///Check if a specific attribute exists (by type)
    pub fn has_attrib(&self, atype: AttribType) -> (r: bool)
        ensures
            r == self.data.attrib_of(atype) is Some,
    {
        self.data.has_attrib(atype)
    }

    ///Get the ID of the element
    pub fn id(&self) -> (r: Option<&'a str>)
        ensures
            r matches Some(s) ==> self.data.id_of() == Some(s@),
            r is None ==> self.data.id_of() is None,
    {
        self.data.id()
    }

    ///Get the declaration key, i.e. the encoded (numeric) form of the set (and annotation type)
    pub fn declaration_key(&self) -> (r: Option<DecKey>)
        ensures
            r == self.data.dec_key_of(),
    {
        proof {
            lemma_first_index(self.data.attribs@, encoded_scan(AttribType::SET));
        }
        match self.data.declaration_key() {
            Ok(k) => k,
            Err(_) => None,
        }
    }

    ///Get the class key, i.e. the encoded (numeric) form of the class
    pub fn class_key(&self) -> (r: Option<ClassKey>)
        ensures
            r == self.data.class_key_of(),
    {
        proof {
            lemma_first_index(self.data.attribs@, encoded_scan(AttribType::CLASS));
        }
        match self.data.class_key() {
            Ok(k) => k,
            Err(_) => None,
        }
    }

    ///Get the processor key, i.e. the encoded (numeric) form of the processor
    pub fn processor_key(&self) -> (r: Option<ProcKey>)
        ensures
            r == self.data.proc_key_of(),
    {
        proof {
            lemma_first_index(self.data.attribs@, encoded_scan(AttribType::PROCESSOR));
        }
        match self.data.processor_key() {
            Ok(k) => k,
            Err(_) => None,
        }
    }

    ///Get the subset key, i.e. the encoded (numeric) form of the subset
    pub fn subset_key(&self) -> (r: Option<SubsetKey>)
        ensures
            r == self.data.subset_key_of(),
    {
        proof {
            lemma_first_index(self.data.attribs@, encoded_scan(AttribType::SUBSET));
        }
        match self.data.subset_key() {
            Ok(k) => k,
            Err(_) => None,
        }
    }

    ///Get the parent's element key
    pub fn parent_key(&self) -> (r: Option<ElementKey>)
        ensures
            r == self.data.parent,
    {
        self.data.parent
    }

    ///Get the declaration of the element
    pub fn get_declaration(&self) -> (r: Option<&'a Declaration>)
        ensures
            r is Some <==> (self.data.dec_key_of() matches Some(k) && self.document.declaration_at(k as int) is Some),
            r matches Some(d) ==> *d == self.document.declaration_at(self.data.dec_key_of()->0 as int)->0,
    {
        match self.declaration_key() {
            Some(k) => self.document.get_declaration(k),
            None => None,
        }
    }

    ///Get the processor of the element
    pub fn get_processor(&self) -> (r: Option<&'a Processor>)
        ensures
            r is Some <==> processor_of(*self.document, *self.data) is Some,
            r matches Some(p) ==> *p == processor_of(*self.document, *self.data)->0,
    {
        match self.processor_key() {
            Some(k) => self.document.get_processor(k),
            None => None,
        }
    }

    ///Get the FoLiA set
    pub fn set(&self) -> (r: Option<&'a str>)
        ensures
            opt_str_of(r) == set_of(*self.document, *self.data),
    {
        match self.get_declaration() {
            Some(d) => match &d.set {
                Some(s) => Some(s.as_str()),
                None => None,
            },
            None => None,
        }
    }

    ///Get the FoLiA class
    pub fn class(&self) -> (r: Option<&'a str>)
        ensures
            opt_str_of(r) == class_of(*self.document, *self.data),
    {
        match self.class_key() {
            Some(class_key) => match self.get_declaration() {
                Some(declaration) => {
                    if self.subset_key().is_some() {
                        declaration.get_subclass(class_key)
                    } else {
                        declaration.get_class(class_key)
                    }
                },
                None => None,
            },
            None => None,
        }
    }

    ///Get the FoLiA subset (only applies to elements of type ``ElementType::Feature``)
    pub fn subset(&self) -> (r: Option<&'a str>)
        ensures
            opt_str_of(r) == subset_of(*self.document, *self.data),
    {
        match self.subset_key() {
            Some(subset_key) => match self.get_declaration() {
                Some(declaration) => declaration.get_subset(subset_key),
                None => None,
            },
            None => None,
        }
    }

    ///Get the processor ID
    pub fn processor(&self) -> (r: Option<&'a str>)
        ensures
            opt_str_of(r) == match processor_of(*self.document, *self.data) { Some(p) => Some(p.id@), None => None },
    {
        match self.get_processor() {
            Some(p) => Some(p.id.as_str()),
            None => None,
        }
    }

    ///Get the annotator (i.e. the processor name) associated with this element
    pub fn annotator(&self) -> (r: Option<&'a str>)
        ensures
            opt_str_of(r) == annotator_of(*self.document, *self.data),
    {
        match self.get_processor() {
            Some(p) => Some(p.name.as_str()),
            None => {
                let attribs = &self.data.attribs;
                let mut i: usize = 0;
                while i < attribs.len()
                    invariant
                        attribs@ == self.data.attribs@,
                        processor_of(*self.document, *self.data) is None,
                        i <= attribs@.len(),
                        forall|j: int| 0 <= j < i ==> !is_annotator()(#[trigger] attribs@[j]),
                    decreases attribs@.len() - i,
                {
                    if let Attribute::Annotator(a) = &attribs[i] {
                        proof {
                            lemma_first_index_at(attribs@, is_annotator(), i as int);
                        }
                        return Some(a.as_str());
                    }
                    i += 1;
                }
                proof {
                    lemma_first_index_at(attribs@, is_annotator(), i as int);
                }
                None
            },
        }
    }

    ///Get the annotator type associated with this element
    pub fn annotatortype(&self) -> (r: Option<ProcessorType>)
        ensures
            r == annotatortype_of(*self.document, *self.data),
    {
        match self.get_processor() {
            Some(p) => Some(p.processortype),
            None => {
                let attribs = &self.data.attribs;
                let mut i: usize = 0;
                while i < attribs.len()
                    invariant
                        attribs@ == self.data.attribs@,
                        processor_of(*self.document, *self.data) is None,
                        i <= attribs@.len(),
                        forall|j: int| 0 <= j < i ==> !is_annotatortype()(#[trigger] attribs@[j]),
                    decreases attribs@.len() - i,
                {
                    if let Attribute::AnnotatorType(t) = &attribs[i] {
                        proof {
                            lemma_first_index_at(attribs@, is_annotatortype(), i as int);
                        }
                        return Some(*t);
                    }
                    i += 1;
                }
                proof {
                    lemma_first_index_at(attribs@, is_annotatortype(), i as int);
                }
                None
            },
        }
    }

    ///Get the parent element
    pub fn get_parent(&self) -> (r: Option<Element<'a>>)
        requires
            self.wf(),
        ensures
            r is Some <==> (self.data.parent matches Some(p) && self.document.element_at(p as int) is Some),
            r matches Some(e) ==> e.wf() && e.key == self.data.parent->0 && e.document == self.document,
    {
        match self.data.parent {
            Some(p) => self.document.get_element(p),
            None => None,
        }
    }

    ///Get the index of this element relative to the parent
    pub fn get_index(&self) -> (r: Option<usize>)
        requires
            self.wf(),
        ensures
            r is Some ==> (self.data.parent matches Some(p) && self.document.element_at(p as int) is Some),
            r matches Some(i) ==> i < self.document.element_at(self.data.parent->0 as int)->0.data@.len()
                && self.document.element_at(self.data.parent->0 as int)->0.data@[i as int] == DataType::Element(self.key)
                && forall|j: int| 0 <= j < i ==> self.document.element_at(self.data.parent->0 as int)->0.data@[j]
                    != DataType::Element(self.key),
            (self.data.parent matches Some(p) && self.document.element_at(p as int) matches Some(pe)
                && exists|j: int| 0 <= j < pe.data@.len() && pe.data@[j] == DataType::Element(self.key)) ==> r is Some,
    {
        match self.get_parent() {
            Some(parent) => parent.data.index_of_element(self.key),
            None => None,
        }
    }

    ///Resolve the reference (assuming this element provides a reference: its first ID reference)
    pub fn resolve(&self) -> (r: Option<Element<'a>>)
        requires
            self.wf(),
        ensures
            r is Some <==> ({
                let i = first_index(self.data.attribs@, is_idref());
                i < self.data.attribs@.len() && self.document.element_index().contains_key(self.data.attribs@[i]->Idref_0@)
            }),
            r matches Some(e) ==> e.wf() && e.document == self.document && e.data.id_of()
                == Some(self.data.attribs@[first_index(self.data.attribs@, is_idref())]->Idref_0@),
    {
        proof {
            lemma_first_index(self.data.attribs@, is_idref());
        }
        match self.data.idref() {
            Some(id) => self.document.get_element_by_id(id),
            None => None,
        }
    }
}

/// The view of an optional string slice.
pub open spec fn opt_str_of(s: Option<&str>) -> Option<Seq<char>> {
    match s {
        Some(x) => Some(x@),
        None => None,
    }
}

} // verus!
