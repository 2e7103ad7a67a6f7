//! Adding elements to a document: the postprocessing of added elements (span
//! references, layer sets), adding elements with their children, and the
//! high-level annotation methods.

use vstd::prelude::*;
use crate::types::{ElementKey, DecKey, ElementType, ElementGroup, DataType, AnnotationType};
use crate::attrib::{Attribute, AttribType};
use crate::error::FoliaError;
use crate::element::{ElementData, ElementModel, first_index, lemma_first_index, lemma_first_index_at,
    lemma_first_index_push, has_type};
use crate::document::{Document, decls_grown, lemma_decls_grown_trans, attached};
use crate::query::{Cmp, Query};
use crate::select::{Selector, SelectElementsIterator, ancestor_keys, walk_fuel, selection, element_keys,
    group_query, element_query, ancestors_of, accepts_key};
use crate::specification::{AcceptedData, element_properties, PropertiesModel};
use crate::metadata::{opt_view, Declaration, declaration_id};
use crate::util::{concat_str, decimal};
use crate::util::concat3;

verus! {

/// An element with the key exists and is a span.
pub open spec fn is_span(doc: Document, k: ElementKey) -> bool {
    doc.element_at(k as int) matches Some(e) && ElementGroup::Span.has(e.elementtype)
}

/// The last key of a stack that is a span, if any.
pub open spec fn last_span(doc: Document, stack: Seq<ElementKey>) -> Option<ElementKey>
    decreases stack.len(),
{
    if stack.len() == 0 {
        None
    } else if is_span(doc, stack.last()) {
        Some(stack.last())
    } else {
        last_span(doc, stack.drop_last())
    }
}

/// The first key of a sequence that is a span, if any.
pub open spec fn first_span(doc: Document, keys: Seq<ElementKey>) -> Option<ElementKey>
    decreases keys.len(),
{
    if keys.len() == 0 {
        None
    } else if is_span(doc, keys[0]) {
        Some(keys[0])
    } else {
        first_span(doc, keys.skip(1))
    }
}

/// The span that a word reference belongs to: the innermost span on the stack of open
/// elements, or else its closest span ancestor.
pub open spec fn wref_span(doc: Document, key: ElementKey, stack: Option<Seq<ElementKey>>) -> Option<ElementKey> {
    match stack {
        Some(s) => last_span(doc, s),
        None => first_span(doc, ancestor_keys(doc, key, walk_fuel(doc))),
    }
}

/// The value of the last ID reference among the attributes, if any.
pub open spec fn last_idref(s: Seq<Attribute>) -> Option<Seq<char>>
    decreases s.len(),
{
    if s.len() == 0 {
        None
    } else {
        match s.last() {
            Attribute::Idref(x) => Some(x@),
            _ => last_idref(s.drop_last()),
        }
    }
}

/// The declaration key of the first of the elements that has the annotation type and a declaration.
pub open spec fn layer_decl(doc: Document, keys: Seq<ElementKey>, annotationtype: Option<AnnotationType>) -> Option<DecKey>
    decreases keys.len(),
{
    if keys.len() == 0 {
        None
    } else {
        let e = doc.element_at(keys[0] as int)->0;
        if e.elementtype.annotation() == annotationtype && e.dec_key_of() is Some {
            e.dec_key_of()
        } else {
            layer_decl(doc, keys.skip(1), annotationtype)
        }
    }
}

/// The elements only grew: every element that was there still is.
pub open spec fn elems_grown(old: Seq<Option<ElementModel>>, new: Seq<Option<ElementModel>>) -> bool {
    &&& old.len() <= new.len()
    &&& forall|k: int| 0 <= k < old.len() && #[trigger] old[k] is Some ==> new[k] is Some
}

/// No element that was there changed its parent.
pub open spec fn parents_kept(old: Seq<Option<ElementModel>>, new: Seq<Option<ElementModel>>) -> bool {
    &&& old.len() <= new.len()
    &&& forall|k: int| 0 <= k < old.len() && #[trigger] old[k] is Some ==> new[k] is Some && new[k]->0.parent == old[k]->0.parent
}

/// No element that was there changed its type.
pub open spec fn types_kept(old: Seq<Option<ElementModel>>, new: Seq<Option<ElementModel>>) -> bool {
    &&& old.len() <= new.len()
    &&& forall|k: int| 0 <= k < old.len() && #[trigger] old[k] is Some ==> new[k] is Some
        && new[k]->0.elementtype == old[k]->0.elementtype
}

/// Keeping types is transitive.
pub proof fn lemma_types_kept_trans(a: Seq<Option<ElementModel>>, b: Seq<Option<ElementModel>>, c: Seq<Option<ElementModel>>)
    requires
        types_kept(a, b),
        types_kept(b, c),
    ensures
        types_kept(a, c),
{
    assert forall|k: int| 0 <= k < a.len() && #[trigger] a[k] is Some implies c[k] is Some
        && c[k]->0.elementtype == a[k]->0.elementtype by {
        assert(b[k] is Some);
    }
}

/// Storing an element changes the type of no element that was there.
pub proof fn lemma_stored_types(a: Seq<Option<ElementModel>>, b: Seq<Option<ElementModel>>, element: ElementData, k: ElementKey)
    requires
        crate::document::stored(a, b, element, k),
    ensures
        types_kept(a, b),
{
    if b != a {
        assert forall|j: int| 0 <= j < a.len() && #[trigger] a[j] is Some implies b[j] is Some
            && b[j]->0.elementtype == a[j]->0.elementtype by {
            assert(b.take(k as int)[j] == b[j]);
        }
    }
}

/// Attaching a child to a parent changes the type of no element.
pub proof fn lemma_attached_kept(m: Seq<Option<ElementModel>>, parent: ElementKey, child: ElementKey)
    requires
        0 <= parent < m.len() && m[parent as int] is Some,
        0 <= child < m.len() && m[child as int] is Some,
    ensures
        types_kept(m, attached(m, parent, child)),
{
}

/// Attaching a child to a parent makes the parent its parent.
pub proof fn lemma_attached_parent(m: Seq<Option<ElementModel>>, parent: ElementKey, child: ElementKey)
    requires
        0 <= parent < m.len() && m[parent as int] is Some,
        0 <= child < m.len() && m[child as int] is Some,
    ensures
        attached(m, parent, child)[child as int] is Some,
        attached(m, parent, child)[child as int]->0.parent == Some(parent),
{
}

/// An element that was there is still there after the elements grew.
pub proof fn lemma_grown_keeps(old: Document, new: Document, k: int)
    requires
        elems_grown(old.models(), new.models()),
        old.element_at(k) is Some,
    ensures
        new.element_at(k) is Some,
{
    assert(old.models()[k] is Some);
    assert(new.models()[k] is Some);
}

/// Storing an element only grows the elements.
pub proof fn lemma_stored_grown(a: Seq<Option<ElementModel>>, b: Seq<Option<ElementModel>>, element: ElementData, k: ElementKey)
    requires
        crate::document::stored(a, b, element, k),
    ensures
        elems_grown(a, b),
{
    if b != a {
        assert forall|j: int| 0 <= j < a.len() && #[trigger] a[j] is Some implies b[j] is Some by {
            assert(b.take(k as int)[j] == b[j]);
        }
    }
}

/// Growing is transitive.
pub proof fn lemma_grown_trans(a: Seq<Option<ElementModel>>, b: Seq<Option<ElementModel>>, c: Seq<Option<ElementModel>>)
    requires
        elems_grown(a, b),
        elems_grown(b, c),
    ensures
        elems_grown(a, c),
{
    assert forall|k: int| 0 <= k < a.len() && #[trigger] a[k] is Some implies c[k] is Some by {
        assert(b[k] is Some);
    }
}

/// No element that was there, but those with the given keys, changed its parent.
pub open spec fn parents_kept_but(old: Seq<Option<ElementModel>>, new: Seq<Option<ElementModel>>, keys: Seq<ElementKey>) -> bool {
    &&& old.len() <= new.len()
    &&& forall|k: int| 0 <= k < old.len() && #[trigger] old[k] is Some && !keys.contains(k as ElementKey)
        ==> new[k] is Some && new[k]->0.parent == old[k]->0.parent
}

/// Keeping parents is transitive.
pub proof fn lemma_parents_kept_trans(a: Seq<Option<ElementModel>>, b: Seq<Option<ElementModel>>, c: Seq<Option<ElementModel>>)
    requires
        parents_kept(a, b),
        parents_kept(b, c),
    ensures
        parents_kept(a, c),
{
    assert forall|k: int| 0 <= k < a.len() && #[trigger] a[k] is Some implies c[k] is Some
        && c[k]->0.parent == a[k]->0.parent by {
        assert(b[k] is Some);
    }
}

/// Storing an element changes the parent of no element that was there.
pub proof fn lemma_stored_parents(a: Seq<Option<ElementModel>>, b: Seq<Option<ElementModel>>, element: ElementData, k: ElementKey)
    requires
        crate::document::stored(a, b, element, k),
    ensures
        parents_kept(a, b),
{
    if b != a {
        assert forall|j: int| 0 <= j < a.len() && #[trigger] a[j] is Some implies b[j] is Some
            && b[j]->0.parent == a[j]->0.parent by {
            assert(b.take(k as int)[j] == b[j]);
        }
    }
}

/// Attaching a child to a parent changes the parent of no other element.
pub proof fn lemma_attached_others(m: Seq<Option<ElementModel>>, parent: ElementKey, child: ElementKey)
    requires
        0 <= parent < m.len() && m[parent as int] is Some,
        0 <= child < m.len() && m[child as int] is Some,
    ensures
        parents_kept_but(m, attached(m, parent, child), seq![child]),
{
    assert forall|k: int| 0 <= k < m.len() && #[trigger] m[k] is Some && !seq![child].contains(k as ElementKey)
        implies attached(m, parent, child)[k] is Some && attached(m, parent, child)[k]->0.parent == m[k]->0.parent by {
        if k == child {
            assert(seq![child][0] == k as ElementKey);
        }
    }
}

impl Document {
    /// The ID reference of a word reference: its last ID reference attribute.
    fn last_idref_of(e: &ElementData) -> (r: Option<String>)
        ensures
            match r { Some(s) => Some(s@), None => None } == last_idref(e.attribs@),
    {
        let mut found: Option<String> = None;
        let mut i: usize = 0;
        while i < e.attribs.len()
            invariant
                i <= e.attribs@.len(),
                match found { Some(s) => Some(s@), None => None } == last_idref(e.attribs@.take(i as int)),
            decreases e.attribs@.len() - i,
        {
            proof {
                assert(e.attribs@.take(i + 1).drop_last() =~= e.attribs@.take(i as int));
            }
            if let Attribute::Idref(id) = &e.attribs[i] {
                found = Some(id.clone());
            }
            i += 1;
        }
        proof {
            assert(e.attribs@.take(i as int) =~= e.attribs@);
        }
        found
    }

    /// Whether the element with the key exists and is a span.
    fn is_span_key(&self, k: ElementKey) -> (r: bool)
        ensures
            r == is_span(*self, k),
    {
        match self.get_elementdata(k) {
            Some(e) => ElementGroup::Span.contains(e.elementtype),
            None => false,
        }
    }

    /// The span that a word reference belongs to.
    #[verifier::loop_isolation(false)]
    fn find_wref_span(&self, key: ElementKey, stack: Option<&Vec<ElementKey>>) -> (r: Option<ElementKey>)
        requires
            self.wf(),
        ensures
            r == wref_span(*self, key, match stack { Some(s) => Some(s@), None => None }),
    {
        match stack {
            Some(s) => {
                let mut i: usize = s.len();
                proof {
                    assert(s@.take(s@.len() as int) =~= s@);
                }
                while i > 0
                    invariant
                        i <= s@.len(),
                        last_span(*self, s@) == last_span(*self, s@.take(i as int)),
                    decreases i,
                {
                    proof {
                        assert(s@.take(i as int).drop_last() =~= s@.take(i - 1));
                    }
                    if self.is_span_key(s[i - 1]) {
                        return Some(s[i - 1]);
                    }
                    i -= 1;
                }
                None
            },
            None => {
                let n = self.elementstore.store.len();
                let fuel: usize = if n < usize::MAX - 1 { n } else { usize::MAX - 2 };
                assert(fuel as nat == walk_fuel(*self));
                let mut current = key;
                let mut remaining = fuel;
                while remaining > 0
                    invariant
                        self.wf(),
                        first_span(*self, ancestor_keys(*self, key, fuel as nat))
                            == first_span(*self, ancestor_keys(*self, current, remaining as nat)),
                    decreases remaining,
                {
                    let parent = match self.get_elementdata(current) {
                        Some(e) => e.parent,
                        None => None,
                    };
                    match parent {
                        Some(p) => {
                            if self.get_elementdata(p).is_none() {
                                return None;
                            }
                            proof {
                                let a = ancestor_keys(*self, current, remaining as nat);
                                assert(a == seq![p] + ancestor_keys(*self, p, (remaining - 1) as nat));
                                assert(a[0] == p);
                                assert(a.skip(1) =~= ancestor_keys(*self, p, (remaining - 1) as nat));
                            }
                            if self.is_span_key(p) {
                                return Some(p);
                            }
                            current = p;
                            remaining -= 1;
                        },
                        None => {
                            return None;
                        },
                    }
                }
                None
            },
        }
    }
}

/// Whether two optional annotation types are the same.
fn same_annotation(a: Option<AnnotationType>, b: Option<AnnotationType>) -> (r: bool)
    ensures
        r == (a == b),
{
    match (a, b) {
        (Some(x), Some(y)) => x == y,
        (None, None) => true,
        _ => false,
    }
}

/// What ``post_add`` does to an element of a layer type that has no set: it takes the
/// declaration of the first span under it of its annotation type, if any.
pub open spec fn layer_outcome(old: Document, new: Document, key: ElementKey, e: ElementData) -> bool {
    exists|s: Selector| #[trigger] s.encodes(old, group_query(ElementGroup::Span, Cmp::Present)) && {
        match layer_decl(old, element_keys(old, selection(old, s, key, true)), e.elementtype.annotation()) {
            Some(dk) => new.models() == old.models().update(key as int,
                Some(ElementModel { attribs: e.attribs@.push(Attribute::DeclarationRef(dk)), ..e@ })),
            None => new.models() == old.models(),
        }
    }
}

impl Document {
    /// The declaration of the first span under an element (recursively) of the annotation type
    /// of the element type.
    fn find_layer_decl(&self, key: ElementKey, elementtype: ElementType) -> (r: Option<DecKey>)
        requires
            self.wf(),
            self.element_at(key as int) is Some,
        ensures
            exists|s: Selector| #[trigger] s.encodes(*self, group_query(ElementGroup::Span, Cmp::Present))
                && r == layer_decl(*self, element_keys(*self, selection(*self, s, key, true)), elementtype.annotation()),
    {
        let ghost q = group_query(ElementGroup::Span, Cmp::Present);
        let query = Query::select().elementgroup(Cmp::Is(ElementGroup::Span)).set(Cmp::Present);
        assert(query == q);
        let selector = match Selector::from_query(self, &query) {
            Ok(s) => s,
            Err(_) => {
                proof {
                    assert(false);
                }
                return None;
            },
        };
        let element = match self.get_element(key) {
            Some(e) => e,
            None => {
                return None;
            },
        };
        let it = element.select(selector, true);
        let ghost keys = element_keys(*self, selection(*self, it.selector, key, true));
        let target = elementtype.annotationtype();
        let mut i: usize = 0;
        proof {
            assert(keys.skip(0) =~= keys);
        }
        while i < it.items.len()
            invariant
                self.wf(),
                it.yields(keys),
                *it.document == *self,
                it.selector.encodes(*self, q),
                q == group_query(ElementGroup::Span, Cmp::Present),
                keys == element_keys(*self, selection(*self, it.selector, key, true)),
                target == elementtype.annotation(),
                i <= keys.len(),
                layer_decl(*self, keys, target) == layer_decl(*self, keys.skip(i as int), target),
            decreases keys.len() - i,
        {
            let e = it.items[i];
            proof {
                assert(keys.skip(i as int)[0] == keys[i as int]);
                assert(keys.skip(i as int).skip(1) =~= keys.skip(i + 1));
            }
            let dk = e.declaration_key();
            if same_annotation(e.data.elementtype.annotationtype(), target) && dk.is_some() {
                proof {
                    assert(layer_decl(*self, keys.skip(i as int), target) == dk);
                    assert(it.selector.encodes(*self, group_query(ElementGroup::Span, Cmp::Present)));
                }
                return dk;
            }
            i += 1;
        }
        None
    }

    ///Performs postprocessing after adding an element: a word reference is registered with the
    ///element it refers to (as a reference back to its span), and a layer without a set gets a
    ///reference to the declaration of the spans under it. ``stack`` holds the keys of the elements that are open
    ///while parsing (the innermost last).
    pub(crate) fn post_add(&mut self, element_key: ElementKey, stack: Option<&Vec<ElementKey>>) -> (r: Result<(), FoliaError>)
        requires
            old(self).wf(),
        ensures
            final(self).wf(),
            final(self).same_but_elements(old(self)),
            final(self).element_index() == old(self).element_index(),
            elems_grown(old(self).models(), final(self).models()),
            parents_kept(old(self).models(), final(self).models()),
            types_kept(old(self).models(), final(self).models()),
            r is Err ==> *final(self) == *old(self),
            final(self).elems().len() == old(self).elems().len(),
            match old(self).element_at(element_key as int) {
                None => r matches Err(FoliaError::KeyError(m)) && m@ == "Element not found"@,
                Some(e) => if e.elementtype == ElementType::WordReference {
                    match last_idref(e.attribs@) {
                        None => r matches Err(FoliaError::ParseError(m)) && m@ == "Wref element does not reference anything!"@,
                        Some(id) => match wref_span(*old(self), element_key, match stack { Some(s) => Some(s@), None => None }) {
                            None => r matches Err(FoliaError::ParseError(m))
                                && m@ == "Wref span parent not found! (idref="@ + id + ")"@,
                            Some(sk) => if old(self).element_index().contains_key(id) {
                                let t = old(self).element_index()[id] as int;
                                let target = old(self).models()[t]->0;
                                r is Ok && final(self).models() == old(self).models().update(t,
                                    Some(ElementModel { data: target.data.push(DataType::SpanReference(sk)), ..target }))
                            } else {
                                r matches Err(FoliaError::ParseError(m))
                                    && m@ == "Wref span parent not found! (element gone missing)"@
                            },
                        },
                    }
                } else if ElementGroup::Layer.has(e.elementtype) && e.attrib_of(AttribType::SET) is None {
                    r is Ok && layer_outcome(*old(self), *final(self), element_key, e)
                } else {
                    r is Ok && *final(self) == *old(self)
                },
            },
    {
        let ghost m = self.models();
        let (elementtype, idref, has_set) = match self.get_elementdata(element_key) {
            Some(e) => (e.elementtype, Self::last_idref_of(e), e.has_attrib(AttribType::SET)),
            None => {
                return Err(FoliaError::KeyError("Element not found".to_owned()));
            },
        };
        if elementtype == ElementType::WordReference {
            let id = match idref {
                Some(id) => id,
                None => {
                    return Err(FoliaError::ParseError("Wref element does not reference anything!".to_owned()));
                },
            };
            let span_key = match self.find_wref_span(element_key, stack) {
                Some(k) => k,
                None => {
                    return Err(FoliaError::ParseError(concat3("Wref span parent not found! (idref=", id.as_str(), ")")));
                },
            };
            let target_key = match self.elementstore.store.id_to_key(id.as_str()) {
                Some(t) => t,
                None => {
                    return Err(FoliaError::ParseError("Wref span parent not found! (element gone missing)".to_owned()));
                },
            };
            match self.elementstore.store.get_mut(target_key) {
                Some(target) => {
                    target.push(DataType::SpanReference(span_key));
                },
                None => {},
            }
            proof {
                let t = target_key as int;
                let target = m[t]->0;
                assert(self.models() =~= m.update(t,
                    Some(ElementModel { data: target.data.push(DataType::SpanReference(span_key)), ..target })));
            }
            Ok(())
        } else if ElementGroup::Layer.contains(elementtype) && !has_set {
            match self.find_layer_decl(element_key, elementtype) {
                Some(dk) => {
                    match self.elementstore.store.get_mut(element_key as usize) {
                        Some(element) => {
                            element.push_attrib(Attribute::DeclarationRef(dk));
                        },
                        None => {},
                    }
                    proof {
                        let e = m[element_key as int]->0;
                        assert(self.models() =~= m.update(element_key as int,
                            Some(ElementModel { attribs: e.attribs.push(Attribute::DeclarationRef(dk)), ..e })));
                    }
                },
                None => {},
            }
            Ok(())
        } else {
            Ok(())
        }
    }
}

/// The element, and every element still to be added under it, can be encoded without a context.
pub open spec fn encodable_tree(e: ElementData) -> bool
    decreases e,
{
    &&& (e.is_encodable() && e.elementtype.annotation() is Some ==> e.decoded_ok(AttribType::SET))
    &&& forall|i: int| 0 <= i < e.data@.len() ==> (#[trigger] e.data@[i] matches DataType::AddElement(c)
        ==> encodable_tree(c))
}

/// No element is still to be added under the element.
pub open spec fn no_unborn(e: ElementData) -> bool {
    forall|i: int| 0 <= i < e.data@.len() ==> !(#[trigger] e.data@[i] is AddElement)
}

/// An element that can always be stored: nothing in it is to be encoded, and no element is
/// still to be added under it.
pub open spec fn plain(e: ElementData) -> bool {
    !e.is_encodable() && no_unborn(e)
}

/// Every element still to be added directly under the element is plain.
pub open spec fn plain_children(e: ElementData) -> bool {
    forall|i: int| 0 <= i < e.data@.len() ==> (#[trigger] e.data@[i] matches DataType::AddElement(c) ==> plain(c))
}

/// A word reference still to be added that can be added: nothing in it is to be encoded,
/// nothing is to be added under it, it has no ID, and the element it refers to is there.
pub open spec fn resolvable_wref(doc: Document, c: ElementData) -> bool {
    &&& c.elementtype == ElementType::WordReference
    &&& plain(c)
    &&& crate::document::without_id(c)
    &&& last_idref(c.attribs@) is Some && doc.element_index().contains_key(last_idref(c.attribs@)->0)
}

/// Every element still to be added under the element is a word reference that can be added.
pub open spec fn wref_children(doc: Document, e: ElementData) -> bool {
    forall|i: int| 0 <= i < e.data@.len() ==> (#[trigger] e.data@[i] is AddElement
        ==> resolvable_wref(doc, e.data@[i]->AddElement_0))
}

/// The element under the key is a word reference to an element that the document has.
pub open spec fn resolved_wref_at(doc: Document, k: ElementKey) -> bool {
    &&& 0 <= k < doc.models().len()
    &&& doc.models()[k as int] is Some
    &&& doc.models()[k as int]->0.elementtype == ElementType::WordReference
    &&& last_idref(doc.models()[k as int]->0.attribs) is Some
    &&& doc.element_index().contains_key(last_idref(doc.models()[k as int]->0.attribs)->0)
}

/// The data after the elements still to be added were added: each is replaced by a reference
/// to an element that exists, the other items stay.
pub open spec fn born(doc: Document, before: Seq<DataType>, after: Seq<DataType>) -> bool {
    &&& after.len() == before.len()
    &&& forall|i: int| 0 <= i < before.len() ==> if before[i] is AddElement {
        (#[trigger] after[i]) matches DataType::Element(k) && doc.element_at(k as int) is Some
    } else {
        after[i] == before[i]
    }
}

impl Document {
    ///Before an element can be added, its hitherto 'unborn' children (``DataType::AddElement``)
    ///are added (recursively), and replaced by references to them. Returns the element and the
    ///keys of the children that were added, if there were any.
    #[verifier::loop_isolation(false)]
    pub(crate) fn add_children(&mut self, element: ElementData) -> (r: Result<(ElementData, Option<Vec<ElementKey>>), FoliaError>)
        requires
            old(self).wf(),
            encodable_tree(element),
        ensures
            final(self).wf(),
            final(self).same_but_content(old(self)),
            decls_grown(old(self).decls(), final(self).decls()),
            elems_grown(old(self).models(), final(self).models()),
            types_kept(old(self).models(), final(self).models()),
            r matches Ok((e, added)) ==> {
                &&& e.elementtype == element.elementtype
                &&& e.attribs == element.attribs
                &&& e.key == element.key
                &&& e.parent == element.parent
                &&& born(*final(self), element.data@, e.data@)
                &&& added is Some <==> exists|i: int| 0 <= i < element.data@.len() && #[trigger] element.data@[i] is AddElement
                &&& added matches Some(v) ==> forall|j: int| 0 <= j < v@.len() ==> final(self).element_at(#[trigger] v@[j] as int) is Some
            },
            no_unborn(element) ==> r == Ok::<(ElementData, Option<Vec<ElementKey>>), FoliaError>((element, None))
                && *final(self) == *old(self),
            plain_children(element) && old(self).elems().len() + element.data@.len() <= ElementKey::MAX ==> r is Ok
                && final(self).elems().len() <= old(self).elems().len() + element.data@.len(),
            wref_children(*old(self), element) ==> final(self).declarationstore == old(self).declarationstore
                && final(self).element_index() == old(self).element_index(),
            wref_children(*old(self), element) ==> (r matches Ok((e, Some(v)))
                ==> forall|j: int| 0 <= j < v@.len() ==> #[trigger] resolved_wref_at(*final(self), v@[j])),
            wref_children(*old(self), element) ==> (r matches Ok((e, added)) ==> {
                &&& parents_kept(old(self).models(), final(self).models())
                &&& added matches Some(v) ==> forall|j: int| 0 <= j < v@.len() ==> #[trigger] v@[j] >= old(self).elems().len()
            }),
        decreases element,
    {
        let mut has_unborn = false;
        let mut i: usize = 0;
        while i < element.data.len()
            invariant
                i <= element.data@.len(),
                has_unborn == exists|j: int| 0 <= j < i && #[trigger] element.data@[j] is AddElement,
            decreases element.data@.len() - i,
        {
            if let DataType::AddElement(_) = &element.data[i] {
                has_unborn = true;
            }
            i += 1;
        }
        if !has_unborn {
            proof {
                assert(born(*self, element.data@, element.data@));
            }
            return Ok((element, None));
        }
        let ghost plain_case = plain_children(element) && old(self).elems().len() + element.data@.len() <= ElementKey::MAX;
        let ghost wref_case = wref_children(*old(self), element);
        let ghost orig = element;
        let ElementData { elementtype, attribs, data, key, parent } = element;
        let mut data = data;
        let total = data.len();
        let mut added: Vec<ElementKey> = Vec::new();
        let mut new_data: Vec<DataType> = Vec::new();
        let mut n: usize = 0;
        while data.len() > 0
            invariant
                self.wf(),
                self.same_but_content(old(self)),
                decls_grown(old(self).decls(), self.decls()),
                elems_grown(old(self).models(), self.models()),
                types_kept(old(self).models(), self.models()),
                encodable_tree(orig),
                orig.data@.len() == total,
                n <= total,
                data@.len() == total - n,
                data@ == orig.data@.skip(n as int),
                born(*self, orig.data@.take(n as int), new_data@),
                forall|j: int| 0 <= j < added@.len() ==> self.element_at(#[trigger] added@[j] as int) is Some,
                plain_case ==> self.elems().len() <= old(self).elems().len() + n,
                wref_case == wref_children(*old(self), orig),
                wref_case ==> self.declarationstore == old(self).declarationstore
                    && self.element_index() == old(self).element_index(),
                wref_case ==> forall|j: int| 0 <= j < added@.len() ==> #[trigger] resolved_wref_at(*self, added@[j]),
                wref_case ==> parents_kept(old(self).models(), self.models()),
                wref_case ==> forall|j: int| 0 <= j < added@.len() ==> #[trigger] added@[j] >= old(self).elems().len(),
            decreases data@.len(),
        {
            let ghost before = *self;
            let child = data.remove(0);
            proof {
                assert(child == orig.data@[n as int]);
                assert(data@ =~= orig.data@.skip(n + 1));
            }
            match child {
                DataType::AddElement(child_data) => {
                    proof {
                        assert(decreases_to!(orig => orig.data));
                        assert(decreases_to!(orig.data => orig.data@));
                        assert(decreases_to!(orig.data@ => orig.data@[n as int]));
                        assert(decreases_to!(orig.data@[n as int] => child_data));
                        assert(decreases_to!(orig => child_data));
                        assert(encodable_tree(child_data));
                        if plain_case {
                            assert(orig.data@[n as int] matches DataType::AddElement(c) ==> plain(c));
                            assert(plain(child_data));
                        }
                        if wref_case {
                            assert(orig.data@[n as int] is AddElement);
                            assert(resolvable_wref(*old(self), child_data));
                            crate::document::lemma_id_absent(child_data);
                        }
                    }
                    let (child_new, grandchildren) = match self.add_children(child_data) {
                        Ok(x) => x,
                        Err(e) => {
                            return Err(e);
                        },
                    };
                    let ghost after_children = *self;
                    let child_key = match self.add(child_new, None) {
                        Ok(k) => k,
                        Err(e) => {
                            return Err(e);
                        },
                    };
                    proof {
                        if wref_case {
                            assert(after_children == before);
                            assert(child_new == child_data);
                            assert(child_key == before.elems().len());
                            assert(self.models().take(child_key as int) == before.models());
                            assert(self.models()[child_key as int]->0.attribs == child_data.attribs@);
                            assert forall|j: int| 0 <= j < added@.len() implies #[trigger] resolved_wref_at(*self, added@[j]) by {
                                assert(resolved_wref_at(before, added@[j]));
                                assert(self.models()[added@[j] as int] == before.models()[added@[j] as int]) by {
                                    assert(self.models().take(child_key as int)[added@[j] as int] == self.models()[added@[j] as int]);
                                }
                            }
                            assert(resolved_wref_at(*self, child_key));
                            lemma_stored_parents(after_children.models(), self.models(), child_new, child_key);
                            lemma_parents_kept_trans(old(self).models(), before.models(), self.models());
                            assert(grandchildren is None);
                        }
                        lemma_stored_grown(after_children.models(), self.models(), child_new, child_key);
                        lemma_grown_trans(before.models(), after_children.models(), self.models());
                        lemma_stored_types(after_children.models(), self.models(), child_new, child_key);
                        lemma_types_kept_trans(before.models(), after_children.models(), self.models());
                        lemma_types_kept_trans(old(self).models(), before.models(), self.models());
                        if plain_case {
                            assert(self.models().len() <= after_children.models().len() + 1);
                        }
                    }
                    match grandchildren {
                        Some(gc) => {
                            let mut g: usize = 0;
                            while g < gc.len()
                                invariant
                                    !wref_case,
                                    self.wf(),
                                    self.same_but_content(old(self)),
                                    decls_grown(old(self).decls(), self.decls()),
                                    elems_grown(before.models(), self.models()),
                                    elems_grown(old(self).models(), self.models()),
                                    types_kept(old(self).models(), self.models()),
                                    self.element_at(child_key as int) is Some,
                                decreases gc@.len() - g,
                            {
                                let ghost mid = self.models();
                                match self.elementstore.store.get_mut(gc[g] as usize) {
                                    Some(sd) => {
                                        sd.set_parent_key(Some(child_key));
                                    },
                                    None => {},
                                }
                                let ghost mid_doc = *self;
                                assert(elems_grown(mid, self.models()));
                                assert(types_kept(mid, self.models()));
                                match self.post_add(gc[g], None) {
                                    Ok(()) => {},
                                    Err(e) => {
                                        return Err(e);
                                    },
                                }
                                proof {
                                    lemma_grown_trans(mid, mid_doc.models(), self.models());
                                    lemma_grown_trans(before.models(), mid, self.models());
                                    lemma_grown_trans(old(self).models(), mid, self.models());
                                    lemma_types_kept_trans(mid, mid_doc.models(), self.models());
                                    lemma_types_kept_trans(old(self).models(), mid, self.models());
                                    lemma_grown_keeps(mid_doc, *self, child_key as int);
                                }
                                g += 1;
                            }
                        },
                        None => {},
                    }
                    new_data.push(DataType::Element(child_key));
                    added.push(child_key);
                },
                other => {
                    new_data.push(other);
                },
            }
            proof {
                assert(orig.data@.take(n + 1).drop_last() =~= orig.data@.take(n as int));
                assert(elems_grown(before.models(), self.models()));
                assert forall|j: int| 0 <= j < added@.len() implies self.element_at(#[trigger] added@[j] as int) is Some by {
                    if j < added@.len() - 1 || !(orig.data@[n as int] is AddElement) {
                        lemma_grown_keeps(before, *self, added@[j] as int);
                    }
                }
                let t = orig.data@.take(n + 1);
                assert forall|i: int| 0 <= i < t.len() implies if t[i] is AddElement {
                    (#[trigger] new_data@[i]) matches DataType::Element(k) && self.element_at(k as int) is Some
                } else {
                    new_data@[i] == t[i]
                } by {
                    if i < n {
                        assert(t[i] == orig.data@.take(n as int)[i]);
                        if t[i] is AddElement {
                            lemma_grown_keeps(before, *self, new_data@[i]->Element_0 as int);
                        }
                    }
                }
            }
            n += 1;
        }
        proof {
            assert(orig.data@.take(n as int) =~= orig.data@);
        }
        Ok((ElementData { elementtype, attribs, data: new_data, key, parent }, Some(added)))
    }
}

impl Document {
    ///Add an element to the document (but the element will be an orphan unless it is the very
    ///first one, you may want to use ``add_element_to`` or ``annotate`` instead). Its children
    ///that are still to be added are added first.
    pub fn add_element(&mut self, element: ElementData) -> (r: Result<ElementKey, FoliaError>)
        requires
            old(self).wf(),
            encodable_tree(element),
        ensures
            final(self).wf(),
            final(self).same_but_content(old(self)),
            decls_grown(old(self).decls(), final(self).decls()),
            elems_grown(old(self).models(), final(self).models()),
            r matches Ok(k) ==> final(self).element_at(k as int) is Some,
            no_unborn(element) ==> (r matches Ok(k) ==> crate::document::stored(old(self).models(), final(self).models(), element, k)),
            plain_children(element) && !element.is_encodable()
                && old(self).elems().len() + element.data@.len() <= ElementKey::MAX ==> r is Ok,
    {
        let (element, _) = match self.add_children(element) {
            Ok(x) => x,
            Err(e) => {
                return Err(e);
            },
        };
        let ghost mid = *self;
        let r = self.add(element, None);
        proof {
            if let Ok(k) = r {
                lemma_stored_grown(mid.models(), self.models(), element, k);
                assert(self.models()[k as int] is Some);
            }
        }
        r
    }

    /// Makes the element under `child_key` the parent of the elements just added under it, and
    /// registers each (a word reference is registered with the element it refers to).
    fn adopt(&mut self, added: &Vec<ElementKey>, child_key: ElementKey) -> (r: Result<(), FoliaError>)
        requires
            old(self).wf(),
            old(self).element_at(child_key as int) is Some,
        ensures
            final(self).wf(),
            final(self).same_but_content(old(self)),
            final(self).decls() == old(self).decls(),
            elems_grown(old(self).models(), final(self).models()),
            types_kept(old(self).models(), final(self).models()),
            parents_kept_but(old(self).models(), final(self).models(), added@),
            final(self).element_at(child_key as int) is Some,
            ElementGroup::Span.has(old(self).models()[child_key as int]->0.elementtype)
                && (forall|j: int| 0 <= j < added@.len() ==> #[trigger] resolved_wref_at(*old(self), added@[j]))
                ==> r is Ok,
    {
        let ghost ok_case = ElementGroup::Span.has(old(self).models()[child_key as int]->0.elementtype)
            && (forall|j: int| 0 <= j < added@.len() ==> #[trigger] resolved_wref_at(*old(self), added@[j]));
        let mut g: usize = 0;
        while g < added.len()
            invariant
                self.wf(),
                self.same_but_content(old(self)),
                self.decls() == old(self).decls(),
                elems_grown(old(self).models(), self.models()),
                types_kept(old(self).models(), self.models()),
                parents_kept_but(old(self).models(), self.models(), added@),
                self.element_at(child_key as int) is Some,
                old(self).element_at(child_key as int) is Some,
                ok_case == (ElementGroup::Span.has(old(self).models()[child_key as int]->0.elementtype)
                    && (forall|j: int| 0 <= j < added@.len() ==> #[trigger] resolved_wref_at(*old(self), added@[j]))),
                ok_case ==> forall|j: int| g <= j < added@.len() ==> #[trigger] resolved_wref_at(*self, added@[j]),
            decreases added@.len() - g,
        {
            let a = added[g];
            let ghost m0 = self.models();
            let ghost d0 = *self;
            proof {
                assert(old(self).models()[child_key as int] is Some);
                assert(self.models()[child_key as int]->0.elementtype == old(self).models()[child_key as int]->0.elementtype);
            }
            match self.elementstore.store.get_mut(a as usize) {
                Some(sd) => {
                    sd.set_parent_key(Some(child_key));
                },
                None => {},
            }
            proof {
                if d0.element_at(a as int) is Some {
                    let old_e = d0.elems()[a as int]->0;
                    assert(self.elems() == d0.elems().update(a as int, Some(ElementData { parent: Some(child_key), ..old_e })));
                    assert(self.models() =~= m0.update(a as int, Some(ElementData { parent: Some(child_key), ..old_e }@)));
                } else {
                    assert(self.models() =~= m0);
                }
            }
            assert(elems_grown(m0, self.models()));
            assert(types_kept(m0, self.models()));
            assert(parents_kept_but(old(self).models(), self.models(), added@)) by {
                assert forall|k: int| 0 <= k < old(self).models().len() && #[trigger] old(self).models()[k] is Some
                    && !added@.contains(k as ElementKey) implies self.models()[k] is Some
                    && self.models()[k]->0.parent == old(self).models()[k]->0.parent by {
                    assert(added@[g as int] == a);
                    assert(m0[k] is Some);
                }
            }
            let ghost d1 = *self;
            proof {
                if ok_case {
                    assert(resolved_wref_at(d0, a));
                    assert(d1.element_at(a as int)->0.parent == Some(child_key));
                    assert(d1.element_at(child_key as int) is Some);
                    assert(walk_fuel(d1) > 0);
                    let anc = ancestor_keys(d1, a, walk_fuel(d1));
                    assert(anc == seq![child_key] + ancestor_keys(d1, child_key, (walk_fuel(d1) - 1) as nat));
                    assert(is_span(d1, child_key));
                    assert(anc[0] == child_key);
                    assert(wref_span(d1, a, None) == Some(child_key));
                    assert(d1.element_at(a as int)->0.attribs@ == d1.models()[a as int]->0.attribs);
                }
            }
            match self.post_add(a, None) {
                Ok(()) => {},
                Err(e) => {
                    return Err(e);
                },
            }
            proof {
                assert(parents_kept_but(old(self).models(), self.models(), added@)) by {
                    assert forall|k: int| 0 <= k < old(self).models().len() && #[trigger] old(self).models()[k] is Some
                        && !added@.contains(k as ElementKey) implies self.models()[k] is Some
                        && self.models()[k]->0.parent == old(self).models()[k]->0.parent by {
                        assert(d1.models()[k] is Some);
                    }
                }
                lemma_grown_trans(m0, d1.models(), self.models());
                lemma_grown_trans(old(self).models(), m0, self.models());
                lemma_types_kept_trans(m0, d1.models(), self.models());
                lemma_types_kept_trans(old(self).models(), m0, self.models());
                assert(m0[child_key as int] is Some);
                lemma_grown_keeps(d1, *self, child_key as int);
                if ok_case {
                    let e = d1.element_at(a as int)->0;
                    let id = last_idref(e.attribs@)->0;
                    let t = d1.element_index()[id] as int;
                    let target = d1.models()[t]->0;
                    assert(self.models() == d1.models().update(t, Some(ElementModel {
                        data: target.data.push(DataType::SpanReference(child_key)), ..target })));
                    assert forall|j: int| g + 1 <= j < added@.len() implies #[trigger] resolved_wref_at(*self, added@[j]) by {
                        assert(resolved_wref_at(d0, added@[j]));
                        let k = added@[j] as int;
                        assert(d1.models()[k]->0.attribs == d0.models()[k]->0.attribs);
                        if k == t {
                            assert(self.models()[k] == Some(ElementModel {
                                data: target.data.push(DataType::SpanReference(child_key)), ..target }));
                        } else {
                            assert(0 <= k < d1.models().len());
                            d1.elementstore.store.lemma_index(id);
                            assert(0 <= t < d1.models().len());
                            assert(self.models()[k] == d1.models()[k]);
                        }
                        assert(self.models()[k]->0.attribs == d1.models()[k]->0.attribs);
                    }
                }
            }
            g += 1;
        }
        Ok(())
    }

    ///Adds a new element as a child of another, this is a higher-level function that
    ///takes care of adding and attaching for you. You may want to use ``annotate`` instead
    ///as that is an even higher-level function.
    #[verifier::rlimit(60)]
    pub fn add_element_to(&mut self, parent_key: ElementKey, element: ElementData) -> (r: Result<ElementKey, FoliaError>)
        requires
            old(self).wf(),
            encodable_tree(element),
            element.is_encodable() && element.elementtype == ElementType::Feature ==> element.decoded_ok(AttribType::SET),
        ensures
            final(self).wf(),
            final(self).same_but_content(old(self)),
            decls_grown(old(self).decls(), final(self).decls()),
            elems_grown(old(self).models(), final(self).models()),
            r matches Ok(k) ==> final(self).element_at(k as int) is Some
                && final(self).element_at(k as int)->0.parent == Some(parent_key)
                && final(self).element_at(parent_key as int) is Some,
            types_kept(old(self).models(), final(self).models()),
            crate::document::without_id(element) ==> (r matches Ok(k)
                ==> final(self).element_at(k as int)->0.elementtype == element.elementtype),
            no_unborn(element) && crate::document::encodes_ok(*old(self), element) && element.elementtype != ElementType::WordReference
                && old(self).element_at(parent_key as int) is Some
                && old(self).elems().len() <= ElementKey::MAX
                && !(element.id_of() matches Some(id) && old(self).element_index().contains_key(id))
                ==> r == Ok::<ElementKey, FoliaError>(old(self).elems().len() as ElementKey),
            no_unborn(element) && crate::document::encodes_ok(*old(self), element) && element.elementtype != ElementType::WordReference
                && old(self).element_at(parent_key as int) is Some
                && old(self).elems().len() <= ElementKey::MAX
                && !(element.id_of() matches Some(id) && old(self).element_index().contains_key(id))
                && element.parent != Some(parent_key)
                ==> final(self).element_at(parent_key as int)->0.data@
                    == old(self).element_at(parent_key as int)->0.data@.push(DataType::Element(old(self).elems().len() as ElementKey)),
            span_fits(*old(self), parent_key, element) ==> r is Ok,
            span_fits(*old(self), parent_key, element) ==> parents_kept(old(self).models(), final(self).models()),
            no_unborn(element) ==> final(self).elems().len() <= old(self).elems().len() + 1,
            no_unborn(element) && crate::document::without_id(element) && element.elementtype.annotation() is None
                && element.elementtype != ElementType::Feature
                ==> final(self).declarationstore == old(self).declarationstore
                    && final(self).element_index() == old(self).element_index(),
    {
        let ghost span_case = span_fits(*old(self), parent_key, element);
        proof {
            if crate::document::without_id(element) {
                crate::document::lemma_id_absent(element);
            }
        }
        let ghost fresh = no_unborn(element) && crate::document::encodes_ok(*old(self), element) && element.elementtype != ElementType::WordReference
            && old(self).element_at(parent_key as int) is Some
            && old(self).elems().len() <= ElementKey::MAX
            && !(element.id_of() matches Some(id) && old(self).element_index().contains_key(id));
        let ghost given = element;
        let (encoded, added) = match self.add_children(element) {
            Ok(x) => x,
            Err(e) => {
                return Err(e);
            },
        };
        if encoded.encodable() && encoded.elementtype == ElementType::Feature {
            match self.get_elementdata(parent_key) {
                Some(p) => {
                    if p.elementtype.annotationtype().is_none() {
                        return Err(FoliaError::InternalError("Context for feature has no annotation type".to_owned()));
                    }
                },
                None => {},
            }
        }
        let ghost mid = *self;
        proof {
            if span_case {
                assert(encoded.attribs == given.attribs);
                assert(crate::document::encodes_ok(mid, encoded));
                assert(mid.elems().len() <= ElementKey::MAX);
            }
        }
        let child_key = match self.add(encoded, Some(parent_key)) {
            Ok(k) => k,
            Err(err) => {
                return Err(FoliaError::InternalError(concat3("Unable to add element to parent: ", err.to_string().as_str(), "")));
            },
        };
        proof {
            lemma_stored_grown(mid.models(), self.models(), encoded, child_key);
            lemma_stored_types(mid.models(), self.models(), encoded, child_key);
            lemma_types_kept_trans(old(self).models(), mid.models(), self.models());
            assert(self.models()[child_key as int] is Some);
            if crate::document::without_id(given) {
                assert(crate::document::without_id(encoded));
                assert(self.models()[child_key as int]->0.elementtype == given.elementtype);
            }
            if fresh {
                assert(encoded == given && added is None);
                assert(child_key == old(self).elems().len());
                assert(self.models()[child_key as int]->0.elementtype == encoded.elementtype);
                lemma_grown_keeps(mid, *self, parent_key as int);
            }
        }
        let ghost d4 = *self;
        proof {
            if span_case {
                lemma_stored_parents(mid.models(), self.models(), encoded, child_key);
                lemma_parents_kept_trans(old(self).models(), mid.models(), self.models());
            }
        }
        match added {
            Some(added) => {
                let ghost d5 = *self;
                proof {
                    if span_case {
                        assert(child_key == mid.elems().len());
                        assert forall|j: int| 0 <= j < added@.len() implies #[trigger] resolved_wref_at(*self, added@[j]) by {
                            assert(resolved_wref_at(mid, added@[j]));
                            assert(self.models()[added@[j] as int] == mid.models()[added@[j] as int]) by {
                                assert(self.models().take(child_key as int)[added@[j] as int] == self.models()[added@[j] as int]);
                            }
                        }
                        assert(ElementGroup::Span.has(self.models()[child_key as int]->0.elementtype));
                    }
                }
                match self.adopt(&added, child_key) {
                    Ok(()) => {},
                    Err(e) => {
                        return Err(e);
                    },
                }
                proof {
                    lemma_grown_trans(old(self).models(), d5.models(), self.models());
                    lemma_types_kept_trans(old(self).models(), d5.models(), self.models());
                    if span_case {
                        assert forall|k: int| 0 <= k < old(self).models().len() && #[trigger] old(self).models()[k] is Some
                            implies self.models()[k] is Some && self.models()[k]->0.parent == old(self).models()[k]->0.parent by {
                            assert(d5.models()[k] is Some);
                            if added@.contains(k as ElementKey) {
                                let j = choose|j: int| 0 <= j < added@.len() && added@[j] == k as ElementKey;
                                assert(added@[j] >= old(self).elems().len());
                            }
                        }
                    }
                }
            },
            None => {},
        }
        let ghost d2 = *self;
        proof {
            if span_case {
                assert(parents_kept(old(self).models(), d2.models()));
            }
        }
        match self.attach_element(parent_key, child_key) {
            Ok(()) => {},
            Err(e) => {
                return Err(e);
            },
        }
        proof {
            assert(elems_grown(d2.models(), self.models()));
            lemma_attached_parent(d2.models(), parent_key, child_key);
            lemma_attached_kept(d2.models(), parent_key, child_key);
            lemma_types_kept_trans(old(self).models(), d2.models(), self.models());
            if fresh {
                lemma_attached_kept(d2.models(), parent_key, child_key);
                assert(self.models()[child_key as int]->0.elementtype == given.elementtype);
                assert(self.element_at(child_key as int)->0.elementtype == given.elementtype);
                assert(d2.models()[parent_key as int] == old(self).models()[parent_key as int]) by {
                    assert(d2.models().take(child_key as int)[parent_key as int] == d2.models()[parent_key as int]);
                }
                if given.parent != Some(parent_key) {
                    assert(d2.models()[child_key as int]->0.parent == given.parent);
                    assert(self.models()[parent_key as int]->0.data
                        == old(self).models()[parent_key as int]->0.data.push(DataType::Element(child_key)));
                }
            }
        }
        let ghost d3 = *self;
        match self.post_add(child_key, None) {
            Ok(()) => {},
            Err(e) => {
                return Err(e);
            },
        }
        proof {
            lemma_grown_trans(d2.models(), d3.models(), self.models());
            lemma_grown_trans(old(self).models(), d2.models(), self.models());
            lemma_grown_keeps(d3, *self, child_key as int);
            lemma_grown_keeps(d3, *self, parent_key as int);
            assert(d3.models()[child_key as int] is Some);
            assert(self.models()[child_key as int]->0.parent == Some(parent_key));
            lemma_types_kept_trans(old(self).models(), d3.models(), self.models());
            if span_case {
                lemma_attached_others(d2.models(), parent_key, child_key);
                assert forall|k: int| 0 <= k < old(self).models().len() && #[trigger] old(self).models()[k] is Some
                    implies self.models()[k] is Some && self.models()[k]->0.parent == old(self).models()[k]->0.parent by {
                    assert(d2.models()[k] is Some);
                    if seq![child_key].contains(k as ElementKey) {
                        assert(seq![child_key][0] == child_key);
                    }
                    assert(d3.models()[k] is Some);
                }
            }
            if fresh && given.parent != Some(parent_key) {
                assert(self.models()[parent_key as int] == d3.models()[parent_key as int]);
                assert(self.element_at(parent_key as int)->0.data@ == self.models()[parent_key as int]->0.data);
                assert(old(self).element_at(parent_key as int)->0.data@ == old(self).models()[parent_key as int]->0.data);
            }
        }
        Ok(child_key)
    }
}

/// A span element (or one with nothing still to be added under it) that is added as a new
/// element under a parent: what is still to be added under it are word references to elements
/// that are there, it can be encoded, it is no word reference, the parent exists, keys are left
/// for it and what is under it, and its ID (if any) is not taken.
pub open spec fn span_fits(doc: Document, parent_key: ElementKey, element: ElementData) -> bool {
    &&& wref_children(doc, element)
    &&& crate::document::encodes_ok(doc, element)
    &&& element.elementtype != ElementType::WordReference
    &&& (exists|i: int| 0 <= i < element.data@.len() && #[trigger] element.data@[i] is AddElement)
        ==> ElementGroup::Span.has(element.elementtype)
    &&& doc.element_at(parent_key as int) is Some
    &&& doc.elems().len() + element.data@.len() < ElementKey::MAX
    &&& !(element.id_of() matches Some(id) && doc.element_index().contains_key(id))
}

/// The keys of the elements that a span covers: its child elements, and the elements that
/// its word references still to be added refer to (where they exist).
pub open spec fn span_keys(doc: Document, data: Seq<DataType>) -> Seq<ElementKey>
    decreases data.len(),
{
    if data.len() == 0 {
        Seq::empty()
    } else {
        let rest = span_keys(doc, data.drop_last());
        match data.last() {
            DataType::Element(k) => rest.push(k),
            DataType::AddElement(w) => if w.elementtype == ElementType::WordReference {
                match w.attrib_of(AttribType::IDREF) {
                    Some(a) => match a.borrowed_value() {
                        Some(id) => if doc.element_index().contains_key(id) {
                            rest.push(doc.element_index()[id] as ElementKey)
                        } else {
                            rest
                        },
                        None => rest,
                    },
                    None => rest,
                }
            } else {
                rest
            },
            _ => rest,
        }
    }
}

/// Whether a list of accepted data admits an element type.
pub open spec fn admits(accepted: Seq<AcceptedData>, t: ElementType) -> bool {
    exists|i: int| 0 <= i < accepted.len() && match #[trigger] accepted[i] {
        AcceptedData::AcceptElementType(x) => x == t,
        AcceptedData::AcceptElementGroup(g) => g.has(t),
    }
}

/// Whether the properties of an element type accept an element type as a child.
pub open spec fn accepts_type(props: PropertiesModel, t: ElementType) -> bool {
    admits(props.accepted_data, t)
}

/// Whether a list of accepted data admits an element type.
fn accepts_child(accepted: &Vec<AcceptedData>, t: ElementType) -> (r: bool)
    ensures
        r == admits(accepted@, t),
{
    let mut i: usize = 0;
    while i < accepted.len()
        invariant
            i <= accepted@.len(),
            forall|j: int| 0 <= j < i ==> !match #[trigger] accepted@[j] {
                AcceptedData::AcceptElementType(x) => x == t,
                AcceptedData::AcceptElementGroup(g) => g.has(t),
            },
        decreases accepted@.len() - i,
    {
        let ok = match &accepted[i] {
            AcceptedData::AcceptElementType(x) => *x == t,
            AcceptedData::AcceptElementGroup(g) => g.contains(t),
        };
        if ok {
            return true;
        }
        i += 1;
    }
    false
}

impl Document {
    ///The keys of the elements that a span covers
    pub fn get_span_keys(&self, elementdata: &ElementData) -> (r: Vec<ElementKey>)
        requires
            self.wf(),
        ensures
            r@ == span_keys(*self, elementdata.data@),
    {
        let mut keys: Vec<ElementKey> = Vec::new();
        let mut i: usize = 0;
        while i < elementdata.data.len()
            invariant
                self.wf(),
                i <= elementdata.data@.len(),
                keys@ == span_keys(*self, elementdata.data@.take(i as int)),
            decreases elementdata.data@.len() - i,
        {
            proof {
                assert(elementdata.data@.take(i + 1).drop_last() =~= elementdata.data@.take(i as int));
            }
            match &elementdata.data[i] {
                DataType::Element(k) => {
                    keys.push(*k);
                },
                DataType::AddElement(w) => {
                    if w.elementtype == ElementType::WordReference {
                        match w.attrib(AttribType::IDREF) {
                            Some(a) => match a.as_str() {
                                Ok(id) => match self.get_element_key_by_id(id) {
                                    Some(k) => {
                                        keys.push(k);
                                    },
                                    None => {},
                                },
                                Err(_) => {},
                            },
                            None => {},
                        }
                    }
                },
                _ => {},
            }
            i += 1;
        }
        proof {
            assert(elementdata.data@.take(i as int) =~= elementdata.data@);
        }
        keys
    }

    ///The set of the default declaration of an annotation type (the only declaration of the
    ///type), if there is one
    pub fn get_default_set(&self, annotationtype: AnnotationType) -> (r: Option<&str>)
        requires
            self.wf(),
        ensures
            match r { Some(s) => Some(s@), None => None } == match self.declarationstore.default_of(annotationtype) {
                Some(k) => if k <= DecKey::MAX { opt_view(self.decls()[k]->0.set) } else { None },
                None => None,
            },
    {
        match self.declarationstore.get_default_key(annotationtype) {
            Some(k) => {
                proof {
                    crate::metadata::lemma_positions_valid(self.decls(), annotationtype);
                }
                match self.get_declaration(k) {
                    Some(d) => match &d.set {
                        Some(s) => Some(s.as_str()),
                        None => None,
                    },
                    None => None,
                }
            },
            None => None,
        }
    }

    ///Checks that the element type of the element may be a child of the parent
    pub fn check_element_addable(&self, parent_key: ElementKey, element: &ElementData) -> (r: Result<(), FoliaError>)
        requires
            self.wf(),
        ensures
            self.element_at(parent_key as int) is None ==> (r matches Err(FoliaError::InternalError(m))
                && m@ == "Specified parent element key not found"@),
            self.element_at(parent_key as int) matches Some(p) ==> {
                &&& r is Ok <==> accepts_type(element_properties(p.elementtype), element.elementtype)
                &&& r is Err ==> (r matches Err(FoliaError::ValidationError(m)) && m@ == "Can't add element type "@
                    + element.elementtype.tag() + " to "@ + p.elementtype.tag())
            },
    {
        let parent_type = match self.get_elementdata(parent_key) {
            Some(p) => p.elementtype,
            None => {
                return Err(FoliaError::InternalError("Specified parent element key not found".to_owned()));
            },
        };
        let props = self.props(parent_type);
        if accepts_child(&props.accepted_data, element.elementtype) {
            return Ok(());
        }
        let mut m = concat3("Can't add element type ", element.elementtype.as_str(), " to ");
        m.append(parent_type.as_str());
        Err(FoliaError::ValidationError(m))
    }

    ///Get the layer under the specified element, for the given annotation type and set: the
    ///first child of the element of the layer type for that annotation type, whose declaration is
    ///that of the annotation type and set (or of the annotation type without a set).
    pub fn get_layer_key(&self, key: ElementKey, annotationtype: AnnotationType, set: Option<&str>) -> (r: Result<Option<ElementKey>, FoliaError>)
        requires
            self.wf(),
        ensures
            annotationtype.layer() is None ==> (r matches Err(FoliaError::InternalError(m))
                && m@ == "No layer type found for specified span type "@ + annotationtype.name()),
            annotationtype.layer() matches Some(layertype) ==> r == Ok::<Option<ElementKey>, FoliaError>(
                layer_child(*self, key, layertype, layer_dec_key(*self, annotationtype, opt_str_view(set)))),
    {
        let layertype = match annotationtype.layertype() {
            Some(t) => t,
            None => {
                return Err(FoliaError::InternalError(concat_str("No layer type found for specified span type ",
                    annotationtype.as_str())));
            },
        };
        let id = Declaration::index_id(annotationtype, &set);
        let dk = self.get_declaration_key_by_id(id.as_str());
        let ghost want = layer_dec_key(*self, annotationtype, opt_str_view(set));
        assert(dk == want);
        let parent = match self.get_elementdata(key) {
            Some(p) => p,
            None => {
                return Ok(None);
            },
        };
        let ghost pred = is_layer_child(*self, layertype, want);
        let mut i: usize = 0;
        while i < parent.data.len()
            invariant
                self.wf(),
                self.element_at(key as int) is Some && *parent == self.element_at(key as int)->0,
                pred == is_layer_child(*self, layertype, want),
                dk == want,
                annotationtype.layer() == Some(layertype),
                want == layer_dec_key(*self, annotationtype, opt_str_view(set)),
                i <= parent.data@.len(),
                forall|j: int| 0 <= j < i ==> !pred(#[trigger] parent.data@[j]),
            decreases parent.data@.len() - i,
        {
            if let DataType::Element(c) = &parent.data[i] {
                if let Some(e) = self.get_elementdata(*c) {
                    let ek = match e.declaration_key() {
                        Ok(k) => k,
                        Err(_) => None,
                    };
                    proof {
                        lemma_first_index(e.attribs@, crate::element::encoded_scan(AttribType::SET));
                    }
                    assert(ek == e.dec_key_of());
                    if e.elementtype == layertype && dk.is_some() && ek == dk {
                        proof {
                            assert(pred(parent.data@[i as int]));
                            lemma_first_index_at(parent.data@, pred, i as int);
                        }
                        return Ok(Some(*c));
                    }
                }
            }
            i += 1;
        }
        proof {
            lemma_first_index_at(parent.data@, pred, i as int);
        }
        Ok(None)
    }
}

/// The key of the declaration of an annotation type and set (or of the annotation type without
/// a set), if it is declared.
pub open spec fn layer_dec_key(doc: Document, annotationtype: AnnotationType, set: Option<Seq<char>>) -> Option<DecKey> {
    let id = declaration_id(annotationtype, set);
    if doc.declaration_index().contains_key(id) { Some(doc.declaration_index()[id] as DecKey) } else { None }
}

/// The view of an optional string slice.
pub open spec fn opt_str_view(set: Option<&str>) -> Option<Seq<char>> {
    match set {
        Some(s) => Some(s@),
        None => None,
    }
}

/// A data item that is a reference to an element of the layer type with the given declaration.
pub open spec fn is_layer_child(doc: Document, layertype: ElementType, dk: Option<DecKey>) -> spec_fn(DataType) -> bool {
    |d: DataType| d is Element && doc.element_at(d->Element_0 as int) is Some
        && doc.element_at(d->Element_0 as int)->0.elementtype == layertype
        && dk is Some && doc.element_at(d->Element_0 as int)->0.dec_key_of() == dk
}

/// The first child of an element that is a layer of the type with the given declaration.
pub open spec fn layer_child(doc: Document, key: ElementKey, layertype: ElementType, dk: Option<DecKey>) -> Option<ElementKey> {
    match doc.element_at(key as int) {
        None => None,
        Some(p) => {
            let i = first_index(p.data@, is_layer_child(doc, layertype, dk));
            if i < p.data@.len() { Some(p.data@[i]->Element_0) } else { None }
        },
    }
}

/// Adding a span element to the layer for its annotation type and set can go through: where
/// the search element has such a layer, the layer takes the element and the element fits there;
/// where it has none, the holder takes a new layer, the layer takes the element, the element
/// fits under the holder, and a key is left for the layer too.
pub open spec fn layer_placed(doc: Document, holder_key: ElementKey, search_key: ElementKey,
    annotationtype: AnnotationType, layertype: ElementType, set: Option<Seq<char>>, element: ElementData) -> bool {
    match layer_child(doc, search_key, layertype, layer_dec_key(doc, annotationtype, set)) {
        Some(l) => accepts_type(element_properties(doc.element_at(l as int)->0.elementtype), element.elementtype)
            && span_fits(doc, l, element),
        None => {
            &&& doc.element_at(holder_key as int) is Some
            &&& accepts_type(element_properties(doc.element_at(holder_key as int)->0.elementtype), layertype)
            &&& accepts_type(element_properties(layertype), element.elementtype)
            &&& span_fits(doc, holder_key, element)
            &&& doc.elems().len() + element.data@.len() + 1 < ElementKey::MAX
        },
    }
}

/// A layer type is of no annotation type, and no feature or word reference.
pub proof fn lemma_layer_type(a: AnnotationType)
    ensures
        a.layer() matches Some(lt) ==> lt.annotation() is None && lt != ElementType::Feature
            && lt != ElementType::WordReference,
{
}

/// An element that is added under a parent as a new element: no element is still to be added
/// under it, it can be encoded, it is no word reference, the parent exists and accepts its
/// type, a key is left for it, and its ID (if any) is not taken.
pub open spec fn fits_fresh(doc: Document, parent_key: ElementKey, element: ElementData) -> bool {
    &&& no_unborn(element)
    &&& crate::document::encodes_ok(doc, element)
    &&& element.elementtype != ElementType::WordReference
    &&& doc.element_at(parent_key as int) matches Some(p) && accepts_type(element_properties(p.elementtype), element.elementtype)
    &&& doc.elems().len() <= ElementKey::MAX
    &&& !(element.id_of() matches Some(id) && doc.element_index().contains_key(id))
}

/// A span element added under this element goes into a layer: the element exists and is a
/// structure element or one that words can refer to.
pub open spec fn takes_layers(doc: Document, key: ElementKey) -> bool {
    &&& doc.element_at(key as int) is Some
    &&& ElementGroup::Structure.has(doc.element_at(key as int)->0.elementtype)
        || element_properties(doc.element_at(key as int)->0.elementtype).wrefable
}

/// The element is a span element of an annotation type that has a layer type.
pub open spec fn layered_span(element: ElementData) -> bool {
    ElementGroup::Span.has(element.elementtype) && (element.elementtype.annotation() matches Some(a)
        && a.layer() is Some)
}

/// The element under key `k` is in a layer of the layer type of the span element's annotation
/// type.
pub open spec fn in_layer(doc: Document, k: ElementKey, element: ElementData) -> bool {
    doc.element_at(k as int)->0.parent matches Some(l)
        && doc.element_at(l as int)->0.elementtype == element.elementtype.annotation()->0.layer()->0
}

/// Holds for the keys of structure elements of the document.
pub open spec fn structure_key(doc: Document) -> spec_fn(ElementKey) -> bool {
    |k: ElementKey| doc.element_at(k as int) is Some && ElementGroup::Structure.has(doc.element_at(k as int)->0.elementtype)
}

/// Holds for the ancestors that all the elements with the given keys but the first share.
pub open spec fn shared_by_rest(doc: Document, keys: Seq<ElementKey>) -> spec_fn(ElementKey) -> bool {
    |a: ElementKey| forall|j: int| 0 < j < keys.len() ==> ancestor_keys(doc, #[trigger] keys[j], walk_fuel(doc)).contains(a)
}

/// The structure elements that are ancestors of all the elements with the given keys, from the
/// one closest to the first element upwards.
pub open spec fn common_structures(doc: Document, keys: Seq<ElementKey>) -> Seq<ElementKey> {
    ancestor_keys(doc, keys[0], walk_fuel(doc)).filter(structure_key(doc)).filter(shared_by_rest(doc, keys))
}

/// Holds for the elements that may hold a layer of the layer type: they accept it, or layers.
pub open spec fn may_hold_layer(doc: Document, layertype: ElementType) -> spec_fn(ElementKey) -> bool {
    |a: ElementKey| {
        let props = element_properties(doc.element_at(a as int)->0.elementtype);
        admits(props.accepted_data, layertype)
            || props.accepted_data.contains(AcceptedData::AcceptElementGroup(ElementGroup::Layer))
    }
}

/// The element that holds the layer for a span over the elements with the given keys: the
/// closest common structure ancestor that may hold a layer of the layer type.
pub open spec fn layer_holder(doc: Document, keys: Seq<ElementKey>, layertype: ElementType) -> Option<ElementKey> {
    let c = common_structures(doc, keys);
    let i = first_index(c, may_hold_layer(doc, layertype));
    if i < c.len() { Some(c[i]) } else { None }
}

/// The set a span element is annotated in: its own, or, where it names none (and no attribute
/// that is still encoded comes where its set would be looked for), the set of the default
/// declaration of its annotation type, if there is one.
pub open spec fn span_set(doc: Document, element: ElementData) -> Option<Seq<char>> {
    if element.decoded_value(AttribType::SET) is Some {
        element.decoded_value(AttribType::SET)
    } else if first_index(element.attribs@, crate::element::decoded_scan(AttribType::SET)) == element.attribs@.len() {
        match doc.declarationstore.default_of(element.elementtype.annotation()->0) {
            Some(k) => if k <= DecKey::MAX { opt_view(doc.decls()[k]->0.set) } else { None },
            None => None,
        }
    } else {
        None
    }
}

/// The span element names no set (and no attribute that is still encoded comes where its set
/// would be looked for), and its annotation type has no default declaration with a set.
pub open spec fn no_span_set(doc: Document, element: ElementData) -> bool {
    &&& first_index(element.attribs@, crate::element::decoded_scan(AttribType::SET)) == element.attribs@.len()
    &&& span_set(doc, element) is None
}

/// A span element added from an element that words refer to (a word) can be placed: it is a span
/// of an annotation type with a layer type and a set (its own or the default one), it spans elements, their closest
/// common structure ancestor that may hold a layer holds it, and the layer for its type and set
/// there (found or new) takes it.
pub open spec fn word_span_placed(doc: Document, parent_key: ElementKey, element: ElementData) -> bool {
    &&& doc.element_at(parent_key as int) is Some
    &&& element_properties(doc.element_at(parent_key as int)->0.elementtype).wrefable
    &&& layered_span(element)
    &&& span_set(doc, element) is Some
    &&& span_keys(doc, element.data@).len() > 0
    &&& layer_holder(doc, span_keys(doc, element.data@), element.elementtype.annotation()->0.layer()->0) matches Some(h)
        && layer_placed(doc, h, h, element.elementtype.annotation()->0, element.elementtype.annotation()->0.layer()->0,
            span_set(doc, element), element)
}

/// A span element added from a structure element that words cannot refer to (a sentence, a
/// paragraph) can be placed: it is a span of an annotation type with a layer type and a set (its
/// own or the default one), and the layer for its type and set under that element (found or new)
/// takes it.
pub open spec fn structure_span_placed(doc: Document, parent_key: ElementKey, element: ElementData) -> bool {
    &&& doc.element_at(parent_key as int) is Some
    &&& ElementGroup::Structure.has(doc.element_at(parent_key as int)->0.elementtype)
    &&& !element_properties(doc.element_at(parent_key as int)->0.elementtype).wrefable
    &&& layered_span(element)
    &&& span_set(doc, element) is Some
    &&& layer_placed(doc, parent_key, parent_key, element.elementtype.annotation()->0,
        element.elementtype.annotation()->0.layer()->0, span_set(doc, element), element)
}

/// The query for structure elements.
pub open spec fn structure_query() -> Query {
    Query {
        action: crate::query::Action::Select,
        elementtype: Cmp::Any,
        elementgroup: Cmp::Is(ElementGroup::Structure),
        contexttype: Cmp::Any,
        set: Cmp::Any,
        class: Cmp::Any,
        processor: Cmp::Any,
        subset: Cmp::Any,
        annotator: Cmp::Any,
        annotatortype: Cmp::Any,
        confidence: Cmp::Any,
    }
}

/// The selector for structure elements picks the ancestors that are structure elements.
pub proof fn lemma_structure_ancestors(doc: Document, key: ElementKey, s: Selector)
    requires
        s.encodes(doc, structure_query()),
    ensures
        ancestors_of(doc, key, s) == ancestor_keys(doc, key, walk_fuel(doc)).filter(structure_key(doc)),
{
    assert(s.datatypes@.contains(crate::select::DataTypeSelector::Elements)) by {
        assert(s.datatypes@[0] == crate::select::DataTypeSelector::Elements);
    }
    assert(s.set is Any && s.subset is Any && s.class is Any && s.processor is Any);
    assert forall|k: ElementKey| #[trigger] accepts_key(doc, s)(k) == structure_key(doc)(k) by {
        assert(accepts_key(doc, s)(k) == s.accepts(doc, DataType::Element(k)));
    }
    assert(accepts_key(doc, s) =~= structure_key(doc));
}

/// The layer that a span element with a set (its own or the default one) goes into when it is
/// added under a structure element that words cannot refer to: the first layer of its type and
/// set among that element's children, if there is one.
pub open spec fn existing_layer(doc: Document, parent_key: ElementKey, element: ElementData) -> Option<ElementKey> {
    match (element.elementtype.annotation(), doc.element_at(parent_key as int)) {
        (Some(a), Some(p)) => if ElementGroup::Span.has(element.elementtype) && a.layer() is Some
            && ElementGroup::Structure.has(p.elementtype) && !element_properties(p.elementtype).wrefable
            && span_set(doc, element) is Some {
            layer_child(doc, parent_key, a.layer()->0, layer_dec_key(doc, a, span_set(doc, element)))
        } else {
            None
        },
        _ => None,
    }
}

/// A layer element of a type, for a set (if any), still to be added.
fn new_layer(layertype: ElementType, set: &Option<String>) -> (e: ElementData)
    ensures
        e.elementtype == layertype,
        crate::document::without_id(e),
        e.data@.len() == 0,
        encodable_tree(e),
        e.is_encodable() ==> e.decoded_ok(AttribType::SET),
{
    let e = ElementData::new(layertype);
    match set {
        Some(s) => {
            let e = e.with_attrib(Attribute::SetName(s.clone()));
            proof {
                lemma_first_index_at(e.attribs@, crate::element::decoded_scan(AttribType::SET), 0);
                assert(encodable_tree(e));
            }
            e
        },
        None => {
            proof {
                assert(encodable_tree(e));
            }
            e
        },
    }
}

impl Document {
    /// Adds a span element to its layer under `holder_key`: the layer that the element with
    /// `search_key` has, or else a new one under `holder_key`.
    #[verifier::rlimit(40)]
    fn add_to_layer(&mut self, holder_key: ElementKey, search_key: ElementKey, annotationtype: AnnotationType,
        layertype: ElementType, set: &Option<String>, element: ElementData) -> (r: Result<ElementKey, FoliaError>)
        requires
            old(self).wf(),
            encodable_tree(element),
            element.is_encodable() && element.elementtype == ElementType::Feature ==> element.decoded_ok(AttribType::SET),
        ensures
            final(self).wf(),
            final(self).same_but_content(old(self)),
            decls_grown(old(self).decls(), final(self).decls()),
            elems_grown(old(self).models(), final(self).models()),
            r matches Ok(k) ==> final(self).element_at(k as int) is Some
                && (final(self).element_at(k as int)->0.parent matches Some(l) && final(self).element_at(l as int) is Some),
            annotationtype.layer() == Some(layertype) ==> (r matches Ok(k) ==>
                (final(self).element_at(k as int)->0.parent matches Some(l)
                && final(self).element_at(l as int)->0.elementtype == layertype)),
            annotationtype.layer() == Some(layertype) ==> layer_placed(*old(self), holder_key, search_key, annotationtype,
                layertype, opt_view(*set), element) ==> r is Ok,
            annotationtype.layer() == Some(layertype) && layer_child(*old(self), search_key, layertype,
                layer_dec_key(*old(self), annotationtype, opt_view(*set))) is None
                && layer_placed(*old(self), holder_key, search_key, annotationtype, layertype, opt_view(*set), element)
                ==> (r matches Ok(k) ==> final(self).element_at(k as int)->0.parent == Some(old(self).elems().len() as ElementKey)
                    && final(self).element_at(old(self).elems().len() as int)->0.parent == Some(holder_key)),
            annotationtype.layer() == Some(layertype) ==> (layer_child(*old(self), search_key, layertype,
                layer_dec_key(*old(self), annotationtype, opt_view(*set))) matches Some(l) ==> {
                &&& r matches Ok(k) ==> final(self).element_at(k as int)->0.parent == Some(l)
                &&& fits_fresh(*old(self), l, element)
                    ==> r == Ok::<ElementKey, FoliaError>(old(self).elems().len() as ElementKey)
            }),
    {
        let setref: Option<&str> = match set {
            Some(s) => Some(s.as_str()),
            None => None,
        };
        let found = match self.get_layer_key(search_key, annotationtype, setref) {
            Ok(k) => k,
            Err(e) => {
                return Err(e);
            },
        };
        let ghost start = *self;
        proof {
            assert(opt_str_view(setref) == opt_view(*set));
        }
        let layer_key = match found {
            Some(k) => k,
            None => {
                let layerdata = new_layer(layertype, set);
                proof {
                    lemma_layer_type(annotationtype);
                    crate::document::lemma_id_absent(layerdata);
                }
                match self.check_element_addable(holder_key, &layerdata) {
                    Ok(()) => {},
                    Err(e) => {
                        return Err(e);
                    },
                }
                match self.add_element_to(holder_key, layerdata) {
                    Ok(k) => k,
                    Err(e) => {
                        return Err(e);
                    },
                }
            },
        };
        let ghost mid = *self;
        proof {
            if annotationtype.layer() == Some(layertype) {
                if found is Some {
                    lemma_first_index(start.element_at(search_key as int)->0.data@,
                        is_layer_child(start, layertype, layer_dec_key(start, annotationtype, opt_view(*set))));
                }
                assert(mid.element_at(layer_key as int)->0.elementtype == layertype);
                if layer_placed(start, holder_key, search_key, annotationtype, layertype, opt_view(*set), element) {
                    if found is None {
                        assert(layer_key == start.elems().len());
                        assert(mid.declarationstore == start.declarationstore);
                        assert(mid.element_index() == start.element_index());
                        assert(mid.elems().len() <= start.elems().len() + 1);
                        assert(crate::document::encodes_ok(mid, element));
                        assert(wref_children(mid, element));
                        assert(span_fits(mid, layer_key, element));
                    } else {
                        assert(mid == start);
                    }
                    assert(accepts_type(element_properties(mid.element_at(layer_key as int)->0.elementtype), element.elementtype));
                }
            }
        }
        match self.check_element_addable(layer_key, &element) {
            Ok(()) => {},
            Err(e) => {
                return Err(e);
            },
        }
        let r = self.add_element_to(layer_key, element);
        proof {
            if annotationtype.layer() == Some(layertype) && found is None
                && layer_placed(start, holder_key, search_key, annotationtype, layertype, opt_view(*set), element) {
                assert(mid.models()[layer_key as int]->0.parent == Some(holder_key));
                assert(self.models()[layer_key as int]->0.parent == Some(holder_key));
            }
            assert(mid.models()[layer_key as int] is Some);
            assert(self.models()[layer_key as int]->0.elementtype == mid.models()[layer_key as int]->0.elementtype);
            lemma_grown_trans(old(self).models(), mid.models(), self.models());
            lemma_decls_grown_trans(old(self).decls(), mid.decls(), self.decls());
        }
        if found.is_none() && r.is_ok() {
            // a new layer refers to the declaration of what it holds, so that it is found again
            let id = Declaration::index_id(annotationtype, &setref);
            if let Some(dk) = self.get_declaration_key_by_id(id.as_str()) {
                let ghost m = self.models();
                let ghost d = *self;
                match self.elementstore.store.get_mut(layer_key as usize) {
                    Some(layer) => {
                        layer.push_attrib(Attribute::DeclarationRef(dk));
                    },
                    None => {},
                }
                proof {
                    if m[layer_key as int] is Some {
                        let e = m[layer_key as int]->0;
                        assert(self.models() =~= m.update(layer_key as int,
                            Some(ElementModel { attribs: e.attribs.push(Attribute::DeclarationRef(dk)), ..e })));
                    } else {
                        assert(self.models() =~= m);
                    }
                    assert(elems_grown(m, self.models()));
                    lemma_grown_trans(old(self).models(), m, self.models());
                    assert(self.models()[layer_key as int]->0.elementtype == m[layer_key as int]->0.elementtype);
                    assert(self.models()[layer_key as int]->0.parent == m[layer_key as int]->0.parent);
                    if let Ok(k) = r {
                        lemma_grown_keeps(d, *self, k as int);
                        assert(self.models()[k as int]->0.parent == m[k as int]->0.parent);
                        let l = m[k as int]->0.parent->0;
                        lemma_grown_keeps(d, *self, l as int);
                    }
                }
            }
        }
        r
    }

    ///This is a high-level function that adds an annotation to an element, and does all necessary
    ///validation. It will simply call `add_element_to` for token annotation elements that fit
    ///within the scope and validate. For span annotation, it will find or create the proper
    ///annotation layer and insert the element there: under the closest common structural ancestor
    ///of the spanned elements that may hold the layer when the parent is itself spanned (a word),
    ///under the parent when it is a structure element.
    #[verifier::loop_isolation(false)]
    #[verifier::rlimit(40)]
    pub fn annotate(&mut self, parent_key: ElementKey, element: ElementData) -> (r: Result<ElementKey, FoliaError>)
        requires
            old(self).wf(),
            encodable_tree(element),
            element.is_encodable() && element.elementtype == ElementType::Feature ==> element.decoded_ok(AttribType::SET),
        ensures
            final(self).wf(),
            final(self).same_but_content(old(self)),
            decls_grown(old(self).decls(), final(self).decls()),
            elems_grown(old(self).models(), final(self).models()),
            r matches Ok(k) ==> final(self).element_at(k as int) is Some
                && (final(self).element_at(k as int)->0.parent matches Some(l) && final(self).element_at(l as int) is Some),
            !ElementGroup::Span.has(element.elementtype) ==> (r matches Ok(k) ==>
                final(self).element_at(k as int)->0.parent == Some(parent_key)),
            old(self).element_at(parent_key as int) is None ==> (r matches Err(FoliaError::InternalError(m))
                && m@ == "Specified element key not found: "@ + crate::util::decimal_string(parent_key as nat))
                && *final(self) == *old(self),
            !ElementGroup::Span.has(element.elementtype) && old(self).element_at(parent_key as int) is Some
                && !accepts_type(element_properties(old(self).element_at(parent_key as int)->0.elementtype), element.elementtype)
                ==> *final(self) == *old(self) && (r matches Err(FoliaError::ValidationError(m))
                    && m@ == "Can't add element type "@ + element.elementtype.tag() + " to "@
                        + old(self).element_at(parent_key as int)->0.elementtype.tag()),
            !ElementGroup::Span.has(element.elementtype) && fits_fresh(*old(self), parent_key, element)
                ==> r == Ok::<ElementKey, FoliaError>(old(self).elems().len() as ElementKey),
            !ElementGroup::Span.has(element.elementtype) && fits_fresh(*old(self), parent_key, element)
                && element.parent != Some(parent_key)
                ==> final(self).element_at(parent_key as int)->0.data@
                    == old(self).element_at(parent_key as int)->0.data@.push(DataType::Element(old(self).elems().len() as ElementKey)),
            layered_span(element) && takes_layers(*old(self), parent_key) ==> (r matches Ok(k)
                ==> in_layer(*final(self), k, element)),
            word_span_placed(*old(self), parent_key, element) ==> {
                let a = element.elementtype.annotation()->0;
                let h = layer_holder(*old(self), span_keys(*old(self), element.data@), a.layer()->0)->0;
                let found = layer_child(*old(self), h, a.layer()->0, layer_dec_key(*old(self), a, span_set(*old(self), element)));
                &&& r is Ok
                &&& found matches Some(l) ==> (r matches Ok(k) ==> final(self).element_at(k as int)->0.parent == Some(l))
                &&& found is None ==> (r matches Ok(k)
                    ==> final(self).element_at(k as int)->0.parent == Some(old(self).elems().len() as ElementKey))
            },
            existing_layer(*old(self), parent_key, element) matches Some(l) ==> {
                &&& r matches Ok(k) ==> final(self).element_at(k as int)->0.parent == Some(l)
                &&& fits_fresh(*old(self), l, element) ==> r == Ok::<ElementKey, FoliaError>(old(self).elems().len() as ElementKey)
            },
            layered_span(element) && takes_layers(*old(self), parent_key) && no_span_set(*old(self), element)
                ==> *final(self) == *old(self) && (r matches Err(FoliaError::IncompleteError(m))
                    && m@ == "No set defined when adding span annotation and none could be inferred"@),
            structure_span_placed(*old(self), parent_key, element) ==> {
                &&& r is Ok
                &&& existing_layer(*old(self), parent_key, element) is None ==> (r matches Ok(k)
                    ==> final(self).element_at(k as int)->0.parent == Some(old(self).elems().len() as ElementKey)
                    && final(self).element_at(old(self).elems().len() as int)->0.parent == Some(parent_key))
            },
    {
        let parent_type = match self.get_elementdata(parent_key) {
            Some(p) => p.elementtype,
            None => {
                return Err(FoliaError::InternalError(concat_str("Specified element key not found: ",
                    decimal(parent_key as u64).as_str())));
            },
        };
        if !ElementGroup::Span.contains(element.elementtype) {
            match self.check_element_addable(parent_key, &element) {
                Ok(()) => {},
                Err(e) => {
                    return Err(e);
                },
            }
            return self.add_element_to(parent_key, element);
        }
        let annotationtype = match element.elementtype.annotationtype() {
            Some(a) => a,
            None => {
                return Err(FoliaError::InternalError("Span element without annotation type".to_owned()));
            },
        };
        let layertype = match annotationtype.layertype() {
            Some(t) => t,
            None => {
                return Err(FoliaError::InternalError(concat_str("No layer type found for specified span type ",
                    annotationtype.as_str())));
            },
        };
        let wrefable = self.props(parent_type).wrefable;
        let structural = ElementGroup::Structure.contains(parent_type);
        if !wrefable && !structural {
            match self.check_element_addable(parent_key, &element) {
                Ok(()) => {},
                Err(e) => {
                    return Err(e);
                },
            }
            return self.add_element_to(parent_key, element);
        }
        proof {
            lemma_first_index(element.attribs@, crate::element::decoded_scan(AttribType::SET));
        }
        let set: Option<String> = match element.set() {
            Ok(Some(s)) => Some(s.to_owned()),
            Ok(None) => match self.get_default_set(annotationtype) {
                Some(s) => Some(s.to_owned()),
                None => {
                    return Err(FoliaError::IncompleteError(
                        "No set defined when adding span annotation and none could be inferred".to_owned()));
                },
            },
            Err(e) => {
                return Err(e);
            },
        };
        if wrefable {
            let span_keys = self.get_span_keys(&element);
            if span_keys.len() == 0 {
                return Err(FoliaError::IncompleteError("Span is empty, can not be added from a wrefable parent".to_owned()));
            }
            let query = Query::select().elementgroup(Cmp::Is(ElementGroup::Structure));
            let selector = match Selector::from_query(self, &query) {
                Ok(s) => s,
                Err(e) => {
                    return Err(e);
                },
            };
            let common = self.common_ancestors(&selector, &span_keys);
            let ghost keys = span_keys@;
            let ghost hold = may_hold_layer(*self, layertype);
            proof {
                assert(query == structure_query());
                lemma_structure_ancestors(*self, keys[0], selector);
                assert(shared_by_rest(*self, keys) =~= (|a: ElementKey| forall|j: int| 0 < j < keys.len() ==>
                    ancestor_keys(*self, #[trigger] keys[j], walk_fuel(*self)).contains(a)));
                assert(common@ == common_structures(*self, keys));
                let s1 = ancestor_keys(*self, keys[0], walk_fuel(*self)).filter(structure_key(*self));
                broadcast use vstd::seq_lib::group_filter_ensures;
                assert forall|j: int| 0 <= j < common@.len() implies self.element_at(#[trigger] common@[j] as int) is Some by {
                    assert(common@.contains(common@[j]));
                    s1.lemma_filter_contains_rev(shared_by_rest(*self, keys), common@[j]);
                    let m = choose|m: int| 0 <= m < s1.len() && s1[m] == common@[j];
                    assert(structure_key(*self)(s1[m]));
                }
                if span_set(*self, element) is Some {
                    assert(opt_view(set) == span_set(*self, element));
                }
            }
            let mut i: usize = 0;
            while i < common.len()
                invariant
                    self.wf(),
                    *self == *old(self),
                    forall|j: int| 0 <= j < i ==> !hold(#[trigger] common@[j]),
                    forall|j: int| 0 <= j < common@.len() ==> self.element_at(#[trigger] common@[j] as int) is Some,
                    i <= common@.len(),
                    encodable_tree(element),
                    element.is_encodable() && element.elementtype == ElementType::Feature ==> element.decoded_ok(AttribType::SET),
                decreases common@.len() - i,
            {
                let ancestor_key = common[i];
                let suitable = match self.get_elementdata(ancestor_key) {
                    Some(a) => {
                        let props = self.props(a.elementtype);
                        accepts_child(&props.accepted_data, layertype) || has_layer_group(&props.accepted_data)
                    },
                    None => false,
                };
                proof {
                    assert(suitable == hold(ancestor_key));
                }
                if suitable {
                    proof {
                        lemma_first_index_at(common@, hold, i as int);
                    }
                    return self.add_to_layer(ancestor_key, ancestor_key, annotationtype, layertype, &set, element);
                }
                i += 1;
            }
            proof {
                lemma_first_index_at(common@, hold, common@.len() as int);
            }
            Err(FoliaError::IncompleteError("Unable to find suitable common ancestor to create annotation layer".to_owned()))
        } else {
            proof {
                if span_set(*self, element) is Some {
                    assert(opt_view(set) == span_set(*self, element));
                }
            }
            self.add_to_layer(parent_key, parent_key, annotationtype, layertype, &set, element)
        }
    }

    ///Adds a span annotation; where it goes is found from the elements it spans.
    pub fn annotate_span(&mut self, element: ElementData) -> (r: Result<ElementKey, FoliaError>)
        requires
            old(self).wf(),
            encodable_tree(element),
        ensures
            final(self).wf(),
            final(self).same_but_content(old(self)),
            decls_grown(old(self).decls(), final(self).decls()),
            elems_grown(old(self).models(), final(self).models()),
            r matches Ok(k) ==> final(self).element_at(k as int) is Some
                && (final(self).element_at(k as int)->0.parent matches Some(l) && final(self).element_at(l as int) is Some),
            !ElementGroup::Span.has(element.elementtype) ==> (r matches Err(FoliaError::TypeError(m))
                && m@ == "Element passed to annotate_span is not a span element"@),
            ElementGroup::Span.has(element.elementtype) && span_keys(*old(self), element.data@).len() == 0 ==>
                (r matches Err(FoliaError::IncompleteError(m))
                && m@ == "Span is empty, can not be added from a wrefable parent"@),
            ElementGroup::Span.has(element.elementtype) && span_keys(*old(self), element.data@).len() > 0
                && word_span_placed(*old(self), span_keys(*old(self), element.data@)[0], element) ==> r is Ok,
            ElementGroup::Span.has(element.elementtype) && span_keys(*old(self), element.data@).len() > 0
                && structure_span_placed(*old(self), span_keys(*old(self), element.data@)[0], element) ==> r is Ok,
            layered_span(element) && span_keys(*old(self), element.data@).len() > 0
                && takes_layers(*old(self), span_keys(*old(self), element.data@)[0]) ==> (r matches Ok(k)
                ==> in_layer(*final(self), k, element)),
            ElementGroup::Span.has(element.elementtype) && span_keys(*old(self), element.data@).len() > 0 ==>
                (existing_layer(*old(self), span_keys(*old(self), element.data@)[0], element) matches Some(l) ==> {
                &&& r matches Ok(k) ==> final(self).element_at(k as int)->0.parent == Some(l)
                &&& fits_fresh(*old(self), l, element) ==> r == Ok::<ElementKey, FoliaError>(old(self).elems().len() as ElementKey)
            }),
    {
        if !ElementGroup::Span.contains(element.elementtype) {
            return Err(FoliaError::TypeError("Element passed to annotate_span is not a span element".to_owned()));
        }
        let span_keys = self.get_span_keys(&element);
        if span_keys.len() == 0 {
            return Err(FoliaError::IncompleteError("Span is empty, can not be added from a wrefable parent".to_owned()));
        }
        proof {
            assert(!(element.elementtype == ElementType::Feature));
        }
        self.annotate(span_keys[0], element)
    }
}

/// Whether a list of accepted data admits layers (as a group).
fn has_layer_group(accepted: &Vec<AcceptedData>) -> (r: bool)
    ensures
        r == accepted@.contains(AcceptedData::AcceptElementGroup(ElementGroup::Layer)),
{
    let mut i: usize = 0;
    while i < accepted.len()
        invariant
            i <= accepted@.len(),
            forall|j: int| 0 <= j < i ==> accepted@[j] != AcceptedData::AcceptElementGroup(ElementGroup::Layer),
        decreases accepted@.len() - i,
    {
        if accepted[i] == AcceptedData::AcceptElementGroup(ElementGroup::Layer) {
            assert(accepted@[i as int] == AcceptedData::AcceptElementGroup(ElementGroup::Layer));
            return true;
        }
        i += 1;
    }
    false
}

} // verus!
