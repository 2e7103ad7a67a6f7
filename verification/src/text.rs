//! The text of elements: gathered from text containers, and from the
//! structure (and spans) below an element, joined by the delimiters that the
//! specification gives the element types.

use vstd::prelude::*;
use crate::common::DEFAULT_TEXT_SET;
use crate::types::{ElementKey, ElementType, ElementGroup, DataType, AnnotationType, DecKey, ClassKey};
use crate::attrib::{Attribute, AttribType};
use crate::error::FoliaError;
use crate::element::{Element, ElementData, first_index, lemma_first_index, is_idref};
use crate::document::Document;
use crate::specification::element_properties;
use crate::select::walk_fuel;
use crate::metadata::{declaration_id, opt_index};

verus! {

/// The delimiter that follows the text of an element: the delimiter of its type, unless its
/// type may carry a space attribute and the element has one that is false (which only counts
/// when tokenisation is not retained).
pub open spec fn delimiter_of(e: ElementData, retain: bool) -> Seq<char> {
    let p = element_properties(e.elementtype);
    match p.textdelimiter {
        None => Seq::empty(),
        Some(d) => if p.optional_attribs.contains(AttribType::SPACE) {
            let space = retain || match e.attrib_of(AttribType::SPACE) {
                Some(Attribute::Space(b)) => b,
                _ => true,
            };
            if space { d } else { Seq::empty() }
        } else {
            d
        },
    }
}

/// The element that a word reference refers to (by its first ID reference), if it exists.
pub open spec fn resolved(doc: Document, e: ElementData) -> Option<ElementKey> {
    let i = first_index(e.attribs@, is_idref());
    if i < e.attribs@.len() && doc.element_index().contains_key(e.attribs@[i]->Idref_0@) {
        Some(doc.element_index()[e.attribs@[i]->Idref_0@] as ElementKey)
    } else {
        None
    }
}

/// Whether the text of an element of the type is gathered into the text of its parent.
pub open spec fn gathers(t: ElementType) -> bool {
    ElementGroup::Structure.has(t) || t == ElementType::Correction || ElementGroup::Span.has(t)
}

/// The text of an element, if it has text; at most `fuel` levels of elements below it are read.
pub open spec fn text_of(doc: Document, key: ElementKey, retain: bool, fuel: nat) -> Option<Seq<char>>
    decreases fuel, 1nat, 0nat,
{
    match doc.element_at(key as int) {
        None => None,
        Some(e) => {
            let p = element_properties(e.elementtype);
            if p.textcontainer {
                container_text(doc, e.data@, 0, Seq::empty(), retain, fuel)
            } else if !p.printable || p.hidden {
                None
            } else {
                let (t, tc) = structure_text(doc, e.data@, 0, Seq::empty(), Seq::empty(), None, retain, fuel);
                let t2 = if t.len() == 0 && tc is Some && fuel > 0 {
                    match text_of(doc, tc->0, retain, (fuel - 1) as nat) {
                        Some(x) => x,
                        None => t,
                    }
                } else {
                    t
                };
                if t2.len() > 0 { Some(t2) } else { None }
            }
        },
    }
}

/// The text of a text container from position `i` on, after the text `acc` gathered so far.
pub open spec fn container_text(doc: Document, data: Seq<DataType>, i: int, acc: Seq<char>, retain: bool, fuel: nat)
    -> Option<Seq<char>>
    decreases fuel, 0nat, data.len() - i,
{
    if i < 0 || i >= data.len() {
        Some(acc)
    } else {
        match data[i] {
            DataType::Text(s) => container_text(doc, data, i + 1, acc + s@, retain, fuel),
            DataType::Element(k) => match doc.element_at(k as int) {
                Some(c) => {
                    let p = element_properties(c.elementtype);
                    if p.printable {
                        let acc1 = if acc.len() > 0 && p.textdelimiter is Some { acc + p.textdelimiter->0 } else { acc };
                        if fuel == 0 {
                            None
                        } else {
                            match text_of(doc, k, retain, (fuel - 1) as nat) {
                                Some(t) => container_text(doc, data, i + 1, acc1 + t, retain, fuel),
                                None => None,
                            }
                        }
                    } else {
                        container_text(doc, data, i + 1, acc, retain, fuel)
                    }
                },
                None => container_text(doc, data, i + 1, acc, retain, fuel),
            },
            _ => container_text(doc, data, i + 1, acc, retain, fuel),
        }
    }
}

/// The text gathered from the structure below an element from position `i` on: the text so
/// far, the delimiter that is due before the next part, and the text content element met so far.
/// A word reference stands for the element it refers to.
pub open spec fn structure_text(doc: Document, data: Seq<DataType>, i: int, text: Seq<char>, delim: Seq<char>,
    tc: Option<ElementKey>, retain: bool, fuel: nat) -> (Seq<char>, Option<ElementKey>)
    decreases fuel, 0nat, data.len() - i,
{
    if i < 0 || i >= data.len() {
        (text, tc)
    } else {
        let target = match data[i] {
            DataType::Element(k) => match doc.element_at(k as int) {
                Some(c) => if c.elementtype == ElementType::WordReference { resolved(doc, c) } else { Some(k) },
                None => None,
            },
            _ => None,
        };
        match target {
            Some(t) => match doc.element_at(t as int) {
                Some(c) => if gathers(c.elementtype) {
                    let part = if fuel > 0 { text_of(doc, t, retain, (fuel - 1) as nat) } else { None };
                    match part {
                        Some(x) => structure_text(doc, data, i + 1, text + delim + x, delimiter_of(c, retain), tc, retain, fuel),
                        None => structure_text(doc, data, i + 1, text, delim, tc, retain, fuel),
                    }
                } else if c.elementtype == ElementType::TextContent {
                    structure_text(doc, data, i + 1, text, delim, Some(t), retain, fuel)
                } else {
                    structure_text(doc, data, i + 1, text, delim, tc, retain, fuel)
                },
                None => structure_text(doc, data, i + 1, text, delim, tc, retain, fuel),
            },
            None => structure_text(doc, data, i + 1, text, delim, tc, retain, fuel),
        }
    }
}

/// The delimiter that the specification gives an element type (none where it gives none).
pub open spec fn type_delimiter(t: ElementType) -> Seq<char> {
    match element_properties(t).textdelimiter {
        Some(d) => d,
        None => Seq::empty(),
    }
}

/// The text of an element (neither a text container nor hidden) that holds two structure
/// elements with text, such as a paragraph of two sentences, is the text of the first, the
/// delimiter of the first one's type (" " after a sentence, a blank line after a paragraph),
/// and the text of the second; only a space attribute on the first that says no (where
/// tokenisation is not retained) can drop the delimiter.
pub proof fn lemma_text_joins_structure(doc: Document, key: ElementKey, k1: ElementKey, k2: ElementKey, retain: bool,
    fuel: nat)
    requires
        fuel > 0,
        doc.element_at(key as int) is Some,
        doc.element_at(key as int)->0.data@ == seq![DataType::Element(k1), DataType::Element(k2)],
        !element_properties(doc.element_at(key as int)->0.elementtype).textcontainer,
        element_properties(doc.element_at(key as int)->0.elementtype).printable,
        !element_properties(doc.element_at(key as int)->0.elementtype).hidden,
        doc.element_at(k1 as int) is Some,
        ElementGroup::Structure.has(doc.element_at(k1 as int)->0.elementtype),
        doc.element_at(k1 as int)->0.elementtype != ElementType::WordReference,
        doc.element_at(k2 as int) is Some,
        ElementGroup::Structure.has(doc.element_at(k2 as int)->0.elementtype),
        doc.element_at(k2 as int)->0.elementtype != ElementType::WordReference,
        text_of(doc, k1, retain, (fuel - 1) as nat) matches Some(x) && x.len() > 0,
        text_of(doc, k2, retain, (fuel - 1) as nat) is Some,
        retain || doc.element_at(k1 as int)->0.attrib_of(AttribType::SPACE) != Some(Attribute::Space(false)),
    ensures
        text_of(doc, key, retain, fuel) == Some(text_of(doc, k1, retain, (fuel - 1) as nat)->0
            + type_delimiter(doc.element_at(k1 as int)->0.elementtype) + text_of(doc, k2, retain, (fuel - 1) as nat)->0),
{
    let e = doc.element_at(key as int)->0;
    let c1 = doc.element_at(k1 as int)->0;
    let c2 = doc.element_at(k2 as int)->0;
    let x1 = text_of(doc, k1, retain, (fuel - 1) as nat)->0;
    let x2 = text_of(doc, k2, retain, (fuel - 1) as nat)->0;
    let data = e.data@;
    assert(data[0] == DataType::Element(k1));
    assert(data[1] == DataType::Element(k2));
    assert(gathers(c1.elementtype));
    assert(gathers(c2.elementtype));
    assert(delimiter_of(c1, retain) == type_delimiter(c1.elementtype)) by {
        if !retain {
            match c1.attrib_of(AttribType::SPACE) {
                Some(Attribute::Space(b)) => {
                    assert(b);
                },
                _ => {},
            }
        }
    }
    let s2 = structure_text(doc, data, 2, x1 + type_delimiter(c1.elementtype) + x2, delimiter_of(c2, retain), None, retain, fuel);
    assert(s2 == (x1 + type_delimiter(c1.elementtype) + x2, None::<ElementKey>));
    assert(Seq::<char>::empty() + Seq::<char>::empty() + x1 =~= x1);
    assert(structure_text(doc, data, 1, x1, delimiter_of(c1, retain), None, retain, fuel) == s2);
    assert(structure_text(doc, data, 0, Seq::empty(), Seq::empty(), None, retain, fuel) == s2);
    assert((x1 + type_delimiter(c1.elementtype) + x2).len() > 0);
}

/// The texts of the elements with the given keys, each followed by the delimiter of its type
/// but the last: text(c1) + delimiter(c1) + text(c2) + ... + text(cn).
pub open spec fn joined_texts(doc: Document, keys: Seq<ElementKey>, retain: bool, fuel: nat) -> Seq<char>
    decreases keys.len(),
{
    if keys.len() == 0 {
        Seq::empty()
    } else if keys.len() == 1 {
        text_of(doc, keys[0], retain, fuel)->0
    } else {
        joined_texts(doc, keys.drop_last(), retain, fuel)
            + type_delimiter(doc.element_at(keys[keys.len() - 2] as int)->0.elementtype)
            + text_of(doc, keys.last(), retain, fuel)->0
    }
}

/// Children whose text is gathered into the text of their parent: structure elements (no word
/// references) with text, none but the last of which has a space attribute that says no
/// (where tokenisation is not retained).
pub open spec fn text_children(doc: Document, keys: Seq<ElementKey>, retain: bool, fuel: nat) -> bool {
    forall|i: int| 0 <= i < keys.len() ==> {
        let c = doc.element_at(#[trigger] keys[i] as int);
        &&& c is Some
        &&& ElementGroup::Structure.has(c->0.elementtype)
        &&& c->0.elementtype != ElementType::WordReference
        &&& text_of(doc, keys[i], retain, fuel) matches Some(x) && x.len() > 0
        &&& i < keys.len() - 1 && !retain ==> c->0.attrib_of(AttribType::SPACE) != Some(Attribute::Space(false))
    }
}

/// The text of an element (neither a text container nor hidden) whose data are structure
/// elements with text, such as a paragraph of sentences or a sentence of words, is their texts
/// joined, each followed by the delimiter that the specification gives its type (" " after a
/// sentence, a blank line after a paragraph) but the last.
pub proof fn lemma_text_joins_children(doc: Document, key: ElementKey, keys: Seq<ElementKey>, retain: bool, fuel: nat)
    requires
        fuel > 0,
        keys.len() > 0,
        doc.element_at(key as int) is Some,
        doc.element_at(key as int)->0.data@.len() == keys.len(),
        forall|i: int| 0 <= i < keys.len() ==> doc.element_at(key as int)->0.data@[i] == DataType::Element(#[trigger] keys[i]),
        !element_properties(doc.element_at(key as int)->0.elementtype).textcontainer,
        element_properties(doc.element_at(key as int)->0.elementtype).printable,
        !element_properties(doc.element_at(key as int)->0.elementtype).hidden,
        text_children(doc, keys, retain, (fuel - 1) as nat),
    ensures
        text_of(doc, key, retain, fuel) == Some(joined_texts(doc, keys, retain, (fuel - 1) as nat)),
{
    let data = doc.element_at(key as int)->0.data@;
    lemma_joined_from(doc, data, keys, retain, fuel, 0);
    assert(keys.take(0) =~= Seq::<ElementKey>::empty());
    assert(joined_texts(doc, keys, retain, (fuel - 1) as nat).len() > 0) by {
        lemma_joined_nonempty(doc, keys, retain, (fuel - 1) as nat);
    }
}

/// The joined texts of children with text are not empty.
proof fn lemma_joined_nonempty(doc: Document, keys: Seq<ElementKey>, retain: bool, fuel: nat)
    requires
        keys.len() > 0,
        text_children(doc, keys, retain, fuel),
    ensures
        joined_texts(doc, keys, retain, fuel).len() > 0,
    decreases keys.len(),
{
    let n = keys.len() as int;
    assert(text_of(doc, keys[n - 1], retain, fuel) is Some);
}

/// Gathering the text of the data from position `i` on, after the children before `i` were
/// gathered, gives the joined texts of all children.
proof fn lemma_joined_from(doc: Document, data: Seq<DataType>, keys: Seq<ElementKey>, retain: bool, fuel: nat, i: int)
    requires
        fuel > 0,
        0 <= i <= keys.len(),
        data.len() == keys.len(),
        forall|j: int| 0 <= j < keys.len() ==> data[j] == DataType::Element(#[trigger] keys[j]),
        text_children(doc, keys, retain, (fuel - 1) as nat),
    ensures
        structure_text(doc, data, i, joined_texts(doc, keys.take(i), retain, (fuel - 1) as nat),
            if i == 0 { Seq::<char>::empty() } else { delimiter_of(doc.element_at(keys[i - 1] as int)->0, retain) },
            None, retain, fuel) == (joined_texts(doc, keys, retain, (fuel - 1) as nat), None::<ElementKey>),
    decreases keys.len() - i,
{
    let f = (fuel - 1) as nat;
    let n = keys.len() as int;
    if i == n {
        assert(keys.take(n) =~= keys);
    } else {
        let c = doc.element_at(keys[i] as int)->0;
        assert(data[i] == DataType::Element(keys[i]));
        assert(gathers(c.elementtype));
        let x = text_of(doc, keys[i], retain, f)->0;
        let j0 = joined_texts(doc, keys.take(i), retain, f);
        let d0 = if i == 0 { Seq::<char>::empty() } else { delimiter_of(doc.element_at(keys[i - 1] as int)->0, retain) };
        assert(structure_text(doc, data, i, j0, d0, None, retain, fuel)
            == structure_text(doc, data, i + 1, j0 + d0 + x, delimiter_of(c, retain), None, retain, fuel));
        if i == 0 {
            assert(keys.take(1) =~= seq![keys[0]]);
            assert(j0 =~= Seq::<char>::empty());
            assert(j0 + d0 + x =~= x);
            assert(joined_texts(doc, keys.take(1), retain, f) == x);
        } else {
            let p = doc.element_at(keys[i - 1] as int)->0;
            assert(delimiter_of(p, retain) == type_delimiter(p.elementtype)) by {
                if !retain {
                    match p.attrib_of(AttribType::SPACE) {
                        Some(Attribute::Space(b)) => {
                            assert(b);
                        },
                        _ => {},
                    }
                }
            }
            assert(keys.take(i + 1).drop_last() =~= keys.take(i));
            assert(keys.take(i + 1)[i - 1] == keys[i - 1]);
            assert(keys.take(i + 1).last() == keys[i]);
            assert(joined_texts(doc, keys.take(i + 1), retain, f) == j0 + d0 + x);
        }
        lemma_joined_from(doc, data, keys, retain, fuel, i + 1);
    }
}

/// The strings of the texts in a list of data items, one after the other.
pub open spec fn texts_concat(data: Seq<DataType>) -> Seq<char>
    decreases data.len(),
{
    if data.len() == 0 {
        Seq::empty()
    } else {
        texts_concat(data.drop_last()) + match data.last() {
            DataType::Text(s) => s@,
            _ => Seq::empty(),
        }
    }
}

/// The text of a text container (such as ``t``) that holds only texts is those texts, one after
/// the other, with nothing between them.
pub proof fn lemma_container_text(doc: Document, key: ElementKey, retain: bool, fuel: nat)
    requires
        doc.element_at(key as int) is Some,
        element_properties(doc.element_at(key as int)->0.elementtype).textcontainer,
        forall|i: int| 0 <= i < doc.element_at(key as int)->0.data@.len()
            ==> #[trigger] doc.element_at(key as int)->0.data@[i] is Text,
    ensures
        text_of(doc, key, retain, fuel) == Some(texts_concat(doc.element_at(key as int)->0.data@)),
{
    let data = doc.element_at(key as int)->0.data@;
    lemma_container_from(doc, data, retain, fuel, 0);
    assert(data.take(0) =~= Seq::<DataType>::empty());
}

/// Reading the texts of a container from position `i` on, after those before `i`, gives all
/// its texts.
proof fn lemma_container_from(doc: Document, data: Seq<DataType>, retain: bool, fuel: nat, i: int)
    requires
        0 <= i <= data.len(),
        forall|j: int| 0 <= j < data.len() ==> #[trigger] data[j] is Text,
    ensures
        container_text(doc, data, i, texts_concat(data.take(i)), retain, fuel) == Some(texts_concat(data)),
    decreases data.len() - i,
{
    if i == data.len() {
        assert(data.take(i) =~= data);
    } else {
        assert(data[i] is Text);
        assert(data.take(i + 1).drop_last() =~= data.take(i));
        assert(data.take(i + 1).last() == data[i]);
        lemma_container_from(doc, data, retain, fuel, i + 1);
    }
}

/// Whether a list of attribute types holds the space attribute.
fn has_space_attrib(types: &Vec<AttribType>) -> (r: bool)
    ensures
        r == types@.contains(AttribType::SPACE),
{
    let mut i: usize = 0;
    while i < types.len()
        invariant
            i <= types@.len(),
            forall|j: int| 0 <= j < i ==> types@[j] != AttribType::SPACE,
        decreases types@.len() - i,
    {
        if types[i] == AttribType::SPACE {
            assert(types@[i as int] == AttribType::SPACE);
            return true;
        }
        i += 1;
    }
    false
}

/// The delimiter that follows the text of an element.
fn delimiter(doc: &Document, e: &ElementData, retain: bool) -> (r: &'static str)
    requires
        doc.wf(),
    ensures
        r@ == delimiter_of(*e, retain),
{
    proof {
        reveal_strlit("");
    }
    let p = doc.props(e.elementtype);
    match p.textdelimiter {
        None => {
            assert(p@.textdelimiter is None);
            ""
        },
        Some(d) => {
            if has_space_attrib(&p.optional_attribs) {
                let space = retain || match e.attrib(AttribType::SPACE) {
                    Some(Attribute::Space(b)) => *b,
                    _ => true,
                };
                if space {
                    d
                } else {
                    ""
                }
            } else {
                d
            }
        },
    }
}

/// The element that a word reference refers to.
fn resolve_key(doc: &Document, e: &ElementData) -> (r: Option<ElementKey>)
    requires
        doc.wf(),
    ensures
        r == resolved(*doc, *e),
{
    proof {
        lemma_first_index(e.attribs@, is_idref());
    }
    match e.idref() {
        Some(id) => doc.get_element_key_by_id(id),
        None => None,
    }
}

/// The view of an optional string.
pub open spec fn opt_string(s: Option<String>) -> Option<Seq<char>> {
    match s {
        Some(x) => Some(x@),
        None => None,
    }
}

/// The text of an element (see ``text_of``).
fn text_rec(doc: &Document, key: ElementKey, retain: bool, fuel: usize) -> (r: Option<String>)
    requires
        doc.wf(),
    ensures
        opt_string(r) == text_of(*doc, key, retain, fuel as nat),
    decreases fuel, 1nat,
{
    match doc.get_elementdata(key) {
        None => None,
        Some(e) => {
            let p = doc.props(e.elementtype);
            if p.textcontainer {
                container_rec(doc, e, retain, fuel)
            } else if !p.printable || p.hidden {
                None
            } else {
                let (t, tc) = structure_rec(doc, e, retain, fuel);
                let t2 = if t.as_str().is_empty() && tc.is_some() && fuel > 0 {
                    match text_rec(doc, tc.unwrap(), retain, fuel - 1) {
                        Some(x) => x,
                        None => t,
                    }
                } else {
                    t
                };
                if !t2.as_str().is_empty() {
                    Some(t2)
                } else {
                    None
                }
            }
        },
    }
}

/// The text of a text container.
fn container_rec(doc: &Document, e: &ElementData, retain: bool, fuel: usize) -> (r: Option<String>)
    requires
        doc.wf(),
    ensures
        opt_string(r) == container_text(*doc, e.data@, 0, Seq::empty(), retain, fuel as nat),
    decreases fuel, 0nat,
{
    let mut acc = String::new();
    let mut i: usize = 0;
    while i < e.data.len()
        invariant
            doc.wf(),
            i <= e.data@.len(),
            container_text(*doc, e.data@, 0, Seq::empty(), retain, fuel as nat)
                == container_text(*doc, e.data@, i as int, acc@, retain, fuel as nat),
        decreases e.data@.len() - i,
    {
        match &e.data[i] {
            DataType::Text(s) => {
                acc.append(s.as_str());
            },
            DataType::Element(k) => {
                match doc.get_elementdata(*k) {
                    Some(c) => {
                        let p = doc.props(c.elementtype);
                        if p.printable {
                            if !acc.as_str().is_empty() {
                                match p.textdelimiter {
                                    Some(d) => {
                                        acc.append(d);
                                    },
                                    None => {},
                                }
                            }
                            if fuel == 0 {
                                return None;
                            }
                            match text_rec(doc, *k, retain, fuel - 1) {
                                Some(t) => {
                                    acc.append(t.as_str());
                                },
                                None => {
                                    return None;
                                },
                            }
                        }
                    },
                    None => {},
                }
            },
            _ => {},
        }
        i += 1;
    }
    Some(acc)
}

/// The text gathered from the structure below an element, and the text content element met.
fn structure_rec(doc: &Document, e: &ElementData, retain: bool, fuel: usize) -> (r: (String, Option<ElementKey>))
    requires
        doc.wf(),
    ensures
        (r.0@, r.1) == structure_text(*doc, e.data@, 0, Seq::empty(), Seq::empty(), None, retain, fuel as nat),
    decreases fuel, 0nat,
{
    let mut text = String::new();
    let mut delim: &str = "";
    let mut tc: Option<ElementKey> = None;
    let mut i: usize = 0;
    proof {
        reveal_strlit("");
        assert(delim@ =~= Seq::<char>::empty());
        assert(text@ =~= Seq::<char>::empty());
    }
    while i < e.data.len()
        invariant
            doc.wf(),
            i <= e.data@.len(),
            structure_text(*doc, e.data@, 0, Seq::empty(), Seq::empty(), None, retain, fuel as nat)
                == structure_text(*doc, e.data@, i as int, text@, delim@, tc, retain, fuel as nat),
        decreases e.data@.len() - i,
    {
        let target = match &e.data[i] {
            DataType::Element(k) => match doc.get_elementdata(*k) {
                Some(c) => {
                    if c.elementtype == ElementType::WordReference {
                        resolve_key(doc, c)
                    } else {
                        Some(*k)
                    }
                },
                None => None,
            },
            _ => None,
        };
        match target {
            Some(t) => match doc.get_elementdata(t) {
                Some(c) => {
                    let gathered = ElementGroup::Structure.contains(c.elementtype) || c.elementtype == ElementType::Correction
                        || ElementGroup::Span.contains(c.elementtype);
                    if gathered {
                        let part = if fuel > 0 {
                            text_rec(doc, t, retain, fuel - 1)
                        } else {
                            None
                        };
                        match part {
                            Some(x) => {
                                text.append(delim);
                                text.append(x.as_str());
                                delim = delimiter(doc, c, retain);
                            },
                            None => {},
                        }
                    } else if c.elementtype == ElementType::TextContent {
                        tc = Some(t);
                    }
                },
                None => {},
            },
            None => {},
        }
        i += 1;
    }
    (text, tc)
}

/// What asking for the text of an element gives: the text set and class must be declared
/// (by default the default text set and the class "current"), then the element's text, if any.
pub open spec fn text_result(doc: Document, key: ElementKey, set: Option<&str>, textclass: Option<&str>, retain: bool,
    r: Result<String, FoliaError>) -> bool {
    let set_v = match set { Some(s) => s@, None => DEFAULT_TEXT_SET@ };
    let class_v = match textclass { Some(c) => c@, None => "current"@ };
    let id = declaration_id(AnnotationType::TEXT, Some(set_v));
    if !doc.declaration_index().contains_key(id) {
        r matches Err(FoliaError::EncodeError(m)) && m@ == "No declaration for the specified text set/class"@
    } else {
        let d = doc.declaration_at(doc.declaration_index()[id] as int)->0;
        if !opt_index(d.classes).contains_key(class_v) {
            r matches Err(FoliaError::KeyError(m)) && m@ == "[class_key()] No such class ("@ + class_v + ") for the given declaration"@
        } else {
            match text_of(doc, key, retain, walk_fuel(doc)) {
                Some(t) => r matches Ok(x) && x@ == t,
                None => r matches Err(FoliaError::NoTextError(m)) && m@ == "No such text"@,
            }
        }
    }
}

impl<'a> Element<'a> {
    ///Returns the text content of the element: from its text container, or gathered from the
    ///structure (or spanned words) below it. ``set`` and ``textclass`` default to the default text
    ///set and the class "current"; they must be declared. With ``retaintokenisation``, tokens are
    ///always delimited (a space attribute that is false is ignored).
    pub fn text(&self, set: Option<&str>, textclass: Option<&str>, strict: bool, retaintokenisation: bool) -> (r: Result<String, FoliaError>)
        requires
            self.wf(),
        ensures
            text_result(*self.document, self.key, set, textclass, retaintokenisation, r),
    {
        self.document.text(self.key, set, textclass, strict, retaintokenisation)
    }

    ///Returns the text content of the element, for a text set and class given by name (they
    ///default to the default text set and the class "current"); the same as ``text``
    pub fn text_encode(&self, set: Option<&str>, textclass: Option<&str>, strict: bool, retaintokenisation: bool) -> (r: Result<String, FoliaError>)
        requires
            self.wf(),
        ensures
            text_result(*self.document, self.key, set, textclass, retaintokenisation, r),
    {
        self.text(set, textclass, strict, retaintokenisation)
    }

    ///Returns the text delimiter that follows this element's text
    pub fn get_textdelimiter(&self, retaintokenisation: bool) -> (r: Result<&'static str, FoliaError>)
        requires
            self.wf(),
        ensures
            r matches Ok(d) && d@ == delimiter_of(*self.data, retaintokenisation),
    {
        Ok(delimiter(self.document, self.data, retaintokenisation))
    }
}

impl Document {
    ///Returns the text of the element with the given key, for a text set and class given by name
    ///(the same as ``text``)
    pub fn text_encode(&self, element_key: ElementKey, set: Option<&str>, textclass: Option<&str>, strict: bool,
        retaintokenisation: bool) -> (r: Result<String, FoliaError>)
        requires
            self.wf(),
        ensures
            self.element_at(element_key as int) is None ==> (r matches Err(FoliaError::KeyError(m))
                && m@ == "No such element key: "@ + crate::util::decimal_string(element_key as nat)),
            self.element_at(element_key as int) is Some ==> text_result(*self, element_key, set, textclass,
                retaintokenisation, r),
    {
        self.text(element_key, set, textclass, strict, retaintokenisation)
    }

    ///Returns the text of the element with the given key (see ``Element::text``)
    pub fn text(&self, element_key: ElementKey, set: Option<&str>, textclass: Option<&str>, strict: bool,
        retaintokenisation: bool) -> (r: Result<String, FoliaError>)
        requires
            self.wf(),
        ensures
            self.element_at(element_key as int) is None ==> (r matches Err(FoliaError::KeyError(m))
                && m@ == "No such element key: "@ + crate::util::decimal_string(element_key as nat)),
            self.element_at(element_key as int) is Some ==> text_result(*self, element_key, set, textclass,
                retaintokenisation, r),
    {
        if self.get_elementdata(element_key).is_none() {
            return Err(FoliaError::KeyError(crate::util::concat_str("No such element key: ",
                crate::util::decimal(element_key as u64).as_str())));
        }
        let set_v: &str = match set {
            Some(s) => s,
            None => DEFAULT_TEXT_SET,
        };
        let class_v: &str = match textclass {
            Some(c) => c,
            None => "current",
        };
        let id = crate::metadata::Declaration::index_id(AnnotationType::TEXT, &Some(set_v));
        let dec_key = match self.get_declaration_key_by_id(id.as_str()) {
            Some(k) => k,
            None => {
                return Err(FoliaError::EncodeError("No declaration for the specified text set/class".to_owned()));
            },
        };
        match self.class_key(dec_key, class_v) {
            Ok(_) => {},
            Err(e) => {
                return Err(e);
            },
        }
        let n = self.elementstore.store.len();
        let fuel: usize = if n < usize::MAX - 1 { n } else { usize::MAX - 2 };
        match text_rec(self, element_key, retaintokenisation, fuel) {
            Some(t) => Ok(t),
            None => Err(FoliaError::NoTextError("No such text".to_owned())),
        }
    }
}

} // verus!
