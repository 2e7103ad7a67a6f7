//! Serialisation of documents and elements to FoLiA XML.

use vstd::prelude::*;
use vstd::string::{StrSliceExecFns, StringExecFns, StringSliceAdditionalSpecFns};
use crate::types::{ElementKey, ProcKey, DataType};
use crate::attrib::Attribute;
use crate::error::FoliaError;
use crate::element::{Element, ElementData, set_of, class_of, subset_of, processor_of, opt_str_of};
use crate::document::Document;
use crate::metadata::{count_of_type, Declaration, Processor, opt_view};
use crate::util::{concat_str, decimal, decimal_string};
use crate::common::{NSFOLIA, NSXLINK, FOLIAVERSION, GENERATOR};

verus! {

/// How a character is written in XML text or an attribute value.
pub open spec fn escape_char(c: char) -> Seq<char> {
    if c == '<' {
        "&lt;"@
    } else if c == '>' {
        "&gt;"@
    } else if c == '\'' {
        "&apos;"@
    } else if c == '&' {
        "&amp;"@
    } else if c == '"' {
        "&quot;"@
    } else {
        seq![c]
    }
}

/// A text as written in XML: each special character replaced by its entity.
pub open spec fn escape(s: Seq<char>) -> Seq<char>
    decreases s.len(),
{
    if s.len() == 0 {
        Seq::empty()
    } else {
        escape(s.drop_last()) + escape_char(s.last())
    }
}

/// Appends a text to the output, escaped.
pub fn append_escaped(out: &mut String, text: &str)
    ensures
        final(out)@ == old(out)@ + escape(text@),
{
    let escaped = crate::xml::escaped_text(text);
    out.append(escaped.as_str());
}

/// Attributes as written in a tag: a space, the name, ``="``, the escaped value and ``"`` each.
pub open spec fn attrs_text(attrs: Seq<(Seq<char>, Seq<char>)>) -> Seq<char>
    decreases attrs.len(),
{
    if attrs.len() == 0 {
        Seq::empty()
    } else {
        attrs_text(attrs.drop_last()) + " "@ + attrs.last().0 + "=\""@ + escape(attrs.last().1) + "\""@
    }
}

/// A start tag.
pub open spec fn start_text(name: Seq<char>, attrs: Seq<(Seq<char>, Seq<char>)>) -> Seq<char> {
    "<"@ + name + attrs_text(attrs) + ">"@
}

/// An empty tag.
pub open spec fn empty_text(name: Seq<char>, attrs: Seq<(Seq<char>, Seq<char>)>) -> Seq<char> {
    "<"@ + name + attrs_text(attrs) + "/>"@
}

/// An end tag.
pub open spec fn end_text(name: Seq<char>) -> Seq<char> {
    "</"@ + name + ">"@
}

/// The names and values of attributes, as texts.
pub open spec fn attrs_view(attrs: Seq<(String, String)>) -> Seq<(Seq<char>, Seq<char>)> {
    attrs.map_values(|a: (String, String)| (a.0@, a.1@))
}

/// Appends a tag's attributes to the output.
fn append_attrs(out: &mut String, attrs: &Vec<(String, String)>)
    ensures
        final(out)@ == old(out)@ + attrs_text(attrs_view(attrs@)),
{
    let mut i: usize = 0;
    proof {
        assert(attrs_view(attrs@.take(0)) =~= Seq::<(Seq<char>, Seq<char>)>::empty());
    }
    while i < attrs.len()
        invariant
            i <= attrs@.len(),
            out@ == old(out)@ + attrs_text(attrs_view(attrs@.take(i as int))),
        decreases attrs@.len() - i,
    {
        out.append(" ");
        out.append(attrs[i].0.as_str());
        out.append("=\"");
        append_escaped(out, attrs[i].1.as_str());
        out.append("\"");
        proof {
            let v = attrs_view(attrs@.take(i + 1));
            assert(v.drop_last() =~= attrs_view(attrs@.take(i as int)));
            assert(v.last() == (attrs@[i as int].0@, attrs@[i as int].1@));
            assert(out@ =~= old(out)@ + attrs_text(v));
        }
        i += 1;
    }
    proof {
        assert(attrs@.take(attrs@.len() as int) =~= attrs@);
    }
}

/// Appends a start tag to the output.
pub fn append_start(out: &mut String, name: &str, attrs: &Vec<(String, String)>)
    ensures
        final(out)@ == old(out)@ + start_text(name@, attrs_view(attrs@)),
{
    out.append("<");
    out.append(name);
    append_attrs(out, attrs);
    out.append(">");
    proof {
        assert(out@ =~= old(out)@ + start_text(name@, attrs_view(attrs@)));
    }
}

/// Appends an empty tag to the output.
pub fn append_empty(out: &mut String, name: &str, attrs: &Vec<(String, String)>)
    ensures
        final(out)@ == old(out)@ + empty_text(name@, attrs_view(attrs@)),
{
    out.append("<");
    out.append(name);
    append_attrs(out, attrs);
    out.append("/>");
    proof {
        assert(out@ =~= old(out)@ + empty_text(name@, attrs_view(attrs@)));
    }
}

/// Appends an end tag to the output.
pub fn append_end(out: &mut String, name: &str)
    ensures
        final(out)@ == old(out)@ + end_text(name@),
{
    out.append("</");
    out.append(name);
    out.append(">");
    proof {
        assert(out@ =~= old(out)@ + end_text(name@));
    }
}

/// The attributes of an element that are written as they are, by name and text, in order: those
/// that have a text (not the references to declarations, classes, subsets and processors, which
/// are written decoded, nor the ignored ones).
pub open spec fn plain_attrs(attribs: Seq<Attribute>) -> Seq<(Seq<char>, Seq<char>)>
    decreases attribs.len(),
{
    if attribs.len() == 0 {
        Seq::empty()
    } else {
        let rest = plain_attrs(attribs.drop_last());
        match attribs.last().text_value() {
            Some(v) => rest.push((attribs.last().atype().name(), v)),
            None => rest,
        }
    }
}

/// The text of two lists of attributes, one after the other, is the text of the first followed
/// by that of the second.
pub proof fn lemma_attrs_text_concat(a: Seq<(Seq<char>, Seq<char>)>, b: Seq<(Seq<char>, Seq<char>)>)
    ensures
        attrs_text(a + b) == attrs_text(a) + attrs_text(b),
    decreases b.len(),
{
    if b.len() == 0 {
        assert(a + b =~= a);
        assert(attrs_text(b) =~= Seq::<char>::empty());
        assert(attrs_text(a) + attrs_text(b) =~= attrs_text(a));
    } else {
        lemma_attrs_text_concat(a, b.drop_last());
        assert((a + b).drop_last() =~= a + b.drop_last());
        assert((a + b).last() == b.last());
        assert(attrs_text(a + b) =~= attrs_text(a) + attrs_text(b));
    }
}

/// The written attributes of two lists of attributes, one after the other, are those of the
/// first followed by those of the second.
pub proof fn lemma_plain_attrs_concat(a: Seq<Attribute>, b: Seq<Attribute>)
    ensures
        plain_attrs(a + b) == plain_attrs(a) + plain_attrs(b),
    decreases b.len(),
{
    if b.len() == 0 {
        assert(a + b =~= a);
        assert(plain_attrs(a) + plain_attrs(b) =~= plain_attrs(a));
    } else {
        lemma_plain_attrs_concat(a, b.drop_last());
        assert((a + b).drop_last() =~= a + b.drop_last());
        assert((a + b).last() == b.last());
        match b.last().text_value() {
            Some(v) => {
                assert(plain_attrs(a + b) =~= plain_attrs(a) + plain_attrs(b));
            },
            None => {
                assert(plain_attrs(a + b) =~= plain_attrs(a) + plain_attrs(b));
            },
        }
    }
}

/// Every attribute of an element that has a value as text is written in the element's XML:
/// after the ``<`` and the tag name comes, somewhere, a space, the attribute's name, ``="``, its
/// value escaped and ``"``.
pub proof fn lemma_attribute_written(doc: Document, key: ElementKey, fuel: nat, i: int)
    requires
        element_xml(doc, key, fuel) is Some,
        0 <= i < doc.element_at(key as int)->0.attribs@.len(),
        doc.element_at(key as int)->0.attribs@[i].text_value() is Some,
    ensures
        ({
            let e = doc.element_at(key as int)->0;
            let a = e.attribs@[i];
            exists|pre: Seq<char>, post: Seq<char>| element_xml(doc, key, fuel)->0
                == "<"@ + e.elementtype.tag() + pre + " "@ + a.atype().name() + "=\""@ + escape(a.text_value()->0) + "\""@ + post
        }),
{
    let e = doc.element_at(key as int)->0;
    let a = e.attribs@[i];
    let v = a.text_value()->0;
    let all = e.attribs@;
    let front = all.take(i);
    let back = all.skip(i + 1);
    assert(all =~= front + seq![a] + back);
    lemma_plain_attrs_concat(front + seq![a], back);
    lemma_plain_attrs_concat(front, seq![a]);
    assert(seq![a].drop_last() =~= Seq::<Attribute>::empty());
    assert(seq![a].last() == a);
    assert(plain_attrs(Seq::<Attribute>::empty()) =~= Seq::<(Seq<char>, Seq<char>)>::empty());
    assert(plain_attrs(seq![a]) =~= seq![(a.atype().name(), v)]);
    let p1 = plain_attrs(front);
    let q = plain_attrs(back) + decoded_attrs(doc, e);
    assert(element_attrs(doc, e) =~= p1 + seq![(a.atype().name(), v)] + q);
    lemma_attrs_text_concat(p1 + seq![(a.atype().name(), v)], q);
    lemma_attrs_text_concat(p1, seq![(a.atype().name(), v)]);
    let one = seq![(a.atype().name(), v)];
    assert(one.drop_last() =~= Seq::<(Seq<char>, Seq<char>)>::empty());
    assert(one.last() == (a.atype().name(), v));
    assert(attrs_text(Seq::<(Seq<char>, Seq<char>)>::empty()) =~= Seq::<char>::empty());
    assert(attrs_text(one) =~= " "@ + a.atype().name() + "=\""@ + escape(v) + "\""@);
    let inner = children_xml(doc, e.data@, (fuel - 1) as nat)->0;
    let pre = attrs_text(p1);
    let post = attrs_text(q) + ">"@ + inner + end_text(e.elementtype.tag());
    assert(element_xml(doc, key, fuel)->0 =~= "<"@ + e.elementtype.tag() + pre + " "@ + a.atype().name() + "=\""@
        + escape(v) + "\""@ + post);
}

/// Escaping two texts one after the other is escaping each.
pub proof fn lemma_escape_concat(a: Seq<char>, b: Seq<char>)
    ensures
        escape(a + b) == escape(a) + escape(b),
    decreases b.len(),
{
    if b.len() == 0 {
        assert(a + b =~= a);
        assert(escape(b) =~= Seq::<char>::empty());
        assert(escape(a) + escape(b) =~= escape(a));
    } else {
        lemma_escape_concat(a, b.drop_last());
        assert((a + b).drop_last() =~= a + b.drop_last());
        assert((a + b).last() == b.last());
        assert(escape(a + b) =~= escape(a) + escape(b));
    }
}

/// Data items that are all texts are written as those texts, one after the other, escaped.
proof fn lemma_children_texts(doc: Document, data: Seq<DataType>, fuel: nat)
    requires
        forall|i: int| 0 <= i < data.len() ==> #[trigger] data[i] is Text,
    ensures
        children_xml(doc, data, fuel) == Some(escape(crate::text::texts_concat(data))),
    decreases data.len(),
{
    if data.len() == 0 {
        assert(escape(Seq::<char>::empty()) =~= Seq::<char>::empty());
    } else {
        let rest = data.drop_last();
        assert forall|i: int| 0 <= i < rest.len() implies #[trigger] rest[i] is Text by {
            assert(rest[i] == data[i]);
        }
        lemma_children_texts(doc, rest, fuel);
        assert(data[data.len() - 1] is Text);
        let t = data.last()->Text_0@;
        lemma_escape_concat(crate::text::texts_concat(rest), t);
    }
}

/// The XML of an element that holds only texts (such as a text content element ``t``) is its
/// start tag, its texts one after the other, escaped, and its end tag: of a text container, the
/// text between the tags is its text, escaped.
pub proof fn lemma_text_element_xml(doc: Document, key: ElementKey, fuel: nat)
    requires
        fuel > 0,
        doc.element_at(key as int) is Some,
        forall|i: int| 0 <= i < doc.element_at(key as int)->0.data@.len()
            ==> #[trigger] doc.element_at(key as int)->0.data@[i] is Text,
    ensures
        ({
            let e = doc.element_at(key as int)->0;
            element_xml(doc, key, fuel) == Some(start_text(e.elementtype.tag(), element_attrs(doc, e))
                + escape(crate::text::texts_concat(e.data@)) + end_text(e.elementtype.tag()))
        }),
{
    let e = doc.element_at(key as int)->0;
    lemma_children_texts(doc, e.data@, (fuel - 1) as nat);
}

/// Whether a declaration is the only one of its annotation type (its set need not be written).
pub open spec fn is_default_declaration(doc: Document, k: int) -> bool {
    doc.declaration_at(k) matches Some(d) && count_of_type(doc.decls(), d.annotationtype) == 1
}

/// Whether the processor of an element is the only processor of its declaration (it need not be
/// written).
pub open spec fn is_default_processor(doc: Document, e: ElementData, k: int) -> bool {
    doc.declaration_at(k) matches Some(d) && d.processors@.len() == 1 && e.proc_key_of() == Some(d.processors@[0])
}

/// An attribute if it has a value, else none.
pub open spec fn opt_attr(name: Seq<char>, value: Option<Seq<char>>) -> Seq<(Seq<char>, Seq<char>)> {
    match value {
        Some(v) => seq![(name, v)],
        None => Seq::empty(),
    }
}

/// The decoded attributes of an element with a declaration: its set (unless the declaration is the
/// default), class, subset, and processor (unless it is the default).
pub open spec fn decoded_attrs(doc: Document, e: ElementData) -> Seq<(Seq<char>, Seq<char>)> {
    match e.dec_key_of() {
        None => Seq::empty(),
        Some(k) => (if is_default_declaration(doc, k as int) { Seq::empty() } else { opt_attr("set"@, set_of(doc, e)) })
            + opt_attr("class"@, class_of(doc, e))
            + opt_attr("subset"@, subset_of(doc, e))
            + (if is_default_processor(doc, e, k as int) {
                Seq::empty()
            } else {
                opt_attr("processor"@, match processor_of(doc, e) { Some(p) => Some(p.id@), None => None })
            }),
    }
}

/// The attributes written for an element.
pub open spec fn element_attrs(doc: Document, e: ElementData) -> Seq<(Seq<char>, Seq<char>)> {
    plain_attrs(e.attribs@) + decoded_attrs(doc, e)
}

/// An element and everything under it in XML, if no element lies deeper than ``fuel`` levels
/// (children that do not exist are left out).
pub open spec fn element_xml(doc: Document, key: ElementKey, fuel: nat) -> Option<Seq<char>>
    decreases fuel, 0nat,
{
    if fuel == 0 {
        None
    } else {
        match doc.element_at(key as int) {
            None => None,
            Some(e) => match children_xml(doc, e.data@, (fuel - 1) as nat) {
                Some(inner) => Some(start_text(e.elementtype.tag(), element_attrs(doc, e)) + inner
                    + end_text(e.elementtype.tag())),
                None => None,
            },
        }
    }
}

/// The data of an element in XML: child elements, escaped text, and comments.
pub open spec fn children_xml(doc: Document, data: Seq<DataType>, fuel: nat) -> Option<Seq<char>>
    decreases fuel, data.len(),
{
    if data.len() == 0 {
        Some(Seq::empty())
    } else {
        match children_xml(doc, data.drop_last(), fuel) {
            None => None,
            Some(prefix) => match data.last() {
                DataType::Element(k) => if doc.element_at(k as int) is None {
                    Some(prefix)
                } else {
                    match element_xml(doc, k, fuel) {
                        Some(x) => Some(prefix + x),
                        None => None,
                    }
                },
                DataType::Text(t) => Some(prefix + escape(t@)),
                DataType::Comment(t) => Some(prefix + "<!--"@ + escape(t@) + "-->"@),
                _ => Some(prefix),
            },
        }
    }
}

/// Once the data written so far cannot be written, neither can all of it.
pub proof fn lemma_children_none(doc: Document, data: Seq<DataType>, i: int, fuel: nat)
    requires
        0 <= i <= data.len(),
        children_xml(doc, data.take(i), fuel) is None,
    ensures
        children_xml(doc, data, fuel) is None,
    decreases data.len() - i,
{
    if i < data.len() {
        assert(data.take(i + 1).drop_last() =~= data.take(i));
        lemma_children_none(doc, data, i + 1, fuel);
    } else {
        assert(data.take(i) =~= data);
    }
}

/// The mask of the declarations that are the only ones of their annotation type.
pub open spec fn is_default_mask(doc: Document, mask: Seq<bool>) -> bool {
    &&& mask.len() == doc.decls().len()
    &&& forall|i: int| 0 <= i < mask.len() ==> #[trigger] mask[i] == is_default_declaration(doc, i)
}

/// Appends an attribute with an optional value.
fn push_opt_attr(attrs: &mut Vec<(String, String)>, name: &str, value: Option<&str>)
    ensures
        attrs_view(final(attrs)@) == attrs_view(old(attrs)@) + opt_attr(name@, opt_str_of(value)),
{
    match value {
        Some(v) => {
            attrs.push((name.to_owned(), v.to_owned()));
            proof {
                assert(attrs_view(attrs@) =~= attrs_view(old(attrs)@) + opt_attr(name@, opt_str_of(value)));
            }
        },
        None => {
            assert(attrs_view(attrs@) =~= attrs_view(old(attrs)@) + opt_attr(name@, opt_str_of(value)));
        },
    }
}

/// The attributes written for an element.
fn element_attributes(element: &Element, mask: &Vec<bool>) -> (r: Vec<(String, String)>)
    requires
        element.wf(),
        is_default_mask(*element.document, mask@),
    ensures
        attrs_view(r@) == element_attrs(*element.document, *element.data),
{
    let attribs = element.attribs();
    let mut attrs: Vec<(String, String)> = Vec::new();
    let mut i: usize = 0;
    proof {
        assert(attribs@.take(0) =~= Seq::<Attribute>::empty());
        assert(attrs_view(attrs@) =~= Seq::<(Seq<char>, Seq<char>)>::empty());
    }
    while i < attribs.len()
        invariant
            i <= attribs@.len(),
            attrs_view(attrs@) == plain_attrs(attribs@.take(i as int)),
        decreases attribs@.len() - i,
    {
        proof {
            assert(attribs@.take(i + 1).drop_last() =~= attribs@.take(i as int));
        }
        match attribs[i].to_string() {
            Ok(value) => {
                let name = attribs[i].attribtype().as_str();
                attrs.push((name.to_owned(), value));
                proof {
                    assert(attrs_view(attrs@) =~= plain_attrs(attribs@.take(i as int)).push(
                        (attribs@[i as int].atype().name(), attribs@[i as int].text_value()->0)));
                }
            },
            Err(_) => {},
        }
        i += 1;
    }
    proof {
        assert(attribs@.take(attribs@.len() as int) =~= attribs@);
    }
    match element.declaration_key() {
        Some(k) => {
            let is_default = (k as usize) < mask.len() && mask[k as usize];
            proof {
                if !((k as usize) < mask@.len()) {
                    assert(element.document.declaration_at(k as int) is None);
                }
            }
            if !is_default {
                push_opt_attr(&mut attrs, "set", element.set());
            } else {
                assert(opt_attr("set"@, set_of(*element.document, *element.data)).len() >= 0);
            }
            let ghost a1 = attrs_view(attrs@);
            push_opt_attr(&mut attrs, "class", element.class());
            push_opt_attr(&mut attrs, "subset", element.subset());
            let default_processor = match element.get_declaration() {
                Some(d) => d.processors.len() == 1 && element.processor_key() == Some(d.processors[0]),
                None => false,
            };
            if !default_processor {
                push_opt_attr(&mut attrs, "processor", element.processor());
            }
            proof {
                let doc = *element.document;
                let e = *element.data;
                let setpart: Seq<(Seq<char>, Seq<char>)> = if is_default_declaration(doc, k as int) {
                    Seq::empty()
                } else {
                    opt_attr("set"@, set_of(doc, e))
                };
                let procpart: Seq<(Seq<char>, Seq<char>)> = if is_default_processor(doc, e, k as int) {
                    Seq::empty()
                } else {
                    opt_attr("processor"@, match processor_of(doc, e) { Some(p) => Some(p.id@), None => None })
                };
                assert(a1 == plain_attrs(e.attribs@) + setpart);
                assert(attrs_view(attrs@) =~= plain_attrs(e.attribs@) + (setpart + opt_attr("class"@, class_of(doc, e))
                    + opt_attr("subset"@, subset_of(doc, e)) + procpart));
            }
        },
        None => {
            proof {
                assert(plain_attrs(element.data.attribs@) + decoded_attrs(*element.document, *element.data)
                    =~= plain_attrs(element.data.attribs@));
            }
        },
    }
    attrs
}

/// Appends an element and everything under it to the output.
fn write_element(doc: &Document, key: ElementKey, mask: &Vec<bool>, fuel: usize, out: &mut String) -> (r: Result<(), FoliaError>)
    requires
        doc.wf(),
        is_default_mask(*doc, mask@),
    ensures
        match element_xml(*doc, key, fuel as nat) {
            Some(x) => r is Ok && final(out)@ == old(out)@ + x,
            None => r is Err,
        },
    decreases fuel,
{
    if fuel == 0 {
        return Err(FoliaError::SerialisationError("Elements are nested too deeply to serialise".to_owned()));
    }
    let element = match doc.get_element(key) {
        Some(e) => e,
        None => {
            return Err(FoliaError::SerialisationError(concat_str("Specified root element not found: ",
                decimal(key as u64).as_str())));
        },
    };
    let attrs = element_attributes(&element, mask);
    let tag = element.elementtype().as_str();
    append_start(out, tag, &attrs);
    let ghost base = out@;
    let data = &element.data.data;
    let ghost f = (fuel - 1) as nat;
    let mut i: usize = 0;
    proof {
        assert(data@.take(0) =~= Seq::<DataType>::empty());
        assert(base =~= base + Seq::<char>::empty());
    }
    while i < data.len()
        invariant
            doc.wf(),
            is_default_mask(*doc, mask@),
            fuel >= 1,
            f == fuel - 1,
            doc.element_at(key as int) matches Some(e) && e.data@ == data@,
            i <= data@.len(),
            children_xml(*doc, data@.take(i as int), f) is Some,
            out@ == base + children_xml(*doc, data@.take(i as int), f)->0,
        decreases data@.len() - i,
    {
        proof {
            assert(data@.take(i + 1).drop_last() =~= data@.take(i as int));
            assert(data@.take(i + 1).last() == data@[i as int]);
        }
        match &data[i] {
            DataType::Element(k) => {
                if doc.get_elementdata(*k).is_some() {
                    match write_element(doc, *k, mask, fuel - 1, out) {
                        Ok(()) => {},
                        Err(e) => {
                            proof {
                                lemma_children_none(*doc, data@, i + 1, f);
                            }
                            return Err(e);
                        },
                    }
                }
            },
            DataType::Text(t) => {
                append_escaped(out, t.as_str());
            },
            DataType::Comment(t) => {
                out.append("<!--");
                append_escaped(out, t.as_str());
                out.append("-->");
            },
            _ => {},
        }
        proof {
            assert(out@ =~= base + children_xml(*doc, data@.take(i + 1), f)->0);
        }
        i += 1;
    }
    proof {
        assert(data@.take(data@.len() as int) =~= data@);
    }
    append_end(out, tag);
    Ok(())
}

impl<'a> Element<'a> {
    ///Serialises the element, and everything under it, to XML
    pub fn xml(&self) -> (r: Result<String, FoliaError>)
        requires
            self.wf(),
        ensures
            match element_xml(*self.document, self.key, self.document.elems().len()) {
                Some(x) => r matches Ok(s) && s@ == x,
                None => r is Err,
            },
    {
        let doc = self.document;
        let mask = doc.declarationstore.default_mask();
        proof {
            assert forall|i: int| 0 <= i < mask@.len() implies #[trigger] mask@[i] == is_default_declaration(*doc, i) by {
            }
        }
        let mut out = String::new();
        match write_element(doc, self.key, &mask, doc.elementstore.store.items().len(), &mut out) {
            Ok(()) => {
                assert(out@ =~= Seq::<char>::empty() + element_xml(*self.document, self.key, self.document.elems().len())->0);
                Ok(out)
            },
            Err(e) => Err(e),
        }
    }
}

/// An attribute whose value is written only if it is not empty.
pub open spec fn nonempty_attr(name: Seq<char>, value: Seq<char>) -> Seq<(Seq<char>, Seq<char>)> {
    if value.len() == 0 { Seq::empty() } else { seq![(name, value)] }
}

/// The attributes written for a processor: its ID, name and type, and its other fields that are
/// not empty.
pub open spec fn processor_attrs(p: Processor) -> Seq<(Seq<char>, Seq<char>)> {
    seq![("xml:id"@, p.id@), ("name"@, p.name@), ("type"@, p.processortype.name())]
        + nonempty_attr("version"@, p.version@)
        + nonempty_attr("folia_version"@, p.folia_version@)
        + nonempty_attr("document_version"@, p.document_version@)
        + nonempty_attr("command"@, p.command@)
        + nonempty_attr("host"@, p.host@)
        + nonempty_attr("user"@, p.user@)
        + nonempty_attr("begindatetime"@, p.begindatetime@)
        + nonempty_attr("enddatetime"@, p.enddatetime@)
        + nonempty_attr("src"@, p.src@)
        + nonempty_attr("format"@, p.format@)
        + nonempty_attr("resourcelink"@, p.resourcelink@)
}

/// A processor and its subprocessors in XML, each followed by a newline, if they nest no deeper
/// than ``fuel`` levels (a processor that does not exist is left out).
pub open spec fn processor_xml(doc: Document, key: ProcKey, fuel: nat) -> Option<Seq<char>>
    decreases fuel, 0nat,
{
    if fuel == 0 {
        None
    } else {
        match doc.processor_at(key as int) {
            None => Some(Seq::empty()),
            Some(p) => if p.processors@.len() == 0 {
                Some(empty_text("processor"@, processor_attrs(p)) + "\n"@)
            } else {
                match processors_xml(doc, p.processors@, (fuel - 1) as nat) {
                    Some(x) => Some(start_text("processor"@, processor_attrs(p)) + x + end_text("processor"@) + "\n"@),
                    None => None,
                }
            },
        }
    }
}

/// Processors in XML, one after the other.
pub open spec fn processors_xml(doc: Document, keys: Seq<ProcKey>, fuel: nat) -> Option<Seq<char>>
    decreases fuel, keys.len(),
{
    if keys.len() == 0 {
        Some(Seq::empty())
    } else {
        match processors_xml(doc, keys.drop_last(), fuel) {
            None => None,
            Some(prefix) => match processor_xml(doc, keys.last(), fuel) {
                Some(x) => Some(prefix + x),
                None => None,
            },
        }
    }
}

/// Once the processors written so far cannot be written, neither can all of them.
pub proof fn lemma_processors_none(doc: Document, keys: Seq<ProcKey>, i: int, fuel: nat)
    requires
        0 <= i <= keys.len(),
        processors_xml(doc, keys.take(i), fuel) is None,
    ensures
        processors_xml(doc, keys, fuel) is None,
    decreases keys.len() - i,
{
    if i < keys.len() {
        assert(keys.take(i + 1).drop_last() =~= keys.take(i));
        lemma_processors_none(doc, keys, i + 1, fuel);
    } else {
        assert(keys.take(i) =~= keys);
    }
}

/// Appends an attribute whose value is written only if it is not empty.
fn push_nonempty_attr(attrs: &mut Vec<(String, String)>, name: &str, value: &String)
    ensures
        attrs_view(final(attrs)@) == attrs_view(old(attrs)@) + nonempty_attr(name@, value@),
{
    if !value.as_str().is_empty() {
        attrs.push((name.to_owned(), value.clone()));
        assert(attrs_view(attrs@) =~= attrs_view(old(attrs)@) + nonempty_attr(name@, value@));
    } else {
        assert(attrs_view(attrs@) =~= attrs_view(old(attrs)@) + nonempty_attr(name@, value@));
    }
}

/// The attributes written for a processor.
fn processor_attributes(p: &Processor) -> (r: Vec<(String, String)>)
    ensures
        attrs_view(r@) == processor_attrs(*p),
{
    let mut attrs: Vec<(String, String)> = Vec::new();
    attrs.push(("xml:id".to_owned(), p.id.clone()));
    attrs.push(("name".to_owned(), p.name.clone()));
    attrs.push(("type".to_owned(), p.processortype.as_str().to_owned()));
    let ghost a0 = attrs_view(attrs@);
    proof {
        assert(a0 =~= seq![("xml:id"@, p.id@), ("name"@, p.name@), ("type"@, p.processortype.name())]);
    }
    push_nonempty_attr(&mut attrs, "version", &p.version);
    push_nonempty_attr(&mut attrs, "folia_version", &p.folia_version);
    push_nonempty_attr(&mut attrs, "document_version", &p.document_version);
    push_nonempty_attr(&mut attrs, "command", &p.command);
    push_nonempty_attr(&mut attrs, "host", &p.host);
    push_nonempty_attr(&mut attrs, "user", &p.user);
    push_nonempty_attr(&mut attrs, "begindatetime", &p.begindatetime);
    push_nonempty_attr(&mut attrs, "enddatetime", &p.enddatetime);
    push_nonempty_attr(&mut attrs, "src", &p.src);
    push_nonempty_attr(&mut attrs, "format", &p.format);
    push_nonempty_attr(&mut attrs, "resourcelink", &p.resourcelink);
    attrs
}

/// Appends a processor and its subprocessors to the output.
fn write_processor(doc: &Document, key: ProcKey, fuel: usize, out: &mut String) -> (r: Result<(), FoliaError>)
    ensures
        match processor_xml(*doc, key, fuel as nat) {
            Some(x) => r is Ok && final(out)@ == old(out)@ + x,
            None => r is Err,
        },
    decreases fuel,
{
    if fuel == 0 {
        return Err(FoliaError::SerialisationError("Processors are nested too deeply to serialise".to_owned()));
    }
    let p = match doc.get_processor(key) {
        Some(p) => p,
        None => {
            assert(out@ =~= old(out)@ + Seq::<char>::empty());
            return Ok(());
        },
    };
    let attrs = processor_attributes(p);
    if p.processors.len() == 0 {
        append_empty(out, "processor", &attrs);
        out.append("\n");
        return Ok(());
    }
    append_start(out, "processor", &attrs);
    let ghost base = out@;
    let ghost f = (fuel - 1) as nat;
    let mut i: usize = 0;
    proof {
        assert(p.processors@.take(0) =~= Seq::<ProcKey>::empty());
        assert(base =~= base + Seq::<char>::empty());
    }
    while i < p.processors.len()
        invariant
            fuel >= 1,
            f == fuel - 1,
            doc.processor_at(key as int) == Some(*p),
            i <= p.processors@.len(),
            processors_xml(*doc, p.processors@.take(i as int), f) is Some,
            out@ == base + processors_xml(*doc, p.processors@.take(i as int), f)->0,
        decreases p.processors@.len() - i,
    {
        proof {
            assert(p.processors@.take(i + 1).drop_last() =~= p.processors@.take(i as int));
        }
        match write_processor(doc, p.processors[i], fuel - 1, out) {
            Ok(()) => {},
            Err(e) => {
                proof {
                    lemma_processors_none(*doc, p.processors@, i + 1, f);
                }
                return Err(e);
            },
        }
        proof {
            assert(out@ =~= base + processors_xml(*doc, p.processors@.take(i + 1), f)->0);
        }
        i += 1;
    }
    proof {
        assert(p.processors@.take(p.processors@.len() as int) =~= p.processors@);
    }
    append_end(out, "processor");
    out.append("\n");
    Ok(())
}

/// Appends processors to the output, one after the other.
fn write_processors(doc: &Document, keys: &Vec<ProcKey>, fuel: usize, out: &mut String) -> (r: Result<(), FoliaError>)
    ensures
        match processors_xml(*doc, keys@, fuel as nat) {
            Some(x) => r is Ok && final(out)@ == old(out)@ + x,
            None => r is Err,
        },
{
    let mut i: usize = 0;
    proof {
        assert(keys@.take(0) =~= Seq::<ProcKey>::empty());
        assert(out@ =~= old(out)@ + Seq::<char>::empty());
    }
    while i < keys.len()
        invariant
            i <= keys@.len(),
            processors_xml(*doc, keys@.take(i as int), fuel as nat) is Some,
            out@ == old(out)@ + processors_xml(*doc, keys@.take(i as int), fuel as nat)->0,
        decreases keys@.len() - i,
    {
        proof {
            assert(keys@.take(i + 1).drop_last() =~= keys@.take(i as int));
        }
        match write_processor(doc, keys[i], fuel, out) {
            Ok(()) => {},
            Err(e) => {
                proof {
                    lemma_processors_none(*doc, keys@, i + 1, fuel as nat);
                }
                return Err(e);
            },
        }
        proof {
            assert(out@ =~= old(out)@ + processors_xml(*doc, keys@.take(i + 1), fuel as nat)->0);
        }
        i += 1;
    }
    proof {
        assert(keys@.take(keys@.len() as int) =~= keys@);
    }
    Ok(())
}

/// The annotators of a declaration in XML: an empty ``annotator`` tag for each processor, or
/// nothing where a processor does not exist.
pub open spec fn annotators_xml(doc: Document, keys: Seq<ProcKey>) -> Option<Seq<char>>
    decreases keys.len(),
{
    if keys.len() == 0 {
        Some(Seq::empty())
    } else {
        match (annotators_xml(doc, keys.drop_last()), doc.processor_at(keys.last() as int)) {
            (Some(prefix), Some(p)) => Some(prefix + empty_text("annotator"@, seq![("processor"@, p.id@)])),
            _ => None,
        }
    }
}

/// The tag of a declaration.
pub open spec fn declaration_tag(d: Declaration) -> Seq<char> {
    d.annotationtype.name() + "-annotation"@
}

/// The attributes written for a declaration: its set and alias, if it has them.
pub open spec fn declaration_attrs(d: Declaration) -> Seq<(Seq<char>, Seq<char>)> {
    opt_attr("set"@, opt_view(d.set)) + opt_attr("alias"@, opt_view(d.alias))
}

/// A declaration in XML, followed by a newline: an empty tag, or one that holds its annotators.
pub open spec fn declaration_xml(doc: Document, d: Declaration) -> Option<Seq<char>> {
    if d.processors@.len() == 0 {
        Some(empty_text(declaration_tag(d), declaration_attrs(d)) + "\n"@)
    } else {
        match annotators_xml(doc, d.processors@) {
            Some(a) => Some(start_text(declaration_tag(d), declaration_attrs(d)) + a + end_text(declaration_tag(d)) + "\n"@),
            None => None,
        }
    }
}

/// The declarations in XML, one after the other.
pub open spec fn declarations_xml(doc: Document, items: Seq<Option<Declaration>>) -> Option<Seq<char>>
    decreases items.len(),
{
    if items.len() == 0 {
        Some(Seq::empty())
    } else {
        match declarations_xml(doc, items.drop_last()) {
            None => None,
            Some(prefix) => match items.last() {
                None => Some(prefix),
                Some(d) => match declaration_xml(doc, d) {
                    Some(x) => Some(prefix + x),
                    None => None,
                },
            },
        }
    }
}

/// Once the declarations written so far cannot be written, neither can all of them.
pub proof fn lemma_declarations_none(doc: Document, items: Seq<Option<Declaration>>, i: int)
    requires
        0 <= i <= items.len(),
        declarations_xml(doc, items.take(i)) is None,
    ensures
        declarations_xml(doc, items) is None,
    decreases items.len() - i,
{
    if i < items.len() {
        assert(items.take(i + 1).drop_last() =~= items.take(i));
        lemma_declarations_none(doc, items, i + 1);
    } else {
        assert(items.take(i) =~= items);
    }
}

/// The metadata fields in XML: a ``meta`` tag with the key as its ID and the value as its text,
/// followed by a newline, each.
pub open spec fn meta_xml(keys: Seq<Seq<char>>, values: Map<Seq<char>, Seq<char>>) -> Seq<char>
    decreases keys.len(),
{
    if keys.len() == 0 {
        Seq::empty()
    } else {
        meta_xml(keys.drop_last(), values) + start_text("meta"@, seq![("id"@, keys.last())])
            + escape(values[keys.last()]) + end_text("meta"@) + "\n"@
    }
}

/// The attributes of the metadata: its type and its source, if it has them.
pub open spec fn metadata_attrs(doc: Document) -> Seq<(Seq<char>, Seq<char>)> {
    opt_attr("type"@, opt_view(doc.metadata.metadatatype)) + opt_attr("src"@, opt_view(doc.metadata.src))
}

/// The metadata in XML: the declarations, the provenance and the metadata fields.
pub open spec fn metadata_xml(doc: Document) -> Option<Seq<char>> {
    match (declarations_xml(doc, doc.decls()), processors_xml(doc, doc.provenancestore.chain@, doc.procs().len())) {
        (Some(decls), Some(procs)) => Some(start_text("metadata"@, metadata_attrs(doc)) + "\n"@
            + "<annotations>"@ + "\n"@ + decls + "</annotations>"@ + "\n"@
            + "<provenance>"@ + "\n"@ + procs + "</provenance>"@ + "\n"@
            + meta_xml(doc.metadata.data.keys_view(), doc.metadata.data.map_view())
            + "</metadata>"@ + "\n"@),
        _ => None,
    }
}

/// The attributes of the root of a document.
pub open spec fn root_attrs(doc: Document) -> Seq<(Seq<char>, Seq<char>)> {
    seq![("xmlns"@, NSFOLIA@), ("xmlns:xlink"@, NSXLINK@), ("xml:id"@, doc.id@), ("version"@, FOLIAVERSION@),
        ("generator"@, GENERATOR@)]
}

/// A document in XML, with the given element as its body.
pub open spec fn document_xml(doc: Document, root_key: ElementKey) -> Option<Seq<char>> {
    match (metadata_xml(doc), element_xml(doc, root_key, doc.elems().len())) {
        (Some(m), Some(body)) => Some(start_text("FoLiA"@, root_attrs(doc)) + "\n"@ + m + body + "\n"@ + end_text("FoLiA"@)),
        _ => None,
    }
}

/// Appends the annotators of a declaration.
fn write_annotators(doc: &Document, keys: &Vec<ProcKey>, out: &mut String) -> (r: Result<(), FoliaError>)
    ensures
        match annotators_xml(*doc, keys@) {
            Some(x) => r is Ok && final(out)@ == old(out)@ + x,
            None => r is Err,
        },
{
    let mut i: usize = 0;
    proof {
        assert(keys@.take(0) =~= Seq::<ProcKey>::empty());
        assert(out@ =~= old(out)@ + Seq::<char>::empty());
    }
    while i < keys.len()
        invariant
            i <= keys@.len(),
            annotators_xml(*doc, keys@.take(i as int)) is Some,
            out@ == old(out)@ + annotators_xml(*doc, keys@.take(i as int))->0,
        decreases keys@.len() - i,
    {
        proof {
            assert(keys@.take(i + 1).drop_last() =~= keys@.take(i as int));
        }
        match doc.get_processor(keys[i]) {
            Some(p) => {
                let attrs = vec![("processor".to_owned(), p.id.clone())];
                append_empty(out, "annotator", &attrs);
                proof {
                    assert(attrs_view(attrs@) =~= seq![("processor"@, p.id@)]);
                    assert(out@ =~= old(out)@ + annotators_xml(*doc, keys@.take(i + 1))->0);
                }
            },
            None => {
                proof {
                    let ks = keys@;
                    assert forall|j: int| i + 1 <= j <= ks.len() implies annotators_xml(*doc, ks.take(j)) is None by {
                        lemma_annotators_none(*doc, ks, i + 1, j);
                    }
                    assert(ks.take(ks.len() as int) =~= ks);
                }
                return Err(FoliaError::InternalError("Unable to resolve referenced processor during serialisation".to_owned()));
            },
        }
        i += 1;
    }
    proof {
        assert(keys@.take(keys@.len() as int) =~= keys@);
    }
    Ok(())
}

/// Once the annotators written so far cannot be written, neither can more of them.
pub proof fn lemma_annotators_none(doc: Document, keys: Seq<ProcKey>, i: int, j: int)
    requires
        0 <= i <= j <= keys.len(),
        annotators_xml(doc, keys.take(i)) is None,
    ensures
        annotators_xml(doc, keys.take(j)) is None,
    decreases j - i,
{
    if i < j {
        lemma_annotators_none(doc, keys, i, j - 1);
        assert(keys.take(j).drop_last() =~= keys.take(j - 1));
    }
}

/// Appends a declaration.
fn write_declaration(doc: &Document, d: &Declaration, out: &mut String) -> (r: Result<(), FoliaError>)
    ensures
        match declaration_xml(*doc, *d) {
            Some(x) => r is Ok && final(out)@ == old(out)@ + x,
            None => r is Err,
        },
{
    let mut tag = d.annotationtype.as_str().to_owned();
    tag.append("-annotation");
    let mut attrs: Vec<(String, String)> = Vec::new();
    let set = match &d.set {
        Some(s) => Some(s.as_str()),
        None => None,
    };
    push_opt_attr(&mut attrs, "set", set);
    let alias = match &d.alias {
        Some(s) => Some(s.as_str()),
        None => None,
    };
    push_opt_attr(&mut attrs, "alias", alias);
    proof {
        assert(opt_str_of(set) == opt_view(d.set));
        assert(opt_str_of(alias) == opt_view(d.alias));
        assert(attrs_view(attrs@) == declaration_attrs(*d));
    }
    if d.processors.len() == 0 {
        append_empty(out, tag.as_str(), &attrs);
        out.append("\n");
    } else {
        append_start(out, tag.as_str(), &attrs);
        match write_annotators(doc, &d.processors, out) {
            Ok(()) => {},
            Err(e) => {
                return Err(e);
            },
        }
        append_end(out, tag.as_str());
        out.append("\n");
    }
    proof {
        assert(out@ =~= old(out)@ + declaration_xml(*doc, *d)->0);
    }
    Ok(())
}

/// Appends the declarations.
fn write_declarations(doc: &Document, out: &mut String) -> (r: Result<(), FoliaError>)
    ensures
        match declarations_xml(*doc, doc.decls()) {
            Some(x) => r is Ok && final(out)@ == old(out)@ + x,
            None => r is Err,
        },
{
    let items = doc.declarations();
    let mut i: usize = 0;
    proof {
        assert(items@.take(0) =~= Seq::<Option<Declaration>>::empty());
        assert(out@ =~= old(out)@ + Seq::<char>::empty());
    }
    while i < items.len()
        invariant
            items@ == doc.decls(),
            i <= items@.len(),
            declarations_xml(*doc, items@.take(i as int)) is Some,
            out@ == old(out)@ + declarations_xml(*doc, items@.take(i as int))->0,
        decreases items@.len() - i,
    {
        proof {
            assert(items@.take(i + 1).drop_last() =~= items@.take(i as int));
        }
        match &items[i] {
            Some(d) => {
                match write_declaration(doc, d, out) {
                    Ok(()) => {},
                    Err(e) => {
                        proof {
                            lemma_declarations_none(*doc, items@, i + 1);
                        }
                        return Err(e);
                    },
                }
                proof {
                    assert(out@ =~= old(out)@ + declarations_xml(*doc, items@.take(i + 1))->0);
                }
            },
            None => {},
        }
        i += 1;
    }
    proof {
        assert(items@.take(items@.len() as int) =~= items@);
    }
    Ok(())
}

/// Appends the metadata fields.
fn write_meta(doc: &Document, out: &mut String)
    requires
        doc.wf(),
    ensures
        final(out)@ == old(out)@ + meta_xml(doc.metadata.data.keys_view(), doc.metadata.data.map_view()),
{
    let data = &doc.metadata.data;
    let keys = data.keys();
    let ghost kv = data.keys_view();
    proof {
        data.lemma_keys_set();
        assert(kv.take(0) =~= Seq::<Seq<char>>::empty());
        assert(out@ =~= old(out)@ + Seq::<char>::empty());
    }
    let mut i: usize = 0;
    while i < keys.len()
        invariant
            keys@.map_values(|k: String| k@) == kv,
            kv == data.keys_view(),
            forall|j: int| 0 <= j < kv.len() ==> data.map_view().contains_key(#[trigger] kv[j]),
            i <= keys@.len(),
            out@ == old(out)@ + meta_xml(kv.take(i as int), data.map_view()),
        decreases keys@.len() - i,
    {
        let key = &keys[i];
        proof {
            assert(kv.take(i + 1).drop_last() =~= kv.take(i as int));
            assert(kv[i as int] == key@);
            assert(data.map_view().contains_key(kv[i as int]));
        }
        match data.get(key.as_str()) {
            Some(value) => {
                let attrs = vec![("id".to_owned(), key.clone())];
                append_start(out, "meta", &attrs);
                append_escaped(out, value.as_str());
                append_end(out, "meta");
                out.append("\n");
                proof {
                    assert(attrs_view(attrs@) =~= seq![("id"@, key@)]);
                    assert(out@ =~= old(out)@ + meta_xml(kv.take(i + 1), data.map_view()));
                }
            },
            None => {},
        }
        i += 1;
    }
    proof {
        assert(kv.take(kv.len() as int) =~= kv);
    }
}

/// Appends the metadata: declarations, provenance and metadata fields.
#[verifier::spinoff_prover]
#[verifier::rlimit(50)]
fn write_metadata(doc: &Document, out: &mut String) -> (r: Result<(), FoliaError>)
    requires
        doc.wf(),
    ensures
        match metadata_xml(*doc) {
            Some(x) => r is Ok && final(out)@ == old(out)@ + x,
            None => r is Err,
        },
{
    let mut mattrs: Vec<(String, String)> = Vec::new();
    let metadatatype = match &doc.metadata.metadatatype {
        Some(s) => Some(s.as_str()),
        None => None,
    };
    push_opt_attr(&mut mattrs, "type", metadatatype);
    let src = match &doc.metadata.src {
        Some(s) => Some(s.as_str()),
        None => None,
    };
    push_opt_attr(&mut mattrs, "src", src);
    proof {
        assert(attrs_view(mattrs@) == metadata_attrs(*doc));
    }
    append_start(out, "metadata", &mattrs);
    out.append("\n");
    out.append("<annotations>");
    out.append("\n");
    let ghost a = out@;
    match write_declarations(doc, out) {
        Ok(()) => {},
        Err(e) => {
            return Err(e);
        },
    }
    let ghost b = out@;
    out.append("</annotations>");
    out.append("\n");
    out.append("<provenance>");
    out.append("\n");
    let ghost c = out@;
    match write_processors(doc, &doc.provenancestore.chain, doc.provenancestore.store.items().len(), out) {
        Ok(()) => {},
        Err(e) => {
            return Err(e);
        },
    }
    let ghost d = out@;
    out.append("</provenance>");
    out.append("\n");
    write_meta(doc, out);
    out.append("</metadata>");
    out.append("\n");
    proof {
        let decls = declarations_xml(*doc, doc.decls())->0;
        let procs = processors_xml(*doc, doc.provenancestore.chain@, doc.procs().len())->0;
        assert(b == a + decls);
        assert(d == c + procs);
        assert(out@ =~= old(out)@ + metadata_xml(*doc)->0);
    }
    Ok(())
}

impl Document {
    ///Serialises the document to XML (UTF-8), with the given element as its body
    pub fn xml(&self, root_key: ElementKey) -> (r: Result<Vec<u8>, FoliaError>)
        requires
            self.wf(),
        ensures
            document_xml(*self, root_key) is Some <==> r is Ok,
            r matches Ok(bytes) ==> exists|s: &str| s@ == document_xml(*self, root_key)->0 && bytes@ == s.spec_bytes(),
    {
        match self.xml_string(root_key) {
            Ok(s) => {
                let bytes = s.as_str().as_bytes_vec();
                Ok(bytes)
            },
            Err(e) => Err(e),
        }
    }

    ///Serialises the document to XML, as a string, with the given element as its body
    pub fn xml_string(&self, root_key: ElementKey) -> (r: Result<String, FoliaError>)
        requires
            self.wf(),
        ensures
            match document_xml(*self, root_key) {
                Some(x) => r matches Ok(s) && s@ == x,
                None => r is Err,
            },
    {
        let mut out = String::new();
        let attrs = vec![
            ("xmlns".to_owned(), NSFOLIA.to_owned()),
            ("xmlns:xlink".to_owned(), NSXLINK.to_owned()),
            ("xml:id".to_owned(), self.id.clone()),
            ("version".to_owned(), FOLIAVERSION.to_owned()),
            ("generator".to_owned(), GENERATOR.to_owned()),
        ];
        proof {
            assert(attrs_view(attrs@) =~= root_attrs(*self));
        }
        append_start(&mut out, "FoLiA", &attrs);
        out.append("\n");
        let ghost head = out@;
        match write_metadata(self, &mut out) {
            Ok(()) => {},
            Err(e) => {
                return Err(e);
            },
        }
        proof {
            assert(out@ =~= start_text("FoLiA"@, root_attrs(*self)) + "\n"@ + metadata_xml(*self)->0);
        }
        let mask = self.declarationstore.default_mask();
        match write_element(self, root_key, &mask, self.elementstore.store.items().len(), &mut out) {
            Ok(()) => {},
            Err(e) => {
                return Err(e);
            },
        }
        out.append("\n");
        append_end(&mut out, "FoLiA");
        proof {
            assert(out@ =~= document_xml(*self, root_key)->0);
        }
        Ok(out)
    }
}

} // verus!
