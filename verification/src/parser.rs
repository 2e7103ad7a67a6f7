//! The FoLiA parser: a state machine over XML events that builds a document
//! (root, metadata with declarations and provenance, body), and the parsing of
//! tags into declarations, processors and elements.

use vstd::prelude::*;
use vstd::string::StrSliceExecFns;
use crate::common::NSFOLIA;
use crate::types::{ElementKey, DecKey, ProcKey, ElementType, ElementGroup, AnnotationType, DataType, type_of_tag, annotation_of_name};
use crate::attrib::{Attribute, AttribType, processor_type_name, key_type, bool_word, parsed_attribute, is_parse_error};
use crate::error::FoliaError;
use crate::element::{ElementData, ElementModel, first_index, lemma_first_index, lemma_first_index_at, decoded_scan};
use crate::document::{Document, DocumentProperties, decls_grown, declared, attached};
use crate::annotation::{elems_grown, lemma_stored_grown, lemma_grown_trans, lemma_grown_keeps, types_kept,
    lemma_types_kept_trans, lemma_stored_types, lemma_attached_kept};
use crate::metadata::{Declaration, Processor, ProcessorType, opt_view};
use crate::specification::{Properties, AcceptedData, element_properties};
use crate::xml::{XmlAttribute, XmlTag, XmlEvent, read_events, xml_events};
use crate::util::{str_eq, str_chars, concat_str, concat3, concat4, decimal, u16_literal, float_literal};
use crate::annotation::encodable_tree;

verus! {

/// A white space character (Unicode `White_Space`).
pub open spec fn is_white_space(c: char) -> bool {
    ||| ('\u{9}' <= c && c <= '\u{d}')
    ||| c == ' ' || c == '\u{85}' || c == '\u{a0}' || c == '\u{1680}'
    ||| ('\u{2000}' <= c && c <= '\u{200a}')
    ||| c == '\u{2028}' || c == '\u{2029}' || c == '\u{202f}' || c == '\u{205f}' || c == '\u{3000}'
}

/// Whether a text holds nothing but white space.
pub fn is_blank(s: &str) -> (r: bool)
    ensures
        r == forall|i: int| 0 <= i < s@.len() ==> is_white_space(#[trigger] s@[i]),
{
    let chars = str_chars(s);
    let mut i: usize = 0;
    while i < chars.len()
        invariant
            chars@ == s@,
            i <= chars@.len(),
            forall|j: int| 0 <= j < i ==> is_white_space(#[trigger] chars@[j]),
        decreases chars@.len() - i,
    {
        let c = chars[i];
        let ws = ('\u{9}' <= c && c <= '\u{d}') || c == ' ' || c == '\u{85}' || c == '\u{a0}' || c == '\u{1680}'
            || ('\u{2000}' <= c && c <= '\u{200a}') || c == '\u{2028}' || c == '\u{2029}' || c == '\u{202f}'
            || c == '\u{205f}' || c == '\u{3000}';
        if !ws {
            return false;
        }
        i += 1;
    }
    true
}

/// Where the type ends in a declaration tag: at its first hyphen (or the tag's length).
pub open spec fn type_end(tag: Seq<char>) -> int {
    first_index(tag, is_hyphen())
}

/// Holds for a hyphen.
pub open spec fn is_hyphen() -> spec_fn(char) -> bool {
    |c: char| c == '-'
}

/// Whether a tag has the shape of a declaration tag: a hyphen, and "-annotation" from the first one on.
pub open spec fn is_declaration_tag(tag: Seq<char>) -> bool {
    type_end(tag) < tag.len() && tag.skip(type_end(tag)) == "-annotation"@
}

/// The annotation type that a declaration tag (`<type>-annotation`) declares.
pub fn get_declaration_type(tag: &str) -> (r: Result<AnnotationType, FoliaError>)
    ensures
        !is_declaration_tag(tag@) ==> (r matches Err(FoliaError::ParseError(m))
            && m@ == "Expected declaration element, got: "@ + tag@),
        is_declaration_tag(tag@) ==> {
            &&& r matches Ok(a) ==> a.name() == tag@.take(type_end(tag@))
            &&& r is Err ==> (forall|a: AnnotationType| a.name() != tag@.take(type_end(tag@)))
                && (r matches Err(FoliaError::ParseError(m)) && m@ == "Unknown declaration: "@ + tag@)
            &&& annotation_of_name(tag@.take(type_end(tag@))) matches Some(a) ==> r == Ok::<AnnotationType, FoliaError>(a)
        },
{
    let chars = str_chars(tag);
    let mut i: usize = 0;
    while i < chars.len()
        invariant
            chars@ == tag@,
            i <= chars@.len(),
            forall|j: int| 0 <= j < i ==> chars@[j] != '-',
        ensures
            i <= chars@.len(),
            forall|j: int| 0 <= j < i ==> chars@[j] != '-',
            i < chars@.len() ==> chars@[i as int] == '-',
        decreases chars@.len() - i,
    {
        if chars[i] == '-' {
            break;
        }
        i += 1;
    }
    proof {
        crate::element::lemma_first_index_at(tag@, is_hyphen(), i as int);
    }
    if i >= chars.len() {
        return Err(FoliaError::ParseError(concat_str("Expected declaration element, got: ", tag)));
    }
    let n = chars.len();
    let suffix = tag.substring_char(i, n);
    proof {
        assert(tag@.skip(i as int) =~= suffix@);
    }
    if !str_eq(suffix, "-annotation") {
        return Err(FoliaError::ParseError(concat_str("Expected declaration element, got: ", tag)));
    }
    let prefix = tag.substring_char(0, i);
    proof {
        assert(tag@.take(i as int) =~= prefix@);
    }
    match AnnotationType::from_str(prefix) {
        Some(a) => Ok(a),
        None => Err(FoliaError::ParseError(concat_str("Unknown declaration: ", tag))),
    }
}

/// The declaration tag of an annotation type (its name and "-annotation") is read back as
/// that type.
pub proof fn lemma_declaration_tag_round_trip(a: AnnotationType)
    ensures
        is_declaration_tag(a.name() + "-annotation"@),
        (a.name() + "-annotation"@).take(type_end(a.name() + "-annotation"@)) == a.name(),
        annotation_of_name((a.name() + "-annotation"@).take(type_end(a.name() + "-annotation"@))) == Some(a),
{
    let tag = a.name() + "-annotation"@;
    let n = a.name().len();
    crate::types::lemma_annotation_name_hyphenless(a);
    reveal_strlit("-annotation");
    assert("-annotation"@.len() == 11 && "-annotation"@[0] == '-');
    assert(tag[n as int] == '-');
    assert forall|j: int| 0 <= j < n implies !is_hyphen()(#[trigger] tag[j]) by {
        assert(tag[j] == a.name()[j]);
    }
    crate::element::lemma_first_index_at(tag, is_hyphen(), n as int);
    assert(tag.skip(n as int) =~= "-annotation"@);
    assert(tag.take(n as int) =~= a.name());
    crate::types::lemma_annotation_name_round_trip(a);
}

/// The value of the last attribute with the given name that has a value, if any.
pub open spec fn last_value(attrs: Seq<XmlAttribute>, key: Seq<char>) -> Option<Seq<char>>
    decreases attrs.len(),
{
    if attrs.len() == 0 {
        None
    } else if attrs.last().key@ == key && attrs.last().value is Some {
        Some(attrs.last().value->0@)
    } else {
        last_value(attrs.drop_last(), key)
    }
}

/// A text, or the empty text for none.
pub open spec fn or_empty(v: Option<Seq<char>>) -> Seq<char> {
    match v {
        Some(s) => s,
        None => Seq::empty(),
    }
}

/// The attribute names that a processor takes.
pub open spec fn is_processor_attribute(key: Seq<char>) -> bool {
    ||| key == "xml:id"@ || key == "name"@ || key == "version"@ || key == "folia_version"@
    ||| key == "document_version"@ || key == "command"@ || key == "host"@ || key == "user"@
    ||| key == "begindatetime"@ || key == "enddatetime"@ || key == "src"@ || key == "format"@
    ||| key == "resourcelink"@ || key == "type"@
}

/// What is wrong with an attribute of a processor, if anything: the error message.
pub open spec fn processor_attr_error(a: XmlAttribute) -> Option<Seq<char>> {
    match a.value {
        None => Some("Unable to parse attribute value (invalid utf-8?)"@),
        Some(v) => if !is_processor_attribute(a.key@) {
            Some("Unknown attribute on processor, got: \""@ + a.key@ + "\""@)
        } else if a.key@ == "type"@ && !processor_type_name(v@) {
            Some("Invalid processor type: \""@ + v@ + "\""@)
        } else {
            None
        },
    }
}

/// Holds for an attribute that a processor does not take.
pub open spec fn bad_processor_attr() -> spec_fn(XmlAttribute) -> bool {
    |a: XmlAttribute| processor_attr_error(a) is Some
}

/// The processor that attributes describe: each field has the value of the last attribute of
/// its name (or is empty), the type is that of the last `type` attribute (or automatic), and
/// the processor has no subprocessors, parent, key or metadata.
pub open spec fn parsed_processor(attrs: Seq<XmlAttribute>, p: Processor) -> bool {
    &&& p.id@ == or_empty(last_value(attrs, "xml:id"@))
    &&& p.name@ == or_empty(last_value(attrs, "name"@))
    &&& p.version@ == or_empty(last_value(attrs, "version"@))
    &&& p.folia_version@ == or_empty(last_value(attrs, "folia_version"@))
    &&& p.document_version@ == or_empty(last_value(attrs, "document_version"@))
    &&& p.command@ == or_empty(last_value(attrs, "command"@))
    &&& p.host@ == or_empty(last_value(attrs, "host"@))
    &&& p.user@ == or_empty(last_value(attrs, "user"@))
    &&& p.begindatetime@ == or_empty(last_value(attrs, "begindatetime"@))
    &&& p.enddatetime@ == or_empty(last_value(attrs, "enddatetime"@))
    &&& p.src@ == or_empty(last_value(attrs, "src"@))
    &&& p.format@ == or_empty(last_value(attrs, "format"@))
    &&& p.resourcelink@ == or_empty(last_value(attrs, "resourcelink"@))
    &&& match last_value(attrs, "type"@) {
        Some(v) => p.processortype.name() == v,
        None => p.processortype == ProcessorType::Auto,
    }
    &&& p.processors@.len() == 0
    &&& p.parent is None
    &&& p.key is None
    &&& p.metadata.data.wf()
    &&& p.metadata.data.keys_view().len() == 0
    &&& p.metadata.src is None
    &&& p.metadata.metadatatype is None
}

/// The value of the last attribute with the given name that has a value, if any.
pub fn attribute_value(attrs: &Vec<XmlAttribute>, key: &str) -> (r: Option<String>)
    ensures
        opt_view(r) == last_value(attrs@, key@),
{
    let mut i: usize = attrs.len();
    assert(attrs@.take(i as int) =~= attrs@);
    while i > 0
        invariant
            i <= attrs@.len(),
            last_value(attrs@, key@) == last_value(attrs@.take(i as int), key@),
        decreases i,
    {
        let a = &attrs[i - 1];
        proof {
            assert(attrs@.take(i as int).drop_last() =~= attrs@.take(i - 1));
        }
        if str_eq(a.key.as_str(), key) {
            match &a.value {
                Some(v) => {
                    return Some(v.clone());
                },
                None => {},
            }
        }
        i -= 1;
    }
    None
}

/// Whether a processor takes an attribute of this name.
fn processor_attribute(key: &str) -> (r: bool)
    ensures
        r == is_processor_attribute(key@),
{
    str_eq(key, "xml:id") || str_eq(key, "name") || str_eq(key, "version") || str_eq(key, "folia_version")
        || str_eq(key, "document_version") || str_eq(key, "command") || str_eq(key, "host")
        || str_eq(key, "user") || str_eq(key, "begindatetime") || str_eq(key, "enddatetime")
        || str_eq(key, "src") || str_eq(key, "format") || str_eq(key, "resourcelink") || str_eq(key, "type")
}

/// A text, or the empty text for none.
fn string_or_empty(v: Option<String>) -> (r: String)
    ensures
        r@ == or_empty(opt_view(v)),
{
    match v {
        Some(s) => s,
        None => {
            let e = String::new();
            assert(e@ =~= Seq::<char>::empty());
            e
        },
    }
}

impl Processor {
    ///Parses a processor from the attributes of its tag; its subprocessors are added by the
    ///document parser. Every attribute must be one that a processor takes.
    pub fn parse(tag: &XmlTag) -> (r: Result<Processor, FoliaError>)
        ensures
            ({
                let attrs = tag.attributes@;
                let i = first_index(attrs, bad_processor_attr());
                &&& i < attrs.len() ==> (r matches Err(FoliaError::ParseError(m)) && m@ == processor_attr_error(attrs[i])->0)
                &&& i >= attrs.len() ==> (r matches Ok(p) && parsed_processor(attrs, p))
            }),
    {
        let ghost attrs = tag.attributes@;
        let mut i: usize = 0;
        while i < tag.attributes.len()
            invariant
                attrs == tag.attributes@,
                i <= attrs.len(),
                forall|j: int| 0 <= j < i ==> !bad_processor_attr()(#[trigger] attrs[j]),
            decreases attrs.len() - i,
        {
            let attrib = &tag.attributes[i];
            let value = match &attrib.value {
                Some(v) => v.as_str(),
                None => {
                    proof {
                        lemma_first_index_at(attrs, bad_processor_attr(), i as int);
                    }
                    return Err(FoliaError::ParseError("Unable to parse attribute value (invalid utf-8?)".to_owned()));
                },
            };
            let key = attrib.key.as_str();
            if !processor_attribute(key) {
                proof {
                    lemma_first_index_at(attrs, bad_processor_attr(), i as int);
                }
                return Err(FoliaError::ParseError(concat3("Unknown attribute on processor, got: \"", key, "\"")));
            }
            if str_eq(key, "type") && !(str_eq(value, "auto") || str_eq(value, "manual") || str_eq(value, "generator")
                || str_eq(value, "datasource")) {
                proof {
                    lemma_first_index_at(attrs, bad_processor_attr(), i as int);
                }
                return Err(FoliaError::ParseError(concat3("Invalid processor type: \"", value, "\"")));
            }
            i += 1;
        }
        proof {
            lemma_first_index_at(attrs, bad_processor_attr(), attrs.len() as int);
        }
        let processortype = match attribute_value(&tag.attributes, "type") {
            Some(v) => {
                proof {
                    lemma_last_value_found(attrs, "type"@);
                }
                if str_eq(v.as_str(), "manual") {
                    ProcessorType::Manual
                } else if str_eq(v.as_str(), "generator") {
                    ProcessorType::Generator
                } else if str_eq(v.as_str(), "datasource") {
                    ProcessorType::DataSource
                } else {
                    ProcessorType::Auto
                }
            },
            None => ProcessorType::Auto,
        };
        let mut processor = Processor::default();
        processor.id = string_or_empty(attribute_value(&tag.attributes, "xml:id"));
        processor.name = string_or_empty(attribute_value(&tag.attributes, "name"));
        processor.version = string_or_empty(attribute_value(&tag.attributes, "version"));
        processor.folia_version = string_or_empty(attribute_value(&tag.attributes, "folia_version"));
        processor.document_version = string_or_empty(attribute_value(&tag.attributes, "document_version"));
        processor.command = string_or_empty(attribute_value(&tag.attributes, "command"));
        processor.host = string_or_empty(attribute_value(&tag.attributes, "host"));
        processor.user = string_or_empty(attribute_value(&tag.attributes, "user"));
        processor.begindatetime = string_or_empty(attribute_value(&tag.attributes, "begindatetime"));
        processor.enddatetime = string_or_empty(attribute_value(&tag.attributes, "enddatetime"));
        processor.src = string_or_empty(attribute_value(&tag.attributes, "src"));
        processor.format = string_or_empty(attribute_value(&tag.attributes, "format"));
        processor.resourcelink = string_or_empty(attribute_value(&tag.attributes, "resourcelink"));
        processor.processortype = processortype;
        Ok(processor)
    }
}

/// The last value of a name belongs to an attribute of that name.
pub proof fn lemma_last_value_found(attrs: Seq<XmlAttribute>, key: Seq<char>)
    ensures
        last_value(attrs, key) is Some ==> exists|j: int| 0 <= j < attrs.len() && (#[trigger] attrs[j]).key@ == key
            && attrs[j].value is Some && attrs[j].value->0@ == last_value(attrs, key)->0,
    decreases attrs.len(),
{
    if attrs.len() > 0 {
        let a = attrs.last();
        if !(a.key@ == key && a.value is Some) {
            lemma_last_value_found(attrs.drop_last(), key);
            if last_value(attrs, key) is Some {
                let j = choose|j: int| 0 <= j < attrs.drop_last().len() && (#[trigger] attrs.drop_last()[j]).key@ == key
                    && attrs.drop_last()[j].value is Some && attrs.drop_last()[j].value->0@ == last_value(attrs.drop_last(), key)->0;
                assert(attrs[j] == attrs.drop_last()[j]);
            }
        } else {
            assert(attrs[attrs.len() - 1] == a);
        }
    }
}

impl Declaration {
    ///Parses a declaration from its tag (``<type>-annotation``) and the tag's attributes: the
    ///last ``set``, ``alias`` and ``format`` that can be decoded are taken, the other attributes
    ///are ignored.
    pub fn parse(tag: &XmlTag) -> (r: Result<Declaration, FoliaError>)
        ensures
            !is_declaration_tag(tag.name@) ==> (r matches Err(FoliaError::ParseError(m))
                && m@ == "Expected declaration element, got: "@ + tag.name@),
            is_declaration_tag(tag.name@) && (forall|a: AnnotationType| a.name() != tag.name@.take(type_end(tag.name@)))
                ==> (r matches Err(FoliaError::ParseError(m)) && m@ == "Unknown declaration: "@ + tag.name@),
            r matches Ok(d) ==> {
                &&& is_declaration_tag(tag.name@)
                &&& d.annotationtype.name() == tag.name@.take(type_end(tag.name@))
                &&& opt_view(d.set) == last_value(tag.attributes@, "set"@)
                &&& opt_view(d.alias) == last_value(tag.attributes@, "alias"@)
                &&& opt_view(d.format) == last_value(tag.attributes@, "format"@)
                &&& d.key is None && d.processors@.len() == 0
                &&& d.classes is None && d.subsets is None && d.subclasses is None
                &&& d.wf()
            },
            is_declaration_tag(tag.name@) && (exists|a: AnnotationType| a.name() == tag.name@.take(type_end(tag.name@)))
                ==> r is Ok,
    {
        let annotationtype = match get_declaration_type(tag.name.as_str()) {
            Ok(a) => a,
            Err(e) => {
                return Err(e);
            },
        };
        let set = attribute_value(&tag.attributes, "set");
        let alias = attribute_value(&tag.attributes, "alias");
        let format = attribute_value(&tag.attributes, "format");
        Ok(Declaration::new(annotationtype, set, alias, format))
    }
}

/// Whether reading an attribute with this name and value succeeds (see ``Attribute::parse``).
pub open spec fn attribute_parses(key: Seq<char>, value: Seq<char>) -> bool {
    match key_type(key) {
        None => key.contains(':'),
        Some(t) => if t == AttribType::ANNOTATORTYPE {
            processor_type_name(value)
        } else if t == AttribType::OFFSET || t == AttribType::LINENR {
            u16_literal(value) is Some
        } else if t == AttribType::NEWPAGE || t == AttribType::SPACE {
            bool_word(value, true) || bool_word(value, false)
        } else if t == AttribType::CONFIDENCE {
            float_literal(value)
        } else {
            true
        },
    }
}

/// Reading an attribute succeeds exactly when ``attribute_parses`` says so.
pub proof fn lemma_attribute_parses(key: Seq<char>, value: Seq<char>, r: Result<Attribute, FoliaError>)
    requires
        parsed_attribute(key, value, r),
    ensures
        r is Ok <==> attribute_parses(key, value),
{
}

/// The subset of the feature type that accepted data stands for, if it is a feature type with one.
pub open spec fn feature_subset(d: AcceptedData) -> Option<Seq<char>> {
    match d {
        AcceptedData::AcceptElementType(t) => if ElementGroup::Feature.has(t) {
            element_properties(t).subset
        } else {
            None
        },
        AcceptedData::AcceptElementGroup(_) => None,
    }
}

/// An attribute of this name on an element of this type is a shortcut for a feature: a feature
/// type that the element accepts has this name as its subset.
pub open spec fn is_feature_shortcut(elementtype: ElementType, key: Seq<char>) -> bool {
    exists|i: int| 0 <= i < element_properties(elementtype).accepted_data.len()
        && feature_subset(#[trigger] element_properties(elementtype).accepted_data[i]) == Some(key)
}

/// Whether an attribute of this name on an element of this type is a shortcut for a feature.
pub fn feature_shortcut(elementtype: ElementType, key: &str) -> (r: bool)
    ensures
        r == is_feature_shortcut(elementtype, key@),
{
    let properties = Properties::new(elementtype);
    let ghost accepted = element_properties(elementtype).accepted_data;
    let mut i: usize = 0;
    while i < properties.accepted_data.len()
        invariant
            properties.accepted_data@ == accepted,
            accepted == element_properties(elementtype).accepted_data,
            i <= accepted.len(),
            forall|j: int| 0 <= j < i ==> feature_subset(#[trigger] accepted[j]) != Some(key@),
        decreases accepted.len() - i,
    {
        match properties.accepted_data[i] {
            AcceptedData::AcceptElementType(t) => {
                if ElementGroup::Feature.contains(t) {
                    let p = Properties::new(t);
                    match p.subset {
                        Some(subset) => {
                            if str_eq(subset, key) {
                                return true;
                            }
                        },
                        None => {},
                    }
                }
            },
            AcceptedData::AcceptElementGroup(_) => {},
        }
        i += 1;
    }
    false
}

/// An attribute is accepted on an element of the type: it has a value that reads as an
/// attribute, or that a feature shortcut takes.
pub open spec fn attribute_accepted(elementtype: ElementType, a: XmlAttribute) -> bool {
    a.value is Some && (attribute_parses(a.key@, a.value->0@) || is_feature_shortcut(elementtype, a.key@))
}

/// Holds for an attribute that an element of the type does not accept.
pub open spec fn rejected(elementtype: ElementType) -> spec_fn(XmlAttribute) -> bool {
    |a: XmlAttribute| !attribute_accepted(elementtype, a)
}

/// The attributes that read as attributes, in order.
pub open spec fn parsing_attrs(attrs: Seq<XmlAttribute>) -> Seq<XmlAttribute>
    decreases attrs.len(),
{
    if attrs.len() == 0 {
        Seq::empty()
    } else {
        let a = attrs.last();
        if a.value is Some && attribute_parses(a.key@, a.value->0@) {
            parsing_attrs(attrs.drop_last()).push(a)
        } else {
            parsing_attrs(attrs.drop_last())
        }
    }
}

/// The attributes that stand for features, in order.
pub open spec fn shortcut_attrs(elementtype: ElementType, attrs: Seq<XmlAttribute>) -> Seq<XmlAttribute>
    decreases attrs.len(),
{
    if attrs.len() == 0 {
        Seq::empty()
    } else {
        let a = attrs.last();
        if a.value is Some && !attribute_parses(a.key@, a.value->0@) && is_feature_shortcut(elementtype, a.key@) {
            shortcut_attrs(elementtype, attrs.drop_last()).push(a)
        } else {
            shortcut_attrs(elementtype, attrs.drop_last())
        }
    }
}

/// The feature that a shortcut attribute stands for: a feature with the name as its subset and
/// the value as its class and its text.
pub open spec fn is_shortcut_feature(e: ElementData, key: Seq<char>, value: Seq<char>) -> bool {
    &&& e.elementtype == ElementType::Feature
    &&& e.attribs@.len() == 2
    &&& e.attribs@[0] matches Attribute::Subset(s) && s@ == key
    &&& e.attribs@[1] matches Attribute::Class(c) && c@ == value
    &&& e.data@.len() == 1
    &&& e.data@[0] matches DataType::Text(t) && t@ == value
    &&& e.key is None
    &&& e.parent is None
}

/// What the attributes of a tag are read into: the attributes that read as attributes, each read
/// as ``Attribute::parse`` does, and the features that the shortcut attributes stand for.
pub open spec fn parsed_attributes(elementtype: ElementType, attrs: Seq<XmlAttribute>, attribs: Seq<Attribute>,
    children: Seq<ElementData>) -> bool {
    let pa = parsing_attrs(attrs);
    let sa = shortcut_attrs(elementtype, attrs);
    &&& attribs.len() == pa.len()
    &&& forall|j: int| 0 <= j < pa.len() ==> parsed_attribute(pa[j].key@, pa[j].value->0@,
        Ok::<Attribute, FoliaError>(#[trigger] attribs[j]))
    &&& forall|j: int| 0 <= j < attribs.len() ==> !(#[trigger] attribs[j]).is_decodable()
    &&& children.len() == sa.len()
    &&& forall|j: int| 0 <= j < sa.len() ==> is_shortcut_feature(#[trigger] children[j], sa[j].key@, sa[j].value->0@)
}

/// The error for an attribute that is not accepted: that of reading it.
pub open spec fn attribute_error(a: XmlAttribute, r: Result<(Vec<Attribute>, Vec<ElementData>), FoliaError>) -> bool {
    match a.value {
        None => is_parse_error(r, "Unable to parse attribute value (invalid utf-8?)"@),
        Some(v) => r matches Err(e) && parsed_attribute(a.key@, v@, Err(e)),
    }
}

impl ElementData {
    ///Reads the attributes of a tag of an element of the given type. An attribute that is not a
    ///FoLiA attribute may be a shortcut for a feature (its name the subset, its value the class);
    ///such features are returned apart.
    pub fn parse_attributes(attrs: &Vec<XmlAttribute>, elementtype: ElementType) -> (r: Result<(Vec<Attribute>, Vec<ElementData>), FoliaError>)
        ensures
            ({
                let i = first_index(attrs@, rejected(elementtype));
                &&& i < attrs@.len() ==> attribute_error(attrs@[i], r)
                &&& i >= attrs@.len() ==> (r matches Ok((attribs, children))
                    && parsed_attributes(elementtype, attrs@, attribs@, children@))
            }),
    {
        let mut attributes: Vec<Attribute> = Vec::new();
        let mut children: Vec<ElementData> = Vec::new();
        let mut i: usize = 0;
        while i < attrs.len()
            invariant
                i <= attrs@.len(),
                forall|j: int| 0 <= j < i ==> !rejected(elementtype)(#[trigger] attrs@[j]),
                parsed_attributes(elementtype, attrs@.take(i as int), attributes@, children@),
            decreases attrs@.len() - i,
        {
            let attrib = &attrs[i];
            proof {
                assert(attrs@.take(i + 1).drop_last() =~= attrs@.take(i as int));
                assert(attrs@.take(i + 1).last() == attrib);
            }
            let ghost pa = parsing_attrs(attrs@.take(i as int));
            let ghost sa = shortcut_attrs(elementtype, attrs@.take(i as int));
            match Attribute::parse(attrib) {
                Ok(a) => {
                    proof {
                        lemma_attribute_parses(attrib.key@, attrib.value->0@, Ok(a));
                    }
                    attributes.push(a);
                    proof {
                        assert(parsing_attrs(attrs@.take(i + 1)) == pa.push(*attrib));
                        assert(shortcut_attrs(elementtype, attrs@.take(i + 1)) == sa);
                        assert forall|j: int| 0 <= j < pa.len() + 1 implies parsed_attribute(pa.push(*attrib)[j].key@,
                            pa.push(*attrib)[j].value->0@, Ok::<Attribute, FoliaError>(#[trigger] attributes@[j])) by {
                            if j < pa.len() {
                                assert(pa.push(*attrib)[j] == pa[j]);
                            }
                        }
                    }
                },
                Err(e) => {
                    let value = match &attrib.value {
                        Some(v) => v,
                        None => {
                            proof {
                                lemma_first_index_at(attrs@, rejected(elementtype), i as int);
                            }
                            return Err(e);
                        },
                    };
                    proof {
                        lemma_attribute_parses(attrib.key@, value@, Err(e));
                    }
                    if !feature_shortcut(elementtype, attrib.key.as_str()) {
                        proof {
                            lemma_first_index_at(attrs@, rejected(elementtype), i as int);
                        }
                        return Err(e);
                    }
                    let child = ElementData::new(ElementType::Feature)
                        .with_attribs(vec![Attribute::Subset(attrib.key.clone()), Attribute::Class(value.clone())])
                        .with_children(vec![DataType::Text(value.clone())]);
                    children.push(child);
                    proof {
                        assert(parsing_attrs(attrs@.take(i + 1)) == pa);
                        assert(shortcut_attrs(elementtype, attrs@.take(i + 1)) == sa.push(*attrib));
                        assert forall|j: int| 0 <= j < sa.len() + 1 implies is_shortcut_feature(#[trigger] children@[j],
                            sa.push(*attrib)[j].key@, sa.push(*attrib)[j].value->0@) by {
                            if j < sa.len() {
                                assert(sa.push(*attrib)[j] == sa[j]);
                            }
                        }
                    }
                },
            }
            i += 1;
        }
        proof {
            assert(attrs@.take(attrs@.len() as int) =~= attrs@);
            lemma_first_index_at(attrs@, rejected(elementtype), attrs@.len() as int);
        }
        Ok((attributes, children))
    }

    ///Parses an element from its tag: its type from the tag's name, and its attributes. The
    ///features that shortcut attributes stand for are returned apart; the element's other children
    ///are added by the document parser.
    pub fn parse(tag: &XmlTag) -> (r: Result<(ElementData, Vec<ElementData>), FoliaError>)
        ensures
            match type_of_tag(tag.name@) {
                None => r matches Err(FoliaError::ParseError(m))
                    && m@ == "Unknown tag has no associated element type: "@ + tag.name@,
                Some(t) => {
                    let i = first_index(tag.attributes@, rejected(t));
                    &&& i < tag.attributes@.len() ==> (r matches Err(e)
                        && attribute_error(tag.attributes@[i], Err::<(Vec<Attribute>, Vec<ElementData>), FoliaError>(e)))
                    &&& i >= tag.attributes@.len() ==> (r matches Ok((e, children)) && {
                        &&& e.elementtype == t
                        &&& parsed_attributes(t, tag.attributes@, e.attribs@, children@)
                        &&& e.data@.len() == 0 && e.key is None && e.parent is None
                    })
                },
            },
    {
        let elementtype = match ElementType::from_str(tag.name.as_str()) {
            Ok(t) => t,
            Err(e) => {
                return Err(e);
            },
        };
        match ElementData::parse_attributes(&tag.attributes, elementtype) {
            Ok((attributes, children)) => Ok((ElementData::new(elementtype).with_attribs(attributes), children)),
            Err(e) => Err(e),
        }
    }
}

/// Where the parser is in a document.
#[derive(Copy, Clone, PartialEq, Eq, Structural, Debug)]
pub enum ParsePhase {
    ///Before the root element
    Root,
    ///Within the metadata
    Metadata,
    ///After the metadata, before the body
    FindBody,
    ///Within the body
    Elements,
    ///After the body
    Done,
}

/// The state of the document parser between two XML events.
pub struct ParseState {
    pub phase: ParsePhase,
    ///Within the declarations
    pub parsedeclarations: bool,
    ///Within the provenance
    pub parseprovenance: bool,
    ///The ID of the submetadata that is open, if any
    pub submetadata: Option<String>,
    ///The last text read within the metadata
    pub text: Option<String>,
    ///The ID of the last metadata field opened
    pub meta_id: Option<String>,
    ///The declaration that is open, if any
    pub declaration_key: Option<DecKey>,
    ///The processors of annotators of declarations, by ID: they are resolved once the
    ///provenance has been read
    pub annotators: Vec<(DecKey, String)>,
    ///The processors that are open, the innermost last
    pub processor_stack: Vec<ProcKey>,
    ///The elements that are open, the innermost last; the body is the first
    pub stack: Vec<ElementKey>,
    ///The properties to apply once the body is found
    pub properties: Option<DocumentProperties>,
}

/// Whether a namespace is the FoLiA namespace.
pub open spec fn is_folia(ns: Option<String>) -> bool {
    ns matches Some(n) && n@ == NSFOLIA@
}

/// Whether a namespace is the FoLiA namespace.
fn in_folia(ns: &Option<String>) -> (r: bool)
    ensures
        r == is_folia(*ns),
{
    match ns {
        Some(n) => str_eq(n.as_str(), NSFOLIA),
        None => false,
    }
}

/// A text, or a default for none.
pub open spec fn or_else(v: Option<Seq<char>>, d: Seq<char>) -> Seq<char> {
    match v {
        Some(s) => s,
        None => d,
    }
}

/// An attribute of the root whose value is needed but cannot be decoded.
pub open spec fn bad_root_attr() -> spec_fn(XmlAttribute) -> bool {
    |a: XmlAttribute| (a.key@ == "xml:id"@ || a.key@ == "version"@) && a.value is None
}

/// Only the ID and the version of the document differ.
pub open spec fn same_but_header(d1: Document, d0: Document) -> bool {
    &&& d1.filename == d0.filename
    &&& d1.elementstore == d0.elementstore
    &&& d1.declarationstore == d0.declarationstore
    &&& d1.provenancestore == d0.provenancestore
    &&& d1.metadata == d0.metadata
    &&& d1.autodeclare == d0.autodeclare
}

/// What reading an event before the root element does.
pub open spec fn root_outcome(s0: ParseState, d0: Document, event: XmlEvent, s1: ParseState, d1: Document,
    r: Result<bool, FoliaError>) -> bool {
    match event {
        XmlEvent::Start(t) => if !is_folia(t.namespace) {
            is_parse_error(r, "Encountered unknown root tag not in FoLiA namespace"@)
        } else if t.name@ != "FoLiA"@ {
            is_parse_error(r, "Encountered unknown root tag"@)
        } else if first_index(t.attributes@, bad_root_attr()) < t.attributes@.len() {
            is_parse_error(r, "Unable to parse attribute value (invalid utf-8?)"@)
        } else {
            &&& r == Ok::<bool, FoliaError>(false)
            &&& s1 == (ParseState { phase: ParsePhase::Metadata, ..s0 })
            &&& d1.id@ == or_else(last_value(t.attributes@, "xml:id"@), d0.id@)
            &&& d1.version@ == or_else(last_value(t.attributes@, "version"@), d0.version@)
            &&& same_but_header(d1, d0)
        },
        XmlEvent::Eof => is_parse_error(r, "Premature end of document"@),
        _ => r == Ok::<bool, FoliaError>(false) && s1 == s0 && d1 == d0,
    }
}

impl ParseState {
    /// The state fits the document: the document is well formed, has no elements before the
    /// body, and the open elements exist, the body first.
    pub open spec fn wf(&self, doc: Document) -> bool {
        &&& doc.wf()
        &&& (self.phase is Root || self.phase is Metadata || self.phase is FindBody) ==> doc.elems().len() == 0
        &&& (self.phase is Root || self.phase is Metadata || self.phase is FindBody) ==> self.properties is Some
        &&& self.phase is Elements ==> {
            &&& self.stack@.len() >= 1
            &&& self.stack@[0] == 0
            &&& forall|i: int| 0 <= i < self.stack@.len() ==> doc.element_at(#[trigger] self.stack@[i] as int) is Some
        }
    }

    /// The state before the root element.
    pub fn new(properties: DocumentProperties) -> (s: Self)
        ensures
            s.phase is Root,
            !s.parsedeclarations && !s.parseprovenance,
            s.submetadata is None && s.text is None && s.meta_id is None && s.declaration_key is None,
            s.annotators@.len() == 0 && s.processor_stack@.len() == 0 && s.stack@.len() == 0,
            s.properties == Some(properties),
    {
        ParseState {
            phase: ParsePhase::Root,
            parsedeclarations: false,
            parseprovenance: false,
            submetadata: None,
            text: None,
            meta_id: None,
            declaration_key: None,
            annotators: Vec::new(),
            processor_stack: Vec::new(),
            stack: Vec::new(),
            properties: Some(properties),
        }
    }

    /// Reads an event before the root element: the root (``FoLiA``) gives the document its ID and
    /// version.
    #[verifier::loop_isolation(false)]
    fn step_root(&mut self, doc: &mut Document, event: XmlEvent) -> (r: Result<bool, FoliaError>)
        requires
            old(self).phase is Root,
            old(self).wf(*old(doc)),
        ensures
            final(self).wf(*final(doc)),
            root_outcome(*old(self), *old(doc), event, *final(self), *final(doc), r),
    {
        match event {
            XmlEvent::Start(tag) => {
                if !in_folia(&tag.namespace) {
                    return Err(FoliaError::ParseError("Encountered unknown root tag not in FoLiA namespace".to_owned()));
                }
                if !str_eq(tag.name.as_str(), "FoLiA") {
                    return Err(FoliaError::ParseError("Encountered unknown root tag".to_owned()));
                }
                let ghost attrs = tag.attributes@;
                let mut i: usize = 0;
                while i < tag.attributes.len()
                    invariant
                        attrs == tag.attributes@,
                        i <= attrs.len(),
                        forall|j: int| 0 <= j < i ==> !bad_root_attr()(#[trigger] attrs[j]),
                    decreases attrs.len() - i,
                {
                    let a = &tag.attributes[i];
                    if (str_eq(a.key.as_str(), "xml:id") || str_eq(a.key.as_str(), "version")) && a.value.is_none() {
                        proof {
                            lemma_first_index_at(attrs, bad_root_attr(), i as int);
                        }
                        return Err(FoliaError::ParseError("Unable to parse attribute value (invalid utf-8?)".to_owned()));
                    }
                    i += 1;
                }
                proof {
                    lemma_first_index_at(attrs, bad_root_attr(), attrs.len() as int);
                }
                match attribute_value(&tag.attributes, "xml:id") {
                    Some(id) => {
                        doc.id = id;
                    },
                    None => {},
                }
                match attribute_value(&tag.attributes, "version") {
                    Some(version) => {
                        doc.version = version;
                    },
                    None => {},
                }
                self.phase = ParsePhase::Metadata;
                Ok(false)
            },
            XmlEvent::Eof => Err(FoliaError::ParseError("Premature end of document".to_owned())),
            _ => Ok(false),
        }
    }
}

/// The value of the last attribute named ``id`` or ``xml:id`` that has a value, if any.
pub open spec fn last_id_value(attrs: Seq<XmlAttribute>) -> Option<Seq<char>>
    decreases attrs.len(),
{
    if attrs.len() == 0 {
        None
    } else if (attrs.last().key@ == "id"@ || attrs.last().key@ == "xml:id"@) && attrs.last().value is Some {
        Some(attrs.last().value->0@)
    } else {
        last_id_value(attrs.drop_last())
    }
}

/// The value of the last attribute named ``id`` or ``xml:id`` that has a value, if any.
fn id_attribute_value(attrs: &Vec<XmlAttribute>) -> (r: Option<String>)
    ensures
        opt_view(r) == last_id_value(attrs@),
{
    let mut i: usize = attrs.len();
    assert(attrs@.take(i as int) =~= attrs@);
    while i > 0
        invariant
            i <= attrs@.len(),
            last_id_value(attrs@) == last_id_value(attrs@.take(i as int)),
        decreases i,
    {
        let a = &attrs[i - 1];
        proof {
            assert(attrs@.take(i as int).drop_last() =~= attrs@.take(i - 1));
        }
        if str_eq(a.key.as_str(), "id") || str_eq(a.key.as_str(), "xml:id") {
            match &a.value {
                Some(v) => {
                    return Some(v.clone());
                },
                None => {},
            }
        }
        i -= 1;
    }
    None
}

/// The first of two optional texts that is there.
pub open spec fn opt_or(a: Option<Seq<char>>, b: Option<Seq<char>>) -> Option<Seq<char>> {
    if a is Some { a } else { b }
}

/// The first of two optional strings that is there.
fn string_or(a: Option<String>, b: Option<String>) -> (r: Option<String>)
    ensures
        opt_view(r) == opt_or(opt_view(a), opt_view(b)),
{
    match a {
        Some(x) => Some(x),
        None => b,
    }
}

/// Everything but the metadata is as in `other`.
pub open spec fn same_but_metadata(d1: Document, d0: Document) -> bool {
    &&& d1.id == d0.id
    &&& d1.version == d0.version
    &&& d1.filename == d0.filename
    &&& d1.elementstore == d0.elementstore
    &&& d1.declarationstore == d0.declarationstore
    &&& d1.provenancestore == d0.provenancestore
    &&& d1.autodeclare == d0.autodeclare
}

/// The error for a tag outside the FoLiA namespace.
pub open spec fn namespace_error(t: XmlTag, r: Result<bool, FoliaError>) -> bool {
    match t.namespace {
        Some(ns) => is_parse_error(r, "Expected FoLiA namespace, got namespace "@ + ns@ + " with tag "@ + t.name@),
        None => is_parse_error(r, "Expected FoLiA namespace, got no namespace with tag "@ + t.name@),
    }
}

/// What reading a processor tag within the provenance does: the processor is added, at the top
/// level or under the innermost open processor, and (for a start tag) opened.
pub open spec fn processor_outcome(s0: ParseState, d0: Document, t: XmlTag, opens: bool, s1: ParseState, d1: Document,
    r: Result<bool, FoliaError>) -> bool {
    let i = first_index(t.attributes@, bad_processor_attr());
    &&& i < t.attributes@.len() ==> (r matches Err(FoliaError::ParseError(m)) && m@ == processor_attr_error(t.attributes@[i])->0)
    &&& r is Ok ==> {
        &&& r == Ok::<bool, FoliaError>(false)
        &&& d1.same_but_processors(&d0)
        &&& if opens {
            &&& s1 == (ParseState { processor_stack: s1.processor_stack, ..s0 })
            &&& s1.processor_stack@.len() == s0.processor_stack@.len() + 1
            &&& s1.processor_stack@.drop_last() == s0.processor_stack@
            &&& d1.processor_at(s1.processor_stack@.last() as int) is Some
        } else {
            s1 == s0
        }
        &&& d1.provenancestore.chain@.len() >= d0.provenancestore.chain@.len()
        &&& opens ==> d1.processor_at(s1.processor_stack@.last() as int)->0.id@ == or_empty(last_value(t.attributes@, "xml:id"@))
        &&& s0.processor_stack@.len() == 0 && !d0.processor_index().contains_key(or_empty(last_value(t.attributes@, "xml:id"@)))
            ==> exists|p: Processor| #[trigger] parsed_processor(t.attributes@, p)
                && d1.procs() == d0.procs().push(Some(crate::store::Storable::keyed(p, d0.procs().len())))
    }
}

/// What reading a start tag within the metadata does.
pub open spec fn metadata_start_outcome(s0: ParseState, d0: Document, t: XmlTag, s1: ParseState, d1: Document,
    r: Result<bool, FoliaError>) -> bool {
    let attrs = t.attributes@;
    if !is_folia(t.namespace) {
        namespace_error(t, r)
    } else if t.name@ == "metadata"@ {
        &&& r == Ok::<bool, FoliaError>(false) && s1 == s0
        &&& opt_view(d1.metadata.src) == opt_or(last_value(attrs, "src"@), opt_view(d0.metadata.src))
        &&& opt_view(d1.metadata.metadatatype) == opt_or(last_value(attrs, "type"@), opt_view(d0.metadata.metadatatype))
        &&& d1.metadata.data == d0.metadata.data
        &&& same_but_metadata(d1, d0)
    } else if t.name@ == "annotations"@ {
        r == Ok::<bool, FoliaError>(false) && s1 == (ParseState { parsedeclarations: true, ..s0 }) && d1 == d0
    } else if t.name@ == "provenance"@ {
        r == Ok::<bool, FoliaError>(false) && s1 == (ParseState { parseprovenance: true, ..s0 }) && d1 == d0
    } else if t.name@ == "submetadata"@ {
        let id = opt_or(last_value(attrs, "xml:id"@), opt_view(s0.submetadata));
        if id is None {
            is_parse_error(r, "Submetadata has no ID"@)
        } else {
            &&& r == Ok::<bool, FoliaError>(false) && d1 == d0
            &&& s1 == (ParseState { submetadata: s1.submetadata, ..s0 })
            &&& opt_view(s1.submetadata) == id
        }
    } else if t.name@ == "meta"@ {
        &&& r == Ok::<bool, FoliaError>(false) && d1 == d0
        &&& s1 == (ParseState { meta_id: s1.meta_id, text: None, ..s0 })
        &&& opt_view(s1.meta_id) == opt_or(last_id_value(attrs), opt_view(s0.meta_id))
    } else if t.name@ == "processor"@ && s0.parseprovenance {
        processor_outcome(s0, d0, t, true, s1, d1, r)
    } else if s0.parsedeclarations {
        &&& !is_declaration_tag(t.name@) ==> (r matches Err(FoliaError::ParseError(m))
            && m@ == "Expected declaration element, got: "@ + t.name@)
        &&& is_declaration_tag(t.name@) && annotation_of_name(t.name@.take(type_end(t.name@))) is Some
            && d0.decls().len() <= DecKey::MAX ==> r is Ok
        &&& r is Ok ==> {
            &&& r == Ok::<bool, FoliaError>(false)
            &&& s1 == (ParseState { declaration_key: s1.declaration_key, ..s0 })
            &&& s1.declaration_key matches Some(k) && d1.declaration_at(k as int) is Some
            &&& Some(d1.declaration_at(s1.declaration_key->0 as int)->0.annotationtype)
                == annotation_of_name(t.name@.take(type_end(t.name@)))
            &&& opt_view(d1.declaration_at(s1.declaration_key->0 as int)->0.set) == last_value(attrs, "set"@)
            &&& d1.same_but_declarations(&d0)
        }
    } else {
        is_parse_error(r, "Unexpected FoLiA element: "@ + t.name@)
    }
}

/// What reading an empty tag within the metadata does.
pub open spec fn metadata_empty_outcome(s0: ParseState, d0: Document, t: XmlTag, s1: ParseState, d1: Document,
    r: Result<bool, FoliaError>) -> bool {
    if is_folia(t.namespace) && t.name@ == "processor"@ && s0.parseprovenance {
        processor_outcome(s0, d0, t, false, s1, d1, r)
    } else if is_folia(t.namespace) && t.name@ == "annotator"@ && s0.parsedeclarations {
        &&& r == Ok::<bool, FoliaError>(false) && d1 == d0
        &&& match (last_value(t.attributes@, "processor"@), s0.declaration_key) {
            (Some(id), Some(dk)) => {
                &&& s1 == (ParseState { annotators: s1.annotators, ..s0 })
                &&& s1.annotators@.drop_last() == s0.annotators@
                &&& s1.annotators@.len() == s0.annotators@.len() + 1
                &&& s1.annotators@.last().0 == dk && s1.annotators@.last().1@ == id
            },
            _ => s1 == s0,
        }
    } else {
        r == Ok::<bool, FoliaError>(false) && s1 == s0 && d1 == d0
    }
}

/// The processors that the annotators of a declaration resolve to, in order: those whose
/// processor exists.
pub open spec fn resolved(d: Document, annotators: Seq<(DecKey, String)>, k: int) -> Seq<ProcKey>
    decreases annotators.len(),
{
    if annotators.len() == 0 {
        Seq::empty()
    } else {
        let (dk, id) = annotators.last();
        let prev = resolved(d, annotators.drop_last(), k);
        if dk == k && d.processor_index().contains_key(id@) {
            prev.push(d.processor_index()[id@] as ProcKey)
        } else {
            prev
        }
    }
}

/// Each declaration got the processors that its annotators resolve to.
pub open spec fn annotators_resolved(d0: Document, annotators: Seq<(DecKey, String)>, d1: Document) -> bool {
    &&& d1.same_but_declarations(&d0)
    &&& d1.declaration_index() == d0.declaration_index()
    &&& d1.decls().len() == d0.decls().len()
    &&& forall|k: int| 0 <= k < d0.decls().len() ==> {
        let x = (#[trigger] d1.decls()[k])->0;
        &&& x == (Declaration { processors: x.processors, ..d0.decls()[k]->0 })
        &&& x.processors@ == d0.decls()[k]->0.processors@ + resolved(d0, annotators, k)
    }
}

/// What reading an end tag within the metadata does.
pub open spec fn metadata_end_outcome(s0: ParseState, d0: Document, t: XmlTag, s1: ParseState, d1: Document,
    r: Result<bool, FoliaError>) -> bool {
    &&& r == Ok::<bool, FoliaError>(false)
    &&& if !is_folia(t.namespace) {
        s1 == s0 && d1 == d0
    } else if t.name@ == "submetadata"@ {
        s1 == (ParseState { submetadata: None, ..s0 }) && d1 == d0
    } else if t.name@ == "metadata"@ {
        s1 == (ParseState { phase: ParsePhase::FindBody, ..s0 }) && d1 == d0
    } else if t.name@ == "annotations"@ {
        s1 == (ParseState { parsedeclarations: false, ..s0 }) && d1 == d0
    } else if t.name@ == "provenance"@ {
        s1 == (ParseState { parseprovenance: false, ..s0 }) && annotators_resolved(d0, s0.annotators@, d1)
    } else if t.name@ == "processor"@ && s0.parseprovenance {
        &&& s1 == (ParseState { processor_stack: s1.processor_stack, ..s0 })
        &&& s1.processor_stack@ == if s0.processor_stack@.len() > 0 {
            s0.processor_stack@.drop_last()
        } else {
            s0.processor_stack@
        }
        &&& d1 == d0
    } else if t.name@ == "meta"@ {
        &&& s1 == s0
        &&& match (s0.text, s0.meta_id, s0.submetadata) {
            (Some(text), Some(id), None) => {
                &&& d1.metadata.data.map_view() == d0.metadata.data.map_view().insert(id@, text@)
                &&& d1.metadata.src == d0.metadata.src && d1.metadata.metadatatype == d0.metadata.metadatatype
                &&& same_but_metadata(d1, d0)
            },
            _ => d1 == d0,
        }
    } else if t.name@ == "annotator"@ && s0.parsedeclarations {
        s1 == s0 && d1 == d0
    } else if s0.parsedeclarations {
        s1 == (ParseState { declaration_key: None, ..s0 }) && d1 == d0
    } else {
        s1 == s0 && d1 == d0
    }
}

/// What reading an event within the metadata does.
pub open spec fn metadata_outcome(s0: ParseState, d0: Document, event: XmlEvent, s1: ParseState, d1: Document,
    r: Result<bool, FoliaError>) -> bool {
    match event {
        XmlEvent::Start(t) => metadata_start_outcome(s0, d0, t, s1, d1, r),
        XmlEvent::Empty(t) => metadata_empty_outcome(s0, d0, t, s1, d1, r),
        XmlEvent::End(t) => metadata_end_outcome(s0, d0, t, s1, d1, r),
        XmlEvent::Text(x) => r == Ok::<bool, FoliaError>(false) && s1 == (ParseState { text: Some(x), ..s0 }) && d1 == d0,
        XmlEvent::BadText(_) => r matches Err(FoliaError::XmlError(_)),
        XmlEvent::Eof => is_parse_error(r, "Premature end of document"@),
        _ => r == Ok::<bool, FoliaError>(false) && s1 == s0 && d1 == d0,
    }
}

impl ParseState {
    /// Reads a processor tag within the provenance.
    fn read_processor(&mut self, doc: &mut Document, tag: &XmlTag, opens: bool) -> (r: Result<bool, FoliaError>)
        requires
            old(self).wf(*old(doc)),
            old(self).phase is Metadata,
        ensures
            final(self).wf(*final(doc)),
            processor_outcome(*old(self), *old(doc), *tag, opens, *final(self), *final(doc), r),
    {
        let processor = match Processor::parse(tag) {
            Ok(p) => p,
            Err(e) => {
                return Err(e);
            },
        };
        let n = self.processor_stack.len();
        let key = if n == 0 {
            match doc.add_processor(processor) {
                Ok(k) => k,
                Err(e) => {
                    return Err(e);
                },
            }
        } else {
            let parent_key = self.processor_stack[n - 1];
            match doc.add_subprocessor(parent_key, processor) {
                Ok(k) => k,
                Err(e) => {
                    return Err(e);
                },
            }
        };
        proof {
            if n == 0 {
                if old(doc).processor_index().contains_key(processor.id@) {
                    old(doc).provenancestore.store.lemma_index(processor.id@);
                }
            } else {
                doc.provenancestore.store.lemma_index(processor.id@);
            }
        }
        if opens {
            self.processor_stack.push(key);
            proof {
                assert(self.processor_stack@.drop_last() =~= old(self).processor_stack@);
            }
        }
        Ok(false)
    }

    /// Reads a start tag within the metadata.
    fn metadata_start(&mut self, doc: &mut Document, tag: XmlTag) -> (r: Result<bool, FoliaError>)
        requires
            old(self).wf(*old(doc)),
            old(self).phase is Metadata,
        ensures
            final(self).wf(*final(doc)),
            metadata_start_outcome(*old(self), *old(doc), tag, *final(self), *final(doc), r),
    {
        if !in_folia(&tag.namespace) {
            return match &tag.namespace {
                Some(ns) => Err(FoliaError::ParseError(concat4("Expected FoLiA namespace, got namespace ", ns.as_str(),
                    " with tag ", tag.name.as_str()))),
                None => Err(FoliaError::ParseError(concat_str("Expected FoLiA namespace, got no namespace with tag ",
                    tag.name.as_str()))),
            };
        }
        let name = tag.name.as_str();
        if str_eq(name, "metadata") {
            let src = attribute_value(&tag.attributes, "src");
            let metadatatype = attribute_value(&tag.attributes, "type");
            let old_src = doc.metadata.src.take();
            doc.metadata.src = string_or(src, old_src);
            let old_type = doc.metadata.metadatatype.take();
            doc.metadata.metadatatype = string_or(metadatatype, old_type);
            Ok(false)
        } else if str_eq(name, "annotations") {
            self.parsedeclarations = true;
            Ok(false)
        } else if str_eq(name, "provenance") {
            self.parseprovenance = true;
            Ok(false)
        } else if str_eq(name, "submetadata") {
            let id = attribute_value(&tag.attributes, "xml:id");
            let previous = self.submetadata.take();
            self.submetadata = string_or(id, previous);
            if self.submetadata.is_none() {
                return Err(FoliaError::ParseError("Submetadata has no ID".to_owned()));
            }
            Ok(false)
        } else if str_eq(name, "meta") {
            let id = id_attribute_value(&tag.attributes);
            let previous = self.meta_id.take();
            self.meta_id = string_or(id, previous);
            self.text = None;
            Ok(false)
        } else if str_eq(name, "processor") && self.parseprovenance {
            self.read_processor(doc, &tag, true)
        } else if self.parsedeclarations {
            proof {
                if is_declaration_tag(tag.name@) && annotation_of_name(tag.name@.take(type_end(tag.name@))) is Some {
                    crate::types::lemma_annotation_name_read_back(tag.name@.take(type_end(tag.name@)));
                }
            }
            let declaration = match Declaration::parse(&tag) {
                Ok(d) => d,
                Err(e) => {
                    return Err(e);
                },
            };
            let ghost d = declaration;
            let key = match doc.add_declaration(declaration) {
                Ok(k) => k,
                Err(e) => {
                    return Err(e);
                },
            };
            proof {
                crate::types::lemma_annotation_name_round_trip(d.annotationtype);
                if old(doc).declaration_index().contains_key(d.id_spec()) {
                    old(doc).declarationstore.lemma_index(d.id_spec());
                    let e = old(doc).declaration_at(key as int)->0;
                    crate::metadata::lemma_declaration_id_injective(e.annotationtype, opt_view(e.set), d.annotationtype, opt_view(d.set));
                }
            }
            self.declaration_key = Some(key);
            Ok(false)
        } else {
            Err(FoliaError::ParseError(concat_str("Unexpected FoLiA element: ", name)))
        }
    }
}

impl ParseState {
    /// Reads an empty tag within the metadata.
    fn metadata_empty(&mut self, doc: &mut Document, tag: XmlTag) -> (r: Result<bool, FoliaError>)
        requires
            old(self).wf(*old(doc)),
            old(self).phase is Metadata,
        ensures
            final(self).wf(*final(doc)),
            metadata_empty_outcome(*old(self), *old(doc), tag, *final(self), *final(doc), r),
    {
        let folia = in_folia(&tag.namespace);
        if folia && str_eq(tag.name.as_str(), "processor") && self.parseprovenance {
            self.read_processor(doc, &tag, false)
        } else if folia && str_eq(tag.name.as_str(), "annotator") && self.parsedeclarations {
            match (attribute_value(&tag.attributes, "processor"), self.declaration_key) {
                (Some(id), Some(dk)) => {
                    self.annotators.push((dk, id));
                    proof {
                        assert(self.annotators@.drop_last() =~= old(self).annotators@);
                    }
                },
                _ => {},
            }
            Ok(false)
        } else {
            Ok(false)
        }
    }

    /// Gives each declaration the processors that its annotators name, where they exist.
    fn resolve_annotators(&self, doc: &mut Document)
        requires
            old(doc).wf(),
        ensures
            final(doc).wf(),
            annotators_resolved(*old(doc), self.annotators@, *final(doc)),
    {
        let ghost d0 = *old(doc);
        let mut i: usize = 0;
        proof {
            assert forall|k: int| 0 <= k < d0.decls().len() implies {
                let x = (#[trigger] doc.decls()[k])->0;
                &&& x == (Declaration { processors: x.processors, ..d0.decls()[k]->0 })
                &&& x.processors@ == d0.decls()[k]->0.processors@ + resolved(d0, self.annotators@.take(0), k)
            } by {
                assert(d0.decls()[k]->0.processors@ + resolved(d0, self.annotators@.take(0), k)
                    =~= d0.decls()[k]->0.processors@);
            }
        }
        while i < self.annotators.len()
            invariant
                d0.wf(),
                doc.wf(),
                i <= self.annotators@.len(),
                annotators_resolved(d0, self.annotators@.take(i as int), *doc),
            decreases self.annotators@.len() - i,
        {
            let ghost before = *doc;
            let ghost ann = self.annotators@.take(i + 1);
            proof {
                assert(ann.drop_last() =~= self.annotators@.take(i as int));
                assert(ann.last() == self.annotators@[i as int]);
            }
            let dk = self.annotators[i].0;
            match doc.get_processor_key_by_id(self.annotators[i].1.as_str()) {
                Some(pk) => {
                    match doc.get_mut_declaration(dk) {
                        Some(d) => {
                            d.processors.push(pk);
                        },
                        None => {},
                    }
                },
                None => {},
            }
            proof {
                assert forall|k: int| 0 <= k < d0.decls().len() implies {
                    let x = (#[trigger] doc.decls()[k])->0;
                    &&& x == (Declaration { processors: x.processors, ..d0.decls()[k]->0 })
                    &&& x.processors@ == d0.decls()[k]->0.processors@ + resolved(d0, ann, k)
                } by {
                    let y = before.decls()[k]->0;
                    assert(y.processors@ == d0.decls()[k]->0.processors@ + resolved(d0, self.annotators@.take(i as int), k));
                    if k == dk as int && d0.processor_index().contains_key(self.annotators@[i as int].1@) {
                        assert(resolved(d0, ann, k) == resolved(d0, self.annotators@.take(i as int), k).push(
                            d0.processor_index()[self.annotators@[i as int].1@] as ProcKey));
                        assert(doc.decls()[k]->0.processors@ =~= d0.decls()[k]->0.processors@ + resolved(d0, ann, k));
                    } else {
                        assert(resolved(d0, ann, k) == resolved(d0, self.annotators@.take(i as int), k));
                    }
                }
            }
            i += 1;
        }
        proof {
            assert(self.annotators@.take(self.annotators@.len() as int) =~= self.annotators@);
        }
    }

    /// Reads an end tag within the metadata.
    fn metadata_end(&mut self, doc: &mut Document, tag: XmlTag) -> (r: Result<bool, FoliaError>)
        requires
            old(self).wf(*old(doc)),
            old(self).phase is Metadata,
        ensures
            final(self).wf(*final(doc)),
            metadata_end_outcome(*old(self), *old(doc), tag, *final(self), *final(doc), r),
    {
        if !in_folia(&tag.namespace) {
            return Ok(false);
        }
        let name = tag.name.as_str();
        if str_eq(name, "submetadata") {
            self.submetadata = None;
        } else if str_eq(name, "metadata") {
            self.phase = ParsePhase::FindBody;
        } else if str_eq(name, "annotations") {
            self.parsedeclarations = false;
        } else if str_eq(name, "provenance") {
            self.parseprovenance = false;
            self.resolve_annotators(doc);
        } else if str_eq(name, "processor") && self.parseprovenance {
            self.processor_stack.pop();
        } else if str_eq(name, "meta") {
            match (&self.text, &self.meta_id, &self.submetadata) {
                (Some(text), Some(id), None) => {
                    doc.metadata.data.insert(id.clone(), text.clone());
                },
                _ => {},
            }
        } else if str_eq(name, "annotator") && self.parsedeclarations {
        } else if self.parsedeclarations {
            self.declaration_key = None;
        }
        Ok(false)
    }

    /// Reads an event within the metadata: declarations, processors and metadata fields.
    fn step_metadata(&mut self, doc: &mut Document, event: XmlEvent) -> (r: Result<bool, FoliaError>)
        requires
            old(self).wf(*old(doc)),
            old(self).phase is Metadata,
        ensures
            final(self).wf(*final(doc)),
            metadata_outcome(*old(self), *old(doc), event, *final(self), *final(doc), r),
    {
        match event {
            XmlEvent::Start(tag) => self.metadata_start(doc, tag),
            XmlEvent::Empty(tag) => self.metadata_empty(doc, tag),
            XmlEvent::End(tag) => self.metadata_end(doc, tag),
            XmlEvent::Text(text) => {
                self.text = Some(text);
                Ok(false)
            },
            XmlEvent::BadText(e) => Err(FoliaError::XmlError(e)),
            XmlEvent::Eof => Err(FoliaError::ParseError("Premature end of document".to_owned())),
            _ => Ok(false),
        }
    }
}

/// Attaching a child that exists to a parent that exists keeps every element.
pub proof fn lemma_attached_grown(m: Seq<Option<ElementModel>>, parent: ElementKey, child: ElementKey)
    requires
        0 <= parent < m.len() && m[parent as int] is Some,
        0 <= child < m.len() && m[child as int] is Some,
    ensures
        elems_grown(m, attached(m, parent, child)),
        attached(m, parent, child).len() == m.len(),
{
    let a = attached(m, parent, child);
    assert forall|k: int| 0 <= k < m.len() && #[trigger] m[k] is Some implies a[k] is Some by {
    }
}

/// Attributes that are read from a tag leave nothing to decode.
pub proof fn lemma_read_decoded(e: ElementData)
    requires
        forall|j: int| 0 <= j < e.attribs@.len() ==> !(#[trigger] e.attribs@[j]).is_decodable(),
    ensures
        e.decoded_ok(AttribType::SET),
{
    lemma_first_index(e.attribs@, decoded_scan(AttribType::SET));
}

/// The element type of the body that a tag opens: a text, or else speech.
pub open spec fn body_type(name: Seq<char>) -> ElementType {
    if name == "text"@ { ElementType::Text } else { ElementType::Speech }
}

/// What reading an event between the metadata and the body does.
pub open spec fn find_body_outcome(s0: ParseState, d0: Document, event: XmlEvent, s1: ParseState, d1: Document,
    r: Result<bool, FoliaError>) -> bool {
    match event {
        XmlEvent::Start(t) => if is_folia(t.namespace) && (t.name@ == "text"@ || t.name@ == "speech"@) {
            let bodytype = if t.name@ == "text"@ { ElementType::Text } else { ElementType::Speech };
            if first_index(t.attributes@, rejected(bodytype)) < t.attributes@.len() {
                is_parse_error(r, "No body found"@)
            } else {
                r is Ok ==> {
                    &&& r == Ok::<bool, FoliaError>(false)
                    &&& s1.phase is Elements
                    &&& s1.stack@ == seq![0u32]
                    &&& d1.models().len() == 1
                    &&& d1.models()[0] matches Some(body) && body.elementtype == bodytype && body.data.len() == 0
                        && body.parent is None && body.key == Some(0u32)
                    &&& exists|e: ElementData, ch: Seq<ElementData>| #[trigger] parsed_attributes(body_type(t.name@), t.attributes@, e.attribs@, ch)
                        && d1.element_at(0)->0.id_of() == e.id_of()
                        && (!e.is_encodable() ==> d1.element_at(0)->0.attribs@ == e.attribs@)
                    &&& forall|i: int| 0 <= i < s0.properties->0.declare@.len() ==>
                        declared(d1, (#[trigger] s0.properties->0.declare@[i]).0, opt_view(s0.properties->0.declare@[i].1))
                    &&& d1.same_but_content(&d0)
                }
            }
        } else {
            namespace_error(t, r)
        },
        XmlEvent::Eof => is_parse_error(r, "Premature end of document"@),
        _ => r == Ok::<bool, FoliaError>(false) && s1 == s0 && d1 == d0,
    }
}

impl ParseState {
    /// Reads an event between the metadata and the body; the body (``text`` or ``speech``) is
    /// added as the root element, with key 0, and the properties' declarations are made.
    fn step_find_body(&mut self, doc: &mut Document, event: XmlEvent) -> (r: Result<bool, FoliaError>)
        requires
            old(self).wf(*old(doc)),
            old(self).phase is FindBody,
        ensures
            final(self).wf(*final(doc)),
            find_body_outcome(*old(self), *old(doc), event, *final(self), *final(doc), r),
    {
        match event {
            XmlEvent::Start(tag) => {
                let folia = in_folia(&tag.namespace);
                let is_text = str_eq(tag.name.as_str(), "text");
                let is_speech = str_eq(tag.name.as_str(), "speech");
                if folia && (is_text || is_speech) {
                    let bodytype = if is_text { ElementType::Text } else { ElementType::Speech };
                    let (attribs, children) = match ElementData::parse_attributes(&tag.attributes, bodytype) {
                        Ok(x) => x,
                        Err(_) => {
                            return Err(FoliaError::ParseError("No body found".to_owned()));
                        },
                    };
                    let ghost body_children = children@;
                    let body = ElementData::new(bodytype).with_attribs(attribs);
                    assert(parsed_attributes(bodytype, tag.attributes@, body.attribs@, body_children));
                    proof {
                        lemma_read_decoded(body);
                    }
                    let ghost d0 = *doc;
                    match doc.add(body, None) {
                        Ok(_) => {},
                        Err(e) => {
                            self.phase = ParsePhase::Done;
                            return Err(e);
                        },
                    }
                    let ghost d1 = *doc;
                    let properties = match self.properties.take() {
                        Some(p) => p,
                        None => {
                            self.phase = ParsePhase::Done;
                            return Err(FoliaError::InternalError("No properties".to_owned()));
                        },
                    };
                    match doc.apply_properties(properties) {
                        Ok(()) => {},
                        Err(e) => {
                            self.phase = ParsePhase::Done;
                            return Err(e);
                        },
                    }
                    proof {
                        assert(doc.models() == d1.models());
                        assert(doc.models()[0] is Some);
                    }
                    self.stack = vec![0];
                    self.phase = ParsePhase::Elements;
                    assert(self.stack@ == seq![0u32]);
                    assert(doc.models().len() == 1);
                    assert(doc.models()[0]->0.elementtype == bodytype);
                    assert(doc.models()[0]->0.data.len() == 0);
                    assert(doc.models()[0]->0.key == Some(0u32));
                    assert(doc.same_but_content(&d0));
                    proof {
                        assert(doc.element_at(0) == d1.element_at(0));
                        assert(doc.element_at(0)->0.id_of() == body.id_of());
                        if !body.is_encodable() {
                            assert(doc.element_at(0)->0.attribs@ == body.attribs@);
                        }
                        assert(bodytype == body_type(tag.name@));
                        assert(exists|e: ElementData, ch: Seq<ElementData>| #[trigger] parsed_attributes(
                            body_type(tag.name@), tag.attributes@, e.attribs@, ch)
                            && doc.element_at(0)->0.id_of() == e.id_of()
                            && (!e.is_encodable() ==> doc.element_at(0)->0.attribs@ == e.attribs@));
                    }
                    Ok(false)
                } else {
                    match &tag.namespace {
                        Some(ns) => Err(FoliaError::ParseError(concat4("Expected FoLiA namespace, got namespace ", ns.as_str(),
                            " with tag ", tag.name.as_str()))),
                        None => Err(FoliaError::ParseError(concat_str("Expected FoLiA namespace, got no namespace with tag ",
                            tag.name.as_str()))),
                    }
                }
            },
            XmlEvent::Eof => Err(FoliaError::ParseError("Premature end of document".to_owned())),
            _ => Ok(false),
        }
    }
}

/// Attaching a child to a parent changes the type of no element.
pub proof fn lemma_attached_types(m: Seq<Option<ElementModel>>, parent: ElementKey, child: ElementKey, k: int)
    requires
        0 <= parent < m.len() && m[parent as int] is Some,
        0 <= child < m.len() && m[child as int] is Some,
        0 <= k < m.len() && m[k] is Some,
    ensures
        attached(m, parent, child)[k] is Some,
        attached(m, parent, child)[k]->0.elementtype == m[k]->0.elementtype,
{
}

/// Holds for a text of nothing but white space.
pub open spec fn blank(s: Seq<char>) -> bool {
    forall|i: int| 0 <= i < s.len() ==> is_white_space(#[trigger] s[i])
}

/// The elements after a data item was appended to one of them.
pub open spec fn appended(d0: Document, key: ElementKey, item: DataType, d1: Document) -> bool {
    let e = d0.models()[key as int]->0;
    &&& d1.models() == d0.models().update(key as int, Some(ElementModel { data: e.data.push(item), ..e }))
    &&& d1.same_but_elements(&d0)
    &&& d1.element_index() == d0.element_index()
}

/// A feature that an attribute stands for: nothing in it is to be decoded.
pub open spec fn read_feature(e: ElementData) -> bool {
    &&& e.elementtype == ElementType::Feature
    &&& forall|j: int| 0 <= j < e.attribs@.len() ==> !(#[trigger] e.attribs@[j]).is_decodable()
}

/// What reading an event within the body does.
pub open spec fn elements_outcome(s0: ParseState, d0: Document, event: XmlEvent, s1: ParseState, d1: Document,
    r: Result<bool, FoliaError>) -> bool {
    match event {
        XmlEvent::Start(t) => if !is_folia(t.namespace) {
            r == Ok::<bool, FoliaError>(false) && s1 == s0 && d1 == d0
        } else {
            &&& type_of_tag(t.name@) is None ==> is_parse_error(r, "Unknown tag has no associated element type: "@ + t.name@)
            &&& tag_storable(d0, t, false) ==> r is Ok
            &&& r is Ok ==> {
                &&& r == Ok::<bool, FoliaError>(false)
                &&& s1 == (ParseState { stack: s1.stack, ..s0 })
                &&& s1.stack@.len() == s0.stack@.len() + 1
                &&& s1.stack@.drop_last() == s0.stack@
                &&& d1_grown(d0, d1)
                &&& exists|e: ElementData, ch: Seq<ElementData>, k: ElementKey| #[trigger] parsed_element(t, e, ch)
                    && #[trigger] started(d0, d1, s1, e, k, false)
            }
        },
        XmlEvent::Empty(t) => if !is_folia(t.namespace) {
            r == Ok::<bool, FoliaError>(false) && s1 == s0 && d1 == d0
        } else {
            &&& type_of_tag(t.name@) is None ==> is_parse_error(r, "Unknown tag has no associated element type: "@ + t.name@)
            &&& tag_storable(d0, t, true) ==> r is Ok
            &&& r is Ok ==> {
                &&& r == Ok::<bool, FoliaError>(false)
                &&& s1 == s0
                &&& d1_grown(d0, d1)
                &&& exists|e: ElementData, ch: Seq<ElementData>, k: ElementKey| #[trigger] parsed_element(t, e, ch)
                    && #[trigger] started(d0, d1, s1, e, k, true)
            }
        },
        XmlEvent::End(t) => if !is_folia(t.namespace) {
            r == Ok::<bool, FoliaError>(false) && s1 == s0 && d1 == d0
        } else if s0.stack@.len() <= 1 {
            r == Ok::<bool, FoliaError>(true) && s1 == (ParseState { phase: ParsePhase::Done, ..s0 }) && d1 == d0
        } else {
            &&& d0.element_at(s0.stack@.last() as int)->0.elementtype != ElementType::WordReference
                ==> (r is Ok <==> d0.element_at(s0.stack@.last() as int)->0.elementtype.tag() == t.name@)
            &&& r is Ok ==> {
                &&& r == Ok::<bool, FoliaError>(false)
                &&& s1 == (ParseState { stack: s1.stack, ..s0 })
                &&& s1.stack@ == s0.stack@.drop_last()
                &&& d1.same_but_elements(&d0)
                &&& elems_grown(d0.models(), d1.models())
                &&& types_kept(d0.models(), d1.models())
                &&& d1.element_at(s0.stack@.last() as int)->0.elementtype.tag() == t.name@
                &&& closed_into(d0, d1, s0.stack@.last(), s1.stack@.last())
            }
        },
        XmlEvent::Text(x) => if blank(x@) {
            r == Ok::<bool, FoliaError>(false) && s1 == s0 && d1 == d0
        } else {
            r == Ok::<bool, FoliaError>(false) && s1 == s0 && appended(d0, s0.stack@.last(), DataType::Text(x), d1)
        },
        XmlEvent::BadText(_) => r matches Err(FoliaError::XmlError(_)),
        XmlEvent::CData(x) => if blank(x@) {
            r == Ok::<bool, FoliaError>(false) && s1 == s0 && d1 == d0
        } else {
            r == Ok::<bool, FoliaError>(false) && s1 == s0 && appended(d0, s0.stack@.last(), DataType::Text(x), d1)
        },
        XmlEvent::Comment(x) => if blank(x@) {
            r == Ok::<bool, FoliaError>(false) && s1 == s0 && d1 == d0
        } else {
            r == Ok::<bool, FoliaError>(false) && s1 == s0 && appended(d0, s0.stack@.last(), DataType::Comment(x), d1)
        },
        XmlEvent::Eof => r == Ok::<bool, FoliaError>(true) && s1 == (ParseState { phase: ParsePhase::Done, ..s0 }) && d1 == d0,
        XmlEvent::Other => r == Ok::<bool, FoliaError>(false) && s1 == s0 && d1 == d0,
    }
}

/// Appends a data item to an element that exists.
fn append_data(doc: &mut Document, key: ElementKey, item: DataType)
    requires
        old(doc).wf(),
        old(doc).element_at(key as int) is Some,
    ensures
        final(doc).wf(),
        appended(*old(doc), key, item, *final(doc)),
{
    let ghost m = doc.models();
    match doc.elementstore.store.get_mut(key as usize) {
        Some(e) => {
            e.push(item);
        },
        None => {},
    }
    proof {
        let e = m[key as int]->0;
        assert(doc.models() =~= m.update(key as int, Some(ElementModel { data: e.data.push(item), ..e })));
    }
}

/// Adds a parsed element under a parent; a feature needs a parent with an annotation type.
fn add_read(doc: &mut Document, element: ElementData, parent: ElementKey) -> (r: Result<ElementKey, FoliaError>)
    requires
        old(doc).wf(),
        old(doc).element_at(parent as int) is Some,
        forall|j: int| 0 <= j < element.attribs@.len() ==> !(#[trigger] element.attribs@[j]).is_decodable(),
    ensures
        final(doc).wf(),
        final(doc).same_but_content(old(doc)),
        elems_grown(old(doc).models(), final(doc).models()),
        decls_grown(old(doc).decls(), final(doc).decls()),
        types_kept(old(doc).models(), final(doc).models()),
        r matches Ok(k) ==> final(doc).element_at(k as int) is Some
            && crate::document::stored(old(doc).models(), final(doc).models(), element, k),
        !(element.id_of() matches Some(id) && old(doc).element_index().contains_key(id))
            ==> (r matches Ok(k) ==> k == old(doc).elems().len()),
        !element.is_encodable() && old(doc).elems().len() <= ElementKey::MAX ==> r is Ok,
        crate::document::encodes_ok(*old(doc), element) && old(doc).elems().len() <= ElementKey::MAX
            && !(element.id_of() matches Some(id) && old(doc).element_index().contains_key(id)) ==> r is Ok,
        element.is_encodable() && element.elementtype == ElementType::Feature
            && old(doc).element_at(parent as int)->0.elementtype.annotation() is None
            ==> (r matches Err(FoliaError::InternalError(m)) && m@ == "Context for feature has no annotation type"@),
{
    if element.encodable() && element.elementtype == ElementType::Feature {
        match doc.get_elementdata(parent) {
            Some(p) => {
                if p.elementtype.annotationtype().is_none() {
                    return Err(FoliaError::InternalError("Context for feature has no annotation type".to_owned()));
                }
            },
            None => {},
        }
    }
    proof {
        lemma_read_decoded(element);
    }
    let ghost m = doc.models();
    match doc.add(element, Some(parent)) {
        Ok(k) => {
            proof {
                lemma_stored_grown(m, doc.models(), element, k);
                lemma_stored_types(m, doc.models(), element, k);
            }
            Ok(k)
        },
        Err(e) => Err(e),
    }
}

impl ParseState {
    /// Reads a start or empty tag within the body: the element is added under the innermost open
    /// element, with the features that its attributes stand for; a start tag opens it, an empty tag
    /// closes it at once.
    fn element_start(&mut self, doc: &mut Document, tag: XmlTag, empty: bool) -> (r: Result<bool, FoliaError>)
        requires
            old(self).wf(*old(doc)),
            old(self).phase is Elements,
            is_folia(tag.namespace),
        ensures
            final(self).wf(*final(doc)),
            type_of_tag(tag.name@) is None ==> is_parse_error(r, "Unknown tag has no associated element type: "@ + tag.name@),
            type_of_tag(tag.name@) matches Some(t) ==> (first_index(tag.attributes@, rejected(t)) < tag.attributes@.len()
                ==> (r matches Err(e) && attribute_error(tag.attributes@[first_index(tag.attributes@, rejected(t))],
                    Err::<(Vec<Attribute>, Vec<ElementData>), FoliaError>(e)))),
            tag_storable(*old(doc), tag, empty) ==> r is Ok,
            r is Ok ==> {
                &&& r == Ok::<bool, FoliaError>(false)
                &&& d1_grown(*old(doc), *final(doc))
                &&& exists|e: ElementData, ch: Seq<ElementData>, k: ElementKey| #[trigger] parsed_element(tag, e, ch)
                    && #[trigger] started(*old(doc), *final(doc), *final(self), e, k, empty)
                &&& if empty {
                    *final(self) == *old(self)
                } else {
                    &&& *final(self) == (ParseState { stack: final(self).stack, ..*old(self) })
                    &&& final(self).stack@.len() == old(self).stack@.len() + 1
                    &&& final(self).stack@.drop_last() == old(self).stack@
                }
            },
    {
        proof {
            if tag_storable(*doc, tag, empty) {
                let (e, ch) = choose|e: ElementData, ch: Seq<ElementData>| #[trigger] parsed_element(tag, e, ch);
                assert(parsed_element(tag, e, ch));
            }
        }
        let (element, children) = match ElementData::parse(&tag) {
            Ok(x) => x,
            Err(e) => {
                return Err(e);
            },
        };
        let ghost d0 = *doc;
        let ghost t = type_of_tag(tag.name@)->0;
        let ghost nchildren = children@.len();
        proof {
            assert forall|j: int| 0 <= j < children@.len() implies read_feature(#[trigger] children@[j]) by {
                let sa = shortcut_attrs(t, tag.attributes@);
                assert(is_shortcut_feature(children@[j], sa[j].key@, sa[j].value->0@));
            }
        }
        let parent = self.stack[self.stack.len() - 1];
        proof {
            assert(doc.element_at(self.stack@[self.stack@.len() - 1] as int) is Some);
        }
        let ghost parsed = element;
        let ghost parsed_children = children@;
        assert(parsed_element(tag, parsed, parsed_children));
        let ghost ok_case = tag_storable(d0, tag, empty);
        proof {
            if ok_case {
                assert(storable(d0, parsed, parsed_children, empty));
            }
        }
        let key = match add_read(doc, element, parent) {
            Ok(k) => k,
            Err(e) => {
                proof {
                    assert forall|i: int| 0 <= i < self.stack@.len() implies doc.element_at(#[trigger] self.stack@[i] as int) is Some by {
                        crate::annotation::lemma_grown_keeps(d0, *doc, self.stack@[i] as int);
                    }
                }
                return Err(e);
            },
        };
        proof {
            assert forall|i: int| 0 <= i < self.stack@.len() implies doc.element_at(#[trigger] self.stack@[i] as int) is Some by {
                crate::annotation::lemma_grown_keeps(d0, *doc, self.stack@[i] as int);
            }
        }
        let ghost d1 = *doc;
        proof {
            crate::annotation::lemma_stored_types(d0.models(), d1.models(), parsed, key);
            if key == d0.elems().len() {
                assert(d1.models()[key as int]->0.elementtype == parsed.elementtype);
            }
            if ok_case {
                assert(key == d0.elems().len());
            }
        }
        if empty {
            let ghost m = doc.models();
            match doc.attach_element(parent, key) {
                Ok(()) => {},
                Err(e) => {
                    return Err(e);
                },
            }
            proof {
                lemma_attached_grown(m, parent, key);
                lemma_grown_trans(d0.models(), m, doc.models());
                lemma_attached_kept(m, parent, key);
                lemma_types_kept_trans(d0.models(), m, doc.models());
                assert(m == d1.models());
                assert forall|i: int| 0 <= i < self.stack@.len() implies doc.element_at(#[trigger] self.stack@[i] as int) is Some by {
                    crate::annotation::lemma_grown_keeps(d1, *doc, self.stack@[i] as int);
                }
            }
        } else {
            self.stack.push(key);
            proof {
                assert(self.stack@.drop_last() =~= old(self).stack@);
            }
        }
        let mut children = children;
        let ghost d2 = *doc;
        while children.len() > 0
            invariant
                self.wf(*doc),
                self.phase is Elements,
                old(self).phase is Elements,
                type_of_tag(tag.name@) is Some,
                doc.element_at(key as int) is Some,
                doc.same_but_content(&d0),
                elems_grown(d0.models(), doc.models()),
                decls_grown(d0.decls(), doc.decls()),
                types_kept(d0.models(), doc.models()),
                types_kept(d1.models(), doc.models()),
                d1.element_at(key as int) is Some,
                !empty ==> self.stack@.last() == key,
                parsed_element(tag, parsed, parsed_children),
                ok_case == tag_storable(*old(doc), tag, empty),
                ok_case ==> children@.len() == 0 && key == d0.elems().len()
                    && d1.models()[key as int]->0.elementtype == parsed.elementtype
                    && (empty ==> parsed.elementtype != ElementType::WordReference),
                forall|j: int| 0 <= j < children@.len() ==> read_feature(#[trigger] children@[j]),
                *self == *old(self) || (empty == false && *self == (ParseState { stack: self.stack, ..*old(self) })
                    && self.stack@.len() == old(self).stack@.len() + 1 && self.stack@.drop_last() == old(self).stack@),
            decreases children@.len(),
        {
            let ghost before = children@;
            let child = children.remove(0);
            proof {
                assert(read_feature(before[0]));
                assert forall|j: int| 0 <= j < children@.len() implies read_feature(#[trigger] children@[j]) by {
                    assert(children@[j] == before[j + 1]);
                    assert(read_feature(before[j + 1]));
                }
            }
            let ghost m0 = doc.models();
            let ghost e0 = *doc;
            let child_key = match add_read(doc, child, key) {
                Ok(k) => k,
                Err(e) => {
                    proof {
                        lemma_grown_trans(d0.models(), m0, doc.models());
                        assert forall|i: int| 0 <= i < self.stack@.len() implies doc.element_at(#[trigger] self.stack@[i] as int) is Some by {
                            crate::annotation::lemma_grown_keeps(e0, *doc, self.stack@[i] as int);
                        }
                    }
                    return Err(e);
                },
            };
            let ghost m1 = doc.models();
            let ghost e1 = *doc;
            proof {
                crate::annotation::lemma_grown_keeps(e0, *doc, key as int);
            }
            match doc.attach_element(key, child_key) {
                Ok(()) => {},
                Err(e) => {
                    proof {
                        lemma_grown_trans(d0.models(), m0, m1);
                        assert forall|i: int| 0 <= i < self.stack@.len() implies doc.element_at(#[trigger] self.stack@[i] as int) is Some by {
                            crate::annotation::lemma_grown_keeps(e0, *doc, self.stack@[i] as int);
                        }
                    }
                    return Err(e);
                },
            }
            proof {
                lemma_attached_kept(m1, key, child_key);
                lemma_types_kept_trans(d1.models(), m0, m1);
                lemma_types_kept_trans(d1.models(), m1, doc.models());
                lemma_types_kept_trans(d0.models(), m0, m1);
                lemma_types_kept_trans(d0.models(), m1, doc.models());
                lemma_attached_grown(m1, key, child_key);
                lemma_grown_trans(d0.models(), m0, m1);
                lemma_grown_trans(d0.models(), m1, doc.models());
                lemma_grown_trans(m0, m1, doc.models());
                crate::annotation::lemma_grown_keeps(e1, *doc, key as int);
                assert forall|i: int| 0 <= i < self.stack@.len() implies doc.element_at(#[trigger] self.stack@[i] as int) is Some by {
                    crate::annotation::lemma_grown_keeps(e0, *doc, self.stack@[i] as int);
                }
            }
        }
        if empty {
            let ghost m = doc.models();
            let ghost e0 = *doc;
            match doc.post_add(key, Some(&self.stack)) {
                Ok(()) => {},
                Err(e) => {
                    return Err(e);
                },
            }
            proof {
                lemma_grown_trans(d0.models(), m, doc.models());
                lemma_types_kept_trans(d0.models(), m, doc.models());
                lemma_types_kept_trans(d1.models(), m, doc.models());
                assert forall|i: int| 0 <= i < self.stack@.len() implies doc.element_at(#[trigger] self.stack@[i] as int) is Some by {
                    crate::annotation::lemma_grown_keeps(e0, *doc, self.stack@[i] as int);
                }
            }
        }
        proof {
            assert(d1.models()[key as int] is Some);
            assert(doc.models()[key as int]->0.elementtype == d1.models()[key as int]->0.elementtype);
            assert(started(d0, *doc, *self, parsed, key, empty));
        }
        Ok(false)
    }
}

/// What the start tag of an element reads as: an element of the tag's type with the attributes
/// that the tag's attributes stand for, without data, key or parent, and its features.
pub open spec fn parsed_element(tag: XmlTag, e: ElementData, children: Seq<ElementData>) -> bool {
    &&& type_of_tag(tag.name@) matches Some(t) && e.elementtype == t
        && first_index(tag.attributes@, rejected(t)) >= tag.attributes@.len()
        && parsed_attributes(t, tag.attributes@, e.attribs@, children)
    &&& e.data@.len() == 0 && e.key is None && e.parent is None
}

/// An element read from a start tag can be stored: no features come with it, it can be encoded,
/// a key is left for it, its ID (if any) is not taken, and an element closed at once is no word
/// reference (which must refer to an element first).
pub open spec fn storable(d0: Document, e: ElementData, ch: Seq<ElementData>, empty: bool) -> bool {
    &&& ch.len() == 0
    &&& crate::document::encodes_ok(d0, e)
    &&& d0.elems().len() <= ElementKey::MAX
    &&& !(e.id_of() matches Some(id) && d0.element_index().contains_key(id))
    &&& empty ==> e.elementtype != ElementType::WordReference
}

/// The start tag reads as an element, and what it reads as can be stored.
pub open spec fn tag_storable(d0: Document, tag: XmlTag, empty: bool) -> bool {
    &&& exists|e: ElementData, ch: Seq<ElementData>| #[trigger] parsed_element(tag, e, ch)
    &&& forall|e: ElementData, ch: Seq<ElementData>| #[trigger] parsed_element(tag, e, ch) ==> storable(d0, e, ch, empty)
}

/// The element read from a start tag is under key `k`: a new element of its type, stored after
/// all others (always so when no element has its ID yet), or the element that was there
/// already with its ID; an element that stays open is the innermost open one.
pub open spec fn started(d0: Document, d1: Document, s1: ParseState, e: ElementData, k: ElementKey, empty: bool) -> bool {
    &&& d1.element_at(k as int) is Some
    &&& (k == d0.elems().len() && d1.element_at(k as int)->0.elementtype == e.elementtype)
        || (k < d0.elems().len() && d0.element_at(k as int) is Some)
    &&& !(e.id_of() matches Some(id) && d0.element_index().contains_key(id)) ==> k == d0.elems().len()
    &&& !empty ==> s1.stack@.last() == k
}

/// Closing an element attached it to the element around it: that is its parent now, and (unless
/// it was that element's child already, is that element, or is a word reference, whose closing
/// may touch other elements) it is the last item of that element's data.
pub open spec fn closed_into(d0: Document, d1: Document, closed: ElementKey, top: ElementKey) -> bool {
    &&& d1.element_at(closed as int) is Some
    &&& d1.element_at(closed as int)->0.parent == Some(top)
    &&& (closed != top && d0.element_at(closed as int)->0.parent != Some(top)
        && d0.element_at(closed as int)->0.elementtype != ElementType::WordReference)
        ==> d1.element_at(top as int)->0.data@ == d0.element_at(top as int)->0.data@.push(DataType::Element(closed))
}

/// The document grew: only its elements and declarations changed, and no element went away.
pub open spec fn d1_grown(d0: Document, d1: Document) -> bool {
    &&& d1.same_but_content(&d0)
    &&& elems_grown(d0.models(), d1.models())
    &&& decls_grown(d0.decls(), d1.decls())
    &&& types_kept(d0.models(), d1.models())
}

impl ParseState {
    /// Reads an end tag within the body: the innermost open element is closed (it must be of the
    /// tag's type) and attached to the element around it; the end of the body ends the parsing.
    fn element_end(&mut self, doc: &mut Document, tag: XmlTag) -> (r: Result<bool, FoliaError>)
        requires
            old(self).wf(*old(doc)),
            old(self).phase is Elements,
            is_folia(tag.namespace),
        ensures
            final(self).wf(*final(doc)),
            old(self).stack@.len() <= 1 ==> r == Ok::<bool, FoliaError>(true)
                && *final(self) == (ParseState { phase: ParsePhase::Done, ..*old(self) }) && *final(doc) == *old(doc),
            old(self).stack@.len() > 1 && r is Ok ==> {
                &&& r == Ok::<bool, FoliaError>(false)
                &&& *final(self) == (ParseState { stack: final(self).stack, ..*old(self) })
                &&& final(self).stack@ == old(self).stack@.drop_last()
                &&& final(doc).same_but_elements(old(doc))
                &&& elems_grown(old(doc).models(), final(doc).models())
                &&& types_kept(old(doc).models(), final(doc).models())
                &&& final(doc).element_at(old(self).stack@.last() as int)->0.elementtype.tag() == tag.name@
                &&& closed_into(*old(doc), *final(doc), old(self).stack@.last(), final(self).stack@.last())
            },
            old(self).stack@.len() > 1
                && old(doc).element_at(old(self).stack@.last() as int)->0.elementtype != ElementType::WordReference
                ==> (r is Ok <==> old(doc).element_at(old(self).stack@.last() as int)->0.elementtype.tag() == tag.name@),
    {
        if self.stack.len() <= 1 {
            self.phase = ParsePhase::Done;
            return Ok(true);
        }
        let ghost d0 = *doc;
        let key = self.stack[self.stack.len() - 1];
        self.stack.pop();
        proof {
            assert(self.stack@ =~= old(self).stack@.drop_last());
            assert(d0.element_at(old(self).stack@[old(self).stack@.len() - 1] as int) is Some);
        }
        match doc.post_add(key, Some(&self.stack)) {
            Ok(()) => {},
            Err(e) => {
                return Err(e);
            },
        }
        let ghost d1 = *doc;
        proof {
            assert forall|i: int| 0 <= i < self.stack@.len() implies doc.element_at(#[trigger] self.stack@[i] as int) is Some by {
                assert(self.stack@[i] == old(self).stack@[i]);
                lemma_grown_keeps(d0, *doc, self.stack@[i] as int);
            }
            lemma_grown_keeps(d0, *doc, key as int);
        }
        proof {
            let t0 = d0.element_at(key as int)->0.elementtype;
            crate::types::lemma_tag_round_trip(t0);
            crate::types::lemma_tag_read_back(tag.name@);
            assert(d0.models()[key as int] is Some);
        }
        match doc.get_elementdata(key) {
            Some(e) => {
                let elementtype = match ElementType::from_str(tag.name.as_str()) {
                    Ok(t) => t,
                    Err(err) => {
                        return Err(err);
                    },
                };
                if e.elementtype != elementtype {
                    return Err(FoliaError::ParseError(concat4("Malformed XML? Invalid element closed: ", tag.name.as_str(),
                        ", expected: ", e.elementtype.as_str())));
                }
            },
            None => {
                return Err(FoliaError::InternalError(concat_str("ID from stack does not exist! ", decimal(key as u64).as_str())));
            },
        }
        let parent = self.stack[self.stack.len() - 1];
        let ghost m = doc.models();
        proof {
            assert(parent == self.stack@.last());
            if key != parent && d0.element_at(key as int)->0.parent != Some(parent)
                && d0.element_at(key as int)->0.elementtype != ElementType::WordReference {
                assert(m[parent as int] == d0.models()[parent as int]);
                assert(m[key as int]->0.parent == d0.models()[key as int]->0.parent);
            }
        }
        match doc.attach_element(parent, key) {
            Ok(()) => {},
            Err(e) => {
                return Err(e);
            },
        }
        proof {
            crate::annotation::lemma_attached_parent(m, parent, key);
            lemma_attached_grown(m, parent, key);
            if key != parent && d0.element_at(key as int)->0.parent != Some(parent)
                && d0.element_at(key as int)->0.elementtype != ElementType::WordReference {
                assert(doc.models()[parent as int]->0.data == m[parent as int]->0.data.push(DataType::Element(key)));
                assert(m[parent as int] is Some);
                assert(doc.models()[parent as int] is Some);
                assert(doc.models()[parent as int] == crate::document::opt_model(doc.elems()[parent as int]));
                assert(doc.element_at(parent as int)->0.data@ == doc.models()[parent as int]->0.data);
                assert(d0.element_at(parent as int)->0.data@ == d0.models()[parent as int]->0.data);
            }
            lemma_attached_types(m, parent, key, key as int);
            lemma_attached_kept(m, parent, key);
            lemma_types_kept_trans(d0.models(), m, doc.models());
            lemma_grown_trans(d0.models(), m, doc.models());
            assert forall|i: int| 0 <= i < self.stack@.len() implies doc.element_at(#[trigger] self.stack@[i] as int) is Some by {
                lemma_grown_keeps(d1, *doc, self.stack@[i] as int);
            }
        }
        Ok(false)
    }

    /// Reads an event within the body.
    fn step_elements(&mut self, doc: &mut Document, event: XmlEvent) -> (r: Result<bool, FoliaError>)
        requires
            old(self).wf(*old(doc)),
            old(self).phase is Elements,
        ensures
            final(self).wf(*final(doc)),
            elements_outcome(*old(self), *old(doc), event, *final(self), *final(doc), r),
    {
        match event {
            XmlEvent::Start(tag) => {
                if !in_folia(&tag.namespace) {
                    return Ok(false);
                }
                self.element_start(doc, tag, false)
            },
            XmlEvent::Empty(tag) => {
                if !in_folia(&tag.namespace) {
                    return Ok(false);
                }
                self.element_start(doc, tag, true)
            },
            XmlEvent::End(tag) => {
                if !in_folia(&tag.namespace) {
                    return Ok(false);
                }
                self.element_end(doc, tag)
            },
            XmlEvent::Text(text) => {
                if is_blank(text.as_str()) {
                    return Ok(false);
                }
                let top = self.stack[self.stack.len() - 1];
                proof {
                    assert(doc.element_at(self.stack@[self.stack@.len() - 1] as int) is Some);
                }
                let ghost d0 = *doc;
                append_data(doc, top, DataType::Text(text));
                proof {
                    self.lemma_appended_keeps(d0, *doc, top, DataType::Text(text));
                }
                Ok(false)
            },
            XmlEvent::BadText(e) => Err(FoliaError::XmlError(e)),
            XmlEvent::CData(text) => {
                if is_blank(text.as_str()) {
                    return Ok(false);
                }
                let top = self.stack[self.stack.len() - 1];
                proof {
                    assert(doc.element_at(self.stack@[self.stack@.len() - 1] as int) is Some);
                }
                let ghost d0 = *doc;
                append_data(doc, top, DataType::Text(text));
                proof {
                    self.lemma_appended_keeps(d0, *doc, top, DataType::Text(text));
                }
                Ok(false)
            },
            XmlEvent::Comment(text) => {
                if is_blank(text.as_str()) {
                    return Ok(false);
                }
                let top = self.stack[self.stack.len() - 1];
                proof {
                    assert(doc.element_at(self.stack@[self.stack@.len() - 1] as int) is Some);
                }
                let ghost d0 = *doc;
                append_data(doc, top, DataType::Comment(text));
                proof {
                    self.lemma_appended_keeps(d0, *doc, top, DataType::Comment(text));
                }
                Ok(false)
            },
            XmlEvent::Eof => {
                self.phase = ParsePhase::Done;
                Ok(true)
            },
            XmlEvent::Other => Ok(false),
        }
    }

    /// Appending a data item to an element keeps the state fitting the document.
    proof fn lemma_appended_keeps(&self, d0: Document, d1: Document, key: ElementKey, item: DataType)
        requires
            self.wf(d0),
            self.phase is Elements,
            d0.element_at(key as int) is Some,
            d1.wf(),
            appended(d0, key, item, d1),
        ensures
            self.wf(d1),
    {
        assert(elems_grown(d0.models(), d1.models()));
        assert forall|i: int| 0 <= i < self.stack@.len() implies d1.element_at(#[trigger] self.stack@[i] as int) is Some by {
            lemma_grown_keeps(d0, d1, self.stack@[i] as int);
        }
    }

    /// Reads the next event: what it does depends on where the parser is in the document. Returns
    /// whether the document is complete.
    pub fn step(&mut self, doc: &mut Document, event: XmlEvent) -> (r: Result<bool, FoliaError>)
        requires
            old(self).wf(*old(doc)),
        ensures
            final(self).wf(*final(doc)),
            step_outcome(*old(self), *old(doc), event, *final(self), *final(doc), r),
    {
        match self.phase {
            ParsePhase::Root => self.step_root(doc, event),
            ParsePhase::Metadata => self.step_metadata(doc, event),
            ParsePhase::FindBody => self.step_find_body(doc, event),
            ParsePhase::Elements => self.step_elements(doc, event),
            ParsePhase::Done => Ok(true),
        }
    }
}

/// Reading an event within the body keeps what the document declares.
pub proof fn lemma_body_keeps_declared(s0: ParseState, d0: Document, event: XmlEvent, s1: ParseState, d1: Document,
    r: Result<bool, FoliaError>, annotationtype: AnnotationType, set: Option<Seq<char>>)
    requires
        elements_outcome(s0, d0, event, s1, d1, r),
        r is Ok,
        declared(d0, annotationtype, set),
    ensures
        declared(d1, annotationtype, set),
{
    match event {
        XmlEvent::Start(t) => {
            if is_folia(t.namespace) {
                crate::document::lemma_declared_mono(d0, d1, annotationtype, set);
            }
        },
        XmlEvent::Empty(t) => {
            if is_folia(t.namespace) {
                crate::document::lemma_declared_mono(d0, d1, annotationtype, set);
            }
        },
        XmlEvent::End(t) => {
            if is_folia(t.namespace) && s0.stack@.len() > 1 {
                assert(d1.decls() == d0.decls());
            }
        },
        XmlEvent::Text(x) => {
            if !blank(x@) {
                assert(d1.decls() == d0.decls());
            }
        },
        XmlEvent::CData(x) => {
            if !blank(x@) {
                assert(d1.decls() == d0.decls());
            }
        },
        XmlEvent::Comment(x) => {
            if !blank(x@) {
                assert(d1.decls() == d0.decls());
            }
        },
        _ => {},
    }
}

/// What reading an event does, by where the parser is in the document.
pub open spec fn step_outcome(s0: ParseState, d0: Document, event: XmlEvent, s1: ParseState, d1: Document,
    r: Result<bool, FoliaError>) -> bool {
    match s0.phase {
        ParsePhase::Root => root_outcome(s0, d0, event, s1, d1, r),
        ParsePhase::Metadata => metadata_outcome(s0, d0, event, s1, d1, r),
        ParsePhase::FindBody => find_body_outcome(s0, d0, event, s1, d1, r),
        ParsePhase::Elements => elements_outcome(s0, d0, event, s1, d1, r),
        ParsePhase::Done => r == Ok::<bool, FoliaError>(true) && s1 == s0 && d1 == d0,
    }
}

/// Reading an event successfully keeps the file name of the document and whether it declares
/// annotation types by itself.
pub proof fn lemma_step_keeps_settings(s0: ParseState, d0: Document, event: XmlEvent, s1: ParseState, d1: Document,
    r: Result<bool, FoliaError>)
    requires
        step_outcome(s0, d0, event, s1, d1, r),
        r is Ok,
    ensures
        d1.autodeclare == d0.autodeclare,
        d1.filename == d0.filename,
{
    match s0.phase {
        ParsePhase::Metadata => {
            match event {
                XmlEvent::Start(t) => {},
                XmlEvent::Empty(t) => {},
                XmlEvent::End(t) => {},
                _ => {},
            }
        },
        ParsePhase::Elements => {
            match event {
                XmlEvent::Start(t) => {},
                XmlEvent::Empty(t) => {},
                XmlEvent::End(t) => {},
                _ => {},
            }
        },
        _ => {},
    }
}

/// Appending a data item to an element changes the type of no element.
pub proof fn lemma_appended_types(d0: Document, key: ElementKey, item: DataType, d1: Document)
    requires
        appended(d0, key, item, d1),
        d0.element_at(key as int) is Some,
    ensures
        types_kept(d0.models(), d1.models()),
{
    let m0 = d0.models();
    let m1 = d1.models();
    assert(0 <= key < m0.len());
    assert forall|k: int| 0 <= k < m0.len() && #[trigger] m0[k] is Some implies m1[k] is Some
        && m1[k]->0.elementtype == m0[k]->0.elementtype by {
        if k == key as int {
            assert(m1[k] == Some(ElementModel { data: m0[k]->0.data.push(item), ..m0[k]->0 }));
        } else {
            assert(m1[k] == m0[k]);
        }
    }
}

/// Reading an event within the body successfully changes the type of no element.
pub proof fn lemma_body_keeps_types(s0: ParseState, d0: Document, event: XmlEvent, s1: ParseState, d1: Document,
    r: Result<bool, FoliaError>)
    requires
        elements_outcome(s0, d0, event, s1, d1, r),
        r is Ok,
        s0.wf(d0),
        s0.phase is Elements,
    ensures
        types_kept(d0.models(), d1.models()),
{
    assert(d0.element_at(s0.stack@[s0.stack@.len() - 1] as int) is Some);
    match event {
        XmlEvent::Text(x) => {
            if !blank(x@) {
                lemma_appended_types(d0, s0.stack@.last(), DataType::Text(x), d1);
            }
        },
        XmlEvent::CData(x) => {
            if !blank(x@) {
                lemma_appended_types(d0, s0.stack@.last(), DataType::Text(x), d1);
            }
        },
        XmlEvent::Comment(x) => {
            if !blank(x@) {
                lemma_appended_types(d0, s0.stack@.last(), DataType::Comment(x), d1);
            }
        },
        _ => {},
    }
}

/// The body: the element with key 0, a text or a speech.
pub open spec fn has_body(doc: Document) -> bool {
    &&& doc.models().len() > 0
    &&& doc.models()[0] matches Some(b) && (b.elementtype == ElementType::Text || b.elementtype == ElementType::Speech)
}

/// The declarations that the properties ask for are all made.
pub open spec fn all_declared(doc: Document, declare: Seq<(AnnotationType, Option<String>)>) -> bool {
    forall|i: int| 0 <= i < declare.len() ==> declared(doc, (#[trigger] declare[i]).0, opt_view(declare[i].1))
}

/// The error for a reader that never reaches the end of its input.
fn endless() -> (e: FoliaError)
    ensures
        e matches FoliaError::InternalError(m) && m@ == "The reader did not reach the end of its input"@,
{
    FoliaError::InternalError("The reader did not reach the end of its input".to_owned())
}

/// The state and the document that parsing starts from, for the given properties.
pub open spec fn parse_start(s: ParseState, d: Document, properties: DocumentProperties) -> bool {
    &&& s.phase is Root
    &&& !s.parsedeclarations && !s.parseprovenance
    &&& s.submetadata is None && s.text is None && s.meta_id is None && s.declaration_key is None
    &&& s.annotators@.len() == 0 && s.processor_stack@.len() == 0 && s.stack@.len() == 0
    &&& s.properties == Some(properties)
    &&& d.wf()
    &&& d.id@ == "untitled"@
    &&& d.filename is None
    &&& d.elems().len() == 0 && d.decls().len() == 0 && d.procs().len() == 0
    &&& d.provenancestore.chain@.len() == 0
    &&& d.metadata.data.map_view() == Map::<Seq<char>, Seq<char>>::empty()
    &&& d.metadata.src is None && d.metadata.metadatatype is None
    &&& d.autodeclare == properties.autodeclare
}

/// A run of the parser over the first `results.len()` events: `states[i]` and `docs[i]` are the
/// state and the document before event `i`, each step goes as ``ParseState::step`` states it,
/// and every step but the last gave `Ok(false)` (the parsing went on).
pub open spec fn parse_run(events: Seq<XmlEvent>, properties: DocumentProperties, states: Seq<ParseState>,
    docs: Seq<Document>, results: Seq<Result<bool, FoliaError>>) -> bool {
    &&& results.len() <= events.len()
    &&& states.len() == results.len() + 1
    &&& docs.len() == results.len() + 1
    &&& parse_start(states[0], docs[0], properties)
    &&& forall|i: int| 0 <= i < results.len() ==> step_outcome(states[i], docs[i], events[i], states[i + 1], docs[i + 1],
        #[trigger] results[i])
    &&& forall|i: int| 0 <= i < results.len() - 1 ==> #[trigger] results[i] == Ok::<bool, FoliaError>(false)
}

/// What parsing a sequence of events gives: `Some` document when a step ended the parsing (the
/// document after it), the error of the step that failed, or `None` when every event was read
/// and the parsing went on.
pub open spec fn parsed_events(events: Seq<XmlEvent>, properties: DocumentProperties, r: Result<Option<Document>, FoliaError>) -> bool {
    exists|states: Seq<ParseState>, docs: Seq<Document>, results: Seq<Result<bool, FoliaError>>|
        #[trigger] parse_run(events, properties, states, docs, results) && {
            let n = results.len() as int;
            match r {
                Ok(Some(doc)) => n > 0 && results[n - 1] == Ok::<bool, FoliaError>(true) && doc == docs[n],
                Ok(None) => n == events.len() && (n == 0 || results[n - 1] == Ok::<bool, FoliaError>(false)),
                Err(e) => n > 0 && results[n - 1] == Err::<bool, FoliaError>(e),
            }
        }
}

/// No run of the parser over the events meets a step that fails: the events form a document
/// that the steps read without error.
pub open spec fn never_fails(events: Seq<XmlEvent>, properties: DocumentProperties) -> bool {
    forall|states: Seq<ParseState>, docs: Seq<Document>, results: Seq<Result<bool, FoliaError>>|
        #[trigger] parse_run(events, properties, states, docs, results) && results.len() > 0
        ==> results.last() is Ok
}

/// The end of the input never lets the parsing go on: it ends it, or it is an error.
pub proof fn lemma_end_stops(s0: ParseState, d0: Document, s1: ParseState, d1: Document, r: Result<bool, FoliaError>)
    requires
        step_outcome(s0, d0, XmlEvent::Eof, s1, d1, r),
    ensures
        r != Ok::<bool, FoliaError>(false),
{
}

/// Where no step fails and the events end with the end of the input, parsing gives a document.
pub proof fn lemma_parse_succeeds(events: Seq<XmlEvent>, properties: DocumentProperties, r: Result<Option<Document>, FoliaError>)
    requires
        parsed_events(events, properties, r),
        never_fails(events, properties),
        events.len() > 0,
        events.last() is Eof,
    ensures
        r matches Ok(Some(_)),
{
    let (states, docs, results) = choose|states: Seq<ParseState>, docs: Seq<Document>, results: Seq<Result<bool, FoliaError>>|
        #[trigger] parse_run(events, properties, states, docs, results) && {
            let n = results.len() as int;
            match r {
                Ok(Some(doc)) => n > 0 && results[n - 1] == Ok::<bool, FoliaError>(true) && doc == docs[n],
                Ok(None) => n == events.len() && (n == 0 || results[n - 1] == Ok::<bool, FoliaError>(false)),
                Err(e) => n > 0 && results[n - 1] == Err::<bool, FoliaError>(e),
            }
        };
    let n = results.len() as int;
    if r is Ok && r->Ok_0 is None {
        assert(step_outcome(states[n - 1], docs[n - 1], events[n - 1], states[n], docs[n], results[n - 1]));
        lemma_end_stops(states[n - 1], docs[n - 1], states[n], docs[n], results[n - 1]);
    }
}

impl Document {
    ///Parses a document from a sequence of XML events, event by event, until a step ends the
    ///parsing; ``None`` when the events ran out first.
    fn run(events: Vec<XmlEvent>, properties: DocumentProperties) -> (r: Result<Option<Document>, FoliaError>)
        ensures
            parsed_events(events@, properties, r),
            r matches Ok(Some(doc)) ==> doc.wf() && doc.element_at(0) is Some && all_declared(doc, properties.declare@)
                && doc.autodeclare == properties.autodeclare && doc.filename is None && has_body(doc),
    {
        let total = events.len();
        let ghost evs = events@;
        assert(evs.len() == total);
        let ghost declare = properties.declare@;
        let mut doc = Document::empty("untitled", properties.autodeclare);
        let mut state = ParseState::new(properties);
        let ghost mut states: Seq<ParseState> = seq![state];
        let ghost mut docs: Seq<Document> = seq![doc];
        let ghost mut results: Seq<Result<bool, FoliaError>> = Seq::empty();
        proof {
            reveal_strlit("untitled");
        }
        let mut pending = events;
        let mut rev: Vec<XmlEvent> = Vec::new();
        while pending.len() > 0
            invariant
                pending@.len() + rev@.len() == evs.len(),
                pending@ == evs.take(pending@.len() as int),
                forall|j: int| 0 <= j < rev@.len() ==> #[trigger] rev@[j] == evs[evs.len() - 1 - j],
            decreases pending@.len(),
        {
            let e = pending.pop().unwrap();
            proof {
                assert(pending@ =~= evs.take(pending@.len() as int));
            }
            rev.push(e);
        }
        let mut i: usize = 0;
        while rev.len() > 0
            invariant
                declare == properties.declare@,
                evs == events@,
                i + rev@.len() == evs.len(),
                evs.len() <= usize::MAX,
                forall|j: int| 0 <= j < rev@.len() ==> #[trigger] rev@[j] == evs[evs.len() - 1 - j],
                state.wf(doc),
                (state.phase is Root || state.phase is Metadata || state.phase is FindBody) ==>
                    state.properties->0.declare@ == declare,
                state.phase is Done ==> doc.element_at(0) is Some,
                doc.autodeclare == properties.autodeclare,
                doc.filename is None,
                (state.phase is Elements || state.phase is Done) ==> has_body(doc),
                (state.phase is Elements || state.phase is Done) ==> all_declared(doc, declare),
                parse_run(evs, properties, states, docs, results),
                results.len() == i,
                states.last() == state,
                docs.last() == doc,
                i > 0 ==> results[i - 1] == Ok::<bool, FoliaError>(false),
            decreases rev@.len(),
        {
            let event = rev.pop().unwrap();
            proof {
                assert(event == evs[i as int]);
            }
            let ghost s0 = state;
            let ghost d0 = doc;
            let ghost ev = event;
            let step = state.step(&mut doc, event);
            proof {
                let r0 = step;
                states = states.push(state);
                docs = docs.push(doc);
                results = results.push(r0);
                assert forall|j: int| 0 <= j < results.len() implies step_outcome(states[j], docs[j], evs[j],
                    states[j + 1], docs[j + 1], #[trigger] results[j]) by {
                    if j == i {
                        assert(states[j] == s0 && docs[j] == d0 && states[j + 1] == state && docs[j + 1] == doc);
                    }
                }
                assert(parse_run(evs, properties, states, docs, results));
            }
            let done = match step {
                Ok(d) => d,
                Err(e) => {
                    proof {
                        assert(results[results.len() - 1] == Err::<bool, FoliaError>(e));
                        assert(parse_run(evs, properties, states, docs, results));
                        assert(parsed_events(evs, properties, Err::<Option<Document>, FoliaError>(e)));
                    }
                    return Err(e);
                },
            };
            proof {
                lemma_step_keeps_settings(s0, d0, ev, state, doc, Ok(done));
                if s0.phase is Elements {
                    lemma_body_keeps_types(s0, d0, ev, state, doc, Ok(done));
                    assert(d0.models()[0] is Some);
                    assert(has_body(doc));
                    assert forall|k: int| 0 <= k < declare.len() implies declared(doc, (#[trigger] declare[k]).0,
                        opt_view(declare[k].1)) by {
                        lemma_body_keeps_declared(s0, d0, ev, state, doc, Ok(done), declare[k].0, opt_view(declare[k].1));
                    }
                    if state.phase is Done {
                        assert(d0.element_at(s0.stack@[0] as int) is Some);
                    }
                }
            }
            if done {
                proof {
                    assert(s0.phase is Elements || s0.phase is Done);
                    assert(state.phase is Done);
                    assert(results[results.len() - 1] == Ok::<bool, FoliaError>(true));
                    assert(docs[results.len() as int] == doc);
                    assert(parsed_events(evs, properties, Ok::<Option<Document>, FoliaError>(Some(doc))));
                }
                return Ok(Some(doc));
            }
            i += 1;
        }
        Ok(None)
    }

    ///Parses a document from a sequence of XML events (as quick-xml reads them).
    pub fn from_events(events: Vec<XmlEvent>, properties: DocumentProperties) -> (r: Result<Document, FoliaError>)
        ensures
            exists|p: Result<Option<Document>, FoliaError>| #[trigger] parsed_events(events@, properties, p) && match p {
                Ok(Some(doc)) => r == Ok::<Document, FoliaError>(doc),
                Ok(None) => r matches Err(FoliaError::InternalError(m)) && m@ == "The reader did not reach the end of its input"@,
                Err(e) => r == Err::<Document, FoliaError>(e),
            },
            never_fails(events@, properties) && events@.len() > 0 && events@.last() is Eof ==> r is Ok,
            r matches Ok(doc) ==> doc.wf() && doc.element_at(0) is Some && all_declared(doc, properties.declare@)
                && doc.autodeclare == properties.autodeclare && doc.filename is None && has_body(doc),
    {
        let ghost evs = events@;
        let p = Document::run(events, properties);
        proof {
            if never_fails(evs, properties) && evs.len() > 0 && evs.last() is Eof {
                lemma_parse_succeeds(evs, properties, p);
            }
        }
        match p {
            Ok(Some(doc)) => Ok(doc),
            Ok(None) => Err(endless()),
            Err(e) => Err(e),
        }
    }

    ///Loads a FoLiA document from its XML, held in a string: the document that the XML events
    ///that quick-xml reads from it parse into. Where quick-xml fails before the parsing ends,
    ///its error comes back.
    pub fn from_str(data: &str, properties: DocumentProperties) -> (r: Result<Document, FoliaError>)
        ensures
            exists|p: Result<Option<Document>, FoliaError>| #[trigger] parsed_events(xml_events(data@).0, properties, p) && match p {
                Ok(Some(doc)) => r == Ok::<Document, FoliaError>(doc),
                Ok(None) => if xml_events(data@).1 {
                    r matches Err(FoliaError::XmlError(_))
                } else {
                    r matches Err(FoliaError::InternalError(m)) && m@ == "The reader did not reach the end of its input"@
                },
                Err(e) => r == Err::<Document, FoliaError>(e),
            },
            !xml_events(data@).1 && never_fails(xml_events(data@).0, properties) ==> r is Ok,
            r matches Ok(doc) ==> doc.wf() && doc.element_at(0) is Some && all_declared(doc, properties.declare@)
                && doc.autodeclare == properties.autodeclare && doc.filename is None && has_body(doc),
    {
        let (events, failure) = read_events(data);
        let p = Document::run(events, properties);
        proof {
            if failure is None && never_fails(xml_events(data@).0, properties) {
                lemma_parse_succeeds(xml_events(data@).0, properties, p);
            }
        }
        match p {
            Ok(Some(doc)) => Ok(doc),
            Ok(None) => match failure {
                Some(e) => Err(FoliaError::XmlError(e)),
                None => Err(endless()),
            },
            Err(e) => Err(e),
        }
    }
}

} // verus!
