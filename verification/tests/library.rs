use folia::{Document, DocumentProperties, ElementKey, ElementData, ElementType, Attribute, AttribType, DataType,
    ProcessorType, Processor, Declaration, AnnotationType, FoliaError, Store, XmlAttribute, XmlTag, XmlEvent,
    ParseState, ParsePhase, Cmp};
use folia::parser::get_declaration_type;

fn document_with(body: &str) -> String {
    format!("<FoLiA xmlns=\"http://ilk.uvt.nl/folia\" xml:id=\"d\" version=\"2.0\"><metadata type=\"native\"><annotations></annotations></metadata><text xml:id=\"d.text\">{}</text></FoLiA>", body)
}

fn parse_error(data: &str) -> String {
    match Document::from_str(data, DocumentProperties::default()) {
        Ok(_) => panic!("parsing should have failed"),
        Err(FoliaError::ParseError(m)) => m,
        Err(err) => panic!("unexpected error: {}", err.to_string()),
    }
}

fn attr(key: &str, value: &str) -> XmlAttribute {
    XmlAttribute { key: key.to_string(), value: Some(value.to_string()) }
}

fn tag(name: &str, attributes: Vec<XmlAttribute>) -> XmlTag {
    XmlTag { namespace: Some("http://ilk.uvt.nl/folia".to_string()), name: name.to_string(), attributes }
}

#[test]
fn parse_root_outside_namespace() {
    assert_eq!(parse_error("<FoLiA xml:id=\"d\"></FoLiA>"), "Encountered unknown root tag not in FoLiA namespace");
}

#[test]
fn parse_unknown_root() {
    assert_eq!(parse_error("<foo xmlns=\"http://ilk.uvt.nl/folia\"></foo>"), "Encountered unknown root tag");
}

#[test]
fn parse_premature_end() {
    assert_eq!(parse_error("<FoLiA xmlns=\"http://ilk.uvt.nl/folia\" xml:id=\"d\">"), "Premature end of document");
    assert_eq!(parse_error("<FoLiA xmlns=\"http://ilk.uvt.nl/folia\" xml:id=\"d\"><metadata></metadata></FoLiA>"),
        "Premature end of document");
}

#[test]
fn parse_unexpected_metadata_element() {
    assert_eq!(parse_error("<FoLiA xmlns=\"http://ilk.uvt.nl/folia\" xml:id=\"d\"><metadata><foo></foo></metadata></FoLiA>"),
        "Unexpected FoLiA element: foo");
}

#[test]
fn parse_bad_declarations() {
    assert_eq!(parse_error("<FoLiA xmlns=\"http://ilk.uvt.nl/folia\" xml:id=\"d\"><metadata><annotations><foo-bar></foo-bar></annotations></metadata></FoLiA>"),
        "Expected declaration element, got: foo-bar");
    assert_eq!(parse_error("<FoLiA xmlns=\"http://ilk.uvt.nl/folia\" xml:id=\"d\"><metadata><annotations><blah-annotation></blah-annotation></annotations></metadata></FoLiA>"),
        "Unknown declaration: blah-annotation");
}

#[test]
fn parse_bad_processors() {
    assert_eq!(parse_error("<FoLiA xmlns=\"http://ilk.uvt.nl/folia\" xml:id=\"d\"><metadata><provenance><processor xml:id=\"p\" colour=\"red\"/></provenance></metadata></FoLiA>"),
        "Unknown attribute on processor, got: \"colour\"");
    assert_eq!(parse_error("<FoLiA xmlns=\"http://ilk.uvt.nl/folia\" xml:id=\"d\"><metadata><provenance><processor xml:id=\"p\" type=\"robot\"/></provenance></metadata></FoLiA>"),
        "Invalid processor type: \"robot\"");
}

#[test]
fn parse_submetadata_without_id() {
    assert_eq!(parse_error("<FoLiA xmlns=\"http://ilk.uvt.nl/folia\" xml:id=\"d\"><metadata><submetadata></submetadata></metadata></FoLiA>"),
        "Submetadata has no ID");
}

#[test]
fn parse_unknown_element() {
    assert_eq!(parse_error(&document_with("<xyz/>")), "Unknown tag has no associated element type: xyz");
}

#[test]
fn parse_foreign_body() {
    assert_eq!(parse_error("<FoLiA xmlns=\"http://ilk.uvt.nl/folia\" xml:id=\"d\"><metadata></metadata><x:text xmlns:x=\"urn:other\"></x:text></FoLiA>"),
        "Expected FoLiA namespace, got namespace urn:other with tag text");
}

#[test]
fn parse_bad_attribute() {
    assert_eq!(parse_error(&document_with("<p xml:id=\"p.1\" colour=\"red\"></p>")), "Unknown attribute: 'colour'");
}

#[test]
fn parse_malformed_xml() {
    match Document::from_str(&document_with("<p xml:id=\"p.1\"></s>"), DocumentProperties::default()) {
        Ok(_) => panic!("parsing should have failed"),
        Err(err) => assert_eq!(err.as_str(), "XML Error"),
    }
}

#[test]
fn parse_minimal_document() {
    let doc = Document::from_str(&document_with("<p xml:id=\"p.1\"><s xml:id=\"s.1\"><w xml:id=\"w.1\"><t>a &amp; b</t></w></s></p>"),
        DocumentProperties::default()).expect("parsing");
    assert_eq!(doc.id(), "d");
    assert_eq!(doc.version, "2.0");
    assert_eq!(doc.metadata.metadatatype, Some("native".to_string()));
    let body = doc.get_element(0).expect("body");
    assert_eq!(body.elementtype(), ElementType::Text);
    assert_eq!(body.id(), Some("d.text"));
    let word = doc.get_element_by_id("w.1").expect("word");
    assert_eq!(word.text(None, None, false, false).expect("text"), "a & b");
    assert_eq!(word.get_parent().expect("parent").id(), Some("s.1"));
}

#[test]
fn parse_comments_and_blank_text() {
    let doc = Document::from_str(&document_with("<p xml:id=\"p.1\">  <!-- note -->  </p>"), DocumentProperties::default()).expect("parsing");
    let p = doc.get_element_by_id("p.1").expect("paragraph");
    assert_eq!(p.elementdata().data.len(), 1);
    assert!(matches!(&p.elementdata().data[0], DataType::Comment(c) if c == " note "));
}

#[test]
fn parse_feature_shortcut() {
    let doc = Document::from_str(&document_with("<s xml:id=\"s.1\"><w xml:id=\"w.1\"><t>bank</t><sense set=\"senses\" class=\"bank.n.1\" synset=\"123\"/></w></s>"),
        DocumentProperties::default()).expect("parsing");
    let word = doc.get_element_by_id("w.1").expect("word");
    let sense = word.get_annotation(AnnotationType::SENSE, Cmp::Any, false).expect("sense");
    assert_eq!(sense.class(), Some("bank.n.1"));
    let feature = sense.get_feature(Cmp::Is("synset".to_string())).expect("feature");
    assert_eq!(feature.elementtype(), ElementType::Feature);
    assert_eq!(feature.subset(), Some("synset"));
    assert_eq!(feature.class(), Some("123"));
}

#[test]
fn parse_metadata_fields_and_provenance() {
    let data = "<FoLiA xmlns=\"http://ilk.uvt.nl/folia\" xml:id=\"d\"><metadata src=\"x.cmdi\"><annotations><pos-annotation set=\"tags\"><annotator processor=\"p1\"/></pos-annotation></annotations><provenance><processor xml:id=\"p1\" name=\"tagger\" type=\"auto\" version=\"1\"><processor xml:id=\"p1.1\" name=\"sub\"/></processor></provenance><meta id=\"language\">nld</meta><meta id=\"genre\">news</meta></metadata><text xml:id=\"d.text\"></text></FoLiA>";
    let doc = Document::from_str(data, DocumentProperties::default()).expect("parsing");
    assert_eq!(doc.metadata.src, Some("x.cmdi".to_string()));
    assert_eq!(doc.metadata.data.get("language").expect("language"), "nld");
    assert_eq!(doc.metadata.data.get("genre").expect("genre"), "news");
    assert_eq!(doc.metadata.data.keys().len(), 2);
    assert_eq!(doc.provenancestore.chain.len(), 1);
    let p1 = doc.get_processor_by_id("p1").expect("p1");
    assert_eq!(p1.name, "tagger");
    assert_eq!(p1.processortype, ProcessorType::Auto);
    assert_eq!(p1.version, "1");
    assert_eq!(p1.processors.len(), 1);
    let sub = doc.get_processor_by_id("p1.1").expect("p1.1");
    assert_eq!(sub.parent, p1.key);
    let declaration = doc.get_declaration_by_id("pos/tags").expect("declaration");
    assert_eq!(declaration.annotationtype, AnnotationType::POS);
    assert_eq!(declaration.processors, vec![p1.key.expect("key")]);
}

#[test]
fn processor_parse() {
    let p = Processor::parse(&tag("processor", vec![attr("xml:id", "p"), attr("name", "n"), attr("type", "generator"),
        attr("host", "h"), attr("name", "n2")])).expect("processor");
    assert_eq!(p.id, "p");
    assert_eq!(p.name, "n2");
    assert_eq!(p.host, "h");
    assert_eq!(p.processortype, ProcessorType::Generator);
    assert_eq!(p.user, "");
    match Processor::parse(&tag("processor", vec![XmlAttribute { key: "name".to_string(), value: None }])) {
        Err(FoliaError::ParseError(m)) => assert_eq!(m, "Unable to parse attribute value (invalid utf-8?)"),
        _ => panic!("expected a parse error"),
    }
}

#[test]
fn declaration_parse() {
    let d = Declaration::parse(&tag("pos-annotation", vec![attr("set", "a"), attr("alias", "b"), attr("annotator", "x"),
        attr("set", "c")])).expect("declaration");
    assert_eq!(d.annotationtype, AnnotationType::POS);
    assert_eq!(d.set, Some("c".to_string()));
    assert_eq!(d.alias, Some("b".to_string()));
    assert_eq!(d.format, None);
    assert!(d.processors.is_empty());
}

#[test]
fn declaration_type_from_tag() {
    assert!(matches!(get_declaration_type("pos-annotation"), Ok(AnnotationType::POS)));
    assert!(matches!(get_declaration_type("token-annotation"), Ok(AnnotationType::TOKEN)));
    match get_declaration_type("pos") {
        Err(FoliaError::ParseError(m)) => assert_eq!(m, "Expected declaration element, got: pos"),
        _ => panic!("expected a parse error"),
    }
    match get_declaration_type("pos-annotations") {
        Err(FoliaError::ParseError(m)) => assert_eq!(m, "Expected declaration element, got: pos-annotations"),
        _ => panic!("expected a parse error"),
    }
}

#[test]
fn element_parse() {
    let (e, children) = ElementData::parse(&tag("w", vec![attr("xml:id", "w.1"), attr("class", "WORD"), attr("space", "no")]))
        .expect("element");
    assert_eq!(e.elementtype, ElementType::Word);
    assert_eq!(e.attribs.len(), 3);
    assert_eq!(e.attrib(AttribType::SPACE).expect("space").to_string().expect("value"), "no");
    assert!(children.is_empty());
    match ElementData::parse(&tag("w", vec![attr("space", "perhaps")])) {
        Err(FoliaError::ParseError(m)) => assert_eq!(m, "Invalid space value: 'perhaps'"),
        _ => panic!("expected a parse error"),
    }
}

#[test]
fn parse_state_steps() {
    let mut doc = Document::empty("untitled", true);
    let mut state = ParseState::new(DocumentProperties::default());
    assert!(matches!(state.step(&mut doc, XmlEvent::Text(" ".to_string())), Ok(false)));
    assert_eq!(state.phase, ParsePhase::Root);
    assert!(matches!(state.step(&mut doc, XmlEvent::Start(tag("FoLiA", vec![attr("xml:id", "x")]))), Ok(false)));
    assert_eq!(state.phase, ParsePhase::Metadata);
    assert_eq!(doc.id(), "x");
    assert!(matches!(state.step(&mut doc, XmlEvent::Start(tag("annotations", vec![]))), Ok(false)));
    assert!(state.parsedeclarations);
    assert!(matches!(state.step(&mut doc, XmlEvent::End(tag("annotations", vec![]))), Ok(false)));
    assert!(!state.parsedeclarations);
    assert!(matches!(state.step(&mut doc, XmlEvent::Eof), Err(FoliaError::ParseError(_))));
}

#[test]
fn serialise_escapes() {
    let doc = Document::from_str(&document_with("<p xml:id=\"p.1\"><s xml:id=\"s.1\"><w xml:id=\"w.1\"><t>a &lt; &quot;b&quot; &amp; 'c'</t></w></s></p>"),
        DocumentProperties::default()).expect("parsing");
    let word = doc.get_element_by_id("w.1").expect("word");
    assert_eq!(word.xml().expect("xml"), "<w xml:id=\"w.1\"><t>a &lt; &quot;b&quot; &amp; &apos;c&apos;</t></w>");
    let example_word = doc.get_element_by_id("s.1").expect("sentence");
    assert_eq!(example_word.xml().expect("xml"), "<s xml:id=\"s.1\"><w xml:id=\"w.1\"><t>a &lt; &quot;b&quot; &amp; &apos;c&apos;</t></w></s>");
}

#[test]
fn serialise_and_parse_again() {
    let doc = Document::from_str(&document_with("<p xml:id=\"p.1\"><s xml:id=\"s.1\"><w xml:id=\"w.1\" class=\"WORD\"><t>hello</t></w></s></p>"),
        DocumentProperties::default()).expect("parsing");
    let xml = String::from_utf8(doc.xml(0).expect("xml")).expect("utf-8");
    assert!(xml.starts_with("<FoLiA xmlns=\"http://ilk.uvt.nl/folia\" xmlns:xlink=\"http://www.w3.org/1999/xlink\" xml:id=\"d\" version=\"2.0.0\" generator=\"folia-rust\">\n<metadata type=\"native\">\n<annotations>\n"));
    assert!(xml.ends_with("</text>\n</FoLiA>"));
    let again = Document::from_str(&xml, DocumentProperties::default()).expect("parsing again");
    let word = again.get_element_by_id("w.1").expect("word");
    assert_eq!(word.class(), Some("WORD"));
    assert_eq!(word.text(None, None, false, false).expect("text"), "hello");
    assert_eq!(doc.xml_string(0).expect("xml"), again.xml_string(0).expect("xml"));
}

#[test]
fn serialise_missing_root() {
    let doc = Document::new("example", DocumentProperties::default()).expect("document");
    match doc.xml(7) {
        Err(FoliaError::SerialisationError(m)) => assert_eq!(m, "Specified root element not found: 7"),
        _ => panic!("expected a serialisation error"),
    }
}

#[test]
fn declare_twice_gives_same_key() {
    let mut doc = Document::new("example", DocumentProperties::default()).expect("document");
    let set = Some("myset".to_string());
    let k1 = doc.declare(AnnotationType::POS, &set, &None, &None).expect("declare");
    let n = doc.declarations().len();
    let k2 = doc.declare(AnnotationType::POS, &set, &None, &None).expect("declare again");
    assert_eq!(k1, k2);
    assert_eq!(doc.declarations().len(), n);
}

#[test]
fn attach_and_detach() {
    let mut doc = Document::new("example", DocumentProperties::default()).expect("document");
    let s = doc.add(ElementData::new(ElementType::Sentence).with_attrib(Attribute::Id("s.1".to_string())), None).expect("add");
    let w = doc.add(ElementData::new(ElementType::Word).with_attrib(Attribute::Id("w.1".to_string())), None).expect("add");
    doc.attach_element(s, w).expect("attach");
    assert_eq!(doc.get_element(w).expect("word").parent_key(), Some(s));
    assert_eq!(doc.get_element(s).expect("sentence").elementdata().data.last().map(|d| matches!(d, DataType::Element(k) if *k == w)), Some(true));
    doc.detach_element(w).expect("detach");
    assert_eq!(doc.get_element(w).expect("word").parent_key(), None);
    assert!(doc.get_element(s).expect("sentence").elementdata().data.is_empty());
    match doc.attach_element(99, w) {
        Err(FoliaError::InternalError(m)) => assert_eq!(m, "Parent element does not exist: 99"),
        _ => panic!("expected an internal error"),
    }
}

#[test]
fn set_attribute_then_read() {
    let mut e = ElementData::new(ElementType::Word).with_attrib(Attribute::Class("A".to_string()));
    e.set_attrib(Attribute::Class("B".to_string()));
    assert_eq!(e.attribs.len(), 1);
    assert_eq!(e.attrib(AttribType::CLASS).expect("class").as_str().expect("value"), "B");
    assert!(e.del_attrib(AttribType::CLASS).is_some());
    assert!(!e.has_attrib(AttribType::CLASS));
}

#[test]
fn class_added_twice() {
    let mut d = Declaration::new(AnnotationType::POS, Some("tags".to_string()), None, None);
    let a = d.add_class("noun").expect("class");
    let b = d.add_class("verb").expect("class");
    assert_eq!(d.add_class("noun").expect("class again"), a);
    assert_ne!(a, b);
    assert_eq!(d.get_class(b), Some("verb"));
    assert_eq!(d.class_key("verb"), Some(b));
}

#[test]
fn store_add_twice() {
    let mut s: Store<String> = Store::new();
    let k = s.add("x".to_string(), 10).expect("add");
    assert_eq!(s.add("x".to_string(), 10).expect("add again"), k);
    assert_eq!(s.len(), 1);
    assert_eq!(s.id_to_key("x"), Some(k));
    assert_eq!(s.get_by_id("x").map(|x| x.as_str()), Some("x"));
}

#[test]
fn processor_new_and_autofill() {
    let p = Processor::new("tool".to_string());
    assert!(p.id.starts_with("proc.tool."));
    assert_eq!(p.id.len(), "proc.tool.".len() + 32);
    assert!(p.id["proc.tool.".len()..].chars().all(|c| c.is_ascii_hexdigit() && !c.is_ascii_uppercase()));
    let q = p.autofill("host".to_string(), "me".to_string(), "run".to_string(), "2020-01-01T00:00:00".to_string());
    assert_eq!(q.host, "host");
    assert_eq!(q.user, "me");
    assert_eq!(q.command, "run");
    assert_eq!(q.begindatetime, "2020-01-01T00:00:00");
    assert_eq!(q.folia_version, "2.0.0");
    assert_eq!(q.name, "tool");
}

#[test]
fn error_messages() {
    let inner = FoliaError::KeyError("gone".to_string());
    assert_eq!(inner.to_string(), "[Key Error] gone");
    match FoliaError::add_parseerror("reading", &inner) {
        FoliaError::ParseError(m) => assert_eq!(m, "reading -> [Key Error] gone"),
        _ => panic!("expected a parse error"),
    }
}

#[test]
fn data_index() {
    let e = ElementData::new(ElementType::Paragraph)
        .with(DataType::text("a"))
        .with(DataType::Element(3))
        .with(DataType::text("b"));
    assert_eq!(e.index(&DataType::text("b")), Some(2));
    assert_eq!(e.index(&DataType::Element(3)), Some(1));
    assert_eq!(e.index(&DataType::Element(4)), None);
}

#[test]
fn text_encode_is_text() {
    let doc = Document::from_str(&document_with("<p xml:id=\"p.1\"><s xml:id=\"s.1\"><w xml:id=\"w.1\"><t>hi</t></w><w xml:id=\"w.2\"><t>there</t></w></s></p>"),
        DocumentProperties::default()).expect("parsing");
    let s = doc.get_element_by_id("s.1").expect("sentence");
    let key: ElementKey = s.key().expect("key");
    assert_eq!(s.text_encode(None, None, false, false).expect("text"), "hi there");
    assert_eq!(doc.text_encode(key, None, None, false, false).expect("text"), "hi there");
    match doc.text(999, None, None, false, false) {
        Err(FoliaError::KeyError(m)) => assert_eq!(m, "No such element key: 999"),
        _ => panic!("expected a key error"),
    }
}

#[test]
fn element_tags_round_trip() {
    let all = folia::specification::all_elementtypes();
    assert_eq!(all.len(), 110);
    for t in all.iter() {
        match ElementType::from_str(t.as_str()) {
            Ok(u) => assert_eq!(u, *t),
            Err(err) => panic!("no element type for tag {}: {}", t.as_str(), err.to_string()),
        }
    }
}

#[test]
fn annotation_names_round_trip() {
    for t in [AnnotationType::TEXT, AnnotationType::TOKEN, AnnotationType::POS, AnnotationType::LEMMA,
        AnnotationType::CHUNKING, AnnotationType::SENSE, AnnotationType::SENTENCE, AnnotationType::PARAGRAPH].iter() {
        assert_eq!(AnnotationType::from_str(t.as_str()), Some(*t));
    }
    assert_eq!(AnnotationType::from_str("nonsense"), None);
}

#[test]
fn add_element_to_gives_next_keys() {
    let mut doc = Document::new("example", DocumentProperties::default()).expect("document");
    let sentence = doc.add_element_to(0, ElementData::new(ElementType::Sentence)).expect("sentence");
    assert_eq!(sentence, 1);
    let w1 = doc.add_element_to(sentence, ElementData::new(ElementType::Word).with(DataType::text("hello"))).expect("word 1");
    let w2 = doc.add_element_to(sentence, ElementData::new(ElementType::Word).with(DataType::text("world"))).expect("word 2");
    assert_eq!((w1, w2), (2, 3));
    assert_eq!(doc.get_element(w2).expect("word").parent_key(), Some(sentence));
}

#[test]
fn add_element_adds_children_first() {
    let mut doc = Document::new("example", DocumentProperties::default()).expect("document");
    let sentence = ElementData::new(ElementType::Sentence)
        .with(DataType::AddElement(ElementData::new(ElementType::Word).with(DataType::text("hi"))));
    let k = doc.add_element(sentence).expect("sentence");
    assert_eq!(k, 2);
    let data = &doc.get_element(k).expect("sentence").elementdata().data;
    assert_eq!(data.len(), 1);
    assert!(matches!(data[0], DataType::Element(1)));
    assert_eq!(doc.get_element(1).expect("word").elementdata().elementtype, ElementType::Word);
}

#[test]
fn all_data_selector_matches_text_and_comments() {
    let doc = Document::new("example", DocumentProperties::default()).expect("document");
    let all = folia::Selector::all_data();
    assert!(all.matches(&doc, &DataType::text("hi")));
    assert!(all.matches(&doc, &DataType::Comment("c".to_string())));
    let elements = folia::Selector::elements();
    assert!(!elements.matches(&doc, &DataType::text("hi")));
}

#[test]
fn selectors_chain_as_a_union() {
    let doc = Document::new("example", DocumentProperties::default()).expect("document");
    let s = folia::Selector::elements()
        .and(folia::Selector::elements().with_text())
        .and(folia::Selector::elements().with_comments());
    assert!(s.matches(&doc, &DataType::text("hi")));
    assert!(s.matches(&doc, &DataType::Comment("c".to_string())));
    assert!(s.matches(&doc, &DataType::Element(0)));
}

#[test]
fn entity_goes_into_a_layer_that_is_reused() {
    let mut doc = Document::new("example", DocumentProperties::default()).expect("document");
    let s = doc.annotate(0, ElementData::new(ElementType::Sentence).with_attrib(Attribute::Id("s.1".to_string()))).expect("sentence");
    for id in ["word.1", "word.2", "word.3"] {
        doc.annotate(s, ElementData::new(ElementType::Word).with_attrib(Attribute::Id(id.to_string()))
            .with(DataType::text("w"))).expect("word");
    }
    let e1 = ElementData::new(ElementType::Entity).with_attrib(Attribute::SetName("adhoc".to_string()))
        .with_attrib(Attribute::Class("greeting".to_string())).with_span(&["word.1", "word.2"]);
    let k1 = doc.annotate(s, e1).expect("entity");
    let layer = doc.get_element(k1).expect("entity").parent_key().expect("layer");
    assert_eq!(doc.get_element(layer).expect("layer").elementdata().elementtype, ElementType::EntitiesLayer);
    assert_eq!(doc.get_element(layer).expect("layer").parent_key(), Some(s));
    let refs: Vec<ElementKey> = doc.get_element(k1).expect("entity").elementdata().data.iter()
        .filter_map(|d| if let DataType::Element(k) = d { Some(*k) } else { None }).collect();
    assert_eq!(refs.len(), 2);
    for r in refs {
        assert_eq!(doc.get_element(r).expect("reference").elementdata().elementtype, ElementType::WordReference);
        assert_eq!(doc.get_element(r).expect("reference").parent_key(), Some(k1));
    }
    assert_eq!(doc.get_layer_key(s, AnnotationType::ENTITY, Some("adhoc")).expect("layer key"), Some(layer));
    assert_eq!(doc.get_layer_key(s, AnnotationType::ENTITY, Some("other")).expect("layer key"), None);
    let e2 = ElementData::new(ElementType::Entity).with_attrib(Attribute::SetName("adhoc".to_string()))
        .with_attrib(Attribute::Class("place".to_string())).with_span(&["word.3"]);
    let k2 = doc.annotate(s, e2).expect("entity 2");
    assert_eq!(doc.get_element(k2).expect("entity").parent_key(), Some(layer));
    let w1 = doc.get_element_by_id("word.1").expect("word").key().expect("key");
    let e3 = ElementData::new(ElementType::Entity).with_attrib(Attribute::SetName("adhoc".to_string()))
        .with_attrib(Attribute::Class("pair".to_string())).with_span(&["word.1", "word.3"]);
    let k3 = doc.annotate(w1, e3).expect("entity 3");
    assert_eq!(doc.get_element(k3).expect("entity").parent_key(), Some(layer));
}

#[test]
fn annotate_refused_leaves_document_unchanged() {
    let mut doc = Document::new("example", DocumentProperties::default()).expect("document");
    let s = doc.annotate(0, ElementData::new(ElementType::Sentence)).expect("sentence");
    match doc.annotate(99, ElementData::new(ElementType::Word)) {
        Err(FoliaError::InternalError(m)) => assert_eq!(m, "Specified element key not found: 99"),
        _ => panic!("expected an internal error"),
    }
    match doc.annotate(s, ElementData::new(ElementType::Sentence)) {
        Err(FoliaError::ValidationError(m)) => assert_eq!(m, "Can't add element type s to s"),
        _ => panic!("expected a validation error"),
    }
    assert!(doc.get_element(s).expect("sentence").elementdata().data.is_empty());
}

#[test]
fn no_automatic_declaration_when_turned_off() {
    let mut properties = DocumentProperties::default();
    properties.autodeclare = false;
    let mut doc = Document::new("example", properties).expect("document");
    let w = ElementData::new(ElementType::Word).with_attrib(Attribute::SetName("tokens".to_string()));
    match doc.add_element_to(0, w) {
        Err(FoliaError::InternalError(m)) => assert!(m.contains("Not declared, and automatic declaration is off")),
        Err(FoliaError::EncodeError(m)) => assert!(m.contains("Not declared, and automatic declaration is off")),
        _ => panic!("expected the declaration to be missing"),
    }
    doc.declare(AnnotationType::TOKEN, &Some("tokens".to_string()), &None, &None).expect("declare");
    let w = ElementData::new(ElementType::Word).with_attrib(Attribute::SetName("tokens".to_string()));
    assert!(doc.add_element_to(0, w).is_ok());
}

#[test]
fn confidence_only_from_numbers() {
    assert!(matches!(Attribute::confidence("0.5"), Some(Attribute::Confidence(s)) if s == "0.5"));
    assert!(Attribute::confidence("abc").is_none());
}

#[test]
fn span_from_a_word_gets_a_new_layer() {
    let mut doc = Document::new("example", DocumentProperties::default()).expect("document");
    let s = doc.add_element_to(0, ElementData::new(ElementType::Sentence).with_attrib(Attribute::Id("s.1".to_string()))).expect("sentence");
    let w1 = doc.add_element_to(s, ElementData::new(ElementType::Word).with_attrib(Attribute::Id("word.1".to_string()))
        .with(DataType::text("hello"))).expect("word 1");
    let w2 = doc.add_element_to(s, ElementData::new(ElementType::Word).with_attrib(Attribute::Id("word.2".to_string()))
        .with(DataType::text("world"))).expect("word 2");
    assert_eq!(doc.get_element_key_by_id("s.1"), Some(s));
    let data = &doc.get_element(s).expect("sentence").elementdata().data;
    assert_eq!(data.len(), 2);
    assert!(matches!(data[0], DataType::Element(k) if k == w1));
    assert!(matches!(data[1], DataType::Element(k) if k == w2));
    let e = ElementData::new(ElementType::Entity).with_attrib(Attribute::SetName("adhoc".to_string()))
        .with_attrib(Attribute::Class("greeting".to_string())).with_span(&["word.1", "word.2"]);
    let k = doc.annotate(w1, e).expect("entity");
    let layer = doc.get_element(k).expect("entity").parent_key().expect("layer");
    assert_eq!(doc.get_element(layer).expect("layer").elementdata().elementtype, ElementType::EntitiesLayer);
    assert_eq!(doc.get_element(layer).expect("layer").parent_key(), Some(s));
}

#[test]
fn undecodable_text_outside_the_document_is_ignored() {
    let data = "&bogus;<FoLiA xmlns=\"http://ilk.uvt.nl/folia\" xml:id=\"d\" version=\"2.0\"><metadata type=\"native\"><annotations></annotations></metadata>&bogus;<text xml:id=\"d.text\"><p xml:id=\"p.1\"/></text></FoLiA>";
    let doc = Document::from_str(data, DocumentProperties::default()).expect("parsing");
    assert_eq!(doc.id(), "d");
    assert!(doc.get_element_by_id("p.1").is_some());
}

#[test]
fn undecodable_text_in_the_body_is_an_xml_error() {
    match Document::from_str(&document_with("<p xml:id=\"p.1\">&bogus;</p>"), DocumentProperties::default()) {
        Ok(_) => panic!("parsing should have failed"),
        Err(err) => assert_eq!(err.as_str(), "XML Error"),
    }
    let data = "<FoLiA xmlns=\"http://ilk.uvt.nl/folia\" xml:id=\"d\"><metadata type=\"native\">&bogus;</metadata><text xml:id=\"d.text\"/></FoLiA>";
    match Document::from_str(data, DocumentProperties::default()) {
        Ok(_) => panic!("parsing should have failed"),
        Err(err) => assert_eq!(err.as_str(), "XML Error"),
    }
}

#[test]
fn comparisons_match_values() {
    assert!(Cmp::Is(ElementType::Word).matches(Some(&ElementType::Word)));
    assert!(!Cmp::Is(ElementType::Word).matches(Some(&ElementType::Sentence)));
    assert!(!Cmp::Is(ElementType::Word).matches(None));
    assert!(Cmp::<ElementType>::Any.matches(None));
    assert!(!Cmp::<ElementType>::Present.matches(None));
    assert!(Cmp::<ElementType>::Absent.matches(None));
    assert!(!Cmp::<ElementType>::Unmatchable.matches(Some(&ElementType::Word)));
    assert!(Cmp::Is("set".to_string()).matches(Some(&"set".to_string())));
    assert!(!Cmp::Is("set".to_string()).matches(Some(&"other".to_string())));
}

#[test]
fn serialise_escapes_beyond_ascii() {
    let doc = Document::from_str(&document_with("<p xml:id=\"p.1\"><s xml:id=\"s.1\"><w xml:id=\"w.1\"><t>café &lt;ö&gt; &amp; ü</t></w></s></p>"),
        DocumentProperties::default()).expect("parsing");
    let word = doc.get_element_by_id("w.1").expect("word");
    assert_eq!(word.xml().expect("xml"), "<w xml:id=\"w.1\"><t>café &lt;ö&gt; &amp; ü</t></w>");
}

#[test]
fn entity_without_a_set_goes_into_the_layer_of_the_default_set() {
    let mut doc = Document::new("example", DocumentProperties::default()).expect("document");
    doc.declare(AnnotationType::ENTITY, &Some("adhoc".to_string()), &None, &None).expect("declare");
    let s = doc.annotate(0, ElementData::new(ElementType::Sentence).with_attrib(Attribute::Id("s.1".to_string()))).expect("sentence");
    for id in ["word.1", "word.2"] {
        doc.annotate(s, ElementData::new(ElementType::Word).with_attrib(Attribute::Id(id.to_string()))
            .with(DataType::text("w"))).expect("word");
    }
    let e = ElementData::new(ElementType::Entity).with_attrib(Attribute::Class("greeting".to_string()))
        .with_span(&["word.1", "word.2"]);
    let k = doc.annotate(s, e).expect("entity");
    let layer = doc.get_element(k).expect("entity").parent_key().expect("layer");
    assert_eq!(doc.get_element(layer).expect("layer").elementdata().elementtype, ElementType::EntitiesLayer);
    assert_eq!(doc.get_element(layer).expect("layer").parent_key(), Some(s));
    assert_eq!(doc.get_layer_key(s, AnnotationType::ENTITY, Some("adhoc")).expect("layer key"), Some(layer));
    assert_eq!(doc.get_element(k).expect("entity").set(), Some("adhoc"));
}

#[test]
fn entity_without_any_set_is_incomplete() {
    let mut doc = Document::new("example", DocumentProperties::default()).expect("document");
    let s = doc.annotate(0, ElementData::new(ElementType::Sentence).with_attrib(Attribute::Id("s.1".to_string()))).expect("sentence");
    doc.annotate(s, ElementData::new(ElementType::Word).with_attrib(Attribute::Id("word.1".to_string()))
        .with(DataType::text("w"))).expect("word");
    let e = ElementData::new(ElementType::Entity).with_span(&["word.1"]);
    match doc.annotate(s, e) {
        Err(FoliaError::IncompleteError(m)) => assert_eq!(m, "No set defined when adding span annotation and none could be inferred"),
        _ => panic!("expected an incomplete error"),
    }
}
