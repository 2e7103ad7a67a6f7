//! The FoLiA specification: the properties of every element type.

use vstd::prelude::*;
use crate::types::{ElementType, ElementGroup, AnnotationType};
use crate::attrib::AttribType;

verus! {

/// A kind of data that an element accepts as a child.
#[derive(Copy, Clone, PartialEq, Eq, Structural, Debug)]
pub enum AcceptedData {
    AcceptElementType(ElementType),
    AcceptElementGroup(ElementGroup),
}

/// The properties that the FoLiA specification gives an element type.
pub struct Properties {
    pub xmltag: &'static str,
    pub annotationtype: Option<AnnotationType>,
    pub accepted_data: Vec<AcceptedData>,
    pub required_data: Vec<AcceptedData>,
    pub required_attribs: Vec<AttribType>,
    pub optional_attribs: Vec<AttribType>,
    ///How often can this element occur under the parent? (0 = unlimited)
    pub occurrences: u32,
    ///How often can a particular element+set combination occur under the parent (0 = unlimited)
    pub occurrences_per_set: u32,
    ///Delimiter to use when dynamically gathering text
    pub textdelimiter: Option<&'static str>,
    ///Is this element printable? (i.e. can the text() method be called?)
    pub printable: bool,
    ///Is this element phonetically representable? (i.e. can the phon() method be called?)
    pub speakable: bool,
    ///Is this element hidden? (only applies to Hiddenword for now)
    pub hidden: bool,
    ///Can the element carry xlink references?
    pub xlink: bool,
    ///Does the element directly take textual content (e.g. TextContent (t) is a textcontainer)
    pub textcontainer: bool,
    ///Does the element directly take phonetic content (e.g. PhonContent (ph) is a phoncontainer)
    pub phoncontainer: bool,
    ///used for Feature subclasses
    pub subset: Option<&'static str>,
    ///The default authoritative state for this element
    pub auth: bool,
    ///Is this the primary element for the advertised annotation type?
    pub primaryelement: bool,
    ///Automatically generate an ID if none was provided?
    pub auto_generate_id: bool,
    ///States that the element may take a set property only, and not a class property
    pub setonly: bool,
    ///Indicates whether this element is referable as a token/word
    pub wrefable: bool,
    pub label: &'static str,
}

/// The mathematical content of [`Properties`].
#[verifier::ext_equal]
pub struct PropertiesModel {
    pub xmltag: Seq<char>,
    pub annotationtype: Option<AnnotationType>,
    pub accepted_data: Seq<AcceptedData>,
    pub required_data: Seq<AcceptedData>,
    pub required_attribs: Seq<AttribType>,
    pub optional_attribs: Seq<AttribType>,
    pub occurrences: u32,
    pub occurrences_per_set: u32,
    pub textdelimiter: Option<Seq<char>>,
    pub printable: bool,
    pub speakable: bool,
    pub hidden: bool,
    pub xlink: bool,
    pub textcontainer: bool,
    pub phoncontainer: bool,
    pub subset: Option<Seq<char>>,
    pub auth: bool,
    pub primaryelement: bool,
    pub auto_generate_id: bool,
    pub setonly: bool,
    pub wrefable: bool,
    pub label: Seq<char>,
}

/// The view of an optional static string.
pub open spec fn opt_str_view(s: Option<&'static str>) -> Option<Seq<char>> {
    match s {
        Some(x) => Some(x@),
        None => None,
    }
}

impl View for Properties {
    type V = PropertiesModel;

    open spec fn view(&self) -> PropertiesModel {
        PropertiesModel {
            xmltag: self.xmltag@,
            annotationtype: self.annotationtype,
            accepted_data: self.accepted_data@,
            required_data: self.required_data@,
            required_attribs: self.required_attribs@,
            optional_attribs: self.optional_attribs@,
            occurrences: self.occurrences,
            occurrences_per_set: self.occurrences_per_set,
            textdelimiter: opt_str_view(self.textdelimiter),
            printable: self.printable,
            speakable: self.speakable,
            hidden: self.hidden,
            xlink: self.xlink,
            textcontainer: self.textcontainer,
            phoncontainer: self.phoncontainer,
            subset: opt_str_view(self.subset),
            auth: self.auth,
            primaryelement: self.primaryelement,
            auto_generate_id: self.auto_generate_id,
            setonly: self.setonly,
            wrefable: self.wrefable,
            label: self.label@,
        }
    }
}

/// The properties that hold unless the specification says otherwise.
pub open spec fn default_properties() -> PropertiesModel {
    PropertiesModel {
        xmltag: ""@,
        annotationtype: None,
        accepted_data: Seq::empty(),
        required_data: Seq::empty(),
        required_attribs: Seq::empty(),
        optional_attribs: Seq::empty(),
        occurrences: 0,
        occurrences_per_set: 0,
        textdelimiter: None,
        printable: false,
        speakable: false,
        hidden: false,
        xlink: false,
        textcontainer: false,
        phoncontainer: false,
        subset: None,
        auth: true,
        primaryelement: false,
        auto_generate_id: false,
        setonly: false,
        wrefable: false,
        label: ""@,
    }
}

impl Default for Properties {
    fn default() -> (p: Self)
        ensures
            p@ == default_properties(),
    {
        Properties {
            xmltag: "",
            annotationtype: None,
            accepted_data: Vec::new(),
            required_data: Vec::new(),
            required_attribs: Vec::new(),
            optional_attribs: Vec::new(),
            occurrences: 0,
            occurrences_per_set: 0,
            textdelimiter: None,
            printable: false,
            speakable: false,
            hidden: false,
            xlink: false,
            textcontainer: false,
            phoncontainer: false,
            subset: None,
            auth: true,
            primaryelement: false,
            auto_generate_id: false,
            setonly: false,
            wrefable: false,
            label: "",
        }
    }
}

/// The properties that the FoLiA specification gives each element type.
#[verifier::opaque]
pub open spec fn element_properties(t: ElementType) -> PropertiesModel {
    match t {
        ElementType::ActorFeature => PropertiesModel {
            accepted_data: seq![AcceptedData::AcceptElementType(ElementType::Comment), AcceptedData::AcceptElementType(ElementType::Description)],
            subset: Some("actor"@),
            primaryelement: true,
            label: "Feature"@,
            ..default_properties()
        },
        ElementType::Alternative => PropertiesModel {
            xmltag: "alt"@,
            annotationtype: Some(AnnotationType::ALTERNATIVE),
            accepted_data: seq![AcceptedData::AcceptElementGroup(ElementGroup::Inline), AcceptedData::AcceptElementType(ElementType::Comment), AcceptedData::AcceptElementType(ElementType::Correction), AcceptedData::AcceptElementType(ElementType::Description), AcceptedData::AcceptElementType(ElementType::ForeignData), AcceptedData::AcceptElementType(ElementType::MorphologyLayer), AcceptedData::AcceptElementType(ElementType::PhonologyLayer)],
            optional_attribs: seq![AttribType::ANNOTATOR, AttribType::BEGINTIME, AttribType::CONFIDENCE, AttribType::DATETIME, AttribType::ENDTIME, AttribType::ID, AttribType::METADATA, AttribType::N, AttribType::SPEAKER, AttribType::SRC],
            auth: false,
            primaryelement: true,
            label: "Alternative"@,
            ..default_properties()
        },
        ElementType::AlternativeLayers => PropertiesModel {
            xmltag: "altlayers"@,
            annotationtype: Some(AnnotationType::ALTERNATIVE),
            accepted_data: seq![AcceptedData::AcceptElementGroup(ElementGroup::Layer), AcceptedData::AcceptElementType(ElementType::Comment), AcceptedData::AcceptElementType(ElementType::Description), AcceptedData::AcceptElementType(ElementType::ForeignData)],
            optional_attribs: seq![AttribType::ANNOTATOR, AttribType::BEGINTIME, AttribType::CONFIDENCE, AttribType::DATETIME, AttribType::ENDTIME, AttribType::ID, AttribType::METADATA, AttribType::N, AttribType::SPEAKER, AttribType::SRC],
            auth: false,
            label: "Alternative Layers"@,
            ..default_properties()
        },
        ElementType::BegindatetimeFeature => PropertiesModel {
            accepted_data: seq![AcceptedData::AcceptElementType(ElementType::Comment), AcceptedData::AcceptElementType(ElementType::Description)],
            subset: Some("begindatetime"@),
            primaryelement: true,
            label: "Feature"@,
            ..default_properties()
        },
        ElementType::Caption => PropertiesModel {
            xmltag: "caption"@,
            accepted_data: seq![AcceptedData::AcceptElementGroup(ElementGroup::Layer), AcceptedData::AcceptElementGroup(ElementGroup::Inline), AcceptedData::AcceptElementType(ElementType::Alternative), AcceptedData::AcceptElementType(ElementType::AlternativeLayers), AcceptedData::AcceptElementType(ElementType::Comment), AcceptedData::AcceptElementType(ElementType::Correction), AcceptedData::AcceptElementType(ElementType::Description), AcceptedData::AcceptElementType(ElementType::Feature), AcceptedData::AcceptElementType(ElementType::ForeignData), AcceptedData::AcceptElementType(ElementType::Gap), AcceptedData::AcceptElementType(ElementType::Linebreak), AcceptedData::AcceptElementType(ElementType::Metric), AcceptedData::AcceptElementType(ElementType::Paragraph), AcceptedData::AcceptElementType(ElementType::Part), AcceptedData::AcceptElementType(ElementType::PhonContent), AcceptedData::AcceptElementType(ElementType::Quote), AcceptedData::AcceptElementType(ElementType::Reference), AcceptedData::AcceptElementType(ElementType::Relation), AcceptedData::AcceptElementType(ElementType::Sentence), AcceptedData::AcceptElementType(ElementType::String), AcceptedData::AcceptElementType(ElementType::TextContent), AcceptedData::AcceptElementType(ElementType::Whitespace)],
            optional_attribs: seq![AttribType::ANNOTATOR, AttribType::BEGINTIME, AttribType::CLASS, AttribType::CONFIDENCE, AttribType::DATETIME, AttribType::ENDTIME, AttribType::ID, AttribType::METADATA, AttribType::N, AttribType::SPACE, AttribType::SPEAKER, AttribType::SRC],
            occurrences: 1,
            textdelimiter: Some("\n\n"@),
            printable: true,
            speakable: true,
            primaryelement: true,
            auto_generate_id: true,
            label: "Caption"@,
            ..default_properties()
        },
        ElementType::Cell => PropertiesModel {
            xmltag: "cell"@,
            accepted_data: seq![AcceptedData::AcceptElementGroup(ElementGroup::Layer), AcceptedData::AcceptElementGroup(ElementGroup::Inline), AcceptedData::AcceptElementType(ElementType::Alternative), AcceptedData::AcceptElementType(ElementType::AlternativeLayers), AcceptedData::AcceptElementType(ElementType::Comment), AcceptedData::AcceptElementType(ElementType::Correction), AcceptedData::AcceptElementType(ElementType::Description), AcceptedData::AcceptElementType(ElementType::Entry), AcceptedData::AcceptElementType(ElementType::Event), AcceptedData::AcceptElementType(ElementType::Example), AcceptedData::AcceptElementType(ElementType::Feature), AcceptedData::AcceptElementType(ElementType::Figure), AcceptedData::AcceptElementType(ElementType::ForeignData), AcceptedData::AcceptElementType(ElementType::Gap), AcceptedData::AcceptElementType(ElementType::Head), AcceptedData::AcceptElementType(ElementType::Hiddenword), AcceptedData::AcceptElementType(ElementType::Linebreak), AcceptedData::AcceptElementType(ElementType::List), AcceptedData::AcceptElementType(ElementType::Metric), AcceptedData::AcceptElementType(ElementType::Note), AcceptedData::AcceptElementType(ElementType::Paragraph), AcceptedData::AcceptElementType(ElementType::Part), AcceptedData::AcceptElementType(ElementType::Quote), AcceptedData::AcceptElementType(ElementType::Reference), AcceptedData::AcceptElementType(ElementType::Relation), AcceptedData::AcceptElementType(ElementType::Sentence), AcceptedData::AcceptElementType(ElementType::String), AcceptedData::AcceptElementType(ElementType::TextContent), AcceptedData::AcceptElementType(ElementType::Whitespace), AcceptedData::AcceptElementType(ElementType::Word)],
            optional_attribs: seq![AttribType::ANNOTATOR, AttribType::BEGINTIME, AttribType::CLASS, AttribType::CONFIDENCE, AttribType::DATETIME, AttribType::ENDTIME, AttribType::ID, AttribType::METADATA, AttribType::N, AttribType::SPACE, AttribType::SPEAKER, AttribType::SRC],
            textdelimiter: Some(" | "@),
            printable: true,
            speakable: true,
            primaryelement: true,
            auto_generate_id: true,
            label: "Cell"@,
            ..default_properties()
        },
        ElementType::Chunk => PropertiesModel {
            xmltag: "chunk"@,
            annotationtype: Some(AnnotationType::CHUNKING),
            accepted_data: seq![AcceptedData::AcceptElementGroup(ElementGroup::Inline), AcceptedData::AcceptElementType(ElementType::Comment), AcceptedData::AcceptElementType(ElementType::Description), AcceptedData::AcceptElementType(ElementType::Feature), AcceptedData::AcceptElementType(ElementType::ForeignData), AcceptedData::AcceptElementType(ElementType::LinkReference), AcceptedData::AcceptElementType(ElementType::Metric), AcceptedData::AcceptElementType(ElementType::Relation), AcceptedData::AcceptElementType(ElementType::WordReference)],
            optional_attribs: seq![AttribType::ANNOTATOR, AttribType::BEGINTIME, AttribType::CLASS, AttribType::CONFIDENCE, AttribType::DATETIME, AttribType::ENDTIME, AttribType::ID, AttribType::METADATA, AttribType::N, AttribType::SPEAKER, AttribType::SRC, AttribType::TEXTCLASS],
            printable: true,
            speakable: true,
            primaryelement: true,
            label: "Chunk"@,
            ..default_properties()
        },
        ElementType::ChunkingLayer => PropertiesModel {
            xmltag: "chunking"@,
            annotationtype: Some(AnnotationType::CHUNKING),
            accepted_data: seq![AcceptedData::AcceptElementType(ElementType::Chunk), AcceptedData::AcceptElementType(ElementType::Comment), AcceptedData::AcceptElementType(ElementType::Correction), AcceptedData::AcceptElementType(ElementType::Description), AcceptedData::AcceptElementType(ElementType::ForeignData)],
            optional_attribs: seq![AttribType::ID],
            setonly: true,
            ..default_properties()
        },
        ElementType::Comment => PropertiesModel {
            xmltag: "comment"@,
            annotationtype: Some(AnnotationType::COMMENT),
            accepted_data: seq![AcceptedData::AcceptElementType(ElementType::Comment), AcceptedData::AcceptElementType(ElementType::Description)],
            optional_attribs: seq![AttribType::ANNOTATOR, AttribType::CONFIDENCE, AttribType::DATETIME, AttribType::ID, AttribType::METADATA, AttribType::N],
            primaryelement: true,
            label: "Comment"@,
            ..default_properties()
        },
        ElementType::Content => PropertiesModel {
            xmltag: "content"@,
            annotationtype: Some(AnnotationType::RAWCONTENT),
            accepted_data: seq![AcceptedData::AcceptElementType(ElementType::Comment), AcceptedData::AcceptElementType(ElementType::Description)],
            optional_attribs: seq![AttribType::ANNOTATOR, AttribType::CLASS, AttribType::CONFIDENCE, AttribType::DATETIME, AttribType::METADATA],
            occurrences: 1,
            printable: true,
            primaryelement: true,
            label: "Raw Content"@,
            ..default_properties()
        },
        ElementType::CoreferenceChain => PropertiesModel {
            xmltag: "coreferencechain"@,
            annotationtype: Some(AnnotationType::COREFERENCE),
            accepted_data: seq![AcceptedData::AcceptElementGroup(ElementGroup::Inline), AcceptedData::AcceptElementType(ElementType::Comment), AcceptedData::AcceptElementType(ElementType::CoreferenceLink), AcceptedData::AcceptElementType(ElementType::Description), AcceptedData::AcceptElementType(ElementType::Feature), AcceptedData::AcceptElementType(ElementType::ForeignData), AcceptedData::AcceptElementType(ElementType::LinkReference), AcceptedData::AcceptElementType(ElementType::Metric), AcceptedData::AcceptElementType(ElementType::Relation)],
            required_data: seq![AcceptedData::AcceptElementType(ElementType::CoreferenceLink)],
            optional_attribs: seq![AttribType::ANNOTATOR, AttribType::BEGINTIME, AttribType::CLASS, AttribType::CONFIDENCE, AttribType::DATETIME, AttribType::ENDTIME, AttribType::ID, AttribType::METADATA, AttribType::N, AttribType::SPEAKER, AttribType::SRC, AttribType::TEXTCLASS],
            printable: true,
            speakable: true,
            primaryelement: true,
            label: "Coreference Chain"@,
            ..default_properties()
        },
        ElementType::CoreferenceLayer => PropertiesModel {
            xmltag: "coreferences"@,
            annotationtype: Some(AnnotationType::COREFERENCE),
            accepted_data: seq![AcceptedData::AcceptElementType(ElementType::Comment), AcceptedData::AcceptElementType(ElementType::CoreferenceChain), AcceptedData::AcceptElementType(ElementType::Correction), AcceptedData::AcceptElementType(ElementType::Description), AcceptedData::AcceptElementType(ElementType::ForeignData)],
            optional_attribs: seq![AttribType::ID],
            setonly: true,
            ..default_properties()
        },
        ElementType::CoreferenceLink => PropertiesModel {
            xmltag: "coreferencelink"@,
            annotationtype: Some(AnnotationType::COREFERENCE),
            accepted_data: seq![AcceptedData::AcceptElementGroup(ElementGroup::Inline), AcceptedData::AcceptElementType(ElementType::Comment), AcceptedData::AcceptElementType(ElementType::Description), AcceptedData::AcceptElementType(ElementType::Feature), AcceptedData::AcceptElementType(ElementType::ForeignData), AcceptedData::AcceptElementType(ElementType::Headspan), AcceptedData::AcceptElementType(ElementType::LevelFeature), AcceptedData::AcceptElementType(ElementType::LinkReference), AcceptedData::AcceptElementType(ElementType::Metric), AcceptedData::AcceptElementType(ElementType::ModalityFeature), AcceptedData::AcceptElementType(ElementType::Relation), AcceptedData::AcceptElementType(ElementType::TimeFeature), AcceptedData::AcceptElementType(ElementType::WordReference)],
            optional_attribs: seq![AttribType::ANNOTATOR, AttribType::BEGINTIME, AttribType::CLASS, AttribType::CONFIDENCE, AttribType::DATETIME, AttribType::ENDTIME, AttribType::ID, AttribType::METADATA, AttribType::N, AttribType::SPEAKER, AttribType::SRC, AttribType::TEXTCLASS],
            printable: true,
            speakable: true,
            label: "Coreference Link"@,
            ..default_properties()
        },
        ElementType::Correction => PropertiesModel {
            xmltag: "correction"@,
            annotationtype: Some(AnnotationType::CORRECTION),
            accepted_data: seq![AcceptedData::AcceptElementType(ElementType::Comment), AcceptedData::AcceptElementType(ElementType::Current), AcceptedData::AcceptElementType(ElementType::Description), AcceptedData::AcceptElementType(ElementType::ErrorDetection), AcceptedData::AcceptElementType(ElementType::Feature), AcceptedData::AcceptElementType(ElementType::ForeignData), AcceptedData::AcceptElementType(ElementType::Metric), AcceptedData::AcceptElementType(ElementType::New), AcceptedData::AcceptElementType(ElementType::Original), AcceptedData::AcceptElementType(ElementType::Suggestion)],
            optional_attribs: seq![AttribType::ANNOTATOR, AttribType::BEGINTIME, AttribType::CLASS, AttribType::CONFIDENCE, AttribType::DATETIME, AttribType::ENDTIME, AttribType::ID, AttribType::METADATA, AttribType::N, AttribType::SPEAKER, AttribType::SRC],
            printable: true,
            speakable: true,
            primaryelement: true,
            label: "Correction"@,
            ..default_properties()
        },
        ElementType::Current => PropertiesModel {
            xmltag: "current"@,
            annotationtype: Some(AnnotationType::CORRECTION),
            accepted_data: seq![AcceptedData::AcceptElementGroup(ElementGroup::Inline), AcceptedData::AcceptElementGroup(ElementGroup::Span), AcceptedData::AcceptElementGroup(ElementGroup::Structure), AcceptedData::AcceptElementType(ElementType::Comment), AcceptedData::AcceptElementType(ElementType::Correction), AcceptedData::AcceptElementType(ElementType::Description), AcceptedData::AcceptElementType(ElementType::ForeignData), AcceptedData::AcceptElementType(ElementType::Metric), AcceptedData::AcceptElementType(ElementType::PhonContent), AcceptedData::AcceptElementType(ElementType::String), AcceptedData::AcceptElementType(ElementType::TextContent)],
            occurrences: 1,
            printable: true,
            speakable: true,
            ..default_properties()
        },
        ElementType::Definition => PropertiesModel {
            xmltag: "def"@,
            annotationtype: Some(AnnotationType::DEFINITION),
            accepted_data: seq![AcceptedData::AcceptElementGroup(ElementGroup::Layer), AcceptedData::AcceptElementGroup(ElementGroup::Inline), AcceptedData::AcceptElementType(ElementType::Alternative), AcceptedData::AcceptElementType(ElementType::AlternativeLayers), AcceptedData::AcceptElementType(ElementType::Comment), AcceptedData::AcceptElementType(ElementType::Correction), AcceptedData::AcceptElementType(ElementType::Description), AcceptedData::AcceptElementType(ElementType::Feature), AcceptedData::AcceptElementType(ElementType::Figure), AcceptedData::AcceptElementType(ElementType::ForeignData), AcceptedData::AcceptElementType(ElementType::Hiddenword), AcceptedData::AcceptElementType(ElementType::Linebreak), AcceptedData::AcceptElementType(ElementType::List), AcceptedData::AcceptElementType(ElementType::Metric), AcceptedData::AcceptElementType(ElementType::Paragraph), AcceptedData::AcceptElementType(ElementType::Part), AcceptedData::AcceptElementType(ElementType::PhonContent), AcceptedData::AcceptElementType(ElementType::Reference), AcceptedData::AcceptElementType(ElementType::Relation), AcceptedData::AcceptElementType(ElementType::Sentence), AcceptedData::AcceptElementType(ElementType::String), AcceptedData::AcceptElementType(ElementType::Table), AcceptedData::AcceptElementType(ElementType::TextContent), AcceptedData::AcceptElementType(ElementType::Utterance), AcceptedData::AcceptElementType(ElementType::Whitespace), AcceptedData::AcceptElementType(ElementType::Word)],
            optional_attribs: seq![AttribType::ANNOTATOR, AttribType::BEGINTIME, AttribType::CLASS, AttribType::CONFIDENCE, AttribType::DATETIME, AttribType::ENDTIME, AttribType::ID, AttribType::METADATA, AttribType::N, AttribType::SPACE, AttribType::SPEAKER, AttribType::SRC],
            textdelimiter: Some("\n\n"@),
            printable: true,
            speakable: true,
            primaryelement: true,
            auto_generate_id: true,
            label: "Definition"@,
            ..default_properties()
        },
        ElementType::DependenciesLayer => PropertiesModel {
            xmltag: "dependencies"@,
            annotationtype: Some(AnnotationType::DEPENDENCY),
            accepted_data: seq![AcceptedData::AcceptElementType(ElementType::Comment), AcceptedData::AcceptElementType(ElementType::Correction), AcceptedData::AcceptElementType(ElementType::Dependency), AcceptedData::AcceptElementType(ElementType::Description), AcceptedData::AcceptElementType(ElementType::ForeignData)],
            optional_attribs: seq![AttribType::ID],
            setonly: true,
            ..default_properties()
        },
        ElementType::Dependency => PropertiesModel {
            xmltag: "dependency"@,
            annotationtype: Some(AnnotationType::DEPENDENCY),
            accepted_data: seq![AcceptedData::AcceptElementGroup(ElementGroup::Inline), AcceptedData::AcceptElementType(ElementType::Comment), AcceptedData::AcceptElementType(ElementType::DependencyDependent), AcceptedData::AcceptElementType(ElementType::Description), AcceptedData::AcceptElementType(ElementType::Feature), AcceptedData::AcceptElementType(ElementType::ForeignData), AcceptedData::AcceptElementType(ElementType::Headspan), AcceptedData::AcceptElementType(ElementType::LinkReference), AcceptedData::AcceptElementType(ElementType::Metric), AcceptedData::AcceptElementType(ElementType::Relation)],
            required_data: seq![AcceptedData::AcceptElementType(ElementType::DependencyDependent), AcceptedData::AcceptElementType(ElementType::Headspan)],
            optional_attribs: seq![AttribType::ANNOTATOR, AttribType::BEGINTIME, AttribType::CLASS, AttribType::CONFIDENCE, AttribType::DATETIME, AttribType::ENDTIME, AttribType::ID, AttribType::METADATA, AttribType::N, AttribType::SPEAKER, AttribType::SRC, AttribType::TEXTCLASS],
            printable: true,
            speakable: true,
            primaryelement: true,
            label: "Dependency"@,
            ..default_properties()
        },
        ElementType::DependencyDependent => PropertiesModel {
            xmltag: "dep"@,
            accepted_data: seq![AcceptedData::AcceptElementGroup(ElementGroup::Inline), AcceptedData::AcceptElementType(ElementType::Comment), AcceptedData::AcceptElementType(ElementType::Description), AcceptedData::AcceptElementType(ElementType::Feature), AcceptedData::AcceptElementType(ElementType::ForeignData), AcceptedData::AcceptElementType(ElementType::LinkReference), AcceptedData::AcceptElementType(ElementType::Metric), AcceptedData::AcceptElementType(ElementType::Relation), AcceptedData::AcceptElementType(ElementType::WordReference)],
            optional_attribs: seq![AttribType::ANNOTATOR, AttribType::BEGINTIME, AttribType::CLASS, AttribType::CONFIDENCE, AttribType::DATETIME, AttribType::ENDTIME, AttribType::ID, AttribType::METADATA, AttribType::N, AttribType::SPEAKER, AttribType::SRC, AttribType::TEXTCLASS],
            occurrences: 1,
            printable: true,
            speakable: true,
            label: "Dependent"@,
            ..default_properties()
        },
        ElementType::Description => PropertiesModel {
            xmltag: "desc"@,
            annotationtype: Some(AnnotationType::DESCRIPTION),
            accepted_data: seq![AcceptedData::AcceptElementType(ElementType::Comment), AcceptedData::AcceptElementType(ElementType::Description)],
            optional_attribs: seq![AttribType::ANNOTATOR, AttribType::CONFIDENCE, AttribType::DATETIME, AttribType::ID, AttribType::METADATA, AttribType::N],
            occurrences: 1,
            primaryelement: true,
            label: "Description"@,
            ..default_properties()
        },
        ElementType::Division => PropertiesModel {
            xmltag: "div"@,
            annotationtype: Some(AnnotationType::DIVISION),
            accepted_data: seq![AcceptedData::AcceptElementGroup(ElementGroup::Layer), AcceptedData::AcceptElementGroup(ElementGroup::Inline), AcceptedData::AcceptElementType(ElementType::Alternative), AcceptedData::AcceptElementType(ElementType::AlternativeLayers), AcceptedData::AcceptElementType(ElementType::Comment), AcceptedData::AcceptElementType(ElementType::Correction), AcceptedData::AcceptElementType(ElementType::Description), AcceptedData::AcceptElementType(ElementType::Division), AcceptedData::AcceptElementType(ElementType::Entry), AcceptedData::AcceptElementType(ElementType::Event), AcceptedData::AcceptElementType(ElementType::Example), AcceptedData::AcceptElementType(ElementType::Feature), AcceptedData::AcceptElementType(ElementType::Figure), AcceptedData::AcceptElementType(ElementType::ForeignData), AcceptedData::AcceptElementType(ElementType::Gap), AcceptedData::AcceptElementType(ElementType::Head), AcceptedData::AcceptElementType(ElementType::Linebreak), AcceptedData::AcceptElementType(ElementType::List), AcceptedData::AcceptElementType(ElementType::Metric), AcceptedData::AcceptElementType(ElementType::Note), AcceptedData::AcceptElementType(ElementType::Paragraph), AcceptedData::AcceptElementType(ElementType::Part), AcceptedData::AcceptElementType(ElementType::PhonContent), AcceptedData::AcceptElementType(ElementType::Quote), AcceptedData::AcceptElementType(ElementType::Reference), AcceptedData::AcceptElementType(ElementType::Relation), AcceptedData::AcceptElementType(ElementType::Sentence), AcceptedData::AcceptElementType(ElementType::Table), AcceptedData::AcceptElementType(ElementType::TextContent), AcceptedData::AcceptElementType(ElementType::Utterance), AcceptedData::AcceptElementType(ElementType::Whitespace), AcceptedData::AcceptElementType(ElementType::Word)],
            optional_attribs: seq![AttribType::ANNOTATOR, AttribType::BEGINTIME, AttribType::CLASS, AttribType::CONFIDENCE, AttribType::DATETIME, AttribType::ENDTIME, AttribType::ID, AttribType::METADATA, AttribType::N, AttribType::SPACE, AttribType::SPEAKER, AttribType::SRC],
            textdelimiter: Some("\n\n\n"@),
            printable: true,
            speakable: true,
            primaryelement: true,
            auto_generate_id: true,
            label: "Division"@,
            ..default_properties()
        },
        ElementType::DomainAnnotation => PropertiesModel {
            xmltag: "domain"@,
            annotationtype: Some(AnnotationType::DOMAIN),
            accepted_data: seq![AcceptedData::AcceptElementType(ElementType::Comment), AcceptedData::AcceptElementType(ElementType::Description), AcceptedData::AcceptElementType(ElementType::Feature), AcceptedData::AcceptElementType(ElementType::ForeignData), AcceptedData::AcceptElementType(ElementType::Metric)],
            required_attribs: seq![AttribType::CLASS],
            optional_attribs: seq![AttribType::ANNOTATOR, AttribType::BEGINTIME, AttribType::CLASS, AttribType::CONFIDENCE, AttribType::DATETIME, AttribType::ENDTIME, AttribType::ID, AttribType::METADATA, AttribType::N, AttribType::SPEAKER, AttribType::SRC, AttribType::TEXTCLASS],
            primaryelement: true,
            label: "Domain"@,
            ..default_properties()
        },
        ElementType::EnddatetimeFeature => PropertiesModel {
            accepted_data: seq![AcceptedData::AcceptElementType(ElementType::Comment), AcceptedData::AcceptElementType(ElementType::Description)],
            subset: Some("enddatetime"@),
            primaryelement: true,
            label: "Feature"@,
            ..default_properties()
        },
        ElementType::EntitiesLayer => PropertiesModel {
            xmltag: "entities"@,
            annotationtype: Some(AnnotationType::ENTITY),
            accepted_data: seq![AcceptedData::AcceptElementType(ElementType::Comment), AcceptedData::AcceptElementType(ElementType::Correction), AcceptedData::AcceptElementType(ElementType::Description), AcceptedData::AcceptElementType(ElementType::Entity), AcceptedData::AcceptElementType(ElementType::ForeignData)],
            optional_attribs: seq![AttribType::ID],
            setonly: true,
            ..default_properties()
        },
        ElementType::Entity => PropertiesModel {
            xmltag: "entity"@,
            annotationtype: Some(AnnotationType::ENTITY),
            accepted_data: seq![AcceptedData::AcceptElementGroup(ElementGroup::Inline), AcceptedData::AcceptElementType(ElementType::Comment), AcceptedData::AcceptElementType(ElementType::Description), AcceptedData::AcceptElementType(ElementType::Feature), AcceptedData::AcceptElementType(ElementType::ForeignData), AcceptedData::AcceptElementType(ElementType::LinkReference), AcceptedData::AcceptElementType(ElementType::Metric), AcceptedData::AcceptElementType(ElementType::Relation), AcceptedData::AcceptElementType(ElementType::WordReference)],
            optional_attribs: seq![AttribType::ANNOTATOR, AttribType::BEGINTIME, AttribType::CLASS, AttribType::CONFIDENCE, AttribType::DATETIME, AttribType::ENDTIME, AttribType::ID, AttribType::METADATA, AttribType::N, AttribType::SPEAKER, AttribType::SRC, AttribType::TEXTCLASS],
            printable: true,
            speakable: true,
            primaryelement: true,
            label: "Entity"@,
            ..default_properties()
        },
        ElementType::Entry => PropertiesModel {
            xmltag: "entry"@,
            annotationtype: Some(AnnotationType::ENTRY),
            accepted_data: seq![AcceptedData::AcceptElementGroup(ElementGroup::Layer), AcceptedData::AcceptElementType(ElementType::Alternative), AcceptedData::AcceptElementType(ElementType::AlternativeLayers), AcceptedData::AcceptElementType(ElementType::Comment), AcceptedData::AcceptElementType(ElementType::Correction), AcceptedData::AcceptElementType(ElementType::Definition), AcceptedData::AcceptElementType(ElementType::Description), AcceptedData::AcceptElementType(ElementType::Example), AcceptedData::AcceptElementType(ElementType::Feature), AcceptedData::AcceptElementType(ElementType::ForeignData), AcceptedData::AcceptElementType(ElementType::Metric), AcceptedData::AcceptElementType(ElementType::Part), AcceptedData::AcceptElementType(ElementType::Relation), AcceptedData::AcceptElementType(ElementType::String), AcceptedData::AcceptElementType(ElementType::Term), AcceptedData::AcceptElementType(ElementType::TextContent)],
            optional_attribs: seq![AttribType::ANNOTATOR, AttribType::BEGINTIME, AttribType::CLASS, AttribType::CONFIDENCE, AttribType::DATETIME, AttribType::ENDTIME, AttribType::ID, AttribType::METADATA, AttribType::N, AttribType::SPACE, AttribType::SPEAKER, AttribType::SRC],
            textdelimiter: Some("\n\n"@),
            printable: true,
            speakable: true,
            primaryelement: true,
            auto_generate_id: true,
            label: "Entry"@,
            ..default_properties()
        },
        ElementType::ErrorDetection => PropertiesModel {
            xmltag: "errordetection"@,
            annotationtype: Some(AnnotationType::ERRORDETECTION),
            accepted_data: seq![AcceptedData::AcceptElementType(ElementType::Comment), AcceptedData::AcceptElementType(ElementType::Description), AcceptedData::AcceptElementType(ElementType::Feature), AcceptedData::AcceptElementType(ElementType::ForeignData), AcceptedData::AcceptElementType(ElementType::Metric)],
            required_attribs: seq![AttribType::CLASS],
            optional_attribs: seq![AttribType::ANNOTATOR, AttribType::BEGINTIME, AttribType::CLASS, AttribType::CONFIDENCE, AttribType::DATETIME, AttribType::ENDTIME, AttribType::ID, AttribType::METADATA, AttribType::N, AttribType::SPEAKER, AttribType::SRC, AttribType::TEXTCLASS],
            primaryelement: true,
            label: "Error Detection"@,
            ..default_properties()
        },
        ElementType::Event => PropertiesModel {
            xmltag: "event"@,
            annotationtype: Some(AnnotationType::EVENT),
            accepted_data: seq![AcceptedData::AcceptElementGroup(ElementGroup::Layer), AcceptedData::AcceptElementGroup(ElementGroup::Inline), AcceptedData::AcceptElementType(ElementType::ActorFeature), AcceptedData::AcceptElementType(ElementType::Alternative), AcceptedData::AcceptElementType(ElementType::AlternativeLayers), AcceptedData::AcceptElementType(ElementType::BegindatetimeFeature), AcceptedData::AcceptElementType(ElementType::Comment), AcceptedData::AcceptElementType(ElementType::Correction), AcceptedData::AcceptElementType(ElementType::Description), AcceptedData::AcceptElementType(ElementType::Division), AcceptedData::AcceptElementType(ElementType::EnddatetimeFeature), AcceptedData::AcceptElementType(ElementType::Entry), AcceptedData::AcceptElementType(ElementType::Event), AcceptedData::AcceptElementType(ElementType::Example), AcceptedData::AcceptElementType(ElementType::Feature), AcceptedData::AcceptElementType(ElementType::Figure), AcceptedData::AcceptElementType(ElementType::ForeignData), AcceptedData::AcceptElementType(ElementType::Gap), AcceptedData::AcceptElementType(ElementType::Head), AcceptedData::AcceptElementType(ElementType::Hiddenword), AcceptedData::AcceptElementType(ElementType::Linebreak), AcceptedData::AcceptElementType(ElementType::List), AcceptedData::AcceptElementType(ElementType::Metric), AcceptedData::AcceptElementType(ElementType::Note), AcceptedData::AcceptElementType(ElementType::Paragraph), AcceptedData::AcceptElementType(ElementType::Part), AcceptedData::AcceptElementType(ElementType::PhonContent), AcceptedData::AcceptElementType(ElementType::Quote), AcceptedData::AcceptElementType(ElementType::Reference), AcceptedData::AcceptElementType(ElementType::Relation), AcceptedData::AcceptElementType(ElementType::Sentence), AcceptedData::AcceptElementType(ElementType::String), AcceptedData::AcceptElementType(ElementType::Table), AcceptedData::AcceptElementType(ElementType::TextContent), AcceptedData::AcceptElementType(ElementType::Utterance), AcceptedData::AcceptElementType(ElementType::Whitespace), AcceptedData::AcceptElementType(ElementType::Word)],
            optional_attribs: seq![AttribType::ANNOTATOR, AttribType::BEGINTIME, AttribType::CLASS, AttribType::CONFIDENCE, AttribType::DATETIME, AttribType::ENDTIME, AttribType::ID, AttribType::METADATA, AttribType::N, AttribType::SPACE, AttribType::SPEAKER, AttribType::SRC],
            textdelimiter: Some("\n\n"@),
            printable: true,
            speakable: true,
            primaryelement: true,
            auto_generate_id: true,
            label: "Event"@,
            ..default_properties()
        },
        ElementType::Example => PropertiesModel {
            xmltag: "ex"@,
            annotationtype: Some(AnnotationType::EXAMPLE),
            accepted_data: seq![AcceptedData::AcceptElementGroup(ElementGroup::Layer), AcceptedData::AcceptElementGroup(ElementGroup::Inline), AcceptedData::AcceptElementType(ElementType::Alternative), AcceptedData::AcceptElementType(ElementType::AlternativeLayers), AcceptedData::AcceptElementType(ElementType::Comment), AcceptedData::AcceptElementType(ElementType::Correction), AcceptedData::AcceptElementType(ElementType::Description), AcceptedData::AcceptElementType(ElementType::Feature), AcceptedData::AcceptElementType(ElementType::Figure), AcceptedData::AcceptElementType(ElementType::ForeignData), AcceptedData::AcceptElementType(ElementType::Hiddenword), AcceptedData::AcceptElementType(ElementType::Linebreak), AcceptedData::AcceptElementType(ElementType::List), AcceptedData::AcceptElementType(ElementType::Metric), AcceptedData::AcceptElementType(ElementType::Paragraph), AcceptedData::AcceptElementType(ElementType::Part), AcceptedData::AcceptElementType(ElementType::PhonContent), AcceptedData::AcceptElementType(ElementType::Reference), AcceptedData::AcceptElementType(ElementType::Relation), AcceptedData::AcceptElementType(ElementType::Sentence), AcceptedData::AcceptElementType(ElementType::String), AcceptedData::AcceptElementType(ElementType::Table), AcceptedData::AcceptElementType(ElementType::TextContent), AcceptedData::AcceptElementType(ElementType::Utterance), AcceptedData::AcceptElementType(ElementType::Whitespace), AcceptedData::AcceptElementType(ElementType::Word)],
            optional_attribs: seq![AttribType::ANNOTATOR, AttribType::BEGINTIME, AttribType::CLASS, AttribType::CONFIDENCE, AttribType::DATETIME, AttribType::ENDTIME, AttribType::ID, AttribType::METADATA, AttribType::N, AttribType::SPACE, AttribType::SPEAKER, AttribType::SRC],
            textdelimiter: Some("\n\n"@),
            printable: true,
            speakable: true,
            primaryelement: true,
            auto_generate_id: true,
            label: "Example"@,
            ..default_properties()
        },
        ElementType::External => PropertiesModel {
            xmltag: "external"@,
            required_attribs: seq![AttribType::SRC],
            printable: true,
            primaryelement: true,
            label: "External"@,
            ..default_properties()
        },
        ElementType::Feature => PropertiesModel {
            xmltag: "feat"@,
            accepted_data: seq![AcceptedData::AcceptElementType(ElementType::Comment), AcceptedData::AcceptElementType(ElementType::Description)],
            primaryelement: true,
            label: "Feature"@,
            ..default_properties()
        },
        ElementType::Figure => PropertiesModel {
            xmltag: "figure"@,
            annotationtype: Some(AnnotationType::FIGURE),
            accepted_data: seq![AcceptedData::AcceptElementGroup(ElementGroup::Layer), AcceptedData::AcceptElementType(ElementType::Alternative), AcceptedData::AcceptElementType(ElementType::AlternativeLayers), AcceptedData::AcceptElementType(ElementType::Caption), AcceptedData::AcceptElementType(ElementType::Comment), AcceptedData::AcceptElementType(ElementType::Correction), AcceptedData::AcceptElementType(ElementType::Description), AcceptedData::AcceptElementType(ElementType::Feature), AcceptedData::AcceptElementType(ElementType::ForeignData), AcceptedData::AcceptElementType(ElementType::Linebreak), AcceptedData::AcceptElementType(ElementType::Metric), AcceptedData::AcceptElementType(ElementType::Part), AcceptedData::AcceptElementType(ElementType::Relation), AcceptedData::AcceptElementType(ElementType::String), AcceptedData::AcceptElementType(ElementType::TextContent)],
            optional_attribs: seq![AttribType::ANNOTATOR, AttribType::BEGINTIME, AttribType::CLASS, AttribType::CONFIDENCE, AttribType::DATETIME, AttribType::ENDTIME, AttribType::ID, AttribType::METADATA, AttribType::N, AttribType::SPACE, AttribType::SPEAKER, AttribType::SRC],
            textdelimiter: Some("\n\n"@),
            printable: true,
            primaryelement: true,
            auto_generate_id: true,
            label: "Figure"@,
            ..default_properties()
        },
        ElementType::ForeignData => PropertiesModel {
            xmltag: "foreign-data"@,
            accepted_data: seq![AcceptedData::AcceptElementType(ElementType::Comment), AcceptedData::AcceptElementType(ElementType::Description)],
            primaryelement: true,
            ..default_properties()
        },
        ElementType::FunctionFeature => PropertiesModel {
            accepted_data: seq![AcceptedData::AcceptElementType(ElementType::Comment), AcceptedData::AcceptElementType(ElementType::Description)],
            subset: Some("function"@),
            primaryelement: true,
            label: "Feature"@,
            ..default_properties()
        },
        ElementType::Gap => PropertiesModel {
            xmltag: "gap"@,
            annotationtype: Some(AnnotationType::GAP),
            accepted_data: seq![AcceptedData::AcceptElementType(ElementType::Comment), AcceptedData::AcceptElementType(ElementType::Content), AcceptedData::AcceptElementType(ElementType::Description), AcceptedData::AcceptElementType(ElementType::Feature), AcceptedData::AcceptElementType(ElementType::ForeignData), AcceptedData::AcceptElementType(ElementType::Metric), AcceptedData::AcceptElementType(ElementType::Part)],
            optional_attribs: seq![AttribType::ANNOTATOR, AttribType::BEGINTIME, AttribType::CLASS, AttribType::DATETIME, AttribType::ENDTIME, AttribType::ID, AttribType::METADATA, AttribType::N, AttribType::SRC],
            primaryelement: true,
            label: "Gap"@,
            ..default_properties()
        },
        ElementType::Head => PropertiesModel {
            xmltag: "head"@,
            annotationtype: Some(AnnotationType::HEAD),
            accepted_data: seq![AcceptedData::AcceptElementGroup(ElementGroup::Layer), AcceptedData::AcceptElementGroup(ElementGroup::Inline), AcceptedData::AcceptElementType(ElementType::Alternative), AcceptedData::AcceptElementType(ElementType::AlternativeLayers), AcceptedData::AcceptElementType(ElementType::Comment), AcceptedData::AcceptElementType(ElementType::Correction), AcceptedData::AcceptElementType(ElementType::Description), AcceptedData::AcceptElementType(ElementType::Event), AcceptedData::AcceptElementType(ElementType::Feature), AcceptedData::AcceptElementType(ElementType::ForeignData), AcceptedData::AcceptElementType(ElementType::Gap), AcceptedData::AcceptElementType(ElementType::Hiddenword), AcceptedData::AcceptElementType(ElementType::Linebreak), AcceptedData::AcceptElementType(ElementType::Metric), AcceptedData::AcceptElementType(ElementType::Paragraph), AcceptedData::AcceptElementType(ElementType::Part), AcceptedData::AcceptElementType(ElementType::PhonContent), AcceptedData::AcceptElementType(ElementType::Reference), AcceptedData::AcceptElementType(ElementType::Relation), AcceptedData::AcceptElementType(ElementType::Sentence), AcceptedData::AcceptElementType(ElementType::String), AcceptedData::AcceptElementType(ElementType::TextContent), AcceptedData::AcceptElementType(ElementType::Whitespace), AcceptedData::AcceptElementType(ElementType::Word)],
            optional_attribs: seq![AttribType::ANNOTATOR, AttribType::BEGINTIME, AttribType::CLASS, AttribType::CONFIDENCE, AttribType::DATETIME, AttribType::ENDTIME, AttribType::ID, AttribType::METADATA, AttribType::N, AttribType::SPACE, AttribType::SPEAKER, AttribType::SRC],
            textdelimiter: Some("\n\n"@),
            printable: true,
            speakable: true,
            primaryelement: true,
            auto_generate_id: true,
            label: "Head"@,
            ..default_properties()
        },
        ElementType::HeadFeature => PropertiesModel {
            accepted_data: seq![AcceptedData::AcceptElementType(ElementType::Comment), AcceptedData::AcceptElementType(ElementType::Description)],
            subset: Some("head"@),
            primaryelement: true,
            label: "Feature"@,
            ..default_properties()
        },
        ElementType::Headspan => PropertiesModel {
            xmltag: "hd"@,
            accepted_data: seq![AcceptedData::AcceptElementGroup(ElementGroup::Inline), AcceptedData::AcceptElementType(ElementType::Comment), AcceptedData::AcceptElementType(ElementType::Description), AcceptedData::AcceptElementType(ElementType::Feature), AcceptedData::AcceptElementType(ElementType::ForeignData), AcceptedData::AcceptElementType(ElementType::LinkReference), AcceptedData::AcceptElementType(ElementType::Metric), AcceptedData::AcceptElementType(ElementType::Relation), AcceptedData::AcceptElementType(ElementType::WordReference)],
            optional_attribs: seq![AttribType::ANNOTATOR, AttribType::BEGINTIME, AttribType::CLASS, AttribType::CONFIDENCE, AttribType::DATETIME, AttribType::ENDTIME, AttribType::ID, AttribType::METADATA, AttribType::N, AttribType::SPEAKER, AttribType::SRC, AttribType::TEXTCLASS],
            occurrences: 1,
            printable: true,
            speakable: true,
            label: "Head"@,
            ..default_properties()
        },
        ElementType::Hiddenword => PropertiesModel {
            xmltag: "hiddenw"@,
            annotationtype: Some(AnnotationType::HIDDENTOKEN),
            accepted_data: seq![AcceptedData::AcceptElementGroup(ElementGroup::Layer), AcceptedData::AcceptElementGroup(ElementGroup::Inline), AcceptedData::AcceptElementType(ElementType::Alternative), AcceptedData::AcceptElementType(ElementType::AlternativeLayers), AcceptedData::AcceptElementType(ElementType::Comment), AcceptedData::AcceptElementType(ElementType::Correction), AcceptedData::AcceptElementType(ElementType::Description), AcceptedData::AcceptElementType(ElementType::Feature), AcceptedData::AcceptElementType(ElementType::ForeignData), AcceptedData::AcceptElementType(ElementType::Metric), AcceptedData::AcceptElementType(ElementType::Part), AcceptedData::AcceptElementType(ElementType::PhonContent), AcceptedData::AcceptElementType(ElementType::Reference), AcceptedData::AcceptElementType(ElementType::Relation), AcceptedData::AcceptElementType(ElementType::String), AcceptedData::AcceptElementType(ElementType::TextContent)],
            optional_attribs: seq![AttribType::ANNOTATOR, AttribType::BEGINTIME, AttribType::CLASS, AttribType::CONFIDENCE, AttribType::DATETIME, AttribType::ENDTIME, AttribType::ID, AttribType::METADATA, AttribType::N, AttribType::SPACE, AttribType::SPEAKER, AttribType::SRC, AttribType::TEXTCLASS],
            textdelimiter: Some(" "@),
            printable: true,
            speakable: true,
            hidden: true,
            primaryelement: true,
            auto_generate_id: true,
            wrefable: true,
            label: "Hidden Word/Token"@,
            ..default_properties()
        },
        ElementType::Hyphbreak => PropertiesModel {
            xmltag: "t-hbr"@,
            annotationtype: Some(AnnotationType::HYPHENATION),
            accepted_data: seq![AcceptedData::AcceptElementGroup(ElementGroup::TextMarkup), AcceptedData::AcceptElementType(ElementType::Comment), AcceptedData::AcceptElementType(ElementType::Description), AcceptedData::AcceptElementType(ElementType::Linebreak)],
            optional_attribs: seq![AttribType::ANNOTATOR, AttribType::BEGINTIME, AttribType::CLASS, AttribType::CONFIDENCE, AttribType::DATETIME, AttribType::ENDTIME, AttribType::ID, AttribType::METADATA, AttribType::N, AttribType::SPEAKER, AttribType::SRC],
            textdelimiter: Some(""@),
            printable: true,
            xlink: true,
            textcontainer: true,
            label: "Hyphbreak"@,
            ..default_properties()
        },
        ElementType::Label => PropertiesModel {
            xmltag: "label"@,
            accepted_data: seq![AcceptedData::AcceptElementGroup(ElementGroup::Layer), AcceptedData::AcceptElementGroup(ElementGroup::Inline), AcceptedData::AcceptElementType(ElementType::Alternative), AcceptedData::AcceptElementType(ElementType::AlternativeLayers), AcceptedData::AcceptElementType(ElementType::Comment), AcceptedData::AcceptElementType(ElementType::Correction), AcceptedData::AcceptElementType(ElementType::Description), AcceptedData::AcceptElementType(ElementType::Feature), AcceptedData::AcceptElementType(ElementType::ForeignData), AcceptedData::AcceptElementType(ElementType::Hiddenword), AcceptedData::AcceptElementType(ElementType::Linebreak), AcceptedData::AcceptElementType(ElementType::Metric), AcceptedData::AcceptElementType(ElementType::Part), AcceptedData::AcceptElementType(ElementType::PhonContent), AcceptedData::AcceptElementType(ElementType::Reference), AcceptedData::AcceptElementType(ElementType::Relation), AcceptedData::AcceptElementType(ElementType::String), AcceptedData::AcceptElementType(ElementType::TextContent), AcceptedData::AcceptElementType(ElementType::Whitespace), AcceptedData::AcceptElementType(ElementType::Word)],
            optional_attribs: seq![AttribType::ANNOTATOR, AttribType::BEGINTIME, AttribType::CLASS, AttribType::CONFIDENCE, AttribType::DATETIME, AttribType::ENDTIME, AttribType::ID, AttribType::METADATA, AttribType::N, AttribType::SPACE, AttribType::SPEAKER, AttribType::SRC],
            textdelimiter: Some("\n\n"@),
            printable: true,
            speakable: true,
            primaryelement: true,
            auto_generate_id: true,
            label: "Label"@,
            ..default_properties()
        },
        ElementType::LangAnnotation => PropertiesModel {
            xmltag: "lang"@,
            annotationtype: Some(AnnotationType::LANG),
            accepted_data: seq![AcceptedData::AcceptElementType(ElementType::Comment), AcceptedData::AcceptElementType(ElementType::Description), AcceptedData::AcceptElementType(ElementType::Feature), AcceptedData::AcceptElementType(ElementType::ForeignData), AcceptedData::AcceptElementType(ElementType::Metric)],
            required_attribs: seq![AttribType::CLASS],
            optional_attribs: seq![AttribType::ANNOTATOR, AttribType::BEGINTIME, AttribType::CLASS, AttribType::CONFIDENCE, AttribType::DATETIME, AttribType::ENDTIME, AttribType::ID, AttribType::METADATA, AttribType::N, AttribType::SPEAKER, AttribType::SRC, AttribType::TEXTCLASS],
            occurrences_per_set: 1,
            primaryelement: true,
            label: "Language"@,
            ..default_properties()
        },
        ElementType::LemmaAnnotation => PropertiesModel {
            xmltag: "lemma"@,
            annotationtype: Some(AnnotationType::LEMMA),
            accepted_data: seq![AcceptedData::AcceptElementType(ElementType::Comment), AcceptedData::AcceptElementType(ElementType::Description), AcceptedData::AcceptElementType(ElementType::Feature), AcceptedData::AcceptElementType(ElementType::ForeignData), AcceptedData::AcceptElementType(ElementType::Metric)],
            required_attribs: seq![AttribType::CLASS],
            optional_attribs: seq![AttribType::ANNOTATOR, AttribType::BEGINTIME, AttribType::CLASS, AttribType::CONFIDENCE, AttribType::DATETIME, AttribType::ENDTIME, AttribType::ID, AttribType::METADATA, AttribType::N, AttribType::SPEAKER, AttribType::SRC, AttribType::TEXTCLASS],
            occurrences_per_set: 1,
            primaryelement: true,
            label: "Lemma"@,
            ..default_properties()
        },
        ElementType::LevelFeature => PropertiesModel {
            accepted_data: seq![AcceptedData::AcceptElementType(ElementType::Comment), AcceptedData::AcceptElementType(ElementType::Description)],
            subset: Some("level"@),
            primaryelement: true,
            label: "Feature"@,
            ..default_properties()
        },
        ElementType::Linebreak => PropertiesModel {
            xmltag: "br"@,
            annotationtype: Some(AnnotationType::LINEBREAK),
            accepted_data: seq![AcceptedData::AcceptElementGroup(ElementGroup::Layer), AcceptedData::AcceptElementType(ElementType::Alternative), AcceptedData::AcceptElementType(ElementType::AlternativeLayers), AcceptedData::AcceptElementType(ElementType::Comment), AcceptedData::AcceptElementType(ElementType::Correction), AcceptedData::AcceptElementType(ElementType::Description), AcceptedData::AcceptElementType(ElementType::Feature), AcceptedData::AcceptElementType(ElementType::ForeignData), AcceptedData::AcceptElementType(ElementType::Metric), AcceptedData::AcceptElementType(ElementType::Part), AcceptedData::AcceptElementType(ElementType::Relation)],
            optional_attribs: seq![AttribType::ANNOTATOR, AttribType::BEGINTIME, AttribType::CLASS, AttribType::CONFIDENCE, AttribType::DATETIME, AttribType::ENDTIME, AttribType::ID, AttribType::METADATA, AttribType::N, AttribType::SPACE, AttribType::SPEAKER, AttribType::SRC],
            textdelimiter: Some(""@),
            printable: true,
            speakable: true,
            xlink: true,
            primaryelement: true,
            auto_generate_id: true,
            label: "Linebreak"@,
            ..default_properties()
        },
        ElementType::LinkReference => PropertiesModel {
            xmltag: "xref"@,
            accepted_data: seq![AcceptedData::AcceptElementType(ElementType::Comment), AcceptedData::AcceptElementType(ElementType::Description)],
            optional_attribs: seq![AttribType::IDREF],
            primaryelement: true,
            ..default_properties()
        },
        ElementType::List => PropertiesModel {
            xmltag: "list"@,
            annotationtype: Some(AnnotationType::LIST),
            accepted_data: seq![AcceptedData::AcceptElementGroup(ElementGroup::Layer), AcceptedData::AcceptElementGroup(ElementGroup::Inline), AcceptedData::AcceptElementType(ElementType::Alternative), AcceptedData::AcceptElementType(ElementType::AlternativeLayers), AcceptedData::AcceptElementType(ElementType::Caption), AcceptedData::AcceptElementType(ElementType::Comment), AcceptedData::AcceptElementType(ElementType::Correction), AcceptedData::AcceptElementType(ElementType::Description), AcceptedData::AcceptElementType(ElementType::Event), AcceptedData::AcceptElementType(ElementType::Feature), AcceptedData::AcceptElementType(ElementType::ForeignData), AcceptedData::AcceptElementType(ElementType::Linebreak), AcceptedData::AcceptElementType(ElementType::ListItem), AcceptedData::AcceptElementType(ElementType::Metric), AcceptedData::AcceptElementType(ElementType::Note), AcceptedData::AcceptElementType(ElementType::Part), AcceptedData::AcceptElementType(ElementType::PhonContent), AcceptedData::AcceptElementType(ElementType::Reference), AcceptedData::AcceptElementType(ElementType::Relation), AcceptedData::AcceptElementType(ElementType::String), AcceptedData::AcceptElementType(ElementType::TextContent)],
            optional_attribs: seq![AttribType::ANNOTATOR, AttribType::BEGINTIME, AttribType::CLASS, AttribType::CONFIDENCE, AttribType::DATETIME, AttribType::ENDTIME, AttribType::ID, AttribType::METADATA, AttribType::N, AttribType::SPACE, AttribType::SPEAKER, AttribType::SRC],
            textdelimiter: Some("\n\n"@),
            printable: true,
            speakable: true,
            primaryelement: true,
            auto_generate_id: true,
            label: "List"@,
            ..default_properties()
        },
        ElementType::ListItem => PropertiesModel {
            xmltag: "item"@,
            accepted_data: seq![AcceptedData::AcceptElementGroup(ElementGroup::Layer), AcceptedData::AcceptElementGroup(ElementGroup::Inline), AcceptedData::AcceptElementType(ElementType::Alternative), AcceptedData::AcceptElementType(ElementType::AlternativeLayers), AcceptedData::AcceptElementType(ElementType::Comment), AcceptedData::AcceptElementType(ElementType::Correction), AcceptedData::AcceptElementType(ElementType::Description), AcceptedData::AcceptElementType(ElementType::Event), AcceptedData::AcceptElementType(ElementType::Feature), AcceptedData::AcceptElementType(ElementType::ForeignData), AcceptedData::AcceptElementType(ElementType::Gap), AcceptedData::AcceptElementType(ElementType::Hiddenword), AcceptedData::AcceptElementType(ElementType::Label), AcceptedData::AcceptElementType(ElementType::Linebreak), AcceptedData::AcceptElementType(ElementType::List), AcceptedData::AcceptElementType(ElementType::Metric), AcceptedData::AcceptElementType(ElementType::Note), AcceptedData::AcceptElementType(ElementType::Paragraph), AcceptedData::AcceptElementType(ElementType::Part), AcceptedData::AcceptElementType(ElementType::PhonContent), AcceptedData::AcceptElementType(ElementType::Quote), AcceptedData::AcceptElementType(ElementType::Reference), AcceptedData::AcceptElementType(ElementType::Relation), AcceptedData::AcceptElementType(ElementType::Sentence), AcceptedData::AcceptElementType(ElementType::String), AcceptedData::AcceptElementType(ElementType::TextContent), AcceptedData::AcceptElementType(ElementType::Whitespace), AcceptedData::AcceptElementType(ElementType::Word)],
            optional_attribs: seq![AttribType::ANNOTATOR, AttribType::BEGINTIME, AttribType::CLASS, AttribType::CONFIDENCE, AttribType::DATETIME, AttribType::ENDTIME, AttribType::ID, AttribType::METADATA, AttribType::N, AttribType::SPACE, AttribType::SPEAKER, AttribType::SRC],
            textdelimiter: Some("\n"@),
            printable: true,
            speakable: true,
            primaryelement: true,
            auto_generate_id: true,
            label: "List Item"@,
            ..default_properties()
        },
        ElementType::Metric => PropertiesModel {
            xmltag: "metric"@,
            annotationtype: Some(AnnotationType::METRIC),
            accepted_data: seq![AcceptedData::AcceptElementType(ElementType::Comment), AcceptedData::AcceptElementType(ElementType::Description), AcceptedData::AcceptElementType(ElementType::Feature), AcceptedData::AcceptElementType(ElementType::ForeignData), AcceptedData::AcceptElementType(ElementType::ValueFeature)],
            optional_attribs: seq![AttribType::ANNOTATOR, AttribType::BEGINTIME, AttribType::CLASS, AttribType::CONFIDENCE, AttribType::DATETIME, AttribType::ENDTIME, AttribType::ID, AttribType::METADATA, AttribType::N, AttribType::SPEAKER, AttribType::SRC],
            primaryelement: true,
            label: "Metric"@,
            ..default_properties()
        },
        ElementType::ModalityFeature => PropertiesModel {
            accepted_data: seq![AcceptedData::AcceptElementType(ElementType::Comment), AcceptedData::AcceptElementType(ElementType::Description)],
            subset: Some("modality"@),
            primaryelement: true,
            label: "Feature"@,
            ..default_properties()
        },
        ElementType::Morpheme => PropertiesModel {
            xmltag: "morpheme"@,
            annotationtype: Some(AnnotationType::MORPHOLOGICAL),
            accepted_data: seq![AcceptedData::AcceptElementGroup(ElementGroup::Layer), AcceptedData::AcceptElementGroup(ElementGroup::Inline), AcceptedData::AcceptElementType(ElementType::Alternative), AcceptedData::AcceptElementType(ElementType::AlternativeLayers), AcceptedData::AcceptElementType(ElementType::Comment), AcceptedData::AcceptElementType(ElementType::Correction), AcceptedData::AcceptElementType(ElementType::Description), AcceptedData::AcceptElementType(ElementType::Feature), AcceptedData::AcceptElementType(ElementType::ForeignData), AcceptedData::AcceptElementType(ElementType::FunctionFeature), AcceptedData::AcceptElementType(ElementType::Metric), AcceptedData::AcceptElementType(ElementType::Morpheme), AcceptedData::AcceptElementType(ElementType::Part), AcceptedData::AcceptElementType(ElementType::PhonContent), AcceptedData::AcceptElementType(ElementType::Relation), AcceptedData::AcceptElementType(ElementType::String), AcceptedData::AcceptElementType(ElementType::TextContent)],
            optional_attribs: seq![AttribType::ANNOTATOR, AttribType::BEGINTIME, AttribType::CLASS, AttribType::CONFIDENCE, AttribType::DATETIME, AttribType::ENDTIME, AttribType::ID, AttribType::METADATA, AttribType::N, AttribType::SPEAKER, AttribType::SRC],
            textdelimiter: Some(""@),
            printable: true,
            speakable: true,
            primaryelement: true,
            auto_generate_id: true,
            wrefable: true,
            label: "Morpheme"@,
            ..default_properties()
        },
        ElementType::MorphologyLayer => PropertiesModel {
            xmltag: "morphology"@,
            annotationtype: Some(AnnotationType::MORPHOLOGICAL),
            accepted_data: seq![AcceptedData::AcceptElementType(ElementType::Comment), AcceptedData::AcceptElementType(ElementType::Correction), AcceptedData::AcceptElementType(ElementType::Description), AcceptedData::AcceptElementType(ElementType::ForeignData), AcceptedData::AcceptElementType(ElementType::Morpheme)],
            optional_attribs: seq![AttribType::ID],
            setonly: true,
            ..default_properties()
        },
        ElementType::New => PropertiesModel {
            xmltag: "new"@,
            annotationtype: Some(AnnotationType::CORRECTION),
            accepted_data: seq![AcceptedData::AcceptElementGroup(ElementGroup::Inline), AcceptedData::AcceptElementGroup(ElementGroup::Span), AcceptedData::AcceptElementGroup(ElementGroup::Structure), AcceptedData::AcceptElementType(ElementType::Comment), AcceptedData::AcceptElementType(ElementType::Correction), AcceptedData::AcceptElementType(ElementType::Description), AcceptedData::AcceptElementType(ElementType::ForeignData), AcceptedData::AcceptElementType(ElementType::Metric), AcceptedData::AcceptElementType(ElementType::PhonContent), AcceptedData::AcceptElementType(ElementType::String), AcceptedData::AcceptElementType(ElementType::TextContent)],
            occurrences: 1,
            printable: true,
            speakable: true,
            ..default_properties()
        },
        ElementType::Note => PropertiesModel {
            xmltag: "note"@,
            annotationtype: Some(AnnotationType::NOTE),
            accepted_data: seq![AcceptedData::AcceptElementGroup(ElementGroup::Layer), AcceptedData::AcceptElementGroup(ElementGroup::Inline), AcceptedData::AcceptElementType(ElementType::Alternative), AcceptedData::AcceptElementType(ElementType::AlternativeLayers), AcceptedData::AcceptElementType(ElementType::Comment), AcceptedData::AcceptElementType(ElementType::Correction), AcceptedData::AcceptElementType(ElementType::Description), AcceptedData::AcceptElementType(ElementType::Example), AcceptedData::AcceptElementType(ElementType::Feature), AcceptedData::AcceptElementType(ElementType::Figure), AcceptedData::AcceptElementType(ElementType::ForeignData), AcceptedData::AcceptElementType(ElementType::Head), AcceptedData::AcceptElementType(ElementType::Hiddenword), AcceptedData::AcceptElementType(ElementType::Linebreak), AcceptedData::AcceptElementType(ElementType::List), AcceptedData::AcceptElementType(ElementType::Metric), AcceptedData::AcceptElementType(ElementType::Paragraph), AcceptedData::AcceptElementType(ElementType::Part), AcceptedData::AcceptElementType(ElementType::PhonContent), AcceptedData::AcceptElementType(ElementType::Reference), AcceptedData::AcceptElementType(ElementType::Relation), AcceptedData::AcceptElementType(ElementType::Sentence), AcceptedData::AcceptElementType(ElementType::String), AcceptedData::AcceptElementType(ElementType::Table), AcceptedData::AcceptElementType(ElementType::TextContent), AcceptedData::AcceptElementType(ElementType::Utterance), AcceptedData::AcceptElementType(ElementType::Whitespace), AcceptedData::AcceptElementType(ElementType::Word)],
            optional_attribs: seq![AttribType::ANNOTATOR, AttribType::BEGINTIME, AttribType::CLASS, AttribType::CONFIDENCE, AttribType::DATETIME, AttribType::ENDTIME, AttribType::ID, AttribType::METADATA, AttribType::N, AttribType::SPACE, AttribType::SPEAKER, AttribType::SRC],
            textdelimiter: Some("\n\n"@),
            printable: true,
            speakable: true,
            primaryelement: true,
            auto_generate_id: true,
            label: "Note"@,
            ..default_properties()
        },
        ElementType::Observation => PropertiesModel {
            xmltag: "observation"@,
            annotationtype: Some(AnnotationType::OBSERVATION),
            accepted_data: seq![AcceptedData::AcceptElementGroup(ElementGroup::Inline), AcceptedData::AcceptElementType(ElementType::Comment), AcceptedData::AcceptElementType(ElementType::Description), AcceptedData::AcceptElementType(ElementType::Feature), AcceptedData::AcceptElementType(ElementType::ForeignData), AcceptedData::AcceptElementType(ElementType::LinkReference), AcceptedData::AcceptElementType(ElementType::Metric), AcceptedData::AcceptElementType(ElementType::Relation), AcceptedData::AcceptElementType(ElementType::WordReference)],
            optional_attribs: seq![AttribType::ANNOTATOR, AttribType::BEGINTIME, AttribType::CLASS, AttribType::CONFIDENCE, AttribType::DATETIME, AttribType::ENDTIME, AttribType::ID, AttribType::METADATA, AttribType::N, AttribType::SPEAKER, AttribType::SRC, AttribType::TEXTCLASS],
            printable: true,
            speakable: true,
            primaryelement: true,
            label: "Observation"@,
            ..default_properties()
        },
        ElementType::ObservationLayer => PropertiesModel {
            xmltag: "observations"@,
            annotationtype: Some(AnnotationType::OBSERVATION),
            accepted_data: seq![AcceptedData::AcceptElementType(ElementType::Comment), AcceptedData::AcceptElementType(ElementType::Correction), AcceptedData::AcceptElementType(ElementType::Description), AcceptedData::AcceptElementType(ElementType::ForeignData), AcceptedData::AcceptElementType(ElementType::Observation)],
            optional_attribs: seq![AttribType::ID],
            setonly: true,
            ..default_properties()
        },
        ElementType::Original => PropertiesModel {
            xmltag: "original"@,
            annotationtype: Some(AnnotationType::CORRECTION),
            accepted_data: seq![AcceptedData::AcceptElementGroup(ElementGroup::Inline), AcceptedData::AcceptElementGroup(ElementGroup::Span), AcceptedData::AcceptElementGroup(ElementGroup::Structure), AcceptedData::AcceptElementType(ElementType::Comment), AcceptedData::AcceptElementType(ElementType::Correction), AcceptedData::AcceptElementType(ElementType::Description), AcceptedData::AcceptElementType(ElementType::ForeignData), AcceptedData::AcceptElementType(ElementType::Metric), AcceptedData::AcceptElementType(ElementType::PhonContent), AcceptedData::AcceptElementType(ElementType::String), AcceptedData::AcceptElementType(ElementType::TextContent)],
            occurrences: 1,
            printable: true,
            speakable: true,
            auth: false,
            ..default_properties()
        },
        ElementType::Paragraph => PropertiesModel {
            xmltag: "p"@,
            annotationtype: Some(AnnotationType::PARAGRAPH),
            accepted_data: seq![AcceptedData::AcceptElementGroup(ElementGroup::Layer), AcceptedData::AcceptElementGroup(ElementGroup::Inline), AcceptedData::AcceptElementType(ElementType::Alternative), AcceptedData::AcceptElementType(ElementType::AlternativeLayers), AcceptedData::AcceptElementType(ElementType::Comment), AcceptedData::AcceptElementType(ElementType::Correction), AcceptedData::AcceptElementType(ElementType::Description), AcceptedData::AcceptElementType(ElementType::Entry), AcceptedData::AcceptElementType(ElementType::Event), AcceptedData::AcceptElementType(ElementType::Example), AcceptedData::AcceptElementType(ElementType::Feature), AcceptedData::AcceptElementType(ElementType::Figure), AcceptedData::AcceptElementType(ElementType::ForeignData), AcceptedData::AcceptElementType(ElementType::Gap), AcceptedData::AcceptElementType(ElementType::Head), AcceptedData::AcceptElementType(ElementType::Hiddenword), AcceptedData::AcceptElementType(ElementType::Linebreak), AcceptedData::AcceptElementType(ElementType::List), AcceptedData::AcceptElementType(ElementType::Metric), AcceptedData::AcceptElementType(ElementType::Note), AcceptedData::AcceptElementType(ElementType::Part), AcceptedData::AcceptElementType(ElementType::PhonContent), AcceptedData::AcceptElementType(ElementType::Quote), AcceptedData::AcceptElementType(ElementType::Reference), AcceptedData::AcceptElementType(ElementType::Relation), AcceptedData::AcceptElementType(ElementType::Sentence), AcceptedData::AcceptElementType(ElementType::String), AcceptedData::AcceptElementType(ElementType::TextContent), AcceptedData::AcceptElementType(ElementType::Whitespace), AcceptedData::AcceptElementType(ElementType::Word)],
            optional_attribs: seq![AttribType::ANNOTATOR, AttribType::BEGINTIME, AttribType::CLASS, AttribType::CONFIDENCE, AttribType::DATETIME, AttribType::ENDTIME, AttribType::ID, AttribType::METADATA, AttribType::N, AttribType::SPACE, AttribType::SPEAKER, AttribType::SRC],
            textdelimiter: Some("\n\n"@),
            printable: true,
            speakable: true,
            primaryelement: true,
            auto_generate_id: true,
            label: "Paragraph"@,
            ..default_properties()
        },
        ElementType::Part => PropertiesModel {
            xmltag: "part"@,
            annotationtype: Some(AnnotationType::PART),
            accepted_data: seq![AcceptedData::AcceptElementGroup(ElementGroup::Layer), AcceptedData::AcceptElementGroup(ElementGroup::Inline), AcceptedData::AcceptElementGroup(ElementGroup::Structure), AcceptedData::AcceptElementType(ElementType::Alternative), AcceptedData::AcceptElementType(ElementType::AlternativeLayers), AcceptedData::AcceptElementType(ElementType::Comment), AcceptedData::AcceptElementType(ElementType::Correction), AcceptedData::AcceptElementType(ElementType::Description), AcceptedData::AcceptElementType(ElementType::Feature), AcceptedData::AcceptElementType(ElementType::ForeignData), AcceptedData::AcceptElementType(ElementType::Metric), AcceptedData::AcceptElementType(ElementType::Part), AcceptedData::AcceptElementType(ElementType::PhonContent), AcceptedData::AcceptElementType(ElementType::Relation), AcceptedData::AcceptElementType(ElementType::TextContent)],
            optional_attribs: seq![AttribType::ANNOTATOR, AttribType::BEGINTIME, AttribType::CLASS, AttribType::CONFIDENCE, AttribType::DATETIME, AttribType::ENDTIME, AttribType::ID, AttribType::METADATA, AttribType::N, AttribType::SPACE, AttribType::SPEAKER, AttribType::SRC],
            textdelimiter: Some(" "@),
            printable: true,
            speakable: true,
            primaryelement: true,
            auto_generate_id: true,
            label: "Part"@,
            ..default_properties()
        },
        ElementType::PhonContent => PropertiesModel {
            xmltag: "ph"@,
            annotationtype: Some(AnnotationType::PHON),
            optional_attribs: seq![AttribType::ANNOTATOR, AttribType::CLASS, AttribType::CONFIDENCE, AttribType::DATETIME, AttribType::METADATA],
            speakable: true,
            phoncontainer: true,
            primaryelement: true,
            label: "Phonetic Content"@,
            ..default_properties()
        },
        ElementType::Phoneme => PropertiesModel {
            xmltag: "phoneme"@,
            annotationtype: Some(AnnotationType::PHONOLOGICAL),
            accepted_data: seq![AcceptedData::AcceptElementGroup(ElementGroup::Layer), AcceptedData::AcceptElementGroup(ElementGroup::Inline), AcceptedData::AcceptElementType(ElementType::Alternative), AcceptedData::AcceptElementType(ElementType::AlternativeLayers), AcceptedData::AcceptElementType(ElementType::Comment), AcceptedData::AcceptElementType(ElementType::Correction), AcceptedData::AcceptElementType(ElementType::Description), AcceptedData::AcceptElementType(ElementType::Feature), AcceptedData::AcceptElementType(ElementType::ForeignData), AcceptedData::AcceptElementType(ElementType::FunctionFeature), AcceptedData::AcceptElementType(ElementType::Metric), AcceptedData::AcceptElementType(ElementType::Part), AcceptedData::AcceptElementType(ElementType::PhonContent), AcceptedData::AcceptElementType(ElementType::Phoneme), AcceptedData::AcceptElementType(ElementType::Relation), AcceptedData::AcceptElementType(ElementType::String), AcceptedData::AcceptElementType(ElementType::TextContent)],
            optional_attribs: seq![AttribType::ANNOTATOR, AttribType::BEGINTIME, AttribType::CLASS, AttribType::CONFIDENCE, AttribType::DATETIME, AttribType::ENDTIME, AttribType::ID, AttribType::METADATA, AttribType::N, AttribType::SPEAKER, AttribType::SRC],
            textdelimiter: Some(""@),
            printable: true,
            speakable: true,
            primaryelement: true,
            auto_generate_id: true,
            wrefable: true,
            label: "Phoneme"@,
            ..default_properties()
        },
        ElementType::PhonologyLayer => PropertiesModel {
            xmltag: "phonology"@,
            annotationtype: Some(AnnotationType::PHONOLOGICAL),
            accepted_data: seq![AcceptedData::AcceptElementType(ElementType::Comment), AcceptedData::AcceptElementType(ElementType::Correction), AcceptedData::AcceptElementType(ElementType::Description), AcceptedData::AcceptElementType(ElementType::ForeignData), AcceptedData::AcceptElementType(ElementType::Phoneme)],
            optional_attribs: seq![AttribType::ID],
            setonly: true,
            ..default_properties()
        },
        ElementType::PolarityFeature => PropertiesModel {
            accepted_data: seq![AcceptedData::AcceptElementType(ElementType::Comment), AcceptedData::AcceptElementType(ElementType::Description)],
            subset: Some("polarity"@),
            primaryelement: true,
            label: "Feature"@,
            ..default_properties()
        },
        ElementType::PosAnnotation => PropertiesModel {
            xmltag: "pos"@,
            annotationtype: Some(AnnotationType::POS),
            accepted_data: seq![AcceptedData::AcceptElementType(ElementType::Comment), AcceptedData::AcceptElementType(ElementType::Description), AcceptedData::AcceptElementType(ElementType::Feature), AcceptedData::AcceptElementType(ElementType::ForeignData), AcceptedData::AcceptElementType(ElementType::HeadFeature), AcceptedData::AcceptElementType(ElementType::Metric)],
            required_attribs: seq![AttribType::CLASS],
            optional_attribs: seq![AttribType::ANNOTATOR, AttribType::BEGINTIME, AttribType::CLASS, AttribType::CONFIDENCE, AttribType::DATETIME, AttribType::ENDTIME, AttribType::ID, AttribType::METADATA, AttribType::N, AttribType::SPEAKER, AttribType::SRC, AttribType::TEXTCLASS],
            occurrences_per_set: 1,
            primaryelement: true,
            label: "Part-of-Speech"@,
            ..default_properties()
        },
        ElementType::Predicate => PropertiesModel {
            xmltag: "predicate"@,
            annotationtype: Some(AnnotationType::PREDICATE),
            accepted_data: seq![AcceptedData::AcceptElementGroup(ElementGroup::Inline), AcceptedData::AcceptElementType(ElementType::Comment), AcceptedData::AcceptElementType(ElementType::Description), AcceptedData::AcceptElementType(ElementType::Feature), AcceptedData::AcceptElementType(ElementType::ForeignData), AcceptedData::AcceptElementType(ElementType::LinkReference), AcceptedData::AcceptElementType(ElementType::Metric), AcceptedData::AcceptElementType(ElementType::Relation), AcceptedData::AcceptElementType(ElementType::SemanticRole), AcceptedData::AcceptElementType(ElementType::WordReference)],
            optional_attribs: seq![AttribType::ANNOTATOR, AttribType::BEGINTIME, AttribType::CLASS, AttribType::CONFIDENCE, AttribType::DATETIME, AttribType::ENDTIME, AttribType::ID, AttribType::METADATA, AttribType::N, AttribType::SPEAKER, AttribType::SRC, AttribType::TEXTCLASS],
            printable: true,
            speakable: true,
            primaryelement: true,
            label: "Predicate"@,
            ..default_properties()
        },
        ElementType::Quote => PropertiesModel {
            xmltag: "quote"@,
            annotationtype: Some(AnnotationType::QUOTE),
            accepted_data: seq![AcceptedData::AcceptElementGroup(ElementGroup::Layer), AcceptedData::AcceptElementGroup(ElementGroup::Inline), AcceptedData::AcceptElementType(ElementType::Alternative), AcceptedData::AcceptElementType(ElementType::AlternativeLayers), AcceptedData::AcceptElementType(ElementType::Comment), AcceptedData::AcceptElementType(ElementType::Correction), AcceptedData::AcceptElementType(ElementType::Description), AcceptedData::AcceptElementType(ElementType::Division), AcceptedData::AcceptElementType(ElementType::Feature), AcceptedData::AcceptElementType(ElementType::ForeignData), AcceptedData::AcceptElementType(ElementType::Gap), AcceptedData::AcceptElementType(ElementType::Hiddenword), AcceptedData::AcceptElementType(ElementType::Linebreak), AcceptedData::AcceptElementType(ElementType::Metric), AcceptedData::AcceptElementType(ElementType::Paragraph), AcceptedData::AcceptElementType(ElementType::Part), AcceptedData::AcceptElementType(ElementType::Quote), AcceptedData::AcceptElementType(ElementType::Reference), AcceptedData::AcceptElementType(ElementType::Relation), AcceptedData::AcceptElementType(ElementType::Sentence), AcceptedData::AcceptElementType(ElementType::String), AcceptedData::AcceptElementType(ElementType::TextContent), AcceptedData::AcceptElementType(ElementType::Utterance), AcceptedData::AcceptElementType(ElementType::Whitespace), AcceptedData::AcceptElementType(ElementType::Word)],
            optional_attribs: seq![AttribType::ANNOTATOR, AttribType::BEGINTIME, AttribType::CLASS, AttribType::CONFIDENCE, AttribType::DATETIME, AttribType::ENDTIME, AttribType::ID, AttribType::METADATA, AttribType::N, AttribType::SPACE, AttribType::SPEAKER, AttribType::SRC],
            textdelimiter: Some("\n\n"@),
            printable: true,
            speakable: true,
            primaryelement: true,
            auto_generate_id: true,
            label: "Quote"@,
            ..default_properties()
        },
        ElementType::Reference => PropertiesModel {
            xmltag: "ref"@,
            annotationtype: Some(AnnotationType::REFERENCE),
            accepted_data: seq![AcceptedData::AcceptElementGroup(ElementGroup::Layer), AcceptedData::AcceptElementType(ElementType::Alternative), AcceptedData::AcceptElementType(ElementType::AlternativeLayers), AcceptedData::AcceptElementType(ElementType::Comment), AcceptedData::AcceptElementType(ElementType::Correction), AcceptedData::AcceptElementType(ElementType::Description), AcceptedData::AcceptElementType(ElementType::Feature), AcceptedData::AcceptElementType(ElementType::ForeignData), AcceptedData::AcceptElementType(ElementType::Hiddenword), AcceptedData::AcceptElementType(ElementType::Linebreak), AcceptedData::AcceptElementType(ElementType::Metric), AcceptedData::AcceptElementType(ElementType::Paragraph), AcceptedData::AcceptElementType(ElementType::Part), AcceptedData::AcceptElementType(ElementType::PhonContent), AcceptedData::AcceptElementType(ElementType::Quote), AcceptedData::AcceptElementType(ElementType::Relation), AcceptedData::AcceptElementType(ElementType::Sentence), AcceptedData::AcceptElementType(ElementType::String), AcceptedData::AcceptElementType(ElementType::TextContent), AcceptedData::AcceptElementType(ElementType::Utterance), AcceptedData::AcceptElementType(ElementType::Whitespace), AcceptedData::AcceptElementType(ElementType::Word)],
            optional_attribs: seq![AttribType::ANNOTATOR, AttribType::BEGINTIME, AttribType::CLASS, AttribType::CONFIDENCE, AttribType::DATETIME, AttribType::ENDTIME, AttribType::ID, AttribType::METADATA, AttribType::N, AttribType::SPACE, AttribType::SPEAKER, AttribType::SRC],
            textdelimiter: Some(" "@),
            printable: true,
            speakable: true,
            xlink: true,
            primaryelement: true,
            auto_generate_id: true,
            label: "Reference"@,
            ..default_properties()
        },
        ElementType::Relation => PropertiesModel {
            xmltag: "relation"@,
            annotationtype: Some(AnnotationType::RELATION),
            accepted_data: seq![AcceptedData::AcceptElementType(ElementType::Comment), AcceptedData::AcceptElementType(ElementType::Description), AcceptedData::AcceptElementType(ElementType::Feature), AcceptedData::AcceptElementType(ElementType::ForeignData), AcceptedData::AcceptElementType(ElementType::LinkReference), AcceptedData::AcceptElementType(ElementType::Metric)],
            optional_attribs: seq![AttribType::ANNOTATOR, AttribType::BEGINTIME, AttribType::CLASS, AttribType::CONFIDENCE, AttribType::DATETIME, AttribType::ENDTIME, AttribType::ID, AttribType::METADATA, AttribType::N, AttribType::SPEAKER, AttribType::SRC],
            xlink: true,
            primaryelement: true,
            label: "Relation"@,
            ..default_properties()
        },
        ElementType::Row => PropertiesModel {
            xmltag: "row"@,
            accepted_data: seq![AcceptedData::AcceptElementGroup(ElementGroup::Layer), AcceptedData::AcceptElementGroup(ElementGroup::Inline), AcceptedData::AcceptElementType(ElementType::Alternative), AcceptedData::AcceptElementType(ElementType::AlternativeLayers), AcceptedData::AcceptElementType(ElementType::Cell), AcceptedData::AcceptElementType(ElementType::Comment), AcceptedData::AcceptElementType(ElementType::Correction), AcceptedData::AcceptElementType(ElementType::Description), AcceptedData::AcceptElementType(ElementType::Feature), AcceptedData::AcceptElementType(ElementType::ForeignData), AcceptedData::AcceptElementType(ElementType::Metric), AcceptedData::AcceptElementType(ElementType::Part), AcceptedData::AcceptElementType(ElementType::Relation)],
            optional_attribs: seq![AttribType::ANNOTATOR, AttribType::BEGINTIME, AttribType::CLASS, AttribType::CONFIDENCE, AttribType::DATETIME, AttribType::ENDTIME, AttribType::ID, AttribType::METADATA, AttribType::N, AttribType::SPACE, AttribType::SPEAKER, AttribType::SRC],
            textdelimiter: Some("\n"@),
            printable: true,
            speakable: true,
            primaryelement: true,
            auto_generate_id: true,
            label: "Table Row"@,
            ..default_properties()
        },
        ElementType::SemanticRole => PropertiesModel {
            xmltag: "semrole"@,
            annotationtype: Some(AnnotationType::SEMROLE),
            accepted_data: seq![AcceptedData::AcceptElementGroup(ElementGroup::Inline), AcceptedData::AcceptElementType(ElementType::Comment), AcceptedData::AcceptElementType(ElementType::Description), AcceptedData::AcceptElementType(ElementType::Feature), AcceptedData::AcceptElementType(ElementType::ForeignData), AcceptedData::AcceptElementType(ElementType::Headspan), AcceptedData::AcceptElementType(ElementType::LinkReference), AcceptedData::AcceptElementType(ElementType::Metric), AcceptedData::AcceptElementType(ElementType::Relation), AcceptedData::AcceptElementType(ElementType::WordReference)],
            required_attribs: seq![AttribType::CLASS],
            optional_attribs: seq![AttribType::ANNOTATOR, AttribType::BEGINTIME, AttribType::CLASS, AttribType::CONFIDENCE, AttribType::DATETIME, AttribType::ENDTIME, AttribType::ID, AttribType::METADATA, AttribType::N, AttribType::SPEAKER, AttribType::SRC, AttribType::TEXTCLASS],
            printable: true,
            speakable: true,
            primaryelement: true,
            label: "Semantic Role"@,
            ..default_properties()
        },
        ElementType::SemanticRolesLayer => PropertiesModel {
            xmltag: "semroles"@,
            annotationtype: Some(AnnotationType::SEMROLE),
            accepted_data: seq![AcceptedData::AcceptElementType(ElementType::Comment), AcceptedData::AcceptElementType(ElementType::Correction), AcceptedData::AcceptElementType(ElementType::Description), AcceptedData::AcceptElementType(ElementType::ForeignData), AcceptedData::AcceptElementType(ElementType::Predicate), AcceptedData::AcceptElementType(ElementType::SemanticRole)],
            optional_attribs: seq![AttribType::ID],
            setonly: true,
            ..default_properties()
        },
        ElementType::SenseAnnotation => PropertiesModel {
            xmltag: "sense"@,
            annotationtype: Some(AnnotationType::SENSE),
            accepted_data: seq![AcceptedData::AcceptElementType(ElementType::Comment), AcceptedData::AcceptElementType(ElementType::Description), AcceptedData::AcceptElementType(ElementType::Feature), AcceptedData::AcceptElementType(ElementType::ForeignData), AcceptedData::AcceptElementType(ElementType::Metric), AcceptedData::AcceptElementType(ElementType::SynsetFeature)],
            required_attribs: seq![AttribType::CLASS],
            optional_attribs: seq![AttribType::ANNOTATOR, AttribType::BEGINTIME, AttribType::CLASS, AttribType::CONFIDENCE, AttribType::DATETIME, AttribType::ENDTIME, AttribType::ID, AttribType::METADATA, AttribType::N, AttribType::SPEAKER, AttribType::SRC, AttribType::TEXTCLASS],
            primaryelement: true,
            label: "Semantic Sense"@,
            ..default_properties()
        },
        ElementType::Sentence => PropertiesModel {
            xmltag: "s"@,
            annotationtype: Some(AnnotationType::SENTENCE),
            accepted_data: seq![AcceptedData::AcceptElementGroup(ElementGroup::Layer), AcceptedData::AcceptElementGroup(ElementGroup::Inline), AcceptedData::AcceptElementType(ElementType::Alternative), AcceptedData::AcceptElementType(ElementType::AlternativeLayers), AcceptedData::AcceptElementType(ElementType::Comment), AcceptedData::AcceptElementType(ElementType::Correction), AcceptedData::AcceptElementType(ElementType::Description), AcceptedData::AcceptElementType(ElementType::Entry), AcceptedData::AcceptElementType(ElementType::Event), AcceptedData::AcceptElementType(ElementType::Example), AcceptedData::AcceptElementType(ElementType::Feature), AcceptedData::AcceptElementType(ElementType::ForeignData), AcceptedData::AcceptElementType(ElementType::Gap), AcceptedData::AcceptElementType(ElementType::Hiddenword), AcceptedData::AcceptElementType(ElementType::Linebreak), AcceptedData::AcceptElementType(ElementType::Metric), AcceptedData::AcceptElementType(ElementType::Note), AcceptedData::AcceptElementType(ElementType::Part), AcceptedData::AcceptElementType(ElementType::PhonContent), AcceptedData::AcceptElementType(ElementType::Quote), AcceptedData::AcceptElementType(ElementType::Reference), AcceptedData::AcceptElementType(ElementType::Relation), AcceptedData::AcceptElementType(ElementType::String), AcceptedData::AcceptElementType(ElementType::TextContent), AcceptedData::AcceptElementType(ElementType::Whitespace), AcceptedData::AcceptElementType(ElementType::Word)],
            optional_attribs: seq![AttribType::ANNOTATOR, AttribType::BEGINTIME, AttribType::CLASS, AttribType::CONFIDENCE, AttribType::DATETIME, AttribType::ENDTIME, AttribType::ID, AttribType::METADATA, AttribType::N, AttribType::SPACE, AttribType::SPEAKER, AttribType::SRC],
            textdelimiter: Some(" "@),
            printable: true,
            speakable: true,
            primaryelement: true,
            auto_generate_id: true,
            label: "Sentence"@,
            ..default_properties()
        },
        ElementType::Sentiment => PropertiesModel {
            xmltag: "sentiment"@,
            annotationtype: Some(AnnotationType::SENTIMENT),
            accepted_data: seq![AcceptedData::AcceptElementGroup(ElementGroup::Inline), AcceptedData::AcceptElementType(ElementType::Comment), AcceptedData::AcceptElementType(ElementType::Description), AcceptedData::AcceptElementType(ElementType::Feature), AcceptedData::AcceptElementType(ElementType::ForeignData), AcceptedData::AcceptElementType(ElementType::Headspan), AcceptedData::AcceptElementType(ElementType::LinkReference), AcceptedData::AcceptElementType(ElementType::Metric), AcceptedData::AcceptElementType(ElementType::PolarityFeature), AcceptedData::AcceptElementType(ElementType::Relation), AcceptedData::AcceptElementType(ElementType::Source), AcceptedData::AcceptElementType(ElementType::StrengthFeature), AcceptedData::AcceptElementType(ElementType::Target), AcceptedData::AcceptElementType(ElementType::WordReference)],
            optional_attribs: seq![AttribType::ANNOTATOR, AttribType::BEGINTIME, AttribType::CLASS, AttribType::CONFIDENCE, AttribType::DATETIME, AttribType::ENDTIME, AttribType::ID, AttribType::METADATA, AttribType::N, AttribType::SPEAKER, AttribType::SRC, AttribType::TEXTCLASS],
            printable: true,
            speakable: true,
            primaryelement: true,
            label: "Sentiment"@,
            ..default_properties()
        },
        ElementType::SentimentLayer => PropertiesModel {
            xmltag: "sentiments"@,
            annotationtype: Some(AnnotationType::SENTIMENT),
            accepted_data: seq![AcceptedData::AcceptElementType(ElementType::Comment), AcceptedData::AcceptElementType(ElementType::Correction), AcceptedData::AcceptElementType(ElementType::Description), AcceptedData::AcceptElementType(ElementType::ForeignData), AcceptedData::AcceptElementType(ElementType::Sentiment)],
            optional_attribs: seq![AttribType::ID],
            setonly: true,
            ..default_properties()
        },
        ElementType::Source => PropertiesModel {
            xmltag: "source"@,
            accepted_data: seq![AcceptedData::AcceptElementGroup(ElementGroup::Inline), AcceptedData::AcceptElementType(ElementType::Comment), AcceptedData::AcceptElementType(ElementType::Description), AcceptedData::AcceptElementType(ElementType::Feature), AcceptedData::AcceptElementType(ElementType::ForeignData), AcceptedData::AcceptElementType(ElementType::LinkReference), AcceptedData::AcceptElementType(ElementType::Metric), AcceptedData::AcceptElementType(ElementType::Relation), AcceptedData::AcceptElementType(ElementType::WordReference)],
            optional_attribs: seq![AttribType::ANNOTATOR, AttribType::BEGINTIME, AttribType::CLASS, AttribType::CONFIDENCE, AttribType::DATETIME, AttribType::ENDTIME, AttribType::ID, AttribType::METADATA, AttribType::N, AttribType::SPEAKER, AttribType::SRC, AttribType::TEXTCLASS],
            occurrences: 1,
            printable: true,
            speakable: true,
            label: "Source"@,
            ..default_properties()
        },
        ElementType::SpanRelation => PropertiesModel {
            xmltag: "spanrelation"@,
            annotationtype: Some(AnnotationType::SPANRELATION),
            accepted_data: seq![AcceptedData::AcceptElementType(ElementType::Comment), AcceptedData::AcceptElementType(ElementType::Description), AcceptedData::AcceptElementType(ElementType::Feature), AcceptedData::AcceptElementType(ElementType::ForeignData), AcceptedData::AcceptElementType(ElementType::Metric), AcceptedData::AcceptElementType(ElementType::Relation)],
            optional_attribs: seq![AttribType::ANNOTATOR, AttribType::BEGINTIME, AttribType::CLASS, AttribType::CONFIDENCE, AttribType::DATETIME, AttribType::ENDTIME, AttribType::ID, AttribType::METADATA, AttribType::N, AttribType::SPEAKER, AttribType::SRC],
            primaryelement: true,
            label: "Span Relation"@,
            ..default_properties()
        },
        ElementType::SpanRelationLayer => PropertiesModel {
            xmltag: "spanrelations"@,
            annotationtype: Some(AnnotationType::SPANRELATION),
            accepted_data: seq![AcceptedData::AcceptElementType(ElementType::Comment), AcceptedData::AcceptElementType(ElementType::Correction), AcceptedData::AcceptElementType(ElementType::Description), AcceptedData::AcceptElementType(ElementType::ForeignData), AcceptedData::AcceptElementType(ElementType::SpanRelation)],
            optional_attribs: seq![AttribType::ID],
            setonly: true,
            ..default_properties()
        },
        ElementType::Speech => PropertiesModel {
            xmltag: "speech"@,
            accepted_data: seq![AcceptedData::AcceptElementGroup(ElementGroup::Layer), AcceptedData::AcceptElementGroup(ElementGroup::Inline), AcceptedData::AcceptElementType(ElementType::Alternative), AcceptedData::AcceptElementType(ElementType::AlternativeLayers), AcceptedData::AcceptElementType(ElementType::Comment), AcceptedData::AcceptElementType(ElementType::Correction), AcceptedData::AcceptElementType(ElementType::Description), AcceptedData::AcceptElementType(ElementType::Division), AcceptedData::AcceptElementType(ElementType::Entry), AcceptedData::AcceptElementType(ElementType::Event), AcceptedData::AcceptElementType(ElementType::Example), AcceptedData::AcceptElementType(ElementType::External), AcceptedData::AcceptElementType(ElementType::Feature), AcceptedData::AcceptElementType(ElementType::ForeignData), AcceptedData::AcceptElementType(ElementType::Gap), AcceptedData::AcceptElementType(ElementType::Hiddenword), AcceptedData::AcceptElementType(ElementType::List), AcceptedData::AcceptElementType(ElementType::Metric), AcceptedData::AcceptElementType(ElementType::Note), AcceptedData::AcceptElementType(ElementType::Paragraph), AcceptedData::AcceptElementType(ElementType::Part), AcceptedData::AcceptElementType(ElementType::PhonContent), AcceptedData::AcceptElementType(ElementType::Quote), AcceptedData::AcceptElementType(ElementType::Reference), AcceptedData::AcceptElementType(ElementType::Relation), AcceptedData::AcceptElementType(ElementType::Sentence), AcceptedData::AcceptElementType(ElementType::String), AcceptedData::AcceptElementType(ElementType::TextContent), AcceptedData::AcceptElementType(ElementType::Utterance), AcceptedData::AcceptElementType(ElementType::Word)],
            optional_attribs: seq![AttribType::ANNOTATOR, AttribType::BEGINTIME, AttribType::CLASS, AttribType::CONFIDENCE, AttribType::DATETIME, AttribType::ENDTIME, AttribType::ID, AttribType::METADATA, AttribType::N, AttribType::SPACE, AttribType::SPEAKER, AttribType::SRC],
            textdelimiter: Some("\n\n\n"@),
            printable: true,
            speakable: true,
            primaryelement: true,
            auto_generate_id: true,
            label: "Speech Body"@,
            ..default_properties()
        },
        ElementType::Statement => PropertiesModel {
            xmltag: "statement"@,
            annotationtype: Some(AnnotationType::STATEMENT),
            accepted_data: seq![AcceptedData::AcceptElementGroup(ElementGroup::Inline), AcceptedData::AcceptElementType(ElementType::Comment), AcceptedData::AcceptElementType(ElementType::Description), AcceptedData::AcceptElementType(ElementType::Feature), AcceptedData::AcceptElementType(ElementType::ForeignData), AcceptedData::AcceptElementType(ElementType::Headspan), AcceptedData::AcceptElementType(ElementType::LinkReference), AcceptedData::AcceptElementType(ElementType::Metric), AcceptedData::AcceptElementType(ElementType::Relation), AcceptedData::AcceptElementType(ElementType::Source), AcceptedData::AcceptElementType(ElementType::StatementRelation), AcceptedData::AcceptElementType(ElementType::WordReference)],
            optional_attribs: seq![AttribType::ANNOTATOR, AttribType::BEGINTIME, AttribType::CLASS, AttribType::CONFIDENCE, AttribType::DATETIME, AttribType::ENDTIME, AttribType::ID, AttribType::METADATA, AttribType::N, AttribType::SPEAKER, AttribType::SRC, AttribType::TEXTCLASS],
            printable: true,
            speakable: true,
            primaryelement: true,
            label: "Statement"@,
            ..default_properties()
        },
        ElementType::StatementLayer => PropertiesModel {
            xmltag: "statements"@,
            annotationtype: Some(AnnotationType::STATEMENT),
            accepted_data: seq![AcceptedData::AcceptElementType(ElementType::Comment), AcceptedData::AcceptElementType(ElementType::Correction), AcceptedData::AcceptElementType(ElementType::Description), AcceptedData::AcceptElementType(ElementType::ForeignData), AcceptedData::AcceptElementType(ElementType::Statement)],
            optional_attribs: seq![AttribType::ID],
            setonly: true,
            ..default_properties()
        },
        ElementType::StatementRelation => PropertiesModel {
            xmltag: "rel"@,
            accepted_data: seq![AcceptedData::AcceptElementGroup(ElementGroup::Inline), AcceptedData::AcceptElementType(ElementType::Comment), AcceptedData::AcceptElementType(ElementType::Description), AcceptedData::AcceptElementType(ElementType::Feature), AcceptedData::AcceptElementType(ElementType::ForeignData), AcceptedData::AcceptElementType(ElementType::LinkReference), AcceptedData::AcceptElementType(ElementType::Metric), AcceptedData::AcceptElementType(ElementType::Relation), AcceptedData::AcceptElementType(ElementType::WordReference)],
            optional_attribs: seq![AttribType::ANNOTATOR, AttribType::BEGINTIME, AttribType::CLASS, AttribType::CONFIDENCE, AttribType::DATETIME, AttribType::ENDTIME, AttribType::ID, AttribType::METADATA, AttribType::N, AttribType::SPEAKER, AttribType::SRC, AttribType::TEXTCLASS],
            occurrences: 1,
            printable: true,
            speakable: true,
            label: "Relation"@,
            ..default_properties()
        },
        ElementType::StrengthFeature => PropertiesModel {
            accepted_data: seq![AcceptedData::AcceptElementType(ElementType::Comment), AcceptedData::AcceptElementType(ElementType::Description)],
            subset: Some("strength"@),
            primaryelement: true,
            label: "Feature"@,
            ..default_properties()
        },
        ElementType::String => PropertiesModel {
            xmltag: "str"@,
            annotationtype: Some(AnnotationType::STRING),
            accepted_data: seq![AcceptedData::AcceptElementGroup(ElementGroup::Inline), AcceptedData::AcceptElementType(ElementType::Comment), AcceptedData::AcceptElementType(ElementType::Correction), AcceptedData::AcceptElementType(ElementType::Description), AcceptedData::AcceptElementType(ElementType::Feature), AcceptedData::AcceptElementType(ElementType::ForeignData), AcceptedData::AcceptElementType(ElementType::Metric), AcceptedData::AcceptElementType(ElementType::PhonContent), AcceptedData::AcceptElementType(ElementType::Relation), AcceptedData::AcceptElementType(ElementType::TextContent)],
            optional_attribs: seq![AttribType::ANNOTATOR, AttribType::BEGINTIME, AttribType::CLASS, AttribType::CONFIDENCE, AttribType::DATETIME, AttribType::ENDTIME, AttribType::ID, AttribType::METADATA, AttribType::N, AttribType::SRC],
            printable: true,
            primaryelement: true,
            label: "String"@,
            ..default_properties()
        },
        ElementType::StyleFeature => PropertiesModel {
            accepted_data: seq![AcceptedData::AcceptElementType(ElementType::Comment), AcceptedData::AcceptElementType(ElementType::Description)],
            subset: Some("style"@),
            primaryelement: true,
            label: "Feature"@,
            ..default_properties()
        },
        ElementType::SubjectivityAnnotation => PropertiesModel {
            xmltag: "subjectivity"@,
            annotationtype: Some(AnnotationType::SUBJECTIVITY),
            accepted_data: seq![AcceptedData::AcceptElementType(ElementType::Comment), AcceptedData::AcceptElementType(ElementType::Description), AcceptedData::AcceptElementType(ElementType::Feature), AcceptedData::AcceptElementType(ElementType::ForeignData), AcceptedData::AcceptElementType(ElementType::Metric)],
            required_attribs: seq![AttribType::CLASS],
            optional_attribs: seq![AttribType::ANNOTATOR, AttribType::BEGINTIME, AttribType::CLASS, AttribType::CONFIDENCE, AttribType::DATETIME, AttribType::ENDTIME, AttribType::ID, AttribType::METADATA, AttribType::N, AttribType::SPEAKER, AttribType::SRC, AttribType::TEXTCLASS],
            occurrences_per_set: 1,
            primaryelement: true,
            label: "Subjectivity/Sentiment"@,
            ..default_properties()
        },
        ElementType::Suggestion => PropertiesModel {
            xmltag: "suggestion"@,
            annotationtype: Some(AnnotationType::CORRECTION),
            accepted_data: seq![AcceptedData::AcceptElementGroup(ElementGroup::Inline), AcceptedData::AcceptElementGroup(ElementGroup::Span), AcceptedData::AcceptElementGroup(ElementGroup::Structure), AcceptedData::AcceptElementType(ElementType::Comment), AcceptedData::AcceptElementType(ElementType::Correction), AcceptedData::AcceptElementType(ElementType::Description), AcceptedData::AcceptElementType(ElementType::ForeignData), AcceptedData::AcceptElementType(ElementType::Metric), AcceptedData::AcceptElementType(ElementType::PhonContent), AcceptedData::AcceptElementType(ElementType::String), AcceptedData::AcceptElementType(ElementType::TextContent)],
            optional_attribs: seq![AttribType::ANNOTATOR, AttribType::CONFIDENCE, AttribType::DATETIME, AttribType::ID, AttribType::N],
            printable: true,
            speakable: true,
            auth: false,
            ..default_properties()
        },
        ElementType::SynsetFeature => PropertiesModel {
            accepted_data: seq![AcceptedData::AcceptElementType(ElementType::Comment), AcceptedData::AcceptElementType(ElementType::Description)],
            subset: Some("synset"@),
            primaryelement: true,
            label: "Feature"@,
            ..default_properties()
        },
        ElementType::SyntacticUnit => PropertiesModel {
            xmltag: "su"@,
            annotationtype: Some(AnnotationType::SYNTAX),
            accepted_data: seq![AcceptedData::AcceptElementGroup(ElementGroup::Inline), AcceptedData::AcceptElementType(ElementType::Comment), AcceptedData::AcceptElementType(ElementType::Description), AcceptedData::AcceptElementType(ElementType::Feature), AcceptedData::AcceptElementType(ElementType::ForeignData), AcceptedData::AcceptElementType(ElementType::LinkReference), AcceptedData::AcceptElementType(ElementType::Metric), AcceptedData::AcceptElementType(ElementType::Relation), AcceptedData::AcceptElementType(ElementType::SyntacticUnit), AcceptedData::AcceptElementType(ElementType::WordReference)],
            optional_attribs: seq![AttribType::ANNOTATOR, AttribType::BEGINTIME, AttribType::CLASS, AttribType::CONFIDENCE, AttribType::DATETIME, AttribType::ENDTIME, AttribType::ID, AttribType::METADATA, AttribType::N, AttribType::SPEAKER, AttribType::SRC, AttribType::TEXTCLASS],
            printable: true,
            speakable: true,
            primaryelement: true,
            label: "Syntactic Unit"@,
            ..default_properties()
        },
        ElementType::SyntaxLayer => PropertiesModel {
            xmltag: "syntax"@,
            annotationtype: Some(AnnotationType::SYNTAX),
            accepted_data: seq![AcceptedData::AcceptElementType(ElementType::Comment), AcceptedData::AcceptElementType(ElementType::Correction), AcceptedData::AcceptElementType(ElementType::Description), AcceptedData::AcceptElementType(ElementType::ForeignData), AcceptedData::AcceptElementType(ElementType::SyntacticUnit)],
            optional_attribs: seq![AttribType::ID],
            setonly: true,
            ..default_properties()
        },
        ElementType::Table => PropertiesModel {
            xmltag: "table"@,
            annotationtype: Some(AnnotationType::TABLE),
            accepted_data: seq![AcceptedData::AcceptElementGroup(ElementGroup::Layer), AcceptedData::AcceptElementGroup(ElementGroup::Inline), AcceptedData::AcceptElementType(ElementType::Alternative), AcceptedData::AcceptElementType(ElementType::AlternativeLayers), AcceptedData::AcceptElementType(ElementType::Comment), AcceptedData::AcceptElementType(ElementType::Correction), AcceptedData::AcceptElementType(ElementType::Description), AcceptedData::AcceptElementType(ElementType::Feature), AcceptedData::AcceptElementType(ElementType::ForeignData), AcceptedData::AcceptElementType(ElementType::Linebreak), AcceptedData::AcceptElementType(ElementType::Metric), AcceptedData::AcceptElementType(ElementType::Part), AcceptedData::AcceptElementType(ElementType::Relation), AcceptedData::AcceptElementType(ElementType::Row), AcceptedData::AcceptElementType(ElementType::TableHead)],
            optional_attribs: seq![AttribType::ANNOTATOR, AttribType::BEGINTIME, AttribType::CLASS, AttribType::CONFIDENCE, AttribType::DATETIME, AttribType::ENDTIME, AttribType::ID, AttribType::METADATA, AttribType::N, AttribType::SPACE, AttribType::SPEAKER, AttribType::SRC],
            textdelimiter: Some("\n\n"@),
            printable: true,
            speakable: true,
            primaryelement: true,
            auto_generate_id: true,
            label: "Table"@,
            ..default_properties()
        },
        ElementType::TableHead => PropertiesModel {
            xmltag: "tablehead"@,
            accepted_data: seq![AcceptedData::AcceptElementGroup(ElementGroup::Layer), AcceptedData::AcceptElementGroup(ElementGroup::Inline), AcceptedData::AcceptElementType(ElementType::Alternative), AcceptedData::AcceptElementType(ElementType::AlternativeLayers), AcceptedData::AcceptElementType(ElementType::Comment), AcceptedData::AcceptElementType(ElementType::Correction), AcceptedData::AcceptElementType(ElementType::Description), AcceptedData::AcceptElementType(ElementType::Feature), AcceptedData::AcceptElementType(ElementType::ForeignData), AcceptedData::AcceptElementType(ElementType::Metric), AcceptedData::AcceptElementType(ElementType::Part), AcceptedData::AcceptElementType(ElementType::Relation), AcceptedData::AcceptElementType(ElementType::Row)],
            optional_attribs: seq![AttribType::ANNOTATOR, AttribType::BEGINTIME, AttribType::CLASS, AttribType::CONFIDENCE, AttribType::DATETIME, AttribType::ENDTIME, AttribType::ID, AttribType::METADATA, AttribType::N, AttribType::SPACE, AttribType::SPEAKER, AttribType::SRC],
            textdelimiter: Some("\n\n"@),
            printable: true,
            speakable: true,
            primaryelement: true,
            auto_generate_id: true,
            label: "Table Header"@,
            ..default_properties()
        },
        ElementType::Target => PropertiesModel {
            xmltag: "target"@,
            accepted_data: seq![AcceptedData::AcceptElementGroup(ElementGroup::Inline), AcceptedData::AcceptElementType(ElementType::Comment), AcceptedData::AcceptElementType(ElementType::Description), AcceptedData::AcceptElementType(ElementType::Feature), AcceptedData::AcceptElementType(ElementType::ForeignData), AcceptedData::AcceptElementType(ElementType::LinkReference), AcceptedData::AcceptElementType(ElementType::Metric), AcceptedData::AcceptElementType(ElementType::Relation), AcceptedData::AcceptElementType(ElementType::WordReference)],
            optional_attribs: seq![AttribType::ANNOTATOR, AttribType::BEGINTIME, AttribType::CLASS, AttribType::CONFIDENCE, AttribType::DATETIME, AttribType::ENDTIME, AttribType::ID, AttribType::METADATA, AttribType::N, AttribType::SPEAKER, AttribType::SRC, AttribType::TEXTCLASS],
            occurrences: 1,
            printable: true,
            speakable: true,
            label: "Target"@,
            ..default_properties()
        },
        ElementType::Term => PropertiesModel {
            xmltag: "term"@,
            annotationtype: Some(AnnotationType::TERM),
            accepted_data: seq![AcceptedData::AcceptElementGroup(ElementGroup::Layer), AcceptedData::AcceptElementGroup(ElementGroup::Inline), AcceptedData::AcceptElementType(ElementType::Alternative), AcceptedData::AcceptElementType(ElementType::AlternativeLayers), AcceptedData::AcceptElementType(ElementType::Comment), AcceptedData::AcceptElementType(ElementType::Correction), AcceptedData::AcceptElementType(ElementType::Description), AcceptedData::AcceptElementType(ElementType::Event), AcceptedData::AcceptElementType(ElementType::Feature), AcceptedData::AcceptElementType(ElementType::Figure), AcceptedData::AcceptElementType(ElementType::ForeignData), AcceptedData::AcceptElementType(ElementType::Gap), AcceptedData::AcceptElementType(ElementType::Hiddenword), AcceptedData::AcceptElementType(ElementType::Linebreak), AcceptedData::AcceptElementType(ElementType::List), AcceptedData::AcceptElementType(ElementType::Metric), AcceptedData::AcceptElementType(ElementType::Paragraph), AcceptedData::AcceptElementType(ElementType::Part), AcceptedData::AcceptElementType(ElementType::PhonContent), AcceptedData::AcceptElementType(ElementType::Reference), AcceptedData::AcceptElementType(ElementType::Relation), AcceptedData::AcceptElementType(ElementType::Sentence), AcceptedData::AcceptElementType(ElementType::String), AcceptedData::AcceptElementType(ElementType::Table), AcceptedData::AcceptElementType(ElementType::TextContent), AcceptedData::AcceptElementType(ElementType::Utterance), AcceptedData::AcceptElementType(ElementType::Whitespace), AcceptedData::AcceptElementType(ElementType::Word)],
            optional_attribs: seq![AttribType::ANNOTATOR, AttribType::BEGINTIME, AttribType::CLASS, AttribType::CONFIDENCE, AttribType::DATETIME, AttribType::ENDTIME, AttribType::ID, AttribType::METADATA, AttribType::N, AttribType::SPACE, AttribType::SPEAKER, AttribType::SRC],
            textdelimiter: Some("\n\n"@),
            printable: true,
            speakable: true,
            primaryelement: true,
            auto_generate_id: true,
            label: "Term"@,
            ..default_properties()
        },
        ElementType::Text => PropertiesModel {
            xmltag: "text"@,
            accepted_data: seq![AcceptedData::AcceptElementGroup(ElementGroup::Layer), AcceptedData::AcceptElementGroup(ElementGroup::Inline), AcceptedData::AcceptElementType(ElementType::Alternative), AcceptedData::AcceptElementType(ElementType::AlternativeLayers), AcceptedData::AcceptElementType(ElementType::Comment), AcceptedData::AcceptElementType(ElementType::Correction), AcceptedData::AcceptElementType(ElementType::Description), AcceptedData::AcceptElementType(ElementType::Division), AcceptedData::AcceptElementType(ElementType::Entry), AcceptedData::AcceptElementType(ElementType::Event), AcceptedData::AcceptElementType(ElementType::Example), AcceptedData::AcceptElementType(ElementType::External), AcceptedData::AcceptElementType(ElementType::Feature), AcceptedData::AcceptElementType(ElementType::Figure), AcceptedData::AcceptElementType(ElementType::ForeignData), AcceptedData::AcceptElementType(ElementType::Gap), AcceptedData::AcceptElementType(ElementType::Hiddenword), AcceptedData::AcceptElementType(ElementType::Linebreak), AcceptedData::AcceptElementType(ElementType::List), AcceptedData::AcceptElementType(ElementType::Metric), AcceptedData::AcceptElementType(ElementType::Note), AcceptedData::AcceptElementType(ElementType::Paragraph), AcceptedData::AcceptElementType(ElementType::Part), AcceptedData::AcceptElementType(ElementType::PhonContent), AcceptedData::AcceptElementType(ElementType::Quote), AcceptedData::AcceptElementType(ElementType::Reference), AcceptedData::AcceptElementType(ElementType::Relation), AcceptedData::AcceptElementType(ElementType::Sentence), AcceptedData::AcceptElementType(ElementType::String), AcceptedData::AcceptElementType(ElementType::Table), AcceptedData::AcceptElementType(ElementType::TextContent), AcceptedData::AcceptElementType(ElementType::Whitespace), AcceptedData::AcceptElementType(ElementType::Word)],
            optional_attribs: seq![AttribType::ANNOTATOR, AttribType::BEGINTIME, AttribType::CLASS, AttribType::CONFIDENCE, AttribType::DATETIME, AttribType::ENDTIME, AttribType::ID, AttribType::METADATA, AttribType::N, AttribType::SPACE, AttribType::SPEAKER, AttribType::SRC],
            textdelimiter: Some("\n\n\n"@),
            printable: true,
            speakable: true,
            primaryelement: true,
            auto_generate_id: true,
            label: "Text Body"@,
            ..default_properties()
        },
        ElementType::TextContent => PropertiesModel {
            xmltag: "t"@,
            annotationtype: Some(AnnotationType::TEXT),
            accepted_data: seq![AcceptedData::AcceptElementGroup(ElementGroup::TextMarkup), AcceptedData::AcceptElementType(ElementType::Comment), AcceptedData::AcceptElementType(ElementType::Description), AcceptedData::AcceptElementType(ElementType::Linebreak)],
            optional_attribs: seq![AttribType::ANNOTATOR, AttribType::CLASS, AttribType::CONFIDENCE, AttribType::DATETIME, AttribType::METADATA],
            printable: true,
            xlink: true,
            textcontainer: true,
            primaryelement: true,
            label: "Text"@,
            ..default_properties()
        },
        ElementType::TextMarkupCorrection => PropertiesModel {
            xmltag: "t-correction"@,
            annotationtype: Some(AnnotationType::CORRECTION),
            accepted_data: seq![AcceptedData::AcceptElementGroup(ElementGroup::TextMarkup), AcceptedData::AcceptElementType(ElementType::Comment), AcceptedData::AcceptElementType(ElementType::Description), AcceptedData::AcceptElementType(ElementType::Linebreak)],
            optional_attribs: seq![AttribType::ANNOTATOR, AttribType::BEGINTIME, AttribType::CLASS, AttribType::CONFIDENCE, AttribType::DATETIME, AttribType::ENDTIME, AttribType::ID, AttribType::METADATA, AttribType::N, AttribType::SPEAKER, AttribType::SRC],
            textdelimiter: Some(""@),
            printable: true,
            xlink: true,
            textcontainer: true,
            ..default_properties()
        },
        ElementType::TextMarkupError => PropertiesModel {
            xmltag: "t-error"@,
            annotationtype: Some(AnnotationType::ERRORDETECTION),
            accepted_data: seq![AcceptedData::AcceptElementGroup(ElementGroup::TextMarkup), AcceptedData::AcceptElementType(ElementType::Comment), AcceptedData::AcceptElementType(ElementType::Description), AcceptedData::AcceptElementType(ElementType::Linebreak)],
            optional_attribs: seq![AttribType::ANNOTATOR, AttribType::BEGINTIME, AttribType::CLASS, AttribType::CONFIDENCE, AttribType::DATETIME, AttribType::ENDTIME, AttribType::ID, AttribType::METADATA, AttribType::N, AttribType::SPEAKER, AttribType::SRC],
            textdelimiter: Some(""@),
            printable: true,
            xlink: true,
            textcontainer: true,
            ..default_properties()
        },
        ElementType::TextMarkupGap => PropertiesModel {
            xmltag: "t-gap"@,
            annotationtype: Some(AnnotationType::GAP),
            accepted_data: seq![AcceptedData::AcceptElementGroup(ElementGroup::TextMarkup), AcceptedData::AcceptElementType(ElementType::Comment), AcceptedData::AcceptElementType(ElementType::Description), AcceptedData::AcceptElementType(ElementType::Linebreak)],
            optional_attribs: seq![AttribType::ANNOTATOR, AttribType::BEGINTIME, AttribType::CLASS, AttribType::CONFIDENCE, AttribType::DATETIME, AttribType::ENDTIME, AttribType::ID, AttribType::METADATA, AttribType::N, AttribType::SPEAKER, AttribType::SRC],
            textdelimiter: Some(""@),
            printable: true,
            xlink: true,
            textcontainer: true,
            ..default_properties()
        },
        ElementType::TextMarkupReference => PropertiesModel {
            xmltag: "t-ref"@,
            annotationtype: Some(AnnotationType::REFERENCE),
            accepted_data: seq![AcceptedData::AcceptElementGroup(ElementGroup::TextMarkup), AcceptedData::AcceptElementType(ElementType::Comment), AcceptedData::AcceptElementType(ElementType::Description), AcceptedData::AcceptElementType(ElementType::Linebreak)],
            optional_attribs: seq![AttribType::ANNOTATOR, AttribType::BEGINTIME, AttribType::CLASS, AttribType::CONFIDENCE, AttribType::DATETIME, AttribType::ENDTIME, AttribType::ID, AttribType::METADATA, AttribType::N, AttribType::SPEAKER, AttribType::SRC],
            textdelimiter: Some(""@),
            printable: true,
            xlink: true,
            textcontainer: true,
            ..default_properties()
        },
        ElementType::TextMarkupString => PropertiesModel {
            xmltag: "t-str"@,
            annotationtype: Some(AnnotationType::STRING),
            accepted_data: seq![AcceptedData::AcceptElementGroup(ElementGroup::TextMarkup), AcceptedData::AcceptElementType(ElementType::Comment), AcceptedData::AcceptElementType(ElementType::Description), AcceptedData::AcceptElementType(ElementType::Linebreak)],
            optional_attribs: seq![AttribType::ANNOTATOR, AttribType::BEGINTIME, AttribType::CLASS, AttribType::CONFIDENCE, AttribType::DATETIME, AttribType::ENDTIME, AttribType::ID, AttribType::METADATA, AttribType::N, AttribType::SPEAKER, AttribType::SRC],
            textdelimiter: Some(""@),
            printable: true,
            xlink: true,
            textcontainer: true,
            ..default_properties()
        },
        ElementType::TextMarkupStyle => PropertiesModel {
            xmltag: "t-style"@,
            annotationtype: Some(AnnotationType::STYLE),
            accepted_data: seq![AcceptedData::AcceptElementGroup(ElementGroup::TextMarkup), AcceptedData::AcceptElementType(ElementType::Comment), AcceptedData::AcceptElementType(ElementType::Description), AcceptedData::AcceptElementType(ElementType::Linebreak)],
            optional_attribs: seq![AttribType::ANNOTATOR, AttribType::BEGINTIME, AttribType::CLASS, AttribType::CONFIDENCE, AttribType::DATETIME, AttribType::ENDTIME, AttribType::ID, AttribType::METADATA, AttribType::N, AttribType::SPEAKER, AttribType::SRC],
            textdelimiter: Some(""@),
            printable: true,
            xlink: true,
            textcontainer: true,
            primaryelement: true,
            ..default_properties()
        },
        ElementType::TimeFeature => PropertiesModel {
            accepted_data: seq![AcceptedData::AcceptElementType(ElementType::Comment), AcceptedData::AcceptElementType(ElementType::Description)],
            subset: Some("time"@),
            primaryelement: true,
            label: "Feature"@,
            ..default_properties()
        },
        ElementType::TimeSegment => PropertiesModel {
            xmltag: "timesegment"@,
            annotationtype: Some(AnnotationType::TIMESEGMENT),
            accepted_data: seq![AcceptedData::AcceptElementGroup(ElementGroup::Inline), AcceptedData::AcceptElementType(ElementType::ActorFeature), AcceptedData::AcceptElementType(ElementType::BegindatetimeFeature), AcceptedData::AcceptElementType(ElementType::Comment), AcceptedData::AcceptElementType(ElementType::Description), AcceptedData::AcceptElementType(ElementType::EnddatetimeFeature), AcceptedData::AcceptElementType(ElementType::Feature), AcceptedData::AcceptElementType(ElementType::ForeignData), AcceptedData::AcceptElementType(ElementType::LinkReference), AcceptedData::AcceptElementType(ElementType::Metric), AcceptedData::AcceptElementType(ElementType::Relation), AcceptedData::AcceptElementType(ElementType::WordReference)],
            optional_attribs: seq![AttribType::ANNOTATOR, AttribType::BEGINTIME, AttribType::CLASS, AttribType::CONFIDENCE, AttribType::DATETIME, AttribType::ENDTIME, AttribType::ID, AttribType::METADATA, AttribType::N, AttribType::SPEAKER, AttribType::SRC, AttribType::TEXTCLASS],
            printable: true,
            speakable: true,
            primaryelement: true,
            label: "Time Segment"@,
            ..default_properties()
        },
        ElementType::TimingLayer => PropertiesModel {
            xmltag: "timing"@,
            annotationtype: Some(AnnotationType::TIMESEGMENT),
            accepted_data: seq![AcceptedData::AcceptElementType(ElementType::Comment), AcceptedData::AcceptElementType(ElementType::Correction), AcceptedData::AcceptElementType(ElementType::Description), AcceptedData::AcceptElementType(ElementType::ForeignData), AcceptedData::AcceptElementType(ElementType::TimeSegment)],
            optional_attribs: seq![AttribType::ID],
            setonly: true,
            ..default_properties()
        },
        ElementType::Utterance => PropertiesModel {
            xmltag: "utt"@,
            annotationtype: Some(AnnotationType::UTTERANCE),
            accepted_data: seq![AcceptedData::AcceptElementGroup(ElementGroup::Layer), AcceptedData::AcceptElementGroup(ElementGroup::Inline), AcceptedData::AcceptElementType(ElementType::Alternative), AcceptedData::AcceptElementType(ElementType::AlternativeLayers), AcceptedData::AcceptElementType(ElementType::Comment), AcceptedData::AcceptElementType(ElementType::Correction), AcceptedData::AcceptElementType(ElementType::Description), AcceptedData::AcceptElementType(ElementType::Feature), AcceptedData::AcceptElementType(ElementType::ForeignData), AcceptedData::AcceptElementType(ElementType::Gap), AcceptedData::AcceptElementType(ElementType::Hiddenword), AcceptedData::AcceptElementType(ElementType::Metric), AcceptedData::AcceptElementType(ElementType::Note), AcceptedData::AcceptElementType(ElementType::Part), AcceptedData::AcceptElementType(ElementType::PhonContent), AcceptedData::AcceptElementType(ElementType::Quote), AcceptedData::AcceptElementType(ElementType::Reference), AcceptedData::AcceptElementType(ElementType::Relation), AcceptedData::AcceptElementType(ElementType::Sentence), AcceptedData::AcceptElementType(ElementType::String), AcceptedData::AcceptElementType(ElementType::TextContent), AcceptedData::AcceptElementType(ElementType::Word)],
            optional_attribs: seq![AttribType::ANNOTATOR, AttribType::BEGINTIME, AttribType::CLASS, AttribType::CONFIDENCE, AttribType::DATETIME, AttribType::ENDTIME, AttribType::ID, AttribType::METADATA, AttribType::N, AttribType::SPACE, AttribType::SPEAKER, AttribType::SRC],
            textdelimiter: Some(" "@),
            printable: true,
            speakable: true,
            primaryelement: true,
            auto_generate_id: true,
            label: "Utterance"@,
            ..default_properties()
        },
        ElementType::ValueFeature => PropertiesModel {
            accepted_data: seq![AcceptedData::AcceptElementType(ElementType::Comment), AcceptedData::AcceptElementType(ElementType::Description)],
            subset: Some("value"@),
            primaryelement: true,
            label: "Feature"@,
            ..default_properties()
        },
        ElementType::Whitespace => PropertiesModel {
            xmltag: "whitespace"@,
            annotationtype: Some(AnnotationType::WHITESPACE),
            accepted_data: seq![AcceptedData::AcceptElementGroup(ElementGroup::Layer), AcceptedData::AcceptElementType(ElementType::Alternative), AcceptedData::AcceptElementType(ElementType::AlternativeLayers), AcceptedData::AcceptElementType(ElementType::Comment), AcceptedData::AcceptElementType(ElementType::Correction), AcceptedData::AcceptElementType(ElementType::Description), AcceptedData::AcceptElementType(ElementType::Feature), AcceptedData::AcceptElementType(ElementType::ForeignData), AcceptedData::AcceptElementType(ElementType::Metric), AcceptedData::AcceptElementType(ElementType::Part), AcceptedData::AcceptElementType(ElementType::Relation)],
            optional_attribs: seq![AttribType::ANNOTATOR, AttribType::BEGINTIME, AttribType::CLASS, AttribType::CONFIDENCE, AttribType::DATETIME, AttribType::ENDTIME, AttribType::ID, AttribType::METADATA, AttribType::N, AttribType::SPACE, AttribType::SPEAKER, AttribType::SRC],
            textdelimiter: Some(""@),
            printable: true,
            speakable: true,
            primaryelement: true,
            auto_generate_id: true,
            label: "Whitespace"@,
            ..default_properties()
        },
        ElementType::Word => PropertiesModel {
            xmltag: "w"@,
            annotationtype: Some(AnnotationType::TOKEN),
            accepted_data: seq![AcceptedData::AcceptElementGroup(ElementGroup::Layer), AcceptedData::AcceptElementGroup(ElementGroup::Inline), AcceptedData::AcceptElementType(ElementType::Alternative), AcceptedData::AcceptElementType(ElementType::AlternativeLayers), AcceptedData::AcceptElementType(ElementType::Comment), AcceptedData::AcceptElementType(ElementType::Correction), AcceptedData::AcceptElementType(ElementType::Description), AcceptedData::AcceptElementType(ElementType::Feature), AcceptedData::AcceptElementType(ElementType::ForeignData), AcceptedData::AcceptElementType(ElementType::Metric), AcceptedData::AcceptElementType(ElementType::Part), AcceptedData::AcceptElementType(ElementType::PhonContent), AcceptedData::AcceptElementType(ElementType::Reference), AcceptedData::AcceptElementType(ElementType::Relation), AcceptedData::AcceptElementType(ElementType::String), AcceptedData::AcceptElementType(ElementType::TextContent)],
            optional_attribs: seq![AttribType::ANNOTATOR, AttribType::BEGINTIME, AttribType::CLASS, AttribType::CONFIDENCE, AttribType::DATETIME, AttribType::ENDTIME, AttribType::ID, AttribType::METADATA, AttribType::N, AttribType::SPACE, AttribType::SPEAKER, AttribType::SRC, AttribType::TEXTCLASS],
            textdelimiter: Some(" "@),
            printable: true,
            speakable: true,
            primaryelement: true,
            auto_generate_id: true,
            wrefable: true,
            label: "Word/Token"@,
            ..default_properties()
        },
        ElementType::WordReference => PropertiesModel {
            xmltag: "wref"@,
            accepted_data: seq![AcceptedData::AcceptElementType(ElementType::Comment), AcceptedData::AcceptElementType(ElementType::Description)],
            optional_attribs: seq![AttribType::IDREF],
            primaryelement: true,
            ..default_properties()
        },
    }
}

impl Properties {
    /// The properties of an element type, as the FoLiA specification gives them.
    pub fn new(elementtype: ElementType) -> (p: Self)
        ensures
            p@ == element_properties(elementtype),
    {
        let i = elementtype_index(elementtype);
        if i < 10 {
            properties_actor_feature_to_content(elementtype)
        }
        else if i < 20 {
            properties_coreference_chain_to_description(elementtype)
        }
        else if i < 30 {
            properties_division_to_external(elementtype)
        }
        else if i < 40 {
            properties_feature_to_hyphbreak(elementtype)
        }
        else if i < 50 {
            properties_label_to_modality_feature(elementtype)
        }
        else if i < 60 {
            properties_morpheme_to_phon_content(elementtype)
        }
        else if i < 70 {
            properties_phoneme_to_semantic_role(elementtype)
        }
        else if i < 80 {
            properties_semantic_roles_layer_to_statement(elementtype)
        }
        else if i < 90 {
            properties_statement_layer_to_syntax_layer(elementtype)
        }
        else if i < 100 {
            properties_table_to_text_markup_reference(elementtype)
        }
        else if i < 110 {
            properties_text_markup_string_to_word_reference(elementtype)
        }
        else {
            proof {
                assert(false);
            }
            Properties::default()
        }
    }
}

/// The properties of the element types from ActorFeature to Content.
#[verifier::rlimit(50)]
fn properties_actor_feature_to_content(elementtype: ElementType) -> (p: Properties)
    requires
        0 <= type_index(elementtype) < 10,
    ensures
        p@ == element_properties(elementtype),
{
    reveal(element_properties);
    match elementtype {
        ElementType::ActorFeature => Properties {
            xmltag: "",
            annotationtype: None,
            accepted_data: vec![AcceptedData::AcceptElementType(ElementType::Comment), AcceptedData::AcceptElementType(ElementType::Description)],
            required_data: vec![],
            required_attribs: vec![],
            optional_attribs: vec![],
            occurrences: 0,
            occurrences_per_set: 0,
            textdelimiter: None,
            printable: false,
            speakable: false,
            hidden: false,
            xlink: false,
            textcontainer: false,
            phoncontainer: false,
            subset: Some("actor"),
            auth: true,
            primaryelement: true,
            auto_generate_id: false,
            setonly: false,
            wrefable: false,
            label: "Feature",
        },
        ElementType::Alternative => Properties {
            xmltag: "alt",
            annotationtype: Some(AnnotationType::ALTERNATIVE),
            accepted_data: vec![AcceptedData::AcceptElementGroup(ElementGroup::Inline), AcceptedData::AcceptElementType(ElementType::Comment), AcceptedData::AcceptElementType(ElementType::Correction), AcceptedData::AcceptElementType(ElementType::Description), AcceptedData::AcceptElementType(ElementType::ForeignData), AcceptedData::AcceptElementType(ElementType::MorphologyLayer), AcceptedData::AcceptElementType(ElementType::PhonologyLayer)],
            required_data: vec![],
            required_attribs: vec![],
            optional_attribs: vec![AttribType::ANNOTATOR, AttribType::BEGINTIME, AttribType::CONFIDENCE, AttribType::DATETIME, AttribType::ENDTIME, AttribType::ID, AttribType::METADATA, AttribType::N, AttribType::SPEAKER, AttribType::SRC],
            occurrences: 0,
            occurrences_per_set: 0,
            textdelimiter: None,
            printable: false,
            speakable: false,
            hidden: false,
            xlink: false,
            textcontainer: false,
            phoncontainer: false,
            subset: None,
            auth: false,
            primaryelement: true,
            auto_generate_id: false,
            setonly: false,
            wrefable: false,
            label: "Alternative",
        },
        ElementType::AlternativeLayers => Properties {
            xmltag: "altlayers",
            annotationtype: Some(AnnotationType::ALTERNATIVE),
            accepted_data: vec![AcceptedData::AcceptElementGroup(ElementGroup::Layer), AcceptedData::AcceptElementType(ElementType::Comment), AcceptedData::AcceptElementType(ElementType::Description), AcceptedData::AcceptElementType(ElementType::ForeignData)],
            required_data: vec![],
            required_attribs: vec![],
            optional_attribs: vec![AttribType::ANNOTATOR, AttribType::BEGINTIME, AttribType::CONFIDENCE, AttribType::DATETIME, AttribType::ENDTIME, AttribType::ID, AttribType::METADATA, AttribType::N, AttribType::SPEAKER, AttribType::SRC],
            occurrences: 0,
            occurrences_per_set: 0,
            textdelimiter: None,
            printable: false,
            speakable: false,
            hidden: false,
            xlink: false,
            textcontainer: false,
            phoncontainer: false,
            subset: None,
            auth: false,
            primaryelement: false,
            auto_generate_id: false,
            setonly: false,
            wrefable: false,
            label: "Alternative Layers",
        },
        ElementType::BegindatetimeFeature => Properties {
            xmltag: "",
            annotationtype: None,
            accepted_data: vec![AcceptedData::AcceptElementType(ElementType::Comment), AcceptedData::AcceptElementType(ElementType::Description)],
            required_data: vec![],
            required_attribs: vec![],
            optional_attribs: vec![],
            occurrences: 0,
            occurrences_per_set: 0,
            textdelimiter: None,
            printable: false,
            speakable: false,
            hidden: false,
            xlink: false,
            textcontainer: false,
            phoncontainer: false,
            subset: Some("begindatetime"),
            auth: true,
            primaryelement: true,
            auto_generate_id: false,
            setonly: false,
            wrefable: false,
            label: "Feature",
        },
        ElementType::Caption => Properties {
            xmltag: "caption",
            annotationtype: None,
            accepted_data: vec![AcceptedData::AcceptElementGroup(ElementGroup::Layer), AcceptedData::AcceptElementGroup(ElementGroup::Inline), AcceptedData::AcceptElementType(ElementType::Alternative), AcceptedData::AcceptElementType(ElementType::AlternativeLayers), AcceptedData::AcceptElementType(ElementType::Comment), AcceptedData::AcceptElementType(ElementType::Correction), AcceptedData::AcceptElementType(ElementType::Description), AcceptedData::AcceptElementType(ElementType::Feature), AcceptedData::AcceptElementType(ElementType::ForeignData), AcceptedData::AcceptElementType(ElementType::Gap), AcceptedData::AcceptElementType(ElementType::Linebreak), AcceptedData::AcceptElementType(ElementType::Metric), AcceptedData::AcceptElementType(ElementType::Paragraph), AcceptedData::AcceptElementType(ElementType::Part), AcceptedData::AcceptElementType(ElementType::PhonContent), AcceptedData::AcceptElementType(ElementType::Quote), AcceptedData::AcceptElementType(ElementType::Reference), AcceptedData::AcceptElementType(ElementType::Relation), AcceptedData::AcceptElementType(ElementType::Sentence), AcceptedData::AcceptElementType(ElementType::String), AcceptedData::AcceptElementType(ElementType::TextContent), AcceptedData::AcceptElementType(ElementType::Whitespace)],
            required_data: vec![],
            required_attribs: vec![],
            optional_attribs: vec![AttribType::ANNOTATOR, AttribType::BEGINTIME, AttribType::CLASS, AttribType::CONFIDENCE, AttribType::DATETIME, AttribType::ENDTIME, AttribType::ID, AttribType::METADATA, AttribType::N, AttribType::SPACE, AttribType::SPEAKER, AttribType::SRC],
            occurrences: 1,
            occurrences_per_set: 0,
            textdelimiter: Some("\n\n"),
            printable: true,
            speakable: true,
            hidden: false,
            xlink: false,
            textcontainer: false,
            phoncontainer: false,
            subset: None,
            auth: true,
            primaryelement: true,
            auto_generate_id: true,
            setonly: false,
            wrefable: false,
            label: "Caption",
        },
        ElementType::Cell => Properties {
            xmltag: "cell",
            annotationtype: None,
            accepted_data: vec![AcceptedData::AcceptElementGroup(ElementGroup::Layer), AcceptedData::AcceptElementGroup(ElementGroup::Inline), AcceptedData::AcceptElementType(ElementType::Alternative), AcceptedData::AcceptElementType(ElementType::AlternativeLayers), AcceptedData::AcceptElementType(ElementType::Comment), AcceptedData::AcceptElementType(ElementType::Correction), AcceptedData::AcceptElementType(ElementType::Description), AcceptedData::AcceptElementType(ElementType::Entry), AcceptedData::AcceptElementType(ElementType::Event), AcceptedData::AcceptElementType(ElementType::Example), AcceptedData::AcceptElementType(ElementType::Feature), AcceptedData::AcceptElementType(ElementType::Figure), AcceptedData::AcceptElementType(ElementType::ForeignData), AcceptedData::AcceptElementType(ElementType::Gap), AcceptedData::AcceptElementType(ElementType::Head), AcceptedData::AcceptElementType(ElementType::Hiddenword), AcceptedData::AcceptElementType(ElementType::Linebreak), AcceptedData::AcceptElementType(ElementType::List), AcceptedData::AcceptElementType(ElementType::Metric), AcceptedData::AcceptElementType(ElementType::Note), AcceptedData::AcceptElementType(ElementType::Paragraph), AcceptedData::AcceptElementType(ElementType::Part), AcceptedData::AcceptElementType(ElementType::Quote), AcceptedData::AcceptElementType(ElementType::Reference), AcceptedData::AcceptElementType(ElementType::Relation), AcceptedData::AcceptElementType(ElementType::Sentence), AcceptedData::AcceptElementType(ElementType::String), AcceptedData::AcceptElementType(ElementType::TextContent), AcceptedData::AcceptElementType(ElementType::Whitespace), AcceptedData::AcceptElementType(ElementType::Word)],
            required_data: vec![],
            required_attribs: vec![],
            optional_attribs: vec![AttribType::ANNOTATOR, AttribType::BEGINTIME, AttribType::CLASS, AttribType::CONFIDENCE, AttribType::DATETIME, AttribType::ENDTIME, AttribType::ID, AttribType::METADATA, AttribType::N, AttribType::SPACE, AttribType::SPEAKER, AttribType::SRC],
            occurrences: 0,
            occurrences_per_set: 0,
            textdelimiter: Some(" | "),
            printable: true,
            speakable: true,
            hidden: false,
            xlink: false,
            textcontainer: false,
            phoncontainer: false,
            subset: None,
            auth: true,
            primaryelement: true,
            auto_generate_id: true,
            setonly: false,
            wrefable: false,
            label: "Cell",
        },
        ElementType::Chunk => Properties {
            xmltag: "chunk",
            annotationtype: Some(AnnotationType::CHUNKING),
            accepted_data: vec![AcceptedData::AcceptElementGroup(ElementGroup::Inline), AcceptedData::AcceptElementType(ElementType::Comment), AcceptedData::AcceptElementType(ElementType::Description), AcceptedData::AcceptElementType(ElementType::Feature), AcceptedData::AcceptElementType(ElementType::ForeignData), AcceptedData::AcceptElementType(ElementType::LinkReference), AcceptedData::AcceptElementType(ElementType::Metric), AcceptedData::AcceptElementType(ElementType::Relation), AcceptedData::AcceptElementType(ElementType::WordReference)],
            required_data: vec![],
            required_attribs: vec![],
            optional_attribs: vec![AttribType::ANNOTATOR, AttribType::BEGINTIME, AttribType::CLASS, AttribType::CONFIDENCE, AttribType::DATETIME, AttribType::ENDTIME, AttribType::ID, AttribType::METADATA, AttribType::N, AttribType::SPEAKER, AttribType::SRC, AttribType::TEXTCLASS],
            occurrences: 0,
            occurrences_per_set: 0,
            textdelimiter: None,
            printable: true,
            speakable: true,
            hidden: false,
            xlink: false,
            textcontainer: false,
            phoncontainer: false,
            subset: None,
            auth: true,
            primaryelement: true,
            auto_generate_id: false,
            setonly: false,
            wrefable: false,
            label: "Chunk",
        },
        ElementType::ChunkingLayer => Properties {
            xmltag: "chunking",
            annotationtype: Some(AnnotationType::CHUNKING),
            accepted_data: vec![AcceptedData::AcceptElementType(ElementType::Chunk), AcceptedData::AcceptElementType(ElementType::Comment), AcceptedData::AcceptElementType(ElementType::Correction), AcceptedData::AcceptElementType(ElementType::Description), AcceptedData::AcceptElementType(ElementType::ForeignData)],
            required_data: vec![],
            required_attribs: vec![],
            optional_attribs: vec![AttribType::ID],
            occurrences: 0,
            occurrences_per_set: 0,
            textdelimiter: None,
            printable: false,
            speakable: false,
            hidden: false,
            xlink: false,
            textcontainer: false,
            phoncontainer: false,
            subset: None,
            auth: true,
            primaryelement: false,
            auto_generate_id: false,
            setonly: true,
            wrefable: false,
            label: "",
        },
        ElementType::Comment => Properties {
            xmltag: "comment",
            annotationtype: Some(AnnotationType::COMMENT),
            accepted_data: vec![AcceptedData::AcceptElementType(ElementType::Comment), AcceptedData::AcceptElementType(ElementType::Description)],
            required_data: vec![],
            required_attribs: vec![],
            optional_attribs: vec![AttribType::ANNOTATOR, AttribType::CONFIDENCE, AttribType::DATETIME, AttribType::ID, AttribType::METADATA, AttribType::N],
            occurrences: 0,
            occurrences_per_set: 0,
            textdelimiter: None,
            printable: false,
            speakable: false,
            hidden: false,
            xlink: false,
            textcontainer: false,
            phoncontainer: false,
            subset: None,
            auth: true,
            primaryelement: true,
            auto_generate_id: false,
            setonly: false,
            wrefable: false,
            label: "Comment",
        },
        ElementType::Content => Properties {
            xmltag: "content",
            annotationtype: Some(AnnotationType::RAWCONTENT),
            accepted_data: vec![AcceptedData::AcceptElementType(ElementType::Comment), AcceptedData::AcceptElementType(ElementType::Description)],
            required_data: vec![],
            required_attribs: vec![],
            optional_attribs: vec![AttribType::ANNOTATOR, AttribType::CLASS, AttribType::CONFIDENCE, AttribType::DATETIME, AttribType::METADATA],
            occurrences: 1,
            occurrences_per_set: 0,
            textdelimiter: None,
            printable: true,
            speakable: false,
            hidden: false,
            xlink: false,
            textcontainer: false,
            phoncontainer: false,
            subset: None,
            auth: true,
            primaryelement: true,
            auto_generate_id: false,
            setonly: false,
            wrefable: false,
            label: "Raw Content",
        },
        _ => {
            proof {
                assert(false);
            }
            Properties::default()
        },
    }
}

/// The properties of the element types from CoreferenceChain to Description.
#[verifier::rlimit(50)]
fn properties_coreference_chain_to_description(elementtype: ElementType) -> (p: Properties)
    requires
        10 <= type_index(elementtype) < 20,
    ensures
        p@ == element_properties(elementtype),
{
    reveal(element_properties);
    match elementtype {
        ElementType::CoreferenceChain => Properties {
            xmltag: "coreferencechain",
            annotationtype: Some(AnnotationType::COREFERENCE),
            accepted_data: vec![AcceptedData::AcceptElementGroup(ElementGroup::Inline), AcceptedData::AcceptElementType(ElementType::Comment), AcceptedData::AcceptElementType(ElementType::CoreferenceLink), AcceptedData::AcceptElementType(ElementType::Description), AcceptedData::AcceptElementType(ElementType::Feature), AcceptedData::AcceptElementType(ElementType::ForeignData), AcceptedData::AcceptElementType(ElementType::LinkReference), AcceptedData::AcceptElementType(ElementType::Metric), AcceptedData::AcceptElementType(ElementType::Relation)],
            required_data: vec![AcceptedData::AcceptElementType(ElementType::CoreferenceLink)],
            required_attribs: vec![],
            optional_attribs: vec![AttribType::ANNOTATOR, AttribType::BEGINTIME, AttribType::CLASS, AttribType::CONFIDENCE, AttribType::DATETIME, AttribType::ENDTIME, AttribType::ID, AttribType::METADATA, AttribType::N, AttribType::SPEAKER, AttribType::SRC, AttribType::TEXTCLASS],
            occurrences: 0,
            occurrences_per_set: 0,
            textdelimiter: None,
            printable: true,
            speakable: true,
            hidden: false,
            xlink: false,
            textcontainer: false,
            phoncontainer: false,
            subset: None,
            auth: true,
            primaryelement: true,
            auto_generate_id: false,
            setonly: false,
            wrefable: false,
            label: "Coreference Chain",
        },
        ElementType::CoreferenceLayer => Properties {
            xmltag: "coreferences",
            annotationtype: Some(AnnotationType::COREFERENCE),
            accepted_data: vec![AcceptedData::AcceptElementType(ElementType::Comment), AcceptedData::AcceptElementType(ElementType::CoreferenceChain), AcceptedData::AcceptElementType(ElementType::Correction), AcceptedData::AcceptElementType(ElementType::Description), AcceptedData::AcceptElementType(ElementType::ForeignData)],
            required_data: vec![],
            required_attribs: vec![],
            optional_attribs: vec![AttribType::ID],
            occurrences: 0,
            occurrences_per_set: 0,
            textdelimiter: None,
            printable: false,
            speakable: false,
            hidden: false,
            xlink: false,
            textcontainer: false,
            phoncontainer: false,
            subset: None,
            auth: true,
            primaryelement: false,
            auto_generate_id: false,
            setonly: true,
            wrefable: false,
            label: "",
        },
        ElementType::CoreferenceLink => Properties {
            xmltag: "coreferencelink",
            annotationtype: Some(AnnotationType::COREFERENCE),
            accepted_data: vec![AcceptedData::AcceptElementGroup(ElementGroup::Inline), AcceptedData::AcceptElementType(ElementType::Comment), AcceptedData::AcceptElementType(ElementType::Description), AcceptedData::AcceptElementType(ElementType::Feature), AcceptedData::AcceptElementType(ElementType::ForeignData), AcceptedData::AcceptElementType(ElementType::Headspan), AcceptedData::AcceptElementType(ElementType::LevelFeature), AcceptedData::AcceptElementType(ElementType::LinkReference), AcceptedData::AcceptElementType(ElementType::Metric), AcceptedData::AcceptElementType(ElementType::ModalityFeature), AcceptedData::AcceptElementType(ElementType::Relation), AcceptedData::AcceptElementType(ElementType::TimeFeature), AcceptedData::AcceptElementType(ElementType::WordReference)],
            required_data: vec![],
            required_attribs: vec![],
            optional_attribs: vec![AttribType::ANNOTATOR, AttribType::BEGINTIME, AttribType::CLASS, AttribType::CONFIDENCE, AttribType::DATETIME, AttribType::ENDTIME, AttribType::ID, AttribType::METADATA, AttribType::N, AttribType::SPEAKER, AttribType::SRC, AttribType::TEXTCLASS],
            occurrences: 0,
            occurrences_per_set: 0,
            textdelimiter: None,
            printable: true,
            speakable: true,
            hidden: false,
            xlink: false,
            textcontainer: false,
            phoncontainer: false,
            subset: None,
            auth: true,
            primaryelement: false,
            auto_generate_id: false,
            setonly: false,
            wrefable: false,
            label: "Coreference Link",
        },
        ElementType::Correction => Properties {
            xmltag: "correction",
            annotationtype: Some(AnnotationType::CORRECTION),
            accepted_data: vec![AcceptedData::AcceptElementType(ElementType::Comment), AcceptedData::AcceptElementType(ElementType::Current), AcceptedData::AcceptElementType(ElementType::Description), AcceptedData::AcceptElementType(ElementType::ErrorDetection), AcceptedData::AcceptElementType(ElementType::Feature), AcceptedData::AcceptElementType(ElementType::ForeignData), AcceptedData::AcceptElementType(ElementType::Metric), AcceptedData::AcceptElementType(ElementType::New), AcceptedData::AcceptElementType(ElementType::Original), AcceptedData::AcceptElementType(ElementType::Suggestion)],
            required_data: vec![],
            required_attribs: vec![],
            optional_attribs: vec![AttribType::ANNOTATOR, AttribType::BEGINTIME, AttribType::CLASS, AttribType::CONFIDENCE, AttribType::DATETIME, AttribType::ENDTIME, AttribType::ID, AttribType::METADATA, AttribType::N, AttribType::SPEAKER, AttribType::SRC],
            occurrences: 0,
            occurrences_per_set: 0,
            textdelimiter: None,
            printable: true,
            speakable: true,
            hidden: false,
            xlink: false,
            textcontainer: false,
            phoncontainer: false,
            subset: None,
            auth: true,
            primaryelement: true,
            auto_generate_id: false,
            setonly: false,
            wrefable: false,
            label: "Correction",
        },
        ElementType::Current => Properties {
            xmltag: "current",
            annotationtype: Some(AnnotationType::CORRECTION),
            accepted_data: vec![AcceptedData::AcceptElementGroup(ElementGroup::Inline), AcceptedData::AcceptElementGroup(ElementGroup::Span), AcceptedData::AcceptElementGroup(ElementGroup::Structure), AcceptedData::AcceptElementType(ElementType::Comment), AcceptedData::AcceptElementType(ElementType::Correction), AcceptedData::AcceptElementType(ElementType::Description), AcceptedData::AcceptElementType(ElementType::ForeignData), AcceptedData::AcceptElementType(ElementType::Metric), AcceptedData::AcceptElementType(ElementType::PhonContent), AcceptedData::AcceptElementType(ElementType::String), AcceptedData::AcceptElementType(ElementType::TextContent)],
            required_data: vec![],
            required_attribs: vec![],
            optional_attribs: vec![],
            occurrences: 1,
            occurrences_per_set: 0,
            textdelimiter: None,
            printable: true,
            speakable: true,
            hidden: false,
            xlink: false,
            textcontainer: false,
            phoncontainer: false,
            subset: None,
            auth: true,
            primaryelement: false,
            auto_generate_id: false,
            setonly: false,
            wrefable: false,
            label: "",
        },
        ElementType::Definition => Properties {
            xmltag: "def",
            annotationtype: Some(AnnotationType::DEFINITION),
            accepted_data: vec![AcceptedData::AcceptElementGroup(ElementGroup::Layer), AcceptedData::AcceptElementGroup(ElementGroup::Inline), AcceptedData::AcceptElementType(ElementType::Alternative), AcceptedData::AcceptElementType(ElementType::AlternativeLayers), AcceptedData::AcceptElementType(ElementType::Comment), AcceptedData::AcceptElementType(ElementType::Correction), AcceptedData::AcceptElementType(ElementType::Description), AcceptedData::AcceptElementType(ElementType::Feature), AcceptedData::AcceptElementType(ElementType::Figure), AcceptedData::AcceptElementType(ElementType::ForeignData), AcceptedData::AcceptElementType(ElementType::Hiddenword), AcceptedData::AcceptElementType(ElementType::Linebreak), AcceptedData::AcceptElementType(ElementType::List), AcceptedData::AcceptElementType(ElementType::Metric), AcceptedData::AcceptElementType(ElementType::Paragraph), AcceptedData::AcceptElementType(ElementType::Part), AcceptedData::AcceptElementType(ElementType::PhonContent), AcceptedData::AcceptElementType(ElementType::Reference), AcceptedData::AcceptElementType(ElementType::Relation), AcceptedData::AcceptElementType(ElementType::Sentence), AcceptedData::AcceptElementType(ElementType::String), AcceptedData::AcceptElementType(ElementType::Table), AcceptedData::AcceptElementType(ElementType::TextContent), AcceptedData::AcceptElementType(ElementType::Utterance), AcceptedData::AcceptElementType(ElementType::Whitespace), AcceptedData::AcceptElementType(ElementType::Word)],
            required_data: vec![],
            required_attribs: vec![],
            optional_attribs: vec![AttribType::ANNOTATOR, AttribType::BEGINTIME, AttribType::CLASS, AttribType::CONFIDENCE, AttribType::DATETIME, AttribType::ENDTIME, AttribType::ID, AttribType::METADATA, AttribType::N, AttribType::SPACE, AttribType::SPEAKER, AttribType::SRC],
            occurrences: 0,
            occurrences_per_set: 0,
            textdelimiter: Some("\n\n"),
            printable: true,
            speakable: true,
            hidden: false,
            xlink: false,
            textcontainer: false,
            phoncontainer: false,
            subset: None,
            auth: true,
            primaryelement: true,
            auto_generate_id: true,
            setonly: false,
            wrefable: false,
            label: "Definition",
        },
        ElementType::DependenciesLayer => Properties {
            xmltag: "dependencies",
            annotationtype: Some(AnnotationType::DEPENDENCY),
            accepted_data: vec![AcceptedData::AcceptElementType(ElementType::Comment), AcceptedData::AcceptElementType(ElementType::Correction), AcceptedData::AcceptElementType(ElementType::Dependency), AcceptedData::AcceptElementType(ElementType::Description), AcceptedData::AcceptElementType(ElementType::ForeignData)],
            required_data: vec![],
            required_attribs: vec![],
            optional_attribs: vec![AttribType::ID],
            occurrences: 0,
            occurrences_per_set: 0,
            textdelimiter: None,
            printable: false,
            speakable: false,
            hidden: false,
            xlink: false,
            textcontainer: false,
            phoncontainer: false,
            subset: None,
            auth: true,
            primaryelement: false,
            auto_generate_id: false,
            setonly: true,
            wrefable: false,
            label: "",
        },
        ElementType::Dependency => Properties {
            xmltag: "dependency",
            annotationtype: Some(AnnotationType::DEPENDENCY),
            accepted_data: vec![AcceptedData::AcceptElementGroup(ElementGroup::Inline), AcceptedData::AcceptElementType(ElementType::Comment), AcceptedData::AcceptElementType(ElementType::DependencyDependent), AcceptedData::AcceptElementType(ElementType::Description), AcceptedData::AcceptElementType(ElementType::Feature), AcceptedData::AcceptElementType(ElementType::ForeignData), AcceptedData::AcceptElementType(ElementType::Headspan), AcceptedData::AcceptElementType(ElementType::LinkReference), AcceptedData::AcceptElementType(ElementType::Metric), AcceptedData::AcceptElementType(ElementType::Relation)],
            required_data: vec![AcceptedData::AcceptElementType(ElementType::DependencyDependent), AcceptedData::AcceptElementType(ElementType::Headspan)],
            required_attribs: vec![],
            optional_attribs: vec![AttribType::ANNOTATOR, AttribType::BEGINTIME, AttribType::CLASS, AttribType::CONFIDENCE, AttribType::DATETIME, AttribType::ENDTIME, AttribType::ID, AttribType::METADATA, AttribType::N, AttribType::SPEAKER, AttribType::SRC, AttribType::TEXTCLASS],
            occurrences: 0,
            occurrences_per_set: 0,
            textdelimiter: None,
            printable: true,
            speakable: true,
            hidden: false,
            xlink: false,
            textcontainer: false,
            phoncontainer: false,
            subset: None,
            auth: true,
            primaryelement: true,
            auto_generate_id: false,
            setonly: false,
            wrefable: false,
            label: "Dependency",
        },
        ElementType::DependencyDependent => Properties {
            xmltag: "dep",
            annotationtype: None,
            accepted_data: vec![AcceptedData::AcceptElementGroup(ElementGroup::Inline), AcceptedData::AcceptElementType(ElementType::Comment), AcceptedData::AcceptElementType(ElementType::Description), AcceptedData::AcceptElementType(ElementType::Feature), AcceptedData::AcceptElementType(ElementType::ForeignData), AcceptedData::AcceptElementType(ElementType::LinkReference), AcceptedData::AcceptElementType(ElementType::Metric), AcceptedData::AcceptElementType(ElementType::Relation), AcceptedData::AcceptElementType(ElementType::WordReference)],
            required_data: vec![],
            required_attribs: vec![],
            optional_attribs: vec![AttribType::ANNOTATOR, AttribType::BEGINTIME, AttribType::CLASS, AttribType::CONFIDENCE, AttribType::DATETIME, AttribType::ENDTIME, AttribType::ID, AttribType::METADATA, AttribType::N, AttribType::SPEAKER, AttribType::SRC, AttribType::TEXTCLASS],
            occurrences: 1,
            occurrences_per_set: 0,
            textdelimiter: None,
            printable: true,
            speakable: true,
            hidden: false,
            xlink: false,
            textcontainer: false,
            phoncontainer: false,
            subset: None,
            auth: true,
            primaryelement: false,
            auto_generate_id: false,
            setonly: false,
            wrefable: false,
            label: "Dependent",
        },
        ElementType::Description => Properties {
            xmltag: "desc",
            annotationtype: Some(AnnotationType::DESCRIPTION),
            accepted_data: vec![AcceptedData::AcceptElementType(ElementType::Comment), AcceptedData::AcceptElementType(ElementType::Description)],
            required_data: vec![],
            required_attribs: vec![],
            optional_attribs: vec![AttribType::ANNOTATOR, AttribType::CONFIDENCE, AttribType::DATETIME, AttribType::ID, AttribType::METADATA, AttribType::N],
            occurrences: 1,
            occurrences_per_set: 0,
            textdelimiter: None,
            printable: false,
            speakable: false,
            hidden: false,
            xlink: false,
            textcontainer: false,
            phoncontainer: false,
            subset: None,
            auth: true,
            primaryelement: true,
            auto_generate_id: false,
            setonly: false,
            wrefable: false,
            label: "Description",
        },
        _ => {
            proof {
                assert(false);
            }
            Properties::default()
        },
    }
}

/// The properties of the element types from Division to External.
#[verifier::rlimit(50)]
fn properties_division_to_external(elementtype: ElementType) -> (p: Properties)
    requires
        20 <= type_index(elementtype) < 30,
    ensures
        p@ == element_properties(elementtype),
{
    reveal(element_properties);
    match elementtype {
        ElementType::Division => Properties {
            xmltag: "div",
            annotationtype: Some(AnnotationType::DIVISION),
            accepted_data: vec![AcceptedData::AcceptElementGroup(ElementGroup::Layer), AcceptedData::AcceptElementGroup(ElementGroup::Inline), AcceptedData::AcceptElementType(ElementType::Alternative), AcceptedData::AcceptElementType(ElementType::AlternativeLayers), AcceptedData::AcceptElementType(ElementType::Comment), AcceptedData::AcceptElementType(ElementType::Correction), AcceptedData::AcceptElementType(ElementType::Description), AcceptedData::AcceptElementType(ElementType::Division), AcceptedData::AcceptElementType(ElementType::Entry), AcceptedData::AcceptElementType(ElementType::Event), AcceptedData::AcceptElementType(ElementType::Example), AcceptedData::AcceptElementType(ElementType::Feature), AcceptedData::AcceptElementType(ElementType::Figure), AcceptedData::AcceptElementType(ElementType::ForeignData), AcceptedData::AcceptElementType(ElementType::Gap), AcceptedData::AcceptElementType(ElementType::Head), AcceptedData::AcceptElementType(ElementType::Linebreak), AcceptedData::AcceptElementType(ElementType::List), AcceptedData::AcceptElementType(ElementType::Metric), AcceptedData::AcceptElementType(ElementType::Note), AcceptedData::AcceptElementType(ElementType::Paragraph), AcceptedData::AcceptElementType(ElementType::Part), AcceptedData::AcceptElementType(ElementType::PhonContent), AcceptedData::AcceptElementType(ElementType::Quote), AcceptedData::AcceptElementType(ElementType::Reference), AcceptedData::AcceptElementType(ElementType::Relation), AcceptedData::AcceptElementType(ElementType::Sentence), AcceptedData::AcceptElementType(ElementType::Table), AcceptedData::AcceptElementType(ElementType::TextContent), AcceptedData::AcceptElementType(ElementType::Utterance), AcceptedData::AcceptElementType(ElementType::Whitespace), AcceptedData::AcceptElementType(ElementType::Word)],
            required_data: vec![],
            required_attribs: vec![],
            optional_attribs: vec![AttribType::ANNOTATOR, AttribType::BEGINTIME, AttribType::CLASS, AttribType::CONFIDENCE, AttribType::DATETIME, AttribType::ENDTIME, AttribType::ID, AttribType::METADATA, AttribType::N, AttribType::SPACE, AttribType::SPEAKER, AttribType::SRC],
            occurrences: 0,
            occurrences_per_set: 0,
            textdelimiter: Some("\n\n\n"),
            printable: true,
            speakable: true,
            hidden: false,
            xlink: false,
            textcontainer: false,
            phoncontainer: false,
            subset: None,
            auth: true,
            primaryelement: true,
            auto_generate_id: true,
            setonly: false,
            wrefable: false,
            label: "Division",
        },
        ElementType::DomainAnnotation => Properties {
            xmltag: "domain",
            annotationtype: Some(AnnotationType::DOMAIN),
            accepted_data: vec![AcceptedData::AcceptElementType(ElementType::Comment), AcceptedData::AcceptElementType(ElementType::Description), AcceptedData::AcceptElementType(ElementType::Feature), AcceptedData::AcceptElementType(ElementType::ForeignData), AcceptedData::AcceptElementType(ElementType::Metric)],
            required_data: vec![],
            required_attribs: vec![AttribType::CLASS],
            optional_attribs: vec![AttribType::ANNOTATOR, AttribType::BEGINTIME, AttribType::CLASS, AttribType::CONFIDENCE, AttribType::DATETIME, AttribType::ENDTIME, AttribType::ID, AttribType::METADATA, AttribType::N, AttribType::SPEAKER, AttribType::SRC, AttribType::TEXTCLASS],
            occurrences: 0,
            occurrences_per_set: 0,
            textdelimiter: None,
            printable: false,
            speakable: false,
            hidden: false,
            xlink: false,
            textcontainer: false,
            phoncontainer: false,
            subset: None,
            auth: true,
            primaryelement: true,
            auto_generate_id: false,
            setonly: false,
            wrefable: false,
            label: "Domain",
        },
        ElementType::EnddatetimeFeature => Properties {
            xmltag: "",
            annotationtype: None,
            accepted_data: vec![AcceptedData::AcceptElementType(ElementType::Comment), AcceptedData::AcceptElementType(ElementType::Description)],
            required_data: vec![],
            required_attribs: vec![],
            optional_attribs: vec![],
            occurrences: 0,
            occurrences_per_set: 0,
            textdelimiter: None,
            printable: false,
            speakable: false,
            hidden: false,
            xlink: false,
            textcontainer: false,
            phoncontainer: false,
            subset: Some("enddatetime"),
            auth: true,
            primaryelement: true,
            auto_generate_id: false,
            setonly: false,
            wrefable: false,
            label: "Feature",
        },
        ElementType::EntitiesLayer => Properties {
            xmltag: "entities",
            annotationtype: Some(AnnotationType::ENTITY),
            accepted_data: vec![AcceptedData::AcceptElementType(ElementType::Comment), AcceptedData::AcceptElementType(ElementType::Correction), AcceptedData::AcceptElementType(ElementType::Description), AcceptedData::AcceptElementType(ElementType::Entity), AcceptedData::AcceptElementType(ElementType::ForeignData)],
            required_data: vec![],
            required_attribs: vec![],
            optional_attribs: vec![AttribType::ID],
            occurrences: 0,
            occurrences_per_set: 0,
            textdelimiter: None,
            printable: false,
            speakable: false,
            hidden: false,
            xlink: false,
            textcontainer: false,
            phoncontainer: false,
            subset: None,
            auth: true,
            primaryelement: false,
            auto_generate_id: false,
            setonly: true,
            wrefable: false,
            label: "",
        },
        ElementType::Entity => Properties {
            xmltag: "entity",
            annotationtype: Some(AnnotationType::ENTITY),
            accepted_data: vec![AcceptedData::AcceptElementGroup(ElementGroup::Inline), AcceptedData::AcceptElementType(ElementType::Comment), AcceptedData::AcceptElementType(ElementType::Description), AcceptedData::AcceptElementType(ElementType::Feature), AcceptedData::AcceptElementType(ElementType::ForeignData), AcceptedData::AcceptElementType(ElementType::LinkReference), AcceptedData::AcceptElementType(ElementType::Metric), AcceptedData::AcceptElementType(ElementType::Relation), AcceptedData::AcceptElementType(ElementType::WordReference)],
            required_data: vec![],
            required_attribs: vec![],
            optional_attribs: vec![AttribType::ANNOTATOR, AttribType::BEGINTIME, AttribType::CLASS, AttribType::CONFIDENCE, AttribType::DATETIME, AttribType::ENDTIME, AttribType::ID, AttribType::METADATA, AttribType::N, AttribType::SPEAKER, AttribType::SRC, AttribType::TEXTCLASS],
            occurrences: 0,
            occurrences_per_set: 0,
            textdelimiter: None,
            printable: true,
            speakable: true,
            hidden: false,
            xlink: false,
            textcontainer: false,
            phoncontainer: false,
            subset: None,
            auth: true,
            primaryelement: true,
            auto_generate_id: false,
            setonly: false,
            wrefable: false,
            label: "Entity",
        },
        ElementType::Entry => Properties {
            xmltag: "entry",
            annotationtype: Some(AnnotationType::ENTRY),
            accepted_data: vec![AcceptedData::AcceptElementGroup(ElementGroup::Layer), AcceptedData::AcceptElementType(ElementType::Alternative), AcceptedData::AcceptElementType(ElementType::AlternativeLayers), AcceptedData::AcceptElementType(ElementType::Comment), AcceptedData::AcceptElementType(ElementType::Correction), AcceptedData::AcceptElementType(ElementType::Definition), AcceptedData::AcceptElementType(ElementType::Description), AcceptedData::AcceptElementType(ElementType::Example), AcceptedData::AcceptElementType(ElementType::Feature), AcceptedData::AcceptElementType(ElementType::ForeignData), AcceptedData::AcceptElementType(ElementType::Metric), AcceptedData::AcceptElementType(ElementType::Part), AcceptedData::AcceptElementType(ElementType::Relation), AcceptedData::AcceptElementType(ElementType::String), AcceptedData::AcceptElementType(ElementType::Term), AcceptedData::AcceptElementType(ElementType::TextContent)],
            required_data: vec![],
            required_attribs: vec![],
            optional_attribs: vec![AttribType::ANNOTATOR, AttribType::BEGINTIME, AttribType::CLASS, AttribType::CONFIDENCE, AttribType::DATETIME, AttribType::ENDTIME, AttribType::ID, AttribType::METADATA, AttribType::N, AttribType::SPACE, AttribType::SPEAKER, AttribType::SRC],
            occurrences: 0,
            occurrences_per_set: 0,
            textdelimiter: Some("\n\n"),
            printable: true,
            speakable: true,
            hidden: false,
            xlink: false,
            textcontainer: false,
            phoncontainer: false,
            subset: None,
            auth: true,
            primaryelement: true,
            auto_generate_id: true,
            setonly: false,
            wrefable: false,
            label: "Entry",
        },
        ElementType::ErrorDetection => Properties {
            xmltag: "errordetection",
            annotationtype: Some(AnnotationType::ERRORDETECTION),
            accepted_data: vec![AcceptedData::AcceptElementType(ElementType::Comment), AcceptedData::AcceptElementType(ElementType::Description), AcceptedData::AcceptElementType(ElementType::Feature), AcceptedData::AcceptElementType(ElementType::ForeignData), AcceptedData::AcceptElementType(ElementType::Metric)],
            required_data: vec![],
            required_attribs: vec![AttribType::CLASS],
            optional_attribs: vec![AttribType::ANNOTATOR, AttribType::BEGINTIME, AttribType::CLASS, AttribType::CONFIDENCE, AttribType::DATETIME, AttribType::ENDTIME, AttribType::ID, AttribType::METADATA, AttribType::N, AttribType::SPEAKER, AttribType::SRC, AttribType::TEXTCLASS],
            occurrences: 0,
            occurrences_per_set: 0,
            textdelimiter: None,
            printable: false,
            speakable: false,
            hidden: false,
            xlink: false,
            textcontainer: false,
            phoncontainer: false,
            subset: None,
            auth: true,
            primaryelement: true,
            auto_generate_id: false,
            setonly: false,
            wrefable: false,
            label: "Error Detection",
        },
        ElementType::Event => Properties {
            xmltag: "event",
            annotationtype: Some(AnnotationType::EVENT),
            accepted_data: vec![AcceptedData::AcceptElementGroup(ElementGroup::Layer), AcceptedData::AcceptElementGroup(ElementGroup::Inline), AcceptedData::AcceptElementType(ElementType::ActorFeature), AcceptedData::AcceptElementType(ElementType::Alternative), AcceptedData::AcceptElementType(ElementType::AlternativeLayers), AcceptedData::AcceptElementType(ElementType::BegindatetimeFeature), AcceptedData::AcceptElementType(ElementType::Comment), AcceptedData::AcceptElementType(ElementType::Correction), AcceptedData::AcceptElementType(ElementType::Description), AcceptedData::AcceptElementType(ElementType::Division), AcceptedData::AcceptElementType(ElementType::EnddatetimeFeature), AcceptedData::AcceptElementType(ElementType::Entry), AcceptedData::AcceptElementType(ElementType::Event), AcceptedData::AcceptElementType(ElementType::Example), AcceptedData::AcceptElementType(ElementType::Feature), AcceptedData::AcceptElementType(ElementType::Figure), AcceptedData::AcceptElementType(ElementType::ForeignData), AcceptedData::AcceptElementType(ElementType::Gap), AcceptedData::AcceptElementType(ElementType::Head), AcceptedData::AcceptElementType(ElementType::Hiddenword), AcceptedData::AcceptElementType(ElementType::Linebreak), AcceptedData::AcceptElementType(ElementType::List), AcceptedData::AcceptElementType(ElementType::Metric), AcceptedData::AcceptElementType(ElementType::Note), AcceptedData::AcceptElementType(ElementType::Paragraph), AcceptedData::AcceptElementType(ElementType::Part), AcceptedData::AcceptElementType(ElementType::PhonContent), AcceptedData::AcceptElementType(ElementType::Quote), AcceptedData::AcceptElementType(ElementType::Reference), AcceptedData::AcceptElementType(ElementType::Relation), AcceptedData::AcceptElementType(ElementType::Sentence), AcceptedData::AcceptElementType(ElementType::String), AcceptedData::AcceptElementType(ElementType::Table), AcceptedData::AcceptElementType(ElementType::TextContent), AcceptedData::AcceptElementType(ElementType::Utterance), AcceptedData::AcceptElementType(ElementType::Whitespace), AcceptedData::AcceptElementType(ElementType::Word)],
            required_data: vec![],
            required_attribs: vec![],
            optional_attribs: vec![AttribType::ANNOTATOR, AttribType::BEGINTIME, AttribType::CLASS, AttribType::CONFIDENCE, AttribType::DATETIME, AttribType::ENDTIME, AttribType::ID, AttribType::METADATA, AttribType::N, AttribType::SPACE, AttribType::SPEAKER, AttribType::SRC],
            occurrences: 0,
            occurrences_per_set: 0,
            textdelimiter: Some("\n\n"),
            printable: true,
            speakable: true,
            hidden: false,
            xlink: false,
            textcontainer: false,
            phoncontainer: false,
            subset: None,
            auth: true,
            primaryelement: true,
            auto_generate_id: true,
            setonly: false,
            wrefable: false,
            label: "Event",
        },
        ElementType::Example => Properties {
            xmltag: "ex",
            annotationtype: Some(AnnotationType::EXAMPLE),
            accepted_data: vec![AcceptedData::AcceptElementGroup(ElementGroup::Layer), AcceptedData::AcceptElementGroup(ElementGroup::Inline), AcceptedData::AcceptElementType(ElementType::Alternative), AcceptedData::AcceptElementType(ElementType::AlternativeLayers), AcceptedData::AcceptElementType(ElementType::Comment), AcceptedData::AcceptElementType(ElementType::Correction), AcceptedData::AcceptElementType(ElementType::Description), AcceptedData::AcceptElementType(ElementType::Feature), AcceptedData::AcceptElementType(ElementType::Figure), AcceptedData::AcceptElementType(ElementType::ForeignData), AcceptedData::AcceptElementType(ElementType::Hiddenword), AcceptedData::AcceptElementType(ElementType::Linebreak), AcceptedData::AcceptElementType(ElementType::List), AcceptedData::AcceptElementType(ElementType::Metric), AcceptedData::AcceptElementType(ElementType::Paragraph), AcceptedData::AcceptElementType(ElementType::Part), AcceptedData::AcceptElementType(ElementType::PhonContent), AcceptedData::AcceptElementType(ElementType::Reference), AcceptedData::AcceptElementType(ElementType::Relation), AcceptedData::AcceptElementType(ElementType::Sentence), AcceptedData::AcceptElementType(ElementType::String), AcceptedData::AcceptElementType(ElementType::Table), AcceptedData::AcceptElementType(ElementType::TextContent), AcceptedData::AcceptElementType(ElementType::Utterance), AcceptedData::AcceptElementType(ElementType::Whitespace), AcceptedData::AcceptElementType(ElementType::Word)],
            required_data: vec![],
            required_attribs: vec![],
            optional_attribs: vec![AttribType::ANNOTATOR, AttribType::BEGINTIME, AttribType::CLASS, AttribType::CONFIDENCE, AttribType::DATETIME, AttribType::ENDTIME, AttribType::ID, AttribType::METADATA, AttribType::N, AttribType::SPACE, AttribType::SPEAKER, AttribType::SRC],
            occurrences: 0,
            occurrences_per_set: 0,
            textdelimiter: Some("\n\n"),
            printable: true,
            speakable: true,
            hidden: false,
            xlink: false,
            textcontainer: false,
            phoncontainer: false,
            subset: None,
            auth: true,
            primaryelement: true,
            auto_generate_id: true,
            setonly: false,
            wrefable: false,
            label: "Example",
        },
        ElementType::External => Properties {
            xmltag: "external",
            annotationtype: None,
            accepted_data: vec![],
            required_data: vec![],
            required_attribs: vec![AttribType::SRC],
            optional_attribs: vec![],
            occurrences: 0,
            occurrences_per_set: 0,
            textdelimiter: None,
            printable: true,
            speakable: false,
            hidden: false,
            xlink: false,
            textcontainer: false,
            phoncontainer: false,
            subset: None,
            auth: true,
            primaryelement: true,
            auto_generate_id: false,
            setonly: false,
            wrefable: false,
            label: "External",
        },
        _ => {
            proof {
                assert(false);
            }
            Properties::default()
        },
    }
}

/// The properties of the element types from Feature to Hyphbreak.
#[verifier::rlimit(50)]
fn properties_feature_to_hyphbreak(elementtype: ElementType) -> (p: Properties)
    requires
        30 <= type_index(elementtype) < 40,
    ensures
        p@ == element_properties(elementtype),
{
    reveal(element_properties);
    match elementtype {
        ElementType::Feature => Properties {
            xmltag: "feat",
            annotationtype: None,
            accepted_data: vec![AcceptedData::AcceptElementType(ElementType::Comment), AcceptedData::AcceptElementType(ElementType::Description)],
            required_data: vec![],
            required_attribs: vec![],
            optional_attribs: vec![],
            occurrences: 0,
            occurrences_per_set: 0,
            textdelimiter: None,
            printable: false,
            speakable: false,
            hidden: false,
            xlink: false,
            textcontainer: false,
            phoncontainer: false,
            subset: None,
            auth: true,
            primaryelement: true,
            auto_generate_id: false,
            setonly: false,
            wrefable: false,
            label: "Feature",
        },
        ElementType::Figure => Properties {
            xmltag: "figure",
            annotationtype: Some(AnnotationType::FIGURE),
            accepted_data: vec![AcceptedData::AcceptElementGroup(ElementGroup::Layer), AcceptedData::AcceptElementType(ElementType::Alternative), AcceptedData::AcceptElementType(ElementType::AlternativeLayers), AcceptedData::AcceptElementType(ElementType::Caption), AcceptedData::AcceptElementType(ElementType::Comment), AcceptedData::AcceptElementType(ElementType::Correction), AcceptedData::AcceptElementType(ElementType::Description), AcceptedData::AcceptElementType(ElementType::Feature), AcceptedData::AcceptElementType(ElementType::ForeignData), AcceptedData::AcceptElementType(ElementType::Linebreak), AcceptedData::AcceptElementType(ElementType::Metric), AcceptedData::AcceptElementType(ElementType::Part), AcceptedData::AcceptElementType(ElementType::Relation), AcceptedData::AcceptElementType(ElementType::String), AcceptedData::AcceptElementType(ElementType::TextContent)],
            required_data: vec![],
            required_attribs: vec![],
            optional_attribs: vec![AttribType::ANNOTATOR, AttribType::BEGINTIME, AttribType::CLASS, AttribType::CONFIDENCE, AttribType::DATETIME, AttribType::ENDTIME, AttribType::ID, AttribType::METADATA, AttribType::N, AttribType::SPACE, AttribType::SPEAKER, AttribType::SRC],
            occurrences: 0,
            occurrences_per_set: 0,
            textdelimiter: Some("\n\n"),
            printable: true,
            speakable: false,
            hidden: false,
            xlink: false,
            textcontainer: false,
            phoncontainer: false,
            subset: None,
            auth: true,
            primaryelement: true,
            auto_generate_id: true,
            setonly: false,
            wrefable: false,
            label: "Figure",
        },
        ElementType::ForeignData => Properties {
            xmltag: "foreign-data",
            annotationtype: None,
            accepted_data: vec![AcceptedData::AcceptElementType(ElementType::Comment), AcceptedData::AcceptElementType(ElementType::Description)],
            required_data: vec![],
            required_attribs: vec![],
            optional_attribs: vec![],
            occurrences: 0,
            occurrences_per_set: 0,
            textdelimiter: None,
            printable: false,
            speakable: false,
            hidden: false,
            xlink: false,
            textcontainer: false,
            phoncontainer: false,
            subset: None,
            auth: true,
            primaryelement: true,
            auto_generate_id: false,
            setonly: false,
            wrefable: false,
            label: "",
        },
        ElementType::FunctionFeature => Properties {
            xmltag: "",
            annotationtype: None,
            accepted_data: vec![AcceptedData::AcceptElementType(ElementType::Comment), AcceptedData::AcceptElementType(ElementType::Description)],
            required_data: vec![],
            required_attribs: vec![],
            optional_attribs: vec![],
            occurrences: 0,
            occurrences_per_set: 0,
            textdelimiter: None,
            printable: false,
            speakable: false,
            hidden: false,
            xlink: false,
            textcontainer: false,
            phoncontainer: false,
            subset: Some("function"),
            auth: true,
            primaryelement: true,
            auto_generate_id: false,
            setonly: false,
            wrefable: false,
            label: "Feature",
        },
        ElementType::Gap => Properties {
            xmltag: "gap",
            annotationtype: Some(AnnotationType::GAP),
            accepted_data: vec![AcceptedData::AcceptElementType(ElementType::Comment), AcceptedData::AcceptElementType(ElementType::Content), AcceptedData::AcceptElementType(ElementType::Description), AcceptedData::AcceptElementType(ElementType::Feature), AcceptedData::AcceptElementType(ElementType::ForeignData), AcceptedData::AcceptElementType(ElementType::Metric), AcceptedData::AcceptElementType(ElementType::Part)],
            required_data: vec![],
            required_attribs: vec![],
            optional_attribs: vec![AttribType::ANNOTATOR, AttribType::BEGINTIME, AttribType::CLASS, AttribType::DATETIME, AttribType::ENDTIME, AttribType::ID, AttribType::METADATA, AttribType::N, AttribType::SRC],
            occurrences: 0,
            occurrences_per_set: 0,
            textdelimiter: None,
            printable: false,
            speakable: false,
            hidden: false,
            xlink: false,
            textcontainer: false,
            phoncontainer: false,
            subset: None,
            auth: true,
            primaryelement: true,
            auto_generate_id: false,
            setonly: false,
            wrefable: false,
            label: "Gap",
        },
        ElementType::Head => Properties {
            xmltag: "head",
            annotationtype: Some(AnnotationType::HEAD),
            accepted_data: vec![AcceptedData::AcceptElementGroup(ElementGroup::Layer), AcceptedData::AcceptElementGroup(ElementGroup::Inline), AcceptedData::AcceptElementType(ElementType::Alternative), AcceptedData::AcceptElementType(ElementType::AlternativeLayers), AcceptedData::AcceptElementType(ElementType::Comment), AcceptedData::AcceptElementType(ElementType::Correction), AcceptedData::AcceptElementType(ElementType::Description), AcceptedData::AcceptElementType(ElementType::Event), AcceptedData::AcceptElementType(ElementType::Feature), AcceptedData::AcceptElementType(ElementType::ForeignData), AcceptedData::AcceptElementType(ElementType::Gap), AcceptedData::AcceptElementType(ElementType::Hiddenword), AcceptedData::AcceptElementType(ElementType::Linebreak), AcceptedData::AcceptElementType(ElementType::Metric), AcceptedData::AcceptElementType(ElementType::Paragraph), AcceptedData::AcceptElementType(ElementType::Part), AcceptedData::AcceptElementType(ElementType::PhonContent), AcceptedData::AcceptElementType(ElementType::Reference), AcceptedData::AcceptElementType(ElementType::Relation), AcceptedData::AcceptElementType(ElementType::Sentence), AcceptedData::AcceptElementType(ElementType::String), AcceptedData::AcceptElementType(ElementType::TextContent), AcceptedData::AcceptElementType(ElementType::Whitespace), AcceptedData::AcceptElementType(ElementType::Word)],
            required_data: vec![],
            required_attribs: vec![],
            optional_attribs: vec![AttribType::ANNOTATOR, AttribType::BEGINTIME, AttribType::CLASS, AttribType::CONFIDENCE, AttribType::DATETIME, AttribType::ENDTIME, AttribType::ID, AttribType::METADATA, AttribType::N, AttribType::SPACE, AttribType::SPEAKER, AttribType::SRC],
            occurrences: 0,
            occurrences_per_set: 0,
            textdelimiter: Some("\n\n"),
            printable: true,
            speakable: true,
            hidden: false,
            xlink: false,
            textcontainer: false,
            phoncontainer: false,
            subset: None,
            auth: true,
            primaryelement: true,
            auto_generate_id: true,
            setonly: false,
            wrefable: false,
            label: "Head",
        },
        ElementType::HeadFeature => Properties {
            xmltag: "",
            annotationtype: None,
            accepted_data: vec![AcceptedData::AcceptElementType(ElementType::Comment), AcceptedData::AcceptElementType(ElementType::Description)],
            required_data: vec![],
            required_attribs: vec![],
            optional_attribs: vec![],
            occurrences: 0,
            occurrences_per_set: 0,
            textdelimiter: None,
            printable: false,
            speakable: false,
            hidden: false,
            xlink: false,
            textcontainer: false,
            phoncontainer: false,
            subset: Some("head"),
            auth: true,
            primaryelement: true,
            auto_generate_id: false,
            setonly: false,
            wrefable: false,
            label: "Feature",
        },
        ElementType::Headspan => Properties {
            xmltag: "hd",
            annotationtype: None,
            accepted_data: vec![AcceptedData::AcceptElementGroup(ElementGroup::Inline), AcceptedData::AcceptElementType(ElementType::Comment), AcceptedData::AcceptElementType(ElementType::Description), AcceptedData::AcceptElementType(ElementType::Feature), AcceptedData::AcceptElementType(ElementType::ForeignData), AcceptedData::AcceptElementType(ElementType::LinkReference), AcceptedData::AcceptElementType(ElementType::Metric), AcceptedData::AcceptElementType(ElementType::Relation), AcceptedData::AcceptElementType(ElementType::WordReference)],
            required_data: vec![],
            required_attribs: vec![],
            optional_attribs: vec![AttribType::ANNOTATOR, AttribType::BEGINTIME, AttribType::CLASS, AttribType::CONFIDENCE, AttribType::DATETIME, AttribType::ENDTIME, AttribType::ID, AttribType::METADATA, AttribType::N, AttribType::SPEAKER, AttribType::SRC, AttribType::TEXTCLASS],
            occurrences: 1,
            occurrences_per_set: 0,
            textdelimiter: None,
            printable: true,
            speakable: true,
            hidden: false,
            xlink: false,
            textcontainer: false,
            phoncontainer: false,
            subset: None,
            auth: true,
            primaryelement: false,
            auto_generate_id: false,
            setonly: false,
            wrefable: false,
            label: "Head",
        },
        ElementType::Hiddenword => Properties {
            xmltag: "hiddenw",
            annotationtype: Some(AnnotationType::HIDDENTOKEN),
            accepted_data: vec![AcceptedData::AcceptElementGroup(ElementGroup::Layer), AcceptedData::AcceptElementGroup(ElementGroup::Inline), AcceptedData::AcceptElementType(ElementType::Alternative), AcceptedData::AcceptElementType(ElementType::AlternativeLayers), AcceptedData::AcceptElementType(ElementType::Comment), AcceptedData::AcceptElementType(ElementType::Correction), AcceptedData::AcceptElementType(ElementType::Description), AcceptedData::AcceptElementType(ElementType::Feature), AcceptedData::AcceptElementType(ElementType::ForeignData), AcceptedData::AcceptElementType(ElementType::Metric), AcceptedData::AcceptElementType(ElementType::Part), AcceptedData::AcceptElementType(ElementType::PhonContent), AcceptedData::AcceptElementType(ElementType::Reference), AcceptedData::AcceptElementType(ElementType::Relation), AcceptedData::AcceptElementType(ElementType::String), AcceptedData::AcceptElementType(ElementType::TextContent)],
            required_data: vec![],
            required_attribs: vec![],
            optional_attribs: vec![AttribType::ANNOTATOR, AttribType::BEGINTIME, AttribType::CLASS, AttribType::CONFIDENCE, AttribType::DATETIME, AttribType::ENDTIME, AttribType::ID, AttribType::METADATA, AttribType::N, AttribType::SPACE, AttribType::SPEAKER, AttribType::SRC, AttribType::TEXTCLASS],
            occurrences: 0,
            occurrences_per_set: 0,
            textdelimiter: Some(" "),
            printable: true,
            speakable: true,
            hidden: true,
            xlink: false,
            textcontainer: false,
            phoncontainer: false,
            subset: None,
            auth: true,
            primaryelement: true,
            auto_generate_id: true,
            setonly: false,
            wrefable: true,
            label: "Hidden Word/Token",
        },
        ElementType::Hyphbreak => Properties {
            xmltag: "t-hbr",
            annotationtype: Some(AnnotationType::HYPHENATION),
            accepted_data: vec![AcceptedData::AcceptElementGroup(ElementGroup::TextMarkup), AcceptedData::AcceptElementType(ElementType::Comment), AcceptedData::AcceptElementType(ElementType::Description), AcceptedData::AcceptElementType(ElementType::Linebreak)],
            required_data: vec![],
            required_attribs: vec![],
            optional_attribs: vec![AttribType::ANNOTATOR, AttribType::BEGINTIME, AttribType::CLASS, AttribType::CONFIDENCE, AttribType::DATETIME, AttribType::ENDTIME, AttribType::ID, AttribType::METADATA, AttribType::N, AttribType::SPEAKER, AttribType::SRC],
            occurrences: 0,
            occurrences_per_set: 0,
            textdelimiter: Some(""),
            printable: true,
            speakable: false,
            hidden: false,
            xlink: true,
            textcontainer: true,
            phoncontainer: false,
            subset: None,
            auth: true,
            primaryelement: false,
            auto_generate_id: false,
            setonly: false,
            wrefable: false,
            label: "Hyphbreak",
        },
        _ => {
            proof {
                assert(false);
            }
            Properties::default()
        },
    }
}

/// The properties of the element types from Label to ModalityFeature.
#[verifier::rlimit(50)]
fn properties_label_to_modality_feature(elementtype: ElementType) -> (p: Properties)
    requires
        40 <= type_index(elementtype) < 50,
    ensures
        p@ == element_properties(elementtype),
{
    reveal(element_properties);
    match elementtype {
        ElementType::Label => Properties {
            xmltag: "label",
            annotationtype: None,
            accepted_data: vec![AcceptedData::AcceptElementGroup(ElementGroup::Layer), AcceptedData::AcceptElementGroup(ElementGroup::Inline), AcceptedData::AcceptElementType(ElementType::Alternative), AcceptedData::AcceptElementType(ElementType::AlternativeLayers), AcceptedData::AcceptElementType(ElementType::Comment), AcceptedData::AcceptElementType(ElementType::Correction), AcceptedData::AcceptElementType(ElementType::Description), AcceptedData::AcceptElementType(ElementType::Feature), AcceptedData::AcceptElementType(ElementType::ForeignData), AcceptedData::AcceptElementType(ElementType::Hiddenword), AcceptedData::AcceptElementType(ElementType::Linebreak), AcceptedData::AcceptElementType(ElementType::Metric), AcceptedData::AcceptElementType(ElementType::Part), AcceptedData::AcceptElementType(ElementType::PhonContent), AcceptedData::AcceptElementType(ElementType::Reference), AcceptedData::AcceptElementType(ElementType::Relation), AcceptedData::AcceptElementType(ElementType::String), AcceptedData::AcceptElementType(ElementType::TextContent), AcceptedData::AcceptElementType(ElementType::Whitespace), AcceptedData::AcceptElementType(ElementType::Word)],
            required_data: vec![],
            required_attribs: vec![],
            optional_attribs: vec![AttribType::ANNOTATOR, AttribType::BEGINTIME, AttribType::CLASS, AttribType::CONFIDENCE, AttribType::DATETIME, AttribType::ENDTIME, AttribType::ID, AttribType::METADATA, AttribType::N, AttribType::SPACE, AttribType::SPEAKER, AttribType::SRC],
            occurrences: 0,
            occurrences_per_set: 0,
            textdelimiter: Some("\n\n"),
            printable: true,
            speakable: true,
            hidden: false,
            xlink: false,
            textcontainer: false,
            phoncontainer: false,
            subset: None,
            auth: true,
            primaryelement: true,
            auto_generate_id: true,
            setonly: false,
            wrefable: false,
            label: "Label",
        },
        ElementType::LangAnnotation => Properties {
            xmltag: "lang",
            annotationtype: Some(AnnotationType::LANG),
            accepted_data: vec![AcceptedData::AcceptElementType(ElementType::Comment), AcceptedData::AcceptElementType(ElementType::Description), AcceptedData::AcceptElementType(ElementType::Feature), AcceptedData::AcceptElementType(ElementType::ForeignData), AcceptedData::AcceptElementType(ElementType::Metric)],
            required_data: vec![],
            required_attribs: vec![AttribType::CLASS],
            optional_attribs: vec![AttribType::ANNOTATOR, AttribType::BEGINTIME, AttribType::CLASS, AttribType::CONFIDENCE, AttribType::DATETIME, AttribType::ENDTIME, AttribType::ID, AttribType::METADATA, AttribType::N, AttribType::SPEAKER, AttribType::SRC, AttribType::TEXTCLASS],
            occurrences: 0,
            occurrences_per_set: 1,
            textdelimiter: None,
            printable: false,
            speakable: false,
            hidden: false,
            xlink: false,
            textcontainer: false,
            phoncontainer: false,
            subset: None,
            auth: true,
            primaryelement: true,
            auto_generate_id: false,
            setonly: false,
            wrefable: false,
            label: "Language",
        },
        ElementType::LemmaAnnotation => Properties {
            xmltag: "lemma",
            annotationtype: Some(AnnotationType::LEMMA),
            accepted_data: vec![AcceptedData::AcceptElementType(ElementType::Comment), AcceptedData::AcceptElementType(ElementType::Description), AcceptedData::AcceptElementType(ElementType::Feature), AcceptedData::AcceptElementType(ElementType::ForeignData), AcceptedData::AcceptElementType(ElementType::Metric)],
            required_data: vec![],
            required_attribs: vec![AttribType::CLASS],
            optional_attribs: vec![AttribType::ANNOTATOR, AttribType::BEGINTIME, AttribType::CLASS, AttribType::CONFIDENCE, AttribType::DATETIME, AttribType::ENDTIME, AttribType::ID, AttribType::METADATA, AttribType::N, AttribType::SPEAKER, AttribType::SRC, AttribType::TEXTCLASS],
            occurrences: 0,
            occurrences_per_set: 1,
            textdelimiter: None,
            printable: false,
            speakable: false,
            hidden: false,
            xlink: false,
            textcontainer: false,
            phoncontainer: false,
            subset: None,
            auth: true,
            primaryelement: true,
            auto_generate_id: false,
            setonly: false,
            wrefable: false,
            label: "Lemma",
        },
        ElementType::LevelFeature => Properties {
            xmltag: "",
            annotationtype: None,
            accepted_data: vec![AcceptedData::AcceptElementType(ElementType::Comment), AcceptedData::AcceptElementType(ElementType::Description)],
            required_data: vec![],
            required_attribs: vec![],
            optional_attribs: vec![],
            occurrences: 0,
            occurrences_per_set: 0,
            textdelimiter: None,
            printable: false,
            speakable: false,
            hidden: false,
            xlink: false,
            textcontainer: false,
            phoncontainer: false,
            subset: Some("level"),
            auth: true,
            primaryelement: true,
            auto_generate_id: false,
            setonly: false,
            wrefable: false,
            label: "Feature",
        },
        ElementType::Linebreak => Properties {
            xmltag: "br",
            annotationtype: Some(AnnotationType::LINEBREAK),
            accepted_data: vec![AcceptedData::AcceptElementGroup(ElementGroup::Layer), AcceptedData::AcceptElementType(ElementType::Alternative), AcceptedData::AcceptElementType(ElementType::AlternativeLayers), AcceptedData::AcceptElementType(ElementType::Comment), AcceptedData::AcceptElementType(ElementType::Correction), AcceptedData::AcceptElementType(ElementType::Description), AcceptedData::AcceptElementType(ElementType::Feature), AcceptedData::AcceptElementType(ElementType::ForeignData), AcceptedData::AcceptElementType(ElementType::Metric), AcceptedData::AcceptElementType(ElementType::Part), AcceptedData::AcceptElementType(ElementType::Relation)],
            required_data: vec![],
            required_attribs: vec![],
            optional_attribs: vec![AttribType::ANNOTATOR, AttribType::BEGINTIME, AttribType::CLASS, AttribType::CONFIDENCE, AttribType::DATETIME, AttribType::ENDTIME, AttribType::ID, AttribType::METADATA, AttribType::N, AttribType::SPACE, AttribType::SPEAKER, AttribType::SRC],
            occurrences: 0,
            occurrences_per_set: 0,
            textdelimiter: Some(""),
            printable: true,
            speakable: true,
            hidden: false,
            xlink: true,
            textcontainer: false,
            phoncontainer: false,
            subset: None,
            auth: true,
            primaryelement: true,
            auto_generate_id: true,
            setonly: false,
            wrefable: false,
            label: "Linebreak",
        },
        ElementType::LinkReference => Properties {
            xmltag: "xref",
            annotationtype: None,
            accepted_data: vec![AcceptedData::AcceptElementType(ElementType::Comment), AcceptedData::AcceptElementType(ElementType::Description)],
            required_data: vec![],
            required_attribs: vec![],
            optional_attribs: vec![AttribType::IDREF],
            occurrences: 0,
            occurrences_per_set: 0,
            textdelimiter: None,
            printable: false,
            speakable: false,
            hidden: false,
            xlink: false,
            textcontainer: false,
            phoncontainer: false,
            subset: None,
            auth: true,
            primaryelement: true,
            auto_generate_id: false,
            setonly: false,
            wrefable: false,
            label: "",
        },
        ElementType::List => Properties {
            xmltag: "list",
            annotationtype: Some(AnnotationType::LIST),
            accepted_data: vec![AcceptedData::AcceptElementGroup(ElementGroup::Layer), AcceptedData::AcceptElementGroup(ElementGroup::Inline), AcceptedData::AcceptElementType(ElementType::Alternative), AcceptedData::AcceptElementType(ElementType::AlternativeLayers), AcceptedData::AcceptElementType(ElementType::Caption), AcceptedData::AcceptElementType(ElementType::Comment), AcceptedData::AcceptElementType(ElementType::Correction), AcceptedData::AcceptElementType(ElementType::Description), AcceptedData::AcceptElementType(ElementType::Event), AcceptedData::AcceptElementType(ElementType::Feature), AcceptedData::AcceptElementType(ElementType::ForeignData), AcceptedData::AcceptElementType(ElementType::Linebreak), AcceptedData::AcceptElementType(ElementType::ListItem), AcceptedData::AcceptElementType(ElementType::Metric), AcceptedData::AcceptElementType(ElementType::Note), AcceptedData::AcceptElementType(ElementType::Part), AcceptedData::AcceptElementType(ElementType::PhonContent), AcceptedData::AcceptElementType(ElementType::Reference), AcceptedData::AcceptElementType(ElementType::Relation), AcceptedData::AcceptElementType(ElementType::String), AcceptedData::AcceptElementType(ElementType::TextContent)],
            required_data: vec![],
            required_attribs: vec![],
            optional_attribs: vec![AttribType::ANNOTATOR, AttribType::BEGINTIME, AttribType::CLASS, AttribType::CONFIDENCE, AttribType::DATETIME, AttribType::ENDTIME, AttribType::ID, AttribType::METADATA, AttribType::N, AttribType::SPACE, AttribType::SPEAKER, AttribType::SRC],
            occurrences: 0,
            occurrences_per_set: 0,
            textdelimiter: Some("\n\n"),
            printable: true,
            speakable: true,
            hidden: false,
            xlink: false,
            textcontainer: false,
            phoncontainer: false,
            subset: None,
            auth: true,
            primaryelement: true,
            auto_generate_id: true,
            setonly: false,
            wrefable: false,
            label: "List",
        },
        ElementType::ListItem => Properties {
            xmltag: "item",
            annotationtype: None,
            accepted_data: vec![AcceptedData::AcceptElementGroup(ElementGroup::Layer), AcceptedData::AcceptElementGroup(ElementGroup::Inline), AcceptedData::AcceptElementType(ElementType::Alternative), AcceptedData::AcceptElementType(ElementType::AlternativeLayers), AcceptedData::AcceptElementType(ElementType::Comment), AcceptedData::AcceptElementType(ElementType::Correction), AcceptedData::AcceptElementType(ElementType::Description), AcceptedData::AcceptElementType(ElementType::Event), AcceptedData::AcceptElementType(ElementType::Feature), AcceptedData::AcceptElementType(ElementType::ForeignData), AcceptedData::AcceptElementType(ElementType::Gap), AcceptedData::AcceptElementType(ElementType::Hiddenword), AcceptedData::AcceptElementType(ElementType::Label), AcceptedData::AcceptElementType(ElementType::Linebreak), AcceptedData::AcceptElementType(ElementType::List), AcceptedData::AcceptElementType(ElementType::Metric), AcceptedData::AcceptElementType(ElementType::Note), AcceptedData::AcceptElementType(ElementType::Paragraph), AcceptedData::AcceptElementType(ElementType::Part), AcceptedData::AcceptElementType(ElementType::PhonContent), AcceptedData::AcceptElementType(ElementType::Quote), AcceptedData::AcceptElementType(ElementType::Reference), AcceptedData::AcceptElementType(ElementType::Relation), AcceptedData::AcceptElementType(ElementType::Sentence), AcceptedData::AcceptElementType(ElementType::String), AcceptedData::AcceptElementType(ElementType::TextContent), AcceptedData::AcceptElementType(ElementType::Whitespace), AcceptedData::AcceptElementType(ElementType::Word)],
            required_data: vec![],
            required_attribs: vec![],
            optional_attribs: vec![AttribType::ANNOTATOR, AttribType::BEGINTIME, AttribType::CLASS, AttribType::CONFIDENCE, AttribType::DATETIME, AttribType::ENDTIME, AttribType::ID, AttribType::METADATA, AttribType::N, AttribType::SPACE, AttribType::SPEAKER, AttribType::SRC],
            occurrences: 0,
            occurrences_per_set: 0,
            textdelimiter: Some("\n"),
            printable: true,
            speakable: true,
            hidden: false,
            xlink: false,
            textcontainer: false,
            phoncontainer: false,
            subset: None,
            auth: true,
            primaryelement: true,
            auto_generate_id: true,
            setonly: false,
            wrefable: false,
            label: "List Item",
        },
        ElementType::Metric => Properties {
            xmltag: "metric",
            annotationtype: Some(AnnotationType::METRIC),
            accepted_data: vec![AcceptedData::AcceptElementType(ElementType::Comment), AcceptedData::AcceptElementType(ElementType::Description), AcceptedData::AcceptElementType(ElementType::Feature), AcceptedData::AcceptElementType(ElementType::ForeignData), AcceptedData::AcceptElementType(ElementType::ValueFeature)],
            required_data: vec![],
            required_attribs: vec![],
            optional_attribs: vec![AttribType::ANNOTATOR, AttribType::BEGINTIME, AttribType::CLASS, AttribType::CONFIDENCE, AttribType::DATETIME, AttribType::ENDTIME, AttribType::ID, AttribType::METADATA, AttribType::N, AttribType::SPEAKER, AttribType::SRC],
            occurrences: 0,
            occurrences_per_set: 0,
            textdelimiter: None,
            printable: false,
            speakable: false,
            hidden: false,
            xlink: false,
            textcontainer: false,
            phoncontainer: false,
            subset: None,
            auth: true,
            primaryelement: true,
            auto_generate_id: false,
            setonly: false,
            wrefable: false,
            label: "Metric",
        },
        ElementType::ModalityFeature => Properties {
            xmltag: "",
            annotationtype: None,
            accepted_data: vec![AcceptedData::AcceptElementType(ElementType::Comment), AcceptedData::AcceptElementType(ElementType::Description)],
            required_data: vec![],
            required_attribs: vec![],
            optional_attribs: vec![],
            occurrences: 0,
            occurrences_per_set: 0,
            textdelimiter: None,
            printable: false,
            speakable: false,
            hidden: false,
            xlink: false,
            textcontainer: false,
            phoncontainer: false,
            subset: Some("modality"),
            auth: true,
            primaryelement: true,
            auto_generate_id: false,
            setonly: false,
            wrefable: false,
            label: "Feature",
        },
        _ => {
            proof {
                assert(false);
            }
            Properties::default()
        },
    }
}

/// The properties of the element types from Morpheme to PhonContent.
#[verifier::rlimit(50)]
fn properties_morpheme_to_phon_content(elementtype: ElementType) -> (p: Properties)
    requires
        50 <= type_index(elementtype) < 60,
    ensures
        p@ == element_properties(elementtype),
{
    reveal(element_properties);
    match elementtype {
        ElementType::Morpheme => Properties {
            xmltag: "morpheme",
            annotationtype: Some(AnnotationType::MORPHOLOGICAL),
            accepted_data: vec![AcceptedData::AcceptElementGroup(ElementGroup::Layer), AcceptedData::AcceptElementGroup(ElementGroup::Inline), AcceptedData::AcceptElementType(ElementType::Alternative), AcceptedData::AcceptElementType(ElementType::AlternativeLayers), AcceptedData::AcceptElementType(ElementType::Comment), AcceptedData::AcceptElementType(ElementType::Correction), AcceptedData::AcceptElementType(ElementType::Description), AcceptedData::AcceptElementType(ElementType::Feature), AcceptedData::AcceptElementType(ElementType::ForeignData), AcceptedData::AcceptElementType(ElementType::FunctionFeature), AcceptedData::AcceptElementType(ElementType::Metric), AcceptedData::AcceptElementType(ElementType::Morpheme), AcceptedData::AcceptElementType(ElementType::Part), AcceptedData::AcceptElementType(ElementType::PhonContent), AcceptedData::AcceptElementType(ElementType::Relation), AcceptedData::AcceptElementType(ElementType::String), AcceptedData::AcceptElementType(ElementType::TextContent)],
            required_data: vec![],
            required_attribs: vec![],
            optional_attribs: vec![AttribType::ANNOTATOR, AttribType::BEGINTIME, AttribType::CLASS, AttribType::CONFIDENCE, AttribType::DATETIME, AttribType::ENDTIME, AttribType::ID, AttribType::METADATA, AttribType::N, AttribType::SPEAKER, AttribType::SRC],
            occurrences: 0,
            occurrences_per_set: 0,
            textdelimiter: Some(""),
            printable: true,
            speakable: true,
            hidden: false,
            xlink: false,
            textcontainer: false,
            phoncontainer: false,
            subset: None,
            auth: true,
            primaryelement: true,
            auto_generate_id: true,
            setonly: false,
            wrefable: true,
            label: "Morpheme",
        },
        ElementType::MorphologyLayer => Properties {
            xmltag: "morphology",
            annotationtype: Some(AnnotationType::MORPHOLOGICAL),
            accepted_data: vec![AcceptedData::AcceptElementType(ElementType::Comment), AcceptedData::AcceptElementType(ElementType::Correction), AcceptedData::AcceptElementType(ElementType::Description), AcceptedData::AcceptElementType(ElementType::ForeignData), AcceptedData::AcceptElementType(ElementType::Morpheme)],
            required_data: vec![],
            required_attribs: vec![],
            optional_attribs: vec![AttribType::ID],
            occurrences: 0,
            occurrences_per_set: 0,
            textdelimiter: None,
            printable: false,
            speakable: false,
            hidden: false,
            xlink: false,
            textcontainer: false,
            phoncontainer: false,
            subset: None,
            auth: true,
            primaryelement: false,
            auto_generate_id: false,
            setonly: true,
            wrefable: false,
            label: "",
        },
        ElementType::New => Properties {
            xmltag: "new",
            annotationtype: Some(AnnotationType::CORRECTION),
            accepted_data: vec![AcceptedData::AcceptElementGroup(ElementGroup::Inline), AcceptedData::AcceptElementGroup(ElementGroup::Span), AcceptedData::AcceptElementGroup(ElementGroup::Structure), AcceptedData::AcceptElementType(ElementType::Comment), AcceptedData::AcceptElementType(ElementType::Correction), AcceptedData::AcceptElementType(ElementType::Description), AcceptedData::AcceptElementType(ElementType::ForeignData), AcceptedData::AcceptElementType(ElementType::Metric), AcceptedData::AcceptElementType(ElementType::PhonContent), AcceptedData::AcceptElementType(ElementType::String), AcceptedData::AcceptElementType(ElementType::TextContent)],
            required_data: vec![],
            required_attribs: vec![],
            optional_attribs: vec![],
            occurrences: 1,
            occurrences_per_set: 0,
            textdelimiter: None,
            printable: true,
            speakable: true,
            hidden: false,
            xlink: false,
            textcontainer: false,
            phoncontainer: false,
            subset: None,
            auth: true,
            primaryelement: false,
            auto_generate_id: false,
            setonly: false,
            wrefable: false,
            label: "",
        },
        ElementType::Note => Properties {
            xmltag: "note",
            annotationtype: Some(AnnotationType::NOTE),
            accepted_data: vec![AcceptedData::AcceptElementGroup(ElementGroup::Layer), AcceptedData::AcceptElementGroup(ElementGroup::Inline), AcceptedData::AcceptElementType(ElementType::Alternative), AcceptedData::AcceptElementType(ElementType::AlternativeLayers), AcceptedData::AcceptElementType(ElementType::Comment), AcceptedData::AcceptElementType(ElementType::Correction), AcceptedData::AcceptElementType(ElementType::Description), AcceptedData::AcceptElementType(ElementType::Example), AcceptedData::AcceptElementType(ElementType::Feature), AcceptedData::AcceptElementType(ElementType::Figure), AcceptedData::AcceptElementType(ElementType::ForeignData), AcceptedData::AcceptElementType(ElementType::Head), AcceptedData::AcceptElementType(ElementType::Hiddenword), AcceptedData::AcceptElementType(ElementType::Linebreak), AcceptedData::AcceptElementType(ElementType::List), AcceptedData::AcceptElementType(ElementType::Metric), AcceptedData::AcceptElementType(ElementType::Paragraph), AcceptedData::AcceptElementType(ElementType::Part), AcceptedData::AcceptElementType(ElementType::PhonContent), AcceptedData::AcceptElementType(ElementType::Reference), AcceptedData::AcceptElementType(ElementType::Relation), AcceptedData::AcceptElementType(ElementType::Sentence), AcceptedData::AcceptElementType(ElementType::String), AcceptedData::AcceptElementType(ElementType::Table), AcceptedData::AcceptElementType(ElementType::TextContent), AcceptedData::AcceptElementType(ElementType::Utterance), AcceptedData::AcceptElementType(ElementType::Whitespace), AcceptedData::AcceptElementType(ElementType::Word)],
            required_data: vec![],
            required_attribs: vec![],
            optional_attribs: vec![AttribType::ANNOTATOR, AttribType::BEGINTIME, AttribType::CLASS, AttribType::CONFIDENCE, AttribType::DATETIME, AttribType::ENDTIME, AttribType::ID, AttribType::METADATA, AttribType::N, AttribType::SPACE, AttribType::SPEAKER, AttribType::SRC],
            occurrences: 0,
            occurrences_per_set: 0,
            textdelimiter: Some("\n\n"),
            printable: true,
            speakable: true,
            hidden: false,
            xlink: false,
            textcontainer: false,
            phoncontainer: false,
            subset: None,
            auth: true,
            primaryelement: true,
            auto_generate_id: true,
            setonly: false,
            wrefable: false,
            label: "Note",
        },
        ElementType::Observation => Properties {
            xmltag: "observation",
            annotationtype: Some(AnnotationType::OBSERVATION),
            accepted_data: vec![AcceptedData::AcceptElementGroup(ElementGroup::Inline), AcceptedData::AcceptElementType(ElementType::Comment), AcceptedData::AcceptElementType(ElementType::Description), AcceptedData::AcceptElementType(ElementType::Feature), AcceptedData::AcceptElementType(ElementType::ForeignData), AcceptedData::AcceptElementType(ElementType::LinkReference), AcceptedData::AcceptElementType(ElementType::Metric), AcceptedData::AcceptElementType(ElementType::Relation), AcceptedData::AcceptElementType(ElementType::WordReference)],
            required_data: vec![],
            required_attribs: vec![],
            optional_attribs: vec![AttribType::ANNOTATOR, AttribType::BEGINTIME, AttribType::CLASS, AttribType::CONFIDENCE, AttribType::DATETIME, AttribType::ENDTIME, AttribType::ID, AttribType::METADATA, AttribType::N, AttribType::SPEAKER, AttribType::SRC, AttribType::TEXTCLASS],
            occurrences: 0,
            occurrences_per_set: 0,
            textdelimiter: None,
            printable: true,
            speakable: true,
            hidden: false,
            xlink: false,
            textcontainer: false,
            phoncontainer: false,
            subset: None,
            auth: true,
            primaryelement: true,
            auto_generate_id: false,
            setonly: false,
            wrefable: false,
            label: "Observation",
        },
        ElementType::ObservationLayer => Properties {
            xmltag: "observations",
            annotationtype: Some(AnnotationType::OBSERVATION),
            accepted_data: vec![AcceptedData::AcceptElementType(ElementType::Comment), AcceptedData::AcceptElementType(ElementType::Correction), AcceptedData::AcceptElementType(ElementType::Description), AcceptedData::AcceptElementType(ElementType::ForeignData), AcceptedData::AcceptElementType(ElementType::Observation)],
            required_data: vec![],
            required_attribs: vec![],
            optional_attribs: vec![AttribType::ID],
            occurrences: 0,
            occurrences_per_set: 0,
            textdelimiter: None,
            printable: false,
            speakable: false,
            hidden: false,
            xlink: false,
            textcontainer: false,
            phoncontainer: false,
            subset: None,
            auth: true,
            primaryelement: false,
            auto_generate_id: false,
            setonly: true,
            wrefable: false,
            label: "",
        },
        ElementType::Original => Properties {
            xmltag: "original",
            annotationtype: Some(AnnotationType::CORRECTION),
            accepted_data: vec![AcceptedData::AcceptElementGroup(ElementGroup::Inline), AcceptedData::AcceptElementGroup(ElementGroup::Span), AcceptedData::AcceptElementGroup(ElementGroup::Structure), AcceptedData::AcceptElementType(ElementType::Comment), AcceptedData::AcceptElementType(ElementType::Correction), AcceptedData::AcceptElementType(ElementType::Description), AcceptedData::AcceptElementType(ElementType::ForeignData), AcceptedData::AcceptElementType(ElementType::Metric), AcceptedData::AcceptElementType(ElementType::PhonContent), AcceptedData::AcceptElementType(ElementType::String), AcceptedData::AcceptElementType(ElementType::TextContent)],
            required_data: vec![],
            required_attribs: vec![],
            optional_attribs: vec![],
            occurrences: 1,
            occurrences_per_set: 0,
            textdelimiter: None,
            printable: true,
            speakable: true,
            hidden: false,
            xlink: false,
            textcontainer: false,
            phoncontainer: false,
            subset: None,
            auth: false,
            primaryelement: false,
            auto_generate_id: false,
            setonly: false,
            wrefable: false,
            label: "",
        },
        ElementType::Paragraph => Properties {
            xmltag: "p",
            annotationtype: Some(AnnotationType::PARAGRAPH),
            accepted_data: vec![AcceptedData::AcceptElementGroup(ElementGroup::Layer), AcceptedData::AcceptElementGroup(ElementGroup::Inline), AcceptedData::AcceptElementType(ElementType::Alternative), AcceptedData::AcceptElementType(ElementType::AlternativeLayers), AcceptedData::AcceptElementType(ElementType::Comment), AcceptedData::AcceptElementType(ElementType::Correction), AcceptedData::AcceptElementType(ElementType::Description), AcceptedData::AcceptElementType(ElementType::Entry), AcceptedData::AcceptElementType(ElementType::Event), AcceptedData::AcceptElementType(ElementType::Example), AcceptedData::AcceptElementType(ElementType::Feature), AcceptedData::AcceptElementType(ElementType::Figure), AcceptedData::AcceptElementType(ElementType::ForeignData), AcceptedData::AcceptElementType(ElementType::Gap), AcceptedData::AcceptElementType(ElementType::Head), AcceptedData::AcceptElementType(ElementType::Hiddenword), AcceptedData::AcceptElementType(ElementType::Linebreak), AcceptedData::AcceptElementType(ElementType::List), AcceptedData::AcceptElementType(ElementType::Metric), AcceptedData::AcceptElementType(ElementType::Note), AcceptedData::AcceptElementType(ElementType::Part), AcceptedData::AcceptElementType(ElementType::PhonContent), AcceptedData::AcceptElementType(ElementType::Quote), AcceptedData::AcceptElementType(ElementType::Reference), AcceptedData::AcceptElementType(ElementType::Relation), AcceptedData::AcceptElementType(ElementType::Sentence), AcceptedData::AcceptElementType(ElementType::String), AcceptedData::AcceptElementType(ElementType::TextContent), AcceptedData::AcceptElementType(ElementType::Whitespace), AcceptedData::AcceptElementType(ElementType::Word)],
            required_data: vec![],
            required_attribs: vec![],
            optional_attribs: vec![AttribType::ANNOTATOR, AttribType::BEGINTIME, AttribType::CLASS, AttribType::CONFIDENCE, AttribType::DATETIME, AttribType::ENDTIME, AttribType::ID, AttribType::METADATA, AttribType::N, AttribType::SPACE, AttribType::SPEAKER, AttribType::SRC],
            occurrences: 0,
            occurrences_per_set: 0,
            textdelimiter: Some("\n\n"),
            printable: true,
            speakable: true,
            hidden: false,
            xlink: false,
            textcontainer: false,
            phoncontainer: false,
            subset: None,
            auth: true,
            primaryelement: true,
            auto_generate_id: true,
            setonly: false,
            wrefable: false,
            label: "Paragraph",
        },
        ElementType::Part => Properties {
            xmltag: "part",
            annotationtype: Some(AnnotationType::PART),
            accepted_data: vec![AcceptedData::AcceptElementGroup(ElementGroup::Layer), AcceptedData::AcceptElementGroup(ElementGroup::Inline), AcceptedData::AcceptElementGroup(ElementGroup::Structure), AcceptedData::AcceptElementType(ElementType::Alternative), AcceptedData::AcceptElementType(ElementType::AlternativeLayers), AcceptedData::AcceptElementType(ElementType::Comment), AcceptedData::AcceptElementType(ElementType::Correction), AcceptedData::AcceptElementType(ElementType::Description), AcceptedData::AcceptElementType(ElementType::Feature), AcceptedData::AcceptElementType(ElementType::ForeignData), AcceptedData::AcceptElementType(ElementType::Metric), AcceptedData::AcceptElementType(ElementType::Part), AcceptedData::AcceptElementType(ElementType::PhonContent), AcceptedData::AcceptElementType(ElementType::Relation), AcceptedData::AcceptElementType(ElementType::TextContent)],
            required_data: vec![],
            required_attribs: vec![],
            optional_attribs: vec![AttribType::ANNOTATOR, AttribType::BEGINTIME, AttribType::CLASS, AttribType::CONFIDENCE, AttribType::DATETIME, AttribType::ENDTIME, AttribType::ID, AttribType::METADATA, AttribType::N, AttribType::SPACE, AttribType::SPEAKER, AttribType::SRC],
            occurrences: 0,
            occurrences_per_set: 0,
            textdelimiter: Some(" "),
            printable: true,
            speakable: true,
            hidden: false,
            xlink: false,
            textcontainer: false,
            phoncontainer: false,
            subset: None,
            auth: true,
            primaryelement: true,
            auto_generate_id: true,
            setonly: false,
            wrefable: false,
            label: "Part",
        },
        ElementType::PhonContent => Properties {
            xmltag: "ph",
            annotationtype: Some(AnnotationType::PHON),
            accepted_data: vec![],
            required_data: vec![],
            required_attribs: vec![],
            optional_attribs: vec![AttribType::ANNOTATOR, AttribType::CLASS, AttribType::CONFIDENCE, AttribType::DATETIME, AttribType::METADATA],
            occurrences: 0,
            occurrences_per_set: 0,
            textdelimiter: None,
            printable: false,
            speakable: true,
            hidden: false,
            xlink: false,
            textcontainer: false,
            phoncontainer: true,
            subset: None,
            auth: true,
            primaryelement: true,
            auto_generate_id: false,
            setonly: false,
            wrefable: false,
            label: "Phonetic Content",
        },
        _ => {
            proof {
                assert(false);
            }
            Properties::default()
        },
    }
}

/// The properties of the element types from Phoneme to SemanticRole.
#[verifier::rlimit(50)]
fn properties_phoneme_to_semantic_role(elementtype: ElementType) -> (p: Properties)
    requires
        60 <= type_index(elementtype) < 70,
    ensures
        p@ == element_properties(elementtype),
{
    reveal(element_properties);
    match elementtype {
        ElementType::Phoneme => Properties {
            xmltag: "phoneme",
            annotationtype: Some(AnnotationType::PHONOLOGICAL),
            accepted_data: vec![AcceptedData::AcceptElementGroup(ElementGroup::Layer), AcceptedData::AcceptElementGroup(ElementGroup::Inline), AcceptedData::AcceptElementType(ElementType::Alternative), AcceptedData::AcceptElementType(ElementType::AlternativeLayers), AcceptedData::AcceptElementType(ElementType::Comment), AcceptedData::AcceptElementType(ElementType::Correction), AcceptedData::AcceptElementType(ElementType::Description), AcceptedData::AcceptElementType(ElementType::Feature), AcceptedData::AcceptElementType(ElementType::ForeignData), AcceptedData::AcceptElementType(ElementType::FunctionFeature), AcceptedData::AcceptElementType(ElementType::Metric), AcceptedData::AcceptElementType(ElementType::Part), AcceptedData::AcceptElementType(ElementType::PhonContent), AcceptedData::AcceptElementType(ElementType::Phoneme), AcceptedData::AcceptElementType(ElementType::Relation), AcceptedData::AcceptElementType(ElementType::String), AcceptedData::AcceptElementType(ElementType::TextContent)],
            required_data: vec![],
            required_attribs: vec![],
            optional_attribs: vec![AttribType::ANNOTATOR, AttribType::BEGINTIME, AttribType::CLASS, AttribType::CONFIDENCE, AttribType::DATETIME, AttribType::ENDTIME, AttribType::ID, AttribType::METADATA, AttribType::N, AttribType::SPEAKER, AttribType::SRC],
            occurrences: 0,
            occurrences_per_set: 0,
            textdelimiter: Some(""),
            printable: true,
            speakable: true,
            hidden: false,
            xlink: false,
            textcontainer: false,
            phoncontainer: false,
            subset: None,
            auth: true,
            primaryelement: true,
            auto_generate_id: true,
            setonly: false,
            wrefable: true,
            label: "Phoneme",
        },
        ElementType::PhonologyLayer => Properties {
            xmltag: "phonology",
            annotationtype: Some(AnnotationType::PHONOLOGICAL),
            accepted_data: vec![AcceptedData::AcceptElementType(ElementType::Comment), AcceptedData::AcceptElementType(ElementType::Correction), AcceptedData::AcceptElementType(ElementType::Description), AcceptedData::AcceptElementType(ElementType::ForeignData), AcceptedData::AcceptElementType(ElementType::Phoneme)],
            required_data: vec![],
            required_attribs: vec![],
            optional_attribs: vec![AttribType::ID],
            occurrences: 0,
            occurrences_per_set: 0,
            textdelimiter: None,
            printable: false,
            speakable: false,
            hidden: false,
            xlink: false,
            textcontainer: false,
            phoncontainer: false,
            subset: None,
            auth: true,
            primaryelement: false,
            auto_generate_id: false,
            setonly: true,
            wrefable: false,
            label: "",
        },
        ElementType::PolarityFeature => Properties {
            xmltag: "",
            annotationtype: None,
            accepted_data: vec![AcceptedData::AcceptElementType(ElementType::Comment), AcceptedData::AcceptElementType(ElementType::Description)],
            required_data: vec![],
            required_attribs: vec![],
            optional_attribs: vec![],
            occurrences: 0,
            occurrences_per_set: 0,
            textdelimiter: None,
            printable: false,
            speakable: false,
            hidden: false,
            xlink: false,
            textcontainer: false,
            phoncontainer: false,
            subset: Some("polarity"),
            auth: true,
            primaryelement: true,
            auto_generate_id: false,
            setonly: false,
            wrefable: false,
            label: "Feature",
        },
        ElementType::PosAnnotation => Properties {
            xmltag: "pos",
            annotationtype: Some(AnnotationType::POS),
            accepted_data: vec![AcceptedData::AcceptElementType(ElementType::Comment), AcceptedData::AcceptElementType(ElementType::Description), AcceptedData::AcceptElementType(ElementType::Feature), AcceptedData::AcceptElementType(ElementType::ForeignData), AcceptedData::AcceptElementType(ElementType::HeadFeature), AcceptedData::AcceptElementType(ElementType::Metric)],
            required_data: vec![],
            required_attribs: vec![AttribType::CLASS],
            optional_attribs: vec![AttribType::ANNOTATOR, AttribType::BEGINTIME, AttribType::CLASS, AttribType::CONFIDENCE, AttribType::DATETIME, AttribType::ENDTIME, AttribType::ID, AttribType::METADATA, AttribType::N, AttribType::SPEAKER, AttribType::SRC, AttribType::TEXTCLASS],
            occurrences: 0,
            occurrences_per_set: 1,
            textdelimiter: None,
            printable: false,
            speakable: false,
            hidden: false,
            xlink: false,
            textcontainer: false,
            phoncontainer: false,
            subset: None,
            auth: true,
            primaryelement: true,
            auto_generate_id: false,
            setonly: false,
            wrefable: false,
            label: "Part-of-Speech",
        },
        ElementType::Predicate => Properties {
            xmltag: "predicate",
            annotationtype: Some(AnnotationType::PREDICATE),
            accepted_data: vec![AcceptedData::AcceptElementGroup(ElementGroup::Inline), AcceptedData::AcceptElementType(ElementType::Comment), AcceptedData::AcceptElementType(ElementType::Description), AcceptedData::AcceptElementType(ElementType::Feature), AcceptedData::AcceptElementType(ElementType::ForeignData), AcceptedData::AcceptElementType(ElementType::LinkReference), AcceptedData::AcceptElementType(ElementType::Metric), AcceptedData::AcceptElementType(ElementType::Relation), AcceptedData::AcceptElementType(ElementType::SemanticRole), AcceptedData::AcceptElementType(ElementType::WordReference)],
            required_data: vec![],
            required_attribs: vec![],
            optional_attribs: vec![AttribType::ANNOTATOR, AttribType::BEGINTIME, AttribType::CLASS, AttribType::CONFIDENCE, AttribType::DATETIME, AttribType::ENDTIME, AttribType::ID, AttribType::METADATA, AttribType::N, AttribType::SPEAKER, AttribType::SRC, AttribType::TEXTCLASS],
            occurrences: 0,
            occurrences_per_set: 0,
            textdelimiter: None,
            printable: true,
            speakable: true,
            hidden: false,
            xlink: false,
            textcontainer: false,
            phoncontainer: false,
            subset: None,
            auth: true,
            primaryelement: true,
            auto_generate_id: false,
            setonly: false,
            wrefable: false,
            label: "Predicate",
        },
        ElementType::Quote => Properties {
            xmltag: "quote",
            annotationtype: Some(AnnotationType::QUOTE),
            accepted_data: vec![AcceptedData::AcceptElementGroup(ElementGroup::Layer), AcceptedData::AcceptElementGroup(ElementGroup::Inline), AcceptedData::AcceptElementType(ElementType::Alternative), AcceptedData::AcceptElementType(ElementType::AlternativeLayers), AcceptedData::AcceptElementType(ElementType::Comment), AcceptedData::AcceptElementType(ElementType::Correction), AcceptedData::AcceptElementType(ElementType::Description), AcceptedData::AcceptElementType(ElementType::Division), AcceptedData::AcceptElementType(ElementType::Feature), AcceptedData::AcceptElementType(ElementType::ForeignData), AcceptedData::AcceptElementType(ElementType::Gap), AcceptedData::AcceptElementType(ElementType::Hiddenword), AcceptedData::AcceptElementType(ElementType::Linebreak), AcceptedData::AcceptElementType(ElementType::Metric), AcceptedData::AcceptElementType(ElementType::Paragraph), AcceptedData::AcceptElementType(ElementType::Part), AcceptedData::AcceptElementType(ElementType::Quote), AcceptedData::AcceptElementType(ElementType::Reference), AcceptedData::AcceptElementType(ElementType::Relation), AcceptedData::AcceptElementType(ElementType::Sentence), AcceptedData::AcceptElementType(ElementType::String), AcceptedData::AcceptElementType(ElementType::TextContent), AcceptedData::AcceptElementType(ElementType::Utterance), AcceptedData::AcceptElementType(ElementType::Whitespace), AcceptedData::AcceptElementType(ElementType::Word)],
            required_data: vec![],
            required_attribs: vec![],
            optional_attribs: vec![AttribType::ANNOTATOR, AttribType::BEGINTIME, AttribType::CLASS, AttribType::CONFIDENCE, AttribType::DATETIME, AttribType::ENDTIME, AttribType::ID, AttribType::METADATA, AttribType::N, AttribType::SPACE, AttribType::SPEAKER, AttribType::SRC],
            occurrences: 0,
            occurrences_per_set: 0,
            textdelimiter: Some("\n\n"),
            printable: true,
            speakable: true,
            hidden: false,
            xlink: false,
            textcontainer: false,
            phoncontainer: false,
            subset: None,
            auth: true,
            primaryelement: true,
            auto_generate_id: true,
            setonly: false,
            wrefable: false,
            label: "Quote",
        },
        ElementType::Reference => Properties {
            xmltag: "ref",
            annotationtype: Some(AnnotationType::REFERENCE),
            accepted_data: vec![AcceptedData::AcceptElementGroup(ElementGroup::Layer), AcceptedData::AcceptElementType(ElementType::Alternative), AcceptedData::AcceptElementType(ElementType::AlternativeLayers), AcceptedData::AcceptElementType(ElementType::Comment), AcceptedData::AcceptElementType(ElementType::Correction), AcceptedData::AcceptElementType(ElementType::Description), AcceptedData::AcceptElementType(ElementType::Feature), AcceptedData::AcceptElementType(ElementType::ForeignData), AcceptedData::AcceptElementType(ElementType::Hiddenword), AcceptedData::AcceptElementType(ElementType::Linebreak), AcceptedData::AcceptElementType(ElementType::Metric), AcceptedData::AcceptElementType(ElementType::Paragraph), AcceptedData::AcceptElementType(ElementType::Part), AcceptedData::AcceptElementType(ElementType::PhonContent), AcceptedData::AcceptElementType(ElementType::Quote), AcceptedData::AcceptElementType(ElementType::Relation), AcceptedData::AcceptElementType(ElementType::Sentence), AcceptedData::AcceptElementType(ElementType::String), AcceptedData::AcceptElementType(ElementType::TextContent), AcceptedData::AcceptElementType(ElementType::Utterance), AcceptedData::AcceptElementType(ElementType::Whitespace), AcceptedData::AcceptElementType(ElementType::Word)],
            required_data: vec![],
            required_attribs: vec![],
            optional_attribs: vec![AttribType::ANNOTATOR, AttribType::BEGINTIME, AttribType::CLASS, AttribType::CONFIDENCE, AttribType::DATETIME, AttribType::ENDTIME, AttribType::ID, AttribType::METADATA, AttribType::N, AttribType::SPACE, AttribType::SPEAKER, AttribType::SRC],
            occurrences: 0,
            occurrences_per_set: 0,
            textdelimiter: Some(" "),
            printable: true,
            speakable: true,
            hidden: false,
            xlink: true,
            textcontainer: false,
            phoncontainer: false,
            subset: None,
            auth: true,
            primaryelement: true,
            auto_generate_id: true,
            setonly: false,
            wrefable: false,
            label: "Reference",
        },
        ElementType::Relation => Properties {
            xmltag: "relation",
            annotationtype: Some(AnnotationType::RELATION),
            accepted_data: vec![AcceptedData::AcceptElementType(ElementType::Comment), AcceptedData::AcceptElementType(ElementType::Description), AcceptedData::AcceptElementType(ElementType::Feature), AcceptedData::AcceptElementType(ElementType::ForeignData), AcceptedData::AcceptElementType(ElementType::LinkReference), AcceptedData::AcceptElementType(ElementType::Metric)],
            required_data: vec![],
            required_attribs: vec![],
            optional_attribs: vec![AttribType::ANNOTATOR, AttribType::BEGINTIME, AttribType::CLASS, AttribType::CONFIDENCE, AttribType::DATETIME, AttribType::ENDTIME, AttribType::ID, AttribType::METADATA, AttribType::N, AttribType::SPEAKER, AttribType::SRC],
            occurrences: 0,
            occurrences_per_set: 0,
            textdelimiter: None,
            printable: false,
            speakable: false,
            hidden: false,
            xlink: true,
            textcontainer: false,
            phoncontainer: false,
            subset: None,
            auth: true,
            primaryelement: true,
            auto_generate_id: false,
            setonly: false,
            wrefable: false,
            label: "Relation",
        },
        ElementType::Row => Properties {
            xmltag: "row",
            annotationtype: None,
            accepted_data: vec![AcceptedData::AcceptElementGroup(ElementGroup::Layer), AcceptedData::AcceptElementGroup(ElementGroup::Inline), AcceptedData::AcceptElementType(ElementType::Alternative), AcceptedData::AcceptElementType(ElementType::AlternativeLayers), AcceptedData::AcceptElementType(ElementType::Cell), AcceptedData::AcceptElementType(ElementType::Comment), AcceptedData::AcceptElementType(ElementType::Correction), AcceptedData::AcceptElementType(ElementType::Description), AcceptedData::AcceptElementType(ElementType::Feature), AcceptedData::AcceptElementType(ElementType::ForeignData), AcceptedData::AcceptElementType(ElementType::Metric), AcceptedData::AcceptElementType(ElementType::Part), AcceptedData::AcceptElementType(ElementType::Relation)],
            required_data: vec![],
            required_attribs: vec![],
            optional_attribs: vec![AttribType::ANNOTATOR, AttribType::BEGINTIME, AttribType::CLASS, AttribType::CONFIDENCE, AttribType::DATETIME, AttribType::ENDTIME, AttribType::ID, AttribType::METADATA, AttribType::N, AttribType::SPACE, AttribType::SPEAKER, AttribType::SRC],
            occurrences: 0,
            occurrences_per_set: 0,
            textdelimiter: Some("\n"),
            printable: true,
            speakable: true,
            hidden: false,
            xlink: false,
            textcontainer: false,
            phoncontainer: false,
            subset: None,
            auth: true,
            primaryelement: true,
            auto_generate_id: true,
            setonly: false,
            wrefable: false,
            label: "Table Row",
        },
        ElementType::SemanticRole => Properties {
            xmltag: "semrole",
            annotationtype: Some(AnnotationType::SEMROLE),
            accepted_data: vec![AcceptedData::AcceptElementGroup(ElementGroup::Inline), AcceptedData::AcceptElementType(ElementType::Comment), AcceptedData::AcceptElementType(ElementType::Description), AcceptedData::AcceptElementType(ElementType::Feature), AcceptedData::AcceptElementType(ElementType::ForeignData), AcceptedData::AcceptElementType(ElementType::Headspan), AcceptedData::AcceptElementType(ElementType::LinkReference), AcceptedData::AcceptElementType(ElementType::Metric), AcceptedData::AcceptElementType(ElementType::Relation), AcceptedData::AcceptElementType(ElementType::WordReference)],
            required_data: vec![],
            required_attribs: vec![AttribType::CLASS],
            optional_attribs: vec![AttribType::ANNOTATOR, AttribType::BEGINTIME, AttribType::CLASS, AttribType::CONFIDENCE, AttribType::DATETIME, AttribType::ENDTIME, AttribType::ID, AttribType::METADATA, AttribType::N, AttribType::SPEAKER, AttribType::SRC, AttribType::TEXTCLASS],
            occurrences: 0,
            occurrences_per_set: 0,
            textdelimiter: None,
            printable: true,
            speakable: true,
            hidden: false,
            xlink: false,
            textcontainer: false,
            phoncontainer: false,
            subset: None,
            auth: true,
            primaryelement: true,
            auto_generate_id: false,
            setonly: false,
            wrefable: false,
            label: "Semantic Role",
        },
        _ => {
            proof {
                assert(false);
            }
            Properties::default()
        },
    }
}

/// The properties of the element types from SemanticRolesLayer to Statement.
#[verifier::rlimit(50)]
fn properties_semantic_roles_layer_to_statement(elementtype: ElementType) -> (p: Properties)
    requires
        70 <= type_index(elementtype) < 80,
    ensures
        p@ == element_properties(elementtype),
{
    reveal(element_properties);
    match elementtype {
        ElementType::SemanticRolesLayer => Properties {
            xmltag: "semroles",
            annotationtype: Some(AnnotationType::SEMROLE),
            accepted_data: vec![AcceptedData::AcceptElementType(ElementType::Comment), AcceptedData::AcceptElementType(ElementType::Correction), AcceptedData::AcceptElementType(ElementType::Description), AcceptedData::AcceptElementType(ElementType::ForeignData), AcceptedData::AcceptElementType(ElementType::Predicate), AcceptedData::AcceptElementType(ElementType::SemanticRole)],
            required_data: vec![],
            required_attribs: vec![],
            optional_attribs: vec![AttribType::ID],
            occurrences: 0,
            occurrences_per_set: 0,
            textdelimiter: None,
            printable: false,
            speakable: false,
            hidden: false,
            xlink: false,
            textcontainer: false,
            phoncontainer: false,
            subset: None,
            auth: true,
            primaryelement: false,
            auto_generate_id: false,
            setonly: true,
            wrefable: false,
            label: "",
        },
        ElementType::SenseAnnotation => Properties {
            xmltag: "sense",
            annotationtype: Some(AnnotationType::SENSE),
            accepted_data: vec![AcceptedData::AcceptElementType(ElementType::Comment), AcceptedData::AcceptElementType(ElementType::Description), AcceptedData::AcceptElementType(ElementType::Feature), AcceptedData::AcceptElementType(ElementType::ForeignData), AcceptedData::AcceptElementType(ElementType::Metric), AcceptedData::AcceptElementType(ElementType::SynsetFeature)],
            required_data: vec![],
            required_attribs: vec![AttribType::CLASS],
            optional_attribs: vec![AttribType::ANNOTATOR, AttribType::BEGINTIME, AttribType::CLASS, AttribType::CONFIDENCE, AttribType::DATETIME, AttribType::ENDTIME, AttribType::ID, AttribType::METADATA, AttribType::N, AttribType::SPEAKER, AttribType::SRC, AttribType::TEXTCLASS],
            occurrences: 0,
            occurrences_per_set: 0,
            textdelimiter: None,
            printable: false,
            speakable: false,
            hidden: false,
            xlink: false,
            textcontainer: false,
            phoncontainer: false,
            subset: None,
            auth: true,
            primaryelement: true,
            auto_generate_id: false,
            setonly: false,
            wrefable: false,
            label: "Semantic Sense",
        },
        ElementType::Sentence => Properties {
            xmltag: "s",
            annotationtype: Some(AnnotationType::SENTENCE),
            accepted_data: vec![AcceptedData::AcceptElementGroup(ElementGroup::Layer), AcceptedData::AcceptElementGroup(ElementGroup::Inline), AcceptedData::AcceptElementType(ElementType::Alternative), AcceptedData::AcceptElementType(ElementType::AlternativeLayers), AcceptedData::AcceptElementType(ElementType::Comment), AcceptedData::AcceptElementType(ElementType::Correction), AcceptedData::AcceptElementType(ElementType::Description), AcceptedData::AcceptElementType(ElementType::Entry), AcceptedData::AcceptElementType(ElementType::Event), AcceptedData::AcceptElementType(ElementType::Example), AcceptedData::AcceptElementType(ElementType::Feature), AcceptedData::AcceptElementType(ElementType::ForeignData), AcceptedData::AcceptElementType(ElementType::Gap), AcceptedData::AcceptElementType(ElementType::Hiddenword), AcceptedData::AcceptElementType(ElementType::Linebreak), AcceptedData::AcceptElementType(ElementType::Metric), AcceptedData::AcceptElementType(ElementType::Note), AcceptedData::AcceptElementType(ElementType::Part), AcceptedData::AcceptElementType(ElementType::PhonContent), AcceptedData::AcceptElementType(ElementType::Quote), AcceptedData::AcceptElementType(ElementType::Reference), AcceptedData::AcceptElementType(ElementType::Relation), AcceptedData::AcceptElementType(ElementType::String), AcceptedData::AcceptElementType(ElementType::TextContent), AcceptedData::AcceptElementType(ElementType::Whitespace), AcceptedData::AcceptElementType(ElementType::Word)],
            required_data: vec![],
            required_attribs: vec![],
            optional_attribs: vec![AttribType::ANNOTATOR, AttribType::BEGINTIME, AttribType::CLASS, AttribType::CONFIDENCE, AttribType::DATETIME, AttribType::ENDTIME, AttribType::ID, AttribType::METADATA, AttribType::N, AttribType::SPACE, AttribType::SPEAKER, AttribType::SRC],
            occurrences: 0,
            occurrences_per_set: 0,
            textdelimiter: Some(" "),
            printable: true,
            speakable: true,
            hidden: false,
            xlink: false,
            textcontainer: false,
            phoncontainer: false,
            subset: None,
            auth: true,
            primaryelement: true,
            auto_generate_id: true,
            setonly: false,
            wrefable: false,
            label: "Sentence",
        },
        ElementType::Sentiment => Properties {
            xmltag: "sentiment",
            annotationtype: Some(AnnotationType::SENTIMENT),
            accepted_data: vec![AcceptedData::AcceptElementGroup(ElementGroup::Inline), AcceptedData::AcceptElementType(ElementType::Comment), AcceptedData::AcceptElementType(ElementType::Description), AcceptedData::AcceptElementType(ElementType::Feature), AcceptedData::AcceptElementType(ElementType::ForeignData), AcceptedData::AcceptElementType(ElementType::Headspan), AcceptedData::AcceptElementType(ElementType::LinkReference), AcceptedData::AcceptElementType(ElementType::Metric), AcceptedData::AcceptElementType(ElementType::PolarityFeature), AcceptedData::AcceptElementType(ElementType::Relation), AcceptedData::AcceptElementType(ElementType::Source), AcceptedData::AcceptElementType(ElementType::StrengthFeature), AcceptedData::AcceptElementType(ElementType::Target), AcceptedData::AcceptElementType(ElementType::WordReference)],
            required_data: vec![],
            required_attribs: vec![],
            optional_attribs: vec![AttribType::ANNOTATOR, AttribType::BEGINTIME, AttribType::CLASS, AttribType::CONFIDENCE, AttribType::DATETIME, AttribType::ENDTIME, AttribType::ID, AttribType::METADATA, AttribType::N, AttribType::SPEAKER, AttribType::SRC, AttribType::TEXTCLASS],
            occurrences: 0,
            occurrences_per_set: 0,
            textdelimiter: None,
            printable: true,
            speakable: true,
            hidden: false,
            xlink: false,
            textcontainer: false,
            phoncontainer: false,
            subset: None,
            auth: true,
            primaryelement: true,
            auto_generate_id: false,
            setonly: false,
            wrefable: false,
            label: "Sentiment",
        },
        ElementType::SentimentLayer => Properties {
            xmltag: "sentiments",
            annotationtype: Some(AnnotationType::SENTIMENT),
            accepted_data: vec![AcceptedData::AcceptElementType(ElementType::Comment), AcceptedData::AcceptElementType(ElementType::Correction), AcceptedData::AcceptElementType(ElementType::Description), AcceptedData::AcceptElementType(ElementType::ForeignData), AcceptedData::AcceptElementType(ElementType::Sentiment)],
            required_data: vec![],
            required_attribs: vec![],
            optional_attribs: vec![AttribType::ID],
            occurrences: 0,
            occurrences_per_set: 0,
            textdelimiter: None,
            printable: false,
            speakable: false,
            hidden: false,
            xlink: false,
            textcontainer: false,
            phoncontainer: false,
            subset: None,
            auth: true,
            primaryelement: false,
            auto_generate_id: false,
            setonly: true,
            wrefable: false,
            label: "",
        },
        ElementType::Source => Properties {
            xmltag: "source",
            annotationtype: None,
            accepted_data: vec![AcceptedData::AcceptElementGroup(ElementGroup::Inline), AcceptedData::AcceptElementType(ElementType::Comment), AcceptedData::AcceptElementType(ElementType::Description), AcceptedData::AcceptElementType(ElementType::Feature), AcceptedData::AcceptElementType(ElementType::ForeignData), AcceptedData::AcceptElementType(ElementType::LinkReference), AcceptedData::AcceptElementType(ElementType::Metric), AcceptedData::AcceptElementType(ElementType::Relation), AcceptedData::AcceptElementType(ElementType::WordReference)],
            required_data: vec![],
            required_attribs: vec![],
            optional_attribs: vec![AttribType::ANNOTATOR, AttribType::BEGINTIME, AttribType::CLASS, AttribType::CONFIDENCE, AttribType::DATETIME, AttribType::ENDTIME, AttribType::ID, AttribType::METADATA, AttribType::N, AttribType::SPEAKER, AttribType::SRC, AttribType::TEXTCLASS],
            occurrences: 1,
            occurrences_per_set: 0,
            textdelimiter: None,
            printable: true,
            speakable: true,
            hidden: false,
            xlink: false,
            textcontainer: false,
            phoncontainer: false,
            subset: None,
            auth: true,
            primaryelement: false,
            auto_generate_id: false,
            setonly: false,
            wrefable: false,
            label: "Source",
        },
        ElementType::SpanRelation => Properties {
            xmltag: "spanrelation",
            annotationtype: Some(AnnotationType::SPANRELATION),
            accepted_data: vec![AcceptedData::AcceptElementType(ElementType::Comment), AcceptedData::AcceptElementType(ElementType::Description), AcceptedData::AcceptElementType(ElementType::Feature), AcceptedData::AcceptElementType(ElementType::ForeignData), AcceptedData::AcceptElementType(ElementType::Metric), AcceptedData::AcceptElementType(ElementType::Relation)],
            required_data: vec![],
            required_attribs: vec![],
            optional_attribs: vec![AttribType::ANNOTATOR, AttribType::BEGINTIME, AttribType::CLASS, AttribType::CONFIDENCE, AttribType::DATETIME, AttribType::ENDTIME, AttribType::ID, AttribType::METADATA, AttribType::N, AttribType::SPEAKER, AttribType::SRC],
            occurrences: 0,
            occurrences_per_set: 0,
            textdelimiter: None,
            printable: false,
            speakable: false,
            hidden: false,
            xlink: false,
            textcontainer: false,
            phoncontainer: false,
            subset: None,
            auth: true,
            primaryelement: true,
            auto_generate_id: false,
            setonly: false,
            wrefable: false,
            label: "Span Relation",
        },
        ElementType::SpanRelationLayer => Properties {
            xmltag: "spanrelations",
            annotationtype: Some(AnnotationType::SPANRELATION),
            accepted_data: vec![AcceptedData::AcceptElementType(ElementType::Comment), AcceptedData::AcceptElementType(ElementType::Correction), AcceptedData::AcceptElementType(ElementType::Description), AcceptedData::AcceptElementType(ElementType::ForeignData), AcceptedData::AcceptElementType(ElementType::SpanRelation)],
            required_data: vec![],
            required_attribs: vec![],
            optional_attribs: vec![AttribType::ID],
            occurrences: 0,
            occurrences_per_set: 0,
            textdelimiter: None,
            printable: false,
            speakable: false,
            hidden: false,
            xlink: false,
            textcontainer: false,
            phoncontainer: false,
            subset: None,
            auth: true,
            primaryelement: false,
            auto_generate_id: false,
            setonly: true,
            wrefable: false,
            label: "",
        },
        ElementType::Speech => Properties {
            xmltag: "speech",
            annotationtype: None,
            accepted_data: vec![AcceptedData::AcceptElementGroup(ElementGroup::Layer), AcceptedData::AcceptElementGroup(ElementGroup::Inline), AcceptedData::AcceptElementType(ElementType::Alternative), AcceptedData::AcceptElementType(ElementType::AlternativeLayers), AcceptedData::AcceptElementType(ElementType::Comment), AcceptedData::AcceptElementType(ElementType::Correction), AcceptedData::AcceptElementType(ElementType::Description), AcceptedData::AcceptElementType(ElementType::Division), AcceptedData::AcceptElementType(ElementType::Entry), AcceptedData::AcceptElementType(ElementType::Event), AcceptedData::AcceptElementType(ElementType::Example), AcceptedData::AcceptElementType(ElementType::External), AcceptedData::AcceptElementType(ElementType::Feature), AcceptedData::AcceptElementType(ElementType::ForeignData), AcceptedData::AcceptElementType(ElementType::Gap), AcceptedData::AcceptElementType(ElementType::Hiddenword), AcceptedData::AcceptElementType(ElementType::List), AcceptedData::AcceptElementType(ElementType::Metric), AcceptedData::AcceptElementType(ElementType::Note), AcceptedData::AcceptElementType(ElementType::Paragraph), AcceptedData::AcceptElementType(ElementType::Part), AcceptedData::AcceptElementType(ElementType::PhonContent), AcceptedData::AcceptElementType(ElementType::Quote), AcceptedData::AcceptElementType(ElementType::Reference), AcceptedData::AcceptElementType(ElementType::Relation), AcceptedData::AcceptElementType(ElementType::Sentence), AcceptedData::AcceptElementType(ElementType::String), AcceptedData::AcceptElementType(ElementType::TextContent), AcceptedData::AcceptElementType(ElementType::Utterance), AcceptedData::AcceptElementType(ElementType::Word)],
            required_data: vec![],
            required_attribs: vec![],
            optional_attribs: vec![AttribType::ANNOTATOR, AttribType::BEGINTIME, AttribType::CLASS, AttribType::CONFIDENCE, AttribType::DATETIME, AttribType::ENDTIME, AttribType::ID, AttribType::METADATA, AttribType::N, AttribType::SPACE, AttribType::SPEAKER, AttribType::SRC],
            occurrences: 0,
            occurrences_per_set: 0,
            textdelimiter: Some("\n\n\n"),
            printable: true,
            speakable: true,
            hidden: false,
            xlink: false,
            textcontainer: false,
            phoncontainer: false,
            subset: None,
            auth: true,
            primaryelement: true,
            auto_generate_id: true,
            setonly: false,
            wrefable: false,
            label: "Speech Body",
        },
        ElementType::Statement => Properties {
            xmltag: "statement",
            annotationtype: Some(AnnotationType::STATEMENT),
            accepted_data: vec![AcceptedData::AcceptElementGroup(ElementGroup::Inline), AcceptedData::AcceptElementType(ElementType::Comment), AcceptedData::AcceptElementType(ElementType::Description), AcceptedData::AcceptElementType(ElementType::Feature), AcceptedData::AcceptElementType(ElementType::ForeignData), AcceptedData::AcceptElementType(ElementType::Headspan), AcceptedData::AcceptElementType(ElementType::LinkReference), AcceptedData::AcceptElementType(ElementType::Metric), AcceptedData::AcceptElementType(ElementType::Relation), AcceptedData::AcceptElementType(ElementType::Source), AcceptedData::AcceptElementType(ElementType::StatementRelation), AcceptedData::AcceptElementType(ElementType::WordReference)],
            required_data: vec![],
            required_attribs: vec![],
            optional_attribs: vec![AttribType::ANNOTATOR, AttribType::BEGINTIME, AttribType::CLASS, AttribType::CONFIDENCE, AttribType::DATETIME, AttribType::ENDTIME, AttribType::ID, AttribType::METADATA, AttribType::N, AttribType::SPEAKER, AttribType::SRC, AttribType::TEXTCLASS],
            occurrences: 0,
            occurrences_per_set: 0,
            textdelimiter: None,
            printable: true,
            speakable: true,
            hidden: false,
            xlink: false,
            textcontainer: false,
            phoncontainer: false,
            subset: None,
            auth: true,
            primaryelement: true,
            auto_generate_id: false,
            setonly: false,
            wrefable: false,
            label: "Statement",
        },
        _ => {
            proof {
                assert(false);
            }
            Properties::default()
        },
    }
}

/// The properties of the element types from StatementLayer to SyntaxLayer.
#[verifier::rlimit(50)]
fn properties_statement_layer_to_syntax_layer(elementtype: ElementType) -> (p: Properties)
    requires
        80 <= type_index(elementtype) < 90,
    ensures
        p@ == element_properties(elementtype),
{
    reveal(element_properties);
    match elementtype {
        ElementType::StatementLayer => Properties {
            xmltag: "statements",
            annotationtype: Some(AnnotationType::STATEMENT),
            accepted_data: vec![AcceptedData::AcceptElementType(ElementType::Comment), AcceptedData::AcceptElementType(ElementType::Correction), AcceptedData::AcceptElementType(ElementType::Description), AcceptedData::AcceptElementType(ElementType::ForeignData), AcceptedData::AcceptElementType(ElementType::Statement)],
            required_data: vec![],
            required_attribs: vec![],
            optional_attribs: vec![AttribType::ID],
            occurrences: 0,
            occurrences_per_set: 0,
            textdelimiter: None,
            printable: false,
            speakable: false,
            hidden: false,
            xlink: false,
            textcontainer: false,
            phoncontainer: false,
            subset: None,
            auth: true,
            primaryelement: false,
            auto_generate_id: false,
            setonly: true,
            wrefable: false,
            label: "",
        },
        ElementType::StatementRelation => Properties {
            xmltag: "rel",
            annotationtype: None,
            accepted_data: vec![AcceptedData::AcceptElementGroup(ElementGroup::Inline), AcceptedData::AcceptElementType(ElementType::Comment), AcceptedData::AcceptElementType(ElementType::Description), AcceptedData::AcceptElementType(ElementType::Feature), AcceptedData::AcceptElementType(ElementType::ForeignData), AcceptedData::AcceptElementType(ElementType::LinkReference), AcceptedData::AcceptElementType(ElementType::Metric), AcceptedData::AcceptElementType(ElementType::Relation), AcceptedData::AcceptElementType(ElementType::WordReference)],
            required_data: vec![],
            required_attribs: vec![],
            optional_attribs: vec![AttribType::ANNOTATOR, AttribType::BEGINTIME, AttribType::CLASS, AttribType::CONFIDENCE, AttribType::DATETIME, AttribType::ENDTIME, AttribType::ID, AttribType::METADATA, AttribType::N, AttribType::SPEAKER, AttribType::SRC, AttribType::TEXTCLASS],
            occurrences: 1,
            occurrences_per_set: 0,
            textdelimiter: None,
            printable: true,
            speakable: true,
            hidden: false,
            xlink: false,
            textcontainer: false,
            phoncontainer: false,
            subset: None,
            auth: true,
            primaryelement: false,
            auto_generate_id: false,
            setonly: false,
            wrefable: false,
            label: "Relation",
        },
        ElementType::StrengthFeature => Properties {
            xmltag: "",
            annotationtype: None,
            accepted_data: vec![AcceptedData::AcceptElementType(ElementType::Comment), AcceptedData::AcceptElementType(ElementType::Description)],
            required_data: vec![],
            required_attribs: vec![],
            optional_attribs: vec![],
            occurrences: 0,
            occurrences_per_set: 0,
            textdelimiter: None,
            printable: false,
            speakable: false,
            hidden: false,
            xlink: false,
            textcontainer: false,
            phoncontainer: false,
            subset: Some("strength"),
            auth: true,
            primaryelement: true,
            auto_generate_id: false,
            setonly: false,
            wrefable: false,
            label: "Feature",
        },
        ElementType::String => Properties {
            xmltag: "str",
            annotationtype: Some(AnnotationType::STRING),
            accepted_data: vec![AcceptedData::AcceptElementGroup(ElementGroup::Inline), AcceptedData::AcceptElementType(ElementType::Comment), AcceptedData::AcceptElementType(ElementType::Correction), AcceptedData::AcceptElementType(ElementType::Description), AcceptedData::AcceptElementType(ElementType::Feature), AcceptedData::AcceptElementType(ElementType::ForeignData), AcceptedData::AcceptElementType(ElementType::Metric), AcceptedData::AcceptElementType(ElementType::PhonContent), AcceptedData::AcceptElementType(ElementType::Relation), AcceptedData::AcceptElementType(ElementType::TextContent)],
            required_data: vec![],
            required_attribs: vec![],
            optional_attribs: vec![AttribType::ANNOTATOR, AttribType::BEGINTIME, AttribType::CLASS, AttribType::CONFIDENCE, AttribType::DATETIME, AttribType::ENDTIME, AttribType::ID, AttribType::METADATA, AttribType::N, AttribType::SRC],
            occurrences: 0,
            occurrences_per_set: 0,
            textdelimiter: None,
            printable: true,
            speakable: false,
            hidden: false,
            xlink: false,
            textcontainer: false,
            phoncontainer: false,
            subset: None,
            auth: true,
            primaryelement: true,
            auto_generate_id: false,
            setonly: false,
            wrefable: false,
            label: "String",
        },
        ElementType::StyleFeature => Properties {
            xmltag: "",
            annotationtype: None,
            accepted_data: vec![AcceptedData::AcceptElementType(ElementType::Comment), AcceptedData::AcceptElementType(ElementType::Description)],
            required_data: vec![],
            required_attribs: vec![],
            optional_attribs: vec![],
            occurrences: 0,
            occurrences_per_set: 0,
            textdelimiter: None,
            printable: false,
            speakable: false,
            hidden: false,
            xlink: false,
            textcontainer: false,
            phoncontainer: false,
            subset: Some("style"),
            auth: true,
            primaryelement: true,
            auto_generate_id: false,
            setonly: false,
            wrefable: false,
            label: "Feature",
        },
        ElementType::SubjectivityAnnotation => Properties {
            xmltag: "subjectivity",
            annotationtype: Some(AnnotationType::SUBJECTIVITY),
            accepted_data: vec![AcceptedData::AcceptElementType(ElementType::Comment), AcceptedData::AcceptElementType(ElementType::Description), AcceptedData::AcceptElementType(ElementType::Feature), AcceptedData::AcceptElementType(ElementType::ForeignData), AcceptedData::AcceptElementType(ElementType::Metric)],
            required_data: vec![],
            required_attribs: vec![AttribType::CLASS],
            optional_attribs: vec![AttribType::ANNOTATOR, AttribType::BEGINTIME, AttribType::CLASS, AttribType::CONFIDENCE, AttribType::DATETIME, AttribType::ENDTIME, AttribType::ID, AttribType::METADATA, AttribType::N, AttribType::SPEAKER, AttribType::SRC, AttribType::TEXTCLASS],
            occurrences: 0,
            occurrences_per_set: 1,
            textdelimiter: None,
            printable: false,
            speakable: false,
            hidden: false,
            xlink: false,
            textcontainer: false,
            phoncontainer: false,
            subset: None,
            auth: true,
            primaryelement: true,
            auto_generate_id: false,
            setonly: false,
            wrefable: false,
            label: "Subjectivity/Sentiment",
        },
        ElementType::Suggestion => Properties {
            xmltag: "suggestion",
            annotationtype: Some(AnnotationType::CORRECTION),
            accepted_data: vec![AcceptedData::AcceptElementGroup(ElementGroup::Inline), AcceptedData::AcceptElementGroup(ElementGroup::Span), AcceptedData::AcceptElementGroup(ElementGroup::Structure), AcceptedData::AcceptElementType(ElementType::Comment), AcceptedData::AcceptElementType(ElementType::Correction), AcceptedData::AcceptElementType(ElementType::Description), AcceptedData::AcceptElementType(ElementType::ForeignData), AcceptedData::AcceptElementType(ElementType::Metric), AcceptedData::AcceptElementType(ElementType::PhonContent), AcceptedData::AcceptElementType(ElementType::String), AcceptedData::AcceptElementType(ElementType::TextContent)],
            required_data: vec![],
            required_attribs: vec![],
            optional_attribs: vec![AttribType::ANNOTATOR, AttribType::CONFIDENCE, AttribType::DATETIME, AttribType::ID, AttribType::N],
            occurrences: 0,
            occurrences_per_set: 0,
            textdelimiter: None,
            printable: true,
            speakable: true,
            hidden: false,
            xlink: false,
            textcontainer: false,
            phoncontainer: false,
            subset: None,
            auth: false,
            primaryelement: false,
            auto_generate_id: false,
            setonly: false,
            wrefable: false,
            label: "",
        },
        ElementType::SynsetFeature => Properties {
            xmltag: "",
            annotationtype: None,
            accepted_data: vec![AcceptedData::AcceptElementType(ElementType::Comment), AcceptedData::AcceptElementType(ElementType::Description)],
            required_data: vec![],
            required_attribs: vec![],
            optional_attribs: vec![],
            occurrences: 0,
            occurrences_per_set: 0,
            textdelimiter: None,
            printable: false,
            speakable: false,
            hidden: false,
            xlink: false,
            textcontainer: false,
            phoncontainer: false,
            subset: Some("synset"),
            auth: true,
            primaryelement: true,
            auto_generate_id: false,
            setonly: false,
            wrefable: false,
            label: "Feature",
        },
        ElementType::SyntacticUnit => Properties {
            xmltag: "su",
            annotationtype: Some(AnnotationType::SYNTAX),
            accepted_data: vec![AcceptedData::AcceptElementGroup(ElementGroup::Inline), AcceptedData::AcceptElementType(ElementType::Comment), AcceptedData::AcceptElementType(ElementType::Description), AcceptedData::AcceptElementType(ElementType::Feature), AcceptedData::AcceptElementType(ElementType::ForeignData), AcceptedData::AcceptElementType(ElementType::LinkReference), AcceptedData::AcceptElementType(ElementType::Metric), AcceptedData::AcceptElementType(ElementType::Relation), AcceptedData::AcceptElementType(ElementType::SyntacticUnit), AcceptedData::AcceptElementType(ElementType::WordReference)],
            required_data: vec![],
            required_attribs: vec![],
            optional_attribs: vec![AttribType::ANNOTATOR, AttribType::BEGINTIME, AttribType::CLASS, AttribType::CONFIDENCE, AttribType::DATETIME, AttribType::ENDTIME, AttribType::ID, AttribType::METADATA, AttribType::N, AttribType::SPEAKER, AttribType::SRC, AttribType::TEXTCLASS],
            occurrences: 0,
            occurrences_per_set: 0,
            textdelimiter: None,
            printable: true,
            speakable: true,
            hidden: false,
            xlink: false,
            textcontainer: false,
            phoncontainer: false,
            subset: None,
            auth: true,
            primaryelement: true,
            auto_generate_id: false,
            setonly: false,
            wrefable: false,
            label: "Syntactic Unit",
        },
        ElementType::SyntaxLayer => Properties {
            xmltag: "syntax",
            annotationtype: Some(AnnotationType::SYNTAX),
            accepted_data: vec![AcceptedData::AcceptElementType(ElementType::Comment), AcceptedData::AcceptElementType(ElementType::Correction), AcceptedData::AcceptElementType(ElementType::Description), AcceptedData::AcceptElementType(ElementType::ForeignData), AcceptedData::AcceptElementType(ElementType::SyntacticUnit)],
            required_data: vec![],
            required_attribs: vec![],
            optional_attribs: vec![AttribType::ID],
            occurrences: 0,
            occurrences_per_set: 0,
            textdelimiter: None,
            printable: false,
            speakable: false,
            hidden: false,
            xlink: false,
            textcontainer: false,
            phoncontainer: false,
            subset: None,
            auth: true,
            primaryelement: false,
            auto_generate_id: false,
            setonly: true,
            wrefable: false,
            label: "",
        },
        _ => {
            proof {
                assert(false);
            }
            Properties::default()
        },
    }
}

/// The properties of the element types from Table to TextMarkupReference.
#[verifier::rlimit(50)]
fn properties_table_to_text_markup_reference(elementtype: ElementType) -> (p: Properties)
    requires
        90 <= type_index(elementtype) < 100,
    ensures
        p@ == element_properties(elementtype),
{
    reveal(element_properties);
    match elementtype {
        ElementType::Table => Properties {
            xmltag: "table",
            annotationtype: Some(AnnotationType::TABLE),
            accepted_data: vec![AcceptedData::AcceptElementGroup(ElementGroup::Layer), AcceptedData::AcceptElementGroup(ElementGroup::Inline), AcceptedData::AcceptElementType(ElementType::Alternative), AcceptedData::AcceptElementType(ElementType::AlternativeLayers), AcceptedData::AcceptElementType(ElementType::Comment), AcceptedData::AcceptElementType(ElementType::Correction), AcceptedData::AcceptElementType(ElementType::Description), AcceptedData::AcceptElementType(ElementType::Feature), AcceptedData::AcceptElementType(ElementType::ForeignData), AcceptedData::AcceptElementType(ElementType::Linebreak), AcceptedData::AcceptElementType(ElementType::Metric), AcceptedData::AcceptElementType(ElementType::Part), AcceptedData::AcceptElementType(ElementType::Relation), AcceptedData::AcceptElementType(ElementType::Row), AcceptedData::AcceptElementType(ElementType::TableHead)],
            required_data: vec![],
            required_attribs: vec![],
            optional_attribs: vec![AttribType::ANNOTATOR, AttribType::BEGINTIME, AttribType::CLASS, AttribType::CONFIDENCE, AttribType::DATETIME, AttribType::ENDTIME, AttribType::ID, AttribType::METADATA, AttribType::N, AttribType::SPACE, AttribType::SPEAKER, AttribType::SRC],
            occurrences: 0,
            occurrences_per_set: 0,
            textdelimiter: Some("\n\n"),
            printable: true,
            speakable: true,
            hidden: false,
            xlink: false,
            textcontainer: false,
            phoncontainer: false,
            subset: None,
            auth: true,
            primaryelement: true,
            auto_generate_id: true,
            setonly: false,
            wrefable: false,
            label: "Table",
        },
        ElementType::TableHead => Properties {
            xmltag: "tablehead",
            annotationtype: None,
            accepted_data: vec![AcceptedData::AcceptElementGroup(ElementGroup::Layer), AcceptedData::AcceptElementGroup(ElementGroup::Inline), AcceptedData::AcceptElementType(ElementType::Alternative), AcceptedData::AcceptElementType(ElementType::AlternativeLayers), AcceptedData::AcceptElementType(ElementType::Comment), AcceptedData::AcceptElementType(ElementType::Correction), AcceptedData::AcceptElementType(ElementType::Description), AcceptedData::AcceptElementType(ElementType::Feature), AcceptedData::AcceptElementType(ElementType::ForeignData), AcceptedData::AcceptElementType(ElementType::Metric), AcceptedData::AcceptElementType(ElementType::Part), AcceptedData::AcceptElementType(ElementType::Relation), AcceptedData::AcceptElementType(ElementType::Row)],
            required_data: vec![],
            required_attribs: vec![],
            optional_attribs: vec![AttribType::ANNOTATOR, AttribType::BEGINTIME, AttribType::CLASS, AttribType::CONFIDENCE, AttribType::DATETIME, AttribType::ENDTIME, AttribType::ID, AttribType::METADATA, AttribType::N, AttribType::SPACE, AttribType::SPEAKER, AttribType::SRC],
            occurrences: 0,
            occurrences_per_set: 0,
            textdelimiter: Some("\n\n"),
            printable: true,
            speakable: true,
            hidden: false,
            xlink: false,
            textcontainer: false,
            phoncontainer: false,
            subset: None,
            auth: true,
            primaryelement: true,
            auto_generate_id: true,
            setonly: false,
            wrefable: false,
            label: "Table Header",
        },
        ElementType::Target => Properties {
            xmltag: "target",
            annotationtype: None,
            accepted_data: vec![AcceptedData::AcceptElementGroup(ElementGroup::Inline), AcceptedData::AcceptElementType(ElementType::Comment), AcceptedData::AcceptElementType(ElementType::Description), AcceptedData::AcceptElementType(ElementType::Feature), AcceptedData::AcceptElementType(ElementType::ForeignData), AcceptedData::AcceptElementType(ElementType::LinkReference), AcceptedData::AcceptElementType(ElementType::Metric), AcceptedData::AcceptElementType(ElementType::Relation), AcceptedData::AcceptElementType(ElementType::WordReference)],
            required_data: vec![],
            required_attribs: vec![],
            optional_attribs: vec![AttribType::ANNOTATOR, AttribType::BEGINTIME, AttribType::CLASS, AttribType::CONFIDENCE, AttribType::DATETIME, AttribType::ENDTIME, AttribType::ID, AttribType::METADATA, AttribType::N, AttribType::SPEAKER, AttribType::SRC, AttribType::TEXTCLASS],
            occurrences: 1,
            occurrences_per_set: 0,
            textdelimiter: None,
            printable: true,
            speakable: true,
            hidden: false,
            xlink: false,
            textcontainer: false,
            phoncontainer: false,
            subset: None,
            auth: true,
            primaryelement: false,
            auto_generate_id: false,
            setonly: false,
            wrefable: false,
            label: "Target",
        },
        ElementType::Term => Properties {
            xmltag: "term",
            annotationtype: Some(AnnotationType::TERM),
            accepted_data: vec![AcceptedData::AcceptElementGroup(ElementGroup::Layer), AcceptedData::AcceptElementGroup(ElementGroup::Inline), AcceptedData::AcceptElementType(ElementType::Alternative), AcceptedData::AcceptElementType(ElementType::AlternativeLayers), AcceptedData::AcceptElementType(ElementType::Comment), AcceptedData::AcceptElementType(ElementType::Correction), AcceptedData::AcceptElementType(ElementType::Description), AcceptedData::AcceptElementType(ElementType::Event), AcceptedData::AcceptElementType(ElementType::Feature), AcceptedData::AcceptElementType(ElementType::Figure), AcceptedData::AcceptElementType(ElementType::ForeignData), AcceptedData::AcceptElementType(ElementType::Gap), AcceptedData::AcceptElementType(ElementType::Hiddenword), AcceptedData::AcceptElementType(ElementType::Linebreak), AcceptedData::AcceptElementType(ElementType::List), AcceptedData::AcceptElementType(ElementType::Metric), AcceptedData::AcceptElementType(ElementType::Paragraph), AcceptedData::AcceptElementType(ElementType::Part), AcceptedData::AcceptElementType(ElementType::PhonContent), AcceptedData::AcceptElementType(ElementType::Reference), AcceptedData::AcceptElementType(ElementType::Relation), AcceptedData::AcceptElementType(ElementType::Sentence), AcceptedData::AcceptElementType(ElementType::String), AcceptedData::AcceptElementType(ElementType::Table), AcceptedData::AcceptElementType(ElementType::TextContent), AcceptedData::AcceptElementType(ElementType::Utterance), AcceptedData::AcceptElementType(ElementType::Whitespace), AcceptedData::AcceptElementType(ElementType::Word)],
            required_data: vec![],
            required_attribs: vec![],
            optional_attribs: vec![AttribType::ANNOTATOR, AttribType::BEGINTIME, AttribType::CLASS, AttribType::CONFIDENCE, AttribType::DATETIME, AttribType::ENDTIME, AttribType::ID, AttribType::METADATA, AttribType::N, AttribType::SPACE, AttribType::SPEAKER, AttribType::SRC],
            occurrences: 0,
            occurrences_per_set: 0,
            textdelimiter: Some("\n\n"),
            printable: true,
            speakable: true,
            hidden: false,
            xlink: false,
            textcontainer: false,
            phoncontainer: false,
            subset: None,
            auth: true,
            primaryelement: true,
            auto_generate_id: true,
            setonly: false,
            wrefable: false,
            label: "Term",
        },
        ElementType::Text => Properties {
            xmltag: "text",
            annotationtype: None,
            accepted_data: vec![AcceptedData::AcceptElementGroup(ElementGroup::Layer), AcceptedData::AcceptElementGroup(ElementGroup::Inline), AcceptedData::AcceptElementType(ElementType::Alternative), AcceptedData::AcceptElementType(ElementType::AlternativeLayers), AcceptedData::AcceptElementType(ElementType::Comment), AcceptedData::AcceptElementType(ElementType::Correction), AcceptedData::AcceptElementType(ElementType::Description), AcceptedData::AcceptElementType(ElementType::Division), AcceptedData::AcceptElementType(ElementType::Entry), AcceptedData::AcceptElementType(ElementType::Event), AcceptedData::AcceptElementType(ElementType::Example), AcceptedData::AcceptElementType(ElementType::External), AcceptedData::AcceptElementType(ElementType::Feature), AcceptedData::AcceptElementType(ElementType::Figure), AcceptedData::AcceptElementType(ElementType::ForeignData), AcceptedData::AcceptElementType(ElementType::Gap), AcceptedData::AcceptElementType(ElementType::Hiddenword), AcceptedData::AcceptElementType(ElementType::Linebreak), AcceptedData::AcceptElementType(ElementType::List), AcceptedData::AcceptElementType(ElementType::Metric), AcceptedData::AcceptElementType(ElementType::Note), AcceptedData::AcceptElementType(ElementType::Paragraph), AcceptedData::AcceptElementType(ElementType::Part), AcceptedData::AcceptElementType(ElementType::PhonContent), AcceptedData::AcceptElementType(ElementType::Quote), AcceptedData::AcceptElementType(ElementType::Reference), AcceptedData::AcceptElementType(ElementType::Relation), AcceptedData::AcceptElementType(ElementType::Sentence), AcceptedData::AcceptElementType(ElementType::String), AcceptedData::AcceptElementType(ElementType::Table), AcceptedData::AcceptElementType(ElementType::TextContent), AcceptedData::AcceptElementType(ElementType::Whitespace), AcceptedData::AcceptElementType(ElementType::Word)],
            required_data: vec![],
            required_attribs: vec![],
            optional_attribs: vec![AttribType::ANNOTATOR, AttribType::BEGINTIME, AttribType::CLASS, AttribType::CONFIDENCE, AttribType::DATETIME, AttribType::ENDTIME, AttribType::ID, AttribType::METADATA, AttribType::N, AttribType::SPACE, AttribType::SPEAKER, AttribType::SRC],
            occurrences: 0,
            occurrences_per_set: 0,
            textdelimiter: Some("\n\n\n"),
            printable: true,
            speakable: true,
            hidden: false,
            xlink: false,
            textcontainer: false,
            phoncontainer: false,
            subset: None,
            auth: true,
            primaryelement: true,
            auto_generate_id: true,
            setonly: false,
            wrefable: false,
            label: "Text Body",
        },
        ElementType::TextContent => Properties {
            xmltag: "t",
            annotationtype: Some(AnnotationType::TEXT),
            accepted_data: vec![AcceptedData::AcceptElementGroup(ElementGroup::TextMarkup), AcceptedData::AcceptElementType(ElementType::Comment), AcceptedData::AcceptElementType(ElementType::Description), AcceptedData::AcceptElementType(ElementType::Linebreak)],
            required_data: vec![],
            required_attribs: vec![],
            optional_attribs: vec![AttribType::ANNOTATOR, AttribType::CLASS, AttribType::CONFIDENCE, AttribType::DATETIME, AttribType::METADATA],
            occurrences: 0,
            occurrences_per_set: 0,
            textdelimiter: None,
            printable: true,
            speakable: false,
            hidden: false,
            xlink: true,
            textcontainer: true,
            phoncontainer: false,
            subset: None,
            auth: true,
            primaryelement: true,
            auto_generate_id: false,
            setonly: false,
            wrefable: false,
            label: "Text",
        },
        ElementType::TextMarkupCorrection => Properties {
            xmltag: "t-correction",
            annotationtype: Some(AnnotationType::CORRECTION),
            accepted_data: vec![AcceptedData::AcceptElementGroup(ElementGroup::TextMarkup), AcceptedData::AcceptElementType(ElementType::Comment), AcceptedData::AcceptElementType(ElementType::Description), AcceptedData::AcceptElementType(ElementType::Linebreak)],
            required_data: vec![],
            required_attribs: vec![],
            optional_attribs: vec![AttribType::ANNOTATOR, AttribType::BEGINTIME, AttribType::CLASS, AttribType::CONFIDENCE, AttribType::DATETIME, AttribType::ENDTIME, AttribType::ID, AttribType::METADATA, AttribType::N, AttribType::SPEAKER, AttribType::SRC],
            occurrences: 0,
            occurrences_per_set: 0,
            textdelimiter: Some(""),
            printable: true,
            speakable: false,
            hidden: false,
            xlink: true,
            textcontainer: true,
            phoncontainer: false,
            subset: None,
            auth: true,
            primaryelement: false,
            auto_generate_id: false,
            setonly: false,
            wrefable: false,
            label: "",
        },
        ElementType::TextMarkupError => Properties {
            xmltag: "t-error",
            annotationtype: Some(AnnotationType::ERRORDETECTION),
            accepted_data: vec![AcceptedData::AcceptElementGroup(ElementGroup::TextMarkup), AcceptedData::AcceptElementType(ElementType::Comment), AcceptedData::AcceptElementType(ElementType::Description), AcceptedData::AcceptElementType(ElementType::Linebreak)],
            required_data: vec![],
            required_attribs: vec![],
            optional_attribs: vec![AttribType::ANNOTATOR, AttribType::BEGINTIME, AttribType::CLASS, AttribType::CONFIDENCE, AttribType::DATETIME, AttribType::ENDTIME, AttribType::ID, AttribType::METADATA, AttribType::N, AttribType::SPEAKER, AttribType::SRC],
            occurrences: 0,
            occurrences_per_set: 0,
            textdelimiter: Some(""),
            printable: true,
            speakable: false,
            hidden: false,
            xlink: true,
            textcontainer: true,
            phoncontainer: false,
            subset: None,
            auth: true,
            primaryelement: false,
            auto_generate_id: false,
            setonly: false,
            wrefable: false,
            label: "",
        },
        ElementType::TextMarkupGap => Properties {
            xmltag: "t-gap",
            annotationtype: Some(AnnotationType::GAP),
            accepted_data: vec![AcceptedData::AcceptElementGroup(ElementGroup::TextMarkup), AcceptedData::AcceptElementType(ElementType::Comment), AcceptedData::AcceptElementType(ElementType::Description), AcceptedData::AcceptElementType(ElementType::Linebreak)],
            required_data: vec![],
            required_attribs: vec![],
            optional_attribs: vec![AttribType::ANNOTATOR, AttribType::BEGINTIME, AttribType::CLASS, AttribType::CONFIDENCE, AttribType::DATETIME, AttribType::ENDTIME, AttribType::ID, AttribType::METADATA, AttribType::N, AttribType::SPEAKER, AttribType::SRC],
            occurrences: 0,
            occurrences_per_set: 0,
            textdelimiter: Some(""),
            printable: true,
            speakable: false,
            hidden: false,
            xlink: true,
            textcontainer: true,
            phoncontainer: false,
            subset: None,
            auth: true,
            primaryelement: false,
            auto_generate_id: false,
            setonly: false,
            wrefable: false,
            label: "",
        },
        ElementType::TextMarkupReference => Properties {
            xmltag: "t-ref",
            annotationtype: Some(AnnotationType::REFERENCE),
            accepted_data: vec![AcceptedData::AcceptElementGroup(ElementGroup::TextMarkup), AcceptedData::AcceptElementType(ElementType::Comment), AcceptedData::AcceptElementType(ElementType::Description), AcceptedData::AcceptElementType(ElementType::Linebreak)],
            required_data: vec![],
            required_attribs: vec![],
            optional_attribs: vec![AttribType::ANNOTATOR, AttribType::BEGINTIME, AttribType::CLASS, AttribType::CONFIDENCE, AttribType::DATETIME, AttribType::ENDTIME, AttribType::ID, AttribType::METADATA, AttribType::N, AttribType::SPEAKER, AttribType::SRC],
            occurrences: 0,
            occurrences_per_set: 0,
            textdelimiter: Some(""),
            printable: true,
            speakable: false,
            hidden: false,
            xlink: true,
            textcontainer: true,
            phoncontainer: false,
            subset: None,
            auth: true,
            primaryelement: false,
            auto_generate_id: false,
            setonly: false,
            wrefable: false,
            label: "",
        },
        _ => {
            proof {
                assert(false);
            }
            Properties::default()
        },
    }
}

/// The properties of the element types from TextMarkupString to WordReference.
#[verifier::rlimit(50)]
fn properties_text_markup_string_to_word_reference(elementtype: ElementType) -> (p: Properties)
    requires
        100 <= type_index(elementtype) < 110,
    ensures
        p@ == element_properties(elementtype),
{
    reveal(element_properties);
    match elementtype {
        ElementType::TextMarkupString => Properties {
            xmltag: "t-str",
            annotationtype: Some(AnnotationType::STRING),
            accepted_data: vec![AcceptedData::AcceptElementGroup(ElementGroup::TextMarkup), AcceptedData::AcceptElementType(ElementType::Comment), AcceptedData::AcceptElementType(ElementType::Description), AcceptedData::AcceptElementType(ElementType::Linebreak)],
            required_data: vec![],
            required_attribs: vec![],
            optional_attribs: vec![AttribType::ANNOTATOR, AttribType::BEGINTIME, AttribType::CLASS, AttribType::CONFIDENCE, AttribType::DATETIME, AttribType::ENDTIME, AttribType::ID, AttribType::METADATA, AttribType::N, AttribType::SPEAKER, AttribType::SRC],
            occurrences: 0,
            occurrences_per_set: 0,
            textdelimiter: Some(""),
            printable: true,
            speakable: false,
            hidden: false,
            xlink: true,
            textcontainer: true,
            phoncontainer: false,
            subset: None,
            auth: true,
            primaryelement: false,
            auto_generate_id: false,
            setonly: false,
            wrefable: false,
            label: "",
        },
        ElementType::TextMarkupStyle => Properties {
            xmltag: "t-style",
            annotationtype: Some(AnnotationType::STYLE),
            accepted_data: vec![AcceptedData::AcceptElementGroup(ElementGroup::TextMarkup), AcceptedData::AcceptElementType(ElementType::Comment), AcceptedData::AcceptElementType(ElementType::Description), AcceptedData::AcceptElementType(ElementType::Linebreak)],
            required_data: vec![],
            required_attribs: vec![],
            optional_attribs: vec![AttribType::ANNOTATOR, AttribType::BEGINTIME, AttribType::CLASS, AttribType::CONFIDENCE, AttribType::DATETIME, AttribType::ENDTIME, AttribType::ID, AttribType::METADATA, AttribType::N, AttribType::SPEAKER, AttribType::SRC],
            occurrences: 0,
            occurrences_per_set: 0,
            textdelimiter: Some(""),
            printable: true,
            speakable: false,
            hidden: false,
            xlink: true,
            textcontainer: true,
            phoncontainer: false,
            subset: None,
            auth: true,
            primaryelement: true,
            auto_generate_id: false,
            setonly: false,
            wrefable: false,
            label: "",
        },
        ElementType::TimeFeature => Properties {
            xmltag: "",
            annotationtype: None,
            accepted_data: vec![AcceptedData::AcceptElementType(ElementType::Comment), AcceptedData::AcceptElementType(ElementType::Description)],
            required_data: vec![],
            required_attribs: vec![],
            optional_attribs: vec![],
            occurrences: 0,
            occurrences_per_set: 0,
            textdelimiter: None,
            printable: false,
            speakable: false,
            hidden: false,
            xlink: false,
            textcontainer: false,
            phoncontainer: false,
            subset: Some("time"),
            auth: true,
            primaryelement: true,
            auto_generate_id: false,
            setonly: false,
            wrefable: false,
            label: "Feature",
        },
        ElementType::TimeSegment => Properties {
            xmltag: "timesegment",
            annotationtype: Some(AnnotationType::TIMESEGMENT),
            accepted_data: vec![AcceptedData::AcceptElementGroup(ElementGroup::Inline), AcceptedData::AcceptElementType(ElementType::ActorFeature), AcceptedData::AcceptElementType(ElementType::BegindatetimeFeature), AcceptedData::AcceptElementType(ElementType::Comment), AcceptedData::AcceptElementType(ElementType::Description), AcceptedData::AcceptElementType(ElementType::EnddatetimeFeature), AcceptedData::AcceptElementType(ElementType::Feature), AcceptedData::AcceptElementType(ElementType::ForeignData), AcceptedData::AcceptElementType(ElementType::LinkReference), AcceptedData::AcceptElementType(ElementType::Metric), AcceptedData::AcceptElementType(ElementType::Relation), AcceptedData::AcceptElementType(ElementType::WordReference)],
            required_data: vec![],
            required_attribs: vec![],
            optional_attribs: vec![AttribType::ANNOTATOR, AttribType::BEGINTIME, AttribType::CLASS, AttribType::CONFIDENCE, AttribType::DATETIME, AttribType::ENDTIME, AttribType::ID, AttribType::METADATA, AttribType::N, AttribType::SPEAKER, AttribType::SRC, AttribType::TEXTCLASS],
            occurrences: 0,
            occurrences_per_set: 0,
            textdelimiter: None,
            printable: true,
            speakable: true,
            hidden: false,
            xlink: false,
            textcontainer: false,
            phoncontainer: false,
            subset: None,
            auth: true,
            primaryelement: true,
            auto_generate_id: false,
            setonly: false,
            wrefable: false,
            label: "Time Segment",
        },
        ElementType::TimingLayer => Properties {
            xmltag: "timing",
            annotationtype: Some(AnnotationType::TIMESEGMENT),
            accepted_data: vec![AcceptedData::AcceptElementType(ElementType::Comment), AcceptedData::AcceptElementType(ElementType::Correction), AcceptedData::AcceptElementType(ElementType::Description), AcceptedData::AcceptElementType(ElementType::ForeignData), AcceptedData::AcceptElementType(ElementType::TimeSegment)],
            required_data: vec![],
            required_attribs: vec![],
            optional_attribs: vec![AttribType::ID],
            occurrences: 0,
            occurrences_per_set: 0,
            textdelimiter: None,
            printable: false,
            speakable: false,
            hidden: false,
            xlink: false,
            textcontainer: false,
            phoncontainer: false,
            subset: None,
            auth: true,
            primaryelement: false,
            auto_generate_id: false,
            setonly: true,
            wrefable: false,
            label: "",
        },
        ElementType::Utterance => Properties {
            xmltag: "utt",
            annotationtype: Some(AnnotationType::UTTERANCE),
            accepted_data: vec![AcceptedData::AcceptElementGroup(ElementGroup::Layer), AcceptedData::AcceptElementGroup(ElementGroup::Inline), AcceptedData::AcceptElementType(ElementType::Alternative), AcceptedData::AcceptElementType(ElementType::AlternativeLayers), AcceptedData::AcceptElementType(ElementType::Comment), AcceptedData::AcceptElementType(ElementType::Correction), AcceptedData::AcceptElementType(ElementType::Description), AcceptedData::AcceptElementType(ElementType::Feature), AcceptedData::AcceptElementType(ElementType::ForeignData), AcceptedData::AcceptElementType(ElementType::Gap), AcceptedData::AcceptElementType(ElementType::Hiddenword), AcceptedData::AcceptElementType(ElementType::Metric), AcceptedData::AcceptElementType(ElementType::Note), AcceptedData::AcceptElementType(ElementType::Part), AcceptedData::AcceptElementType(ElementType::PhonContent), AcceptedData::AcceptElementType(ElementType::Quote), AcceptedData::AcceptElementType(ElementType::Reference), AcceptedData::AcceptElementType(ElementType::Relation), AcceptedData::AcceptElementType(ElementType::Sentence), AcceptedData::AcceptElementType(ElementType::String), AcceptedData::AcceptElementType(ElementType::TextContent), AcceptedData::AcceptElementType(ElementType::Word)],
            required_data: vec![],
            required_attribs: vec![],
            optional_attribs: vec![AttribType::ANNOTATOR, AttribType::BEGINTIME, AttribType::CLASS, AttribType::CONFIDENCE, AttribType::DATETIME, AttribType::ENDTIME, AttribType::ID, AttribType::METADATA, AttribType::N, AttribType::SPACE, AttribType::SPEAKER, AttribType::SRC],
            occurrences: 0,
            occurrences_per_set: 0,
            textdelimiter: Some(" "),
            printable: true,
            speakable: true,
            hidden: false,
            xlink: false,
            textcontainer: false,
            phoncontainer: false,
            subset: None,
            auth: true,
            primaryelement: true,
            auto_generate_id: true,
            setonly: false,
            wrefable: false,
            label: "Utterance",
        },
        ElementType::ValueFeature => Properties {
            xmltag: "",
            annotationtype: None,
            accepted_data: vec![AcceptedData::AcceptElementType(ElementType::Comment), AcceptedData::AcceptElementType(ElementType::Description)],
            required_data: vec![],
            required_attribs: vec![],
            optional_attribs: vec![],
            occurrences: 0,
            occurrences_per_set: 0,
            textdelimiter: None,
            printable: false,
            speakable: false,
            hidden: false,
            xlink: false,
            textcontainer: false,
            phoncontainer: false,
            subset: Some("value"),
            auth: true,
            primaryelement: true,
            auto_generate_id: false,
            setonly: false,
            wrefable: false,
            label: "Feature",
        },
        ElementType::Whitespace => Properties {
            xmltag: "whitespace",
            annotationtype: Some(AnnotationType::WHITESPACE),
            accepted_data: vec![AcceptedData::AcceptElementGroup(ElementGroup::Layer), AcceptedData::AcceptElementType(ElementType::Alternative), AcceptedData::AcceptElementType(ElementType::AlternativeLayers), AcceptedData::AcceptElementType(ElementType::Comment), AcceptedData::AcceptElementType(ElementType::Correction), AcceptedData::AcceptElementType(ElementType::Description), AcceptedData::AcceptElementType(ElementType::Feature), AcceptedData::AcceptElementType(ElementType::ForeignData), AcceptedData::AcceptElementType(ElementType::Metric), AcceptedData::AcceptElementType(ElementType::Part), AcceptedData::AcceptElementType(ElementType::Relation)],
            required_data: vec![],
            required_attribs: vec![],
            optional_attribs: vec![AttribType::ANNOTATOR, AttribType::BEGINTIME, AttribType::CLASS, AttribType::CONFIDENCE, AttribType::DATETIME, AttribType::ENDTIME, AttribType::ID, AttribType::METADATA, AttribType::N, AttribType::SPACE, AttribType::SPEAKER, AttribType::SRC],
            occurrences: 0,
            occurrences_per_set: 0,
            textdelimiter: Some(""),
            printable: true,
            speakable: true,
            hidden: false,
            xlink: false,
            textcontainer: false,
            phoncontainer: false,
            subset: None,
            auth: true,
            primaryelement: true,
            auto_generate_id: true,
            setonly: false,
            wrefable: false,
            label: "Whitespace",
        },
        ElementType::Word => Properties {
            xmltag: "w",
            annotationtype: Some(AnnotationType::TOKEN),
            accepted_data: vec![AcceptedData::AcceptElementGroup(ElementGroup::Layer), AcceptedData::AcceptElementGroup(ElementGroup::Inline), AcceptedData::AcceptElementType(ElementType::Alternative), AcceptedData::AcceptElementType(ElementType::AlternativeLayers), AcceptedData::AcceptElementType(ElementType::Comment), AcceptedData::AcceptElementType(ElementType::Correction), AcceptedData::AcceptElementType(ElementType::Description), AcceptedData::AcceptElementType(ElementType::Feature), AcceptedData::AcceptElementType(ElementType::ForeignData), AcceptedData::AcceptElementType(ElementType::Metric), AcceptedData::AcceptElementType(ElementType::Part), AcceptedData::AcceptElementType(ElementType::PhonContent), AcceptedData::AcceptElementType(ElementType::Reference), AcceptedData::AcceptElementType(ElementType::Relation), AcceptedData::AcceptElementType(ElementType::String), AcceptedData::AcceptElementType(ElementType::TextContent)],
            required_data: vec![],
            required_attribs: vec![],
            optional_attribs: vec![AttribType::ANNOTATOR, AttribType::BEGINTIME, AttribType::CLASS, AttribType::CONFIDENCE, AttribType::DATETIME, AttribType::ENDTIME, AttribType::ID, AttribType::METADATA, AttribType::N, AttribType::SPACE, AttribType::SPEAKER, AttribType::SRC, AttribType::TEXTCLASS],
            occurrences: 0,
            occurrences_per_set: 0,
            textdelimiter: Some(" "),
            printable: true,
            speakable: true,
            hidden: false,
            xlink: false,
            textcontainer: false,
            phoncontainer: false,
            subset: None,
            auth: true,
            primaryelement: true,
            auto_generate_id: true,
            setonly: false,
            wrefable: true,
            label: "Word/Token",
        },
        ElementType::WordReference => Properties {
            xmltag: "wref",
            annotationtype: None,
            accepted_data: vec![AcceptedData::AcceptElementType(ElementType::Comment), AcceptedData::AcceptElementType(ElementType::Description)],
            required_data: vec![],
            required_attribs: vec![],
            optional_attribs: vec![AttribType::IDREF],
            occurrences: 0,
            occurrences_per_set: 0,
            textdelimiter: None,
            printable: false,
            speakable: false,
            hidden: false,
            xlink: false,
            textcontainer: false,
            phoncontainer: false,
            subset: None,
            auth: true,
            primaryelement: true,
            auto_generate_id: false,
            setonly: false,
            wrefable: false,
            label: "",
        },
        _ => {
            proof {
                assert(false);
            }
            Properties::default()
        },
    }
}

/// The position of each element type in [`all_elementtypes`].
pub open spec fn type_index(t: ElementType) -> nat {
    match t {
        ElementType::ActorFeature => 0,
        ElementType::Alternative => 1,
        ElementType::AlternativeLayers => 2,
        ElementType::BegindatetimeFeature => 3,
        ElementType::Caption => 4,
        ElementType::Cell => 5,
        ElementType::Chunk => 6,
        ElementType::ChunkingLayer => 7,
        ElementType::Comment => 8,
        ElementType::Content => 9,
        ElementType::CoreferenceChain => 10,
        ElementType::CoreferenceLayer => 11,
        ElementType::CoreferenceLink => 12,
        ElementType::Correction => 13,
        ElementType::Current => 14,
        ElementType::Definition => 15,
        ElementType::DependenciesLayer => 16,
        ElementType::Dependency => 17,
        ElementType::DependencyDependent => 18,
        ElementType::Description => 19,
        ElementType::Division => 20,
        ElementType::DomainAnnotation => 21,
        ElementType::EnddatetimeFeature => 22,
        ElementType::EntitiesLayer => 23,
        ElementType::Entity => 24,
        ElementType::Entry => 25,
        ElementType::ErrorDetection => 26,
        ElementType::Event => 27,
        ElementType::Example => 28,
        ElementType::External => 29,
        ElementType::Feature => 30,
        ElementType::Figure => 31,
        ElementType::ForeignData => 32,
        ElementType::FunctionFeature => 33,
        ElementType::Gap => 34,
        ElementType::Head => 35,
        ElementType::HeadFeature => 36,
        ElementType::Headspan => 37,
        ElementType::Hiddenword => 38,
        ElementType::Hyphbreak => 39,
        ElementType::Label => 40,
        ElementType::LangAnnotation => 41,
        ElementType::LemmaAnnotation => 42,
        ElementType::LevelFeature => 43,
        ElementType::Linebreak => 44,
        ElementType::LinkReference => 45,
        ElementType::List => 46,
        ElementType::ListItem => 47,
        ElementType::Metric => 48,
        ElementType::ModalityFeature => 49,
        ElementType::Morpheme => 50,
        ElementType::MorphologyLayer => 51,
        ElementType::New => 52,
        ElementType::Note => 53,
        ElementType::Observation => 54,
        ElementType::ObservationLayer => 55,
        ElementType::Original => 56,
        ElementType::Paragraph => 57,
        ElementType::Part => 58,
        ElementType::PhonContent => 59,
        ElementType::Phoneme => 60,
        ElementType::PhonologyLayer => 61,
        ElementType::PolarityFeature => 62,
        ElementType::PosAnnotation => 63,
        ElementType::Predicate => 64,
        ElementType::Quote => 65,
        ElementType::Reference => 66,
        ElementType::Relation => 67,
        ElementType::Row => 68,
        ElementType::SemanticRole => 69,
        ElementType::SemanticRolesLayer => 70,
        ElementType::SenseAnnotation => 71,
        ElementType::Sentence => 72,
        ElementType::Sentiment => 73,
        ElementType::SentimentLayer => 74,
        ElementType::Source => 75,
        ElementType::SpanRelation => 76,
        ElementType::SpanRelationLayer => 77,
        ElementType::Speech => 78,
        ElementType::Statement => 79,
        ElementType::StatementLayer => 80,
        ElementType::StatementRelation => 81,
        ElementType::StrengthFeature => 82,
        ElementType::String => 83,
        ElementType::StyleFeature => 84,
        ElementType::SubjectivityAnnotation => 85,
        ElementType::Suggestion => 86,
        ElementType::SynsetFeature => 87,
        ElementType::SyntacticUnit => 88,
        ElementType::SyntaxLayer => 89,
        ElementType::Table => 90,
        ElementType::TableHead => 91,
        ElementType::Target => 92,
        ElementType::Term => 93,
        ElementType::Text => 94,
        ElementType::TextContent => 95,
        ElementType::TextMarkupCorrection => 96,
        ElementType::TextMarkupError => 97,
        ElementType::TextMarkupGap => 98,
        ElementType::TextMarkupReference => 99,
        ElementType::TextMarkupString => 100,
        ElementType::TextMarkupStyle => 101,
        ElementType::TimeFeature => 102,
        ElementType::TimeSegment => 103,
        ElementType::TimingLayer => 104,
        ElementType::Utterance => 105,
        ElementType::ValueFeature => 106,
        ElementType::Whitespace => 107,
        ElementType::Word => 108,
        ElementType::WordReference => 109,
    }
}

/// Every element type, in the order of their declaration.
pub open spec fn all_types() -> Seq<ElementType> {
    seq![ElementType::ActorFeature, ElementType::Alternative, ElementType::AlternativeLayers, ElementType::BegindatetimeFeature, ElementType::Caption, ElementType::Cell, ElementType::Chunk, ElementType::ChunkingLayer, ElementType::Comment, ElementType::Content, ElementType::CoreferenceChain, ElementType::CoreferenceLayer, ElementType::CoreferenceLink, ElementType::Correction, ElementType::Current, ElementType::Definition, ElementType::DependenciesLayer, ElementType::Dependency, ElementType::DependencyDependent, ElementType::Description, ElementType::Division, ElementType::DomainAnnotation, ElementType::EnddatetimeFeature, ElementType::EntitiesLayer, ElementType::Entity, ElementType::Entry, ElementType::ErrorDetection, ElementType::Event, ElementType::Example, ElementType::External, ElementType::Feature, ElementType::Figure, ElementType::ForeignData, ElementType::FunctionFeature, ElementType::Gap, ElementType::Head, ElementType::HeadFeature, ElementType::Headspan, ElementType::Hiddenword, ElementType::Hyphbreak, ElementType::Label, ElementType::LangAnnotation, ElementType::LemmaAnnotation, ElementType::LevelFeature, ElementType::Linebreak, ElementType::LinkReference, ElementType::List, ElementType::ListItem, ElementType::Metric, ElementType::ModalityFeature, ElementType::Morpheme, ElementType::MorphologyLayer, ElementType::New, ElementType::Note, ElementType::Observation, ElementType::ObservationLayer, ElementType::Original, ElementType::Paragraph, ElementType::Part, ElementType::PhonContent, ElementType::Phoneme, ElementType::PhonologyLayer, ElementType::PolarityFeature, ElementType::PosAnnotation, ElementType::Predicate, ElementType::Quote, ElementType::Reference, ElementType::Relation, ElementType::Row, ElementType::SemanticRole, ElementType::SemanticRolesLayer, ElementType::SenseAnnotation, ElementType::Sentence, ElementType::Sentiment, ElementType::SentimentLayer, ElementType::Source, ElementType::SpanRelation, ElementType::SpanRelationLayer, ElementType::Speech, ElementType::Statement, ElementType::StatementLayer, ElementType::StatementRelation, ElementType::StrengthFeature, ElementType::String, ElementType::StyleFeature, ElementType::SubjectivityAnnotation, ElementType::Suggestion, ElementType::SynsetFeature, ElementType::SyntacticUnit, ElementType::SyntaxLayer, ElementType::Table, ElementType::TableHead, ElementType::Target, ElementType::Term, ElementType::Text, ElementType::TextContent, ElementType::TextMarkupCorrection, ElementType::TextMarkupError, ElementType::TextMarkupGap, ElementType::TextMarkupReference, ElementType::TextMarkupString, ElementType::TextMarkupStyle, ElementType::TimeFeature, ElementType::TimeSegment, ElementType::TimingLayer, ElementType::Utterance, ElementType::ValueFeature, ElementType::Whitespace, ElementType::Word, ElementType::WordReference]
}

/// The number of element types.
pub const NUM_ELEMENTTYPES: usize = 110;

/// The position of an element type among all element types.
pub fn elementtype_index(t: ElementType) -> (i: usize)
    ensures
        i == type_index(t),
        i < NUM_ELEMENTTYPES,
{
    match t {
        ElementType::ActorFeature => 0,
        ElementType::Alternative => 1,
        ElementType::AlternativeLayers => 2,
        ElementType::BegindatetimeFeature => 3,
        ElementType::Caption => 4,
        ElementType::Cell => 5,
        ElementType::Chunk => 6,
        ElementType::ChunkingLayer => 7,
        ElementType::Comment => 8,
        ElementType::Content => 9,
        ElementType::CoreferenceChain => 10,
        ElementType::CoreferenceLayer => 11,
        ElementType::CoreferenceLink => 12,
        ElementType::Correction => 13,
        ElementType::Current => 14,
        ElementType::Definition => 15,
        ElementType::DependenciesLayer => 16,
        ElementType::Dependency => 17,
        ElementType::DependencyDependent => 18,
        ElementType::Description => 19,
        ElementType::Division => 20,
        ElementType::DomainAnnotation => 21,
        ElementType::EnddatetimeFeature => 22,
        ElementType::EntitiesLayer => 23,
        ElementType::Entity => 24,
        ElementType::Entry => 25,
        ElementType::ErrorDetection => 26,
        ElementType::Event => 27,
        ElementType::Example => 28,
        ElementType::External => 29,
        ElementType::Feature => 30,
        ElementType::Figure => 31,
        ElementType::ForeignData => 32,
        ElementType::FunctionFeature => 33,
        ElementType::Gap => 34,
        ElementType::Head => 35,
        ElementType::HeadFeature => 36,
        ElementType::Headspan => 37,
        ElementType::Hiddenword => 38,
        ElementType::Hyphbreak => 39,
        ElementType::Label => 40,
        ElementType::LangAnnotation => 41,
        ElementType::LemmaAnnotation => 42,
        ElementType::LevelFeature => 43,
        ElementType::Linebreak => 44,
        ElementType::LinkReference => 45,
        ElementType::List => 46,
        ElementType::ListItem => 47,
        ElementType::Metric => 48,
        ElementType::ModalityFeature => 49,
        ElementType::Morpheme => 50,
        ElementType::MorphologyLayer => 51,
        ElementType::New => 52,
        ElementType::Note => 53,
        ElementType::Observation => 54,
        ElementType::ObservationLayer => 55,
        ElementType::Original => 56,
        ElementType::Paragraph => 57,
        ElementType::Part => 58,
        ElementType::PhonContent => 59,
        ElementType::Phoneme => 60,
        ElementType::PhonologyLayer => 61,
        ElementType::PolarityFeature => 62,
        ElementType::PosAnnotation => 63,
        ElementType::Predicate => 64,
        ElementType::Quote => 65,
        ElementType::Reference => 66,
        ElementType::Relation => 67,
        ElementType::Row => 68,
        ElementType::SemanticRole => 69,
        ElementType::SemanticRolesLayer => 70,
        ElementType::SenseAnnotation => 71,
        ElementType::Sentence => 72,
        ElementType::Sentiment => 73,
        ElementType::SentimentLayer => 74,
        ElementType::Source => 75,
        ElementType::SpanRelation => 76,
        ElementType::SpanRelationLayer => 77,
        ElementType::Speech => 78,
        ElementType::Statement => 79,
        ElementType::StatementLayer => 80,
        ElementType::StatementRelation => 81,
        ElementType::StrengthFeature => 82,
        ElementType::String => 83,
        ElementType::StyleFeature => 84,
        ElementType::SubjectivityAnnotation => 85,
        ElementType::Suggestion => 86,
        ElementType::SynsetFeature => 87,
        ElementType::SyntacticUnit => 88,
        ElementType::SyntaxLayer => 89,
        ElementType::Table => 90,
        ElementType::TableHead => 91,
        ElementType::Target => 92,
        ElementType::Term => 93,
        ElementType::Text => 94,
        ElementType::TextContent => 95,
        ElementType::TextMarkupCorrection => 96,
        ElementType::TextMarkupError => 97,
        ElementType::TextMarkupGap => 98,
        ElementType::TextMarkupReference => 99,
        ElementType::TextMarkupString => 100,
        ElementType::TextMarkupStyle => 101,
        ElementType::TimeFeature => 102,
        ElementType::TimeSegment => 103,
        ElementType::TimingLayer => 104,
        ElementType::Utterance => 105,
        ElementType::ValueFeature => 106,
        ElementType::Whitespace => 107,
        ElementType::Word => 108,
        ElementType::WordReference => 109,
    }
}

/// Every element type, in the order of their declaration.
pub fn all_elementtypes() -> (v: Vec<ElementType>)
    ensures
        v@ == all_types(),
        v@.len() == NUM_ELEMENTTYPES,
{
    vec![ElementType::ActorFeature, ElementType::Alternative, ElementType::AlternativeLayers, ElementType::BegindatetimeFeature, ElementType::Caption, ElementType::Cell, ElementType::Chunk, ElementType::ChunkingLayer, ElementType::Comment, ElementType::Content, ElementType::CoreferenceChain, ElementType::CoreferenceLayer, ElementType::CoreferenceLink, ElementType::Correction, ElementType::Current, ElementType::Definition, ElementType::DependenciesLayer, ElementType::Dependency, ElementType::DependencyDependent, ElementType::Description, ElementType::Division, ElementType::DomainAnnotation, ElementType::EnddatetimeFeature, ElementType::EntitiesLayer, ElementType::Entity, ElementType::Entry, ElementType::ErrorDetection, ElementType::Event, ElementType::Example, ElementType::External, ElementType::Feature, ElementType::Figure, ElementType::ForeignData, ElementType::FunctionFeature, ElementType::Gap, ElementType::Head, ElementType::HeadFeature, ElementType::Headspan, ElementType::Hiddenword, ElementType::Hyphbreak, ElementType::Label, ElementType::LangAnnotation, ElementType::LemmaAnnotation, ElementType::LevelFeature, ElementType::Linebreak, ElementType::LinkReference, ElementType::List, ElementType::ListItem, ElementType::Metric, ElementType::ModalityFeature, ElementType::Morpheme, ElementType::MorphologyLayer, ElementType::New, ElementType::Note, ElementType::Observation, ElementType::ObservationLayer, ElementType::Original, ElementType::Paragraph, ElementType::Part, ElementType::PhonContent, ElementType::Phoneme, ElementType::PhonologyLayer, ElementType::PolarityFeature, ElementType::PosAnnotation, ElementType::Predicate, ElementType::Quote, ElementType::Reference, ElementType::Relation, ElementType::Row, ElementType::SemanticRole, ElementType::SemanticRolesLayer, ElementType::SenseAnnotation, ElementType::Sentence, ElementType::Sentiment, ElementType::SentimentLayer, ElementType::Source, ElementType::SpanRelation, ElementType::SpanRelationLayer, ElementType::Speech, ElementType::Statement, ElementType::StatementLayer, ElementType::StatementRelation, ElementType::StrengthFeature, ElementType::String, ElementType::StyleFeature, ElementType::SubjectivityAnnotation, ElementType::Suggestion, ElementType::SynsetFeature, ElementType::SyntacticUnit, ElementType::SyntaxLayer, ElementType::Table, ElementType::TableHead, ElementType::Target, ElementType::Term, ElementType::Text, ElementType::TextContent, ElementType::TextMarkupCorrection, ElementType::TextMarkupError, ElementType::TextMarkupGap, ElementType::TextMarkupReference, ElementType::TextMarkupString, ElementType::TextMarkupStyle, ElementType::TimeFeature, ElementType::TimeSegment, ElementType::TimingLayer, ElementType::Utterance, ElementType::ValueFeature, ElementType::Whitespace, ElementType::Word, ElementType::WordReference]
}

/// Each element type stands at its own position in the list of all element types.
pub proof fn lemma_type_index(t: ElementType)
    ensures
        type_index(t) < all_types().len(),
        all_types()[type_index(t) as int] == t,
{
}

/// The FoLiA specification: the properties of every element type.
pub struct Specification {
    properties: Vec<Properties>,
}

impl Specification {
    /// Every element type has its properties at its own position.
    pub closed spec fn wf(&self) -> bool {
        &&& self.properties@.len() == NUM_ELEMENTTYPES
        &&& forall|i: int| 0 <= i < NUM_ELEMENTTYPES ==>
            #[trigger] self.properties@[i]@ == element_properties(all_types()[i])
    }

    /// Get the properties of an element type.
    pub fn get(&self, elementtype: ElementType) -> (p: &Properties)
        requires
            self.wf(),
        ensures
            p@ == element_properties(elementtype),
    {
        proof {
            lemma_type_index(elementtype);
        }
        let i = elementtype_index(elementtype);
        &self.properties[i]
    }
}

impl Default for Specification {
    fn default() -> (s: Self)
        ensures
            s.wf(),
    {
        let types = all_elementtypes();
        let mut properties: Vec<Properties> = Vec::new();
        let mut i: usize = 0;
        while i < types.len()
            invariant
                types@ == all_types(),
                types@.len() == NUM_ELEMENTTYPES,
                i <= types.len(),
                properties@.len() == i,
                forall|j: int| 0 <= j < i ==> #[trigger] properties@[j]@ == element_properties(all_types()[j]),
            decreases types.len() - i,
        {
            properties.push(Properties::new(types[i]));
            i += 1;
        }
        Specification { properties }
    }
}

} // verus!
