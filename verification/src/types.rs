//! The element types, element groups and annotation types of FoLiA, and the
//! tables that relate them to each other and to their XML names.

use vstd::prelude::*;
use crate::element::ElementData;
use crate::error::FoliaError;
use crate::util::{str_eq, concat_str};

verus! {

/// Internal key of an element in a document's element store.
pub type ElementKey = u32;
/// Internal key of a processor in a document's provenance store.
pub type ProcKey = u16;
/// Internal key of a declaration (annotation type plus set).
pub type DecKey = u16;
/// Internal key of a class within a declaration.
pub type ClassKey = u32;
/// Internal key of a subset within a declaration.
pub type SubsetKey = u16;
/// A class name.
pub type Class = String;

/// Every kind of FoLiA element.
#[derive(Copy, Clone, PartialEq, Eq, Structural, Debug)]
pub enum ElementType {
    ActorFeature,
    Alternative,
    AlternativeLayers,
    BegindatetimeFeature,
    Caption,
    Cell,
    Chunk,
    ChunkingLayer,
    Comment,
    Content,
    CoreferenceChain,
    CoreferenceLayer,
    CoreferenceLink,
    Correction,
    Current,
    Definition,
    DependenciesLayer,
    Dependency,
    DependencyDependent,
    Description,
    Division,
    DomainAnnotation,
    EnddatetimeFeature,
    EntitiesLayer,
    Entity,
    Entry,
    ErrorDetection,
    Event,
    Example,
    External,
    Feature,
    Figure,
    ForeignData,
    FunctionFeature,
    Gap,
    Head,
    HeadFeature,
    Headspan,
    Hiddenword,
    Hyphbreak,
    Label,
    LangAnnotation,
    LemmaAnnotation,
    LevelFeature,
    Linebreak,
    LinkReference,
    List,
    ListItem,
    Metric,
    ModalityFeature,
    Morpheme,
    MorphologyLayer,
    New,
    Note,
    Observation,
    ObservationLayer,
    Original,
    Paragraph,
    Part,
    PhonContent,
    Phoneme,
    PhonologyLayer,
    PolarityFeature,
    PosAnnotation,
    Predicate,
    Quote,
    Reference,
    Relation,
    Row,
    SemanticRole,
    SemanticRolesLayer,
    SenseAnnotation,
    Sentence,
    Sentiment,
    SentimentLayer,
    Source,
    SpanRelation,
    SpanRelationLayer,
    Speech,
    Statement,
    StatementLayer,
    StatementRelation,
    StrengthFeature,
    String,
    StyleFeature,
    SubjectivityAnnotation,
    Suggestion,
    SynsetFeature,
    SyntacticUnit,
    SyntaxLayer,
    Table,
    TableHead,
    Target,
    Term,
    Text,
    TextContent,
    TextMarkupCorrection,
    TextMarkupError,
    TextMarkupGap,
    TextMarkupReference,
    TextMarkupString,
    TextMarkupStyle,
    TimeFeature,
    TimeSegment,
    TimingLayer,
    Utterance,
    ValueFeature,
    Whitespace,
    Word,
    WordReference,
}

/// Groups of element types that share behaviour.
#[derive(Copy, Clone, PartialEq, Eq, Structural, Debug)]
pub enum ElementGroup {
    Structure,
    Inline,
    Span,
    SpanRole,
    TextMarkup,
    Subtoken,
    HigherOrder,
    Layer,
    Feature,
}

/// Every kind of FoLiA annotation.
#[derive(Copy, Clone, PartialEq, Eq, Structural, Debug, Hash)]
pub enum AnnotationType {
    TEXT,
    TOKEN,
    DIVISION,
    PARAGRAPH,
    HEAD,
    LIST,
    FIGURE,
    WHITESPACE,
    LINEBREAK,
    SENTENCE,
    POS,
    LEMMA,
    DOMAIN,
    SENSE,
    SYNTAX,
    CHUNKING,
    ENTITY,
    CORRECTION,
    ERRORDETECTION,
    PHON,
    SUBJECTIVITY,
    MORPHOLOGICAL,
    EVENT,
    DEPENDENCY,
    TIMESEGMENT,
    GAP,
    QUOTE,
    NOTE,
    REFERENCE,
    RELATION,
    SPANRELATION,
    COREFERENCE,
    SEMROLE,
    METRIC,
    LANG,
    STRING,
    TABLE,
    STYLE,
    PART,
    UTTERANCE,
    ENTRY,
    TERM,
    DEFINITION,
    EXAMPLE,
    PHONOLOGICAL,
    PREDICATE,
    OBSERVATION,
    SENTIMENT,
    STATEMENT,
    ALTERNATIVE,
    RAWCONTENT,
    COMMENT,
    DESCRIPTION,
    HYPHENATION,
    HIDDENTOKEN,
}

impl ElementGroup {
    /// Membership of an element type in this group.
    pub open spec fn has(self, t: ElementType) -> bool {
        match self {
            ElementGroup::Structure => t == ElementType::Word || t == ElementType::Paragraph || t == ElementType::Sentence || t == ElementType::Text,
            ElementGroup::Inline => t == ElementType::DomainAnnotation || t == ElementType::ErrorDetection || t == ElementType::LangAnnotation || t == ElementType::LemmaAnnotation || t == ElementType::PosAnnotation || t == ElementType::SenseAnnotation || t == ElementType::SubjectivityAnnotation,
            ElementGroup::Span => t == ElementType::Chunk || t == ElementType::CoreferenceChain || t == ElementType::Dependency || t == ElementType::Entity || t == ElementType::Observation || t == ElementType::Predicate || t == ElementType::SemanticRole || t == ElementType::Sentiment || t == ElementType::SpanRelation || t == ElementType::Statement || t == ElementType::SyntacticUnit || t == ElementType::TimeSegment,
            ElementGroup::SpanRole => t == ElementType::CoreferenceLink || t == ElementType::DependencyDependent || t == ElementType::Headspan || t == ElementType::Source || t == ElementType::StatementRelation || t == ElementType::Target,
            ElementGroup::TextMarkup => t == ElementType::Hyphbreak || t == ElementType::TextMarkupCorrection || t == ElementType::TextMarkupError || t == ElementType::TextMarkupGap || t == ElementType::TextMarkupReference || t == ElementType::TextMarkupString || t == ElementType::TextMarkupStyle,
            ElementGroup::Subtoken => t == ElementType::Morpheme || t == ElementType::Phoneme,
            ElementGroup::HigherOrder => t == ElementType::Alternative || t == ElementType::AlternativeLayers || t == ElementType::Comment || t == ElementType::Correction || t == ElementType::Description || t == ElementType::External || t == ElementType::Feature || t == ElementType::ForeignData || t == ElementType::LinkReference || t == ElementType::Metric || t == ElementType::Relation || t == ElementType::String,
            ElementGroup::Layer => t == ElementType::ChunkingLayer || t == ElementType::CoreferenceLayer || t == ElementType::DependenciesLayer || t == ElementType::EntitiesLayer || t == ElementType::MorphologyLayer || t == ElementType::ObservationLayer || t == ElementType::PhonologyLayer || t == ElementType::SemanticRolesLayer || t == ElementType::SentimentLayer || t == ElementType::SpanRelationLayer || t == ElementType::StatementLayer || t == ElementType::SyntaxLayer || t == ElementType::TimingLayer,
            ElementGroup::Feature => t == ElementType::ActorFeature || t == ElementType::BegindatetimeFeature || t == ElementType::EnddatetimeFeature || t == ElementType::FunctionFeature || t == ElementType::HeadFeature || t == ElementType::LevelFeature || t == ElementType::ModalityFeature || t == ElementType::PolarityFeature || t == ElementType::StrengthFeature || t == ElementType::StyleFeature || t == ElementType::SynsetFeature || t == ElementType::TimeFeature || t == ElementType::ValueFeature,
        }
    }

    /// The members of this group, in the order the specification lists them.
    pub open spec fn members(self) -> Seq<ElementType> {
        match self {
            ElementGroup::Structure => seq![ElementType::Word, ElementType::Paragraph, ElementType::Sentence, ElementType::Text],
            ElementGroup::Inline => seq![ElementType::DomainAnnotation, ElementType::ErrorDetection, ElementType::LangAnnotation, ElementType::LemmaAnnotation, ElementType::PosAnnotation, ElementType::SenseAnnotation, ElementType::SubjectivityAnnotation],
            ElementGroup::Span => seq![ElementType::Chunk, ElementType::CoreferenceChain, ElementType::Dependency, ElementType::Entity, ElementType::Observation, ElementType::Predicate, ElementType::SemanticRole, ElementType::Sentiment, ElementType::SpanRelation, ElementType::Statement, ElementType::SyntacticUnit, ElementType::TimeSegment],
            ElementGroup::SpanRole => seq![ElementType::CoreferenceLink, ElementType::DependencyDependent, ElementType::Headspan, ElementType::Source, ElementType::StatementRelation, ElementType::Target],
            ElementGroup::TextMarkup => seq![ElementType::Hyphbreak, ElementType::TextMarkupCorrection, ElementType::TextMarkupError, ElementType::TextMarkupGap, ElementType::TextMarkupReference, ElementType::TextMarkupString, ElementType::TextMarkupStyle],
            ElementGroup::Subtoken => seq![ElementType::Morpheme, ElementType::Phoneme],
            ElementGroup::HigherOrder => seq![ElementType::Alternative, ElementType::AlternativeLayers, ElementType::Comment, ElementType::Correction, ElementType::Description, ElementType::External, ElementType::Feature, ElementType::ForeignData, ElementType::LinkReference, ElementType::Metric, ElementType::Relation, ElementType::String],
            ElementGroup::Layer => seq![ElementType::ChunkingLayer, ElementType::CoreferenceLayer, ElementType::DependenciesLayer, ElementType::EntitiesLayer, ElementType::MorphologyLayer, ElementType::ObservationLayer, ElementType::PhonologyLayer, ElementType::SemanticRolesLayer, ElementType::SentimentLayer, ElementType::SpanRelationLayer, ElementType::StatementLayer, ElementType::SyntaxLayer, ElementType::TimingLayer],
            ElementGroup::Feature => seq![ElementType::ActorFeature, ElementType::BegindatetimeFeature, ElementType::EnddatetimeFeature, ElementType::FunctionFeature, ElementType::HeadFeature, ElementType::LevelFeature, ElementType::ModalityFeature, ElementType::PolarityFeature, ElementType::StrengthFeature, ElementType::StyleFeature, ElementType::SynsetFeature, ElementType::TimeFeature, ElementType::ValueFeature],
        }
    }

    /// Returns all element types included in this group
    pub fn elementtypes(&self) -> (r: Vec<ElementType>)
        ensures
            r@ == self.members(),
    {
        match self {
            ElementGroup::Structure => vec![ElementType::Word, ElementType::Paragraph, ElementType::Sentence, ElementType::Text],
            ElementGroup::Inline => vec![ElementType::DomainAnnotation, ElementType::ErrorDetection, ElementType::LangAnnotation, ElementType::LemmaAnnotation, ElementType::PosAnnotation, ElementType::SenseAnnotation, ElementType::SubjectivityAnnotation],
            ElementGroup::Span => vec![ElementType::Chunk, ElementType::CoreferenceChain, ElementType::Dependency, ElementType::Entity, ElementType::Observation, ElementType::Predicate, ElementType::SemanticRole, ElementType::Sentiment, ElementType::SpanRelation, ElementType::Statement, ElementType::SyntacticUnit, ElementType::TimeSegment],
            ElementGroup::SpanRole => vec![ElementType::CoreferenceLink, ElementType::DependencyDependent, ElementType::Headspan, ElementType::Source, ElementType::StatementRelation, ElementType::Target],
            ElementGroup::TextMarkup => vec![ElementType::Hyphbreak, ElementType::TextMarkupCorrection, ElementType::TextMarkupError, ElementType::TextMarkupGap, ElementType::TextMarkupReference, ElementType::TextMarkupString, ElementType::TextMarkupStyle],
            ElementGroup::Subtoken => vec![ElementType::Morpheme, ElementType::Phoneme],
            ElementGroup::HigherOrder => vec![ElementType::Alternative, ElementType::AlternativeLayers, ElementType::Comment, ElementType::Correction, ElementType::Description, ElementType::External, ElementType::Feature, ElementType::ForeignData, ElementType::LinkReference, ElementType::Metric, ElementType::Relation, ElementType::String],
            ElementGroup::Layer => vec![ElementType::ChunkingLayer, ElementType::CoreferenceLayer, ElementType::DependenciesLayer, ElementType::EntitiesLayer, ElementType::MorphologyLayer, ElementType::ObservationLayer, ElementType::PhonologyLayer, ElementType::SemanticRolesLayer, ElementType::SentimentLayer, ElementType::SpanRelationLayer, ElementType::StatementLayer, ElementType::SyntaxLayer, ElementType::TimingLayer],
            ElementGroup::Feature => vec![ElementType::ActorFeature, ElementType::BegindatetimeFeature, ElementType::EnddatetimeFeature, ElementType::FunctionFeature, ElementType::HeadFeature, ElementType::LevelFeature, ElementType::ModalityFeature, ElementType::PolarityFeature, ElementType::StrengthFeature, ElementType::StyleFeature, ElementType::SynsetFeature, ElementType::TimeFeature, ElementType::ValueFeature],
        }
    }

    /// Checks whether the specified element type is a member of this group
    pub fn contains(&self, elementtype: ElementType) -> (r: bool)
        ensures
            r == self.has(elementtype),
    {
        match self {
            ElementGroup::Structure => matches!(elementtype, ElementType::Word | ElementType::Paragraph | ElementType::Sentence | ElementType::Text),
            ElementGroup::Inline => matches!(elementtype, ElementType::DomainAnnotation | ElementType::ErrorDetection | ElementType::LangAnnotation | ElementType::LemmaAnnotation | ElementType::PosAnnotation | ElementType::SenseAnnotation | ElementType::SubjectivityAnnotation),
            ElementGroup::Span => matches!(elementtype, ElementType::Chunk | ElementType::CoreferenceChain | ElementType::Dependency | ElementType::Entity | ElementType::Observation | ElementType::Predicate | ElementType::SemanticRole | ElementType::Sentiment | ElementType::SpanRelation | ElementType::Statement | ElementType::SyntacticUnit | ElementType::TimeSegment),
            ElementGroup::SpanRole => matches!(elementtype, ElementType::CoreferenceLink | ElementType::DependencyDependent | ElementType::Headspan | ElementType::Source | ElementType::StatementRelation | ElementType::Target),
            ElementGroup::TextMarkup => matches!(elementtype, ElementType::Hyphbreak | ElementType::TextMarkupCorrection | ElementType::TextMarkupError | ElementType::TextMarkupGap | ElementType::TextMarkupReference | ElementType::TextMarkupString | ElementType::TextMarkupStyle),
            ElementGroup::Subtoken => matches!(elementtype, ElementType::Morpheme | ElementType::Phoneme),
            ElementGroup::HigherOrder => matches!(elementtype, ElementType::Alternative | ElementType::AlternativeLayers | ElementType::Comment | ElementType::Correction | ElementType::Description | ElementType::External | ElementType::Feature | ElementType::ForeignData | ElementType::LinkReference | ElementType::Metric | ElementType::Relation | ElementType::String),
            ElementGroup::Layer => matches!(elementtype, ElementType::ChunkingLayer | ElementType::CoreferenceLayer | ElementType::DependenciesLayer | ElementType::EntitiesLayer | ElementType::MorphologyLayer | ElementType::ObservationLayer | ElementType::PhonologyLayer | ElementType::SemanticRolesLayer | ElementType::SentimentLayer | ElementType::SpanRelationLayer | ElementType::StatementLayer | ElementType::SyntaxLayer | ElementType::TimingLayer),
            ElementGroup::Feature => matches!(elementtype, ElementType::ActorFeature | ElementType::BegindatetimeFeature | ElementType::EnddatetimeFeature | ElementType::FunctionFeature | ElementType::HeadFeature | ElementType::LevelFeature | ElementType::ModalityFeature | ElementType::PolarityFeature | ElementType::StrengthFeature | ElementType::StyleFeature | ElementType::SynsetFeature | ElementType::TimeFeature | ElementType::ValueFeature),
        }
    }
}

/// The annotation type that a name stands for, if any.
pub open spec fn annotation_of_name(name: Seq<char>) -> Option<AnnotationType> {
    if name == "alternative"@ { Some(AnnotationType::ALTERNATIVE) }
    else if name == "chunking"@ { Some(AnnotationType::CHUNKING) }
    else if name == "comment"@ { Some(AnnotationType::COMMENT) }
    else if name == "content"@ { Some(AnnotationType::RAWCONTENT) }
    else if name == "coreference"@ { Some(AnnotationType::COREFERENCE) }
    else if name == "correction"@ { Some(AnnotationType::CORRECTION) }
    else if name == "definition"@ { Some(AnnotationType::DEFINITION) }
    else if name == "dependency"@ { Some(AnnotationType::DEPENDENCY) }
    else if name == "description"@ { Some(AnnotationType::DESCRIPTION) }
    else if name == "division"@ { Some(AnnotationType::DIVISION) }
    else if name == "domain"@ { Some(AnnotationType::DOMAIN) }
    else if name == "entity"@ { Some(AnnotationType::ENTITY) }
    else if name == "entry"@ { Some(AnnotationType::ENTRY) }
    else if name == "errordetection"@ { Some(AnnotationType::ERRORDETECTION) }
    else if name == "event"@ { Some(AnnotationType::EVENT) }
    else if name == "example"@ { Some(AnnotationType::EXAMPLE) }
    else if name == "figure"@ { Some(AnnotationType::FIGURE) }
    else if name == "gap"@ { Some(AnnotationType::GAP) }
    else if name == "head"@ { Some(AnnotationType::HEAD) }
    else if name == "hiddentoken"@ { Some(AnnotationType::HIDDENTOKEN) }
    else if name == "hyphenation"@ { Some(AnnotationType::HYPHENATION) }
    else if name == "lang"@ { Some(AnnotationType::LANG) }
    else if name == "lemma"@ { Some(AnnotationType::LEMMA) }
    else if name == "linebreak"@ { Some(AnnotationType::LINEBREAK) }
    else if name == "list"@ { Some(AnnotationType::LIST) }
    else if name == "metric"@ { Some(AnnotationType::METRIC) }
    else if name == "morphological"@ { Some(AnnotationType::MORPHOLOGICAL) }
    else if name == "note"@ { Some(AnnotationType::NOTE) }
    else if name == "observation"@ { Some(AnnotationType::OBSERVATION) }
    else if name == "paragraph"@ { Some(AnnotationType::PARAGRAPH) }
    else if name == "part"@ { Some(AnnotationType::PART) }
    else if name == "phon"@ { Some(AnnotationType::PHON) }
    else if name == "phonological"@ { Some(AnnotationType::PHONOLOGICAL) }
    else if name == "pos"@ { Some(AnnotationType::POS) }
    else if name == "predicate"@ { Some(AnnotationType::PREDICATE) }
    else if name == "quote"@ { Some(AnnotationType::QUOTE) }
    else if name == "reference"@ { Some(AnnotationType::REFERENCE) }
    else if name == "relation"@ { Some(AnnotationType::RELATION) }
    else if name == "semrole"@ { Some(AnnotationType::SEMROLE) }
    else if name == "sense"@ { Some(AnnotationType::SENSE) }
    else if name == "sentence"@ { Some(AnnotationType::SENTENCE) }
    else if name == "sentiment"@ { Some(AnnotationType::SENTIMENT) }
    else if name == "spanrelation"@ { Some(AnnotationType::SPANRELATION) }
    else if name == "statement"@ { Some(AnnotationType::STATEMENT) }
    else if name == "string"@ { Some(AnnotationType::STRING) }
    else if name == "subjectivity"@ { Some(AnnotationType::SUBJECTIVITY) }
    else if name == "syntax"@ { Some(AnnotationType::SYNTAX) }
    else if name == "table"@ { Some(AnnotationType::TABLE) }
    else if name == "term"@ { Some(AnnotationType::TERM) }
    else if name == "text"@ { Some(AnnotationType::TEXT) }
    else if name == "style"@ { Some(AnnotationType::STYLE) }
    else if name == "timesegment"@ { Some(AnnotationType::TIMESEGMENT) }
    else if name == "utterance"@ { Some(AnnotationType::UTTERANCE) }
    else if name == "whitespace"@ { Some(AnnotationType::WHITESPACE) }
    else if name == "token"@ { Some(AnnotationType::TOKEN) }
    else { None }
}

/// The name of an annotation type reads back as that type: names are distinct.
pub proof fn lemma_annotation_name_round_trip(a: AnnotationType)
    ensures
        annotation_of_name(a.name()) == Some(a),
{
    reveal_strlit("alternative");
    assert("alternative"@.len() == 11 && "alternative"@[0] == 'a' && "alternative"@[1] == 'l' && "alternative"@[2] == 't' && "alternative"@[3] == 'e' && "alternative"@[4] == 'r' && "alternative"@[5] == 'n' && "alternative"@[6] == 'a' && "alternative"@[7] == 't' && "alternative"@[8] == 'i' && "alternative"@[9] == 'v' && "alternative"@[10] == 'e');
    reveal_strlit("chunking");
    assert("chunking"@.len() == 8 && "chunking"@[0] == 'c' && "chunking"@[1] == 'h' && "chunking"@[2] == 'u' && "chunking"@[3] == 'n' && "chunking"@[4] == 'k' && "chunking"@[5] == 'i' && "chunking"@[6] == 'n' && "chunking"@[7] == 'g');
    reveal_strlit("comment");
    assert("comment"@.len() == 7 && "comment"@[0] == 'c' && "comment"@[1] == 'o' && "comment"@[2] == 'm' && "comment"@[3] == 'm' && "comment"@[4] == 'e' && "comment"@[5] == 'n' && "comment"@[6] == 't');
    reveal_strlit("content");
    assert("content"@.len() == 7 && "content"@[0] == 'c' && "content"@[1] == 'o' && "content"@[2] == 'n' && "content"@[3] == 't' && "content"@[4] == 'e' && "content"@[5] == 'n' && "content"@[6] == 't');
    reveal_strlit("coreference");
    assert("coreference"@.len() == 11 && "coreference"@[0] == 'c' && "coreference"@[1] == 'o' && "coreference"@[2] == 'r' && "coreference"@[3] == 'e' && "coreference"@[4] == 'f' && "coreference"@[5] == 'e' && "coreference"@[6] == 'r' && "coreference"@[7] == 'e' && "coreference"@[8] == 'n' && "coreference"@[9] == 'c' && "coreference"@[10] == 'e');
    reveal_strlit("correction");
    assert("correction"@.len() == 10 && "correction"@[0] == 'c' && "correction"@[1] == 'o' && "correction"@[2] == 'r' && "correction"@[3] == 'r' && "correction"@[4] == 'e' && "correction"@[5] == 'c' && "correction"@[6] == 't' && "correction"@[7] == 'i' && "correction"@[8] == 'o' && "correction"@[9] == 'n');
    reveal_strlit("definition");
    assert("definition"@.len() == 10 && "definition"@[0] == 'd' && "definition"@[1] == 'e' && "definition"@[2] == 'f' && "definition"@[3] == 'i' && "definition"@[4] == 'n' && "definition"@[5] == 'i' && "definition"@[6] == 't' && "definition"@[7] == 'i' && "definition"@[8] == 'o' && "definition"@[9] == 'n');
    reveal_strlit("dependency");
    assert("dependency"@.len() == 10 && "dependency"@[0] == 'd' && "dependency"@[1] == 'e' && "dependency"@[2] == 'p' && "dependency"@[3] == 'e' && "dependency"@[4] == 'n' && "dependency"@[5] == 'd' && "dependency"@[6] == 'e' && "dependency"@[7] == 'n' && "dependency"@[8] == 'c' && "dependency"@[9] == 'y');
    reveal_strlit("description");
    assert("description"@.len() == 11 && "description"@[0] == 'd' && "description"@[1] == 'e' && "description"@[2] == 's' && "description"@[3] == 'c' && "description"@[4] == 'r' && "description"@[5] == 'i' && "description"@[6] == 'p' && "description"@[7] == 't' && "description"@[8] == 'i' && "description"@[9] == 'o' && "description"@[10] == 'n');
    reveal_strlit("division");
    assert("division"@.len() == 8 && "division"@[0] == 'd' && "division"@[1] == 'i' && "division"@[2] == 'v' && "division"@[3] == 'i' && "division"@[4] == 's' && "division"@[5] == 'i' && "division"@[6] == 'o' && "division"@[7] == 'n');
    reveal_strlit("domain");
    assert("domain"@.len() == 6 && "domain"@[0] == 'd' && "domain"@[1] == 'o' && "domain"@[2] == 'm' && "domain"@[3] == 'a' && "domain"@[4] == 'i' && "domain"@[5] == 'n');
    reveal_strlit("entity");
    assert("entity"@.len() == 6 && "entity"@[0] == 'e' && "entity"@[1] == 'n' && "entity"@[2] == 't' && "entity"@[3] == 'i' && "entity"@[4] == 't' && "entity"@[5] == 'y');
    reveal_strlit("entry");
    assert("entry"@.len() == 5 && "entry"@[0] == 'e' && "entry"@[1] == 'n' && "entry"@[2] == 't' && "entry"@[3] == 'r' && "entry"@[4] == 'y');
    reveal_strlit("errordetection");
    assert("errordetection"@.len() == 14 && "errordetection"@[0] == 'e' && "errordetection"@[1] == 'r' && "errordetection"@[2] == 'r' && "errordetection"@[3] == 'o' && "errordetection"@[4] == 'r' && "errordetection"@[5] == 'd' && "errordetection"@[6] == 'e' && "errordetection"@[7] == 't' && "errordetection"@[8] == 'e' && "errordetection"@[9] == 'c' && "errordetection"@[10] == 't' && "errordetection"@[11] == 'i' && "errordetection"@[12] == 'o' && "errordetection"@[13] == 'n');
    reveal_strlit("event");
    assert("event"@.len() == 5 && "event"@[0] == 'e' && "event"@[1] == 'v' && "event"@[2] == 'e' && "event"@[3] == 'n' && "event"@[4] == 't');
    reveal_strlit("example");
    assert("example"@.len() == 7 && "example"@[0] == 'e' && "example"@[1] == 'x' && "example"@[2] == 'a' && "example"@[3] == 'm' && "example"@[4] == 'p' && "example"@[5] == 'l' && "example"@[6] == 'e');
    reveal_strlit("figure");
    assert("figure"@.len() == 6 && "figure"@[0] == 'f' && "figure"@[1] == 'i' && "figure"@[2] == 'g' && "figure"@[3] == 'u' && "figure"@[4] == 'r' && "figure"@[5] == 'e');
    reveal_strlit("gap");
    assert("gap"@.len() == 3 && "gap"@[0] == 'g' && "gap"@[1] == 'a' && "gap"@[2] == 'p');
    reveal_strlit("head");
    assert("head"@.len() == 4 && "head"@[0] == 'h' && "head"@[1] == 'e' && "head"@[2] == 'a' && "head"@[3] == 'd');
    reveal_strlit("hiddentoken");
    assert("hiddentoken"@.len() == 11 && "hiddentoken"@[0] == 'h' && "hiddentoken"@[1] == 'i' && "hiddentoken"@[2] == 'd' && "hiddentoken"@[3] == 'd' && "hiddentoken"@[4] == 'e' && "hiddentoken"@[5] == 'n' && "hiddentoken"@[6] == 't' && "hiddentoken"@[7] == 'o' && "hiddentoken"@[8] == 'k' && "hiddentoken"@[9] == 'e' && "hiddentoken"@[10] == 'n');
    reveal_strlit("hyphenation");
    assert("hyphenation"@.len() == 11 && "hyphenation"@[0] == 'h' && "hyphenation"@[1] == 'y' && "hyphenation"@[2] == 'p' && "hyphenation"@[3] == 'h' && "hyphenation"@[4] == 'e' && "hyphenation"@[5] == 'n' && "hyphenation"@[6] == 'a' && "hyphenation"@[7] == 't' && "hyphenation"@[8] == 'i' && "hyphenation"@[9] == 'o' && "hyphenation"@[10] == 'n');
    reveal_strlit("lang");
    assert("lang"@.len() == 4 && "lang"@[0] == 'l' && "lang"@[1] == 'a' && "lang"@[2] == 'n' && "lang"@[3] == 'g');
    reveal_strlit("lemma");
    assert("lemma"@.len() == 5 && "lemma"@[0] == 'l' && "lemma"@[1] == 'e' && "lemma"@[2] == 'm' && "lemma"@[3] == 'm' && "lemma"@[4] == 'a');
    reveal_strlit("linebreak");
    assert("linebreak"@.len() == 9 && "linebreak"@[0] == 'l' && "linebreak"@[1] == 'i' && "linebreak"@[2] == 'n' && "linebreak"@[3] == 'e' && "linebreak"@[4] == 'b' && "linebreak"@[5] == 'r' && "linebreak"@[6] == 'e' && "linebreak"@[7] == 'a' && "linebreak"@[8] == 'k');
    reveal_strlit("list");
    assert("list"@.len() == 4 && "list"@[0] == 'l' && "list"@[1] == 'i' && "list"@[2] == 's' && "list"@[3] == 't');
    reveal_strlit("metric");
    assert("metric"@.len() == 6 && "metric"@[0] == 'm' && "metric"@[1] == 'e' && "metric"@[2] == 't' && "metric"@[3] == 'r' && "metric"@[4] == 'i' && "metric"@[5] == 'c');
    reveal_strlit("morphological");
    assert("morphological"@.len() == 13 && "morphological"@[0] == 'm' && "morphological"@[1] == 'o' && "morphological"@[2] == 'r' && "morphological"@[3] == 'p' && "morphological"@[4] == 'h' && "morphological"@[5] == 'o' && "morphological"@[6] == 'l' && "morphological"@[7] == 'o' && "morphological"@[8] == 'g' && "morphological"@[9] == 'i' && "morphological"@[10] == 'c' && "morphological"@[11] == 'a' && "morphological"@[12] == 'l');
    reveal_strlit("note");
    assert("note"@.len() == 4 && "note"@[0] == 'n' && "note"@[1] == 'o' && "note"@[2] == 't' && "note"@[3] == 'e');
    reveal_strlit("observation");
    assert("observation"@.len() == 11 && "observation"@[0] == 'o' && "observation"@[1] == 'b' && "observation"@[2] == 's' && "observation"@[3] == 'e' && "observation"@[4] == 'r' && "observation"@[5] == 'v' && "observation"@[6] == 'a' && "observation"@[7] == 't' && "observation"@[8] == 'i' && "observation"@[9] == 'o' && "observation"@[10] == 'n');
    reveal_strlit("paragraph");
    assert("paragraph"@.len() == 9 && "paragraph"@[0] == 'p' && "paragraph"@[1] == 'a' && "paragraph"@[2] == 'r' && "paragraph"@[3] == 'a' && "paragraph"@[4] == 'g' && "paragraph"@[5] == 'r' && "paragraph"@[6] == 'a' && "paragraph"@[7] == 'p' && "paragraph"@[8] == 'h');
    reveal_strlit("part");
    assert("part"@.len() == 4 && "part"@[0] == 'p' && "part"@[1] == 'a' && "part"@[2] == 'r' && "part"@[3] == 't');
    reveal_strlit("phon");
    assert("phon"@.len() == 4 && "phon"@[0] == 'p' && "phon"@[1] == 'h' && "phon"@[2] == 'o' && "phon"@[3] == 'n');
    reveal_strlit("phonological");
    assert("phonological"@.len() == 12 && "phonological"@[0] == 'p' && "phonological"@[1] == 'h' && "phonological"@[2] == 'o' && "phonological"@[3] == 'n' && "phonological"@[4] == 'o' && "phonological"@[5] == 'l' && "phonological"@[6] == 'o' && "phonological"@[7] == 'g' && "phonological"@[8] == 'i' && "phonological"@[9] == 'c' && "phonological"@[10] == 'a' && "phonological"@[11] == 'l');
    reveal_strlit("pos");
    assert("pos"@.len() == 3 && "pos"@[0] == 'p' && "pos"@[1] == 'o' && "pos"@[2] == 's');
    reveal_strlit("predicate");
    assert("predicate"@.len() == 9 && "predicate"@[0] == 'p' && "predicate"@[1] == 'r' && "predicate"@[2] == 'e' && "predicate"@[3] == 'd' && "predicate"@[4] == 'i' && "predicate"@[5] == 'c' && "predicate"@[6] == 'a' && "predicate"@[7] == 't' && "predicate"@[8] == 'e');
    reveal_strlit("quote");
    assert("quote"@.len() == 5 && "quote"@[0] == 'q' && "quote"@[1] == 'u' && "quote"@[2] == 'o' && "quote"@[3] == 't' && "quote"@[4] == 'e');
    reveal_strlit("reference");
    assert("reference"@.len() == 9 && "reference"@[0] == 'r' && "reference"@[1] == 'e' && "reference"@[2] == 'f' && "reference"@[3] == 'e' && "reference"@[4] == 'r' && "reference"@[5] == 'e' && "reference"@[6] == 'n' && "reference"@[7] == 'c' && "reference"@[8] == 'e');
    reveal_strlit("relation");
    assert("relation"@.len() == 8 && "relation"@[0] == 'r' && "relation"@[1] == 'e' && "relation"@[2] == 'l' && "relation"@[3] == 'a' && "relation"@[4] == 't' && "relation"@[5] == 'i' && "relation"@[6] == 'o' && "relation"@[7] == 'n');
    reveal_strlit("semrole");
    assert("semrole"@.len() == 7 && "semrole"@[0] == 's' && "semrole"@[1] == 'e' && "semrole"@[2] == 'm' && "semrole"@[3] == 'r' && "semrole"@[4] == 'o' && "semrole"@[5] == 'l' && "semrole"@[6] == 'e');
    reveal_strlit("sense");
    assert("sense"@.len() == 5 && "sense"@[0] == 's' && "sense"@[1] == 'e' && "sense"@[2] == 'n' && "sense"@[3] == 's' && "sense"@[4] == 'e');
    reveal_strlit("sentence");
    assert("sentence"@.len() == 8 && "sentence"@[0] == 's' && "sentence"@[1] == 'e' && "sentence"@[2] == 'n' && "sentence"@[3] == 't' && "sentence"@[4] == 'e' && "sentence"@[5] == 'n' && "sentence"@[6] == 'c' && "sentence"@[7] == 'e');
    reveal_strlit("sentiment");
    assert("sentiment"@.len() == 9 && "sentiment"@[0] == 's' && "sentiment"@[1] == 'e' && "sentiment"@[2] == 'n' && "sentiment"@[3] == 't' && "sentiment"@[4] == 'i' && "sentiment"@[5] == 'm' && "sentiment"@[6] == 'e' && "sentiment"@[7] == 'n' && "sentiment"@[8] == 't');
    reveal_strlit("spanrelation");
    assert("spanrelation"@.len() == 12 && "spanrelation"@[0] == 's' && "spanrelation"@[1] == 'p' && "spanrelation"@[2] == 'a' && "spanrelation"@[3] == 'n' && "spanrelation"@[4] == 'r' && "spanrelation"@[5] == 'e' && "spanrelation"@[6] == 'l' && "spanrelation"@[7] == 'a' && "spanrelation"@[8] == 't' && "spanrelation"@[9] == 'i' && "spanrelation"@[10] == 'o' && "spanrelation"@[11] == 'n');
    reveal_strlit("statement");
    assert("statement"@.len() == 9 && "statement"@[0] == 's' && "statement"@[1] == 't' && "statement"@[2] == 'a' && "statement"@[3] == 't' && "statement"@[4] == 'e' && "statement"@[5] == 'm' && "statement"@[6] == 'e' && "statement"@[7] == 'n' && "statement"@[8] == 't');
    reveal_strlit("string");
    assert("string"@.len() == 6 && "string"@[0] == 's' && "string"@[1] == 't' && "string"@[2] == 'r' && "string"@[3] == 'i' && "string"@[4] == 'n' && "string"@[5] == 'g');
    reveal_strlit("subjectivity");
    assert("subjectivity"@.len() == 12 && "subjectivity"@[0] == 's' && "subjectivity"@[1] == 'u' && "subjectivity"@[2] == 'b' && "subjectivity"@[3] == 'j' && "subjectivity"@[4] == 'e' && "subjectivity"@[5] == 'c' && "subjectivity"@[6] == 't' && "subjectivity"@[7] == 'i' && "subjectivity"@[8] == 'v' && "subjectivity"@[9] == 'i' && "subjectivity"@[10] == 't' && "subjectivity"@[11] == 'y');
    reveal_strlit("syntax");
    assert("syntax"@.len() == 6 && "syntax"@[0] == 's' && "syntax"@[1] == 'y' && "syntax"@[2] == 'n' && "syntax"@[3] == 't' && "syntax"@[4] == 'a' && "syntax"@[5] == 'x');
    reveal_strlit("table");
    assert("table"@.len() == 5 && "table"@[0] == 't' && "table"@[1] == 'a' && "table"@[2] == 'b' && "table"@[3] == 'l' && "table"@[4] == 'e');
    reveal_strlit("term");
    assert("term"@.len() == 4 && "term"@[0] == 't' && "term"@[1] == 'e' && "term"@[2] == 'r' && "term"@[3] == 'm');
    reveal_strlit("text");
    assert("text"@.len() == 4 && "text"@[0] == 't' && "text"@[1] == 'e' && "text"@[2] == 'x' && "text"@[3] == 't');
    reveal_strlit("style");
    assert("style"@.len() == 5 && "style"@[0] == 's' && "style"@[1] == 't' && "style"@[2] == 'y' && "style"@[3] == 'l' && "style"@[4] == 'e');
    reveal_strlit("timesegment");
    assert("timesegment"@.len() == 11 && "timesegment"@[0] == 't' && "timesegment"@[1] == 'i' && "timesegment"@[2] == 'm' && "timesegment"@[3] == 'e' && "timesegment"@[4] == 's' && "timesegment"@[5] == 'e' && "timesegment"@[6] == 'g' && "timesegment"@[7] == 'm' && "timesegment"@[8] == 'e' && "timesegment"@[9] == 'n' && "timesegment"@[10] == 't');
    reveal_strlit("utterance");
    assert("utterance"@.len() == 9 && "utterance"@[0] == 'u' && "utterance"@[1] == 't' && "utterance"@[2] == 't' && "utterance"@[3] == 'e' && "utterance"@[4] == 'r' && "utterance"@[5] == 'a' && "utterance"@[6] == 'n' && "utterance"@[7] == 'c' && "utterance"@[8] == 'e');
    reveal_strlit("whitespace");
    assert("whitespace"@.len() == 10 && "whitespace"@[0] == 'w' && "whitespace"@[1] == 'h' && "whitespace"@[2] == 'i' && "whitespace"@[3] == 't' && "whitespace"@[4] == 'e' && "whitespace"@[5] == 's' && "whitespace"@[6] == 'p' && "whitespace"@[7] == 'a' && "whitespace"@[8] == 'c' && "whitespace"@[9] == 'e');
    reveal_strlit("token");
    assert("token"@.len() == 5 && "token"@[0] == 't' && "token"@[1] == 'o' && "token"@[2] == 'k' && "token"@[3] == 'e' && "token"@[4] == 'n');
    match a {
        AnnotationType::ALTERNATIVE => {},
        AnnotationType::CHUNKING => {},
        AnnotationType::COMMENT => {},
        AnnotationType::RAWCONTENT => {},
        AnnotationType::COREFERENCE => {},
        AnnotationType::CORRECTION => {},
        AnnotationType::DEFINITION => {},
        AnnotationType::DEPENDENCY => {},
        AnnotationType::DESCRIPTION => {},
        AnnotationType::DIVISION => {},
        AnnotationType::DOMAIN => {},
        AnnotationType::ENTITY => {},
        AnnotationType::ENTRY => {},
        AnnotationType::ERRORDETECTION => {},
        AnnotationType::EVENT => {},
        AnnotationType::EXAMPLE => {},
        AnnotationType::FIGURE => {},
        AnnotationType::GAP => {},
        AnnotationType::HEAD => {},
        AnnotationType::HIDDENTOKEN => {},
        AnnotationType::HYPHENATION => {},
        AnnotationType::LANG => {},
        AnnotationType::LEMMA => {},
        AnnotationType::LINEBREAK => {},
        AnnotationType::LIST => {},
        AnnotationType::METRIC => {},
        AnnotationType::MORPHOLOGICAL => {},
        AnnotationType::NOTE => {},
        AnnotationType::OBSERVATION => {},
        AnnotationType::PARAGRAPH => {},
        AnnotationType::PART => {},
        AnnotationType::PHON => {},
        AnnotationType::PHONOLOGICAL => {},
        AnnotationType::POS => {},
        AnnotationType::PREDICATE => {},
        AnnotationType::QUOTE => {},
        AnnotationType::REFERENCE => {},
        AnnotationType::RELATION => {},
        AnnotationType::SEMROLE => {},
        AnnotationType::SENSE => {},
        AnnotationType::SENTENCE => {},
        AnnotationType::SENTIMENT => {},
        AnnotationType::SPANRELATION => {},
        AnnotationType::STATEMENT => {},
        AnnotationType::STRING => {},
        AnnotationType::SUBJECTIVITY => {},
        AnnotationType::SYNTAX => {},
        AnnotationType::TABLE => {},
        AnnotationType::TERM => {},
        AnnotationType::TEXT => {},
        AnnotationType::STYLE => {},
        AnnotationType::TIMESEGMENT => {},
        AnnotationType::UTTERANCE => {},
        AnnotationType::WHITESPACE => {},
        AnnotationType::TOKEN => {},
    }
}


/// No annotation type name holds a hyphen or a slash.
pub proof fn lemma_annotation_name_hyphenless(a: AnnotationType)
    ensures
        forall|j: int| 0 <= j < a.name().len() ==> a.name()[j] != '-' && a.name()[j] != '/',
{
    reveal_strlit("alternative");
    assert("alternative"@.len() == 11 && "alternative"@[0] == 'a' && "alternative"@[1] == 'l' && "alternative"@[2] == 't' && "alternative"@[3] == 'e' && "alternative"@[4] == 'r' && "alternative"@[5] == 'n' && "alternative"@[6] == 'a' && "alternative"@[7] == 't' && "alternative"@[8] == 'i' && "alternative"@[9] == 'v' && "alternative"@[10] == 'e');
    reveal_strlit("chunking");
    assert("chunking"@.len() == 8 && "chunking"@[0] == 'c' && "chunking"@[1] == 'h' && "chunking"@[2] == 'u' && "chunking"@[3] == 'n' && "chunking"@[4] == 'k' && "chunking"@[5] == 'i' && "chunking"@[6] == 'n' && "chunking"@[7] == 'g');
    reveal_strlit("comment");
    assert("comment"@.len() == 7 && "comment"@[0] == 'c' && "comment"@[1] == 'o' && "comment"@[2] == 'm' && "comment"@[3] == 'm' && "comment"@[4] == 'e' && "comment"@[5] == 'n' && "comment"@[6] == 't');
    reveal_strlit("content");
    assert("content"@.len() == 7 && "content"@[0] == 'c' && "content"@[1] == 'o' && "content"@[2] == 'n' && "content"@[3] == 't' && "content"@[4] == 'e' && "content"@[5] == 'n' && "content"@[6] == 't');
    reveal_strlit("coreference");
    assert("coreference"@.len() == 11 && "coreference"@[0] == 'c' && "coreference"@[1] == 'o' && "coreference"@[2] == 'r' && "coreference"@[3] == 'e' && "coreference"@[4] == 'f' && "coreference"@[5] == 'e' && "coreference"@[6] == 'r' && "coreference"@[7] == 'e' && "coreference"@[8] == 'n' && "coreference"@[9] == 'c' && "coreference"@[10] == 'e');
    reveal_strlit("correction");
    assert("correction"@.len() == 10 && "correction"@[0] == 'c' && "correction"@[1] == 'o' && "correction"@[2] == 'r' && "correction"@[3] == 'r' && "correction"@[4] == 'e' && "correction"@[5] == 'c' && "correction"@[6] == 't' && "correction"@[7] == 'i' && "correction"@[8] == 'o' && "correction"@[9] == 'n');
    reveal_strlit("definition");
    assert("definition"@.len() == 10 && "definition"@[0] == 'd' && "definition"@[1] == 'e' && "definition"@[2] == 'f' && "definition"@[3] == 'i' && "definition"@[4] == 'n' && "definition"@[5] == 'i' && "definition"@[6] == 't' && "definition"@[7] == 'i' && "definition"@[8] == 'o' && "definition"@[9] == 'n');
    reveal_strlit("dependency");
    assert("dependency"@.len() == 10 && "dependency"@[0] == 'd' && "dependency"@[1] == 'e' && "dependency"@[2] == 'p' && "dependency"@[3] == 'e' && "dependency"@[4] == 'n' && "dependency"@[5] == 'd' && "dependency"@[6] == 'e' && "dependency"@[7] == 'n' && "dependency"@[8] == 'c' && "dependency"@[9] == 'y');
    reveal_strlit("description");
    assert("description"@.len() == 11 && "description"@[0] == 'd' && "description"@[1] == 'e' && "description"@[2] == 's' && "description"@[3] == 'c' && "description"@[4] == 'r' && "description"@[5] == 'i' && "description"@[6] == 'p' && "description"@[7] == 't' && "description"@[8] == 'i' && "description"@[9] == 'o' && "description"@[10] == 'n');
    reveal_strlit("division");
    assert("division"@.len() == 8 && "division"@[0] == 'd' && "division"@[1] == 'i' && "division"@[2] == 'v' && "division"@[3] == 'i' && "division"@[4] == 's' && "division"@[5] == 'i' && "division"@[6] == 'o' && "division"@[7] == 'n');
    reveal_strlit("domain");
    assert("domain"@.len() == 6 && "domain"@[0] == 'd' && "domain"@[1] == 'o' && "domain"@[2] == 'm' && "domain"@[3] == 'a' && "domain"@[4] == 'i' && "domain"@[5] == 'n');
    reveal_strlit("entity");
    assert("entity"@.len() == 6 && "entity"@[0] == 'e' && "entity"@[1] == 'n' && "entity"@[2] == 't' && "entity"@[3] == 'i' && "entity"@[4] == 't' && "entity"@[5] == 'y');
    reveal_strlit("entry");
    assert("entry"@.len() == 5 && "entry"@[0] == 'e' && "entry"@[1] == 'n' && "entry"@[2] == 't' && "entry"@[3] == 'r' && "entry"@[4] == 'y');
    reveal_strlit("errordetection");
    assert("errordetection"@.len() == 14 && "errordetection"@[0] == 'e' && "errordetection"@[1] == 'r' && "errordetection"@[2] == 'r' && "errordetection"@[3] == 'o' && "errordetection"@[4] == 'r' && "errordetection"@[5] == 'd' && "errordetection"@[6] == 'e' && "errordetection"@[7] == 't' && "errordetection"@[8] == 'e' && "errordetection"@[9] == 'c' && "errordetection"@[10] == 't' && "errordetection"@[11] == 'i' && "errordetection"@[12] == 'o' && "errordetection"@[13] == 'n');
    reveal_strlit("event");
    assert("event"@.len() == 5 && "event"@[0] == 'e' && "event"@[1] == 'v' && "event"@[2] == 'e' && "event"@[3] == 'n' && "event"@[4] == 't');
    reveal_strlit("example");
    assert("example"@.len() == 7 && "example"@[0] == 'e' && "example"@[1] == 'x' && "example"@[2] == 'a' && "example"@[3] == 'm' && "example"@[4] == 'p' && "example"@[5] == 'l' && "example"@[6] == 'e');
    reveal_strlit("figure");
    assert("figure"@.len() == 6 && "figure"@[0] == 'f' && "figure"@[1] == 'i' && "figure"@[2] == 'g' && "figure"@[3] == 'u' && "figure"@[4] == 'r' && "figure"@[5] == 'e');
    reveal_strlit("gap");
    assert("gap"@.len() == 3 && "gap"@[0] == 'g' && "gap"@[1] == 'a' && "gap"@[2] == 'p');
    reveal_strlit("head");
    assert("head"@.len() == 4 && "head"@[0] == 'h' && "head"@[1] == 'e' && "head"@[2] == 'a' && "head"@[3] == 'd');
    reveal_strlit("hiddentoken");
    assert("hiddentoken"@.len() == 11 && "hiddentoken"@[0] == 'h' && "hiddentoken"@[1] == 'i' && "hiddentoken"@[2] == 'd' && "hiddentoken"@[3] == 'd' && "hiddentoken"@[4] == 'e' && "hiddentoken"@[5] == 'n' && "hiddentoken"@[6] == 't' && "hiddentoken"@[7] == 'o' && "hiddentoken"@[8] == 'k' && "hiddentoken"@[9] == 'e' && "hiddentoken"@[10] == 'n');
    reveal_strlit("hyphenation");
    assert("hyphenation"@.len() == 11 && "hyphenation"@[0] == 'h' && "hyphenation"@[1] == 'y' && "hyphenation"@[2] == 'p' && "hyphenation"@[3] == 'h' && "hyphenation"@[4] == 'e' && "hyphenation"@[5] == 'n' && "hyphenation"@[6] == 'a' && "hyphenation"@[7] == 't' && "hyphenation"@[8] == 'i' && "hyphenation"@[9] == 'o' && "hyphenation"@[10] == 'n');
    reveal_strlit("lang");
    assert("lang"@.len() == 4 && "lang"@[0] == 'l' && "lang"@[1] == 'a' && "lang"@[2] == 'n' && "lang"@[3] == 'g');
    reveal_strlit("lemma");
    assert("lemma"@.len() == 5 && "lemma"@[0] == 'l' && "lemma"@[1] == 'e' && "lemma"@[2] == 'm' && "lemma"@[3] == 'm' && "lemma"@[4] == 'a');
    reveal_strlit("linebreak");
    assert("linebreak"@.len() == 9 && "linebreak"@[0] == 'l' && "linebreak"@[1] == 'i' && "linebreak"@[2] == 'n' && "linebreak"@[3] == 'e' && "linebreak"@[4] == 'b' && "linebreak"@[5] == 'r' && "linebreak"@[6] == 'e' && "linebreak"@[7] == 'a' && "linebreak"@[8] == 'k');
    reveal_strlit("list");
    assert("list"@.len() == 4 && "list"@[0] == 'l' && "list"@[1] == 'i' && "list"@[2] == 's' && "list"@[3] == 't');
    reveal_strlit("metric");
    assert("metric"@.len() == 6 && "metric"@[0] == 'm' && "metric"@[1] == 'e' && "metric"@[2] == 't' && "metric"@[3] == 'r' && "metric"@[4] == 'i' && "metric"@[5] == 'c');
    reveal_strlit("morphological");
    assert("morphological"@.len() == 13 && "morphological"@[0] == 'm' && "morphological"@[1] == 'o' && "morphological"@[2] == 'r' && "morphological"@[3] == 'p' && "morphological"@[4] == 'h' && "morphological"@[5] == 'o' && "morphological"@[6] == 'l' && "morphological"@[7] == 'o' && "morphological"@[8] == 'g' && "morphological"@[9] == 'i' && "morphological"@[10] == 'c' && "morphological"@[11] == 'a' && "morphological"@[12] == 'l');
    reveal_strlit("note");
    assert("note"@.len() == 4 && "note"@[0] == 'n' && "note"@[1] == 'o' && "note"@[2] == 't' && "note"@[3] == 'e');
    reveal_strlit("observation");
    assert("observation"@.len() == 11 && "observation"@[0] == 'o' && "observation"@[1] == 'b' && "observation"@[2] == 's' && "observation"@[3] == 'e' && "observation"@[4] == 'r' && "observation"@[5] == 'v' && "observation"@[6] == 'a' && "observation"@[7] == 't' && "observation"@[8] == 'i' && "observation"@[9] == 'o' && "observation"@[10] == 'n');
    reveal_strlit("paragraph");
    assert("paragraph"@.len() == 9 && "paragraph"@[0] == 'p' && "paragraph"@[1] == 'a' && "paragraph"@[2] == 'r' && "paragraph"@[3] == 'a' && "paragraph"@[4] == 'g' && "paragraph"@[5] == 'r' && "paragraph"@[6] == 'a' && "paragraph"@[7] == 'p' && "paragraph"@[8] == 'h');
    reveal_strlit("part");
    assert("part"@.len() == 4 && "part"@[0] == 'p' && "part"@[1] == 'a' && "part"@[2] == 'r' && "part"@[3] == 't');
    reveal_strlit("phon");
    assert("phon"@.len() == 4 && "phon"@[0] == 'p' && "phon"@[1] == 'h' && "phon"@[2] == 'o' && "phon"@[3] == 'n');
    reveal_strlit("phonological");
    assert("phonological"@.len() == 12 && "phonological"@[0] == 'p' && "phonological"@[1] == 'h' && "phonological"@[2] == 'o' && "phonological"@[3] == 'n' && "phonological"@[4] == 'o' && "phonological"@[5] == 'l' && "phonological"@[6] == 'o' && "phonological"@[7] == 'g' && "phonological"@[8] == 'i' && "phonological"@[9] == 'c' && "phonological"@[10] == 'a' && "phonological"@[11] == 'l');
    reveal_strlit("pos");
    assert("pos"@.len() == 3 && "pos"@[0] == 'p' && "pos"@[1] == 'o' && "pos"@[2] == 's');
    reveal_strlit("predicate");
    assert("predicate"@.len() == 9 && "predicate"@[0] == 'p' && "predicate"@[1] == 'r' && "predicate"@[2] == 'e' && "predicate"@[3] == 'd' && "predicate"@[4] == 'i' && "predicate"@[5] == 'c' && "predicate"@[6] == 'a' && "predicate"@[7] == 't' && "predicate"@[8] == 'e');
    reveal_strlit("quote");
    assert("quote"@.len() == 5 && "quote"@[0] == 'q' && "quote"@[1] == 'u' && "quote"@[2] == 'o' && "quote"@[3] == 't' && "quote"@[4] == 'e');
    reveal_strlit("reference");
    assert("reference"@.len() == 9 && "reference"@[0] == 'r' && "reference"@[1] == 'e' && "reference"@[2] == 'f' && "reference"@[3] == 'e' && "reference"@[4] == 'r' && "reference"@[5] == 'e' && "reference"@[6] == 'n' && "reference"@[7] == 'c' && "reference"@[8] == 'e');
    reveal_strlit("relation");
    assert("relation"@.len() == 8 && "relation"@[0] == 'r' && "relation"@[1] == 'e' && "relation"@[2] == 'l' && "relation"@[3] == 'a' && "relation"@[4] == 't' && "relation"@[5] == 'i' && "relation"@[6] == 'o' && "relation"@[7] == 'n');
    reveal_strlit("semrole");
    assert("semrole"@.len() == 7 && "semrole"@[0] == 's' && "semrole"@[1] == 'e' && "semrole"@[2] == 'm' && "semrole"@[3] == 'r' && "semrole"@[4] == 'o' && "semrole"@[5] == 'l' && "semrole"@[6] == 'e');
    reveal_strlit("sense");
    assert("sense"@.len() == 5 && "sense"@[0] == 's' && "sense"@[1] == 'e' && "sense"@[2] == 'n' && "sense"@[3] == 's' && "sense"@[4] == 'e');
    reveal_strlit("sentence");
    assert("sentence"@.len() == 8 && "sentence"@[0] == 's' && "sentence"@[1] == 'e' && "sentence"@[2] == 'n' && "sentence"@[3] == 't' && "sentence"@[4] == 'e' && "sentence"@[5] == 'n' && "sentence"@[6] == 'c' && "sentence"@[7] == 'e');
    reveal_strlit("sentiment");
    assert("sentiment"@.len() == 9 && "sentiment"@[0] == 's' && "sentiment"@[1] == 'e' && "sentiment"@[2] == 'n' && "sentiment"@[3] == 't' && "sentiment"@[4] == 'i' && "sentiment"@[5] == 'm' && "sentiment"@[6] == 'e' && "sentiment"@[7] == 'n' && "sentiment"@[8] == 't');
    reveal_strlit("spanrelation");
    assert("spanrelation"@.len() == 12 && "spanrelation"@[0] == 's' && "spanrelation"@[1] == 'p' && "spanrelation"@[2] == 'a' && "spanrelation"@[3] == 'n' && "spanrelation"@[4] == 'r' && "spanrelation"@[5] == 'e' && "spanrelation"@[6] == 'l' && "spanrelation"@[7] == 'a' && "spanrelation"@[8] == 't' && "spanrelation"@[9] == 'i' && "spanrelation"@[10] == 'o' && "spanrelation"@[11] == 'n');
    reveal_strlit("statement");
    assert("statement"@.len() == 9 && "statement"@[0] == 's' && "statement"@[1] == 't' && "statement"@[2] == 'a' && "statement"@[3] == 't' && "statement"@[4] == 'e' && "statement"@[5] == 'm' && "statement"@[6] == 'e' && "statement"@[7] == 'n' && "statement"@[8] == 't');
    reveal_strlit("string");
    assert("string"@.len() == 6 && "string"@[0] == 's' && "string"@[1] == 't' && "string"@[2] == 'r' && "string"@[3] == 'i' && "string"@[4] == 'n' && "string"@[5] == 'g');
    reveal_strlit("subjectivity");
    assert("subjectivity"@.len() == 12 && "subjectivity"@[0] == 's' && "subjectivity"@[1] == 'u' && "subjectivity"@[2] == 'b' && "subjectivity"@[3] == 'j' && "subjectivity"@[4] == 'e' && "subjectivity"@[5] == 'c' && "subjectivity"@[6] == 't' && "subjectivity"@[7] == 'i' && "subjectivity"@[8] == 'v' && "subjectivity"@[9] == 'i' && "subjectivity"@[10] == 't' && "subjectivity"@[11] == 'y');
    reveal_strlit("syntax");
    assert("syntax"@.len() == 6 && "syntax"@[0] == 's' && "syntax"@[1] == 'y' && "syntax"@[2] == 'n' && "syntax"@[3] == 't' && "syntax"@[4] == 'a' && "syntax"@[5] == 'x');
    reveal_strlit("table");
    assert("table"@.len() == 5 && "table"@[0] == 't' && "table"@[1] == 'a' && "table"@[2] == 'b' && "table"@[3] == 'l' && "table"@[4] == 'e');
    reveal_strlit("term");
    assert("term"@.len() == 4 && "term"@[0] == 't' && "term"@[1] == 'e' && "term"@[2] == 'r' && "term"@[3] == 'm');
    reveal_strlit("text");
    assert("text"@.len() == 4 && "text"@[0] == 't' && "text"@[1] == 'e' && "text"@[2] == 'x' && "text"@[3] == 't');
    reveal_strlit("style");
    assert("style"@.len() == 5 && "style"@[0] == 's' && "style"@[1] == 't' && "style"@[2] == 'y' && "style"@[3] == 'l' && "style"@[4] == 'e');
    reveal_strlit("timesegment");
    assert("timesegment"@.len() == 11 && "timesegment"@[0] == 't' && "timesegment"@[1] == 'i' && "timesegment"@[2] == 'm' && "timesegment"@[3] == 'e' && "timesegment"@[4] == 's' && "timesegment"@[5] == 'e' && "timesegment"@[6] == 'g' && "timesegment"@[7] == 'm' && "timesegment"@[8] == 'e' && "timesegment"@[9] == 'n' && "timesegment"@[10] == 't');
    reveal_strlit("utterance");
    assert("utterance"@.len() == 9 && "utterance"@[0] == 'u' && "utterance"@[1] == 't' && "utterance"@[2] == 't' && "utterance"@[3] == 'e' && "utterance"@[4] == 'r' && "utterance"@[5] == 'a' && "utterance"@[6] == 'n' && "utterance"@[7] == 'c' && "utterance"@[8] == 'e');
    reveal_strlit("whitespace");
    assert("whitespace"@.len() == 10 && "whitespace"@[0] == 'w' && "whitespace"@[1] == 'h' && "whitespace"@[2] == 'i' && "whitespace"@[3] == 't' && "whitespace"@[4] == 'e' && "whitespace"@[5] == 's' && "whitespace"@[6] == 'p' && "whitespace"@[7] == 'a' && "whitespace"@[8] == 'c' && "whitespace"@[9] == 'e');
    reveal_strlit("token");
    assert("token"@.len() == 5 && "token"@[0] == 't' && "token"@[1] == 'o' && "token"@[2] == 'k' && "token"@[3] == 'e' && "token"@[4] == 'n');
    match a {
        AnnotationType::ALTERNATIVE => {},
        AnnotationType::CHUNKING => {},
        AnnotationType::COMMENT => {},
        AnnotationType::RAWCONTENT => {},
        AnnotationType::COREFERENCE => {},
        AnnotationType::CORRECTION => {},
        AnnotationType::DEFINITION => {},
        AnnotationType::DEPENDENCY => {},
        AnnotationType::DESCRIPTION => {},
        AnnotationType::DIVISION => {},
        AnnotationType::DOMAIN => {},
        AnnotationType::ENTITY => {},
        AnnotationType::ENTRY => {},
        AnnotationType::ERRORDETECTION => {},
        AnnotationType::EVENT => {},
        AnnotationType::EXAMPLE => {},
        AnnotationType::FIGURE => {},
        AnnotationType::GAP => {},
        AnnotationType::HEAD => {},
        AnnotationType::HIDDENTOKEN => {},
        AnnotationType::HYPHENATION => {},
        AnnotationType::LANG => {},
        AnnotationType::LEMMA => {},
        AnnotationType::LINEBREAK => {},
        AnnotationType::LIST => {},
        AnnotationType::METRIC => {},
        AnnotationType::MORPHOLOGICAL => {},
        AnnotationType::NOTE => {},
        AnnotationType::OBSERVATION => {},
        AnnotationType::PARAGRAPH => {},
        AnnotationType::PART => {},
        AnnotationType::PHON => {},
        AnnotationType::PHONOLOGICAL => {},
        AnnotationType::POS => {},
        AnnotationType::PREDICATE => {},
        AnnotationType::QUOTE => {},
        AnnotationType::REFERENCE => {},
        AnnotationType::RELATION => {},
        AnnotationType::SEMROLE => {},
        AnnotationType::SENSE => {},
        AnnotationType::SENTENCE => {},
        AnnotationType::SENTIMENT => {},
        AnnotationType::SPANRELATION => {},
        AnnotationType::STATEMENT => {},
        AnnotationType::STRING => {},
        AnnotationType::SUBJECTIVITY => {},
        AnnotationType::SYNTAX => {},
        AnnotationType::TABLE => {},
        AnnotationType::TERM => {},
        AnnotationType::TEXT => {},
        AnnotationType::STYLE => {},
        AnnotationType::TIMESEGMENT => {},
        AnnotationType::UTTERANCE => {},
        AnnotationType::WHITESPACE => {},
        AnnotationType::TOKEN => {},
    }
}

/// A name that stands for an annotation type is that type's name.
pub proof fn lemma_annotation_name_read_back(name: Seq<char>)
    ensures
        annotation_of_name(name) matches Some(a) ==> a.name() == name,
{
}

impl AnnotationType {
    /// The name of the annotation type, as used in declarations.
    pub open spec fn name(self) -> Seq<char> {
        match self {
            AnnotationType::TEXT => "text"@,
            AnnotationType::TOKEN => "token"@,
            AnnotationType::DIVISION => "division"@,
            AnnotationType::PARAGRAPH => "paragraph"@,
            AnnotationType::HEAD => "head"@,
            AnnotationType::LIST => "list"@,
            AnnotationType::FIGURE => "figure"@,
            AnnotationType::WHITESPACE => "whitespace"@,
            AnnotationType::LINEBREAK => "linebreak"@,
            AnnotationType::SENTENCE => "sentence"@,
            AnnotationType::POS => "pos"@,
            AnnotationType::LEMMA => "lemma"@,
            AnnotationType::DOMAIN => "domain"@,
            AnnotationType::SENSE => "sense"@,
            AnnotationType::SYNTAX => "syntax"@,
            AnnotationType::CHUNKING => "chunking"@,
            AnnotationType::ENTITY => "entity"@,
            AnnotationType::CORRECTION => "correction"@,
            AnnotationType::ERRORDETECTION => "errordetection"@,
            AnnotationType::PHON => "phon"@,
            AnnotationType::SUBJECTIVITY => "subjectivity"@,
            AnnotationType::MORPHOLOGICAL => "morphological"@,
            AnnotationType::EVENT => "event"@,
            AnnotationType::DEPENDENCY => "dependency"@,
            AnnotationType::TIMESEGMENT => "timesegment"@,
            AnnotationType::GAP => "gap"@,
            AnnotationType::QUOTE => "quote"@,
            AnnotationType::NOTE => "note"@,
            AnnotationType::REFERENCE => "reference"@,
            AnnotationType::RELATION => "relation"@,
            AnnotationType::SPANRELATION => "spanrelation"@,
            AnnotationType::COREFERENCE => "coreference"@,
            AnnotationType::SEMROLE => "semrole"@,
            AnnotationType::METRIC => "metric"@,
            AnnotationType::LANG => "lang"@,
            AnnotationType::STRING => "string"@,
            AnnotationType::TABLE => "table"@,
            AnnotationType::STYLE => "style"@,
            AnnotationType::PART => "part"@,
            AnnotationType::UTTERANCE => "utterance"@,
            AnnotationType::ENTRY => "entry"@,
            AnnotationType::TERM => "term"@,
            AnnotationType::DEFINITION => "definition"@,
            AnnotationType::EXAMPLE => "example"@,
            AnnotationType::PHONOLOGICAL => "phonological"@,
            AnnotationType::PREDICATE => "predicate"@,
            AnnotationType::OBSERVATION => "observation"@,
            AnnotationType::SENTIMENT => "sentiment"@,
            AnnotationType::STATEMENT => "statement"@,
            AnnotationType::ALTERNATIVE => "alternative"@,
            AnnotationType::RAWCONTENT => "content"@,
            AnnotationType::COMMENT => "comment"@,
            AnnotationType::DESCRIPTION => "description"@,
            AnnotationType::HYPHENATION => "hyphenation"@,
            AnnotationType::HIDDENTOKEN => "hiddentoken"@,
        }
    }

    /// The XML tag of the primary element of the annotation type.
    pub open spec fn element_tag(self) -> Seq<char> {
        match self {
            AnnotationType::TEXT => "t"@,
            AnnotationType::TOKEN => "w"@,
            AnnotationType::DIVISION => "div"@,
            AnnotationType::PARAGRAPH => "p"@,
            AnnotationType::HEAD => "head"@,
            AnnotationType::LIST => "list"@,
            AnnotationType::FIGURE => "figure"@,
            AnnotationType::WHITESPACE => "whitespace"@,
            AnnotationType::LINEBREAK => "br"@,
            AnnotationType::SENTENCE => "s"@,
            AnnotationType::POS => "pos"@,
            AnnotationType::LEMMA => "lemma"@,
            AnnotationType::DOMAIN => "domain"@,
            AnnotationType::SENSE => "sense"@,
            AnnotationType::SYNTAX => "su"@,
            AnnotationType::CHUNKING => "chunk"@,
            AnnotationType::ENTITY => "entity"@,
            AnnotationType::CORRECTION => "correction"@,
            AnnotationType::ERRORDETECTION => "errordetection"@,
            AnnotationType::PHON => "ph"@,
            AnnotationType::SUBJECTIVITY => "subjectivity"@,
            AnnotationType::MORPHOLOGICAL => "morpheme"@,
            AnnotationType::EVENT => "event"@,
            AnnotationType::DEPENDENCY => "dependency"@,
            AnnotationType::TIMESEGMENT => "timesegment"@,
            AnnotationType::GAP => "gap"@,
            AnnotationType::QUOTE => "quote"@,
            AnnotationType::NOTE => "note"@,
            AnnotationType::REFERENCE => "ref"@,
            AnnotationType::RELATION => "relation"@,
            AnnotationType::SPANRELATION => "spanrelation"@,
            AnnotationType::COREFERENCE => "coreferencechain"@,
            AnnotationType::SEMROLE => "semrole"@,
            AnnotationType::METRIC => "metric"@,
            AnnotationType::LANG => "lang"@,
            AnnotationType::STRING => "str"@,
            AnnotationType::TABLE => "table"@,
            AnnotationType::STYLE => "t-style"@,
            AnnotationType::PART => "part"@,
            AnnotationType::UTTERANCE => "utt"@,
            AnnotationType::ENTRY => "entry"@,
            AnnotationType::TERM => "term"@,
            AnnotationType::DEFINITION => "def"@,
            AnnotationType::EXAMPLE => "ex"@,
            AnnotationType::PHONOLOGICAL => "phoneme"@,
            AnnotationType::PREDICATE => "predicate"@,
            AnnotationType::OBSERVATION => "observation"@,
            AnnotationType::SENTIMENT => "sentiment"@,
            AnnotationType::STATEMENT => "statement"@,
            AnnotationType::ALTERNATIVE => "alt"@,
            AnnotationType::RAWCONTENT => "content"@,
            AnnotationType::COMMENT => "comment"@,
            AnnotationType::DESCRIPTION => "desc"@,
            AnnotationType::HYPHENATION => "t-hbr"@,
            AnnotationType::HIDDENTOKEN => "hiddenw"@,
        }
    }

    /// The primary element type of the annotation type.
    pub open spec fn primary(self) -> ElementType {
        match self {
            AnnotationType::TEXT => ElementType::TextContent,
            AnnotationType::TOKEN => ElementType::Word,
            AnnotationType::DIVISION => ElementType::Division,
            AnnotationType::PARAGRAPH => ElementType::Paragraph,
            AnnotationType::HEAD => ElementType::Head,
            AnnotationType::LIST => ElementType::List,
            AnnotationType::FIGURE => ElementType::Figure,
            AnnotationType::WHITESPACE => ElementType::Whitespace,
            AnnotationType::LINEBREAK => ElementType::Linebreak,
            AnnotationType::SENTENCE => ElementType::Sentence,
            AnnotationType::POS => ElementType::PosAnnotation,
            AnnotationType::LEMMA => ElementType::LemmaAnnotation,
            AnnotationType::DOMAIN => ElementType::DomainAnnotation,
            AnnotationType::SENSE => ElementType::SenseAnnotation,
            AnnotationType::SYNTAX => ElementType::SyntacticUnit,
            AnnotationType::CHUNKING => ElementType::Chunk,
            AnnotationType::ENTITY => ElementType::Entity,
            AnnotationType::CORRECTION => ElementType::Correction,
            AnnotationType::ERRORDETECTION => ElementType::ErrorDetection,
            AnnotationType::PHON => ElementType::PhonContent,
            AnnotationType::SUBJECTIVITY => ElementType::SubjectivityAnnotation,
            AnnotationType::MORPHOLOGICAL => ElementType::Morpheme,
            AnnotationType::EVENT => ElementType::Event,
            AnnotationType::DEPENDENCY => ElementType::Dependency,
            AnnotationType::TIMESEGMENT => ElementType::TimeSegment,
            AnnotationType::GAP => ElementType::Gap,
            AnnotationType::QUOTE => ElementType::Quote,
            AnnotationType::NOTE => ElementType::Note,
            AnnotationType::REFERENCE => ElementType::Reference,
            AnnotationType::RELATION => ElementType::Relation,
            AnnotationType::SPANRELATION => ElementType::SpanRelation,
            AnnotationType::COREFERENCE => ElementType::CoreferenceChain,
            AnnotationType::SEMROLE => ElementType::SemanticRole,
            AnnotationType::METRIC => ElementType::Metric,
            AnnotationType::LANG => ElementType::LangAnnotation,
            AnnotationType::STRING => ElementType::String,
            AnnotationType::TABLE => ElementType::Table,
            AnnotationType::STYLE => ElementType::TextMarkupStyle,
            AnnotationType::PART => ElementType::Part,
            AnnotationType::UTTERANCE => ElementType::Utterance,
            AnnotationType::ENTRY => ElementType::Entry,
            AnnotationType::TERM => ElementType::Term,
            AnnotationType::DEFINITION => ElementType::Definition,
            AnnotationType::EXAMPLE => ElementType::Example,
            AnnotationType::PHONOLOGICAL => ElementType::Phoneme,
            AnnotationType::PREDICATE => ElementType::Predicate,
            AnnotationType::OBSERVATION => ElementType::Observation,
            AnnotationType::SENTIMENT => ElementType::Sentiment,
            AnnotationType::STATEMENT => ElementType::Statement,
            AnnotationType::ALTERNATIVE => ElementType::Alternative,
            AnnotationType::RAWCONTENT => ElementType::Content,
            AnnotationType::COMMENT => ElementType::Comment,
            AnnotationType::DESCRIPTION => ElementType::Description,
            AnnotationType::HYPHENATION => ElementType::Hyphbreak,
            AnnotationType::HIDDENTOKEN => ElementType::Hiddenword,
        }
    }

    /// The layer element type that holds span annotations of this type, if any.
    pub open spec fn layer(self) -> Option<ElementType> {
        match self {
            AnnotationType::CHUNKING => Some(ElementType::ChunkingLayer),
            AnnotationType::COREFERENCE => Some(ElementType::CoreferenceLayer),
            AnnotationType::DEPENDENCY => Some(ElementType::DependenciesLayer),
            AnnotationType::ENTITY => Some(ElementType::EntitiesLayer),
            AnnotationType::MORPHOLOGICAL => Some(ElementType::MorphologyLayer),
            AnnotationType::OBSERVATION => Some(ElementType::ObservationLayer),
            AnnotationType::PHONOLOGICAL => Some(ElementType::PhonologyLayer),
            AnnotationType::SEMROLE => Some(ElementType::SemanticRolesLayer),
            AnnotationType::SENTIMENT => Some(ElementType::SentimentLayer),
            AnnotationType::SPANRELATION => Some(ElementType::SpanRelationLayer),
            AnnotationType::STATEMENT => Some(ElementType::StatementLayer),
            AnnotationType::SYNTAX => Some(ElementType::SyntaxLayer),
            AnnotationType::TIMESEGMENT => Some(ElementType::TimingLayer),
            _ => None,
        }
    }

    ///Maps annotation types to strings
    pub fn as_str(&self) -> (s: &'static str)
        ensures
            s@ == self.name(),
    {
        match self {
            AnnotationType::TEXT => "text",
            AnnotationType::TOKEN => "token",
            AnnotationType::DIVISION => "division",
            AnnotationType::PARAGRAPH => "paragraph",
            AnnotationType::HEAD => "head",
            AnnotationType::LIST => "list",
            AnnotationType::FIGURE => "figure",
            AnnotationType::WHITESPACE => "whitespace",
            AnnotationType::LINEBREAK => "linebreak",
            AnnotationType::SENTENCE => "sentence",
            AnnotationType::POS => "pos",
            AnnotationType::LEMMA => "lemma",
            AnnotationType::DOMAIN => "domain",
            AnnotationType::SENSE => "sense",
            AnnotationType::SYNTAX => "syntax",
            AnnotationType::CHUNKING => "chunking",
            AnnotationType::ENTITY => "entity",
            AnnotationType::CORRECTION => "correction",
            AnnotationType::ERRORDETECTION => "errordetection",
            AnnotationType::PHON => "phon",
            AnnotationType::SUBJECTIVITY => "subjectivity",
            AnnotationType::MORPHOLOGICAL => "morphological",
            AnnotationType::EVENT => "event",
            AnnotationType::DEPENDENCY => "dependency",
            AnnotationType::TIMESEGMENT => "timesegment",
            AnnotationType::GAP => "gap",
            AnnotationType::QUOTE => "quote",
            AnnotationType::NOTE => "note",
            AnnotationType::REFERENCE => "reference",
            AnnotationType::RELATION => "relation",
            AnnotationType::SPANRELATION => "spanrelation",
            AnnotationType::COREFERENCE => "coreference",
            AnnotationType::SEMROLE => "semrole",
            AnnotationType::METRIC => "metric",
            AnnotationType::LANG => "lang",
            AnnotationType::STRING => "string",
            AnnotationType::TABLE => "table",
            AnnotationType::STYLE => "style",
            AnnotationType::PART => "part",
            AnnotationType::UTTERANCE => "utterance",
            AnnotationType::ENTRY => "entry",
            AnnotationType::TERM => "term",
            AnnotationType::DEFINITION => "definition",
            AnnotationType::EXAMPLE => "example",
            AnnotationType::PHONOLOGICAL => "phonological",
            AnnotationType::PREDICATE => "predicate",
            AnnotationType::OBSERVATION => "observation",
            AnnotationType::SENTIMENT => "sentiment",
            AnnotationType::STATEMENT => "statement",
            AnnotationType::ALTERNATIVE => "alternative",
            AnnotationType::RAWCONTENT => "content",
            AnnotationType::COMMENT => "comment",
            AnnotationType::DESCRIPTION => "description",
            AnnotationType::HYPHENATION => "hyphenation",
            AnnotationType::HIDDENTOKEN => "hiddentoken",
        }
    }

    ///Maps strings to annotation types
    pub fn from_str(s: &str) -> (r: Option<Self>)
        ensures
            r matches Some(a) ==> a.name() == s@,
            r is None ==> forall|a: AnnotationType| a.name() != s@,
            r == annotation_of_name(s@),
    {
        if str_eq(s, "alternative") {
            return Some(AnnotationType::ALTERNATIVE);
        }
        if str_eq(s, "chunking") {
            return Some(AnnotationType::CHUNKING);
        }
        if str_eq(s, "comment") {
            return Some(AnnotationType::COMMENT);
        }
        if str_eq(s, "content") {
            return Some(AnnotationType::RAWCONTENT);
        }
        if str_eq(s, "coreference") {
            return Some(AnnotationType::COREFERENCE);
        }
        if str_eq(s, "correction") {
            return Some(AnnotationType::CORRECTION);
        }
        if str_eq(s, "definition") {
            return Some(AnnotationType::DEFINITION);
        }
        if str_eq(s, "dependency") {
            return Some(AnnotationType::DEPENDENCY);
        }
        if str_eq(s, "description") {
            return Some(AnnotationType::DESCRIPTION);
        }
        if str_eq(s, "division") {
            return Some(AnnotationType::DIVISION);
        }
        if str_eq(s, "domain") {
            return Some(AnnotationType::DOMAIN);
        }
        if str_eq(s, "entity") {
            return Some(AnnotationType::ENTITY);
        }
        if str_eq(s, "entry") {
            return Some(AnnotationType::ENTRY);
        }
        if str_eq(s, "errordetection") {
            return Some(AnnotationType::ERRORDETECTION);
        }
        if str_eq(s, "event") {
            return Some(AnnotationType::EVENT);
        }
        if str_eq(s, "example") {
            return Some(AnnotationType::EXAMPLE);
        }
        if str_eq(s, "figure") {
            return Some(AnnotationType::FIGURE);
        }
        if str_eq(s, "gap") {
            return Some(AnnotationType::GAP);
        }
        if str_eq(s, "head") {
            return Some(AnnotationType::HEAD);
        }
        if str_eq(s, "hiddentoken") {
            return Some(AnnotationType::HIDDENTOKEN);
        }
        if str_eq(s, "hyphenation") {
            return Some(AnnotationType::HYPHENATION);
        }
        if str_eq(s, "lang") {
            return Some(AnnotationType::LANG);
        }
        if str_eq(s, "lemma") {
            return Some(AnnotationType::LEMMA);
        }
        if str_eq(s, "linebreak") {
            return Some(AnnotationType::LINEBREAK);
        }
        if str_eq(s, "list") {
            return Some(AnnotationType::LIST);
        }
        if str_eq(s, "metric") {
            return Some(AnnotationType::METRIC);
        }
        if str_eq(s, "morphological") {
            return Some(AnnotationType::MORPHOLOGICAL);
        }
        if str_eq(s, "note") {
            return Some(AnnotationType::NOTE);
        }
        if str_eq(s, "observation") {
            return Some(AnnotationType::OBSERVATION);
        }
        if str_eq(s, "paragraph") {
            return Some(AnnotationType::PARAGRAPH);
        }
        if str_eq(s, "part") {
            return Some(AnnotationType::PART);
        }
        if str_eq(s, "phon") {
            return Some(AnnotationType::PHON);
        }
        if str_eq(s, "phonological") {
            return Some(AnnotationType::PHONOLOGICAL);
        }
        if str_eq(s, "pos") {
            return Some(AnnotationType::POS);
        }
        if str_eq(s, "predicate") {
            return Some(AnnotationType::PREDICATE);
        }
        if str_eq(s, "quote") {
            return Some(AnnotationType::QUOTE);
        }
        if str_eq(s, "reference") {
            return Some(AnnotationType::REFERENCE);
        }
        if str_eq(s, "relation") {
            return Some(AnnotationType::RELATION);
        }
        if str_eq(s, "semrole") {
            return Some(AnnotationType::SEMROLE);
        }
        if str_eq(s, "sense") {
            return Some(AnnotationType::SENSE);
        }
        if str_eq(s, "sentence") {
            return Some(AnnotationType::SENTENCE);
        }
        if str_eq(s, "sentiment") {
            return Some(AnnotationType::SENTIMENT);
        }
        if str_eq(s, "spanrelation") {
            return Some(AnnotationType::SPANRELATION);
        }
        if str_eq(s, "statement") {
            return Some(AnnotationType::STATEMENT);
        }
        if str_eq(s, "string") {
            return Some(AnnotationType::STRING);
        }
        if str_eq(s, "subjectivity") {
            return Some(AnnotationType::SUBJECTIVITY);
        }
        if str_eq(s, "syntax") {
            return Some(AnnotationType::SYNTAX);
        }
        if str_eq(s, "table") {
            return Some(AnnotationType::TABLE);
        }
        if str_eq(s, "term") {
            return Some(AnnotationType::TERM);
        }
        if str_eq(s, "text") {
            return Some(AnnotationType::TEXT);
        }
        if str_eq(s, "style") {
            return Some(AnnotationType::STYLE);
        }
        if str_eq(s, "timesegment") {
            return Some(AnnotationType::TIMESEGMENT);
        }
        if str_eq(s, "utterance") {
            return Some(AnnotationType::UTTERANCE);
        }
        if str_eq(s, "whitespace") {
            return Some(AnnotationType::WHITESPACE);
        }
        if str_eq(s, "token") {
            return Some(AnnotationType::TOKEN);
        }
        None
    }

    ///Maps annotation types to the XML tags of their primary elements
    pub fn as_element_str(&self) -> (s: &'static str)
        ensures
            s@ == self.element_tag(),
    {
        match self {
            AnnotationType::TEXT => "t",
            AnnotationType::TOKEN => "w",
            AnnotationType::DIVISION => "div",
            AnnotationType::PARAGRAPH => "p",
            AnnotationType::HEAD => "head",
            AnnotationType::LIST => "list",
            AnnotationType::FIGURE => "figure",
            AnnotationType::WHITESPACE => "whitespace",
            AnnotationType::LINEBREAK => "br",
            AnnotationType::SENTENCE => "s",
            AnnotationType::POS => "pos",
            AnnotationType::LEMMA => "lemma",
            AnnotationType::DOMAIN => "domain",
            AnnotationType::SENSE => "sense",
            AnnotationType::SYNTAX => "su",
            AnnotationType::CHUNKING => "chunk",
            AnnotationType::ENTITY => "entity",
            AnnotationType::CORRECTION => "correction",
            AnnotationType::ERRORDETECTION => "errordetection",
            AnnotationType::PHON => "ph",
            AnnotationType::SUBJECTIVITY => "subjectivity",
            AnnotationType::MORPHOLOGICAL => "morpheme",
            AnnotationType::EVENT => "event",
            AnnotationType::DEPENDENCY => "dependency",
            AnnotationType::TIMESEGMENT => "timesegment",
            AnnotationType::GAP => "gap",
            AnnotationType::QUOTE => "quote",
            AnnotationType::NOTE => "note",
            AnnotationType::REFERENCE => "ref",
            AnnotationType::RELATION => "relation",
            AnnotationType::SPANRELATION => "spanrelation",
            AnnotationType::COREFERENCE => "coreferencechain",
            AnnotationType::SEMROLE => "semrole",
            AnnotationType::METRIC => "metric",
            AnnotationType::LANG => "lang",
            AnnotationType::STRING => "str",
            AnnotationType::TABLE => "table",
            AnnotationType::STYLE => "t-style",
            AnnotationType::PART => "part",
            AnnotationType::UTTERANCE => "utt",
            AnnotationType::ENTRY => "entry",
            AnnotationType::TERM => "term",
            AnnotationType::DEFINITION => "def",
            AnnotationType::EXAMPLE => "ex",
            AnnotationType::PHONOLOGICAL => "phoneme",
            AnnotationType::PREDICATE => "predicate",
            AnnotationType::OBSERVATION => "observation",
            AnnotationType::SENTIMENT => "sentiment",
            AnnotationType::STATEMENT => "statement",
            AnnotationType::ALTERNATIVE => "alt",
            AnnotationType::RAWCONTENT => "content",
            AnnotationType::COMMENT => "comment",
            AnnotationType::DESCRIPTION => "desc",
            AnnotationType::HYPHENATION => "t-hbr",
            AnnotationType::HIDDENTOKEN => "hiddenw",
        }
    }

    ///Maps annotation types to their primary element types
    pub fn elementtype(&self) -> (e: ElementType)
        ensures
            e == self.primary(),
    {
        match self {
            AnnotationType::TEXT => ElementType::TextContent,
            AnnotationType::TOKEN => ElementType::Word,
            AnnotationType::DIVISION => ElementType::Division,
            AnnotationType::PARAGRAPH => ElementType::Paragraph,
            AnnotationType::HEAD => ElementType::Head,
            AnnotationType::LIST => ElementType::List,
            AnnotationType::FIGURE => ElementType::Figure,
            AnnotationType::WHITESPACE => ElementType::Whitespace,
            AnnotationType::LINEBREAK => ElementType::Linebreak,
            AnnotationType::SENTENCE => ElementType::Sentence,
            AnnotationType::POS => ElementType::PosAnnotation,
            AnnotationType::LEMMA => ElementType::LemmaAnnotation,
            AnnotationType::DOMAIN => ElementType::DomainAnnotation,
            AnnotationType::SENSE => ElementType::SenseAnnotation,
            AnnotationType::SYNTAX => ElementType::SyntacticUnit,
            AnnotationType::CHUNKING => ElementType::Chunk,
            AnnotationType::ENTITY => ElementType::Entity,
            AnnotationType::CORRECTION => ElementType::Correction,
            AnnotationType::ERRORDETECTION => ElementType::ErrorDetection,
            AnnotationType::PHON => ElementType::PhonContent,
            AnnotationType::SUBJECTIVITY => ElementType::SubjectivityAnnotation,
            AnnotationType::MORPHOLOGICAL => ElementType::Morpheme,
            AnnotationType::EVENT => ElementType::Event,
            AnnotationType::DEPENDENCY => ElementType::Dependency,
            AnnotationType::TIMESEGMENT => ElementType::TimeSegment,
            AnnotationType::GAP => ElementType::Gap,
            AnnotationType::QUOTE => ElementType::Quote,
            AnnotationType::NOTE => ElementType::Note,
            AnnotationType::REFERENCE => ElementType::Reference,
            AnnotationType::RELATION => ElementType::Relation,
            AnnotationType::SPANRELATION => ElementType::SpanRelation,
            AnnotationType::COREFERENCE => ElementType::CoreferenceChain,
            AnnotationType::SEMROLE => ElementType::SemanticRole,
            AnnotationType::METRIC => ElementType::Metric,
            AnnotationType::LANG => ElementType::LangAnnotation,
            AnnotationType::STRING => ElementType::String,
            AnnotationType::TABLE => ElementType::Table,
            AnnotationType::STYLE => ElementType::TextMarkupStyle,
            AnnotationType::PART => ElementType::Part,
            AnnotationType::UTTERANCE => ElementType::Utterance,
            AnnotationType::ENTRY => ElementType::Entry,
            AnnotationType::TERM => ElementType::Term,
            AnnotationType::DEFINITION => ElementType::Definition,
            AnnotationType::EXAMPLE => ElementType::Example,
            AnnotationType::PHONOLOGICAL => ElementType::Phoneme,
            AnnotationType::PREDICATE => ElementType::Predicate,
            AnnotationType::OBSERVATION => ElementType::Observation,
            AnnotationType::SENTIMENT => ElementType::Sentiment,
            AnnotationType::STATEMENT => ElementType::Statement,
            AnnotationType::ALTERNATIVE => ElementType::Alternative,
            AnnotationType::RAWCONTENT => ElementType::Content,
            AnnotationType::COMMENT => ElementType::Comment,
            AnnotationType::DESCRIPTION => ElementType::Description,
            AnnotationType::HYPHENATION => ElementType::Hyphbreak,
            AnnotationType::HIDDENTOKEN => ElementType::Hiddenword,
        }
    }

    ///Maps span annotation types to the layer element types that hold them
    pub fn layertype(&self) -> (e: Option<ElementType>)
        ensures
            e == self.layer(),
    {
        match self {
            AnnotationType::CHUNKING => Some(ElementType::ChunkingLayer),
            AnnotationType::COREFERENCE => Some(ElementType::CoreferenceLayer),
            AnnotationType::DEPENDENCY => Some(ElementType::DependenciesLayer),
            AnnotationType::ENTITY => Some(ElementType::EntitiesLayer),
            AnnotationType::MORPHOLOGICAL => Some(ElementType::MorphologyLayer),
            AnnotationType::OBSERVATION => Some(ElementType::ObservationLayer),
            AnnotationType::PHONOLOGICAL => Some(ElementType::PhonologyLayer),
            AnnotationType::SEMROLE => Some(ElementType::SemanticRolesLayer),
            AnnotationType::SENTIMENT => Some(ElementType::SentimentLayer),
            AnnotationType::SPANRELATION => Some(ElementType::SpanRelationLayer),
            AnnotationType::STATEMENT => Some(ElementType::StatementLayer),
            AnnotationType::SYNTAX => Some(ElementType::SyntaxLayer),
            AnnotationType::TIMESEGMENT => Some(ElementType::TimingLayer),
            _ => None,
        }
    }
}

/// The element type that an XML tag names, if any.
pub open spec fn type_of_tag(tag: Seq<char>) -> Option<ElementType> {
    if tag == "actor"@ { Some(ElementType::ActorFeature) }
    else if tag == "alt"@ { Some(ElementType::Alternative) }
    else if tag == "altlayers"@ { Some(ElementType::AlternativeLayers) }
    else if tag == "begindatetime"@ { Some(ElementType::BegindatetimeFeature) }
    else if tag == "caption"@ { Some(ElementType::Caption) }
    else if tag == "cell"@ { Some(ElementType::Cell) }
    else if tag == "chunk"@ { Some(ElementType::Chunk) }
    else if tag == "chunking"@ { Some(ElementType::ChunkingLayer) }
    else if tag == "comment"@ { Some(ElementType::Comment) }
    else if tag == "content"@ { Some(ElementType::Content) }
    else if tag == "coreferencechain"@ { Some(ElementType::CoreferenceChain) }
    else if tag == "coreferences"@ { Some(ElementType::CoreferenceLayer) }
    else if tag == "coreferencelink"@ { Some(ElementType::CoreferenceLink) }
    else if tag == "correction"@ { Some(ElementType::Correction) }
    else if tag == "current"@ { Some(ElementType::Current) }
    else if tag == "def"@ { Some(ElementType::Definition) }
    else if tag == "dependencies"@ { Some(ElementType::DependenciesLayer) }
    else if tag == "dependency"@ { Some(ElementType::Dependency) }
    else if tag == "dep"@ { Some(ElementType::DependencyDependent) }
    else if tag == "desc"@ { Some(ElementType::Description) }
    else if tag == "div"@ { Some(ElementType::Division) }
    else if tag == "domain"@ { Some(ElementType::DomainAnnotation) }
    else if tag == "enddatetime"@ { Some(ElementType::EnddatetimeFeature) }
    else if tag == "entities"@ { Some(ElementType::EntitiesLayer) }
    else if tag == "entity"@ { Some(ElementType::Entity) }
    else if tag == "entry"@ { Some(ElementType::Entry) }
    else if tag == "errordetection"@ { Some(ElementType::ErrorDetection) }
    else if tag == "event"@ { Some(ElementType::Event) }
    else if tag == "ex"@ { Some(ElementType::Example) }
    else if tag == "external"@ { Some(ElementType::External) }
    else if tag == "feat"@ { Some(ElementType::Feature) }
    else if tag == "figure"@ { Some(ElementType::Figure) }
    else if tag == "foreign-data"@ { Some(ElementType::ForeignData) }
    else if tag == "function"@ { Some(ElementType::FunctionFeature) }
    else if tag == "gap"@ { Some(ElementType::Gap) }
    else if tag == "head"@ { Some(ElementType::Head) }
    else if tag == "headfeature"@ { Some(ElementType::HeadFeature) }
    else if tag == "hd"@ { Some(ElementType::Headspan) }
    else if tag == "hiddenw"@ { Some(ElementType::Hiddenword) }
    else if tag == "t-hbr"@ { Some(ElementType::Hyphbreak) }
    else if tag == "label"@ { Some(ElementType::Label) }
    else if tag == "lang"@ { Some(ElementType::LangAnnotation) }
    else if tag == "lemma"@ { Some(ElementType::LemmaAnnotation) }
    else if tag == "level"@ { Some(ElementType::LevelFeature) }
    else if tag == "br"@ { Some(ElementType::Linebreak) }
    else if tag == "xref"@ { Some(ElementType::LinkReference) }
    else if tag == "list"@ { Some(ElementType::List) }
    else if tag == "item"@ { Some(ElementType::ListItem) }
    else if tag == "metric"@ { Some(ElementType::Metric) }
    else if tag == "modality"@ { Some(ElementType::ModalityFeature) }
    else if tag == "morpheme"@ { Some(ElementType::Morpheme) }
    else if tag == "morphology"@ { Some(ElementType::MorphologyLayer) }
    else if tag == "new"@ { Some(ElementType::New) }
    else if tag == "note"@ { Some(ElementType::Note) }
    else if tag == "observation"@ { Some(ElementType::Observation) }
    else if tag == "observations"@ { Some(ElementType::ObservationLayer) }
    else if tag == "original"@ { Some(ElementType::Original) }
    else if tag == "p"@ { Some(ElementType::Paragraph) }
    else if tag == "part"@ { Some(ElementType::Part) }
    else if tag == "ph"@ { Some(ElementType::PhonContent) }
    else if tag == "phoneme"@ { Some(ElementType::Phoneme) }
    else if tag == "phonology"@ { Some(ElementType::PhonologyLayer) }
    else if tag == "polarity"@ { Some(ElementType::PolarityFeature) }
    else if tag == "pos"@ { Some(ElementType::PosAnnotation) }
    else if tag == "predicate"@ { Some(ElementType::Predicate) }
    else if tag == "quote"@ { Some(ElementType::Quote) }
    else if tag == "ref"@ { Some(ElementType::Reference) }
    else if tag == "relation"@ { Some(ElementType::Relation) }
    else if tag == "row"@ { Some(ElementType::Row) }
    else if tag == "semrole"@ { Some(ElementType::SemanticRole) }
    else if tag == "semroles"@ { Some(ElementType::SemanticRolesLayer) }
    else if tag == "sense"@ { Some(ElementType::SenseAnnotation) }
    else if tag == "s"@ { Some(ElementType::Sentence) }
    else if tag == "sentiment"@ { Some(ElementType::Sentiment) }
    else if tag == "sentiments"@ { Some(ElementType::SentimentLayer) }
    else if tag == "source"@ { Some(ElementType::Source) }
    else if tag == "spanrelation"@ { Some(ElementType::SpanRelation) }
    else if tag == "spanrelations"@ { Some(ElementType::SpanRelationLayer) }
    else if tag == "speech"@ { Some(ElementType::Speech) }
    else if tag == "statement"@ { Some(ElementType::Statement) }
    else if tag == "statements"@ { Some(ElementType::StatementLayer) }
    else if tag == "rel"@ { Some(ElementType::StatementRelation) }
    else if tag == "strength"@ { Some(ElementType::StrengthFeature) }
    else if tag == "str"@ { Some(ElementType::String) }
    else if tag == "style"@ { Some(ElementType::StyleFeature) }
    else if tag == "subjectivity"@ { Some(ElementType::SubjectivityAnnotation) }
    else if tag == "suggestion"@ { Some(ElementType::Suggestion) }
    else if tag == "synset"@ { Some(ElementType::SynsetFeature) }
    else if tag == "su"@ { Some(ElementType::SyntacticUnit) }
    else if tag == "syntax"@ { Some(ElementType::SyntaxLayer) }
    else if tag == "table"@ { Some(ElementType::Table) }
    else if tag == "tablehead"@ { Some(ElementType::TableHead) }
    else if tag == "target"@ { Some(ElementType::Target) }
    else if tag == "term"@ { Some(ElementType::Term) }
    else if tag == "text"@ { Some(ElementType::Text) }
    else if tag == "t"@ { Some(ElementType::TextContent) }
    else if tag == "t-correction"@ { Some(ElementType::TextMarkupCorrection) }
    else if tag == "t-error"@ { Some(ElementType::TextMarkupError) }
    else if tag == "t-gap"@ { Some(ElementType::TextMarkupGap) }
    else if tag == "t-ref"@ { Some(ElementType::TextMarkupReference) }
    else if tag == "t-str"@ { Some(ElementType::TextMarkupString) }
    else if tag == "t-style"@ { Some(ElementType::TextMarkupStyle) }
    else if tag == "time"@ { Some(ElementType::TimeFeature) }
    else if tag == "timesegment"@ { Some(ElementType::TimeSegment) }
    else if tag == "timing"@ { Some(ElementType::TimingLayer) }
    else if tag == "utt"@ { Some(ElementType::Utterance) }
    else if tag == "value"@ { Some(ElementType::ValueFeature) }
    else if tag == "whitespace"@ { Some(ElementType::Whitespace) }
    else if tag == "w"@ { Some(ElementType::Word) }
    else if tag == "wref"@ { Some(ElementType::WordReference) }
    else { None }
}

/// The tag of an element type reads back as that type: tags are distinct.
#[verifier::rlimit(50)]
pub proof fn lemma_tag_round_trip(t: ElementType)
    ensures
        type_of_tag(t.tag()) == Some(t),
{
    reveal_strlit("actor");
    assert("actor"@.len() == 5 && "actor"@[0] == 'a' && "actor"@[1] == 'c' && "actor"@[2] == 't' && "actor"@[3] == 'o' && "actor"@[4] == 'r');
    reveal_strlit("alt");
    assert("alt"@.len() == 3 && "alt"@[0] == 'a' && "alt"@[1] == 'l' && "alt"@[2] == 't');
    reveal_strlit("altlayers");
    assert("altlayers"@.len() == 9 && "altlayers"@[0] == 'a' && "altlayers"@[1] == 'l' && "altlayers"@[2] == 't' && "altlayers"@[3] == 'l' && "altlayers"@[4] == 'a' && "altlayers"@[5] == 'y' && "altlayers"@[6] == 'e' && "altlayers"@[7] == 'r' && "altlayers"@[8] == 's');
    reveal_strlit("begindatetime");
    assert("begindatetime"@.len() == 13 && "begindatetime"@[0] == 'b' && "begindatetime"@[1] == 'e' && "begindatetime"@[2] == 'g' && "begindatetime"@[3] == 'i' && "begindatetime"@[4] == 'n' && "begindatetime"@[5] == 'd' && "begindatetime"@[6] == 'a' && "begindatetime"@[7] == 't' && "begindatetime"@[8] == 'e' && "begindatetime"@[9] == 't' && "begindatetime"@[10] == 'i' && "begindatetime"@[11] == 'm' && "begindatetime"@[12] == 'e');
    reveal_strlit("caption");
    assert("caption"@.len() == 7 && "caption"@[0] == 'c' && "caption"@[1] == 'a' && "caption"@[2] == 'p' && "caption"@[3] == 't' && "caption"@[4] == 'i' && "caption"@[5] == 'o' && "caption"@[6] == 'n');
    reveal_strlit("cell");
    assert("cell"@.len() == 4 && "cell"@[0] == 'c' && "cell"@[1] == 'e' && "cell"@[2] == 'l' && "cell"@[3] == 'l');
    reveal_strlit("chunk");
    assert("chunk"@.len() == 5 && "chunk"@[0] == 'c' && "chunk"@[1] == 'h' && "chunk"@[2] == 'u' && "chunk"@[3] == 'n' && "chunk"@[4] == 'k');
    reveal_strlit("chunking");
    assert("chunking"@.len() == 8 && "chunking"@[0] == 'c' && "chunking"@[1] == 'h' && "chunking"@[2] == 'u' && "chunking"@[3] == 'n' && "chunking"@[4] == 'k' && "chunking"@[5] == 'i' && "chunking"@[6] == 'n' && "chunking"@[7] == 'g');
    reveal_strlit("comment");
    assert("comment"@.len() == 7 && "comment"@[0] == 'c' && "comment"@[1] == 'o' && "comment"@[2] == 'm' && "comment"@[3] == 'm' && "comment"@[4] == 'e' && "comment"@[5] == 'n' && "comment"@[6] == 't');
    reveal_strlit("content");
    assert("content"@.len() == 7 && "content"@[0] == 'c' && "content"@[1] == 'o' && "content"@[2] == 'n' && "content"@[3] == 't' && "content"@[4] == 'e' && "content"@[5] == 'n' && "content"@[6] == 't');
    reveal_strlit("coreferencechain");
    assert("coreferencechain"@.len() == 16 && "coreferencechain"@[0] == 'c' && "coreferencechain"@[1] == 'o' && "coreferencechain"@[2] == 'r' && "coreferencechain"@[3] == 'e' && "coreferencechain"@[4] == 'f' && "coreferencechain"@[5] == 'e' && "coreferencechain"@[6] == 'r' && "coreferencechain"@[7] == 'e' && "coreferencechain"@[8] == 'n' && "coreferencechain"@[9] == 'c' && "coreferencechain"@[10] == 'e' && "coreferencechain"@[11] == 'c' && "coreferencechain"@[12] == 'h' && "coreferencechain"@[13] == 'a' && "coreferencechain"@[14] == 'i' && "coreferencechain"@[15] == 'n');
    reveal_strlit("coreferences");
    assert("coreferences"@.len() == 12 && "coreferences"@[0] == 'c' && "coreferences"@[1] == 'o' && "coreferences"@[2] == 'r' && "coreferences"@[3] == 'e' && "coreferences"@[4] == 'f' && "coreferences"@[5] == 'e' && "coreferences"@[6] == 'r' && "coreferences"@[7] == 'e' && "coreferences"@[8] == 'n' && "coreferences"@[9] == 'c' && "coreferences"@[10] == 'e' && "coreferences"@[11] == 's');
    reveal_strlit("coreferencelink");
    assert("coreferencelink"@.len() == 15 && "coreferencelink"@[0] == 'c' && "coreferencelink"@[1] == 'o' && "coreferencelink"@[2] == 'r' && "coreferencelink"@[3] == 'e' && "coreferencelink"@[4] == 'f' && "coreferencelink"@[5] == 'e' && "coreferencelink"@[6] == 'r' && "coreferencelink"@[7] == 'e' && "coreferencelink"@[8] == 'n' && "coreferencelink"@[9] == 'c' && "coreferencelink"@[10] == 'e' && "coreferencelink"@[11] == 'l' && "coreferencelink"@[12] == 'i' && "coreferencelink"@[13] == 'n' && "coreferencelink"@[14] == 'k');
    reveal_strlit("correction");
    assert("correction"@.len() == 10 && "correction"@[0] == 'c' && "correction"@[1] == 'o' && "correction"@[2] == 'r' && "correction"@[3] == 'r' && "correction"@[4] == 'e' && "correction"@[5] == 'c' && "correction"@[6] == 't' && "correction"@[7] == 'i' && "correction"@[8] == 'o' && "correction"@[9] == 'n');
    reveal_strlit("current");
    assert("current"@.len() == 7 && "current"@[0] == 'c' && "current"@[1] == 'u' && "current"@[2] == 'r' && "current"@[3] == 'r' && "current"@[4] == 'e' && "current"@[5] == 'n' && "current"@[6] == 't');
    reveal_strlit("def");
    assert("def"@.len() == 3 && "def"@[0] == 'd' && "def"@[1] == 'e' && "def"@[2] == 'f');
    reveal_strlit("dependencies");
    assert("dependencies"@.len() == 12 && "dependencies"@[0] == 'd' && "dependencies"@[1] == 'e' && "dependencies"@[2] == 'p' && "dependencies"@[3] == 'e' && "dependencies"@[4] == 'n' && "dependencies"@[5] == 'd' && "dependencies"@[6] == 'e' && "dependencies"@[7] == 'n' && "dependencies"@[8] == 'c' && "dependencies"@[9] == 'i' && "dependencies"@[10] == 'e' && "dependencies"@[11] == 's');
    reveal_strlit("dependency");
    assert("dependency"@.len() == 10 && "dependency"@[0] == 'd' && "dependency"@[1] == 'e' && "dependency"@[2] == 'p' && "dependency"@[3] == 'e' && "dependency"@[4] == 'n' && "dependency"@[5] == 'd' && "dependency"@[6] == 'e' && "dependency"@[7] == 'n' && "dependency"@[8] == 'c' && "dependency"@[9] == 'y');
    reveal_strlit("dep");
    assert("dep"@.len() == 3 && "dep"@[0] == 'd' && "dep"@[1] == 'e' && "dep"@[2] == 'p');
    reveal_strlit("desc");
    assert("desc"@.len() == 4 && "desc"@[0] == 'd' && "desc"@[1] == 'e' && "desc"@[2] == 's' && "desc"@[3] == 'c');
    reveal_strlit("div");
    assert("div"@.len() == 3 && "div"@[0] == 'd' && "div"@[1] == 'i' && "div"@[2] == 'v');
    reveal_strlit("domain");
    assert("domain"@.len() == 6 && "domain"@[0] == 'd' && "domain"@[1] == 'o' && "domain"@[2] == 'm' && "domain"@[3] == 'a' && "domain"@[4] == 'i' && "domain"@[5] == 'n');
    reveal_strlit("enddatetime");
    assert("enddatetime"@.len() == 11 && "enddatetime"@[0] == 'e' && "enddatetime"@[1] == 'n' && "enddatetime"@[2] == 'd' && "enddatetime"@[3] == 'd' && "enddatetime"@[4] == 'a' && "enddatetime"@[5] == 't' && "enddatetime"@[6] == 'e' && "enddatetime"@[7] == 't' && "enddatetime"@[8] == 'i' && "enddatetime"@[9] == 'm' && "enddatetime"@[10] == 'e');
    reveal_strlit("entities");
    assert("entities"@.len() == 8 && "entities"@[0] == 'e' && "entities"@[1] == 'n' && "entities"@[2] == 't' && "entities"@[3] == 'i' && "entities"@[4] == 't' && "entities"@[5] == 'i' && "entities"@[6] == 'e' && "entities"@[7] == 's');
    reveal_strlit("entity");
    assert("entity"@.len() == 6 && "entity"@[0] == 'e' && "entity"@[1] == 'n' && "entity"@[2] == 't' && "entity"@[3] == 'i' && "entity"@[4] == 't' && "entity"@[5] == 'y');
    reveal_strlit("entry");
    assert("entry"@.len() == 5 && "entry"@[0] == 'e' && "entry"@[1] == 'n' && "entry"@[2] == 't' && "entry"@[3] == 'r' && "entry"@[4] == 'y');
    reveal_strlit("errordetection");
    assert("errordetection"@.len() == 14 && "errordetection"@[0] == 'e' && "errordetection"@[1] == 'r' && "errordetection"@[2] == 'r' && "errordetection"@[3] == 'o' && "errordetection"@[4] == 'r' && "errordetection"@[5] == 'd' && "errordetection"@[6] == 'e' && "errordetection"@[7] == 't' && "errordetection"@[8] == 'e' && "errordetection"@[9] == 'c' && "errordetection"@[10] == 't' && "errordetection"@[11] == 'i' && "errordetection"@[12] == 'o' && "errordetection"@[13] == 'n');
    reveal_strlit("event");
    assert("event"@.len() == 5 && "event"@[0] == 'e' && "event"@[1] == 'v' && "event"@[2] == 'e' && "event"@[3] == 'n' && "event"@[4] == 't');
    reveal_strlit("ex");
    assert("ex"@.len() == 2 && "ex"@[0] == 'e' && "ex"@[1] == 'x');
    reveal_strlit("external");
    assert("external"@.len() == 8 && "external"@[0] == 'e' && "external"@[1] == 'x' && "external"@[2] == 't' && "external"@[3] == 'e' && "external"@[4] == 'r' && "external"@[5] == 'n' && "external"@[6] == 'a' && "external"@[7] == 'l');
    reveal_strlit("feat");
    assert("feat"@.len() == 4 && "feat"@[0] == 'f' && "feat"@[1] == 'e' && "feat"@[2] == 'a' && "feat"@[3] == 't');
    reveal_strlit("figure");
    assert("figure"@.len() == 6 && "figure"@[0] == 'f' && "figure"@[1] == 'i' && "figure"@[2] == 'g' && "figure"@[3] == 'u' && "figure"@[4] == 'r' && "figure"@[5] == 'e');
    reveal_strlit("foreign-data");
    assert("foreign-data"@.len() == 12 && "foreign-data"@[0] == 'f' && "foreign-data"@[1] == 'o' && "foreign-data"@[2] == 'r' && "foreign-data"@[3] == 'e' && "foreign-data"@[4] == 'i' && "foreign-data"@[5] == 'g' && "foreign-data"@[6] == 'n' && "foreign-data"@[7] == '-' && "foreign-data"@[8] == 'd' && "foreign-data"@[9] == 'a' && "foreign-data"@[10] == 't' && "foreign-data"@[11] == 'a');
    reveal_strlit("function");
    assert("function"@.len() == 8 && "function"@[0] == 'f' && "function"@[1] == 'u' && "function"@[2] == 'n' && "function"@[3] == 'c' && "function"@[4] == 't' && "function"@[5] == 'i' && "function"@[6] == 'o' && "function"@[7] == 'n');
    reveal_strlit("gap");
    assert("gap"@.len() == 3 && "gap"@[0] == 'g' && "gap"@[1] == 'a' && "gap"@[2] == 'p');
    reveal_strlit("head");
    assert("head"@.len() == 4 && "head"@[0] == 'h' && "head"@[1] == 'e' && "head"@[2] == 'a' && "head"@[3] == 'd');
    reveal_strlit("headfeature");
    assert("headfeature"@.len() == 11 && "headfeature"@[0] == 'h' && "headfeature"@[1] == 'e' && "headfeature"@[2] == 'a' && "headfeature"@[3] == 'd' && "headfeature"@[4] == 'f' && "headfeature"@[5] == 'e' && "headfeature"@[6] == 'a' && "headfeature"@[7] == 't' && "headfeature"@[8] == 'u' && "headfeature"@[9] == 'r' && "headfeature"@[10] == 'e');
    reveal_strlit("hd");
    assert("hd"@.len() == 2 && "hd"@[0] == 'h' && "hd"@[1] == 'd');
    reveal_strlit("hiddenw");
    assert("hiddenw"@.len() == 7 && "hiddenw"@[0] == 'h' && "hiddenw"@[1] == 'i' && "hiddenw"@[2] == 'd' && "hiddenw"@[3] == 'd' && "hiddenw"@[4] == 'e' && "hiddenw"@[5] == 'n' && "hiddenw"@[6] == 'w');
    reveal_strlit("t-hbr");
    assert("t-hbr"@.len() == 5 && "t-hbr"@[0] == 't' && "t-hbr"@[1] == '-' && "t-hbr"@[2] == 'h' && "t-hbr"@[3] == 'b' && "t-hbr"@[4] == 'r');
    reveal_strlit("label");
    assert("label"@.len() == 5 && "label"@[0] == 'l' && "label"@[1] == 'a' && "label"@[2] == 'b' && "label"@[3] == 'e' && "label"@[4] == 'l');
    reveal_strlit("lang");
    assert("lang"@.len() == 4 && "lang"@[0] == 'l' && "lang"@[1] == 'a' && "lang"@[2] == 'n' && "lang"@[3] == 'g');
    reveal_strlit("lemma");
    assert("lemma"@.len() == 5 && "lemma"@[0] == 'l' && "lemma"@[1] == 'e' && "lemma"@[2] == 'm' && "lemma"@[3] == 'm' && "lemma"@[4] == 'a');
    reveal_strlit("level");
    assert("level"@.len() == 5 && "level"@[0] == 'l' && "level"@[1] == 'e' && "level"@[2] == 'v' && "level"@[3] == 'e' && "level"@[4] == 'l');
    reveal_strlit("br");
    assert("br"@.len() == 2 && "br"@[0] == 'b' && "br"@[1] == 'r');
    reveal_strlit("xref");
    assert("xref"@.len() == 4 && "xref"@[0] == 'x' && "xref"@[1] == 'r' && "xref"@[2] == 'e' && "xref"@[3] == 'f');
    reveal_strlit("list");
    assert("list"@.len() == 4 && "list"@[0] == 'l' && "list"@[1] == 'i' && "list"@[2] == 's' && "list"@[3] == 't');
    reveal_strlit("item");
    assert("item"@.len() == 4 && "item"@[0] == 'i' && "item"@[1] == 't' && "item"@[2] == 'e' && "item"@[3] == 'm');
    reveal_strlit("metric");
    assert("metric"@.len() == 6 && "metric"@[0] == 'm' && "metric"@[1] == 'e' && "metric"@[2] == 't' && "metric"@[3] == 'r' && "metric"@[4] == 'i' && "metric"@[5] == 'c');
    reveal_strlit("modality");
    assert("modality"@.len() == 8 && "modality"@[0] == 'm' && "modality"@[1] == 'o' && "modality"@[2] == 'd' && "modality"@[3] == 'a' && "modality"@[4] == 'l' && "modality"@[5] == 'i' && "modality"@[6] == 't' && "modality"@[7] == 'y');
    reveal_strlit("morpheme");
    assert("morpheme"@.len() == 8 && "morpheme"@[0] == 'm' && "morpheme"@[1] == 'o' && "morpheme"@[2] == 'r' && "morpheme"@[3] == 'p' && "morpheme"@[4] == 'h' && "morpheme"@[5] == 'e' && "morpheme"@[6] == 'm' && "morpheme"@[7] == 'e');
    reveal_strlit("morphology");
    assert("morphology"@.len() == 10 && "morphology"@[0] == 'm' && "morphology"@[1] == 'o' && "morphology"@[2] == 'r' && "morphology"@[3] == 'p' && "morphology"@[4] == 'h' && "morphology"@[5] == 'o' && "morphology"@[6] == 'l' && "morphology"@[7] == 'o' && "morphology"@[8] == 'g' && "morphology"@[9] == 'y');
    reveal_strlit("new");
    assert("new"@.len() == 3 && "new"@[0] == 'n' && "new"@[1] == 'e' && "new"@[2] == 'w');
    reveal_strlit("note");
    assert("note"@.len() == 4 && "note"@[0] == 'n' && "note"@[1] == 'o' && "note"@[2] == 't' && "note"@[3] == 'e');
    reveal_strlit("observation");
    assert("observation"@.len() == 11 && "observation"@[0] == 'o' && "observation"@[1] == 'b' && "observation"@[2] == 's' && "observation"@[3] == 'e' && "observation"@[4] == 'r' && "observation"@[5] == 'v' && "observation"@[6] == 'a' && "observation"@[7] == 't' && "observation"@[8] == 'i' && "observation"@[9] == 'o' && "observation"@[10] == 'n');
    reveal_strlit("observations");
    assert("observations"@.len() == 12 && "observations"@[0] == 'o' && "observations"@[1] == 'b' && "observations"@[2] == 's' && "observations"@[3] == 'e' && "observations"@[4] == 'r' && "observations"@[5] == 'v' && "observations"@[6] == 'a' && "observations"@[7] == 't' && "observations"@[8] == 'i' && "observations"@[9] == 'o' && "observations"@[10] == 'n' && "observations"@[11] == 's');
    reveal_strlit("original");
    assert("original"@.len() == 8 && "original"@[0] == 'o' && "original"@[1] == 'r' && "original"@[2] == 'i' && "original"@[3] == 'g' && "original"@[4] == 'i' && "original"@[5] == 'n' && "original"@[6] == 'a' && "original"@[7] == 'l');
    reveal_strlit("p");
    assert("p"@.len() == 1 && "p"@[0] == 'p');
    reveal_strlit("part");
    assert("part"@.len() == 4 && "part"@[0] == 'p' && "part"@[1] == 'a' && "part"@[2] == 'r' && "part"@[3] == 't');
    reveal_strlit("ph");
    assert("ph"@.len() == 2 && "ph"@[0] == 'p' && "ph"@[1] == 'h');
    reveal_strlit("phoneme");
    assert("phoneme"@.len() == 7 && "phoneme"@[0] == 'p' && "phoneme"@[1] == 'h' && "phoneme"@[2] == 'o' && "phoneme"@[3] == 'n' && "phoneme"@[4] == 'e' && "phoneme"@[5] == 'm' && "phoneme"@[6] == 'e');
    reveal_strlit("phonology");
    assert("phonology"@.len() == 9 && "phonology"@[0] == 'p' && "phonology"@[1] == 'h' && "phonology"@[2] == 'o' && "phonology"@[3] == 'n' && "phonology"@[4] == 'o' && "phonology"@[5] == 'l' && "phonology"@[6] == 'o' && "phonology"@[7] == 'g' && "phonology"@[8] == 'y');
    reveal_strlit("polarity");
    assert("polarity"@.len() == 8 && "polarity"@[0] == 'p' && "polarity"@[1] == 'o' && "polarity"@[2] == 'l' && "polarity"@[3] == 'a' && "polarity"@[4] == 'r' && "polarity"@[5] == 'i' && "polarity"@[6] == 't' && "polarity"@[7] == 'y');
    reveal_strlit("pos");
    assert("pos"@.len() == 3 && "pos"@[0] == 'p' && "pos"@[1] == 'o' && "pos"@[2] == 's');
    reveal_strlit("predicate");
    assert("predicate"@.len() == 9 && "predicate"@[0] == 'p' && "predicate"@[1] == 'r' && "predicate"@[2] == 'e' && "predicate"@[3] == 'd' && "predicate"@[4] == 'i' && "predicate"@[5] == 'c' && "predicate"@[6] == 'a' && "predicate"@[7] == 't' && "predicate"@[8] == 'e');
    reveal_strlit("quote");
    assert("quote"@.len() == 5 && "quote"@[0] == 'q' && "quote"@[1] == 'u' && "quote"@[2] == 'o' && "quote"@[3] == 't' && "quote"@[4] == 'e');
    reveal_strlit("ref");
    assert("ref"@.len() == 3 && "ref"@[0] == 'r' && "ref"@[1] == 'e' && "ref"@[2] == 'f');
    reveal_strlit("relation");
    assert("relation"@.len() == 8 && "relation"@[0] == 'r' && "relation"@[1] == 'e' && "relation"@[2] == 'l' && "relation"@[3] == 'a' && "relation"@[4] == 't' && "relation"@[5] == 'i' && "relation"@[6] == 'o' && "relation"@[7] == 'n');
    reveal_strlit("row");
    assert("row"@.len() == 3 && "row"@[0] == 'r' && "row"@[1] == 'o' && "row"@[2] == 'w');
    reveal_strlit("semrole");
    assert("semrole"@.len() == 7 && "semrole"@[0] == 's' && "semrole"@[1] == 'e' && "semrole"@[2] == 'm' && "semrole"@[3] == 'r' && "semrole"@[4] == 'o' && "semrole"@[5] == 'l' && "semrole"@[6] == 'e');
    reveal_strlit("semroles");
    assert("semroles"@.len() == 8 && "semroles"@[0] == 's' && "semroles"@[1] == 'e' && "semroles"@[2] == 'm' && "semroles"@[3] == 'r' && "semroles"@[4] == 'o' && "semroles"@[5] == 'l' && "semroles"@[6] == 'e' && "semroles"@[7] == 's');
    reveal_strlit("sense");
    assert("sense"@.len() == 5 && "sense"@[0] == 's' && "sense"@[1] == 'e' && "sense"@[2] == 'n' && "sense"@[3] == 's' && "sense"@[4] == 'e');
    reveal_strlit("s");
    assert("s"@.len() == 1 && "s"@[0] == 's');
    reveal_strlit("sentiment");
    assert("sentiment"@.len() == 9 && "sentiment"@[0] == 's' && "sentiment"@[1] == 'e' && "sentiment"@[2] == 'n' && "sentiment"@[3] == 't' && "sentiment"@[4] == 'i' && "sentiment"@[5] == 'm' && "sentiment"@[6] == 'e' && "sentiment"@[7] == 'n' && "sentiment"@[8] == 't');
    reveal_strlit("sentiments");
    assert("sentiments"@.len() == 10 && "sentiments"@[0] == 's' && "sentiments"@[1] == 'e' && "sentiments"@[2] == 'n' && "sentiments"@[3] == 't' && "sentiments"@[4] == 'i' && "sentiments"@[5] == 'm' && "sentiments"@[6] == 'e' && "sentiments"@[7] == 'n' && "sentiments"@[8] == 't' && "sentiments"@[9] == 's');
    reveal_strlit("source");
    assert("source"@.len() == 6 && "source"@[0] == 's' && "source"@[1] == 'o' && "source"@[2] == 'u' && "source"@[3] == 'r' && "source"@[4] == 'c' && "source"@[5] == 'e');
    reveal_strlit("spanrelation");
    assert("spanrelation"@.len() == 12 && "spanrelation"@[0] == 's' && "spanrelation"@[1] == 'p' && "spanrelation"@[2] == 'a' && "spanrelation"@[3] == 'n' && "spanrelation"@[4] == 'r' && "spanrelation"@[5] == 'e' && "spanrelation"@[6] == 'l' && "spanrelation"@[7] == 'a' && "spanrelation"@[8] == 't' && "spanrelation"@[9] == 'i' && "spanrelation"@[10] == 'o' && "spanrelation"@[11] == 'n');
    reveal_strlit("spanrelations");
    assert("spanrelations"@.len() == 13 && "spanrelations"@[0] == 's' && "spanrelations"@[1] == 'p' && "spanrelations"@[2] == 'a' && "spanrelations"@[3] == 'n' && "spanrelations"@[4] == 'r' && "spanrelations"@[5] == 'e' && "spanrelations"@[6] == 'l' && "spanrelations"@[7] == 'a' && "spanrelations"@[8] == 't' && "spanrelations"@[9] == 'i' && "spanrelations"@[10] == 'o' && "spanrelations"@[11] == 'n' && "spanrelations"@[12] == 's');
    reveal_strlit("speech");
    assert("speech"@.len() == 6 && "speech"@[0] == 's' && "speech"@[1] == 'p' && "speech"@[2] == 'e' && "speech"@[3] == 'e' && "speech"@[4] == 'c' && "speech"@[5] == 'h');
    reveal_strlit("statement");
    assert("statement"@.len() == 9 && "statement"@[0] == 's' && "statement"@[1] == 't' && "statement"@[2] == 'a' && "statement"@[3] == 't' && "statement"@[4] == 'e' && "statement"@[5] == 'm' && "statement"@[6] == 'e' && "statement"@[7] == 'n' && "statement"@[8] == 't');
    reveal_strlit("statements");
    assert("statements"@.len() == 10 && "statements"@[0] == 's' && "statements"@[1] == 't' && "statements"@[2] == 'a' && "statements"@[3] == 't' && "statements"@[4] == 'e' && "statements"@[5] == 'm' && "statements"@[6] == 'e' && "statements"@[7] == 'n' && "statements"@[8] == 't' && "statements"@[9] == 's');
    reveal_strlit("rel");
    assert("rel"@.len() == 3 && "rel"@[0] == 'r' && "rel"@[1] == 'e' && "rel"@[2] == 'l');
    reveal_strlit("strength");
    assert("strength"@.len() == 8 && "strength"@[0] == 's' && "strength"@[1] == 't' && "strength"@[2] == 'r' && "strength"@[3] == 'e' && "strength"@[4] == 'n' && "strength"@[5] == 'g' && "strength"@[6] == 't' && "strength"@[7] == 'h');
    reveal_strlit("str");
    assert("str"@.len() == 3 && "str"@[0] == 's' && "str"@[1] == 't' && "str"@[2] == 'r');
    reveal_strlit("style");
    assert("style"@.len() == 5 && "style"@[0] == 's' && "style"@[1] == 't' && "style"@[2] == 'y' && "style"@[3] == 'l' && "style"@[4] == 'e');
    reveal_strlit("subjectivity");
    assert("subjectivity"@.len() == 12 && "subjectivity"@[0] == 's' && "subjectivity"@[1] == 'u' && "subjectivity"@[2] == 'b' && "subjectivity"@[3] == 'j' && "subjectivity"@[4] == 'e' && "subjectivity"@[5] == 'c' && "subjectivity"@[6] == 't' && "subjectivity"@[7] == 'i' && "subjectivity"@[8] == 'v' && "subjectivity"@[9] == 'i' && "subjectivity"@[10] == 't' && "subjectivity"@[11] == 'y');
    reveal_strlit("suggestion");
    assert("suggestion"@.len() == 10 && "suggestion"@[0] == 's' && "suggestion"@[1] == 'u' && "suggestion"@[2] == 'g' && "suggestion"@[3] == 'g' && "suggestion"@[4] == 'e' && "suggestion"@[5] == 's' && "suggestion"@[6] == 't' && "suggestion"@[7] == 'i' && "suggestion"@[8] == 'o' && "suggestion"@[9] == 'n');
    reveal_strlit("synset");
    assert("synset"@.len() == 6 && "synset"@[0] == 's' && "synset"@[1] == 'y' && "synset"@[2] == 'n' && "synset"@[3] == 's' && "synset"@[4] == 'e' && "synset"@[5] == 't');
    reveal_strlit("su");
    assert("su"@.len() == 2 && "su"@[0] == 's' && "su"@[1] == 'u');
    reveal_strlit("syntax");
    assert("syntax"@.len() == 6 && "syntax"@[0] == 's' && "syntax"@[1] == 'y' && "syntax"@[2] == 'n' && "syntax"@[3] == 't' && "syntax"@[4] == 'a' && "syntax"@[5] == 'x');
    reveal_strlit("table");
    assert("table"@.len() == 5 && "table"@[0] == 't' && "table"@[1] == 'a' && "table"@[2] == 'b' && "table"@[3] == 'l' && "table"@[4] == 'e');
    reveal_strlit("tablehead");
    assert("tablehead"@.len() == 9 && "tablehead"@[0] == 't' && "tablehead"@[1] == 'a' && "tablehead"@[2] == 'b' && "tablehead"@[3] == 'l' && "tablehead"@[4] == 'e' && "tablehead"@[5] == 'h' && "tablehead"@[6] == 'e' && "tablehead"@[7] == 'a' && "tablehead"@[8] == 'd');
    reveal_strlit("target");
    assert("target"@.len() == 6 && "target"@[0] == 't' && "target"@[1] == 'a' && "target"@[2] == 'r' && "target"@[3] == 'g' && "target"@[4] == 'e' && "target"@[5] == 't');
    reveal_strlit("term");
    assert("term"@.len() == 4 && "term"@[0] == 't' && "term"@[1] == 'e' && "term"@[2] == 'r' && "term"@[3] == 'm');
    reveal_strlit("text");
    assert("text"@.len() == 4 && "text"@[0] == 't' && "text"@[1] == 'e' && "text"@[2] == 'x' && "text"@[3] == 't');
    reveal_strlit("t");
    assert("t"@.len() == 1 && "t"@[0] == 't');
    reveal_strlit("t-correction");
    assert("t-correction"@.len() == 12 && "t-correction"@[0] == 't' && "t-correction"@[1] == '-' && "t-correction"@[2] == 'c' && "t-correction"@[3] == 'o' && "t-correction"@[4] == 'r' && "t-correction"@[5] == 'r' && "t-correction"@[6] == 'e' && "t-correction"@[7] == 'c' && "t-correction"@[8] == 't' && "t-correction"@[9] == 'i' && "t-correction"@[10] == 'o' && "t-correction"@[11] == 'n');
    reveal_strlit("t-error");
    assert("t-error"@.len() == 7 && "t-error"@[0] == 't' && "t-error"@[1] == '-' && "t-error"@[2] == 'e' && "t-error"@[3] == 'r' && "t-error"@[4] == 'r' && "t-error"@[5] == 'o' && "t-error"@[6] == 'r');
    reveal_strlit("t-gap");
    assert("t-gap"@.len() == 5 && "t-gap"@[0] == 't' && "t-gap"@[1] == '-' && "t-gap"@[2] == 'g' && "t-gap"@[3] == 'a' && "t-gap"@[4] == 'p');
    reveal_strlit("t-ref");
    assert("t-ref"@.len() == 5 && "t-ref"@[0] == 't' && "t-ref"@[1] == '-' && "t-ref"@[2] == 'r' && "t-ref"@[3] == 'e' && "t-ref"@[4] == 'f');
    reveal_strlit("t-str");
    assert("t-str"@.len() == 5 && "t-str"@[0] == 't' && "t-str"@[1] == '-' && "t-str"@[2] == 's' && "t-str"@[3] == 't' && "t-str"@[4] == 'r');
    reveal_strlit("t-style");
    assert("t-style"@.len() == 7 && "t-style"@[0] == 't' && "t-style"@[1] == '-' && "t-style"@[2] == 's' && "t-style"@[3] == 't' && "t-style"@[4] == 'y' && "t-style"@[5] == 'l' && "t-style"@[6] == 'e');
    reveal_strlit("time");
    assert("time"@.len() == 4 && "time"@[0] == 't' && "time"@[1] == 'i' && "time"@[2] == 'm' && "time"@[3] == 'e');
    reveal_strlit("timesegment");
    assert("timesegment"@.len() == 11 && "timesegment"@[0] == 't' && "timesegment"@[1] == 'i' && "timesegment"@[2] == 'm' && "timesegment"@[3] == 'e' && "timesegment"@[4] == 's' && "timesegment"@[5] == 'e' && "timesegment"@[6] == 'g' && "timesegment"@[7] == 'm' && "timesegment"@[8] == 'e' && "timesegment"@[9] == 'n' && "timesegment"@[10] == 't');
    reveal_strlit("timing");
    assert("timing"@.len() == 6 && "timing"@[0] == 't' && "timing"@[1] == 'i' && "timing"@[2] == 'm' && "timing"@[3] == 'i' && "timing"@[4] == 'n' && "timing"@[5] == 'g');
    reveal_strlit("utt");
    assert("utt"@.len() == 3 && "utt"@[0] == 'u' && "utt"@[1] == 't' && "utt"@[2] == 't');
    reveal_strlit("value");
    assert("value"@.len() == 5 && "value"@[0] == 'v' && "value"@[1] == 'a' && "value"@[2] == 'l' && "value"@[3] == 'u' && "value"@[4] == 'e');
    reveal_strlit("whitespace");
    assert("whitespace"@.len() == 10 && "whitespace"@[0] == 'w' && "whitespace"@[1] == 'h' && "whitespace"@[2] == 'i' && "whitespace"@[3] == 't' && "whitespace"@[4] == 'e' && "whitespace"@[5] == 's' && "whitespace"@[6] == 'p' && "whitespace"@[7] == 'a' && "whitespace"@[8] == 'c' && "whitespace"@[9] == 'e');
    reveal_strlit("w");
    assert("w"@.len() == 1 && "w"@[0] == 'w');
    reveal_strlit("wref");
    assert("wref"@.len() == 4 && "wref"@[0] == 'w' && "wref"@[1] == 'r' && "wref"@[2] == 'e' && "wref"@[3] == 'f');
    match t {
        ElementType::ActorFeature => {},
        ElementType::Alternative => {},
        ElementType::AlternativeLayers => {},
        ElementType::BegindatetimeFeature => {},
        ElementType::Caption => {},
        ElementType::Cell => {},
        ElementType::Chunk => {},
        ElementType::ChunkingLayer => {},
        ElementType::Comment => {},
        ElementType::Content => {},
        ElementType::CoreferenceChain => {},
        ElementType::CoreferenceLayer => {},
        ElementType::CoreferenceLink => {},
        ElementType::Correction => {},
        ElementType::Current => {},
        ElementType::Definition => {},
        ElementType::DependenciesLayer => {},
        ElementType::Dependency => {},
        ElementType::DependencyDependent => {},
        ElementType::Description => {},
        ElementType::Division => {},
        ElementType::DomainAnnotation => {},
        ElementType::EnddatetimeFeature => {},
        ElementType::EntitiesLayer => {},
        ElementType::Entity => {},
        ElementType::Entry => {},
        ElementType::ErrorDetection => {},
        ElementType::Event => {},
        ElementType::Example => {},
        ElementType::External => {},
        ElementType::Feature => {},
        ElementType::Figure => {},
        ElementType::ForeignData => {},
        ElementType::FunctionFeature => {},
        ElementType::Gap => {},
        ElementType::Head => {},
        ElementType::HeadFeature => {},
        ElementType::Headspan => {},
        ElementType::Hiddenword => {},
        ElementType::Hyphbreak => {},
        ElementType::Label => {},
        ElementType::LangAnnotation => {},
        ElementType::LemmaAnnotation => {},
        ElementType::LevelFeature => {},
        ElementType::Linebreak => {},
        ElementType::LinkReference => {},
        ElementType::List => {},
        ElementType::ListItem => {},
        ElementType::Metric => {},
        ElementType::ModalityFeature => {},
        ElementType::Morpheme => {},
        ElementType::MorphologyLayer => {},
        ElementType::New => {},
        ElementType::Note => {},
        ElementType::Observation => {},
        ElementType::ObservationLayer => {},
        ElementType::Original => {},
        ElementType::Paragraph => {},
        ElementType::Part => {},
        ElementType::PhonContent => {},
        ElementType::Phoneme => {},
        ElementType::PhonologyLayer => {},
        ElementType::PolarityFeature => {},
        ElementType::PosAnnotation => {},
        ElementType::Predicate => {},
        ElementType::Quote => {},
        ElementType::Reference => {},
        ElementType::Relation => {},
        ElementType::Row => {},
        ElementType::SemanticRole => {},
        ElementType::SemanticRolesLayer => {},
        ElementType::SenseAnnotation => {},
        ElementType::Sentence => {},
        ElementType::Sentiment => {},
        ElementType::SentimentLayer => {},
        ElementType::Source => {},
        ElementType::SpanRelation => {},
        ElementType::SpanRelationLayer => {},
        ElementType::Speech => {},
        ElementType::Statement => {},
        ElementType::StatementLayer => {},
        ElementType::StatementRelation => {},
        ElementType::StrengthFeature => {},
        ElementType::String => {},
        ElementType::StyleFeature => {},
        ElementType::SubjectivityAnnotation => {},
        ElementType::Suggestion => {},
        ElementType::SynsetFeature => {},
        ElementType::SyntacticUnit => {},
        ElementType::SyntaxLayer => {},
        ElementType::Table => {},
        ElementType::TableHead => {},
        ElementType::Target => {},
        ElementType::Term => {},
        ElementType::Text => {},
        ElementType::TextContent => {},
        ElementType::TextMarkupCorrection => {},
        ElementType::TextMarkupError => {},
        ElementType::TextMarkupGap => {},
        ElementType::TextMarkupReference => {},
        ElementType::TextMarkupString => {},
        ElementType::TextMarkupStyle => {},
        ElementType::TimeFeature => {},
        ElementType::TimeSegment => {},
        ElementType::TimingLayer => {},
        ElementType::Utterance => {},
        ElementType::ValueFeature => {},
        ElementType::Whitespace => {},
        ElementType::Word => {},
        ElementType::WordReference => {},
    }
}

/// A tag that stands for an element type is that type's tag.
pub proof fn lemma_tag_read_back(tag: Seq<char>)
    ensures
        type_of_tag(tag) matches Some(t) ==> t.tag() == tag,
{
}

impl ElementType {
    /// The XML tag of the element type.
    pub open spec fn tag(self) -> Seq<char> {
        match self {
            ElementType::ActorFeature => "actor"@,
            ElementType::Alternative => "alt"@,
            ElementType::AlternativeLayers => "altlayers"@,
            ElementType::BegindatetimeFeature => "begindatetime"@,
            ElementType::Caption => "caption"@,
            ElementType::Cell => "cell"@,
            ElementType::Chunk => "chunk"@,
            ElementType::ChunkingLayer => "chunking"@,
            ElementType::Comment => "comment"@,
            ElementType::Content => "content"@,
            ElementType::CoreferenceChain => "coreferencechain"@,
            ElementType::CoreferenceLayer => "coreferences"@,
            ElementType::CoreferenceLink => "coreferencelink"@,
            ElementType::Correction => "correction"@,
            ElementType::Current => "current"@,
            ElementType::Definition => "def"@,
            ElementType::DependenciesLayer => "dependencies"@,
            ElementType::Dependency => "dependency"@,
            ElementType::DependencyDependent => "dep"@,
            ElementType::Description => "desc"@,
            ElementType::Division => "div"@,
            ElementType::DomainAnnotation => "domain"@,
            ElementType::EnddatetimeFeature => "enddatetime"@,
            ElementType::EntitiesLayer => "entities"@,
            ElementType::Entity => "entity"@,
            ElementType::Entry => "entry"@,
            ElementType::ErrorDetection => "errordetection"@,
            ElementType::Event => "event"@,
            ElementType::Example => "ex"@,
            ElementType::External => "external"@,
            ElementType::Feature => "feat"@,
            ElementType::Figure => "figure"@,
            ElementType::ForeignData => "foreign-data"@,
            ElementType::FunctionFeature => "function"@,
            ElementType::Gap => "gap"@,
            ElementType::Head => "head"@,
            ElementType::HeadFeature => "headfeature"@,
            ElementType::Headspan => "hd"@,
            ElementType::Hiddenword => "hiddenw"@,
            ElementType::Hyphbreak => "t-hbr"@,
            ElementType::Label => "label"@,
            ElementType::LangAnnotation => "lang"@,
            ElementType::LemmaAnnotation => "lemma"@,
            ElementType::LevelFeature => "level"@,
            ElementType::Linebreak => "br"@,
            ElementType::LinkReference => "xref"@,
            ElementType::List => "list"@,
            ElementType::ListItem => "item"@,
            ElementType::Metric => "metric"@,
            ElementType::ModalityFeature => "modality"@,
            ElementType::Morpheme => "morpheme"@,
            ElementType::MorphologyLayer => "morphology"@,
            ElementType::New => "new"@,
            ElementType::Note => "note"@,
            ElementType::Observation => "observation"@,
            ElementType::ObservationLayer => "observations"@,
            ElementType::Original => "original"@,
            ElementType::Paragraph => "p"@,
            ElementType::Part => "part"@,
            ElementType::PhonContent => "ph"@,
            ElementType::Phoneme => "phoneme"@,
            ElementType::PhonologyLayer => "phonology"@,
            ElementType::PolarityFeature => "polarity"@,
            ElementType::PosAnnotation => "pos"@,
            ElementType::Predicate => "predicate"@,
            ElementType::Quote => "quote"@,
            ElementType::Reference => "ref"@,
            ElementType::Relation => "relation"@,
            ElementType::Row => "row"@,
            ElementType::SemanticRole => "semrole"@,
            ElementType::SemanticRolesLayer => "semroles"@,
            ElementType::SenseAnnotation => "sense"@,
            ElementType::Sentence => "s"@,
            ElementType::Sentiment => "sentiment"@,
            ElementType::SentimentLayer => "sentiments"@,
            ElementType::Source => "source"@,
            ElementType::SpanRelation => "spanrelation"@,
            ElementType::SpanRelationLayer => "spanrelations"@,
            ElementType::Speech => "speech"@,
            ElementType::Statement => "statement"@,
            ElementType::StatementLayer => "statements"@,
            ElementType::StatementRelation => "rel"@,
            ElementType::StrengthFeature => "strength"@,
            ElementType::String => "str"@,
            ElementType::StyleFeature => "style"@,
            ElementType::SubjectivityAnnotation => "subjectivity"@,
            ElementType::Suggestion => "suggestion"@,
            ElementType::SynsetFeature => "synset"@,
            ElementType::SyntacticUnit => "su"@,
            ElementType::SyntaxLayer => "syntax"@,
            ElementType::Table => "table"@,
            ElementType::TableHead => "tablehead"@,
            ElementType::Target => "target"@,
            ElementType::Term => "term"@,
            ElementType::Text => "text"@,
            ElementType::TextContent => "t"@,
            ElementType::TextMarkupCorrection => "t-correction"@,
            ElementType::TextMarkupError => "t-error"@,
            ElementType::TextMarkupGap => "t-gap"@,
            ElementType::TextMarkupReference => "t-ref"@,
            ElementType::TextMarkupString => "t-str"@,
            ElementType::TextMarkupStyle => "t-style"@,
            ElementType::TimeFeature => "time"@,
            ElementType::TimeSegment => "timesegment"@,
            ElementType::TimingLayer => "timing"@,
            ElementType::Utterance => "utt"@,
            ElementType::ValueFeature => "value"@,
            ElementType::Whitespace => "whitespace"@,
            ElementType::Word => "w"@,
            ElementType::WordReference => "wref"@,
        }
    }

    /// The annotation type an element type belongs to, if any.
    pub open spec fn annotation(self) -> Option<AnnotationType> {
        match self {
            ElementType::Alternative => Some(AnnotationType::ALTERNATIVE),
            ElementType::Chunk => Some(AnnotationType::CHUNKING),
            ElementType::Comment => Some(AnnotationType::COMMENT),
            ElementType::Content => Some(AnnotationType::RAWCONTENT),
            ElementType::CoreferenceChain => Some(AnnotationType::COREFERENCE),
            ElementType::Correction => Some(AnnotationType::CORRECTION),
            ElementType::Definition => Some(AnnotationType::DEFINITION),
            ElementType::Dependency => Some(AnnotationType::DEPENDENCY),
            ElementType::Description => Some(AnnotationType::DESCRIPTION),
            ElementType::Division => Some(AnnotationType::DIVISION),
            ElementType::DomainAnnotation => Some(AnnotationType::DOMAIN),
            ElementType::Entity => Some(AnnotationType::ENTITY),
            ElementType::Entry => Some(AnnotationType::ENTRY),
            ElementType::ErrorDetection => Some(AnnotationType::ERRORDETECTION),
            ElementType::Event => Some(AnnotationType::EVENT),
            ElementType::Example => Some(AnnotationType::EXAMPLE),
            ElementType::Figure => Some(AnnotationType::FIGURE),
            ElementType::Gap => Some(AnnotationType::GAP),
            ElementType::Head => Some(AnnotationType::HEAD),
            ElementType::Hiddenword => Some(AnnotationType::HIDDENTOKEN),
            ElementType::Hyphbreak => Some(AnnotationType::HYPHENATION),
            ElementType::LangAnnotation => Some(AnnotationType::LANG),
            ElementType::LemmaAnnotation => Some(AnnotationType::LEMMA),
            ElementType::Linebreak => Some(AnnotationType::LINEBREAK),
            ElementType::List => Some(AnnotationType::LIST),
            ElementType::Metric => Some(AnnotationType::METRIC),
            ElementType::Morpheme => Some(AnnotationType::MORPHOLOGICAL),
            ElementType::Note => Some(AnnotationType::NOTE),
            ElementType::Observation => Some(AnnotationType::OBSERVATION),
            ElementType::Paragraph => Some(AnnotationType::PARAGRAPH),
            ElementType::Part => Some(AnnotationType::PART),
            ElementType::PhonContent => Some(AnnotationType::PHON),
            ElementType::Phoneme => Some(AnnotationType::PHONOLOGICAL),
            ElementType::PosAnnotation => Some(AnnotationType::POS),
            ElementType::Predicate => Some(AnnotationType::PREDICATE),
            ElementType::Quote => Some(AnnotationType::QUOTE),
            ElementType::Reference => Some(AnnotationType::REFERENCE),
            ElementType::Relation => Some(AnnotationType::RELATION),
            ElementType::SemanticRole => Some(AnnotationType::SEMROLE),
            ElementType::SenseAnnotation => Some(AnnotationType::SENSE),
            ElementType::Sentence => Some(AnnotationType::SENTENCE),
            ElementType::Sentiment => Some(AnnotationType::SENTIMENT),
            ElementType::SpanRelation => Some(AnnotationType::SPANRELATION),
            ElementType::Statement => Some(AnnotationType::STATEMENT),
            ElementType::String => Some(AnnotationType::STRING),
            ElementType::SubjectivityAnnotation => Some(AnnotationType::SUBJECTIVITY),
            ElementType::SyntacticUnit => Some(AnnotationType::SYNTAX),
            ElementType::Table => Some(AnnotationType::TABLE),
            ElementType::Term => Some(AnnotationType::TERM),
            ElementType::TextContent => Some(AnnotationType::TEXT),
            ElementType::TextMarkupStyle => Some(AnnotationType::STYLE),
            ElementType::TimeSegment => Some(AnnotationType::TIMESEGMENT),
            ElementType::Utterance => Some(AnnotationType::UTTERANCE),
            ElementType::Whitespace => Some(AnnotationType::WHITESPACE),
            ElementType::Word => Some(AnnotationType::TOKEN),
            _ => None,
        }
    }

    ///Get the annotation type of this element type, if any
    pub fn annotationtype(&self) -> (a: Option<AnnotationType>)
        ensures
            a == self.annotation(),
    {
        match self {
            ElementType::Alternative => Some(AnnotationType::ALTERNATIVE),
            ElementType::Chunk => Some(AnnotationType::CHUNKING),
            ElementType::Comment => Some(AnnotationType::COMMENT),
            ElementType::Content => Some(AnnotationType::RAWCONTENT),
            ElementType::CoreferenceChain => Some(AnnotationType::COREFERENCE),
            ElementType::Correction => Some(AnnotationType::CORRECTION),
            ElementType::Definition => Some(AnnotationType::DEFINITION),
            ElementType::Dependency => Some(AnnotationType::DEPENDENCY),
            ElementType::Description => Some(AnnotationType::DESCRIPTION),
            ElementType::Division => Some(AnnotationType::DIVISION),
            ElementType::DomainAnnotation => Some(AnnotationType::DOMAIN),
            ElementType::Entity => Some(AnnotationType::ENTITY),
            ElementType::Entry => Some(AnnotationType::ENTRY),
            ElementType::ErrorDetection => Some(AnnotationType::ERRORDETECTION),
            ElementType::Event => Some(AnnotationType::EVENT),
            ElementType::Example => Some(AnnotationType::EXAMPLE),
            ElementType::Figure => Some(AnnotationType::FIGURE),
            ElementType::Gap => Some(AnnotationType::GAP),
            ElementType::Head => Some(AnnotationType::HEAD),
            ElementType::Hiddenword => Some(AnnotationType::HIDDENTOKEN),
            ElementType::Hyphbreak => Some(AnnotationType::HYPHENATION),
            ElementType::LangAnnotation => Some(AnnotationType::LANG),
            ElementType::LemmaAnnotation => Some(AnnotationType::LEMMA),
            ElementType::Linebreak => Some(AnnotationType::LINEBREAK),
            ElementType::List => Some(AnnotationType::LIST),
            ElementType::Metric => Some(AnnotationType::METRIC),
            ElementType::Morpheme => Some(AnnotationType::MORPHOLOGICAL),
            ElementType::Note => Some(AnnotationType::NOTE),
            ElementType::Observation => Some(AnnotationType::OBSERVATION),
            ElementType::Paragraph => Some(AnnotationType::PARAGRAPH),
            ElementType::Part => Some(AnnotationType::PART),
            ElementType::PhonContent => Some(AnnotationType::PHON),
            ElementType::Phoneme => Some(AnnotationType::PHONOLOGICAL),
            ElementType::PosAnnotation => Some(AnnotationType::POS),
            ElementType::Predicate => Some(AnnotationType::PREDICATE),
            ElementType::Quote => Some(AnnotationType::QUOTE),
            ElementType::Reference => Some(AnnotationType::REFERENCE),
            ElementType::Relation => Some(AnnotationType::RELATION),
            ElementType::SemanticRole => Some(AnnotationType::SEMROLE),
            ElementType::SenseAnnotation => Some(AnnotationType::SENSE),
            ElementType::Sentence => Some(AnnotationType::SENTENCE),
            ElementType::Sentiment => Some(AnnotationType::SENTIMENT),
            ElementType::SpanRelation => Some(AnnotationType::SPANRELATION),
            ElementType::Statement => Some(AnnotationType::STATEMENT),
            ElementType::String => Some(AnnotationType::STRING),
            ElementType::SubjectivityAnnotation => Some(AnnotationType::SUBJECTIVITY),
            ElementType::SyntacticUnit => Some(AnnotationType::SYNTAX),
            ElementType::Table => Some(AnnotationType::TABLE),
            ElementType::Term => Some(AnnotationType::TERM),
            ElementType::TextContent => Some(AnnotationType::TEXT),
            ElementType::TextMarkupStyle => Some(AnnotationType::STYLE),
            ElementType::TimeSegment => Some(AnnotationType::TIMESEGMENT),
            ElementType::Utterance => Some(AnnotationType::UTTERANCE),
            ElementType::Whitespace => Some(AnnotationType::WHITESPACE),
            ElementType::Word => Some(AnnotationType::TOKEN),
            _ => None,
        }
    }

    ///Checks whether this element type is in the given group
    pub fn is_in_group(&self, group: ElementGroup) -> (r: bool)
        ensures
            r == group.has(*self),
    {
        group.contains(*self)
    }

    ///Get the XML tag of this element type
    pub fn as_str(&self) -> (s: &'static str)
        ensures
            s@ == self.tag(),
    {
        match self {
            ElementType::ActorFeature => "actor",
            ElementType::Alternative => "alt",
            ElementType::AlternativeLayers => "altlayers",
            ElementType::BegindatetimeFeature => "begindatetime",
            ElementType::Caption => "caption",
            ElementType::Cell => "cell",
            ElementType::Chunk => "chunk",
            ElementType::ChunkingLayer => "chunking",
            ElementType::Comment => "comment",
            ElementType::Content => "content",
            ElementType::CoreferenceChain => "coreferencechain",
            ElementType::CoreferenceLayer => "coreferences",
            ElementType::CoreferenceLink => "coreferencelink",
            ElementType::Correction => "correction",
            ElementType::Current => "current",
            ElementType::Definition => "def",
            ElementType::DependenciesLayer => "dependencies",
            ElementType::Dependency => "dependency",
            ElementType::DependencyDependent => "dep",
            ElementType::Description => "desc",
            ElementType::Division => "div",
            ElementType::DomainAnnotation => "domain",
            ElementType::EnddatetimeFeature => "enddatetime",
            ElementType::EntitiesLayer => "entities",
            ElementType::Entity => "entity",
            ElementType::Entry => "entry",
            ElementType::ErrorDetection => "errordetection",
            ElementType::Event => "event",
            ElementType::Example => "ex",
            ElementType::External => "external",
            ElementType::Feature => "feat",
            ElementType::Figure => "figure",
            ElementType::ForeignData => "foreign-data",
            ElementType::FunctionFeature => "function",
            ElementType::Gap => "gap",
            ElementType::Head => "head",
            ElementType::HeadFeature => "headfeature",
            ElementType::Headspan => "hd",
            ElementType::Hiddenword => "hiddenw",
            ElementType::Hyphbreak => "t-hbr",
            ElementType::Label => "label",
            ElementType::LangAnnotation => "lang",
            ElementType::LemmaAnnotation => "lemma",
            ElementType::LevelFeature => "level",
            ElementType::Linebreak => "br",
            ElementType::LinkReference => "xref",
            ElementType::List => "list",
            ElementType::ListItem => "item",
            ElementType::Metric => "metric",
            ElementType::ModalityFeature => "modality",
            ElementType::Morpheme => "morpheme",
            ElementType::MorphologyLayer => "morphology",
            ElementType::New => "new",
            ElementType::Note => "note",
            ElementType::Observation => "observation",
            ElementType::ObservationLayer => "observations",
            ElementType::Original => "original",
            ElementType::Paragraph => "p",
            ElementType::Part => "part",
            ElementType::PhonContent => "ph",
            ElementType::Phoneme => "phoneme",
            ElementType::PhonologyLayer => "phonology",
            ElementType::PolarityFeature => "polarity",
            ElementType::PosAnnotation => "pos",
            ElementType::Predicate => "predicate",
            ElementType::Quote => "quote",
            ElementType::Reference => "ref",
            ElementType::Relation => "relation",
            ElementType::Row => "row",
            ElementType::SemanticRole => "semrole",
            ElementType::SemanticRolesLayer => "semroles",
            ElementType::SenseAnnotation => "sense",
            ElementType::Sentence => "s",
            ElementType::Sentiment => "sentiment",
            ElementType::SentimentLayer => "sentiments",
            ElementType::Source => "source",
            ElementType::SpanRelation => "spanrelation",
            ElementType::SpanRelationLayer => "spanrelations",
            ElementType::Speech => "speech",
            ElementType::Statement => "statement",
            ElementType::StatementLayer => "statements",
            ElementType::StatementRelation => "rel",
            ElementType::StrengthFeature => "strength",
            ElementType::String => "str",
            ElementType::StyleFeature => "style",
            ElementType::SubjectivityAnnotation => "subjectivity",
            ElementType::Suggestion => "suggestion",
            ElementType::SynsetFeature => "synset",
            ElementType::SyntacticUnit => "su",
            ElementType::SyntaxLayer => "syntax",
            ElementType::Table => "table",
            ElementType::TableHead => "tablehead",
            ElementType::Target => "target",
            ElementType::Term => "term",
            ElementType::Text => "text",
            ElementType::TextContent => "t",
            ElementType::TextMarkupCorrection => "t-correction",
            ElementType::TextMarkupError => "t-error",
            ElementType::TextMarkupGap => "t-gap",
            ElementType::TextMarkupReference => "t-ref",
            ElementType::TextMarkupString => "t-str",
            ElementType::TextMarkupStyle => "t-style",
            ElementType::TimeFeature => "time",
            ElementType::TimeSegment => "timesegment",
            ElementType::TimingLayer => "timing",
            ElementType::Utterance => "utt",
            ElementType::ValueFeature => "value",
            ElementType::Whitespace => "whitespace",
            ElementType::Word => "w",
            ElementType::WordReference => "wref",
        }
    }

    ///Get the element type for an XML tag
    pub fn from_str(tag: &str) -> (r: Result<Self, FoliaError>)
        ensures
            r matches Ok(t) ==> t.tag() == tag@,
            r is Err ==> forall|t: ElementType| t.tag() != tag@,
            match type_of_tag(tag@) {
                Some(t) => r == Ok::<ElementType, FoliaError>(t),
                None => r is Err,
            },
            r is Err ==> (r matches Err(FoliaError::ParseError(m))
                && m@ == "Unknown tag has no associated element type: "@ + tag@),
    {
        if str_eq(tag, "actor") {
            return Ok(ElementType::ActorFeature);
        }
        if str_eq(tag, "alt") {
            return Ok(ElementType::Alternative);
        }
        if str_eq(tag, "altlayers") {
            return Ok(ElementType::AlternativeLayers);
        }
        if str_eq(tag, "begindatetime") {
            return Ok(ElementType::BegindatetimeFeature);
        }
        if str_eq(tag, "caption") {
            return Ok(ElementType::Caption);
        }
        if str_eq(tag, "cell") {
            return Ok(ElementType::Cell);
        }
        if str_eq(tag, "chunk") {
            return Ok(ElementType::Chunk);
        }
        if str_eq(tag, "chunking") {
            return Ok(ElementType::ChunkingLayer);
        }
        if str_eq(tag, "comment") {
            return Ok(ElementType::Comment);
        }
        if str_eq(tag, "content") {
            return Ok(ElementType::Content);
        }
        if str_eq(tag, "coreferencechain") {
            return Ok(ElementType::CoreferenceChain);
        }
        if str_eq(tag, "coreferences") {
            return Ok(ElementType::CoreferenceLayer);
        }
        if str_eq(tag, "coreferencelink") {
            return Ok(ElementType::CoreferenceLink);
        }
        if str_eq(tag, "correction") {
            return Ok(ElementType::Correction);
        }
        if str_eq(tag, "current") {
            return Ok(ElementType::Current);
        }
        if str_eq(tag, "def") {
            return Ok(ElementType::Definition);
        }
        if str_eq(tag, "dependencies") {
            return Ok(ElementType::DependenciesLayer);
        }
        if str_eq(tag, "dependency") {
            return Ok(ElementType::Dependency);
        }
        if str_eq(tag, "dep") {
            return Ok(ElementType::DependencyDependent);
        }
        if str_eq(tag, "desc") {
            return Ok(ElementType::Description);
        }
        if str_eq(tag, "div") {
            return Ok(ElementType::Division);
        }
        if str_eq(tag, "domain") {
            return Ok(ElementType::DomainAnnotation);
        }
        if str_eq(tag, "enddatetime") {
            return Ok(ElementType::EnddatetimeFeature);
        }
        if str_eq(tag, "entities") {
            return Ok(ElementType::EntitiesLayer);
        }
        if str_eq(tag, "entity") {
            return Ok(ElementType::Entity);
        }
        if str_eq(tag, "entry") {
            return Ok(ElementType::Entry);
        }
        if str_eq(tag, "errordetection") {
            return Ok(ElementType::ErrorDetection);
        }
        if str_eq(tag, "event") {
            return Ok(ElementType::Event);
        }
        if str_eq(tag, "ex") {
            return Ok(ElementType::Example);
        }
        if str_eq(tag, "external") {
            return Ok(ElementType::External);
        }
        if str_eq(tag, "feat") {
            return Ok(ElementType::Feature);
        }
        if str_eq(tag, "figure") {
            return Ok(ElementType::Figure);
        }
        if str_eq(tag, "foreign-data") {
            return Ok(ElementType::ForeignData);
        }
        if str_eq(tag, "function") {
            return Ok(ElementType::FunctionFeature);
        }
        if str_eq(tag, "gap") {
            return Ok(ElementType::Gap);
        }
        if str_eq(tag, "head") {
            return Ok(ElementType::Head);
        }
        if str_eq(tag, "headfeature") {
            return Ok(ElementType::HeadFeature);
        }
        if str_eq(tag, "hd") {
            return Ok(ElementType::Headspan);
        }
        if str_eq(tag, "hiddenw") {
            return Ok(ElementType::Hiddenword);
        }
        if str_eq(tag, "t-hbr") {
            return Ok(ElementType::Hyphbreak);
        }
        if str_eq(tag, "label") {
            return Ok(ElementType::Label);
        }
        if str_eq(tag, "lang") {
            return Ok(ElementType::LangAnnotation);
        }
        if str_eq(tag, "lemma") {
            return Ok(ElementType::LemmaAnnotation);
        }
        if str_eq(tag, "level") {
            return Ok(ElementType::LevelFeature);
        }
        if str_eq(tag, "br") {
            return Ok(ElementType::Linebreak);
        }
        if str_eq(tag, "xref") {
            return Ok(ElementType::LinkReference);
        }
        if str_eq(tag, "list") {
            return Ok(ElementType::List);
        }
        if str_eq(tag, "item") {
            return Ok(ElementType::ListItem);
        }
        if str_eq(tag, "metric") {
            return Ok(ElementType::Metric);
        }
        if str_eq(tag, "modality") {
            return Ok(ElementType::ModalityFeature);
        }
        if str_eq(tag, "morpheme") {
            return Ok(ElementType::Morpheme);
        }
        if str_eq(tag, "morphology") {
            return Ok(ElementType::MorphologyLayer);
        }
        if str_eq(tag, "new") {
            return Ok(ElementType::New);
        }
        if str_eq(tag, "note") {
            return Ok(ElementType::Note);
        }
        if str_eq(tag, "observation") {
            return Ok(ElementType::Observation);
        }
        if str_eq(tag, "observations") {
            return Ok(ElementType::ObservationLayer);
        }
        if str_eq(tag, "original") {
            return Ok(ElementType::Original);
        }
        if str_eq(tag, "p") {
            return Ok(ElementType::Paragraph);
        }
        if str_eq(tag, "part") {
            return Ok(ElementType::Part);
        }
        if str_eq(tag, "ph") {
            return Ok(ElementType::PhonContent);
        }
        if str_eq(tag, "phoneme") {
            return Ok(ElementType::Phoneme);
        }
        if str_eq(tag, "phonology") {
            return Ok(ElementType::PhonologyLayer);
        }
        if str_eq(tag, "polarity") {
            return Ok(ElementType::PolarityFeature);
        }
        if str_eq(tag, "pos") {
            return Ok(ElementType::PosAnnotation);
        }
        if str_eq(tag, "predicate") {
            return Ok(ElementType::Predicate);
        }
        if str_eq(tag, "quote") {
            return Ok(ElementType::Quote);
        }
        if str_eq(tag, "ref") {
            return Ok(ElementType::Reference);
        }
        if str_eq(tag, "relation") {
            return Ok(ElementType::Relation);
        }
        if str_eq(tag, "row") {
            return Ok(ElementType::Row);
        }
        if str_eq(tag, "semrole") {
            return Ok(ElementType::SemanticRole);
        }
        if str_eq(tag, "semroles") {
            return Ok(ElementType::SemanticRolesLayer);
        }
        if str_eq(tag, "sense") {
            return Ok(ElementType::SenseAnnotation);
        }
        if str_eq(tag, "s") {
            return Ok(ElementType::Sentence);
        }
        if str_eq(tag, "sentiment") {
            return Ok(ElementType::Sentiment);
        }
        if str_eq(tag, "sentiments") {
            return Ok(ElementType::SentimentLayer);
        }
        if str_eq(tag, "source") {
            return Ok(ElementType::Source);
        }
        if str_eq(tag, "spanrelation") {
            return Ok(ElementType::SpanRelation);
        }
        if str_eq(tag, "spanrelations") {
            return Ok(ElementType::SpanRelationLayer);
        }
        if str_eq(tag, "speech") {
            return Ok(ElementType::Speech);
        }
        if str_eq(tag, "statement") {
            return Ok(ElementType::Statement);
        }
        if str_eq(tag, "statements") {
            return Ok(ElementType::StatementLayer);
        }
        if str_eq(tag, "rel") {
            return Ok(ElementType::StatementRelation);
        }
        if str_eq(tag, "strength") {
            return Ok(ElementType::StrengthFeature);
        }
        if str_eq(tag, "str") {
            return Ok(ElementType::String);
        }
        if str_eq(tag, "style") {
            return Ok(ElementType::StyleFeature);
        }
        if str_eq(tag, "subjectivity") {
            return Ok(ElementType::SubjectivityAnnotation);
        }
        if str_eq(tag, "suggestion") {
            return Ok(ElementType::Suggestion);
        }
        if str_eq(tag, "synset") {
            return Ok(ElementType::SynsetFeature);
        }
        if str_eq(tag, "su") {
            return Ok(ElementType::SyntacticUnit);
        }
        if str_eq(tag, "syntax") {
            return Ok(ElementType::SyntaxLayer);
        }
        if str_eq(tag, "table") {
            return Ok(ElementType::Table);
        }
        if str_eq(tag, "tablehead") {
            return Ok(ElementType::TableHead);
        }
        if str_eq(tag, "target") {
            return Ok(ElementType::Target);
        }
        if str_eq(tag, "term") {
            return Ok(ElementType::Term);
        }
        if str_eq(tag, "text") {
            return Ok(ElementType::Text);
        }
        if str_eq(tag, "t") {
            return Ok(ElementType::TextContent);
        }
        if str_eq(tag, "t-correction") {
            return Ok(ElementType::TextMarkupCorrection);
        }
        if str_eq(tag, "t-error") {
            return Ok(ElementType::TextMarkupError);
        }
        if str_eq(tag, "t-gap") {
            return Ok(ElementType::TextMarkupGap);
        }
        if str_eq(tag, "t-ref") {
            return Ok(ElementType::TextMarkupReference);
        }
        if str_eq(tag, "t-str") {
            return Ok(ElementType::TextMarkupString);
        }
        if str_eq(tag, "t-style") {
            return Ok(ElementType::TextMarkupStyle);
        }
        if str_eq(tag, "time") {
            return Ok(ElementType::TimeFeature);
        }
        if str_eq(tag, "timesegment") {
            return Ok(ElementType::TimeSegment);
        }
        if str_eq(tag, "timing") {
            return Ok(ElementType::TimingLayer);
        }
        if str_eq(tag, "utt") {
            return Ok(ElementType::Utterance);
        }
        if str_eq(tag, "value") {
            return Ok(ElementType::ValueFeature);
        }
        if str_eq(tag, "whitespace") {
            return Ok(ElementType::Whitespace);
        }
        if str_eq(tag, "w") {
            return Ok(ElementType::Word);
        }
        if str_eq(tag, "wref") {
            return Ok(ElementType::WordReference);
        }
        Err(FoliaError::ParseError(concat_str("Unknown tag has no associated element type: ", tag)))
    }
}

/// A data item held by an element: text, a comment, a child element (by key),
/// a child element still to be added, or a back-reference to a span that
/// refers to the element.
pub enum DataType {
    Text(String),
    Element(ElementKey),
    Comment(String),
    AddElement(ElementData),
    SpanReference(ElementKey),
}

impl DataType {
    ///Creates a text item
    pub fn text(text: &str) -> (d: DataType)
        ensures
            d matches DataType::Text(s) && s@ == text@,
    {
        DataType::Text(text.to_owned())
    }

    ///Creates a comment item
    pub fn comment(text: &str) -> (d: DataType)
        ensures
            d matches DataType::Comment(s) && s@ == text@,
    {
        DataType::Comment(text.to_owned())
    }
}

/// The kind of body a new document gets.
pub enum BodyType {
    Text,
    Speech,
}

} // verus!
