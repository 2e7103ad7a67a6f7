//! FoLiA attributes: their types, values, and how they are read from XML.

use vstd::prelude::*;
use crate::types::{DecKey, ClassKey, ProcKey, SubsetKey};
use crate::metadata::ProcessorType;
use crate::error::FoliaError;
use crate::xml::XmlAttribute;
use crate::util::{str_eq, concat_str, concat3, decimal, decimal_string, parse_u16, u16_literal, is_float_literal, float_literal};

verus! {

///Attribute Type
#[derive(Copy, Clone, PartialEq, Eq, Structural, Debug)]
pub enum AttribType {
    NONE,
    ID,
    SET,
    CLASS,
    ANNOTATOR,
    ANNOTATORTYPE,
    CONFIDENCE,
    N,
    DATETIME,
    BEGINTIME,
    ENDTIME,
    SRC,
    SPEAKER,
    TEXTCLASS,
    METADATA,
    IDREF,
    SPACE,
    PROCESSOR,
    HREF,
    FORMAT,
    SUBSET,
    TEXT,
    TYPE,
    AUTH,
    OFFSET,
    REF,
    ORIGINAL,
    LINENR,
    PAGENR,
    NEWPAGE,
    XLINKTYPE,
}

impl AttribType {
    /// The XML name of the attribute type.
    pub open spec fn name(self) -> Seq<char> {
        match self {
            AttribType::NONE => "NONE"@,
            AttribType::ID => "xml:id"@,
            AttribType::SET => "set"@,
            AttribType::CLASS => "class"@,
            AttribType::ANNOTATOR => "annotator"@,
            AttribType::ANNOTATORTYPE => "annotatortype"@,
            AttribType::CONFIDENCE => "confidence"@,
            AttribType::N => "n"@,
            AttribType::DATETIME => "datetime"@,
            AttribType::BEGINTIME => "begintime"@,
            AttribType::ENDTIME => "endtime"@,
            AttribType::SRC => "src"@,
            AttribType::SPEAKER => "speaker"@,
            AttribType::TEXTCLASS => "textclass"@,
            AttribType::METADATA => "metadata"@,
            AttribType::IDREF => "id"@,
            AttribType::SPACE => "space"@,
            AttribType::PROCESSOR => "processor"@,
            AttribType::HREF => "xlink:href"@,
            AttribType::FORMAT => "format"@,
            AttribType::SUBSET => "subset"@,
            AttribType::TEXT => "t"@,
            AttribType::TYPE => "type"@,
            AttribType::AUTH => "auth"@,
            AttribType::OFFSET => "offset"@,
            AttribType::REF => "ref"@,
            AttribType::ORIGINAL => "original"@,
            AttribType::LINENR => "linenr"@,
            AttribType::PAGENR => "pagenr"@,
            AttribType::NEWPAGE => "newpage"@,
            AttribType::XLINKTYPE => "xlink:type"@,
        }
    }

    ///Get a string representation of the attribute type
    pub fn as_str(&self) -> (s: &'static str)
        ensures
            s@ == self.name(),
    {
        match self {
            AttribType::NONE => "NONE",
            AttribType::ID => "xml:id",
            AttribType::SET => "set",
            AttribType::CLASS => "class",
            AttribType::ANNOTATOR => "annotator",
            AttribType::ANNOTATORTYPE => "annotatortype",
            AttribType::CONFIDENCE => "confidence",
            AttribType::N => "n",
            AttribType::DATETIME => "datetime",
            AttribType::BEGINTIME => "begintime",
            AttribType::ENDTIME => "endtime",
            AttribType::SRC => "src",
            AttribType::SPEAKER => "speaker",
            AttribType::TEXTCLASS => "textclass",
            AttribType::METADATA => "metadata",
            AttribType::IDREF => "id",
            AttribType::SPACE => "space",
            AttribType::PROCESSOR => "processor",
            AttribType::HREF => "xlink:href",
            AttribType::FORMAT => "format",
            AttribType::SUBSET => "subset",
            AttribType::TEXT => "t",
            AttribType::TYPE => "type",
            AttribType::AUTH => "auth",
            AttribType::OFFSET => "offset",
            AttribType::REF => "ref",
            AttribType::ORIGINAL => "original",
            AttribType::LINENR => "linenr",
            AttribType::PAGENR => "pagenr",
            AttribType::NEWPAGE => "newpage",
            AttribType::XLINKTYPE => "xlink:type",
        }
    }
}

///This type hold attributes (including the attribute value). A confidence value
///is held as the literal text it was given in, which must be a valid
///floating-point literal.
pub enum Attribute {
    Ignore,
    Id(String),
    SetName(String),
    DeclarationRef(DecKey),
    Class(String),
    ClassRef(ClassKey),
    Annotator(String),
    AnnotatorType(ProcessorType),
    Confidence(String),
    N(String),
    DateTime(String),
    BeginTime(String),
    EndTime(String),
    Src(String),
    Speaker(String),
    Textclass(String),
    Metadata(String),
    Idref(String),
    Space(bool),
    Text(String),
    Type(String),
    Auth(String),
    Offset(u16),
    Ref(String),
    Original(String),
    LineNr(u16),
    PageNr(String),
    NewPage(bool),
    XLinkType(String),
    Processor(String),
    ProcessorRef(ProcKey),
    Href(String),
    Format(String),
    Subset(String),
    SubsetRef(SubsetKey),
}

/// The attribute type that an XML attribute name stands for, if any.
pub open spec fn key_type(key: Seq<char>) -> Option<AttribType> {

    if key == "xml:id"@ { Some(AttribType::ID) }
    else if key == "set"@ { Some(AttribType::SET) }
    else if key == "class"@ { Some(AttribType::CLASS) }
    else if key == "processor"@ { Some(AttribType::PROCESSOR) }
    else if key == "annotator"@ { Some(AttribType::ANNOTATOR) }
    else if key == "annotatortype"@ { Some(AttribType::ANNOTATORTYPE) }
    else if key == "subset"@ { Some(AttribType::SUBSET) }
    else if key == "format"@ { Some(AttribType::FORMAT) }
    else if key == "xlink:href"@ { Some(AttribType::HREF) }
    else if key == "xlink:type"@ { Some(AttribType::XLINKTYPE) }
    else if key == "speaker"@ { Some(AttribType::SPEAKER) }
    else if key == "src"@ { Some(AttribType::SRC) }
    else if key == "n"@ { Some(AttribType::N) }
    else if key == "t"@ { Some(AttribType::TEXT) }
    else if key == "datetime"@ { Some(AttribType::DATETIME) }
    else if key == "begintime"@ { Some(AttribType::BEGINTIME) }
    else if key == "endtime"@ { Some(AttribType::ENDTIME) }
    else if key == "textclass"@ { Some(AttribType::TEXTCLASS) }
    else if key == "metadata"@ { Some(AttribType::METADATA) }
    else if key == "id"@ { Some(AttribType::IDREF) }
    else if key == "type"@ { Some(AttribType::TYPE) }
    else if key == "auth"@ { Some(AttribType::AUTH) }
    else if key == "original"@ { Some(AttribType::ORIGINAL) }
    else if key == "pagenr"@ { Some(AttribType::PAGENR) }
    else if key == "offset"@ { Some(AttribType::OFFSET) }
    else if key == "linenr"@ { Some(AttribType::LINENR) }
    else if key == "newpage"@ { Some(AttribType::NEWPAGE) }
    else if key == "ref"@ { Some(AttribType::REF) }
    else if key == "confidence"@ { Some(AttribType::CONFIDENCE) }
    else if key == "space"@ { Some(AttribType::SPACE) }
    else { None }
}

/// Reading back an attribute written with its name and its value as text gives an attribute of
/// the same type with the same value (for a confidence, where its text is a number).
#[verifier::rlimit(50)]
pub proof fn lemma_attribute_round_trip(a: Attribute, r: Result<Attribute, FoliaError>)
    requires
        a.text_value() is Some,
        a is Confidence ==> float_literal(a->Confidence_0@),
        parsed_attribute(a.atype().name(), a.text_value()->0, r),
    ensures
        r matches Ok(b) && b.atype() == a.atype() && b.text_value() == a.text_value(),
{
    reveal_strlit("xml:id");
    assert("xml:id"@.len() == 6 && "xml:id"@[0] == 'x' && "xml:id"@[1] == 'm' && "xml:id"@[2] == 'l' && "xml:id"@[3] == ':' && "xml:id"@[4] == 'i' && "xml:id"@[5] == 'd');
    reveal_strlit("set");
    assert("set"@.len() == 3 && "set"@[0] == 's' && "set"@[1] == 'e' && "set"@[2] == 't');
    reveal_strlit("class");
    assert("class"@.len() == 5 && "class"@[0] == 'c' && "class"@[1] == 'l' && "class"@[2] == 'a' && "class"@[3] == 's' && "class"@[4] == 's');
    reveal_strlit("processor");
    assert("processor"@.len() == 9 && "processor"@[0] == 'p' && "processor"@[1] == 'r' && "processor"@[2] == 'o' && "processor"@[3] == 'c' && "processor"@[4] == 'e' && "processor"@[5] == 's' && "processor"@[6] == 's' && "processor"@[7] == 'o' && "processor"@[8] == 'r');
    reveal_strlit("annotator");
    assert("annotator"@.len() == 9 && "annotator"@[0] == 'a' && "annotator"@[1] == 'n' && "annotator"@[2] == 'n' && "annotator"@[3] == 'o' && "annotator"@[4] == 't' && "annotator"@[5] == 'a' && "annotator"@[6] == 't' && "annotator"@[7] == 'o' && "annotator"@[8] == 'r');
    reveal_strlit("annotatortype");
    assert("annotatortype"@.len() == 13 && "annotatortype"@[0] == 'a' && "annotatortype"@[1] == 'n' && "annotatortype"@[2] == 'n' && "annotatortype"@[3] == 'o' && "annotatortype"@[4] == 't' && "annotatortype"@[5] == 'a' && "annotatortype"@[6] == 't' && "annotatortype"@[7] == 'o' && "annotatortype"@[8] == 'r' && "annotatortype"@[9] == 't' && "annotatortype"@[10] == 'y' && "annotatortype"@[11] == 'p' && "annotatortype"@[12] == 'e');
    reveal_strlit("subset");
    assert("subset"@.len() == 6 && "subset"@[0] == 's' && "subset"@[1] == 'u' && "subset"@[2] == 'b' && "subset"@[3] == 's' && "subset"@[4] == 'e' && "subset"@[5] == 't');
    reveal_strlit("format");
    assert("format"@.len() == 6 && "format"@[0] == 'f' && "format"@[1] == 'o' && "format"@[2] == 'r' && "format"@[3] == 'm' && "format"@[4] == 'a' && "format"@[5] == 't');
    reveal_strlit("xlink:href");
    assert("xlink:href"@.len() == 10 && "xlink:href"@[0] == 'x' && "xlink:href"@[1] == 'l' && "xlink:href"@[2] == 'i' && "xlink:href"@[3] == 'n' && "xlink:href"@[4] == 'k' && "xlink:href"@[5] == ':' && "xlink:href"@[6] == 'h' && "xlink:href"@[7] == 'r' && "xlink:href"@[8] == 'e' && "xlink:href"@[9] == 'f');
    reveal_strlit("xlink:type");
    assert("xlink:type"@.len() == 10 && "xlink:type"@[0] == 'x' && "xlink:type"@[1] == 'l' && "xlink:type"@[2] == 'i' && "xlink:type"@[3] == 'n' && "xlink:type"@[4] == 'k' && "xlink:type"@[5] == ':' && "xlink:type"@[6] == 't' && "xlink:type"@[7] == 'y' && "xlink:type"@[8] == 'p' && "xlink:type"@[9] == 'e');
    reveal_strlit("speaker");
    assert("speaker"@.len() == 7 && "speaker"@[0] == 's' && "speaker"@[1] == 'p' && "speaker"@[2] == 'e' && "speaker"@[3] == 'a' && "speaker"@[4] == 'k' && "speaker"@[5] == 'e' && "speaker"@[6] == 'r');
    reveal_strlit("src");
    assert("src"@.len() == 3 && "src"@[0] == 's' && "src"@[1] == 'r' && "src"@[2] == 'c');
    reveal_strlit("n");
    assert("n"@.len() == 1 && "n"@[0] == 'n');
    reveal_strlit("t");
    assert("t"@.len() == 1 && "t"@[0] == 't');
    reveal_strlit("datetime");
    assert("datetime"@.len() == 8 && "datetime"@[0] == 'd' && "datetime"@[1] == 'a' && "datetime"@[2] == 't' && "datetime"@[3] == 'e' && "datetime"@[4] == 't' && "datetime"@[5] == 'i' && "datetime"@[6] == 'm' && "datetime"@[7] == 'e');
    reveal_strlit("begintime");
    assert("begintime"@.len() == 9 && "begintime"@[0] == 'b' && "begintime"@[1] == 'e' && "begintime"@[2] == 'g' && "begintime"@[3] == 'i' && "begintime"@[4] == 'n' && "begintime"@[5] == 't' && "begintime"@[6] == 'i' && "begintime"@[7] == 'm' && "begintime"@[8] == 'e');
    reveal_strlit("endtime");
    assert("endtime"@.len() == 7 && "endtime"@[0] == 'e' && "endtime"@[1] == 'n' && "endtime"@[2] == 'd' && "endtime"@[3] == 't' && "endtime"@[4] == 'i' && "endtime"@[5] == 'm' && "endtime"@[6] == 'e');
    reveal_strlit("textclass");
    assert("textclass"@.len() == 9 && "textclass"@[0] == 't' && "textclass"@[1] == 'e' && "textclass"@[2] == 'x' && "textclass"@[3] == 't' && "textclass"@[4] == 'c' && "textclass"@[5] == 'l' && "textclass"@[6] == 'a' && "textclass"@[7] == 's' && "textclass"@[8] == 's');
    reveal_strlit("metadata");
    assert("metadata"@.len() == 8 && "metadata"@[0] == 'm' && "metadata"@[1] == 'e' && "metadata"@[2] == 't' && "metadata"@[3] == 'a' && "metadata"@[4] == 'd' && "metadata"@[5] == 'a' && "metadata"@[6] == 't' && "metadata"@[7] == 'a');
    reveal_strlit("id");
    assert("id"@.len() == 2 && "id"@[0] == 'i' && "id"@[1] == 'd');
    reveal_strlit("type");
    assert("type"@.len() == 4 && "type"@[0] == 't' && "type"@[1] == 'y' && "type"@[2] == 'p' && "type"@[3] == 'e');
    reveal_strlit("auth");
    assert("auth"@.len() == 4 && "auth"@[0] == 'a' && "auth"@[1] == 'u' && "auth"@[2] == 't' && "auth"@[3] == 'h');
    reveal_strlit("original");
    assert("original"@.len() == 8 && "original"@[0] == 'o' && "original"@[1] == 'r' && "original"@[2] == 'i' && "original"@[3] == 'g' && "original"@[4] == 'i' && "original"@[5] == 'n' && "original"@[6] == 'a' && "original"@[7] == 'l');
    reveal_strlit("pagenr");
    assert("pagenr"@.len() == 6 && "pagenr"@[0] == 'p' && "pagenr"@[1] == 'a' && "pagenr"@[2] == 'g' && "pagenr"@[3] == 'e' && "pagenr"@[4] == 'n' && "pagenr"@[5] == 'r');
    reveal_strlit("offset");
    assert("offset"@.len() == 6 && "offset"@[0] == 'o' && "offset"@[1] == 'f' && "offset"@[2] == 'f' && "offset"@[3] == 's' && "offset"@[4] == 'e' && "offset"@[5] == 't');
    reveal_strlit("linenr");
    assert("linenr"@.len() == 6 && "linenr"@[0] == 'l' && "linenr"@[1] == 'i' && "linenr"@[2] == 'n' && "linenr"@[3] == 'e' && "linenr"@[4] == 'n' && "linenr"@[5] == 'r');
    reveal_strlit("newpage");
    assert("newpage"@.len() == 7 && "newpage"@[0] == 'n' && "newpage"@[1] == 'e' && "newpage"@[2] == 'w' && "newpage"@[3] == 'p' && "newpage"@[4] == 'a' && "newpage"@[5] == 'g' && "newpage"@[6] == 'e');
    reveal_strlit("ref");
    assert("ref"@.len() == 3 && "ref"@[0] == 'r' && "ref"@[1] == 'e' && "ref"@[2] == 'f');
    reveal_strlit("confidence");
    assert("confidence"@.len() == 10 && "confidence"@[0] == 'c' && "confidence"@[1] == 'o' && "confidence"@[2] == 'n' && "confidence"@[3] == 'f' && "confidence"@[4] == 'i' && "confidence"@[5] == 'd' && "confidence"@[6] == 'e' && "confidence"@[7] == 'n' && "confidence"@[8] == 'c' && "confidence"@[9] == 'e');
    reveal_strlit("space");
    assert("space"@.len() == 5 && "space"@[0] == 's' && "space"@[1] == 'p' && "space"@[2] == 'a' && "space"@[3] == 'c' && "space"@[4] == 'e');
    reveal_strlit("auto");
    assert("auto"@.len() == 4 && "auto"@[0] == 'a' && "auto"@[1] == 'u' && "auto"@[2] == 't' && "auto"@[3] == 'o');
    reveal_strlit("manual");
    assert("manual"@.len() == 6 && "manual"@[0] == 'm' && "manual"@[1] == 'a' && "manual"@[2] == 'n' && "manual"@[3] == 'u' && "manual"@[4] == 'a' && "manual"@[5] == 'l');
    reveal_strlit("generator");
    assert("generator"@.len() == 9 && "generator"@[0] == 'g' && "generator"@[1] == 'e' && "generator"@[2] == 'n' && "generator"@[3] == 'e' && "generator"@[4] == 'r' && "generator"@[5] == 'a' && "generator"@[6] == 't' && "generator"@[7] == 'o' && "generator"@[8] == 'r');
    reveal_strlit("datasource");
    assert("datasource"@.len() == 10 && "datasource"@[0] == 'd' && "datasource"@[1] == 'a' && "datasource"@[2] == 't' && "datasource"@[3] == 'a' && "datasource"@[4] == 's' && "datasource"@[5] == 'o' && "datasource"@[6] == 'u' && "datasource"@[7] == 'r' && "datasource"@[8] == 'c' && "datasource"@[9] == 'e');
    reveal_strlit("yes");
    assert("yes"@.len() == 3 && "yes"@[0] == 'y' && "yes"@[1] == 'e' && "yes"@[2] == 's');
    reveal_strlit("no");
    assert("no"@.len() == 2 && "no"@[0] == 'n' && "no"@[1] == 'o');
    reveal_strlit("true");
    assert("true"@.len() == 4 && "true"@[0] == 't' && "true"@[1] == 'r' && "true"@[2] == 'u' && "true"@[3] == 'e');
    reveal_strlit("false");
    assert("false"@.len() == 5 && "false"@[0] == 'f' && "false"@[1] == 'a' && "false"@[2] == 'l' && "false"@[3] == 's' && "false"@[4] == 'e');
    match a {
        Attribute::Offset(n) => {
            crate::util::lemma_u16_round_trip(n);
        },
        Attribute::LineNr(n) => {
            crate::util::lemma_u16_round_trip(n);
        },
        Attribute::AnnotatorType(p) => {
            match p {
                ProcessorType::Auto => {},
                ProcessorType::Manual => {},
                ProcessorType::Generator => {},
                ProcessorType::DataSource => {},
            }
        },
        _ => {},
    }
}

/// Holds when `value` is one of the names of the processor types.
pub open spec fn processor_type_name(value: Seq<char>) -> bool {
    value == "auto"@ || value == "manual"@ || value == "generator"@ || value == "datasource"@
}

/// Holds when `value` reads as boolean `b` in a `space` or `newpage` attribute.
pub open spec fn bool_word(value: Seq<char>, b: bool) -> bool {
    if b { value == "yes"@ || value == "true"@ } else { value == "no"@ || value == "false"@ }
}

/// Holds when `r` is a parse error with the given message.
pub open spec fn is_parse_error<T>(r: Result<T, FoliaError>, msg: Seq<char>) -> bool {
    r matches Err(FoliaError::ParseError(m)) && m@ == msg
}

/// What reading an XML attribute with name `key` and decoded value `value` yields.
pub open spec fn parsed_attribute(key: Seq<char>, value: Seq<char>, r: Result<Attribute, FoliaError>) -> bool {
    match key_type(key) {
        None => if key.contains(':') {
            r matches Ok(Attribute::Ignore)
        } else {
            is_parse_error(r, "Unknown attribute: '"@ + key + "'"@)
        },
        Some(t) => if t == AttribType::ANNOTATORTYPE {
            if processor_type_name(value) {
                r matches Ok(a) && a.atype() == t && a.borrowed_value() == Some(value)
            } else {
                is_parse_error(r, "Invalid value for annotatortype: "@ + value)
            }
        } else if t == AttribType::OFFSET {
            match u16_literal(value) {
                Some(n) => r == Ok::<Attribute, FoliaError>(Attribute::Offset(n)),
                None => is_parse_error(r, "Invalid offset value: '"@ + value + "'"@),
            }
        } else if t == AttribType::LINENR {
            match u16_literal(value) {
                Some(n) => r == Ok::<Attribute, FoliaError>(Attribute::LineNr(n)),
                None => is_parse_error(r, "Invalid line number value: '"@ + value + "'"@),
            }
        } else if t == AttribType::NEWPAGE {
            if bool_word(value, true) {
                r == Ok::<Attribute, FoliaError>(Attribute::NewPage(true))
            } else if bool_word(value, false) {
                r == Ok::<Attribute, FoliaError>(Attribute::NewPage(false))
            } else {
                is_parse_error(r, "Invalid newpage value: '"@ + value + "'"@)
            }
        } else if t == AttribType::SPACE {
            if bool_word(value, true) {
                r == Ok::<Attribute, FoliaError>(Attribute::Space(true))
            } else if bool_word(value, false) {
                r == Ok::<Attribute, FoliaError>(Attribute::Space(false))
            } else {
                is_parse_error(r, "Invalid space value: '"@ + value + "'"@)
            }
        } else if t == AttribType::CONFIDENCE {
            if float_literal(value) {
                r matches Ok(Attribute::Confidence(s)) && s@ == value
            } else {
                is_parse_error(r, "Invalid confidence value: '"@ + value + "'"@)
            }
        } else {
            r matches Ok(a) && a.atype() == t && a.borrowed_value() == Some(value)
        },
    }
}

impl Attribute {
    /// The type of the attribute.
    pub open spec fn atype(self) -> AttribType {
        match self {

            Attribute::Ignore => AttribType::NONE,
            Attribute::Id(_) => AttribType::ID,
            Attribute::SetName(_) => AttribType::SET,
            Attribute::DeclarationRef(_) => AttribType::SET,
            Attribute::Class(_) => AttribType::CLASS,
            Attribute::ClassRef(_) => AttribType::CLASS,
            Attribute::Annotator(_) => AttribType::ANNOTATOR,
            Attribute::AnnotatorType(_) => AttribType::ANNOTATORTYPE,
            Attribute::Confidence(_) => AttribType::CONFIDENCE,
            Attribute::N(_) => AttribType::N,
            Attribute::DateTime(_) => AttribType::DATETIME,
            Attribute::BeginTime(_) => AttribType::BEGINTIME,
            Attribute::EndTime(_) => AttribType::ENDTIME,
            Attribute::Src(_) => AttribType::SRC,
            Attribute::Speaker(_) => AttribType::SPEAKER,
            Attribute::Textclass(_) => AttribType::TEXTCLASS,
            Attribute::Metadata(_) => AttribType::METADATA,
            Attribute::Idref(_) => AttribType::IDREF,
            Attribute::Space(_) => AttribType::SPACE,
            Attribute::Text(_) => AttribType::TEXT,
            Attribute::Type(_) => AttribType::TYPE,
            Attribute::Auth(_) => AttribType::AUTH,
            Attribute::Offset(_) => AttribType::OFFSET,
            Attribute::Ref(_) => AttribType::REF,
            Attribute::Original(_) => AttribType::ORIGINAL,
            Attribute::LineNr(_) => AttribType::LINENR,
            Attribute::PageNr(_) => AttribType::PAGENR,
            Attribute::NewPage(_) => AttribType::NEWPAGE,
            Attribute::XLinkType(_) => AttribType::XLINKTYPE,
            Attribute::Processor(_) => AttribType::PROCESSOR,
            Attribute::ProcessorRef(_) => AttribType::PROCESSOR,
            Attribute::Href(_) => AttribType::HREF,
            Attribute::Format(_) => AttribType::FORMAT,
            Attribute::Subset(_) => AttribType::SUBSET,
            Attribute::SubsetRef(_) => AttribType::SUBSET,
        }
    }

    /// The value as a borrowed string, for the attributes that have one.
    pub open spec fn borrowed_value(self) -> Option<Seq<char>> {
        match self {

            Attribute::Id(s) => Some(s@),
            Attribute::SetName(s) => Some(s@),
            Attribute::Class(s) => Some(s@),
            Attribute::Annotator(s) => Some(s@),
            Attribute::N(s) => Some(s@),
            Attribute::DateTime(s) => Some(s@),
            Attribute::BeginTime(s) => Some(s@),
            Attribute::EndTime(s) => Some(s@),
            Attribute::Src(s) => Some(s@),
            Attribute::Speaker(s) => Some(s@),
            Attribute::Textclass(s) => Some(s@),
            Attribute::Metadata(s) => Some(s@),
            Attribute::Idref(s) => Some(s@),
            Attribute::Processor(s) => Some(s@),
            Attribute::Href(s) => Some(s@),
            Attribute::Format(s) => Some(s@),
            Attribute::Subset(s) => Some(s@),
            Attribute::Text(s) => Some(s@),
            Attribute::Type(s) => Some(s@),
            Attribute::Ref(s) => Some(s@),
            Attribute::Original(s) => Some(s@),
            Attribute::Auth(s) => Some(s@),
            Attribute::XLinkType(s) => Some(s@),
            Attribute::PageNr(s) => Some(s@),
            Attribute::AnnotatorType(t) => Some(t.name()),
            Attribute::Space(b) => Some(if b { "yes"@ } else { "no"@ }),
            Attribute::NewPage(b) => Some(if b { "yes"@ } else { "no"@ }),
            _ => None,
        }
    }

    /// The value rendered as a string, for the attributes that can be rendered
    /// without decoding.
    pub open spec fn text_value(self) -> Option<Seq<char>> {
        match self {
            Attribute::Confidence(s) => Some(s@),
            Attribute::Offset(n) => Some(decimal_string(n as nat)),
            Attribute::LineNr(n) => Some(decimal_string(n as nat)),
            _ => self.borrowed_value(),
        }
    }

    /// Holds for the encoded attributes (keys instead of strings).
    pub open spec fn is_decodable(self) -> bool {
        self is DeclarationRef || self is ClassRef || self is ProcessorRef || self is SubsetRef
    }

    /// Holds for the attributes that are to be encoded (strings instead of keys).
    pub open spec fn is_encodable(self) -> bool {
        self is SetName || self is Class || self is Processor || self is Subset
    }

    /// The attribute type class: some inter-dependent attribute types share one.
    pub open spec fn typeclass(self) -> AttribType {
        let t = self.atype();
        if t == AttribType::SET {
            AttribType::CLASS
        } else if t == AttribType::PROCESSOR || t == AttribType::ANNOTATORTYPE {
            AttribType::ANNOTATOR
        } else {
            t
        }
    }

    ///Can the attribute be decoded? Implies it is currently encoded (key instead of string)
    pub fn decodable(&self) -> (r: bool)
        ensures
            r == self.is_decodable(),
    {
        match self {
            Attribute::DeclarationRef(_) | Attribute::ClassRef(_) | Attribute::ProcessorRef(_) | Attribute::SubsetRef(_) => true,
            _ => false,
        }
    }

    ///Can the attribute be encoded? Implies it is currently decoded (string instead of key)
    pub fn encodable(&self) -> (r: bool)
        ensures
            r == self.is_encodable(),
    {
        match self {
            Attribute::SetName(_) | Attribute::Class(_) | Attribute::Processor(_) | Attribute::Subset(_) => true,
            _ => false,
        }
    }

    ///Get the attribute value as a ``&str``, note that this does only works
    ///for attributes from which a string slice can be borrowed. Use ``to_string()`` for
    ///the others.
    pub fn as_str(&self) -> (r: Result<&str, FoliaError>)
        ensures
            r is Ok <==> self.borrowed_value() is Some,
            r matches Ok(s) ==> s@ == self.borrowed_value().unwrap(),
            self is Ignore ==> (r matches Err(FoliaError::TypeError(m))
                && m@ == "Ignore attribute can't be serialised"@),
            (self.borrowed_value() is None && !(self is Ignore)) ==> (r matches Err(FoliaError::TypeError(m))
                && m@ == "Attribute "@ + self.atype().name() + " can't be cast as_str, use to_string() instead"@),
    {
        match self {

            Attribute::Id(s) => Ok(s.as_str()),
            Attribute::SetName(s) => Ok(s.as_str()),
            Attribute::Class(s) => Ok(s.as_str()),
            Attribute::Annotator(s) => Ok(s.as_str()),
            Attribute::N(s) => Ok(s.as_str()),
            Attribute::DateTime(s) => Ok(s.as_str()),
            Attribute::BeginTime(s) => Ok(s.as_str()),
            Attribute::EndTime(s) => Ok(s.as_str()),
            Attribute::Src(s) => Ok(s.as_str()),
            Attribute::Speaker(s) => Ok(s.as_str()),
            Attribute::Textclass(s) => Ok(s.as_str()),
            Attribute::Metadata(s) => Ok(s.as_str()),
            Attribute::Idref(s) => Ok(s.as_str()),
            Attribute::Processor(s) => Ok(s.as_str()),
            Attribute::Href(s) => Ok(s.as_str()),
            Attribute::Format(s) => Ok(s.as_str()),
            Attribute::Subset(s) => Ok(s.as_str()),
            Attribute::Text(s) => Ok(s.as_str()),
            Attribute::Type(s) => Ok(s.as_str()),
            Attribute::Ref(s) => Ok(s.as_str()),
            Attribute::Original(s) => Ok(s.as_str()),
            Attribute::Auth(s) => Ok(s.as_str()),
            Attribute::XLinkType(s) => Ok(s.as_str()),
            Attribute::PageNr(s) => Ok(s.as_str()),
            Attribute::AnnotatorType(t) => Ok(t.as_str()),
            Attribute::Space(b) => if *b { Ok("yes") } else { Ok("no") },
            Attribute::NewPage(b) => if *b { Ok("yes") } else { Ok("no") },
            Attribute::Ignore => Err(FoliaError::TypeError("Ignore attribute can't be serialised".to_owned())),
            _ => {
                let attribtype = self.attribtype();
                Err(FoliaError::TypeError(concat3("Attribute ", attribtype.as_str(), " can't be cast as_str, use to_string() instead")))
            }
        }
    }

    ///Convert the attribute value to string. This does not work for encoded attributes (i.e.
    ///attributes that refer to a certain key), those need
    ///explicit decoding first.
    pub fn to_string(&self) -> (r: Result<String, FoliaError>)
        ensures
            r is Ok <==> self.text_value() is Some,
            r matches Ok(s) ==> s@ == self.text_value().unwrap(),
            self is Ignore ==> (r matches Err(FoliaError::TypeError(m))
                && m@ == "Ignore attribute can't be serialised"@),
            (self.text_value() is None && !(self is Ignore)) ==> (r matches Err(FoliaError::TypeError(m))
                && m@ == "Attribute "@ + self.atype().name() + " can't be cast to_string() without decoding"@),
    {
        match self {
            Attribute::Confidence(s) => Ok(s.clone()),
            Attribute::Offset(n) => Ok(decimal(*n as u64)),
            Attribute::LineNr(n) => Ok(decimal(*n as u64)),
            Attribute::Ignore => Err(FoliaError::TypeError("Ignore attribute can't be serialised".to_owned())),
            _ => {
                match self.as_str() {
                    Ok(s) => Ok(s.to_owned()),
                    Err(_) => {
                        let attribtype = self.attribtype();
                        Err(FoliaError::TypeError(concat3("Attribute ", attribtype.as_str(), " can't be cast to_string() without decoding")))
                    }
                }
            }
        }
    }

    ///Tests if two attributes are the same type (does not take their values into account)
    pub fn sametype(&self, other: &Attribute) -> (r: bool)
        ensures
            r == (self.atype() == other.atype()),
    {
        self.attribtype() == other.attribtype()
    }

    ///Get the type of the attribute
    pub fn attribtype(&self) -> (t: AttribType)
        ensures
            t == self.atype(),
    {
        match self {

            Attribute::Ignore => AttribType::NONE,
            Attribute::Id(_) => AttribType::ID,
            Attribute::SetName(_) => AttribType::SET,
            Attribute::DeclarationRef(_) => AttribType::SET,
            Attribute::Class(_) => AttribType::CLASS,
            Attribute::ClassRef(_) => AttribType::CLASS,
            Attribute::Annotator(_) => AttribType::ANNOTATOR,
            Attribute::AnnotatorType(_) => AttribType::ANNOTATORTYPE,
            Attribute::Confidence(_) => AttribType::CONFIDENCE,
            Attribute::N(_) => AttribType::N,
            Attribute::DateTime(_) => AttribType::DATETIME,
            Attribute::BeginTime(_) => AttribType::BEGINTIME,
            Attribute::EndTime(_) => AttribType::ENDTIME,
            Attribute::Src(_) => AttribType::SRC,
            Attribute::Speaker(_) => AttribType::SPEAKER,
            Attribute::Textclass(_) => AttribType::TEXTCLASS,
            Attribute::Metadata(_) => AttribType::METADATA,
            Attribute::Idref(_) => AttribType::IDREF,
            Attribute::Space(_) => AttribType::SPACE,
            Attribute::Text(_) => AttribType::TEXT,
            Attribute::Type(_) => AttribType::TYPE,
            Attribute::Auth(_) => AttribType::AUTH,
            Attribute::Offset(_) => AttribType::OFFSET,
            Attribute::Ref(_) => AttribType::REF,
            Attribute::Original(_) => AttribType::ORIGINAL,
            Attribute::LineNr(_) => AttribType::LINENR,
            Attribute::PageNr(_) => AttribType::PAGENR,
            Attribute::NewPage(_) => AttribType::NEWPAGE,
            Attribute::XLinkType(_) => AttribType::XLINKTYPE,
            Attribute::Processor(_) => AttribType::PROCESSOR,
            Attribute::ProcessorRef(_) => AttribType::PROCESSOR,
            Attribute::Href(_) => AttribType::HREF,
            Attribute::Format(_) => AttribType::FORMAT,
            Attribute::Subset(_) => AttribType::SUBSET,
            Attribute::SubsetRef(_) => AttribType::SUBSET,
        }
    }

    ///The attribute type class is a generalisation of the attrib type, some inter-dependent attrib types are part
    ///of the same attribute type class, which themselves are just a subset of the attribute types
    ///and are used in the required_attribs and optional_attribs properties.
    pub fn attribtypeclass(&self) -> (t: AttribType)
        ensures
            t == self.typeclass(),
    {
        let attribtype = self.attribtype();
        match attribtype {
            AttribType::SET => AttribType::CLASS,
            AttribType::PROCESSOR => AttribType::ANNOTATOR,
            AttribType::ANNOTATORTYPE => AttribType::ANNOTATOR,
            _ => attribtype,
        }
    }

    /// Makes an identical copy of the attribute.
    pub fn duplicate(&self) -> (r: Attribute)
        ensures
            r == *self,
    {
        match self {

            Attribute::Ignore => Attribute::Ignore,
            Attribute::Id(s) => Attribute::Id(s.clone()),
            Attribute::SetName(s) => Attribute::SetName(s.clone()),
            Attribute::DeclarationRef(x) => Attribute::DeclarationRef(*x),
            Attribute::Class(s) => Attribute::Class(s.clone()),
            Attribute::ClassRef(x) => Attribute::ClassRef(*x),
            Attribute::Annotator(s) => Attribute::Annotator(s.clone()),
            Attribute::AnnotatorType(x) => Attribute::AnnotatorType(*x),
            Attribute::Confidence(s) => Attribute::Confidence(s.clone()),
            Attribute::N(s) => Attribute::N(s.clone()),
            Attribute::DateTime(s) => Attribute::DateTime(s.clone()),
            Attribute::BeginTime(s) => Attribute::BeginTime(s.clone()),
            Attribute::EndTime(s) => Attribute::EndTime(s.clone()),
            Attribute::Src(s) => Attribute::Src(s.clone()),
            Attribute::Speaker(s) => Attribute::Speaker(s.clone()),
            Attribute::Textclass(s) => Attribute::Textclass(s.clone()),
            Attribute::Metadata(s) => Attribute::Metadata(s.clone()),
            Attribute::Idref(s) => Attribute::Idref(s.clone()),
            Attribute::Space(x) => Attribute::Space(*x),
            Attribute::Text(s) => Attribute::Text(s.clone()),
            Attribute::Type(s) => Attribute::Type(s.clone()),
            Attribute::Auth(s) => Attribute::Auth(s.clone()),
            Attribute::Offset(x) => Attribute::Offset(*x),
            Attribute::Ref(s) => Attribute::Ref(s.clone()),
            Attribute::Original(s) => Attribute::Original(s.clone()),
            Attribute::LineNr(x) => Attribute::LineNr(*x),
            Attribute::PageNr(s) => Attribute::PageNr(s.clone()),
            Attribute::NewPage(x) => Attribute::NewPage(*x),
            Attribute::XLinkType(s) => Attribute::XLinkType(s.clone()),
            Attribute::Processor(s) => Attribute::Processor(s.clone()),
            Attribute::ProcessorRef(x) => Attribute::ProcessorRef(*x),
            Attribute::Href(s) => Attribute::Href(s.clone()),
            Attribute::Format(s) => Attribute::Format(s.clone()),
            Attribute::Subset(s) => Attribute::Subset(s.clone()),
            Attribute::SubsetRef(x) => Attribute::SubsetRef(*x),
        }
    }

    ///A confidence attribute, for a text that reads as a number (as ``parse`` accepts it)
    pub fn confidence(text: &str) -> (r: Option<Attribute>)
        ensures
            r is Some <==> float_literal(text@),
            r matches Some(a) ==> (a matches Attribute::Confidence(s) && s@ == text@),
    {
        if is_float_literal(text) {
            Some(Attribute::Confidence(text.to_owned()))
        } else {
            None
        }
    }

    ///Parse an XML attribute into a FoLiA Attribute
    pub fn parse(attrib: &XmlAttribute) -> (r: Result<Attribute, FoliaError>)
        ensures
            attrib.value is None ==> is_parse_error(r, "Unable to parse attribute value (invalid utf-8?)"@),
            attrib.value matches Some(v) ==> parsed_attribute(attrib.key@, v@, r),
            r matches Ok(a) ==> !a.is_decodable(),
    {
        let value = match &attrib.value {
            Some(v) => v,
            None => {
                return Err(FoliaError::ParseError("Unable to parse attribute value (invalid utf-8?)".to_owned()));
            }
        };
        let key = attrib.key.as_str();

        if str_eq(key, "xml:id") {
            return Ok(Attribute::Id(value.clone()));
        }
        if str_eq(key, "set") {
            return Ok(Attribute::SetName(value.clone()));
        }
        if str_eq(key, "class") {
            return Ok(Attribute::Class(value.clone()));
        }
        if str_eq(key, "processor") {
            return Ok(Attribute::Processor(value.clone()));
        }
        if str_eq(key, "annotator") {
            return Ok(Attribute::Annotator(value.clone()));
        }
        if str_eq(key, "annotatortype") {
            let v = value.as_str();
            if str_eq(v, "auto") {
                return Ok(Attribute::AnnotatorType(ProcessorType::Auto));
            } else if str_eq(v, "manual") {
                return Ok(Attribute::AnnotatorType(ProcessorType::Manual));
            } else if str_eq(v, "generator") {
                return Ok(Attribute::AnnotatorType(ProcessorType::Generator));
            } else if str_eq(v, "datasource") {
                return Ok(Attribute::AnnotatorType(ProcessorType::DataSource));
            } else {
                return Err(FoliaError::ParseError(concat_str("Invalid value for annotatortype: ", v)));
            }
        }
        if str_eq(key, "subset") {
            return Ok(Attribute::Subset(value.clone()));
        }
        if str_eq(key, "format") {
            return Ok(Attribute::Format(value.clone()));
        }
        if str_eq(key, "xlink:href") {
            return Ok(Attribute::Href(value.clone()));
        }
        if str_eq(key, "xlink:type") {
            return Ok(Attribute::XLinkType(value.clone()));
        }
        if str_eq(key, "speaker") {
            return Ok(Attribute::Speaker(value.clone()));
        }
        if str_eq(key, "src") {
            return Ok(Attribute::Src(value.clone()));
        }
        if str_eq(key, "n") {
            return Ok(Attribute::N(value.clone()));
        }
        if str_eq(key, "t") {
            return Ok(Attribute::Text(value.clone()));
        }
        if str_eq(key, "datetime") {
            return Ok(Attribute::DateTime(value.clone()));
        }
        if str_eq(key, "begintime") {
            return Ok(Attribute::BeginTime(value.clone()));
        }
        if str_eq(key, "endtime") {
            return Ok(Attribute::EndTime(value.clone()));
        }
        if str_eq(key, "textclass") {
            return Ok(Attribute::Textclass(value.clone()));
        }
        if str_eq(key, "metadata") {
            return Ok(Attribute::Metadata(value.clone()));
        }
        if str_eq(key, "id") {
            return Ok(Attribute::Idref(value.clone()));
        }
        if str_eq(key, "type") {
            return Ok(Attribute::Type(value.clone()));
        }
        if str_eq(key, "auth") {
            return Ok(Attribute::Auth(value.clone()));
        }
        if str_eq(key, "original") {
            return Ok(Attribute::Original(value.clone()));
        }
        if str_eq(key, "pagenr") {
            return Ok(Attribute::PageNr(value.clone()));
        }
        if str_eq(key, "offset") {
            match parse_u16(value.as_str()) {
                Some(n) => {
                    return Ok(Attribute::Offset(n));
                },
                None => {
                    return Err(FoliaError::ParseError(concat3("Invalid offset value: '", value.as_str(), "'")));
                },
            }
        }
        if str_eq(key, "linenr") {
            match parse_u16(value.as_str()) {
                Some(n) => {
                    return Ok(Attribute::LineNr(n));
                },
                None => {
                    return Err(FoliaError::ParseError(concat3("Invalid line number value: '", value.as_str(), "'")));
                },
            }
        }
        if str_eq(key, "newpage") {
            let v = value.as_str();
            if str_eq(v, "yes") || str_eq(v, "true") {
                return Ok(Attribute::NewPage(true));
            } else if str_eq(v, "no") || str_eq(v, "false") {
                return Ok(Attribute::NewPage(false));
            } else {
                return Err(FoliaError::ParseError(concat3("Invalid newpage value: '", v, "'")));
            }
        }
        if str_eq(key, "ref") {
            return Ok(Attribute::Ref(value.clone()));
        }
        if str_eq(key, "confidence") {
            if is_float_literal(value.as_str()) {
                return Ok(Attribute::Confidence(value.clone()));
            } else {
                return Err(FoliaError::ParseError(concat3("Invalid confidence value: '", value.as_str(), "'")));
            }
        }
        if str_eq(key, "space") {
            let v = value.as_str();
            if str_eq(v, "yes") || str_eq(v, "true") {
                return Ok(Attribute::Space(true));
            } else if str_eq(v, "no") || str_eq(v, "false") {
                return Ok(Attribute::Space(false));
            } else {
                return Err(FoliaError::ParseError(concat3("Invalid space value: '", v, "'")));
            }
        }
        if contains_colon(key) {
            Ok(Attribute::Ignore)
        } else {
            Err(FoliaError::ParseError(concat3("Unknown attribute: '", key, "'")))
        }
    }
}

/// Whether an attribute name holds a colon (a namespace prefix).
fn contains_colon(key: &str) -> (r: bool)
    ensures
        r == key@.contains(':'),
{
    let v = crate::util::str_chars(key);
    let mut i: usize = 0;
    while i < v.len()
        invariant
            v@ == key@,
            i <= v.len(),
            forall|j: int| 0 <= j < i ==> v@[j] != ':',
        decreases v.len() - i,
    {
        if v[i] == ':' {
            return true;
        }
        i += 1;
    }
    false
}

} // verus!
