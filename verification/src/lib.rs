//! A library for the FoLiA XML format for linguistic annotation: a document
//! model with element, declaration and provenance stores, a parser and a
//! serialiser.

pub mod util;
pub mod common;
pub mod error;
pub mod types;
pub mod metadata;
pub mod xml;
pub mod attrib;
pub mod specification;
pub mod store;
pub mod element;
pub mod query;
pub mod document;
pub mod select;
pub mod annotation;
pub mod text;
pub mod parser;
pub mod serialiser;

pub use crate::error::FoliaError;
pub use crate::common::{DEFAULT_TEXT_SET, FOLIAVERSION, GENERATOR, NSFOLIA, NSXLINK};
pub use crate::types::{
    ElementKey, ProcKey, DecKey, ClassKey, SubsetKey, Class, ElementType, ElementGroup,
    AnnotationType, DataType, BodyType,
};
pub use crate::element::{ElementData, Element, ValidationStrategy};
pub use crate::attrib::{AttribType, Attribute};
pub use crate::metadata::{ProcessorType, Processor, Declaration, Metadata, MetadataMap, ProvenanceStore, DeclarationStore};
pub use crate::document::{Document, DocumentProperties, ElementStore};
pub use crate::select::{Selector, SelectItem, SelectIterator, SelectElementsIterator, DataTypeSelector};
pub use crate::query::{Query, Cmp, Action, Matchable};
pub use crate::specification::{Properties, AcceptedData, Specification};
pub use crate::store::{Store, Storable};
pub use crate::parser::{ParseState, ParsePhase};
pub use crate::xml::{XmlAttribute, XmlTag, XmlEvent};
