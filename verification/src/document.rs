//! The FoLiA document: it holds and owns all elements, declarations and
//! processors, and provides the means to add and retrieve them.

use vstd::prelude::*;
use crate::common::{DEFAULT_TEXT_SET, FOLIAVERSION};
use crate::types::{ElementKey, DecKey, ProcKey, ClassKey, SubsetKey, AnnotationType, BodyType, ElementType, DataType};
use crate::attrib::{Attribute, AttribType};
use crate::error::FoliaError;
use crate::element::{ElementData, Element, ElementModel, first_index, lemma_first_index, lemma_first_index_at};
use crate::store::{Store, Storable};
use crate::metadata::{Declaration, DeclarationStore, Processor, ProvenanceStore, Metadata, declaration_id,
    opt_view, opt_index, opt_name, opt_names, added_name, lemma_positions_valid, lemma_added_name};
use crate::specification::{Specification, Properties, element_properties};
use crate::util::{concat_str, concat3, decimal, str_eq};

verus! {

///Holds and owns all elements and the index to them, together with the FoLiA specification.
pub struct ElementStore {
    pub store: Store<ElementData>,
    ///The properties of every element type
    pub specification: Specification,
}

impl ElementStore {
    /// An empty element store.
    pub fn new() -> (s: Self)
        ensures
            s.store.wf(),
            s.store.items_view() == Seq::<Option<ElementData>>::empty(),
            s.store.index_view() == Map::<Seq<char>, usize>::empty(),
            s.specification.wf(),
    {
        ElementStore { store: Store::new(), specification: Specification::default() }
    }
}

impl Default for ElementStore {
    fn default() -> (s: Self)
        ensures
            s.store.wf(),
            s.store.items_view() == Seq::<Option<ElementData>>::empty(),
            s.store.index_view() == Map::<Seq<char>, usize>::empty(),
            s.specification.wf(),
    {
        ElementStore::new()
    }
}

///Properties for document parsing/instantiation/serialisation/handling.
pub struct DocumentProperties {
    pub bodytype: BodyType,
    pub autodeclare: bool,
    ///Declarations to make (annotation type and set)
    pub declare: Vec<(AnnotationType, Option<String>)>,
}

impl Default for DocumentProperties {
    fn default() -> (p: Self)
        ensures
            p.bodytype is Text,
            p.autodeclare,
            p.declare@.len() == 1,
            p.declare@[0].0 == AnnotationType::TEXT,
            p.declare@[0].1 matches Some(s) && s@ == DEFAULT_TEXT_SET@,
    {
        DocumentProperties {
            bodytype: BodyType::Text,
            autodeclare: true,
            declare: vec![(AnnotationType::TEXT, Some(DEFAULT_TEXT_SET.to_owned()))],
        }
    }
}

///Represents a FoLiA document, owns all data
pub struct Document {
    ///The ID of the document
    pub id: String,
    ///The FoLiA version of the document
    pub version: String,
    ///The file the document was loaded from, if any
    pub filename: Option<String>,
    ///The element store holds and owns all elements in a document
    pub elementstore: ElementStore,
    ///The provenance store holds and owns all processors and a representation of the provenance chain
    pub provenancestore: ProvenanceStore,
    ///The declaration store holds all annotation declarations
    pub declarationstore: DeclarationStore,
    ///Metadata consists of a simple key/value store (or a reference to external metadata)
    pub metadata: Metadata,
    pub autodeclare: bool,
}

/// A declaration as `declare` creates it.
pub open spec fn is_new_declaration(d: Declaration, key: nat, annotationtype: AnnotationType,
    set: Option<Seq<char>>, alias: Option<Seq<char>>, format: Option<Seq<char>>) -> bool {
    &&& d.key == Some(key as DecKey)
    &&& d.annotationtype == annotationtype
    &&& opt_view(d.set) == set
    &&& opt_view(d.alias) == alias
    &&& opt_view(d.format) == format
    &&& d.processors@.len() == 0
    &&& d.classes is None
    &&& d.subsets is None
    &&& d.subclasses is None
}

impl Document {
    /// The elements, by key.
    pub open spec fn elems(&self) -> Seq<Option<ElementData>> {
        self.elementstore.store.items_view()
    }

    /// The element under a key, if any.
    pub open spec fn element_at(&self, key: int) -> Option<ElementData> {
        self.elementstore.store.item(key)
    }

    /// The index from element IDs to keys.
    pub open spec fn element_index(&self) -> Map<Seq<char>, usize> {
        self.elementstore.store.index_view()
    }

    /// The declarations, by key.
    pub open spec fn decls(&self) -> Seq<Option<Declaration>> {
        self.declarationstore.items_view()
    }

    /// The declaration under a key, if any.
    pub open spec fn declaration_at(&self, key: int) -> Option<Declaration> {
        self.declarationstore.item(key)
    }

    /// The index from declaration IDs to keys.
    pub open spec fn declaration_index(&self) -> Map<Seq<char>, usize> {
        self.declarationstore.index_view()
    }

    /// The processors, by key.
    pub open spec fn procs(&self) -> Seq<Option<Processor>> {
        self.provenancestore.store.items_view()
    }

    /// The processor under a key, if any.
    pub open spec fn processor_at(&self, key: int) -> Option<Processor> {
        self.provenancestore.store.item(key)
    }

    /// The index from processor IDs to keys.
    pub open spec fn processor_index(&self) -> Map<Seq<char>, usize> {
        self.provenancestore.store.index_view()
    }

    /// The stores are well formed, their keys fit their key types, and every declaration's
    /// class stores are well formed.
    pub open spec fn wf(&self) -> bool {
        &&& self.elementstore.store.wf()
        &&& self.elementstore.specification.wf()
        &&& self.declarationstore.wf()
        &&& self.provenancestore.store.wf()
        &&& self.elems().len() <= ElementKey::MAX + 1
        &&& self.decls().len() <= DecKey::MAX + 1
        &&& self.procs().len() <= ProcKey::MAX + 1
        &&& forall|k: int| 0 <= k < self.decls().len() && #[trigger] self.decls()[k] is Some
            ==> self.decls()[k]->0.wf()
        &&& forall|k: int| 0 <= k < self.decls().len() ==> (#[trigger] self.decls()[k]) is Some
        &&& self.metadata.data.wf()
    }

    /// Everything but the declarations is as in `other`.
    pub open spec fn same_but_declarations(&self, other: &Document) -> bool {
        &&& self.id == other.id
        &&& self.version == other.version
        &&& self.filename == other.filename
        &&& self.elementstore == other.elementstore
        &&& self.provenancestore == other.provenancestore
        &&& self.metadata == other.metadata
        &&& self.autodeclare == other.autodeclare
    }

    /// Everything but the processors is as in `other`.
    pub open spec fn same_but_processors(&self, other: &Document) -> bool {
        &&& self.id == other.id
        &&& self.version == other.version
        &&& self.filename == other.filename
        &&& self.elementstore == other.elementstore
        &&& self.declarationstore == other.declarationstore
        &&& self.metadata == other.metadata
        &&& self.autodeclare == other.autodeclare
    }

    /// Everything but the elements is as in `other`.
    pub open spec fn same_but_elements(&self, other: &Document) -> bool {
        &&& self.id == other.id
        &&& self.version == other.version
        &&& self.filename == other.filename
        &&& self.elementstore.specification == other.elementstore.specification
        &&& self.declarationstore == other.declarationstore
        &&& self.provenancestore == other.provenancestore
        &&& self.metadata == other.metadata
        &&& self.autodeclare == other.autodeclare
    }

    /// An empty document: no elements, declarations, processors or metadata.
    pub fn empty(id: &str, autodeclare: bool) -> (doc: Document)
        ensures
            doc.wf(),
            doc.id@ == id@,
            doc.version@ == FOLIAVERSION@,
            doc.filename is None,
            doc.elems().len() == 0,
            doc.element_index() == Map::<Seq<char>, usize>::empty(),
            doc.decls().len() == 0,
            doc.declaration_index() == Map::<Seq<char>, usize>::empty(),
            doc.procs().len() == 0,
            doc.processor_index() == Map::<Seq<char>, usize>::empty(),
            doc.provenancestore.chain@.len() == 0,
            doc.metadata.data.keys_view().len() == 0,
            doc.metadata.data.map_view() == Map::<Seq<char>, Seq<char>>::empty(),
            doc.metadata.src is None,
            doc.metadata.metadatatype is None,
            doc.autodeclare == autodeclare,
    {
        Document {
            id: id.to_owned(),
            version: FOLIAVERSION.to_owned(),
            filename: None,
            elementstore: ElementStore::new(),
            provenancestore: ProvenanceStore { store: Store::new(), chain: Vec::new() },
            declarationstore: Store::new(),
            metadata: Metadata::new(),
            autodeclare,
        }
    }

    ///Returns the ID of the document
    pub fn id(&self) -> (r: &str)
        ensures
            r@ == self.id@,
    {
        self.id.as_str()
    }

    ///Returns the filename associated with this document (i.e. the file from which it was loaded)
    pub fn filename(&self) -> (r: Option<&str>)
        ensures
            r matches Some(s) ==> self.filename matches Some(f) && s@ == f@,
            r is None ==> self.filename is None,
    {
        match &self.filename {
            Some(f) => Some(f.as_str()),
            None => None,
        }
    }

    ///Get properties from the specification (a shortcut)
    pub fn props(&self, elementtype: ElementType) -> (p: &Properties)
        requires
            self.wf(),
        ensures
            p@ == element_properties(elementtype),
    {
        self.elementstore.specification.get(elementtype)
    }

    //************** Access to the stores ****************

    ///Get a declaration by key
    pub fn get_declaration(&self, key: DecKey) -> (r: Option<&Declaration>)
        ensures
            r is Some <==> self.declaration_at(key as int) is Some,
            r matches Some(d) ==> *d == self.declaration_at(key as int)->0,
    {
        self.declarationstore.get(key as usize)
    }

    ///Resolve a declaration ID to a key
    pub fn get_declaration_key_by_id(&self, id: &str) -> (r: Option<DecKey>)
        requires
            self.wf(),
        ensures
            r is Some <==> self.declaration_index().contains_key(id@),
            r matches Some(k) ==> k == self.declaration_index()[id@] && self.declaration_at(k as int) is Some,
    {
        match self.declarationstore.id_to_key(id) {
            Some(k) => Some(k as DecKey),
            None => None,
        }
    }

    ///Get a declaration by its ID
    pub fn get_declaration_by_id(&self, id: &str) -> (r: Option<&Declaration>)
        requires
            self.wf(),
        ensures
            r is Some <==> self.declaration_index().contains_key(id@),
            r matches Some(d) ==> *d == self.declaration_at(self.declaration_index()[id@] as int)->0,
    {
        self.declarationstore.get_by_id(id)
    }

    ///Get a declaration by key, for changing it in place
    pub fn get_mut_declaration(&mut self, key: DecKey) -> (r: Option<&mut Declaration>)
        requires
            old(self).wf(),
        ensures
            r is Some <==> old(self).declaration_at(key as int) is Some,
            r is None ==> *final(self) == *old(self),
            r matches Some(d) ==> *d == old(self).declaration_at(key as int)->0
                && final(self).decls() == old(self).decls().update(key as int, Some(*final(d)))
                && final(self).declaration_index() == old(self).declaration_index()
                && final(self).same_but_declarations(old(self))
                && (final(d).wf() && final(d).id_spec() == d.id_spec() ==> final(self).wf()),
    {
        self.declarationstore.get_mut(key as usize)
    }

    ///Get a declaration by its ID, for changing it in place
    pub fn get_mut_declaration_by_id(&mut self, id: &str) -> (r: Option<&mut Declaration>)
        requires
            old(self).wf(),
        ensures
            r is Some <==> old(self).declaration_index().contains_key(id@),
            r is None ==> *final(self) == *old(self),
            r matches Some(d) ==> {
                let key = old(self).declaration_index()[id@] as int;
                &&& *d == old(self).declaration_at(key)->0
                &&& final(self).decls() == old(self).decls().update(key, Some(*final(d)))
                &&& final(self).declaration_index() == old(self).declaration_index()
                &&& final(self).same_but_declarations(old(self))
                &&& (final(d).wf() && final(d).id_spec() == d.id_spec() ==> final(self).wf())
            },
    {
        match self.get_declaration_key_by_id(id) {
            Some(k) => self.get_mut_declaration(k),
            None => None,
        }
    }

    ///All declarations, by key
    pub fn declarations(&self) -> (r: &Vec<Option<Declaration>>)
        ensures
            r@ == self.decls(),
    {
        self.declarationstore.items()
    }

    ///Get a processor by key
    pub fn get_processor(&self, key: ProcKey) -> (r: Option<&Processor>)
        ensures
            r is Some <==> self.processor_at(key as int) is Some,
            r matches Some(p) ==> *p == self.processor_at(key as int)->0,
    {
        self.provenancestore.store.get(key as usize)
    }

    ///Resolve a processor ID to a key
    pub fn get_processor_key_by_id(&self, id: &str) -> (r: Option<ProcKey>)
        requires
            self.wf(),
        ensures
            r is Some <==> self.processor_index().contains_key(id@),
            r matches Some(k) ==> k == self.processor_index()[id@] && self.processor_at(k as int) is Some,
    {
        match self.provenancestore.store.id_to_key(id) {
            Some(k) => Some(k as ProcKey),
            None => None,
        }
    }

    ///Get a processor by its ID
    pub fn get_processor_by_id(&self, id: &str) -> (r: Option<&Processor>)
        requires
            self.wf(),
        ensures
            r is Some <==> self.processor_index().contains_key(id@),
            r matches Some(p) ==> *p == self.processor_at(self.processor_index()[id@] as int)->0,
    {
        self.provenancestore.store.get_by_id(id)
    }

    ///Get a processor by key, for changing it in place
    pub fn get_mut_processor(&mut self, key: ProcKey) -> (r: Option<&mut Processor>)
        requires
            old(self).wf(),
        ensures
            r is Some <==> old(self).processor_at(key as int) is Some,
            r is None ==> *final(self) == *old(self),
            r matches Some(p) ==> *p == old(self).processor_at(key as int)->0
                && final(self).procs() == old(self).procs().update(key as int, Some(*final(p)))
                && final(self).processor_index() == old(self).processor_index()
                && final(self).provenancestore.chain == old(self).provenancestore.chain
                && final(self).same_but_processors(old(self))
                && (final(p).id@ == p.id@ ==> final(self).wf()),
    {
        self.provenancestore.store.get_mut(key as usize)
    }

    ///Get a processor by its ID, for changing it in place
    pub fn get_mut_processor_by_id(&mut self, id: &str) -> (r: Option<&mut Processor>)
        requires
            old(self).wf(),
        ensures
            r is Some <==> old(self).processor_index().contains_key(id@),
            r is None ==> *final(self) == *old(self),
            r matches Some(p) ==> {
                let key = old(self).processor_index()[id@] as int;
                &&& *p == old(self).processor_at(key)->0
                &&& final(self).procs() == old(self).procs().update(key, Some(*final(p)))
                &&& final(self).processor_index() == old(self).processor_index()
                &&& final(self).provenancestore.chain == old(self).provenancestore.chain
                &&& final(self).same_but_processors(old(self))
                &&& (final(p).id@ == p.id@ ==> final(self).wf())
            },
    {
        match self.get_processor_key_by_id(id) {
            Some(k) => self.get_mut_processor(k),
            None => None,
        }
    }

    ///Resolve an element ID to a key
    pub fn get_element_key_by_id(&self, id: &str) -> (r: Option<ElementKey>)
        requires
            self.wf(),
        ensures
            r is Some <==> self.element_index().contains_key(id@),
            r matches Some(k) ==> k == self.element_index()[id@] && self.element_at(k as int) is Some,
    {
        match self.elementstore.store.id_to_key(id) {
            Some(k) => Some(k as ElementKey),
            None => None,
        }
    }

    //************** Adding declarations and processors ****************

    ///Add a declaration. It is strongly recommended to use ``declare()`` instead
    ///because this one adds a declaration without any checks.
    ///Returns the key; a declaration with the same ID that is already there is not added again.
    pub fn add_declaration(&mut self, declaration: Declaration) -> (r: Result<DecKey, FoliaError>)
        requires
            old(self).wf(),
            declaration.wf(),
        ensures
            final(self).wf(),
            final(self).same_but_declarations(old(self)),
            r matches Ok(k) ==> final(self).declaration_at(k as int) is Some,
            old(self).declaration_index().contains_key(declaration.id_spec()) ==>
                r == Ok::<DecKey, FoliaError>(old(self).declaration_index()[declaration.id_spec()] as DecKey)
                && *final(self) == *old(self),
            !old(self).declaration_index().contains_key(declaration.id_spec()) ==> {
                let key = old(self).decls().len();
                &&& key > DecKey::MAX ==> *final(self) == *old(self) && r is Err
                &&& key <= DecKey::MAX ==> r == Ok::<DecKey, FoliaError>(key as DecKey)
                    && final(self).decls() == old(self).decls().push(Some(declaration.keyed(key)))
                    && final(self).declaration_index() == old(self).declaration_index().insert(declaration.id_spec(), key as usize)
            },
    {
        proof {
            if old(self).declaration_index().contains_key(declaration.id_spec()) {
                old(self).declarationstore.lemma_index(declaration.id_spec());
            }
        }
        let r = self.declarationstore.add(declaration, DecKey::MAX as usize);
        proof {
            let olds = old(self).decls();
            let news = self.decls();
            assert forall|k: int| 0 <= k < news.len() && #[trigger] news[k] is Some implies news[k]->0.wf() by {
                if k < olds.len() {
                    assert(news[k] == olds[k]);
                }
            }
        }
        match r {
            Ok(k) => Ok(k as DecKey),
            Err(e) => Err(e),
        }
    }

    ///Add a processor to the document (but the processor will be an orphan and not in the processor
    ///chain!). You may want to use ``add_processor()`` instead to add to the provenance chain or
    ///``add_subprocessor()`` to add a processor as a subprocessor.
    pub fn add_provenance(&mut self, processor: Processor) -> (r: Result<ProcKey, FoliaError>)
        requires
            old(self).wf(),
        ensures
            final(self).wf(),
            final(self).same_but_processors(old(self)),
            final(self).provenancestore.chain == old(self).provenancestore.chain,
            r matches Ok(k) ==> final(self).processor_at(k as int) is Some,
            old(self).processor_index().contains_key(processor.id@) ==>
                r == Ok::<ProcKey, FoliaError>(old(self).processor_index()[processor.id@] as ProcKey)
                && *final(self) == *old(self),
            !old(self).processor_index().contains_key(processor.id@) ==> {
                let key = old(self).procs().len();
                &&& key > ProcKey::MAX ==> *final(self) == *old(self) && r is Err
                &&& key <= ProcKey::MAX ==> r == Ok::<ProcKey, FoliaError>(key as ProcKey)
                    && final(self).procs() == old(self).procs().push(Some(processor.keyed(key)))
                    && final(self).processor_index() == old(self).processor_index().insert(processor.id@, key as usize)
            },
    {
        proof {
            if old(self).processor_index().contains_key(processor.id@) {
                old(self).provenancestore.store.lemma_index(processor.id@);
            }
        }
        let r = self.provenancestore.store.add(processor, ProcKey::MAX as usize);
        match r {
            Ok(k) => Ok(k as ProcKey),
            Err(e) => Err(e),
        }
    }

    ///Add a processor to the provenance chain. Returns the key.
    pub fn add_processor(&mut self, processor: Processor) -> (r: Result<ProcKey, FoliaError>)
        requires
            old(self).wf(),
        ensures
            final(self).wf(),
            final(self).same_but_processors(old(self)),
            old(self).processor_index().contains_key(processor.id@) ==>
                r == Ok::<ProcKey, FoliaError>(old(self).processor_index()[processor.id@] as ProcKey)
                && final(self).procs() == old(self).procs()
                && final(self).processor_index() == old(self).processor_index()
                && final(self).provenancestore.chain@ == old(self).provenancestore.chain@.push(r->Ok_0),
            !old(self).processor_index().contains_key(processor.id@) ==> {
                let key = old(self).procs().len();
                &&& key > ProcKey::MAX ==> *final(self) == *old(self) && r is Err
                &&& key <= ProcKey::MAX ==> r == Ok::<ProcKey, FoliaError>(key as ProcKey)
                    && final(self).procs() == old(self).procs().push(Some(processor.keyed(key)))
                    && final(self).processor_index() == old(self).processor_index().insert(processor.id@, key as usize)
                    && final(self).provenancestore.chain@ == old(self).provenancestore.chain@.push(key as ProcKey)
            },
    {
        let r = self.add_provenance(processor);
        if let Ok(k) = r {
            self.provenancestore.chain.push(k);
        }
        r
    }

    ///Adds the processor element to the parent processor as a subprocessor.
    pub fn attach_processor(&mut self, parent_key: ProcKey, child_key: ProcKey) -> (r: Result<(), FoliaError>)
        requires
            old(self).wf(),
        ensures
            final(self).wf(),
            final(self).same_but_processors(old(self)),
            final(self).processor_index() == old(self).processor_index(),
            final(self).provenancestore.chain == old(self).provenancestore.chain,
            r is Ok <==> old(self).processor_at(parent_key as int) is Some && old(self).processor_at(child_key as int) is Some,
            old(self).processor_at(parent_key as int) is None ==> (r matches Err(FoliaError::InternalError(m))
                && m@ == "Parent does not exist: "@ + crate::util::decimal_string(parent_key as nat)),
            old(self).processor_at(parent_key as int) is Some && old(self).processor_at(child_key as int) is None ==>
                (r matches Err(FoliaError::InternalError(m))
                && m@ == "Child does not exist: "@ + crate::util::decimal_string(child_key as nat)),
            r is Err ==> *final(self) == *old(self),
            r is Ok ==> {
                let child = old(self).processor_at(child_key as int)->0;
                let mid = old(self).procs().update(child_key as int, Some(Processor { parent: Some(parent_key), ..child }));
                let parent = mid[parent_key as int]->0;
                final(self).procs() == mid.update(parent_key as int,
                    Some(Processor { processors: final(self).procs()[parent_key as int]->0.processors, ..parent }))
                && final(self).procs()[parent_key as int]->0.processors@ == parent.processors@.push(child_key)
            },
    {
        if self.get_processor(parent_key).is_none() {
            return Err(FoliaError::InternalError(concat_str("Parent does not exist: ", decimal(parent_key as u64).as_str())));
        }
        match self.get_mut_processor(child_key) {
            Some(child) => {
                child.parent = Some(parent_key);
            },
            None => {
                return Err(FoliaError::InternalError(concat_str("Child does not exist: ", decimal(child_key as u64).as_str())));
            },
        }
        match self.get_mut_processor(parent_key) {
            Some(parent) => {
                parent.processors.push(child_key);
            },
            None => {},
        }
        Ok(())
    }

    ///Add a processor as a subprocessor of another. Returns the key.
    pub fn add_subprocessor(&mut self, parent_key: ProcKey, processor: Processor) -> (r: Result<ProcKey, FoliaError>)
        requires
            old(self).wf(),
        ensures
            final(self).wf(),
            final(self).same_but_processors(old(self)),
            final(self).provenancestore.chain == old(self).provenancestore.chain,
            r matches Ok(k) ==> final(self).processor_at(k as int) is Some
                && final(self).processor_at(parent_key as int) is Some
                && final(self).processor_at(k as int)->0.parent == Some(parent_key)
                && final(self).processor_at(parent_key as int)->0.processors@.last() == k
                && final(self).processor_index().contains_key(processor.id@)
                && final(self).processor_index()[processor.id@] == k,
            old(self).processor_at(parent_key as int) is Some && (old(self).processor_index().contains_key(processor.id@)
                || old(self).procs().len() <= ProcKey::MAX) ==> r is Ok,
    {
        let r = self.add_provenance(processor);
        match r {
            Ok(k) => {
                let ghost mid = *self;
                let a = self.attach_processor(parent_key, k);
                proof {
                    if old(self).processor_index().contains_key(processor.id@) {
                        old(self).provenancestore.store.lemma_index(processor.id@);
                    }
                    assert(mid.processor_index().contains_key(processor.id@));
                    assert(mid.processor_index()[processor.id@] == k);
                    if a is Ok {
                        assert(mid.processor_at(k as int) is Some);
                        assert(self.procs()[k as int] is Some);
                        assert(self.procs()[parent_key as int] is Some);
                    }
                }
                match a {
                    Ok(()) => Ok(k),
                    Err(e) => Err(e),
                }
            },
            Err(e) => Err(e),
        }
    }
}

/// A copy of an optional string.
pub fn clone_opt(s: &Option<String>) -> (r: Option<String>)
    ensures
        opt_view(r) == opt_view(*s),
{
    match s {
        Some(x) => Some(x.clone()),
        None => None,
    }
}

/// The default declaration that `declare` returns for an annotation type and set, if
/// there is one: the only declaration of the type, when no set is asked for or when
/// it has the set that is asked for.
pub open spec fn default_for(doc: Document, annotationtype: AnnotationType, set: Option<Seq<char>>) -> Option<int> {
    match doc.declarationstore.default_of(annotationtype) {
        Some(k) => if k <= DecKey::MAX && (set is None || opt_view(doc.decls()[k]->0.set) == set) {
            Some(k)
        } else {
            None
        },
        None => None,
    }
}

/// A declaration of the annotation type and set is there: one with that ID, or the only one of
/// the annotation type (with that set, where a set is given).
pub open spec fn declared_already(doc: Document, annotationtype: AnnotationType, set: Option<Seq<char>>) -> bool {
    doc.declaration_index().contains_key(declaration_id(annotationtype, set)) || default_for(doc, annotationtype, set) is Some
}

/// Encoding the element succeeds: it has nothing to encode, or it is neither a feature nor of an
/// annotation type, or it is of an annotation type whose declaration is there or can be made.
pub open spec fn encodes_ok(doc: Document, element: ElementData) -> bool {
    ||| !element.is_encodable()
    ||| element.elementtype.annotation() is None && element.elementtype != ElementType::Feature
    ||| element.elementtype.annotation() is Some && doc.decls().len() <= DecKey::MAX && (doc.autodeclare
        || declared_already(doc, element.elementtype.annotation()->0, element.decoded_value(AttribType::SET)))
}

/// What declaring an annotation type and set does: the declaration with that ID, or else the
/// default one, is returned and nothing changes; or else a new declaration is added.
pub open spec fn declare_outcome(d0: Document, annotationtype: AnnotationType, set: Option<Seq<char>>,
    alias: Option<Seq<char>>, format: Option<Seq<char>>, r: Result<DecKey, FoliaError>, d1: Document) -> bool {
    let id = declaration_id(annotationtype, set);
    let dflt = default_for(d0, annotationtype, set);
    let key = d0.decls().len();
    &&& d0.declaration_index().contains_key(id) ==>
        r == Ok::<DecKey, FoliaError>(d0.declaration_index()[id] as DecKey) && d1 == d0
    &&& !d0.declaration_index().contains_key(id) && dflt is Some ==>
        r == Ok::<DecKey, FoliaError>(dflt->0 as DecKey) && d1 == d0
    &&& !d0.declaration_index().contains_key(id) && dflt is None && key > DecKey::MAX ==>
        r is Err && d1 == d0
    &&& !d0.declaration_index().contains_key(id) && dflt is None && key <= DecKey::MAX ==>
        r == Ok::<DecKey, FoliaError>(key as DecKey)
        && d1.decls().len() == key + 1
        && d1.decls().take(key as int) == d0.decls()
        && is_new_declaration(d1.decls()[key as int]->0, key, annotationtype, set, alias, format)
        && d1.decls()[key as int] is Some
        && d1.declaration_index() == d0.declaration_index().insert(id, key as usize)
}

/// Declaring the same annotation type and set twice gives the same key the second time, and the
/// second time changes nothing.
pub proof fn lemma_declare_twice(d0: Document, annotationtype: AnnotationType, set: Option<Seq<char>>,
    alias: Option<Seq<char>>, format: Option<Seq<char>>, r1: Result<DecKey, FoliaError>, d1: Document,
    alias2: Option<Seq<char>>, format2: Option<Seq<char>>, r2: Result<DecKey, FoliaError>, d2: Document)
    requires
        d0.wf(),
        declare_outcome(d0, annotationtype, set, alias, format, r1, d1),
        r1 is Ok,
        declare_outcome(d1, annotationtype, set, alias2, format2, r2, d2),
    ensures
        r2 == r1,
        d2 == d1,
{
    let id = declaration_id(annotationtype, set);
    if !d0.declaration_index().contains_key(id) && default_for(d0, annotationtype, set) is None {
        assert(d1.declaration_index().contains_key(id));
    }
}

impl Document {
    ///Add a declaration. Returns the key. If the declaration already exists it simply returns the
    ///key of the existing one; when no set is given, or the given set is that of the only
    ///declaration of the annotation type, that declaration (the default) is returned.
    pub fn declare(&mut self, annotationtype: AnnotationType, set: &Option<String>, alias: &Option<String>,
        format: &Option<String>) -> (r: Result<DecKey, FoliaError>)
        requires
            old(self).wf(),
        ensures
            final(self).wf(),
            final(self).same_but_declarations(old(self)),
            r matches Ok(k) ==> final(self).declaration_at(k as int) is Some
                && (final(self).declaration_at(k as int)->0.id_spec() == declaration_id(annotationtype, opt_view(*set))
                || final(self).declaration_at(k as int)->0.annotationtype == annotationtype),
            declare_outcome(*old(self), annotationtype, opt_view(*set), opt_view(*alias), opt_view(*format), r, *final(self)),
            r matches Ok(k) ==> final(self).declaration_at(k as int)->0.annotationtype == annotationtype
                && (set is Some ==> opt_view(final(self).declaration_at(k as int)->0.set) == opt_view(*set)),
    {
        let setref: Option<&str> = match set {
            Some(s) => Some(s.as_str()),
            None => None,
        };
        let id = Declaration::index_id(annotationtype, &setref);
        if let Some(found_key) = self.get_declaration_key_by_id(id.as_str()) {
            proof {
                self.declarationstore.lemma_index(id@);
                let d = self.declaration_at(found_key as int)->0;
                crate::metadata::lemma_declaration_id_injective(d.annotationtype, opt_view(d.set), annotationtype, opt_view(*set));
            }
            return Ok(found_key);
        }
        if let Some(default_key) = self.declarationstore.get_default_key(annotationtype) {
            proof {
                lemma_positions_valid(self.decls(), annotationtype);
            }
            if let Some(declaration) = self.get_declaration(default_key) {
                match set {
                    Some(s) => {
                        if let Some(declared_set) = &declaration.set {
                            if str_eq(declared_set.as_str(), s.as_str()) {
                                return Ok(default_key);
                            }
                        }
                    },
                    None => {
                        return Ok(default_key);
                    },
                }
            }
        }
        let declaration = Declaration::new(annotationtype, clone_opt(set), clone_opt(alias), clone_opt(format));
        let ghost d = declaration;
        let r = self.add_declaration(declaration);
        proof {
            if !old(self).declaration_index().contains_key(declaration_id(annotationtype, opt_view(*set)))
                && old(self).decls().len() <= DecKey::MAX {
                assert(self.decls().take(old(self).decls().len() as int) =~= old(self).decls());
            }
        }
        r
    }

    ///Encode a class, adding it to the class store of the declaration if needed, returning
    ///the existing one if already present
    pub fn add_class(&mut self, dec_key: DecKey, class: &String) -> (r: Result<ClassKey, FoliaError>)
        requires
            old(self).wf(),
        ensures
            final(self).wf(),
            final(self).same_but_declarations(old(self)),
            final(self).declaration_index() == old(self).declaration_index(),
            old(self).declaration_at(dec_key as int) is None ==> *final(self) == *old(self)
                && (r matches Err(FoliaError::KeyError(m))
                && m@ == "[add_class()] No such declaration ("@ + crate::util::decimal_string(dec_key as nat) + ")"@),
            old(self).declaration_at(dec_key as int) matches Some(d) ==> {
                let nd = final(self).declaration_at(dec_key as int)->0;
                &&& final(self).decls() == old(self).decls().update(dec_key as int, Some(nd))
                &&& nd == (Declaration { classes: nd.classes, ..d })
                &&& exists|k: Result<usize, FoliaError>| added_name(d.classes, class@, u32::MAX as nat, k, nd.classes)
                    && r == match k { Ok(k) => Ok::<ClassKey, FoliaError>(k as ClassKey), Err(e) => Err(e) }
            },
    {
        match self.get_mut_declaration(dec_key) {
            Some(declaration) => {
                proof {
                    assert(old(self).decls()[dec_key as int] is Some);
                }
                declaration.add_class(class.as_str())
            },
            None => Err(FoliaError::KeyError(concat3("[add_class()] No such declaration (", decimal(dec_key as u64).as_str(), ")"))),
        }
    }

    ///Encode a class, assumes it already exists. If not, use ``add_class()`` instead.
    pub fn class_key(&self, dec_key: DecKey, class: &str) -> (r: Result<ClassKey, FoliaError>)
        ensures
            self.declaration_at(dec_key as int) is None ==> (r matches Err(FoliaError::KeyError(m))
                && m@ == "[class_key()] No such declaration ("@ + crate::util::decimal_string(dec_key as nat) + ")"@),
            self.declaration_at(dec_key as int) matches Some(d) ==> {
                &&& opt_index(d.classes).contains_key(class@) ==>
                    r == Ok::<ClassKey, FoliaError>(opt_index(d.classes)[class@] as ClassKey)
                &&& !opt_index(d.classes).contains_key(class@) ==> (r matches Err(FoliaError::KeyError(m))
                    && m@ == "[class_key()] No such class ("@ + class@ + ") for the given declaration"@)
            },
    {
        match self.get_declaration(dec_key) {
            Some(declaration) => match declaration.class_key(class) {
                Some(k) => Ok(k),
                None => Err(FoliaError::KeyError(concat3("[class_key()] No such class (", class, ") for the given declaration"))),
            },
            None => Err(FoliaError::KeyError(concat3("[class_key()] No such declaration (", decimal(dec_key as u64).as_str(), ")"))),
        }
    }
}

/// Holds for the attributes that need no encoding.
pub open spec fn not_encodable() -> spec_fn(Attribute) -> bool {
    |a: Attribute| !a.is_encodable()
}

/// The references that encoding appends to an element's attributes, in this order.
pub open spec fn ref_attribs(dk: Option<DecKey>, ck: Option<ClassKey>, pk: Option<ProcKey>, sk: Option<SubsetKey>)
    -> Seq<Attribute> {
    (match dk { Some(k) => seq![Attribute::DeclarationRef(k)], None => Seq::empty() })
    + (match ck { Some(k) => seq![Attribute::ClassRef(k)], None => Seq::empty() })
    + (match pk { Some(k) => seq![Attribute::ProcessorRef(k)], None => Seq::empty() })
    + (match sk { Some(k) => seq![Attribute::SubsetRef(k)], None => Seq::empty() })
}

/// `e` is `element` with its encodable attributes replaced by the given references.
pub open spec fn encoded_with(element: ElementData, e: ElementData, dk: Option<DecKey>, ck: Option<ClassKey>,
    pk: Option<ProcKey>, sk: Option<SubsetKey>) -> bool {
    &&& e.elementtype == element.elementtype
    &&& e.data == element.data
    &&& e.key == element.key
    &&& e.parent == element.parent
    &&& e.attribs@ == element.attribs@.filter(not_encodable()) + ref_attribs(dk, ck, pk, sk)
}

/// The element has no ID attribute.
pub open spec fn without_id(e: ElementData) -> bool {
    forall|i: int| 0 <= i < e.attribs@.len() ==> (#[trigger] e.attribs@[i]).atype() != AttribType::ID
}

/// Encoding an element without an ID attribute gives one without an ID attribute, so without
/// an ID.
pub proof fn lemma_encoded_without_id(element: ElementData, e: ElementData, dk: Option<DecKey>, ck: Option<ClassKey>,
    pk: Option<ProcKey>, sk: Option<SubsetKey>)
    requires
        encoded_with(element, e, dk, ck, pk, sk),
        without_id(element),
    ensures
        without_id(e),
        e.id_of() is None,
{
    let f = element.attribs@.filter(not_encodable());
    assert forall|i: int| 0 <= i < e.attribs@.len() implies (#[trigger] e.attribs@[i]).atype() != AttribType::ID by {
        if i < f.len() {
            assert(e.attribs@[i] == f[i]);
            assert(f.contains(f[i]));
            element.attribs@.lemma_filter_contains_rev(not_encodable(), f[i]);
        } else {
            assert(e.attribs@[i] == ref_attribs(dk, ck, pk, sk)[i - f.len()]);
        }
    }
    lemma_id_absent(e);
}

/// Encoding keeps the ID of an element: ID attributes are never encoded, and the references
/// that encoding adds are no ID attributes.
pub proof fn lemma_encoded_keeps_id(element: ElementData, e: ElementData, dk: Option<DecKey>, ck: Option<ClassKey>,
    pk: Option<ProcKey>, sk: Option<SubsetKey>)
    requires
        encoded_with(element, e, dk, ck, pk, sk),
    ensures
        e.id_of() == element.id_of(),
{
    broadcast use vstd::seq_lib::group_seq_properties;
    let a = element.attribs@;
    let p = crate::element::has_type(AttribType::ID);
    let f = a.filter(not_encodable());
    let refs = ref_attribs(dk, ck, pk, sk);
    assert(e.attribs@ == f + refs);
    assert forall|j: int| 0 <= j < refs.len() implies !p(#[trigger] refs[j]) by {}
    lemma_first_index(a, p);
    let i = first_index(a, p);
    if i == a.len() {
        assert forall|j: int| 0 <= j < e.attribs@.len() implies !p(#[trigger] e.attribs@[j]) by {
            if j < f.len() {
                assert(f.contains(f[j]));
                a.lemma_filter_contains_rev(not_encodable(), f[j]);
                let k = choose|k: int| 0 <= k < a.len() && a[k] == f[j];
                assert(!p(a[k]));
            } else {
                assert(e.attribs@[j] == refs[j - f.len()]);
            }
        }
        lemma_first_index_at(e.attribs@, p, e.attribs@.len() as int);
    } else {
        let pre = a.take(i);
        let post = a.skip(i + 1);
        assert(a =~= pre + seq![a[i]] + post);
        assert(not_encodable()(a[i]));
        Seq::filter_distributes_over_add(pre + seq![a[i]], post, not_encodable());
        Seq::filter_distributes_over_add(pre, seq![a[i]], not_encodable());
        reveal(Seq::filter);
        assert(seq![a[i]].filter(not_encodable()) =~= seq![a[i]]);
        assert(f =~= pre.filter(not_encodable()) + seq![a[i]] + post.filter(not_encodable()));
        let pf = pre.filter(not_encodable());
        assert forall|j: int| 0 <= j < pf.len() implies !p(#[trigger] e.attribs@[j]) by {
            assert(e.attribs@[j] == pf[j]);
            assert(pf.contains(pf[j]));
            pre.lemma_filter_contains_rev(not_encodable(), pf[j]);
            let k = choose|k: int| 0 <= k < pre.len() && pre[k] == pf[j];
            assert(pre[k] == a[k]);
        }
        assert(e.attribs@[pf.len() as int] == a[i]);
        lemma_first_index_at(e.attribs@, p, pf.len() as int);
    }
}

/// An element without an ID attribute has no ID.
pub proof fn lemma_id_absent(e: ElementData)
    requires
        without_id(e),
    ensures
        e.id_of() is None,
{
    crate::element::lemma_first_index(e.attribs@, crate::element::has_type(AttribType::ID));
}

/// The keys that encoding an element found stand, in the document, for what the element names.
pub open spec fn keys_valid(doc: Document, element: ElementData, dk: Option<DecKey>, ck: Option<ClassKey>,
    pk: Option<ProcKey>, sk: Option<SubsetKey>) -> bool {
    let is_feature = element.elementtype == ElementType::Feature;
    &&& (element.elementtype.annotation() is Some || is_feature) <==> dk is Some
    &&& dk matches Some(k) ==> doc.declaration_at(k as int) is Some
    &&& dk matches Some(k) ==> (!is_feature
        ==> doc.declaration_at(k as int)->0.annotationtype == element.elementtype.annotation()->0)
    &&& dk matches Some(k) ==> (element.decoded_value(AttribType::SET) is Some
        ==> opt_view(doc.declaration_at(k as int)->0.set) == element.decoded_value(AttribType::SET))
    &&& ck matches Some(c) ==> dk is Some && element.decoded_value(AttribType::CLASS) is Some
        && if is_feature {
            opt_name(doc.declaration_at(dk->0 as int)->0.subclasses, c as int) == element.decoded_value(AttribType::CLASS)
        } else {
            opt_name(doc.declaration_at(dk->0 as int)->0.classes, c as int) == element.decoded_value(AttribType::CLASS)
        }
    &&& sk matches Some(x) ==> dk is Some && is_feature && element.decoded_value(AttribType::SUBSET) is Some
        && opt_name(doc.declaration_at(dk->0 as int)->0.subsets, x as int) == element.decoded_value(AttribType::SUBSET)
    &&& (!is_feature && element.elementtype.annotation() is None) ==> ck is None && sk is None
    &&& !is_feature ==> sk is None
    &&& match element.decoded_value(AttribType::PROCESSOR) {
        Some(pid) if doc.processor_index().contains_key(pid) => pk == Some(doc.processor_index()[pid] as ProcKey),
        _ => pk is Some ==> !is_feature && dk is Some
            && doc.declaration_at(dk->0 as int)->0.processors@.len() == 1
            && pk == Some(doc.declaration_at(dk->0 as int)->0.processors@[0]),
    }
}

/// The names an element gives are encoded as keys: the class of an element of an annotation
/// type or of a feature, and the subset of a feature, each get a key in its declaration, unless
/// the classes (subclasses, subsets) of that declaration are full, so that no key is left for a
/// new name.
pub open spec fn names_encoded(doc: Document, element: ElementData, dk: Option<DecKey>, ck: Option<ClassKey>,
    sk: Option<SubsetKey>) -> bool {
    let feature = element.elementtype.annotation() is None && element.elementtype == ElementType::Feature;
    &&& element.elementtype.annotation() is Some && element.decoded_value(AttribType::CLASS) is Some
        ==> ck is Some || (dk matches Some(k) && opt_names(doc.declaration_at(k as int)->0.classes).len() > u32::MAX)
    &&& feature && element.decoded_value(AttribType::CLASS) is Some
        ==> ck is Some || (dk matches Some(k) && opt_names(doc.declaration_at(k as int)->0.subclasses).len() > u32::MAX)
    &&& feature && element.decoded_value(AttribType::SUBSET) is Some
        ==> sk is Some || (dk matches Some(k) && opt_names(doc.declaration_at(k as int)->0.subsets).len() > u16::MAX)
}

/// The declarations of `old` are still in `new`, with the same annotation type, set and
/// processors (only their classes may have grown); `new` may have more.
pub open spec fn decls_grown(old: Seq<Option<Declaration>>, new: Seq<Option<Declaration>>) -> bool {
    &&& old.len() <= new.len()
    &&& forall|k: int| 0 <= k < old.len() && #[trigger] old[k] is Some ==> {
        &&& new[k] is Some
        &&& new[k]->0.annotationtype == old[k]->0.annotationtype
        &&& new[k]->0.set == old[k]->0.set
        &&& new[k]->0.processors == old[k]->0.processors
    }
}

/// Replaces the encodable attributes of an element by references.
fn with_references(element: ElementData, dk: Option<DecKey>, ck: Option<ClassKey>, pk: Option<ProcKey>,
    sk: Option<SubsetKey>) -> (e: ElementData)
    ensures
        encoded_with(element, e, dk, ck, pk, sk),
        !e.is_encodable(),
{
    let ElementData { elementtype, attribs, data, key, parent } = element;
    let mut kept: Vec<Attribute> = Vec::new();
    let mut i: usize = 0;
    let ghost all = attribs@;
    let mut attribs = attribs;
    let total = attribs.len();
    while attribs.len() > 0
        invariant
            all.len() == total,
            i <= all.len(),
            attribs@.len() == all.len() - i,
            attribs@ == all.skip(i as int),
            kept@ == all.take(i as int).filter(not_encodable()),
        decreases attribs@.len(),
    {
        let a = attribs.remove(0);
        proof {
            reveal(Seq::filter);
            assert(all.take(i + 1).drop_last() =~= all.take(i as int));
            assert(a == all[i as int]);
            assert(attribs@ =~= all.skip(i + 1));
        }
        if !a.encodable() {
            kept.push(a);
        }
        i += 1;
    }
    proof {
        assert(all.take(i as int) =~= all);
    }
    match dk {
        Some(k) => kept.push(Attribute::DeclarationRef(k)),
        None => {},
    }
    match ck {
        Some(k) => kept.push(Attribute::ClassRef(k)),
        None => {},
    }
    match pk {
        Some(k) => kept.push(Attribute::ProcessorRef(k)),
        None => {},
    }
    match sk {
        Some(k) => kept.push(Attribute::SubsetRef(k)),
        None => {},
    }
    let e = ElementData { elementtype, attribs: kept, data, key, parent };
    proof {
        assert(e.attribs@ =~= all.filter(not_encodable()) + ref_attribs(dk, ck, pk, sk));
        assert forall|j: int| 0 <= j < e.attribs@.len() implies !(#[trigger] e.attribs@[j]).is_encodable() by {
            if j < all.filter(not_encodable()).len() {
                all.lemma_filter_pred(not_encodable(), j);
                assert(not_encodable()(all.filter(not_encodable())[j]));
            }
        }
    }
    e
}

/// The value of the element's set attribute, before it is encoded.
fn set_string(element: &ElementData) -> (r: Option<String>)
    requires
        element.decoded_ok(AttribType::SET),
    ensures
        opt_view(r) == element.decoded_value(AttribType::SET),
{
    proof {
        crate::element::lemma_first_index(element.attribs@, crate::element::decoded_scan(AttribType::SET));
    }
    match element.set() {
        Ok(Some(s)) => Some(s.to_owned()),
        _ => None,
    }
}

/// The view of an optional string slice.
pub open spec fn opt_str(s: Option<&str>) -> Option<Seq<char>> {
    match s {
        Some(x) => Some(x@),
        None => None,
    }
}

/// The value of the element's class, subset or processor attribute, before it is encoded.
fn decoded_str(element: &ElementData, t: AttribType) -> (r: Option<&str>)
    requires
        t == AttribType::CLASS || t == AttribType::SUBSET || t == AttribType::PROCESSOR,
    ensures
        opt_str(r) == element.decoded_value(t),
{
    proof {
        crate::element::lemma_first_index(element.attribs@, crate::element::decoded_scan(t));
    }
    let v = if t == AttribType::CLASS {
        element.class()
    } else if t == AttribType::SUBSET {
        element.subset()
    } else {
        element.processor()
    };
    match v {
        Ok(Some(s)) => Some(s),
        _ => None,
    }
}

impl Document {
    ///Get an element's data by key
    pub(crate) fn get_elementdata(&self, key: ElementKey) -> (r: Option<&ElementData>)
        ensures
            r is Some <==> self.element_at(key as int) is Some,
            r matches Some(e) ==> *e == self.element_at(key as int)->0,
    {
        self.elementstore.store.get(key as usize)
    }

    ///Get an element by key
    pub fn get_element(&self, key: ElementKey) -> (r: Option<Element<'_>>)
        requires
            self.wf(),
        ensures
            r is Some <==> self.element_at(key as int) is Some,
            r matches Some(e) ==> e.wf() && e.key == key && *e.document == *self,
    {
        match self.elementstore.store.get(key as usize) {
            Some(data) => Some(Element { document: self, data, key }),
            None => None,
        }
    }

    ///Get an element by its ID
    pub fn get_element_by_id(&self, id: &str) -> (r: Option<Element<'_>>)
        requires
            self.wf(),
        ensures
            r is Some <==> self.element_index().contains_key(id@),
            r matches Some(e) ==> e.wf() && e.key == self.element_index()[id@] && *e.document == *self
                && e.data.id_of() == Some(id@),
    {
        match self.get_element_key_by_id(id) {
            Some(k) => {
                proof {
                    self.elementstore.store.lemma_index(id@);
                }
                self.get_element(k)
            },
            None => None,
        }
    }

    ///The declaration that an element of an annotation type and set is encoded with: while
    ///``autodeclare`` is set it is declared where needed (see ``declare``); otherwise it must be
    ///declared already.
    fn declaration_for(&mut self, annotationtype: AnnotationType, set: &Option<String>) -> (r: Result<DecKey, FoliaError>)
        requires
            old(self).wf(),
        ensures
            final(self).wf(),
            final(self).same_but_declarations(old(self)),
            r matches Ok(k) ==> final(self).declaration_at(k as int) is Some
                && final(self).declaration_at(k as int)->0.annotationtype == annotationtype
                && (set is Some ==> opt_view(final(self).declaration_at(k as int)->0.set) == opt_view(*set)),
            old(self).autodeclare || declared_already(*old(self), annotationtype, opt_view(*set))
                ==> declare_outcome(*old(self), annotationtype, opt_view(*set), None, None, r, *final(self)),
            !old(self).autodeclare && !declared_already(*old(self), annotationtype, opt_view(*set))
                ==> *final(self) == *old(self) && (r matches Err(FoliaError::EncodeError(m))
                && m@ == "Not declared, and automatic declaration is off: "@ + declaration_id(annotationtype, opt_view(*set))),
    {
        if self.autodeclare {
            return self.declare(annotationtype, set, &None, &None);
        }
        let setref: Option<&str> = match set {
            Some(s) => Some(s.as_str()),
            None => None,
        };
        let id = Declaration::index_id(annotationtype, &setref);
        let mut found = self.get_declaration_key_by_id(id.as_str()).is_some();
        if !found {
            if let Some(default_key) = self.declarationstore.get_default_key(annotationtype) {
                if let Some(declaration) = self.get_declaration(default_key) {
                    match set {
                        Some(s) => {
                            if let Some(declared_set) = &declaration.set {
                                if str_eq(declared_set.as_str(), s.as_str()) {
                                    found = true;
                                }
                            }
                        },
                        None => {
                            found = true;
                        },
                    }
                }
            }
        }
        proof {
            assert(found == declared_already(*self, annotationtype, opt_view(*set))) by {
                lemma_positions_valid(self.decls(), annotationtype);
                let dflt = default_for(*self, annotationtype, opt_view(*set));
                if let Some(k) = self.declarationstore.default_of(annotationtype) {
                    if k <= DecKey::MAX {
                        assert(self.decls()[k] is Some);
                        assert(self.declaration_at(k) == self.decls()[k]);
                    }
                }
            }
        }
        if found {
            self.declare(annotationtype, set, &None, &None)
        } else {
            Err(FoliaError::EncodeError(concat_str("Not declared, and automatic declaration is off: ", id.as_str())))
        }
    }

    ///Actively encode an element for storage: the attributes that need to be encoded (set,
    ///class, processor, subset) are replaced by references to their declarations, classes and
    ///processors, which are declared or added where needed. It does not handle relations between
    ///elements (data/children and parent) nor does it add the element itself to the store.
    ///A feature is encoded in the context of its parent element (``context``).
    pub fn encode(&mut self, element: ElementData, context: Option<ElementKey>) -> (r: Result<ElementData, FoliaError>)
        requires
            old(self).wf(),
            element.is_encodable() && (element.elementtype.annotation() is Some
                || (element.elementtype == ElementType::Feature && context is Some)) ==> element.decoded_ok(AttribType::SET),
            element.is_encodable() && element.elementtype.annotation() is None && element.elementtype == ElementType::Feature
                ==> (context matches Some(p) ==> (old(self).element_at(p as int) is Some
                ==> old(self).element_at(p as int)->0.elementtype.annotation() is Some)),
        ensures
            final(self).wf(),
            final(self).same_but_declarations(old(self)),
            decls_grown(old(self).decls(), final(self).decls()),
            !element.is_encodable() ==> r == Ok::<ElementData, FoliaError>(element) && *final(self) == *old(self),
            element.is_encodable() && element.elementtype.annotation() is None && element.elementtype == ElementType::Feature
                && context is None ==> (r matches Err(FoliaError::InternalError(m)) && m@ == "No context provided for feature"@),
            element.is_encodable() && element.elementtype.annotation() is None && element.elementtype == ElementType::Feature
                ==> (context matches Some(p) ==> (old(self).element_at(p as int) is None
                ==> (r matches Err(FoliaError::InternalError(m)) && m@ == "Context for feature does not exist!"@))),
            element.is_encodable() && element.elementtype.annotation() is None && element.elementtype != ElementType::Feature
                ==> r is Ok,
            !old(self).autodeclare ==> final(self).decls().len() == old(self).decls().len(),
            element.elementtype.annotation() is None && element.elementtype != ElementType::Feature
                ==> *final(self) == *old(self),
            !old(self).autodeclare && element.is_encodable() && (element.elementtype.annotation() matches Some(a)
                && !declared_already(*old(self), a, element.decoded_value(AttribType::SET)))
                ==> (r matches Err(FoliaError::EncodeError(m)) && m@ == "Not declared, and automatic declaration is off: "@
                    + declaration_id(element.elementtype.annotation()->0, element.decoded_value(AttribType::SET))),
            element.is_encodable() && old(self).decls().len() <= DecKey::MAX && (element.elementtype.annotation() matches Some(a)
                && declared_already(*old(self), a, element.decoded_value(AttribType::SET))) ==> r is Ok,
            old(self).autodeclare && element.is_encodable() && old(self).decls().len() <= DecKey::MAX && (element.elementtype.annotation() is Some
                || (match context { Some(p) => old(self).element_at(p as int) is Some, None => false })) ==> r is Ok,
            element.is_encodable() ==> (r matches Ok(e) ==> !e.is_encodable() && exists|dk: Option<DecKey>, ck: Option<ClassKey>,
                pk: Option<ProcKey>, sk: Option<SubsetKey>| encoded_with(element, e, dk, ck, pk, sk)
                && keys_valid(*final(self), element, dk, ck, pk, sk)
                && names_encoded(*final(self), element, dk, ck, sk)
                && (element.elementtype == ElementType::Feature && element.elementtype.annotation() is None
                    ==> (dk matches Some(k) && context matches Some(p)
                    && final(self).declaration_at(k as int)->0.annotationtype
                        == old(self).element_at(p as int)->0.elementtype.annotation()->0))),
    {
        if !element.encodable() {
            return Ok(element);
        }
        let mut declaration_key: Option<DecKey> = None;
        let mut class_key: Option<ClassKey> = None;
        let mut processor_key: Option<ProcKey> = None;
        let mut subset_key: Option<SubsetKey> = None;
        let is_feature = element.elementtype == ElementType::Feature;
        match element.elementtype.annotationtype() {
            Some(annotationtype) => {
                let set = set_string(&element);
                let deckey = match self.declaration_for(annotationtype, &set) {
                    Ok(k) => k,
                    Err(e) => {
                        return Err(e);
                    },
                };
                declaration_key = Some(deckey);
                let ghost mid = *self;
                match decoded_str(&element, AttribType::CLASS) {
                    Some(class) => {
                        match self.get_mut_declaration(deckey) {
                            Some(declaration) => {
                                let ghost before = *declaration;
                                let added = declaration.add_class(class);
                                proof {
                                    let k = choose|k: Result<usize, FoliaError>| added_name(before.classes, class@,
                                        u32::MAX as nat, k, declaration.classes)
                                        && added == match k { Ok(k) => Ok::<ClassKey, FoliaError>(k as ClassKey), Err(e) => Err(e) };
                                    if added is Ok {
                                        lemma_added_name(before.classes, class@, u32::MAX as nat, k, declaration.classes);
                                        assert(added->Ok_0 as int == k->Ok_0 as int);
                                    } else {
                                        assert(opt_names(declaration.classes).len() > u32::MAX);
                                    }
                                }
                                match added {
                                    Ok(k) => {
                                        class_key = Some(k);
                                    },
                                    Err(_) => {},
                                }
                            },
                            None => {},
                        }
                    },
                    None => {},
                }
                match self.get_declaration(deckey) {
                    Some(d) => {
                        processor_key = d.default_processor();
                    },
                    None => {},
                }
            },
            None => {
                if is_feature {
                    match context {
                        Some(parent_key) => {
                            let parent_type = match self.get_elementdata(parent_key) {
                                Some(p) => p.elementtype,
                                None => {
                                    return Err(FoliaError::InternalError("Context for feature does not exist!".to_owned()));
                                },
                            };
                            let annotationtype = match parent_type.annotationtype() {
                                Some(a) => a,
                                None => {
                                    return Err(FoliaError::InternalError("Context for feature has no annotation type".to_owned()));
                                },
                            };
                            let set = set_string(&element);
                            let deckey = match self.declaration_for(annotationtype, &set) {
                                Ok(k) => k,
                                Err(e) => {
                                    return Err(e);
                                },
                            };
                            declaration_key = Some(deckey);
                            match self.get_mut_declaration(deckey) {
                                Some(declaration) => {
                                    let ghost before = *declaration;
                                    match decoded_str(&element, AttribType::CLASS) {
                                        Some(class) => {
                                            let added = declaration.add_subclass(class);
                                            proof {
                                                let k = choose|k: Result<usize, FoliaError>| added_name(before.subclasses,
                                                    class@, u32::MAX as nat, k, declaration.subclasses)
                                                    && added == match k { Ok(k) => Ok::<ClassKey, FoliaError>(k as ClassKey), Err(e) => Err(e) };
                                                if added is Ok {
                                                    lemma_added_name(before.subclasses, class@, u32::MAX as nat, k, declaration.subclasses);
                                                    assert(added->Ok_0 as int == k->Ok_0 as int);
                                                } else {
                                                    assert(opt_names(declaration.subclasses).len() > u32::MAX);
                                                }
                                            }
                                            match added {
                                                Ok(k) => {
                                                    class_key = Some(k);
                                                },
                                                Err(_) => {},
                                            }
                                        },
                                        None => {},
                                    }
                                    let ghost between = *declaration;
                                    match decoded_str(&element, AttribType::SUBSET) {
                                        Some(subset) => {
                                            let added = declaration.add_subset(subset);
                                            proof {
                                                let k = choose|k: Result<usize, FoliaError>| added_name(between.subsets,
                                                    subset@, u16::MAX as nat, k, declaration.subsets)
                                                    && added == match k { Ok(k) => Ok::<SubsetKey, FoliaError>(k as SubsetKey), Err(e) => Err(e) };
                                                if added is Ok {
                                                    lemma_added_name(between.subsets, subset@, u16::MAX as nat, k, declaration.subsets);
                                                    assert(added->Ok_0 as int == k->Ok_0 as int);
                                                } else {
                                                    assert(opt_names(declaration.subsets).len() > u16::MAX);
                                                }
                                            }
                                            match added {
                                                Ok(k) => {
                                                    subset_key = Some(k);
                                                },
                                                Err(_) => {},
                                            }
                                        },
                                        None => {},
                                    }
                                },
                                None => {},
                            }
                        },
                        None => {
                            return Err(FoliaError::InternalError("No context provided for feature".to_owned()));
                        },
                    }
                }
            },
        }
        match decoded_str(&element, AttribType::PROCESSOR) {
            Some(processor_id) => match self.get_processor_key_by_id(processor_id) {
                Some(k) => {
                    processor_key = Some(k);
                },
                None => {},
            },
            None => {},
        }
        let ghost el = element;
        let e = with_references(element, declaration_key, class_key, processor_key, subset_key);
        proof {
            let doc = *self;
            let dk = declaration_key;
            let ck = class_key;
            let pk = processor_key;
            let sk = subset_key;
            assert((el.elementtype.annotation() is Some || is_feature) <==> dk is Some);
            assert(dk matches Some(k) ==> doc.declaration_at(k as int) is Some);
            assert(ck matches Some(c) ==> dk is Some && el.decoded_value(AttribType::CLASS) is Some);
            assert(sk matches Some(x) ==> dk is Some && is_feature && el.decoded_value(AttribType::SUBSET) is Some);
            assert(keys_valid(*self, el, declaration_key, class_key, processor_key, subset_key));
            assert(names_encoded(*self, el, declaration_key, class_key, subset_key));
        }
        Ok(e)
    }
}

/// The view of an optional element.
pub open spec fn opt_model(o: Option<ElementData>) -> Option<ElementModel> {
    match o {
        Some(e) => Some(e@),
        None => None,
    }
}

/// Holds for a reference to the element with the given key.
pub open spec fn is_element_ref(key: ElementKey) -> spec_fn(DataType) -> bool {
    |d: DataType| d == DataType::Element(key)
}

/// The elements after the first reference to a child is removed from its old parent (if that
/// exists and refers to it).
pub open spec fn without_child(m: Seq<Option<ElementModel>>, oldparent: Option<ElementKey>, child: ElementKey)
    -> Seq<Option<ElementModel>> {
    match oldparent {
        Some(p) => if (p as int) < m.len() && m[p as int] is Some {
            let o = m[p as int]->0;
            let i = first_index(o.data, is_element_ref(child));
            if i < o.data.len() {
                m.update(p as int, Some(ElementModel { data: o.data.remove(i), ..o }))
            } else {
                m
            }
        } else {
            m
        },
        None => m,
    }
}

/// The elements after a child is attached to a parent: the child gets the parent, the parent
/// gets a reference to the child at the end of its data, and the old parent loses its first
/// reference to the child.
pub open spec fn attached(m: Seq<Option<ElementModel>>, parent: ElementKey, child: ElementKey) -> Seq<Option<ElementModel>> {
    let c = m[child as int]->0;
    let m1 = m.update(child as int, Some(ElementModel { parent: Some(parent), ..c }));
    let p = m1[parent as int]->0;
    let m2 = m1.update(parent as int, Some(ElementModel { data: p.data.push(DataType::Element(child)), ..p }));
    without_child(m2, c.parent, child)
}

/// The elements after a child is detached from its parent.
pub open spec fn detached(m: Seq<Option<ElementModel>>, child: ElementKey) -> Seq<Option<ElementModel>> {
    let c = m[child as int]->0;
    let m1 = m.update(child as int, Some(ElementModel { parent: None, ..c }));
    without_child(m1, c.parent, child)
}

impl Document {
    /// The elements, by key, as mathematical values.
    pub open spec fn models(&self) -> Seq<Option<ElementModel>> {
        self.elems().map_values(|o: Option<ElementData>| opt_model(o))
    }

    /// Removes the first reference to a child from an element, if it has one.
    fn remove_child_ref(&mut self, parent_key: ElementKey, child_key: ElementKey)
        requires
            old(self).wf(),
        ensures
            final(self).wf(),
            final(self).same_but_elements(old(self)),
            final(self).element_index() == old(self).element_index(),
            final(self).models() == without_child(old(self).models(), Some(parent_key), child_key),
    {
        let ghost m = self.models();
        match self.elementstore.store.get_mut(parent_key as usize) {
            Some(parent) => {
                let ghost o = parent@;
                proof {
                    lemma_first_index(o.data, is_element_ref(child_key));
                }
                match parent.index_of_element(child_key) {
                    Some(i) => {
                        proof {
                            lemma_first_index_at(o.data, is_element_ref(child_key), i as int);
                        }
                        parent.remove(i);
                    },
                    None => {
                        proof {
                            lemma_first_index_at(o.data, is_element_ref(child_key), o.data.len() as int);
                        }
                    },
                }
                proof {
                    assert(self.models() =~= without_child(m, Some(parent_key), child_key));
                }
            },
            None => {
                assert(self.models() =~= without_child(m, Some(parent_key), child_key));
            },
        }
    }

    ///Adds the child element to the parent element, automatically takes care
    ///of removing the old parent (if any).
    pub fn attach_element(&mut self, parent_key: ElementKey, child_key: ElementKey) -> (r: Result<(), FoliaError>)
        requires
            old(self).wf(),
        ensures
            final(self).wf(),
            final(self).same_but_elements(old(self)),
            final(self).element_index() == old(self).element_index(),
            r is Ok <==> old(self).element_at(parent_key as int) is Some && old(self).element_at(child_key as int) is Some,
            old(self).element_at(parent_key as int) is None ==> (r matches Err(FoliaError::InternalError(m))
                && m@ == "Parent element does not exist: "@ + crate::util::decimal_string(parent_key as nat)),
            old(self).element_at(parent_key as int) is Some && old(self).element_at(child_key as int) is None ==>
                (r matches Err(FoliaError::InternalError(m))
                && m@ == "Child does not exist: "@ + crate::util::decimal_string(child_key as nat)),
            r is Err ==> *final(self) == *old(self),
            final(self).elems().len() == old(self).elems().len(),
            r is Ok ==> final(self).models() == attached(old(self).models(), parent_key, child_key),
    {
        if self.get_elementdata(parent_key).is_none() {
            return Err(FoliaError::InternalError(concat_str("Parent element does not exist: ", decimal(parent_key as u64).as_str())));
        }
        let ghost m = self.models();
        let oldparent = match self.elementstore.store.get_mut(child_key as usize) {
            Some(child) => {
                let tmp = child.parent;
                child.parent = Some(parent_key);
                tmp
            },
            None => {
                return Err(FoliaError::InternalError(concat_str("Child does not exist: ", decimal(child_key as u64).as_str())));
            },
        };
        let ghost c = m[child_key as int]->0;
        let ghost m1 = m.update(child_key as int, Some(ElementModel { parent: Some(parent_key), ..c }));
        assert(self.models() =~= m1);
        match self.elementstore.store.get_mut(parent_key as usize) {
            Some(parent) => {
                parent.push(DataType::Element(child_key));
            },
            None => {},
        }
        let ghost p = m1[parent_key as int]->0;
        let ghost m2 = m1.update(parent_key as int, Some(ElementModel { data: p.data.push(DataType::Element(child_key)), ..p }));
        assert(self.models() =~= m2);
        let ghost m3 = self.models();
        match oldparent {
            Some(op) => {
                self.remove_child_ref(op, child_key);
            },
            None => {},
        }
        proof {
            assert(m3.len() == m.len());
            assert(self.models().len() == m3.len());
            assert(self.models().len() == self.elems().len() && m.len() == old(self).elems().len());
        }
        Ok(())
    }

    ///Removes the child from the parent, orphaning it, does NOT remove the element entirely
    pub fn detach_element(&mut self, child_key: ElementKey) -> (r: Result<(), FoliaError>)
        requires
            old(self).wf(),
        ensures
            final(self).wf(),
            final(self).same_but_elements(old(self)),
            final(self).element_index() == old(self).element_index(),
            r is Ok <==> old(self).element_at(child_key as int) is Some,
            r is Err ==> *final(self) == *old(self) && (r matches Err(FoliaError::InternalError(m))
                && m@ == "Child does not exist: "@ + crate::util::decimal_string(child_key as nat)),
            r is Ok ==> final(self).models() == detached(old(self).models(), child_key),
    {
        let ghost m = self.models();
        let oldparent = match self.elementstore.store.get_mut(child_key as usize) {
            Some(child) => {
                let tmp = child.parent;
                child.parent = None;
                tmp
            },
            None => {
                return Err(FoliaError::InternalError(concat_str("Child does not exist: ", decimal(child_key as u64).as_str())));
            },
        };
        let ghost c = m[child_key as int]->0;
        assert(self.models() =~= m.update(child_key as int, Some(ElementModel { parent: None, ..c })));
        match oldparent {
            Some(op) => {
                self.remove_child_ref(op, child_key);
            },
            None => {},
        }
        Ok(())
    }
}

/// Attaching an orphan to another element makes that element its parent and it the parent's last
/// child; no other element changes.
pub proof fn lemma_attach_orphan(m: Seq<Option<ElementModel>>, parent: ElementKey, child: ElementKey)
    requires
        0 <= parent < m.len() && m[parent as int] is Some,
        0 <= child < m.len() && m[child as int] is Some,
        parent != child,
        m[child as int]->0.parent is None,
    ensures
        attached(m, parent, child).len() == m.len(),
        attached(m, parent, child)[child as int] == Some(ElementModel { parent: Some(parent), ..m[child as int]->0 }),
        attached(m, parent, child)[parent as int] == Some(ElementModel {
            data: m[parent as int]->0.data.push(DataType::Element(child)), ..m[parent as int]->0 }),
        forall|k: int| 0 <= k < m.len() && k != parent && k != child ==> #[trigger] attached(m, parent, child)[k] == m[k],
{
}

/// Detaching a child that was just attached as an orphan to a parent that did not refer to it
/// undoes the attaching.
pub proof fn lemma_detach_undoes_attach(m: Seq<Option<ElementModel>>, parent: ElementKey, child: ElementKey)
    requires
        0 <= parent < m.len() && m[parent as int] is Some,
        0 <= child < m.len() && m[child as int] is Some,
        parent != child,
        m[child as int]->0.parent is None,
        !m[parent as int]->0.data.contains(DataType::Element(child)),
    ensures
        detached(attached(m, parent, child), child) == m,
{
    lemma_attach_orphan(m, parent, child);
    let a = attached(m, parent, child);
    let old_data = m[parent as int]->0.data;
    let data = old_data.push(DataType::Element(child));
    assert forall|j: int| 0 <= j < old_data.len() implies !is_element_ref(child)(#[trigger] data[j]) by {
        assert(data[j] == old_data[j]);
        if data[j] == DataType::Element(child) {
            assert(old_data.contains(DataType::Element(child)));
        }
    }
    lemma_first_index_at(data, is_element_ref(child), old_data.len() as int);
    assert(data.remove(old_data.len() as int) =~= old_data);
    let c = a[child as int]->0;
    let m1 = a.update(child as int, Some(ElementModel { parent: None, ..c }));
    assert(m1[parent as int] == a[parent as int]);
    assert(detached(a, child) =~= m);
}

/// How storing an element changed the elements: either an element with the same ID was there
/// already and its key `k` came back, or the element, encoded and told its key, was appended.
pub open spec fn stored(old_models: Seq<Option<ElementModel>>, new_models: Seq<Option<ElementModel>>,
    element: ElementData, k: ElementKey) -> bool {
    ||| new_models == old_models && (k as int) < old_models.len() && old_models[k as int] is Some
    ||| {
        &&& k == old_models.len()
        &&& new_models.len() == old_models.len() + 1
        &&& new_models.take(k as int) == old_models
        &&& new_models[k as int] matches Some(x) && {
            &&& x.elementtype == element.elementtype
            &&& x.data == element.data@
            &&& x.parent == element.parent
            &&& x.key == Some(k)
            &&& forall|i: int| 0 <= i < x.attribs.len() ==> !(#[trigger] x.attribs[i]).is_encodable()
            &&& !element.is_encodable() ==> x.attribs == element.attribs@
        }
    }
}

impl Document {
    /// Only the elements and the declarations differ from `other`.
    pub open spec fn same_but_content(&self, other: &Document) -> bool {
        &&& self.id == other.id
        &&& self.version == other.version
        &&& self.filename == other.filename
        &&& self.elementstore.specification == other.elementstore.specification
        &&& self.provenancestore == other.provenancestore
        &&& self.metadata == other.metadata
        &&& self.autodeclare == other.autodeclare
    }

    ///Encodes an element (see ``encode``) and stores it, unless an element with the same ID is
    ///stored already, whose key is then returned. The element is not attached to a parent.
    pub fn add(&mut self, element: ElementData, context: Option<ElementKey>) -> (r: Result<ElementKey, FoliaError>)
        requires
            old(self).wf(),
            element.is_encodable() && (element.elementtype.annotation() is Some
                || (element.elementtype == ElementType::Feature && context is Some)) ==> element.decoded_ok(AttribType::SET),
            element.is_encodable() && element.elementtype.annotation() is None && element.elementtype == ElementType::Feature
                ==> (context matches Some(p) ==> (old(self).element_at(p as int) is Some
                ==> old(self).element_at(p as int)->0.elementtype.annotation() is Some)),
        ensures
            final(self).wf(),
            final(self).same_but_content(old(self)),
            decls_grown(old(self).decls(), final(self).decls()),
            r matches Ok(k) ==> stored(old(self).models(), final(self).models(), element, k)
                && final(self).element_at(k as int) is Some,
            r is Err ==> final(self).models() == old(self).models(),
            !element.is_encodable() && old(self).elems().len() <= ElementKey::MAX ==> r is Ok,
            !element.is_encodable() && old(self).elems().len() <= ElementKey::MAX
                && !(element.id_of() matches Some(id) && old(self).element_index().contains_key(id))
                ==> r == Ok::<ElementKey, FoliaError>(old(self).elems().len() as ElementKey),
            !element.is_encodable() || (element.elementtype.annotation() is None && element.elementtype != ElementType::Feature)
                ==> final(self).declarationstore == old(self).declarationstore,
            without_id(element) ==> (r matches Ok(k) ==> k == old(self).elems().len()),
            element.id_of() is None ==> final(self).element_index() == old(self).element_index(),
            r matches Ok(k) ==> final(self).element_at(k as int)->0.id_of() == element.id_of(),
            forall|id: Seq<char>| #[trigger] old(self).element_index().contains_key(id)
                ==> final(self).element_index().contains_key(id),
            encodes_ok(*old(self), element) && old(self).elems().len() <= ElementKey::MAX
                && !(element.id_of() matches Some(id) && old(self).element_index().contains_key(id))
                ==> r == Ok::<ElementKey, FoliaError>(old(self).elems().len() as ElementKey),
            !(element.id_of() matches Some(id) && old(self).element_index().contains_key(id))
                ==> (r matches Ok(k) ==> k == old(self).elems().len()),
            r matches Ok(k) ==> (element.id_of() is Some && old(self).element_index().contains_key(element.id_of()->0)
                ==> k == old(self).element_index()[element.id_of()->0]),
    {
        let ghost m = self.models();
        let encoded = match self.encode(element, context) {
            Ok(e) => e,
            Err(e) => {
                return Err(e);
            },
        };
        let ghost mid = *self;
        proof {
            assert(mid.models() =~= m);
            if without_id(element) {
                if element.is_encodable() {
                    let (dk, ck, pk, sk) = choose|dk: Option<DecKey>, ck: Option<ClassKey>, pk: Option<ProcKey>,
                        sk: Option<SubsetKey>| encoded_with(element, encoded, dk, ck, pk, sk)
                        && keys_valid(*self, element, dk, ck, pk, sk)
                        && (element.elementtype == ElementType::Feature && element.elementtype.annotation() is None
                            ==> (dk matches Some(k) && context matches Some(p)
                            && self.declaration_at(k as int)->0.annotationtype
                                == old(self).element_at(p as int)->0.elementtype.annotation()->0));
                    lemma_encoded_without_id(element, encoded, dk, ck, pk, sk);
                } else {
                    lemma_id_absent(element);
                }
            }
            if element.is_encodable() {
                let (dk, ck, pk, sk) = choose|dk: Option<DecKey>, ck: Option<ClassKey>, pk: Option<ProcKey>,
                    sk: Option<SubsetKey>| encoded_with(element, encoded, dk, ck, pk, sk)
                    && keys_valid(*self, element, dk, ck, pk, sk)
                    && (element.elementtype == ElementType::Feature && element.elementtype.annotation() is None
                        ==> (dk matches Some(k) && context matches Some(p)
                        && self.declaration_at(k as int)->0.annotationtype
                            == old(self).element_at(p as int)->0.elementtype.annotation()->0));
                lemma_encoded_keeps_id(element, encoded, dk, ck, pk, sk);
            }
            assert(encoded.id_of() == element.id_of());
            if encoded.id_of() is Some && mid.element_index().contains_key(encoded.id_of()->0) {
                mid.elementstore.store.lemma_index(encoded.id_of()->0);
            }
        }
        let r = self.elementstore.store.add(encoded, ElementKey::MAX as usize);
        match r {
            Ok(k) => {
                proof {
                    if self.models() != m {
                        let x = encoded.keyed(k as nat);
                        assert(self.models() =~= m.push(Some(x@)));
                        assert(self.models().take(k as int) =~= m);
                    } else {
                    }
                }
                Ok(k as ElementKey)
            },
            Err(e) => {
                Err(e)
            },
        }
    }
}

/// A declaration of the annotation type and set is there: one with that ID, or one of that type.
pub open spec fn declared(doc: Document, annotationtype: AnnotationType, set: Option<Seq<char>>) -> bool {
    exists|k: int| 0 <= k < doc.decls().len() && #[trigger] doc.decls()[k] is Some
        && (doc.decls()[k]->0.id_spec() == declaration_id(annotationtype, set) || doc.decls()[k]->0.annotationtype == annotationtype)
}

/// Growing declarations is transitive.
pub proof fn lemma_decls_grown_trans(a: Seq<Option<Declaration>>, b: Seq<Option<Declaration>>, c: Seq<Option<Declaration>>)
    requires
        decls_grown(a, b),
        decls_grown(b, c),
    ensures
        decls_grown(a, c),
{
    assert forall|k: int| 0 <= k < a.len() && #[trigger] a[k] is Some implies {
        &&& c[k] is Some
        &&& c[k]->0.annotationtype == a[k]->0.annotationtype
        &&& c[k]->0.set == a[k]->0.set
        &&& c[k]->0.processors == a[k]->0.processors
    } by {
        assert(b[k] is Some);
    }
}

/// A declaration stays declared as the declarations grow.
pub proof fn lemma_declared_mono(a: Document, b: Document, annotationtype: AnnotationType, set: Option<Seq<char>>)
    requires
        decls_grown(a.decls(), b.decls()),
        declared(a, annotationtype, set),
    ensures
        declared(b, annotationtype, set),
{
    let k = choose|k: int| 0 <= k < a.decls().len() && #[trigger] a.decls()[k] is Some
        && (a.decls()[k]->0.id_spec() == declaration_id(annotationtype, set) || a.decls()[k]->0.annotationtype == annotationtype);
    assert(b.decls()[k] is Some);
}

/// The number of classes of a declaration.
pub open spec fn class_count(d: Declaration) -> nat {
    crate::metadata::opt_names(d.classes).len()
}

impl Document {
    ///Makes the declarations that the properties ask for. A declaration of the default text set
    ///gets the class "current".
    pub fn apply_properties(&mut self, properties: DocumentProperties) -> (r: Result<(), FoliaError>)
        requires
            old(self).wf(),
        ensures
            final(self).wf(),
            final(self).same_but_declarations(old(self)),
            decls_grown(old(self).decls(), final(self).decls()),
            r is Ok ==> forall|i: int| 0 <= i < properties.declare@.len() ==>
                declared(*final(self), (#[trigger] properties.declare@[i]).0, opt_view(properties.declare@[i].1)),
            old(self).decls().len() + properties.declare@.len() <= DecKey::MAX
                && (forall|k: int| 0 <= k < old(self).decls().len() && #[trigger] old(self).decls()[k] is Some
                    ==> class_count(old(self).decls()[k]->0) + properties.declare@.len() <= ClassKey::MAX)
                ==> r is Ok && final(self).decls().len() <= old(self).decls().len() + properties.declare@.len(),
    {
        let n = properties.declare.len();
        let mut i: usize = 0;
        while i < properties.declare.len()
            invariant
                self.wf(),
                old(self).wf(),
                self.same_but_declarations(old(self)),
                decls_grown(old(self).decls(), self.decls()),
                i <= properties.declare@.len(),
                n == properties.declare@.len(),
                forall|j: int| 0 <= j < i ==> declared(*self, (#[trigger] properties.declare@[j]).0,
                    opt_view(properties.declare@[j].1)),
                old(self).decls().len() + n <= DecKey::MAX
                    && (forall|k: int| 0 <= k < old(self).decls().len() && #[trigger] old(self).decls()[k] is Some
                        ==> class_count(old(self).decls()[k]->0) + n <= ClassKey::MAX)
                    ==> self.decls().len() <= old(self).decls().len() + i
                        && forall|k: int| 0 <= k < self.decls().len() && #[trigger] self.decls()[k] is Some
                            ==> class_count(self.decls()[k]->0) <= (if k < old(self).decls().len() {
                                class_count(old(self).decls()[k]->0) } else { 0 }) + i,
            decreases properties.declare@.len() - i,
        {
            let (annotationtype, set) = &properties.declare[i];
            let ghost before = *self;
            proof {
                let bound = old(self).decls().len() + n <= DecKey::MAX
                    && (forall|k: int| 0 <= k < old(self).decls().len() && #[trigger] old(self).decls()[k] is Some
                        ==> class_count(old(self).decls()[k]->0) + n <= ClassKey::MAX);
                if bound {
                    assert(self.decls().len() < DecKey::MAX);
                }
            }
            let dec_key = match self.declare(*annotationtype, set, &None, &None) {
                Ok(k) => k,
                Err(e) => {
                    return Err(e);
                },
            };
            let is_text_set = match set {
                Some(s) => str_eq(s.as_str(), DEFAULT_TEXT_SET),
                None => false,
            };
            let ghost mid = *self;
            proof {
                let bound = old(self).decls().len() + n <= DecKey::MAX
                    && (forall|k: int| 0 <= k < old(self).decls().len() && #[trigger] old(self).decls()[k] is Some
                        ==> class_count(old(self).decls()[k]->0) + n <= ClassKey::MAX);
                if bound {
                    let k = dec_key as int;
                    assert(mid.decls()[k] is Some);
                    if k < before.decls().len() {
                        assert(mid.decls()[k] == before.decls()[k]);
                        assert(before.decls()[k] is Some);
                        if k < old(self).decls().len() {
                            assert(old(self).decls()[k] is Some);
                        }
                    }
                    assert(class_count(mid.decls()[k]->0) < ClassKey::MAX);
                }
            }
            if is_text_set {
                match self.add_class(dec_key, &"current".to_owned()) {
                    Ok(_) => {},
                    Err(e) => {
                        return Err(e);
                    },
                }
            }
            proof {
                lemma_decls_grown_trans(old(self).decls(), before.decls(), mid.decls());
                lemma_decls_grown_trans(old(self).decls(), mid.decls(), self.decls());
                lemma_decls_grown_trans(before.decls(), mid.decls(), self.decls());
                assert forall|j: int| 0 <= j < i + 1 implies declared(*self, (#[trigger] properties.declare@[j]).0,
                    opt_view(properties.declare@[j].1)) by {
                    if j < i {
                        lemma_declared_mono(before, *self, properties.declare@[j].0, opt_view(properties.declare@[j].1));
                    } else {
                        assert(self.decls()[dec_key as int] is Some);
                    }
                }
                let bound = old(self).decls().len() + n <= DecKey::MAX
                    && (forall|k: int| 0 <= k < old(self).decls().len() && #[trigger] old(self).decls()[k] is Some
                        ==> class_count(old(self).decls()[k]->0) + n <= ClassKey::MAX);
                if bound {
                    assert forall|k: int| 0 <= k < self.decls().len() && #[trigger] self.decls()[k] is Some
                        implies class_count(self.decls()[k]->0) <= (if k < old(self).decls().len() {
                            class_count(old(self).decls()[k]->0) } else { 0 }) + i + 1 by {
                        if k < before.decls().len() {
                            assert(mid.decls()[k] == before.decls()[k]);
                        }
                        if is_text_set && k == dec_key as int {
                            let d = mid.decls()[k]->0;
                            let nd = self.decls()[k]->0;
                            let kk = choose|kk: Result<usize, FoliaError>| added_name(d.classes, "current"@,
                                u32::MAX as nat, kk, nd.classes);
                        }
                    }
                }
            }
            i += 1;
        }
        Ok(())
    }

    ///Create a new FoLiA document from scratch: its body (text or speech) is its root element,
    ///with key 0, and the properties' declarations are made.
    pub fn new(id: &str, properties: DocumentProperties) -> (r: Result<Document, FoliaError>)
        ensures
            r matches Ok(doc) ==> {
                &&& doc.wf()
                &&& doc.id@ == id@
                &&& doc.version@ == FOLIAVERSION@
                &&& doc.autodeclare == properties.autodeclare
                &&& doc.models().len() == 1
                &&& doc.models()[0] matches Some(body) && {
                    &&& body.elementtype == match properties.bodytype {
                        BodyType::Text => ElementType::Text,
                        BodyType::Speech => ElementType::Speech,
                    }
                    &&& body.attribs.len() == 0
                    &&& body.data.len() == 0
                    &&& body.parent is None
                    &&& body.key == Some(0u32)
                }
                &&& doc.procs().len() == 0
                &&& doc.provenancestore.chain@.len() == 0
                &&& doc.element_index() == Map::<Seq<char>, usize>::empty()
                &&& properties.declare@.len() <= DecKey::MAX ==> doc.decls().len() <= properties.declare@.len()
                &&& forall|i: int| 0 <= i < properties.declare@.len() ==>
                    declared(doc, (#[trigger] properties.declare@[i]).0, opt_view(properties.declare@[i].1))
            },
            properties.declare@.len() <= DecKey::MAX ==> r is Ok,
    {
        let mut document = Document::empty(id, properties.autodeclare);
        let body = match properties.bodytype {
            BodyType::Text => ElementData::new(ElementType::Text),
            BodyType::Speech => ElementData::new(ElementType::Speech),
        };
        let ghost b = body;
        match document.add(body, None) {
            Ok(_) => {},
            Err(e) => {
                return Err(e);
            },
        }
        proof {
            assert(document.models().len() == 1);
        }
        proof {
            assert(document.decls().len() == 0);
        }
        match document.apply_properties(properties) {
            Ok(()) => {},
            Err(e) => {
                return Err(e);
            },
        }
        Ok(document)
    }
}

} // verus!
