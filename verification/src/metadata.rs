//! Declarations (annotation type plus set, with their classes), processors
//! (provenance) and metadata.

use vstd::prelude::*;
use crate::types::{AnnotationType, DecKey, ProcKey, ClassKey, SubsetKey};
use crate::store::{Store, Storable};
use vstd::hash_map::StringHashMap;
use crate::error::FoliaError;
use crate::util::{concat3, copy_string};

verus! {

///Represents the type of a processor
#[derive(Copy, Clone, PartialEq, Eq, Structural, Debug)]
pub enum ProcessorType {
    Auto,
    Manual,
    Generator,
    DataSource,
}

impl ProcessorType {
    /// The name of the processor type in FoLiA XML.
    pub open spec fn name(self) -> Seq<char> {
        match self {
            ProcessorType::Auto => "auto"@,
            ProcessorType::Manual => "manual"@,
            ProcessorType::Generator => "generator"@,
            ProcessorType::DataSource => "datasource"@,
        }
    }

    ///The name of the processor type in FoLiA XML
    pub fn as_str(&self) -> (s: &'static str)
        ensures
            s@ == self.name(),
    {
        match self {
            ProcessorType::Auto => "auto",
            ProcessorType::Manual => "manual",
            ProcessorType::Generator => "generator",
            ProcessorType::DataSource => "datasource",
        }
    }
}

impl Default for ProcessorType {
    fn default() -> (r: Self)
        ensures
            r == ProcessorType::Auto,
    {
        ProcessorType::Auto
    }
}

/// The store of the classes (or subsets) of a declaration.
pub type ClassStore = Store<String>;
/// The store of the subsets of a declaration.
pub type SubsetStore = Store<String>;

impl Store<String> {
    /// The names in the store, by key.
    pub open spec fn names(&self) -> Seq<Option<Seq<char>>> {
        self.items_view().map_values(|x: Option<String>| match x {
            Some(s) => Some(s@),
            None => None,
        })
    }
}

/// The index of a class store that may not exist yet.
pub open spec fn opt_index(s: Option<ClassStore>) -> Map<Seq<char>, usize> {
    match s {
        Some(s) => s.index_view(),
        None => Map::empty(),
    }
}

/// The names of a class store that may not exist yet.
pub open spec fn opt_names(s: Option<ClassStore>) -> Seq<Option<Seq<char>>> {
    match s {
        Some(s) => s.names(),
        None => Seq::empty(),
    }
}

/// A class store that may not exist yet is well formed.
pub open spec fn opt_wf(s: Option<ClassStore>) -> bool {
    match s {
        Some(s) => s.wf(),
        None => true,
    }
}

/// The name stored under a key in a class store that may not exist yet.
pub open spec fn opt_name(s: Option<ClassStore>, key: int) -> Option<Seq<char>> {
    if 0 <= key < opt_names(s).len() { opt_names(s)[key] } else { None }
}

/// Adding a name to a class store that may not exist yet: the store that results.
pub open spec fn added_name(s: Option<ClassStore>, name: Seq<char>, limit: nat, r: Result<usize, FoliaError>,
    after: Option<ClassStore>) -> bool {
    &&& after is Some
    &&& opt_wf(after)
    &&& opt_index(s).contains_key(name) ==> r == Ok::<usize, FoliaError>(opt_index(s)[name])
        && opt_index(after) == opt_index(s) && opt_names(after) == opt_names(s)
    &&& !opt_index(s).contains_key(name) ==> {
        let key = opt_names(s).len();
        &&& key > limit ==> (r matches Err(FoliaError::InternalError(m))
            && m@ == "Store.add(). Index out of bounds (e.g. integer overflow)"@)
            && opt_index(after) == opt_index(s) && opt_names(after) == opt_names(s)
        &&& key <= limit ==> r == Ok::<usize, FoliaError>(key as usize)
            && opt_names(after) == opt_names(s).push(Some(name))
            && opt_index(after) == opt_index(s).insert(name, key as usize)
    }
}

/// A name that was added (or found) is stored under the key that came back.
pub proof fn lemma_added_name(s: Option<ClassStore>, name: Seq<char>, limit: nat, r: Result<usize, FoliaError>,
    after: Option<ClassStore>)
    requires
        opt_wf(s),
        limit <= usize::MAX,
        added_name(s, name, limit, r, after),
        r is Ok,
    ensures
        opt_name(after, r->Ok_0 as int) == Some(name),
{
    if opt_index(s).contains_key(name) {
        let st = s->0;
        st.lemma_index(name);
        assert(st.names()[st.index_view()[name] as int] == Some(name));
        assert(opt_names(after) == opt_names(s));
    } else {
        let key = opt_names(s).len();
        assert(opt_names(after) == opt_names(s).push(Some(name)));
        assert(r->Ok_0 == key);
        assert(opt_names(after)[key as int] == Some(name));
    }
}

/// Adding a name that was added before gives the same key and changes nothing.
pub proof fn lemma_added_name_twice(s0: Option<ClassStore>, name: Seq<char>, limit: nat, r1: Result<usize, FoliaError>,
    s1: Option<ClassStore>, r2: Result<usize, FoliaError>, s2: Option<ClassStore>)
    requires
        opt_wf(s0),
        added_name(s0, name, limit, r1, s1),
        r1 is Ok,
        added_name(s1, name, limit, r2, s2),
    ensures
        r2 == r1,
        opt_names(s2) == opt_names(s1),
        opt_index(s2) == opt_index(s1),
{
}

/// Adds a name to a class store, creating the store if needed.
fn add_name(s: &mut Option<ClassStore>, name: &str, limit: usize) -> (r: Result<usize, FoliaError>)
    requires
        opt_wf(*old(s)),
    ensures
        added_name(*old(s), name@, limit as nat, r, *final(s)),
{
    if s.is_none() {
        *s = Some(Store::new());
        assert(opt_names(*s) =~= Seq::<Option<Seq<char>>>::empty());
    }
    let ghost before = *s;
    match s {
        Some(store) => {
            let item = name.to_owned();
            let r = store.add(item, limit);
            proof {
                let st = before->0;
                assert(item.id_view() == Some(name@));
                if !opt_index(before).contains_key(name@) && st.items_view().len() <= limit {
                    assert(store.names() =~= st.names().push(Some(name@)));
                }
            }
            r
        },
        None => {
            proof {
                assert(false);
            }
            Err(FoliaError::IndexError)
        },
    }
}

/// Looks a name up in a class store that may not exist.
fn name_key(s: &Option<ClassStore>, name: &str) -> (r: Option<usize>)
    ensures
        r is Some <==> opt_index(*s).contains_key(name@),
        r matches Some(k) ==> k == opt_index(*s)[name@],
{
    match s {
        Some(store) => store.id_to_key(name),
        None => None,
    }
}

/// Gets the name under a key from a class store that may not exist.
fn name_at(s: &Option<ClassStore>, key: usize) -> (r: Option<&str>)
    ensures
        r is Some <==> opt_name(*s, key as int) is Some,
        r matches Some(x) ==> x@ == opt_name(*s, key as int)->0,
{
    match s {
        Some(store) => match store.get(key) {
            Some(x) => Some(x.as_str()),
            None => None,
        },
        None => None,
    }
}

/// The ID under which a declaration is indexed: its annotation type, and its set if it has one.
pub open spec fn declaration_id(annotationtype: AnnotationType, set: Option<Seq<char>>) -> Seq<char> {
    match set {
        Some(set) => annotationtype.name() + "/"@ + set,
        None => annotationtype.name(),
    }
}

/// Different annotation types or sets have different declaration IDs.
pub proof fn lemma_declaration_id_injective(a1: AnnotationType, s1: Option<Seq<char>>, a2: AnnotationType,
    s2: Option<Seq<char>>)
    requires
        declaration_id(a1, s1) == declaration_id(a2, s2),
    ensures
        a1 == a2,
        s1 == s2,
{
    crate::types::lemma_annotation_name_hyphenless(a1);
    crate::types::lemma_annotation_name_hyphenless(a2);
    crate::types::lemma_annotation_name_round_trip(a1);
    crate::types::lemma_annotation_name_round_trip(a2);
    let id = declaration_id(a1, s1);
    let (n1, n2) = (a1.name(), a2.name());
    reveal_strlit("/");
    assert("/"@.len() == 1 && "/"@[0] == '/');
    // the first slash of an ID ends its annotation type name
    match (s1, s2) {
        (Some(x), Some(y)) => {
            if n1.len() < n2.len() {
                assert(id[n1.len() as int] == '/');
                assert(id[n1.len() as int] == n2[n1.len() as int]);
            } else if n2.len() < n1.len() {
                assert(id[n2.len() as int] == '/');
                assert(id[n2.len() as int] == n1[n2.len() as int]);
            }
            assert(n1 =~= id.take(n1.len() as int));
            assert(n2 =~= id.take(n2.len() as int));
            assert(x =~= id.skip(n1.len() as int + 1));
            assert(y =~= id.skip(n2.len() as int + 1));
        },
        (Some(x), None) => {
            assert(id[n1.len() as int] == '/');
            assert(id[n1.len() as int] == n2[n1.len() as int]);
        },
        (None, Some(y)) => {
            assert(id[n2.len() as int] == '/');
            assert(id[n2.len() as int] == n1[n2.len() as int]);
        },
        (None, None) => {},
    }
}

/// The view of an optional string.
pub open spec fn opt_view(s: Option<String>) -> Option<Seq<char>> {
    match s {
        Some(s) => Some(s@),
        None => None,
    }
}

///Represent a declaration for a particular annotation type, a set (optional), and associated with
///zero or more annotators or processors. Also holds and owns
///the class store for any classes in that set.
pub struct Declaration {
    pub key: Option<DecKey>,
    pub annotationtype: AnnotationType,
    pub set: Option<String>,
    pub alias: Option<String>,
    pub format: Option<String>,
    pub processors: Vec<ProcKey>,
    pub classes: Option<ClassStore>,
    pub subsets: Option<SubsetStore>,
    ///aggregates classes from all subsets
    pub subclasses: Option<ClassStore>,
}

impl Declaration {
    /// The class stores of the declaration are well formed.
    pub open spec fn wf(&self) -> bool {
        &&& opt_wf(self.classes) && opt_wf(self.subsets) && opt_wf(self.subclasses)
        &&& opt_names(self.classes).len() <= ClassKey::MAX + 1
        &&& opt_names(self.subsets).len() <= SubsetKey::MAX + 1
        &&& opt_names(self.subclasses).len() <= ClassKey::MAX + 1
    }

    /// The ID under which the declaration is indexed.
    pub open spec fn id_spec(&self) -> Seq<char> {
        declaration_id(self.annotationtype, opt_view(self.set))
    }

    ///Creates a new declaration, which can for instance be passed to ``Document.add_declaration()``.
    pub fn new(annotationtype: AnnotationType, set: Option<String>, alias: Option<String>, format: Option<String>) -> (d: Declaration)
        ensures
            d == (Declaration { annotationtype, set, alias, format, processors: d.processors, classes: None,
                key: None, subclasses: None, subsets: None }),
            d.processors@.len() == 0,
            d.wf(),
    {
        Declaration { annotationtype, set, alias, processors: Vec::new(), format, classes: None, key: None,
            subclasses: None, subsets: None }
    }

    ///Returns the key of default processor, if any: the processor, if it is the only one
    pub fn default_processor(&self) -> (r: Option<ProcKey>)
        ensures
            self.processors@.len() == 1 ==> r == Some(self.processors@[0]),
            self.processors@.len() != 1 ==> r is None,
    {
        if self.processors.len() == 1 {
            Some(self.processors[0])
        } else {
            None
        }
    }

    ///Create an id to use with the index
    pub fn index_id(annotationtype: AnnotationType, set: &Option<&str>) -> (r: String)
        ensures
            r@ == declaration_id(annotationtype, match *set { Some(s) => Some(s@), None => None }),
    {
        match set {
            Some(set) => concat3(annotationtype.as_str(), "/", set),
            None => annotationtype.as_str().to_owned(),
        }
    }

    ///Get a class by key
    pub fn get_class(&self, class_key: ClassKey) -> (r: Option<&str>)
        ensures
            r is Some <==> opt_name(self.classes, class_key as int) is Some,
            r matches Some(x) ==> x@ == opt_name(self.classes, class_key as int)->0,
    {
        name_at(&self.classes, class_key as usize)
    }

    ///Get a subset by key
    pub fn get_subset(&self, subset_key: SubsetKey) -> (r: Option<&str>)
        ensures
            r is Some <==> opt_name(self.subsets, subset_key as int) is Some,
            r matches Some(x) ==> x@ == opt_name(self.subsets, subset_key as int)->0,
    {
        name_at(&self.subsets, subset_key as usize)
    }

    ///Get a subclass (feature class) by key
    pub fn get_subclass(&self, subclass_key: ClassKey) -> (r: Option<&str>)
        ensures
            r is Some <==> opt_name(self.subclasses, subclass_key as int) is Some,
            r matches Some(x) ==> x@ == opt_name(self.subclasses, subclass_key as int)->0,
    {
        name_at(&self.subclasses, subclass_key as usize)
    }

    ///Encode a class, adding it to the class store if needed, returning the existing one if
    ///already present. For an immutable variant, see ``class_key()``
    pub fn add_class(&mut self, class: &str) -> (r: Result<ClassKey, FoliaError>)
        requires
            old(self).wf(),
        ensures
            final(self).wf(),
            exists|k: Result<usize, FoliaError>| added_name(old(self).classes, class@, u32::MAX as nat, k, final(self).classes)
                && r == match k { Ok(k) => Ok::<ClassKey, FoliaError>(k as ClassKey), Err(e) => Err(e) },
            *final(self) == (Declaration { classes: final(self).classes, ..*old(self) }),
    {
        let r = add_name(&mut self.classes, class, u32::MAX as usize);
        match r {
            Ok(k) => Ok(k as ClassKey),
            Err(e) => Err(e),
        }
    }

    ///Encode a subset, adding it to the subset store if needed, returning the existing one if
    ///already present. For an immutable variant, see ``subset_key()``
    pub fn add_subset(&mut self, subset: &str) -> (r: Result<SubsetKey, FoliaError>)
        requires
            old(self).wf(),
        ensures
            final(self).wf(),
            exists|k: Result<usize, FoliaError>| added_name(old(self).subsets, subset@, u16::MAX as nat, k, final(self).subsets)
                && r == match k { Ok(k) => Ok::<SubsetKey, FoliaError>(k as SubsetKey), Err(e) => Err(e) },
            *final(self) == (Declaration { subsets: final(self).subsets, ..*old(self) }),
    {
        let r = add_name(&mut self.subsets, subset, u16::MAX as usize);
        match r {
            Ok(k) => Ok(k as SubsetKey),
            Err(e) => Err(e),
        }
    }

    ///Encode a subclass, adding it to the subclass store if needed, returning the existing one if
    ///already present. For an immutable variant, see ``subclass_key()``
    pub fn add_subclass(&mut self, subclass: &str) -> (r: Result<ClassKey, FoliaError>)
        requires
            old(self).wf(),
        ensures
            final(self).wf(),
            exists|k: Result<usize, FoliaError>| added_name(old(self).subclasses, subclass@, u32::MAX as nat, k, final(self).subclasses)
                && r == match k { Ok(k) => Ok::<ClassKey, FoliaError>(k as ClassKey), Err(e) => Err(e) },
            *final(self) == (Declaration { subclasses: final(self).subclasses, ..*old(self) }),
    {
        let r = add_name(&mut self.subclasses, subclass, u32::MAX as usize);
        match r {
            Ok(k) => Ok(k as ClassKey),
            Err(e) => Err(e),
        }
    }

    ///Encode a class, assumes it already exists. If not, use ``add_class()`` instead.
    pub fn class_key(&self, class: &str) -> (r: Option<ClassKey>)
        ensures
            r is Some <==> opt_index(self.classes).contains_key(class@),
            r matches Some(k) ==> k == opt_index(self.classes)[class@] as ClassKey,
    {
        match name_key(&self.classes, class) {
            Some(k) => Some(k as ClassKey),
            None => None,
        }
    }

    ///Encode a subset, assumes it already exists. If not, use ``add_subset()`` instead.
    pub fn subset_key(&self, subset: &str) -> (r: Option<SubsetKey>)
        ensures
            r is Some <==> opt_index(self.subsets).contains_key(subset@),
            r matches Some(k) ==> k == opt_index(self.subsets)[subset@] as SubsetKey,
    {
        match name_key(&self.subsets, subset) {
            Some(k) => Some(k as SubsetKey),
            None => None,
        }
    }

    ///Encode a subclass, assumes it already exists. If not, use ``add_subclass()`` instead.
    pub fn subclass_key(&self, subclass: &str) -> (r: Option<ClassKey>)
        ensures
            r is Some <==> opt_index(self.subclasses).contains_key(subclass@),
            r matches Some(k) ==> k == opt_index(self.subclasses)[subclass@] as ClassKey,
    {
        match name_key(&self.subclasses, subclass) {
            Some(k) => Some(k as ClassKey),
            None => None,
        }
    }
}

impl Storable for Declaration {
    proof fn lemma_keyed_id(self, key: nat) {
    }

    open spec fn id_view(&self) -> Option<Seq<char>> {
        Some(self.id_spec())
    }

    open spec fn keyed(self, key: nat) -> Self {
        Declaration { key: Some(key as DecKey), ..self }
    }

    fn maybe_id(&self) -> (r: Option<String>) {
        let set: Option<&str> = match &self.set {
            Some(s) => Some(s.as_str()),
            None => None,
        };
        Some(Declaration::index_id(self.annotationtype, &set))
    }

    fn set_key(&mut self, key: usize) {
        self.key = Some(key as DecKey);
    }
}

/// The declaration store holds all declarations (e.g. for a document)
pub type DeclarationStore = Store<Declaration>;

/// The positions of the declarations of an annotation type, in a sequence of items.
pub open spec fn positions_of_type(items: Seq<Option<Declaration>>, annotationtype: AnnotationType) -> Seq<int>
    decreases items.len(),
{
    if items.len() == 0 {
        Seq::empty()
    } else {
        let rest = positions_of_type(items.drop_last(), annotationtype);
        match items.last() {
            Some(d) => if d.annotationtype == annotationtype { rest.push(items.len() - 1) } else { rest },
            None => rest,
        }
    }
}

/// The number of declarations of an annotation type.
pub open spec fn count_of_type(items: Seq<Option<Declaration>>, annotationtype: AnnotationType) -> nat {
    positions_of_type(items, annotationtype).len()
}

proof fn lemma_positions_bound(items: Seq<Option<Declaration>>, annotationtype: AnnotationType)
    ensures
        count_of_type(items, annotationtype) <= items.len(),
        forall|i: int| 0 <= i < count_of_type(items, annotationtype) ==>
            0 <= #[trigger] positions_of_type(items, annotationtype)[i] < items.len(),
    decreases items.len(),
{
    if items.len() > 0 {
        lemma_positions_bound(items.drop_last(), annotationtype);
    }
}

/// The positions of the declarations of an annotation type hold declarations of that type.
pub proof fn lemma_positions_valid(items: Seq<Option<Declaration>>, annotationtype: AnnotationType)
    ensures
        forall|i: int| 0 <= i < count_of_type(items, annotationtype) ==> {
            let p = #[trigger] positions_of_type(items, annotationtype)[i];
            0 <= p < items.len() && items[p] is Some && items[p]->0.annotationtype == annotationtype
        },
    decreases items.len(),
{
    if items.len() > 0 {
        let rest = items.drop_last();
        lemma_positions_valid(rest, annotationtype);
        assert forall|i: int| 0 <= i < count_of_type(items, annotationtype) implies {
            let p = #[trigger] positions_of_type(items, annotationtype)[i];
            0 <= p < items.len() && items[p] is Some && items[p]->0.annotationtype == annotationtype
        } by {
            let p = positions_of_type(items, annotationtype)[i];
            if i < count_of_type(rest, annotationtype) {
                let q = positions_of_type(rest, annotationtype)[i];
                assert(p == q);
                assert(items[q] == rest[q]);
            }
        }
    }
}

impl Store<Declaration> {
    /// The declaration of the given annotation type that is the only one of that type, if there is one.
    pub open spec fn default_of(&self, annotationtype: AnnotationType) -> Option<int> {
        let p = positions_of_type(self.items_view(), annotationtype);
        if p.len() == 1 { Some(p[0]) } else { None }
    }

    ///Returns a vector of boolean, indicating if the declaration is a default or not (the only
    ///one of its annotation type). Can be indexed with DecKey
    pub fn default_mask(&self) -> (mask: Vec<bool>)
        ensures
            mask@.len() == self.items_view().len(),
            forall|i: int| 0 <= i < mask@.len() ==> #[trigger] mask@[i] == match self.items_view()[i] {
                Some(d) => count_of_type(self.items_view(), d.annotationtype) == 1,
                None => false,
            },
    {
        let items = self.items();
        let mut mask: Vec<bool> = Vec::new();
        let mut i: usize = 0;
        while i < items.len()
            invariant
                items@ == self.items_view(),
                i <= items@.len(),
                mask@.len() == i,
                forall|j: int| 0 <= j < i ==> #[trigger] mask@[j] == match self.items_view()[j] {
                    Some(d) => count_of_type(self.items_view(), d.annotationtype) == 1,
                    None => false,
                },
            decreases items@.len() - i,
        {
            match &items[i] {
                Some(d) => {
                    let n = self.count_type(d.annotationtype, 2);
                    mask.push(n == 1);
                },
                None => {
                    mask.push(false);
                },
            }
            i += 1;
        }
        mask
    }

    /// Counts the declarations of an annotation type, up to `cap`.
    fn count_type(&self, annotationtype: AnnotationType, cap: usize) -> (n: usize)
        ensures
            n == if count_of_type(self.items_view(), annotationtype) < cap {
                count_of_type(self.items_view(), annotationtype)
            } else {
                cap as nat
            },
    {
        let items = self.items();
        let mut n: usize = 0;
        let mut i: usize = 0;
        proof {
            assert(items@.take(0) =~= Seq::<Option<Declaration>>::empty());
        }
        while i < items.len()
            invariant
                items@ == self.items_view(),
                i <= items@.len(),
                n == if count_of_type(items@.take(i as int), annotationtype) < cap {
                    count_of_type(items@.take(i as int), annotationtype)
                } else {
                    cap as nat
                },
            decreases items@.len() - i,
        {
            proof {
                assert(items@.take(i + 1).drop_last() =~= items@.take(i as int));
            }
            if let Some(d) = &items[i] {
                if d.annotationtype == annotationtype && n < cap {
                    n += 1;
                }
            }
            i += 1;
        }
        assert(items@.take(i as int) =~= items@);
        n
    }

    ///Retrieves the key for the default annotation for the given annotationtype (if there is a
    ///default: the only declaration of that type)
    pub fn get_default_key(&self, annotationtype: AnnotationType) -> (r: Option<DecKey>)
        ensures
            r is Some <==> self.default_of(annotationtype) is Some && self.default_of(annotationtype)->0 <= DecKey::MAX,
            r matches Some(k) ==> k == self.default_of(annotationtype)->0,
    {
        let items = self.items();
        let mut found: Option<usize> = None;
        let mut n: usize = 0;
        let mut i: usize = 0;
        proof {
            assert(items@.take(0) =~= Seq::<Option<Declaration>>::empty());
        }
        while i < items.len()
            invariant
                items@ == self.items_view(),
                i <= items@.len(),
                n == if count_of_type(items@.take(i as int), annotationtype) < 2 {
                    count_of_type(items@.take(i as int), annotationtype)
                } else {
                    2
                },
                n >= 1 ==> found is Some && found->0 == positions_of_type(items@.take(i as int), annotationtype)[0],
                n == 0 ==> found is None,
            decreases items@.len() - i,
        {
            proof {
                assert(items@.take(i + 1).drop_last() =~= items@.take(i as int));
                lemma_positions_prefix(items@.take(i + 1), annotationtype);
            }
            if let Some(d) = &items[i] {
                if d.annotationtype == annotationtype {
                    if n == 0 {
                        found = Some(i);
                    }
                    if n < 2 {
                        n += 1;
                    }
                }
            }
            i += 1;
        }
        assert(items@.take(i as int) =~= items@);
        if n == 1 {
            let k = found.unwrap();
            if k <= DecKey::MAX as usize {
                return Some(k as DecKey);
            }
        }
        None
    }
}

proof fn lemma_positions_prefix(items: Seq<Option<Declaration>>, annotationtype: AnnotationType)
    requires
        items.len() > 0,
    ensures
        count_of_type(items.drop_last(), annotationtype) >= 1 ==>
            positions_of_type(items, annotationtype)[0] == positions_of_type(items.drop_last(), annotationtype)[0],
        count_of_type(items.drop_last(), annotationtype) == 0 && count_of_type(items, annotationtype) == 1 ==>
            positions_of_type(items, annotationtype)[0] == items.len() - 1,
{
}

///Represents a processor
pub struct Processor {
    pub id: String,
    pub name: String,
    pub processortype: ProcessorType,
    pub version: String,
    pub folia_version: String,
    pub document_version: String,
    pub command: String,
    pub host: String,
    pub user: String,
    pub begindatetime: String,
    pub enddatetime: String,
    pub processors: Vec<ProcKey>,
    pub src: String,
    pub format: String,
    pub resourcelink: String,
    pub parent: Option<ProcKey>,
    pub metadata: Metadata,
    pub key: Option<ProcKey>,
}

impl Storable for Processor {
    proof fn lemma_keyed_id(self, key: nat) {
    }

    open spec fn id_view(&self) -> Option<Seq<char>> {
        Some(self.id@)
    }

    open spec fn keyed(self, key: nat) -> Self {
        Processor { key: Some(key as ProcKey), ..self }
    }

    fn maybe_id(&self) -> (r: Option<String>) {
        Some(self.id.clone())
    }

    fn set_key(&mut self, key: usize) {
        self.key = Some(key as ProcKey);
    }
}

/// A lower-case hexadecimal digit.
pub open spec fn hex_digit(n: nat) -> char {
    if n == 0 { '0' } else if n == 1 { '1' } else if n == 2 { '2' } else if n == 3 { '3' }
    else if n == 4 { '4' } else if n == 5 { '5' } else if n == 6 { '6' } else if n == 7 { '7' }
    else if n == 8 { '8' } else if n == 9 { '9' } else if n == 10 { 'a' } else if n == 11 { 'b' }
    else if n == 12 { 'c' } else if n == 13 { 'd' } else if n == 14 { 'e' } else { 'f' }
}

/// Bytes in lower-case hexadecimal: two digits a byte, the high one first.
pub open spec fn hex_string(bytes: Seq<u8>) -> Seq<char>
    decreases bytes.len(),
{
    if bytes.len() == 0 {
        Seq::empty()
    } else {
        hex_string(bytes.drop_last()) + seq![hex_digit((bytes.last() / 16) as nat), hex_digit((bytes.last() % 16) as nat)]
    }
}

/// The bytes in lower-case hexadecimal (`hex::encode`).
#[verifier::external_body]
fn hex_encode(bytes: &Vec<u8>) -> (r: String)
    ensures
        r@ == hex_string(bytes@),
{
    hex::encode(bytes)
}

/// A random byte (`rand::random::<u8>`).
#[verifier::external_body]
fn random_byte() -> u8 {
    rand::random::<u8>()
}

impl Default for Processor {
    fn default() -> (p: Self)
        ensures
            p.is_blank(),
            p.id@.len() == 0,
            p.name@.len() == 0,
    {
        Processor {
            id: String::new(),
            name: String::new(),
            processortype: ProcessorType::Auto,
            version: String::new(),
            folia_version: String::new(),
            document_version: String::new(),
            command: String::new(),
            host: String::new(),
            user: String::new(),
            begindatetime: String::new(),
            enddatetime: String::new(),
            processors: Vec::new(),
            src: String::new(),
            format: String::new(),
            resourcelink: String::new(),
            parent: None,
            metadata: Metadata::new(),
            key: None,
        }
    }
}

impl Processor {
    /// Every field but the ID and the name is empty (the type is the default).
    pub open spec fn is_blank(&self) -> bool {
        &&& self.processortype == ProcessorType::Auto
        &&& self.version@.len() == 0
        &&& self.folia_version@.len() == 0
        &&& self.document_version@.len() == 0
        &&& self.command@.len() == 0
        &&& self.host@.len() == 0
        &&& self.user@.len() == 0
        &&& self.begindatetime@.len() == 0
        &&& self.enddatetime@.len() == 0
        &&& self.processors@.len() == 0
        &&& self.src@.len() == 0
        &&& self.format@.len() == 0
        &&& self.resourcelink@.len() == 0
        &&& self.parent is None
        &&& self.key is None
        &&& self.metadata.data.wf()
        &&& self.metadata.data.keys_view().len() == 0
        &&& self.metadata.src is None
        &&& self.metadata.metadatatype is None
    }

    ///Instantiates a new processor; its ID is "proc.", the name, "." and sixteen random bytes in
    ///hexadecimal
    pub fn new(name: String) -> (p: Processor)
        ensures
            p.is_blank(),
            p.name@ == name@,
            exists|b: Seq<u8>| b.len() == 16 && p.id@ == "proc."@ + name@ + "."@ + #[trigger] hex_string(b),
    {
        let mut bytes: Vec<u8> = Vec::new();
        let mut i: usize = 0;
        while i < 16
            invariant
                i <= 16,
                bytes@.len() == i,
            decreases 16 - i,
        {
            bytes.push(random_byte());
            i += 1;
        }
        let mut id = concat3("proc.", name.as_str(), ".");
        let h = hex_encode(&bytes);
        id.append(h.as_str());
        let mut p = Processor::default();
        p.id = id;
        p.name = name;
        p
    }

    ///Fills in what the environment tells of the run: the host, the user, the command and the
    ///time it began (as written in FoLiA), and the FoLiA version of this library
    pub fn autofill(self, host: String, user: String, command: String, begindatetime: String) -> (p: Processor)
        ensures
            p == (Processor { host, user, command, begindatetime, folia_version: p.folia_version, ..self }),
            p.folia_version@ == crate::common::FOLIAVERSION@,
    {
        self.with_host(host).with_begindatetime(begindatetime).with_folia_version(crate::common::FOLIAVERSION.to_owned())
            .with_user(user).with_command(command)
    }

    ///Sets the type (builder pattern)
    pub fn with_type(self, processortype: ProcessorType) -> (p: Processor)
        ensures
            p == (Processor { processortype, ..self }),
    {
        Processor { processortype, ..self }
    }

    ///Sets the ID (builder pattern)
    pub fn with_id(self, value: String) -> (p: Processor)
        ensures
            p == (Processor { id: value, ..self }),
    {
        Processor { id: value, ..self }
    }

    ///Sets the version (builder pattern)
    pub fn with_version(self, value: String) -> (p: Processor)
        ensures
            p == (Processor { version: value, ..self }),
    {
        Processor { version: value, ..self }
    }

    ///Sets the FoLiA version (builder pattern)
    pub fn with_folia_version(self, value: String) -> (p: Processor)
        ensures
            p == (Processor { folia_version: value, ..self }),
    {
        Processor { folia_version: value, ..self }
    }

    ///Sets the document version (builder pattern)
    pub fn with_document_version(self, value: String) -> (p: Processor)
        ensures
            p == (Processor { document_version: value, ..self }),
    {
        Processor { document_version: value, ..self }
    }

    ///Sets the command (builder pattern)
    pub fn with_command(self, value: String) -> (p: Processor)
        ensures
            p == (Processor { command: value, ..self }),
    {
        Processor { command: value, ..self }
    }

    ///Sets the host (builder pattern)
    pub fn with_host(self, value: String) -> (p: Processor)
        ensures
            p == (Processor { host: value, ..self }),
    {
        Processor { host: value, ..self }
    }

    ///Sets the user (builder pattern)
    pub fn with_user(self, value: String) -> (p: Processor)
        ensures
            p == (Processor { user: value, ..self }),
    {
        Processor { user: value, ..self }
    }

    ///Sets the begin date/time, as written in FoLiA (builder pattern)
    pub fn with_begindatetime(self, value: String) -> (p: Processor)
        ensures
            p == (Processor { begindatetime: value, ..self }),
    {
        Processor { begindatetime: value, ..self }
    }

    ///Sets the end date/time, as written in FoLiA (builder pattern)
    pub fn with_enddatetime(self, value: String) -> (p: Processor)
        ensures
            p == (Processor { enddatetime: value, ..self }),
    {
        Processor { enddatetime: value, ..self }
    }

    ///Sets the source (builder pattern)
    pub fn with_src(self, value: String) -> (p: Processor)
        ensures
            p == (Processor { src: value, ..self }),
    {
        Processor { src: value, ..self }
    }

    ///Sets the format (builder pattern)
    pub fn with_format(self, value: String) -> (p: Processor)
        ensures
            p == (Processor { format: value, ..self }),
    {
        Processor { format: value, ..self }
    }

    ///Sets the resource link (builder pattern)
    pub fn with_resourcelink(self, value: String) -> (p: Processor)
        ensures
            p == (Processor { resourcelink: value, ..self }),
    {
        Processor { resourcelink: value, ..self }
    }
}

/// The provenance store holds and owns all processors and the provenance chain (the
/// keys of the processors at its top level, in order).
pub struct ProvenanceStore {
    pub store: Store<Processor>,
    pub chain: Vec<ProcKey>,
}

/// A key/value store of metadata fields; the keys are kept in the order they were first set.
pub struct MetadataMap {
    keys: Vec<String>,
    values: StringHashMap<String>,
}

impl MetadataMap {
    /// The keys, in the order they were first set.
    pub closed spec fn keys_view(&self) -> Seq<Seq<char>> {
        self.keys@.map_values(|k: String| k@)
    }

    /// The fields as a map.
    pub closed spec fn map_view(&self) -> Map<Seq<char>, Seq<char>> {
        self.values@.map_values(|v: String| v@)
    }

    /// No key occurs twice, and the keys are exactly the fields that are set.
    pub closed spec fn wf(&self) -> bool {
        &&& self.keys_view().no_duplicates()
        &&& forall|k: Seq<char>| #[trigger] self.values@.contains_key(k) <==> self.keys_view().contains(k)
    }

    /// Creates an empty store.
    pub fn new() -> (m: Self)
        ensures
            m.wf(),
            m.keys_view() == Seq::<Seq<char>>::empty(),
            m.map_view() == Map::<Seq<char>, Seq<char>>::empty(),
    {
        let m = MetadataMap { keys: Vec::new(), values: StringHashMap::new() };
        assert(m.keys_view() =~= Seq::<Seq<char>>::empty());
        assert(m.map_view() =~= Map::<Seq<char>, Seq<char>>::empty());
        m
    }

    /// The value of a field, if it is set.
    pub fn get(&self, key: &str) -> (r: Option<&String>)
        ensures
            r is Some <==> self.map_view().contains_key(key@),
            r matches Some(v) ==> v@ == self.map_view()[key@],
    {
        self.values.get(key)
    }

    /// Sets a field: a field that is already set keeps its place and gets the new value.
    pub fn insert(&mut self, key: String, value: String)
        requires
            old(self).wf(),
        ensures
            final(self).wf(),
            final(self).map_view() == old(self).map_view().insert(key@, value@),
            old(self).map_view().contains_key(key@) ==> final(self).keys_view() == old(self).keys_view(),
            !old(self).map_view().contains_key(key@) ==> final(self).keys_view() == old(self).keys_view().push(key@),
    {
        let ghost kv = key@;
        let ghost old_keys = self.keys_view();
        if !self.values.contains_key(key.as_str()) {
            let k = key.clone();
            self.keys.push(k);
            assert(self.keys_view() =~= old_keys.push(kv));
            assert(self.keys_view()[old_keys.len() as int] == kv);
        }
        self.values.insert(key, value);
        assert(self.map_view() =~= old(self).map_view().insert(kv, value@));
        assert forall|k: Seq<char>| #[trigger] self.values@.contains_key(k) <==> self.keys_view().contains(k) by {
            if k != kv {
                if self.keys_view().contains(k) {
                    let i = choose|i: int| 0 <= i < self.keys_view().len() && self.keys_view()[i] == k;
                    assert(old_keys[i] == k);
                }
                if old_keys.contains(k) {
                    let i = choose|i: int| 0 <= i < old_keys.len() && old_keys[i] == k;
                    assert(self.keys_view()[i] == k);
                }
            } else {
                assert(old(self).values@.contains_key(kv) ==> old_keys.contains(kv));
                if old_keys.contains(kv) {
                    let i = choose|i: int| 0 <= i < old_keys.len() && old_keys[i] == kv;
                    assert(self.keys_view()[i] == kv);
                }
            }
        }
    }

    /// In a well-formed store, every key is set.
    pub proof fn lemma_keys_set(&self)
        requires
            self.wf(),
        ensures
            forall|i: int| 0 <= i < self.keys_view().len() ==> self.map_view().contains_key(#[trigger] self.keys_view()[i]),
    {
        assert forall|i: int| 0 <= i < self.keys_view().len() implies self.map_view().contains_key(#[trigger] self.keys_view()[i]) by {
            assert(self.keys_view().contains(self.keys_view()[i]));
            assert(self.values@.contains_key(self.keys_view()[i]));
        }
    }

    /// The keys, in the order they were first set.
    pub fn keys(&self) -> (r: &Vec<String>)
        ensures
            r@.map_values(|k: String| k@) == self.keys_view(),
    {
        &self.keys
    }
}

///A key/value store (``data``) containing arbitrary metadata (FoLiA native metadata)
///Instead of using the key/value store, it may also refer to an external metadata source
///(``src``).
pub struct Metadata {
    pub data: MetadataMap,
    pub src: Option<String>,
    pub metadatatype: Option<String>,
}

impl Metadata {
    /// Empty metadata.
    pub fn new() -> (m: Self)
        ensures
            m.data.wf(),
            m.data.keys_view() == Seq::<Seq<char>>::empty(),
            m.data.map_view() == Map::<Seq<char>, Seq<char>>::empty(),
            m.src is None,
            m.metadatatype is None,
    {
        Metadata { data: MetadataMap::new(), src: None, metadatatype: None }
    }
}

} // verus!
