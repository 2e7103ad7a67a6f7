//! A store that holds and owns items, keyed by their position, with an index
//! from IDs to keys. Documents keep their elements, declarations and
//! processors in such stores; declarations keep their classes in them.

use vstd::prelude::*;
use vstd::hash_map::StringHashMap;
use crate::error::FoliaError;

verus! {

///This trait needs to be implemented on items that are storable in a ``Store``. Storable items
///*MAY BE* identifiable and *MAY BE* storing their own key.
pub trait Storable: Sized {
    /// The ID under which the item is indexed, if it has one.
    spec fn id_view(&self) -> Option<Seq<char>>;

    /// The item, after it has been told its own key.
    spec fn keyed(self, key: nat) -> Self;

    /// Telling an item its key does not change its ID.
    proof fn lemma_keyed_id(self, key: nat)
        ensures
            self.keyed(key).id_view() == self.id_view();

    /// The ID under which the item is indexed, if it has one.
    fn maybe_id(&self) -> (r: Option<String>)
        ensures
            r matches Some(s) ==> self.id_view() == Some(s@),
            r is None ==> self.id_view() is None;

    ///Set the key of the current item (if supported by the item)
    fn set_key(&mut self, key: usize)
        ensures
            *final(self) == old(self).keyed(key as nat);
}

impl Storable for String {
    open spec fn id_view(&self) -> Option<Seq<char>> {
        Some(self@)
    }

    open spec fn keyed(self, key: nat) -> Self {
        self
    }

    proof fn lemma_keyed_id(self, key: nat) {
    }

    fn maybe_id(&self) -> (r: Option<String>) {
        Some(self.clone())
    }

    fn set_key(&mut self, key: usize) {
    }
}

/// What adding an item to a store does: an item whose ID is indexed already is not added, its
/// key comes back; another is appended, and indexed by its ID if it has one, unless its key would
/// exceed the limit.
pub open spec fn added<T: Storable>(before: Store<T>, item: T, limit: nat, r: Result<usize, FoliaError>, after: Store<T>) -> bool {
    &&& before.indexed_key(&item) matches Some(k) ==>
        r == Ok::<usize, FoliaError>(k) && after == before
    &&& before.indexed_key(&item) is None ==> {
        let key = before.items_view().len();
        &&& key > limit ==> after == before && (r matches Err(FoliaError::InternalError(m))
            && m@ == "Store.add(). Index out of bounds (e.g. integer overflow)"@)
        &&& key <= limit ==> r == Ok::<usize, FoliaError>(key as usize)
            && after.items_view() == before.items_view().push(Some(item.keyed(key)))
            && after.index_view() == match item.id_view() {
                Some(id) => before.index_view().insert(id, key as usize),
                None => before.index_view(),
            }
    }
}

/// An item that was added with an ID is found by that ID, under the key that came back, and
/// has that ID.
pub proof fn lemma_added_found<T: Storable>(before: Store<T>, item: T, limit: nat, r: Result<usize, FoliaError>,
    after: Store<T>, id: Seq<char>)
    requires
        before.wf(),
        after.wf(),
        added(before, item, limit, r, after),
        r is Ok,
        item.id_view() == Some(id),
    ensures
        after.index_view().contains_key(id),
        after.index_view()[id] == r->Ok_0,
        after.item(r->Ok_0 as int) is Some,
        after.item(r->Ok_0 as int)->0.id_view() == Some(id),
{
    if before.index_view().contains_key(id) {
        before.lemma_index(id);
    } else {
        item.lemma_keyed_id(before.items_view().len());
        after.lemma_index(id);
    }
}

/// Adding the same item again gives the same key and changes nothing.
pub proof fn lemma_added_twice<T: Storable>(s0: Store<T>, item: T, limit: nat, r1: Result<usize, FoliaError>,
    s1: Store<T>, r2: Result<usize, FoliaError>, s2: Store<T>, id: Seq<char>)
    requires
        s0.wf(),
        s1.wf(),
        added(s0, item, limit, r1, s1),
        r1 is Ok,
        item.id_view() == Some(id),
        added(s1, item, limit, r2, s2),
    ensures
        r2 == r1,
        s2 == s1,
{
    lemma_added_found(s0, item, limit, r1, s1, id);
}

/// Holds and owns items: an item's key is its position. An index maps the IDs
/// of identifiable items to their keys.
pub struct Store<T> {
    items: Vec<Option<T>>,
    index: StringHashMap<usize>,
}

impl<T: Storable> Store<T> {
    /// The items, by key (removed items would be `None`).
    pub closed spec fn items_view(&self) -> Seq<Option<T>> {
        self.items@
    }

    /// The index from IDs to keys.
    pub closed spec fn index_view(&self) -> Map<Seq<char>, usize> {
        self.index@
    }

    /// Every indexed key refers to an item that is present and has that ID.
    pub closed spec fn wf(&self) -> bool {
        forall|id: Seq<char>| #[trigger] self.index@.contains_key(id) ==>
            self.index@[id] < self.items@.len() && self.items@[self.index@[id] as int] is Some
            && self.items@[self.index@[id] as int]->0.id_view() == Some(id)
    }

    /// The item that a key refers to, if it is present.
    pub open spec fn item(&self, key: int) -> Option<T> {
        if 0 <= key < self.items_view().len() { self.items_view()[key] } else { None }
    }

    /// The key of the indexed item with the same ID as `item`, if any.
    pub open spec fn indexed_key(&self, item: &T) -> Option<usize> {
        match item.id_view() {
            Some(id) => if self.index_view().contains_key(id) { Some(self.index_view()[id]) } else { None },
            None => None,
        }
    }

    /// Creates an empty store.
    pub fn new() -> (s: Self)
        ensures
            s.wf(),
            s.items_view() == Seq::<Option<T>>::empty(),
            s.index_view() == Map::<Seq<char>, usize>::empty(),
    {
        Store { items: Vec::new(), index: StringHashMap::new() }
    }

    ///Returns the number of items in the store (including items that were removed)
    pub fn len(&self) -> (r: usize)
        ensures
            r == self.items_view().len(),
    {
        self.items.len()
    }

    ///Returns whether the store holds no items
    pub fn is_empty(&self) -> (r: bool)
        ensures
            r == (self.items_view().len() == 0),
    {
        self.items.len() == 0
    }

    ///All items, by key
    pub fn items(&self) -> (r: &Vec<Option<T>>)
        ensures
            r@ == self.items_view(),
    {
        &self.items
    }

    ///Retrieves an item from the store
    pub fn get(&self, key: usize) -> (r: Option<&T>)
        ensures
            r is Some <==> self.item(key as int) is Some,
            r matches Some(x) ==> *x == self.item(key as int)->0,
    {
        if key < self.items.len() {
            match &self.items[key] {
                Some(x) => Some(x),
                None => None,
            }
        } else {
            None
        }
    }

    ///Retrieves an item from the store, for changing it in place
    pub fn get_mut(&mut self, key: usize) -> (r: Option<&mut T>)
        requires
            old(self).wf(),
        ensures
            r is Some <==> old(self).item(key as int) is Some,
            r is None ==> *final(self) == *old(self),
            r matches Some(x) ==> *x == old(self).item(key as int)->0
                && final(self).items_view() == old(self).items_view().update(key as int, Some(*final(x)))
                && final(self).index_view() == old(self).index_view()
                && (final(x).id_view() == x.id_view() ==> final(self).wf()),
    {
        if key < self.items.len() && self.items[key].is_some() {
            self.items[key].as_mut()
        } else {
            None
        }
    }

    /// Every indexed key refers to an item that is present.
    pub proof fn lemma_index(&self, id: Seq<char>)
        requires
            self.wf(),
            self.index_view().contains_key(id),
        ensures
            self.index_view()[id] < self.items_view().len(),
            self.item(self.index_view()[id] as int) is Some,
            self.item(self.index_view()[id] as int)->0.id_view() == Some(id),
    {
    }

    ///Resolve an ID to a Key using the index
    pub fn id_to_key(&self, id: &str) -> (r: Option<usize>)
        ensures
            r is Some <==> self.index_view().contains_key(id@),
            r matches Some(k) ==> k == self.index_view()[id@],
            self.wf() ==> (r matches Some(k) ==> k < self.items_view().len() && self.item(k as int) is Some),
    {
        match self.index.get(id) {
            Some(k) => Some(*k),
            None => None,
        }
    }

    ///Get an item by its ID
    pub fn get_by_id(&self, id: &str) -> (r: Option<&T>)
        requires
            self.wf(),
        ensures
            r is Some <==> self.index_view().contains_key(id@),
            r matches Some(x) ==> *x == self.item(self.index_view()[id@] as int)->0 && x.id_view() == Some(id@),
    {
        match self.id_to_key(id) {
            Some(k) => self.get(k),
            None => None,
        }
    }

    ///Checks if an item with the same ID is already in the store and returns its key if so
    pub fn get_key(&self, item: &T) -> (r: Option<usize>)
        ensures
            item.id_view() is None ==> r is None,
            item.id_view() matches Some(id) ==> (r is Some <==> self.index_view().contains_key(id))
                && (r matches Some(k) ==> k == self.index_view()[id]),
    {
        match item.maybe_id() {
            Some(id) => self.id_to_key(id.as_str()),
            None => None,
        }
    }

    ///Add a new item to the store (takes ownership). An identifiable item whose ID is
    ///already indexed is not added again: the key of the existing one is returned. The
    ///item's key must not exceed `limit`, the largest key that the caller's key type holds.
    pub fn add(&mut self, item: T, limit: usize) -> (r: Result<usize, FoliaError>)
        requires
            old(self).wf(),
        ensures
            final(self).wf(),
            added(*old(self), item, limit as nat, r, *final(self)),
    {
        let id = item.maybe_id();
        if let Some(id) = &id {
            if let Some(key) = self.id_to_key(id.as_str()) {
                return Ok(key);
            }
        }
        let key = self.items.len();
        if key > limit {
            return Err(FoliaError::InternalError("Store.add(). Index out of bounds (e.g. integer overflow)".to_owned()));
        }
        let mut item = item;
        proof {
            item.lemma_keyed_id(key as nat);
        }
        item.set_key(key);
        self.items.push(Some(item));
        if let Some(id) = id {
            self.index.insert(id, key);
        }
        Ok(key)
    }
}

} // verus!
