//! Catalogs of schemas of tables, made on demand.
//!
//! A lookup of a catalog or of a schema always succeeds: what is not there yet is made
//! and kept. Items are known here by numbers; the names are the keys of concurrent maps
//! of the crate `scc`.
use vstd::prelude::*;

verus! {

// ---------------------------------------------------------------------------
// The map
// ---------------------------------------------------------------------------

#[verifier::external_type_specification]
#[verifier::external_body]
#[verifier::reject_recursive_types(K)]
#[verifier::reject_recursive_types(V)]
#[verifier::reject_recursive_types(H)]
pub struct ExHashMap<K, V, H>(scc::HashMap<K, V, H>) where H: std::hash::BuildHasher;

/// What an `scc::HashMap` holds, by key.
pub uninterp spec fn entries(map: scc::HashMap<String, u64>) -> Map<Seq<char>, u64>;

/// What a map without entries holds.
pub open spec fn no_entries() -> Map<Seq<char>, u64> {
    Map::empty()
}

/// `scc::HashMap::new` makes a map without entries.
#[verifier::external_body]
fn empty_map() -> (r: scc::HashMap<String, u64>)
    ensures
        entries(r) == no_entries(),
{
    scc::HashMap::new()
}

/// `scc::HashMap::read_sync` reads the value of a key, where there is one.
#[verifier::external_body]
fn read_entry(map: &scc::HashMap<String, u64>, key: &str) -> (r: Option<u64>)
    ensures
        r == entries(*map).get(key@),
{
    map.read_sync(key, |_, v| *v)
}

/// `scc::HashMap::upsert_sync` sets the value of a key, and hands out the one that it
/// had.
#[verifier::external_body]
fn set_entry(map: &mut scc::HashMap<String, u64>, key: String, value: u64) -> (r: Option<u64>)
    ensures
        entries(*final(map)) == entries(*old(map)).insert(key@, value),
        r == entries(*old(map)).get(key@),
{
    map.upsert_sync(key, value)
}

/// `scc::HashMap::remove_sync` removes a key, and hands out its value.
#[verifier::external_body]
fn remove_entry(map: &mut scc::HashMap<String, u64>, key: &str) -> (r: Option<u64>)
    ensures
        entries(*final(map)) == entries(*old(map)).remove(key@),
        r == entries(*old(map)).get(key@),
{
    map.remove_sync(key).map(|(_, v)| v)
}

/// `scc::HashMap::contains_sync` tells whether there is a value for a key.
#[verifier::external_body]
fn contains_entry(map: &scc::HashMap<String, u64>, key: &str) -> (r: bool)
    ensures
        r == entries(*map).dom().contains(key@),
{
    map.contains_sync(key)
}

/// `scc::HashMap::iter_sync` goes over the entries, each once. The order is not stated:
/// it differs from process to process.
#[verifier::external_body]
fn entry_keys(map: &scc::HashMap<String, u64>) -> (r: Vec<String>)
    ensures
        crate::text::texts(r@).no_duplicates(),
        crate::text::texts(r@).to_set() == entries(*map).dom(),
{
    let mut keys: Vec<String> = Vec::new();
    map.iter_sync(|k, _| { keys.push(k.clone()); true });
    keys
}

// ---------------------------------------------------------------------------
// A registry
// ---------------------------------------------------------------------------

/// Names, each with the number of an item.
pub struct Registry {
    map: scc::HashMap<String, u64>,
    next: u64,
}

/// What a lookup gave: the number of the item, and whether it is new and has to be made.
#[derive(Clone, Copy, Debug, PartialEq, Eq, Structural)]
pub struct Resolved {
    pub item: u64,
    pub created: bool,
}

/// No two names have the same item, and all items are below a number.
pub open spec fn distinct_below(items: Map<Seq<char>, u64>, next: int) -> bool {
    &&& forall|name: Seq<char>| #[trigger] items.dom().contains(name) ==> items[name] < next
    &&& forall|a: Seq<char>, b: Seq<char>| #[trigger]
        items.dom().contains(a) && #[trigger] items.dom().contains(b) && a != b ==> items[a]
            != items[b]
}

/// The items of the names once a name is looked up: it gets the next item where it has
/// none.
pub open spec fn resolved(items: Map<Seq<char>, u64>, name: Seq<char>, next: u64) -> Map<
    Seq<char>,
    u64,
> {
    if items.dom().contains(name) {
        items
    } else {
        items.insert(name, next)
    }
}

/// A lookup always succeeds, and what it gave stays: later lookups, of the same name or of
/// others, give every name that was looked up the item that it has.
pub proof fn lemma_lookups_are_stable(
    items: Map<Seq<char>, u64>,
    first: Seq<char>,
    second: Seq<char>,
    next: u64,
    later: u64,
)
    ensures
        resolved(items, first, next).dom().contains(first),
        resolved(resolved(items, first, next), first, later) == resolved(items, first, next),
        resolved(resolved(items, first, next), second, later)[first] == resolved(
            items,
            first,
            next,
        )[first],
        forall|name: Seq<char>| #[trigger]
            items.dom().contains(name) ==> resolved(items, first, next)[name] == items[name],
{
}

proof fn lemma_new_item(items: Map<Seq<char>, u64>, name: Seq<char>, next: u64)
    requires
        distinct_below(items, next as int),
    ensures
        distinct_below(items.insert(name, next), next + 1),
{
    let more = items.insert(name, next);
    assert forall|n: Seq<char>| #[trigger] more.dom().contains(n) implies more[n] < next + 1 by {
        if n != name {
            assert(items.dom().contains(n));
        }
    }
    assert forall|a: Seq<char>, b: Seq<char>| #[trigger]
        more.dom().contains(a) && #[trigger] more.dom().contains(b) && a != b implies more[a]
        != more[b] by {
        if a != name {
            assert(items.dom().contains(a));
        }
        if b != name {
            assert(items.dom().contains(b));
        }
    }
}

impl View for Registry {
    type V = Map<Seq<char>, u64>;

    closed spec fn view(&self) -> Map<Seq<char>, u64> {
        entries(self.map)
    }
}

impl Registry {
    /// The number that the next new item gets.
    pub closed spec fn next_item(&self) -> u64 {
        self.next
    }

    /// No two names have the same item, and the next item is new.
    pub open spec fn wf(&self) -> bool {
        distinct_below(self@, self.next_item() as int)
    }

    /// A registry without names.
    pub fn new() -> (r: Registry)
        ensures
            r.wf(),
            r@ == no_entries(),
            r.next_item() == 0,
    {
        Registry { map: empty_map(), next: 0 }
    }

    /// Look a name up, and give it a new item where it has none.
    pub fn resolve(&mut self, name: &str) -> (r: Resolved)
        requires
            old(self).wf(),
            old(self).next_item() < u64::MAX,
        ensures
            final(self).wf(),
            final(self)@.dom().contains(name@),
            r.item == final(self)@[name@],
            r.created == !old(self)@.dom().contains(name@),
            final(self)@ == resolved(old(self)@, name@, old(self).next_item()),
            final(self).next_item() == old(self).next_item() + (if r.created {
                1int
            } else {
                0
            }),
    {
        match read_entry(&self.map, name) {
            Some(item) => Resolved { item, created: false },
            None => {
                let item: u64 = self.next;
                let _ = set_entry(&mut self.map, name.to_owned(), item);
                proof {
                    lemma_new_item(old(self)@, name@, item);
                }
                self.next = item + 1;
                Resolved { item, created: true }
            },
        }
    }

    /// The item of a name.
    pub fn find(&self, name: &str) -> (r: Option<u64>)
        ensures
            r == self@.get(name@),
    {
        read_entry(&self.map, name)
    }

    /// Give a name a new item, in place of the one that it may have.
    pub fn register(&mut self, name: &str) -> (r: u64)
        requires
            old(self).wf(),
            old(self).next_item() < u64::MAX,
        ensures
            final(self).wf(),
            r == old(self).next_item(),
            final(self)@ == old(self)@.insert(name@, r),
            final(self).next_item() == old(self).next_item() + 1,
    {
        let item: u64 = self.next;
        let _ = set_entry(&mut self.map, name.to_owned(), item);
        proof {
            lemma_new_item(old(self)@, name@, item);
        }
        self.next = item + 1;
        item
    }

    /// Forget a name, and hand its item out.
    pub fn deregister(&mut self, name: &str) -> (r: Option<u64>)
        requires
            old(self).wf(),
        ensures
            final(self).wf(),
            r == old(self)@.get(name@),
            final(self)@ == old(self)@.remove(name@),
            final(self).next_item() == old(self).next_item(),
    {
        remove_entry(&mut self.map, name)
    }

    /// Whether a name has an item.
    pub fn contains(&self, name: &str) -> (r: bool)
        ensures
            r == self@.dom().contains(name@),
    {
        contains_entry(&self.map, name)
    }

    /// All names, in no particular order.
    pub fn names(&self) -> (r: Vec<String>)
        ensures
            crate::text::texts(r@).no_duplicates(),
            crate::text::texts(r@).to_set() == self@.dom(),
    {
        entry_keys(&self.map)
    }
}

// ---------------------------------------------------------------------------
// Catalogs, schemas and tables
// ---------------------------------------------------------------------------

/// Catalogs, made on demand.
pub struct InMemoryCatalogProviderList {
    pub catalogs: Registry,
}

impl InMemoryCatalogProviderList {
    /// A list without catalogs.
    pub fn new() -> (r: InMemoryCatalogProviderList)
        ensures
            r.catalogs.wf(),
            r.catalogs@ == no_entries(),
            r.catalogs.next_item() == 0,
    {
        InMemoryCatalogProviderList { catalogs: Registry::new() }
    }

    /// Look a catalog up, and make it where there is none.
    pub fn resolve_catalog(&mut self, id: &str) -> (r: Resolved)
        requires
            old(self).catalogs.wf(),
            old(self).catalogs.next_item() < u64::MAX,
        ensures
            final(self).catalogs.wf(),
            final(self).catalogs@ == resolved(
                old(self).catalogs@,
                id@,
                old(self).catalogs.next_item(),
            ),
            r.item == final(self).catalogs@[id@],
            r.created == !old(self).catalogs@.dom().contains(id@),
            final(self).catalogs.next_item() == old(self).catalogs.next_item() + (if r.created {
                1int
            } else {
                0
            }),
    {
        self.catalogs.resolve(id)
    }

    /// Catalogs are made on demand only: one that is offered is handed back and not kept.
    pub fn register_catalog(&self, name: &str, catalog: u64) -> (r: Option<u64>)
        ensures
            r == Some(catalog),
    {
        Some(catalog)
    }

    /// The names of all catalogs, in no particular order.
    pub fn catalog_names(&self) -> (r: Vec<String>)
        ensures
            crate::text::texts(r@).no_duplicates(),
            crate::text::texts(r@).to_set() == self.catalogs@.dom(),
    {
        self.catalogs.names()
    }
}

/// The schemas of a catalog, made on demand.
pub struct InMemoryCatalogProvider {
    pub schemas: Registry,
}

impl InMemoryCatalogProvider {
    /// A catalog without schemas.
    pub fn new() -> (r: InMemoryCatalogProvider)
        ensures
            r.schemas.wf(),
            r.schemas@ == no_entries(),
            r.schemas.next_item() == 0,
    {
        InMemoryCatalogProvider { schemas: Registry::new() }
    }

    /// The names of all schemas, in no particular order.
    pub fn schema_names(&self) -> (r: Vec<String>)
        ensures
            crate::text::texts(r@).no_duplicates(),
            crate::text::texts(r@).to_set() == self.schemas@.dom(),
    {
        self.schemas.names()
    }

    /// Look a schema up, and make it where there is none.
    pub fn schema(&mut self, name: &str) -> (r: Resolved)
        requires
            old(self).schemas.wf(),
            old(self).schemas.next_item() < u64::MAX,
        ensures
            final(self).schemas.wf(),
            final(self).schemas@ == resolved(
                old(self).schemas@,
                name@,
                old(self).schemas.next_item(),
            ),
            r.item == final(self).schemas@[name@],
            r.created == !old(self).schemas@.dom().contains(name@),
            final(self).schemas.next_item() == old(self).schemas.next_item() + (if r.created {
                1int
            } else {
                0
            }),
    {
        self.schemas.resolve(name)
    }
}

/// The tables of a schema.
pub struct InMemorySchemaProvider {
    pub tables: Registry,
}

impl InMemorySchemaProvider {
    /// A schema without tables.
    pub fn new() -> (r: InMemorySchemaProvider)
        ensures
            r.tables.wf(),
            r.tables@ == no_entries(),
            r.tables.next_item() == 0,
    {
        InMemorySchemaProvider { tables: Registry::new() }
    }

    /// The names of all tables, in no particular order.
    pub fn table_names(&self) -> (r: Vec<String>)
        ensures
            crate::text::texts(r@).no_duplicates(),
            crate::text::texts(r@).to_set() == self.tables@.dom(),
    {
        self.tables.names()
    }

    /// The table of a name.
    pub fn table(&self, name: &str) -> (r: Option<u64>)
        ensures
            r == self.tables@.get(name@),
    {
        self.tables.find(name)
    }

    /// Register a table, in place of the one of that name where there is one. The table
    /// that was registered is handed back.
    pub fn register_table(&mut self, name: &str) -> (r: Option<u64>)
        requires
            old(self).tables.wf(),
            old(self).tables.next_item() < u64::MAX,
        ensures
            final(self).tables.wf(),
            r == Some(old(self).tables.next_item()),
            final(self).tables@ == old(self).tables@.insert(
                name@,
                old(self).tables.next_item(),
            ),
            final(self).tables.next_item() == old(self).tables.next_item() + 1,
    {
        Some(self.tables.register(name))
    }

    /// Remove the table of a name, and hand it out.
    pub fn deregister_table(&mut self, name: &str) -> (r: Option<u64>)
        requires
            old(self).tables.wf(),
        ensures
            final(self).tables.wf(),
            r == old(self).tables@.get(name@),
            final(self).tables@ == old(self).tables@.remove(name@),
            final(self).tables.next_item() == old(self).tables.next_item(),
    {
        self.tables.deregister(name)
    }

    /// Whether there is a table of a name.
    pub fn table_exist(&self, name: &str) -> (r: bool)
        ensures
            r == self.tables@.dom().contains(name@),
    {
        self.tables.contains(name)
    }
}

} // verus!
