use vstd::prelude::*;

use crate::base62::{base62_value, decode_base62, decoded_base62, encode_base62, is_base62_encoding};
use crate::error::SnowIdError;
use crate::generator::{
    follows, id_node, id_timestamp, refused_as_regression, GenState, Generator, MAX_NODE,
};
use crate::node::NodeIdentity;

verus! {

/// Most namespace keys a registry holds.
pub const MAX_KEYS: usize = 1024;

/// Key under which a registry files the generator it creates when asked for
/// any generator while empty. Callers' keys are positive, so it never clashes.
pub const DEFAULT_KEY: i32 = 0;

/// Bounded, insertion-ordered table from namespace key to generator, with
/// no heap storage, so that it can live in memory shared between processes.
#[verifier::external_body]
pub struct GeneratorTable {
    map: heapless::index_map::FnvIndexMap<i32, Generator, MAX_KEYS>,
}

/// The keys a table holds, each with its generator's state, in insertion
/// order.
pub uninterp spec fn table_entries(table: GeneratorTable) -> Seq<(i32, GenState)>;

/// Relies on heapless::IndexMap::new: the table starts empty.
#[verifier::external_body]
fn table_new() -> (r: GeneratorTable)
    ensures
        table_entries(r) == Seq::<(i32, GenState)>::empty(),
{
    GeneratorTable { map: heapless::index_map::FnvIndexMap::new() }
}

/// Relies on heapless::IndexMap::len: the number of keys held.
#[verifier::external_body]
fn table_len(table: &GeneratorTable) -> (r: usize)
    ensures
        r == table_entries(*table).len(),
{
    table.map.len()
}

/// Relies on heapless::IndexMap::get_index_of: the position of `key` in
/// insertion order, if it is held.
#[verifier::external_body]
fn table_position(table: &GeneratorTable, key: i32) -> (r: Option<usize>)
    ensures
        match r {
            Some(i) => i < table_entries(*table).len() && table_entries(*table)[i as int].0 == key,
            None => forall|i: int|
                0 <= i < table_entries(*table).len() ==> #[trigger] table_entries(*table)[i].0
                    != key,
        },
{
    table.map.get_index_of(&key)
}

/// Relies on heapless::IndexMap::get_index: the key at position `i` in
/// insertion order.
#[verifier::external_body]
fn table_key(table: &GeneratorTable, i: usize) -> (r: Option<i32>)
    ensures
        r == (if i < table_entries(*table).len() {
            Some(table_entries(*table)[i as int].0)
        } else {
            None
        }),
{
    table.map.get_index(i).map(|(k, _)| *k)
}

/// Relies on heapless::IndexMap::get_index: the generator at position `i`
/// in insertion order.
#[verifier::external_body]
fn table_generator(table: &GeneratorTable, i: usize) -> (r: Option<&Generator>)
    ensures
        match r {
            Some(g) => i < table_entries(*table).len() && g@ == table_entries(*table)[i as int].1,
            None => i >= table_entries(*table).len(),
        },
{
    table.map.get_index(i).map(|(_, g)| g)
}

/// Relies on indexing a heapless::IndexMap by key (`IndexMut`): the
/// generator filed under `key`, which it panics without, so `key` must be
/// held; whatever is done through the reference lands in that entry.
#[verifier::external_body]
fn table_generator_mut(table: &mut GeneratorTable, key: i32) -> (r: &mut Generator)
    requires
        keys_distinct(table_entries(*old(table))),
        has_key(table_entries(*old(table)), key),
    ensures
        (*r)@ == table_entries(*old(table))[position(table_entries(*old(table)), key)].1,
        table_entries(*final(table)) == table_entries(*old(table)).update(
            position(table_entries(*old(table)), key),
            (key, (*final(r))@),
        ),
{
    &mut table.map[&key]
}

/// Relies on heapless::IndexMap::insert: a key not yet held goes last in
/// order while there is room, and is refused, leaving the table as it was,
/// once it holds its capacity.
#[verifier::external_body]
fn table_insert(table: &mut GeneratorTable, key: i32, generator: Generator) -> (r: Result<
    Option<Generator>,
    (i32, Generator),
>)
    requires
        !has_key(table_entries(*old(table)), key),
    ensures
        table_entries(*old(table)).len() < MAX_KEYS ==> {
            &&& r is Ok
            &&& table_entries(*final(table)) == table_entries(*old(table)).push((key, generator@))
        },
        table_entries(*old(table)).len() >= MAX_KEYS ==> {
            &&& r is Err
            &&& table_entries(*final(table)) == table_entries(*old(table))
        },
{
    table.map.insert(key, generator)
}

/// One registry entry as plain values: a key and its generator's state.
pub type Entry = (i32, GenState);

pub open spec fn has_key(v: Seq<Entry>, key: i32) -> bool {
    exists|i: int| 0 <= i < v.len() && #[trigger] v[i].0 == key
}

pub open spec fn keys_distinct(v: Seq<Entry>) -> bool {
    forall|i: int, j: int| 0 <= i < v.len() && 0 <= j < v.len() && i != j ==> v[i].0 != v[j].0
}

/// A registry's contents are valid: keys are distinct, there are at most
/// `MAX_KEYS` of them, and every node identity fits its field.
pub open spec fn view_ok(v: Seq<Entry>) -> bool {
    &&& keys_distinct(v)
    &&& v.len() <= MAX_KEYS
    &&& forall|i: int| 0 <= i < v.len() ==> #[trigger] v[i].1.node <= MAX_NODE
}

/// Position of `key` in `v`, when it is there.
pub open spec fn position(v: Seq<Entry>, key: i32) -> int {
    choose|i: int| 0 <= i < v.len() && #[trigger] v[i].0 == key
}

pub open spec fn keys_of(v: Seq<Entry>) -> Seq<i32> {
    v.map_values(|e: Entry| e.0)
}

/// The contents once `key` has a generator: unchanged when it had one, else
/// with a fresh generator for `node` appended.
pub open spec fn with_key(v: Seq<Entry>, key: i32, node: u16) -> Seq<Entry> {
    if has_key(v, key) {
        v
    } else {
        v.push((key, GenState { node, last: None }))
    }
}

/// Outcome of looking up `key`, creating its generator when absent.
pub open spec fn resolve_post(
    old: Seq<Entry>,
    node: u16,
    key: i32,
    r: Result<usize, SnowIdError>,
    new: Seq<Entry>,
) -> bool {
    &&& view_ok(new)
    &&& if has_key(old, key) {
        r == Ok::<usize, SnowIdError>(position(old, key) as usize) && new == old
    } else if old.len() >= MAX_KEYS {
        r == Err::<usize, SnowIdError>(SnowIdError::CapacityExceeded { key }) && new == old
    } else {
        match r {
            Ok(slot) => slot == old.len() && new == with_key(old, key, node),
            Err(e) => e == (SnowIdError::Construction { node_id: node }) && new == old,
        }
    }
}

/// Outcome of minting an identifier for `key`. A key's first identifier,
/// including one for a key this very call creates, is never refused as a
/// clock regression. Identifiers must fit a signed 64-bit integer: a minted
/// value with its top bit set is refused, though its generator has moved past
/// it.
pub open spec fn generate_post(
    old: Seq<Entry>,
    node: u16,
    key: i32,
    r: Result<u64, SnowIdError>,
    new: Seq<Entry>,
) -> bool {
    let mid = with_key(old, key, node);
    let i = position(mid, key);
    &&& view_ok(new)
    &&& if key <= 0 {
        r == Err::<u64, SnowIdError>(SnowIdError::NonPositiveKey { key }) && new == old
    } else if !has_key(old, key) && old.len() >= MAX_KEYS {
        r == Err::<u64, SnowIdError>(SnowIdError::CapacityExceeded { key }) && new == old
    } else {
        match r {
            Ok(id) => {
                &&& id <= i64::MAX
                &&& has_key(mid, key)
                &&& follows(mid[i].1.last, id)
                &&& id_node(id) == mid[i].1.node
                &&& new == mid.update(i, (key, GenState { node: mid[i].1.node, last: Some(id) }))
            },
            Err(e) => {
                ||| has_key(old, key) && refused_as_regression(mid[i].1.last, e) && new == mid
                ||| match e {
                    SnowIdError::IdOutOfRange { minted } => {
                        &&& minted > i64::MAX
                        &&& has_key(mid, key)
                        &&& follows(mid[i].1.last, minted)
                        &&& id_node(minted) == mid[i].1.node
                        &&& new == mid.update(
                            i,
                            (key, GenState { node: mid[i].1.node, last: Some(minted) }),
                        )
                    },
                    _ => false,
                }
                ||| e == (SnowIdError::Construction { node_id: node }) && !has_key(old, key) && new == old
            },
        }
    }
}

/// Outcome of fetching any generator, creating one under `DEFAULT_KEY` when
/// the registry is empty.
pub open spec fn any_post(
    old: Seq<Entry>,
    node: u16,
    r: Result<usize, SnowIdError>,
    new: Seq<Entry>,
) -> bool {
    &&& view_ok(new)
    &&& if old.len() > 0 {
        r == Ok::<usize, SnowIdError>(0) && new == old
    } else {
        match r {
            Ok(slot) => slot == 0 && new == seq![(DEFAULT_KEY, GenState { node, last: None })],
            Err(e) => e == (SnowIdError::Construction { node_id: node }) && new == old,
        }
    }
}

/// The generators of all namespace keys, created on first use of each key,
/// at most `MAX_KEYS` of them, never evicted.
pub struct Registry {
    table: GeneratorTable,
}

impl View for Registry {
    type V = Seq<Entry>;

    closed spec fn view(&self) -> Seq<Entry> {
        table_entries(self.table)
    }
}

impl Registry {
    pub closed spec fn wf(&self) -> bool {
        view_ok(self@)
    }

    /// An empty registry.
    pub fn new() -> (r: Registry)
        ensures
            r.wf(),
            r@ == Seq::<Entry>::empty(),
    {
        Registry { table: table_new() }
    }

    /// Number of keys that have a generator.
    pub fn snapshot_count(&self) -> (r: usize)
        requires
            self.wf(),
        ensures
            r == self@.len(),
    {
        table_len(&self.table)
    }

    /// The keys that have a generator, in the order they were first used.
    pub fn snapshot_keys(&self) -> (r: Vec<i32>)
        requires
            self.wf(),
        ensures
            r@ == keys_of(self@),
    {
        let n = table_len(&self.table);
        let mut keys: Vec<i32> = Vec::new();
        let mut i: usize = 0;
        while i < n
            invariant
                n == self@.len(),
                i <= n,
                keys@ =~= keys_of(self@).take(i as int),
            decreases n - i,
        {
            match table_key(&self.table, i) {
                Some(k) => {
                    keys.push(k);
                },
                None => {},
            }
            i = i + 1;
            assert(keys@ =~= keys_of(self@).take(i as int));
        }
        assert(keys_of(self@).take(n as int) =~= keys_of(self@));
        keys
    }

    /// Files a fresh generator for `node` under `key`, which is not held yet
    /// and for which there is room.
    fn create(&mut self, node: &NodeIdentity, key: i32) -> (r: Result<usize, SnowIdError>)
        requires
            old(self).wf(),
            node.wf(),
            !has_key(old(self)@, key),
            old(self)@.len() < MAX_KEYS,
        ensures
            final(self).wf(),
            match r {
                Ok(slot) => slot == old(self)@.len() && final(self)@ == with_key(
                    old(self)@,
                    key,
                    node@ as u16,
                ),
                Err(e) => e == (SnowIdError::Construction { node_id: node@ as u16 }) && final(self)@
                    == old(self)@,
            },
    {
        let node_id = node.value();
        let generator = match Generator::new(node_id) {
            Ok(g) => g,
            Err(e) => {
                return Err(e);
            },
        };
        let slot = table_len(&self.table);
        let ghost before = self@;
        match table_insert(&mut self.table, key, generator) {
            Ok(_) => {},
            Err(_) => {
                return Err(SnowIdError::CapacityExceeded { key });
            },
        }
        proof {
            let v = self@;
            assert(v == before.push((key, GenState { node: node_id, last: None })));
            assert forall|i: int, j: int| 0 <= i < v.len() && 0 <= j < v.len() && i != j implies v[i].0
                != v[j].0 by {
                if i < before.len() && j < before.len() {
                } else if i < before.len() {
                    assert(before[i].0 != key);
                } else {
                    assert(before[j].0 != key);
                }
            }
        }
        Ok(slot)
    }

    /// The position of `key`'s generator, creating the generator (for the
    /// node identity `node` holds now) on the key's first use. Refused when
    /// the key is new and the registry already holds `MAX_KEYS` keys.
    pub fn resolve(&mut self, node: &NodeIdentity, key: i32) -> (r: Result<usize, SnowIdError>)
        requires
            old(self).wf(),
            node.wf(),
        ensures
            final(self).wf(),
            resolve_post(old(self)@, node@ as u16, key, r, final(self)@),
    {
        let ghost before = self@;
        match table_position(&self.table, key) {
            Some(slot) => {
                proof {
                    let p = position(before, key);
                    assert(before[p].0 == key);
                    assert(p == slot as int);
                }
                Ok(slot)
            },
            None => {
                if table_len(&self.table) >= MAX_KEYS {
                    return Err(SnowIdError::CapacityExceeded { key });
                }
                self.create(node, key)
            },
        }
    }

    /// The position of some generator, whichever was created first; on an
    /// empty registry a generator for `node` is created under `DEFAULT_KEY`.
    pub fn peek_any(&mut self, node: &NodeIdentity) -> (r: Result<usize, SnowIdError>)
        requires
            old(self).wf(),
            node.wf(),
        ensures
            final(self).wf(),
            any_post(old(self)@, node@ as u16, r, final(self)@),
    {
        if table_len(&self.table) > 0 {
            return Ok(0);
        }
        let r = self.create(node, DEFAULT_KEY);
        proof {
            if r is Ok {
                assert(self@ =~= seq![(DEFAULT_KEY, GenState { node: node@ as u16, last: None })]);
            }
        }
        r
    }

    /// Mints the next identifier for `key`, creating the key's generator on
    /// first use. Keys must be positive.
    pub fn generate(&mut self, node: &NodeIdentity, key: i32) -> (r: Result<u64, SnowIdError>)
        requires
            old(self).wf(),
            node.wf(),
        ensures
            final(self).wf(),
            generate_post(old(self)@, node@ as u16, key, r, final(self)@),
    {
        if key <= 0 {
            return Err(SnowIdError::NonPositiveKey { key });
        }
        let ghost before = self@;
        let slot = match self.resolve(node, key) {
            Ok(slot) => slot,
            Err(e) => {
                return Err(e);
            },
        };
        let ghost mid = self@;
        proof {
            assert(mid == with_key(before, key, node@ as u16));
            assert(mid[slot as int].0 == key);
            let p = position(mid, key);
            assert(mid[p].0 == key);
            assert(p == slot as int);
        }
        let generator = table_generator_mut(&mut self.table, key);
        let minted = generator.generate();
        let ghost minted_spec = minted;
        let r = match minted {
            Ok(id) => {
                if id > i64::MAX as u64 {
                    Err(SnowIdError::IdOutOfRange { minted: id })
                } else {
                    Ok(id)
                }
            },
            Err(e) => Err(e),
        };
        proof {
            let v = self@;
            match minted_spec {
                Ok(id) => {
                    assert(v == mid.update(
                        slot as int,
                        (key, GenState { node: mid[slot as int].1.node, last: Some(id) }),
                    ));
                },
                Err(_) => {
                    assert(v =~= mid);
                },
            }
            assert forall|i: int, j: int| 0 <= i < v.len() && 0 <= j < v.len() && i != j implies v[i].0
                != v[j].0 by {
                assert(v[i].0 == mid[i].0);
                assert(v[j].0 == mid[j].0);
            }
            assert forall|i: int| 0 <= i < v.len() implies #[trigger] v[i].1.node <= MAX_NODE by {
                assert(v[i].1.node == mid[i].1.node);
            }
        }
        r
    }

    /// The timestamp field of `id`, read through the first generator without
    /// changing anything; `None` when the registry is still empty, where
    /// `get_timestamp` would have to create one.
    pub fn lookup_timestamp(&self, id: u64) -> (r: Option<i64>)
        requires
            self.wf(),
        ensures
            r is Some <==> self@.len() > 0,
            r matches Some(t) ==> t == id_timestamp(id),
    {
        match table_generator(&self.table, 0) {
            Some(g) => {
                let t = g.extract_timestamp(id);
                assert(t < 0x400_0000_0000u64) by (bit_vector)
                    requires
                        t == id >> 22u64,
                ;
                Some(t as i64)
            },
            None => None,
        }
    }

    /// Mints the next identifier for `key` in its fixed-width base62 text
    /// form, creating the key's generator on first use.
    pub fn generate_base62(&mut self, node: &NodeIdentity, key: i32) -> (r: Result<
        String,
        SnowIdError,
    >)
        requires
            old(self).wf(),
            node.wf(),
        ensures
            final(self).wf(),
            match r {
                Ok(text) => {
                    &&& is_base62_encoding(text@, base62_value(text@) as u64)
                    &&& generate_post(
                        old(self)@,
                        node@ as u16,
                        key,
                        Ok::<u64, SnowIdError>(base62_value(text@) as u64),
                        final(self)@,
                    )
                },
                Err(e) => generate_post(
                    old(self)@,
                    node@ as u16,
                    key,
                    Err::<u64, SnowIdError>(e),
                    final(self)@,
                ),
            },
    {
        let ghost before = self@;
        match self.generate(node, key) {
            Ok(id) => {
                let text = encode_base62(id);
                assert(generate_post(before, node@ as u16, key, Ok::<u64, SnowIdError>(id), self@)
                    && is_base62_encoding(text@, id));
                Ok(text)
            },
            Err(e) => Err(e),
        }
    }

    /// The timestamp field of `id`, read through any generator (one is
    /// created under `DEFAULT_KEY` when the registry is empty). Negative
    /// identifiers are refused before the registry is touched.
    pub fn get_timestamp(&mut self, node: &NodeIdentity, id: i64) -> (r: Result<i64, SnowIdError>)
        requires
            old(self).wf(),
            node.wf(),
        ensures
            final(self).wf(),
            id < 0 ==> r == Err::<i64, SnowIdError>(SnowIdError::NegativeId { id }) && final(self)@
                == old(self)@,
            id >= 0 ==> match r {
                Ok(t) => t == id_timestamp(id as u64) && any_post(
                    old(self)@,
                    node@ as u16,
                    Ok(0),
                    final(self)@,
                ),
                Err(e) => any_post(old(self)@, node@ as u16, Err(e), final(self)@),
            },
    {
        if id < 0 {
            return Err(SnowIdError::NegativeId { id });
        }
        let slot = match self.peek_any(node) {
            Ok(slot) => slot,
            Err(e) => {
                return Err(e);
            },
        };
        let t = match table_generator(&self.table, slot) {
            Some(g) => g.extract_timestamp(id as u64),
            None => {
                return Err(SnowIdError::Construction { node_id: node.value() });
            },
        };
        assert(t < 0x400_0000_0000u64) by (bit_vector)
            requires
                t == (id as u64) >> 22u64,
        ;
        Ok(t as i64)
    }

    /// The timestamp field of an identifier given in its base62 text form,
    /// read through any generator as `get_timestamp` does.
    pub fn get_timestamp_base62(&mut self, node: &NodeIdentity, text: &str) -> (r: Result<
        i64,
        SnowIdError,
    >)
        requires
            old(self).wf(),
            node.wf(),
        ensures
            final(self).wf(),
            match r {
                Ok(t) => exists|id: u64|
                    {
                        &&& decoded_base62(text@) == Some(id)
                        &&& t == id_timestamp(id)
                        &&& any_post(old(self)@, node@ as u16, Ok(0), final(self)@)
                    },
                Err(e) => {
                    ||| any_post(old(self)@, node@ as u16, Err(e), final(self)@)
                    ||| {
                        &&& e matches SnowIdError::InvalidBase62 { text: t } && t@ == text@
                        &&& decoded_base62(text@) is None
                        &&& any_post(old(self)@, node@ as u16, Ok(0), final(self)@)
                    }
                },
            },
    {
        let slot = match self.peek_any(node) {
            Ok(slot) => slot,
            Err(e) => {
                return Err(e);
            },
        };
        let id = match decode_base62(text) {
            Ok(id) => id,
            Err(e) => {
                return Err(e);
            },
        };
        let t = match table_generator(&self.table, slot) {
            Some(g) => g.extract_timestamp(id),
            None => {
                return Err(SnowIdError::Construction { node_id: node.value() });
            },
        };
        assert(t < 0x400_0000_0000u64) by (bit_vector)
            requires
                t == id >> 22u64,
        ;
        assert(decoded_base62(text@) == Some(id) && t as i64 == id_timestamp(id));
        Ok(t as i64)
    }
}

/// Two successive successful mints for the same key, with nothing minted
/// for that key in between, give strictly increasing identifiers.
pub proof fn successive_ids_increase(
    v0: Seq<Entry>,
    v1: Seq<Entry>,
    v2: Seq<Entry>,
    n1: u16,
    n2: u16,
    key: i32,
    a: u64,
    b: u64,
)
    requires
        generate_post(v0, n1, key, Ok(a), v1),
        generate_post(v1, n2, key, Ok(b), v2),
    ensures
        a < b,
{
    let mid = with_key(v0, key, n1);
    let i = position(mid, key);
    assert(v1[i].0 == key);
    assert(has_key(v1, key));
    let j = position(v1, key);
    assert(v1[j].0 == key);
    assert(i == j);
}

/// A registry holding `MAX_KEYS` keys refuses a further distinct key with
/// `CapacityExceeded` and stays as it was.
pub proof fn full_registry_refuses_new_key(
    v: Seq<Entry>,
    node: u16,
    key: i32,
    r: Result<u64, SnowIdError>,
    new: Seq<Entry>,
)
    requires
        v.len() == MAX_KEYS,
        !has_key(v, key),
        key > 0,
        generate_post(v, node, key, r, new),
    ensures
        r == Err::<u64, SnowIdError>(SnowIdError::CapacityExceeded { key }),
        new == v,
{
}

/// Keys a registry already holds keep being served once it is full: they
/// never meet `CapacityExceeded`, and no key is added or dropped.
pub proof fn full_registry_serves_held_keys(
    v: Seq<Entry>,
    node: u16,
    key: i32,
    r: Result<u64, SnowIdError>,
    new: Seq<Entry>,
)
    requires
        view_ok(v),
        has_key(v, key),
        key > 0,
        generate_post(v, node, key, r, new),
    ensures
        r != Err::<u64, SnowIdError>(SnowIdError::CapacityExceeded { key }),
        keys_of(new) == keys_of(v),
{
    let i = position(v, key);
    assert(v[i].0 == key);
    if r is Ok {
        assert(keys_of(new) =~= keys_of(v));
    }
}

} // verus!
