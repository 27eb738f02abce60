use vstd::prelude::*;
use vstd::std_specs::vec::vec_index_mut;

use crate::errors::RegistryError;
use crate::fast_cell::FastGuardedCell;

verus! {

/// The tag stored with each registry entry, naming the type of the value the
/// entry's cell owns. A lookup must ask for the same tag, so a mismatch is a
/// checked branch and never an unchecked reinterpretation.
#[derive(Clone, Copy, Debug, PartialEq, Eq, Structural)]
pub enum TypeTag {
    U8,
    U32,
}

/// A type-erased guarded cell: a tagged union of the cell types the registry
/// can hold. The registry stores spinning cells, so entries can be locked at
/// any execution level.
pub enum SlotCell {
    U8(FastGuardedCell<u8>),
    U32(FastGuardedCell<u32>),
}

/// The abstract content of one registry entry: the tag together with the
/// value its cell currently owns.
pub enum StoredValue {
    U8(u8),
    U32(u32),
}

impl StoredValue {
    /// The tag of this value.
    pub open spec fn tag(self) -> TypeTag {
        match self {
            StoredValue::U8(_) => TypeTag::U8,
            StoredValue::U32(_) => TypeTag::U32,
        }
    }
}

impl SlotCell {
    /// Whether the erased cell has no guard outstanding.
    pub open spec fn is_unlocked(self) -> bool {
        match self {
            SlotCell::U8(c) => !c.is_locked(),
            SlotCell::U32(c) => !c.is_locked(),
        }
    }

    /// The abstract content of the erased cell.
    pub open spec fn stored(self) -> StoredValue {
        match self {
            SlotCell::U8(c) => StoredValue::U8(c.value()),
            SlotCell::U32(c) => StoredValue::U32(c.value()),
        }
    }

    /// The tag of the value the erased cell owns: the checked branch that
    /// makes a mismatched lookup an error rather than a reinterpretation.
    pub fn tag(&self) -> (t: TypeTag)
        ensures
            t == self.stored().tag(),
    {
        match self {
            SlotCell::U8(_) => TypeTag::U8,
            SlotCell::U32(_) => TypeTag::U32,
        }
    }
}

/// One (key, type tag, owning cell) triple of the registry. The tag lives
/// inside `SlotCell`'s variant.
struct RegistryEntry {
    key: String,
    cell: SlotCell,
}

/// The lifecycle of the registry: `init` moves it from `Uninitialized` to
/// `Initialized`, `destroy` from `Initialized` to `Destroyed`. Registration
/// is valid only while `Initialized`; lookups in `Uninitialized` fail with
/// `NotInitialized`, and lookups after teardown find an empty table.
#[derive(Clone, Copy, Debug, PartialEq, Eq, Structural)]
pub enum RegistryState {
    Uninitialized,
    Initialized,
    Destroyed,
}

/// A process-wide table mapping string keys to type-erased guarded cells,
/// with registration, typed lookup, protected in-place mutation, and full
/// teardown. Keys are opaque UTF-8 strings in a flat namespace and are unique
/// for the table's lifetime.
pub struct Registry {
    phase: RegistryState,
    entries: Vec<RegistryEntry>,
}

/// What `init` does to the abstract registry state: allocate the empty table
/// exactly once. Running it in any other phase fails with
/// `AlreadyInitialized` and changes nothing.
pub open spec fn step_init(
    state: RegistryState,
    table: Map<Seq<char>, StoredValue>,
) -> (RegistryState, Map<Seq<char>, StoredValue>, Result<(), RegistryError>) {
    if state is Uninitialized {
        (RegistryState::Initialized, Map::empty(), Ok(()))
    } else {
        (state, table, Err(RegistryError::AlreadyInitialized))
    }
}

/// What registering `value` under `key` does to the abstract registry state:
/// outside `Initialized` it fails with `NotInitialized`; on a key already
/// present it fails with `DuplicateKey` and the stored value remains what it
/// was; otherwise it binds the key.
pub open spec fn step_register(
    state: RegistryState,
    table: Map<Seq<char>, StoredValue>,
    key: Seq<char>,
    value: StoredValue,
) -> (RegistryState, Map<Seq<char>, StoredValue>, Result<(), RegistryError>) {
    if !(state is Initialized) {
        (state, table, Err(RegistryError::NotInitialized))
    } else if table.contains_key(key) {
        (state, table, Err(RegistryError::DuplicateKey))
    } else {
        (state, table.insert(key, value), Ok(()))
    }
}

/// What a typed lookup of `key` returns from the abstract registry state:
/// `NotInitialized` before `init`, `NotFound` on an absent key — in
/// particular on every key after `destroy`, whose table is empty —
/// `TypeMismatch` when the entry's tag is not the requested one, and
/// otherwise the stored value, whose tag is `want`.
pub open spec fn lookup(
    state: RegistryState,
    table: Map<Seq<char>, StoredValue>,
    key: Seq<char>,
    want: TypeTag,
) -> Result<StoredValue, RegistryError> {
    if state is Uninitialized {
        Err(RegistryError::NotInitialized)
    } else if !table.contains_key(key) {
        Err(RegistryError::NotFound)
    } else if table[key].tag() != want {
        Err(RegistryError::TypeMismatch)
    } else {
        Ok(table[key])
    }
}

/// What `destroy` does to the abstract registry state: from `Initialized` it
/// releases every entry and clears the table, so that every later lookup
/// fails with `NotFound`; in any other phase it fails with `NotInitialized`
/// and changes nothing.
pub open spec fn step_destroy(
    state: RegistryState,
    table: Map<Seq<char>, StoredValue>,
) -> (RegistryState, Map<Seq<char>, StoredValue>, Result<(), RegistryError>) {
    if state is Initialized {
        (RegistryState::Destroyed, Map::empty(), Ok(()))
    } else {
        (state, table, Err(RegistryError::NotInitialized))
    }
}

impl RegistryEntry {
    /// The abstract content of this entry.
    spec fn stored(self) -> StoredValue {
        self.cell.stored()
    }
}

/// The table that a sequence of entries represents: each key bound to the
/// abstract content of its entry.
spec fn table_of(s: Seq<RegistryEntry>) -> Map<Seq<char>, StoredValue>
    decreases s.len(),
{
    if s.len() == 0 {
        Map::empty()
    } else {
        table_of(s.drop_last()).insert(s.last().key@, s.last().stored())
    }
}

/// No two entries share a key.
spec fn keys_unique(s: Seq<RegistryEntry>) -> bool {
    forall|i: int, j: int| 0 <= i < j < s.len() ==> s[i].key@ != s[j].key@
}

/// Every entry's cell is unlocked: no caller can hold a guard on a stored
/// cell across registry operations, because the operations acquire and
/// release internally.
spec fn cells_unlocked(s: Seq<RegistryEntry>) -> bool {
    forall|i: int| 0 <= i < s.len() ==> #[trigger] s[i].cell.is_unlocked()
}

/// A key is in the represented table exactly when some entry carries it.
proof fn lemma_table_of_contains(s: Seq<RegistryEntry>, k: Seq<char>)
    ensures
        table_of(s).contains_key(k) <==> exists|i: int| 0 <= i < s.len() && s[i].key@ == k,
    decreases s.len(),
{
    if s.len() > 0 {
        lemma_table_of_contains(s.drop_last(), k);
        if s.last().key@ == k {
            assert(s[s.len() - 1].key@ == k);
        } else {
            if table_of(s).contains_key(k) {
                let i = choose|i: int| 0 <= i < s.drop_last().len() && s.drop_last()[i].key@ == k;
                assert(s[i].key@ == k);
            }
            if exists|i: int| 0 <= i < s.len() && s[i].key@ == k {
                let i = choose|i: int| 0 <= i < s.len() && s[i].key@ == k;
                assert(s.drop_last()[i].key@ == k);
            }
        }
    }
}

/// With unique keys, the table binds each entry's key to that entry's
/// content.
proof fn lemma_table_of_at(s: Seq<RegistryEntry>, i: int)
    requires
        keys_unique(s),
        0 <= i < s.len(),
    ensures
        table_of(s).contains_key(s[i].key@),
        table_of(s)[s[i].key@] == s[i].stored(),
    decreases s.len(),
{
    if i < s.len() - 1 {
        lemma_table_of_at(s.drop_last(), i);
        assert(s.drop_last()[i] == s[i]);
        assert(s[i].key@ != s.last().key@);
    }
}

/// Appending an entry with a fresh key inserts its binding.
proof fn lemma_table_of_push(s: Seq<RegistryEntry>, e: RegistryEntry)
    ensures
        table_of(s.push(e)) == table_of(s).insert(e.key@, e.stored()),
{
    assert(s.push(e).drop_last() =~= s);
    assert(s.push(e).last() == e);
}

/// Replacing the entry at `i` by one with the same key overwrites that key's
/// binding and keeps the keys unique.
proof fn lemma_table_of_update(s: Seq<RegistryEntry>, i: int, e: RegistryEntry)
    requires
        keys_unique(s),
        0 <= i < s.len(),
        e.key@ == s[i].key@,
    ensures
        table_of(s.update(i, e)) =~= table_of(s).insert(e.key@, e.stored()),
        keys_unique(s.update(i, e)),
    decreases s.len(),
{
    let t = s.update(i, e);
    assert forall|x: int, y: int| 0 <= x < y < t.len() implies t[x].key@ != t[y].key@ by {
        assert(t[x].key@ == s[x].key@ && t[y].key@ == s[y].key@);
    }
    if i == s.len() - 1 {
        assert(t.drop_last() =~= s.drop_last());
        assert(t.last() == e);
    } else {
        lemma_table_of_update(s.drop_last(), i, e);
        assert(t.drop_last() =~= s.drop_last().update(i, e));
        assert(t.last() == s.last());
        assert(s[i].key@ != s.last().key@);
    }
}

impl Registry {
    /// Where the registry stands in its lifecycle.
    pub closed spec fn state(self) -> RegistryState {
        self.phase
    }

    /// The table the registry currently represents: each registered key bound
    /// to the tagged value its cell owns.
    pub closed spec fn table(self) -> Map<Seq<char>, StoredValue> {
        table_of(self.entries@)
    }

    /// Internal well-formedness: keys are unique, no stored cell is locked,
    /// and outside `Initialized` the table is empty. Constructors establish
    /// it and every operation preserves it.
    pub closed spec fn wf(self) -> bool {
        &&& keys_unique(self.entries@)
        &&& cells_unlocked(self.entries@)
        &&& !(self.phase is Initialized) ==> self.entries@.len() == 0
    }

    /// A registry that has not been initialized yet: no table exists, and
    /// every registration or lookup fails with `NotInitialized`.
    pub fn new() -> (r: Registry)
        ensures
            r.wf(),
            r.state() is Uninitialized,
            r.table() == Map::<Seq<char>, StoredValue>::empty(),
    {
        Registry { phase: RegistryState::Uninitialized, entries: Vec::new() }
    }

    /// Allocate the empty table. Must run exactly once, before any other
    /// registry call; running it twice fails with `AlreadyInitialized`.
    pub fn init(&mut self) -> (r: Result<(), RegistryError>)
        requires
            old(self).wf(),
        ensures
            final(self).wf(),
            (final(self).state(), final(self).table(), r) == step_init(
                old(self).state(),
                old(self).table(),
            ),
    {
        match self.phase {
            RegistryState::Uninitialized => {
                self.phase = RegistryState::Initialized;
                Ok(())
            },
            _ => Err(RegistryError::AlreadyInitialized),
        }
    }

    /// Release every entry, dropping each cell and its contained value, and
    /// clear the table: every later lookup fails with `NotFound`. Valid once,
    /// at teardown; in any other phase it fails with `NotInitialized`. No
    /// guard obtained from this registry may be outstanding — the stored
    /// cells never expose guards across calls, so none can be.
    pub fn destroy(&mut self) -> (r: Result<(), RegistryError>)
        requires
            old(self).wf(),
        ensures
            final(self).wf(),
            (final(self).state(), final(self).table(), r) == step_destroy(
                old(self).state(),
                old(self).table(),
            ),
    {
        match self.phase {
            RegistryState::Initialized => {
                self.entries.clear();
                self.phase = RegistryState::Destroyed;
                Ok(())
            },
            _ => Err(RegistryError::NotInitialized),
        }
    }

    /// Create a new spinning cell owning `initial` and insert it under `key`.
    /// Fails with `NotInitialized` outside the `Initialized` phase and with
    /// `DuplicateKey` when the key is already bound — in that case the stored
    /// value remains what it was. Only one registration for a given key can
    /// ever succeed.
    pub fn register_u32(&mut self, key: &str, initial: u32) -> (r: Result<(), RegistryError>)
        requires
            old(self).wf(),
        ensures
            final(self).wf(),
            final(self).state() == old(self).state(),
            (final(self).state(), final(self).table(), r) == step_register(
                old(self).state(),
                old(self).table(),
                key@,
                StoredValue::U32(initial),
            ),
    {
        if !matches!(self.phase, RegistryState::Initialized) {
            return Err(RegistryError::NotInitialized);
        }
        match self.find_index(key) {
            Some(_) => {
                proof {
                    lemma_table_of_contains(self.entries@, key@);
                }
                Err(RegistryError::DuplicateKey)
            },
            None => {
                proof {
                    lemma_table_of_contains(self.entries@, key@);
                }
                let cell = match FastGuardedCell::new(initial) {
                    Ok(c) => c,
                    Err(_) => {
                        proof {
                            assert(false);
                        }
                        vstd::pervasive::unreached()
                    },
                };
                let entry = RegistryEntry { key: key.to_owned(), cell: SlotCell::U32(cell) };
                proof {
                    lemma_table_of_push(self.entries@, entry);
                }
                self.entries.push(entry);
                Ok(())
            },
        }
    }

    /// Create a new spinning cell owning `initial` and insert it under `key`;
    /// the same contract as the 32-bit registration, for 8-bit values.
    pub fn register_u8(&mut self, key: &str, initial: u8) -> (r: Result<(), RegistryError>)
        requires
            old(self).wf(),
        ensures
            final(self).wf(),
            final(self).state() == old(self).state(),
            (final(self).state(), final(self).table(), r) == step_register(
                old(self).state(),
                old(self).table(),
                key@,
                StoredValue::U8(initial),
            ),
    {
        if !matches!(self.phase, RegistryState::Initialized) {
            return Err(RegistryError::NotInitialized);
        }
        match self.find_index(key) {
            Some(_) => {
                proof {
                    lemma_table_of_contains(self.entries@, key@);
                }
                Err(RegistryError::DuplicateKey)
            },
            None => {
                proof {
                    lemma_table_of_contains(self.entries@, key@);
                }
                let cell = match FastGuardedCell::new(initial) {
                    Ok(c) => c,
                    Err(_) => {
                        proof {
                            assert(false);
                        }
                        vstd::pervasive::unreached()
                    },
                };
                let entry = RegistryEntry { key: key.to_owned(), cell: SlotCell::U8(cell) };
                proof {
                    lemma_table_of_push(self.entries@, entry);
                }
                self.entries.push(entry);
                Ok(())
            },
        }
    }

    /// Look `key` up, check that it is bound to a 32-bit value, and return a
    /// copy of that value, read under the entry's lock. Fails with
    /// `NotInitialized` before `init`, `NotFound` on an absent key (so on
    /// every key after `destroy`), and `TypeMismatch` when the entry holds a
    /// value of another type.
    pub fn get_u32(&self, key: &str) -> (r: Result<u32, RegistryError>)
        requires
            self.wf(),
        ensures
            match lookup(self.state(), self.table(), key@, TypeTag::U32) {
                Ok(sv) => sv matches StoredValue::U32(v) && r == Ok::<u32, RegistryError>(v),
                Err(e) => r == Err::<u32, RegistryError>(e),
            },
    {
        if matches!(self.phase, RegistryState::Uninitialized) {
            return Err(RegistryError::NotInitialized);
        }
        match self.find_index(key) {
            None => {
                proof {
                    lemma_table_of_contains(self.entries@, key@);
                }
                Err(RegistryError::NotFound)
            },
            Some(i) => {
                proof {
                    lemma_table_of_at(self.entries@, i as int);
                    assert(self.entries@[i as int].cell.is_unlocked());
                }
                match &self.entries[i].cell {
                    SlotCell::U32(c) => Ok(c.to_owned()),
                    SlotCell::U8(_) => Err(RegistryError::TypeMismatch),
                }
            },
        }
    }

    /// Look `key` up, check that it is bound to an 8-bit value, and return a
    /// copy of that value; the same contract as the 32-bit lookup.
    pub fn get_u8(&self, key: &str) -> (r: Result<u8, RegistryError>)
        requires
            self.wf(),
        ensures
            match lookup(self.state(), self.table(), key@, TypeTag::U8) {
                Ok(sv) => sv matches StoredValue::U8(v) && r == Ok::<u8, RegistryError>(v),
                Err(e) => r == Err::<u8, RegistryError>(e),
            },
    {
        if matches!(self.phase, RegistryState::Uninitialized) {
            return Err(RegistryError::NotInitialized);
        }
        match self.find_index(key) {
            None => {
                proof {
                    lemma_table_of_contains(self.entries@, key@);
                }
                Err(RegistryError::NotFound)
            },
            Some(i) => {
                proof {
                    lemma_table_of_at(self.entries@, i as int);
                    assert(self.entries@[i as int].cell.is_unlocked());
                }
                match &self.entries[i].cell {
                    SlotCell::U8(c) => Ok(c.to_owned()),
                    SlotCell::U32(_) => Err(RegistryError::TypeMismatch),
                }
            },
        }
    }

    /// Look `key` up, check that it is bound to a 32-bit value, and add
    /// `amount` to it under the entry's lock: acquire, read, write the sum,
    /// release. The errors are those of the 32-bit lookup, and on any error
    /// the registry is unchanged. The protected mutation is the one
    /// increment-style update the correctness harness performs through the
    /// registry.
    pub fn increment_u32(&mut self, key: &str, amount: u32) -> (r: Result<(), RegistryError>)
        requires
            old(self).wf(),
            lookup(old(self).state(), old(self).table(), key@, TypeTag::U32) matches Ok(sv)
                ==> sv matches StoredValue::U32(v) && v + amount <= u32::MAX,
        ensures
            final(self).wf(),
            final(self).state() == old(self).state(),
            match lookup(old(self).state(), old(self).table(), key@, TypeTag::U32) {
                Ok(sv) => sv matches StoredValue::U32(v) && r == Ok::<(), RegistryError>(())
                    && final(self).table() == old(self).table().insert(
                    key@,
                    StoredValue::U32((v + amount) as u32),
                ),
                Err(e) => r == Err::<(), RegistryError>(e) && *final(self) == *old(self),
            },
    {
        if matches!(self.phase, RegistryState::Uninitialized) {
            return Err(RegistryError::NotInitialized);
        }
        match self.find_index(key) {
            None => {
                proof {
                    lemma_table_of_contains(self.entries@, key@);
                }
                Err(RegistryError::NotFound)
            },
            Some(i) => {
                proof {
                    lemma_table_of_at(self.entries@, i as int);
                }
                if self.entries[i].cell.tag() != TypeTag::U32 {
                    return Err(RegistryError::TypeMismatch);
                }
                let ghost old_entries = self.entries@;
                proof {
                    assert(old_entries[i as int].cell.is_unlocked());
                }
                let entry = vec_index_mut(&mut self.entries, i);
                match &mut entry.cell {
                    SlotCell::U32(c) => {
                        let mut guard = match c.lock() {
                            Ok(g) => g,
                            Err(_) => {
                                proof {
                                    assert(false);
                                }
                                vstd::pervasive::unreached()
                            },
                        };
                        let v = *guard.get();
                        guard.set(v + amount);
                        c.unlock(guard);
                    },
                    SlotCell::U8(_) => {
                        proof {
                            assert(false);
                        }
                    },
                }
                proof {
                    lemma_table_of_update(old_entries, i as int, self.entries@[i as int]);
                    assert(self.entries@ =~= old_entries.update(i as int, self.entries@[i as int]));
                }
                Ok(())
            },
        }
    }

    /// The index of the entry carrying `key`, if any.
    fn find_index(&self, key: &str) -> (r: Option<usize>)
        ensures
            match r {
                Some(i) => i < self.entries@.len() && self.entries@[i as int].key@ == key@,
                None => forall|i: int|
                    0 <= i < self.entries@.len() ==> self.entries@[i as int].key@ != key@,
            },
    {
        let wanted: String = key.to_owned();
        let n = self.entries.len();
        let mut j: usize = 0;
        while j < n
            invariant
                n == self.entries@.len(),
                j <= n,
                wanted@ == key@,
                forall|i: int| 0 <= i < j ==> self.entries@[i].key@ != key@,
            decreases n - j,
        {
            if self.entries[j].key == wanted {
                return Some(j);
            }
            j += 1;
        }
        None
    }
}

/// Registry uniqueness: when registering `v` under a key succeeds, a second
/// registration under the same key fails with `DuplicateKey`, changes
/// nothing, and the value stored under the key remains `v`.
pub proof fn lemma_registry_uniqueness(
    state: RegistryState,
    table: Map<Seq<char>, StoredValue>,
    key: Seq<char>,
    v: StoredValue,
    v2: StoredValue,
)
    requires
        step_register(state, table, key, v).2 is Ok,
    ensures
        ({
            let (s1, t1, r1) = step_register(state, table, key, v);
            let (s2, t2, r2) = step_register(s1, t1, key, v2);
            &&& r2 == Err::<(), RegistryError>(RegistryError::DuplicateKey)
            &&& s2 == s1
            &&& t2 == t1
            &&& t2[key] == v
        }),
{
}

/// Type safety: after registering a 32-bit value under a key, looking the key
/// up at the 8-bit tag fails with `TypeMismatch`.
pub proof fn lemma_registry_type_safety(
    state: RegistryState,
    table: Map<Seq<char>, StoredValue>,
    key: Seq<char>,
    v: u32,
)
    requires
        step_register(state, table, key, StoredValue::U32(v)).2 is Ok,
    ensures
        ({
            let (s1, t1, r1) = step_register(state, table, key, StoredValue::U32(v));
            lookup(s1, t1, key, TypeTag::U8) == Err::<StoredValue, RegistryError>(
                RegistryError::TypeMismatch,
            )
        }),
{
}

/// Missing key: in an initialized registry, looking up a key that was never
/// registered fails with `NotFound`, at either tag.
pub proof fn lemma_registry_missing_key(
    state: RegistryState,
    table: Map<Seq<char>, StoredValue>,
    key: Seq<char>,
    want: TypeTag,
)
    requires
        state is Initialized,
        !table.contains_key(key),
    ensures
        lookup(state, table, key, want) == Err::<StoredValue, RegistryError>(
            RegistryError::NotFound,
        ),
{
}

/// Teardown: after a successful `destroy`, every lookup — in particular of a
/// key that was registered before — fails with `NotFound`.
pub proof fn lemma_registry_teardown(
    state: RegistryState,
    table: Map<Seq<char>, StoredValue>,
    key: Seq<char>,
    want: TypeTag,
)
    requires
        state is Initialized,
    ensures
        ({
            let (s1, t1, r1) = step_destroy(state, table);
            r1 is Ok && lookup(s1, t1, key, want) == Err::<StoredValue, RegistryError>(
                RegistryError::NotFound,
            )
        }),
{
}

} // verus!
