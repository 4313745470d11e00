//! The command registry: a map from command names to response texts, and the
//! lock that lets many readers or one writer reach it.

use std::sync::LockResult;
use std::sync::PoisonError;
use std::sync::RwLock;
use std::sync::RwLockReadGuard;
use std::sync::RwLockWriteGuard;
use vstd::hash_map::StringHashMap;
use vstd::prelude::*;

verus! {

/// The entries of a registry: each name has at most one response.
pub struct CommandTable {
    entries: StringHashMap<String>,
}

impl View for CommandTable {
    type V = Map<Seq<char>, Seq<char>>;

    closed spec fn view(&self) -> Map<Seq<char>, Seq<char>> {
        self.entries@.map_values(|response: String| response@)
    }
}

impl CommandTable {
    /// A table holds finitely many entries.
    #[verifier::type_invariant]
    spec fn is_finite(&self) -> bool {
        self.entries@.dom().finite()
    }

    /// A table without entries.
    pub fn new() -> (table: CommandTable)
        ensures
            table@ == Map::<Seq<char>, Seq<char>>::empty(),
            table@.dom().finite(),
    {
        let table = CommandTable { entries: StringHashMap::new() };
        assert(table@ =~= Map::<Seq<char>, Seq<char>>::empty());
        table
    }

    /// Stores `response` under `name`, in place of what stood there.
    pub fn insert(&mut self, name: String, response: String)
        ensures
            final(self)@ == old(self)@.insert(name@, response@),
            final(self)@.dom().finite(),
    {
        proof {
            use_type_invariant(&*self);
        }
        // The map is taken out while it grows and put back afterwards, so
        // that the table is finite at every moment.
        let mut entries: StringHashMap<String> = StringHashMap::new();
        std::mem::swap(&mut self.entries, &mut entries);
        entries.insert(name, response);
        std::mem::swap(&mut self.entries, &mut entries);
        assert(self@ =~= old(self)@.insert(name@, response@));
        assert(self@.dom() =~= self.entries@.dom());
    }

    /// A copy of the response stored under `name`. The table that was looked
    /// into holds finitely many entries, as every table does.
    pub fn lookup(&self, name: &str) -> (response: Option<String>)
        ensures
            response.deep_view() == self@.get(name@),
            self@.dom().finite(),
    {
        proof {
            use_type_invariant(self);
        }
        assert(self@.dom() =~= self.entries@.dom());
        match self.entries.get(name) {
            Some(stored) => Some(stored.clone()),
            None => None,
        }
    }
}

/// The table that the insertions `ops`, made in order, leave of `table`. Each
/// insertion is a name and a response.
pub open spec fn after_inserts(
    table: Map<Seq<char>, Seq<char>>,
    ops: Seq<(Seq<char>, Seq<char>)>,
) -> Map<Seq<char>, Seq<char>>
    decreases ops.len(),
{
    if ops.len() == 0 {
        table
    } else {
        after_inserts(table, ops.drop_last()).insert(ops.last().0, ops.last().1)
    }
}

/// Last write wins: after two insertions under one name, a lookup of that
/// name gives the second response.
pub proof fn lemma_last_write_wins(
    table: Map<Seq<char>, Seq<char>>,
    name: Seq<char>,
    first: Seq<char>,
    second: Seq<char>,
)
    ensures
        table.insert(name, first).insert(name, second).get(name) == Some(second),
{
}

/// After any insertions, a lookup of a name gives the response of the last
/// insertion made under it.
pub proof fn lemma_last_insert_wins(
    table: Map<Seq<char>, Seq<char>>,
    ops: Seq<(Seq<char>, Seq<char>)>,
    k: int,
)
    requires
        0 <= k < ops.len(),
        forall|j: int| k < j < ops.len() ==> (#[trigger] ops[j]).0 != ops[k].0,
    ensures
        after_inserts(table, ops).get(ops[k].0) == Some(ops[k].1),
    decreases ops.len(),
{
    if k < ops.len() - 1 {
        let earlier = ops.drop_last();
        assert(earlier[k] == ops[k]);
        assert forall|j: int| k < j < earlier.len() implies (#[trigger] earlier[j]).0
            != earlier[k].0 by {
            assert(earlier[j] == ops[j]);
        }
        lemma_last_insert_wins(table, earlier, k);
    }
}

/// Insertions under other names leave a name as it was: a name that was never
/// inserted is not found.
pub proof fn lemma_never_inserted(
    table: Map<Seq<char>, Seq<char>>,
    ops: Seq<(Seq<char>, Seq<char>)>,
    name: Seq<char>,
)
    requires
        forall|j: int| 0 <= j < ops.len() ==> (#[trigger] ops[j]).0 != name,
    ensures
        after_inserts(table, ops).get(name) == table.get(name),
        after_inserts(Map::empty(), ops).get(name) is None,
    decreases ops.len(),
{
    if ops.len() > 0 {
        let earlier = ops.drop_last();
        assert forall|j: int| 0 <= j < earlier.len() implies (#[trigger] earlier[j]).0 != name by {
            assert(earlier[j] == ops[j]);
        }
        lemma_never_inserted(table, earlier, name);
        lemma_never_inserted(Map::empty(), earlier, name);
    }
}

/// A lookup finds whole responses only: what the table holds under a name
/// after any insertions is a response that one of them stored under that
/// name, as it was given.
pub proof fn lemma_lookup_finds_an_inserted_response(
    ops: Seq<(Seq<char>, Seq<char>)>,
    name: Seq<char>,
)
    ensures
        after_inserts(Map::empty(), ops).get(name) matches Some(response) ==> exists|k: int|
            0 <= k < ops.len() && #[trigger] ops[k] == (name, response),
    decreases ops.len(),
{
    if ops.len() > 0 {
        let earlier = ops.drop_last();
        if ops.last().0 == name {
            assert(ops[ops.len() - 1] == (name, ops.last().1));
        } else {
            lemma_lookup_finds_an_inserted_response(earlier, name);
            let found = after_inserts(Map::empty(), ops).get(name);
            if found is Some {
                let response = found->0;
                let k = choose|k: int|
                    0 <= k < earlier.len() && #[trigger] earlier[k] == (name, response);
                assert(ops[k] == earlier[k]);
            }
        }
    }
}

/// Why the registry could not be changed.
#[derive(Clone, Copy, Debug, PartialEq, Eq)]
pub enum RegistryError {
    /// The lock is poisoned: a writer failed while it held it.
    LockUnavailable,
}

impl RegistryError {
    /// The description of the error.
    pub open spec fn message_text(self) -> Seq<char> {
        "Failed to lock commands mutex"@
    }

    /// The description of the error.
    pub fn message(&self) -> (text: String)
        ensures
            text@ == self.message_text(),
    {
        "Failed to lock commands mutex".to_owned()
    }
}

/// `std::sync::RwLock`: Verus sees nothing of what it guards.
#[verifier::external_type_specification]
#[verifier::external_body]
#[verifier::reject_recursive_types(T)]
pub struct ExRwLock<T: ?Sized>(RwLock<T>);

/// `std::sync::RwLockReadGuard`, the shared access that `RwLock::read` gives.
#[verifier::external_type_specification]
#[verifier::external_body]
#[verifier::reject_recursive_types(T)]
pub struct ExRwLockReadGuard<'a, T: ?Sized>(RwLockReadGuard<'a, T>);

/// `std::sync::RwLockWriteGuard`, the exclusive access that `RwLock::write`
/// gives.
#[verifier::external_type_specification]
#[verifier::external_body]
#[verifier::reject_recursive_types(T)]
pub struct ExRwLockWriteGuard<'a, T: ?Sized + 'a>(RwLockWriteGuard<'a, T>);

/// `std::sync::PoisonError`, which a poisoned lock hands out with the guard
/// in it.
#[verifier::external_type_specification]
#[verifier::external_body]
#[verifier::reject_recursive_types(T)]
pub struct ExPoisonError<T>(PoisonError<T>);

/// The entries of the table that a lock was made around.
pub uninterp spec fn made_with(lock: RwLock<CommandTable>) -> Map<Seq<char>, Seq<char>>;

/// That `access` is an answer of `lock` to a request to read. Which answer a
/// lock gives, and what stands behind it, depends on the other holders.
pub uninterp spec fn read_from(
    access: LockResult<RwLockReadGuard<'_, CommandTable>>,
    lock: RwLock<CommandTable>,
) -> bool;

/// That `access` is an answer of `lock` to a request to write.
pub uninterp spec fn written_from(
    access: LockResult<RwLockWriteGuard<'_, CommandTable>>,
    lock: RwLock<CommandTable>,
) -> bool;

/// The entries of the table that a read guard shows. While the guard is held
/// nothing changes them.
pub uninterp spec fn shown(guard: RwLockReadGuard<'_, CommandTable>) -> Map<Seq<char>, Seq<char>>;

/// The entries of the table that the read guard of a poisoned lock shows.
pub uninterp spec fn shown_poisoned(
    error: PoisonError<RwLockReadGuard<'_, CommandTable>>,
) -> Map<Seq<char>, Seq<char>>;

/// The entries of the table that a write guard gives access to. While the
/// guard is held nothing but the guard changes them.
pub uninterp spec fn held(guard: RwLockWriteGuard<'_, CommandTable>) -> Map<Seq<char>, Seq<char>>;

/// `RwLock::new`: a lock around `table`.
#[verifier::external_body]
fn lock_around(table: CommandTable) -> (lock: RwLock<CommandTable>)
    ensures
        made_with(lock) == table@,
{
    RwLock::new(table)
}

/// `RwLock::read`: blocks until no writer holds the lock and gives read
/// access, inside an error where the lock is poisoned. Nothing is claimed of
/// which it is, nor of what the access shows. The call may panic or never
/// return where the calling thread holds the lock already: `lookup` is the one
/// caller, and gives the access back before it returns.
#[verifier::external_body]
fn read_access<'a>(lock: &'a RwLock<CommandTable>) -> (access: LockResult<
    RwLockReadGuard<'a, CommandTable>,
>)
    ensures
        read_from(access, *lock),
{
    lock.read()
}

/// `RwLock::write`: blocks until nothing else holds the lock and gives write
/// access, inside an error where the lock is poisoned. Nothing is claimed of
/// which it is, nor of what the access holds. The call may panic or never
/// return where the calling thread holds the lock already: `insert` is the
/// one caller, and gives the access back before it returns.
#[verifier::external_body]
fn write_access<'a>(lock: &'a RwLock<CommandTable>) -> (access: LockResult<
    RwLockWriteGuard<'a, CommandTable>,
>)
    ensures
        written_from(access, *lock),
{
    lock.write()
}

/// `PoisonError::into_inner`: the guard that a poisoned lock gave. It shows
/// what the error was said to show.
#[verifier::external_body]
fn recovered<'a>(error: PoisonError<RwLockReadGuard<'a, CommandTable>>) -> (guard: RwLockReadGuard<
    'a,
    CommandTable,
>)
    ensures
        shown(guard) == shown_poisoned(error),
{
    error.into_inner()
}

/// `Deref::deref` of a read guard: the table behind the guard.
#[verifier::external_body]
fn table_behind<'a, 'b>(guard: &'b RwLockReadGuard<'a, CommandTable>) -> (table: &'b CommandTable)
    ensures
        table@ == shown(*guard),
{
    &**guard
}

/// `DerefMut::deref_mut` of a write guard: the table behind the guard. The
/// table that it hands out holds what the guard holds, and what the caller
/// leaves in it is what the guard holds from then on.
#[verifier::external_body]
fn table_of<'a, 'b>(guard: &'b mut RwLockWriteGuard<'a, CommandTable>) -> (table:
    &'b mut CommandTable)
    ensures
        table@ == held(*old(guard)),
        held(*final(guard)) == final(table)@,
{
    &mut **guard
}

/// What read access shows, whether the lock is poisoned or not: every
/// insertion stores a whole entry, so the table behind a poisoned lock is
/// whole.
pub open spec fn readable(access: LockResult<RwLockReadGuard<'_, CommandTable>>) -> Map<
    Seq<char>,
    Seq<char>,
> {
    match access {
        Ok(guard) => shown(guard),
        Err(error) => shown_poisoned(error),
    }
}

/// What `store` makes of the access that a lock gave: with write access, the
/// access handed back holds the entry in place of what stood under the name;
/// without, the error is `LockUnavailable`.
pub open spec fn stored(
    access: LockResult<RwLockWriteGuard<'_, CommandTable>>,
    name: Seq<char>,
    response: Seq<char>,
    outcome: Result<RwLockWriteGuard<'_, CommandTable>, RegistryError>,
) -> bool {
    match access {
        Ok(guard) => outcome is Ok && held(outcome->Ok_0) == held(guard).insert(name, response),
        Err(_) => outcome is Err && outcome->Err_0 == RegistryError::LockUnavailable,
    }
}

/// A copy of the response that read access shows under `name`, or `None`
/// where it shows none. The access is given back.
pub fn find<'a>(access: LockResult<RwLockReadGuard<'a, CommandTable>>, name: &str) -> (response:
    Option<String>)
    ensures
        response.deep_view() == readable(access).get(name@),
{
    let guard = match access {
        Ok(guard) => guard,
        Err(error) => recovered(error),
    };
    table_behind(&guard).lookup(name)
}

/// Stores `response` under `name` through the write access that a lock gave,
/// in place of what stood there, and hands the access back. Where the lock
/// gave none, because it is poisoned, nothing is stored and the error is
/// `LockUnavailable`: an insertion succeeds exactly when the lock gives write
/// access.
pub fn store<'a>(
    access: LockResult<RwLockWriteGuard<'a, CommandTable>>,
    name: String,
    response: String,
) -> (outcome: Result<RwLockWriteGuard<'a, CommandTable>, RegistryError>)
    ensures
        stored(access, name@, response@, outcome),
        outcome is Ok <==> access is Ok,
{
    match access {
        Ok(mut guard) => {
            table_of(&mut guard).insert(name, response);
            Ok(guard)
        },
        Err(_) => Err(RegistryError::LockUnavailable),
    }
}

/// A command table behind a readers-writer lock. Lookups share the lock with
/// each other; an insertion holds it alone, so a lookup sees the table before
/// the insertion or after it, never in between.
///
/// What a call finds depends on the other holders of the registry. So the
/// contract of a call speaks of the access that the lock gave to that call:
/// `find` and `store` say what is made of it.
pub struct CommandRegistry {
    table: RwLock<CommandTable>,
}

impl CommandRegistry {
    /// The entries that the registry started with.
    pub closed spec fn first_entries(&self) -> Map<Seq<char>, Seq<char>> {
        made_with(self.table)
    }

    /// That `access` is an answer of the lock of this registry to a request
    /// to read.
    pub closed spec fn reads(&self, access: LockResult<RwLockReadGuard<'_, CommandTable>>) -> bool {
        read_from(access, self.table)
    }

    /// That `access` is an answer of the lock of this registry to a request
    /// to write.
    pub closed spec fn writes(
        &self,
        access: LockResult<RwLockWriteGuard<'_, CommandTable>>,
    ) -> bool {
        written_from(access, self.table)
    }

    /// That `found` is what a lookup of `name` returns: what some read access
    /// to this registry shows under the name.
    pub open spec fn looked_up<'a>(&'a self, name: Seq<char>, found: Option<Seq<char>>) -> bool {
        exists|access: LockResult<RwLockReadGuard<'a, CommandTable>>|
            self.reads(access) && found == (#[trigger] readable(access)).get(name)
    }

    /// That `outcome` is what an insertion returns: some answer of this
    /// registry to a request to write, and what `store` makes of it. The
    /// insertion succeeds exactly when the lock gives write access, and then
    /// the access holds the entry.
    pub open spec fn inserted<'a>(
        &'a self,
        name: Seq<char>,
        response: Seq<char>,
        outcome: Result<(), RegistryError>,
    ) -> bool {
        exists|
            access: LockResult<RwLockWriteGuard<'a, CommandTable>>,
            kept: Result<RwLockWriteGuard<'a, CommandTable>, RegistryError>,
        |
            self.writes(access) && #[trigger] stored(access, name, response, kept) && (outcome is Ok
                <==> access is Ok)
    }

    /// A registry without entries.
    pub fn new() -> (registry: CommandRegistry)
        ensures
            registry.first_entries() == Map::<Seq<char>, Seq<char>>::empty(),
    {
        CommandRegistry { table: lock_around(CommandTable::new()) }
    }

    /// Takes the lock for writing and stores `response` under `name`, in place
    /// of what stood there. The one error is `LockUnavailable`, where the lock
    /// is poisoned; nothing is stored then.
    pub fn insert<'a>(&'a self, name: String, response: String) -> (outcome: Result<
        (),
        RegistryError,
    >)
        ensures
            self.inserted(name@, response@, outcome),
            outcome is Err ==> outcome == Err::<(), RegistryError>(RegistryError::LockUnavailable),
    {
        let access = write_access(&self.table);
        let ghost given = access;
        let kept = store(access, name, response);
        assert(self.writes(given) && stored(given, name@, response@, kept));
        match kept {
            Ok(_) => Ok(()),
            Err(error) => Err(error),
        }
    }

    /// Takes the lock for reading and returns a copy of the response stored
    /// under `name`, or `None` where the table holds none. Any number of
    /// lookups hold the lock together. A poisoned lock is read all the same.
    pub fn lookup<'a>(&'a self, name: &str) -> (response: Option<String>)
        ensures
            self.looked_up(name@, response.deep_view()),
    {
        let access = read_access(&self.table);
        let ghost given = access;
        let response = find(access, name);
        assert(self.reads(given) && response.deep_view() == readable(given).get(name@));
        response
    }
}

} // verus!
