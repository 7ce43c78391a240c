//! The store of blocked fingerprints.
//!
//! A store performs no I/O. A call hands out a run, which says which action comes
//! next and is given the reply as an event.

use vstd::prelude::*;

verus! {

/// A fingerprint that a merchant wants blocked.
#[derive(Debug, PartialEq, Eq)]
pub struct BlocklistLookupNew {
    pub merchant_id: String,
    pub fingerprint: String,
}

/// A fingerprint that a merchant has blocked.
#[derive(Debug, PartialEq, Eq)]
pub struct BlocklistLookup {
    pub merchant_id: String,
    pub fingerprint: String,
}

/// What the database is asked.
#[derive(Debug, PartialEq, Eq)]
pub enum Statement<'a> {
    Insert(BlocklistLookupNew),
    FindByMerchantIdFingerprint { merchant_id: &'a str, fingerprint: &'a str },
    DeleteByMerchantIdFingerprint { merchant_id: &'a str, fingerprint: &'a str },
}

/// Which connections of the database serve a statement.
#[derive(Debug, Clone, Copy, PartialEq, Eq, Structural)]
pub enum Access {
    Read,
    Write,
}

/// Why a statement failed.
#[derive(Debug, PartialEq, Eq)]
pub enum StorageError<E> {
    /// There is no database.
    MockDbError,
    /// There was no connection; the error is told as it is.
    Connection(E),
    /// The database refused the statement; the error is told as a storage error.
    Database(E),
}

/// How far a run has come.
#[derive(Debug, PartialEq, Eq)]
pub enum Lookup<'a, E> {
    /// A connection is opened.
    Connect { access: Access, statement: Statement<'a> },
    /// The statement is executed.
    Execute { statement: Statement<'a> },
    /// The run is over.
    Done { result: Result<BlocklistLookup, StorageError<E>> },
}

/// What is to be done next.
#[derive(Debug, PartialEq, Eq)]
pub enum LookupAction<'r, 'a> {
    /// Open a connection.
    Connect { access: Access },
    /// Execute a statement on the open connection.
    Execute { statement: &'r Statement<'a> },
    /// Nothing: the run is over.
    Finish,
}

/// The reply to an action.
#[derive(Debug, PartialEq, Eq)]
pub enum LookupEvent<E> {
    Connected(Result<(), E>),
    Executed(Result<BlocklistLookup, E>),
}

impl<'a> Statement<'a> {
    /// Which connections serve the statement: a search reads, anything else writes.
    pub open spec fn access(self) -> Access {
        match self {
            Statement::FindByMerchantIdFingerprint { .. } => Access::Read,
            _ => Access::Write,
        }
    }

    /// The pair of merchant and fingerprint that the statement speaks of.
    pub open spec fn pair(self) -> (Seq<char>, Seq<char>) {
        match self {
            Statement::Insert(new) => (new.merchant_id@, new.fingerprint@),
            Statement::FindByMerchantIdFingerprint { merchant_id, fingerprint } => (
                merchant_id@,
                fingerprint@,
            ),
            Statement::DeleteByMerchantIdFingerprint { merchant_id, fingerprint } => (
                merchant_id@,
                fingerprint@,
            ),
        }
    }
}

impl<'a, E> Lookup<'a, E> {
    /// The run after an event. An event that answers another action than the one
    /// that is due changes nothing.
    pub open spec fn after(self, event: LookupEvent<E>) -> Self {
        match (self, event) {
            (Lookup::Connect { statement, .. }, LookupEvent::Connected(Ok(_))) => Lookup::Execute {
                statement,
            },
            (Lookup::Connect { .. }, LookupEvent::Connected(Err(e))) => Lookup::Done {
                result: Err(StorageError::Connection(e)),
            },
            (Lookup::Execute { .. }, LookupEvent::Executed(Ok(entry))) => Lookup::Done {
                result: Ok(entry),
            },
            (Lookup::Execute { .. }, LookupEvent::Executed(Err(e))) => Lookup::Done {
                result: Err(StorageError::Database(e)),
            },
            _ => self,
        }
    }

    /// The result of a run that is over.
    pub open spec fn outcome(self) -> Option<Result<BlocklistLookup, StorageError<E>>> {
        match self {
            Lookup::Done { result } => Some(result),
            _ => None,
        }
    }

    /// The action that is due.
    pub open spec fn due<'r>(&'r self) -> LookupAction<'r, 'a> {
        match self {
            Lookup::Connect { access, .. } => LookupAction::Connect { access: *access },
            Lookup::Execute { statement } => LookupAction::Execute { statement },
            Lookup::Done { .. } => LookupAction::Finish,
        }
    }

    /// The action that is due.
    pub fn action<'r>(&'r self) -> (action: LookupAction<'r, 'a>)
        ensures
            action == self.due(),
    {
        match self {
            Lookup::Connect { access, .. } => LookupAction::Connect { access: *access },
            Lookup::Execute { statement } => LookupAction::Execute { statement },
            Lookup::Done { .. } => LookupAction::Finish,
        }
    }

    /// Takes the reply to the action that is due.
    pub fn step(self, event: LookupEvent<E>) -> (run: Self)
        ensures
            run == self.after(event),
    {
        match (self, event) {
            (Lookup::Connect { statement, .. }, LookupEvent::Connected(reply)) => match reply {
                Ok(_) => Lookup::Execute { statement },
                Err(e) => Lookup::Done { result: Err(StorageError::Connection(e)) },
            },
            (Lookup::Execute { .. }, LookupEvent::Executed(reply)) => match reply {
                Ok(entry) => Lookup::Done { result: Ok(entry) },
                Err(e) => Lookup::Done { result: Err(StorageError::Database(e)) },
            },
            (run, _) => run,
        }
    }

    /// The result of a run that is over, or the run where it is not.
    pub fn finish(self) -> (r: Result<Result<BlocklistLookup, StorageError<E>>, Self>)
        ensures
            match self.outcome() {
                Some(result) => r matches Ok(r_result) && r_result == result,
                None => r matches Err(run) && run == self,
            },
    {
        match self {
            Lookup::Done { result } => Ok(result),
            run => Err(run),
        }
    }
}

/// The rows of a table that keeps at most one row for each pair of merchant and
/// fingerprint.
pub type Rows = Map<(Seq<char>, Seq<char>), BlocklistLookup>;

/// Whether a table with the rows `before` can reply so to a statement and then hold
/// the rows `after`. Whether a statement succeeds is up to the database, and a failed
/// insertion or deletion leaves open what became of the pair itself.
pub open spec fn replies<'a, E>(
    statement: Statement<'a>,
    before: Rows,
    reply: Result<BlocklistLookup, E>,
    after: Rows,
) -> bool {
    &&& after.remove(statement.pair()) == before.remove(statement.pair())
    &&& match (statement, reply) {
        (Statement::Insert(new), Ok(entry)) => {
            &&& entry.merchant_id@ == new.merchant_id@
            &&& entry.fingerprint@ == new.fingerprint@
            &&& !before.contains_key(statement.pair())
            &&& after == before.insert(statement.pair(), entry)
        },
        (Statement::FindByMerchantIdFingerprint { .. }, Ok(entry)) => {
            &&& before.contains_pair(statement.pair(), entry)
            &&& after == before
        },
        (Statement::FindByMerchantIdFingerprint { .. }, Err(_)) => after == before,
        (Statement::DeleteByMerchantIdFingerprint { .. }, Ok(entry)) => {
            &&& before.contains_pair(statement.pair(), entry)
            &&& after == before.remove(statement.pair())
        },
        (_, Err(_)) => true,
    }
}

/// Whether a run can end with `result` on a table with the rows `before` and leave
/// the rows `after`: it is given the table's reply to the statement that it has
/// executed, and where it executes none the rows stay.
pub open spec fn runs_on<'a, E>(
    run: Lookup<'a, E>,
    before: Rows,
    connected: Result<(), E>,
    executed: Result<BlocklistLookup, E>,
    after: Rows,
    result: Result<BlocklistLookup, StorageError<E>>,
) -> bool {
    let connecting = run.after(LookupEvent::Connected(connected));
    match connecting.due() {
        LookupAction::Execute { statement } => {
            &&& replies(*statement, before, executed, after)
            &&& connecting.after(LookupEvent::Executed(executed)).outcome() == Some(result)
        },
        _ => {
            &&& after == before
            &&& connecting.outcome() == Some(result)
        },
    }
}

/// A store of blocked fingerprints.
pub trait BlocklistLookupInterface<E> {
    /// The run that a statement starts.
    spec fn opened<'a>(&self, statement: Statement<'a>) -> Lookup<'a, E>;

    /// Blocks a fingerprint.
    fn insert_blocklist_lookup_entry<'a>(
        &self,
        blocklist_lookup_new: BlocklistLookupNew,
    ) -> (run: Lookup<'a, E>)
        ensures
            run == self.opened(Statement::Insert(blocklist_lookup_new)),
    ;

    /// Finds a blocked fingerprint of a merchant.
    fn find_blocklist_lookup_entry_by_merchant_id_fingerprint<'a>(
        &self,
        merchant_id: &'a str,
        fingerprint: &'a str,
    ) -> (run: Lookup<'a, E>)
        ensures
            run == self.opened(
                Statement::FindByMerchantIdFingerprint { merchant_id, fingerprint },
            ),
    ;

    /// Unblocks a fingerprint of a merchant.
    fn delete_blocklist_lookup_entry_by_merchant_id_fingerprint<'a>(
        &self,
        merchant_id: &'a str,
        fingerprint: &'a str,
    ) -> (run: Lookup<'a, E>)
        ensures
            run == self.opened(
                Statement::DeleteByMerchantIdFingerprint { merchant_id, fingerprint },
            ),
    ;
}

/// A store in a database.
#[derive(Debug, Clone, Copy, PartialEq, Eq)]
pub struct Store;

impl<E> BlocklistLookupInterface<E> for Store {
    open spec fn opened<'a>(&self, statement: Statement<'a>) -> Lookup<'a, E> {
        Lookup::Connect { access: statement.access(), statement }
    }

    fn insert_blocklist_lookup_entry<'a>(
        &self,
        blocklist_lookup_new: BlocklistLookupNew,
    ) -> (run: Lookup<'a, E>) {
        Lookup::Connect {
            access: Access::Write,
            statement: Statement::Insert(blocklist_lookup_new),
        }
    }

    fn find_blocklist_lookup_entry_by_merchant_id_fingerprint<'a>(
        &self,
        merchant_id: &'a str,
        fingerprint: &'a str,
    ) -> (run: Lookup<'a, E>) {
        Lookup::Connect {
            access: Access::Read,
            statement: Statement::FindByMerchantIdFingerprint { merchant_id, fingerprint },
        }
    }

    fn delete_blocklist_lookup_entry_by_merchant_id_fingerprint<'a>(
        &self,
        merchant_id: &'a str,
        fingerprint: &'a str,
    ) -> (run: Lookup<'a, E>) {
        Lookup::Connect {
            access: Access::Write,
            statement: Statement::DeleteByMerchantIdFingerprint { merchant_id, fingerprint },
        }
    }
}

/// A store without a database.
#[derive(Debug, Clone, Copy, PartialEq, Eq)]
pub struct MockDb;

impl<E> BlocklistLookupInterface<E> for MockDb {
    open spec fn opened<'a>(&self, statement: Statement<'a>) -> Lookup<'a, E> {
        Lookup::Done { result: Err(StorageError::MockDbError) }
    }

    fn insert_blocklist_lookup_entry<'a>(
        &self,
        blocklist_lookup_new: BlocklistLookupNew,
    ) -> (run: Lookup<'a, E>) {
        Lookup::Done { result: Err(StorageError::MockDbError) }
    }

    fn find_blocklist_lookup_entry_by_merchant_id_fingerprint<'a>(
        &self,
        merchant_id: &'a str,
        fingerprint: &'a str,
    ) -> (run: Lookup<'a, E>) {
        Lookup::Done { result: Err(StorageError::MockDbError) }
    }

    fn delete_blocklist_lookup_entry_by_merchant_id_fingerprint<'a>(
        &self,
        merchant_id: &'a str,
        fingerprint: &'a str,
    ) -> (run: Lookup<'a, E>) {
        Lookup::Done { result: Err(StorageError::MockDbError) }
    }
}

/// A store that leaves its entries to the one inside it.
#[derive(Debug, Clone, Copy, PartialEq, Eq)]
pub struct KafkaStore {
    pub diesel_store: Store,
}

impl<E> BlocklistLookupInterface<E> for KafkaStore {
    open spec fn opened<'a>(&self, statement: Statement<'a>) -> Lookup<'a, E> {
        self.diesel_store.opened(statement)
    }

    fn insert_blocklist_lookup_entry<'a>(
        &self,
        blocklist_lookup_new: BlocklistLookupNew,
    ) -> (run: Lookup<'a, E>) {
        self.diesel_store.insert_blocklist_lookup_entry(blocklist_lookup_new)
    }

    fn find_blocklist_lookup_entry_by_merchant_id_fingerprint<'a>(
        &self,
        merchant_id: &'a str,
        fingerprint: &'a str,
    ) -> (run: Lookup<'a, E>) {
        self.diesel_store.find_blocklist_lookup_entry_by_merchant_id_fingerprint(
            merchant_id,
            fingerprint,
        )
    }

    fn delete_blocklist_lookup_entry_by_merchant_id_fingerprint<'a>(
        &self,
        merchant_id: &'a str,
        fingerprint: &'a str,
    ) -> (run: Lookup<'a, E>) {
        self.diesel_store.delete_blocklist_lookup_entry_by_merchant_id_fingerprint(
            merchant_id,
            fingerprint,
        )
    }
}

/// A statement on a database ends with what the database answers; without a
/// connection it is not executed and ends with the connection's error.
pub proof fn store_tells_what_the_database_answers<'a, E>(
    store: Store,
    statement: Statement<'a>,
    connected: Result<(), E>,
    executed: Result<BlocklistLookup, E>,
)
    ensures
        ({
            let run = BlocklistLookupInterface::<E>::opened(&store, statement);
            let connecting = run.after(LookupEvent::Connected(connected));
            &&& run.due() == (LookupAction::Connect { access: statement.access() })
            &&& match connected {
                Err(e) => connecting.outcome() == Some(
                    Err::<BlocklistLookup, StorageError<E>>(StorageError::Connection(e)),
                ),
                Ok(_) => {
                    &&& connecting.due() == (LookupAction::Execute { statement: &statement })
                    &&& connecting.after(LookupEvent::Executed(executed)).outcome() == Some(
                        match executed {
                            Ok(entry) => Ok::<BlocklistLookup, StorageError<E>>(entry),
                            Err(e) => Err(StorageError::Database(e)),
                        },
                    )
                },
            }
        }),
{
}

/// Without a database every statement fails in the same way, and nothing is done
/// for it, whatever happens.
pub proof fn mock_db_always_fails<'a, E>(
    store: MockDb,
    statement: Statement<'a>,
    event: LookupEvent<E>,
)
    ensures
        BlocklistLookupInterface::<E>::opened(&store, statement).outcome() == Some(
            Err::<BlocklistLookup, StorageError<E>>(StorageError::MockDbError),
        ),
        BlocklistLookupInterface::<E>::opened(&store, statement).due() == LookupAction::Finish,
        BlocklistLookupInterface::<E>::opened(&store, statement).after(event)
            == BlocklistLookupInterface::<E>::opened(&store, statement),
{
}

/// A store that leaves its entries to another does for every statement what the
/// other does.
pub proof fn kafka_store_is_its_diesel_store<'a, E>(store: KafkaStore, statement: Statement<'a>)
    ensures
        BlocklistLookupInterface::<E>::opened(&store, statement)
            == BlocklistLookupInterface::<E>::opened(&store.diesel_store, statement),
{
}

/// A deletion that ends well tells the row that a search before it would have found.
/// Afterwards the table has no row for the pair, so that no search finds one, and the
/// rows of all other pairs are as before.
pub proof fn deleted_entry_is_gone<'a, E>(
    store: Store,
    merchant_id: &'a str,
    fingerprint: &'a str,
    before: Rows,
    connected: Result<(), E>,
    executed: Result<BlocklistLookup, E>,
    between: Rows,
    entry: BlocklistLookup,
    find_connected: Result<(), E>,
    find_executed: Result<BlocklistLookup, E>,
    after: Rows,
    found: Result<BlocklistLookup, StorageError<E>>,
)
    requires
        runs_on(
            store.opened(Statement::DeleteByMerchantIdFingerprint { merchant_id, fingerprint }),
            before,
            connected,
            executed,
            between,
            Ok(entry),
        ),
        runs_on(
            store.opened(Statement::FindByMerchantIdFingerprint { merchant_id, fingerprint }),
            between,
            find_connected,
            find_executed,
            after,
            found,
        ),
    ensures
        before.contains_pair((merchant_id@, fingerprint@), entry),
        between == before.remove((merchant_id@, fingerprint@)),
        !between.contains_key((merchant_id@, fingerprint@)),
        forall|other: (Seq<char>, Seq<char>)|
            other != (merchant_id@, fingerprint@) ==> {
                &&& (#[trigger] between.contains_key(other) <==> before.contains_key(other))
                &&& before.contains_key(other) ==> between[other] == before[other]
            },
        found is Err,
        after == between,
{
}

/// Where the table has a row for the pair, a deletion whose connection and statement
/// succeed ends with that row, as a search that succeeds does.
pub proof fn entry_is_found_and_deleted<'a, E>(
    store: Store,
    merchant_id: &'a str,
    fingerprint: &'a str,
    rows: Rows,
    found: BlocklistLookup,
    deleted: BlocklistLookup,
    after: Rows,
    find_result: Result<BlocklistLookup, StorageError<E>>,
    delete_result: Result<BlocklistLookup, StorageError<E>>,
)
    requires
        runs_on(
            store.opened(Statement::FindByMerchantIdFingerprint { merchant_id, fingerprint }),
            rows,
            Ok(()),
            Ok(found),
            rows,
            find_result,
        ),
        runs_on(
            store.opened(Statement::DeleteByMerchantIdFingerprint { merchant_id, fingerprint }),
            rows,
            Ok(()),
            Ok(deleted),
            after,
            delete_result,
        ),
    ensures
        find_result == Ok::<BlocklistLookup, StorageError<E>>(
            rows[(merchant_id@, fingerprint@)],
        ),
        delete_result == find_result,
        after == rows.remove((merchant_id@, fingerprint@)),
{
}

/// A search that ends well after an insertion that ended well finds what was
/// inserted, which is now the table's row for the pair.
pub proof fn inserted_entry_is_found<'a, E>(
    store: Store,
    new: BlocklistLookupNew,
    merchant_id: &'a str,
    fingerprint: &'a str,
    before: Rows,
    connected: Result<(), E>,
    executed: Result<BlocklistLookup, E>,
    between: Rows,
    entry: BlocklistLookup,
    find_connected: Result<(), E>,
    find_executed: Result<BlocklistLookup, E>,
    after: Rows,
    found: BlocklistLookup,
)
    requires
        new.merchant_id@ == merchant_id@,
        new.fingerprint@ == fingerprint@,
        runs_on(
            store.opened(Statement::Insert(new)),
            before,
            connected,
            executed,
            between,
            Ok(entry),
        ),
        runs_on(
            store.opened(Statement::FindByMerchantIdFingerprint { merchant_id, fingerprint }),
            between,
            find_connected,
            find_executed,
            after,
            Ok(found),
        ),
    ensures
        found == entry,
        entry.merchant_id@ == merchant_id@,
        entry.fingerprint@ == fingerprint@,
        after == before.insert((merchant_id@, fingerprint@), entry),
{
}

/// Whatever a run ends with, the rows of all pairs but the one that its statement
/// speaks of stay; without a connection, and for a search, all rows stay.
pub proof fn other_entries_stay<'a, E>(
    store: Store,
    statement: Statement<'a>,
    before: Rows,
    connected: Result<(), E>,
    executed: Result<BlocklistLookup, E>,
    after: Rows,
    result: Result<BlocklistLookup, StorageError<E>>,
    other: (Seq<char>, Seq<char>),
)
    requires
        runs_on(store.opened(statement), before, connected, executed, after, result),
        other != statement.pair(),
    ensures
        after.contains_key(other) <==> before.contains_key(other),
        before.contains_key(other) ==> after[other] == before[other],
        connected is Err || statement is FindByMerchantIdFingerprint ==> after == before,
{
    let rest = before.remove(statement.pair());
    let rest_after = after.remove(statement.pair());
    assert(rest.contains_key(other) <==> before.contains_key(other));
    assert(rest_after.contains_key(other) <==> after.contains_key(other));
    assert(before.contains_key(other) ==> rest[other] == before[other]);
    assert(before.contains_key(other) ==> rest_after[other] == after[other]);
}

/// A run that is over stays as it is.
pub proof fn finished_lookup_is_final<'a, E>(run: Lookup<'a, E>, event: LookupEvent<E>)
    requires
        run.outcome() is Some,
    ensures
        run.after(event) == run,
{
}

/// A store in a database inserts and deletes on a connection that writes and searches on
/// one that reads, and asks for the very entry, merchant and fingerprint of the call.
pub proof fn store_asks_for_what_the_call_says<'a, E>(
    store: Store,
    new: BlocklistLookupNew,
    merchant_id: &'a str,
    fingerprint: &'a str,
    insert: Lookup<'a, E>,
    find: Lookup<'a, E>,
    delete: Lookup<'a, E>,
)
    requires
        call_ensures(
            <Store as BlocklistLookupInterface<E>>::insert_blocklist_lookup_entry,
            (&store, new),
            insert,
        ),
        call_ensures(
            <Store as BlocklistLookupInterface<
                E,
            >>::find_blocklist_lookup_entry_by_merchant_id_fingerprint,
            (&store, merchant_id, fingerprint),
            find,
        ),
        call_ensures(
            <Store as BlocklistLookupInterface<
                E,
            >>::delete_blocklist_lookup_entry_by_merchant_id_fingerprint,
            (&store, merchant_id, fingerprint),
            delete,
        ),
    ensures
        insert matches Lookup::Connect { access, statement: Statement::Insert(asked) } && access
            == Access::Write && asked == new,
        find matches Lookup::Connect {
            access,
            statement: Statement::FindByMerchantIdFingerprint { merchant_id: m, fingerprint: f },
        } && access == Access::Read && m@ == merchant_id@ && f@ == fingerprint@,
        delete matches Lookup::Connect {
            access,
            statement: Statement::DeleteByMerchantIdFingerprint { merchant_id: m, fingerprint: f },
        } && access == Access::Write && m@ == merchant_id@ && f@ == fingerprint@,
{
}

/// A store that leaves its entries to another asks for the very entry, merchant and
/// fingerprint of the call.
pub proof fn kafka_store_asks_for_what_the_call_says<'a, E>(
    store: KafkaStore,
    new: BlocklistLookupNew,
    merchant_id: &'a str,
    fingerprint: &'a str,
    insert: Lookup<'a, E>,
    find: Lookup<'a, E>,
    delete: Lookup<'a, E>,
)
    requires
        call_ensures(
            <KafkaStore as BlocklistLookupInterface<E>>::insert_blocklist_lookup_entry,
            (&store, new),
            insert,
        ),
        call_ensures(
            <KafkaStore as BlocklistLookupInterface<
                E,
            >>::find_blocklist_lookup_entry_by_merchant_id_fingerprint,
            (&store, merchant_id, fingerprint),
            find,
        ),
        call_ensures(
            <KafkaStore as BlocklistLookupInterface<
                E,
            >>::delete_blocklist_lookup_entry_by_merchant_id_fingerprint,
            (&store, merchant_id, fingerprint),
            delete,
        ),
    ensures
        insert matches Lookup::Connect { access, statement: Statement::Insert(asked) } && access
            == Access::Write && asked == new,
        find matches Lookup::Connect {
            access,
            statement: Statement::FindByMerchantIdFingerprint { merchant_id: m, fingerprint: f },
        } && access == Access::Read && m@ == merchant_id@ && f@ == fingerprint@,
        delete matches Lookup::Connect {
            access,
            statement: Statement::DeleteByMerchantIdFingerprint { merchant_id: m, fingerprint: f },
        } && access == Access::Write && m@ == merchant_id@ && f@ == fingerprint@,
{
}

/// Without a database every call has failed at once.
pub proof fn mock_db_fails_every_call<'a, E>(
    store: MockDb,
    new: BlocklistLookupNew,
    merchant_id: &'a str,
    fingerprint: &'a str,
    insert: Lookup<'a, E>,
    find: Lookup<'a, E>,
    delete: Lookup<'a, E>,
)
    requires
        call_ensures(
            <MockDb as BlocklistLookupInterface<E>>::insert_blocklist_lookup_entry,
            (&store, new),
            insert,
        ),
        call_ensures(
            <MockDb as BlocklistLookupInterface<
                E,
            >>::find_blocklist_lookup_entry_by_merchant_id_fingerprint,
            (&store, merchant_id, fingerprint),
            find,
        ),
        call_ensures(
            <MockDb as BlocklistLookupInterface<
                E,
            >>::delete_blocklist_lookup_entry_by_merchant_id_fingerprint,
            (&store, merchant_id, fingerprint),
            delete,
        ),
    ensures
        insert matches Lookup::Done { result: Err(StorageError::MockDbError) },
        find matches Lookup::Done { result: Err(StorageError::MockDbError) },
        delete matches Lookup::Done { result: Err(StorageError::MockDbError) },
{
}

/// A run asks for a connection of the kind that it needs, then for its statement, and
/// then for nothing.
pub proof fn lookups_ask_in_order<'r, 'a, E>(
    run: &'r Lookup<'a, E>,
    action: LookupAction<'r, 'a>,
)
    requires
        call_ensures(Lookup::<'a, E>::action, (run,), action),
    ensures
        *run matches Lookup::Connect { access: needed, .. } ==> (
        action matches LookupAction::Connect { access } && access == needed),
        *run matches Lookup::Execute { statement: asked } ==> (
        action matches LookupAction::Execute { statement } && *statement == asked),
        *run is Done <==> action is Finish,
{
}

/// With a connection a run goes on to its own statement, and without one it ends with
/// the connection's error; a statement ends it with the entry that the database told or
/// with the database's error. Any other event changes nothing.
pub proof fn lookups_end_with_what_they_are_told<'a, E>(
    run: Lookup<'a, E>,
    event: LookupEvent<E>,
    next: Lookup<'a, E>,
)
    requires
        call_ensures(Lookup::<'a, E>::step, (run, event), next),
    ensures
        run matches Lookup::Connect { statement: asked, .. } ==> {
            &&& event matches LookupEvent::Connected(Ok(_)) ==> (
            next matches Lookup::Execute { statement } && statement == asked)
            &&& event matches LookupEvent::Connected(Err(e)) ==> (
            next matches Lookup::Done { result: Err(StorageError::Connection(told)) } && told == e)
            &&& event is Executed ==> next == run
        },
        run is Execute ==> {
            &&& event matches LookupEvent::Executed(Ok(entry)) ==> (
            next matches Lookup::Done { result: Ok(told) } && told == entry)
            &&& event matches LookupEvent::Executed(Err(e)) ==> (
            next matches Lookup::Done { result: Err(StorageError::Database(told)) } && told == e)
            &&& event is Connected ==> next == run
        },
        run is Done ==> next == run,
{
}

/// A run has a result exactly where it is over, and is else handed back as it is.
pub proof fn lookups_finish_with_their_result<'a, E>(
    run: Lookup<'a, E>,
    end: Result<Result<BlocklistLookup, StorageError<E>>, Lookup<'a, E>>,
)
    requires
        call_ensures(Lookup::<'a, E>::finish, (run,), end),
    ensures
        match run {
            Lookup::Done { result } => end matches Ok(told) && told == result,
            _ => end matches Err(same) && same == run,
        },
{
}

} // verus!
