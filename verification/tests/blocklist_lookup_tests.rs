use payme_router::blocklist_lookup::{
    Access, BlocklistLookup, BlocklistLookupInterface, BlocklistLookupNew, KafkaStore, Lookup,
    LookupAction, LookupEvent, MockDb, Statement, StorageError, Store,
};

fn entry() -> BlocklistLookup {
    BlocklistLookup { merchant_id: "mer".to_string(), fingerprint: "fp".to_string() }
}

fn new_entry() -> BlocklistLookupNew {
    BlocklistLookupNew { merchant_id: "mer".to_string(), fingerprint: "fp".to_string() }
}

fn runs<S: BlocklistLookupInterface<u8>>(store: &S) -> Vec<Lookup<'static, u8>> {
    vec![
        store.insert_blocklist_lookup_entry(new_entry()),
        store.find_blocklist_lookup_entry_by_merchant_id_fingerprint("mer", "fp"),
        store.delete_blocklist_lookup_entry_by_merchant_id_fingerprint("mer", "fp"),
    ]
}

fn statements() -> Vec<Statement<'static>> {
    vec![
        Statement::Insert(new_entry()),
        Statement::FindByMerchantIdFingerprint { merchant_id: "mer", fingerprint: "fp" },
        Statement::DeleteByMerchantIdFingerprint { merchant_id: "mer", fingerprint: "fp" },
    ]
}

#[test]
fn stores_read_and_write_on_their_own_connections() {
    let accesses = [Access::Write, Access::Read, Access::Write];
    for ((run, access), statement) in runs(&Store).into_iter().zip(accesses).zip(statements()) {
        assert_eq!(run.action(), LookupAction::Connect { access });
        let run = run.step(LookupEvent::Executed(Err(1)));
        assert_eq!(run.action(), LookupAction::Connect { access });
        let run = run.step(LookupEvent::Connected(Ok(())));
        assert_eq!(run.action(), LookupAction::Execute { statement: &statement });
        let run = run.step(LookupEvent::Executed(Ok(entry())));
        assert_eq!(run.action(), LookupAction::Finish);
        assert_eq!(run.finish(), Ok(Ok(entry())));
    }
}

#[test]
fn errors_are_told_by_where_they_came_from() {
    for run in runs(&Store) {
        let run = run.step(LookupEvent::Connected(Err(5)));
        assert_eq!(run.finish(), Ok(Err(StorageError::Connection(5))));
    }
    for run in runs(&Store) {
        let run = run.step(LookupEvent::Connected(Ok(()))).step(LookupEvent::Executed(Err(6)));
        assert_eq!(run.finish(), Ok(Err(StorageError::Database(6))));
    }
}

#[test]
fn mock_db_fails_every_time() {
    for run in runs(&MockDb) {
        assert_eq!(run.action(), LookupAction::Finish);
        let run = run.step(LookupEvent::Connected(Ok(())));
        assert_eq!(run.finish(), Ok(Err(StorageError::MockDbError)));
    }
}

#[test]
fn kafka_store_does_what_its_diesel_store_does() {
    assert_eq!(runs(&KafkaStore { diesel_store: Store }), runs(&Store));
}

#[test]
fn unfinished_lookups_are_handed_back() {
    for (run, again) in runs(&Store).into_iter().zip(runs(&Store)) {
        assert_eq!(run.finish(), Err(again));
    }
}

fn row(merchant_id: &str, fingerprint: &str) -> BlocklistLookup {
    BlocklistLookup {
        merchant_id: merchant_id.to_string(),
        fingerprint: fingerprint.to_string(),
    }
}

/// A table that has a row for a pair or refuses with an error.
fn execute(rows: &mut Vec<BlocklistLookup>, statement: &Statement<'_>) -> Result<BlocklistLookup, u8> {
    let (merchant_id, fingerprint) = match statement {
        Statement::Insert(new) => (new.merchant_id.as_str(), new.fingerprint.as_str()),
        Statement::FindByMerchantIdFingerprint { merchant_id, fingerprint }
        | Statement::DeleteByMerchantIdFingerprint { merchant_id, fingerprint } => {
            (*merchant_id, *fingerprint)
        }
    };
    let at = rows.iter().position(|r| r.merchant_id == merchant_id && r.fingerprint == fingerprint);
    match (statement, at) {
        (Statement::Insert(_), None) => {
            rows.push(row(merchant_id, fingerprint));
            Ok(row(merchant_id, fingerprint))
        }
        (Statement::FindByMerchantIdFingerprint { .. }, Some(_)) => {
            Ok(row(merchant_id, fingerprint))
        }
        (Statement::DeleteByMerchantIdFingerprint { .. }, Some(at)) => Ok(rows.remove(at)),
        _ => Err(7),
    }
}

fn complete(
    rows: &mut Vec<BlocklistLookup>,
    run: Lookup<'_, u8>,
) -> Result<BlocklistLookup, StorageError<u8>> {
    let run = run.step(LookupEvent::Connected(Ok(())));
    let reply = match run.action() {
        LookupAction::Execute { statement } => execute(rows, statement),
        _ => panic!("a statement is due"),
    };
    match run.step(LookupEvent::Executed(reply)).finish() {
        Ok(result) => result,
        Err(_) => panic!("the run is over"),
    }
}

#[test]
fn deleted_entries_are_gone_and_others_stay() {
    let mut rows = vec![row("mer", "other"), row("mer2", "fp")];
    let store = Store;
    let find =
        || store.find_blocklist_lookup_entry_by_merchant_id_fingerprint("mer", "fp");
    let delete =
        || store.delete_blocklist_lookup_entry_by_merchant_id_fingerprint("mer", "fp");
    assert_eq!(complete(&mut rows, find()), Err(StorageError::Database(7)));
    assert_eq!(complete(&mut rows, delete()), Err(StorageError::Database(7)));
    let inserted = complete(&mut rows, store.insert_blocklist_lookup_entry(new_entry()));
    assert_eq!(inserted, Ok(entry()));
    assert_eq!(
        complete(&mut rows, store.insert_blocklist_lookup_entry(new_entry())),
        Err(StorageError::Database(7))
    );
    assert_eq!(complete(&mut rows, find()), Ok(entry()));
    assert_eq!(complete(&mut rows, delete()), Ok(entry()));
    assert_eq!(complete(&mut rows, find()), Err(StorageError::Database(7)));
    assert_eq!(rows, vec![row("mer", "other"), row("mer2", "fp")]);
}
