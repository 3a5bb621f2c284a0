//! The dedup store: a durable ledger of fetched item URLs, kept in a sqlite
//! database behind trusted wrappers and modelled as the set of recorded URLs.
use vstd::prelude::*;

use crate::FetchedItem;
use crate::text::join_path;

verus! {

#[verifier::external_type_specification]
#[verifier::external_body]
pub struct ExSqliteConnection(rusqlite::Connection);

#[verifier::external_type_specification]
#[verifier::external_body]
pub struct ExSqliteError(rusqlite::Error);

/// The set of item URLs recorded in the saved-state table that a connection
/// reads and writes.
pub uninterp spec fn recorded_urls(c: rusqlite::Connection) -> Set<Seq<char>>;

/// Relies on dirs::home_dir; the result depends on the environment, so nothing
/// is promised of it.
#[verifier::external_body]
fn home_dir_string() -> (r: Option<String>)
{
    dirs::home_dir().and_then(|p| p.to_str().map(String::from))
}

/// Relies on rusqlite::Connection::open: what the opened database holds depends
/// on the disk, so nothing is promised of its contents.
#[verifier::external_body]
fn db_open(path: &str) -> (r: Result<rusqlite::Connection, rusqlite::Error>)
{
    rusqlite::Connection::open(path)
}

/// Relies on rusqlite::Connection::open_in_memory: a fresh in-memory database
/// holds no rows at all.
#[verifier::external_body]
fn db_open_in_memory() -> (r: Result<rusqlite::Connection, rusqlite::Error>)
    ensures
        r matches Ok(c) ==> recorded_urls(c) == Set::<Seq<char>>::empty(),
{
    rusqlite::Connection::open_in_memory()
}

/// Relies on rusqlite::Connection::execute with CREATE TABLE IF NOT EXISTS:
/// it adds or keeps the saved-state table and changes no rows.
#[verifier::external_body]
fn db_create_table(conn: &mut rusqlite::Connection) -> (r: Result<(), rusqlite::Error>)
    ensures
        recorded_urls(*final(conn)) == recorded_urls(*old(conn)),
{
    let sql = "CREATE TABLE IF NOT EXISTS saved_state (
        id INTEGER PRIMARY KEY,
        url TEXT NOT NULL,
        name TEXT NOT NULL
        )";
    match conn.execute(sql, ()) {
        Ok(_) => Ok(()),
        Err(e) => Err(e),
    }
}

/// Relies on rusqlite::Connection::execute with INSERT INTO saved_state: on
/// success exactly the given row is appended; a failed insert changes no rows.
#[verifier::external_body]
fn db_insert(conn: &mut rusqlite::Connection, url: &str, name: &str) -> (r: Result<
    (),
    rusqlite::Error,
>)
    ensures
        r is Ok ==> recorded_urls(*final(conn)) == recorded_urls(*old(conn)).insert(url@),
        r is Err ==> recorded_urls(*final(conn)) == recorded_urls(*old(conn)),
{
    let sql = "INSERT INTO saved_state (url, name) VALUES (?1, ?2)";
    match conn.execute(sql, (url, name)) {
        Ok(_) => Ok(()),
        Err(e) => Err(e),
    }
}

/// Relies on rusqlite prepare and Statement::exists with SELECT ... WHERE url:
/// whether some recorded row has exactly this URL; the database is not changed.
#[verifier::external_body]
fn db_url_exists(conn: &rusqlite::Connection, url: &str) -> (r: Result<bool, rusqlite::Error>)
    ensures
        r matches Ok(b) ==> b == recorded_urls(*conn).contains(url@),
{
    match conn.prepare("SELECT * FROM saved_state WHERE url = ?1") {
        Ok(mut statement) => statement.exists((url,)),
        Err(e) => Err(e),
    }
}

/// A fatal or per-call failure of the dedup store.
#[derive(Clone, Copy, Debug, PartialEq, Eq, Structural)]
pub enum StoreError {
    /// No home directory, so no place for the backing database.
    NoHomeDir,
    /// The backing database could not be opened or created.
    OpenFailed,
    /// The saved-state table could not be ensured.
    SchemaFailed,
    /// A lookup failed.
    QueryFailed,
    /// An insert failed.
    SaveFailed,
}

/// The durable record of previously fetched items, keyed by item URL. Its view
/// is the set of recorded URLs.
pub struct SavedState {
    db_connection: rusqlite::Connection,
}

impl View for SavedState {
    type V = Set<Seq<char>>;

    closed spec fn view(&self) -> Set<Seq<char>> {
        recorded_urls(self.db_connection)
    }
}

impl SavedState {
    /// Opens or creates the backing store at its well-known location under the
    /// home directory and ensures the schema. The store may already hold
    /// records from earlier runs, so nothing is said of its contents.
    pub fn new() -> (r: Result<SavedState, StoreError>)
    {
        let home = match home_dir_string() {
            Some(h) => h,
            None => {
                return Err(StoreError::NoHomeDir);
            },
        };
        let dir = join_path(home.as_str(), ".rssdownloader-rs");
        let path = join_path(dir.as_str(), "savedstate.sqlite");
        let mut conn = match db_open(path.as_str()) {
            Ok(c) => c,
            Err(_) => {
                return Err(StoreError::OpenFailed);
            },
        };
        match db_create_table(&mut conn) {
            Ok(_) => Ok(SavedState { db_connection: conn }),
            Err(_) => Err(StoreError::SchemaFailed),
        }
    }

    /// Opens a fresh store backed by memory alone: it starts with no records.
    pub fn open_in_memory() -> (r: Result<SavedState, StoreError>)
        ensures
            r matches Ok(s) ==> s@ == Set::<Seq<char>>::empty(),
    {
        let mut conn = match db_open_in_memory() {
            Ok(c) => c,
            Err(_) => {
                return Err(StoreError::OpenFailed);
            },
        };
        match db_create_table(&mut conn) {
            Ok(_) => Ok(SavedState { db_connection: conn }),
            Err(_) => Err(StoreError::SchemaFailed),
        }
    }

    /// Appends one record: on success the item's URL is in the store, and
    /// nothing else changed; on failure nothing changed.
    pub fn save(&mut self, new_fetch: &FetchedItem) -> (r: Result<(), StoreError>)
        ensures
            r is Ok ==> final(self)@ == old(self)@.insert(new_fetch.url@),
            r is Err ==> final(self)@ == old(self)@,
    {
        match db_insert(&mut self.db_connection, new_fetch.url.as_str(), new_fetch.name.as_str()) {
            Ok(_) => Ok(()),
            Err(_) => Err(StoreError::SaveFailed),
        }
    }

    /// Reports whether this item's URL was recorded before; the store is not
    /// changed.
    pub fn fetched_before(&mut self, new_fetch: &FetchedItem) -> (r: Result<bool, StoreError>)
        ensures
            final(self)@ == old(self)@,
            r matches Ok(b) ==> b == old(self)@.contains(new_fetch.url@),
    {
        match db_url_exists(&self.db_connection, new_fetch.url.as_str()) {
            Ok(b) => Ok(b),
            Err(_) => Err(StoreError::QueryFailed),
        }
    }
}

/// The store's contents after recording a sequence of URLs, one by one.
pub open spec fn record_all(urls: Set<Seq<char>>, recs: Seq<Seq<char>>) -> Set<Seq<char>>
    decreases recs.len(),
{
    if recs.len() == 0 {
        urls
    } else {
        record_all(urls, recs.drop_last()).insert(recs.last())
    }
}

/// Law: once a URL is recorded, it is seen: after `record`, a `seen` lookup of
/// that URL reports true, whatever was recorded before or after.
pub proof fn lemma_record_then_seen(urls: Set<Seq<char>>, url: Seq<char>, later: Seq<Seq<char>>)
    ensures
        urls.insert(url).contains(url),
        record_all(urls.insert(url), later).contains(url),
    decreases later.len(),
{
    if later.len() != 0 {
        lemma_record_then_seen(urls, url, later.drop_last());
        assert(record_all(urls.insert(url), later.drop_last()).contains(url));
    }
}

/// Law: recording one URL changes no other URL's answer.
pub proof fn lemma_record_preserves_others(urls: Set<Seq<char>>, url: Seq<char>, other: Seq<char>)
    requires
        other != url,
    ensures
        urls.insert(url).contains(other) == urls.contains(other),
{
}

/// Law: a URL never recorded is never seen: on a store that started empty, a
/// lookup of a URL that is not among the recorded ones reports false.
pub proof fn lemma_never_recorded_never_seen(recs: Seq<Seq<char>>, url: Seq<char>)
    requires
        !recs.contains(url),
    ensures
        !record_all(Set::empty(), recs).contains(url),
    decreases recs.len(),
{
    if recs.len() != 0 {
        assert(recs.last() != url) by {
            assert(recs[recs.len() - 1] == recs.last());
        }
        assert(!recs.drop_last().contains(url)) by {
            if recs.drop_last().contains(url) {
                let i = choose|i: int| 0 <= i < recs.drop_last().len() && recs.drop_last()[i] == url;
                assert(recs[i] == url);
            }
        }
        lemma_never_recorded_never_seen(recs.drop_last(), url);
    }
}

} // verus!
