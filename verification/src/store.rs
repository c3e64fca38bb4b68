//! Admin application store.
//!
//! The application data lives in an sqlite database of three tables: the
//! SSH table maps `"public"` and `"private"` to key file paths, the
//! station table maps station names to addresses, and the CA table holds
//! the configuration of the public-key infrastructure.
//!
//! The database handle is owned by the caller and threaded through the
//! call sites; the queries run behind trusted wrappers, and everything the
//! rows are turned into is computed by verified functions over the plain
//! row values.

use vstd::prelude::*;
use vstd::string::*;

use crate::cert::spec_u32_digits;
use crate::cert::u32_to_string;
use crate::cert::CertificateFields;

verus! {

/// Errors of the admin store.
#[derive(Debug, Clone, Copy, PartialEq, Eq, Structural)]
pub enum StoreError {
    /// The database could not be opened or initialized.
    OpenFailure,
    /// A statement failed to run.
    QueryFailure,
    /// A given key file path is not an existing file.
    InvalidPaths,
    /// The requested entry is not in the database.
    NotFound,
}

/// One row of a query result: column names with their optional text
/// values, in query order.
pub type SqlRow = Vec<(String, Option<String>)>;

#[verifier::external_type_specification]
#[verifier::external_body]
pub struct ExConnection(sqlite::Connection);

/// An owned handle to the admin database.
pub struct Store {
    conn: sqlite::Connection,
}

/// Relies on sqlite's `Connection::open`: opens or creates the database
/// file. What it yields depends on the disk, so nothing is promised.
#[verifier::external_body]
fn db_open(path: &str) -> (r: Result<sqlite::Connection, StoreError>) {
    sqlite::Connection::open(path).map_err(|_| StoreError::OpenFailure)
}

/// Relies on sqlite's `Connection::execute`: runs statements for their
/// effect on the database. What it does depends on the database state, so
/// nothing is promised.
#[verifier::external_body]
fn db_execute(conn: &sqlite::Connection, query: &str) -> (r: Result<(), StoreError>) {
    conn.execute(query).map_err(|_| StoreError::QueryFailure)
}

/// Relies on sqlite's `Connection::iterate`: runs a query and collects
/// every row as plain column-name and value pairs. What it yields depends
/// on the database state, so nothing is promised.
#[verifier::external_body]
fn db_rows(conn: &sqlite::Connection, query: &str) -> (r: Result<Vec<SqlRow>, StoreError>) {
    let mut rows: Vec<SqlRow> = Vec::new();
    conn.iterate(query, |pairs| {
        rows.push(
            pairs.iter().map(|(k, v)| ((*k).to_owned(), v.map(|s| s.to_owned()))).collect(),
        );
        true
    }).map_err(|_| StoreError::QueryFailure)?;
    Ok(rows)
}

/// Relies on `std::path::Path::is_file` on the trimmed path. What it
/// yields depends on the disk, so nothing is promised.
#[verifier::external_body]
fn path_is_file(path: &str) -> (r: bool) {
    std::path::Path::new(path.trim()).is_file()
}

/// Whether the column name equals the expected name.
fn column_is(name: &String, expected: &str) -> (r: bool)
    ensures
        r == (name@ == expected@),
{
    let e: String = expected.to_owned();
    *name == e
}

/// The text of one cell under the wanted column: its value when the
/// column matches and holds one, empty otherwise.
pub open spec fn spec_cell_text(cell: (String, Option<String>), key: Seq<char>) -> Seq<char> {
    if cell.0@ == key {
        match cell.1 {
            Some(v) => v@,
            None => Seq::<char>::empty(),
        }
    } else {
        Seq::<char>::empty()
    }
}

/// The concatenated text of one row under the wanted column.
pub open spec fn spec_row_text(row: Seq<(String, Option<String>)>, key: Seq<char>) -> Seq<char>
    decreases row.len(),
{
    if row.len() == 0 {
        Seq::<char>::empty()
    } else {
        spec_row_text(row.drop_last(), key) + spec_cell_text(row.last(), key)
    }
}

/// The concatenated text of all rows under the wanted column.
pub open spec fn spec_rows_text(rows: Seq<SqlRow>, key: Seq<char>) -> Seq<char>
    decreases rows.len(),
{
    if rows.len() == 0 {
        Seq::<char>::empty()
    } else {
        spec_rows_text(rows.drop_last(), key) + spec_row_text(rows.last()@, key)
    }
}

/// Append to `acc` the text of one row under the wanted column.
fn append_row_text(acc: &mut String, row: &SqlRow, key: &str)
    ensures
        final(acc)@ == old(acc)@ + spec_row_text(row@, key@),
{
    let mut j: usize = 0;
    while j < row.len()
        invariant
            j <= row@.len(),
            acc@ == old(acc)@ + spec_row_text(row@.subrange(0, j as int), key@),
        decreases row@.len() - j,
    {
        let ghost prefix = row@.subrange(0, j as int);
        let ghost prefix2 = row@.subrange(0, (j + 1) as int);
        proof {
            assert(prefix2.drop_last() =~= prefix);
            assert(prefix2.last() == row@[j as int]);
        }
        let cell = &row[j];
        if column_is(&cell.0, key) {
            match &cell.1 {
                Some(v) => {
                    acc.append(v.as_str());
                },
                None => {
                },
            }
        }
        j += 1;
    }
    proof {
        assert(row@.subrange(0, row@.len() as int) =~= row@);
    }
}

/// The concatenated text of all rows under the wanted column, as the
/// queries of this store read it: row by row, cell by cell.
pub fn collect_rows_text(rows: &Vec<SqlRow>, key: &str) -> (r: String)
    ensures
        r@ == spec_rows_text(rows@, key@),
{
    let mut acc = String::new();
    let mut i: usize = 0;
    while i < rows.len()
        invariant
            i <= rows@.len(),
            acc@ == spec_rows_text(rows@.subrange(0, i as int), key@),
        decreases rows@.len() - i,
    {
        let ghost prefix = rows@.subrange(0, i as int);
        let ghost prefix2 = rows@.subrange(0, (i + 1) as int);
        proof {
            assert(prefix2.drop_last() =~= prefix);
            assert(prefix2.last() == rows@[i as int]);
        }
        append_row_text(&mut acc, &rows[i], key);
        i += 1;
    }
    proof {
        assert(rows@.subrange(0, rows@.len() as int) =~= rows@);
    }
    acc
}

/// Turn the rows of the two SSH queries into the pair of key file paths.
/// Succeeds exactly when both concatenated paths are nonempty.
pub fn extract_ssh_paths(public_rows: &Vec<SqlRow>, private_rows: &Vec<SqlRow>) -> (r: Result<
    (String, String),
    StoreError,
>)
    ensures
        match r {
            Ok(p) => {
                &&& p.0@ == spec_rows_text(public_rows@, "path"@)
                &&& p.1@ == spec_rows_text(private_rows@, "path"@)
                &&& p.0@.len() > 0 && p.1@.len() > 0
            },
            Err(e) => e == StoreError::NotFound && (spec_rows_text(public_rows@, "path"@).len()
                == 0 || spec_rows_text(private_rows@, "path"@).len() == 0),
        },
{
    let public = collect_rows_text(public_rows, "path");
    let private = collect_rows_text(private_rows, "path");
    if public.as_str().unicode_len() > 0 && private.as_str().unicode_len() > 0 {
        Ok((public, private))
    } else {
        Err(StoreError::NotFound)
    }
}

/// A station registered in the admin backend.
#[derive(Debug, Clone)]
pub struct Station {
    pub name: String,
    pub ip: String,
}

/// Turn the rows of the station query into station records: per row, the
/// text under `name` and the text under `ip`.
pub fn stations_from_rows(rows: &Vec<SqlRow>) -> (r: Vec<Station>)
    ensures
        r@.len() == rows@.len(),
        forall|i: int|
            0 <= i < rows@.len() ==> #[trigger] r@[i].name@ == spec_row_text(rows@[i]@, "name"@)
                && r@[i].ip@ == spec_row_text(rows@[i]@, "ip"@),
{
    let mut out: Vec<Station> = Vec::new();
    let mut i: usize = 0;
    while i < rows.len()
        invariant
            i <= rows@.len(),
            out@.len() == i,
            forall|k: int|
                0 <= k < i ==> #[trigger] out@[k].name@ == spec_row_text(rows@[k]@, "name"@)
                    && out@[k].ip@ == spec_row_text(rows@[k]@, "ip"@),
        decreases rows@.len() - i,
    {
        let mut name = String::new();
        let mut ip = String::new();
        append_row_text(&mut name, &rows[i], "name");
        append_row_text(&mut ip, &rows[i], "ip");
        out.push(Station { name, ip });
        i += 1;
    }
    out
}

/// The statement that creates the three tables of the store.
pub const CREATE_QUERY: &'static str = "CREATE TABLE IF NOT EXISTS ssh_table (name TEXT, path TEXT); CREATE TABLE IF NOT EXISTS station_table (name TEXT, ip TEXT); CREATE TABLE IF NOT EXISTS ca_table (param TEXT, value TEXT);";

/// The query for the public SSH key path.
pub const GET_PUBLIC_QUERY: &'static str = "SELECT * FROM ssh_table WHERE name='public';";

/// The query for the private SSH key path.
pub const GET_PRIVATE_QUERY: &'static str = "SELECT * FROM ssh_table WHERE name='private';";

/// The statement that stores the two SSH key paths.
pub open spec fn spec_set_ssh_query(public: Seq<char>, private: Seq<char>) -> Seq<char> {
    "REPLACE INTO ssh_table (name, path) VALUES ('public', '"@ + public + "'), ('private', '"@
        + private + "');"@
}

/// Build the statement that stores the two SSH key paths.
pub fn set_ssh_query(public: &String, private: &String) -> (r: String)
    ensures
        r@ == spec_set_ssh_query(public@, private@),
{
    let mut q: String = "REPLACE INTO ssh_table (name, path) VALUES ('public', '".to_owned();
    q.append(public.as_str());
    q.append("'), ('private', '");
    q.append(private.as_str());
    q.append("');");
    q
}

/// The statement that stores one station record.
pub open spec fn spec_set_station_query(name: Seq<char>, ip: Seq<char>) -> Seq<char> {
    "REPLACE INTO station_table (name, ip) VALUES ('"@ + name + "', '"@ + ip + "');"@
}

/// Build the statement that stores one station record.
pub fn set_station_query(name: &String, ip: &String) -> (r: String)
    ensures
        r@ == spec_set_station_query(name@, ip@),
{
    let mut q: String = "REPLACE INTO station_table (name, ip) VALUES ('".to_owned();
    q.append(name.as_str());
    q.append("', '");
    q.append(ip.as_str());
    q.append("');");
    q
}

/// The query for one station's address.
pub open spec fn spec_station_ip_query(name: Seq<char>) -> Seq<char> {
    "SELECT * FROM station_table WHERE name = '"@ + name + "';"@
}

/// Build the query for one station's address.
pub fn station_ip_query(name: &String) -> (r: String)
    ensures
        r@ == spec_station_ip_query(name@),
{
    let mut q: String = "SELECT * FROM station_table WHERE name = '".to_owned();
    q.append(name.as_str());
    q.append("';");
    q
}

/// The statement that stores the configuration of the public-key
/// infrastructure.
pub open spec fn spec_pki_config_query(pki_dir: Seq<char>, infos: CertificateFields) -> Seq<char> {
    "REPLACE INTO ca_table (param, value) VALUES ('directory', '"@ + pki_dir
        + "'), ('org_name', '"@ + infos.org_name@ + "'), ('org_unit', '"@ + infos.org_unit@
        + "'), ('country', '"@ + infos.country@ + "'), ('validity', '"@ + spec_u32_digits(
        infos.validity as int,
    ) + "');"@
}

/// Build the statement that stores the configuration of the public-key
/// infrastructure.
pub fn pki_config_query(pki_dir: &String, infos: &CertificateFields) -> (r: String)
    ensures
        r@ == spec_pki_config_query(pki_dir@, *infos),
{
    let mut q: String = "REPLACE INTO ca_table (param, value) VALUES ('directory', '".to_owned();
    q.append(pki_dir.as_str());
    q.append("'), ('org_name', '");
    q.append(infos.org_name.as_str());
    q.append("'), ('org_unit', '");
    q.append(infos.org_unit.as_str());
    q.append("'), ('country', '");
    q.append(infos.country.as_str());
    q.append("'), ('validity', '");
    let v = u32_to_string(infos.validity);
    q.append(v.as_str());
    q.append("');");
    q
}

/// Initialize the application store: open the database at the given path
/// and create the tables. The handle is owned by the caller and threaded
/// through the query functions.
pub fn init_store(path: &str) -> (r: Result<Store, StoreError>) {
    let conn = db_open(path)?;
    db_execute(&conn, CREATE_QUERY)?;
    Ok(Store { conn })
}

/// Return the pair of paths to the public and the private SSH key. The
/// rows come from the database; a returned pair always holds two nonempty
/// paths, assembled by `extract_ssh_paths`.
pub fn get_ssh(store: &Store) -> (r: Result<(String, String), StoreError>)
    ensures
        r matches Ok(p) ==> p.0@.len() > 0 && p.1@.len() > 0,
{
    let public_rows = db_rows(&store.conn, GET_PUBLIC_QUERY)?;
    let private_rows = db_rows(&store.conn, GET_PRIVATE_QUERY)?;
    extract_ssh_paths(&public_rows, &private_rows)
}

/// Save the paths to the public and private SSH keys, after checking that
/// both point at existing files.
pub fn set_ssh(store: &Store, public: &String, private: &String) -> (r: Result<(), StoreError>)
    ensures
        r matches Err(e) && e == StoreError::InvalidPaths ==> true,
{
    if !path_is_file(public.as_str()) || !path_is_file(private.as_str()) {
        return Err(StoreError::InvalidPaths);
    }
    let query = set_ssh_query(public, private);
    db_execute(&store.conn, query.as_str())
}

/// Save one station record.
pub fn set_station(store: &Store, name: &String, ip: &String) -> (r: Result<(), StoreError>) {
    let query = set_station_query(name, ip);
    db_execute(&store.conn, query.as_str())
}

/// Get a station's address by name. The rows come from the database; a
/// returned address is the nonempty text under the `ip` column.
pub fn get_station_ip_by_name(store: &Store, name: &String) -> (r: Result<String, StoreError>)
    ensures
        r matches Ok(ip) ==> ip@.len() > 0,
{
    let query = station_ip_query(name);
    let rows = db_rows(&store.conn, query.as_str())?;
    let ip = collect_rows_text(&rows, "ip");
    if ip.as_str().unicode_len() > 0 {
        Ok(ip)
    } else {
        Err(StoreError::NotFound)
    }
}

/// Get the list of stations registered in the admin backend. The rows
/// come from the database; each is turned into a record by
/// `stations_from_rows`.
pub fn get_station_list(store: &Store) -> (r: Result<Vec<Station>, StoreError>) {
    let rows = db_rows(&store.conn, "SELECT * FROM station_table;")?;
    Ok(stations_from_rows(&rows))
}

/// Save the configuration of the public-key infrastructure.
pub fn set_pki_config(store: &Store, pki_dir: &String, infos: &CertificateFields) -> (r: Result<
    (),
    StoreError,
>) {
    let query = pki_config_query(pki_dir, infos);
    db_execute(&store.conn, query.as_str())
}

} // verus!
