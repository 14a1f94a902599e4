//! The peer database: SQLite through `rusqlite`, one connection per call.
//!
//! What a query returns depends on the file on disk, so the contracts here
//! say what each statement is handed (the parameter builders) and how a
//! fetched row is read (`peer_from_row`, `acl_rule_from_row` over
//! [`row_values`]), not which rows there are: the methods of [`Database`]
//! state nothing of their results.

use vstd::prelude::*;

verus! {

#[verifier::external_type_specification]
#[verifier::external_body]
pub struct ExConnection(rusqlite::Connection);

#[verifier::external_type_specification]
#[verifier::external_body]
pub struct ExStatement<'conn>(rusqlite::Statement<'conn>);

#[verifier::external_type_specification]
#[verifier::external_body]
pub struct ExRows<'stmt>(rusqlite::Rows<'stmt>);

#[verifier::external_type_specification]
#[verifier::external_body]
pub struct ExRow<'stmt>(rusqlite::Row<'stmt>);

/// A parameter of a statement.
pub enum SqlParam {
    Int(i64),
    Text(String),
    OptText(Option<String>),
}

/// A value as SQLite binds it to a `?` of a statement or holds it in a
/// column of a row.
pub enum SqlValue {
    Int(i64),
    /// Text that is valid UTF-8.
    Text(Seq<char>),
    Null,
    /// A real number, a blob, or text that is not valid UTF-8.
    Other,
}

/// The values of the columns of a fetched row, in the order of the query's
/// result columns: what the row holds.
pub uninterp spec fn row_values(row: &rusqlite::Row<'_>) -> Seq<SqlValue>;

/// The value of column `idx` of a row, if the row has that column.
pub open spec fn column(vals: Seq<SqlValue>, idx: int) -> Option<SqlValue> {
    if 0 <= idx < vals.len() {
        Some(vals[idx])
    } else {
        None
    }
}

impl View for SqlParam {
    type V = SqlValue;

    open spec fn view(&self) -> SqlValue {
        match self {
            SqlParam::Int(i) => SqlValue::Int(*i),
            SqlParam::Text(t) => SqlValue::Text(t@),
            SqlParam::OptText(Some(t)) => SqlValue::Text(t@),
            SqlParam::OptText(None) => SqlValue::Null,
        }
    }
}

/// The values that a list of parameters binds, in order.
pub open spec fn bound(ps: Seq<SqlParam>) -> Seq<SqlValue> {
    Seq::new(ps.len(), |i: int| ps[i]@)
}

/// An optional text: the text, or NULL.
pub open spec fn text_or_null(t: Option<Seq<char>>) -> SqlValue {
    match t {
        Some(x) => SqlValue::Text(x),
        None => SqlValue::Null,
    }
}

/// A flag as the database stores it: 1 or 0.
pub open spec fn flag_value(b: bool) -> i64 {
    if b {
        1
    } else {
        0
    }
}

/// A counter as the database stores it: the signed 64-bit integer with
/// the same bits.
pub open spec fn counter_value(n: u64) -> i64 {
    n as i64
}

/// Opens the database file (`Connection::open`); its error as text.
#[verifier::external_body]
fn open_connection(path: &str) -> (r: Result<rusqlite::Connection, String>) {
    match rusqlite::Connection::open(path) {
        Ok(c) => Ok(c),
        Err(e) => Err(e.to_string()),
    }
}

/// Runs statements that take no parameters (`Connection::execute_batch`).
#[verifier::external_body]
fn execute_batch(conn: &rusqlite::Connection, sql: &str) -> (r: Result<(), String>) {
    match conn.execute_batch(sql) {
        Ok(()) => Ok(()),
        Err(e) => Err(e.to_string()),
    }
}

/// Runs one statement with parameters (`Connection::execute`); the number
/// of rows it changed.
#[verifier::external_body]
fn execute(conn: &rusqlite::Connection, sql: &str, params: &Vec<SqlParam>) -> (r: Result<usize, String>) {
    let values: Vec<rusqlite::types::Value> = params.iter().map(|p| match p {
        SqlParam::Int(i) => rusqlite::types::Value::Integer(*i),
        SqlParam::Text(t) => rusqlite::types::Value::Text(t.clone()),
        SqlParam::OptText(Some(t)) => rusqlite::types::Value::Text(t.clone()),
        SqlParam::OptText(None) => rusqlite::types::Value::Null,
    }).collect();
    match conn.execute(sql, rusqlite::params_from_iter(values)) {
        Ok(n) => Ok(n),
        Err(e) => Err(e.to_string()),
    }
}

/// The row id of the last insert on this connection
/// (`Connection::last_insert_rowid`).
#[verifier::external_body]
fn last_insert_rowid(conn: &rusqlite::Connection) -> (r: i64) {
    conn.last_insert_rowid()
}

/// Prepares a statement (`Connection::prepare`).
#[verifier::external_body]
fn prepare<'c>(conn: &'c rusqlite::Connection, sql: &str) -> (r: Result<rusqlite::Statement<'c>, String>) {
    match conn.prepare(sql) {
        Ok(s) => Ok(s),
        Err(e) => Err(e.to_string()),
    }
}

/// Runs a prepared statement (`Statement::query`).
#[verifier::external_body]
fn query<'s, 'c>(stmt: &'s mut rusqlite::Statement<'c>, params: &Vec<SqlParam>) -> (r: Result<rusqlite::Rows<'s>, String>) {
    let values: Vec<rusqlite::types::Value> = params.iter().map(|p| match p {
        SqlParam::Int(i) => rusqlite::types::Value::Integer(*i),
        SqlParam::Text(t) => rusqlite::types::Value::Text(t.clone()),
        SqlParam::OptText(Some(t)) => rusqlite::types::Value::Text(t.clone()),
        SqlParam::OptText(None) => rusqlite::types::Value::Null,
    }).collect();
    match stmt.query(rusqlite::params_from_iter(values)) {
        Ok(r) => Ok(r),
        Err(e) => Err(e.to_string()),
    }
}

/// The next row of a query, if any (`Rows::next`).
#[verifier::external_body]
fn next_row<'a, 's>(rows: &'a mut rusqlite::Rows<'s>) -> (r: Result<Option<&'a rusqlite::Row<'s>>, String>) {
    match rows.next() {
        Ok(r) => Ok(r),
        Err(e) => Err(e.to_string()),
    }
}

/// A column as an integer (`Row::get::<_, i64>`): the column's integer;
/// an error for a missing column or a value of another kind.
#[verifier::external_body]
fn col_i64(row: &rusqlite::Row<'_>, idx: usize) -> (r: Result<i64, String>)
    ensures
        match column(row_values(row), idx as int) {
            Some(SqlValue::Int(v)) => r == Ok::<i64, String>(v),
            _ => r is Err,
        },
{
    match row.get::<usize, i64>(idx) {
        Ok(v) => Ok(v),
        Err(e) => Err(e.to_string()),
    }
}

/// A column as a 32-bit integer (`Row::get::<_, i32>`): the column's
/// integer when it fits in 32 bits; an error for a missing column, an
/// integer out of range, or a value of another kind.
#[verifier::external_body]
fn col_i32(row: &rusqlite::Row<'_>, idx: usize) -> (r: Result<i32, String>)
    ensures
        match column(row_values(row), idx as int) {
            Some(SqlValue::Int(v)) => if i32::MIN <= v <= i32::MAX {
                r == Ok::<i32, String>(v as i32)
            } else {
                r is Err
            },
            _ => r is Err,
        },
{
    match row.get::<usize, i32>(idx) {
        Ok(v) => Ok(v),
        Err(e) => Err(e.to_string()),
    }
}

/// A column as text (`Row::get::<_, String>`): the column's text; an
/// error for a missing column or a value of another kind.
#[verifier::external_body]
fn col_text(row: &rusqlite::Row<'_>, idx: usize) -> (r: Result<String, String>)
    ensures
        match column(row_values(row), idx as int) {
            Some(SqlValue::Text(t)) => r matches Ok(x) && x@ == t,
            _ => r is Err,
        },
{
    match row.get::<usize, String>(idx) {
        Ok(v) => Ok(v),
        Err(e) => Err(e.to_string()),
    }
}

/// A column as text or NULL (`Row::get::<_, Option<String>>`): none for
/// NULL, the column's text, or an error for a missing column or a value of
/// another kind.
#[verifier::external_body]
fn col_opt_text(row: &rusqlite::Row<'_>, idx: usize) -> (r: Result<Option<String>, String>)
    ensures
        match column(row_values(row), idx as int) {
            Some(SqlValue::Null) => r == Ok::<Option<String>, String>(None),
            Some(SqlValue::Text(t)) => r matches Ok(Some(x)) && x@ == t,
            _ => r is Err,
        },
{
    match row.get::<usize, Option<String>>(idx) {
        Ok(v) => Ok(v),
        Err(e) => Err(e.to_string()),
    }
}

/// A client peer.
#[derive(Debug, Clone)]
pub struct Peer {
    pub id: i64,
    pub name: String,
    pub public_key: String,
    pub private_key_encrypted: String,
    pub pre_shared_key: Option<String>,
    pub allocated_ip: String,
    pub is_active: bool,
    pub created_at: String,
}

/// An access-control rule of one peer.
#[derive(Debug, Clone)]
pub struct AclRule {
    pub id: i64,
    pub peer_id: i64,
    /// `"allow"` or `"deny"`.
    pub action: String,
    pub target_cidr: String,
    /// `"any"`, `"tcp"`, `"udp"` or `"icmp"`.
    pub protocol: String,
    /// `""`, `"80"` or `"80-443"` (tcp/udp only).
    pub port_range: String,
    pub description: String,
    pub priority: i64,
    pub created_at: String,
}

/// The traffic counters of one peer at one time.
#[derive(Debug, Clone)]
pub struct TrafficSnapshot {
    pub recorded_at: String,
    pub rx_bytes: u64,
    pub tx_bytes: u64,
}

/// The peer database, opened afresh for every statement. What its methods
/// return is what SQLite reads from the file, and whether they succeed is
/// SQLite's and the disk's: their contracts state nothing of either. What
/// each statement is handed is stated by the parameter builders, how a row
/// is read by `peer_from_row` and `acl_rule_from_row`, and the conversions
/// after each read by [`peer_from_columns`], [`snapshot_from_columns`],
/// [`created_peer`] and [`chronological`].
pub struct Database {
    path: String,
}

impl Database {
    /// The database file's path as stored.
    pub closed spec fn spec_path(&self) -> Seq<char> {
        self.path@
    }

    /// A database kept in the file at `path`. Opening never fails: the
    /// file is reached on each call, and its directory is made by the
    /// caller.
    pub fn open(path: &str) -> (r: Result<Database, String>)
        ensures
            r matches Ok(d) && d.spec_path() == path@,
    {
        Ok(Database { path: path.to_string() })
    }

    /// The database file's path.
    pub fn path(&self) -> (r: &str)
        ensures
            r@ == self.spec_path(),
    {
        self.path.as_str()
    }

    fn conn(&self) -> (r: Result<rusqlite::Connection, String>) {
        open_connection(self.path.as_str())
    }

    /// Creates the tables and indexes that are missing, and the ACL columns
    /// that an older database lacks (a failure to add them is ignored).
    pub fn init(&self) -> (r: Result<(), String>) {
        let c = self.conn()?;
        execute_batch(&c, SCHEMA)?;
        let c2 = self.conn()?;
        let none: Vec<SqlParam> = Vec::new();
        let _ = execute(
            &c2,
            "ALTER TABLE peer_acl_rules ADD COLUMN protocol TEXT NOT NULL DEFAULT 'any'",
            &none,
        );
        let _ = execute(
            &c2,
            "ALTER TABLE peer_acl_rules ADD COLUMN port_range TEXT NOT NULL DEFAULT ''",
            &none,
        );
        Ok(())
    }

    /// Reads every row of a query of peers (columns as in [`PEER_COLUMNS`]).
    fn query_peers(&self, sql: &str, params: &Vec<SqlParam>) -> (r: Result<Vec<Peer>, String>) {
        let c = self.conn()?;
        let mut stmt = prepare(&c, sql)?;
        let mut rows = query(&mut stmt, params)?;
        let mut out: Vec<Peer> = Vec::new();
        loop
            invariant
                out@.len() <= usize::MAX,
            decreases usize::MAX - out@.len(),
        {
            match next_row(&mut rows)? {
                Some(row) => {
                    if out.len() == usize::MAX {
                        return Err(too_many_rows());
                    }
                    let p = peer_from_row(row)?;
                    out.push(p);
                },
                None => {
                    return Ok(out);
                },
            }
        }
    }

    /// All peers, by id.
    pub fn list_peers(&self) -> (r: Result<Vec<Peer>, String>) {
        let none: Vec<SqlParam> = Vec::new();
        self.query_peers(
            "SELECT id, name, public_key, private_key_encrypted, pre_shared_key, allocated_ip, is_active, created_at FROM peers ORDER BY id ASC",
            &none,
        )
    }

    /// The peer with the given id, if any.
    pub fn get_peer(&self, peer_id: i64) -> (r: Result<Option<Peer>, String>) {
        let c = self.conn()?;
        let mut stmt = prepare(
            &c,
            "SELECT id, name, public_key, private_key_encrypted, pre_shared_key, allocated_ip, is_active, created_at FROM peers WHERE id = ?",
        )?;
        let params = id_params(peer_id);
        let mut rows = query(&mut stmt, &params)?;
        match next_row(&mut rows)? {
            Some(row) => {
                let p = peer_from_row(row)?;
                Ok(Some(p))
            },
            None => Ok(None),
        }
    }

    /// The addresses that peers hold, active or not (an address is unique
    /// among all peers).
    pub fn list_allocated_ips(&self) -> (r: Result<Vec<String>, String>) {
        let c = self.conn()?;
        let mut stmt = prepare(&c, "SELECT allocated_ip FROM peers")?;
        let none: Vec<SqlParam> = Vec::new();
        let mut rows = query(&mut stmt, &none)?;
        let mut out: Vec<String> = Vec::new();
        loop
            invariant
                out@.len() <= usize::MAX,
            decreases usize::MAX - out@.len(),
        {
            match next_row(&mut rows)? {
                Some(row) => {
                    if out.len() == usize::MAX {
                        return Err(too_many_rows());
                    }
                    let ip = col_text(row, 0)?;
                    out.push(ip);
                },
                None => {
                    return Ok(out);
                },
            }
        }
    }

    /// Stores a new peer, created now, and reads it back.
    pub fn create_peer(
        &self,
        name: &str,
        public_key: &str,
        private_key_encrypted: &str,
        pre_shared_key: Option<&str>,
        allocated_ip: &str,
        is_active: bool,
    ) -> (r: Result<Peer, String>) {
        let created_at = now_rfc3339();
        let c = self.conn()?;
        let params = peer_insert_params(
            name,
            public_key,
            private_key_encrypted,
            pre_shared_key,
            allocated_ip,
            is_active,
            created_at.as_str(),
        );
        execute(&c, INSERT_PEER, &params)?;
        let id = last_insert_rowid(&c);
        created_peer(self.get_peer(id))
    }

    /// Sets a peer's active flag.
    pub fn set_peer_active(&self, peer_id: i64, is_active: bool) -> (r: Result<(), String>) {
        let c = self.conn()?;
        let params = peer_active_params(peer_id, is_active);
        execute(&c, UPDATE_PEER_ACTIVE, &params)?;
        Ok(())
    }

    /// Deletes a peer.
    pub fn delete_peer(&self, peer_id: i64) -> (r: Result<(), String>) {
        let c = self.conn()?;
        let params = id_params(peer_id);
        execute(&c, "DELETE FROM peers WHERE id = ?", &params)?;
        Ok(())
    }

    /// Renames a peer.
    pub fn update_peer_name(&self, peer_id: i64, name: &str) -> (r: Result<(), String>) {
        let c = self.conn()?;
        let params = peer_name_params(peer_id, name);
        execute(&c, UPDATE_PEER_NAME, &params)?;
        Ok(())
    }

    /// Stores a peer's traffic counters as of now (as signed 64-bit
    /// integers, the width SQLite stores).
    pub fn record_traffic_snapshot(&self, peer_id: i64, rx_bytes: u64, tx_bytes: u64) -> (r: Result<(), String>) {
        let recorded_at = now_rfc3339();
        let c = self.conn()?;
        let params = snapshot_insert_params(peer_id, recorded_at.as_str(), rx_bytes, tx_bytes);
        execute(&c, INSERT_SNAPSHOT, &params)?;
        Ok(())
    }

    /// The latest `limit` snapshots of a peer, oldest first.
    pub fn get_traffic_history(&self, peer_id: i64, limit: i64) -> (r: Result<Vec<TrafficSnapshot>, String>) {
        let c = self.conn()?;
        let mut stmt = prepare(
            &c,
            "SELECT recorded_at, rx_bytes, tx_bytes FROM peer_traffic_log WHERE peer_id = ? ORDER BY recorded_at DESC LIMIT ?",
        )?;
        let params = history_params(peer_id, limit);
        let mut rows = query(&mut stmt, &params)?;
        let mut out: Vec<TrafficSnapshot> = Vec::new();
        loop
            invariant
                out@.len() <= usize::MAX,
            decreases usize::MAX - out@.len(),
        {
            match next_row(&mut rows)? {
                Some(row) => {
                    if out.len() == usize::MAX {
                        return Err(too_many_rows());
                    }
                    let recorded_at = col_text(row, 0)?;
                    let rx = col_i64(row, 1)?;
                    let tx = col_i64(row, 2)?;
                    out.push(snapshot_from_columns(recorded_at, rx, tx));
                },
                None => {
                    return Ok(chronological(out));
                },
            }
        }
    }

    /// Reads every row of a query of ACL rules (columns as in [`ACL_COLUMNS`]).
    fn query_acl_rules(&self, sql: &str, params: &Vec<SqlParam>) -> (r: Result<Vec<AclRule>, String>) {
        let c = self.conn()?;
        let mut stmt = prepare(&c, sql)?;
        let mut rows = query(&mut stmt, params)?;
        let mut out: Vec<AclRule> = Vec::new();
        loop
            invariant
                out@.len() <= usize::MAX,
            decreases usize::MAX - out@.len(),
        {
            match next_row(&mut rows)? {
                Some(row) => {
                    if out.len() == usize::MAX {
                        return Err(too_many_rows());
                    }
                    let a = acl_rule_from_row(row)?;
                    out.push(a);
                },
                None => {
                    return Ok(out);
                },
            }
        }
    }

    /// The ACL rules of a peer, by priority, then id.
    pub fn list_acl_rules(&self, peer_id: i64) -> (r: Result<Vec<AclRule>, String>) {
        let params = id_params(peer_id);
        self.query_acl_rules(
            "SELECT id, peer_id, action, target_cidr, protocol, port_range, description, priority, created_at FROM peer_acl_rules WHERE peer_id = ? ORDER BY priority ASC, id ASC",
            &params,
        )
    }

    /// All ACL rules, by peer, priority, then id.
    pub fn list_all_acl_rules(&self) -> (r: Result<Vec<AclRule>, String>) {
        let none: Vec<SqlParam> = Vec::new();
        self.query_acl_rules(
            "SELECT id, peer_id, action, target_cidr, protocol, port_range, description, priority, created_at FROM peer_acl_rules ORDER BY peer_id ASC, priority ASC, id ASC",
            &none,
        )
    }

    /// Stores a new ACL rule, created now, and reads it back.
    pub fn create_acl_rule(
        &self,
        peer_id: i64,
        action: &str,
        target_cidr: &str,
        protocol: &str,
        port_range: &str,
        description: &str,
        priority: i64,
    ) -> (r: Result<AclRule, String>) {
        let created_at = now_rfc3339();
        let c = self.conn()?;
        let params = acl_rule_insert_params(
            peer_id,
            action,
            target_cidr,
            protocol,
            port_range,
            description,
            priority,
            created_at.as_str(),
        );
        execute(&c, INSERT_ACL_RULE, &params)?;
        let id = last_insert_rowid(&c);
        let mut stmt = prepare(
            &c,
            "SELECT id, peer_id, action, target_cidr, protocol, port_range, description, priority, created_at FROM peer_acl_rules WHERE id = ?",
        )?;
        let params2 = id_params(id);
        let mut rows = query(&mut stmt, &params2)?;
        match next_row(&mut rows)? {
            Some(row) => acl_rule_from_row(row),
            None => Err("inserted rule not found".to_string()),
        }
    }

    /// Deletes an ACL rule.
    pub fn delete_acl_rule(&self, rule_id: i64) -> (r: Result<(), String>) {
        let c = self.conn()?;
        let params = id_params(rule_id);
        execute(&c, "DELETE FROM peer_acl_rules WHERE id = ?", &params)?;
        Ok(())
    }

    /// The ACL rules of a peer as they are applied to the firewall: all of
    /// them, in the order of [`Database::list_acl_rules`].
    pub fn get_peer_acl_rules_for_apply(&self, peer_id: i64) -> (r: Result<Vec<AclRule>, String>) {
        self.list_acl_rules(peer_id)
    }

    /// Keeps the latest `keep_per_peer` snapshots of each peer and deletes
    /// the older ones.
    pub fn prune_traffic_log(&self, keep_per_peer: i64) -> (r: Result<(), String>) {
        let c = self.conn()?;
        let params = id_params(keep_per_peer);
        execute(
            &c,
            "DELETE FROM peer_traffic_log WHERE id NOT IN (SELECT id FROM (SELECT id, row_number() OVER (PARTITION BY peer_id ORDER BY recorded_at DESC) AS rn FROM peer_traffic_log) WHERE rn <= ?)",
            &params,
        )?;
        Ok(())
    }
}

// ---------------------------------------------------------------------
// Statements and their parameters
// ---------------------------------------------------------------------

/// Inserts a peer; its parameters are those of [`peer_insert_params`].
pub const INSERT_PEER: &'static str = "INSERT INTO peers (name, public_key, private_key_encrypted, pre_shared_key, allocated_ip, is_active, created_at) VALUES (?, ?, ?, ?, ?, ?, ?)";

/// The parameters of [`INSERT_PEER`], in the order of its columns.
pub fn peer_insert_params(
    name: &str,
    public_key: &str,
    private_key_encrypted: &str,
    pre_shared_key: Option<&str>,
    allocated_ip: &str,
    is_active: bool,
    created_at: &str,
) -> (r: Vec<SqlParam>)
    ensures
        bound(r@) == seq![
            SqlValue::Text(name@),
            SqlValue::Text(public_key@),
            SqlValue::Text(private_key_encrypted@),
            text_or_null(pre_shared_key.deep_view()),
            SqlValue::Text(allocated_ip@),
            SqlValue::Int(flag_value(is_active)),
            SqlValue::Text(created_at@),
        ],
{
    let psk: Option<String> = match pre_shared_key {
        Some(k) => Some(k.to_string()),
        None => None,
    };
    let r = vec![
        SqlParam::Text(name.to_string()),
        SqlParam::Text(public_key.to_string()),
        SqlParam::Text(private_key_encrypted.to_string()),
        SqlParam::OptText(psk),
        SqlParam::Text(allocated_ip.to_string()),
        SqlParam::Int(if is_active { 1 } else { 0 }),
        SqlParam::Text(created_at.to_string()),
    ];
    proof {
        assert(bound(r@) =~= seq![
            SqlValue::Text(name@),
            SqlValue::Text(public_key@),
            SqlValue::Text(private_key_encrypted@),
            text_or_null(pre_shared_key.deep_view()),
            SqlValue::Text(allocated_ip@),
            SqlValue::Int(flag_value(is_active)),
            SqlValue::Text(created_at@),
        ]);
    }
    r
}

/// Sets a peer's active flag; its parameters are those of
/// [`peer_active_params`].
pub const UPDATE_PEER_ACTIVE: &'static str = "UPDATE peers SET is_active = ? WHERE id = ?";

/// The parameters of [`UPDATE_PEER_ACTIVE`]: the flag, then the id.
pub fn peer_active_params(peer_id: i64, is_active: bool) -> (r: Vec<SqlParam>)
    ensures
        bound(r@) == seq![SqlValue::Int(flag_value(is_active)), SqlValue::Int(peer_id)],
{
    let r = vec![SqlParam::Int(if is_active { 1 } else { 0 }), SqlParam::Int(peer_id)];
    proof {
        assert(bound(r@) =~= seq![SqlValue::Int(flag_value(is_active)), SqlValue::Int(peer_id)]);
    }
    r
}

/// Renames a peer; its parameters are those of [`peer_name_params`].
pub const UPDATE_PEER_NAME: &'static str = "UPDATE peers SET name = ? WHERE id = ?";

/// The parameters of [`UPDATE_PEER_NAME`]: the name, then the id.
pub fn peer_name_params(peer_id: i64, name: &str) -> (r: Vec<SqlParam>)
    ensures
        bound(r@) == seq![SqlValue::Text(name@), SqlValue::Int(peer_id)],
{
    let r = vec![SqlParam::Text(name.to_string()), SqlParam::Int(peer_id)];
    proof {
        assert(bound(r@) =~= seq![SqlValue::Text(name@), SqlValue::Int(peer_id)]);
    }
    r
}

/// Stores a traffic snapshot; its parameters are those of
/// [`snapshot_insert_params`].
pub const INSERT_SNAPSHOT: &'static str = "INSERT INTO peer_traffic_log (peer_id, recorded_at, rx_bytes, tx_bytes) VALUES (?, ?, ?, ?)";

/// The parameters of [`INSERT_SNAPSHOT`], in the order of its columns.
pub fn snapshot_insert_params(peer_id: i64, recorded_at: &str, rx_bytes: u64, tx_bytes: u64) -> (r: Vec<SqlParam>)
    ensures
        bound(r@) == seq![
            SqlValue::Int(peer_id),
            SqlValue::Text(recorded_at@),
            SqlValue::Int(counter_value(rx_bytes)),
            SqlValue::Int(counter_value(tx_bytes)),
        ],
{
    let r = vec![
        SqlParam::Int(peer_id),
        SqlParam::Text(recorded_at.to_string()),
        SqlParam::Int(#[verifier::truncate] (rx_bytes as i64)),
        SqlParam::Int(#[verifier::truncate] (tx_bytes as i64)),
    ];
    proof {
        assert(bound(r@) =~= seq![
            SqlValue::Int(peer_id),
            SqlValue::Text(recorded_at@),
            SqlValue::Int(counter_value(rx_bytes)),
            SqlValue::Int(counter_value(tx_bytes)),
        ]);
    }
    r
}

/// Inserts an ACL rule; its parameters are those of
/// [`acl_rule_insert_params`].
pub const INSERT_ACL_RULE: &'static str = "INSERT INTO peer_acl_rules (peer_id, action, target_cidr, protocol, port_range, description, priority, created_at) VALUES (?, ?, ?, ?, ?, ?, ?, ?)";

/// The parameters of [`INSERT_ACL_RULE`], in the order of its columns.
pub fn acl_rule_insert_params(
    peer_id: i64,
    action: &str,
    target_cidr: &str,
    protocol: &str,
    port_range: &str,
    description: &str,
    priority: i64,
    created_at: &str,
) -> (r: Vec<SqlParam>)
    ensures
        bound(r@) == seq![
            SqlValue::Int(peer_id),
            SqlValue::Text(action@),
            SqlValue::Text(target_cidr@),
            SqlValue::Text(protocol@),
            SqlValue::Text(port_range@),
            SqlValue::Text(description@),
            SqlValue::Int(priority),
            SqlValue::Text(created_at@),
        ],
{
    let r = vec![
        SqlParam::Int(peer_id),
        SqlParam::Text(action.to_string()),
        SqlParam::Text(target_cidr.to_string()),
        SqlParam::Text(protocol.to_string()),
        SqlParam::Text(port_range.to_string()),
        SqlParam::Text(description.to_string()),
        SqlParam::Int(priority),
        SqlParam::Text(created_at.to_string()),
    ];
    proof {
        assert(bound(r@) =~= seq![
            SqlValue::Int(peer_id),
            SqlValue::Text(action@),
            SqlValue::Text(target_cidr@),
            SqlValue::Text(protocol@),
            SqlValue::Text(port_range@),
            SqlValue::Text(description@),
            SqlValue::Int(priority),
            SqlValue::Text(created_at@),
        ]);
    }
    r
}

/// The parameters of a statement that takes one id (or one count).
pub fn id_params(id: i64) -> (r: Vec<SqlParam>)
    ensures
        bound(r@) == seq![SqlValue::Int(id)],
{
    let r = vec![SqlParam::Int(id)];
    proof {
        assert(bound(r@) =~= seq![SqlValue::Int(id)]);
    }
    r
}

/// The parameters of the traffic history's query: the peer, then the
/// number of snapshots.
pub fn history_params(peer_id: i64, limit: i64) -> (r: Vec<SqlParam>)
    ensures
        bound(r@) == seq![SqlValue::Int(peer_id), SqlValue::Int(limit)],
{
    let r = vec![SqlParam::Int(peer_id), SqlParam::Int(limit)];
    proof {
        assert(bound(r@) =~= seq![SqlValue::Int(peer_id), SqlValue::Int(limit)]);
    }
    r
}

/// An ACL rule from the columns of its row.
pub fn acl_rule_from_columns(
    id: i64,
    peer_id: i64,
    action: String,
    target_cidr: String,
    protocol: String,
    port_range: String,
    description: String,
    priority: i64,
    created_at: String,
) -> (r: AclRule)
    ensures
        r.id == id,
        r.peer_id == peer_id,
        r.action == action,
        r.target_cidr == target_cidr,
        r.protocol == protocol,
        r.port_range == port_range,
        r.description == description,
        r.priority == priority,
        r.created_at == created_at,
{
    AclRule { id, peer_id, action, target_cidr, protocol, port_range, description, priority, created_at }
}

/// The active flag goes through the database unchanged, as far as the
/// library's part goes: a row whose `is_active` column holds the value
/// that [`peer_active_params`] or [`peer_insert_params`] binds for `b` is
/// read back as a peer with `is_active == b`.
pub proof fn lemma_active_flag_round_trip(b: bool, vals: Seq<SqlValue>, p: Peer)
    requires
        column(vals, 6) == Some(SqlValue::Int(flag_value(b))),
        peer_row_is(vals, p),
    ensures
        p.is_active == b,
{
}

/// The tables and indexes of the database.
pub const SCHEMA: &'static str = "CREATE TABLE IF NOT EXISTS peers (id INTEGER PRIMARY KEY AUTOINCREMENT, name TEXT NOT NULL, public_key TEXT NOT NULL UNIQUE, private_key_encrypted TEXT NOT NULL, pre_shared_key TEXT, allocated_ip TEXT NOT NULL UNIQUE, is_active INTEGER NOT NULL DEFAULT 1, created_at TEXT NOT NULL); CREATE TABLE IF NOT EXISTS peer_traffic_log (id INTEGER PRIMARY KEY AUTOINCREMENT, peer_id INTEGER NOT NULL REFERENCES peers(id) ON DELETE CASCADE, recorded_at TEXT NOT NULL, rx_bytes INTEGER NOT NULL DEFAULT 0, tx_bytes INTEGER NOT NULL DEFAULT 0); CREATE INDEX IF NOT EXISTS idx_traffic_log_peer_time ON peer_traffic_log(peer_id, recorded_at); CREATE TABLE IF NOT EXISTS peer_acl_rules (id INTEGER PRIMARY KEY AUTOINCREMENT, peer_id INTEGER NOT NULL REFERENCES peers(id) ON DELETE CASCADE, action TEXT NOT NULL CHECK(action IN ('allow', 'deny')), target_cidr TEXT NOT NULL, protocol TEXT NOT NULL DEFAULT 'any', port_range TEXT NOT NULL DEFAULT '', description TEXT NOT NULL DEFAULT '', priority INTEGER NOT NULL DEFAULT 100, created_at TEXT NOT NULL); CREATE INDEX IF NOT EXISTS idx_acl_peer ON peer_acl_rules(peer_id, priority);";

/// The error of a query with more rows than a vector can hold, which no
/// database file reaches before memory runs out.
fn too_many_rows() -> (r: String)
    ensures
        r@ == "too many rows"@,
{
    "too many rows".to_string()
}

/// A time in RFC 3339 form to the second in UTC: `…-MM-DDTHH:MM:SSZ`.
pub open spec fn is_utc_seconds_time(s: Seq<char>) -> bool {
    &&& s.len() >= 20
    &&& s[s.len() - 1] == 'Z'
    &&& s[s.len() - 4] == ':'
    &&& s[s.len() - 7] == ':'
    &&& s[s.len() - 10] == 'T'
    &&& s[s.len() - 13] == '-'
    &&& s[s.len() - 16] == '-'
}

/// The current time in RFC 3339 form to the second, in UTC with `Z`
/// (`chrono::Utc::now().to_rfc3339_opts(SecondsFormat::Secs, true)`).
/// Which time it is, is the clock's; only its form is stated.
#[verifier::external_body]
fn now_rfc3339() -> (r: String)
    ensures
        is_utc_seconds_time(r@),
{
    chrono::Utc::now().to_rfc3339_opts(chrono::SecondsFormat::Secs, true)
}

/// Whether the values of a row can be read as a peer: `id, name,
/// public_key, private_key_encrypted, pre_shared_key, allocated_ip,
/// is_active, created_at` as integer, four texts with the preshared key
/// possibly NULL, a 32-bit integer, and a text.
pub open spec fn peer_row_readable(vals: Seq<SqlValue>) -> bool {
    &&& column(vals, 0) matches Some(SqlValue::Int(_))
    &&& column(vals, 1) matches Some(SqlValue::Text(_))
    &&& column(vals, 2) matches Some(SqlValue::Text(_))
    &&& column(vals, 3) matches Some(SqlValue::Text(_))
    &&& (column(vals, 4) matches Some(SqlValue::Text(_)) || column(vals, 4) == Some(SqlValue::Null))
    &&& column(vals, 5) matches Some(SqlValue::Text(_))
    &&& (column(vals, 6) matches Some(SqlValue::Int(a)) && i32::MIN <= a <= i32::MAX)
    &&& column(vals, 7) matches Some(SqlValue::Text(_))
}

/// The peer is the one that the values of its row describe; a non-zero
/// `is_active` column is active.
pub open spec fn peer_row_is(vals: Seq<SqlValue>, p: Peer) -> bool {
    &&& column(vals, 0) == Some(SqlValue::Int(p.id))
    &&& column(vals, 1) == Some(SqlValue::Text(p.name@))
    &&& column(vals, 2) == Some(SqlValue::Text(p.public_key@))
    &&& column(vals, 3) == Some(SqlValue::Text(p.private_key_encrypted@))
    &&& column(vals, 4) == Some(text_or_null(p.pre_shared_key.deep_view()))
    &&& column(vals, 5) == Some(SqlValue::Text(p.allocated_ip@))
    &&& (column(vals, 6) matches Some(SqlValue::Int(a)) && p.is_active == (a != 0))
    &&& column(vals, 7) == Some(SqlValue::Text(p.created_at@))
}

/// Whether the values of a row can be read as an ACL rule: `id, peer_id,
/// action, target_cidr, protocol, port_range, description, priority,
/// created_at` as two integers, five texts, an integer and a text.
pub open spec fn acl_row_readable(vals: Seq<SqlValue>) -> bool {
    &&& column(vals, 0) matches Some(SqlValue::Int(_))
    &&& column(vals, 1) matches Some(SqlValue::Int(_))
    &&& column(vals, 2) matches Some(SqlValue::Text(_))
    &&& column(vals, 3) matches Some(SqlValue::Text(_))
    &&& column(vals, 4) matches Some(SqlValue::Text(_))
    &&& column(vals, 5) matches Some(SqlValue::Text(_))
    &&& column(vals, 6) matches Some(SqlValue::Text(_))
    &&& column(vals, 7) matches Some(SqlValue::Int(_))
    &&& column(vals, 8) matches Some(SqlValue::Text(_))
}

/// The rule is the one that the values of its row describe.
pub open spec fn acl_row_is(vals: Seq<SqlValue>, a: AclRule) -> bool {
    &&& column(vals, 0) == Some(SqlValue::Int(a.id))
    &&& column(vals, 1) == Some(SqlValue::Int(a.peer_id))
    &&& column(vals, 2) == Some(SqlValue::Text(a.action@))
    &&& column(vals, 3) == Some(SqlValue::Text(a.target_cidr@))
    &&& column(vals, 4) == Some(SqlValue::Text(a.protocol@))
    &&& column(vals, 5) == Some(SqlValue::Text(a.port_range@))
    &&& column(vals, 6) == Some(SqlValue::Text(a.description@))
    &&& column(vals, 7) == Some(SqlValue::Int(a.priority))
    &&& column(vals, 8) == Some(SqlValue::Text(a.created_at@))
}

/// A peer from a row of `id, name, public_key, private_key_encrypted,
/// pre_shared_key, allocated_ip, is_active, created_at`; a non-zero
/// `is_active` is active.
fn peer_from_row(row: &rusqlite::Row<'_>) -> (r: Result<Peer, String>)
    ensures
        (r is Ok) == peer_row_readable(row_values(row)),
        r matches Ok(p) ==> peer_row_is(row_values(row), p),
{
    let id = col_i64(row, 0)?;
    let name = col_text(row, 1)?;
    let public_key = col_text(row, 2)?;
    let private_key_encrypted = col_text(row, 3)?;
    let pre_shared_key = col_opt_text(row, 4)?;
    let allocated_ip = col_text(row, 5)?;
    let active = col_i32(row, 6)?;
    let created_at = col_text(row, 7)?;
    Ok(peer_from_columns(id, name, public_key, private_key_encrypted, pre_shared_key, allocated_ip, active, created_at))
}

/// A peer from the columns of its row; a non-zero `is_active` column is
/// active.
pub fn peer_from_columns(
    id: i64,
    name: String,
    public_key: String,
    private_key_encrypted: String,
    pre_shared_key: Option<String>,
    allocated_ip: String,
    active: i32,
    created_at: String,
) -> (r: Peer)
    ensures
        r.id == id,
        r.name == name,
        r.public_key == public_key,
        r.private_key_encrypted == private_key_encrypted,
        r.pre_shared_key == pre_shared_key,
        r.allocated_ip == allocated_ip,
        r.is_active == (active != 0),
        r.created_at == created_at,
{
    Peer {
        id,
        name,
        public_key,
        private_key_encrypted,
        pre_shared_key,
        allocated_ip,
        is_active: active != 0,
        created_at,
    }
}

/// A traffic snapshot from the columns of its row: the counters, stored as
/// signed 64-bit integers, are read back as the unsigned numbers whose bits
/// they hold.
pub fn snapshot_from_columns(recorded_at: String, rx: i64, tx: i64) -> (r: TrafficSnapshot)
    ensures
        r.recorded_at == recorded_at,
        r.rx_bytes == rx as u64,
        r.tx_bytes == tx as u64,
{
    TrafficSnapshot { recorded_at, rx_bytes: #[verifier::truncate] (rx as u64), tx_bytes: #[verifier::truncate] (tx as u64) }
}

/// The peer that a creation reads back by its new id: the stored peer, an
/// error when it is missing, or the error of the read.
pub fn created_peer(found: Result<Option<Peer>, String>) -> (r: Result<Peer, String>)
    ensures
        match found {
            Ok(Some(p)) => r == Ok::<Peer, String>(p),
            Ok(None) => r matches Err(e) && e@ == "created peer not found"@,
            Err(e) => r matches Err(x) && x@ == e@,
        },
{
    match found {
        Ok(Some(p)) => Ok(p),
        Ok(None) => Err("created peer not found".to_string()),
        Err(e) => Err(e),
    }
}

/// An ACL rule from a row of `id, peer_id, action, target_cidr, protocol,
/// port_range, description, priority, created_at`.
fn acl_rule_from_row(row: &rusqlite::Row<'_>) -> (r: Result<AclRule, String>)
    ensures
        (r is Ok) == acl_row_readable(row_values(row)),
        r matches Ok(a) ==> acl_row_is(row_values(row), a),
{
    let id = col_i64(row, 0)?;
    let peer_id = col_i64(row, 1)?;
    let action = col_text(row, 2)?;
    let target_cidr = col_text(row, 3)?;
    let protocol = col_text(row, 4)?;
    let port_range = col_text(row, 5)?;
    let description = col_text(row, 6)?;
    let priority = col_i64(row, 7)?;
    let created_at = col_text(row, 8)?;
    Ok(acl_rule_from_columns(id, peer_id, action, target_cidr, protocol, port_range, description, priority, created_at))
}

/// The snapshots in the opposite order: the database hands them out newest
/// first, the history lists them oldest first.
pub fn chronological(newest_first: Vec<TrafficSnapshot>) -> (r: Vec<TrafficSnapshot>)
    ensures
        r@ == newest_first@.reverse(),
{
    let mut out: Vec<TrafficSnapshot> = Vec::new();
    let mut rest = newest_first;
    let ghost all = rest@;
    while rest.len() > 0
        invariant
            all == rest@ + out@.reverse(),
        decreases rest.len(),
    {
        let ghost before_rest = rest@;
        let ghost before_out = out@;
        let x = rest.pop().unwrap();
        out.push(x);
        proof {
            assert(before_rest =~= rest@.push(x));
            assert(out@.reverse() =~= seq![x] + before_out.reverse());
            assert(all =~= rest@ + out@.reverse());
        }
    }
    proof {
        assert(all =~= out@.reverse());
        assert(out@ =~= out@.reverse().reverse());
    }
    out
}

} // verus!
