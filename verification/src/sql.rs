//! SQL statements and queries that the receiver sends to SQLite: their text,
//! the values bound to their `?` placeholders in order, and what a query
//! fetches.
use vstd::prelude::*;
use crate::json::{Json, JsonNumber};
use crate::names::{quote_name, quoted_name};

verus! {

/// A value bound to a placeholder.
pub enum SqlParam {
    Integer(i64),
    Text(String),
    /// A REAL, the value of the number.
    Real(JsonNumber),
    /// The compact JSON text of a document.
    JsonText(Json),
}

/// A bound value as the contracts see it.
pub enum ParamV {
    Integer(i64),
    Text(Seq<char>),
    Real(Option<i64>, Seq<char>),
    JsonText(Json),
}

impl View for SqlParam {
    type V = ParamV;

    open spec fn view(&self) -> ParamV {
        match self {
            SqlParam::Integer(i) => ParamV::Integer(*i),
            SqlParam::Text(s) => ParamV::Text(s@),
            SqlParam::Real(n) => ParamV::Real(n.int, n.text@),
            SqlParam::JsonText(j) => ParamV::JsonText(*j),
        }
    }
}

/// The views of a list of bound values.
pub open spec fn params_view(ps: Seq<SqlParam>) -> Seq<ParamV> {
    ps.map_values(|p: SqlParam| p@)
}

/// `a` followed by `b`.
pub fn cat(a: &str, b: &str) -> (r: String)
    ensures
        r@ == a@ + b@,
{
    String::from_str(a).concat(b)
}

/// `a` followed by `b` and `c`.
pub fn cat3(a: &str, b: &str, c: &str) -> (r: String)
    ensures
        r@ == a@ + b@ + c@,
{
    String::from_str(a).concat(b).concat(c)
}

// ---------------------------------------------------------------------------
// Storage of pushed captures
// ---------------------------------------------------------------------------

/// The table of a stock chart, keyed by candle time. Its name is quoted,
/// so that it names the table `table` whatever characters it holds.
pub open spec fn chart_table_sql(table: Seq<char>) -> Seq<char> {
    "CREATE TABLE IF NOT EXISTS "@ + quoted_name(table)
        + " (\n                time TEXT PRIMARY KEY,\n                open REAL,\n                high REAL,\n                low REAL,\n                close REAL,\n                volume REAL,\n                interest REAL,\n                market_trading_state TEXT\n            )"@
}

pub fn chart_table(table: &str) -> (r: String)
    ensures
        r@ == chart_table_sql(table@),
{
    let name = quote_name(table);
    cat3(
        "CREATE TABLE IF NOT EXISTS ",
        name.as_str(),
        " (\n                time TEXT PRIMARY KEY,\n                open REAL,\n                high REAL,\n                low REAL,\n                close REAL,\n                volume REAL,\n                interest REAL,\n                market_trading_state TEXT\n            )",
    )
}

/// Stores one candle, replacing the candle of the same time, in the chart
/// table `table` (quoted).
pub open spec fn chart_insert_sql(table: Seq<char>) -> Seq<char> {
    "INSERT OR REPLACE INTO "@ + quoted_name(table)
        + " (time, open, high, low, close, volume, interest, market_trading_state) VALUES (?, ?, ?, ?, ?, ?, ?, ?)"@
}

pub fn chart_insert(table: &str) -> (r: String)
    ensures
        r@ == chart_insert_sql(table@),
{
    let name = quote_name(table);
    cat3(
        "INSERT OR REPLACE INTO ",
        name.as_str(),
        " (time, open, high, low, close, volume, interest, market_trading_state) VALUES (?, ?, ?, ?, ?, ?, ?, ?)",
    )
}

/// The transactions table, keyed by booking record.
pub open spec fn transactions_table_sql() -> Seq<char> {
    "CREATE TABLE IF NOT EXISTS transactions (\n            bk_record_id INTEGER PRIMARY KEY,\n            account_id TEXT,\n            date TEXT,\n            booked_amount REAL,\n            currency TEXT,\n            event TEXT,\n            instrument_symbol TEXT,\n            transaction_type TEXT,\n            data TEXT\n        )"@
}

pub fn transactions_table() -> (r: String)
    ensures
        r@ == transactions_table_sql(),
{
    String::from_str(
        "CREATE TABLE IF NOT EXISTS transactions (\n            bk_record_id INTEGER PRIMARY KEY,\n            account_id TEXT,\n            date TEXT,\n            booked_amount REAL,\n            currency TEXT,\n            event TEXT,\n            instrument_symbol TEXT,\n            transaction_type TEXT,\n            data TEXT\n        )",
    )
}

pub open spec fn transactions_date_index_sql() -> Seq<char> {
    "CREATE INDEX IF NOT EXISTS idx_transactions_date ON transactions (date)"@
}

pub fn transactions_date_index() -> (r: String)
    ensures
        r@ == transactions_date_index_sql(),
{
    String::from_str("CREATE INDEX IF NOT EXISTS idx_transactions_date ON transactions (date)")
}

pub open spec fn transactions_symbol_index_sql() -> Seq<char> {
    "CREATE INDEX IF NOT EXISTS idx_transactions_symbol ON transactions (instrument_symbol)"@
}

pub fn transactions_symbol_index() -> (r: String)
    ensures
        r@ == transactions_symbol_index_sql(),
{
    String::from_str(
        "CREATE INDEX IF NOT EXISTS idx_transactions_symbol ON transactions (instrument_symbol)",
    )
}

/// Stores one transaction unless its booking record is already stored.
pub open spec fn transactions_insert_sql() -> Seq<char> {
    "INSERT OR IGNORE INTO transactions (bk_record_id, account_id, date, booked_amount, currency, event, instrument_symbol, transaction_type, data) VALUES (?, ?, ?, ?, ?, ?, ?, ?, ?)"@
}

pub fn transactions_insert() -> (r: String)
    ensures
        r@ == transactions_insert_sql(),
{
    String::from_str(
        "INSERT OR IGNORE INTO transactions (bk_record_id, account_id, date, booked_amount, currency, event, instrument_symbol, transaction_type, data) VALUES (?, ?, ?, ?, ?, ?, ?, ?, ?)",
    )
}

/// The table of an ordinary capture target: one row per push.
pub open spec fn capture_table_sql(target: Seq<char>) -> Seq<char> {
    "CREATE TABLE IF NOT EXISTS "@ + target
        + " (\n            id INTEGER PRIMARY KEY AUTOINCREMENT,\n            timestamp INTEGER,\n            url TEXT,\n            data TEXT\n        )"@
}

pub fn capture_table(target: &str) -> (r: String)
    ensures
        r@ == capture_table_sql(target@),
{
    cat3(
        "CREATE TABLE IF NOT EXISTS ",
        target,
        " (\n            id INTEGER PRIMARY KEY AUTOINCREMENT,\n            timestamp INTEGER,\n            url TEXT,\n            data TEXT\n        )",
    )
}

pub open spec fn capture_index_sql(target: Seq<char>) -> Seq<char> {
    "CREATE INDEX IF NOT EXISTS idx_"@ + target + "_timestamp ON "@ + target + " (timestamp)"@
}

pub fn capture_index(target: &str) -> (r: String)
    ensures
        r@ == capture_index_sql(target@),
{
    cat3("CREATE INDEX IF NOT EXISTS idx_", target, "_timestamp ON ").concat(target).concat(
        " (timestamp)",
    )
}

/// The row of one push, stored unless a row with the same time, page and
/// document is stored already: a push sent twice is stored once.
pub open spec fn capture_insert_sql(target: Seq<char>) -> Seq<char> {
    "INSERT INTO "@ + target
        + " (timestamp, url, data) SELECT v.ts, v.u, v.d FROM (SELECT ? AS ts, ? AS u, ? AS d) AS v WHERE NOT EXISTS (SELECT 1 FROM "@ + target
        + " WHERE timestamp = v.ts AND url = v.u AND data = v.d)"@
}

pub fn capture_insert(target: &str) -> (r: String)
    ensures
        r@ == capture_insert_sql(target@),
{
    cat3("INSERT INTO ", target, " (timestamp, url, data) SELECT v.ts, v.u, v.d FROM (SELECT ? AS ts, ? AS u, ? AS d) AS v WHERE NOT EXISTS (SELECT 1 FROM ").concat(
        target,
    ).concat(" WHERE timestamp = v.ts AND url = v.u AND data = v.d)")
}

// ---------------------------------------------------------------------------
// Queries of the MCP tools
// ---------------------------------------------------------------------------

/// The latest record of a capture target.
pub open spec fn latest_record_sql(target: Seq<char>) -> Seq<char> {
    "SELECT timestamp, url, data FROM "@ + target + " ORDER BY timestamp DESC LIMIT 1"@
}

pub fn latest_record(target: &str) -> (r: String)
    ensures
        r@ == latest_record_sql(target@),
{
    cat3("SELECT timestamp, url, data FROM ", target, " ORDER BY timestamp DESC LIMIT 1")
}

/// The latest record at or before a time.
pub open spec fn record_at_or_before_sql(target: Seq<char>) -> Seq<char> {
    "SELECT timestamp, url, data FROM "@ + target
        + " WHERE timestamp <= ? ORDER BY timestamp DESC LIMIT 1"@
}

pub fn record_at_or_before(target: &str) -> (r: String)
    ensures
        r@ == record_at_or_before_sql(target@),
{
    cat3(
        "SELECT timestamp, url, data FROM ",
        target,
        " WHERE timestamp <= ? ORDER BY timestamp DESC LIMIT 1",
    )
}

/// The earliest record after a time.
pub open spec fn record_after_sql(target: Seq<char>) -> Seq<char> {
    "SELECT timestamp, url, data FROM "@ + target
        + " WHERE timestamp > ? ORDER BY timestamp ASC LIMIT 1"@
}

pub fn record_after(target: &str) -> (r: String)
    ensures
        r@ == record_after_sql(target@),
{
    cat3(
        "SELECT timestamp, url, data FROM ",
        target,
        " WHERE timestamp > ? ORDER BY timestamp ASC LIMIT 1",
    )
}

/// The time of the record just before a time.
pub open spec fn previous_time_sql(target: Seq<char>) -> Seq<char> {
    "SELECT timestamp FROM "@ + target + " WHERE timestamp < ? ORDER BY timestamp DESC LIMIT 1"@
}

pub fn previous_time(target: &str) -> (r: String)
    ensures
        r@ == previous_time_sql(target@),
{
    cat3("SELECT timestamp FROM ", target, " WHERE timestamp < ? ORDER BY timestamp DESC LIMIT 1")
}

/// The time of the record just after a time.
pub open spec fn next_time_sql(target: Seq<char>) -> Seq<char> {
    "SELECT timestamp FROM "@ + target + " WHERE timestamp > ? ORDER BY timestamp ASC LIMIT 1"@
}

pub fn next_time(target: &str) -> (r: String)
    ensures
        r@ == next_time_sql(target@),
{
    cat3("SELECT timestamp FROM ", target, " WHERE timestamp > ? ORDER BY timestamp ASC LIMIT 1")
}

/// The tables whose name is a symbol or starts with the symbol and `_`.
pub open spec fn matching_tables_sql() -> Seq<char> {
    "SELECT name FROM sqlite_master WHERE type='table' AND (name = ? OR name LIKE ?)"@
}

pub fn matching_tables() -> (r: String)
    ensures
        r@ == matching_tables_sql(),
{
    String::from_str("SELECT name FROM sqlite_master WHERE type='table' AND (name = ? OR name LIKE ?)")
}

/// The LIKE pattern of the tables of a symbol on any market.
pub open spec fn market_pattern(symbol: Seq<char>) -> Seq<char> {
    symbol + "_%"@
}

pub fn market_pattern_of(symbol: &str) -> (r: String)
    ensures
        r@ == market_pattern(symbol@),
{
    String::from_str(symbol).concat("_%")
}

/// The candles of a chart table, optionally from and to a time, oldest first.
pub open spec fn history_sql(table: Seq<char>, from: bool, to: bool) -> Seq<char> {
    "SELECT time, open, high, low, close, volume, interest, market_trading_state FROM "@ + quoted_name(table)
        + " WHERE 1=1"@ + (if from {
        " AND time >= ?"@
    } else {
        Seq::empty()
    }) + (if to {
        " AND time <= ?"@
    } else {
        Seq::empty()
    }) + " ORDER BY time ASC"@
}

pub fn history(table: &str, from: bool, to: bool) -> (r: String)
    ensures
        r@ == history_sql(table@, from, to),
{
    let name = quote_name(table);
    let mut q = cat3(
        "SELECT time, open, high, low, close, volume, interest, market_trading_state FROM ",
        name.as_str(),
        " WHERE 1=1",
    );
    let ghost base = q@;
    if from {
        q.append(" AND time >= ?");
    }
    let ghost with_from = q@;
    assert(with_from =~= base + (if from {
        " AND time >= ?"@
    } else {
        Seq::empty()
    }));
    if to {
        q.append(" AND time <= ?");
    }
    let ghost with_to = q@;
    assert(with_to =~= with_from + (if to {
        " AND time <= ?"@
    } else {
        Seq::empty()
    }));
    q.append(" ORDER BY time ASC");
    q
}

/// The start of a day in milliseconds since the epoch, by SQLite's calendar.
pub open spec fn day_start_sql() -> Seq<char> {
    "SELECT CAST(unixepoch(?) * 1000 AS INTEGER)"@
}

pub fn day_start() -> (r: String)
    ensures
        r@ == day_start_sql(),
{
    String::from_str("SELECT CAST(unixepoch(?) * 1000 AS INTEGER)")
}

/// Whether the news table exists (a count of 0 or 1).
pub open spec fn news_table_count_sql() -> Seq<char> {
    "SELECT COUNT(*) FROM sqlite_master WHERE type='table' AND name='news'"@
}

pub fn news_table_count() -> (r: String)
    ensures
        r@ == news_table_count_sql(),
{
    String::from_str("SELECT COUNT(*) FROM sqlite_master WHERE type='table' AND name='news'")
}

/// At most 100 news records within a time range, oldest first.
pub open spec fn news_sql() -> Seq<char> {
    "SELECT timestamp, url, data FROM news WHERE timestamp >= ? AND timestamp <= ? ORDER BY timestamp ASC LIMIT 100"@
}

pub fn news() -> (r: String)
    ensures
        r@ == news_sql(),
{
    String::from_str(
        "SELECT timestamp, url, data FROM news WHERE timestamp >= ? AND timestamp <= ? ORDER BY timestamp ASC LIMIT 100",
    )
}

/// At most 100 news records of a day, from its start and before the start
/// of the next, oldest first.
pub open spec fn news_day_sql() -> Seq<char> {
    "SELECT timestamp, url, data FROM news WHERE timestamp >= ? AND timestamp < ? ORDER BY timestamp ASC LIMIT 100"@
}

pub fn news_day() -> (r: String)
    ensures
        r@ == news_day_sql(),
{
    String::from_str(
        "SELECT timestamp, url, data FROM news WHERE timestamp >= ? AND timestamp < ? ORDER BY timestamp ASC LIMIT 100",
    )
}

/// Whether the transactions table exists (a count of 0 or 1).
pub open spec fn transactions_table_count_sql() -> Seq<char> {
    "SELECT COUNT(*) FROM sqlite_master WHERE type='table' AND name='transactions'"@
}

pub fn transactions_table_count() -> (r: String)
    ensures
        r@ == transactions_table_count_sql(),
{
    String::from_str("SELECT COUNT(*) FROM sqlite_master WHERE type='table' AND name='transactions'")
}

/// A condition of the transactions search, with its text.
pub open spec fn filter_sql(present: bool, cond: Seq<char>) -> Seq<char> {
    if present {
        cond
    } else {
        Seq::empty()
    }
}

/// At most 100 stored transactions, latest date first, that meet the
/// conditions present: a date, a first date, a last date, a symbol.
pub open spec fn transactions_sql(date: bool, from: bool, to: bool, symbol: bool) -> Seq<char> {
    "SELECT data FROM transactions WHERE 1=1"@ + filter_sql(date, " AND date = ?"@) + filter_sql(
        from,
        " AND date >= ?"@,
    ) + filter_sql(to, " AND date <= ?"@) + filter_sql(symbol, " AND instrument_symbol = ?"@)
        + " ORDER BY date DESC LIMIT 100"@
}

pub fn transactions(date: bool, from: bool, to: bool, symbol: bool) -> (r: String)
    ensures
        r@ == transactions_sql(date, from, to, symbol),
{
    let mut q = String::from_str("SELECT data FROM transactions WHERE 1=1");
    let ghost s0 = q@;
    if date {
        q.append(" AND date = ?");
    }
    let ghost s1 = q@;
    assert(s1 =~= s0 + filter_sql(date, " AND date = ?"@));
    if from {
        q.append(" AND date >= ?");
    }
    let ghost s2 = q@;
    assert(s2 =~= s1 + filter_sql(from, " AND date >= ?"@));
    if to {
        q.append(" AND date <= ?");
    }
    let ghost s3 = q@;
    assert(s3 =~= s2 + filter_sql(to, " AND date <= ?"@));
    if symbol {
        q.append(" AND instrument_symbol = ?");
    }
    let ghost s4 = q@;
    assert(s4 =~= s3 + filter_sql(symbol, " AND instrument_symbol = ?"@));
    q.append(" ORDER BY date DESC LIMIT 100");
    q
}

} // verus!
