//! The SQL that the receiver sends: every statement and every query binds
//! exactly one value to each of its `?` placeholders, and answering a
//! request only reads.
use vstd::prelude::*;
use crate::ingest::{IncomingPayload, chart_symbol, post_plan};
use crate::json::{json_index, text_or_empty};
use crate::mcp::{DbReply, StateV, StepV, begin_step, resume_step};
use crate::names::{double_quotes, is_name_char, is_table_name, quoted_name, symbol_table};
use crate::rpc::McpRequest;
use crate::sql::{
    capture_index_sql, capture_insert_sql, capture_table_sql, chart_insert_sql, chart_table_sql,
    day_start_sql, filter_sql, history_sql, latest_record_sql, matching_tables_sql, news_day_sql,
    news_sql, news_table_count_sql, next_time_sql, previous_time_sql, record_after_sql,
    record_at_or_before_sql, transactions_date_index_sql, transactions_insert_sql, transactions_sql,
    transactions_symbol_index_sql, transactions_table_count_sql, transactions_table_sql,
};

verus! {

// ---------------------------------------------------------------------------
// Counting placeholders
// ---------------------------------------------------------------------------

/// Whether the first `n` characters of `s` end inside a double-quoted name,
/// where `s` starts inside one exactly when `inside`.
pub open spec fn quoted_after(s: Seq<char>, n: int, inside: bool) -> bool
    decreases n,
{
    if n <= 0 {
        inside
    } else {
        quoted_after(s, n - 1, inside) != (s[n - 1] == '"')
    }
}

/// How many placeholders the first `n` characters of `s` hold: the `?` that
/// stand outside double-quoted names.
pub open spec fn params_upto(s: Seq<char>, n: int, inside: bool) -> nat
    decreases n,
{
    if n <= 0 {
        0
    } else {
        params_upto(s, n - 1, inside) + if s[n - 1] == '?' && !quoted_after(s, n - 1, inside) {
            1nat
        } else {
            0nat
        }
    }
}

/// The placeholders of `s`, starting inside a quoted name when `inside`.
pub open spec fn params_from(s: Seq<char>, inside: bool) -> nat {
    params_upto(s, s.len() as int, inside)
}

/// Whether `s` ends inside a quoted name, starting inside one when `inside`.
pub open spec fn ends_quoted(s: Seq<char>, inside: bool) -> bool {
    quoted_after(s, s.len() as int, inside)
}

/// How many placeholders a statement text holds.
pub open spec fn placeholders(s: Seq<char>) -> nat {
    params_from(s, false)
}

proof fn upto_prefix(a: Seq<char>, b: Seq<char>, n: int, inside: bool)
    requires
        0 <= n <= a.len(),
    ensures
        quoted_after(a + b, n, inside) == quoted_after(a, n, inside),
        params_upto(a + b, n, inside) == params_upto(a, n, inside),
    decreases n,
{
    if n > 0 {
        upto_prefix(a, b, n - 1, inside);
        assert((a + b)[n - 1] == a[n - 1]);
    }
}

proof fn upto_suffix(a: Seq<char>, b: Seq<char>, k: int, inside: bool)
    requires
        0 <= k <= b.len(),
    ensures
        quoted_after(a + b, a.len() + k, inside) == quoted_after(b, k, ends_quoted(a, inside)),
        params_upto(a + b, a.len() + k, inside) == params_from(a, inside) + params_upto(
            b,
            k,
            ends_quoted(a, inside),
        ),
    decreases k,
{
    if k == 0 {
        upto_prefix(a, b, a.len() as int, inside);
    } else {
        upto_suffix(a, b, k - 1, inside);
        assert((a + b)[a.len() + k - 1] == b[k - 1]);
    }
}

/// The placeholders of two texts put together: those of the first, and
/// those of the second read from where the first ends.
pub proof fn texts_concat(a: Seq<char>, b: Seq<char>, inside: bool)
    ensures
        params_from(a + b, inside) == params_from(a, inside) + params_from(b, ends_quoted(a, inside)),
        ends_quoted(a + b, inside) == ends_quoted(b, ends_quoted(a, inside)),
{
    upto_suffix(a, b, b.len() as int, inside);
}

/// The placeholders of two texts put together, where the first closes every
/// quoted name it opens.
pub proof fn placeholders_concat(a: Seq<char>, b: Seq<char>)
    requires
        !ends_quoted(a, false),
    ensures
        placeholders(a + b) == placeholders(a) + placeholders(b),
        ends_quoted(a + b, false) == ends_quoted(b, false),
{
    texts_concat(a, b, false);
}

/// A text with neither `?` nor `"`.
pub open spec fn is_plain(s: Seq<char>) -> bool {
    forall|i: int| 0 <= i < s.len() ==> s[i] != '?' && s[i] != '"'
}

proof fn plain_upto(s: Seq<char>, n: int)
    requires
        is_plain(s),
        n <= s.len(),
    ensures
        params_upto(s, n, false) == 0,
        !quoted_after(s, n, false),
    decreases n,
{
    if n > 0 {
        plain_upto(s, n - 1);
    }
}

/// A plain text holds no placeholder and opens no quoted name; a table name
/// is plain.
pub proof fn plain_texts(s: Seq<char>)
    ensures
        is_plain(s) ==> placeholders(s) == 0 && !ends_quoted(s, false),
        is_table_name(s) ==> is_plain(s),
{
    if is_plain(s) {
        plain_upto(s, s.len() as int);
    }
    if is_table_name(s) {
        assert forall|i: int| 0 <= i < s.len() implies s[i] != '?' && s[i] != '"' by {
            assert(is_name_char(s[i]));
        }
    }
}

proof fn doubled_quotes(t: Seq<char>)
    ensures
        params_from(double_quotes(t), true) == 0,
        ends_quoted(double_quotes(t), true),
    decreases t.len(),
{
    if t.len() > 0 {
        doubled_quotes(t.drop_last());
        let piece = if t.last() == '"' {
            seq!['"', '"']
        } else {
            seq![t.last()]
        };
        assert(params_from(piece, true) == 0 && ends_quoted(piece, true)) by {
            reveal_with_fuel(params_upto, 3);
            reveal_with_fuel(quoted_after, 3);
        }
        texts_concat(double_quotes(t.drop_last()), piece, true);
    } else {
        assert(double_quotes(t) =~= Seq::<char>::empty());
    }
}

/// A quoted name holds no placeholder and closes the quote it opens,
/// whatever characters the name holds.
pub proof fn quoted_names(t: Seq<char>)
    ensures
        placeholders(quoted_name(t)) == 0,
        !ends_quoted(quoted_name(t), false),
{
    let open = seq!['"'];
    assert(params_from(open, false) == 0 && ends_quoted(open, false)) by {
        reveal_with_fuel(params_upto, 2);
        reveal_with_fuel(quoted_after, 2);
    }
    assert(params_from(open, true) == 0 && !ends_quoted(open, true)) by {
        reveal_with_fuel(params_upto, 2);
        reveal_with_fuel(quoted_after, 2);
    }
    doubled_quotes(t);
    texts_concat(open, double_quotes(t), false);
    texts_concat(open + double_quotes(t), open, false);
}

/// A text without `"` whose `?` stand exactly at the positions `marks`, in
/// increasing order.
pub open spec fn marked_at(s: Seq<char>, marks: Seq<int>) -> bool {
    &&& forall|i: int| 0 <= i < s.len() ==> s[i] != '"'
    &&& forall|i: int| 0 <= i < s.len() && s[i] == '?' ==> marks.contains(i)
    &&& forall|j: int| 0 <= j < marks.len() ==> 0 <= marks[j] < s.len() && s[marks[j]] == '?'
    &&& forall|j: int, k: int| 0 <= j < k < marks.len() ==> marks[j] < marks[k]
}

/// How many of `marks` are below `n`.
spec fn marks_below(marks: Seq<int>, n: int) -> nat
    decreases marks.len(),
{
    if marks.len() == 0 {
        0
    } else {
        marks_below(marks.drop_last(), n) + if marks.last() < n {
            1nat
        } else {
            0nat
        }
    }
}

proof fn marks_below_step(marks: Seq<int>, n: int)
    requires
        forall|j: int, k: int| 0 <= j < k < marks.len() ==> marks[j] < marks[k],
    ensures
        marks_below(marks, n + 1) == marks_below(marks, n) + if marks.contains(n) {
            1nat
        } else {
            0nat
        },
    decreases marks.len(),
{
    if marks.len() > 0 {
        let m = marks.drop_last();
        marks_below_step(m, n);
        if marks.contains(n) {
            let j = choose|j: int| 0 <= j < marks.len() && marks[j] == n;
            if j < marks.len() - 1 {
                assert(m[j] == n);
                assert(marks.last() > n);
            }
        }
        if m.contains(n) {
            let j = choose|j: int| 0 <= j < m.len() && m[j] == n;
            assert(marks[j] == n);
        }
        if marks.last() == n {
            assert(marks[marks.len() - 1] == n);
            if m.contains(n) {
                let j = choose|j: int| 0 <= j < m.len() && m[j] == n;
                assert(marks[j] == n);
            }
        }
    }
}

proof fn marks_below_all(marks: Seq<int>, n: int)
    requires
        forall|j: int| 0 <= j < marks.len() ==> marks[j] < n,
    ensures
        marks_below(marks, n) == marks.len(),
    decreases marks.len(),
{
    if marks.len() > 0 {
        marks_below_all(marks.drop_last(), n);
    }
}

proof fn marked_upto(s: Seq<char>, marks: Seq<int>, n: int)
    requires
        marked_at(s, marks),
        0 <= n <= s.len(),
    ensures
        params_upto(s, n, false) == marks_below(marks, n),
        !quoted_after(s, n, false),
    decreases n,
{
    if n > 0 {
        marked_upto(s, marks, n - 1);
        marks_below_step(marks, n - 1);
        if marks.contains(n - 1) {
            let j = choose|j: int| 0 <= j < marks.len() && marks[j] == n - 1;
            assert(s[marks[j]] == '?');
        }
    } else {
        assert(marks_below(marks, 0) == 0) by {
            marks_below_zero(marks);
        }
    }
}

proof fn marks_below_zero(marks: Seq<int>)
    requires
        forall|j: int| 0 <= j < marks.len() ==> 0 <= marks[j],
    ensures
        marks_below(marks, 0) == 0,
    decreases marks.len(),
{
    if marks.len() > 0 {
        marks_below_zero(marks.drop_last());
    }
}

/// A text without `"` holds a placeholder at each of its `?`, and opens no
/// quoted name.
pub proof fn marked_texts(s: Seq<char>, marks: Seq<int>)
    requires
        marked_at(s, marks),
    ensures
        placeholders(s) == marks.len(),
        !ends_quoted(s, false),
{
    marked_upto(s, marks, s.len() as int);
    marks_below_all(marks, s.len() as int);
}

/// The texts of the chart statements.
#[verifier::spinoff_prover]
proof fn chart_texts()
    ensures
        placeholders("CREATE TABLE IF NOT EXISTS "@) == 0,
        !ends_quoted("CREATE TABLE IF NOT EXISTS "@, false),
        placeholders(" (\n                time TEXT PRIMARY KEY,\n                open REAL,\n                high REAL,\n                low REAL,\n                close REAL,\n                volume REAL,\n                interest REAL,\n                market_trading_state TEXT\n            )"@) == 0,
        !ends_quoted(" (\n                time TEXT PRIMARY KEY,\n                open REAL,\n                high REAL,\n                low REAL,\n                close REAL,\n                volume REAL,\n                interest REAL,\n                market_trading_state TEXT\n            )"@, false),
        placeholders("INSERT OR REPLACE INTO "@) == 0,
        !ends_quoted("INSERT OR REPLACE INTO "@, false),
        placeholders(" (time, open, high, low, close, volume, interest, market_trading_state) VALUES (?, ?, ?, ?, ?, ?, ?, ?)"@) == 8,
        !ends_quoted(" (time, open, high, low, close, volume, interest, market_trading_state) VALUES (?, ?, ?, ?, ?, ?, ?, ?)"@, false),
{
    assert(placeholders("CREATE TABLE IF NOT EXISTS "@) == 0 && !ends_quoted("CREATE TABLE IF NOT EXISTS "@, false)) by {
        reveal_strlit("CREATE TABLE IF NOT EXISTS ");
        let s = "CREATE TABLE IF NOT EXISTS "@;
        let marks = Seq::<int>::empty();
        assert(marked_at(s, marks));
        marked_texts(s, marks);
    }
    assert(placeholders(" (\n                time TEXT PRIMARY KEY,\n                open REAL,\n                high REAL,\n                low REAL,\n                close REAL,\n                volume REAL,\n                interest REAL,\n                market_trading_state TEXT\n            )"@) == 0 && !ends_quoted(" (\n                time TEXT PRIMARY KEY,\n                open REAL,\n                high REAL,\n                low REAL,\n                close REAL,\n                volume REAL,\n                interest REAL,\n                market_trading_state TEXT\n            )"@, false)) by {
        reveal_strlit(" (\n                time TEXT PRIMARY KEY,\n                open REAL,\n                high REAL,\n                low REAL,\n                close REAL,\n                volume REAL,\n                interest REAL,\n                market_trading_state TEXT\n            )");
        let s = " (\n                time TEXT PRIMARY KEY,\n                open REAL,\n                high REAL,\n                low REAL,\n                close REAL,\n                volume REAL,\n                interest REAL,\n                market_trading_state TEXT\n            )"@;
        let marks = Seq::<int>::empty();
        assert(marked_at(s, marks));
        marked_texts(s, marks);
    }
    assert(placeholders("INSERT OR REPLACE INTO "@) == 0 && !ends_quoted("INSERT OR REPLACE INTO "@, false)) by {
        reveal_strlit("INSERT OR REPLACE INTO ");
        let s = "INSERT OR REPLACE INTO "@;
        let marks = Seq::<int>::empty();
        assert(marked_at(s, marks));
        marked_texts(s, marks);
    }
    assert(placeholders(" (time, open, high, low, close, volume, interest, market_trading_state) VALUES (?, ?, ?, ?, ?, ?, ?, ?)"@) == 8 && !ends_quoted(" (time, open, high, low, close, volume, interest, market_trading_state) VALUES (?, ?, ?, ?, ?, ?, ?, ?)"@, false)) by {
        reveal_strlit(" (time, open, high, low, close, volume, interest, market_trading_state) VALUES (?, ?, ?, ?, ?, ?, ?, ?)");
        let s = " (time, open, high, low, close, volume, interest, market_trading_state) VALUES (?, ?, ?, ?, ?, ?, ?, ?)"@;
        let marks = seq![80int, 83int, 86int, 89int, 92int, 95int, 98int, 101int];
        assert(marks[0] == 80 && marks[1] == 83 && marks[2] == 86 && marks[3] == 89 && marks[4] == 92 && marks[5] == 95 && marks[6] == 98 && marks[7] == 101);
        assert forall|i: int| 0 <= i < s.len() && s[i] == '?' implies marks.contains(i) by {
            assert(i == 80 || i == 83 || i == 86 || i == 89 || i == 92 || i == 95 || i == 98 || i == 101);
        }
        assert(marked_at(s, marks));
        marked_texts(s, marks);
    }
}

/// The texts of the transactions statements.
#[verifier::spinoff_prover]
proof fn transactions_texts()
    ensures
        placeholders("CREATE TABLE IF NOT EXISTS transactions (\n            bk_record_id INTEGER PRIMARY KEY,\n            account_id TEXT,\n            date TEXT,\n            booked_amount REAL,\n            currency TEXT,\n            event TEXT,\n            instrument_symbol TEXT,\n            transaction_type TEXT,\n            data TEXT\n        )"@) == 0,
        !ends_quoted("CREATE TABLE IF NOT EXISTS transactions (\n            bk_record_id INTEGER PRIMARY KEY,\n            account_id TEXT,\n            date TEXT,\n            booked_amount REAL,\n            currency TEXT,\n            event TEXT,\n            instrument_symbol TEXT,\n            transaction_type TEXT,\n            data TEXT\n        )"@, false),
        placeholders("CREATE INDEX IF NOT EXISTS idx_transactions_date ON transactions (date)"@) == 0,
        !ends_quoted("CREATE INDEX IF NOT EXISTS idx_transactions_date ON transactions (date)"@, false),
        placeholders("CREATE INDEX IF NOT EXISTS idx_transactions_symbol ON transactions (instrument_symbol)"@) == 0,
        !ends_quoted("CREATE INDEX IF NOT EXISTS idx_transactions_symbol ON transactions (instrument_symbol)"@, false),
        placeholders("INSERT OR IGNORE INTO transactions (bk_record_id, account_id, date, booked_amount, currency, event, instrument_symbol, transaction_type, data) VALUES (?, ?, ?, ?, ?, ?, ?, ?, ?)"@) == 9,
        !ends_quoted("INSERT OR IGNORE INTO transactions (bk_record_id, account_id, date, booked_amount, currency, event, instrument_symbol, transaction_type, data) VALUES (?, ?, ?, ?, ?, ?, ?, ?, ?)"@, false),
{
    assert(placeholders("CREATE TABLE IF NOT EXISTS transactions (\n            bk_record_id INTEGER PRIMARY KEY,\n            account_id TEXT,\n            date TEXT,\n            booked_amount REAL,\n            currency TEXT,\n            event TEXT,\n            instrument_symbol TEXT,\n            transaction_type TEXT,\n            data TEXT\n        )"@) == 0 && !ends_quoted("CREATE TABLE IF NOT EXISTS transactions (\n            bk_record_id INTEGER PRIMARY KEY,\n            account_id TEXT,\n            date TEXT,\n            booked_amount REAL,\n            currency TEXT,\n            event TEXT,\n            instrument_symbol TEXT,\n            transaction_type TEXT,\n            data TEXT\n        )"@, false)) by {
        reveal_strlit("CREATE TABLE IF NOT EXISTS transactions (\n            bk_record_id INTEGER PRIMARY KEY,\n            account_id TEXT,\n            date TEXT,\n            booked_amount REAL,\n            currency TEXT,\n            event TEXT,\n            instrument_symbol TEXT,\n            transaction_type TEXT,\n            data TEXT\n        )");
        let s = "CREATE TABLE IF NOT EXISTS transactions (\n            bk_record_id INTEGER PRIMARY KEY,\n            account_id TEXT,\n            date TEXT,\n            booked_amount REAL,\n            currency TEXT,\n            event TEXT,\n            instrument_symbol TEXT,\n            transaction_type TEXT,\n            data TEXT\n        )"@;
        let marks = Seq::<int>::empty();
        assert(marked_at(s, marks));
        marked_texts(s, marks);
    }
    assert(placeholders("CREATE INDEX IF NOT EXISTS idx_transactions_date ON transactions (date)"@) == 0 && !ends_quoted("CREATE INDEX IF NOT EXISTS idx_transactions_date ON transactions (date)"@, false)) by {
        reveal_strlit("CREATE INDEX IF NOT EXISTS idx_transactions_date ON transactions (date)");
        let s = "CREATE INDEX IF NOT EXISTS idx_transactions_date ON transactions (date)"@;
        let marks = Seq::<int>::empty();
        assert(marked_at(s, marks));
        marked_texts(s, marks);
    }
    assert(placeholders("CREATE INDEX IF NOT EXISTS idx_transactions_symbol ON transactions (instrument_symbol)"@) == 0 && !ends_quoted("CREATE INDEX IF NOT EXISTS idx_transactions_symbol ON transactions (instrument_symbol)"@, false)) by {
        reveal_strlit("CREATE INDEX IF NOT EXISTS idx_transactions_symbol ON transactions (instrument_symbol)");
        let s = "CREATE INDEX IF NOT EXISTS idx_transactions_symbol ON transactions (instrument_symbol)"@;
        let marks = Seq::<int>::empty();
        assert(marked_at(s, marks));
        marked_texts(s, marks);
    }
    assert(placeholders("INSERT OR IGNORE INTO transactions (bk_record_id, account_id, date, booked_amount, currency, event, instrument_symbol, transaction_type, data) VALUES (?, ?, ?, ?, ?, ?, ?, ?, ?)"@) == 9 && !ends_quoted("INSERT OR IGNORE INTO transactions (bk_record_id, account_id, date, booked_amount, currency, event, instrument_symbol, transaction_type, data) VALUES (?, ?, ?, ?, ?, ?, ?, ?, ?)"@, false)) by {
        reveal_strlit("INSERT OR IGNORE INTO transactions (bk_record_id, account_id, date, booked_amount, currency, event, instrument_symbol, transaction_type, data) VALUES (?, ?, ?, ?, ?, ?, ?, ?, ?)");
        let s = "INSERT OR IGNORE INTO transactions (bk_record_id, account_id, date, booked_amount, currency, event, instrument_symbol, transaction_type, data) VALUES (?, ?, ?, ?, ?, ?, ?, ?, ?)"@;
        let marks = seq![151int, 154int, 157int, 160int, 163int, 166int, 169int, 172int, 175int];
        assert(marks[0] == 151 && marks[1] == 154 && marks[2] == 157 && marks[3] == 160 && marks[4] == 163 && marks[5] == 166 && marks[6] == 169 && marks[7] == 172 && marks[8] == 175);
        assert forall|i: int| 0 <= i < s.len() && s[i] == '?' implies marks.contains(i) by {
            assert(i == 151 || i == 154 || i == 157 || i == 160 || i == 163 || i == 166 || i == 169 || i == 172 || i == 175);
        }
        assert(marked_at(s, marks));
        marked_texts(s, marks);
    }
}

/// The texts of the statements of an ordinary target.
#[verifier::spinoff_prover]
proof fn capture_texts()
    ensures
        placeholders(" (\n            id INTEGER PRIMARY KEY AUTOINCREMENT,\n            timestamp INTEGER,\n            url TEXT,\n            data TEXT\n        )"@) == 0,
        !ends_quoted(" (\n            id INTEGER PRIMARY KEY AUTOINCREMENT,\n            timestamp INTEGER,\n            url TEXT,\n            data TEXT\n        )"@, false),
        placeholders("CREATE INDEX IF NOT EXISTS idx_"@) == 0,
        !ends_quoted("CREATE INDEX IF NOT EXISTS idx_"@, false),
        placeholders("_timestamp ON "@) == 0,
        !ends_quoted("_timestamp ON "@, false),
        placeholders(" (timestamp)"@) == 0,
        !ends_quoted(" (timestamp)"@, false),
        placeholders("INSERT INTO "@) == 0,
        !ends_quoted("INSERT INTO "@, false),
        placeholders(" (timestamp, url, data) SELECT v.ts, v.u, v.d FROM (SELECT ? AS ts, ? AS u, ? AS d) AS v WHERE NOT EXISTS (SELECT 1 FROM "@) == 3,
        !ends_quoted(" (timestamp, url, data) SELECT v.ts, v.u, v.d FROM (SELECT ? AS ts, ? AS u, ? AS d) AS v WHERE NOT EXISTS (SELECT 1 FROM "@, false),
        placeholders(" WHERE timestamp = v.ts AND url = v.u AND data = v.d)"@) == 0,
        !ends_quoted(" WHERE timestamp = v.ts AND url = v.u AND data = v.d)"@, false),
{
    assert(placeholders(" (\n            id INTEGER PRIMARY KEY AUTOINCREMENT,\n            timestamp INTEGER,\n            url TEXT,\n            data TEXT\n        )"@) == 0 && !ends_quoted(" (\n            id INTEGER PRIMARY KEY AUTOINCREMENT,\n            timestamp INTEGER,\n            url TEXT,\n            data TEXT\n        )"@, false)) by {
        reveal_strlit(" (\n            id INTEGER PRIMARY KEY AUTOINCREMENT,\n            timestamp INTEGER,\n            url TEXT,\n            data TEXT\n        )");
        let s = " (\n            id INTEGER PRIMARY KEY AUTOINCREMENT,\n            timestamp INTEGER,\n            url TEXT,\n            data TEXT\n        )"@;
        let marks = Seq::<int>::empty();
        assert(marked_at(s, marks));
        marked_texts(s, marks);
    }
    assert(placeholders("CREATE INDEX IF NOT EXISTS idx_"@) == 0 && !ends_quoted("CREATE INDEX IF NOT EXISTS idx_"@, false)) by {
        reveal_strlit("CREATE INDEX IF NOT EXISTS idx_");
        let s = "CREATE INDEX IF NOT EXISTS idx_"@;
        let marks = Seq::<int>::empty();
        assert(marked_at(s, marks));
        marked_texts(s, marks);
    }
    assert(placeholders("_timestamp ON "@) == 0 && !ends_quoted("_timestamp ON "@, false)) by {
        reveal_strlit("_timestamp ON ");
        let s = "_timestamp ON "@;
        let marks = Seq::<int>::empty();
        assert(marked_at(s, marks));
        marked_texts(s, marks);
    }
    assert(placeholders(" (timestamp)"@) == 0 && !ends_quoted(" (timestamp)"@, false)) by {
        reveal_strlit(" (timestamp)");
        let s = " (timestamp)"@;
        let marks = Seq::<int>::empty();
        assert(marked_at(s, marks));
        marked_texts(s, marks);
    }
    assert(placeholders("INSERT INTO "@) == 0 && !ends_quoted("INSERT INTO "@, false)) by {
        reveal_strlit("INSERT INTO ");
        let s = "INSERT INTO "@;
        let marks = Seq::<int>::empty();
        assert(marked_at(s, marks));
        marked_texts(s, marks);
    }
    assert(placeholders(" (timestamp, url, data) SELECT v.ts, v.u, v.d FROM (SELECT ? AS ts, ? AS u, ? AS d) AS v WHERE NOT EXISTS (SELECT 1 FROM "@) == 3 && !ends_quoted(" (timestamp, url, data) SELECT v.ts, v.u, v.d FROM (SELECT ? AS ts, ? AS u, ? AS d) AS v WHERE NOT EXISTS (SELECT 1 FROM "@, false)) by {
        reveal_strlit(" (timestamp, url, data) SELECT v.ts, v.u, v.d FROM (SELECT ? AS ts, ? AS u, ? AS d) AS v WHERE NOT EXISTS (SELECT 1 FROM ");
        let s = " (timestamp, url, data) SELECT v.ts, v.u, v.d FROM (SELECT ? AS ts, ? AS u, ? AS d) AS v WHERE NOT EXISTS (SELECT 1 FROM "@;
        let marks = seq![59int, 68int, 76int];
        assert(marks[0] == 59 && marks[1] == 68 && marks[2] == 76);
        assert forall|i: int| 0 <= i < s.len() && s[i] == '?' implies marks.contains(i) by {
            assert(i == 59 || i == 68 || i == 76);
        }
        assert(marked_at(s, marks));
        marked_texts(s, marks);
    }
    assert(placeholders(" WHERE timestamp = v.ts AND url = v.u AND data = v.d)"@) == 0 && !ends_quoted(" WHERE timestamp = v.ts AND url = v.u AND data = v.d)"@, false)) by {
        reveal_strlit(" WHERE timestamp = v.ts AND url = v.u AND data = v.d)");
        let s = " WHERE timestamp = v.ts AND url = v.u AND data = v.d)"@;
        let marks = Seq::<int>::empty();
        assert(marked_at(s, marks));
        marked_texts(s, marks);
    }
}

/// The texts of the record lookups.
#[verifier::spinoff_prover]
proof fn record_texts()
    ensures
        placeholders("SELECT timestamp, url, data FROM "@) == 0,
        !ends_quoted("SELECT timestamp, url, data FROM "@, false),
        placeholders(" ORDER BY timestamp DESC LIMIT 1"@) == 0,
        !ends_quoted(" ORDER BY timestamp DESC LIMIT 1"@, false),
        placeholders(" WHERE timestamp <= ? ORDER BY timestamp DESC LIMIT 1"@) == 1,
        !ends_quoted(" WHERE timestamp <= ? ORDER BY timestamp DESC LIMIT 1"@, false),
        placeholders(" WHERE timestamp > ? ORDER BY timestamp ASC LIMIT 1"@) == 1,
        !ends_quoted(" WHERE timestamp > ? ORDER BY timestamp ASC LIMIT 1"@, false),
        placeholders("SELECT timestamp FROM "@) == 0,
        !ends_quoted("SELECT timestamp FROM "@, false),
        placeholders(" WHERE timestamp < ? ORDER BY timestamp DESC LIMIT 1"@) == 1,
        !ends_quoted(" WHERE timestamp < ? ORDER BY timestamp DESC LIMIT 1"@, false),
{
    assert(placeholders("SELECT timestamp, url, data FROM "@) == 0 && !ends_quoted("SELECT timestamp, url, data FROM "@, false)) by {
        reveal_strlit("SELECT timestamp, url, data FROM ");
        let s = "SELECT timestamp, url, data FROM "@;
        let marks = Seq::<int>::empty();
        assert(marked_at(s, marks));
        marked_texts(s, marks);
    }
    assert(placeholders(" ORDER BY timestamp DESC LIMIT 1"@) == 0 && !ends_quoted(" ORDER BY timestamp DESC LIMIT 1"@, false)) by {
        reveal_strlit(" ORDER BY timestamp DESC LIMIT 1");
        let s = " ORDER BY timestamp DESC LIMIT 1"@;
        let marks = Seq::<int>::empty();
        assert(marked_at(s, marks));
        marked_texts(s, marks);
    }
    assert(placeholders(" WHERE timestamp <= ? ORDER BY timestamp DESC LIMIT 1"@) == 1 && !ends_quoted(" WHERE timestamp <= ? ORDER BY timestamp DESC LIMIT 1"@, false)) by {
        reveal_strlit(" WHERE timestamp <= ? ORDER BY timestamp DESC LIMIT 1");
        let s = " WHERE timestamp <= ? ORDER BY timestamp DESC LIMIT 1"@;
        let marks = seq![20int];
        assert(marks[0] == 20);
        assert forall|i: int| 0 <= i < s.len() && s[i] == '?' implies marks.contains(i) by {
            assert(i == 20);
        }
        assert(marked_at(s, marks));
        marked_texts(s, marks);
    }
    assert(placeholders(" WHERE timestamp > ? ORDER BY timestamp ASC LIMIT 1"@) == 1 && !ends_quoted(" WHERE timestamp > ? ORDER BY timestamp ASC LIMIT 1"@, false)) by {
        reveal_strlit(" WHERE timestamp > ? ORDER BY timestamp ASC LIMIT 1");
        let s = " WHERE timestamp > ? ORDER BY timestamp ASC LIMIT 1"@;
        let marks = seq![19int];
        assert(marks[0] == 19);
        assert forall|i: int| 0 <= i < s.len() && s[i] == '?' implies marks.contains(i) by {
            assert(i == 19);
        }
        assert(marked_at(s, marks));
        marked_texts(s, marks);
    }
    assert(placeholders("SELECT timestamp FROM "@) == 0 && !ends_quoted("SELECT timestamp FROM "@, false)) by {
        reveal_strlit("SELECT timestamp FROM ");
        let s = "SELECT timestamp FROM "@;
        let marks = Seq::<int>::empty();
        assert(marked_at(s, marks));
        marked_texts(s, marks);
    }
    assert(placeholders(" WHERE timestamp < ? ORDER BY timestamp DESC LIMIT 1"@) == 1 && !ends_quoted(" WHERE timestamp < ? ORDER BY timestamp DESC LIMIT 1"@, false)) by {
        reveal_strlit(" WHERE timestamp < ? ORDER BY timestamp DESC LIMIT 1");
        let s = " WHERE timestamp < ? ORDER BY timestamp DESC LIMIT 1"@;
        let marks = seq![19int];
        assert(marks[0] == 19);
        assert forall|i: int| 0 <= i < s.len() && s[i] == '?' implies marks.contains(i) by {
            assert(i == 19);
        }
        assert(marked_at(s, marks));
        marked_texts(s, marks);
    }
}

/// The texts of the history queries.
#[verifier::spinoff_prover]
proof fn history_texts()
    ensures
        placeholders("SELECT name FROM sqlite_master WHERE type='table' AND (name = ? OR name LIKE ?)"@) == 2,
        !ends_quoted("SELECT name FROM sqlite_master WHERE type='table' AND (name = ? OR name LIKE ?)"@, false),
        placeholders("SELECT time, open, high, low, close, volume, interest, market_trading_state FROM "@) == 0,
        !ends_quoted("SELECT time, open, high, low, close, volume, interest, market_trading_state FROM "@, false),
        placeholders(" WHERE 1=1"@) == 0,
        !ends_quoted(" WHERE 1=1"@, false),
        placeholders(" AND time >= ?"@) == 1,
        !ends_quoted(" AND time >= ?"@, false),
        placeholders(" AND time <= ?"@) == 1,
        !ends_quoted(" AND time <= ?"@, false),
        placeholders(" ORDER BY time ASC"@) == 0,
        !ends_quoted(" ORDER BY time ASC"@, false),
{
    assert(placeholders("SELECT name FROM sqlite_master WHERE type='table' AND (name = ? OR name LIKE ?)"@) == 2 && !ends_quoted("SELECT name FROM sqlite_master WHERE type='table' AND (name = ? OR name LIKE ?)"@, false)) by {
        reveal_strlit("SELECT name FROM sqlite_master WHERE type='table' AND (name = ? OR name LIKE ?)");
        let s = "SELECT name FROM sqlite_master WHERE type='table' AND (name = ? OR name LIKE ?)"@;
        let marks = seq![62int, 77int];
        assert(marks[0] == 62 && marks[1] == 77);
        assert forall|i: int| 0 <= i < s.len() && s[i] == '?' implies marks.contains(i) by {
            assert(i == 62 || i == 77);
        }
        assert(marked_at(s, marks));
        marked_texts(s, marks);
    }
    assert(placeholders("SELECT time, open, high, low, close, volume, interest, market_trading_state FROM "@) == 0 && !ends_quoted("SELECT time, open, high, low, close, volume, interest, market_trading_state FROM "@, false)) by {
        reveal_strlit("SELECT time, open, high, low, close, volume, interest, market_trading_state FROM ");
        let s = "SELECT time, open, high, low, close, volume, interest, market_trading_state FROM "@;
        let marks = Seq::<int>::empty();
        assert(marked_at(s, marks));
        marked_texts(s, marks);
    }
    assert(placeholders(" WHERE 1=1"@) == 0 && !ends_quoted(" WHERE 1=1"@, false)) by {
        reveal_strlit(" WHERE 1=1");
        let s = " WHERE 1=1"@;
        let marks = Seq::<int>::empty();
        assert(marked_at(s, marks));
        marked_texts(s, marks);
    }
    assert(placeholders(" AND time >= ?"@) == 1 && !ends_quoted(" AND time >= ?"@, false)) by {
        reveal_strlit(" AND time >= ?");
        let s = " AND time >= ?"@;
        let marks = seq![13int];
        assert(marks[0] == 13);
        assert forall|i: int| 0 <= i < s.len() && s[i] == '?' implies marks.contains(i) by {
            assert(i == 13);
        }
        assert(marked_at(s, marks));
        marked_texts(s, marks);
    }
    assert(placeholders(" AND time <= ?"@) == 1 && !ends_quoted(" AND time <= ?"@, false)) by {
        reveal_strlit(" AND time <= ?");
        let s = " AND time <= ?"@;
        let marks = seq![13int];
        assert(marks[0] == 13);
        assert forall|i: int| 0 <= i < s.len() && s[i] == '?' implies marks.contains(i) by {
            assert(i == 13);
        }
        assert(marked_at(s, marks));
        marked_texts(s, marks);
    }
    assert(placeholders(" ORDER BY time ASC"@) == 0 && !ends_quoted(" ORDER BY time ASC"@, false)) by {
        reveal_strlit(" ORDER BY time ASC");
        let s = " ORDER BY time ASC"@;
        let marks = Seq::<int>::empty();
        assert(marked_at(s, marks));
        marked_texts(s, marks);
    }
}

/// The texts of the news search.
#[verifier::spinoff_prover]
proof fn news_texts()
    ensures
        placeholders("SELECT CAST(unixepoch(?) * 1000 AS INTEGER)"@) == 1,
        !ends_quoted("SELECT CAST(unixepoch(?) * 1000 AS INTEGER)"@, false),
        placeholders("SELECT COUNT(*) FROM sqlite_master WHERE type='table' AND name='news'"@) == 0,
        !ends_quoted("SELECT COUNT(*) FROM sqlite_master WHERE type='table' AND name='news'"@, false),
        placeholders("SELECT timestamp, url, data FROM news WHERE timestamp >= ? AND timestamp <= ? ORDER BY timestamp ASC LIMIT 100"@) == 2,
        !ends_quoted("SELECT timestamp, url, data FROM news WHERE timestamp >= ? AND timestamp <= ? ORDER BY timestamp ASC LIMIT 100"@, false),
        placeholders("SELECT timestamp, url, data FROM news WHERE timestamp >= ? AND timestamp < ? ORDER BY timestamp ASC LIMIT 100"@) == 2,
        !ends_quoted("SELECT timestamp, url, data FROM news WHERE timestamp >= ? AND timestamp < ? ORDER BY timestamp ASC LIMIT 100"@, false),
{
    assert(placeholders("SELECT CAST(unixepoch(?) * 1000 AS INTEGER)"@) == 1 && !ends_quoted("SELECT CAST(unixepoch(?) * 1000 AS INTEGER)"@, false)) by {
        reveal_strlit("SELECT CAST(unixepoch(?) * 1000 AS INTEGER)");
        let s = "SELECT CAST(unixepoch(?) * 1000 AS INTEGER)"@;
        let marks = seq![22int];
        assert(marks[0] == 22);
        assert forall|i: int| 0 <= i < s.len() && s[i] == '?' implies marks.contains(i) by {
            assert(i == 22);
        }
        assert(marked_at(s, marks));
        marked_texts(s, marks);
    }
    assert(placeholders("SELECT COUNT(*) FROM sqlite_master WHERE type='table' AND name='news'"@) == 0 && !ends_quoted("SELECT COUNT(*) FROM sqlite_master WHERE type='table' AND name='news'"@, false)) by {
        reveal_strlit("SELECT COUNT(*) FROM sqlite_master WHERE type='table' AND name='news'");
        let s = "SELECT COUNT(*) FROM sqlite_master WHERE type='table' AND name='news'"@;
        let marks = Seq::<int>::empty();
        assert(marked_at(s, marks));
        marked_texts(s, marks);
    }
    assert(placeholders("SELECT timestamp, url, data FROM news WHERE timestamp >= ? AND timestamp <= ? ORDER BY timestamp ASC LIMIT 100"@) == 2 && !ends_quoted("SELECT timestamp, url, data FROM news WHERE timestamp >= ? AND timestamp <= ? ORDER BY timestamp ASC LIMIT 100"@, false)) by {
        reveal_strlit("SELECT timestamp, url, data FROM news WHERE timestamp >= ? AND timestamp <= ? ORDER BY timestamp ASC LIMIT 100");
        let s = "SELECT timestamp, url, data FROM news WHERE timestamp >= ? AND timestamp <= ? ORDER BY timestamp ASC LIMIT 100"@;
        let marks = seq![57int, 76int];
        assert(marks[0] == 57 && marks[1] == 76);
        assert forall|i: int| 0 <= i < s.len() && s[i] == '?' implies marks.contains(i) by {
            assert(i == 57 || i == 76);
        }
        assert(marked_at(s, marks));
        marked_texts(s, marks);
    }
    assert(placeholders("SELECT timestamp, url, data FROM news WHERE timestamp >= ? AND timestamp < ? ORDER BY timestamp ASC LIMIT 100"@) == 2 && !ends_quoted("SELECT timestamp, url, data FROM news WHERE timestamp >= ? AND timestamp < ? ORDER BY timestamp ASC LIMIT 100"@, false)) by {
        reveal_strlit("SELECT timestamp, url, data FROM news WHERE timestamp >= ? AND timestamp < ? ORDER BY timestamp ASC LIMIT 100");
        let s = "SELECT timestamp, url, data FROM news WHERE timestamp >= ? AND timestamp < ? ORDER BY timestamp ASC LIMIT 100"@;
        let marks = seq![57int, 75int];
        assert(marks[0] == 57 && marks[1] == 75);
        assert forall|i: int| 0 <= i < s.len() && s[i] == '?' implies marks.contains(i) by {
            assert(i == 57 || i == 75);
        }
        assert(marked_at(s, marks));
        marked_texts(s, marks);
    }
}

/// The texts of the transactions search.
#[verifier::spinoff_prover]
proof fn transactions_search_texts()
    ensures
        placeholders("SELECT COUNT(*) FROM sqlite_master WHERE type='table' AND name='transactions'"@) == 0,
        !ends_quoted("SELECT COUNT(*) FROM sqlite_master WHERE type='table' AND name='transactions'"@, false),
        placeholders("SELECT data FROM transactions WHERE 1=1"@) == 0,
        !ends_quoted("SELECT data FROM transactions WHERE 1=1"@, false),
        placeholders(" AND date = ?"@) == 1,
        !ends_quoted(" AND date = ?"@, false),
        placeholders(" AND date >= ?"@) == 1,
        !ends_quoted(" AND date >= ?"@, false),
        placeholders(" AND date <= ?"@) == 1,
        !ends_quoted(" AND date <= ?"@, false),
        placeholders(" AND instrument_symbol = ?"@) == 1,
        !ends_quoted(" AND instrument_symbol = ?"@, false),
        placeholders(" ORDER BY date DESC LIMIT 100"@) == 0,
        !ends_quoted(" ORDER BY date DESC LIMIT 100"@, false),
{
    assert(placeholders("SELECT COUNT(*) FROM sqlite_master WHERE type='table' AND name='transactions'"@) == 0 && !ends_quoted("SELECT COUNT(*) FROM sqlite_master WHERE type='table' AND name='transactions'"@, false)) by {
        reveal_strlit("SELECT COUNT(*) FROM sqlite_master WHERE type='table' AND name='transactions'");
        let s = "SELECT COUNT(*) FROM sqlite_master WHERE type='table' AND name='transactions'"@;
        let marks = Seq::<int>::empty();
        assert(marked_at(s, marks));
        marked_texts(s, marks);
    }
    assert(placeholders("SELECT data FROM transactions WHERE 1=1"@) == 0 && !ends_quoted("SELECT data FROM transactions WHERE 1=1"@, false)) by {
        reveal_strlit("SELECT data FROM transactions WHERE 1=1");
        let s = "SELECT data FROM transactions WHERE 1=1"@;
        let marks = Seq::<int>::empty();
        assert(marked_at(s, marks));
        marked_texts(s, marks);
    }
    assert(placeholders(" AND date = ?"@) == 1 && !ends_quoted(" AND date = ?"@, false)) by {
        reveal_strlit(" AND date = ?");
        let s = " AND date = ?"@;
        let marks = seq![12int];
        assert(marks[0] == 12);
        assert forall|i: int| 0 <= i < s.len() && s[i] == '?' implies marks.contains(i) by {
            assert(i == 12);
        }
        assert(marked_at(s, marks));
        marked_texts(s, marks);
    }
    assert(placeholders(" AND date >= ?"@) == 1 && !ends_quoted(" AND date >= ?"@, false)) by {
        reveal_strlit(" AND date >= ?");
        let s = " AND date >= ?"@;
        let marks = seq![13int];
        assert(marks[0] == 13);
        assert forall|i: int| 0 <= i < s.len() && s[i] == '?' implies marks.contains(i) by {
            assert(i == 13);
        }
        assert(marked_at(s, marks));
        marked_texts(s, marks);
    }
    assert(placeholders(" AND date <= ?"@) == 1 && !ends_quoted(" AND date <= ?"@, false)) by {
        reveal_strlit(" AND date <= ?");
        let s = " AND date <= ?"@;
        let marks = seq![13int];
        assert(marks[0] == 13);
        assert forall|i: int| 0 <= i < s.len() && s[i] == '?' implies marks.contains(i) by {
            assert(i == 13);
        }
        assert(marked_at(s, marks));
        marked_texts(s, marks);
    }
    assert(placeholders(" AND instrument_symbol = ?"@) == 1 && !ends_quoted(" AND instrument_symbol = ?"@, false)) by {
        reveal_strlit(" AND instrument_symbol = ?");
        let s = " AND instrument_symbol = ?"@;
        let marks = seq![25int];
        assert(marks[0] == 25);
        assert forall|i: int| 0 <= i < s.len() && s[i] == '?' implies marks.contains(i) by {
            assert(i == 25);
        }
        assert(marked_at(s, marks));
        marked_texts(s, marks);
    }
    assert(placeholders(" ORDER BY date DESC LIMIT 100"@) == 0 && !ends_quoted(" ORDER BY date DESC LIMIT 100"@, false)) by {
        reveal_strlit(" ORDER BY date DESC LIMIT 100");
        let s = " ORDER BY date DESC LIMIT 100"@;
        let marks = Seq::<int>::empty();
        assert(marked_at(s, marks));
        marked_texts(s, marks);
    }
}

/// The texts that queries start with.
#[verifier::spinoff_prover]
proof fn select_texts()
    ensures
        starts_select("SELECT timestamp, url, data FROM "@),
        starts_select("SELECT timestamp FROM "@),
        starts_select("SELECT name FROM sqlite_master WHERE type='table' AND (name = ? OR name LIKE ?)"@),
        starts_select("SELECT time, open, high, low, close, volume, interest, market_trading_state FROM "@),
        starts_select("SELECT CAST(unixepoch(?) * 1000 AS INTEGER)"@),
        starts_select("SELECT COUNT(*) FROM sqlite_master WHERE type='table' AND name='news'"@),
        starts_select("SELECT timestamp, url, data FROM news WHERE timestamp >= ? AND timestamp <= ? ORDER BY timestamp ASC LIMIT 100"@),
        starts_select("SELECT timestamp, url, data FROM news WHERE timestamp >= ? AND timestamp < ? ORDER BY timestamp ASC LIMIT 100"@),
        starts_select("SELECT COUNT(*) FROM sqlite_master WHERE type='table' AND name='transactions'"@),
        starts_select("SELECT data FROM transactions WHERE 1=1"@),
{
    assert(starts_select("SELECT timestamp, url, data FROM "@)) by {
        reveal_strlit("SELECT timestamp, url, data FROM ");
        reveal_strlit("SELECT ");
        assert("SELECT timestamp, url, data FROM "@.subrange(0, 7) =~= "SELECT "@);
    }
    assert(starts_select("SELECT timestamp FROM "@)) by {
        reveal_strlit("SELECT timestamp FROM ");
        reveal_strlit("SELECT ");
        assert("SELECT timestamp FROM "@.subrange(0, 7) =~= "SELECT "@);
    }
    assert(starts_select("SELECT name FROM sqlite_master WHERE type='table' AND (name = ? OR name LIKE ?)"@)) by {
        reveal_strlit("SELECT name FROM sqlite_master WHERE type='table' AND (name = ? OR name LIKE ?)");
        reveal_strlit("SELECT ");
        assert("SELECT name FROM sqlite_master WHERE type='table' AND (name = ? OR name LIKE ?)"@.subrange(0, 7) =~= "SELECT "@);
    }
    assert(starts_select("SELECT time, open, high, low, close, volume, interest, market_trading_state FROM "@)) by {
        reveal_strlit("SELECT time, open, high, low, close, volume, interest, market_trading_state FROM ");
        reveal_strlit("SELECT ");
        assert("SELECT time, open, high, low, close, volume, interest, market_trading_state FROM "@.subrange(0, 7) =~= "SELECT "@);
    }
    assert(starts_select("SELECT CAST(unixepoch(?) * 1000 AS INTEGER)"@)) by {
        reveal_strlit("SELECT CAST(unixepoch(?) * 1000 AS INTEGER)");
        reveal_strlit("SELECT ");
        assert("SELECT CAST(unixepoch(?) * 1000 AS INTEGER)"@.subrange(0, 7) =~= "SELECT "@);
    }
    assert(starts_select("SELECT COUNT(*) FROM sqlite_master WHERE type='table' AND name='news'"@)) by {
        reveal_strlit("SELECT COUNT(*) FROM sqlite_master WHERE type='table' AND name='news'");
        reveal_strlit("SELECT ");
        assert("SELECT COUNT(*) FROM sqlite_master WHERE type='table' AND name='news'"@.subrange(0, 7) =~= "SELECT "@);
    }
    assert(starts_select("SELECT timestamp, url, data FROM news WHERE timestamp >= ? AND timestamp <= ? ORDER BY timestamp ASC LIMIT 100"@)) by {
        reveal_strlit("SELECT timestamp, url, data FROM news WHERE timestamp >= ? AND timestamp <= ? ORDER BY timestamp ASC LIMIT 100");
        reveal_strlit("SELECT ");
        assert("SELECT timestamp, url, data FROM news WHERE timestamp >= ? AND timestamp <= ? ORDER BY timestamp ASC LIMIT 100"@.subrange(0, 7) =~= "SELECT "@);
    }
    assert(starts_select("SELECT timestamp, url, data FROM news WHERE timestamp >= ? AND timestamp < ? ORDER BY timestamp ASC LIMIT 100"@)) by {
        reveal_strlit("SELECT timestamp, url, data FROM news WHERE timestamp >= ? AND timestamp < ? ORDER BY timestamp ASC LIMIT 100");
        reveal_strlit("SELECT ");
        assert("SELECT timestamp, url, data FROM news WHERE timestamp >= ? AND timestamp < ? ORDER BY timestamp ASC LIMIT 100"@.subrange(0, 7) =~= "SELECT "@);
    }
    assert(starts_select("SELECT COUNT(*) FROM sqlite_master WHERE type='table' AND name='transactions'"@)) by {
        reveal_strlit("SELECT COUNT(*) FROM sqlite_master WHERE type='table' AND name='transactions'");
        reveal_strlit("SELECT ");
        assert("SELECT COUNT(*) FROM sqlite_master WHERE type='table' AND name='transactions'"@.subrange(0, 7) =~= "SELECT "@);
    }
    assert(starts_select("SELECT data FROM transactions WHERE 1=1"@)) by {
        reveal_strlit("SELECT data FROM transactions WHERE 1=1");
        reveal_strlit("SELECT ");
        assert("SELECT data FROM transactions WHERE 1=1"@.subrange(0, 7) =~= "SELECT "@);
    }
}

/// How many placeholders the statements that store a push hold: none in a
/// chart table whatever its name, and none in the names of an ordinary
/// target's statements where the name is plain.
pub proof fn statement_placeholders(t: Seq<char>)
    ensures
        placeholders(chart_table_sql(t)) == 0,
        placeholders(chart_insert_sql(t)) == 8,
        placeholders(transactions_table_sql()) == 0,
        placeholders(transactions_date_index_sql()) == 0,
        placeholders(transactions_symbol_index_sql()) == 0,
        placeholders(transactions_insert_sql()) == 9,
        is_plain(t) ==> placeholders(capture_table_sql(t)) == 0,
        is_plain(t) ==> placeholders(capture_index_sql(t)) == 0,
        is_plain(t) ==> placeholders(capture_insert_sql(t)) == 3,
{
    chart_texts();
    transactions_texts();
    capture_texts();
    quoted_names(t);
    let q = quoted_name(t);
    placeholders_concat("CREATE TABLE IF NOT EXISTS "@, q);
    placeholders_concat("CREATE TABLE IF NOT EXISTS "@ + q, " (\n                time TEXT PRIMARY KEY,\n                open REAL,\n                high REAL,\n                low REAL,\n                close REAL,\n                volume REAL,\n                interest REAL,\n                market_trading_state TEXT\n            )"@);
    placeholders_concat("INSERT OR REPLACE INTO "@, q);
    placeholders_concat("INSERT OR REPLACE INTO "@ + q, " (time, open, high, low, close, volume, interest, market_trading_state) VALUES (?, ?, ?, ?, ?, ?, ?, ?)"@);
    if is_plain(t) {
        plain_texts(t);
        placeholders_concat("CREATE TABLE IF NOT EXISTS "@, t);
        placeholders_concat("CREATE TABLE IF NOT EXISTS "@ + t, " (\n            id INTEGER PRIMARY KEY AUTOINCREMENT,\n            timestamp INTEGER,\n            url TEXT,\n            data TEXT\n        )"@);
        let index = "CREATE INDEX IF NOT EXISTS idx_"@;
        placeholders_concat(index, t);
        placeholders_concat(index + t, "_timestamp ON "@);
        placeholders_concat(index + t + "_timestamp ON "@, t);
        placeholders_concat(index + t + "_timestamp ON "@ + t, " (timestamp)"@);
        let insert = "INSERT INTO "@;
        let row = " (timestamp, url, data) SELECT v.ts, v.u, v.d FROM (SELECT ? AS ts, ? AS u, ? AS d) AS v WHERE NOT EXISTS (SELECT 1 FROM "@;
        let check = " WHERE timestamp = v.ts AND url = v.u AND data = v.d)"@;
        placeholders_concat(insert, t);
        placeholders_concat(insert + t, row);
        placeholders_concat(insert + t + row, t);
        placeholders_concat(insert + t + row + t, check);
    }
}

/// One placeholder where a condition is present.
pub open spec fn one_if(present: bool) -> nat {
    if present {
        1
    } else {
        0
    }
}

proof fn empty_text()
    ensures
        placeholders(Seq::<char>::empty()) == 0,
        !ends_quoted(Seq::<char>::empty(), false),
{
}

/// How many placeholders the queries of the MCP tools hold, for a table
/// named `t` and the conditions present. A history's table is quoted, so
/// its name may hold any character.
pub proof fn query_placeholders(
    t: Seq<char>,
    from: bool,
    to: bool,
    date: bool,
    first: bool,
    last: bool,
    symbol: bool,
)
    ensures
        is_plain(t) ==> placeholders(latest_record_sql(t)) == 0,
        is_plain(t) ==> placeholders(record_at_or_before_sql(t)) == 1,
        is_plain(t) ==> placeholders(record_after_sql(t)) == 1,
        is_plain(t) ==> placeholders(previous_time_sql(t)) == 1,
        is_plain(t) ==> placeholders(next_time_sql(t)) == 1,
        placeholders(matching_tables_sql()) == 2,
        placeholders(history_sql(t, from, to)) == one_if(from) + one_if(to),
        placeholders(day_start_sql()) == 1,
        placeholders(news_table_count_sql()) == 0,
        placeholders(news_sql()) == 2,
        placeholders(news_day_sql()) == 2,
        placeholders(transactions_table_count_sql()) == 0,
        placeholders(transactions_sql(date, first, last, symbol)) == one_if(date) + one_if(first)
            + one_if(last) + one_if(symbol),
{
    record_texts();
    history_texts();
    news_texts();
    transactions_search_texts();
    empty_text();
    if is_plain(t) {
        plain_texts(t);
        let rec = "SELECT timestamp, url, data FROM "@;
        placeholders_concat(rec, t);
        placeholders_concat(rec + t, " ORDER BY timestamp DESC LIMIT 1"@);
        placeholders_concat(rec + t, " WHERE timestamp <= ? ORDER BY timestamp DESC LIMIT 1"@);
        placeholders_concat(rec + t, " WHERE timestamp > ? ORDER BY timestamp ASC LIMIT 1"@);
        let ts = "SELECT timestamp FROM "@;
        placeholders_concat(ts, t);
        placeholders_concat(ts + t, " WHERE timestamp < ? ORDER BY timestamp DESC LIMIT 1"@);
        placeholders_concat(ts + t, " WHERE timestamp > ? ORDER BY timestamp ASC LIMIT 1"@);
    }
    quoted_names(t);
    let empty = Seq::<char>::empty();
    let hist = "SELECT time, open, high, low, close, volume, interest, market_trading_state FROM "@ + quoted_name(t);
    let h_from = if from { " AND time >= ?"@ } else { empty };
    let h_to = if to { " AND time <= ?"@ } else { empty };
    placeholders_concat("SELECT time, open, high, low, close, volume, interest, market_trading_state FROM "@, quoted_name(t));
    placeholders_concat(hist, " WHERE 1=1"@);
    placeholders_concat(hist + " WHERE 1=1"@, h_from);
    placeholders_concat(hist + " WHERE 1=1"@ + h_from, h_to);
    placeholders_concat(hist + " WHERE 1=1"@ + h_from + h_to, " ORDER BY time ASC"@);
    let tx = "SELECT data FROM transactions WHERE 1=1"@;
    let f1 = filter_sql(date, " AND date = ?"@);
    let f2 = filter_sql(first, " AND date >= ?"@);
    let f3 = filter_sql(last, " AND date <= ?"@);
    let f4 = filter_sql(symbol, " AND instrument_symbol = ?"@);
    placeholders_concat(tx, f1);
    placeholders_concat(tx + f1, f2);
    placeholders_concat(tx + f1 + f2, f3);
    placeholders_concat(tx + f1 + f2 + f3, f4);
    placeholders_concat(tx + f1 + f2 + f3 + f4, " ORDER BY date DESC LIMIT 100"@);
}

// ---------------------------------------------------------------------------
// Laws
// ---------------------------------------------------------------------------

/// Every statement that a push is stored with binds exactly one value to
/// each of its placeholders.
pub proof fn plans_bind_every_placeholder(p: IncomingPayload)
    ensures
        post_plan(p) matches Some(s) ==> forall|j: int|
            0 <= j < s.len() ==> placeholders(#[trigger] s[j].sql) == s[j].params.len(),
{
    match chart_symbol(p.data) {
        Some(sym) => {
            statement_placeholders(symbol_table(sym));
        },
        None => {},
    }
    plain_texts(p.target@);
    statement_placeholders(p.target@);
}

/// The names that a state puts into SQL unquoted are plain.
pub open spec fn state_is_plain(s: StateV) -> bool {
    match s {
        StateV::LatestRecord { target, .. } => is_plain(target),
        StateV::RecordAtOrBefore { target, .. } => is_plain(target),
        StateV::RecordAfter { target, .. } => is_plain(target),
        StateV::PreviousTimestamp { target, .. } => is_plain(target),
        StateV::NextTimestamp { target, .. } => is_plain(target),
        _ => true,
    }
}

/// A step that asks for a query binds exactly one value to each of its
/// placeholders, and the state it resumes from puts only plain names into
/// SQL unquoted.
pub open spec fn binds_every_placeholder(step: StepV) -> bool {
    match step {
        StepV::Query(q, next) => placeholders(q.sql) == q.params.len() && state_is_plain(next),
        StepV::Reply(_) => true,
    }
}

/// The first query of every request binds exactly one value to each of its
/// placeholders.
pub proof fn begin_binds_every_placeholder(req: McpRequest)
    ensures
        binds_every_placeholder(begin_step(req)),
{
    if let Some(p) = req.params {
        let target = text_or_empty(json_index(json_index(p, "arguments"@), "target"@));
        plain_texts(target);
        query_placeholders(target, false, false, false, false, false, false);
    }
}

/// Every further query binds exactly one value to each of its placeholders;
/// a history names its table quoted, whatever name the database reports.
pub proof fn resume_binds_every_placeholder(s: StateV, reply: DbReply)
    requires
        state_is_plain(s),
    ensures
        binds_every_placeholder(resume_step(s, reply)),
{
    match (s, reply) {
        (StateV::LatestRecord { target, .. }, _) => {
            query_placeholders(target, false, false, false, false, false, false);
        },
        (StateV::RecordAtOrBefore { target, .. }, _) => {
            query_placeholders(target, false, false, false, false, false, false);
        },
        (StateV::RecordAfter { target, .. }, _) => {
            query_placeholders(target, false, false, false, false, false, false);
        },
        (StateV::PreviousTimestamp { target, .. }, _) => {
            query_placeholders(target, false, false, false, false, false, false);
        },
        (StateV::MatchingTables { start, end, .. }, DbReply::TableNames(Ok(names))) => {
            if names@.len() > 0 {
                query_placeholders(names@[0]@, start is Some, end is Some, false, false, false, false);
            }
        },
        (StateV::TransactionsTable { date, from, to, symbol, .. }, _) => {
            query_placeholders(
                Seq::empty(),
                false,
                false,
                date is Some,
                from is Some,
                to is Some,
                symbol is Some,
            );
        },
        _ => {
            query_placeholders(Seq::empty(), false, false, false, false, false, false);
        },
    }
}

// ---------------------------------------------------------------------------
// Answering only reads
// ---------------------------------------------------------------------------

/// A text that starts with `SELECT `: a query that reads and writes nothing.
pub open spec fn starts_select(s: Seq<char>) -> bool {
    s.len() >= 7 && s.subrange(0, 7) == "SELECT "@
}

proof fn select_concat(a: Seq<char>, b: Seq<char>)
    requires
        starts_select(a),
    ensures
        starts_select(a + b),
{
    assert((a + b).subrange(0, 7) =~= a.subrange(0, 7));
}

/// Every query of the MCP tools is a `SELECT`.
pub proof fn queries_are_selects(
    t: Seq<char>,
    from: bool,
    to: bool,
    date: bool,
    first: bool,
    last: bool,
    symbol: bool,
)
    ensures
        starts_select(latest_record_sql(t)),
        starts_select(record_at_or_before_sql(t)),
        starts_select(record_after_sql(t)),
        starts_select(previous_time_sql(t)),
        starts_select(next_time_sql(t)),
        starts_select(matching_tables_sql()),
        starts_select(history_sql(t, from, to)),
        starts_select(day_start_sql()),
        starts_select(news_table_count_sql()),
        starts_select(news_sql()),
        starts_select(news_day_sql()),
        starts_select(transactions_table_count_sql()),
        starts_select(transactions_sql(date, first, last, symbol)),
{
    select_texts();
    let rec = "SELECT timestamp, url, data FROM "@;
    select_concat(rec, t);
    select_concat(rec + t, " ORDER BY timestamp DESC LIMIT 1"@);
    select_concat(rec + t, " WHERE timestamp <= ? ORDER BY timestamp DESC LIMIT 1"@);
    select_concat(rec + t, " WHERE timestamp > ? ORDER BY timestamp ASC LIMIT 1"@);
    let ts = "SELECT timestamp FROM "@;
    select_concat(ts, t);
    select_concat(ts + t, " WHERE timestamp < ? ORDER BY timestamp DESC LIMIT 1"@);
    select_concat(ts + t, " WHERE timestamp > ? ORDER BY timestamp ASC LIMIT 1"@);
    let empty = Seq::<char>::empty();
    let hist = "SELECT time, open, high, low, close, volume, interest, market_trading_state FROM "@ + quoted_name(t);
    let h_from = if from { " AND time >= ?"@ } else { empty };
    let h_to = if to { " AND time <= ?"@ } else { empty };
    select_concat("SELECT time, open, high, low, close, volume, interest, market_trading_state FROM "@, quoted_name(t));
    select_concat(hist, " WHERE 1=1"@);
    select_concat(hist + " WHERE 1=1"@, h_from);
    select_concat(hist + " WHERE 1=1"@ + h_from, h_to);
    select_concat(hist + " WHERE 1=1"@ + h_from + h_to, " ORDER BY time ASC"@);
    let tx = "SELECT data FROM transactions WHERE 1=1"@;
    let f1 = filter_sql(date, " AND date = ?"@);
    let f2 = filter_sql(first, " AND date >= ?"@);
    let f3 = filter_sql(last, " AND date <= ?"@);
    let f4 = filter_sql(symbol, " AND instrument_symbol = ?"@);
    select_concat(tx, f1);
    select_concat(tx + f1, f2);
    select_concat(tx + f1 + f2, f3);
    select_concat(tx + f1 + f2 + f3, f4);
    select_concat(tx + f1 + f2 + f3 + f4, " ORDER BY date DESC LIMIT 100"@);
}

/// Answering a request only reads: every query that a step asks for is a
/// `SELECT`.
pub proof fn answering_only_reads(req: McpRequest, s: StateV, reply: DbReply)
    ensures
        begin_step(req) matches StepV::Query(q, _) ==> starts_select(q.sql),
        resume_step(s, reply) matches StepV::Query(q, _) ==> starts_select(q.sql),
{
    if let Some(p) = req.params {
        let args = json_index(p, "arguments"@);
        queries_are_selects(text_or_empty(json_index(args, "target"@)), false, false, false, false, false, false);
    }
    match (s, reply) {
        (StateV::LatestRecord { target, .. }, _) => {
            queries_are_selects(target, false, false, false, false, false, false);
        },
        (StateV::RecordAtOrBefore { target, .. }, _) => {
            queries_are_selects(target, false, false, false, false, false, false);
        },
        (StateV::RecordAfter { target, .. }, _) => {
            queries_are_selects(target, false, false, false, false, false, false);
        },
        (StateV::PreviousTimestamp { target, .. }, _) => {
            queries_are_selects(target, false, false, false, false, false, false);
        },
        (StateV::MatchingTables { start, end, .. }, DbReply::TableNames(Ok(names))) => {
            if names@.len() > 0 {
                queries_are_selects(names@[0]@, start is Some, end is Some, false, false, false, false);
            }
        },
        (StateV::TransactionsTable { date, from, to, symbol, .. }, _) => {
            queries_are_selects(
                Seq::empty(),
                false,
                false,
                date is Some,
                from is Some,
                to is Some,
                symbol is Some,
            );
        },
        _ => {
            queries_are_selects(Seq::empty(), false, false, false, false, false, false);
        },
    }
}

} // verus!
