//! How the MCP server answers a JSON-RPC request.
//!
//! Answering a request may take database queries. The server is a state
//! machine: `begin` takes a request and either answers it or asks for a
//! query together with the state to resume from; `resume` takes that state
//! and the query's result and again answers or asks for the next query.
//!
//! A request without an id is a notification and is never answered; the
//! queries it leads to still run.
use vstd::prelude::*;
use vstd::pervasive::unreached;
use crate::json::{
    Json, StoredText, json_index, json_int, json_text, text_or_empty, stored_value, into_value,
    member_of, text_of, text_or, opt_text, int_of, or_null,
};
use crate::names::{is_literal, is_table_name, is_valid_table_name};
use crate::sql::{
    ParamV, SqlParam, params_view, day_start, day_start_sql, history, history_sql,
    latest_record, latest_record_sql, market_pattern, market_pattern_of, matching_tables,
    matching_tables_sql, news, news_day, news_day_sql, news_sql, news_table_count, news_table_count_sql, next_time,
    next_time_sql, previous_time, previous_time_sql, record_after, record_after_sql,
    record_at_or_before, record_at_or_before_sql, transactions, transactions_sql,
    transactions_table_count, transactions_table_count_sql, cat,
};
use crate::rpc::{
    DocumentV, HistoryRow, McpRequest, NewsItem, NewsItemV, Outcome, OutcomeV, ResponseV,
    RpcResponse, StoredRecord, ToolDocument, resource_catalogue, resources, schema_resource,
    schema_text, tool_catalogue, tools,
};
use crate::lookup::{
    DAY_MS, RecordLookup, choose_nearest, distance, join_names, joined, nearest, nearest_in_range,
};

verus! {

// ---------------------------------------------------------------------------
// Queries, results, states and steps
// ---------------------------------------------------------------------------

/// What a query fetches, and so what its result holds.
pub enum Fetch {
    /// At most one record (timestamp, url, data).
    OptionalRecord,
    /// At most one timestamp.
    OptionalTimestamp,
    /// Every table name found.
    TableNames,
    /// Every candle found.
    HistoryRows,
    /// Exactly one integer.
    Integer,
    /// Exactly one count.
    Count,
    /// Every record found.
    Records,
    /// Every stored text found.
    Texts,
}

/// A query to run.
pub struct DbQuery {
    pub sql: String,
    pub params: Vec<SqlParam>,
    pub fetch: Fetch,
}

pub struct QueryV {
    pub sql: Seq<char>,
    pub params: Seq<ParamV>,
    pub fetch: Fetch,
}

impl View for DbQuery {
    type V = QueryV;

    open spec fn view(&self) -> QueryV {
        QueryV { sql: self.sql@, params: params_view(self.params@), fetch: self.fetch }
    }
}

/// The result of a query, or the text of its error.
pub enum DbReply {
    Record(Result<Option<StoredRecord>, String>),
    Timestamp(Result<Option<i64>, String>),
    TableNames(Result<Vec<String>, String>),
    HistoryRows(Result<Vec<HistoryRow>, String>),
    Integer(Result<i64, String>),
    Count(Result<i32, String>),
    Records(Result<Vec<StoredRecord>, String>),
    Texts(Result<Vec<StoredText>, String>),
}

/// What a result holds.
pub open spec fn reply_fetch(r: DbReply) -> Fetch {
    match r {
        DbReply::Record(_) => Fetch::OptionalRecord,
        DbReply::Timestamp(_) => Fetch::OptionalTimestamp,
        DbReply::TableNames(_) => Fetch::TableNames,
        DbReply::HistoryRows(_) => Fetch::HistoryRows,
        DbReply::Integer(_) => Fetch::Integer,
        DbReply::Count(_) => Fetch::Count,
        DbReply::Records(_) => Fetch::Records,
        DbReply::Texts(_) => Fetch::Texts,
    }
}

/// Where the answer to a request stands while a query runs.
pub enum McpState {
    /// `query_stock_data` without a time: the latest record of `target`.
    LatestRecord { id: Option<Json>, target: String },
    /// `query_stock_data` at time `ts`: the record at or before it.
    RecordAtOrBefore { id: Option<Json>, target: String, ts: i64 },
    /// `query_stock_data` at time `ts`: the record after it.
    RecordAfter { id: Option<Json>, target: String, ts: i64, at_or_before: RecordLookup },
    /// The time of the record before the one found.
    PreviousTimestamp { id: Option<Json>, target: String, record: StoredRecord },
    /// The time of the record after the one found.
    NextTimestamp { id: Option<Json>, target: String, record: StoredRecord, previous: Option<i64> },
    /// `query_stock_history`: the tables of `symbol`.
    MatchingTables { id: Option<Json>, symbol: String, start: Option<String>, end: Option<String> },
    /// `query_stock_history`: the candles of `table`.
    History { id: Option<Json>, symbol: String, table: String },
    /// `search_news` on a date: the start of the day.
    DayStart { id: Option<Json> },
    /// `search_news`: whether the news table exists. On a date (`day`) the
    /// end of the range is the start of the next day, which is left out.
    NewsTable { id: Option<Json>, start: i64, end: i64, day: bool },
    /// `search_news`: the news of the range.
    NewsItems { id: Option<Json>, start: i64, end: i64 },
    /// `search_transactions`: whether the transactions table exists.
    TransactionsTable {
        id: Option<Json>,
        date: Option<String>,
        from: Option<String>,
        to: Option<String>,
        symbol: Option<String>,
    },
    /// `search_transactions`: the transactions found.
    TransactionItems { id: Option<Json> },
}

pub enum StateV {
    LatestRecord { id: Option<Json>, target: Seq<char> },
    RecordAtOrBefore { id: Option<Json>, target: Seq<char>, ts: i64 },
    RecordAfter { id: Option<Json>, target: Seq<char>, ts: i64, at_or_before: RecordLookup },
    PreviousTimestamp { id: Option<Json>, target: Seq<char>, record: StoredRecord },
    NextTimestamp { id: Option<Json>, target: Seq<char>, record: StoredRecord, previous: Option<i64> },
    MatchingTables {
        id: Option<Json>,
        symbol: Seq<char>,
        start: Option<Seq<char>>,
        end: Option<Seq<char>>,
    },
    History { id: Option<Json>, symbol: Seq<char>, table: Seq<char> },
    DayStart { id: Option<Json> },
    NewsTable { id: Option<Json>, start: i64, end: i64, day: bool },
    NewsItems { id: Option<Json>, start: i64, end: i64 },
    TransactionsTable {
        id: Option<Json>,
        date: Option<Seq<char>>,
        from: Option<Seq<char>>,
        to: Option<Seq<char>>,
        symbol: Option<Seq<char>>,
    },
    TransactionItems { id: Option<Json> },
}

/// The view of an optional string.
pub open spec fn opt_view(o: Option<String>) -> Option<Seq<char>> {
    match o {
        Some(s) => Some(s@),
        None => None,
    }
}

impl View for McpState {
    type V = StateV;

    open spec fn view(&self) -> StateV {
        match self {
            McpState::LatestRecord { id, target } => StateV::LatestRecord { id: *id, target: target@ },
            McpState::RecordAtOrBefore { id, target, ts } => StateV::RecordAtOrBefore {
                id: *id,
                target: target@,
                ts: *ts,
            },
            McpState::RecordAfter { id, target, ts, at_or_before } => StateV::RecordAfter {
                id: *id,
                target: target@,
                ts: *ts,
                at_or_before: *at_or_before,
            },
            McpState::PreviousTimestamp { id, target, record } => StateV::PreviousTimestamp {
                id: *id,
                target: target@,
                record: *record,
            },
            McpState::NextTimestamp { id, target, record, previous } => StateV::NextTimestamp {
                id: *id,
                target: target@,
                record: *record,
                previous: *previous,
            },
            McpState::MatchingTables { id, symbol, start, end } => StateV::MatchingTables {
                id: *id,
                symbol: symbol@,
                start: opt_view(*start),
                end: opt_view(*end),
            },
            McpState::History { id, symbol, table } => StateV::History {
                id: *id,
                symbol: symbol@,
                table: table@,
            },
            McpState::DayStart { id } => StateV::DayStart { id: *id },
            McpState::NewsTable { id, start, end, day } => StateV::NewsTable {
                id: *id,
                start: *start,
                end: *end,
                day: *day,
            },
            McpState::NewsItems { id, start, end } => StateV::NewsItems {
                id: *id,
                start: *start,
                end: *end,
            },
            McpState::TransactionsTable { id, date, from, to, symbol } =>
                StateV::TransactionsTable {
                id: *id,
                date: opt_view(*date),
                from: opt_view(*from),
                to: opt_view(*to),
                symbol: opt_view(*symbol),
            },
            McpState::TransactionItems { id } => StateV::TransactionItems { id: *id },
        }
    }
}

/// What the server does next: answer (or stay silent), or run a query and
/// resume from a state with its result.
pub enum McpStep {
    Reply(Option<RpcResponse>),
    Query(DbQuery, McpState),
}

pub enum StepV {
    Reply(Option<ResponseV>),
    Query(QueryV, StateV),
}

impl View for McpStep {
    type V = StepV;

    open spec fn view(&self) -> StepV {
        match self {
            McpStep::Reply(o) => StepV::Reply(
                match o {
                    Some(r) => Some(r@),
                    None => None,
                },
            ),
            McpStep::Query(q, s) => StepV::Query(q@, s@),
        }
    }
}

/// The id of the request that a state answers.
pub open spec fn state_id(s: StateV) -> Option<Json> {
    match s {
        StateV::LatestRecord { id, .. } => id,
        StateV::RecordAtOrBefore { id, .. } => id,
        StateV::RecordAfter { id, .. } => id,
        StateV::PreviousTimestamp { id, .. } => id,
        StateV::NextTimestamp { id, .. } => id,
        StateV::MatchingTables { id, .. } => id,
        StateV::History { id, .. } => id,
        StateV::DayStart { id } => id,
        StateV::NewsTable { id, .. } => id,
        StateV::NewsItems { id, .. } => id,
        StateV::TransactionsTable { id, .. } => id,
        StateV::TransactionItems { id } => id,
    }
}

/// What the query that a state waits for fetches.
pub open spec fn expected_fetch(s: StateV) -> Fetch {
    match s {
        StateV::LatestRecord { .. } => Fetch::OptionalRecord,
        StateV::RecordAtOrBefore { .. } => Fetch::OptionalRecord,
        StateV::RecordAfter { .. } => Fetch::OptionalRecord,
        StateV::PreviousTimestamp { .. } => Fetch::OptionalTimestamp,
        StateV::NextTimestamp { .. } => Fetch::OptionalTimestamp,
        StateV::MatchingTables { .. } => Fetch::TableNames,
        StateV::History { .. } => Fetch::HistoryRows,
        StateV::DayStart { .. } => Fetch::Integer,
        StateV::NewsTable { .. } => Fetch::Count,
        StateV::NewsItems { .. } => Fetch::Records,
        StateV::TransactionsTable { .. } => Fetch::Count,
        StateV::TransactionItems { .. } => Fetch::Texts,
    }
}

// ---------------------------------------------------------------------------
// The answers, as the contracts see them
// ---------------------------------------------------------------------------

/// The answer to a request that has an id; a notification gets none.
pub open spec fn reply_to(id: Option<Json>, o: OutcomeV) -> StepV {
    match id {
        Some(_) => StepV::Reply(Some(ResponseV { id, outcome: o })),
        None => StepV::Reply(None),
    }
}

pub open spec fn failure(code: int, message: Seq<char>) -> OutcomeV {
    OutcomeV::Failure { code: code as i64, message }
}

pub open spec fn query_step(sql: Seq<char>, params: Seq<ParamV>, fetch: Fetch, next: StateV) -> StepV {
    StepV::Query(QueryV { sql, params, fetch }, next)
}

/// The protocol version that `initialize` answers: the client's, where it
/// gives one as a string, else 2024-11-05.
pub open spec fn client_version(params: Option<Json>) -> Seq<char> {
    match params {
        Some(p) => match json_text(json_index(p, "protocolVersion"@)) {
            Some(v) => v,
            None => "2024-11-05"@,
        },
        None => "2024-11-05"@,
    }
}

/// The tools of the server.
pub enum ToolKind {
    StockData,
    StockHistory,
    News,
    Transactions,
    Unknown,
}

/// The tool of a name.
pub open spec fn tool_kind(name: Seq<char>) -> ToolKind {
    if name == "query_stock_data"@ {
        ToolKind::StockData
    } else if name == "query_stock_history"@ {
        ToolKind::StockHistory
    } else if name == "search_news"@ {
        ToolKind::News
    } else if name == "search_transactions"@ {
        ToolKind::Transactions
    } else {
        ToolKind::Unknown
    }
}

/// The tool that a call names: `query_stock_data` where it names none.
pub open spec fn tool_name(p: Json) -> Seq<char> {
    match json_text(json_index(p, "name"@)) {
        Some(n) => n,
        None => "query_stock_data"@,
    }
}

/// `query_stock_data`: the record of a target nearest to a time, or its
/// latest record.
pub open spec fn stock_data_step(id: Option<Json>, args: Json) -> StepV {
    let target = text_or_empty(json_index(args, "target"@));
    if !is_table_name(target) {
        reply_to(id, failure(-32602, "Invalid target name"@))
    } else {
        match json_int(json_index(args, "timestamp"@)) {
            None => query_step(
                latest_record_sql(target),
                Seq::empty(),
                Fetch::OptionalRecord,
                StateV::LatestRecord { id, target },
            ),
            Some(ts) => query_step(
                record_at_or_before_sql(target),
                seq![ParamV::Integer(ts)],
                Fetch::OptionalRecord,
                StateV::RecordAtOrBefore { id, target, ts },
            ),
        }
    }
}

/// `query_stock_history`: first the tables of the symbol.
pub open spec fn stock_history_step(id: Option<Json>, args: Json) -> StepV {
    let symbol = text_or_empty(json_index(args, "symbol"@));
    if symbol.len() == 0 {
        reply_to(id, failure(-32602, "Missing symbol"@))
    } else {
        query_step(
            matching_tables_sql(),
            seq![ParamV::Text(symbol), ParamV::Text(market_pattern(symbol))],
            Fetch::TableNames,
            StateV::MatchingTables {
                id,
                symbol,
                start: json_text(json_index(args, "start_time"@)),
                end: json_text(json_index(args, "end_time"@)),
            },
        )
    }
}

/// The check that the news table exists, before a search of a range.
pub open spec fn news_table_step(id: Option<Json>, start: i64, end: i64, day: bool) -> StepV {
    query_step(
        news_table_count_sql(),
        Seq::empty(),
        Fetch::Count,
        StateV::NewsTable { id, start, end, day },
    )
}

/// `search_news`: the range is the day of `date`, a day either side of
/// `timestamp`, or `start_timestamp` to `end_timestamp`, in that order of
/// preference.
pub open spec fn news_step(id: Option<Json>, args: Json) -> StepV {
    match json_text(json_index(args, "date"@)) {
        Some(d) => query_step(
            day_start_sql(),
            seq![ParamV::Text(d)],
            Fetch::Integer,
            StateV::DayStart { id },
        ),
        None => match json_int(json_index(args, "timestamp"@)) {
            Some(t) => news_table_step(id, (t - DAY_MS) as i64, (t + DAY_MS) as i64, false),
            None => match (
                json_int(json_index(args, "start_timestamp"@)),
                json_int(json_index(args, "end_timestamp"@)),
            ) {
                (Some(s), Some(e)) => news_table_step(id, s, e, false),
                _ => reply_to(
                    id,
                    failure(
                        -32602,
                        "Missing time parameters. Provide date, timestamp, or start_timestamp/end_timestamp."@,
                    ),
                ),
            },
        },
    }
}

/// `search_transactions`: first the check that the table exists.
pub open spec fn transactions_step(id: Option<Json>, args: Json) -> StepV {
    query_step(
        transactions_table_count_sql(),
        Seq::empty(),
        Fetch::Count,
        StateV::TransactionsTable {
            id,
            date: json_text(json_index(args, "date"@)),
            from: json_text(json_index(args, "start_date"@)),
            to: json_text(json_index(args, "end_date"@)),
            symbol: json_text(json_index(args, "symbol"@)),
        },
    )
}

/// `tools/call` with parameters `p`.
pub open spec fn call_tool_step(id: Option<Json>, p: Json) -> StepV {
    let args = json_index(p, "arguments"@);
    match tool_kind(tool_name(p)) {
        ToolKind::StockData => stock_data_step(id, args),
        ToolKind::StockHistory => stock_history_step(id, args),
        ToolKind::News => news_step(id, args),
        ToolKind::Transactions => transactions_step(id, args),
        ToolKind::Unknown => reply_to(
            id,
            failure(-32601, "Method '"@ + tool_name(p) + "' not implemented"@),
        ),
    }
}

/// What the server does first with a request.
pub open spec fn begin_step(req: McpRequest) -> StepV {
    let m = req.method@;
    let id = req.id;
    if m == "initialize"@ {
        reply_to(
            id,
            OutcomeV::Initialized {
                protocol_version: client_version(req.params),
                server_name: "Saxo Grab Receiver"@,
                server_version: "0.1.0"@,
            },
        )
    } else if m == "notifications/initialized"@ {
        StepV::Reply(None)
    } else if m == "ping"@ {
        reply_to(id, OutcomeV::Pong)
    } else if m == "tools/list"@ {
        reply_to(id, OutcomeV::Tools(tool_catalogue()))
    } else if m == "tools/call"@ {
        match req.params {
            Some(p) => call_tool_step(id, p),
            None => reply_to(id, failure(-32602, "Missing parameters"@)),
        }
    } else if m == "resources/list"@ {
        reply_to(id, OutcomeV::Resources(resource_catalogue()))
    } else if m == "resources/read"@ {
        match req.params {
            Some(p) => if json_text(json_index(p, "uri"@)) == Some("schema://stock_data"@) {
                reply_to(id, schema_text())
            } else {
                reply_to(id, failure(-32602, "Resource not found"@))
            },
            None => reply_to(id, failure(-32602, "Missing parameters"@)),
        }
    } else {
        reply_to(id, failure(-32601, "Method not implemented"@))
    }
}

/// The request's arithmetic stays within `i64`: a news search around a
/// timestamp can subtract and add a day to it.
pub open spec fn request_in_range(req: McpRequest) -> bool {
    req.method@ == "tools/call"@ ==> match req.params {
        Some(p) => {
            let args = json_index(p, "arguments"@);
            (tool_kind(tool_name(p)) is News && json_text(json_index(args, "date"@)) is None)
                ==> match json_int(json_index(args, "timestamp"@)) {
                Some(t) => i64::MIN + DAY_MS <= t <= i64::MAX - DAY_MS,
                None => true,
            }
        },
        None => true,
    }
}

/// A bound text where the value is present.
pub open spec fn opt_param(o: Option<Seq<char>>) -> Seq<ParamV> {
    match o {
        Some(s) => seq![ParamV::Text(s)],
        None => Seq::empty(),
    }
}

/// What follows a lookup of the record of `target` to show.
pub open spec fn record_found(id: Option<Json>, target: Seq<char>, r: RecordLookup) -> StepV {
    match r {
        Ok(Some(rec)) => query_step(
            previous_time_sql(target),
            seq![ParamV::Integer(rec.timestamp)],
            Fetch::OptionalTimestamp,
            StateV::PreviousTimestamp { id, target, record: rec },
        ),
        Ok(None) => reply_to(id, OutcomeV::Text("No records found"@)),
        Err(e) => reply_to(id, failure(-32603, "Error querying database: "@ + e@)),
    }
}

/// A timestamp lookup whose failure counts as finding none.
pub open spec fn found_time(r: Result<Option<i64>, String>) -> Option<i64> {
    match r {
        Ok(t) => t,
        Err(_) => None,
    }
}

/// A news record as the search returns it.
pub open spec fn news_item(r: StoredRecord) -> NewsItemV {
    NewsItemV { timestamp: r.timestamp, url: r.url@, data: stored_value(r.data) }
}

/// The text answered when the news table does not exist.
pub open spec fn no_news_table() -> Seq<char> {
    "{\"news\": [], \"message\": \"News table does not exist yet. No news data has been intercepted.\"}"@
}

/// The text answered when the transactions table does not exist.
pub open spec fn no_transactions_table() -> Seq<char> {
    "{\"transactions\": [], \"message\": \"Transactions table does not exist yet.\"}"@
}

/// What the server does with the result of the query that state `s` waits
/// for.
pub open spec fn resume_step(s: StateV, reply: DbReply) -> StepV {
    match (s, reply) {
        (StateV::LatestRecord { id, target }, DbReply::Record(r)) => record_found(id, target, r),
        (StateV::RecordAtOrBefore { id, target, ts }, DbReply::Record(r)) => query_step(
            record_after_sql(target),
            seq![ParamV::Integer(ts)],
            Fetch::OptionalRecord,
            StateV::RecordAfter { id, target, ts, at_or_before: r },
        ),
        (StateV::RecordAfter { id, target, ts, at_or_before }, DbReply::Record(r)) => record_found(
            id,
            target,
            nearest(ts, at_or_before, r),
        ),
        (StateV::PreviousTimestamp { id, target, record }, DbReply::Timestamp(r)) => query_step(
            next_time_sql(target),
            seq![ParamV::Integer(record.timestamp)],
            Fetch::OptionalTimestamp,
            StateV::NextTimestamp { id, target, record, previous: found_time(r) },
        ),
        (StateV::NextTimestamp { id, target, record, previous }, DbReply::Timestamp(r)) => reply_to(
            id,
            OutcomeV::Document(
                DocumentV::Record {
                    timestamp: record.timestamp,
                    url: record.url@,
                    data: stored_value(record.data),
                    previous,
                    next: found_time(r),
                },
            ),
        ),
        (StateV::MatchingTables { id, symbol, start, end }, DbReply::TableNames(r)) => match r {
            Err(e) => reply_to(id, failure(-32603, "Error searching for tables: "@ + e@)),
            Ok(names) => if names@.len() == 0 {
                reply_to(id, OutcomeV::Text("No data found for symbol: "@ + symbol))
            } else if names@.len() == 1 {
                query_step(
                    history_sql(names@[0]@, start is Some, end is Some),
                    opt_param(start) + opt_param(end),
                    Fetch::HistoryRows,
                    StateV::History { id, symbol, table: names@[0]@ },
                )
            } else {
                reply_to(
                    id,
                    OutcomeV::Text(
                        "Multiple markets found for "@ + symbol + ". Please specify one: "@ + joined(
                            names@.map_values(|n: String| n@),
                            ", "@,
                        ),
                    ),
                )
            },
        },
        (StateV::History { id, symbol, table }, DbReply::HistoryRows(r)) => match r {
            Err(e) => reply_to(id, failure(-32603, "Error querying history: "@ + e@)),
            Ok(rows) => reply_to(
                id,
                OutcomeV::Document(DocumentV::History { symbol, table, rows: rows@ }),
            ),
        },
        (StateV::DayStart { id }, DbReply::Integer(r)) => match r {
            Err(_) => reply_to(id, failure(-32602, "Invalid date format. Use YYYY-MM-DD"@)),
            Ok(start) => news_table_step(id, start, (start + DAY_MS) as i64, true),
        },
        (StateV::NewsTable { id, start, end, day }, DbReply::Count(r)) => {
            let count = match r {
                Ok(c) => c,
                Err(_) => 0,
            };
            if count == 0 {
                reply_to(id, OutcomeV::Text(no_news_table()))
            } else {
                query_step(
                    if day {
                        news_day_sql()
                    } else {
                        news_sql()
                    },
                    seq![ParamV::Integer(start), ParamV::Integer(end)],
                    Fetch::Records,
                    StateV::NewsItems { id, start, end },
                )
            }
        },
        (StateV::NewsItems { id, start, end }, DbReply::Records(r)) => match r {
            Err(e) => reply_to(id, failure(-32603, "Error querying news: "@ + e@)),
            Ok(recs) => reply_to(
                id,
                OutcomeV::Document(
                    DocumentV::News {
                        items: recs@.map_values(|x: StoredRecord| news_item(x)),
                        start,
                        end,
                    },
                ),
            ),
        },
        (StateV::TransactionsTable { id, date, from, to, symbol }, DbReply::Count(r)) => {
            let count = match r {
                Ok(c) => c,
                Err(_) => 0,
            };
            if count == 0 {
                reply_to(id, OutcomeV::Text(no_transactions_table()))
            } else {
                query_step(
                    transactions_sql(date is Some, from is Some, to is Some, symbol is Some),
                    opt_param(date) + opt_param(from) + opt_param(to) + opt_param(symbol),
                    Fetch::Texts,
                    StateV::TransactionItems { id },
                )
            }
        },
        (StateV::TransactionItems { id }, DbReply::Texts(r)) => match r {
            Err(e) => reply_to(id, failure(-32603, "Error querying transactions: "@ + e@)),
            Ok(texts) => reply_to(
                id,
                OutcomeV::Document(
                    DocumentV::Transactions {
                        items: texts@.map_values(|t: StoredText| stored_value(t)),
                    },
                ),
            ),
        },
        _ => StepV::Reply(None),
    }
}

/// The result fits the state that waits for it, and the arithmetic of what
/// follows stays within `i64`: the distances of two found records from the
/// time asked for, and the end of the day that starts at the date found.
pub open spec fn resume_in_range(s: StateV, reply: DbReply) -> bool {
    &&& reply_fetch(reply) == expected_fetch(s)
    &&& (s matches StateV::RecordAfter { ts, at_or_before, .. } ==> (reply matches DbReply::Record(
        r,
    ) ==> nearest_in_range(ts, at_or_before, r)))
    &&& (s is DayStart ==> (reply matches DbReply::Integer(Ok(v)) ==> v <= i64::MAX - DAY_MS))
}

// ---------------------------------------------------------------------------
// The executable state machine
// ---------------------------------------------------------------------------

fn respond(id: Option<Json>, o: Outcome) -> (s: McpStep)
    ensures
        s@ == reply_to(id, o@),
{
    match id {
        Some(x) => McpStep::Reply(Some(RpcResponse { id: Some(x), outcome: o })),
        None => McpStep::Reply(None),
    }
}

fn fail(code: i64, message: &str) -> (o: Outcome)
    ensures
        o@ == failure(code as int, message@),
{
    Outcome::Failure { code, message: String::from_str(message) }
}

fn fail_with(code: i64, prefix: &str, detail: &str) -> (o: Outcome)
    ensures
        o@ == failure(code as int, prefix@ + detail@),
{
    Outcome::Failure { code, message: cat(prefix, detail) }
}

fn ask(sql: String, params: Vec<SqlParam>, fetch: Fetch, next: McpState) -> (s: McpStep)
    ensures
        s@ == query_step(sql@, params_view(params@), fetch, next@),
{
    McpStep::Query(DbQuery { sql, params, fetch }, next)
}

fn no_params() -> (v: Vec<SqlParam>)
    ensures
        params_view(v@) == Seq::<ParamV>::empty(),
{
    let v: Vec<SqlParam> = Vec::new();
    assert(params_view(v@) =~= Seq::<ParamV>::empty());
    v
}

fn one_param(p: SqlParam) -> (v: Vec<SqlParam>)
    ensures
        params_view(v@) == seq![p@],
{
    let mut v: Vec<SqlParam> = Vec::new();
    v.push(p);
    assert(params_view(v@) =~= seq![p@]);
    v
}

/// Appends a bound text where the value is present.
fn push_opt(v: &mut Vec<SqlParam>, o: Option<String>)
    ensures
        params_view(final(v)@) == params_view(old(v)@) + opt_param(opt_view(o)),
{
    let ghost before = v@;
    match o {
        Some(s) => {
            v.push(SqlParam::Text(s));
            assert(params_view(v@) =~= params_view(before) + opt_param(opt_view(o)));
        },
        None => {
            assert(params_view(v@) =~= params_view(before) + opt_param(opt_view(o)));
        },
    }
}

/// The tool that a name names.
fn tool_of(name: &String) -> (k: ToolKind)
    ensures
        k == tool_kind(name@),
{
    if is_literal(name, "query_stock_data") {
        ToolKind::StockData
    } else if is_literal(name, "query_stock_history") {
        ToolKind::StockHistory
    } else if is_literal(name, "search_news") {
        ToolKind::News
    } else if is_literal(name, "search_transactions") {
        ToolKind::Transactions
    } else {
        ToolKind::Unknown
    }
}

fn stock_data(id: Option<Json>, args: Option<&Json>) -> (s: McpStep)
    ensures
        s@ == stock_data_step(id, or_null(args)),
{
    let target = text_or(member_of(args, "target"), "");
    if !is_valid_table_name(target.as_str()) {
        return respond(id, fail(-32602, "Invalid target name"));
    }
    match int_of(member_of(args, "timestamp")) {
        None => {
            let sql = latest_record(target.as_str());
            ask(sql, no_params(), Fetch::OptionalRecord, McpState::LatestRecord { id, target })
        },
        Some(ts) => {
            let sql = record_at_or_before(target.as_str());
            ask(
                sql,
                one_param(SqlParam::Integer(ts)),
                Fetch::OptionalRecord,
                McpState::RecordAtOrBefore { id, target, ts },
            )
        },
    }
}

fn stock_history(id: Option<Json>, args: Option<&Json>) -> (s: McpStep)
    ensures
        s@ == stock_history_step(id, or_null(args)),
{
    let symbol = text_or(member_of(args, "symbol"), "");
    if symbol.as_str().unicode_len() == 0 {
        return respond(id, fail(-32602, "Missing symbol"));
    }
    let start = opt_text(member_of(args, "start_time"));
    let end = opt_text(member_of(args, "end_time"));
    let mut params: Vec<SqlParam> = Vec::new();
    params.push(SqlParam::Text(symbol.clone()));
    params.push(SqlParam::Text(market_pattern_of(symbol.as_str())));
    assert(params_view(params@) =~= seq![ParamV::Text(symbol@), ParamV::Text(market_pattern(symbol@))]);
    ask(matching_tables(), params, Fetch::TableNames, McpState::MatchingTables { id, symbol, start, end })
}

fn news_table_check(id: Option<Json>, start: i64, end: i64, day: bool) -> (s: McpStep)
    ensures
        s@ == news_table_step(id, start, end, day),
{
    ask(news_table_count(), no_params(), Fetch::Count, McpState::NewsTable { id, start, end, day })
}

fn news_search(id: Option<Json>, args: Option<&Json>) -> (s: McpStep)
    requires
        json_text(json_index(or_null(args), "date"@)) is None ==> match json_int(
            json_index(or_null(args), "timestamp"@),
        ) {
            Some(t) => i64::MIN + DAY_MS <= t <= i64::MAX - DAY_MS,
            None => true,
        },
    ensures
        s@ == news_step(id, or_null(args)),
{
    match text_of(member_of(args, "date")) {
        Some(d) => {
            let p = SqlParam::Text(d.clone());
            ask(day_start(), one_param(p), Fetch::Integer, McpState::DayStart { id })
        },
        None => match int_of(member_of(args, "timestamp")) {
            Some(t) => news_table_check(id, t - DAY_MS, t + DAY_MS, false),
            None => {
                let from = int_of(member_of(args, "start_timestamp"));
                let to = int_of(member_of(args, "end_timestamp"));
                match (from, to) {
                    (Some(s), Some(e)) => news_table_check(id, s, e, false),
                    _ => respond(
                        id,
                        fail(
                            -32602,
                            "Missing time parameters. Provide date, timestamp, or start_timestamp/end_timestamp.",
                        ),
                    ),
                }
            },
        },
    }
}

fn transactions_search(id: Option<Json>, args: Option<&Json>) -> (s: McpStep)
    ensures
        s@ == transactions_step(id, or_null(args)),
{
    let date = opt_text(member_of(args, "date"));
    let from = opt_text(member_of(args, "start_date"));
    let to = opt_text(member_of(args, "end_date"));
    let symbol = opt_text(member_of(args, "symbol"));
    ask(
        transactions_table_count(),
        no_params(),
        Fetch::Count,
        McpState::TransactionsTable { id, date, from, to, symbol },
    )
}

fn call_tool(id: Option<Json>, p: &Json) -> (s: McpStep)
    requires
        (tool_kind(tool_name(*p)) is News && json_text(
            json_index(json_index(*p, "arguments"@), "date"@),
        ) is None) ==> match json_int(json_index(json_index(*p, "arguments"@), "timestamp"@)) {
            Some(t) => i64::MIN + DAY_MS <= t <= i64::MAX - DAY_MS,
            None => true,
        },
    ensures
        s@ == call_tool_step(id, *p),
{
    let name = text_or(p.member("name"), "query_stock_data");
    let args = p.member("arguments");
    match tool_of(&name) {
        ToolKind::StockData => stock_data(id, args),
        ToolKind::StockHistory => stock_history(id, args),
        ToolKind::News => news_search(id, args),
        ToolKind::Transactions => transactions_search(id, args),
        ToolKind::Unknown => {
            let message = cat("Method '", name.as_str()).concat("' not implemented");
            respond(id, Outcome::Failure { code: -32601, message })
        },
    }
}

/// What the server does first with a request: the answer, or the first
/// query and the state to resume from.
pub fn begin(req: McpRequest) -> (s: McpStep)
    requires
        request_in_range(req),
    ensures
        s@ == begin_step(req),
{
    let ghost r0 = req;
    let McpRequest { method, params, id } = req;
    if is_literal(&method, "initialize") {
        let version = match &params {
            Some(p) => text_or(p.member("protocolVersion"), "2024-11-05"),
            None => String::from_str("2024-11-05"),
        };
        respond(
            id,
            Outcome::Initialized {
                protocol_version: version,
                server_name: String::from_str("Saxo Grab Receiver"),
                server_version: String::from_str("0.1.0"),
            },
        )
    } else if is_literal(&method, "notifications/initialized") {
        McpStep::Reply(None)
    } else if is_literal(&method, "ping") {
        respond(id, Outcome::Pong)
    } else if is_literal(&method, "tools/list") {
        let catalogue = tools();
        let o = Outcome::Tools(catalogue);
        assert(o@ == OutcomeV::Tools(tool_catalogue()));
        respond(id, o)
    } else if is_literal(&method, "tools/call") {
        match params {
            Some(p) => call_tool(id, &p),
            None => respond(id, fail(-32602, "Missing parameters")),
        }
    } else if is_literal(&method, "resources/list") {
        let catalogue = resources();
        let o = Outcome::Resources(catalogue);
        assert(o@ == OutcomeV::Resources(resource_catalogue()));
        respond(id, o)
    } else if is_literal(&method, "resources/read") {
        match params {
            Some(p) => {
                let is_schema = match text_of(p.member("uri")) {
                    Some(u) => is_literal(u, "schema://stock_data"),
                    None => false,
                };
                if is_schema {
                    respond(id, schema_resource())
                } else {
                    respond(id, fail(-32602, "Resource not found"))
                }
            },
            None => respond(id, fail(-32602, "Missing parameters")),
        }
    } else {
        respond(id, fail(-32601, "Method not implemented"))
    }
}

fn record_lookup_done(id: Option<Json>, target: String, r: RecordLookup) -> (s: McpStep)
    ensures
        s@ == record_found(id, target@, r),
{
    match r {
        Ok(Some(rec)) => {
            let sql = previous_time(target.as_str());
            let p = SqlParam::Integer(rec.timestamp);
            ask(
                sql,
                one_param(p),
                Fetch::OptionalTimestamp,
                McpState::PreviousTimestamp { id, target, record: rec },
            )
        },
        Ok(None) => respond(id, Outcome::Text(String::from_str("No records found"))),
        Err(e) => respond(id, fail_with(-32603, "Error querying database: ", e.as_str())),
    }
}

fn time_found(r: Result<Option<i64>, String>) -> (t: Option<i64>)
    ensures
        t == found_time(r),
{
    match r {
        Ok(t) => t,
        Err(_) => None,
    }
}

fn news_items(recs: Vec<StoredRecord>) -> (v: Vec<NewsItem>)
    ensures
        v@.map_values(|n: NewsItem| n@) == recs@.map_values(|x: StoredRecord| news_item(x)),
{
    let ghost all = recs@;
    let mut out: Vec<NewsItem> = Vec::new();
    for r in it: recs.into_iter()
        invariant
            it.seq() == all,
            it.index() <= all.len(),
            out@.map_values(|n: NewsItem| n@) =~= all.take(it.index() as int).map_values(
                |x: StoredRecord| news_item(x),
            ),
    {
        assert(r == all[it.index() as int]);
        let item = NewsItem { timestamp: r.timestamp, url: r.url, data: into_value(r.data) };
        assert(item@ == news_item(all[it.index() as int]));
        let ghost before = out@;
        out.push(item);
        assert(out@.map_values(|n: NewsItem| n@) =~= before.map_values(|n: NewsItem| n@).push(
            item@,
        ));
        assert(all.take(it.index() + 1) =~= all.take(it.index() as int).push(all[it.index() as int]));
        assert(out@.map_values(|n: NewsItem| n@) =~= all.take(it.index() + 1).map_values(
            |x: StoredRecord| news_item(x),
        ));
    }
    assert(all.take(all.len() as int) =~= all);
    out
}

fn stored_values(texts: Vec<StoredText>) -> (v: Vec<Json>)
    ensures
        v@ == texts@.map_values(|t: StoredText| stored_value(t)),
{
    let ghost all = texts@;
    let mut out: Vec<Json> = Vec::new();
    for t in it: texts.into_iter()
        invariant
            it.seq() == all,
            it.index() <= all.len(),
            out@ =~= all.take(it.index() as int).map_values(|t: StoredText| stored_value(t)),
    {
        assert(t == all[it.index() as int]);
        out.push(into_value(t));
        assert(all.take(it.index() + 1) =~= all.take(it.index() as int).push(all[it.index() as int]));
        assert(out@ =~= all.take(it.index() + 1).map_values(|t: StoredText| stored_value(t)));
    }
    assert(all.take(all.len() as int) =~= all);
    out
}

fn tables_found(
    id: Option<Json>,
    symbol: String,
    start: Option<String>,
    end: Option<String>,
    r: Result<Vec<String>, String>,
) -> (s: McpStep)
    ensures
        s@ == resume_step(
            StateV::MatchingTables { id, symbol: symbol@, start: opt_view(start), end: opt_view(end) },
            DbReply::TableNames(r),
        ),
{
    match r {
        Err(e) => respond(id, fail_with(-32603, "Error searching for tables: ", e.as_str())),
        Ok(names) => {
            if names.len() == 0 {
                respond(id, Outcome::Text(cat("No data found for symbol: ", symbol.as_str())))
            } else if names.len() == 1 {
                let table = names[0].clone();
                let sql = history(table.as_str(), start.is_some(), end.is_some());
                let mut params: Vec<SqlParam> = Vec::new();
                assert(params_view(params@) =~= Seq::<ParamV>::empty());
                push_opt(&mut params, start);
                push_opt(&mut params, end);
                ask(sql, params, Fetch::HistoryRows, McpState::History { id, symbol, table })
            } else {
                let list = join_names(&names, ", ");
                let text = cat("Multiple markets found for ", symbol.as_str()).concat(
                    ". Please specify one: ",
                ).concat(list.as_str());
                respond(id, Outcome::Text(text))
            }
        },
    }
}

fn transactions_found(
    id: Option<Json>,
    date: Option<String>,
    from: Option<String>,
    to: Option<String>,
    symbol: Option<String>,
) -> (s: McpStep)
    ensures
        s@ == query_step(
            transactions_sql(date is Some, from is Some, to is Some, symbol is Some),
            opt_param(opt_view(date)) + opt_param(opt_view(from)) + opt_param(opt_view(to))
                + opt_param(opt_view(symbol)),
            Fetch::Texts,
            StateV::TransactionItems { id },
        ),
{
    let sql = transactions(date.is_some(), from.is_some(), to.is_some(), symbol.is_some());
    let mut params: Vec<SqlParam> = Vec::new();
    assert(params_view(params@) =~= Seq::<ParamV>::empty());
    push_opt(&mut params, date);
    push_opt(&mut params, from);
    push_opt(&mut params, to);
    push_opt(&mut params, symbol);
    ask(sql, params, Fetch::Texts, McpState::TransactionItems { id })
}

/// What the server does with the result of the query that `state` waits
/// for: the answer, or the next query and the state to resume from.
pub fn resume(state: McpState, reply: DbReply) -> (s: McpStep)
    requires
        resume_in_range(state@, reply),
    ensures
        s@ == resume_step(state@, reply),
{
    match state {
        McpState::LatestRecord { id, target } => match reply {
            DbReply::Record(r) => record_lookup_done(id, target, r),
            _ => unreached(),
        },
        McpState::RecordAtOrBefore { id, target, ts } => match reply {
            DbReply::Record(r) => {
                let sql = record_after(target.as_str());
                ask(
                    sql,
                    one_param(SqlParam::Integer(ts)),
                    Fetch::OptionalRecord,
                    McpState::RecordAfter { id, target, ts, at_or_before: r },
                )
            },
            _ => unreached(),
        },
        McpState::RecordAfter { id, target, ts, at_or_before } => match reply {
            DbReply::Record(r) => record_lookup_done(id, target, choose_nearest(ts, at_or_before, r)),
            _ => unreached(),
        },
        McpState::PreviousTimestamp { id, target, record } => match reply {
            DbReply::Timestamp(r) => {
                let sql = next_time(target.as_str());
                let p = SqlParam::Integer(record.timestamp);
                ask(
                    sql,
                    one_param(p),
                    Fetch::OptionalTimestamp,
                    McpState::NextTimestamp { id, target, record, previous: time_found(r) },
                )
            },
            _ => unreached(),
        },
        McpState::NextTimestamp { id, target, record, previous } => match reply {
            DbReply::Timestamp(r) => {
                let StoredRecord { timestamp, url, data } = record;
                let doc = ToolDocument::Record {
                    timestamp,
                    url,
                    data: into_value(data),
                    previous,
                    next: time_found(r),
                };
                respond(id, Outcome::Document(doc))
            },
            _ => unreached(),
        },
        McpState::MatchingTables { id, symbol, start, end } => match reply {
            DbReply::TableNames(r) => tables_found(id, symbol, start, end, r),
            _ => unreached(),
        },
        McpState::History { id, symbol, table } => match reply {
            DbReply::HistoryRows(r) => match r {
                Err(e) => respond(id, fail_with(-32603, "Error querying history: ", e.as_str())),
                Ok(rows) => respond(
                    id,
                    Outcome::Document(ToolDocument::History { symbol, table, rows }),
                ),
            },
            _ => unreached(),
        },
        McpState::DayStart { id } => match reply {
            DbReply::Integer(r) => match r {
                Err(_) => respond(id, fail(-32602, "Invalid date format. Use YYYY-MM-DD")),
                Ok(start) => news_table_check(id, start, start + DAY_MS, true),
            },
            _ => unreached(),
        },
        McpState::NewsTable { id, start, end, day } => match reply {
            DbReply::Count(r) => {
                let count = match r {
                    Ok(c) => c,
                    Err(_) => 0,
                };
                if count == 0 {
                    respond(
                        id,
                        Outcome::Text(
                            String::from_str(
                                "{\"news\": [], \"message\": \"News table does not exist yet. No news data has been intercepted.\"}",
                            ),
                        ),
                    )
                } else {
                    let mut params: Vec<SqlParam> = Vec::new();
                    params.push(SqlParam::Integer(start));
                    params.push(SqlParam::Integer(end));
                    assert(params_view(params@) =~= seq![ParamV::Integer(start), ParamV::Integer(end)]);
                    let sql = if day {
                        news_day()
                    } else {
                        news()
                    };
                    ask(sql, params, Fetch::Records, McpState::NewsItems { id, start, end })
                }
            },
            _ => unreached(),
        },
        McpState::NewsItems { id, start, end } => match reply {
            DbReply::Records(r) => match r {
                Err(e) => respond(id, fail_with(-32603, "Error querying news: ", e.as_str())),
                Ok(recs) => {
                    let items = news_items(recs);
                    respond(id, Outcome::Document(ToolDocument::News { items, start, end }))
                },
            },
            _ => unreached(),
        },
        McpState::TransactionsTable { id, date, from, to, symbol } => match reply {
            DbReply::Count(r) => {
                let count = match r {
                    Ok(c) => c,
                    Err(_) => 0,
                };
                if count == 0 {
                    respond(
                        id,
                        Outcome::Text(
                            String::from_str(
                                "{\"transactions\": [], \"message\": \"Transactions table does not exist yet.\"}",
                            ),
                        ),
                    )
                } else {
                    transactions_found(id, date, from, to, symbol)
                }
            },
            _ => unreached(),
        },
        McpState::TransactionItems { id } => match reply {
            DbReply::Texts(r) => match r {
                Err(e) => respond(id, fail_with(-32603, "Error querying transactions: ", e.as_str())),
                Ok(texts) => {
                    let items = stored_values(texts);
                    respond(id, Outcome::Document(ToolDocument::Transactions { items }))
                },
            },
            _ => unreached(),
        },
    }
}

// ---------------------------------------------------------------------------
// Laws
// ---------------------------------------------------------------------------

/// The id that a step answers with or carries on.
pub open spec fn step_answers_id(step: StepV, id: Option<Json>) -> bool {
    match step {
        StepV::Reply(Some(r)) => r.id == id,
        StepV::Reply(None) => true,
        StepV::Query(_, next) => state_id(next) == id,
    }
}

/// Every answer to a request carries the request's id, and every state that
/// a request leads to carries it on.
pub proof fn begin_keeps_id(req: McpRequest)
    ensures
        step_answers_id(begin_step(req), req.id),
{
}

/// Every answer given after a query carries the id of the request that the
/// waiting state answers, and so does the next state.
pub proof fn resume_keeps_id(s: StateV, reply: DbReply)
    ensures
        step_answers_id(resume_step(s, reply), state_id(s)),
{
}

/// A request with an id, other than `notifications/initialized`, is
/// answered or leads to a query: it is never left without an answer.
pub proof fn requests_with_id_are_answered(req: McpRequest)
    requires
        req.id is Some,
        req.method@ != "notifications/initialized"@,
    ensures
        begin_step(req) != StepV::Reply(None),
{
}

/// A query whose result fits the state that waits for it is followed by an
/// answer or a further query, where the request has an id.
pub proof fn results_for_requests_with_id_are_answered(s: StateV, reply: DbReply)
    requires
        state_id(s) is Some,
        reply_fetch(reply) == expected_fetch(s),
    ensures
        resume_step(s, reply) != StepV::Reply(None),
{
}

/// A notification (a request without an id) is never answered: it either
/// gets no answer at once or leads to a query.
pub proof fn notifications_are_not_answered(req: McpRequest)
    requires
        req.id is None,
    ensures
        !(begin_step(req) matches StepV::Reply(Some(_))),
{
}

/// After a query, a notification is still never answered.
pub proof fn notifications_stay_unanswered(s: StateV, reply: DbReply)
    requires
        state_id(s) is None,
    ensures
        !(resume_step(s, reply) matches StepV::Reply(Some(_))),
{
}

/// How many queries a state can still lead to, the one it waits for
/// included.
pub open spec fn queries_left(s: StateV) -> nat {
    match s {
        StateV::LatestRecord { .. } => 3,
        StateV::RecordAtOrBefore { .. } => 4,
        StateV::RecordAfter { .. } => 3,
        StateV::PreviousTimestamp { .. } => 2,
        StateV::NextTimestamp { .. } => 1,
        StateV::MatchingTables { .. } => 2,
        StateV::History { .. } => 1,
        StateV::DayStart { .. } => 3,
        StateV::NewsTable { .. } => 2,
        StateV::NewsItems { .. } => 1,
        StateV::TransactionsTable { .. } => 2,
        StateV::TransactionItems { .. } => 1,
    }
}

/// Every request is answered after at most four queries: its first query
/// leaves at most four, and each result leaves fewer than before.
pub proof fn answers_take_at_most_four_queries(req: McpRequest, s: StateV, reply: DbReply)
    ensures
        begin_step(req) matches StepV::Query(_, next) ==> queries_left(next) <= 4,
        resume_step(s, reply) matches StepV::Query(_, next) ==> queries_left(next) < queries_left(s),
{
}

/// Every tool that `tools/list` lists is one that `tools/call` serves.
pub proof fn listed_tools_are_served(i: int)
    requires
        0 <= i < tool_catalogue().len(),
    ensures
        !(tool_kind(tool_catalogue()[i].name) is Unknown),
{
    reveal_strlit("query_stock_data");
    reveal_strlit("query_stock_history");
    reveal_strlit("search_news");
    reveal_strlit("search_transactions");
}

/// Every resource that `resources/list` lists can be read with
/// `resources/read`.
pub proof fn listed_resources_are_readable(i: int, req: McpRequest)
    requires
        0 <= i < resource_catalogue().len(),
        req.method@ == "resources/read"@,
        req.params matches Some(p) && json_text(json_index(p, "uri"@)) == Some(
            resource_catalogue()[i].uri,
        ),
    ensures
        begin_step(req) == reply_to(req.id, schema_text()),
{
    reveal_strlit("resources/read");
    reveal_strlit("initialize");
    reveal_strlit("notifications/initialized");
    reveal_strlit("ping");
    reveal_strlit("tools/list");
    reveal_strlit("tools/call");
    reveal_strlit("resources/list");
    assert(req.method@[0] == 'r');
    assert(req.method@[10] == 'r');
}

/// `search_news` around a timestamp searches from a day before it to a day
/// after it, both included. On a date it searches from the start of that
/// day to the start of the next, which is left out, and answers that range;
/// a date whose start cannot be computed is refused. The news found is
/// answered together with the range searched.
pub proof fn news_windows(
    id: Option<Json>,
    args: Json,
    midnight: i64,
    error: String,
    start: i64,
    end: i64,
    reply: DbReply,
)
    requires
        midnight <= i64::MAX - DAY_MS,
    ensures
        json_text(json_index(args, "date"@)) is None ==> (json_int(json_index(args, "timestamp"@)) matches Some(t)
            ==> news_step(id, args) == news_table_step(id, (t - DAY_MS) as i64, (t + DAY_MS) as i64, false)),
        resume_step(StateV::DayStart { id }, DbReply::Integer(Ok(midnight))) == news_table_step(
            id,
            midnight,
            (midnight + DAY_MS) as i64,
            true,
        ),
        resume_step(StateV::NewsTable { id, start, end, day: true }, DbReply::Count(Ok(1))) == query_step(
            news_day_sql(),
            seq![ParamV::Integer(start), ParamV::Integer(end)],
            Fetch::Records,
            StateV::NewsItems { id, start, end },
        ),
        resume_step(StateV::DayStart { id }, DbReply::Integer(Err(error))) == reply_to(
            id,
            failure(-32602, "Invalid date format. Use YYYY-MM-DD"@),
        ),
        resume_step(StateV::NewsItems { id, start, end }, reply) matches StepV::Reply(Some(r)) ==> (
        r.outcome matches OutcomeV::Document(DocumentV::News { start: s, end: e, .. }) ==> (s
            == start && e == end)),
{
}

/// `query_stock_data` at a time answers the record nearest to that time:
/// given the latest record at or before it and the earliest after it, the
/// record whose neighbours are looked up next is one of the two, at least as
/// near as the other, and the earlier of them on a tie.
pub proof fn nearest_record_is_answered(
    id: Option<Json>,
    target: Seq<char>,
    ts: i64,
    a: StoredRecord,
    b: StoredRecord,
)
    ensures
        resume_step(
            StateV::RecordAfter { id, target, ts, at_or_before: Ok(Some(a)) },
            DbReply::Record(Ok(Some(b))),
        ) matches StepV::Query(_, StateV::PreviousTimestamp { record, .. }) && (record == a
            || record == b) && distance(ts as int, record.timestamp as int) <= distance(
            ts as int,
            a.timestamp as int,
        ) && distance(ts as int, record.timestamp as int) <= distance(ts as int, b.timestamp as int)
            && (distance(ts as int, a.timestamp as int) == distance(ts as int, b.timestamp as int)
            ==> record == a),
{
}

/// Every query that a step asks for fetches what the state it resumes from
/// waits for, so that its result is one that `resume` takes.
pub proof fn queries_fetch_what_states_expect(req: McpRequest, s: StateV, reply: DbReply)
    ensures
        begin_step(req) matches StepV::Query(q, next) ==> q.fetch == expected_fetch(next),
        resume_step(s, reply) matches StepV::Query(q, next) ==> q.fetch == expected_fetch(next),
{
}

/// The error codes that answers use: method not found, invalid parameters
/// and internal error.
pub open spec fn known_code(o: OutcomeV) -> bool {
    o matches OutcomeV::Failure { code, .. } ==> (code == -32601 || code == -32602 || code == -32603)
}

/// An answer to the request with id `id`.
pub open spec fn answers(step: StepV, id: Option<Json>) -> bool {
    step matches StepV::Reply(Some(r)) && r.id == id && known_code(r.outcome)
}

/// The step that a request has reached after at most `n` queries, each
/// answered by `db` from the state that waits for it.
pub open spec fn run_steps(step: StepV, db: spec_fn(StateV) -> DbReply, n: nat) -> StepV
    decreases n,
{
    if n == 0 {
        step
    } else {
        match step {
            StepV::Query(_, s) => run_steps(resume_step(s, db(s)), db, (n - 1) as nat),
            _ => step,
        }
    }
}

proof fn codes_are_known(req: McpRequest, s: StateV, reply: DbReply)
    ensures
        begin_step(req) matches StepV::Reply(Some(r)) ==> known_code(r.outcome),
        resume_step(s, reply) matches StepV::Reply(Some(r)) ==> known_code(r.outcome),
{
}

proof fn query_is_answered(q: QueryV, s: StateV, db: spec_fn(StateV) -> DbReply, n: nat)
    requires
        state_id(s) is Some,
        queries_left(s) <= n,
        forall|x: StateV| #[trigger] reply_fetch(db(x)) == expected_fetch(x),
    ensures
        answers(run_steps(StepV::Query(q, s), db, n), state_id(s)),
    decreases n,
{
    let next = resume_step(s, db(s));
    assert(reply_fetch(db(s)) == expected_fetch(s));
    results_for_requests_with_id_are_answered(s, db(s));
    resume_keeps_id(s, db(s));
    codes_are_known(arbitrary(), s, db(s));
    answers_take_at_most_four_queries(arbitrary(), s, db(s));
    assert(run_steps(StepV::Query(q, s), db, n) == run_steps(next, db, (n - 1) as nat));
    match next {
        StepV::Query(q2, s2) => {
            assert(state_id(s2) == state_id(s));
            query_is_answered(q2, s2, db, (n - 1) as nat);
        },
        _ => {
            assert(run_steps(next, db, (n - 1) as nat) == next);
        },
    }
}

/// A request with an id, other than `notifications/initialized`, is
/// answered, once and with its id, after at most four queries, whatever the
/// database gives back for each of them; every error it is answered with
/// has code -32601, -32602 or -32603.
pub proof fn every_request_is_answered(req: McpRequest, db: spec_fn(StateV) -> DbReply)
    requires
        req.id is Some,
        req.method@ != "notifications/initialized"@,
        forall|x: StateV| #[trigger] reply_fetch(db(x)) == expected_fetch(x),
    ensures
        answers(run_steps(begin_step(req), db, 4), req.id),
{
    requests_with_id_are_answered(req);
    begin_keeps_id(req);
    codes_are_known(req, arbitrary(), arbitrary());
    answers_take_at_most_four_queries(req, arbitrary(), arbitrary());
    match begin_step(req) {
        StepV::Query(q, s) => {
            query_is_answered(q, s, db, 4);
        },
        _ => {},
    }
}

/// The document that a stored text stands for: the value it holds where it
/// is JSON, and the text itself as a string otherwise.
pub open spec fn holds_document(answered: Json, stored: StoredText) -> bool {
    match stored.parsed {
        Some(j) => answered == j,
        None => answered == Json::String(stored.text),
    }
}

/// `query_stock_data` answers the record found together with the times of
/// its neighbours: the time before it is what the previous-time query found
/// (bound to the record's time), the time after it is what the next-time
/// query found (bound to the record's time), and a failed neighbour lookup
/// counts as none.
pub proof fn record_answer_names_its_neighbours(
    i: Json,
    target: Seq<char>,
    record: StoredRecord,
    previous: Result<Option<i64>, String>,
    next: Result<Option<i64>, String>,
    found_before: Option<i64>,
)
    ensures
        resume_step(
            StateV::PreviousTimestamp { id: Some(i), target, record },
            DbReply::Timestamp(previous),
        ) matches StepV::Query(q, StateV::NextTimestamp { id, target: t, record: rec, previous: p })
            && id == Some(i) && t == target && rec == record && q.params == seq![
            ParamV::Integer(record.timestamp),
        ] && p == (match previous {
            Ok(Some(x)) => Some(x),
            _ => None,
        }),
        resume_step(
            StateV::NextTimestamp { id: Some(i), target, record, previous: found_before },
            DbReply::Timestamp(next),
        ) matches StepV::Reply(Some(r)) && r.id == Some(i) && (r.outcome matches OutcomeV::Document(
            DocumentV::Record { timestamp, url, data, previous: pv, next: nx },
        ) && timestamp == record.timestamp && url == record.url@ && holds_document(data, record.data)
            && pv == found_before && nx == (match next {
            Ok(Some(x)) => Some(x),
            _ => None,
        })),
{
}

/// `search_news` answers each record found, in order, with its time, its
/// page and the document its stored text holds (the text itself only where
/// it is not JSON), together with the range searched.
pub proof fn news_answer_holds_each_record(
    i: Json,
    start: i64,
    end: i64,
    recs: Vec<StoredRecord>,
)
    ensures
        resume_step(StateV::NewsItems { id: Some(i), start, end }, DbReply::Records(Ok(recs)))
            matches StepV::Reply(Some(r)) && r.id == Some(i) && (r.outcome matches OutcomeV::Document(
            DocumentV::News { items, start: s, end: e },
        ) && s == start && e == end && items.len() == recs@.len() && forall|k: int|
            0 <= k < items.len() ==> (#[trigger] items[k]).timestamp == recs@[k].timestamp
                && items[k].url == recs@[k].url@ && holds_document(items[k].data, recs@[k].data)),
{
}

/// `search_transactions` answers each stored booking found, in order, as
/// the document its stored text holds (the text itself only where it is not
/// JSON).
pub proof fn transactions_answer_holds_each_booking(i: Json, texts: Vec<StoredText>)
    ensures
        resume_step(StateV::TransactionItems { id: Some(i) }, DbReply::Texts(Ok(texts)))
            matches StepV::Reply(Some(r)) && r.id == Some(i) && (r.outcome matches OutcomeV::Document(
            DocumentV::Transactions { items },
        ) && items.len() == texts@.len() && forall|k: int|
            0 <= k < items.len() ==> holds_document(#[trigger] items[k], texts@[k])),
{
}

/// `query_stock_history` answers the candles found, in order and unchanged,
/// with the symbol asked for and the table it resolved to.
pub proof fn history_answer_holds_each_candle(
    i: Json,
    symbol: Seq<char>,
    table: Seq<char>,
    rows: Vec<HistoryRow>,
)
    ensures
        resume_step(StateV::History { id: Some(i), symbol, table }, DbReply::HistoryRows(Ok(rows)))
            == StepV::Reply(
            Some(
                ResponseV {
                    id: Some(i),
                    outcome: OutcomeV::Document(DocumentV::History { symbol, table, rows: rows@ }),
                },
            ),
        ),
{
}

} // verus!
