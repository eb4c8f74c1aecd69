use saxo_receiver::json::{Json, JsonNumber, StoredText};
use saxo_receiver::lookup::{choose_nearest, join_names, DAY_MS};
use saxo_receiver::mcp::{begin, resume, DbQuery, DbReply, Fetch, McpState, McpStep};
use saxo_receiver::rpc::{HistoryRow, McpRequest, Outcome, PropertyKind, RpcResponse, StoredRecord, ToolDocument};
use saxo_receiver::sql::SqlParam;

fn text(s: &str) -> Json {
    Json::String(s.to_string())
}

fn num(i: i64) -> Json {
    Json::Number(JsonNumber { int: Some(i), text: i.to_string() })
}

fn obj(members: Vec<(&str, Json)>) -> Json {
    Json::Object(members.into_iter().map(|(k, v)| (k.to_string(), v)).collect())
}

fn request(method: &str, params: Option<Json>, id: Option<i64>) -> McpRequest {
    McpRequest { method: method.to_string(), params, id: id.map(num) }
}

fn call(tool: &str, args: Json, id: Option<i64>) -> McpRequest {
    request("tools/call", Some(obj(vec![("name", text(tool)), ("arguments", args)])), id)
}

fn answer(step: McpStep) -> RpcResponse {
    match step {
        McpStep::Reply(Some(r)) => r,
        McpStep::Reply(None) => panic!("no answer"),
        McpStep::Query(q, _) => panic!("a query: {}", q.sql),
    }
}

fn query(step: McpStep) -> (DbQuery, McpState) {
    match step {
        McpStep::Query(q, s) => (q, s),
        McpStep::Reply(Some(_)) => panic!("an answer"),
        McpStep::Reply(None) => panic!("no answer"),
    }
}

fn is_silent(step: &McpStep) -> bool {
    matches!(step, McpStep::Reply(None))
}

fn has_id(r: &RpcResponse, id: i64) -> bool {
    matches!(&r.id, Some(Json::Number(n)) if n.int == Some(id))
}

fn failure(r: &RpcResponse) -> (i64, String) {
    match &r.outcome {
        Outcome::Failure { code, message } => (*code, message.clone()),
        _ => panic!("not a failure"),
    }
}

fn message(r: &RpcResponse) -> String {
    match &r.outcome {
        Outcome::Text(t) => t.clone(),
        _ => panic!("not a text"),
    }
}

fn is_text(p: &SqlParam, s: &str) -> bool {
    matches!(p, SqlParam::Text(t) if t == s)
}

fn is_int(p: &SqlParam, i: i64) -> bool {
    matches!(p, SqlParam::Integer(v) if *v == i)
}

fn record(ts: i64, url: &str) -> StoredRecord {
    StoredRecord { timestamp: ts, url: url.to_string(), data: StoredText { text: "{}".to_string(), parsed: Some(obj(vec![])) } }
}

fn found_timestamp(r: &Result<Option<StoredRecord>, String>) -> Option<i64> {
    match r {
        Ok(Some(rec)) => Some(rec.timestamp),
        _ => None,
    }
}

#[test]
fn initialize_echoes_the_client_protocol_version() {
    let r = answer(begin(request("initialize", Some(obj(vec![("protocolVersion", text("2025-03-26"))])), Some(1))));
    assert!(has_id(&r, 1));
    match r.outcome {
        Outcome::Initialized { protocol_version, server_name, server_version } => {
            assert_eq!(protocol_version, "2025-03-26");
            assert_eq!(server_name, "Saxo Grab Receiver");
            assert_eq!(server_version, "0.1.0");
        }
        _ => panic!("not an initialize answer"),
    }
}

#[test]
fn initialize_defaults_the_protocol_version() {
    for params in vec![None, Some(obj(vec![])), Some(obj(vec![("protocolVersion", num(2))]))] {
        let r = answer(begin(request("initialize", params, Some(7))));
        assert!(matches!(r.outcome, Outcome::Initialized { protocol_version, .. } if protocol_version == "2024-11-05"));
    }
}

#[test]
fn notifications_get_no_answer() {
    assert!(is_silent(&begin(request("initialize", None, None))));
    assert!(is_silent(&begin(request("ping", None, None))));
    assert!(is_silent(&begin(request("tools/list", None, None))));
    assert!(is_silent(&begin(request("no/such/method", None, None))));
    assert!(is_silent(&begin(request("tools/call", None, None))));
    assert!(is_silent(&begin(call("no_such_tool", obj(vec![]), None))));
}

#[test]
fn initialized_notification_is_never_answered() {
    assert!(is_silent(&begin(request("notifications/initialized", None, Some(3)))));
    assert!(is_silent(&begin(request("notifications/initialized", None, None))));
}

#[test]
fn ping_is_answered_with_its_id() {
    let r = answer(begin(request("ping", None, Some(9))));
    assert!(has_id(&r, 9));
    assert!(matches!(r.outcome, Outcome::Pong));
}

#[test]
fn string_ids_are_echoed() {
    let req = McpRequest { method: "ping".to_string(), params: None, id: Some(text("abc")) };
    let r = answer(begin(req));
    assert!(matches!(&r.id, Some(Json::String(s)) if s == "abc"));
}

#[test]
fn tools_list_names_the_four_tools() {
    let r = answer(begin(request("tools/list", None, Some(2))));
    match r.outcome {
        Outcome::Tools(tools) => {
            let names: Vec<&str> = tools.iter().map(|t| t.name.as_str()).collect();
            assert_eq!(names, vec!["query_stock_data", "query_stock_history", "search_news", "search_transactions"]);
            assert_eq!(tools[0].required.as_ref().map(|r| r.len()), Some(1));
            assert!(tools[2].required.is_none());
            assert_eq!(tools[2].properties.len(), 4);
            assert!(matches!(tools[0].properties[1].kind, PropertyKind::Integer));
            assert_eq!(tools[0].properties[1].name, "timestamp");
        }
        _ => panic!("not a tool list"),
    }
}

#[test]
fn unknown_method_is_not_implemented() {
    let r = answer(begin(request("prompts/list", None, Some(4))));
    assert_eq!(failure(&r), (-32601, "Method not implemented".to_string()));
}

#[test]
fn tool_call_without_parameters_is_refused() {
    let r = answer(begin(request("tools/call", None, Some(4))));
    assert_eq!(failure(&r), (-32602, "Missing parameters".to_string()));
}

#[test]
fn unknown_tool_is_not_implemented() {
    let r = answer(begin(call("delete_everything", obj(vec![]), Some(5))));
    assert_eq!(failure(&r), (-32601, "Method 'delete_everything' not implemented".to_string()));
}

#[test]
fn tool_call_without_name_queries_stock_data() {
    let req = request("tools/call", Some(obj(vec![("arguments", obj(vec![("target", text("orders"))]))])), Some(6));
    let (q, _) = query(begin(req));
    assert_eq!(q.sql, "SELECT timestamp, url, data FROM orders ORDER BY timestamp DESC LIMIT 1");
}

#[test]
fn invalid_target_is_refused() {
    let r = answer(begin(call("query_stock_data", obj(vec![("target", text("x; DROP TABLE y"))]), Some(8))));
    assert!(has_id(&r, 8));
    assert_eq!(failure(&r), (-32602, "Invalid target name".to_string()));
}

#[test]
fn refused_notifications_get_no_answer() {
    assert!(is_silent(&begin(call("query_stock_data", obj(vec![]), None))));
    assert!(is_silent(&begin(call("query_stock_history", obj(vec![]), None))));
    assert!(is_silent(&begin(call("search_news", obj(vec![]), None))));
}

#[test]
fn latest_record_with_its_neighbours() {
    let (q, s) = query(begin(call("query_stock_data", obj(vec![("target", text("balances"))]), Some(10))));
    assert_eq!(q.sql, "SELECT timestamp, url, data FROM balances ORDER BY timestamp DESC LIMIT 1");
    assert!(q.params.is_empty());
    assert!(matches!(q.fetch, Fetch::OptionalRecord));
    let (q, s) = query(resume(s, DbReply::Record(Ok(Some(record(500, "u"))))));
    assert_eq!(q.sql, "SELECT timestamp FROM balances WHERE timestamp < ? ORDER BY timestamp DESC LIMIT 1");
    assert!(is_int(&q.params[0], 500));
    assert!(matches!(q.fetch, Fetch::OptionalTimestamp));
    let (q, s) = query(resume(s, DbReply::Timestamp(Ok(Some(400)))));
    assert_eq!(q.sql, "SELECT timestamp FROM balances WHERE timestamp > ? ORDER BY timestamp ASC LIMIT 1");
    assert!(is_int(&q.params[0], 500));
    let r = answer(resume(s, DbReply::Timestamp(Err("locked".to_string()))));
    assert!(has_id(&r, 10));
    match r.outcome {
        Outcome::Document(ToolDocument::Record { timestamp, url, data, previous, next }) => {
            assert_eq!(timestamp, 500);
            assert_eq!(url, "u");
            assert!(matches!(data, Json::Object(m) if m.is_empty()));
            assert_eq!(previous, Some(400));
            assert_eq!(next, None);
        }
        _ => panic!("not a record"),
    }
}

#[test]
fn record_nearest_to_a_timestamp() {
    let (q, s) = query(begin(call("query_stock_data", obj(vec![("target", text("news")), ("timestamp", num(1000))]), Some(11))));
    assert_eq!(q.sql, "SELECT timestamp, url, data FROM news WHERE timestamp <= ? ORDER BY timestamp DESC LIMIT 1");
    assert!(is_int(&q.params[0], 1000));
    let (q, s) = query(resume(s, DbReply::Record(Ok(Some(record(900, "before"))))));
    assert_eq!(q.sql, "SELECT timestamp, url, data FROM news WHERE timestamp > ? ORDER BY timestamp ASC LIMIT 1");
    assert!(is_int(&q.params[0], 1000));
    let (q, _) = query(resume(s, DbReply::Record(Ok(Some(record(1050, "after"))))));
    assert!(is_int(&q.params[0], 1050));
}

#[test]
fn no_record_found() {
    let (_, s) = query(begin(call("query_stock_data", obj(vec![("target", text("orders"))]), Some(12))));
    let r = answer(resume(s, DbReply::Record(Ok(None))));
    assert_eq!(message(&r), "No records found");
}

#[test]
fn record_lookup_error_is_reported() {
    let (_, s) = query(begin(call("query_stock_data", obj(vec![("target", text("orders"))]), Some(13))));
    let r = answer(resume(s, DbReply::Record(Err("no such table: orders".to_string()))));
    assert_eq!(failure(&r), (-32603, "Error querying database: no such table: orders".to_string()));
}

#[test]
fn nearest_record_prefers_the_earlier_on_a_tie() {
    let tie = choose_nearest(100, Ok(Some(record(90, "a"))), Ok(Some(record(110, "b"))));
    assert_eq!(found_timestamp(&tie), Some(90));
    let later = choose_nearest(100, Ok(Some(record(80, "a"))), Ok(Some(record(101, "b"))));
    assert_eq!(found_timestamp(&later), Some(101));
    let only_after = choose_nearest(100, Err("e".to_string()), Ok(Some(record(150, "b"))));
    assert_eq!(found_timestamp(&only_after), Some(150));
    let only_before = choose_nearest(100, Ok(Some(record(10, "a"))), Err("e".to_string()));
    assert_eq!(found_timestamp(&only_before), Some(10));
    assert!(matches!(choose_nearest(100, Err("first".to_string()), Err("second".to_string())), Err(e) if e == "first"));
    assert!(matches!(choose_nearest(100, Ok(None), Err("second".to_string())), Err(e) if e == "second"));
    assert!(matches!(choose_nearest(100, Ok(None), Ok(None)), Ok(None)));
}

#[test]
fn history_needs_a_symbol() {
    let r = answer(begin(call("query_stock_history", obj(vec![]), Some(25))));
    assert!(has_id(&r, 25));
    assert_eq!(failure(&r), (-32602, "Missing symbol".to_string()));
}

#[test]
fn history_of_a_single_market() {
    let args = obj(vec![("symbol", text("SAN")), ("start_time", text("2024-01-01")), ("end_time", num(5))]);
    let (q, s) = query(begin(call("query_stock_history", args, Some(20))));
    assert_eq!(q.sql, "SELECT name FROM sqlite_master WHERE type='table' AND (name = ? OR name LIKE ?)");
    assert!(is_text(&q.params[0], "SAN"));
    assert!(is_text(&q.params[1], "SAN_%"));
    assert!(matches!(q.fetch, Fetch::TableNames));
    let (q, s) = query(resume(s, DbReply::TableNames(Ok(vec!["SAN_xpar".to_string()]))));
    assert_eq!(
        q.sql,
        "SELECT time, open, high, low, close, volume, interest, market_trading_state FROM \"SAN_xpar\" WHERE 1=1 AND time >= ? ORDER BY time ASC"
    );
    assert_eq!(q.params.len(), 1);
    assert!(is_text(&q.params[0], "2024-01-01"));
    let row = HistoryRow {
        time: "2024-01-02".to_string(),
        open: num(1),
        high: num(2),
        low: num(0),
        close: num(1),
        volume: num(10),
        interest: Json::Null,
        market_trading_state: "Closed".to_string(),
    };
    let r = answer(resume(s, DbReply::HistoryRows(Ok(vec![row]))));
    match r.outcome {
        Outcome::Document(ToolDocument::History { symbol, table, rows }) => {
            assert_eq!(symbol, "SAN");
            assert_eq!(table, "SAN_xpar");
            assert_eq!(rows.len(), 1);
            assert_eq!(rows[0].market_trading_state, "Closed");
        }
        _ => panic!("not a history"),
    }
}

#[test]
fn history_with_both_bounds() {
    let args = obj(vec![("symbol", text("AMD_xnas")), ("start_time", text("a")), ("end_time", text("b"))]);
    let (_, s) = query(begin(call("query_stock_history", args, Some(21))));
    let (q, _) = query(resume(s, DbReply::TableNames(Ok(vec!["AMD_xnas".to_string()]))));
    assert!(q.sql.ends_with(" WHERE 1=1 AND time >= ? AND time <= ? ORDER BY time ASC"));
    assert!(is_text(&q.params[0], "a"));
    assert!(is_text(&q.params[1], "b"));
}

#[test]
fn history_of_an_unknown_symbol() {
    let (_, s) = query(begin(call("query_stock_history", obj(vec![("symbol", text("ZZZ"))]), Some(22))));
    let r = answer(resume(s, DbReply::TableNames(Ok(vec![]))));
    assert_eq!(message(&r), "No data found for symbol: ZZZ");
}

#[test]
fn history_of_several_markets_asks_for_one() {
    let (_, s) = query(begin(call("query_stock_history", obj(vec![("symbol", text("SAN"))]), Some(23))));
    let r = answer(resume(s, DbReply::TableNames(Ok(vec!["SAN_xpar".to_string(), "SAN_xmad".to_string()]))));
    assert_eq!(message(&r), "Multiple markets found for SAN. Please specify one: SAN_xpar, SAN_xmad");
}

#[test]
fn history_table_search_error_is_reported() {
    let (_, s) = query(begin(call("query_stock_history", obj(vec![("symbol", text("SAN"))]), Some(26))));
    let r = answer(resume(s, DbReply::TableNames(Err("disk I/O error".to_string()))));
    assert_eq!(failure(&r), (-32603, "Error searching for tables: disk I/O error".to_string()));
    let (_, s) = query(begin(call("query_stock_history", obj(vec![("symbol", text("SAN"))]), None)));
    assert!(is_silent(&resume(s, DbReply::TableNames(Err("disk I/O error".to_string())))));
}

#[test]
fn history_query_error_is_reported() {
    let (_, s) = query(begin(call("query_stock_history", obj(vec![("symbol", text("SAN"))]), Some(24))));
    let (_, s) = query(resume(s, DbReply::TableNames(Ok(vec!["SAN".to_string()]))));
    let r = answer(resume(s, DbReply::HistoryRows(Err("bad".to_string()))));
    assert_eq!(failure(&r), (-32603, "Error querying history: bad".to_string()));
}

#[test]
fn news_around_a_timestamp_spans_a_day_each_side() {
    let (q, s) = query(begin(call("search_news", obj(vec![("timestamp", num(1_700_000_000_000))]), Some(30))));
    assert_eq!(q.sql, "SELECT COUNT(*) FROM sqlite_master WHERE type='table' AND name='news'");
    assert!(matches!(q.fetch, Fetch::Count));
    let (q, s) = query(resume(s, DbReply::Count(Ok(1))));
    assert_eq!(
        q.sql,
        "SELECT timestamp, url, data FROM news WHERE timestamp >= ? AND timestamp <= ? ORDER BY timestamp ASC LIMIT 100"
    );
    assert!(is_int(&q.params[0], 1_700_000_000_000 - DAY_MS));
    assert!(is_int(&q.params[1], 1_700_000_000_000 + DAY_MS));
    let items = vec![
        record(1_700_000_000_001, "n1"),
        StoredRecord { timestamp: 1_700_000_000_002, url: "n2".to_string(), data: StoredText { text: "not json".to_string(), parsed: None } },
    ];
    let r = answer(resume(s, DbReply::Records(Ok(items))));
    match r.outcome {
        Outcome::Document(ToolDocument::News { items, start, end }) => {
            assert_eq!(start, 1_700_000_000_000 - DAY_MS);
            assert_eq!(end, 1_700_000_000_000 + DAY_MS);
            assert_eq!(items.len(), 2);
            assert_eq!(items[0].url, "n1");
            assert!(matches!(&items[1].data, Json::String(t) if t == "not json"));
        }
        _ => panic!("not news"),
    }
}

#[test]
fn news_of_a_date_spans_that_day() {
    let (q, s) = query(begin(call("search_news", obj(vec![("date", text("2024-01-01")), ("timestamp", num(5))]), Some(31))));
    assert_eq!(q.sql, "SELECT CAST(unixepoch(?) * 1000 AS INTEGER)");
    assert!(is_text(&q.params[0], "2024-01-01"));
    assert!(matches!(q.fetch, Fetch::Integer));
    let (_, s) = query(resume(s, DbReply::Integer(Ok(1_704_067_200_000))));
    let (q, s) = query(resume(s, DbReply::Count(Ok(1))));
    assert!(is_int(&q.params[0], 1_704_067_200_000));
    assert!(is_int(&q.params[1], 1_704_153_600_000));
    assert_eq!(
        q.sql,
        "SELECT timestamp, url, data FROM news WHERE timestamp >= ? AND timestamp < ? ORDER BY timestamp ASC LIMIT 100"
    );
    let r = answer(resume(s, DbReply::Records(Ok(vec![]))));
    assert!(matches!(r.outcome, Outcome::Document(ToolDocument::News { start: 1_704_067_200_000, end: 1_704_153_600_000, .. })));
}

#[test]
fn news_of_an_invalid_date_is_refused() {
    let (_, s) = query(begin(call("search_news", obj(vec![("date", text("yesterday"))]), Some(32))));
    let r = answer(resume(s, DbReply::Integer(Err("unexpected null".to_string()))));
    assert_eq!(failure(&r), (-32602, "Invalid date format. Use YYYY-MM-DD".to_string()));
}

#[test]
fn news_of_the_first_day_of_the_epoch() {
    let (_, s) = query(begin(call("search_news", obj(vec![("date", text("1970-01-01"))]), Some(32))));
    let (q, s) = query(resume(s, DbReply::Integer(Ok(0))));
    assert!(matches!(q.fetch, Fetch::Count));
    let (q, _) = query(resume(s, DbReply::Count(Ok(1))));
    assert!(is_int(&q.params[0], 0));
    assert!(is_int(&q.params[1], DAY_MS));
}

#[test]
fn news_of_an_explicit_range() {
    let args = obj(vec![("start_timestamp", num(10)), ("end_timestamp", num(20))]);
    let (_, s) = query(begin(call("search_news", args, Some(33))));
    let (q, _) = query(resume(s, DbReply::Count(Ok(1))));
    assert!(is_int(&q.params[0], 10));
    assert!(is_int(&q.params[1], 20));
}

#[test]
fn news_needs_a_time() {
    let r = answer(begin(call("search_news", obj(vec![("start_timestamp", num(10))]), Some(34))));
    assert_eq!(
        failure(&r),
        (-32602, "Missing time parameters. Provide date, timestamp, or start_timestamp/end_timestamp.".to_string())
    );
}

#[test]
fn news_without_a_news_table() {
    let (_, s) = query(begin(call("search_news", obj(vec![("timestamp", num(0))]), Some(35))));
    let r = answer(resume(s, DbReply::Count(Ok(0))));
    assert_eq!(
        message(&r),
        "{\"news\": [], \"message\": \"News table does not exist yet. No news data has been intercepted.\"}"
    );
    let (_, s) = query(begin(call("search_news", obj(vec![("timestamp", num(0))]), Some(35))));
    let r = answer(resume(s, DbReply::Count(Err("locked".to_string()))));
    assert!(message(&r).starts_with("{\"news\": []"));
}

#[test]
fn news_query_error_is_reported() {
    let (_, s) = query(begin(call("search_news", obj(vec![("timestamp", num(0))]), Some(36))));
    let (_, s) = query(resume(s, DbReply::Count(Ok(1))));
    let r = answer(resume(s, DbReply::Records(Err("x".to_string()))));
    assert_eq!(failure(&r), (-32603, "Error querying news: x".to_string()));
}

#[test]
fn transactions_filtered_by_date_and_symbol() {
    let args = obj(vec![("date", text("2024-03-01")), ("symbol", text("AMD:xnas"))]);
    let (q, s) = query(begin(call("search_transactions", args, Some(40))));
    assert_eq!(q.sql, "SELECT COUNT(*) FROM sqlite_master WHERE type='table' AND name='transactions'");
    let (q, s) = query(resume(s, DbReply::Count(Ok(1))));
    assert_eq!(
        q.sql,
        "SELECT data FROM transactions WHERE 1=1 AND date = ? AND instrument_symbol = ? ORDER BY date DESC LIMIT 100"
    );
    assert_eq!(q.params.len(), 2);
    assert!(is_text(&q.params[0], "2024-03-01"));
    assert!(is_text(&q.params[1], "AMD:xnas"));
    assert!(matches!(q.fetch, Fetch::Texts));
    let texts = vec![
        StoredText { text: "{\"a\":1}".to_string(), parsed: Some(obj(vec![("a", num(1))])) },
        StoredText { text: "oops".to_string(), parsed: None },
    ];
    let r = answer(resume(s, DbReply::Texts(Ok(texts))));
    match r.outcome {
        Outcome::Document(ToolDocument::Transactions { items }) => {
            assert_eq!(items.len(), 2);
            assert!(matches!(&items[0], Json::Object(m) if m.len() == 1));
            assert!(matches!(&items[1], Json::String(t) if t == "oops"));
        }
        _ => panic!("not transactions"),
    }
}

#[test]
fn transactions_of_a_date_range() {
    let args = obj(vec![("start_date", text("2024-01-01")), ("end_date", text("2024-02-01"))]);
    let (_, s) = query(begin(call("search_transactions", args, Some(41))));
    let (q, _) = query(resume(s, DbReply::Count(Ok(1))));
    assert_eq!(
        q.sql,
        "SELECT data FROM transactions WHERE 1=1 AND date >= ? AND date <= ? ORDER BY date DESC LIMIT 100"
    );
    assert!(is_text(&q.params[0], "2024-01-01"));
    assert!(is_text(&q.params[1], "2024-02-01"));
}

#[test]
fn transactions_without_filters() {
    let (_, s) = query(begin(call("search_transactions", obj(vec![]), Some(42))));
    let (q, _) = query(resume(s, DbReply::Count(Ok(3))));
    assert_eq!(q.sql, "SELECT data FROM transactions WHERE 1=1 ORDER BY date DESC LIMIT 100");
    assert!(q.params.is_empty());
}

#[test]
fn transactions_without_a_table() {
    let (_, s) = query(begin(call("search_transactions", obj(vec![]), Some(43))));
    let r = answer(resume(s, DbReply::Count(Ok(0))));
    assert_eq!(message(&r), "{\"transactions\": [], \"message\": \"Transactions table does not exist yet.\"}");
}

#[test]
fn transactions_query_error_is_reported() {
    let (_, s) = query(begin(call("search_transactions", obj(vec![]), Some(44))));
    let (_, s) = query(resume(s, DbReply::Count(Ok(1))));
    let r = answer(resume(s, DbReply::Texts(Err("y".to_string()))));
    assert_eq!(failure(&r), (-32603, "Error querying transactions: y".to_string()));
}

#[test]
fn resources_list_and_read() {
    let r = answer(begin(request("resources/list", None, Some(50))));
    match r.outcome {
        Outcome::Resources(list) => {
            assert_eq!(list.len(), 1);
            assert_eq!(list[0].uri, "schema://stock_data");
            assert_eq!(list[0].name, "Saxo Data Schema Info");
            assert_eq!(list[0].mime_type, "text/plain");
        }
        _ => panic!("not a resource list"),
    }
    let r = answer(begin(request("resources/read", Some(obj(vec![("uri", text("schema://stock_data"))])), Some(51))));
    match r.outcome {
        Outcome::ResourceText { uri, mime_type, text } => {
            assert_eq!(uri, "schema://stock_data");
            assert_eq!(mime_type, "text/plain");
            assert!(text.starts_with("Saxo data is stored in SQLite (saxo_data.db). \n- Standard targets"));
        }
        _ => panic!("not a resource"),
    }
}

#[test]
fn unknown_resource_is_not_found() {
    let r = answer(begin(request("resources/read", Some(obj(vec![("uri", text("schema://other"))])), Some(52))));
    assert_eq!(failure(&r), (-32602, "Resource not found".to_string()));
    let r = answer(begin(request("resources/read", None, Some(53))));
    assert_eq!(failure(&r), (-32602, "Missing parameters".to_string()));
}

#[test]
fn table_names_are_joined_with_a_separator() {
    assert_eq!(join_names(&vec![], ", "), "");
    assert_eq!(join_names(&vec!["a".to_string()], ", "), "a");
    assert_eq!(join_names(&vec!["a".to_string(), "b".to_string(), "c".to_string()], ", "), "a, b, c");
}

fn placeholder_count(sql: &str) -> usize {
    sql.chars().filter(|c| *c == '?').count()
}

/// Runs a request to its end with the given results, in order, checking
/// each query on the way; gives the answer and the number of queries run.
fn run(req: McpRequest, mut replies: Vec<DbReply>) -> (Option<RpcResponse>, usize) {
    replies.reverse();
    let mut step = begin(req);
    let mut queries = 0;
    loop {
        match step {
            McpStep::Reply(r) => return (r, queries),
            McpStep::Query(q, s) => {
                assert_eq!(placeholder_count(&q.sql), q.params.len(), "{}", q.sql);
                assert!(q.sql.starts_with("SELECT "), "{}", q.sql);
                queries += 1;
                step = resume(s, replies.pop().expect("a result for every query"));
            }
        }
    }
}

#[test]
fn nearest_record_flow_takes_four_queries() {
    let replies = vec![
        DbReply::Record(Ok(Some(record(90, "a")))),
        DbReply::Record(Ok(Some(record(120, "b")))),
        DbReply::Timestamp(Ok(Some(10))),
        DbReply::Timestamp(Ok(None)),
    ];
    let (r, queries) = run(call("query_stock_data", obj(vec![("target", text("orders")), ("timestamp", num(100))]), Some(60)), replies);
    assert_eq!(queries, 4);
    let r = r.expect("an answer");
    assert!(has_id(&r, 60));
    assert!(matches!(r.outcome, Outcome::Document(ToolDocument::Record { timestamp: 90, previous: Some(10), next: None, .. })));
}

#[test]
fn every_flow_binds_each_placeholder() {
    let (_, n) = run(call("search_news", obj(vec![("date", text("2024-01-01"))]), Some(61)), vec![
        DbReply::Integer(Ok(1_704_067_200_000)),
        DbReply::Count(Ok(1)),
        DbReply::Records(Ok(vec![])),
    ]);
    assert_eq!(n, 3);
    let args = obj(vec![("date", text("d")), ("start_date", text("a")), ("end_date", text("b")), ("symbol", text("s"))]);
    let (_, n) = run(call("search_transactions", args, Some(62)), vec![DbReply::Count(Ok(1)), DbReply::Texts(Ok(vec![]))]);
    assert_eq!(n, 2);
    let args = obj(vec![("symbol", text("SAN")), ("end_time", text("z"))]);
    let (_, n) = run(call("query_stock_history", args, Some(63)), vec![
        DbReply::TableNames(Ok(vec!["SAN_xpar".to_string()])),
        DbReply::HistoryRows(Ok(vec![])),
    ]);
    assert_eq!(n, 2);
}

#[test]
fn notification_tool_call_gets_no_data() {
    let replies = vec![
        DbReply::Record(Ok(Some(record(5, "a")))),
        DbReply::Timestamp(Ok(None)),
        DbReply::Timestamp(Ok(None)),
    ];
    let (r, queries) = run(call("query_stock_data", obj(vec![("target", text("orders"))]), None), replies);
    assert_eq!(queries, 3);
    assert!(r.is_none());
    let (r, _) = run(call("search_news", obj(vec![("timestamp", num(5))]), None), vec![DbReply::Count(Ok(0))]);
    assert!(r.is_none());
}

#[test]
fn every_listed_tool_is_served() {
    let listed = match answer(begin(request("tools/list", None, Some(70)))).outcome {
        Outcome::Tools(tools) => tools,
        _ => panic!("not a tool list"),
    };
    for tool in listed {
        let step = begin(call(&tool.name, obj(vec![]), Some(71)));
        if let McpStep::Reply(Some(r)) = step {
            assert!(!matches!(r.outcome, Outcome::Failure { code: -32601, .. }), "{}", tool.name);
        }
    }
}

#[test]
fn every_listed_resource_is_readable() {
    let listed = match answer(begin(request("resources/list", None, Some(72)))).outcome {
        Outcome::Resources(list) => list,
        _ => panic!("not a resource list"),
    };
    for res in listed {
        let r = answer(begin(request("resources/read", Some(obj(vec![("uri", text(&res.uri))])), Some(73))));
        assert!(matches!(r.outcome, Outcome::ResourceText { uri, .. } if uri == res.uri));
    }
}
