use saxo_receiver::answer::{document_answer, render, Rendered};
use saxo_receiver::json::{Json, JsonNumber, StoredText};
use saxo_receiver::mcp::{begin, resume, DbReply, McpStep};
use saxo_receiver::rpc::{HistoryRow, McpRequest, NewsItem, Outcome, RpcResponse, StoredRecord, ToolDocument};

fn text(s: &str) -> Json {
    Json::String(s.to_string())
}

fn num(i: i64) -> Json {
    Json::Number(JsonNumber { int: Some(i), text: i.to_string() })
}

fn obj(members: Vec<(&str, Json)>) -> Json {
    Json::Object(members.into_iter().map(|(k, v)| (k.to_string(), v)).collect())
}

fn keys(j: &Json) -> Vec<String> {
    match j {
        Json::Object(m) => m.iter().map(|(k, _)| k.clone()).collect(),
        _ => panic!("not an object"),
    }
}

fn get<'a>(j: &'a Json, key: &str) -> &'a Json {
    match j {
        Json::Object(m) => &m.iter().find(|(k, _)| k == key).unwrap_or_else(|| panic!("no member {}", key)).1,
        _ => panic!("not an object"),
    }
}

fn at(j: &Json, i: usize) -> &Json {
    match j {
        Json::Array(v) => &v[i],
        _ => panic!("not an array"),
    }
}

fn len(j: &Json) -> usize {
    match j {
        Json::Array(v) => v.len(),
        Json::Object(m) => m.len(),
        _ => panic!("not a list"),
    }
}

fn is_text(j: &Json, s: &str) -> bool {
    matches!(j, Json::String(t) if t == s)
}

fn number(j: &Json) -> (Option<i64>, String) {
    match j {
        Json::Number(n) => (n.int, n.text.clone()),
        _ => panic!("not a number"),
    }
}

fn answer_of(r: RpcResponse) -> Json {
    match render(r) {
        Rendered::Answer(j) => j,
        Rendered::Document { .. } => panic!("a document"),
    }
}

fn document_of(r: RpcResponse) -> (Option<Json>, Json) {
    match render(r) {
        Rendered::Document { id, document } => (id, document),
        Rendered::Answer(_) => panic!("not a document"),
    }
}

fn reply(step: McpStep) -> RpcResponse {
    match step {
        McpStep::Reply(Some(r)) => r,
        _ => panic!("no answer"),
    }
}

fn request(method: &str, params: Option<Json>, id: Option<i64>) -> McpRequest {
    McpRequest { method: method.to_string(), params, id: id.map(num) }
}

#[test]
fn ping_answer_is_an_empty_result_with_the_id() {
    let j = answer_of(reply(begin(request("ping", None, Some(3)))));
    assert_eq!(keys(&j), vec!["jsonrpc", "result", "id"]);
    assert!(is_text(get(&j, "jsonrpc"), "2.0"));
    assert_eq!(len(get(&j, "result")), 0);
    assert_eq!(number(get(&j, "id")), (Some(3), "3".to_string()));
}

#[test]
fn failure_answer_carries_code_and_message() {
    let j = answer_of(reply(begin(request("nope", None, Some(4)))));
    assert_eq!(keys(&j), vec!["jsonrpc", "error", "id"]);
    let e = get(&j, "error");
    assert_eq!(number(get(e, "code")), (Some(-32601), "-32601".to_string()));
    assert!(is_text(get(e, "message"), "Method not implemented"));
}

#[test]
fn answer_without_id_has_no_id_member() {
    let r = RpcResponse { id: None, outcome: Outcome::Text("hello".to_string()) };
    let j = answer_of(r);
    assert_eq!(keys(&j), vec!["jsonrpc", "result"]);
    let item = at(get(get(&j, "result"), "content"), 0);
    assert!(is_text(get(item, "type"), "text"));
    assert!(is_text(get(item, "text"), "hello"));
}

#[test]
fn initialize_answer_lists_capabilities_and_server() {
    let j = answer_of(reply(begin(request("initialize", None, Some(1)))));
    let result = get(&j, "result");
    assert!(is_text(get(result, "protocolVersion"), "2024-11-05"));
    assert_eq!(keys(get(result, "capabilities")), vec!["tools", "resources"]);
    assert_eq!(len(get(get(result, "capabilities"), "tools")), 0);
    assert!(is_text(get(get(result, "serverInfo"), "name"), "Saxo Grab Receiver"));
    assert!(is_text(get(get(result, "serverInfo"), "version"), "0.1.0"));
}

#[test]
fn tool_list_answer_has_input_schemas() {
    let j = answer_of(reply(begin(request("tools/list", None, Some(2)))));
    let tools = get(get(&j, "result"), "tools");
    assert_eq!(len(tools), 4);
    let first = at(tools, 0);
    assert!(is_text(get(first, "name"), "query_stock_data"));
    let schema = get(first, "inputSchema");
    assert_eq!(keys(schema), vec!["type", "properties", "required"]);
    assert!(is_text(get(schema, "type"), "object"));
    let ts = get(get(schema, "properties"), "timestamp");
    assert!(is_text(get(ts, "type"), "integer"));
    assert!(is_text(get(ts, "description"), "Optional Unix timestamp to find the nearest record"));
    assert!(is_text(at(get(schema, "required"), 0), "target"));
    let news_schema = get(at(tools, 2), "inputSchema");
    assert_eq!(keys(news_schema), vec!["type", "properties"]);
    assert_eq!(len(get(news_schema, "properties")), 4);
}

#[test]
fn resource_answers_name_the_schema() {
    let j = answer_of(reply(begin(request("resources/list", None, Some(5)))));
    let r = at(get(get(&j, "result"), "resources"), 0);
    assert_eq!(keys(r), vec!["uri", "name", "description", "mimeType"]);
    let read = request("resources/read", Some(obj(vec![("uri", text("schema://stock_data"))])), Some(6));
    let j = answer_of(reply(begin(read)));
    let c = at(get(get(&j, "result"), "contents"), 0);
    assert!(is_text(get(c, "uri"), "schema://stock_data"));
    assert!(is_text(get(c, "mimeType"), "text/plain"));
}

#[test]
fn record_document_names_its_neighbours() {
    let doc = ToolDocument::Record { timestamp: -5, url: "u".to_string(), data: obj(vec![]), previous: None, next: Some(i64::MIN) };
    let (id, d) = document_of(RpcResponse { id: Some(num(8)), outcome: Outcome::Document(doc) });
    assert!(matches!(id, Some(Json::Number(n)) if n.int == Some(8)));
    assert_eq!(keys(&d), vec!["record", "prev_timestamp", "next_timestamp"]);
    assert_eq!(number(get(get(&d, "record"), "timestamp")), (Some(-5), "-5".to_string()));
    assert!(matches!(get(&d, "prev_timestamp"), Json::Null));
    assert_eq!(number(get(&d, "next_timestamp")), (Some(i64::MIN), "-9223372036854775808".to_string()));
}

#[test]
fn history_document_counts_its_rows() {
    let row = HistoryRow {
        time: "t".to_string(),
        open: num(1),
        high: num(2),
        low: num(0),
        close: num(1),
        volume: num(7),
        interest: Json::Null,
        market_trading_state: "Open".to_string(),
    };
    let doc = ToolDocument::History { symbol: "SAN".to_string(), table: "SAN_xpar".to_string(), rows: vec![row] };
    let (_, d) = document_of(RpcResponse { id: Some(num(9)), outcome: Outcome::Document(doc) });
    assert_eq!(keys(&d), vec!["symbol", "table", "history", "count"]);
    assert_eq!(number(get(&d, "count")), (Some(1), "1".to_string()));
    let r = at(get(&d, "history"), 0);
    assert_eq!(keys(r), vec!["time", "open", "high", "low", "close", "volume", "interest", "market_trading_state"]);
    assert_eq!(number(get(r, "volume")), (Some(7), "7".to_string()));
}

#[test]
fn news_document_reports_its_range() {
    let items = vec![NewsItem { timestamp: 10, url: "n".to_string(), data: text("x") }];
    let doc = ToolDocument::News { items, start: 0, end: 86_399_999 };
    let (_, d) = document_of(RpcResponse { id: Some(num(10)), outcome: Outcome::Document(doc) });
    assert_eq!(keys(&d), vec!["news", "count", "range"]);
    assert_eq!(number(get(get(&d, "range"), "end")), (Some(86_399_999), "86399999".to_string()));
    assert_eq!(number(get(get(&d, "range"), "start")), (Some(0), "0".to_string()));
    assert!(is_text(get(at(get(&d, "news"), 0), "data"), "x"));
}

#[test]
fn transactions_document_counts_its_items() {
    let doc = ToolDocument::Transactions { items: vec![num(1), num(2), text("z")] };
    let (_, d) = document_of(RpcResponse { id: Some(num(11)), outcome: Outcome::Document(doc) });
    assert_eq!(keys(&d), vec!["transactions", "count"]);
    assert_eq!(number(get(&d, "count")), (Some(3), "3".to_string()));
}

#[test]
fn document_is_answered_as_its_printed_text() {
    let j = document_answer(Some(num(12)), "{\n  \"a\": 1\n}".to_string());
    assert_eq!(keys(&j), vec!["jsonrpc", "result", "id"]);
    let item = at(get(get(&j, "result"), "content"), 0);
    assert!(is_text(get(item, "text"), "{\n  \"a\": 1\n}"));
    let j = document_answer(None, "x".to_string());
    assert_eq!(keys(&j), vec!["jsonrpc", "result"]);
}

#[test]
fn tool_flow_ends_in_a_document_to_print() {
    let args = obj(vec![("target", text("orders"))]);
    let req = request("tools/call", Some(obj(vec![("name", text("query_stock_data")), ("arguments", args)])), Some(13));
    let mut step = begin(req);
    let mut replies = vec![
        DbReply::Timestamp(Ok(None)),
        DbReply::Timestamp(Ok(None)),
        DbReply::Record(Ok(Some(StoredRecord {
            timestamp: 1,
            url: "u".to_string(),
            data: StoredText { text: "q".to_string(), parsed: None },
        }))),
    ];
    let r = loop {
        match step {
            McpStep::Query(_, s) => step = resume(s, replies.pop().unwrap()),
            McpStep::Reply(r) => break r.unwrap(),
        }
    };
    let (_, d) = document_of(r);
    assert!(is_text(get(get(&d, "record"), "data"), "q"));
}
