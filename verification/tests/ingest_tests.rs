use saxo_receiver::ingest::{next_after, plan_post, IncomingPayload, OnFailure, PostPlan, PostProgress, PostStatus, Statement};
use saxo_receiver::json::{Json, JsonNumber};
use saxo_receiver::names::{is_valid_table_name, symbol_table_name};
use saxo_receiver::sql::SqlParam;

fn text(s: &str) -> Json {
    Json::String(s.to_string())
}

fn num(i: i64) -> Json {
    Json::Number(JsonNumber { int: Some(i), text: i.to_string() })
}

fn decimal(text: &str) -> Json {
    Json::Number(JsonNumber { int: None, text: text.to_string() })
}

fn obj(members: Vec<(&str, Json)>) -> Json {
    Json::Object(members.into_iter().map(|(k, v)| (k.to_string(), v)).collect())
}

fn payload(target: &str, data: Json) -> IncomingPayload {
    IncomingPayload { target: target.to_string(), data, timestamp: 1_700_000_000_000, url: "https://www.saxotrader.com/x".to_string() }
}

fn statements(plan: PostPlan) -> Vec<Statement> {
    match plan {
        PostPlan::Execute(v) => v,
        PostPlan::Reject => panic!("the push was refused"),
    }
}

fn is_text(p: &SqlParam, s: &str) -> bool {
    matches!(p, SqlParam::Text(t) if t == s)
}

fn is_real(p: &SqlParam, s: &str) -> bool {
    matches!(p, SqlParam::Real(n) if n.text == s)
}

fn chart_data() -> Json {
    obj(vec![(
        "Snapshot",
        obj(vec![
            ("DisplayAndFormat", obj(vec![("Symbol", text("SAN:xpar"))])),
            (
                "Data",
                Json::Array(vec![obj(vec![
                    ("Time", text("2024-01-02T09:00:00Z")),
                    ("Open", decimal("61.5")),
                    ("Close", num(62)),
                    ("Volume", decimal("1200.0")),
                    ("MarketTradingState", text("Open")),
                ])]),
            ),
        ]),
    )])
}

#[test]
fn table_names_are_ascii_letters_digits_and_underscores() {
    assert!(is_valid_table_name("balances"));
    assert!(is_valid_table_name("net_positions2"));
    assert!(is_valid_table_name("_"));
    assert!(!is_valid_table_name(""));
    assert!(!is_valid_table_name("bad-name"));
    assert!(!is_valid_table_name("two words"));
    assert!(!is_valid_table_name("x;DROP"));
    assert!(!is_valid_table_name("café"));
}

#[test]
fn symbol_tables_replace_separators() {
    assert_eq!(symbol_table_name("SAN:xpar"), "SAN_xpar");
    assert_eq!(symbol_table_name("BRK.B-x:xnys"), "BRK_B_x_xnys");
    assert_eq!(symbol_table_name("AAPL"), "AAPL");
    assert_eq!(symbol_table_name(""), "");
}

#[test]
fn chart_push_creates_the_symbol_table_and_one_row_per_candle() {
    let plan = statements(plan_post(payload("stockCharts", chart_data())));
    assert_eq!(plan.len(), 2);
    assert!(plan[0].sql.starts_with("CREATE TABLE IF NOT EXISTS \"SAN_xpar\" ("));
    assert!(plan[0].sql.contains("time TEXT PRIMARY KEY"));
    assert!(plan[0].params.is_empty());
    assert!(matches!(plan[0].on_failure, OnFailure::Abort));
    assert_eq!(
        plan[1].sql,
        "INSERT OR REPLACE INTO \"SAN_xpar\" (time, open, high, low, close, volume, interest, market_trading_state) VALUES (?, ?, ?, ?, ?, ?, ?, ?)"
    );
    assert!(matches!(plan[1].on_failure, OnFailure::Continue));
    let p = &plan[1].params;
    assert_eq!(p.len(), 8);
    assert!(is_text(&p[0], "2024-01-02T09:00:00Z"));
    assert!(is_real(&p[1], "61.5"));
    assert!(is_real(&p[2], "0"));
    assert!(is_real(&p[3], "0"));
    assert!(is_real(&p[4], "62"));
    assert!(is_real(&p[5], "1200.0"));
    assert!(is_real(&p[6], "0"));
    assert!(is_text(&p[7], "Open"));
}

#[test]
fn chart_candle_without_fields_stores_defaults() {
    let data = obj(vec![(
        "Snapshot",
        obj(vec![
            ("DisplayAndFormat", obj(vec![("Symbol", text("X"))])),
            ("Data", Json::Array(vec![obj(vec![]), Json::Null])),
        ]),
    )]);
    let plan = statements(plan_post(payload("stockCharts", data)));
    assert_eq!(plan.len(), 3);
    for row in &plan[1..] {
        assert!(is_text(&row.params[0], ""));
        assert!(is_real(&row.params[1], "0"));
        assert!(is_text(&row.params[7], ""));
    }
}

#[test]
fn chart_push_without_candles_only_creates_the_table() {
    let data = obj(vec![("Snapshot", obj(vec![("DisplayAndFormat", obj(vec![("Symbol", text("AMD:xnas"))]))]))]);
    let plan = statements(plan_post(payload("stockCharts", data)));
    assert_eq!(plan.len(), 1);
    assert!(plan[0].sql.starts_with("CREATE TABLE IF NOT EXISTS \"AMD_xnas\" ("));
}

#[test]
fn chart_push_without_symbol_is_refused() {
    let data = obj(vec![("Snapshot", obj(vec![("DisplayAndFormat", obj(vec![("Symbol", num(3))]))]))]);
    assert!(matches!(plan_post(payload("stockCharts", data)), PostPlan::Reject));
    assert!(matches!(plan_post(payload("stockCharts", Json::Null)), PostPlan::Reject));
}

#[test]
fn transactions_push_stores_each_booking() {
    let item = obj(vec![
        ("BkRecordId", num(42)),
        ("AccountId", text("ACC1")),
        ("Date", text("2024-03-01")),
        ("BookedAmount", decimal("-12.5")),
        ("Currency", text("EUR")),
        ("Event", text("Buy")),
        ("Instrument", obj(vec![("Symbol", text("AMD:xnas"))])),
        ("TransactionType", text("Trade")),
    ]);
    let plan = statements(plan_post(payload("transactions", obj(vec![("Data", Json::Array(vec![item]))]))));
    assert_eq!(plan.len(), 4);
    assert!(plan[0].sql.starts_with("CREATE TABLE IF NOT EXISTS transactions ("));
    assert!(matches!(plan[0].on_failure, OnFailure::Abort));
    assert_eq!(plan[1].sql, "CREATE INDEX IF NOT EXISTS idx_transactions_date ON transactions (date)");
    assert!(matches!(plan[1].on_failure, OnFailure::Continue));
    assert_eq!(plan[2].sql, "CREATE INDEX IF NOT EXISTS idx_transactions_symbol ON transactions (instrument_symbol)");
    assert!(matches!(plan[2].on_failure, OnFailure::Continue));
    assert_eq!(
        plan[3].sql,
        "INSERT OR IGNORE INTO transactions (bk_record_id, account_id, date, booked_amount, currency, event, instrument_symbol, transaction_type, data) VALUES (?, ?, ?, ?, ?, ?, ?, ?, ?)"
    );
    assert!(matches!(plan[3].on_failure, OnFailure::Continue));
    let p = &plan[3].params;
    assert_eq!(p.len(), 9);
    assert!(matches!(p[0], SqlParam::Integer(42)));
    assert!(is_text(&p[1], "ACC1"));
    assert!(is_text(&p[2], "2024-03-01"));
    assert!(is_real(&p[3], "-12.5"));
    assert!(is_text(&p[4], "EUR"));
    assert!(is_text(&p[5], "Buy"));
    assert!(is_text(&p[6], "AMD:xnas"));
    assert!(is_text(&p[7], "Trade"));
    assert!(matches!(&p[8], SqlParam::JsonText(Json::Object(m)) if m.len() == 8));
}

#[test]
fn transactions_push_without_data_only_prepares_the_table() {
    let plan = statements(plan_post(payload("transactions", obj(vec![]))));
    assert_eq!(plan.len(), 3);
}

#[test]
fn booking_without_id_is_stored_under_zero() {
    let plan = statements(plan_post(payload("transactions", obj(vec![("Data", Json::Array(vec![obj(vec![])]))]))));
    assert!(matches!(plan[3].params[0], SqlParam::Integer(0)));
    assert!(is_real(&plan[3].params[3], "0"));
    assert!(is_text(&plan[3].params[6], ""));
}

#[test]
fn ordinary_push_is_stored_in_the_target_table() {
    let data = obj(vec![("Data", Json::Array(vec![num(1)]))]);
    let plan = statements(plan_post(payload("balances", data)));
    assert_eq!(plan.len(), 3);
    assert!(plan[0].sql.starts_with("CREATE TABLE IF NOT EXISTS balances ("));
    assert!(plan[0].sql.contains("id INTEGER PRIMARY KEY AUTOINCREMENT"));
    assert_eq!(plan[1].sql, "CREATE INDEX IF NOT EXISTS idx_balances_timestamp ON balances (timestamp)");
    assert_eq!(
        plan[2].sql,
        "INSERT INTO balances (timestamp, url, data) SELECT v.ts, v.u, v.d FROM (SELECT ? AS ts, ? AS u, ? AS d) AS v WHERE NOT EXISTS (SELECT 1 FROM balances WHERE timestamp = v.ts AND url = v.u AND data = v.d)"
    );
    for st in &plan {
        assert!(matches!(st.on_failure, OnFailure::Abort));
    }
    let p = &plan[2].params;
    assert_eq!(p.len(), 3);
    assert!(matches!(p[0], SqlParam::Integer(1_700_000_000_000)));
    assert!(is_text(&p[1], "https://www.saxotrader.com/x"));
    assert!(matches!(&p[2], SqlParam::JsonText(Json::Object(m)) if m.len() == 1));
}

#[test]
fn push_to_an_invalid_target_is_refused() {
    assert!(matches!(plan_post(payload("", Json::Null)), PostPlan::Reject));
    assert!(matches!(plan_post(payload("orders; DROP TABLE x", Json::Null)), PostPlan::Reject));
    assert!(matches!(plan_post(payload("net-positions", Json::Null)), PostPlan::Reject));
}

#[test]
fn failed_table_creation_fails_the_push() {
    let plan = statements(plan_post(payload("stockCharts", chart_data())));
    assert!(matches!(next_after(&plan, 0, false), PostProgress::Done(PostStatus::StorageFailed)));
    assert!(matches!(next_after(&plan, 0, true), PostProgress::Run(1)));
}

#[test]
fn failed_candle_insert_is_skipped() {
    let plan = statements(plan_post(payload("stockCharts", chart_data())));
    assert!(matches!(next_after(&plan, 1, false), PostProgress::Done(PostStatus::Stored)));
    assert!(matches!(next_after(&plan, 1, true), PostProgress::Done(PostStatus::Stored)));
}

#[test]
fn failed_capture_insert_fails_the_push() {
    let plan = statements(plan_post(payload("orders", Json::Null)));
    assert!(matches!(next_after(&plan, 1, true), PostProgress::Run(2)));
    assert!(matches!(next_after(&plan, 1, false), PostProgress::Done(PostStatus::StorageFailed)));
    assert!(matches!(next_after(&plan, 2, false), PostProgress::Done(PostStatus::StorageFailed)));
    assert!(matches!(next_after(&plan, 2, true), PostProgress::Done(PostStatus::Stored)));
}

#[test]
fn failed_transaction_index_is_skipped() {
    let plan = statements(plan_post(payload("transactions", obj(vec![]))));
    assert!(matches!(next_after(&plan, 1, false), PostProgress::Run(2)));
    assert!(matches!(next_after(&plan, 2, false), PostProgress::Done(PostStatus::Stored)));
}

fn placeholder_count(sql: &str) -> usize {
    sql.chars().filter(|c| *c == '?').count()
}

#[test]
fn every_planned_statement_binds_each_placeholder() {
    let booking = obj(vec![("BkRecordId", num(1))]);
    let pushes = vec![
        payload("stockCharts", chart_data()),
        payload("transactions", obj(vec![("Data", Json::Array(vec![booking]))])),
        payload("watchlists", obj(vec![])),
    ];
    for p in pushes {
        for st in statements(plan_post(p)) {
            assert_eq!(placeholder_count(&st.sql), st.params.len(), "{}", st.sql);
        }
    }
}

#[test]
fn chart_table_names_are_stable_and_valid() {
    let once = symbol_table_name("RDS-A.L:xlon");
    assert_eq!(symbol_table_name(&once), once);
    assert!(is_valid_table_name(&once));
    assert_eq!(once.chars().count(), "RDS-A.L:xlon".chars().count());
}

#[test]
fn chart_symbol_is_stored_under_its_quoted_name() {
    let cases = [
        ("x;DROP TABLE news", "\"x;DROP TABLE news\""),
        ("BRK B", "\"BRK B\""),
        ("Æ", "\"Æ\""),
        ("a\"b", "\"a\"\"b\""),
        ("A?B", "\"A?B\""),
    ];
    for (symbol, quoted) in cases {
        let data = obj(vec![(
            "Snapshot",
            obj(vec![
                ("DisplayAndFormat", obj(vec![("Symbol", text(symbol))])),
                ("Data", Json::Array(vec![obj(vec![])])),
            ]),
        )]);
        let plan = statements(plan_post(payload("stockCharts", data)));
        assert_eq!(plan.len(), 2);
        assert!(plan[0].sql.starts_with(&format!("CREATE TABLE IF NOT EXISTS {} (", quoted)), "{}", plan[0].sql);
        assert!(plan[1].sql.starts_with(&format!("INSERT OR REPLACE INTO {} (", quoted)), "{}", plan[1].sql);
        assert_eq!(plan[1].params.len(), 8);
    }
}

#[test]
fn chart_symbol_with_separators_is_accepted() {
    let data = obj(vec![("Snapshot", obj(vec![("DisplayAndFormat", obj(vec![("Symbol", text("RDS-A.L:xlon"))]))]))]);
    let plan = statements(plan_post(payload("stockCharts", data)));
    assert!(plan[0].sql.starts_with("CREATE TABLE IF NOT EXISTS \"RDS_A_L_xlon\" ("));
}
