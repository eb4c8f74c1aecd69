//! Storage of the captures that the browser extension pushes.
//!
//! A push names a target and carries the captured document. Stock charts are
//! stored one candle per row in a table named after the stock symbol;
//! transactions one row per booking record; every other target as one row
//! per push in the table of that name. A push sent again is stored once:
//! candles replace the row of their time, bookings already stored are
//! skipped, and a row identical to one stored is not added. The library
//! turns a push into a plan of SQL statements and decides, from how each
//! statement fared, what the push is answered.
use vstd::prelude::*;
use crate::json::{
    Json, json_index, json_int, json_text, text_or_empty, int_of, member_of, real_or_zero, text_of, text_or,
};
use crate::names::{
    is_literal, is_table_name, is_valid_table_name, quoted_name, symbol_table, symbol_table_name,
};
use crate::sql::{
    ParamV, SqlParam, params_view, capture_index, capture_index_sql, capture_insert,
    capture_insert_sql, capture_table, capture_table_sql, chart_insert, chart_insert_sql,
    chart_table, chart_table_sql, transactions_date_index, transactions_date_index_sql,
    transactions_insert, transactions_insert_sql, transactions_symbol_index,
    transactions_symbol_index_sql, transactions_table, transactions_table_sql,
};

verus! {

/// A capture pushed by the extension.
pub struct IncomingPayload {
    pub target: String,
    pub data: Json,
    pub timestamp: i64,
    pub url: String,
}

/// What a failed statement does to the push.
pub enum OnFailure {
    /// The push fails with a server error and no further statement runs.
    Abort,
    /// The failure is logged and the next statement runs.
    Continue,
}

/// A statement to run, with its bound values.
pub struct Statement {
    pub sql: String,
    pub params: Vec<SqlParam>,
    pub on_failure: OnFailure,
}

/// A statement as the contracts see it.
pub struct StatementV {
    pub sql: Seq<char>,
    pub params: Seq<ParamV>,
    pub on_failure: OnFailure,
}

impl View for Statement {
    type V = StatementV;

    open spec fn view(&self) -> StatementV {
        StatementV { sql: self.sql@, params: params_view(self.params@), on_failure: self.on_failure }
    }
}

/// The views of a list of statements.
pub open spec fn statements_view(ss: Seq<Statement>) -> Seq<StatementV> {
    ss.map_values(|s: Statement| s@)
}

/// What the receiver does with a push.
pub enum PostPlan {
    /// The push is refused as a bad request; nothing is stored.
    Reject,
    /// The statements are run in order.
    Execute(Vec<Statement>),
}

/// The answer to a push.
pub enum PostStatus {
    /// 200: the push was processed.
    Stored,
    /// 400: the push was refused.
    BadRequest,
    /// 500: a statement that had to succeed failed.
    StorageFailed,
}

/// What comes after a statement has run.
pub enum PostProgress {
    /// Run the statement at this position next.
    Run(usize),
    /// Answer the push.
    Done(PostStatus),
}

// ---------------------------------------------------------------------------
// The plan of a push
// ---------------------------------------------------------------------------

/// A REAL member, or 0 where the member is not a number.
pub open spec fn real_or_zero_v(j: Json) -> ParamV {
    match j {
        Json::Number(n) => ParamV::Real(n.int, n.text@),
        _ => ParamV::Real(Some(0i64), "0"@),
    }
}

/// An integer member, or 0 where there is none.
pub open spec fn int_or_zero(j: Json) -> i64 {
    match json_int(j) {
        Some(i) => i,
        None => 0,
    }
}

/// The elements of an array member, or none where the member is no array.
pub open spec fn items_of(j: Json) -> Seq<Json> {
    match j {
        Json::Array(v) => v@,
        _ => Seq::empty(),
    }
}

/// The symbol of a chart capture: `data.Snapshot.DisplayAndFormat.Symbol`.
pub open spec fn chart_symbol(data: Json) -> Option<Seq<char>> {
    json_text(
        json_index(json_index(json_index(data, "Snapshot"@), "DisplayAndFormat"@), "Symbol"@),
    )
}

/// The candles of a chart capture: `data.Snapshot.Data`.
pub open spec fn chart_candles(data: Json) -> Seq<Json> {
    items_of(json_index(json_index(data, "Snapshot"@), "Data"@))
}

/// The statement that stores one candle in a chart table.
pub open spec fn candle_row(table: Seq<char>, c: Json) -> StatementV {
    StatementV {
        sql: chart_insert_sql(table),
        params: seq![
            ParamV::Text(text_or_empty(json_index(c, "Time"@))),
            real_or_zero_v(json_index(c, "Open"@)),
            real_or_zero_v(json_index(c, "High"@)),
            real_or_zero_v(json_index(c, "Low"@)),
            real_or_zero_v(json_index(c, "Close"@)),
            real_or_zero_v(json_index(c, "Volume"@)),
            real_or_zero_v(json_index(c, "Interest"@)),
            ParamV::Text(text_or_empty(json_index(c, "MarketTradingState"@))),
        ],
        on_failure: OnFailure::Continue,
    }
}

/// The statement that stores one transaction.
pub open spec fn transaction_row(t: Json) -> StatementV {
    StatementV {
        sql: transactions_insert_sql(),
        params: seq![
            ParamV::Integer(int_or_zero(json_index(t, "BkRecordId"@))),
            ParamV::Text(text_or_empty(json_index(t, "AccountId"@))),
            ParamV::Text(text_or_empty(json_index(t, "Date"@))),
            real_or_zero_v(json_index(t, "BookedAmount"@)),
            ParamV::Text(text_or_empty(json_index(t, "Currency"@))),
            ParamV::Text(text_or_empty(json_index(t, "Event"@))),
            ParamV::Text(text_or_empty(json_index(json_index(t, "Instrument"@), "Symbol"@))),
            ParamV::Text(text_or_empty(json_index(t, "TransactionType"@))),
            ParamV::JsonText(t),
        ],
        on_failure: OnFailure::Continue,
    }
}

/// A statement without bound values.
pub open spec fn plain(sql: Seq<char>, on_failure: OnFailure) -> StatementV {
    StatementV { sql, params: Seq::empty(), on_failure }
}

/// The plan of a chart capture of the stock `symbol`.
pub open spec fn chart_plan(symbol: Seq<char>, data: Json) -> Seq<StatementV> {
    let table = symbol_table(symbol);
    seq![plain(chart_table_sql(table), OnFailure::Abort)] + chart_candles(data).map_values(
        |c: Json| candle_row(table, c),
    )
}

/// The plan of a transactions capture.
pub open spec fn transactions_plan(data: Json) -> Seq<StatementV> {
    seq![
        plain(transactions_table_sql(), OnFailure::Abort),
        plain(transactions_date_index_sql(), OnFailure::Continue),
        plain(transactions_symbol_index_sql(), OnFailure::Continue),
    ] + items_of(json_index(data, "Data"@)).map_values(|t: Json| transaction_row(t))
}

/// The plan of a capture of an ordinary target: table, index and one row,
/// each of which must succeed.
pub open spec fn capture_plan(p: IncomingPayload) -> Seq<StatementV> {
    seq![
        plain(capture_table_sql(p.target@), OnFailure::Abort),
        plain(capture_index_sql(p.target@), OnFailure::Abort),
        StatementV {
            sql: capture_insert_sql(p.target@),
            params: seq![
                ParamV::Integer(p.timestamp),
                ParamV::Text(p.url@),
                ParamV::JsonText(p.data),
            ],
            on_failure: OnFailure::Abort,
        },
    ]
}

/// What the receiver does with a push: nothing (a refusal) or the
/// statements to run.
pub open spec fn post_plan(p: IncomingPayload) -> Option<Seq<StatementV>> {
    if p.target@ == "stockCharts"@ {
        match chart_symbol(p.data) {
            Some(symbol) => Some(chart_plan(symbol, p.data)),
            None => None,
        }
    } else if p.target@ == "transactions"@ {
        Some(transactions_plan(p.data))
    } else if !is_table_name(p.target@) {
        None
    } else {
        Some(capture_plan(p))
    }
}

/// The view of a plan.
pub open spec fn plan_view(plan: PostPlan) -> Option<Seq<StatementV>> {
    match plan {
        PostPlan::Reject => None,
        PostPlan::Execute(ss) => Some(statements_view(ss@)),
    }
}

fn plain_statement(sql: String, on_failure: OnFailure) -> (r: Statement)
    ensures
        r@ == plain(sql@, on_failure),
{
    let r = Statement { sql, params: Vec::new(), on_failure };
    assert(params_view(r.params@) =~= Seq::empty());
    r
}

/// The statement that stores the candle `c` in `table`.
fn candle_statement(table: &str, c: &Json) -> (r: Statement)
    ensures
        r@ == candle_row(table@, *c),
{
    let mut params: Vec<SqlParam> = Vec::new();
    params.push(SqlParam::Text(text_or(c.member("Time"), "")));
    params.push(SqlParam::Real(real_or_zero(c.member("Open"))));
    params.push(SqlParam::Real(real_or_zero(c.member("High"))));
    params.push(SqlParam::Real(real_or_zero(c.member("Low"))));
    params.push(SqlParam::Real(real_or_zero(c.member("Close"))));
    params.push(SqlParam::Real(real_or_zero(c.member("Volume"))));
    params.push(SqlParam::Real(real_or_zero(c.member("Interest"))));
    params.push(SqlParam::Text(text_or(c.member("MarketTradingState"), "")));
    let r = Statement { sql: chart_insert(table), params, on_failure: OnFailure::Continue };
    assert(params_view(r.params@) =~= candle_row(table@, *c).params);
    r
}

/// The statement that stores the transaction `t`.
fn transaction_statement(t: Json) -> (r: Statement)
    ensures
        r@ == transaction_row(t),
{
    let ghost t0 = t;
    let mut params: Vec<SqlParam> = Vec::new();
    params.push(
        SqlParam::Integer(
            match int_of(t.member("BkRecordId")) {
                Some(i) => i,
                None => 0,
            },
        ),
    );
    params.push(SqlParam::Text(text_or(t.member("AccountId"), "")));
    params.push(SqlParam::Text(text_or(t.member("Date"), "")));
    params.push(SqlParam::Real(real_or_zero(t.member("BookedAmount"))));
    params.push(SqlParam::Text(text_or(t.member("Currency"), "")));
    params.push(SqlParam::Text(text_or(t.member("Event"), "")));
    params.push(SqlParam::Text(text_or(member_of(t.member("Instrument"), "Symbol"), "")));
    params.push(SqlParam::Text(text_or(t.member("TransactionType"), "")));
    params.push(SqlParam::JsonText(t));
    let r = Statement { sql: transactions_insert(), params, on_failure: OnFailure::Continue };
    assert(params_view(r.params@) =~= transaction_row(t0).params);
    r
}

/// The plan of a chart capture whose symbol is `symbol`.
fn chart_statements(symbol: &String, table: &String, data: &Json) -> (r: Vec<Statement>)
    requires
        chart_symbol(*data) == Some(symbol@),
        table@ == symbol_table(symbol@),
    ensures
        statements_view(r@) == chart_plan(symbol@, *data),
{
    let mut out: Vec<Statement> = Vec::new();
    out.push(plain_statement(chart_table(table.as_str()), OnFailure::Abort));
    let ghost head = seq![plain(chart_table_sql(table@), OnFailure::Abort)];
    assert(statements_view(out@) =~= head);
    let candles = member_of(data.member("Snapshot"), "Data");
    match candles {
        Some(Json::Array(items)) => {
            let ghost rows = chart_candles(*data).map_values(|c: Json| candle_row(table@, c));
            assert(chart_candles(*data) == items@);
            let mut i: usize = 0;
            while i < items.len()
                invariant
                    i <= items@.len(),
                    chart_candles(*data) == items@,
                    rows == chart_candles(*data).map_values(|c: Json| candle_row(table@, c)),
                    statements_view(out@) =~= head + rows.subrange(0, i as int),
                decreases items@.len() - i,
            {
                let st = candle_statement(table.as_str(), &items[i]);
                let ghost before = out@;
                out.push(st);
                assert(out@ =~= before.push(st));
                assert(statements_view(out@) =~= statements_view(before).push(st@));
                assert(rows[i as int] == candle_row(table@, items@[i as int]));
                assert(head + rows.subrange(0, i + 1) =~= (head + rows.subrange(0, i as int)).push(rows[i as int]));
                assert(statements_view(out@) =~= head + rows.subrange(0, i + 1));
                i = i + 1;
            }
            assert(rows.subrange(0, items@.len() as int) =~= rows);
        },
        _ => {
            assert(chart_candles(*data) =~= Seq::<Json>::empty());
            assert(chart_plan(symbol@, *data) =~= head);
        },
    }
    out
}

/// The plan of a transactions capture.
fn transactions_statements(data: Json) -> (r: Vec<Statement>)
    ensures
        statements_view(r@) == transactions_plan(data),
{
    let ghost data0 = data;
    let mut out: Vec<Statement> = Vec::new();
    out.push(plain_statement(transactions_table(), OnFailure::Abort));
    out.push(plain_statement(transactions_date_index(), OnFailure::Continue));
    out.push(plain_statement(transactions_symbol_index(), OnFailure::Continue));
    let ghost head = seq![
        plain(transactions_table_sql(), OnFailure::Abort),
        plain(transactions_date_index_sql(), OnFailure::Continue),
        plain(transactions_symbol_index_sql(), OnFailure::Continue),
    ];
    assert(statements_view(out@) =~= head);
    let list = data.take_member("Data");
    match list {
        Json::Array(items) => {
            let ghost all = items@;
            let ghost rows = all.map_values(|t: Json| transaction_row(t));
            for t in it: items.into_iter()
                invariant
                    it.seq() == all,
                    it.index() <= all.len(),
                    rows == all.map_values(|t: Json| transaction_row(t)),
                    statements_view(out@) =~= head + rows.subrange(0, it.index() as int),
            {
                assert(t == all[it.index() as int]);
                assert(it.index() < all.len());
                let st = transaction_statement(t);
                let ghost before = out@;
                out.push(st);
                assert(out@ =~= before.push(st));
                assert(statements_view(out@) =~= statements_view(before).push(st@));
                assert(head + rows.subrange(0, it.index() + 1) =~= (head + rows.subrange(0, it.index() as int)).push(rows[it.index() as int]));
                assert(statements_view(out@) =~= head + rows.subrange(0, it.index() + 1));
            }
            assert(rows.subrange(0, all.len() as int) =~= rows);
        },
        _ => {
            assert(items_of(json_index(data0, "Data"@)) =~= Seq::<Json>::empty());
            assert(transactions_plan(data0) =~= head);
        },
    }
    out
}

/// The plan of a capture of an ordinary target, whose name is valid.
fn capture_statements(p: IncomingPayload) -> (r: Vec<Statement>)
    ensures
        statements_view(r@) == capture_plan(p),
{
    let ghost p0 = p;
    let mut out: Vec<Statement> = Vec::new();
    out.push(plain_statement(capture_table(p.target.as_str()), OnFailure::Abort));
    out.push(plain_statement(capture_index(p.target.as_str()), OnFailure::Abort));
    let insert = capture_insert(p.target.as_str());
    let mut params: Vec<SqlParam> = Vec::new();
    params.push(SqlParam::Integer(p.timestamp));
    params.push(SqlParam::Text(p.url));
    params.push(SqlParam::JsonText(p.data));
    let row = Statement { sql: insert, params, on_failure: OnFailure::Abort };
    assert(params_view(row.params@) =~= capture_plan(p0)[2].params);
    assert(row@ == capture_plan(p0)[2]);
    out.push(row);
    assert(statements_view(out@) =~= capture_plan(p0));
    out
}

/// What the receiver does with a push. A chart capture without a symbol and
/// an ordinary target whose name is not a valid table name are refused;
/// otherwise the plan stores the capture as `post_plan` says.
pub fn plan_post(p: IncomingPayload) -> (r: PostPlan)
    ensures
        plan_view(r) == post_plan(p),
{
    if is_literal(&p.target, "stockCharts") {
        let symbol = text_of(member_of(member_of(p.data.member("Snapshot"), "DisplayAndFormat"), "Symbol"));
        match symbol {
            Some(s) => {
                let table = symbol_table_name(s.as_str());
                PostPlan::Execute(chart_statements(s, &table, &p.data))
            },
            None => PostPlan::Reject,
        }
    } else if is_literal(&p.target, "transactions") {
        PostPlan::Execute(transactions_statements(p.data))
    } else if !is_valid_table_name(p.target.as_str()) {
        PostPlan::Reject
    } else {
        PostPlan::Execute(capture_statements(p))
    }
}

// ---------------------------------------------------------------------------
// Running a plan
// ---------------------------------------------------------------------------

/// What follows statement `i` of a plan, which succeeded or failed.
pub open spec fn progress_after(plan: Seq<StatementV>, i: int, succeeded: bool) -> PostProgress {
    if !succeeded && plan[i].on_failure is Abort {
        PostProgress::Done(PostStatus::StorageFailed)
    } else if i + 1 < plan.len() {
        PostProgress::Run((i + 1) as usize)
    } else {
        PostProgress::Done(PostStatus::Stored)
    }
}

/// What follows statement `index` of `plan`: after a failure of a statement
/// that must succeed the push fails; otherwise the next statement runs, and
/// after the last one the push has been stored.
pub fn next_after(plan: &Vec<Statement>, index: usize, succeeded: bool) -> (r: PostProgress)
    requires
        index < plan@.len(),
    ensures
        r == progress_after(statements_view(plan@), index as int, succeeded),
{
    let aborts = match plan[index].on_failure {
        OnFailure::Abort => true,
        OnFailure::Continue => false,
    };
    if !succeeded && aborts {
        PostProgress::Done(PostStatus::StorageFailed)
    } else if index < plan.len() - 1 {
        PostProgress::Run(index + 1)
    } else {
        PostProgress::Done(PostStatus::Stored)
    }
}

/// The answer to a push whose statements from `i` on fare as `outcomes` says.
pub open spec fn run_from(plan: Seq<StatementV>, outcomes: Seq<bool>, i: int) -> PostStatus
    decreases plan.len() - i,
{
    if i < 0 || i >= plan.len() {
        PostStatus::Stored
    } else {
        match progress_after(plan, i, outcomes[i]) {
            PostProgress::Done(st) => st,
            PostProgress::Run(_) => run_from(plan, outcomes, i + 1),
        }
    }
}

/// The answer to a push with this plan, whose statements fare as
/// `outcomes` says.
pub open spec fn answer(plan: Option<Seq<StatementV>>, outcomes: Seq<bool>) -> PostStatus {
    match plan {
        None => PostStatus::BadRequest,
        Some(s) => run_from(s, outcomes, 0),
    }
}

proof fn run_from_stored(plan: Seq<StatementV>, outcomes: Seq<bool>, i: int)
    requires
        0 <= i <= plan.len(),
        outcomes.len() == plan.len(),
    ensures
        (run_from(plan, outcomes, i) is Stored) <==> (forall|j: int|
            i <= j < plan.len() && plan[j].on_failure is Abort ==> #[trigger] outcomes[j]),
        !(run_from(plan, outcomes, i) is BadRequest),
    decreases plan.len() - i,
{
    if i < plan.len() {
        run_from_stored(plan, outcomes, i + 1);
    }
}

/// A push is refused with 400 exactly when its plan is a refusal; otherwise
/// it is answered 200 exactly when every statement that must succeed did,
/// and 500 when one of them failed.
pub proof fn answer_law(p: IncomingPayload, outcomes: Seq<bool>)
    requires
        post_plan(p) is Some ==> outcomes.len() == post_plan(p)->0.len(),
    ensures
        (answer(post_plan(p), outcomes) is BadRequest) <==> post_plan(p) is None,
        post_plan(p) matches Some(s) ==> ((answer(post_plan(p), outcomes) is Stored) <==> (forall|j: int|
            0 <= j < s.len() && s[j].on_failure is Abort ==> #[trigger] outcomes[j])),
        post_plan(p) is Some ==> ((answer(post_plan(p), outcomes) is StorageFailed) <==> !(answer(post_plan(p), outcomes) is Stored)),
{
    if let Some(s) = post_plan(p) {
        run_from_stored(s, outcomes, 0);
    }
}

/// Every accepted push first creates its table, and that statement must
/// succeed; an ordinary target is accepted only under a valid table name,
/// and a chart only when it names its stock.
pub proof fn plan_law(p: IncomingPayload)
    ensures
        post_plan(p) matches Some(s) ==> s.len() > 0 && s[0].on_failure is Abort
            && s[0].params.len() == 0,
        post_plan(p) is Some && p.target@ != "stockCharts"@ && p.target@ != "transactions"@
            ==> is_table_name(p.target@),
        p.target@ == "stockCharts"@ ==> (post_plan(p) is Some <==> chart_symbol(p.data) is Some),
        p.target@ == "transactions"@ ==> post_plan(p) is Some,
{
    reveal_strlit("transactions");
    reveal_strlit("stockCharts");
}

/// Each push writes into its own table only: a chart into the table named
/// after its stock (a quoted name, whatever characters it holds);
/// transactions into the transactions table; any other target into the
/// table of that name, a valid table name.
pub proof fn plans_write_one_table(p: IncomingPayload)
    ensures
        post_plan(p) matches Some(s) ==> forall|j: int|
            0 <= j < s.len() ==> {
                let sql = #[trigger] s[j].sql;
                if p.target@ == "stockCharts"@ {
                    chart_symbol(p.data) matches Some(sym) && (sql == chart_table_sql(symbol_table(sym))
                        || sql == chart_insert_sql(symbol_table(sym)))
                } else if p.target@ == "transactions"@ {
                    sql == transactions_table_sql() || sql == transactions_date_index_sql() || sql
                        == transactions_symbol_index_sql() || sql == transactions_insert_sql()
                } else {
                    is_table_name(p.target@) && (sql == capture_table_sql(p.target@) || sql
                        == capture_index_sql(p.target@) || sql == capture_insert_sql(p.target@))
                }
            },
{
}

/// The elements of `j` where it is an array, else none.
pub open spec fn array_elements(j: Json) -> Seq<Json> {
    if let Json::Array(v) = j {
        v@
    } else {
        Seq::empty()
    }
}

/// The value bound for a REAL member: the number where the member is one,
/// else 0.
pub open spec fn real_member(c: Json, key: Seq<char>) -> ParamV {
    if let Json::Number(n) = json_index(c, key) {
        ParamV::Real(n.int, n.text@)
    } else {
        ParamV::Real(Some(0i64), "0"@)
    }
}

/// The text bound for a TEXT member: the string where the member is one,
/// else the empty text.
pub open spec fn text_member(c: Json, key: Seq<char>) -> ParamV {
    if let Json::String(t) = json_index(c, key) {
        ParamV::Text(t@)
    } else {
        ParamV::Text(""@)
    }
}

proof fn member_values(c: Json, key: Seq<char>)
    ensures
        text_member(c, key) == ParamV::Text(text_or_empty(json_index(c, key))),
        real_member(c, key) == real_or_zero_v(json_index(c, key)),
{
}

/// A chart push with a symbol creates the table of the symbol and then
/// stores each candle of `Snapshot.Data`, in order, one statement per
/// candle: the insert names the columns time, open, high, low, close,
/// volume, interest, market_trading_state, and binds to each the candle's
/// member of that name (`Time`, `Open`, `High`, `Low`, `Close`, `Volume`,
/// `Interest`, `MarketTradingState`).
pub proof fn chart_push_stores_each_candle(p: IncomingPayload, symbol: Seq<char>)
    requires
        p.target@ == "stockCharts"@,
        chart_symbol(p.data) == Some(symbol),
    ensures
        chart_insert_sql(symbol_table(symbol)) == "INSERT OR REPLACE INTO "@ + quoted_name(symbol_table(symbol))
            + " (time, open, high, low, close, volume, interest, market_trading_state) VALUES (?, ?, ?, ?, ?, ?, ?, ?)"@,
        ({
            let candles = array_elements(json_index(json_index(p.data, "Snapshot"@), "Data"@));
            post_plan(p) matches Some(s) && s.len() == 1 + candles.len() && s[0].sql == chart_table_sql(
                symbol_table(symbol),
            ) && forall|k: int|
                0 <= k < candles.len() ==> {
                    let c = candles[k];
                    let st = #[trigger] s[1 + k];
                    &&& st.sql == chart_insert_sql(symbol_table(symbol))
                    &&& st.on_failure is Continue
                    &&& st.params == seq![
                        text_member(c, "Time"@),
                        real_member(c, "Open"@),
                        real_member(c, "High"@),
                        real_member(c, "Low"@),
                        real_member(c, "Close"@),
                        real_member(c, "Volume"@),
                        real_member(c, "Interest"@),
                        text_member(c, "MarketTradingState"@),
                    ]
                }
        }),
{
    let candles = array_elements(json_index(json_index(p.data, "Snapshot"@), "Data"@));
    assert(candles == chart_candles(p.data));
    let s = chart_plan(symbol, p.data);
    assert forall|k: int| 0 <= k < candles.len() implies (#[trigger] s[1 + k]).params == seq![
        text_member(candles[k], "Time"@),
        real_member(candles[k], "Open"@),
        real_member(candles[k], "High"@),
        real_member(candles[k], "Low"@),
        real_member(candles[k], "Close"@),
        real_member(candles[k], "Volume"@),
        real_member(candles[k], "Interest"@),
        text_member(candles[k], "MarketTradingState"@),
    ] by {
        let c = candles[k];
        assert(s[1 + k] == candle_row(symbol_table(symbol), c));
        member_values(c, "Time"@);
        member_values(c, "Open"@);
        member_values(c, "High"@);
        member_values(c, "Low"@);
        member_values(c, "Close"@);
        member_values(c, "Volume"@);
        member_values(c, "Interest"@);
        member_values(c, "MarketTradingState"@);
        assert(s[1 + k].params =~= seq![
            text_member(c, "Time"@),
            real_member(c, "Open"@),
            real_member(c, "High"@),
            real_member(c, "Low"@),
            real_member(c, "Close"@),
            real_member(c, "Volume"@),
            real_member(c, "Interest"@),
            text_member(c, "MarketTradingState"@),
        ]);
    }
}

/// A transactions push creates the table and its two indexes and then
/// stores every booking of `Data`, in order, one statement per booking: the
/// insert names the columns bk_record_id, account_id, date, booked_amount,
/// currency, event, instrument_symbol, transaction_type, data, and binds to
/// each the booking's member of that name (`BkRecordId`, or 0 where it is
/// no integer; `AccountId`; `Date`; `BookedAmount`; `Currency`; `Event`;
/// `Instrument.Symbol`; `TransactionType`) and the booking itself.
pub proof fn transactions_push_stores_each_booking(p: IncomingPayload)
    requires
        p.target@ == "transactions"@,
    ensures
        transactions_insert_sql()
            == "INSERT OR IGNORE INTO transactions (bk_record_id, account_id, date, booked_amount, currency, event, instrument_symbol, transaction_type, data) VALUES (?, ?, ?, ?, ?, ?, ?, ?, ?)"@,
        ({
            let bookings = array_elements(json_index(p.data, "Data"@));
            post_plan(p) matches Some(s) && s.len() == 3 + bookings.len() && forall|k: int|
                0 <= k < bookings.len() ==> {
                    let t = bookings[k];
                    let st = #[trigger] s[3 + k];
                    &&& st.sql == transactions_insert_sql()
                    &&& st.on_failure is Continue
                    &&& st.params == seq![
                        ParamV::Integer(
                            match json_index(t, "BkRecordId"@) {
                                Json::Number(n) => match n.int {
                                    Some(i) => i,
                                    None => 0,
                                },
                                _ => 0,
                            },
                        ),
                        text_member(t, "AccountId"@),
                        text_member(t, "Date"@),
                        real_member(t, "BookedAmount"@),
                        text_member(t, "Currency"@),
                        text_member(t, "Event"@),
                        text_member(json_index(t, "Instrument"@), "Symbol"@),
                        text_member(t, "TransactionType"@),
                        ParamV::JsonText(t),
                    ]
                }
        }),
{
    reveal_strlit("transactions");
    reveal_strlit("stockCharts");
    assert(p.target@.len() != "stockCharts"@.len());
    let bookings = array_elements(json_index(p.data, "Data"@));
    assert(bookings == items_of(json_index(p.data, "Data"@)));
    let s = transactions_plan(p.data);
    assert forall|k: int| 0 <= k < bookings.len() implies (#[trigger] s[3 + k]).params == seq![
        ParamV::Integer(
            match json_index(bookings[k], "BkRecordId"@) {
                Json::Number(n) => match n.int {
                    Some(i) => i,
                    None => 0,
                },
                _ => 0,
            },
        ),
        text_member(bookings[k], "AccountId"@),
        text_member(bookings[k], "Date"@),
        real_member(bookings[k], "BookedAmount"@),
        text_member(bookings[k], "Currency"@),
        text_member(bookings[k], "Event"@),
        text_member(json_index(bookings[k], "Instrument"@), "Symbol"@),
        text_member(bookings[k], "TransactionType"@),
        ParamV::JsonText(bookings[k]),
    ] && s[3 + k].sql == transactions_insert_sql() && s[3 + k].on_failure is Continue by {
        let t = bookings[k];
        assert(s[3 + k] == transaction_row(t));
        member_values(t, "AccountId"@);
        member_values(t, "Date"@);
        member_values(t, "BookedAmount"@);
        member_values(t, "Currency"@);
        member_values(t, "Event"@);
        member_values(json_index(t, "Instrument"@), "Symbol"@);
        member_values(t, "TransactionType"@);
        assert(s[3 + k].params =~= seq![
            ParamV::Integer(
                match json_index(t, "BkRecordId"@) {
                    Json::Number(n) => match n.int {
                        Some(i) => i,
                        None => 0,
                    },
                    _ => 0,
                },
            ),
            text_member(t, "AccountId"@),
            text_member(t, "Date"@),
            real_member(t, "BookedAmount"@),
            text_member(t, "Currency"@),
            text_member(t, "Event"@),
            text_member(json_index(t, "Instrument"@), "Symbol"@),
            text_member(t, "TransactionType"@),
            ParamV::JsonText(t),
        ]);
    }
    assert(post_plan(p) == Some(s));
}

} // verus!
