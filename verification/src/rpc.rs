//! JSON-RPC requests and responses of the MCP server, and the catalogues of
//! tools and resources that it offers.
use vstd::prelude::*;
use crate::json::{Json, StoredText};

verus! {

/// A JSON-RPC request. A request without an id is a notification.
pub struct McpRequest {
    pub method: String,
    pub params: Option<Json>,
    pub id: Option<Json>,
}

/// The JSON type of a tool argument.
pub enum PropertyKind {
    String,
    Integer,
}

/// An argument of a tool.
pub struct PropertySpec {
    pub name: String,
    pub kind: PropertyKind,
    pub description: String,
}

/// A tool of the MCP server: its name, what it does, its arguments and the
/// arguments it requires (where it lists them).
pub struct ToolSpec {
    pub name: String,
    pub description: String,
    pub properties: Vec<PropertySpec>,
    pub required: Option<Vec<String>>,
}

/// A resource of the MCP server.
pub struct ResourceSpec {
    pub uri: String,
    pub name: String,
    pub description: String,
    pub mime_type: String,
}

/// A stored candle of a stock chart; the prices are JSON numbers (or null).
pub struct HistoryRow {
    pub time: String,
    pub open: Json,
    pub high: Json,
    pub low: Json,
    pub close: Json,
    pub volume: Json,
    pub interest: Json,
    pub market_trading_state: String,
}

/// A stored capture: its time, the page it came from and its document.
pub struct StoredRecord {
    pub timestamp: i64,
    pub url: String,
    pub data: StoredText,
}

/// A news record as a tool returns it.
pub struct NewsItem {
    pub timestamp: i64,
    pub url: String,
    pub data: Json,
}

/// The document that a tool returns, as pretty JSON text.
pub enum ToolDocument {
    /// A capture nearest to a time, with the times of its neighbours.
    Record { timestamp: i64, url: String, data: Json, previous: Option<i64>, next: Option<i64> },
    /// The candles of a stock, with the table they came from.
    History { symbol: String, table: String, rows: Vec<HistoryRow> },
    /// The news records of a time range.
    News { items: Vec<NewsItem>, start: i64, end: i64 },
    /// Stored transactions.
    Transactions { items: Vec<Json> },
}

/// What a request is answered.
pub enum Outcome {
    /// The server's capabilities, at the client's protocol version.
    Initialized { protocol_version: String, server_name: String, server_version: String },
    /// An empty result.
    Pong,
    /// The tool catalogue.
    Tools(Vec<ToolSpec>),
    /// The resource catalogue.
    Resources(Vec<ResourceSpec>),
    /// The contents of a resource.
    ResourceText { uri: String, mime_type: String, text: String },
    /// A tool result made of this text.
    Text(String),
    /// A tool result made of this document, as pretty JSON text.
    Document(ToolDocument),
    /// A JSON-RPC error.
    Failure { code: i64, message: String },
}

/// A response: the id of the request and what it is answered.
pub struct RpcResponse {
    pub id: Option<Json>,
    pub outcome: Outcome,
}

// ---------------------------------------------------------------------------
// Views
// ---------------------------------------------------------------------------

pub struct PropertyV {
    pub name: Seq<char>,
    pub kind: PropertyKind,
    pub description: Seq<char>,
}

impl View for PropertySpec {
    type V = PropertyV;

    open spec fn view(&self) -> PropertyV {
        PropertyV { name: self.name@, kind: self.kind, description: self.description@ }
    }
}

/// The views of a list of strings.
pub open spec fn strings_view(v: Seq<String>) -> Seq<Seq<char>> {
    v.map_values(|s: String| s@)
}

pub struct ToolV {
    pub name: Seq<char>,
    pub description: Seq<char>,
    pub properties: Seq<PropertyV>,
    pub required: Option<Seq<Seq<char>>>,
}

impl View for ToolSpec {
    type V = ToolV;

    open spec fn view(&self) -> ToolV {
        ToolV {
            name: self.name@,
            description: self.description@,
            properties: self.properties@.map_values(|p: PropertySpec| p@),
            required: match self.required {
                Some(r) => Some(strings_view(r@)),
                None => None,
            },
        }
    }
}

pub struct ResourceV {
    pub uri: Seq<char>,
    pub name: Seq<char>,
    pub description: Seq<char>,
    pub mime_type: Seq<char>,
}

impl View for ResourceSpec {
    type V = ResourceV;

    open spec fn view(&self) -> ResourceV {
        ResourceV {
            uri: self.uri@,
            name: self.name@,
            description: self.description@,
            mime_type: self.mime_type@,
        }
    }
}

pub struct NewsItemV {
    pub timestamp: i64,
    pub url: Seq<char>,
    pub data: Json,
}

impl View for NewsItem {
    type V = NewsItemV;

    open spec fn view(&self) -> NewsItemV {
        NewsItemV { timestamp: self.timestamp, url: self.url@, data: self.data }
    }
}

pub enum DocumentV {
    Record { timestamp: i64, url: Seq<char>, data: Json, previous: Option<i64>, next: Option<i64> },
    History { symbol: Seq<char>, table: Seq<char>, rows: Seq<HistoryRow> },
    News { items: Seq<NewsItemV>, start: i64, end: i64 },
    Transactions { items: Seq<Json> },
}

impl View for ToolDocument {
    type V = DocumentV;

    open spec fn view(&self) -> DocumentV {
        match self {
            ToolDocument::Record { timestamp, url, data, previous, next } => DocumentV::Record {
                timestamp: *timestamp,
                url: url@,
                data: *data,
                previous: *previous,
                next: *next,
            },
            ToolDocument::History { symbol, table, rows } => DocumentV::History {
                symbol: symbol@,
                table: table@,
                rows: rows@,
            },
            ToolDocument::News { items, start, end } => DocumentV::News {
                items: items@.map_values(|n: NewsItem| n@),
                start: *start,
                end: *end,
            },
            ToolDocument::Transactions { items } => DocumentV::Transactions { items: items@ },
        }
    }
}

pub enum OutcomeV {
    Initialized { protocol_version: Seq<char>, server_name: Seq<char>, server_version: Seq<char> },
    Pong,
    Tools(Seq<ToolV>),
    Resources(Seq<ResourceV>),
    ResourceText { uri: Seq<char>, mime_type: Seq<char>, text: Seq<char> },
    Text(Seq<char>),
    Document(DocumentV),
    Failure { code: i64, message: Seq<char> },
}

impl View for Outcome {
    type V = OutcomeV;

    open spec fn view(&self) -> OutcomeV {
        match self {
            Outcome::Initialized { protocol_version, server_name, server_version } =>
                OutcomeV::Initialized {
                protocol_version: protocol_version@,
                server_name: server_name@,
                server_version: server_version@,
            },
            Outcome::Pong => OutcomeV::Pong,
            Outcome::Tools(ts) => OutcomeV::Tools(ts@.map_values(|t: ToolSpec| t@)),
            Outcome::Resources(rs) => OutcomeV::Resources(rs@.map_values(|r: ResourceSpec| r@)),
            Outcome::ResourceText { uri, mime_type, text } => OutcomeV::ResourceText {
                uri: uri@,
                mime_type: mime_type@,
                text: text@,
            },
            Outcome::Text(t) => OutcomeV::Text(t@),
            Outcome::Document(d) => OutcomeV::Document(d@),
            Outcome::Failure { code, message } => OutcomeV::Failure {
                code: *code,
                message: message@,
            },
        }
    }
}

pub struct ResponseV {
    pub id: Option<Json>,
    pub outcome: OutcomeV,
}

impl View for RpcResponse {
    type V = ResponseV;

    open spec fn view(&self) -> ResponseV {
        ResponseV { id: self.id, outcome: self.outcome@ }
    }
}

// ---------------------------------------------------------------------------
// The catalogues
// ---------------------------------------------------------------------------

pub open spec fn property_v(name: Seq<char>, kind: PropertyKind, description: Seq<char>) -> PropertyV {
    PropertyV { name, kind, description }
}

/// The tools of the server.
pub open spec fn tool_catalogue() -> Seq<ToolV> {
    seq![
        ToolV {
            name: "query_stock_data"@,
            description: "Queries intercepted SaxoTrader data for standard targets: 'balances', 'netpositions', 'orders', 'news', 'transactions', 'earnings', 'watchlists'."@,
            properties: seq![
                property_v("target"@, PropertyKind::String, "Table name (e.g., balances)"@),
                property_v("timestamp"@, PropertyKind::Integer, "Optional Unix timestamp to find the nearest record"@),
            ],
            required: Some(seq!["target"@]),
        },
        ToolV {
            name: "query_stock_history"@,
            description: "Queries historical price records for a specific stock symbol. Supports smart matching (e.g., 'SAN' matches 'SAN_xpar') and time range filtering."@,
            properties: seq![
                property_v("symbol"@, PropertyKind::String, "Stock symbol or table name (e.g., SAN, SAN_xpar)"@),
                property_v("start_time"@, PropertyKind::String, "Optional ISO 8601 time string for start of range"@),
                property_v("end_time"@, PropertyKind::String, "Optional ISO 8601 time string for end of range"@),
            ],
            required: Some(seq!["symbol"@]),
        },
        ToolV {
            name: "search_news"@,
            description: "Searches for news in the news table. You MUST provide either 'date' (YYYY-MM-DD), 'timestamp' (Unix ms), or both 'start_timestamp' and 'end_timestamp' (Unix ms)."@,
            properties: seq![
                property_v("date"@, PropertyKind::String, "Exact date in YYYY-MM-DD format. Returns news for that day."@),
                property_v("timestamp"@, PropertyKind::Integer, "Exact Unix timestamp in milliseconds. Returns news within +/- 24 hours."@),
                property_v("start_timestamp"@, PropertyKind::Integer, "Start Unix timestamp in milliseconds."@),
                property_v("end_timestamp"@, PropertyKind::Integer, "End Unix timestamp in milliseconds."@),
            ],
            required: None,
        },
        ToolV {
            name: "search_transactions"@,
            description: "Searches for transactions. You can filter by 'date' (YYYY-MM-DD), a date range ('start_date' and 'end_date'), or 'symbol'."@,
            properties: seq![
                property_v("date"@, PropertyKind::String, "Exact date in YYYY-MM-DD format."@),
                property_v("start_date"@, PropertyKind::String, "Start date in YYYY-MM-DD format."@),
                property_v("end_date"@, PropertyKind::String, "End date in YYYY-MM-DD format."@),
                property_v("symbol"@, PropertyKind::String, "Instrument symbol (e.g., AMD:xnas)."@),
            ],
            required: None,
        },
    ]
}

/// The resources of the server.
pub open spec fn resource_catalogue() -> Seq<ResourceV> {
    seq![
        ResourceV {
            uri: "schema://stock_data"@,
            name: "Saxo Data Schema Info"@,
            description: "Information about how the stock data is structured and where to find it."@,
            mime_type: "text/plain"@,
        },
    ]
}

/// The contents of the schema resource.
pub open spec fn schema_text() -> OutcomeV {
    OutcomeV::ResourceText {
        uri: "schema://stock_data"@,
        mime_type: "text/plain"@,
        text: "Saxo data is stored in SQLite (saxo_data.db). \n- Standard targets (balances, netpositions, etc.) have columns: id, timestamp, url, data.\n- Stock chart tables (named by symbol) have columns: time (PK), open, high, low, close, volume, interest, market_trading_state."@,
    }
}

fn property(name: &str, kind: PropertyKind, description: &str) -> (r: PropertySpec)
    ensures
        r@ == property_v(name@, kind, description@),
{
    PropertySpec { name: String::from_str(name), kind, description: String::from_str(description) }
}

fn one_name(name: &str) -> (r: Vec<String>)
    ensures
        strings_view(r@) =~= seq![name@],
{
    let mut v: Vec<String> = Vec::new();
    v.push(String::from_str(name));
    v
}

fn tool_query_stock_data() -> (r: ToolSpec)
    ensures
        r@ == tool_catalogue()[0],
{
    let mut props: Vec<PropertySpec> = Vec::new();
    props.push(property("target", PropertyKind::String, "Table name (e.g., balances)"));
    props.push(property("timestamp", PropertyKind::Integer, "Optional Unix timestamp to find the nearest record"));
    let r = ToolSpec {
        name: String::from_str("query_stock_data"),
        description: String::from_str(
            "Queries intercepted SaxoTrader data for standard targets: 'balances', 'netpositions', 'orders', 'news', 'transactions', 'earnings', 'watchlists'.",
        ),
        properties: props,
        required: Some(one_name("target")),
    };
    assert(r@.properties =~= tool_catalogue()[0].properties);
    r
}

fn tool_query_stock_history() -> (r: ToolSpec)
    ensures
        r@ == tool_catalogue()[1],
{
    let mut props: Vec<PropertySpec> = Vec::new();
    props.push(property("symbol", PropertyKind::String, "Stock symbol or table name (e.g., SAN, SAN_xpar)"));
    props.push(property("start_time", PropertyKind::String, "Optional ISO 8601 time string for start of range"));
    props.push(property("end_time", PropertyKind::String, "Optional ISO 8601 time string for end of range"));
    let r = ToolSpec {
        name: String::from_str("query_stock_history"),
        description: String::from_str(
            "Queries historical price records for a specific stock symbol. Supports smart matching (e.g., 'SAN' matches 'SAN_xpar') and time range filtering.",
        ),
        properties: props,
        required: Some(one_name("symbol")),
    };
    assert(r@.properties =~= tool_catalogue()[1].properties);
    r
}

fn tool_search_news() -> (r: ToolSpec)
    ensures
        r@ == tool_catalogue()[2],
{
    let mut props: Vec<PropertySpec> = Vec::new();
    props.push(property("date", PropertyKind::String, "Exact date in YYYY-MM-DD format. Returns news for that day."));
    props.push(property("timestamp", PropertyKind::Integer, "Exact Unix timestamp in milliseconds. Returns news within +/- 24 hours."));
    props.push(property("start_timestamp", PropertyKind::Integer, "Start Unix timestamp in milliseconds."));
    props.push(property("end_timestamp", PropertyKind::Integer, "End Unix timestamp in milliseconds."));
    let r = ToolSpec {
        name: String::from_str("search_news"),
        description: String::from_str(
            "Searches for news in the news table. You MUST provide either 'date' (YYYY-MM-DD), 'timestamp' (Unix ms), or both 'start_timestamp' and 'end_timestamp' (Unix ms).",
        ),
        properties: props,
        required: None,
    };
    assert(r@.properties =~= tool_catalogue()[2].properties);
    r
}

fn tool_search_transactions() -> (r: ToolSpec)
    ensures
        r@ == tool_catalogue()[3],
{
    let mut props: Vec<PropertySpec> = Vec::new();
    props.push(property("date", PropertyKind::String, "Exact date in YYYY-MM-DD format."));
    props.push(property("start_date", PropertyKind::String, "Start date in YYYY-MM-DD format."));
    props.push(property("end_date", PropertyKind::String, "End date in YYYY-MM-DD format."));
    props.push(property("symbol", PropertyKind::String, "Instrument symbol (e.g., AMD:xnas)."));
    let r = ToolSpec {
        name: String::from_str("search_transactions"),
        description: String::from_str(
            "Searches for transactions. You can filter by 'date' (YYYY-MM-DD), a date range ('start_date' and 'end_date'), or 'symbol'.",
        ),
        properties: props,
        required: None,
    };
    assert(r@.properties =~= tool_catalogue()[3].properties);
    r
}

/// The tool catalogue that `tools/list` answers.
pub fn tools() -> (r: Vec<ToolSpec>)
    ensures
        r@.map_values(|t: ToolSpec| t@) == tool_catalogue(),
{
    let mut v: Vec<ToolSpec> = Vec::new();
    v.push(tool_query_stock_data());
    v.push(tool_query_stock_history());
    v.push(tool_search_news());
    v.push(tool_search_transactions());
    assert(v@.map_values(|t: ToolSpec| t@) =~= tool_catalogue());
    v
}

/// The resource catalogue that `resources/list` answers.
pub fn resources() -> (r: Vec<ResourceSpec>)
    ensures
        r@.map_values(|x: ResourceSpec| x@) == resource_catalogue(),
{
    let mut v: Vec<ResourceSpec> = Vec::new();
    v.push(
        ResourceSpec {
            uri: String::from_str("schema://stock_data"),
            name: String::from_str("Saxo Data Schema Info"),
            description: String::from_str(
                "Information about how the stock data is structured and where to find it.",
            ),
            mime_type: String::from_str("text/plain"),
        },
    );
    assert(v@.map_values(|x: ResourceSpec| x@) =~= resource_catalogue());
    v
}

/// The contents of the schema resource.
pub fn schema_resource() -> (r: Outcome)
    ensures
        r@ == schema_text(),
{
    Outcome::ResourceText {
        uri: String::from_str("schema://stock_data"),
        mime_type: String::from_str("text/plain"),
        text: String::from_str(
            "Saxo data is stored in SQLite (saxo_data.db). \n- Standard targets (balances, netpositions, etc.) have columns: id, timestamp, url, data.\n- Stock chart tables (named by symbol) have columns: time (PK), open, high, low, close, volume, interest, market_trading_state.",
        ),
    }
}

} // verus!
