//! The JSON document of every answer the MCP server sends: the JSON-RPC
//! frame, the results of each method, and the documents that the tools
//! answer with. A tool's document is answered as its pretty-printed text;
//! the text is printed where the bytes leave the process, and `document_answer`
//! puts it into the frame.
use vstd::prelude::*;
use vstd::pervasive::unreached;
use crate::json::{Json, JsonNumber, JsonV, json_view};
use crate::names::push_char;
use crate::rpc::{
    DocumentV, HistoryRow, NewsItem, NewsItemV, Outcome, OutcomeV, PropertyKind, PropertySpec,
    PropertyV, ResourceSpec, ResourceV, ResponseV, RpcResponse, ToolDocument, ToolSpec, ToolV,
};

verus! {

// ---------------------------------------------------------------------------
// Numbers and small values
// ---------------------------------------------------------------------------

/// The character of a decimal digit.
pub open spec fn digit_char(d: int) -> char {
    if d == 0 {
        '0'
    } else if d == 1 {
        '1'
    } else if d == 2 {
        '2'
    } else if d == 3 {
        '3'
    } else if d == 4 {
        '4'
    } else if d == 5 {
        '5'
    } else if d == 6 {
        '6'
    } else if d == 7 {
        '7'
    } else if d == 8 {
        '8'
    } else {
        '9'
    }
}

/// The decimal digits of `n`, without leading zeros.
pub open spec fn digits(n: nat) -> Seq<char>
    decreases n,
{
    if n < 10 {
        seq![digit_char(n as int)]
    } else {
        digits(n / 10).push(digit_char((n % 10) as int))
    }
}

/// The decimal text of an integer.
pub open spec fn decimal(i: int) -> Seq<char> {
    if i < 0 {
        seq!['-'] + digits((-i) as nat)
    } else {
        digits(i as nat)
    }
}

/// A JSON string.
pub open spec fn jtext(s: Seq<char>) -> JsonV {
    JsonV::String(s)
}

/// A JSON integer.
pub open spec fn jint(i: i64) -> JsonV {
    JsonV::Number(Some(i), decimal(i as int))
}

/// A JSON count (an unsigned integer).
pub open spec fn jcount(n: nat) -> JsonV {
    JsonV::Number(
        if n <= i64::MAX {
            Some(n as i64)
        } else {
            None
        },
        digits(n),
    )
}

/// A JSON integer, or `null` for none.
pub open spec fn jopt(o: Option<i64>) -> JsonV {
    match o {
        Some(i) => jint(i),
        None => JsonV::Null,
    }
}

/// The views of the values of a list.
pub open spec fn items_view(s: Seq<Json>) -> Seq<JsonV> {
    Seq::new(s.len(), |i: int| json_view(s[i]))
}

/// The views of the members of an object.
pub open spec fn members_view(m: Seq<(String, Json)>) -> Seq<(Seq<char>, JsonV)> {
    Seq::new(m.len(), |i: int| (m[i].0@, json_view(m[i].1)))
}

// ---------------------------------------------------------------------------
// The layout of answers
// ---------------------------------------------------------------------------

/// The result that carries a text: one content item of type `text`.
pub open spec fn text_content(t: Seq<char>) -> JsonV {
    JsonV::Object(
        seq![
            (
                "content"@,
                JsonV::Array(
                    seq![JsonV::Object(seq![("type"@, jtext("text"@)), ("text"@, jtext(t))])],
                ),
            ),
        ],
    )
}

/// The JSON type name of an argument.
pub open spec fn kind_name(k: PropertyKind) -> Seq<char> {
    match k {
        PropertyKind::String => "string"@,
        PropertyKind::Integer => "integer"@,
    }
}

/// An argument in a tool's input schema.
pub open spec fn property_value(p: PropertyV) -> (Seq<char>, JsonV) {
    (p.name, JsonV::Object(seq![("type"@, jtext(kind_name(p.kind))), ("description"@, jtext(p.description))]))
}

/// The input schema of a tool.
pub open spec fn schema_value(t: ToolV) -> JsonV {
    JsonV::Object(
        seq![
            ("type"@, jtext("object"@)),
            ("properties"@, JsonV::Object(t.properties.map_values(|p: PropertyV| property_value(p)))),
        ] + match t.required {
            Some(r) => seq![("required"@, JsonV::Array(r.map_values(|n: Seq<char>| jtext(n))))],
            None => Seq::empty(),
        },
    )
}

/// A tool as `tools/list` lists it.
pub open spec fn tool_value(t: ToolV) -> JsonV {
    JsonV::Object(
        seq![
            ("name"@, jtext(t.name)),
            ("description"@, jtext(t.description)),
            ("inputSchema"@, schema_value(t)),
        ],
    )
}

/// A resource as `resources/list` lists it.
pub open spec fn resource_value(r: ResourceV) -> JsonV {
    JsonV::Object(
        seq![
            ("uri"@, jtext(r.uri)),
            ("name"@, jtext(r.name)),
            ("description"@, jtext(r.description)),
            ("mimeType"@, jtext(r.mime_type)),
        ],
    )
}

/// A stored candle in a history.
pub open spec fn row_value(r: HistoryRow) -> JsonV {
    JsonV::Object(
        seq![
            ("time"@, jtext(r.time@)),
            ("open"@, json_view(r.open)),
            ("high"@, json_view(r.high)),
            ("low"@, json_view(r.low)),
            ("close"@, json_view(r.close)),
            ("volume"@, json_view(r.volume)),
            ("interest"@, json_view(r.interest)),
            ("market_trading_state"@, jtext(r.market_trading_state@)),
        ],
    )
}

/// A news record in a news search.
pub open spec fn news_value(n: NewsItemV) -> JsonV {
    JsonV::Object(
        seq![("timestamp"@, jint(n.timestamp)), ("url"@, jtext(n.url)), ("data"@, json_view(n.data))],
    )
}

/// The document that a tool answers with.
pub open spec fn document_value(d: DocumentV) -> JsonV {
    match d {
        DocumentV::Record { timestamp, url, data, previous, next } => JsonV::Object(
            seq![
                (
                    "record"@,
                    JsonV::Object(
                        seq![("timestamp"@, jint(timestamp)), ("url"@, jtext(url)), ("data"@, json_view(data))],
                    ),
                ),
                ("prev_timestamp"@, jopt(previous)),
                ("next_timestamp"@, jopt(next)),
            ],
        ),
        DocumentV::History { symbol, table, rows } => JsonV::Object(
            seq![
                ("symbol"@, jtext(symbol)),
                ("table"@, jtext(table)),
                ("history"@, JsonV::Array(rows.map_values(|r: HistoryRow| row_value(r)))),
                ("count"@, jcount(rows.len())),
            ],
        ),
        DocumentV::News { items, start, end } => JsonV::Object(
            seq![
                ("news"@, JsonV::Array(items.map_values(|n: NewsItemV| news_value(n)))),
                ("count"@, jcount(items.len())),
                ("range"@, JsonV::Object(seq![("start"@, jint(start)), ("end"@, jint(end))])),
            ],
        ),
        DocumentV::Transactions { items } => JsonV::Object(
            seq![
                ("transactions"@, JsonV::Array(items.map_values(|j: Json| json_view(j)))),
                ("count"@, jcount(items.len())),
            ],
        ),
    }
}

/// The result of a successful method, where a document is answered as the
/// text `printed`.
pub open spec fn result_value(o: OutcomeV, printed: Seq<char>) -> JsonV {
    match o {
        OutcomeV::Initialized { protocol_version, server_name, server_version } => JsonV::Object(
            seq![
                ("protocolVersion"@, jtext(protocol_version)),
                (
                    "capabilities"@,
                    JsonV::Object(
                        seq![("tools"@, JsonV::Object(Seq::empty())), ("resources"@, JsonV::Object(Seq::empty()))],
                    ),
                ),
                (
                    "serverInfo"@,
                    JsonV::Object(seq![("name"@, jtext(server_name)), ("version"@, jtext(server_version))]),
                ),
            ],
        ),
        OutcomeV::Pong => JsonV::Object(Seq::empty()),
        OutcomeV::Tools(ts) => JsonV::Object(
            seq![("tools"@, JsonV::Array(ts.map_values(|t: ToolV| tool_value(t))))],
        ),
        OutcomeV::Resources(rs) => JsonV::Object(
            seq![("resources"@, JsonV::Array(rs.map_values(|r: ResourceV| resource_value(r))))],
        ),
        OutcomeV::ResourceText { uri, mime_type, text } => JsonV::Object(
            seq![
                (
                    "contents"@,
                    JsonV::Array(
                        seq![
                            JsonV::Object(
                                seq![("uri"@, jtext(uri)), ("mimeType"@, jtext(mime_type)), ("text"@, jtext(text))],
                            ),
                        ],
                    ),
                ),
            ],
        ),
        OutcomeV::Text(t) => text_content(t),
        OutcomeV::Document(_) => text_content(printed),
        OutcomeV::Failure { .. } => JsonV::Null,
    }
}

/// The member that carries an id, where the request had one.
pub open spec fn id_member(id: Option<Json>) -> Seq<(Seq<char>, JsonV)> {
    match id {
        Some(i) => seq![("id"@, json_view(i))],
        None => Seq::empty(),
    }
}

/// The JSON-RPC answer: version `2.0`, then the result or the error, then
/// the id where the request had one. A document is answered as the text
/// `printed`.
pub open spec fn response_value(r: ResponseV, printed: Seq<char>) -> JsonV {
    JsonV::Object(
        seq![("jsonrpc"@, jtext("2.0"@))] + match r.outcome {
            OutcomeV::Failure { code, message } => seq![
                ("error"@, JsonV::Object(seq![("code"@, jint(code)), ("message"@, jtext(message))])),
            ],
            o => seq![("result"@, result_value(o, printed))],
        } + id_member(r.id),
    )
}

// ---------------------------------------------------------------------------
// Building values
// ---------------------------------------------------------------------------

fn digit(d: u64) -> (c: char)
    requires
        d < 10,
    ensures
        c == digit_char(d as int),
{
    if d == 0 {
        '0'
    } else if d == 1 {
        '1'
    } else if d == 2 {
        '2'
    } else if d == 3 {
        '3'
    } else if d == 4 {
        '4'
    } else if d == 5 {
        '5'
    } else if d == 6 {
        '6'
    } else if d == 7 {
        '7'
    } else if d == 8 {
        '8'
    } else {
        '9'
    }
}

/// The decimal digits of `n`.
fn digits_text(n: u64) -> (r: String)
    ensures
        r@ == digits(n as nat),
    decreases n,
{
    if n < 10 {
        let mut r = String::new();
        push_char(&mut r, digit(n));
        assert(r@ =~= digits(n as nat));
        r
    } else {
        let mut r = digits_text(n / 10);
        push_char(&mut r, digit(n % 10));
        r
    }
}

fn object(m: Vec<(String, Json)>) -> (j: Json)
    ensures
        json_view(j) == JsonV::Object(members_view(m@)),
{
    let j = Json::Object(m);
    assert(json_view(j) == JsonV::Object(members_view(m@))) by {
        if let JsonV::Object(a) = json_view(j) {
            assert(a =~= members_view(m@));
        }
    }
    j
}

fn array(v: Vec<Json>) -> (j: Json)
    ensures
        json_view(j) == JsonV::Array(items_view(v@)),
{
    let j = Json::Array(v);
    assert(json_view(j) == JsonV::Array(items_view(v@))) by {
        if let JsonV::Array(a) = json_view(j) {
            assert(a =~= items_view(v@));
        }
    }
    j
}

fn no_members() -> (m: Vec<(String, Json)>)
    ensures
        members_view(m@) == Seq::<(Seq<char>, JsonV)>::empty(),
{
    let m: Vec<(String, Json)> = Vec::new();
    assert(members_view(m@) =~= Seq::<(Seq<char>, JsonV)>::empty());
    m
}

fn no_items() -> (v: Vec<Json>)
    ensures
        items_view(v@) == Seq::<JsonV>::empty(),
{
    let v: Vec<Json> = Vec::new();
    assert(items_view(v@) =~= Seq::<JsonV>::empty());
    v
}

/// Adds the member `k: v` at the end of `m`.
fn add_member(m: &mut Vec<(String, Json)>, k: &str, v: Json)
    ensures
        members_view(final(m)@) == members_view(old(m)@).push((k@, json_view(v))),
{
    let ghost before = m@;
    m.push((String::from_str(k), v));
    assert(members_view(m@) =~= members_view(before).push((k@, json_view(v))));
}

/// Adds `v` at the end of `items`.
fn add_item(items: &mut Vec<Json>, v: Json)
    ensures
        items_view(final(items)@) == items_view(old(items)@).push(json_view(v)),
{
    let ghost before = items@;
    items.push(v);
    assert(items_view(items@) =~= items_view(before).push(json_view(v)));
}

fn text(s: &str) -> (j: Json)
    ensures
        json_view(j) == jtext(s@),
{
    Json::String(String::from_str(s))
}

fn owned_text(s: String) -> (j: Json)
    ensures
        json_view(j) == jtext(s@),
{
    Json::String(s)
}

fn integer(i: i64) -> (j: Json)
    ensures
        json_view(j) == jint(i),
{
    let text = if i < 0 {
        let magnitude: u64 = (0i128 - (i as i128)) as u64;
        let mut t = String::new();
        push_char(&mut t, '-');
        let d = digits_text(magnitude);
        t.append(d.as_str());
        assert(t@ =~= decimal(i as int));
        t
    } else {
        digits_text(i as u64)
    };
    Json::Number(JsonNumber { int: Some(i), text })
}

fn count(n: usize) -> (j: Json)
    ensures
        json_view(j) == jcount(n as nat),
{
    let value: Option<i64> = if (n as u64) <= 9223372036854775807u64 {
        Some(n as i64)
    } else {
        None
    };
    Json::Number(JsonNumber { int: value, text: digits_text(n as u64) })
}

fn optional_integer(o: Option<i64>) -> (j: Json)
    ensures
        json_view(j) == jopt(o),
{
    match o {
        Some(i) => integer(i),
        None => Json::Null,
    }
}

fn text_content_json(t: String) -> (j: Json)
    ensures
        json_view(j) == text_content(t@),
{
    let mut item = no_members();
    add_member(&mut item, "type", text("text"));
    add_member(&mut item, "text", owned_text(t));
    assert(members_view(item@) =~= seq![("type"@, jtext("text"@)), ("text"@, jtext(t@))]);
    let mut list = no_items();
    add_item(&mut list, object(item));
    let mut outer = no_members();
    add_member(&mut outer, "content", array(list));
    object(outer)
}

fn property_json(p: PropertySpec) -> (m: (String, Json))
    ensures
        (m.0@, json_view(m.1)) == property_value(p@),
{
    let kind = match p.kind {
        PropertyKind::String => text("string"),
        PropertyKind::Integer => text("integer"),
    };
    let mut fields = no_members();
    add_member(&mut fields, "type", kind);
    let ghost description = p.description@;
    add_member(&mut fields, "description", owned_text(p.description));
    assert(members_view(fields@) =~= seq![
        ("type"@, jtext(kind_name(p.kind))),
        ("description"@, jtext(description)),
    ]);
    (p.name, object(fields))
}

fn tool_json(t: ToolSpec) -> (j: Json)
    ensures
        json_view(j) == tool_value(t@),
{
    let ghost tv = t@;
    let ToolSpec { name, description, properties, required } = t;
    let ghost all = properties@;
    let mut props: Vec<(String, Json)> = Vec::new();
    for p in it: properties.into_iter()
        invariant
            it.seq() == all,
            it.index() <= all.len(),
            props@.len() == it.index(),
            forall|k: int|
                0 <= k < it.index() ==> ((#[trigger] props@[k]).0@, json_view(props@[k].1))
                    == property_value(all[k]@),
    {
        assert(p == all[it.index() as int]);
        props.push(property_json(p));
    }
    let properties_object = object(props);
    assert(json_view(properties_object) == JsonV::Object(
        tv.properties.map_values(|p: PropertyV| property_value(p)),
    )) by {
        assert(members_view(props@) =~= tv.properties.map_values(|p: PropertyV| property_value(p)));
    }
    let mut schema = no_members();
    add_member(&mut schema, "type", text("object"));
    add_member(&mut schema, "properties", properties_object);
    let ghost head = members_view(schema@);
    assert(head =~= seq![
        ("type"@, jtext("object"@)),
        ("properties"@, JsonV::Object(tv.properties.map_values(|p: PropertyV| property_value(p)))),
    ]);
    match required {
        Some(names) => {
            let ghost ns = names@;
            let mut list = no_items();
            for n in it: names.into_iter()
                invariant
                    it.seq() == ns,
                    it.index() <= ns.len(),
                    items_view(list@).len() == it.index(),
                    forall|k: int| 0 <= k < it.index() ==> #[trigger] items_view(list@)[k] == jtext(ns[k]@),
            {
                assert(n == ns[it.index() as int]);
                add_item(&mut list, owned_text(n));
            }
            let req = array(list);
            assert(json_view(req) == JsonV::Array(tv.required->0.map_values(|n: Seq<char>| jtext(n)))) by {
                assert(items_view(list@) =~= tv.required->0.map_values(|n: Seq<char>| jtext(n)));
            }
            add_member(&mut schema, "required", req);
            assert(members_view(schema@) =~= head + seq![
                ("required"@, JsonV::Array(tv.required->0.map_values(|n: Seq<char>| jtext(n)))),
            ]);
        },
        None => {
            assert(members_view(schema@) =~= head + Seq::<(Seq<char>, JsonV)>::empty());
        },
    }
    let schema_object = object(schema);
    assert(json_view(schema_object) == schema_value(tv));
    let mut fields = no_members();
    add_member(&mut fields, "name", owned_text(name));
    add_member(&mut fields, "description", owned_text(description));
    add_member(&mut fields, "inputSchema", schema_object);
    assert(members_view(fields@) =~= seq![
        ("name"@, jtext(tv.name)),
        ("description"@, jtext(tv.description)),
        ("inputSchema"@, schema_value(tv)),
    ]);
    object(fields)
}

fn resource_json(r: ResourceSpec) -> (j: Json)
    ensures
        json_view(j) == resource_value(r@),
{
    let ghost rv = r@;
    let mut fields = no_members();
    add_member(&mut fields, "uri", owned_text(r.uri));
    add_member(&mut fields, "name", owned_text(r.name));
    add_member(&mut fields, "description", owned_text(r.description));
    add_member(&mut fields, "mimeType", owned_text(r.mime_type));
    assert(members_view(fields@) =~= seq![
        ("uri"@, jtext(rv.uri)),
        ("name"@, jtext(rv.name)),
        ("description"@, jtext(rv.description)),
        ("mimeType"@, jtext(rv.mime_type)),
    ]);
    object(fields)
}

fn tools_json(ts: Vec<ToolSpec>) -> (j: Json)
    ensures
        json_view(j) == JsonV::Array(
            ts@.map_values(|t: ToolSpec| t@).map_values(|t: ToolV| tool_value(t)),
        ),
{
    let ghost all = ts@;
    let mut list = no_items();
    for t in it: ts.into_iter()
        invariant
            it.seq() == all,
            it.index() <= all.len(),
            items_view(list@).len() == it.index(),
            forall|k: int| 0 <= k < it.index() ==> #[trigger] items_view(list@)[k] == tool_value(all[k]@),
    {
        assert(t == all[it.index() as int]);
        add_item(&mut list, tool_json(t));
    }
    assert(items_view(list@) =~= all.map_values(|t: ToolSpec| t@).map_values(|t: ToolV| tool_value(t)));
    array(list)
}

fn resources_json(rs: Vec<ResourceSpec>) -> (j: Json)
    ensures
        json_view(j) == JsonV::Array(
            rs@.map_values(|r: ResourceSpec| r@).map_values(|r: ResourceV| resource_value(r)),
        ),
{
    let ghost all = rs@;
    let mut list = no_items();
    for r in it: rs.into_iter()
        invariant
            it.seq() == all,
            it.index() <= all.len(),
            items_view(list@).len() == it.index(),
            forall|k: int| 0 <= k < it.index() ==> #[trigger] items_view(list@)[k] == resource_value(all[k]@),
    {
        assert(r == all[it.index() as int]);
        add_item(&mut list, resource_json(r));
    }
    assert(items_view(list@) =~= all.map_values(|r: ResourceSpec| r@).map_values(
        |r: ResourceV| resource_value(r),
    ));
    array(list)
}

fn row_json(r: HistoryRow) -> (j: Json)
    ensures
        json_view(j) == row_value(r),
{
    let ghost r0 = r;
    let mut fields = no_members();
    add_member(&mut fields, "time", owned_text(r.time));
    add_member(&mut fields, "open", r.open);
    add_member(&mut fields, "high", r.high);
    add_member(&mut fields, "low", r.low);
    add_member(&mut fields, "close", r.close);
    add_member(&mut fields, "volume", r.volume);
    add_member(&mut fields, "interest", r.interest);
    add_member(&mut fields, "market_trading_state", owned_text(r.market_trading_state));
    assert(members_view(fields@) =~= seq![
        ("time"@, jtext(r0.time@)),
        ("open"@, json_view(r0.open)),
        ("high"@, json_view(r0.high)),
        ("low"@, json_view(r0.low)),
        ("close"@, json_view(r0.close)),
        ("volume"@, json_view(r0.volume)),
        ("interest"@, json_view(r0.interest)),
        ("market_trading_state"@, jtext(r0.market_trading_state@)),
    ]);
    object(fields)
}

fn news_json(n: NewsItem) -> (j: Json)
    ensures
        json_view(j) == news_value(n@),
{
    let ghost nv = n@;
    let mut fields = no_members();
    add_member(&mut fields, "timestamp", integer(n.timestamp));
    add_member(&mut fields, "url", owned_text(n.url));
    add_member(&mut fields, "data", n.data);
    assert(members_view(fields@) =~= seq![
        ("timestamp"@, jint(nv.timestamp)),
        ("url"@, jtext(nv.url)),
        ("data"@, json_view(nv.data)),
    ]);
    object(fields)
}

fn rows_json(rows: Vec<HistoryRow>) -> (j: Json)
    ensures
        json_view(j) == JsonV::Array(rows@.map_values(|r: HistoryRow| row_value(r))),
{
    let ghost all = rows@;
    let mut list = no_items();
    for r in it: rows.into_iter()
        invariant
            it.seq() == all,
            it.index() <= all.len(),
            items_view(list@).len() == it.index(),
            forall|k: int| 0 <= k < it.index() ==> #[trigger] items_view(list@)[k] == row_value(all[k]),
    {
        assert(r == all[it.index() as int]);
        add_item(&mut list, row_json(r));
    }
    assert(items_view(list@) =~= all.map_values(|r: HistoryRow| row_value(r)));
    array(list)
}

fn news_list_json(items: Vec<NewsItem>) -> (j: Json)
    ensures
        json_view(j) == JsonV::Array(
            items@.map_values(|n: NewsItem| n@).map_values(|n: NewsItemV| news_value(n)),
        ),
{
    let ghost all = items@;
    let mut list = no_items();
    for n in it: items.into_iter()
        invariant
            it.seq() == all,
            it.index() <= all.len(),
            items_view(list@).len() == it.index(),
            forall|k: int| 0 <= k < it.index() ==> #[trigger] items_view(list@)[k] == news_value(all[k]@),
    {
        assert(n == all[it.index() as int]);
        add_item(&mut list, news_json(n));
    }
    assert(items_view(list@) =~= all.map_values(|n: NewsItem| n@).map_values(
        |n: NewsItemV| news_value(n),
    ));
    array(list)
}

fn values_json(items: Vec<Json>) -> (j: Json)
    ensures
        json_view(j) == JsonV::Array(items@.map_values(|x: Json| json_view(x))),
{
    let ghost all = items@;
    let j = array(items);
    assert(items_view(all) =~= all.map_values(|x: Json| json_view(x)));
    j
}

/// The JSON document that a tool answers with.
pub fn document_json(d: ToolDocument) -> (j: Json)
    ensures
        json_view(j) == document_value(d@),
{
    let ghost dv = d@;
    match d {
        ToolDocument::Record { timestamp, url, data, previous, next } => {
            let mut record = no_members();
            add_member(&mut record, "timestamp", integer(timestamp));
            add_member(&mut record, "url", owned_text(url));
            add_member(&mut record, "data", data);
            let ghost rm = members_view(record@);
            let mut fields = no_members();
            add_member(&mut fields, "record", object(record));
            add_member(&mut fields, "prev_timestamp", optional_integer(previous));
            add_member(&mut fields, "next_timestamp", optional_integer(next));
            proof {
                if let DocumentV::Record { timestamp: t, url: u, data: x, previous: p, next: n } = dv {
                    assert(rm =~= seq![("timestamp"@, jint(t)), ("url"@, jtext(u)), ("data"@, json_view(x))]);
                    assert(members_view(fields@) =~= seq![
                        ("record"@, JsonV::Object(rm)),
                        ("prev_timestamp"@, jopt(p)),
                        ("next_timestamp"@, jopt(n)),
                    ]);
                }
            }
            object(fields)
        },
        ToolDocument::History { symbol, table, rows } => {
            let n = rows.len();
            let mut fields = no_members();
            add_member(&mut fields, "symbol", owned_text(symbol));
            add_member(&mut fields, "table", owned_text(table));
            add_member(&mut fields, "history", rows_json(rows));
            add_member(&mut fields, "count", count(n));
            proof {
                if let DocumentV::History { symbol: sy, table: ta, rows: rs } = dv {
                    assert(members_view(fields@) =~= seq![
                        ("symbol"@, jtext(sy)),
                        ("table"@, jtext(ta)),
                        ("history"@, JsonV::Array(rs.map_values(|r: HistoryRow| row_value(r)))),
                        ("count"@, jcount(rs.len())),
                    ]);
                }
            }
            object(fields)
        },
        ToolDocument::News { items, start, end } => {
            let n = items.len();
            let mut range = no_members();
            add_member(&mut range, "start", integer(start));
            add_member(&mut range, "end", integer(end));
            let ghost rm = members_view(range@);
            let mut fields = no_members();
            add_member(&mut fields, "news", news_list_json(items));
            add_member(&mut fields, "count", count(n));
            add_member(&mut fields, "range", object(range));
            proof {
                if let DocumentV::News { items: its, start: s, end: e } = dv {
                    assert(rm =~= seq![("start"@, jint(s)), ("end"@, jint(e))]);
                    assert(members_view(fields@) =~= seq![
                        ("news"@, JsonV::Array(its.map_values(|x: NewsItemV| news_value(x)))),
                        ("count"@, jcount(its.len())),
                        ("range"@, JsonV::Object(rm)),
                    ]);
                }
            }
            object(fields)
        },
        ToolDocument::Transactions { items } => {
            let n = items.len();
            let mut fields = no_members();
            add_member(&mut fields, "transactions", values_json(items));
            add_member(&mut fields, "count", count(n));
            proof {
                if let DocumentV::Transactions { items: its } = dv {
                    assert(members_view(fields@) =~= seq![
                        ("transactions"@, JsonV::Array(its.map_values(|x: Json| json_view(x)))),
                        ("count"@, jcount(its.len())),
                    ]);
                }
            }
            object(fields)
        },
    }
}

/// The result of a method that succeeded with anything but a document.
fn result_json(o: Outcome) -> (j: Json)
    requires
        !(o is Document),
        !(o is Failure),
    ensures
        json_view(j) == result_value(o@, Seq::empty()),
{
    let ghost ov = o@;
    match o {
        Outcome::Initialized { protocol_version, server_name, server_version } => {
            let mut capabilities = no_members();
            add_member(&mut capabilities, "tools", object(no_members()));
            add_member(&mut capabilities, "resources", object(no_members()));
            let ghost cm = members_view(capabilities@);
            let mut info = no_members();
            add_member(&mut info, "name", owned_text(server_name));
            add_member(&mut info, "version", owned_text(server_version));
            let ghost im = members_view(info@);
            let mut fields = no_members();
            add_member(&mut fields, "protocolVersion", owned_text(protocol_version));
            add_member(&mut fields, "capabilities", object(capabilities));
            add_member(&mut fields, "serverInfo", object(info));
            proof {
                if let OutcomeV::Initialized { protocol_version: v, server_name: n, server_version: w } = ov {
                    assert(cm =~= seq![
                        ("tools"@, JsonV::Object(Seq::empty())),
                        ("resources"@, JsonV::Object(Seq::empty())),
                    ]);
                    assert(im =~= seq![("name"@, jtext(n)), ("version"@, jtext(w))]);
                    assert(members_view(fields@) =~= seq![
                        ("protocolVersion"@, jtext(v)),
                        ("capabilities"@, JsonV::Object(cm)),
                        ("serverInfo"@, JsonV::Object(im)),
                    ]);
                }
            }
            object(fields)
        },
        Outcome::Pong => object(no_members()),
        Outcome::Tools(ts) => {
            let mut fields = no_members();
            add_member(&mut fields, "tools", tools_json(ts));
            object(fields)
        },
        Outcome::Resources(rs) => {
            let mut fields = no_members();
            add_member(&mut fields, "resources", resources_json(rs));
            object(fields)
        },
        Outcome::ResourceText { uri, mime_type, text } => {
            let mut content = no_members();
            add_member(&mut content, "uri", owned_text(uri));
            add_member(&mut content, "mimeType", owned_text(mime_type));
            add_member(&mut content, "text", owned_text(text));
            let ghost cm = members_view(content@);
            let mut list = no_items();
            add_item(&mut list, object(content));
            let mut fields = no_members();
            add_member(&mut fields, "contents", array(list));
            proof {
                if let OutcomeV::ResourceText { uri: u, mime_type: m, text: t } = ov {
                    assert(cm =~= seq![("uri"@, jtext(u)), ("mimeType"@, jtext(m)), ("text"@, jtext(t))]);
                }
            }
            object(fields)
        },
        Outcome::Text(t) => text_content_json(t),
        Outcome::Document(_) => unreached(),
        Outcome::Failure { .. } => unreached(),
    }
}

/// The JSON-RPC frame: version `2.0`, the member `key` (the result or the
/// error), and the id where there is one.
fn frame(id: Option<Json>, key: &str, body: Json) -> (j: Json)
    ensures
        json_view(j) == JsonV::Object(
            seq![("jsonrpc"@, jtext("2.0"@)), (key@, json_view(body))] + id_member(id),
        ),
{
    let ghost idv = id;
    let mut fields = no_members();
    add_member(&mut fields, "jsonrpc", text("2.0"));
    add_member(&mut fields, key, body);
    let ghost head = members_view(fields@);
    assert(head =~= seq![("jsonrpc"@, jtext("2.0"@)), (key@, json_view(body))]);
    match id {
        Some(i) => {
            add_member(&mut fields, "id", i);
        },
        None => {},
    }
    assert(members_view(fields@) =~= head + id_member(idv));
    object(fields)
}

/// The answer to a request whose result is a tool's document printed as
/// `printed`.
pub open spec fn document_response(id: Option<Json>, printed: Seq<char>) -> JsonV {
    JsonV::Object(seq![("jsonrpc"@, jtext("2.0"@)), ("result"@, text_content(printed))] + id_member(id))
}

/// An answer, ready to print, or a tool's document that is to be printed
/// into the answer with `document_answer`.
pub enum Rendered {
    Answer(Json),
    Document { id: Option<Json>, document: Json },
}

/// The JSON document of an answer. A tool's document is handed back to be
/// printed first.
pub fn render(r: RpcResponse) -> (x: Rendered)
    ensures
        match x {
            Rendered::Answer(j) => !(r@.outcome is Document) && json_view(j) == response_value(
                r@,
                Seq::empty(),
            ),
            Rendered::Document { id, document } => id == r.id && (r@.outcome matches OutcomeV::Document(
                d,
            ) && json_view(document) == document_value(d)),
        },
{
    let ghost rv = r@;
    let RpcResponse { id, outcome } = r;
    match outcome {
        Outcome::Document(d) => Rendered::Document { id, document: document_json(d) },
        Outcome::Failure { code, message } => {
            let mut error = no_members();
            add_member(&mut error, "code", integer(code));
            add_member(&mut error, "message", owned_text(message));
            let ghost em = members_view(error@);
            let j = frame(id, "error", object(error));
            proof {
                if let OutcomeV::Failure { code: c, message: m } = rv.outcome {
                    assert(em =~= seq![("code"@, jint(c)), ("message"@, jtext(m))]);
                    let head = seq![("jsonrpc"@, jtext("2.0"@))];
                    let body = seq![("error"@, JsonV::Object(em))];
                    assert(head + body + id_member(rv.id) =~= seq![("jsonrpc"@, jtext("2.0"@)), ("error"@, JsonV::Object(em))] + id_member(rv.id));
                }
            }
            Rendered::Answer(j)
        },
        o => {
            let ghost ov = o@;
            let body = result_json(o);
            let ghost bv = json_view(body);
            let j = frame(id, "result", body);
            assert(seq![("jsonrpc"@, jtext("2.0"@))] + seq![("result"@, bv)] + id_member(rv.id) =~= seq![
                ("jsonrpc"@, jtext("2.0"@)),
                ("result"@, bv),
            ] + id_member(rv.id));
            Rendered::Answer(j)
        },
    }
}

/// The answer whose result is a tool's document, printed as `printed`.
pub fn document_answer(id: Option<Json>, printed: String) -> (j: Json)
    ensures
        json_view(j) == document_response(id, printed@),
{
    frame(id, "result", text_content_json(printed))
}

/// A tool's document is answered as its printed text, in the frame of
/// every other answer.
pub proof fn documents_are_answered_as_text(r: ResponseV, printed: Seq<char>)
    requires
        r.outcome is Document,
    ensures
        response_value(r, printed) == document_response(r.id, printed),
{
    assert(seq![("jsonrpc"@, jtext("2.0"@))] + seq![("result"@, text_content(printed))] + id_member(r.id)
        =~= seq![("jsonrpc"@, jtext("2.0"@)), ("result"@, text_content(printed))] + id_member(r.id));
}

/// The value of the first member named `key` of `members`, from position
/// `i` on.
pub open spec fn first_member(members: Seq<(Seq<char>, JsonV)>, key: Seq<char>, i: int) -> Option<JsonV>
    decreases members.len() - i,
{
    if i < 0 || i >= members.len() {
        None
    } else if members[i].0 == key {
        Some(members[i].1)
    } else {
        first_member(members, key, i + 1)
    }
}

/// The member `key` of a JSON object, as a reader of the answer finds it.
pub open spec fn member_value(o: JsonV, key: Seq<char>) -> Option<JsonV> {
    match o {
        JsonV::Object(m) => first_member(m, key, 0),
        _ => None,
    }
}

proof fn member_found_from(m: Seq<(Seq<char>, JsonV)>, key: Seq<char>, j: int, i: int)
    requires
        0 <= i <= j < m.len(),
        m[j].0 == key,
        forall|x: int| 0 <= x < j ==> m[x].0 != key,
    ensures
        first_member(m, key, i) == Some(m[j].1),
    decreases j - i,
{
    if i < j {
        member_found_from(m, key, j, i + 1);
    }
}

/// The member named `key` is found at position `j`, where the members
/// before it have other names.
proof fn member_found(m: Seq<(Seq<char>, JsonV)>, key: Seq<char>, j: int)
    requires
        0 <= j < m.len(),
        m[j].0 == key,
        forall|x: int| 0 <= x < j ==> m[x].0 != key,
    ensures
        first_member(m, key, 0) == Some(m[j].1),
{
    member_found_from(m, key, j, 0);
}

/// Each member of an answered candle carries the stored column of its name:
/// `time` the time, `open`, `high`, `low`, `close`, `volume` and `interest`
/// the prices and amounts, `market_trading_state` the state.
pub proof fn candle_members_carry_their_columns(r: HistoryRow)
    ensures
        member_value(row_value(r), "time"@) == Some(jtext(r.time@)),
        member_value(row_value(r), "open"@) == Some(json_view(r.open)),
        member_value(row_value(r), "high"@) == Some(json_view(r.high)),
        member_value(row_value(r), "low"@) == Some(json_view(r.low)),
        member_value(row_value(r), "close"@) == Some(json_view(r.close)),
        member_value(row_value(r), "volume"@) == Some(json_view(r.volume)),
        member_value(row_value(r), "interest"@) == Some(json_view(r.interest)),
        member_value(row_value(r), "market_trading_state"@) == Some(jtext(r.market_trading_state@)),
{
    let m = row_value(r)->Object_0;
    reveal_strlit("time");
    reveal_strlit("open");
    reveal_strlit("high");
    reveal_strlit("low");
    reveal_strlit("close");
    reveal_strlit("volume");
    reveal_strlit("interest");
    reveal_strlit("market_trading_state");
    assert(m[0] == ("time"@, jtext(r.time@)));
    assert(m[1] == ("open"@, json_view(r.open)));
    assert(m[2] == ("high"@, json_view(r.high)));
    assert(m[3] == ("low"@, json_view(r.low)));
    assert(m[4] == ("close"@, json_view(r.close)));
    assert(m[5] == ("volume"@, json_view(r.volume)));
    assert(m[6] == ("interest"@, json_view(r.interest)));
    assert(m[7] == ("market_trading_state"@, jtext(r.market_trading_state@)));
    member_found(m, "time"@, 0);
    assert("time"@[0] != "open"@[0]);
    member_found(m, "open"@, 1);
    assert("time"@[0] != "high"@[0]);
    assert("open"@[0] != "high"@[0]);
    member_found(m, "high"@, 2);
    assert("time"@.len() != "low"@.len());
    assert("open"@.len() != "low"@.len());
    assert("high"@.len() != "low"@.len());
    member_found(m, "low"@, 3);
    assert("time"@.len() != "close"@.len());
    assert("open"@.len() != "close"@.len());
    assert("high"@.len() != "close"@.len());
    assert("low"@.len() != "close"@.len());
    member_found(m, "close"@, 4);
    assert("time"@.len() != "volume"@.len());
    assert("open"@.len() != "volume"@.len());
    assert("high"@.len() != "volume"@.len());
    assert("low"@.len() != "volume"@.len());
    assert("close"@.len() != "volume"@.len());
    member_found(m, "volume"@, 5);
    assert("time"@.len() != "interest"@.len());
    assert("open"@.len() != "interest"@.len());
    assert("high"@.len() != "interest"@.len());
    assert("low"@.len() != "interest"@.len());
    assert("close"@.len() != "interest"@.len());
    assert("volume"@.len() != "interest"@.len());
    member_found(m, "interest"@, 6);
    assert("time"@.len() != "market_trading_state"@.len());
    assert("open"@.len() != "market_trading_state"@.len());
    assert("high"@.len() != "market_trading_state"@.len());
    assert("low"@.len() != "market_trading_state"@.len());
    assert("close"@.len() != "market_trading_state"@.len());
    assert("volume"@.len() != "market_trading_state"@.len());
    assert("interest"@.len() != "market_trading_state"@.len());
    member_found(m, "market_trading_state"@, 7);
}

/// A history answers every candle found, in order, each with its stored
/// columns, and counts them, with the symbol asked for and the table found.
pub proof fn history_document_holds_each_candle(symbol: Seq<char>, table: Seq<char>, rows: Seq<HistoryRow>)
    ensures
        ({
            let d = document_value(DocumentV::History { symbol, table, rows });
            &&& member_value(d, "symbol"@) == Some(jtext(symbol))
            &&& member_value(d, "table"@) == Some(jtext(table))
            &&& member_value(d, "count"@) == Some(jcount(rows.len()))
            &&& member_value(d, "history"@) matches Some(JsonV::Array(a)) && a.len() == rows.len()
                && forall|k: int| 0 <= k < rows.len() ==> #[trigger] a[k] == row_value(rows[k])
        }),
{
    let m = document_value(DocumentV::History { symbol, table, rows })->Object_0;
    reveal_strlit("symbol");
    reveal_strlit("table");
    reveal_strlit("history");
    reveal_strlit("count");
    assert(m[0] == ("symbol"@, jtext(symbol)));
    assert(m[1] == ("table"@, jtext(table)));
    assert(m[2] == ("history"@, JsonV::Array(rows.map_values(|r: HistoryRow| row_value(r)))));
    assert(m[3] == ("count"@, jcount(rows.len())));
    member_found(m, "symbol"@, 0);
    assert("symbol"@.len() != "table"@.len());
    member_found(m, "table"@, 1);
    assert("symbol"@.len() != "history"@.len());
    assert("table"@.len() != "history"@.len());
    member_found(m, "history"@, 2);
    assert("symbol"@.len() != "count"@.len());
    assert("table"@[0] != "count"@[0]);
    assert("history"@.len() != "count"@.len());
    member_found(m, "count"@, 3);
}

/// A news item answers the record's time, page and document.
pub proof fn news_members_carry_their_fields(n: NewsItemV)
    ensures
        member_value(news_value(n), "timestamp"@) == Some(jint(n.timestamp)),
        member_value(news_value(n), "url"@) == Some(jtext(n.url)),
        member_value(news_value(n), "data"@) == Some(json_view(n.data)),
{
    let m = news_value(n)->Object_0;
    reveal_strlit("timestamp");
    reveal_strlit("url");
    reveal_strlit("data");
    assert(m[0] == ("timestamp"@, jint(n.timestamp)));
    assert(m[1] == ("url"@, jtext(n.url)));
    assert(m[2] == ("data"@, json_view(n.data)));
    member_found(m, "timestamp"@, 0);
    assert("timestamp"@.len() != "url"@.len());
    member_found(m, "url"@, 1);
    assert("timestamp"@.len() != "data"@.len());
    assert("url"@.len() != "data"@.len());
    member_found(m, "data"@, 2);
}

/// A record answers its time, page and document under `record`, and the
/// times of the records before and after it.
pub proof fn record_document_names_its_neighbours(
    timestamp: i64,
    url: Seq<char>,
    data: Json,
    previous: Option<i64>,
    next: Option<i64>,
)
    ensures
        ({
            let d = document_value(DocumentV::Record { timestamp, url, data, previous, next });
            &&& member_value(d, "prev_timestamp"@) == Some(jopt(previous))
            &&& member_value(d, "next_timestamp"@) == Some(jopt(next))
            &&& member_value(d, "record"@) matches Some(rec) && member_value(rec, "timestamp"@)
                == Some(jint(timestamp)) && member_value(rec, "url"@) == Some(jtext(url))
                && member_value(rec, "data"@) == Some(json_view(data))
        }),
{
    let rec = JsonV::Object(
        seq![("timestamp"@, jint(timestamp)), ("url"@, jtext(url)), ("data"@, json_view(data))],
    );
    let m = document_value(DocumentV::Record { timestamp, url, data, previous, next })->Object_0;
    reveal_strlit("record");
    reveal_strlit("prev_timestamp");
    reveal_strlit("next_timestamp");
    assert(m[0] == ("record"@, rec));
    assert(m[1] == ("prev_timestamp"@, jopt(previous)));
    assert(m[2] == ("next_timestamp"@, jopt(next)));
    member_found(m, "record"@, 0);
    assert("record"@.len() != "prev_timestamp"@.len());
    member_found(m, "prev_timestamp"@, 1);
    assert("record"@.len() != "next_timestamp"@.len());
    assert("prev_timestamp"@[0] != "next_timestamp"@[0]);
    member_found(m, "next_timestamp"@, 2);
    let r = rec->Object_0;
    reveal_strlit("timestamp");
    reveal_strlit("url");
    reveal_strlit("data");
    assert(r[0] == ("timestamp"@, jint(timestamp)));
    assert(r[1] == ("url"@, jtext(url)));
    assert(r[2] == ("data"@, json_view(data)));
    member_found(r, "timestamp"@, 0);
    assert("timestamp"@.len() != "url"@.len());
    member_found(r, "url"@, 1);
    assert("timestamp"@.len() != "data"@.len());
    assert("url"@.len() != "data"@.len());
    member_found(r, "data"@, 2);
}

} // verus!
