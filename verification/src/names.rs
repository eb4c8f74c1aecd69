//! Names that the receiver writes into SQL text: capture targets, which must
//! be plain identifiers, and stock symbols, whose separators become `_`.
use vstd::prelude::*;

verus! {

/// Whether a string is the literal `lit`.
pub fn is_literal(s: &String, lit: &str) -> (b: bool)
    ensures
        b == (s@ == lit@),
{
    *s == String::from_str(lit)
}

/// An ASCII letter, an ASCII digit or `_`.
pub open spec fn is_name_char(c: char) -> bool {
    ('a' <= c && c <= 'z') || ('A' <= c && c <= 'Z') || ('0' <= c && c <= '9') || c == '_'
}

/// A name that may stand in SQL text as a table name: not empty, and made of
/// ASCII letters, ASCII digits and `_` only.
pub open spec fn is_table_name(s: Seq<char>) -> bool {
    s.len() > 0 && forall|i: int| 0 <= i < s.len() ==> is_name_char(#[trigger] s[i])
}

/// Whether `c` may stand in a table name.
pub fn name_char(c: char) -> (b: bool)
    ensures
        b == is_name_char(c),
{
    ('a' <= c && c <= 'z') || ('A' <= c && c <= 'Z') || ('0' <= c && c <= '9') || c == '_'
}

/// Whether `name` is accepted as a capture target or queried table: it is
/// not empty and every character is an ASCII letter, an ASCII digit or `_`.
pub fn is_valid_table_name(name: &str) -> (b: bool)
    ensures
        b == is_table_name(name@),
{
    let n = name.unicode_len();
    if n == 0 {
        return false;
    }
    let mut i: usize = 0;
    while i < n
        invariant
            n == name@.len(),
            i <= n,
            forall|j: int| 0 <= j < i ==> is_name_char(#[trigger] name@[j]),
        decreases n - i,
    {
        let c = name.get_char(i);
        if !name_char(c) {
            return false;
        }
        i = i + 1;
    }
    true
}

/// A character that separates the parts of a stock symbol (`AMD:xnas`,
/// `BRK.B`, `RDS-A`).
pub open spec fn is_symbol_separator(c: char) -> bool {
    c == ':' || c == '.' || c == '-'
}

/// The table name of a stock symbol: each `:`, `.` and `-` becomes `_`, and
/// every other character stays as it is.
pub open spec fn symbol_table(s: Seq<char>) -> Seq<char> {
    Seq::new(s.len(), |i: int| if is_symbol_separator(s[i]) { '_' } else { s[i] })
}

/// Appends `c` to `s` by `String::push`. Its contract claims, as std
/// documents, that afterwards the string holds the characters it held,
/// followed by `c`.
#[verifier::external_body]
pub(crate) fn push_char(s: &mut String, c: char)
    ensures
        final(s)@ == old(s)@.push(c),
{
    s.push(c)
}

/// The table that holds the chart of `symbol`: `symbol` with each `:`, `.`
/// and `-` replaced by `_`.
pub fn symbol_table_name(symbol: &str) -> (r: String)
    ensures
        r@ == symbol_table(symbol@),
{
    let n = symbol.unicode_len();
    let mut out = String::new();
    let mut i: usize = 0;
    while i < n
        invariant
            n == symbol@.len(),
            i <= n,
            out@ =~= symbol_table(symbol@).subrange(0, i as int),
        decreases n - i,
    {
        let c = symbol.get_char(i);
        if c == ':' || c == '.' || c == '-' {
            push_char(&mut out, '_');
        } else {
            push_char(&mut out, c);
        }
        i = i + 1;
    }
    out
}

/// The table name of a stock symbol keeps the symbol's length and holds no
/// separator; naming a table a second time changes nothing.
pub proof fn symbol_table_laws(s: Seq<char>)
    ensures
        symbol_table(s).len() == s.len(),
        forall|i: int| 0 <= i < s.len() ==> !is_symbol_separator(#[trigger] symbol_table(s)[i]),
        forall|i: int| 0 <= i < s.len() && !is_symbol_separator(s[i]) ==> #[trigger] symbol_table(s)[i] == s[i],
        symbol_table(symbol_table(s)) =~= symbol_table(s),
{
}

/// A symbol made of letters, digits, `_` and separators names a table that
/// is a valid table name.
pub proof fn symbol_table_is_table_name(s: Seq<char>)
    requires
        s.len() > 0,
        forall|i: int| 0 <= i < s.len() ==> is_name_char(#[trigger] s[i]) || is_symbol_separator(s[i]),
    ensures
        is_table_name(symbol_table(s)),
{
    assert forall|i: int| 0 <= i < symbol_table(s).len() implies is_name_char(#[trigger] symbol_table(s)[i]) by {
        assert(is_name_char(s[i]) || is_symbol_separator(s[i]));
    }
}

/// `s` with each `"` doubled, as it stands between the quotes of a quoted
/// SQL name.
pub open spec fn double_quotes(s: Seq<char>) -> Seq<char>
    decreases s.len(),
{
    if s.len() == 0 {
        Seq::empty()
    } else {
        double_quotes(s.drop_last()) + if s.last() == '"' {
            seq!['"', '"']
        } else {
            seq![s.last()]
        }
    }
}

/// `name` as a quoted SQL name: it names the table `name`, whatever
/// characters it holds.
pub open spec fn quoted_name(name: Seq<char>) -> Seq<char> {
    seq!['"'] + double_quotes(name) + seq!['"']
}

/// The quoted SQL name of `name`.
pub fn quote_name(name: &str) -> (r: String)
    ensures
        r@ == quoted_name(name@),
{
    let n = name.unicode_len();
    let mut out = String::new();
    push_char(&mut out, '"');
    let mut i: usize = 0;
    while i < n
        invariant
            n == name@.len(),
            i <= n,
            out@ =~= seq!['"'] + double_quotes(name@.subrange(0, i as int)),
        decreases n - i,
    {
        let c = name.get_char(i);
        assert(name@.subrange(0, i + 1).drop_last() =~= name@.subrange(0, i as int));
        if c == '"' {
            push_char(&mut out, '"');
            push_char(&mut out, '"');
        } else {
            push_char(&mut out, c);
        }
        i = i + 1;
    }
    assert(name@.subrange(0, n as int) =~= name@);
    push_char(&mut out, '"');
    out
}

} // verus!
