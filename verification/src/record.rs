//! Record identifiers (`table:key`) as the database names its rows, their
//! textual ("raw") form, and the database timestamps that messages carry.

use vstd::prelude::*;

verus! {

/// The key part of a record identifier.
#[derive(Debug, PartialEq, Eq)]
pub enum RecordKey {
    /// An integer key, as in `user:42`.
    Number(i64),
    /// A textual key, as in `user:john`.
    Text(String),
    /// An array, object or generated key, held as the text the database
    /// writes for it, as in `temperature:['London', 2024]`.
    Composite(String),
}

/// A record identifier: the table it lives in and its key within that table.
#[derive(Debug, PartialEq, Eq)]
pub struct RecordId {
    pub tb: String,
    pub id: RecordKey,
}

impl Clone for RecordKey {
    fn clone(&self) -> (r: Self)
        ensures
            r == *self,
    {
        match self {
            RecordKey::Number(n) => RecordKey::Number(*n),
            RecordKey::Text(t) => RecordKey::Text(t.clone()),
            RecordKey::Composite(k) => RecordKey::Composite(k.clone()),
        }
    }
}

impl Clone for RecordId {
    fn clone(&self) -> (r: Self)
        ensures
            r == *self,
    {
        RecordId { tb: self.tb.clone(), id: self.id.clone() }
    }
}

/// Declares the database's timestamp type, which messages carry through
/// unread.
#[verifier::external_type_specification]
#[verifier::external_body]
pub struct ExDatetime(surrealdb::sql::Datetime);

/// A character that may stand in an unescaped table name or key:
/// an ASCII letter, an ASCII digit or `_`.
pub open spec fn is_rid_char(c: char) -> bool {
    ||| ('a' <= c && c <= 'z')
    ||| ('A' <= c && c <= 'Z')
    ||| ('0' <= c && c <= '9')
    ||| c == '_'
}

pub open spec fn is_ascii_digit(c: char) -> bool {
    '0' <= c && c <= '9'
}

/// A table name or textual key is written inside `⟨ ⟩` when it holds a
/// character other than ASCII letters, digits and `_`, or when it is made of
/// digits only (the empty text included).
pub open spec fn needs_brackets(s: Seq<char>) -> bool {
    (exists|i: int| 0 <= i < s.len() && !is_rid_char(#[trigger] s[i]))
        || (forall|i: int| 0 <= i < s.len() ==> is_ascii_digit(#[trigger] s[i]))
}

/// Inside the brackets a closing bracket `⟩` is written as `\⟩`.
pub open spec fn escape_closing(s: Seq<char>) -> Seq<char>
    decreases s.len(),
{
    if s.len() == 0 {
        Seq::empty()
    } else {
        (if s[0] == '\u{27E9}' {
            seq!['\\', '\u{27E9}']
        } else {
            seq![s[0]]
        }) + escape_closing(s.drop_first())
    }
}

/// How a table name or a textual key is written in a raw record identifier.
pub open spec fn escape_rid(s: Seq<char>) -> Seq<char> {
    if needs_brackets(s) {
        seq!['\u{27E8}'] + escape_closing(s) + seq!['\u{27E9}']
    } else {
        s
    }
}

pub open spec fn digit_char(d: nat) -> char
    recommends
        d < 10,
{
    (48 + d) as char
}

/// The decimal digits of a natural number, most significant first.
pub open spec fn digits(n: nat) -> Seq<char>
    decreases n,
{
    if n < 10 {
        seq![digit_char(n)]
    } else {
        digits(n / 10) + seq![digit_char(n % 10)]
    }
}

/// An integer in decimal, with a leading `-` when it is negative.
pub open spec fn decimal(n: int) -> Seq<char> {
    if n < 0 {
        seq!['-'] + digits((-n) as nat)
    } else {
        digits(n as nat)
    }
}

/// How a key is written in a raw record identifier.
pub open spec fn key_raw(k: RecordKey) -> Seq<char> {
    match k {
        RecordKey::Number(n) => decimal(n as int),
        RecordKey::Text(t) => escape_rid(t@),
        RecordKey::Composite(k) => k@,
    }
}

/// The raw form of a record identifier: `table:key`, each part escaped.
pub open spec fn record_raw(r: RecordId) -> Seq<char> {
    escape_rid(r.tb@) + seq![':'] + key_raw(r.id)
}

/// Calls `surrealdb::sql::Thing::to_raw` on the identifier made of `rid`'s
/// table and its number or textual key. Its source writes `{table}:{key}`,
/// the table through `escape_rid`, a textual key through `escape_rid` and a
/// number key by its `Display`; `escape_rid` brackets a text that holds a
/// byte other than an ASCII letter, digit or `_`, or that holds digits only,
/// and writes `⟩` as `\⟩` inside. The contract states that as `record_raw`.
/// A composite key is never passed: the library holds it only as text, from
/// which no outside key can be built without parsing.
#[verifier::external_body]
fn thing_to_raw(rid: &RecordId) -> (raw: String)
    requires
        !(rid.id is Composite),
    ensures
        raw@ == record_raw(*rid),
{
    let id = match &rid.id {
        RecordKey::Number(n) => surrealdb::sql::Id::Number(*n),
        RecordKey::Text(t) | RecordKey::Composite(t) => surrealdb::sql::Id::String(t.clone()),
    };
    surrealdb::sql::Thing::from((rid.tb.as_str(), id)).to_raw()
}

/// Calls the `Display` of `surrealdb::sql::Id::String(s)`, which writes
/// `escape_rid(s)` (the same escaping `Thing::to_raw` applies to a table
/// name); the contract states that as `escape_rid`.
#[verifier::external_body]
fn escaped_name(s: &str) -> (escaped: String)
    ensures
        escaped@ == escape_rid(s@),
{
    surrealdb::sql::Id::String(s.to_owned()).to_string()
}

impl RecordId {
    /// A record identifier with a textual key.
    pub fn from_parts(tb: &str, id: &str) -> (r: RecordId)
        ensures
            r.tb@ == tb@,
            r.id matches RecordKey::Text(t) && t@ == id@,
    {
        RecordId { tb: tb.to_owned(), id: RecordKey::Text(id.to_owned()) }
    }

    /// The raw text of this identifier, `table:key`.
    pub fn to_raw(&self) -> (raw: String)
        ensures
            raw@ == record_raw(*self),
    {
        match &self.id {
            RecordKey::Composite(key) => {
                let raw = escaped_name(self.tb.as_str()).concat(":").concat(key.as_str());
                proof {
                    reveal_strlit(":");
                }
                raw
            },
            _ => thing_to_raw(self),
        }
    }
}

} // verus!
