//! Record identifiers written as one string, `table:key`.

use vstd::prelude::*;
use vstd::string::*;

use crate::record::{is_rid_char, needs_brackets, record_raw, RecordId, RecordKey};

verus! {

/// Why a string could not be read as a record identifier.
#[derive(Clone, Copy, Debug, PartialEq, Eq)]
pub enum ParseRecordError {
    /// The string does not hold exactly one `:`.
    InvalidString,
}

impl ParseRecordError {
    /// The text that a reader reports for this error.
    pub fn message(&self) -> (m: &'static str)
        ensures
            m@ == "invalid string"@,
    {
        match self {
            ParseRecordError::InvalidString => "invalid string",
        }
    }
}

/// `k` is the position of the one and only `:` in `s`.
pub open spec fn is_sole_colon(s: Seq<char>, k: int) -> bool {
    &&& 0 <= k < s.len()
    &&& s[k] == ':'
    &&& forall|j: int| 0 <= j < s.len() && j != k ==> #[trigger] s[j] != ':'
}

/// Splitting `s` at every `:` gives exactly two parts: the text before the
/// colon and the text after it.
pub open spec fn split_pair(s: Seq<char>) -> Option<(Seq<char>, Seq<char>)> {
    if exists|k: int| is_sole_colon(s, k) {
        let k = choose|k: int| is_sole_colon(s, k);
        Some((s.subrange(0, k), s.subrange(k + 1, s.len() as int)))
    } else {
        None
    }
}

proof fn lemma_sole_colon_unique(s: Seq<char>, k: int)
    requires
        is_sole_colon(s, k),
    ensures
        split_pair(s) == Some((s.subrange(0, k), s.subrange(k + 1, s.len() as int))),
{
    let c = choose|c: int| is_sole_colon(s, c);
    assert(is_sole_colon(s, c));
    if c != k {
        assert(s[k] != ':');
    }
}

/// Reads `table:key` as the record identifier with that table and that
/// textual key. A string that does not split at `:` into exactly two parts is
/// refused.
pub fn deserialize(value: &str) -> (r: Result<RecordId, ParseRecordError>)
    ensures
        r is Ok <==> split_pair(value@) is Some,
        r matches Ok(t) ==> (t.id matches RecordKey::Text(key) && split_pair(value@) == Some(
            (t.tb@, key@),
        )),
        r matches Err(e) ==> e == ParseRecordError::InvalidString,
{
    let n = value.unicode_len();
    let mut colon: Option<usize> = None;
    let mut i: usize = 0;
    while i < n
        invariant
            n == value@.len(),
            i <= n,
            colon matches None ==> forall|j: int| 0 <= j < i ==> #[trigger] value@[j] != ':',
            colon matches Some(k) ==> {
                &&& k < i
                &&& value@[k as int] == ':'
                &&& forall|j: int| 0 <= j < i && j != k ==> #[trigger] value@[j] != ':'
            },
        decreases n - i,
    {
        let c = value.get_char(i);
        if c == ':' {
            if let Some(k) = colon {
                proof {
                    assert forall|m: int| !is_sole_colon(value@, m) by {
                        if is_sole_colon(value@, m) {
                            if m == k as int {
                                assert(value@[i as int] == ':');
                            } else {
                                assert(value@[k as int] == ':');
                            }
                        }
                    }
                }
                return Err(ParseRecordError::InvalidString);
            }
            colon = Some(i);
        }
        i = i + 1;
    }
    match colon {
        None => {
            proof {
                assert forall|m: int| !is_sole_colon(value@, m) by {
                    if is_sole_colon(value@, m) {
                        assert(value@[m] == ':');
                    }
                }
            }
            Err(ParseRecordError::InvalidString)
        },
        Some(k) => {
            proof {
                lemma_sole_colon_unique(value@, k as int);
            }
            let tb = value.substring_char(0, k);
            let key = value.substring_char(k + 1, n);
            Ok(RecordId { tb: tb.to_owned(), id: RecordKey::Text(key.to_owned()) })
        },
    }
}

/// A table and a key that hold no `:`, joined by one `:`, read back as that
/// table and that key; a text without any `:` is refused.
pub proof fn lemma_reads_table_before_key(tb: Seq<char>, key: Seq<char>)
    ensures
        (forall|i: int| 0 <= i < tb.len() ==> tb[i] != ':') && (forall|i: int|
            0 <= i < key.len() ==> key[i] != ':') ==> split_pair(tb + seq![':'] + key) == Some(
            (tb, key),
        ),
        (forall|i: int| 0 <= i < tb.len() ==> tb[i] != ':') ==> split_pair(tb) is None,
{
    let s = tb + seq![':'] + key;
    let p = tb.len() as int;
    if (forall|i: int| 0 <= i < tb.len() ==> tb[i] != ':') && (forall|i: int|
        0 <= i < key.len() ==> key[i] != ':') {
        assert forall|j: int| 0 <= j < s.len() && j != p implies #[trigger] s[j] != ':' by {
            if j < p {
                assert(s[j] == tb[j]);
            } else {
                assert(s[j] == key[j - p - 1]);
            }
        }
        assert(is_sole_colon(s, p));
        lemma_sole_colon_unique(s, p);
        assert(s.subrange(0, p) =~= tb);
        assert(s.subrange(p + 1, s.len() as int) =~= key);
    }
    if forall|i: int| 0 <= i < tb.len() ==> tb[i] != ':' {
        assert forall|m: int| !is_sole_colon(tb, m) by {
            if is_sole_colon(tb, m) {
                assert(tb[m] == ':');
            }
        }
    }
}

/// Writing a record identifier whose table and textual key need no brackets,
/// and reading the text back, gives that table and that key.
pub proof fn lemma_serialize_then_deserialize(t: RecordId)
    requires
        !needs_brackets(t.tb@),
        t.id matches RecordKey::Text(k) && !needs_brackets(k@),
    ensures
        t.id matches RecordKey::Text(k) && split_pair(record_raw(t)) == Some((t.tb@, k@)),
{
    let k = t.id->Text_0;
    let tb = t.tb@;
    let s = record_raw(t);
    assert(s == tb + seq![':'] + k@);
    let p = tb.len() as int;
    assert forall|j: int| 0 <= j < s.len() && j != p implies #[trigger] s[j] != ':' by {
        if j < p {
            assert(s[j] == tb[j]);
            assert(is_rid_char(tb[j]));
        } else {
            assert(s[j] == k@[j - p - 1]);
            assert(is_rid_char(k@[j - p - 1]));
        }
    }
    assert(is_sole_colon(s, p));
    lemma_sole_colon_unique(s, p);
    assert(s.subrange(0, p) =~= tb);
    assert(s.subrange(p + 1, s.len() as int) =~= k@);
}

/// A string that splits at its one `:` into a table and a key that need no
/// brackets is exactly the text written for the identifier read from it.
pub proof fn lemma_deserialize_then_serialize(s: Seq<char>, t: RecordId)
    requires
        t.id matches RecordKey::Text(k) && split_pair(s) == Some((t.tb@, k@)),
        !needs_brackets(t.tb@),
        t.id matches RecordKey::Text(k) && !needs_brackets(k@),
    ensures
        record_raw(t) == s,
{
    let k = choose|k: int| is_sole_colon(s, k);
    assert(s =~= s.subrange(0, k) + seq![':'] + s.subrange(k + 1, s.len() as int));
}

/// Writes a record identifier as one string: its raw form `table:key`.
pub fn serialize(thing: &RecordId) -> (s: String)
    ensures
        s@ == record_raw(*thing),
{
    thing.to_raw()
}

} // verus!
