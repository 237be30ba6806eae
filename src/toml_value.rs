//! The structured configuration documents (Cargo's TOML files), held as plain
//! values, with dotted-path lookup and the stringification of what is found.

use vstd::prelude::*;
use vstd::string::*;
use crate::text::pieces;

verus! {

/// A TOML value as this library reads it.
pub enum TomlValue {
    Text(String),
    Integer(i64),
    Boolean(bool),
    /// A float, held as the text that Rust's float formatting gives it.
    Float(String),
    /// An offset or local date-time, held as its TOML text.
    Datetime(String),
    Array(Vec<TomlValue>),
    /// The entries of a table, in the order of the document; keys are unique.
    Table(Vec<(String, TomlValue)>),
}

#[verifier::external_type_specification]
#[verifier::external_body]
pub struct ExTomlValue(toml::Value);

/// The document that `toml`'s parser builds from a text, held as a
/// `TomlValue`; `None` when the text is not a TOML document.
pub uninterp spec fn toml_document(text: Seq<char>) -> Option<TomlValue>;

/// Relies on `toml::Value`'s `FromStr` (`toml::from_str`): parses a TOML
/// document; the result depends on the text alone.
#[verifier::external_body]
pub(crate) fn parse_toml(text: &str) -> (r: Option<TomlValue>)
    ensures
        r == toml_document(text@),
{
    match text.parse::<toml::Value>() {
        Ok(v) => Some(from_toml(v)),
        Err(_) => None,
    }
}

/// Relies on `toml::Value`'s variants: moves each into the matching
/// `TomlValue`, a float as the text of its `to_string`, a date-time as the
/// text of its `to_string`.
#[verifier::external_body]
fn from_toml(v: toml::Value) -> TomlValue {
    match v {
        toml::Value::String(s) => TomlValue::Text(s),
        toml::Value::Integer(i) => TomlValue::Integer(i),
        toml::Value::Float(f) => TomlValue::Float(f.to_string()),
        toml::Value::Boolean(b) => TomlValue::Boolean(b),
        toml::Value::Datetime(d) => TomlValue::Datetime(d.to_string()),
        toml::Value::Array(items) => TomlValue::Array(items.into_iter().map(from_toml).collect()),
        toml::Value::Table(entries) => TomlValue::Table(
            entries.into_iter().map(|(k, v)| (k, from_toml(v))).collect(),
        ),
    }
}

/// The decimal digit for `d < 10`.
pub open spec fn digit_char(d: nat) -> char {
    if d == 0 {
        '0'
    } else if d == 1 {
        '1'
    } else if d == 2 {
        '2'
    } else if d == 3 {
        '3'
    } else if d == 4 {
        '4'
    } else if d == 5 {
        '5'
    } else if d == 6 {
        '6'
    } else if d == 7 {
        '7'
    } else if d == 8 {
        '8'
    } else {
        '9'
    }
}

/// The decimal digits of `n`, without leading zeros.
pub open spec fn decimal(n: nat) -> Seq<char>
    decreases n,
{
    if n < 10 {
        seq![digit_char(n)]
    } else {
        decimal(n / 10).push(digit_char(n % 10))
    }
}

/// An integer written in decimal, with a leading `-` when negative.
pub open spec fn int_text(i: int) -> Seq<char> {
    if i < 0 {
        seq!['-'] + decimal((-i) as nat)
    } else {
        decimal(i as nat)
    }
}

/// The text that a value stands for: text as it is, numbers and booleans as
/// written, arrays as the texts of their items joined with commas (items that
/// have no text are left out); tables and date-times have none.
pub open spec fn text_of(v: TomlValue) -> Option<Seq<char>>
    decreases v,
{
    match v {
        TomlValue::Text(s) => Some(s@),
        TomlValue::Integer(i) => Some(int_text(i as int)),
        TomlValue::Boolean(b) => Some(
            if b {
                seq!['t', 'r', 'u', 'e']
            } else {
                seq!['f', 'a', 'l', 's', 'e']
            },
        ),
        TomlValue::Float(t) => Some(t@),
        TomlValue::Array(items) => Some(
            match joined_texts(items@) {
                Some(t) => t,
                None => Seq::empty(),
            },
        ),
        _ => None,
    }
}

/// The texts of the items that have one, joined with commas; `None` when no
/// item has a text.
pub open spec fn joined_texts(items: Seq<TomlValue>) -> Option<Seq<char>>
    decreases items,
{
    if items.len() == 0 {
        None
    } else {
        let prev = joined_texts(items.drop_last());
        match text_of(items.last()) {
            None => prev,
            Some(t) => match prev {
                None => Some(t),
                Some(p) => Some(p + seq![','] + t),
            },
        }
    }
}

/// The value under `key` in a list of table entries: the first entry so named.
pub open spec fn entry_of(entries: Seq<(String, TomlValue)>, key: Seq<char>) -> Option<TomlValue>
    decreases entries.len(),
{
    if entries.len() == 0 {
        None
    } else if entries[0].0@ == key {
        Some(entries[0].1)
    } else {
        entry_of(entries.drop_first(), key)
    }
}

/// The child of `v` under `key`; only a table has children.
pub open spec fn child_of(v: Option<TomlValue>, key: Seq<char>) -> Option<TomlValue> {
    match v {
        Some(TomlValue::Table(entries)) => entry_of(entries@, key),
        _ => None,
    }
}

/// Following the pieces `segs` in turn from `v`.
pub open spec fn descend(v: Option<TomlValue>, segs: Seq<Seq<char>>) -> Option<TomlValue>
    decreases segs.len(),
{
    if segs.len() == 0 {
        v
    } else {
        child_of(descend(v, segs.drop_last()), segs.last())
    }
}

/// The value at the dotted path `key` in the document `doc`.
pub open spec fn value_at(doc: TomlValue, key: Seq<char>) -> Option<TomlValue> {
    descend(Some(doc), pieces(key, '.'))
}

/// The text at the dotted path `key` in `doc`, when the path is there and
/// its value has a text.
pub open spec fn text_at(doc: TomlValue, key: Seq<char>) -> Option<Seq<char>> {
    match value_at(doc, key) {
        Some(v) => text_of(v),
        None => None,
    }
}

fn append_decimal(out: &mut String, n: u64)
    ensures
        final(out)@ == old(out)@ + decimal(n as nat),
    decreases n,
{
    let digits = "0123456789";
    proof {
        reveal_strlit("0123456789");
    }
    if n >= 10 {
        append_decimal(out, n / 10);
    }
    let d = (n % 10) as usize;
    let piece = digits.substring_char(d, d + 1);
    assert(piece@ =~= seq![digit_char(d as nat)]);
    out.append(piece);
    proof {
        if n >= 10 {
            assert(final(out)@ =~= old(out)@ + decimal(n as nat));
        } else {
            assert(final(out)@ =~= old(out)@ + decimal(n as nat));
        }
    }
}

/// An integer in decimal, as `i64::to_string` writes it.
pub fn integer_text(i: i64) -> (r: String)
    ensures
        r@ == int_text(i as int),
{
    let mut out = String::new();
    if i < 0 {
        out.append("-");
        proof {
            reveal_strlit("-");
        }
        let magnitude = (0i128 - i as i128) as u64;
        append_decimal(&mut out, magnitude);
        assert(out@ =~= int_text(i as int));
    } else {
        append_decimal(&mut out, i as u64);
        assert(out@ =~= int_text(i as int));
    }
    out
}

/// The value under `key` among the entries of a table.
fn entry<'a>(entries: &'a Vec<(String, TomlValue)>, key: &String) -> (r: Option<&'a TomlValue>)
    ensures
        match r {
            Some(v) => entry_of(entries@, key@) == Some(*v),
            None => entry_of(entries@, key@) is None,
        },
{
    let n = entries.len();
    let mut i: usize = 0;
    assert(entries@.subrange(0, n as int) =~= entries@);
    while i < n
        invariant
            n == entries@.len(),
            i <= n,
            entry_of(entries@, key@) == entry_of(entries@.subrange(i as int, n as int), key@),
        decreases n - i,
    {
        assert(entries@.subrange(i as int, n as int).drop_first() =~= entries@.subrange(
            i + 1,
            n as int,
        ));
        if entries[i].0 == *key {
            return Some(&entries[i].1);
        }
        i = i + 1;
    }
    None
}

fn child<'a>(v: Option<&'a TomlValue>, key: &String) -> (r: Option<&'a TomlValue>)
    ensures
        match r {
            Some(c) => child_of(
                match v {
                    Some(x) => Some(*x),
                    None => None,
                },
                key@,
            ) == Some(*c),
            None => child_of(
                match v {
                    Some(x) => Some(*x),
                    None => None,
                },
                key@,
            ) is None,
        },
{
    match v {
        Some(TomlValue::Table(entries)) => entry(entries, key),
        _ => None,
    }
}

/// The value at the dotted path `key` in `doc`.
pub fn lookup<'a>(doc: &'a TomlValue, key: &str) -> (r: Option<&'a TomlValue>)
    ensures
        match r {
            Some(v) => value_at(*doc, key@) == Some(*v),
            None => value_at(*doc, key@) is None,
        },
{
    let n = key.unicode_len();
    let mut cur: Option<&TomlValue> = Some(doc);
    let mut piece = String::new();
    let ghost mut done: Seq<Seq<char>> = Seq::empty();
    let mut i: usize = 0;
    while i < n
        invariant
            n == key@.len(),
            i <= n,
            pieces(key@.subrange(0, i as int), '.') == done.push(piece@),
            match cur {
                Some(x) => descend(Some(*doc), done) == Some(*x),
                None => descend(Some(*doc), done) is None,
            },
        decreases n - i,
    {
        let c = key.get_char(i);
        let ch = key.substring_char(i, i + 1);
        let ghost pre = key@.subrange(0, i as int);
        assert(key@.subrange(0, i + 1).drop_last() =~= pre);
        if c == '.' {
            cur = child(cur, &piece);
            proof {
                assert(done.push(piece@).drop_last() =~= done);
                done = done.push(piece@);
            }
            piece = String::new();
            assert(pieces(key@.subrange(0, i + 1), '.') =~= done.push(piece@));
        } else {
            assert(ch@ =~= seq![c]);
            let ghost old_piece = piece@;
            piece.append(ch);
            assert(key@.subrange(0, i + 1).last() == c);
            assert(piece@ =~= old_piece.push(c));
            assert(pieces(key@.subrange(0, i + 1), '.') =~= done.push(piece@));
        }
        i = i + 1;
    }
    assert(key@.subrange(0, n as int) =~= key@);
    let r = child(cur, &piece);
    assert(done.push(piece@).drop_last() =~= done);
    r
}

/// The text that a value stands for.
pub fn to_text(v: &TomlValue) -> (r: Option<String>)
    ensures
        match r {
            Some(s) => text_of(*v) == Some(s@),
            None => text_of(*v) is None,
        },
    decreases v,
{
    match v {
        TomlValue::Text(s) => Some(s.clone()),
        TomlValue::Integer(i) => Some(integer_text(*i)),
        TomlValue::Boolean(b) => {
            if *b {
                proof {
                    reveal_strlit("true");
                }
                Some(String::from_str("true"))
            } else {
                proof {
                    reveal_strlit("false");
                }
                Some(String::from_str("false"))
            }
        },
        TomlValue::Float(t) => Some(t.clone()),
        TomlValue::Datetime(_) => None,
        TomlValue::Table(_) => None,
        TomlValue::Array(items) => {
            let n = items.len();
            let mut out = String::new();
            let mut any = false;
            let mut i: usize = 0;
            while i < n
                invariant
                    *v == TomlValue::Array(*items),
                    n == items@.len(),
                    i <= n,
                    joined_texts(items@.subrange(0, i as int)) == (if any {
                        Some(out@)
                    } else {
                        None
                    }),
                    !any ==> out@ == Seq::<char>::empty(),
                decreases n - i,
            {
                assert(items@.subrange(0, i + 1).drop_last() =~= items@.subrange(0, i as int));
                proof {
                    broadcast use vstd::std_specs::vec::axiom_vec_decreases_to_view;
                    broadcast use vstd::seq::axiom_seq_index_decreases;
                    assert(decreases_to!(*v => (*v)->Array_0));
                    assert(decreases_to!(items => items@));
                    assert(decreases_to!(items@ => items@[i as int]));
                    assert(decreases_to!(*v => items@[i as int]));
                }
                match to_text(&items[i]) {
                    Some(t) => {
                        if any {
                            proof {
                                reveal_strlit(",");
                            }
                            out.append(",");
                        }
                        out.append(t.as_str());
                        any = true;
                    },
                    None => {},
                }
                i = i + 1;
            }
            assert(items@.subrange(0, n as int) =~= items@);
            Some(out)
        },
    }
}

/// The text at the dotted path `key` in `doc`.
pub fn get_text(doc: &TomlValue, key: &str) -> (r: Option<String>)
    ensures
        match r {
            Some(s) => text_at(*doc, key@) == Some(s@),
            None => text_at(*doc, key@) is None,
        },
{
    match lookup(doc, key) {
        Some(v) => to_text(v),
        None => None,
    }
}

} // verus!
