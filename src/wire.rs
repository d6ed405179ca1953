//! The JSON-shaped value that documents take on the wire and in the store.
use vstd::prelude::*;
use crate::text::parsed_u32;
use crate::text::parse_u32;

verus! {

/// A JSON-compatible value. Object members keep the order in which they were
/// written; a lookup takes the first member with the key asked for.
#[derive(Debug, PartialEq)]
pub enum WireValue {
    Null,
    Bool(bool),
    Integer(i64),
    /// A number with a fractional part or an exponent, as written.
    Decimal(String),
    Text(String),
    List(Vec<WireValue>),
    Object(Vec<(String, WireValue)>),
}

/// The value of the first member of `fs` whose key is `key`.
pub open spec fn field_of(fs: Seq<(String, WireValue)>, key: Seq<char>) -> Option<WireValue>
    decreases fs.len(),
{
    if fs.len() == 0 {
        None
    } else if fs[0].0@ == key {
        Some(fs[0].1)
    } else {
        field_of(fs.drop_first(), key)
    }
}

/// Where member `i` is the first with key `key`, the lookup finds it.
pub proof fn lemma_field_of_first(fs: Seq<(String, WireValue)>, key: Seq<char>, i: int)
    requires
        0 <= i < fs.len(),
        fs[i].0@ == key,
        forall|j: int| 0 <= j < i ==> fs[j].0@ != key,
    ensures
        field_of(fs, key) == Some(fs[i].1),
    decreases i,
{
    if i > 0 {
        lemma_field_of_first(fs.drop_first(), key, i - 1);
    }
}

/// Where no member has key `key`, the lookup finds nothing.
pub proof fn lemma_field_of_absent(fs: Seq<(String, WireValue)>, key: Seq<char>)
    requires
        forall|j: int| 0 <= j < fs.len() ==> fs[j].0@ != key,
    ensures
        field_of(fs, key) is None,
    decreases fs.len(),
{
    if fs.len() > 0 {
        lemma_field_of_absent(fs.drop_first(), key);
    }
}

/// An integer that fits in a `u32`.
pub open spec fn u32_of(w: WireValue) -> Option<u32> {
    match w {
        WireValue::Integer(n) => if 0 <= n <= u32::MAX {
            Some(n as u32)
        } else {
            None
        },
        _ => None,
    }
}

/// An identifier: an integer that fits in a `u32`, or a numeral in a string.
pub open spec fn id_of(w: WireValue) -> Option<u32> {
    match w {
        WireValue::Text(s) => parsed_u32(s@),
        _ => u32_of(w),
    }
}

/// The text held by a string value.
pub open spec fn text_of(w: WireValue) -> Option<String> {
    match w {
        WireValue::Text(s) => Some(s),
        _ => None,
    }
}

/// Looks up the first member of `fs` with key `key`.
pub fn field<'a>(fs: &'a Vec<(String, WireValue)>, key: &str) -> (r: Option<&'a WireValue>)
    ensures
        match r {
            Some(v) => field_of(fs@, key@) == Some(*v),
            None => field_of(fs@, key@) is None,
        },
{
    let k = String::from_str(key);
    let mut i: usize = 0;
    assert(fs@.subrange(0, fs@.len() as int) =~= fs@);
    while i < fs.len()
        invariant
            i <= fs@.len(),
            k@ == key@,
            field_of(fs@, key@) == field_of(fs@.subrange(i as int, fs@.len() as int), key@),
        decreases fs.len() - i,
    {
        let ghost rest = fs@.subrange(i as int, fs@.len() as int);
        assert(rest.drop_first() =~= fs@.subrange(i + 1, fs@.len() as int));
        if fs[i].0 == k {
            return Some(&fs[i].1);
        }
        i = i + 1;
    }
    None
}

/// Reads a `u32`: an integer in range.
pub fn read_u32(w: &WireValue) -> (r: Option<u32>)
    ensures
        r == u32_of(*w),
{
    match w {
        WireValue::Integer(n) => if 0 <= *n && *n <= u32::MAX as i64 {
            Some(*n as u32)
        } else {
            None
        },
        _ => None,
    }
}

/// Reads an identifier, which the user interface writes as a number and the
/// store as a string of digits.
pub fn read_id(w: &WireValue) -> (r: Option<u32>)
    ensures
        r == id_of(*w),
{
    match w {
        WireValue::Text(s) => parse_u32(s.as_str()),
        _ => read_u32(w),
    }
}

/// Reads the text of a string value.
pub fn read_text(w: &WireValue) -> (r: Option<String>)
    ensures
        r == text_of(*w),
{
    match w {
        WireValue::Text(s) => Some(s.clone()),
        _ => None,
    }
}

} // verus!
