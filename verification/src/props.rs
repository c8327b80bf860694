//! The decoder's heterogeneous property list: an ordered sequence of
//! (name, tagged value) pairs, keys neither unique nor guaranteed present,
//! and defensive typed accessors over it.
//!
//! Fractional scalars are carried in fixed point as thousandths of a unit
//! ("millis"), so the whole pipeline stays in integer arithmetic.

use vstd::prelude::*;

verus! {

/// One tagged value of a property list.
pub enum PropValue {
    Str(String),
    Int(i32),
    /// A fractional scalar, in thousandths (value * 1000).
    Float(i64),
    Bool(bool),
    QWord(u64),
    /// An enumerated byte: the enumeration's name and the chosen label.
    Byte { kind: String, label: Option<String> },
    Name(String),
    /// An array of property lists (one per record).
    Array(Vec<Vec<(String, PropValue)>>),
    /// A nested record with its own property list.
    Struct { name: String, fields: Vec<(String, PropValue)> },
}

/// An ordered property list as the decoder hands it over.
pub type PropList = Vec<(String, PropValue)>;

/// First-match lookup over the ordered list: duplicate keys are possible,
/// the first occurrence wins.
pub open spec fn spec_lookup(props: Seq<(String, PropValue)>, key: Seq<char>) -> Option<PropValue>
    decreases props.len(),
{
    if props.len() == 0 {
        None
    } else if props[0].0@ == key {
        Some(props[0].1)
    } else {
        spec_lookup(props.drop_first(), key)
    }
}

/// Find the first entry whose key matches; `None` when no key matches.
pub fn lookup<'a>(props: &'a PropList, key: &str) -> (r: Option<&'a PropValue>)
    ensures
        match r {
            Some(v) => spec_lookup(props@, key@) == Some(*v),
            None => spec_lookup(props@, key@) is None,
        },
{
    let key_owned: String = key.to_owned();
    let n = props.len();
    let mut i: usize = 0;
    proof {
        assert(props@.skip(0) =~= props@);
    }
    while i < n
        invariant
            i <= n,
            n == props@.len(),
            key_owned@ == key@,
            spec_lookup(props@, key@) == spec_lookup(props@.skip(i as int), key@),
        decreases n - i,
    {
        proof {
            assert(props@.skip(i as int)[0] == props@[i as int]);
            assert(props@.skip(i as int).drop_first() =~= props@.skip(i as int + 1));
        }
        if props[i].0 == key_owned {
            return Some(&props[i].1);
        }
        i = i + 1;
    }
    proof {
        assert(props@.skip(n as int) =~= Seq::<(String, PropValue)>::empty());
    }
    None
}

/// The string a lookup yields: string- and name-tagged values qualify,
/// anything else (or absence) degrades to the caller's default.
pub open spec fn spec_get_string(
    props: Seq<(String, PropValue)>,
    key: Seq<char>,
    default: Seq<char>,
) -> Seq<char> {
    match spec_lookup(props, key) {
        Some(PropValue::Str(s)) => s@,
        Some(PropValue::Name(s)) => s@,
        _ => default,
    }
}

/// The integer a lookup yields; absence and tag mismatch give 0.
pub open spec fn spec_get_i32(props: Seq<(String, PropValue)>, key: Seq<char>) -> i32 {
    match spec_lookup(props, key) {
        Some(PropValue::Int(i)) => i,
        _ => 0,
    }
}

/// The fixed-point scalar a lookup yields, in thousandths. An integer-tagged
/// value is accepted where a fractional one is requested (widened); absence
/// and any other tag give 0.
pub open spec fn spec_get_millis(props: Seq<(String, PropValue)>, key: Seq<char>) -> i64 {
    match spec_lookup(props, key) {
        Some(PropValue::Float(m)) => m,
        Some(PropValue::Int(i)) => (i * 1000) as i64,
        _ => 0,
    }
}

/// The record array a lookup yields; absence and tag mismatch give the
/// empty array.
pub open spec fn spec_get_array(
    props: Seq<(String, PropValue)>,
    key: Seq<char>,
) -> Seq<Vec<(String, PropValue)>> {
    match spec_lookup(props, key) {
        Some(PropValue::Array(a)) => a@,
        _ => Seq::empty(),
    }
}

/// Defensive string accessor: first match wins, mismatch or absence yields
/// the given default.
pub fn get_string(props: &PropList, key: &str, default: &str) -> (r: String)
    ensures
        r@ == spec_get_string(props@, key@, default@),
{
    match lookup(props, key) {
        Some(PropValue::Str(s)) => s.clone(),
        Some(PropValue::Name(s)) => s.clone(),
        _ => default.to_owned(),
    }
}

/// Defensive integer accessor: first match wins, mismatch or absence yields 0.
pub fn get_i32(props: &PropList, key: &str) -> (r: i32)
    ensures
        r == spec_get_i32(props@, key@),
{
    match lookup(props, key) {
        Some(PropValue::Int(i)) => *i,
        _ => 0,
    }
}

/// Defensive fixed-point accessor: an integer-tagged value is widened to
/// thousandths; mismatch or absence yields 0.
pub fn get_millis(props: &PropList, key: &str) -> (r: i64)
    ensures
        r == spec_get_millis(props@, key@),
{
    match lookup(props, key) {
        Some(PropValue::Float(m)) => *m,
        Some(PropValue::Int(i)) => *i as i64 * 1000,
        _ => 0,
    }
}

/// Defensive record-array accessor: `None` when the first match is not an
/// array or no key matches.
pub fn get_array<'a>(props: &'a PropList, key: &str) -> (r: Option<
    &'a Vec<Vec<(String, PropValue)>>,
>)
    ensures
        match r {
            Some(a) => spec_get_array(props@, key@) == a@,
            None => spec_get_array(props@, key@) == Seq::<Vec<(String, PropValue)>>::empty(),
        },
{
    match lookup(props, key) {
        Some(PropValue::Array(a)) => Some(a),
        _ => None,
    }
}

} // verus!
