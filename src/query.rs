//! The query that a request carries: a search term and a budget in seconds.
use vstd::prelude::*;

verus! {

/// The budget of a request that names none.
pub const DEFAULT_TIMEOUT_SECS: u64 = 10;

/// A search term and a budget in whole seconds.
pub struct Query {
    pub term: String,
    pub timeout_secs: u64,
}

/// Why a request cannot be served.
#[derive(PartialEq, Eq, Structural, Debug, Clone, Copy)]
pub enum InputError {
    /// The body is not a JSON object whose members are all strings.
    MalformedRequest,
    /// The timeout is present but not an unsigned 64-bit integer.
    BadTimeout,
}

pub type FieldView = (Seq<char>, Seq<char>);

pub open spec fn field_views(fields: Seq<(String, String)>) -> Seq<FieldView> {
    fields.map_values(|p: (String, String)| (p.0@, p.1@))
}

/// The members of a JSON object whose values are all strings, one per key in
/// key order, or `None` where the text is not such an object.
pub uninterp spec fn json_string_fields(body: Seq<char>) -> Option<Seq<FieldView>>;

#[verifier::external_type_specification]
#[verifier::external_body]
pub struct ExJsonError(serde_json::Error);

/// Relies on serde_json::from_str into a BTreeMap<String, String>: it reads a
/// JSON object whose values are all strings, and the map hands out its members
/// in key order. The result depends on the text alone.
#[verifier::external_body]
fn read_string_object(body: &str) -> (r: Result<Vec<(String, String)>, serde_json::Error>)
    ensures
        match r {
            Ok(fields) => json_string_fields(body@) == Some(field_views(fields@)),
            Err(_) => json_string_fields(body@) is None,
        },
{
    serde_json::from_str::<std::collections::BTreeMap<String, String>>(body).map(
        |m| m.into_iter().collect(),
    )
}

pub open spec fn is_digit(c: char) -> bool {
    '0' <= c && c <= '9'
}

/// The number that a run of decimal digits writes.
pub open spec fn digits_value(s: Seq<char>) -> nat
    decreases s.len(),
{
    if s.len() == 0 {
        0
    } else {
        digits_value(s.drop_last()) * 10 + ((s.last() as u32) - ('0' as u32)) as nat
    }
}

/// The digits of an unsigned number: the text without a leading `+`.
pub open spec fn unsigned_digits(s: Seq<char>) -> Seq<char> {
    if s.len() > 0 && s[0] == '+' {
        s.drop_first()
    } else {
        s
    }
}

/// The unsigned 64-bit integer that a text writes in decimal: an optional `+`
/// and at least one digit, with a value that fits.
pub open spec fn decimal_u64(s: Seq<char>) -> Option<u64> {
    let d = unsigned_digits(s);
    if d.len() > 0 && (forall|i: int| 0 <= i < d.len() ==> is_digit(#[trigger] d[i]))
        && digits_value(d) <= u64::MAX {
        Some(digits_value(d) as u64)
    } else {
        None
    }
}

/// Relies on str::parse for u64: it accepts an optional `+` followed by one or
/// more decimal digits whose value fits in 64 bits, and nothing else.
#[verifier::external_body]
fn parse_u64(s: &str) -> (r: Option<u64>)
    ensures
        r == decimal_u64(s@),
{
    s.parse::<u64>().ok()
}

/// The value of the first member named `key`.
pub open spec fn lookup(fields: Seq<FieldView>, key: Seq<char>) -> Option<Seq<char>>
    decreases fields.len(),
{
    if fields.len() == 0 {
        None
    } else if fields[0].0 == key {
        Some(fields[0].1)
    } else {
        lookup(fields.drop_first(), key)
    }
}

pub open spec fn value_key() -> Seq<char> {
    seq!['v', 'a', 'l', 'u', 'e']
}

pub open spec fn timeout_key() -> Seq<char> {
    seq!['t', 'i', 'm', 'e', 'o', 'u', 't']
}

/// The term and budget that the members give: the term defaults to empty and
/// the budget to ten seconds; a budget that is not a number is an error.
pub open spec fn query_of(fields: Seq<FieldView>) -> Result<(Seq<char>, u64), InputError> {
    let term = match lookup(fields, value_key()) {
        Some(v) => v,
        None => seq![],
    };
    match lookup(fields, timeout_key()) {
        None => Ok((term, DEFAULT_TIMEOUT_SECS)),
        Some(t) => match decimal_u64(t) {
            Some(n) => Ok((term, n)),
            None => Err(InputError::BadTimeout),
        },
    }
}

pub open spec fn query_view(r: Result<Query, InputError>) -> Result<(Seq<char>, u64), InputError> {
    match r {
        Ok(q) => Ok((q.term@, q.timeout_secs)),
        Err(e) => Err(e),
    }
}

/// The value of the first member named `key`.
pub fn find_field(fields: &Vec<(String, String)>, key: &String) -> (r: Option<String>)
    ensures
        match r {
            Some(v) => lookup(field_views(fields@), key@) == Some(v@),
            None => lookup(field_views(fields@), key@) is None,
        },
{
    let mut i: usize = 0;
    assert(field_views(fields@).subrange(0, fields@.len() as int) =~= field_views(fields@));
    while i < fields.len()
        invariant
            i <= fields.len(),
            lookup(field_views(fields@), key@) == lookup(
                field_views(fields@).subrange(i as int, fields@.len() as int),
                key@,
            ),
        decreases fields.len() - i,
    {
        let ghost rest = field_views(fields@).subrange(i as int, fields@.len() as int);
        if fields[i].0 == *key {
            return Some(fields[i].1.clone());
        }
        assert(rest.drop_first() =~= field_views(fields@).subrange(
            i + 1,
            fields@.len() as int,
        ));
        i = i + 1;
    }
    None
}

/// The query that the members of a request give.
pub fn query_from_fields(fields: &Vec<(String, String)>) -> (r: Result<Query, InputError>)
    ensures
        query_view(r) == query_of(field_views(fields@)),
{
    let value_name = "value".to_owned();
    let timeout_name = "timeout".to_owned();
    proof {
        reveal_strlit("value");
        reveal_strlit("timeout");
        assert(value_name@ =~= value_key());
        assert(timeout_name@ =~= timeout_key());
    }
    let term = match find_field(fields, &value_name) {
        Some(v) => v,
        None => String::new(),
    };
    match find_field(fields, &timeout_name) {
        None => Ok(Query { term, timeout_secs: DEFAULT_TIMEOUT_SECS }),
        Some(t) => match parse_u64(t.as_str()) {
            Some(n) => Ok(Query { term, timeout_secs: n }),
            None => Err(InputError::BadTimeout),
        },
    }
}

/// Reads the query from a request body, a JSON object with the optional
/// string members `value` and `timeout`.
pub fn parse_query(body: &str) -> (r: Result<Query, InputError>)
    ensures
        match json_string_fields(body@) {
            Some(fields) => query_view(r) == query_of(fields),
            None => r == Err::<Query, InputError>(InputError::MalformedRequest),
        },
{
    match read_string_object(body) {
        Ok(fields) => query_from_fields(&fields),
        Err(_) => Err(InputError::MalformedRequest),
    }
}

} // verus!
