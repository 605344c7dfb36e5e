//! The list of sources that a configuration document names.
use vstd::prelude::*;

verus! {

pub type ListFieldView = (Seq<char>, Seq<Seq<char>>);

pub open spec fn strings_view(s: Seq<String>) -> Seq<Seq<char>> {
    s.map_values(|x: String| x@)
}

pub open spec fn list_field_views(fields: Seq<(String, Vec<String>)>) -> Seq<ListFieldView> {
    fields.map_values(|p: (String, Vec<String>)| (p.0@, strings_view(p.1@)))
}

/// The members of a JSON object whose values are all lists of strings, one
/// per key in key order, or `None` where the text is not such an object.
pub uninterp spec fn json_list_fields(text: Seq<char>) -> Option<Seq<ListFieldView>>;

/// Relies on serde_json::from_str into a BTreeMap<String, Vec<String>>: it
/// reads a JSON object whose values are all lists of strings, and the map
/// hands out its members in key order. The result depends on the text alone.
#[verifier::external_body]
fn read_list_object(text: &str) -> (r: Result<Vec<(String, Vec<String>)>, serde_json::Error>)
    ensures
        match r {
            Ok(fields) => json_list_fields(text@) == Some(list_field_views(fields@)),
            Err(_) => json_list_fields(text@) is None,
        },
{
    serde_json::from_str::<std::collections::BTreeMap<String, Vec<String>>>(text).map(
        |m| m.into_iter().collect(),
    )
}

/// Why a configuration document could not be read.
#[derive(PartialEq, Eq, Structural, Debug, Clone, Copy)]
pub enum ConfigError {
    /// The text is not a JSON object whose members are all lists of strings.
    MalformedConfig,
}

pub open spec fn feeds_key() -> Seq<char> {
    seq!['r', 's', 's', '_', 'f', 'e', 'e', 'd', 's']
}

/// The list of the first member named `key`.
pub open spec fn lookup_list(fields: Seq<ListFieldView>, key: Seq<char>) -> Option<Seq<Seq<char>>>
    decreases fields.len(),
{
    if fields.len() == 0 {
        None
    } else if fields[0].0 == key {
        Some(fields[0].1)
    } else {
        lookup_list(fields.drop_first(), key)
    }
}

/// The sources that the members name: the list under `rss_feeds`, or none.
pub open spec fn sources_of(fields: Seq<ListFieldView>) -> Seq<Seq<char>> {
    match lookup_list(fields, feeds_key()) {
        Some(l) => l,
        None => seq![],
    }
}

/// The sources named by the members of a configuration document, in order;
/// none where it has no `rss_feeds` member.
pub fn sources_from_fields(fields: &Vec<(String, Vec<String>)>) -> (r: Vec<String>)
    ensures
        strings_view(r@) == sources_of(list_field_views(fields@)),
{
    let key = "rss_feeds".to_owned();
    proof {
        reveal_strlit("rss_feeds");
        assert(key@ =~= feeds_key());
    }
    let mut i: usize = 0;
    assert(list_field_views(fields@).subrange(0, fields@.len() as int) =~= list_field_views(
        fields@,
    ));
    while i < fields.len()
        invariant
            i <= fields.len(),
            key@ == feeds_key(),
            lookup_list(list_field_views(fields@), key@) == lookup_list(
                list_field_views(fields@).subrange(i as int, fields@.len() as int),
                key@,
            ),
        decreases fields.len() - i,
    {
        let ghost rest = list_field_views(fields@).subrange(i as int, fields@.len() as int);
        if fields[i].0 == key {
            return fields[i].1.clone();
        }
        assert(rest.drop_first() =~= list_field_views(fields@).subrange(
            i + 1,
            fields@.len() as int,
        ));
        i = i + 1;
    }
    let none: Vec<String> = Vec::new();
    assert(strings_view(none@) =~= seq![]);
    none
}

/// Reads the list of sources from a configuration document, a JSON object
/// whose member `rss_feeds` lists them.
pub fn sources_from_config(text: &str) -> (r: Result<Vec<String>, ConfigError>)
    ensures
        match json_list_fields(text@) {
            Some(fields) => r is Ok && strings_view(r->Ok_0@) == sources_of(fields),
            None => r == Err::<Vec<String>, ConfigError>(ConfigError::MalformedConfig),
        },
{
    match read_list_object(text) {
        Ok(fields) => Ok(sources_from_fields(&fields)),
        Err(_) => Err(ConfigError::MalformedConfig),
    }
}

} // verus!
