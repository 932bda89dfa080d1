//! The user settings model and its validation.
//!
//! The host's settings provider hands back a JSON-like object (or nothing).
//! The caller flattens that object into a [`SettingsDoc`] — each key paired
//! with its string value, or with [`SettingsField::Other`] for a value of
//! any other type — and validation here extracts the one required field.

use vstd::prelude::*;
use crate::errors::Error;
use crate::text::str_eq;

verus! {

/// One value of the settings object, as far as validation cares: a JSON
/// string, or anything else.
pub enum SettingsField {
    /// A JSON string value.
    Text(String),
    /// A JSON value of any non-string type.
    Other,
}

/// The settings object as handed over by the caller: its key/value pairs in
/// document order.
pub struct SettingsDoc {
    pub fields: Vec<(String, SettingsField)>,
}

/// The validated launch settings: the API key the wrapped server needs.
pub struct LaunchSettings {
    pub brave_api_key: String,
}

/// The name of the one required settings field.
pub open spec fn spec_api_key_name() -> Seq<char> {
    "brave_api_key"@
}

/// The value of the first field with the given key, if any.
pub open spec fn spec_first_match(
    fields: Seq<(String, SettingsField)>,
    key: Seq<char>,
) -> Option<SettingsField>
    decreases fields.len(),
{
    if fields.len() == 0 {
        None
    } else if fields[0].0@ == key {
        Some(fields[0].1)
    } else {
        spec_first_match(fields.skip(1), key)
    }
}

/// A settings object is valid when its first `brave_api_key` field holds a
/// string.
pub open spec fn spec_settings_valid(fields: Seq<(String, SettingsField)>) -> bool {
    spec_first_match(fields, spec_api_key_name()) matches Some(f) && f is Text
}

/// The API key a valid settings object carries.
pub open spec fn spec_api_key(fields: Seq<(String, SettingsField)>) -> Seq<char> {
    match spec_first_match(fields, spec_api_key_name()) {
        Some(SettingsField::Text(s)) => s@,
        _ => Seq::empty(),
    }
}

/// Skipping a prefix in which no field carries the key leaves the first
/// match unchanged.
proof fn lemma_first_match_past_misses(
    fields: Seq<(String, SettingsField)>,
    key: Seq<char>,
    i: int,
)
    requires
        0 <= i <= fields.len(),
        forall|j: int| 0 <= j < i ==> fields[j].0@ != key,
    ensures
        spec_first_match(fields.skip(i), key) == spec_first_match(fields, key),
    decreases i,
{
    if i > 0 {
        assert forall|j: int| 0 <= j < i - 1 implies fields.skip(1)[j].0@ != key by {
            assert(fields.skip(1)[j] == fields[j + 1]);
        }
        lemma_first_match_past_misses(fields.skip(1), key, i - 1);
        assert(fields.skip(1).skip(i - 1) =~= fields.skip(i));
        assert(fields[0].0@ != key);
        assert(spec_first_match(fields, key) == spec_first_match(fields.skip(1), key));
    } else {
        assert(fields.skip(0) =~= fields);
    }
}

/// Validates a settings object: the `brave_api_key` field must be present
/// and hold a string, which becomes the API key. A missing or wrong-typed
/// field is an invalid configuration.
pub fn parse_settings(doc: &SettingsDoc) -> (r: Result<LaunchSettings, Error>)
    ensures
        spec_settings_valid(doc.fields@) ==> (r matches Ok(ls) && ls.brave_api_key@
            == spec_api_key(doc.fields@)),
        !spec_settings_valid(doc.fields@) ==> (r matches Err(Error::InvalidConfiguration(m))
            && m@ == "the `brave_api_key` setting must be a string"@),
{
    let n = doc.fields.len();
    let mut i: usize = 0;
    while i < n
        invariant
            n == doc.fields@.len(),
            i <= n,
            forall|j: int| 0 <= j < i ==> doc.fields@[j].0@ != spec_api_key_name(),
        decreases n - i,
    {
        if str_eq(doc.fields[i].0.as_str(), "brave_api_key") {
            proof {
                lemma_first_match_past_misses(doc.fields@, spec_api_key_name(), i as int);
                assert(doc.fields@.skip(i as int)[0] == doc.fields@[i as int]);
            }
            return match &doc.fields[i].1 {
                SettingsField::Text(s) => Ok(LaunchSettings { brave_api_key: s.clone() }),
                SettingsField::Other => Err(
                    Error::InvalidConfiguration(
                        "the `brave_api_key` setting must be a string".to_owned(),
                    ),
                ),
            };
        }
        i += 1;
    }
    proof {
        lemma_first_match_past_misses(doc.fields@, spec_api_key_name(), n as int);
        assert(doc.fields@.skip(n as int).len() == 0);
    }
    Err(Error::InvalidConfiguration("the `brave_api_key` setting must be a string".to_owned()))
}

} // verus!
