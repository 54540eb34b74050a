//! The trusted boundary to serde_json: the declaration of its error type and
//! the wrappers around the two calls the loader makes.

use vstd::prelude::*;

use crate::config::JsonCategory;

verus! {

#[verifier::external_type_specification]
#[verifier::external_body]
pub struct ExSerdeJsonError(serde_json::Error);

/// The name-to-hex pairs that decoding a configuration text yields, or `None`
/// where the text is not a JSON object of strings. Decoding is a pure
/// function of the text, so its outcome can be given this name.
pub uninterp spec fn json_object_of(config: Seq<char>) -> Option<Seq<(Seq<char>, Seq<char>)>>;

/// The views of a list of owned string pairs.
pub open spec fn pairs_view(v: Seq<(String, String)>) -> Seq<(Seq<char>, Seq<char>)> {
    v.map_values(|p: (String, String)| (p.0@, p.1@))
}

/// Relies on serde_json::from_str: decoding into an ordered map of strings
/// succeeds exactly when the text is a JSON object with string values, keeps
/// the last value of a repeated name, and yields each name once.
#[verifier::external_body]
pub(crate) fn json_to_pairs(config: &str) -> (r: Result<Vec<(String, String)>, serde_json::Error>)
    ensures
        match r {
            Ok(v) => json_object_of(config@) == Some(pairs_view(v@)) && (forall|i: int, j: int|
                0 <= i < j < v@.len() ==> v@[i].0@ != v@[j].0@),
            Err(_) => json_object_of(config@) is None,
        },
{
    match serde_json::from_str::<std::collections::BTreeMap<String, String>>(config) {
        Ok(m) => Ok(m.into_iter().collect()),
        Err(e) => Err(e),
    }
}

/// Relies on serde_json::Error::classify to sort a decoding failure into its
/// category.
#[verifier::external_body]
pub(crate) fn json_error_category(e: &serde_json::Error) -> JsonCategory {
    match e.classify() {
        serde_json::error::Category::Io => JsonCategory::Io,
        serde_json::error::Category::Syntax => JsonCategory::Syntax,
        serde_json::error::Category::Data => JsonCategory::Data,
        serde_json::error::Category::Eof => JsonCategory::Eof,
    }
}

} // verus!
