//! Loading the parent palette from its configuration text: a JSON object
//! mapping color names to hex triplets.
//!
//! The JSON decoding itself is done by serde_json behind trusted wrappers;
//! everything after it — parsing each hex triplet, aborting on the first bad
//! entry — is verified. Decoding goes through an ordered map, so the pairs
//! come back sorted by name with duplicate names already resolved (the last
//! occurrence wins), which makes the nearest-match tie-break deterministic.

use vstd::prelude::*;

use crate::color::Rgb;
use crate::hex::parse_color;
use crate::hex::parse_color_spec;
use crate::hex::ParsingError;
use crate::json::json_error_category;
use crate::json::json_object_of;
use crate::json::json_to_pairs;
use crate::json::pairs_view;

verus! {

/// The category of a JSON decoding failure, mirroring serde_json's own
/// classification.
#[derive(Clone, Copy, PartialEq, Eq, Structural, Debug)]
pub enum JsonCategory {
    Io,
    Syntax,
    Data,
    Eof,
}

/// Everything that can go wrong between a configuration text and a matched
/// color.
#[derive(Clone, Copy, PartialEq, Eq, Structural, Debug)]
pub enum ColorIdError {
    JsonError(JsonCategory),
    ParsingError(ParsingError),
    NoParentColor,
}

/// The message that renders each error for a user.
pub open spec fn message_spec(e: ColorIdError) -> Seq<char> {
    match e {
        ColorIdError::JsonError(JsonCategory::Io) => "JSON error (Io)!"@,
        ColorIdError::JsonError(JsonCategory::Syntax) => "JSON error (Syntax)!"@,
        ColorIdError::JsonError(JsonCategory::Data) => "JSON error (Data)!"@,
        ColorIdError::JsonError(JsonCategory::Eof) => "JSON error (Eof)!"@,
        ColorIdError::ParsingError(ParsingError::InputTooLong) => "Input was too long to be a hex triplet!"@,
        ColorIdError::ParsingError(ParsingError::InvalidHexTriplet) => "Invalid hex triplet!"@,
        ColorIdError::NoParentColor => "No parent color could be found for the input color!"@,
    }
}

impl ColorIdError {
    /// A human-readable rendering of the error.
    pub fn message(&self) -> (r: &'static str)
        ensures
            r@ == message_spec(*self),
    {
        match self {
            ColorIdError::JsonError(JsonCategory::Io) => "JSON error (Io)!",
            ColorIdError::JsonError(JsonCategory::Syntax) => "JSON error (Syntax)!",
            ColorIdError::JsonError(JsonCategory::Data) => "JSON error (Data)!",
            ColorIdError::JsonError(JsonCategory::Eof) => "JSON error (Eof)!",
            ColorIdError::ParsingError(ParsingError::InputTooLong) => "Input was too long to be a hex triplet!",
            ColorIdError::ParsingError(ParsingError::InvalidHexTriplet) => "Invalid hex triplet!",
            ColorIdError::NoParentColor => "No parent color could be found for the input color!",
        }
    }
}

impl core::convert::From<ParsingError> for ColorIdError {
    fn from(error: ParsingError) -> Self {
        ColorIdError::ParsingError(error)
    }
}

impl vstd::std_specs::convert::FromSpecImpl<ParsingError> for ColorIdError {
    open spec fn obeys_from_spec() -> bool {
        true
    }

    open spec fn from_spec(t: ParsingError) -> Self {
        ColorIdError::ParsingError(t)
    }
}

/// What building the palette from name-to-hex pairs yields: each hex triplet
/// parsed in order, the first failure aborting the whole load.
pub open spec fn parents_from_pairs_spec(pairs: Seq<(Seq<char>, Seq<char>)>) -> Result<
    Seq<(Seq<char>, Rgb)>,
    ParsingError,
>
    decreases pairs.len(),
{
    if pairs.len() == 0 {
        Ok(Seq::empty())
    } else {
        match parse_color_spec(pairs[0].1) {
            Err(e) => Err(e),
            Ok(c) => match parents_from_pairs_spec(pairs.drop_first()) {
                Err(e) => Err(e),
                Ok(rest) => Ok(seq![(pairs[0].0, c)] + rest),
            },
        }
    }
}

proof fn lemma_pairs_spec_push(pairs: Seq<(Seq<char>, Seq<char>)>, x: (Seq<char>, Seq<char>))
    requires
        parents_from_pairs_spec(pairs) is Ok,
    ensures
        parse_color_spec(x.1) matches Ok(c) ==> parents_from_pairs_spec(pairs.push(x))
            == Ok::<_, ParsingError>(parents_from_pairs_spec(pairs).unwrap().push((x.0, c))),
        parse_color_spec(x.1) matches Err(e) ==> parents_from_pairs_spec(pairs.push(x)) == Err::<
            Seq<(Seq<char>, Rgb)>,
            _,
        >(e),
    decreases pairs.len(),
{
    reveal_with_fuel(parents_from_pairs_spec, 4);
    if pairs.len() == 0 {
        assert(pairs.push(x)[0] == x);
        assert(pairs.push(x).drop_first() =~= Seq::<(Seq<char>, Seq<char>)>::empty());
        if parse_color_spec(x.1) is Ok {
            let c = parse_color_spec(x.1).unwrap();
            assert(seq![(x.0, c)] + Seq::<(Seq<char>, Rgb)>::empty() =~= Seq::empty().push(
                (x.0, c),
            ));
        }
    } else {
        assert(pairs.push(x)[0] == pairs[0]);
        assert(pairs.push(x).drop_first() =~= pairs.drop_first().push(x));
        lemma_pairs_spec_push(pairs.drop_first(), x);
        if parse_color_spec(pairs[0].1) is Ok && parse_color_spec(x.1) is Ok {
            let c0 = parse_color_spec(pairs[0].1).unwrap();
            let c = parse_color_spec(x.1).unwrap();
            let rest = parents_from_pairs_spec(pairs.drop_first()).unwrap();
            assert(seq![(pairs[0].0, c0)] + rest.push((x.0, c)) =~= (seq![(pairs[0].0, c0)]
                + rest).push((x.0, c)));
        }
    }
}

proof fn lemma_pairs_spec_err_extends(
    pairs: Seq<(Seq<char>, Seq<char>)>,
    rest: Seq<(Seq<char>, Seq<char>)>,
)
    requires
        parents_from_pairs_spec(pairs) is Err,
    ensures
        parents_from_pairs_spec(pairs + rest) == parents_from_pairs_spec(pairs),
    decreases pairs.len(),
{
    assert(pairs.len() > 0);
    assert((pairs + rest)[0] == pairs[0]);
    if parse_color_spec(pairs[0].1) is Ok {
        assert((pairs + rest).drop_first() =~= pairs.drop_first() + rest);
        lemma_pairs_spec_err_extends(pairs.drop_first(), rest);
    }
}

/// The views of a built palette.
pub open spec fn parents_view(v: Seq<(String, Rgb)>) -> Seq<(Seq<char>, Rgb)> {
    v.map_values(|p: (String, Rgb)| (p.0@, p.1))
}

/// Builds the palette from name-to-hex pairs, parsing each hex triplet in
/// the given order and aborting on the first bad one.
pub fn parents_from_pairs(pairs: &Vec<(String, String)>) -> (r: Result<
    Vec<(String, Rgb)>,
    ParsingError,
>)
    ensures
        match parents_from_pairs_spec(pairs_view(pairs@)) {
            Ok(ps) => r matches Ok(v) && parents_view(v@) == ps,
            Err(e) => r == Err::<Vec<(String, Rgb)>, ParsingError>(e),
        },
{
    let ghost pv = pairs_view(pairs@);
    let mut out: Vec<(String, Rgb)> = Vec::new();
    let mut i: usize = 0;
    proof {
        assert(pv.subrange(0, 0) =~= Seq::<(Seq<char>, Seq<char>)>::empty());
        assert(parents_view(out@) =~= Seq::<(Seq<char>, Rgb)>::empty());
    }
    while i < pairs.len()
        invariant
            i <= pairs@.len(),
            pv == pairs_view(pairs@),
            parents_from_pairs_spec(pv.subrange(0, i as int)) == Ok::<_, ParsingError>(
                parents_view(out@),
            ),
        decreases pairs@.len() - i,
    {
        let ghost prefix = pv.subrange(0, i as int);
        match parse_color(pairs[i].1.as_str()) {
            Err(e) => {
                proof {
                    lemma_pairs_spec_push(prefix, pv[i as int]);
                    assert(prefix.push(pv[i as int]) =~= pv.subrange(0, i as int + 1));
                    lemma_pairs_spec_err_extends(
                        pv.subrange(0, i as int + 1),
                        pv.subrange(i as int + 1, pv.len() as int),
                    );
                    assert(pv.subrange(0, i as int + 1) + pv.subrange(
                        i as int + 1,
                        pv.len() as int,
                    ) =~= pv);
                }
                return Err(e);
            },
            Ok(c) => {
                proof {
                    lemma_pairs_spec_push(prefix, pv[i as int]);
                    assert(prefix.push(pv[i as int]) =~= pv.subrange(0, i as int + 1));
                }
                out.push((pairs[i].0.clone(), c));
                proof {
                    assert(parents_view(out@) =~= parents_from_pairs_spec(
                        pv.subrange(0, i as int + 1),
                    ).unwrap());
                }
                i = i + 1;
            },
        }
    }
    proof {
        assert(pv.subrange(0, pv.len() as int) =~= pv);
    }
    Ok(out)
}

/// Loads the parent palette from a configuration text: a JSON object mapping
/// names to hex triplets. Fails with a JSON error where the text is not such
/// an object, and with the first hex triplet's own error where one does not
/// parse.
pub fn parents_from_config(config: &str) -> (r: Result<Vec<(String, Rgb)>, ColorIdError>)
    ensures
        match json_object_of(config@) {
            Some(pairs) => match parents_from_pairs_spec(pairs) {
                Ok(ps) => r matches Ok(v) && parents_view(v@) == ps,
                Err(e) => r == Err::<Vec<(String, Rgb)>, ColorIdError>(ColorIdError::ParsingError(e)),
            },
            None => r matches Err(e) && e is JsonError,
        },
{
    match json_to_pairs(config) {
        Err(e) => Err(ColorIdError::JsonError(json_error_category(&e))),
        Ok(pairs) => match parents_from_pairs(&pairs) {
            Err(e) => Err(ColorIdError::ParsingError(e)),
            Ok(v) => Ok(v),
        },
    }
}

} // verus!
