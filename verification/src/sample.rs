//! From a share link or state value to the text of one generated sample.
use vstd::prelude::*;

use cp_ast_core::sample::GenerationError;
use cp_ast_json::ConversionError;

use crate::generable::generation_is_safe;
use crate::generation::{
    decode_share_state, generate_sample, generation_can_fail, random_seed, render_sample,
    sample_text_of, share_state_decodes, share_state_generable,
};
use crate::link_state::{extract_state, state_of, LinkStateError};

verus! {

/// The address of the web editor.
pub const EDITOR_URL: &'static str = "https://manabeai.github.io/cp-ast-ecosystems/";

/// Why no sample text could be produced.
#[derive(Debug)]
pub enum RtError {
    /// The input carries no state value.
    Link(LinkStateError),
    /// The state value does not decode to a document.
    Ast(ConversionError),
    /// The document holds a node that lies, directly or not, under itself, or asks
    /// the generator for a value from an empty range (a backwards character range,
    /// a string length bounded by 0, or a simple graph on no vertices), or gives
    /// such a bound only as a formula.
    UnsupportedDocument,
    /// The document's constraints could not be met.
    Sample(GenerationError),
    /// The input names a file that could not be read.
    ReadInputFile { path: String, source: std::io::Error },
}

/// What generating from the decodable state `s` may end in: a text that `s` and the
/// seed used can give (the given seed, when there is one), empty or ending with a
/// line break; or a generation error that `s` and that seed can give.
pub open spec fn sample_outcome(s: Seq<char>, seed: Option<u64>, r: Result<(u64, String), RtError>) -> bool {
    match r {
        Ok((used, text)) => {
            &&& sample_text_of(s, used, text@)
            &&& seed matches Some(g) ==> used == g
            &&& text@.len() == 0 || text@.last() == '\n'
        },
        Err(RtError::Sample(_)) => match seed {
            Some(g) => generation_can_fail(s, g),
            None => exists|k: u64| #[trigger] generation_can_fail(s, k),
        },
        Err(_) => false,
    }
}

/// Generates one sample for the share link or state value `input` (already read
/// from a file where it named one), with `seed` or a random seed, and returns the
/// seed used with the sample text. A document that fails `generation_is_safe_spec`
/// (see `share_state_generable`) is refused before any generation. Otherwise the
/// text is one that the input's state and the seed used can give; a generation
/// error is one that they can give.
pub fn generate_sample_text(input: &str, seed: Option<u64>) -> (r: Result<(u64, String), RtError>)
    ensures
        state_of(input@) is None ==> r matches Err(RtError::Link(LinkStateError::MissingState)),
        state_of(input@) matches Some(s) && !share_state_decodes(s) ==> r matches Err(
            RtError::Ast(_),
        ),
        state_of(input@) matches Some(s) ==> (share_state_decodes(s) && !share_state_generable(s)
            ==> r matches Err(RtError::UnsupportedDocument)),
        state_of(input@) matches Some(s) ==> (share_state_generable(s) ==> sample_outcome(
            s,
            seed,
            r,
        )),
{
    let state = match extract_state(input) {
        Ok(s) => s,
        Err(e) => {
            return Err(RtError::Link(e));
        },
    };
    let engine = match decode_share_state(state.as_str()) {
        Ok(e) => e,
        Err(e) => {
            return Err(RtError::Ast(e));
        },
    };
    if !generation_is_safe(engine.node_arena(), engine.constraint_arena()) {
        return Err(RtError::UnsupportedDocument);
    }
    let used = match seed {
        Some(s) => s,
        None => random_seed(),
    };
    let sample = match generate_sample(&engine, used) {
        Ok(s) => s,
        Err(e) => {
            return Err(RtError::Sample(e));
        },
    };
    Ok((used, render_sample(&engine, &sample)))
}

} // verus!
