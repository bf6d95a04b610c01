//! Loading a configuration that is kept as text (TOML, JSON, YAML or RON).
//!
//! A text file carries no checksum: the whole file is the payload. A load is
//! made in the same two steps as a binary one, with [`load_text`] first and
//! [`crate::binary_conf::finish_load`] after the decoder.

use crate::binary_conf::LoadStep;
use vstd::prelude::*;

verus! {

/// What a text file holds, for contracts: its characters, or `None` where
/// there is no file.
pub open spec fn text_view(file: Option<&str>) -> Option<Seq<char>> {
    match file {
        Some(text) => Some(text@),
        None => None,
    }
}

/// What the first step of a text load returns, for contracts.
pub open spec fn text_step_view(step: LoadStep<&str>) -> LoadStep<Seq<char>> {
    match step {
        LoadStep::Decode(text) => LoadStep::Decode(text@),
        LoadStep::WriteDefault => LoadStep::WriteDefault,
    }
}

/// What the first step of a text load decides: where there is no file the
/// default is stored, and a file that exists is decoded as a whole.
pub open spec fn text_plan(file: Option<Seq<char>>) -> LoadStep<Seq<char>> {
    match file {
        None => LoadStep::WriteDefault,
        Some(text) => LoadStep::Decode(text),
    }
}

/// First step of a load from a text file.
///
/// `file` is what the configuration file holds, `None` where it does not
/// exist. The result is what [`text_plan`] decides.
pub fn load_text<'a>(file: Option<&'a str>) -> (step: LoadStep<&'a str>)
    ensures
        text_step_view(step) == text_plan(text_view(file)),
{
    match file {
        None => LoadStep::WriteDefault,
        Some(text) => LoadStep::Decode(text),
    }
}

} // verus!
