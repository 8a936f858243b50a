//! A streaming parser for line-delimited JSON transcripts of baseball games.
//! After each line it returns a regular expression for the next line.
use vstd::prelude::*;

pub mod text;
pub mod json_schema;
pub mod error;
pub mod game;
pub mod state;
pub mod json;
pub mod parser;

pub use error::ParseError;
pub use game::{Base, Context, Inning, Movement, Play, PlayBuilder, PlayType, Player, Team, Weather};
pub use json_schema::{JsonType, KeyValueType, ToRegex};
pub use parser::{LineType, Parser};
pub use state::{Game, GameBuilder, RunnerPositions};

verus! {

} // verus!
