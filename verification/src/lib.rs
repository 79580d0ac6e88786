//! Segmentation of Hanyu Pinyin text into normalized syllables.
//!
//! A text is cut into grapheme clusters, each cluster becomes a typed
//! [`pinyin_token::PinyinToken`], and a small state machine walks the tokens,
//! matching an initial and then the first final whose right context fits.
//! Every executable function carries a contract over the mathematical models
//! of these types; the contracts are proved by Verus.

pub mod candidates;
pub mod config;
pub mod cursor;
pub mod erhua;
pub mod error;
pub mod finals;
pub mod initials;
pub mod laws;
pub mod parser;
pub mod pinyin_token;
pub mod shapes;
pub mod unicode;

pub use config::{Configuration, PinyinParser, Strictness};
pub use cursor::VecAndIndex;
pub use erhua::PinyinParserIterWithSplitR;
pub use error::ParseError;
pub use parser::PinyinParserIter;
