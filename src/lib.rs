//! Values, parsing and canonical serialization for the CSS Grid
//! track-sizing grammar: `<grid-line>`, `<track-size>`, `repeat()`,
//! `<track-list>`, `<line-name-list>` and `grid-template-*` components.

pub mod grammar;
pub mod grid_line;
pub mod repeat;
pub mod text;
pub mod tokens;
pub mod track;
pub mod track_list;
