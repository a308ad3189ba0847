//! A searchable, sortable directory of game modifications: the colour markup
//! of their titles and descriptions, and the state of the listing that shows
//! them.

pub mod card;
pub mod color;
pub mod date;
pub mod growth;
pub mod listing;
pub mod markup;
pub mod model;
pub mod order;
pub mod record;
pub mod render;
pub mod route;
pub mod text;
pub mod update;
