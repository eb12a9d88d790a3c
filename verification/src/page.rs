//! The closed set of page collaborators the shell routes between. Each page
//! owns its nested state and message type; the shell speaks to a page only
//! through its `init`, `update` and `view` functions.

pub mod home;
pub mod movies;
pub mod not_found;
pub mod settings;
