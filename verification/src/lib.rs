//! Navigation state and history projection for a terminal dashboard over a
//! git repository.
//!
//! The dashboard shows four panes: working-tree status, commit history,
//! branches and reflog. This library holds what the panes show and where
//! the user stands in them; drawing and the terminal belong to the program
//! around it.
//!
//! - [`list`]: a list of items with a cursor that moves through it in a
//!   ring.
//! - [`section`]: the panes, and the ring in which focus moves through
//!   them.
//! - [`app`]: the state of a session, one transition for each input event,
//!   and the laws that the transitions obey.
//! - [`event`]: the events of the input loop and the timing of its ticks.
//! - [`record`]: the records that the panes show, and how they are made
//!   from what a repository hands out.
//! - [`repository`]: the queries that ask a repository.
//! - [`initials`]: the initials of an author's name.
//! - [`settings`]: styles as a settings file names them.

pub mod app;
pub mod event;
pub mod initials;
pub mod list;
pub mod record;
pub mod repository;
pub mod section;
pub mod settings;
