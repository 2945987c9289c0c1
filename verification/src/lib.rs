//! Deploying dotfiles: creating, updating and deleting symbolic links, rendered
//! templates and plain copies.
//!
//! Every operation asks a [`filesystem::Filesystem`] about the present state,
//! decides what has to be done, and has it done step by step. What each
//! operation decides is stated in its module ([`create`], [`update`], [`delete`],
//! [`deploy`]); what "step by step" means is stated in [`plan`]; what follows for
//! the operations as a whole is stated in [`laws`] and [`determined`].
//!
//! What the operations are for is stated once more without plans, of the calls and
//! replies themselves: [`outcomes`] gives the course that each operation takes in each
//! state, [`effects`] what calling each function adds to the history, [`running`] what
//! the runner makes of it, and [`parts`] and [`recorded`] what they are all made of.
pub mod config;
pub mod create;
pub mod delete;
pub mod deploy;
pub mod determined;
pub mod difference;
pub mod effects;
pub mod error;
pub mod filesystem;
pub mod laws;
pub mod outcomes;
pub mod outside;
pub mod parts;
pub mod plan;
pub mod recorded;
pub mod runner;
pub mod running;
pub mod script;
pub mod update;
