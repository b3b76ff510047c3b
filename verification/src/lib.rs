//! The synchronization core of a terminal dashboard for the saved views of
//! an issue tracker.
//!
//! The dashboard shows up to six saved views side by side, fetches their
//! issues page by page, and lets the user set the workflow state, assignee,
//! project or cycle of an issue. This library holds what decides all that:
//! which requests go out for an event, and what an answer does to the state.
//! It never waits and never talks to the network or the screen; the program
//! around it sends the requests and brings the answers back.
//!
//! - [`cursor`]: pagination cursors
//! - [`filter`], [`normalize`]: filter expressions and the spelling of the
//!   workflow-state names in them
//! - [`view_resolver`]: the paginated fetch of one view
//! - [`panel`]: view panels and their reconciliation with the view slots
//! - [`issue_op`]: the bulk-edit interface
//! - [`app`], [`requests`], [`dispatch`], [`completion`]: the state, the
//!   requests, the events and the answers
//! - [`table`]: the texts of the tables
//! - [`text`], [`search`], [`seqs`]: what the others share

pub mod app;
pub mod completion;
pub mod cursor;
pub mod dispatch;
pub mod filter;
pub mod issue_op;
pub mod normalize;
pub mod panel;
pub mod requests;
pub mod search;
pub mod seqs;
pub mod table;
pub mod text;
pub mod types;
pub mod view_resolver;
