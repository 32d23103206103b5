//! The logic of a TorBox download client, verified.
//!
//! The client submits a torrent to TorBox, asks for a download link and either
//! hands the link out or saves what it leads to. This crate holds everything that
//! is decided on the way: which settings will do, what is sent, what is made of
//! the answers, where a download goes and what the user is told. It performs no
//! input or output of its own.
//!
//! * [`settings`]: the settings of the client and the place of their file.
//! * [`torrent`]: the calls of the TorBox API and the reading of their answers.
//! * [`envelope`], [`json`], [`status`]: what answers are made of.
//! * [`output`]: the destination of a download and the reports on it.
//! * [`session`] and [`course`]: a request from its beginning to its end, step by
//!   step. A caller does the work that a session asks for and hands back what came
//!   of it.
//! * [`stages`]: what each stage of a request does.
//! * [`laws`]: what holds of every such course.
//! * [`text`]: white space, numerals and the like.

pub mod course;
pub mod envelope;
pub mod json;
pub mod laws;
pub mod output;
pub mod session;
pub mod settings;
pub mod stages;
pub mod status;
pub mod text;
pub mod torrent;
