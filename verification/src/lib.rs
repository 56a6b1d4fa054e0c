//! Protocol handler for `mpv-handler://` links.
//!
//! A browser hands the handler one link. The library decodes it into a
//! validated request and decides what to run for it: which binary, with
//! which arguments, in which environment. It starts nothing itself; the
//! program around it does, and reports back how the processes ended.
//!
//! - [`protocol`] cuts a link into its segments and builds the request;
//!   [`decode`] decodes its payloads and checks URLs against the allow-list
//!   of transport schemes; [`parameters`] reads its query string.
//! - [`plugins`] holds the plugins that a link can name, each with the
//!   options of its player or downloader.
//! - [`compose`] puts together the arguments of a configured downloader,
//!   [`handler`] plans the run in one of three play modes, and
//!   [`orchestrate`] takes the run through its steps.
//! - [`run`] begins a run from the arguments of the program and calls the
//!   plugin of the request.
//! - [`config`] holds the settings, [`command`] the description of a
//!   process, [`error`] the errors, and [`text`] the work on characters that
//!   the others share.
//!
//! Every function is verified against a contract over the characters of
//! the strings it takes and gives. What is taken on trust is the decoding
//! of base64, with the fact that it refuses every character outside its
//! alphabet, the decoding of UTF-8, the test for numeric characters, and
//! the appending of a character to a string.

pub mod command;
pub mod compose;
pub mod config;
pub mod decode;
pub mod error;
pub mod handler;
pub mod orchestrate;
pub mod parameters;
pub mod plugins;
pub mod protocol;
pub mod run;
pub mod text;
