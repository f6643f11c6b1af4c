//! Source acquisition for a full-screen code viewer.
//!
//! For one run the library decides where the displayed code comes from (an
//! inline literal, a remote snippet or a file), follows the answers of the
//! host's transport and file loader to a [`source::ResolvedSource`] or to one
//! [`error::AcquisitionError`], and names the language to highlight it in.
//! The library performs no I/O itself: the host sends the request, loads the
//! file and reports what came back.
//!
//! - [`origin`]: the options of a run and the precedence among them.
//! - [`resolver`]: the steps of a resolution, from the options to its result.
//! - [`fetch`]: the handle of the one request, polled once per tick.
//! - [`snippet`]: the request for a remote snippet and the reading of its
//!   response.
//! - [`extract`]: the two fields of a JSON response.
//! - [`language`]: the language of a file, by override or by extension.
//! - [`error`]: the errors an acquisition can end in, and their messages.
//! - [`presenter`]: what is on screen afterwards, and when the process ends.
//! - [`source`], [`text`]: the resolved source and its model.

pub mod error;
pub mod extract;
pub mod fetch;
pub mod language;
pub mod origin;
pub mod presenter;
pub mod resolver;
pub mod snippet;
pub mod source;
pub mod text;
