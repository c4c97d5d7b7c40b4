//! A verified binding for one method of the Slack Web API,
//! `conversations.list`, built as the pattern every endpoint binding
//! follows: assemble a parameter set from a typed request, invoke a
//! pluggable transport, parse and validate the JSON response envelope,
//! and translate its error code into a typed, exhaustive error
//! taxonomy, with the same classification owed on the blocking and the
//! non-blocking execution path.

pub mod conversations;
pub mod json;
pub mod requests;
pub mod text;
