//! Resume support for interrupted S3 downloads.
//!
//! Once the body of a download is on its way to a client, the status and the length of the
//! response have been sent, and a failure in the middle can no longer be reported: the client
//! sees a truncated body. So a download whose body stream breaks is taken up again with a
//! `Range` request for the bytes that are missing, while the connection to the client stays open.
//!
//! [`reader`] holds the decisions: when to resume, from which byte, after what delay, and when to
//! give up. [`model`] states them as a transition system, and [`laws`] says what follows for a
//! whole download. [`duties`] says the same of single events in plain terms. [`request`] builds the requests, [`sdk`] reads what the S3 SDK returns, and
//! [`error`] says which I/O errors are worth a retry.

pub mod duties;
pub mod error;
pub mod laws;
pub mod model;
pub mod reader;
pub mod request;
pub mod sdk;
