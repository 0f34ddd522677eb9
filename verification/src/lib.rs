//! The logic of a multipart file-upload endpoint, without the transport.
//!
//! A request is read part by part and chunk by chunk. [`upload::Upload`] keeps
//! what the reads have yielded (the file name declared last and every byte
//! seen) and says after each read what to read next. When the request is
//! exhausted, the [`receipt::Receipt`] names the file and counts the bytes, and
//! its [`receipt::Reply`] is what goes back to the client.
//!
//! [`request`] takes a request that is in memory as a whole, and states what
//! holds of the outcome of every request. [`json`] writes the numbers and
//! strings of the reply.

pub mod json;
pub mod receipt;
pub mod request;
pub mod upload;
