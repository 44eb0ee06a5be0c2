//! A small HTTP/1.1 protocol core: a request parser, a response model with a
//! byte-exact serializer, and a router that dispatches a parsed request to a
//! fixed set of handlers. Transport concerns (sockets, reads, writes) live
//! outside this crate; it works on plain text buffers and strings.

pub mod headers;
pub mod httprequest;
pub mod httpresponse;
pub mod numdec;
pub mod router;
pub mod server;
pub mod strutil;
