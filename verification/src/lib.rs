//! The decisions of a small web server that shows one HTML page and, where it
//! is set up to, the files of an assets directory.
//!
//! The server itself (sockets, the template engine, the file system) lives
//! outside this crate. It hands each request's method and path to
//! [`route::Router::handle`], carries out the [`route::Action`] it gets back,
//! and builds its responses from the [`reply::Reply`] values stated here.

pub mod laws;
pub mod method;
pub mod render;
pub mod reply;
pub mod route;
pub mod startup;
pub mod text;
