//! The calculating core of a small HTTP API server: a Fibonacci engine
//! over arbitrary-precision integers with a memoization cache shared by
//! concurrent callers, a Tower-of-Hanoi engine that enumerates optimal
//! move sequences for small towers and counts moves for large ones, and
//! the response-building cores of the server's routes.
//!
//! The host application owns the wire: it parses queries, runs the heavy
//! computations on worker threads, talks to the database, and serializes
//! the responses built here.

pub mod api;
pub mod bignum;
pub mod database;
pub mod fibo;
pub mod hanoi;
