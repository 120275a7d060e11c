//! A small library behind an HTTP service for working with Move smart
//! contracts: it validates contract submissions, lays out the on-disk
//! workspace that the external `aptos` command-line tool expects, builds the
//! tool's invocations, classifies the tool's captured output, routes request
//! paths to handlers, and assembles the prompts sent to a text-generation
//! API.
//!
//! All input/output (the HTTP server, the filesystem, the child processes,
//! the network calls) lives outside this crate; the functions here are the
//! decisions between those steps, each with a proved contract.

pub mod chat;
pub mod invoker;
pub mod service;
pub mod submission;
pub mod text;
pub mod workspace;
