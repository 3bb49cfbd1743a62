//! Core of a small quote service: a record of author and quote behind
//! bearer-token authentication.
//!
//! - [`error`]: the closed set of failure kinds, each with its status and
//!   reason.
//! - [`quote`], [`validation`]: the record, the payload a client sends, and
//!   the constraints a payload must meet.
//! - [`token`], [`auth`]: signing and verifying tokens, and the admission
//!   check in front of every handler.
//! - [`store`], [`controllers`]: the commands and replies that pass between
//!   a handler and the store, and the handlers themselves.
//! - [`repository`], [`service`]: the table of quotes with its operations,
//!   and whole requests served from it.
//! - [`config`], [`ident`], [`text`]: the settings read from the
//!   environment, identifiers for new records, and helpers on text.

pub mod auth;
pub mod config;
pub mod controllers;
pub mod error;
pub mod ident;
pub mod quote;
pub mod repository;
pub mod service;
pub mod store;
pub mod text;
pub mod token;
pub mod validation;
