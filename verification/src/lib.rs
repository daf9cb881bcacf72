//! An archive of playlist versions.
//!
//! The archive keeps, for every playlist it was told to track, the history
//! of what the playlist held: a new version is stored whenever freshly
//! fetched content has another fingerprint than the newest stored version,
//! and never otherwise. Any stored version can be looked up again by its
//! position in the history.
//!
//! * [`playlist`] holds the data model: entries, content, versions.
//! * [`fingerprint`] computes the fingerprint of a track listing.
//! * [`history`] and [`database`] are the store: one history per playlist,
//!   in ascending order of capture time.
//! * [`archive`] holds the operations on the store: register, refresh,
//!   list, show a history, select a version, delete.
//! * [`ids`] reads playlist identifiers out of what the user typed.
//! * [`arguments`], [`conf`], [`authentication`] and [`spotify`] hold what
//!   is computed around the command line, the configuration, the
//!   application's credential and the provider.
//!
//! The library does no input or output. Its caller fetches content, reads
//! the clock and writes the store to disk; and because a refresh compares
//! first and stores afterwards, the caller has to see to it that only one
//! process works on a stored archive at a time.

pub mod archive;
pub mod arguments;
pub mod authentication;
pub mod conf;
pub mod database;
pub mod fingerprint;
pub mod history;
pub mod ids;
pub mod playlist;
mod seqs;
pub mod spotify;
mod text;
