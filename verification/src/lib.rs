//! Renaming files to the date they carry.
//!
//! The date of a file is its embedded capture date where it has one, and
//! else the time it was last modified ([`policy`], on top of [`metadata`]
//! and [`modified`]). The new name is that date, rendered under a template,
//! with the extension of the old name in lower case and, where the name is
//! taken, the first counter that is free ([`naming`], [`rename`]). What is
//! done with a root path and with each file is decided in [`run`].
//!
//! The library reads no file and renames none. Its caller hands it what it
//! has read, asks it what to do, and does it.

pub mod decimal;
pub mod metadata;
pub mod modified;
pub mod naming;
pub mod policy;
pub mod rename;
pub mod run;
pub mod timestamp;
