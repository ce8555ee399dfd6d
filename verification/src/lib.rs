//! Decision logic of a downloader for TV shows and movies of 3cat.cat.
//!
//! Everything that the downloader decides or computes is here, verified: which files an item
//! still needs, what they are called, what is kept of the metadata of an episode, and in which
//! order the work is done. The work itself (network, files, tools) is named by machines and
//! carried out by the program around them, which hands back what came of it:
//!
//! - [`run`]: a run of the program;
//! - [`media_download`]: the download of one media item, with its laws in [`media_laws`];
//! - [`transfer`]: the transfer of one file;
//! - [`metadata_run`]: the retrieval of the metadata of a TV show, with its laws in
//!   [`metadata_laws`].
//!
//! Contracts speak of texts as sequences of characters; a type whose name ends in `Model` is the
//! type of the same name with its texts in that form.

pub mod api_structs;
pub mod cli;
pub mod downloader;
pub mod error;
pub mod log_lines;
pub mod media_download;
pub mod media_laws;
pub mod media_steps;
pub mod metadata;
pub mod metadata_laws;
pub mod metadata_run;
pub mod models;
pub mod paths;
pub mod run;
pub mod text;
pub mod transfer;
