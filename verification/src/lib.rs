//! Identifiers and storage paths for a small file-sharing service.
//!
//! A client uploads a file and gets a link; whoever holds the link downloads
//! the file under the name it was uploaded with. The link holds a [`FileId`]:
//! the file name in a reversible, path-safe text encoding, followed by a
//! random suffix of fixed length. The same identifier names the stored file
//! in one flat upload directory, so the directory is its own index.
//!
//! - [`charset`]: the character classes of identifiers and the alphabet of
//!   the suffix;
//! - [`base64url`]: the text encoding of file names;
//! - [`suffix`]: the random suffix;
//! - [`file_id`]: generation and validation of identifiers, and their paths;
//! - [`path`]: paths of stored files and their last segment;
//! - [`recover`]: the way back from a stored path to the file name;
//! - [`transfer`]: what an upload and a download decide;
//! - [`settings`]: the settings of the server and its usage page.
//!
//! [`FileId`]: file_id::FileId

pub mod base64url;
pub mod charset;
pub mod file_id;
pub mod path;
pub mod recover;
pub mod settings;
pub mod suffix;
pub mod transfer;
