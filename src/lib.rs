//! Per-member content digests for archives, and their verification against
//! the files on disk that the members were packed from.
//!
//! The library holds the logic of a run: the archive model and its
//! sequential cursors, the digest accumulator, the verification engine and
//! its tally, the line formats, and the routing of the output channels.
//! Opening containers, reading files and writing to the channels is left
//! to the caller.

mod archive;
mod digest;
mod error;
mod lines;
mod routing;
mod source;
mod text;

pub mod laws;
pub mod print;
pub mod verify;

pub use archive::{views, Archive, Blocks, Entries, Entry, EntryView, FileType, DEFAULT_BLOCK_SIZE, io_block_size};
pub use digest::{
    digest_len, digest_of, md5_of, sha1_of, sha224_of, sha256_of, sha384_of, sha512_of, Algorithm,
    DigestState,
};
pub use error::{Error, ErrorKind};
pub use lines::{
    digest_line, digest_line_of, error_line, error_line_of, failed_summary, failed_summary_of,
    missing_summary, missing_summary_of, outcome_line, outcome_line_of, outcome_word, prefix, Outcome,
};
pub use routing::{
    append_of, diagnostic_of, primary_of, print_destination, route, Destination, RoutingDecision,
};
pub use source::{join_of, join_path, lookup_of, resolve_of, resolve_source, SourceTree};
pub use text::{decimal_of, digit_char, hex_of, lemma_hex_len, to_decimal, to_hex};
