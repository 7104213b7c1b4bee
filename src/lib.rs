//! Splitting binary files into fixed-size chunks and extracting byte ranges.
//!
//! The library decides what to read and write: how long each chunk is, what
//! each chunk file is called, which range an extraction covers, and how the
//! command-line arguments are parsed. Opening, reading and writing files is
//! left to the caller.
mod args;
mod chunk;
mod naming;
mod number;
mod range;
mod run;

pub use args::{end_or_len_of, parse_absolute_path, parse_end_or_len, Args, Command};
pub use chunk::{chunk_lens, chunk_pieces, lemma_chunks_reassemble, Chunker};
pub use naming::{chunk_file_name, chunk_name, decimal, digit_char, padded_index};
pub use number::{
    all_digits, digit_value, digits_value, has_hex_prefix, unsigned_number, usize_number,
};
pub use range::{
    extract_span, extract_span_spec, extracted, lemma_extract_end, lemma_extract_len,
    lemma_extract_to_end, requested_len, terminus, EndOrLen, RangeError, Span,
};
pub use run::{run, Job};
