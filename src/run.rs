use crate::args::Command;
use crate::chunk::{chunk_lens, Chunker};
use crate::range::{extract_span, extract_span_spec, EndOrLen, RangeError, Span};
use vstd::prelude::*;

verus! {

/// The work that a command comes to on a source of known length.
#[derive(Debug)]
pub enum Job {
    /// Write the chunks that the cursor hands out, one file each.
    Chunks(Chunker),
    /// Copy this byte range of the source.
    Extract(Span),
}

/// Decides what `command` does to a source of `source_len` bytes: the chunks
/// to write, or the byte range to copy, or why neither can be done.
pub fn run(command: &Command, source_len: usize) -> (r: Result<Job, RangeError>)
    ensures
        match *command {
            Command::Chunks { chunk_size, .. } => if chunk_size == 0 {
                r == Err::<Job, _>(RangeError::ZeroChunkSize)
            } else {
                &&& r matches Ok(Job::Chunks(c))
                &&& c.wf()
                &&& c.pending() == chunk_lens(source_len as nat, chunk_size as nat)
                &&& c.next_index() == 0
            },
            Command::Extract { start, end_or_len, .. } => match extract_span_spec(
                source_len as nat,
                start as nat,
                end_or_len,
            ) {
                Ok((b, n)) => r == Ok::<Job, RangeError>(
                    Job::Extract(Span { start: b as usize, len: n as usize }),
                ),
                Err(e) => r == Err::<Job, _>(e),
            },
        },
{
    match command {
        Command::Chunks { chunk_size, .. } => match Chunker::new(source_len, *chunk_size) {
            Ok(c) => Ok(Job::Chunks(c)),
            Err(e) => Err(e),
        },
        Command::Extract { start, end_or_len, .. } => {
            let t: Option<&EndOrLen> = match end_or_len {
                Some(t) => Some(t),
                None => None,
            };
            match extract_span(source_len, *start, t) {
                Ok(s) => Ok(Job::Extract(s)),
                Err(e) => Err(e),
            }
        },
    }
}

} // verus!
