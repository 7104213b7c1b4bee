use crate::number::{maybe_hex_usize, usize_number};
use crate::range::EndOrLen;
use vstd::prelude::*;
use vstd::string::*;

verus! {

#[verifier::external_type_specification]
#[verifier::external_body]
pub struct ExPathBuf(std::path::PathBuf);

/// The parsed command line.
#[derive(Debug)]
pub struct Args {
    pub command: Command,
}

/// The operation to carry out, with its parameters.
#[derive(Debug)]
pub enum Command {
    /// Split the file at `path` into chunks of `chunk_size` bytes, written
    /// beside it.
    Chunks { path: std::path::PathBuf, chunk_size: usize, overwrite: bool },
    /// Copy a byte range of the file at `path`, from `start` up to
    /// `end_or_len` (to the end of the file where it is absent), into the
    /// file at `output_path`.
    Extract {
        path: std::path::PathBuf,
        output_path: std::path::PathBuf,
        start: usize,
        end_or_len: Option<EndOrLen>,
        overwrite: bool,
    },
}

/// Relies on `path_absolutize::Absolutize::absolutize`: resolves the path
/// lexically against the current directory, and fails only where that
/// directory cannot be had. What comes back depends on the process's
/// current directory, so nothing is stated of it.
#[verifier::external_body]
fn absolutize(s: &str) -> (r: Option<std::path::PathBuf>) {
    match path_absolutize::Absolutize::absolutize(std::path::Path::new(s)) {
        Ok(p) => Some(p.to_path_buf()),
        Err(_) => None,
    }
}

/// Resolves `s` to an absolute path without following symbolic links; the
/// path need not exist. Fails with the message `invalid path` where it
/// cannot be resolved.
pub fn parse_absolute_path(s: &str) -> (r: Result<std::path::PathBuf, String>)
    ensures
        r is Err ==> r->Err_0@ == "invalid path"@,
{
    match absolutize(s) {
        Some(p) => Ok(p),
        None => {
            let e = String::from_str("invalid path");
            proof {
                reveal_strlit("invalid path");
            }
            Err(e)
        },
    }
}

/// The terminus that `s` spells: a length where it starts with `+`, an end
/// offset otherwise, each a decimal or `0x`-prefixed hexadecimal number.
pub open spec fn end_or_len_of(s: Seq<char>) -> Option<EndOrLen> {
    if s.len() > 0 && s[0] == '+' {
        match usize_number(s.skip(1)) {
            Some(n) => Some(EndOrLen::Len(n)),
            None => None,
        }
    } else {
        match usize_number(s) {
            Some(n) => Some(EndOrLen::End(n)),
            None => None,
        }
    }
}

/// Parses the terminus of an extraction: `+` and a length, or an end offset.
pub fn parse_end_or_len(s: &str) -> (r: Result<EndOrLen, String>)
    ensures
        r is Ok <==> end_or_len_of(s@) is Some,
        r is Ok ==> r->Ok_0 == end_or_len_of(s@)->0,
{
    let n = s.unicode_len();
    if n > 0 && s.get_char(0) == '+' {
        let rest = s.substring_char(1, n);
        match maybe_hex_usize(rest) {
            Ok(v) => Ok(EndOrLen::Len(v)),
            Err(e) => Err(e),
        }
    } else {
        match maybe_hex_usize(s) {
            Ok(v) => Ok(EndOrLen::End(v)),
            Err(e) => Err(e),
        }
    }
}

} // verus!
