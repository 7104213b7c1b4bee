use vstd::prelude::*;

verus! {

/// How far an extraction reaches: to an absolute end offset, or for a length
/// counted from the start offset.
#[derive(Clone, Copy, Debug, PartialEq, Eq, Structural)]
pub enum EndOrLen {
    End(usize),
    Len(usize),
}

/// Why a command cannot be carried out on a source of a given length.
#[derive(Clone, Copy, Debug, PartialEq, Eq, Structural)]
pub enum RangeError {
    /// A chunk size of zero would never consume the source.
    ZeroChunkSize,
    /// The start offset lies beyond the end of the source.
    StartPastEnd,
    /// The end offset lies before the start offset.
    EndBeforeStart,
    /// The range runs past the end of the source.
    RangePastEnd,
}

/// A byte range of the source: `len` bytes from offset `start`.
#[derive(Clone, Copy, Debug, PartialEq, Eq, Structural)]
pub struct Span {
    pub start: usize,
    pub len: usize,
}

/// The number of bytes an extraction asks for, before it is checked against
/// the source: everything after `start`, at most `l` of them, or
/// `min(total, e - start)` for an end offset `e`.
pub open spec fn requested_len(total: nat, start: nat, end_or_len: Option<EndOrLen>) -> int
    recommends
        start <= total,
{
    match end_or_len {
        None => total - start,
        Some(EndOrLen::Len(l)) => vstd::math::min(total - start, l as int),
        Some(EndOrLen::End(e)) => vstd::math::min(total as int, e - start),
    }
}

/// The terminus behind an optional reference.
pub open spec fn terminus(end_or_len: Option<&EndOrLen>) -> Option<EndOrLen> {
    match end_or_len {
        Some(t) => Some(*t),
        None => None,
    }
}

/// The outcome of an extraction from `start` on a source of `total` bytes.
pub open spec fn extract_span_spec(total: nat, start: nat, end_or_len: Option<EndOrLen>) -> Result<
    (nat, nat),
    RangeError,
> {
    if start > total {
        Err(RangeError::StartPastEnd)
    } else if end_or_len matches Some(EndOrLen::End(e)) && e < start {
        Err(RangeError::EndBeforeStart)
    } else if start + requested_len(total, start, end_or_len) > total {
        Err(RangeError::RangePastEnd)
    } else {
        Ok((start, requested_len(total, start, end_or_len) as nat))
    }
}

/// The bytes that an extraction copies out of the source `f`, or `None`
/// where it fails.
pub open spec fn extracted(f: Seq<u8>, start: nat, end_or_len: Option<EndOrLen>) -> Option<Seq<u8>> {
    match extract_span_spec(f.len(), start, end_or_len) {
        Ok((b, n)) => Some(f.subrange(b as int, (b + n) as int)),
        Err(_) => None,
    }
}

/// Without a terminus, an extraction from a start offset within the source
/// copies everything from that offset to the end: `len - start` bytes.
pub proof fn lemma_extract_to_end(f: Seq<u8>, start: nat)
    requires
        start <= f.len(),
    ensures
        extracted(f, start, None) == Some(f.subrange(start as int, f.len() as int)),
        extracted(f, start, None)->0.len() == f.len() - start,
{
}

/// With a length `l`, an extraction from a start offset within the source
/// copies `min(len - start, l)` bytes from that offset on.
pub proof fn lemma_extract_len(f: Seq<u8>, start: nat, l: usize)
    requires
        start <= f.len(),
    ensures
        extracted(f, start, Some(EndOrLen::Len(l))) == Some(
            f.subrange(start as int, start + vstd::math::min(f.len() - start, l as int)),
        ),
        extracted(f, start, Some(EndOrLen::Len(l)))->0.len() == vstd::math::min(
            f.len() - start,
            l as int,
        ),
{
}

/// With an end offset `e` no smaller than the start offset, an extraction
/// copies `min(len, e - start)` bytes from the start offset on, wherever
/// that many bytes are there to copy.
pub proof fn lemma_extract_end(f: Seq<u8>, start: nat, e: usize)
    requires
        start <= e,
        start <= f.len(),
        start + vstd::math::min(f.len() as int, e - start) <= f.len(),
    ensures
        extracted(f, start, Some(EndOrLen::End(e))) == Some(
            f.subrange(start as int, start + vstd::math::min(f.len() as int, e - start)),
        ),
        extracted(f, start, Some(EndOrLen::End(e)))->0.len() == vstd::math::min(
            f.len() as int,
            e - start,
        ),
{
}

/// Returns the byte range that an extraction from `start`, up to
/// `end_or_len`, copies out of a source of `total` bytes.
///
/// Without a terminus the range runs to the end of the source. With
/// `Len(l)` it is at most `l` bytes long. With `End(e)` its length is
/// `min(total, e - start)`; where that reaches past the end of the source
/// the extraction fails.
pub fn extract_span(total: usize, start: usize, end_or_len: Option<&EndOrLen>) -> (r: Result<
    Span,
    RangeError,
>)
    ensures
        match (r, extract_span_spec(total as nat, start as nat, terminus(end_or_len))) {
            (Ok(s), Ok((b, n))) => s.start == b && s.len == n,
            (Err(e), Err(f)) => e == f,
            _ => false,
        },
{
    if start > total {
        return Err(RangeError::StartPastEnd);
    }
    let remaining = total - start;
    let len = match end_or_len {
        None => remaining,
        Some(EndOrLen::Len(l)) => if *l < remaining {
            *l
        } else {
            remaining
        },
        Some(EndOrLen::End(e)) => {
            if *e < start {
                return Err(RangeError::EndBeforeStart);
            }
            let wanted = *e - start;
            if wanted < total {
                wanted
            } else {
                total
            }
        },
    };
    if len > remaining {
        return Err(RangeError::RangePastEnd);
    }
    Ok(Span { start, len })
}

} // verus!
