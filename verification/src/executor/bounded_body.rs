//! Bounded accumulation of upstream HTTP bodies before JSON parsing.

use vstd::prelude::*;
use vstd::std_specs::iter::IteratorSpec;

use crate::executor::error::ExecutorError;

verus! {

/// Fails when a `Content-Length` header already exceeds the configured cap.
///
/// A missing length is allowed; chunked and other unknown-length bodies are
/// still capped while reading.
pub fn check_advertised_content_length(content_length: Option<u64>, max_bytes: u64) -> (verdict:
    Result<(), ExecutorError>)
    ensures
        verdict == (if content_length matches Some(len) && len > max_bytes {
            Err::<(), ExecutorError>(ExecutorError::InvalidUpstreamResult)
        } else {
            Ok(())
        }),
{
    match content_length {
        Some(len) => {
            if len > max_bytes {
                return Err(ExecutorError::InvalidUpstreamResult);
            }
            Ok(())
        },
        None => Ok(()),
    }
}

/// Appends one chunk if the result would still fit in `max_bytes`.
///
/// Nothing of the chunk is kept when it would exceed the cap, so callers can
/// stop pulling from the source after this error.
pub fn append_bounded(buf: &mut Vec<u8>, chunk: &[u8], max_bytes: usize) -> (verdict: Result<
    (),
    ExecutorError,
>)
    ensures
        if old(buf)@.len() + chunk@.len() <= max_bytes {
            verdict == Ok::<(), ExecutorError>(()) && final(buf)@ == old(buf)@ + chunk@
        } else {
            verdict == Err::<(), ExecutorError>(ExecutorError::InvalidUpstreamResult) && final(buf)@
                == old(buf)@
        },
{
    match buf.len().checked_add(chunk.len()) {
        Some(new_len) => {
            if new_len > max_bytes {
                return Err(ExecutorError::InvalidUpstreamResult);
            }
            buf.extend_from_slice(chunk);
            assert(buf@ =~= old(buf)@ + chunk@);
            Ok(())
        },
        None => Err(ExecutorError::InvalidUpstreamResult),
    }
}

/// The bytes of chunks in order.
pub open spec fn joined(chunks: Seq<Vec<u8>>) -> Seq<u8>
    decreases chunks.len(),
{
    if chunks.len() == 0 {
        Seq::empty()
    } else {
        joined(chunks.drop_last()) + chunks.last()@
    }
}

proof fn lemma_joined_prefix(chunks: Seq<Vec<u8>>, n: int)
    requires
        0 <= n <= chunks.len(),
    ensures
        joined(chunks.take(n)).len() <= joined(chunks).len(),
    decreases chunks.len(),
{
    if n == chunks.len() {
        assert(chunks.take(n) =~= chunks);
    } else {
        assert(chunks.drop_last().take(n) =~= chunks.take(n));
        lemma_joined_prefix(chunks.drop_last(), n);
    }
}

/// Accumulates chunks until the source ends or the byte cap is exceeded.
///
/// Stops without pulling further chunks once one would exceed the cap. Does not
/// decode the body.
pub fn accumulate_chunks<I: Iterator<Item = Vec<u8>>>(chunks: &mut I, max_bytes: usize) -> (body:
    Result<Vec<u8>, ExecutorError>)
    requires
        IteratorSpec::obeys_prophetic_iter_laws(old(chunks)),
        IteratorSpec::decrease(old(chunks)) is Some,
    ensures
        match body {
            Ok(body) => {
                &&& body@ == joined(IteratorSpec::remaining(old(chunks)))
                &&& body@.len() <= max_bytes
                &&& IteratorSpec::remaining(final(chunks)).len() == 0
            },
            Err(error) => {
                let all = IteratorSpec::remaining(old(chunks));
                &&& error is InvalidUpstreamResult
                &&& joined(all).len() > max_bytes
                &&& exists|pulled: int|
                    {
                        &&& 0 < pulled <= all.len()
                        &&& joined(all.take(pulled - 1)).len() <= max_bytes
                        &&& joined(#[trigger] all.take(pulled)).len() > max_bytes
                        &&& IteratorSpec::remaining(final(chunks)) == all.skip(pulled)
                    }
            },
        },
{
    let mut buf: Vec<u8> = Vec::new();
    let ghost all = IteratorSpec::remaining(chunks);
    let ghost mut pulled: int = 0;
    assert(all.skip(0) =~= all);
    assert(all.take(0) =~= Seq::empty());
    loop
        invariant
            IteratorSpec::obeys_prophetic_iter_laws(chunks),
            IteratorSpec::decrease(chunks) is Some,
            all == IteratorSpec::remaining(old(chunks)),
            0 <= pulled <= all.len(),
            IteratorSpec::remaining(chunks) == all.skip(pulled),
            buf@ == joined(all.take(pulled)),
            buf@.len() <= max_bytes,
        decreases IteratorSpec::decrease(chunks)->0,
    {
        match chunks.next() {
            Some(chunk) => {
                proof {
                    assert(all.skip(pulled).drop_first() =~= all.skip(pulled + 1));
                    assert(all.take(pulled + 1).drop_last() =~= all.take(pulled));
                    assert(all.take(pulled + 1).last() == chunk);
                    pulled = pulled + 1;
                }
                match append_bounded(&mut buf, chunk.as_slice(), max_bytes) {
                    Ok(()) => {},
                    Err(error) => {
                        proof {
                            lemma_joined_prefix(all, pulled);
                        }
                        return Err(error);
                    },
                }
            },
            None => {
                assert(all.take(pulled) =~= all);
                return Ok(buf);
            },
        }
    }
}

/// A body that is being read under a byte cap.
#[derive(Debug)]
pub struct BoundedBody {
    pub bytes: Vec<u8>,
    pub max_bytes: usize,
}

impl BoundedBody {
    /// Starts reading an answer. An advertised length above the cap fails before
    /// any chunk is pulled.
    pub fn start(content_length: Option<u64>, max_bytes: u64) -> (body: Result<
        BoundedBody,
        ExecutorError,
    >)
        ensures
            match body {
                Ok(body) => {
                    &&& !(content_length matches Some(len) && len > max_bytes)
                    &&& body.bytes@.len() == 0
                    &&& body.max_bytes == (if max_bytes <= usize::MAX {
                        max_bytes as usize
                    } else {
                        usize::MAX
                    })
                },
                Err(error) => {
                    &&& content_length matches Some(len) && len > max_bytes
                    &&& error is InvalidUpstreamResult
                },
            },
    {
        match check_advertised_content_length(content_length, max_bytes) {
            Ok(()) => Ok(
                BoundedBody {
                    bytes: Vec::new(),
                    max_bytes: if max_bytes <= usize::MAX as u64 {
                        max_bytes as usize
                    } else {
                        usize::MAX
                    },
                },
            ),
            Err(error) => Err(error),
        }
    }

    /// Takes the next chunk. After an error no further chunk is to be pulled.
    pub fn push(&mut self, chunk: &[u8]) -> (verdict: Result<(), ExecutorError>)
        ensures
            final(self).max_bytes == old(self).max_bytes,
            if old(self).bytes@.len() + chunk@.len() <= old(self).max_bytes {
                verdict == Ok::<(), ExecutorError>(()) && final(self).bytes@ == old(self).bytes@
                    + chunk@
            } else {
                verdict == Err::<(), ExecutorError>(ExecutorError::InvalidUpstreamResult)
                    && final(self).bytes@ == old(self).bytes@
            },
    {
        append_bounded(&mut self.bytes, chunk, self.max_bytes)
    }
}

/// How a failure while reading an answer is classified.
pub fn transport_error(is_timeout: bool) -> (error: ExecutorError)
    ensures
        if is_timeout {
            error == ExecutorError::TimeoutError(0)
        } else {
            error matches ExecutorError::NetworkError(detail) && detail@
                == "upstream transport error"@
        },
{
    if is_timeout {
        ExecutorError::TimeoutError(0)
    } else {
        ExecutorError::NetworkError("upstream transport error".to_owned())
    }
}

} // verus!
