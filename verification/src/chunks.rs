use vstd::prelude::*;
use crate::errors::CoreError;
use crate::text::split_spaces;
use crate::text::split_whitespace_words;

verus! {

/// A finite source of completion chunks, drained by the consumer.
///
/// The source yields its text chunks in order, then, if the exchange
/// ended in a failure, that failure exactly once, and nothing after
/// it. Cancelling the source stops all further delivery. A source is
/// not restartable: a retry asks the provider for a new one.
pub struct ChunkSource {
    chunks: Vec<String>,
    next: usize,
    failure: Option<CoreError>,
    canceled: bool,
}

impl ChunkSource {
    pub closed spec fn wf(&self) -> bool {
        self.next <= self.chunks.len()
    }

    /// The text chunks not yet delivered, in delivery order.
    pub closed spec fn remaining_texts(&self) -> Seq<Seq<char>> {
        self.chunks.deep_view().skip(self.next as int)
    }

    /// The terminal failure still owed to the consumer, if any.
    pub closed spec fn spec_failure(&self) -> Option<CoreError> {
        self.failure
    }

    pub closed spec fn is_canceled(&self) -> bool {
        self.canceled
    }

    /// A source that will deliver exactly the given chunks and end
    /// cleanly.
    pub fn from_chunks(chunks: Vec<String>) -> (r: ChunkSource)
        ensures
            r.wf(),
            r.remaining_texts() == chunks.deep_view(),
            r.spec_failure() is None,
            !r.is_canceled(),
    {
        let r = ChunkSource { chunks, next: 0, failure: None, canceled: false };
        proof {
            assert(r.remaining_texts() =~= r.chunks.deep_view());
        }
        r
    }

    /// A source that delivers the given chunks and then reports the
    /// given terminal failure: the shape of an exchange that broke off
    /// mid-stream. Chunks delivered before the failure remain valid.
    pub fn from_chunks_then_failure(chunks: Vec<String>, failure: CoreError) -> (r: ChunkSource)
        ensures
            r.wf(),
            r.remaining_texts() == chunks.deep_view(),
            r.spec_failure() == Some(failure),
            !r.is_canceled(),
    {
        let r = ChunkSource { chunks, next: 0, failure: Some(failure), canceled: false };
        proof {
            assert(r.remaining_texts() =~= r.chunks.deep_view());
        }
        r
    }

    /// The sanctioned degenerate stream of a backend that completes
    /// first and re-splits the completed text into word-sized chunks.
    pub fn from_completion(text: &str) -> (r: ChunkSource)
        ensures
            r.wf(),
            r.remaining_texts() == split_spaces(text@),
            r.spec_failure() is None,
            !r.is_canceled(),
    {
        Self::from_chunks(split_whitespace_words(text))
    }

    /// Deliver the next chunk: the next text if one is pending, then
    /// the terminal failure if one is owed, and `None` from then on.
    /// A cancelled source delivers nothing and changes nothing.
    pub fn next_chunk(&mut self) -> (r: Option<Result<String, CoreError>>)
        requires
            old(self).wf(),
        ensures
            final(self).wf(),
            final(self).is_canceled() == old(self).is_canceled(),
            old(self).is_canceled() ==> r is None && *final(self) == *old(self),
            !old(self).is_canceled() && old(self).remaining_texts().len() > 0 ==> ({
                &&& r matches Some(Ok(c)) && c@ == old(self).remaining_texts()[0]
                &&& final(self).remaining_texts() == old(self).remaining_texts().drop_first()
                &&& final(self).spec_failure() == old(self).spec_failure()
            }),
            !old(self).is_canceled() && old(self).remaining_texts().len() == 0 && old(
                self,
            ).spec_failure() is Some ==> ({
                &&& r == Some(Err::<String, CoreError>(old(self).spec_failure()->0))
                &&& final(self).remaining_texts().len() == 0
                &&& final(self).spec_failure() is None
            }),
            !old(self).is_canceled() && old(self).remaining_texts().len() == 0 && old(
                self,
            ).spec_failure() is None ==> r is None && *final(self) == *old(self),
    {
        if self.canceled {
            None
        } else if self.next < self.chunks.len() {
            let c = self.chunks[self.next].clone();
            proof {
                assert(c@ == self.chunks.deep_view()[self.next as int]);
            }
            self.next = self.next + 1;
            proof {
                assert(self.remaining_texts() =~= old(self).remaining_texts().drop_first());
            }
            Some(Ok(c))
        } else {
            match self.failure.take() {
                Some(e) => Some(Err(e)),
                None => None,
            }
        }
    }

    /// Stop all further delivery. Chunks already delivered stay valid;
    /// nothing follows the cancellation point.
    pub fn cancel(&mut self)
        ensures
            final(self).is_canceled(),
            final(self).wf() == old(self).wf(),
    {
        self.canceled = true;
    }
}

} // verus!
