//! Delayed filesystem-backed reader for exercising latency-sensitive callers.

use crate::{
    join_path, joined_path, ChunkReader, ChunkReaderError, ChunkReaderErrorView, FetchAction,
    FetchActionView, FetchEvent, FetchEventView, FetchStep, FetchStepView, ResourceId,
};
use vstd::prelude::*;

verus! {

/// Like [`crate::file::FileChunkReader`], but probes for existence first —
/// reporting a missing file as `ResourceNotFound` rather than `IoError` — and
/// asks its runner to wait a fixed delay before the read, simulating network
/// latency.
#[derive(Debug)]
pub struct FileChunkReaderDebug {
    /// Base directory under which resource ids are resolved.
    pub prefix: String,
    /// Milliseconds to wait before reading the resource.
    pub delay_ms: u64,
}

impl FileChunkReaderDebug {
    /// Creates a reader over `prefix` that waits `delay_ms` milliseconds
    /// before fetching each resource.
    pub fn new(prefix: String, delay_ms: u64) -> (r: Self)
        ensures
            r.prefix@ == prefix@,
            r.delay_ms == delay_ms,
    {
        FileChunkReaderDebug { prefix, delay_ms }
    }
}

impl ChunkReader for FileChunkReaderDebug {
    open spec fn fetch_plan_spec(&self, id: Seq<char>) -> FetchActionView {
        FetchActionView::ProbeFile { path: joined_path(self.prefix@, id) }
    }

    open spec fn accepts_spec(&self, id: Seq<char>, event: FetchEventView) -> bool {
        event is ProbeDone || event is ReadDone
    }

    open spec fn fetch_octets_spec(&self, id: Seq<char>, event: FetchEventView) -> FetchStepView {
        match event {
            FetchEventView::ProbeDone { exists } => if exists {
                FetchStepView::Perform(
                    FetchActionView::SleepThenRead {
                        millis: self.delay_ms,
                        path: joined_path(self.prefix@, id),
                    },
                )
            } else {
                FetchStepView::Finished(Err(ChunkReaderErrorView::ResourceNotFound(id)))
            },
            FetchEventView::ReadDone { outcome } => match outcome {
                Ok(bytes) => FetchStepView::Finished(Ok(bytes)),
                Err(failure) => FetchStepView::Finished(
                    Err(ChunkReaderErrorView::IoError { resource: id, source: failure }),
                ),
            },
            _ => arbitrary(),
        }
    }

    fn fetch_plan(&self, id: &ResourceId) -> (action: FetchAction) {
        FetchAction::ProbeFile { path: join_path(self.prefix.as_str(), id.as_str()) }
    }

    fn accepts(&self, id: &ResourceId, event: &FetchEvent) -> (r: bool) {
        matches!(event, FetchEvent::ProbeDone { .. } | FetchEvent::ReadDone { .. })
    }

    fn fetch_octets(&self, id: &ResourceId, event: FetchEvent) -> (step: FetchStep) {
        match event {
            FetchEvent::ProbeDone { exists } => if exists {
                FetchStep::Perform(
                    FetchAction::SleepThenRead {
                        millis: self.delay_ms,
                        path: join_path(self.prefix.as_str(), id.as_str()),
                    },
                )
            } else {
                FetchStep::Finished(Err(ChunkReaderError::ResourceNotFound(id.clone())))
            },
            FetchEvent::ReadDone { outcome } => match outcome {
                Ok(bytes) => FetchStep::Finished(Ok(bytes)),
                Err(failure) => FetchStep::Finished(
                    Err(ChunkReaderError::IoError { resource: id.clone(), source: failure }),
                ),
            },
            _ => unreached(),
        }
    }
}

/// Law: against a backend that holds the resource, the delayed reader probes
/// the joined path, then asks for a wait of exactly the configured delay
/// before the read, and returns exactly the stored bytes.
pub proof fn lemma_debug_fetch_round_trip(
    reader: FileChunkReaderDebug,
    fs: Map<Seq<char>, Seq<u8>>,
    id: Seq<char>,
)
    requires
        fs.contains_key(joined_path(reader.prefix@, id)),
    ensures
        reader.fetch_plan_spec(id) == (FetchActionView::ProbeFile {
            path: joined_path(reader.prefix@, id),
        }),
        reader.fetch_octets_spec(id, FetchEventView::ProbeDone { exists: true })
            == FetchStepView::Perform(
            FetchActionView::SleepThenRead {
                millis: reader.delay_ms,
                path: joined_path(reader.prefix@, id),
            },
        ),
        reader.fetch_octets_spec(
            id,
            FetchEventView::ReadDone { outcome: Ok(fs[joined_path(reader.prefix@, id)]) },
        ) == FetchStepView::Finished(Ok(fs[joined_path(reader.prefix@, id)])),
{
}

/// Law: the two filesystem readers report a missing resource differently, and
/// the difference is kept deliberately: the delayed reader answers a failed
/// probe with `ResourceNotFound`, while the plain reader wraps the read
/// failure it gets for the same resource as `IoError`.
pub proof fn lemma_missing_resource_asymmetry(
    plain: crate::file::FileChunkReader,
    delayed: FileChunkReaderDebug,
    id: Seq<char>,
    failure: Seq<char>,
)
    ensures
        delayed.fetch_octets_spec(id, FetchEventView::ProbeDone { exists: false })
            == FetchStepView::Finished(Err(ChunkReaderErrorView::ResourceNotFound(id))),
        plain.fetch_octets_spec(id, FetchEventView::ReadDone { outcome: Err(failure) })
            == FetchStepView::Finished(
            Err(ChunkReaderErrorView::IoError { resource: id, source: failure }),
        ),
{
}

} // verus!
