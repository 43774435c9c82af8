//! Filesystem-backed reader.

use crate::{
    join_path, joined_path, ChunkReader, ChunkReaderError, ChunkReaderErrorView, FetchAction,
    FetchActionView, FetchEvent, FetchEventView, FetchStep, FetchStepView, ResourceId,
};
use vstd::prelude::*;

verus! {

/// Reads bytes from a local path formed by joining a configured prefix
/// directory with the resource id.
///
/// Any read failure becomes `IoError`: this reader does not distinguish a
/// missing file from other I/O failures, unlike
/// [`crate::debug::FileChunkReaderDebug`], which probes for existence first.
#[derive(Debug)]
pub struct FileChunkReader {
    /// Base directory under which resource ids are resolved.
    pub prefix_path: String,
}

impl FileChunkReader {
    pub fn new(prefix: String) -> (r: Self)
        ensures
            r.prefix_path@ == prefix@,
    {
        FileChunkReader { prefix_path: prefix }
    }
}

impl ChunkReader for FileChunkReader {
    open spec fn fetch_plan_spec(&self, id: Seq<char>) -> FetchActionView {
        FetchActionView::ReadFile { path: joined_path(self.prefix_path@, id) }
    }

    open spec fn accepts_spec(&self, id: Seq<char>, event: FetchEventView) -> bool {
        event is ReadDone
    }

    open spec fn fetch_octets_spec(&self, id: Seq<char>, event: FetchEventView) -> FetchStepView {
        match event {
            FetchEventView::ReadDone { outcome } => match outcome {
                Ok(bytes) => FetchStepView::Finished(Ok(bytes)),
                Err(failure) => FetchStepView::Finished(
                    Err(ChunkReaderErrorView::IoError { resource: id, source: failure }),
                ),
            },
            _ => arbitrary(),
        }
    }

    fn fetch_plan(&self, id: &ResourceId) -> (action: FetchAction) {
        FetchAction::ReadFile { path: join_path(self.prefix_path.as_str(), id.as_str()) }
    }

    fn accepts(&self, id: &ResourceId, event: &FetchEvent) -> (r: bool) {
        matches!(event, FetchEvent::ReadDone { .. })
    }

    fn fetch_octets(&self, id: &ResourceId, event: FetchEvent) -> (step: FetchStep) {
        match event {
            FetchEvent::ReadDone { outcome } => match outcome {
                Ok(bytes) => FetchStep::Finished(Ok(bytes)),
                Err(failure) => FetchStep::Finished(
                    Err(ChunkReaderError::IoError { resource: id.clone(), source: failure }),
                ),
            },
            _ => unreached(),
        }
    }
}

/// Law: against a backend that holds the resource, the fetch dialogue plans a
/// read of the joined path and returns exactly the stored bytes, byte for
/// byte.
pub proof fn lemma_file_fetch_round_trip(
    reader: FileChunkReader,
    fs: Map<Seq<char>, Seq<u8>>,
    id: Seq<char>,
)
    requires
        fs.contains_key(joined_path(reader.prefix_path@, id)),
    ensures
        reader.fetch_plan_spec(id) == (FetchActionView::ReadFile {
            path: joined_path(reader.prefix_path@, id),
        }),
        reader.fetch_octets_spec(
            id,
            FetchEventView::ReadDone { outcome: Ok(fs[joined_path(reader.prefix_path@, id)]) },
        ) == FetchStepView::Finished(Ok(fs[joined_path(reader.prefix_path@, id)])),
{
}

} // verus!
