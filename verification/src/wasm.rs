//! HTTP-backed reader for browser and worker execution.

use crate::{
    ChunkReader, ChunkReaderError, ChunkReaderErrorView, FetchAction, FetchActionView, FetchEvent,
    FetchEventView, FetchStep, FetchStepView, ResourceId,
};
use vstd::prelude::*;
use vstd::string::*;

verus! {

/// Fetches a resource over HTTP, treating the resource id itself as the URL:
/// unlike the file-backed readers, no base path is prefixed.
///
/// A 200 response yields the body bytes, a 404 yields `ResourceNotFound`, any
/// other status yields `HttpError`, and a host failure (no fetch-capable
/// context, a failed await, a response of an unexpected shape) yields
/// `IoError` carrying the host's rendering of the failure.
#[derive(Debug)]
pub struct HttpWasmChunkReader;

impl HttpWasmChunkReader {
    /// The base path is accepted for interface parity with the file-backed
    /// readers and ignored: resource ids already name complete URLs here.
    pub fn new(_path: &str) -> Self {
        HttpWasmChunkReader
    }
}

impl ChunkReader for HttpWasmChunkReader {
    open spec fn fetch_plan_spec(&self, id: Seq<char>) -> FetchActionView {
        FetchActionView::HttpGet { url: id }
    }

    open spec fn accepts_spec(&self, id: Seq<char>, event: FetchEventView) -> bool {
        event is HttpDone || event is HostFailed
    }

    open spec fn fetch_octets_spec(&self, id: Seq<char>, event: FetchEventView) -> FetchStepView {
        match event {
            FetchEventView::HttpDone { status, body } => if status == 200 {
                FetchStepView::Finished(Ok(body))
            } else if status == 404 {
                FetchStepView::Finished(Err(ChunkReaderErrorView::ResourceNotFound(id)))
            } else {
                FetchStepView::Finished(Err(ChunkReaderErrorView::HttpError(status)))
            },
            FetchEventView::HostFailed { message } => FetchStepView::Finished(
                Err(ChunkReaderErrorView::IoError { resource: id, source: message }),
            ),
            _ => arbitrary(),
        }
    }

    fn fetch_plan(&self, id: &ResourceId) -> (action: FetchAction) {
        FetchAction::HttpGet { url: String::from_str(id.as_str()) }
    }

    fn accepts(&self, id: &ResourceId, event: &FetchEvent) -> (r: bool) {
        matches!(event, FetchEvent::HttpDone { .. } | FetchEvent::HostFailed { .. })
    }

    fn fetch_octets(&self, id: &ResourceId, event: FetchEvent) -> (step: FetchStep) {
        match event {
            FetchEvent::HttpDone { status, body } => if status == 200 {
                FetchStep::Finished(Ok(body))
            } else if status == 404 {
                FetchStep::Finished(Err(ChunkReaderError::ResourceNotFound(id.clone())))
            } else {
                FetchStep::Finished(Err(ChunkReaderError::HttpError(status)))
            },
            FetchEvent::HostFailed { message } => FetchStep::Finished(
                Err(
                    ChunkReaderError::IoError {
                        resource: id.clone(),
                        source: crate::IoFailure::new(message),
                    },
                ),
            ),
            _ => unreached(),
        }
    }
}

/// Law: the HTTP reader branches on the status alone — 200 yields exactly the
/// body bytes, 404 yields `ResourceNotFound`, and every other status yields
/// `HttpError` with that status.
pub proof fn lemma_http_status_branching(
    reader: HttpWasmChunkReader,
    id: Seq<char>,
    status: u16,
    body: Seq<u8>,
)
    ensures
        status == 200 ==> reader.fetch_octets_spec(id, FetchEventView::HttpDone { status, body })
            == FetchStepView::Finished(Ok(body)),
        status == 404 ==> reader.fetch_octets_spec(id, FetchEventView::HttpDone { status, body })
            == FetchStepView::Finished(Err(ChunkReaderErrorView::ResourceNotFound(id))),
        status != 200 && status != 404 ==> reader.fetch_octets_spec(
            id,
            FetchEventView::HttpDone { status, body },
        ) == FetchStepView::Finished(Err(ChunkReaderErrorView::HttpError(status))),
{
}

} // verus!
