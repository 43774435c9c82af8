//! A platform-agnostic chunk reader: fetch a named binary resource from one of
//! several backends (local filesystem, delayed filesystem, browser HTTP fetch)
//! behind a single uniform interface.
//!
//! The decision logic of every backend is a pure, verified function: a reader
//! first plans an I/O action for a resource, an unverified runner performs the
//! action, and the reader then turns the runner's observation into either the
//! fetched bytes or a typed error.

use vstd::prelude::*;
use vstd::string::*;

pub mod debug;
pub mod file;
pub mod wasm;

verus! {

/// Opaque identifier naming a requested resource.
///
/// Interpreted as a relative file path by the file-backed readers and as a URL
/// by the HTTP reader. No normalization or path-escape protection is applied;
/// callers are responsible for supplying well-formed identifiers.
#[derive(Debug, Eq, Hash)]
pub struct ResourceId {
    text: String,
}

impl View for ResourceId {
    type V = Seq<char>;

    closed spec fn view(&self) -> Seq<char> {
        self.text@
    }
}

impl ResourceId {
    pub fn new(id: String) -> (r: Self)
        ensures
            r@ == id@,
    {
        ResourceId { text: id }
    }

    pub fn as_str(&self) -> (r: &str)
        ensures
            r@ == self@,
    {
        self.text.as_str()
    }
}

impl Clone for ResourceId {
    fn clone(&self) -> (r: Self)
        ensures
            r@ == self@,
    {
        ResourceId { text: self.text.clone() }
    }
}

impl PartialEq for ResourceId {
    fn eq(&self, other: &Self) -> (r: bool) {
        self.text == other.text
    }
}

impl vstd::std_specs::cmp::PartialEqSpecImpl for ResourceId {
    open spec fn obeys_eq_spec() -> bool {
        true
    }

    open spec fn eq_spec(&self, other: &Self) -> bool {
        self@ == other@
    }
}

/// Cause of a failed platform I/O operation, carried for diagnostics.
///
/// Stands for whatever failure the host reported (permissions, transient disk
/// errors, a failed host fetch call) as its textual rendering.
#[derive(Debug, PartialEq, Eq)]
pub struct IoFailure {
    message: String,
}

impl View for IoFailure {
    type V = Seq<char>;

    closed spec fn view(&self) -> Seq<char> {
        self.message@
    }
}

impl IoFailure {
    pub fn new(message: String) -> (r: Self)
        ensures
            r@ == message@,
    {
        IoFailure { message }
    }

    pub fn message(&self) -> (r: &str)
        ensures
            r@ == self@,
    {
        self.message.as_str()
    }
}

impl Clone for IoFailure {
    fn clone(&self) -> (r: Self)
        ensures
            r@ == self@,
    {
        IoFailure { message: self.message.clone() }
    }
}

/// The character for a single decimal digit.
pub open spec fn decimal_digit(d: nat) -> char {
    if d == 0 {
        '0'
    } else if d == 1 {
        '1'
    } else if d == 2 {
        '2'
    } else if d == 3 {
        '3'
    } else if d == 4 {
        '4'
    } else if d == 5 {
        '5'
    } else if d == 6 {
        '6'
    } else if d == 7 {
        '7'
    } else if d == 8 {
        '8'
    } else {
        '9'
    }
}

/// The decimal rendering of a natural number, most significant digit first,
/// with no leading zeros (a lone zero for zero itself).
pub open spec fn decimal_string(n: nat) -> Seq<char>
    decreases n,
{
    if n < 10 {
        seq![decimal_digit(n)]
    } else {
        decimal_string(n / 10).push(decimal_digit(n % 10))
    }
}

fn digit_str(d: u16) -> (r: &'static str)
    requires
        d < 10,
    ensures
        r@ == seq![decimal_digit(d as nat)],
{
    if d == 0 {
        proof {
            reveal_strlit("0");
            assert("0"@ =~= seq![decimal_digit(d as nat)]);
        }
        "0"
    } else if d == 1 {
        proof {
            reveal_strlit("1");
            assert("1"@ =~= seq![decimal_digit(d as nat)]);
        }
        "1"
    } else if d == 2 {
        proof {
            reveal_strlit("2");
            assert("2"@ =~= seq![decimal_digit(d as nat)]);
        }
        "2"
    } else if d == 3 {
        proof {
            reveal_strlit("3");
            assert("3"@ =~= seq![decimal_digit(d as nat)]);
        }
        "3"
    } else if d == 4 {
        proof {
            reveal_strlit("4");
            assert("4"@ =~= seq![decimal_digit(d as nat)]);
        }
        "4"
    } else if d == 5 {
        proof {
            reveal_strlit("5");
            assert("5"@ =~= seq![decimal_digit(d as nat)]);
        }
        "5"
    } else if d == 6 {
        proof {
            reveal_strlit("6");
            assert("6"@ =~= seq![decimal_digit(d as nat)]);
        }
        "6"
    } else if d == 7 {
        proof {
            reveal_strlit("7");
            assert("7"@ =~= seq![decimal_digit(d as nat)]);
        }
        "7"
    } else if d == 8 {
        proof {
            reveal_strlit("8");
            assert("8"@ =~= seq![decimal_digit(d as nat)]);
        }
        "8"
    } else {
        proof {
            reveal_strlit("9");
            assert("9"@ =~= seq![decimal_digit(d as nat)]);
        }
        "9"
    }
}

/// The decimal rendering of a 16-bit number, as [`decimal_string`] gives it.
pub fn u16_decimal(n: u16) -> (r: String)
    ensures
        r@ == decimal_string(n as nat),
    decreases n,
{
    if n < 10 {
        String::from_str(digit_str(n))
    } else {
        let leading = u16_decimal(n / 10);
        let r = leading.concat(digit_str(n % 10));
        proof {
            assert(r@ =~= decimal_string(n as nat));
        }
        r
    }
}

/// Mathematical image of a [`ChunkReaderError`]: the same taxonomy over
/// sequences of characters.
pub enum ChunkReaderErrorView {
    ResourceNotFound(Seq<char>),
    HttpError(u16),
    IoError { resource: Seq<char>, source: Seq<char> },
}

/// The diagnostic text of an error: the variant's description followed by the
/// values it carries.
pub open spec fn error_message(e: ChunkReaderErrorView) -> Seq<char> {
    match e {
        ChunkReaderErrorView::ResourceNotFound(id) => "resource not found: "@ + id,
        ChunkReaderErrorView::HttpError(status) => "HTTP error: "@ + decimal_string(status as nat),
        ChunkReaderErrorView::IoError { resource, source } => "IO error for resource "@ + resource
            + ": "@ + source,
    }
}

/// Closed taxonomy of fetch failures.
///
/// Every error identifies the resource that failed, except where the
/// originating call site has no resource context: the fallback constructor
/// [`ChunkReaderError::from`] fills in an empty resource identifier.
#[derive(Debug, PartialEq, Eq)]
pub enum ChunkReaderError {
    /// The resource does not exist at the backend.
    ResourceNotFound(ResourceId),
    /// The backend responded with a non-200, non-404 HTTP status.
    HttpError(u16),
    /// Any other local I/O failure, carrying the original cause.
    IoError { resource: ResourceId, source: IoFailure },
}

impl View for ChunkReaderError {
    type V = ChunkReaderErrorView;

    open spec fn view(&self) -> ChunkReaderErrorView {
        match self {
            ChunkReaderError::ResourceNotFound(id) => ChunkReaderErrorView::ResourceNotFound(id@),
            ChunkReaderError::HttpError(status) => ChunkReaderErrorView::HttpError(*status),
            ChunkReaderError::IoError { resource, source } => ChunkReaderErrorView::IoError {
                resource: resource@,
                source: source@,
            },
        }
    }
}

impl ChunkReaderError {
    /// Fallback conversion of a bare I/O failure, used where the call site has
    /// no resource context: the resource identifier is left empty.
    pub fn from(error: IoFailure) -> (r: Self)
        ensures
            r@ == (ChunkReaderErrorView::IoError {
                resource: Seq::<char>::empty(),
                source: error@,
            }),
    {
        ChunkReaderError::IoError { resource: ResourceId::new(String::new()), source: error }
    }

    /// The diagnostic text for this error.
    pub fn message(&self) -> (r: String)
        ensures
            r@ == error_message(self@),
    {
        match self {
            ChunkReaderError::ResourceNotFound(id) => {
                String::from_str("resource not found: ").concat(id.as_str())
            },
            ChunkReaderError::HttpError(status) => {
                let rendered = u16_decimal(*status);
                String::from_str("HTTP error: ").concat(rendered.as_str())
            },
            ChunkReaderError::IoError { resource, source } => {
                let mut s = String::from_str("IO error for resource ");
                s.append(resource.as_str());
                s.append(": ");
                s.append(source.message());
                proof {
                    assert(s@ =~= error_message(self@));
                }
                s
            },
        }
    }

    /// The underlying I/O cause, where there is one.
    pub fn source(&self) -> (r: Option<&IoFailure>)
        ensures
            match self@ {
                ChunkReaderErrorView::IoError { source, .. } => {
                    &&& r is Some
                    &&& r->0@ == source
                },
                _ => r is None,
            },
    {
        match self {
            ChunkReaderError::IoError { source, .. } => Some(source),
            _ => None,
        }
    }
}

/// How a prefix directory and a relative resource identifier combine into one
/// path: an absolute identifier stands alone, an empty prefix adds nothing,
/// and otherwise exactly one separator joins the two.
pub open spec fn joined_path(prefix: Seq<char>, id: Seq<char>) -> Seq<char> {
    if id.len() > 0 && id[0] == '/' {
        id
    } else if prefix.len() == 0 {
        id
    } else if prefix[prefix.len() - 1] == '/' {
        prefix + id
    } else {
        prefix + seq!['/'] + id
    }
}

/// Joins a base directory and a relative identifier into a full path, as
/// [`joined_path`] describes.
pub fn join_path(prefix: &str, id: &str) -> (r: String)
    ensures
        r@ == joined_path(prefix@, id@),
{
    let id_len = id.unicode_len();
    let prefix_len = prefix.unicode_len();
    if id_len > 0 && id.get_char(0) == '/' {
        String::from_str(id)
    } else if prefix_len == 0 {
        String::from_str(id)
    } else if prefix.get_char(prefix_len - 1) == '/' {
        String::from_str(prefix).concat(id)
    } else {
        let r = String::from_str(prefix).concat("/").concat(id);
        proof {
            reveal_strlit("/");
            assert(r@ =~= joined_path(prefix@, id@));
        }
        r
    }
}

/// Mathematical image of a [`FetchAction`].
pub enum FetchActionView {
    ReadFile { path: Seq<char> },
    ProbeFile { path: Seq<char> },
    SleepThenRead { millis: u64, path: Seq<char> },
    HttpGet { url: Seq<char> },
}

/// One I/O action that a reader asks its runner to perform.
///
/// The library itself performs no I/O: a reader plans an action, an unverified
/// runner performs it and reports what it observed as a [`FetchEvent`].
#[derive(Debug, PartialEq, Eq)]
pub enum FetchAction {
    /// Read the whole file at `path`.
    ReadFile { path: String },
    /// Report whether a file exists at `path`, without reading it.
    ProbeFile { path: String },
    /// Wait at least `millis` milliseconds, then read the whole file at
    /// `path`.
    SleepThenRead { millis: u64, path: String },
    /// Issue an HTTP GET for `url` and report the status and body.
    HttpGet { url: String },
}

impl View for FetchAction {
    type V = FetchActionView;

    open spec fn view(&self) -> FetchActionView {
        match self {
            FetchAction::ReadFile { path } => FetchActionView::ReadFile { path: path@ },
            FetchAction::ProbeFile { path } => FetchActionView::ProbeFile { path: path@ },
            FetchAction::SleepThenRead { millis, path } => FetchActionView::SleepThenRead {
                millis: *millis,
                path: path@,
            },
            FetchAction::HttpGet { url } => FetchActionView::HttpGet { url: url@ },
        }
    }
}

/// Mathematical image of a [`FetchEvent`].
pub enum FetchEventView {
    ReadDone { outcome: Result<Seq<u8>, Seq<char>> },
    ProbeDone { exists: bool },
    HttpDone { status: u16, body: Seq<u8> },
    HostFailed { message: Seq<char> },
}

/// What the runner observed while performing a [`FetchAction`].
#[derive(Debug, PartialEq, Eq)]
pub enum FetchEvent {
    /// A file read finished: either the complete contents or the I/O failure.
    ReadDone { outcome: Result<Vec<u8>, IoFailure> },
    /// An existence probe finished.
    ProbeDone { exists: bool },
    /// An HTTP response arrived, with its status code and body bytes.
    HttpDone { status: u16, body: Vec<u8> },
    /// The host could not carry the action out at all (no fetch-capable
    /// context, a failed await, a value of an unexpected shape), rendered as
    /// text.
    HostFailed { message: String },
}

impl View for FetchEvent {
    type V = FetchEventView;

    open spec fn view(&self) -> FetchEventView {
        match self {
            FetchEvent::ReadDone { outcome } => FetchEventView::ReadDone {
                outcome: match outcome {
                    Ok(bytes) => Ok(bytes@),
                    Err(failure) => Err(failure@),
                },
            },
            FetchEvent::ProbeDone { exists } => FetchEventView::ProbeDone { exists: *exists },
            FetchEvent::HttpDone { status, body } => FetchEventView::HttpDone {
                status: *status,
                body: body@,
            },
            FetchEvent::HostFailed { message } => FetchEventView::HostFailed { message: message@ },
        }
    }
}

/// Mathematical image of a [`FetchStep`].
pub enum FetchStepView {
    Perform(FetchActionView),
    Finished(Result<Seq<u8>, ChunkReaderErrorView>),
}

/// Where a fetch stands after a reader interpreted the latest event: either
/// one more action to perform, or the final outcome.
#[derive(Debug, PartialEq, Eq)]
pub enum FetchStep {
    Perform(FetchAction),
    Finished(Result<Vec<u8>, ChunkReaderError>),
}

impl View for FetchStep {
    type V = FetchStepView;

    open spec fn view(&self) -> FetchStepView {
        match self {
            FetchStep::Perform(action) => FetchStepView::Perform(action@),
            FetchStep::Finished(outcome) => FetchStepView::Finished(
                match outcome {
                    Ok(bytes) => Ok(bytes@),
                    Err(e) => Err(e@),
                },
            ),
        }
    }
}

/// Capability for reading chunks of data from a source.
///
/// A fetch of one resource runs as a short dialogue with an unverified
/// runner: [`ChunkReader::fetch_plan`] names the first I/O action, the runner
/// performs it, and each observation handed to [`ChunkReader::fetch_octets`]
/// yields either another action or the final outcome. The three spec
/// functions state each reader's behaviour exactly, so a caller knows the
/// result for every observation the backend can produce.
pub trait ChunkReader {
    /// The action this reader plans first for the given resource.
    spec fn fetch_plan_spec(&self, id: Seq<char>) -> FetchActionView;

    /// Whether `event` is an observation this reader's actions can produce.
    spec fn accepts_spec(&self, id: Seq<char>, event: FetchEventView) -> bool;

    /// How this reader interprets an observation for the given resource.
    spec fn fetch_octets_spec(&self, id: Seq<char>, event: FetchEventView) -> FetchStepView;

    /// Plans the first I/O action for fetching `id`.
    fn fetch_plan(&self, id: &ResourceId) -> (action: FetchAction)
        ensures
            action@ == self.fetch_plan_spec(id@),
    ;

    /// Whether `event` is an observation this reader can interpret.
    fn accepts(&self, id: &ResourceId, event: &FetchEvent) -> (r: bool)
        ensures
            r == self.accepts_spec(id@, event@),
    ;

    /// Turns the runner's observation into the next step of the fetch:
    /// another action to perform, or the bytes of the resource, or a typed
    /// error.
    fn fetch_octets(&self, id: &ResourceId, event: FetchEvent) -> (step: FetchStep)
        requires
            self.accepts_spec(id@, event@),
        ensures
            step@ == self.fetch_octets_spec(id@, event@),
    ;
}

/// Execution environment a reader is selected for.
#[derive(Debug, Clone, Copy, PartialEq, Eq, Structural)]
pub enum Platform {
    /// Native execution with direct filesystem access.
    Native,
    /// Browser or worker execution, where resources come over HTTP.
    Browser,
}

/// The reader that platform selection produced: filesystem-backed for native
/// execution, HTTP-backed for the browser.
#[derive(Debug)]
pub enum PlatformReader {
    File(crate::file::FileChunkReader),
    Http(crate::wasm::HttpWasmChunkReader),
}

impl ChunkReader for PlatformReader {
    open spec fn fetch_plan_spec(&self, id: Seq<char>) -> FetchActionView {
        match self {
            PlatformReader::File(reader) => reader.fetch_plan_spec(id),
            PlatformReader::Http(reader) => reader.fetch_plan_spec(id),
        }
    }

    open spec fn accepts_spec(&self, id: Seq<char>, event: FetchEventView) -> bool {
        match self {
            PlatformReader::File(reader) => reader.accepts_spec(id, event),
            PlatformReader::Http(reader) => reader.accepts_spec(id, event),
        }
    }

    open spec fn fetch_octets_spec(&self, id: Seq<char>, event: FetchEventView) -> FetchStepView {
        match self {
            PlatformReader::File(reader) => reader.fetch_octets_spec(id, event),
            PlatformReader::Http(reader) => reader.fetch_octets_spec(id, event),
        }
    }

    fn fetch_plan(&self, id: &ResourceId) -> (action: FetchAction) {
        match self {
            PlatformReader::File(reader) => reader.fetch_plan(id),
            PlatformReader::Http(reader) => reader.fetch_plan(id),
        }
    }

    fn accepts(&self, id: &ResourceId, event: &FetchEvent) -> (r: bool) {
        match self {
            PlatformReader::File(reader) => reader.accepts(id, event),
            PlatformReader::Http(reader) => reader.accepts(id, event),
        }
    }

    fn fetch_octets(&self, id: &ResourceId, event: FetchEvent) -> (step: FetchStep) {
        match self {
            PlatformReader::File(reader) => reader.fetch_octets(id, event),
            PlatformReader::Http(reader) => reader.fetch_octets(id, event),
        }
    }
}

/// Creates the chunk reader appropriate for the given execution environment:
/// a file-based reader over `path` for native platforms, an HTTP-based reader
/// for the browser. The choice is made once, at construction time.
#[must_use]
pub fn get_platform_reader(path: &str, platform: Platform) -> (r: PlatformReader)
    ensures
        platform == Platform::Native ==> (match r {
            PlatformReader::File(reader) => reader.prefix_path@ == path@,
            PlatformReader::Http(_) => false,
        }),
        platform == Platform::Browser ==> r is Http,
{
    match platform {
        Platform::Native => PlatformReader::File(
            crate::file::FileChunkReader::new(String::from_str(path)),
        ),
        Platform::Browser => PlatformReader::Http(crate::wasm::HttpWasmChunkReader::new(path)),
    }
}

/// Law: a fetch is idempotent against an unchanged backend. Every reader's
/// plan and interpretation are functions of its configuration, the resource
/// id and the backend's observation alone, so repeated calls in which the
/// backend reports the same contents return identical bytes.
pub proof fn lemma_fetch_octets_idempotent<R: ChunkReader>(
    reader: &R,
    first_id: Seq<char>,
    second_id: Seq<char>,
    first_event: FetchEventView,
    second_event: FetchEventView,
)
    requires
        first_id == second_id,
        first_event == second_event,
    ensures
        reader.fetch_plan_spec(first_id) == reader.fetch_plan_spec(second_id),
        reader.fetch_octets_spec(first_id, first_event) == reader.fetch_octets_spec(
            second_id,
            second_event,
        ),
{
}

} // verus!
