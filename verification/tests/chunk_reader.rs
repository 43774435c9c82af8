use chunk_reader::debug::FileChunkReaderDebug;
use chunk_reader::file::FileChunkReader;
use chunk_reader::wasm::HttpWasmChunkReader;
use chunk_reader::{
    get_platform_reader, join_path, u16_decimal, ChunkReader, ChunkReaderError, FetchAction,
    FetchEvent, FetchStep, IoFailure, Platform, PlatformReader, ResourceId,
};

/// A stand-in for the 699-byte PNG fixture: the PNG signature up front, the
/// tail of an IEND chunk at the end.
fn png_fixture() -> Vec<u8> {
    let mut bytes = vec![0x89u8, 0x50, 0x4e, 0x47, 0x0d];
    while bytes.len() < 696 {
        bytes.push(0);
    }
    bytes.push(0x42);
    bytes.push(0x60);
    bytes.push(0x82);
    bytes
}

/// Runs one fetch dialogue: performs each planned action by handing back the
/// next scripted event, and returns the actions the reader asked for along
/// with the final outcome.
fn run_dialogue<R: ChunkReader>(
    reader: &R,
    id: &ResourceId,
    responses: Vec<FetchEvent>,
) -> (Vec<FetchAction>, Result<Vec<u8>, ChunkReaderError>) {
    let mut actions = Vec::new();
    let mut responses = responses.into_iter();
    let mut step = FetchStep::Perform(reader.fetch_plan(id));
    loop {
        match step {
            FetchStep::Finished(outcome) => return (actions, outcome),
            FetchStep::Perform(action) => {
                actions.push(action);
                let event = responses.next().expect("the dialogue needs another event");
                assert!(reader.accepts(id, &event));
                step = reader.fetch_octets(id, event);
            }
        }
    }
}

#[test]
fn load_small_png() {
    let reader = FileChunkReader::new("assets/".to_string());
    let id = ResourceId::new("ladder_top.png".to_string());
    let (actions, outcome) = run_dialogue(
        &reader,
        &id,
        vec![FetchEvent::ReadDone { outcome: Ok(png_fixture()) }],
    );
    assert_eq!(
        actions,
        vec![FetchAction::ReadFile { path: "assets/ladder_top.png".to_string() }]
    );
    let found = outcome.expect("png file could not be loaded");
    assert_eq!(found.len(), 699);
    assert_eq!(&found[..5], &[0x89, 0x50, 0x4e, 0x47, 0x0d]);
    assert_eq!(&found[696..699], &[0x42, 0x60, 0x82]);
}

#[test]
fn load_small_png_debug() {
    let reader = FileChunkReaderDebug::new("assets/".to_string(), 100);
    let id = ResourceId::new("ladder_top.png".to_string());
    let (actions, outcome) = run_dialogue(
        &reader,
        &id,
        vec![
            FetchEvent::ProbeDone { exists: true },
            FetchEvent::ReadDone { outcome: Ok(png_fixture()) },
        ],
    );
    assert_eq!(
        actions,
        vec![
            FetchAction::ProbeFile { path: "assets/ladder_top.png".to_string() },
            FetchAction::SleepThenRead { millis: 100, path: "assets/ladder_top.png".to_string() },
        ]
    );
    let found = outcome.expect("png file could not be loaded");
    assert_eq!(found.len(), 699);
    assert_eq!(&found[..5], &[0x89, 0x50, 0x4e, 0x47, 0x0d]);
    assert_eq!(&found[696..699], &[0x42, 0x60, 0x82]);
}

#[test]
fn file_reader_round_trips_existing_bytes() {
    let reader = FileChunkReader::new("data".to_string());
    let id = ResourceId::new("blob.bin".to_string());
    let stored = vec![1u8, 2, 3, 4, 5];
    let (actions, outcome) = run_dialogue(
        &reader,
        &id,
        vec![FetchEvent::ReadDone { outcome: Ok(stored.clone()) }],
    );
    assert_eq!(actions, vec![FetchAction::ReadFile { path: "data/blob.bin".to_string() }]);
    assert_eq!(outcome.unwrap(), stored);
}

#[test]
fn file_reader_wraps_any_read_failure_as_io_error() {
    let reader = FileChunkReader::new("assets/".to_string());
    let id = ResourceId::new("missing.png".to_string());
    let failure = IoFailure::new("no such file or directory".to_string());
    let (_, outcome) = run_dialogue(
        &reader,
        &id,
        vec![FetchEvent::ReadDone { outcome: Err(failure) }],
    );
    match outcome {
        Err(ChunkReaderError::IoError { resource, source }) => {
            assert_eq!(resource.as_str(), "missing.png");
            assert_eq!(source.message(), "no such file or directory");
        }
        other => panic!("expected IoError, got {:?}", other),
    }
}

#[test]
fn debug_reader_reports_missing_resource_as_not_found() {
    let reader = FileChunkReaderDebug::new("assets/".to_string(), 100);
    let id = ResourceId::new("missing.png".to_string());
    let (actions, outcome) = run_dialogue(
        &reader,
        &id,
        vec![FetchEvent::ProbeDone { exists: false }],
    );
    assert_eq!(actions, vec![FetchAction::ProbeFile { path: "assets/missing.png".to_string() }]);
    match outcome {
        Err(ChunkReaderError::ResourceNotFound(resource)) => {
            assert_eq!(resource.as_str(), "missing.png");
        }
        other => panic!("expected ResourceNotFound, got {:?}", other),
    }
}

#[test]
fn debug_reader_asks_for_the_configured_delay() {
    let reader = FileChunkReaderDebug::new("assets".to_string(), 250);
    let id = ResourceId::new("a.bin".to_string());
    let step = reader.fetch_octets(&id, FetchEvent::ProbeDone { exists: true });
    assert_eq!(
        step,
        FetchStep::Perform(FetchAction::SleepThenRead {
            millis: 250,
            path: "assets/a.bin".to_string(),
        })
    );
}

#[test]
fn debug_reader_wraps_late_read_failure_as_io_error() {
    let reader = FileChunkReaderDebug::new("assets".to_string(), 10);
    let id = ResourceId::new("a.bin".to_string());
    let failure = IoFailure::new("permission denied".to_string());
    let (_, outcome) = run_dialogue(
        &reader,
        &id,
        vec![
            FetchEvent::ProbeDone { exists: true },
            FetchEvent::ReadDone { outcome: Err(failure) },
        ],
    );
    match outcome {
        Err(ChunkReaderError::IoError { resource, source }) => {
            assert_eq!(resource.as_str(), "a.bin");
            assert_eq!(source.message(), "permission denied");
        }
        other => panic!("expected IoError, got {:?}", other),
    }
}

#[test]
fn http_reader_returns_body_on_200() {
    let reader = HttpWasmChunkReader::new("");
    let id = ResourceId::new("https://example.test/ladder_top.png".to_string());
    let body = png_fixture();
    let (actions, outcome) = run_dialogue(
        &reader,
        &id,
        vec![FetchEvent::HttpDone { status: 200, body: body.clone() }],
    );
    assert_eq!(
        actions,
        vec![FetchAction::HttpGet { url: "https://example.test/ladder_top.png".to_string() }]
    );
    assert_eq!(outcome.unwrap(), body);
}

#[test]
fn http_reader_returns_not_found_on_404() {
    let reader = HttpWasmChunkReader::new("");
    let id = ResourceId::new("gone.png".to_string());
    let (_, outcome) = run_dialogue(
        &reader,
        &id,
        vec![FetchEvent::HttpDone { status: 404, body: Vec::new() }],
    );
    match outcome {
        Err(ChunkReaderError::ResourceNotFound(resource)) => {
            assert_eq!(resource.as_str(), "gone.png");
        }
        other => panic!("expected ResourceNotFound, got {:?}", other),
    }
}

#[test]
fn http_reader_returns_http_error_on_other_status() {
    let reader = HttpWasmChunkReader::new("");
    let id = ResourceId::new("broken.png".to_string());
    let (_, outcome) = run_dialogue(
        &reader,
        &id,
        vec![FetchEvent::HttpDone { status: 500, body: vec![1, 2, 3] }],
    );
    assert_eq!(outcome.unwrap_err(), ChunkReaderError::HttpError(500));
}

#[test]
fn http_reader_wraps_host_failure_as_io_error() {
    let reader = HttpWasmChunkReader::new("");
    let id = ResourceId::new("x.png".to_string());
    let (_, outcome) = run_dialogue(
        &reader,
        &id,
        vec![FetchEvent::HostFailed {
            message: "could not find a window or a worker from javascript".to_string(),
        }],
    );
    match outcome {
        Err(ChunkReaderError::IoError { resource, source }) => {
            assert_eq!(resource.as_str(), "x.png");
            assert_eq!(
                source.message(),
                "could not find a window or a worker from javascript"
            );
        }
        other => panic!("expected IoError, got {:?}", other),
    }
}

#[test]
fn repeated_fetches_with_unchanged_backend_are_identical() {
    let reader = FileChunkReaderDebug::new("assets/".to_string(), 5);
    let id = ResourceId::new("ladder_top.png".to_string());
    let script = || {
        vec![
            FetchEvent::ProbeDone { exists: true },
            FetchEvent::ReadDone { outcome: Ok(png_fixture()) },
        ]
    };
    let (first_actions, first) = run_dialogue(&reader, &id, script());
    let (second_actions, second) = run_dialogue(&reader, &id, script());
    assert_eq!(first_actions, second_actions);
    assert_eq!(first.unwrap(), second.unwrap());
}

#[test]
fn join_path_inserts_exactly_one_separator() {
    assert_eq!(join_path("assets/", "ladder_top.png"), "assets/ladder_top.png");
    assert_eq!(join_path("assets", "ladder_top.png"), "assets/ladder_top.png");
    assert_eq!(join_path("", "ladder_top.png"), "ladder_top.png");
    assert_eq!(join_path("assets", "/abs/ladder_top.png"), "/abs/ladder_top.png");
}

#[test]
fn u16_decimal_renders_exact_digits() {
    assert_eq!(u16_decimal(0), "0");
    assert_eq!(u16_decimal(7), "7");
    assert_eq!(u16_decimal(200), "200");
    assert_eq!(u16_decimal(404), "404");
    assert_eq!(u16_decimal(65535), "65535");
}

#[test]
fn error_messages_render_variant_and_values() {
    let not_found = ChunkReaderError::ResourceNotFound(ResourceId::new("a.png".to_string()));
    assert_eq!(not_found.message(), "resource not found: a.png");
    let http = ChunkReaderError::HttpError(500);
    assert_eq!(http.message(), "HTTP error: 500");
    let io = ChunkReaderError::IoError {
        resource: ResourceId::new("a.png".to_string()),
        source: IoFailure::new("boom".to_string()),
    };
    assert_eq!(io.message(), "IO error for resource a.png: boom");
}

#[test]
fn fallback_conversion_uses_empty_resource_id() {
    let error = ChunkReaderError::from(IoFailure::new("disk on fire".to_string()));
    match error {
        ChunkReaderError::IoError { resource, source } => {
            assert_eq!(resource.as_str(), "");
            assert_eq!(source.message(), "disk on fire");
        }
        other => panic!("expected IoError, got {:?}", other),
    }
}

#[test]
fn error_source_is_exposed_only_for_io_errors() {
    let io = ChunkReaderError::IoError {
        resource: ResourceId::new("a".to_string()),
        source: IoFailure::new("cause".to_string()),
    };
    assert_eq!(io.source().map(IoFailure::message), Some("cause"));
    assert!(ChunkReaderError::HttpError(500).source().is_none());
    let not_found = ChunkReaderError::ResourceNotFound(ResourceId::new("a".to_string()));
    assert!(not_found.source().is_none());
}

#[test]
fn resource_id_round_trips_its_text() {
    let id = ResourceId::new("ladder_top.png".to_string());
    assert_eq!(id.as_str(), "ladder_top.png");
    let copy = id.clone();
    assert_eq!(copy, id);
    assert_ne!(ResourceId::new("other".to_string()), id);
}

#[test]
fn readers_accept_only_their_own_observations() {
    let id = ResourceId::new("a".to_string());
    let file = FileChunkReader::new("p".to_string());
    assert!(file.accepts(&id, &FetchEvent::ReadDone { outcome: Ok(Vec::new()) }));
    assert!(!file.accepts(&id, &FetchEvent::HttpDone { status: 200, body: Vec::new() }));
    let http = HttpWasmChunkReader::new("p");
    assert!(http.accepts(&id, &FetchEvent::HostFailed { message: String::new() }));
    assert!(!http.accepts(&id, &FetchEvent::ProbeDone { exists: true }));
    let delayed = FileChunkReaderDebug::new("p".to_string(), 1);
    assert!(delayed.accepts(&id, &FetchEvent::ProbeDone { exists: true }));
    assert!(!delayed.accepts(&id, &FetchEvent::HostFailed { message: String::new() }));
}

#[test]
fn platform_reader_selects_backend_by_platform() {
    let id = ResourceId::new("ladder_top.png".to_string());
    let native = get_platform_reader("assets/", Platform::Native);
    assert!(matches!(native, PlatformReader::File(_)));
    assert_eq!(
        native.fetch_plan(&id),
        FetchAction::ReadFile { path: "assets/ladder_top.png".to_string() }
    );
    let browser = get_platform_reader("assets/", Platform::Browser);
    assert!(matches!(browser, PlatformReader::Http(_)));
    assert_eq!(
        browser.fetch_plan(&id),
        FetchAction::HttpGet { url: "ladder_top.png".to_string() }
    );
}
