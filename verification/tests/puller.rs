use nephelios_cli::engine::{ErrorKind, ServiceError};
use nephelios_cli::puller::{event_lines, progress_line, progress_line_of, LogLine, PullEvent};
use nephelios_cli::service::NepheliosService;

#[test]
fn progress_with_a_status_shows_the_status_as_json() {
    assert_eq!(
        progress_line("{\"status\":\"Pulling fs layer\",\"id\":\"abc\"}"),
        Some("Pull Image info: \"Pulling fs layer\"".to_string())
    );
    assert_eq!(progress_line("{\"status\": 3}"), Some("Pull Image info: 3".to_string()));
}

#[test]
fn progress_without_a_status_shows_nothing() {
    assert_eq!(progress_line("{\"id\":\"abc\"}"), None);
    assert_eq!(progress_line("[1, 2]"), None);
    assert_eq!(progress_line("\"status\""), None);
}

#[test]
fn progress_that_is_no_json_is_shown_as_it_came() {
    assert_eq!(
        progress_line("[=====>    ] 10MB/20MB"),
        Some("Pull Image info: [=====>    ] 10MB/20MB".to_string())
    );
    assert_eq!(progress_line(""), Some("Pull Image info: ".to_string()));
}

#[test]
fn progress_line_of_follows_the_looked_up_member() {
    assert_eq!(
        progress_line_of("raw", Some(Some("\"ok\"".to_string()))),
        Some("Pull Image info: \"ok\"".to_string())
    );
    assert_eq!(progress_line_of("raw", Some(None)), None);
    assert_eq!(progress_line_of("raw", None), Some("Pull Image info: raw".to_string()));
}

#[test]
fn event_lines_show_progress_then_error() {
    let event = PullEvent::Output {
        progress: Some("{\"status\":\"Downloading\"}".to_string()),
        error: Some("layer missing".to_string()),
    };
    assert_eq!(
        event_lines(&event),
        vec![
            LogLine::Info("Pull Image info: \"Downloading\"".to_string()),
            LogLine::Error("Error: layer missing".to_string()),
        ]
    );
}

#[test]
fn event_lines_of_an_empty_output_are_empty() {
    assert!(event_lines(&PullEvent::Output { progress: None, error: None }).is_empty());
}

#[test]
fn event_lines_of_a_stream_error() {
    assert_eq!(
        event_lines(&PullEvent::StreamError("connection reset".to_string())),
        vec![LogLine::Error("Error pullings image: connection reset".to_string())]
    );
}

#[test]
fn pull_succeeds_despite_errors_inside_events() {
    let s = NepheliosService::new(None, None);
    let events = vec![
        PullEvent::Output { progress: Some("{\"status\":\"a\"}".to_string()), error: None },
        PullEvent::Output { progress: None, error: Some("layer missing".to_string()) },
    ];
    assert_eq!(s.pull_image(&events), Ok(()));
    assert_eq!(s.pull_image(&vec![]), Ok(()));
}

#[test]
fn pull_fails_where_the_stream_fails() {
    let s = NepheliosService::new(None, None);
    let events = vec![
        PullEvent::Output { progress: None, error: None },
        PullEvent::StreamError("connection reset".to_string()),
        PullEvent::Output { progress: None, error: None },
    ];
    assert_eq!(
        s.pull_image(&events),
        Err(ServiceError {
            kind: ErrorKind::ImagePullFailed,
            detail: "connection reset".to_string()
        })
    );
}

#[test]
fn pull_failure_carries_the_first_stream_error() {
    let s = NepheliosService::new(None, None);
    let events = vec![
        PullEvent::Output { progress: None, error: Some("layer missing".to_string()) },
        PullEvent::StreamError("timed out".to_string()),
        PullEvent::StreamError("connection reset".to_string()),
    ];
    let failure = s.pull_image(&events).unwrap_err();
    assert_eq!(failure.kind, ErrorKind::ImagePullFailed);
    assert_eq!(failure.detail, "timed out");
    assert_eq!(failure.message(), "Failed to pull image: timed out");
}
