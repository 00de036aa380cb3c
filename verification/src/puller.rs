//! The reading of an image pull: what each event of the engine's progress
//! stream shows to the operator, and whether the pull as a whole failed.

use crate::engine::{outcome_view, ErrorKind, ErrorView, ServiceError};
use crate::service::NepheliosService;
use vstd::prelude::*;

verus! {

/// One event of the engine's progress stream.
pub enum PullEvent {
    /// The engine reported on the pull: a progress text, an error text, both or neither.
    Output { progress: Option<String>, error: Option<String> },
    /// The stream itself failed, with the failure's text.
    StreamError(String),
}

/// A line for the operator: on standard output or on standard error.
#[derive(Debug, PartialEq, Eq)]
pub enum LogLine {
    Info(String),
    Error(String),
}

/// A line as a sequence of characters.
pub enum LineView {
    Info(Seq<char>),
    Error(Seq<char>),
}

impl View for LogLine {
    type V = LineView;

    open spec fn view(&self) -> LineView {
        match self {
            LogLine::Info(s) => LineView::Info(s@),
            LogLine::Error(s) => LineView::Error(s@),
        }
    }
}

/// The views of a sequence of lines.
pub open spec fn line_views(lines: Seq<LogLine>) -> Seq<LineView> {
    lines.map_values(|l: LogLine| l@)
}

/// What `serde_json` makes of a text and a key: `None` where the text is not
/// one JSON document; `Some(None)` where it is, but is no object or has no
/// member under the key; else the member, written as compact JSON.
pub uninterp spec fn json_member(text: Seq<char>, key: Seq<char>) -> Option<Option<Seq<char>>>;

/// Parses `text` with `serde_json::from_str`, looks the key up with
/// `Value::get` and writes the member found with the value's `Display`. The
/// result is believed to be a function of the two texts alone.
#[verifier::external_body]
fn parse_member(text: &str, key: &str) -> (r: Option<Option<String>>)
    ensures
        match r {
            None => json_member(text@, key@) == None::<Option<Seq<char>>>,
            Some(None) => json_member(text@, key@) == Some(None::<Seq<char>>),
            Some(Some(s)) => json_member(text@, key@) == Some(Some(s@)),
        },
{
    let parsed: Result<serde_json::Value, serde_json::Error> = serde_json::from_str(text);
    match parsed {
        Ok(value) => match value.get(key) {
            Some(member) => Some(Some(member.to_string())),
            None => Some(None),
        },
        Err(_) => None,
    }
}

/// The line shown for a progress text, given what its `status` member is: the
/// member where there is one, nothing where the document has none, and the
/// progress text as it came where it is no JSON document.
pub open spec fn progress_text(progress: Seq<char>, status: Option<Option<Seq<char>>>) -> Option<
    Seq<char>,
> {
    match status {
        Some(Some(member)) => Some("Pull Image info: "@ + member),
        Some(None) => None,
        None => Some("Pull Image info: "@ + progress),
    }
}

/// The lines shown for one event of the stream.
pub open spec fn event_texts(event: PullEvent) -> Seq<LineView> {
    match event {
        PullEvent::Output { progress, error } => {
            let shown = match progress {
                Some(p) => match progress_text(p@, json_member(p@, "status"@)) {
                    Some(line) => seq![LineView::Info(line)],
                    None => Seq::empty(),
                },
                None => Seq::empty(),
            };
            match error {
                Some(e) => shown.push(LineView::Error("Error: "@ + e@)),
                None => shown,
            }
        },
        PullEvent::StreamError(e) => seq![LineView::Error("Error pullings image: "@ + e@)],
    }
}

/// The text of the first failure of the stream itself, if it failed at all.
pub open spec fn first_stream_error(events: Seq<PullEvent>) -> Option<Seq<char>>
    decreases events.len(),
{
    if events.len() == 0 {
        None
    } else {
        match first_stream_error(events.drop_last()) {
            Some(text) => Some(text),
            None => match events.last() {
                PullEvent::StreamError(e) => Some(e@),
                PullEvent::Output { .. } => None,
            },
        }
    }
}

/// The outcome of a pull whose stream gave the events.
pub open spec fn pull_outcome(events: Seq<PullEvent>) -> Result<(), ErrorView> {
    match first_stream_error(events) {
        Some(text) => Err(ErrorView { kind: ErrorKind::ImagePullFailed, detail: text }),
        None => Ok(()),
    }
}

/// The text of an optional string.
pub open spec fn option_text(value: Option<String>) -> Option<Seq<char>> {
    match value {
        Some(s) => Some(s@),
        None => None,
    }
}

/// The text of what was made of a document and a key.
pub open spec fn member_text(member: Option<Option<String>>) -> Option<Option<Seq<char>>> {
    match member {
        Some(inner) => Some(option_text(inner)),
        None => None,
    }
}

/// The line shown for a progress text whose `status` member has been looked up.
pub fn progress_line_of(progress: &str, status: Option<Option<String>>) -> (r: Option<String>)
    ensures
        option_text(r) == progress_text(progress@, member_text(status)),
{
    match status {
        Some(Some(member)) => Some(String::from_str("Pull Image info: ").concat(member.as_str())),
        Some(None) => None,
        None => Some(String::from_str("Pull Image info: ").concat(progress)),
    }
}

/// The line shown for a progress text.
pub fn progress_line(progress: &str) -> (r: Option<String>)
    ensures
        option_text(r) == progress_text(progress@, json_member(progress@, "status"@)),
{
    let status = parse_member(progress, "status");
    assert(member_text(status) == json_member(progress@, "status"@));
    progress_line_of(progress, status)
}

/// The lines shown for one event: the progress line where the event has a
/// progress text that yields one, then the error where it has one. A failure
/// of the stream is shown as one error line.
pub fn event_lines(event: &PullEvent) -> (r: Vec<LogLine>)
    ensures
        line_views(r@) == event_texts(*event),
{
    let mut lines: Vec<LogLine> = Vec::new();
    match event {
        PullEvent::Output { progress, error } => {
            match progress {
                Some(p) => match progress_line(p.as_str()) {
                    Some(line) => {
                        lines.push(LogLine::Info(line));
                    },
                    None => {},
                },
                None => {},
            }
            match error {
                Some(e) => {
                    lines.push(LogLine::Error(String::from_str("Error: ").concat(e.as_str())));
                },
                None => {},
            }
        },
        PullEvent::StreamError(e) => {
            lines.push(
                LogLine::Error(String::from_str("Error pullings image: ").concat(e.as_str())),
            );
        },
    }
    assert(line_views(lines@) =~= event_texts(*event));
    lines
}

impl NepheliosService {
    /// The outcome of a pull whose stream has ended: a failure where the
    /// stream itself failed at some event, with the text of the first such
    /// failure, and success otherwise. An error that an event reports of a
    /// layer does not fail the pull.
    pub fn pull_image(&self, events: &Vec<PullEvent>) -> (r: Result<(), ServiceError>)
        ensures
            outcome_view(r) == pull_outcome(events@),
    {
        let mut failure: Option<String> = None;
        let mut i: usize = 0;
        while i < events.len()
            invariant
                i <= events.len(),
                option_text(failure) == first_stream_error(events@.take(i as int)),
            decreases events.len() - i,
        {
            proof {
                let next = events@.take(i + 1);
                assert(next.drop_last() =~= events@.take(i as int));
                assert(next.last() == events@[i as int]);
            }
            if failure.is_none() {
                match &events[i] {
                    PullEvent::StreamError(e) => {
                        failure = Some(e.clone());
                    },
                    PullEvent::Output { .. } => {},
                }
            }
            i += 1;
        }
        assert(events@.take(i as int) =~= events@);
        match failure {
            Some(text) => Err(ServiceError { kind: ErrorKind::ImagePullFailed, detail: text }),
            None => Ok(()),
        }
    }
}

} // verus!
