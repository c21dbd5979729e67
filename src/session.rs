use vstd::prelude::*;
use vstd::string::*;

use crate::encoding::{
    b64_decode, is_b64, lemma_thumb_url_shape, thumb_prefix, thumb_url, thumbnail_url,
    MAX_THUMB_BYTES,
};
use crate::report::{
    all_empty, bar_count, bar_free, lemma_line_shape, lemma_placeholder_exclusive, placeholder,
    rendered, MediaRecord,
};

verus! {

/// The text fields of a media session, each empty where the system reports none.
pub struct Fields {
    pub title: String,
    pub artist: String,
    pub album: String,
    pub source_app: String,
}

/// What the properties fetch of the current session returned.
pub struct Properties {
    pub fields: Fields,
    pub has_thumbnail: bool,
}

/// Where the query stands: which system call it waits on, and what it has
/// gathered so far.
pub enum Stage {
    Idle,
    AwaitingManager,
    AwaitingSession,
    AwaitingProperties,
    AwaitingStream(Fields),
    AwaitingBytes(Fields),
    Done,
}

/// The result of the system call last requested.
pub enum Event {
    Start,
    ManagerReady,
    ManagerUnavailable,
    SessionReady,
    NoSession,
    PropertiesReady(Properties),
    PropertiesUnavailable,
    StreamOpened,
    StreamFailed,
    BytesRead(Vec<u8>),
    ReadFailed,
}

/// A system call for the driver to make.
#[derive(PartialEq, Eq, Structural, Clone, Copy, Debug)]
pub enum Request {
    SessionManager,
    CurrentSession,
    MediaProperties,
    OpenThumbnail,
    /// Read at most this many bytes from the opened thumbnail stream.
    ReadThumbnail(u32),
}

/// What the process prints and the code it exits with.
pub struct Outcome {
    pub stdout: String,
    pub stderr: String,
    pub exit_code: i32,
}

/// What the driver does next.
pub enum Action {
    Perform(Request),
    Finish(Outcome),
}

/// The diagnostic printed when an event arrives that the stage did not wait for.
pub open spec fn unexpected_event_message() -> Seq<char> {
    "Error retrieving media information: unexpected event"@
}

/// The stage that follows `stage` on `event`.
pub open spec fn next_stage(stage: Stage, event: Event) -> Stage {
    match (stage, event) {
        (Stage::Idle, Event::Start) => Stage::AwaitingManager,
        (Stage::AwaitingManager, Event::ManagerReady) => Stage::AwaitingSession,
        (Stage::AwaitingSession, Event::SessionReady) => Stage::AwaitingProperties,
        (Stage::AwaitingProperties, Event::PropertiesReady(p)) => if p.has_thumbnail {
            Stage::AwaitingStream(p.fields)
        } else {
            Stage::Done
        },
        (Stage::AwaitingStream(f), Event::StreamOpened) => Stage::AwaitingBytes(f),
        _ => Stage::Done,
    }
}

/// The system call requested on `event` in `stage`, if the query goes on.
pub open spec fn next_request(stage: Stage, event: Event) -> Option<Request> {
    match (stage, event) {
        (Stage::Idle, Event::Start) => Some(Request::SessionManager),
        (Stage::AwaitingManager, Event::ManagerReady) => Some(Request::CurrentSession),
        (Stage::AwaitingSession, Event::SessionReady) => Some(Request::MediaProperties),
        (Stage::AwaitingProperties, Event::PropertiesReady(p)) => if p.has_thumbnail {
            Some(Request::OpenThumbnail)
        } else {
            None
        },
        (Stage::AwaitingStream(_), Event::StreamOpened) => Some(
            Request::ReadThumbnail(MAX_THUMB_BYTES),
        ),
        _ => None,
    }
}

/// The record that is printed when the query ends on `event` in `stage`: the
/// gathered fields and the thumbnail field. `None` where the query ends
/// without a record.
pub open spec fn emitted_record(stage: Stage, event: Event) -> Option<(Fields, Seq<char>)> {
    match (stage, event) {
        (Stage::AwaitingProperties, Event::PropertiesReady(p)) => if p.has_thumbnail {
            None
        } else {
            Some((p.fields, Seq::empty()))
        },
        (Stage::AwaitingStream(f), Event::StreamFailed) => Some((f, Seq::empty())),
        (Stage::AwaitingBytes(f), Event::ReadFailed) => Some((f, Seq::empty())),
        (Stage::AwaitingBytes(f), Event::BytesRead(b)) => Some((f, thumb_url(b@))),
        _ => None,
    }
}

/// Whether `event` is one that `stage` waits for.
pub open spec fn expected(stage: Stage, event: Event) -> bool {
    match (stage, event) {
        (Stage::Idle, Event::Start) => true,
        (Stage::AwaitingManager, Event::ManagerReady) => true,
        (Stage::AwaitingManager, Event::ManagerUnavailable) => true,
        (Stage::AwaitingSession, Event::SessionReady) => true,
        (Stage::AwaitingSession, Event::NoSession) => true,
        (Stage::AwaitingProperties, Event::PropertiesReady(_)) => true,
        (Stage::AwaitingProperties, Event::PropertiesUnavailable) => true,
        (Stage::AwaitingStream(_), Event::StreamOpened) => true,
        (Stage::AwaitingStream(_), Event::StreamFailed) => true,
        (Stage::AwaitingBytes(_), Event::BytesRead(_)) => true,
        (Stage::AwaitingBytes(_), Event::ReadFailed) => true,
        _ => false,
    }
}

/// What is printed on standard output when the query ends on `event` in `stage`.
pub open spec fn emitted_stdout(stage: Stage, event: Event) -> Seq<char> {
    match emitted_record(stage, event) {
        Some((f, thumb)) => rendered(f.title@, f.artist@, f.album@, thumb, f.source_app@),
        None => placeholder(),
    }
}

/// What is printed on standard error when the query ends on `event` in `stage`.
pub open spec fn emitted_stderr(stage: Stage, event: Event) -> Seq<char> {
    if expected(stage, event) {
        Seq::empty()
    } else {
        unexpected_event_message()
    }
}

fn finish(stdout: String, stderr: String) -> (r: (Stage, Action))
    ensures
        r.0 == Stage::Done,
        r.1 matches Action::Finish(o) && o.stdout@ == stdout@ && o.stderr@ == stderr@
            && o.exit_code == 0,
{
    (Stage::Done, Action::Finish(Outcome { stdout, stderr, exit_code: 0 }))
}

fn record_outcome(f: Fields, thumb: String) -> (r: (Stage, Action))
    ensures
        r.0 == Stage::Done,
        r.1 matches Action::Finish(o) && o.stdout@ == rendered(
            f.title@,
            f.artist@,
            f.album@,
            thumb@,
            f.source_app@,
        ) && o.stderr@.len() == 0 && o.exit_code == 0,
{
    let record = MediaRecord {
        title: f.title,
        artist: f.artist,
        album: f.album,
        thumb_url: thumb,
        source_app: f.source_app,
    };
    finish(record.render(), String::new())
}

/// Advances the query by one event. Failures of the session manager, the
/// current session or the properties fetch end it with the placeholder; a
/// failed thumbnail leaves the thumbnail field empty and keeps the rest; an
/// event the stage did not wait for ends it with the placeholder and a
/// diagnostic. Every ending exits with code 0.
pub fn step(stage: Stage, event: Event) -> (r: (Stage, Action))
    ensures
        r.0 == next_stage(stage, event),
        next_request(stage, event) matches Some(q) ==> r.1 == Action::Perform(q),
        next_request(stage, event) is None ==> (r.1 matches Action::Finish(o)
            && o.stdout@ == emitted_stdout(stage, event) && o.stderr@ == emitted_stderr(
            stage,
            event,
        ) && o.exit_code == 0),
{
    match (stage, event) {
        (Stage::Idle, Event::Start) => (
            Stage::AwaitingManager,
            Action::Perform(Request::SessionManager),
        ),
        (Stage::AwaitingManager, Event::ManagerReady) => (
            Stage::AwaitingSession,
            Action::Perform(Request::CurrentSession),
        ),
        (Stage::AwaitingSession, Event::SessionReady) => (
            Stage::AwaitingProperties,
            Action::Perform(Request::MediaProperties),
        ),
        (Stage::AwaitingProperties, Event::PropertiesReady(p)) => {
            if p.has_thumbnail {
                (Stage::AwaitingStream(p.fields), Action::Perform(Request::OpenThumbnail))
            } else {
                record_outcome(p.fields, String::new())
            }
        },
        (Stage::AwaitingStream(f), Event::StreamOpened) => (
            Stage::AwaitingBytes(f),
            Action::Perform(Request::ReadThumbnail(MAX_THUMB_BYTES)),
        ),
        (Stage::AwaitingStream(f), Event::StreamFailed) => record_outcome(f, String::new()),
        (Stage::AwaitingBytes(f), Event::ReadFailed) => record_outcome(f, String::new()),
        (Stage::AwaitingBytes(f), Event::BytesRead(b)) => {
            let url = thumbnail_url(b.as_slice());
            record_outcome(f, url)
        },
        (Stage::AwaitingManager, Event::ManagerUnavailable)
        | (Stage::AwaitingSession, Event::NoSession)
        | (Stage::AwaitingProperties, Event::PropertiesUnavailable) => finish(
            String::from_str("No media information available."),
            String::new(),
        ),
        _ => finish(
            String::from_str("No media information available."),
            String::from_str("Error retrieving media information: unexpected event"),
        ),
    }
}


/// Whether none of the gathered fields holds a `|`.
pub open spec fn fields_bar_free(f: Fields) -> bool {
    bar_free(f.title@) && bar_free(f.artist@) && bar_free(f.album@) && bar_free(f.source_app@)
}

/// Every line printed in place of the placeholder holds exactly four `|`,
/// provided the title, artist, album and application identifier hold none.
pub proof fn lemma_emitted_line_shape(stage: Stage, event: Event)
    requires
        emitted_record(stage, event) matches Some((f, _)) ==> fields_bar_free(f),
    ensures
        emitted_stdout(stage, event) != placeholder() ==> bar_count(emitted_stdout(stage, event))
            == 4,
{
    if let Some((f, thumb)) = emitted_record(stage, event) {
        if let (Stage::AwaitingBytes(_), Event::BytesRead(b)) = (stage, event) {
            lemma_thumb_url_shape(b@);
        }
        if emitted_stdout(stage, event) != placeholder() {
            lemma_line_shape(f.title@, f.artist@, f.album@, thumb, f.source_app@);
        }
    }
}

/// The thumbnail field of every printed record is empty or starts with
/// `data:image/png;base64,`.
pub proof fn lemma_emitted_thumb_prefix(stage: Stage, event: Event)
    ensures
        emitted_record(stage, event) matches Some((_, thumb)) ==> thumb.len() == 0 || (thumb.len()
            >= thumb_prefix().len() && thumb.take(thumb_prefix().len() as int) == thumb_prefix()),
{
    if let (Stage::AwaitingBytes(_), Event::BytesRead(b)) = (stage, event) {
        lemma_thumb_url_shape(b@);
    }
}

/// A non-empty thumbnail field of a printed record carries, after its prefix,
/// canonical base64 that decodes to at most `MAX_THUMB_BYTES` bytes.
pub proof fn lemma_emitted_thumb_payload(stage: Stage, event: Event)
    ensures
        emitted_record(stage, event) matches Some((_, thumb)) ==> thumb.len() == 0 || ({
            let payload = thumb.skip(thumb_prefix().len() as int);
            is_b64(payload) && b64_decode(payload).len() <= MAX_THUMB_BYTES
        }),
{
    if let (Stage::AwaitingBytes(_), Event::BytesRead(b)) = (stage, event) {
        lemma_thumb_url_shape(b@);
    }
}

/// The placeholder is printed exactly when the query ends without a record,
/// or with a record whose five fields are all empty.
pub proof fn lemma_emitted_placeholder(stage: Stage, event: Event)
    ensures
        (emitted_stdout(stage, event) == placeholder()) == match emitted_record(stage, event) {
            Some((f, thumb)) => all_empty(f.title@, f.artist@, f.album@, thumb, f.source_app@),
            None => true,
        },
{
    if let Some((f, thumb)) = emitted_record(stage, event) {
        lemma_placeholder_exclusive(f.title@, f.artist@, f.album@, thumb, f.source_app@);
    }
}

} // verus!
