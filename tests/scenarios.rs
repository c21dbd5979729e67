use winmedia_helper::session::{step, Action, Event, Fields, Outcome, Properties, Request, Stage};

fn fields(title: &str, artist: &str, album: &str, app: &str) -> Fields {
    Fields {
        title: title.to_string(),
        artist: artist.to_string(),
        album: album.to_string(),
        source_app: app.to_string(),
    }
}

/// Feeds the events to the machine from its idle stage; every event but the
/// last must lead to a request, the last to the outcome.
fn run(events: Vec<Event>) -> (Vec<Request>, Outcome) {
    let mut stage = Stage::Idle;
    let mut requests = Vec::new();
    for event in events {
        let (next, action) = step(stage, event);
        stage = next;
        match action {
            Action::Perform(r) => requests.push(r),
            Action::Finish(o) => return (requests, o),
        }
    }
    panic!("the query did not finish");
}

fn session_with(props: Properties) -> Vec<Event> {
    vec![
        Event::Start,
        Event::ManagerReady,
        Event::SessionReady,
        Event::PropertiesReady(props),
    ]
}

#[test]
fn scenario_full_record_without_thumbnail() {
    let (requests, out) = run(session_with(Properties {
        fields: fields("Clair de Lune", "Debussy", "Suite Bergamasque", "Player.exe"),
        has_thumbnail: false,
    }));
    assert_eq!(
        requests,
        vec![Request::SessionManager, Request::CurrentSession, Request::MediaProperties]
    );
    assert_eq!(out.stdout, "Clair de Lune|Debussy|Suite Bergamasque||Player.exe");
    assert_eq!(out.stderr, "");
    assert_eq!(out.exit_code, 0);
}

#[test]
fn scenario_no_current_session() {
    let (_, out) = run(vec![Event::Start, Event::ManagerReady, Event::NoSession]);
    assert_eq!(out.stdout, "No media information available.");
    assert_eq!(out.stderr, "");
    assert_eq!(out.exit_code, 0);
}

#[test]
fn scenario_all_fields_empty() {
    let (_, out) = run(session_with(Properties { fields: fields("", "", "", ""), has_thumbnail: false }));
    assert_eq!(out.stdout, "No media information available.");
    assert_eq!(out.exit_code, 0);
}

#[test]
fn scenario_three_byte_thumbnail() {
    let mut events = session_with(Properties { fields: fields("A", "", "", "X"), has_thumbnail: true });
    events.push(Event::StreamOpened);
    events.push(Event::BytesRead(vec![0x89, 0x50, 0x4E]));
    let (requests, out) = run(events);
    assert_eq!(
        requests,
        vec![
            Request::SessionManager,
            Request::CurrentSession,
            Request::MediaProperties,
            Request::OpenThumbnail,
            Request::ReadThumbnail(1_048_576),
        ]
    );
    assert_eq!(out.stdout, "A|||data:image/png;base64,iVBO|X");
    assert_eq!(out.exit_code, 0);
}

#[test]
fn scenario_thumbnail_read_fails() {
    let mut events = session_with(Properties { fields: fields("T", "", "", ""), has_thumbnail: true });
    events.push(Event::StreamOpened);
    events.push(Event::ReadFailed);
    let (_, out) = run(events);
    assert_eq!(out.stdout, "T||||");
    assert_eq!(out.stderr, "");
    assert_eq!(out.exit_code, 0);
}

#[test]
fn scenario_feature_unavailable() {
    let (requests, out) = run(vec![Event::Start, Event::ManagerUnavailable]);
    assert_eq!(requests, vec![Request::SessionManager]);
    assert_eq!(out.stdout, "No media information available.");
    assert_eq!(out.stderr, "");
    assert_eq!(out.exit_code, 0);
}

#[test]
fn thumbnail_open_fails_keeps_other_fields() {
    let mut events = session_with(Properties { fields: fields("T", "B", "C", "D"), has_thumbnail: true });
    events.push(Event::StreamFailed);
    let (_, out) = run(events);
    assert_eq!(out.stdout, "T|B|C||D");
    assert_eq!(out.exit_code, 0);
}

#[test]
fn properties_unavailable_gives_placeholder() {
    let (_, out) = run(vec![Event::Start, Event::ManagerReady, Event::SessionReady, Event::PropertiesUnavailable]);
    assert_eq!(out.stdout, "No media information available.");
    assert_eq!(out.exit_code, 0);
}

#[test]
fn only_source_app_is_not_placeholder() {
    let (_, out) = run(session_with(Properties { fields: fields("", "", "", "App"), has_thumbnail: false }));
    assert_eq!(out.stdout, "||||App");
}

#[test]
fn empty_thumbnail_read_gives_bare_prefix() {
    let mut events = session_with(Properties { fields: fields("", "", "", ""), has_thumbnail: true });
    events.push(Event::StreamOpened);
    events.push(Event::BytesRead(Vec::new()));
    let (_, out) = run(events);
    assert_eq!(out.stdout, "|||data:image/png;base64,|");
}

#[test]
fn unexpected_event_reports_diagnostic() {
    let (_, out) = run(vec![Event::Start, Event::SessionReady]);
    assert_eq!(out.stdout, "No media information available.");
    assert_eq!(out.stderr, "Error retrieving media information: unexpected event");
    assert_eq!(out.exit_code, 0);
}

#[test]
fn every_failure_mode_exits_zero() {
    let failures: Vec<Vec<Event>> = vec![
        vec![Event::Start, Event::ManagerUnavailable],
        vec![Event::Start, Event::ManagerReady, Event::NoSession],
        vec![Event::Start, Event::ManagerReady, Event::SessionReady, Event::PropertiesUnavailable],
        vec![Event::ReadFailed],
    ];
    for events in failures {
        let (_, out) = run(events);
        assert_eq!(out.exit_code, 0);
        assert_eq!(out.stdout, "No media information available.");
    }
}

#[test]
fn emitted_line_has_four_separators() {
    let mut events = session_with(Properties { fields: fields("a", "b", "", "d"), has_thumbnail: true });
    events.push(Event::StreamOpened);
    events.push(Event::BytesRead(vec![1, 2, 3, 4, 5]));
    let (_, out) = run(events);
    assert_eq!(out.stdout.matches('|').count(), 4);
    let parts: Vec<&str> = out.stdout.split('|').collect();
    assert!(parts[3].starts_with("data:image/png;base64,"));
    assert_eq!(parts[3], "data:image/png;base64,AQIDBAU=");
}
