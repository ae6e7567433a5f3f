use sev_crl::{accepts, begin, step, Action, CrlError, Event, IoStep, ProcessorGeneration, Stage};

/// Feeds `events` to a fresh operation and collects every action it asks for.
fn drive(events: Vec<Event>) -> (Stage, Vec<Action>) {
    let (mut stage, first) = begin();
    let mut actions = vec![first];
    for e in events {
        assert!(accepts(&stage, &e));
        let (next, action) = step(stage, e);
        stage = next;
        actions.push(action);
    }
    (stage, actions)
}

fn milan_body() -> Vec<u8> {
    vec![0x30, 0x82, 0x01, 0x0a, 0xff, 0x00]
}

#[test]
fn milan_into_missing_directory() {
    let (stage, actions) = drive(vec![
        Event::Detected { generation: ProcessorGeneration::Milan },
        Event::Fetched { body: milan_body() },
        Event::DirMissing,
        Event::DirCreated,
        Event::Written,
    ]);
    assert_eq!(
        actions,
        vec![
            Action::Detect,
            Action::Fetch { url: "https://kdsintf.amd.com/vcek/v1/Milan/crl".to_string() },
            Action::CheckDir,
            Action::CreateDir,
            Action::WriteFile { file_name: "Milan.crl".to_string(), bytes: milan_body() },
            Action::Finish { outcome: Ok(()) },
        ]
    );
    assert_eq!(stage, Stage::Done { outcome: Ok(()) });
}

#[test]
fn existing_directory_is_not_created_again() {
    let (stage, actions) = drive(vec![
        Event::Detected { generation: ProcessorGeneration::Rome },
        Event::Fetched { body: vec![1, 2, 3] },
        Event::DirExists,
        Event::Written,
    ]);
    assert_eq!(
        actions,
        vec![
            Action::Detect,
            Action::Fetch { url: "https://kdsintf.amd.com/vcek/v1/Rome/crl".to_string() },
            Action::CheckDir,
            Action::WriteFile { file_name: "Rome.crl".to_string(), bytes: vec![1, 2, 3] },
            Action::Finish { outcome: Ok(()) },
        ]
    );
    assert_eq!(stage, Stage::Done { outcome: Ok(()) });
}

#[test]
fn empty_body_is_written_as_empty_file() {
    let (_, actions) = drive(vec![
        Event::Detected { generation: ProcessorGeneration::Genoa },
        Event::Fetched { body: Vec::new() },
        Event::DirExists,
        Event::Written,
    ]);
    assert_eq!(
        actions[3],
        Action::WriteFile { file_name: "Genoa.crl".to_string(), bytes: Vec::new() }
    );
    assert_eq!(actions[4], Action::Finish { outcome: Ok(()) });
}

#[test]
fn detection_failure_stops_before_fetch() {
    let (stage, actions) = drive(vec![Event::DetectionFailed]);
    assert_eq!(
        actions,
        vec![Action::Detect, Action::Finish { outcome: Err(CrlError::Detection) }]
    );
    assert!(!accepts(&stage, &Event::Fetched { body: vec![1] }));
    assert!(!accepts(&stage, &Event::FetchFailed));
}

#[test]
fn fetch_failure_touches_no_file() {
    let (stage, actions) = drive(vec![
        Event::Detected { generation: ProcessorGeneration::Milan },
        Event::FetchFailed,
    ]);
    assert_eq!(actions.len(), 3);
    assert_eq!(actions[2], Action::Finish { outcome: Err(CrlError::Fetch) });
    assert!(!actions.iter().any(|a| matches!(
        a,
        Action::CheckDir | Action::CreateDir | Action::WriteFile { .. }
    )));
    assert!(!accepts(&stage, &Event::DirExists));
    assert!(!accepts(&stage, &Event::Written));
}

#[test]
fn directory_creation_failure() {
    let (stage, actions) = drive(vec![
        Event::Detected { generation: ProcessorGeneration::Naples },
        Event::Fetched { body: vec![9] },
        Event::DirMissing,
        Event::DirCreateFailed,
    ]);
    let failed = Err(CrlError::Io(IoStep::CreateDir));
    assert_eq!(actions.last(), Some(&Action::Finish { outcome: failed }));
    assert_eq!(stage, Stage::Done { outcome: failed });
}

#[test]
fn write_failure() {
    let (stage, actions) = drive(vec![
        Event::Detected { generation: ProcessorGeneration::Naples },
        Event::Fetched { body: vec![9] },
        Event::DirExists,
        Event::WriteFailed,
    ]);
    let failed = Err(CrlError::Io(IoStep::Write));
    assert_eq!(actions.last(), Some(&Action::Finish { outcome: failed }));
    assert_eq!(stage, Stage::Done { outcome: failed });
}

#[test]
fn stages_accept_only_their_outcomes() {
    assert!(accepts(&Stage::Detecting, &Event::DetectionFailed));
    assert!(!accepts(&Stage::Detecting, &Event::Written));
    let fetching = Stage::Fetching { generation: ProcessorGeneration::Rome };
    assert!(accepts(&fetching, &Event::FetchFailed));
    assert!(!accepts(&fetching, &Event::DirExists));
    let writing = Stage::Writing { generation: ProcessorGeneration::Rome };
    assert!(accepts(&writing, &Event::WriteFailed));
    assert!(!accepts(&writing, &Event::DirCreated));
}
