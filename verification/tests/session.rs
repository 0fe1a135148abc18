use upload_transcode::bitrate::Bitrate;
use upload_transcode::response::{Body, Response};
use upload_transcode::transcode::TranscodeJob;
use upload_transcode::upload::{Action, Event, Session, StoredInput};

/// One part of a body: the file name it declares, and its content.
struct Part {
    file_name: Option<&'static str>,
    content: &'static [u8],
}

fn file(name: &'static str, content: &'static [u8]) -> Part {
    Part { file_name: Some(name), content }
}

fn field(content: &'static [u8]) -> Part {
    Part { file_name: None, content }
}

/// Leads a session through the parts of a body as its actions ask, every
/// file reaching the disk. Gives back where the session stands, the action
/// it asks for, and the paths written with the length of what was written.
fn read_body(bitrate: &str, parts: Vec<Part>) -> (Session, Action, Vec<(String, usize)>) {
    let mut written: Vec<(String, usize)> = Vec::new();
    let (mut session, mut action) = Session::start(bitrate);
    let mut next: usize = 0;
    let mut current: Option<&Part> = None;
    loop {
        let event = match &action {
            Action::NextPart => {
                if next < parts.len() {
                    current = Some(&parts[next]);
                    next += 1;
                    Event::Part { file_name: parts[next - 1].file_name.map(String::from) }
                } else {
                    Event::EndOfParts
                }
            }
            Action::SkipPart => Event::Skipped,
            Action::StorePart { path } => {
                let part = current.expect("a part to store");
                written.push((path.clone(), part.content.len()));
                Event::Stored { size: part.content.len() }
            }
            _ => return (session, action, written),
        };
        let (reached, asked) = session.step(event);
        session = reached;
        action = asked;
    }
}

/// The command line of the job that an action asks to run.
fn command_of(action: &Action) -> String {
    match action {
        Action::RunTool { job } => job.command_line(),
        other => panic!("not a run of the tool: {:?}", other),
    }
}

fn text(status: u16, words: &str) -> Response {
    Response { status, body: Body::Text(String::from(words)) }
}

fn unexpected() -> (Session, Action) {
    (Session::Done, Action::Respond { response: text(500, "Unexpected event"), remove: None })
}

fn every_event() -> Vec<Event> {
    vec![
        Event::Part { file_name: None },
        Event::Part { file_name: Some(String::from("clip.mp4")) },
        Event::EndOfParts,
        Event::Skipped,
        Event::Stored { size: 3 },
        Event::StoreFailed,
        Event::ToolUnavailable { reason: String::from("no shell") },
        Event::ToolExited { success: true, stderr: vec![] },
        Event::ToolExited { success: false, stderr: vec![b'x'] },
        Event::OutputRead { content: vec![1, 2, 3] },
        Event::OutputUnreadable { reason: String::from("gone") },
    ]
}

#[test]
fn start_with_a_preset_asks_for_the_first_part() {
    assert_eq!(
        Session::start("1M"),
        (Session::Reading { bitrate: Bitrate::High, stored: None }, Action::NextPart)
    );
    assert_eq!(
        Session::start("200K"),
        (Session::Reading { bitrate: Bitrate::Low, stored: None }, Action::NextPart)
    );
}

#[test]
fn start_with_another_bitrate_is_a_client_error() {
    for bitrate in ["", "2M", "1m", "1M ", "fast", "200", "1M;ls"] {
        assert_eq!(
            Session::start(bitrate),
            (
                Session::Done,
                Action::Respond {
                    response: Response { status: 400, body: Body::Empty },
                    remove: None
                }
            )
        );
    }
}

#[test]
fn refused_bitrate_never_leads_to_work() {
    for first in every_event() {
        for second in every_event() {
            let (session, _) = Session::start("3M");
            let (session, action) = session.step(first.clone());
            assert_eq!((session.clone(), action), unexpected());
            assert_eq!(session.step(second), unexpected());
        }
    }
}

#[test]
fn refused_bitrate_writes_nothing_whatever_the_body() {
    let (session, action, written) =
        read_body("3M", vec![field(b"x"), file("clip.mp4", b"abc"), file("b.mp4", b"")]);
    assert_eq!(session, Session::Done);
    assert_eq!(
        action,
        Action::Respond { response: Response { status: 400, body: Body::Empty }, remove: None }
    );
    assert!(written.is_empty());
}

#[test]
fn part_without_file_name_is_skipped() {
    let (session, _) = Session::start("1M");
    assert_eq!(
        session.step(Event::Part { file_name: None }),
        (Session::Skipping { bitrate: Bitrate::High, stored: None }, Action::SkipPart)
    );
}

#[test]
fn skipped_part_leads_to_the_next() {
    let session = Session::Skipping { bitrate: Bitrate::High, stored: None };
    assert_eq!(
        session.step(Event::Skipped),
        (Session::Reading { bitrate: Bitrate::High, stored: None }, Action::NextPart)
    );
}

#[test]
fn part_without_file_name_is_skipped_after_the_file_too() {
    let stored = Some(StoredInput { file_name: String::from("clip.mp4"), size: 9 });
    let session = Session::Reading { bitrate: Bitrate::Low, stored: stored.clone() };
    assert_eq!(
        session.step(Event::Part { file_name: None }),
        (Session::Skipping { bitrate: Bitrate::Low, stored: stored.clone() }, Action::SkipPart)
    );
    let session = Session::Skipping { bitrate: Bitrate::Low, stored: stored.clone() };
    assert_eq!(
        session.step(Event::Skipped),
        (Session::Reading { bitrate: Bitrate::Low, stored }, Action::NextPart)
    );
}

#[test]
fn first_file_is_stored_under_uploads() {
    let (session, _) = Session::start("1M");
    assert_eq!(
        session.step(Event::Part { file_name: Some(String::from("clip.mp4")) }),
        (
            Session::Storing { bitrate: Bitrate::High, file_name: String::from("clip.mp4") },
            Action::StorePart { path: String::from("uploads/clip.mp4") }
        )
    );
}

#[test]
fn stored_file_is_kept_in_mind() {
    let session = Session::Storing { bitrate: Bitrate::High, file_name: String::from("clip.mp4") };
    assert_eq!(
        session.step(Event::Stored { size: 1234 }),
        (
            Session::Reading {
                bitrate: Bitrate::High,
                stored: Some(StoredInput { file_name: String::from("clip.mp4"), size: 1234 })
            },
            Action::NextPart
        )
    );
}

#[test]
fn file_that_cannot_be_stored_is_a_server_error() {
    let session = Session::Storing { bitrate: Bitrate::High, file_name: String::from("clip.mp4") };
    assert_eq!(
        session.step(Event::StoreFailed),
        (
            Session::Done,
            Action::Respond { response: text(500, "Could not save incoming file"), remove: None }
        )
    );
}

#[test]
fn second_file_is_a_client_error() {
    let session = Session::Reading {
        bitrate: Bitrate::High,
        stored: Some(StoredInput { file_name: String::from("clip.mp4"), size: 3 }),
    };
    assert_eq!(
        session.step(Event::Part { file_name: Some(String::from("other.mp4")) }),
        (
            Session::Done,
            Action::Respond { response: text(400, "Only single-file uploads"), remove: None }
        )
    );
}

#[test]
fn body_with_two_files_is_refused_and_the_first_stays() {
    let (session, action, written) =
        read_body("1M", vec![file("a.mp4", b"aaaa"), file("b.mp4", b"bb")]);
    assert_eq!(session, Session::Done);
    assert_eq!(
        action,
        Action::Respond { response: text(400, "Only single-file uploads"), remove: None }
    );
    assert_eq!(written, vec![(String::from("uploads/a.mp4"), 4)]);
}

#[test]
fn body_with_three_files_and_fields_between_is_refused() {
    let (session, action, written) = read_body(
        "200K",
        vec![
            field(b"note"),
            file("a.mp4", b"a"),
            field(b""),
            file("a.mp4", b"b"),
            file("c.mp4", b"c"),
        ],
    );
    assert_eq!(session, Session::Done);
    assert_eq!(
        action,
        Action::Respond { response: text(400, "Only single-file uploads"), remove: None }
    );
    assert_eq!(written, vec![(String::from("uploads/a.mp4"), 1)]);
}

#[test]
fn end_of_body_runs_the_tool() {
    let session = Session::Reading {
        bitrate: Bitrate::Low,
        stored: Some(StoredInput { file_name: String::from("song.ogg"), size: 77 }),
    };
    assert_eq!(
        session.step(Event::EndOfParts),
        (
            Session::Transcoding {
                job: TranscodeJob {
                    input_path: String::from("uploads/song.ogg"),
                    output_path: String::from("uploads/1M..song.ogg"),
                    bitrate: Bitrate::Low,
                },
                size: 77
            },
            Action::RunTool {
                job: TranscodeJob {
                    input_path: String::from("uploads/song.ogg"),
                    output_path: String::from("uploads/1M..song.ogg"),
                    bitrate: Bitrate::Low,
                }
            }
        )
    );
}

#[test]
fn body_without_a_file_runs_the_tool_on_nothing() {
    let (session, action, written) = read_body("1M", vec![field(b"a"), field(b"b")]);
    assert!(written.is_empty());
    assert_eq!(command_of(&action), "ffmpeg -y -threads 0 -i \"uploads/\" -b:v 1M -b:a 44K \"uploads/1M..\"");
    assert_eq!(action, Action::RunTool { job: TranscodeJob::for_upload("", Bitrate::High) });
    assert_eq!(
        session,
        Session::Transcoding { job: TranscodeJob::for_upload("", Bitrate::High), size: 0 }
    );
}

#[test]
fn empty_body_runs_the_tool_on_nothing() {
    let (session, action, written) = read_body("200K", vec![]);
    assert!(written.is_empty());
    assert_eq!(command_of(&action), "ffmpeg -y -threads 0 -i \"uploads/\" -b:v 200K -b:a 44K \"uploads/1M..\"");
    assert_eq!(
        session,
        Session::Transcoding { job: TranscodeJob::for_upload("", Bitrate::Low), size: 0 }
    );
}

#[test]
fn single_file_is_served() {
    let (session, action, written) =
        read_body("1M", vec![field(b"title"), file("clip.mp4", b"0123456789"), field(b"x")]);
    assert_eq!(written, vec![(String::from("uploads/clip.mp4"), 10)]);
    assert_eq!(command_of(&action), "ffmpeg -y -threads 0 -i \"uploads/clip.mp4\" -b:v 1M -b:a 44K \"uploads/1M..clip.mp4\"");
    let (session, action) =
        session.step(Event::ToolExited { success: true, stderr: b"frame= 10".to_vec() });
    assert_eq!(
        action,
        Action::ReadOutput { path: String::from("uploads/1M..clip.mp4"), capacity: 10 }
    );
    let output: Vec<u8> = vec![0, 0, 0, 24, 102, 116, 121, 112, 255, 254];
    let (session, action) = session.step(Event::OutputRead { content: output.clone() });
    assert_eq!(session, Session::Done);
    match action {
        Action::Respond { response, remove } => {
            assert_eq!(response.status, 200);
            assert_eq!(remove, Some(String::from("uploads/clip.mp4")));
            match response.body {
                Body::Bytes(sent) => {
                    assert_eq!(sent.len(), output.len());
                    assert_eq!(sent, output);
                }
                other => panic!("not a body of bytes: {:?}", other),
            }
        }
        other => panic!("not a response: {:?}", other),
    }
}

#[test]
fn upload_at_the_high_preset_goes_round() {
    let (session, action) = Session::start("1M");
    assert_eq!(action, Action::NextPart);
    let (session, action) =
        session.step(Event::Part { file_name: Some(String::from("fixture.webm")) });
    assert_eq!(action, Action::StorePart { path: String::from("uploads/fixture.webm") });
    let (session, action) = session.step(Event::Stored { size: 2048 });
    assert_eq!(action, Action::NextPart);
    let (session, action) = session.step(Event::EndOfParts);
    assert_eq!(command_of(&action), "ffmpeg -y -threads 0 -i \"uploads/fixture.webm\" -b:v 1M -b:a 44K \"uploads/1M..fixture.webm\"");
    let (session, action) = session.step(Event::ToolExited { success: true, stderr: vec![] });
    assert_eq!(
        action,
        Action::ReadOutput { path: String::from("uploads/1M..fixture.webm"), capacity: 2048 }
    );
    let (session, action) = session.step(Event::OutputRead { content: vec![26, 69, 223, 163] });
    assert_eq!(session, Session::Done);
    assert_eq!(
        action,
        Action::Respond {
            response: Response { status: 200, body: Body::Bytes(vec![26, 69, 223, 163]) },
            remove: Some(String::from("uploads/fixture.webm"))
        }
    );
}

#[test]
fn failed_tool_is_reported_with_its_standard_error() {
    let (session, _, _) = read_body("200K", vec![file("clip.mp4", b"junk")]);
    assert_eq!(
        session.step(Event::ToolExited {
            success: false,
            stderr: b"clip.mp4: Invalid data found when processing input".to_vec()
        }),
        (
            Session::Done,
            Action::Respond {
                response: text(
                    500,
                    "Error in `ffmpeg`: clip.mp4: Invalid data found when processing input"
                ),
                remove: Some(String::from("uploads/clip.mp4"))
            }
        )
    );
}

#[test]
fn failed_tool_with_standard_error_that_is_no_text() {
    let (session, _, _) = read_body("200K", vec![file("clip.mp4", b"junk")]);
    assert_eq!(
        session.step(Event::ToolExited { success: false, stderr: vec![b'a', 0x80, b'b'] }),
        (
            Session::Done,
            Action::Respond {
                response: text(500, "Error in `ffmpeg`: a\u{fffd}b"),
                remove: Some(String::from("uploads/clip.mp4"))
            }
        )
    );
}

#[test]
fn tool_that_cannot_be_run_is_reported() {
    let (session, _, _) = read_body("1M", vec![file("clip.mp4", b"abc")]);
    assert_eq!(
        session.step(Event::ToolUnavailable {
            reason: String::from("No such file or directory (os error 2)")
        }),
        (
            Session::Done,
            Action::Respond {
                response: text(500, "Error in `ffmpeg`: No such file or directory (os error 2)"),
                remove: Some(String::from("uploads/clip.mp4"))
            }
        )
    );
}

#[test]
fn output_that_cannot_be_read_is_a_server_error() {
    let (session, _, _) = read_body("1M", vec![file("clip.mp4", b"abc")]);
    let (session, _) = session.step(Event::ToolExited { success: true, stderr: vec![] });
    assert_eq!(
        session.step(Event::OutputUnreadable { reason: String::from("permission denied") }),
        (
            Session::Done,
            Action::Respond {
                response: text(500, "permission denied"),
                remove: Some(String::from("uploads/clip.mp4"))
            }
        )
    );
}

#[test]
fn upload_is_removed_however_the_run_ends() {
    let endings: Vec<Vec<Event>> = vec![
        vec![Event::ToolUnavailable { reason: String::from("no shell") }],
        vec![Event::ToolExited { success: false, stderr: vec![] }],
        vec![
            Event::ToolExited { success: true, stderr: vec![] },
            Event::OutputRead { content: vec![1] },
        ],
        vec![
            Event::ToolExited { success: true, stderr: vec![] },
            Event::OutputUnreadable { reason: String::from("gone") },
        ],
    ];
    for ending in endings {
        let (mut session, mut action, written) =
            read_body("200K", vec![file("to remove.mkv", b"abc")]);
        for event in ending {
            let (reached, asked) = session.step(event);
            session = reached;
            action = asked;
        }
        assert_eq!(session, Session::Done);
        match action {
            Action::Respond { remove, .. } => {
                assert_eq!(remove, Some(String::from("uploads/to remove.mkv")));
                assert_eq!(remove.as_deref(), Some(written[0].0.as_str()));
            }
            other => panic!("not a response: {:?}", other),
        }
    }
}

#[test]
fn session_that_is_over_answers_with_a_server_error() {
    for event in every_event() {
        assert_eq!(Session::Done.step(event), unexpected());
    }
}

#[test]
fn event_out_of_turn_ends_the_session() {
    let reading = Session::Reading { bitrate: Bitrate::High, stored: None };
    let skipping = Session::Skipping { bitrate: Bitrate::High, stored: None };
    let storing = Session::Storing { bitrate: Bitrate::High, file_name: String::from("a") };
    let transcoding =
        Session::Transcoding { job: TranscodeJob::for_upload("a", Bitrate::High), size: 1 };
    let streaming = Session::Streaming { job: TranscodeJob::for_upload("a", Bitrate::High) };
    for event in every_event() {
        let for_reading = matches!(event, Event::Part { .. } | Event::EndOfParts);
        let for_skipping = matches!(event, Event::Skipped);
        let for_storing = matches!(event, Event::Stored { .. } | Event::StoreFailed);
        let for_transcoding =
            matches!(event, Event::ToolUnavailable { .. } | Event::ToolExited { .. });
        let for_streaming =
            matches!(event, Event::OutputRead { .. } | Event::OutputUnreadable { .. });
        assert_eq!(reading.clone().step(event.clone()) == unexpected(), !for_reading);
        assert_eq!(skipping.clone().step(event.clone()) == unexpected(), !for_skipping);
        assert_eq!(storing.clone().step(event.clone()) == unexpected(), !for_storing);
        assert_eq!(transcoding.clone().step(event.clone()) == unexpected(), !for_transcoding);
        assert_eq!(streaming.clone().step(event.clone()) == unexpected(), !for_streaming);
    }
}
