//! What holds of every session, whatever the request.
//!
//! The laws speak of a session that is driven as its actions ask: the parts
//! of the body are reported one after another, then the end of the body,
//! then the end of the tool's run, then the content of its output.

use vstd::prelude::*;
use crate::bitrate::Bitrate;
use crate::response::ResponseView;
use crate::storage::input_path_of;
use crate::transcode::{lossy_text, tool_failure_message, JobView};
use crate::upload::{ActionView, EventView, SessionView, StoredView};

verus! {

/// One part of a request body: the file name that it declares, if any, and
/// the length of its content.
pub struct PartView {
    pub file_name: Option<Seq<char>>,
    pub size: nat,
}

/// How many parts of a body declare a file name.
pub open spec fn file_parts(parts: Seq<PartView>) -> nat
    decreases parts.len(),
{
    if parts.len() == 0 {
        0
    } else if parts[0].file_name is Some {
        1 + file_parts(parts.drop_first())
    } else {
        file_parts(parts.drop_first())
    }
}

/// The first part of a body that declares a file name, as the upload that
/// it becomes on disk.
pub open spec fn first_file(parts: Seq<PartView>) -> Option<StoredView>
    decreases parts.len(),
{
    if parts.len() == 0 {
        None
    } else {
        match parts[0].file_name {
            Some(name) => Some(StoredView { file_name: name, size: parts[0].size }),
            None => first_file(parts.drop_first()),
        }
    }
}

/// Where the reading of a body has led.
pub struct Ingestion {
    /// Where the session stands.
    pub session: SessionView,
    /// The action that it asks for.
    pub action: ActionView,
    /// The paths that were written on the way, in order.
    pub written: Seq<Seq<char>>,
}

/// Leads a session through the parts of a body and through its end. A part
/// is reported; if the session asks to skip it, it is dropped; if the
/// session asks to store it, the file is written without failure; where
/// the session then asks for the next part, the reading goes on with the
/// rest of the body, and any other answer ends it.
pub open spec fn ingest(session: SessionView, parts: Seq<PartView>) -> Ingestion
    decreases parts.len(),
{
    if parts.len() == 0 {
        let (reached, action) = session.step(EventView::EndOfParts);
        Ingestion { session: reached, action, written: Seq::empty() }
    } else {
        let (reached, action) = session.step(EventView::Part { file_name: parts[0].file_name });
        match action {
            ActionView::SkipPart => {
                let (kept, next) = reached.step(EventView::Skipped);
                if next is NextPart {
                    ingest(kept, parts.drop_first())
                } else {
                    Ingestion { session: kept, action: next, written: Seq::empty() }
                }
            },
            ActionView::StorePart { path } => {
                let (kept, next) = reached.step(EventView::Stored { size: parts[0].size });
                let rest = if next is NextPart {
                    ingest(kept, parts.drop_first())
                } else {
                    Ingestion { session: kept, action: next, written: Seq::empty() }
                };
                Ingestion {
                    session: rest.session,
                    action: rest.action,
                    written: seq![path] + rest.written,
                }
            },
            _ => Ingestion { session: reached, action, written: Seq::empty() },
        }
    }
}

/// The actions that a session asks for when it is handed `events` one
/// after another, whether or not it was waiting for them.
pub open spec fn actions(session: SessionView, events: Seq<EventView>) -> Seq<ActionView>
    decreases events.len(),
{
    if events.len() == 0 {
        Seq::empty()
    } else {
        let (reached, action) = session.step(events[0]);
        seq![action] + actions(reached, events.drop_first())
    }
}

/// The action that closes a session which waits for the tool: the answer to
/// the tool's event if that is a response, and else the answer to the
/// event of the output's reading.
pub open spec fn closing(session: SessionView, tool: EventView, output: EventView) -> ActionView {
    let (reached, action) = session.step(tool);
    if action is Respond {
        action
    } else {
        reached.step(output).1
    }
}

/// A session that is over asks for nothing but a response, and never for a
/// file's removal.
proof fn lemma_done_stays_done(events: Seq<EventView>)
    ensures
        actions(SessionView::Done, events).len() == events.len(),
        forall|i: int|
            0 <= i < events.len() ==> #[trigger] actions(SessionView::Done, events)[i]
                == SessionView::on_unexpected().1,
    decreases events.len(),
{
    if events.len() > 0 {
        lemma_done_stays_done(events.drop_first());
    }
}

/// What the reading of a body leads to, from any point of it.
proof fn lemma_ingest(bitrate: Bitrate, stored: Option<StoredView>, parts: Seq<PartView>)
    ensures
        ({
            let got = ingest(SessionView::Reading { bitrate, stored }, parts);
            let found = first_file(parts);
            if stored is Some && file_parts(parts) >= 1 {
                &&& got.session is Done
                &&& got.action == ActionView::respond(ResponseView::second_file_refused())
                &&& got.written =~= Seq::empty()
            } else if stored is None && file_parts(parts) >= 2 {
                &&& got.session is Done
                &&& got.action == ActionView::respond(ResponseView::second_file_refused())
                &&& found is Some
                &&& got.written =~= seq![input_path_of(found->0.file_name)]
            } else {
                let upload = SessionView::upload_at_end(
                    if stored is Some {
                        stored
                    } else {
                        found
                    },
                );
                let job = JobView::for_upload(upload.file_name, bitrate);
                &&& got.session == SessionView::Transcoding { job, size: upload.size }
                &&& got.action == ActionView::RunTool { job }
                &&& file_parts(parts) == 0 <==> found is None
                &&& got.written =~= if stored is None && found is Some {
                    seq![job.input_path]
                } else {
                    Seq::empty()
                }
            }
        }),
    decreases parts.len(),
{
    if parts.len() > 0 {
        let rest = parts.drop_first();
        match parts[0].file_name {
            None => {
                lemma_ingest(bitrate, stored, rest);
            },
            Some(name) => {
                if stored is None {
                    let kept = Some(StoredView { file_name: name, size: parts[0].size });
                    lemma_ingest(bitrate, kept, rest);
                }
            },
        }
    }
}

/// A bitrate that is not on the allow-list is refused with a client error
/// before anything is read, and no file is ever written, read or removed
/// for that request, nor the tool run: whatever the session is told
/// afterwards, it asks for nothing but a response.
pub proof fn lemma_refused_bitrate_touches_nothing(bitrate: Seq<char>, events: Seq<EventView>)
    requires
        !Bitrate::allowed(bitrate),
    ensures
        SessionView::start(bitrate) == (
            SessionView::Done,
            ActionView::respond(ResponseView::bitrate_refused()),
        ),
        actions(SessionView::start(bitrate).0, events).len() == events.len(),
        forall|i: int|
            0 <= i < events.len() ==> (#[trigger] actions(SessionView::start(bitrate).0, events)[i]
                matches ActionView::Respond { remove, .. } && remove is None),
{
    lemma_done_stays_done(events);
}

/// A body with two or more files is refused with a client error that names
/// the single-file rule, once the second file is met. The first file was
/// written by then, and it stays: the closing action removes nothing.
pub proof fn lemma_second_file_refused(bitrate: Seq<char>, parts: Seq<PartView>)
    requires
        Bitrate::allowed(bitrate),
        file_parts(parts) >= 2,
    ensures
        ({
            let got = ingest(SessionView::start(bitrate).0, parts);
            &&& got.session is Done
            &&& got.action == ActionView::respond(ResponseView::second_file_refused())
            &&& first_file(parts) is Some
            &&& got.written == seq![input_path_of(first_file(parts)->0.file_name)]
        }),
{
    lemma_ingest(Bitrate::from_text(bitrate)->0, None, parts);
}

/// A body with exactly one file and a bitrate on the allow-list is served:
/// the file is written to its input path, the tool is run on the job of
/// that file and that bitrate, and once the tool has ended with success the
/// output path is read and its content is the body of the response, byte
/// for byte, under the status of success.
pub proof fn lemma_single_file_served(
    bitrate: Seq<char>,
    parts: Seq<PartView>,
    stderr: Seq<u8>,
    content: Seq<u8>,
)
    requires
        Bitrate::allowed(bitrate),
        file_parts(parts) == 1,
    ensures
        first_file(parts) is Some,
        ({
            let upload = first_file(parts)->0;
            let job = JobView::for_upload(upload.file_name, Bitrate::from_text(bitrate)->0);
            let got = ingest(SessionView::start(bitrate).0, parts);
            let (streaming, read) = got.session.step(
                EventView::ToolExited { success: true, stderr },
            );
            let (done, respond) = streaming.step(EventView::OutputRead { content });
            &&& got.written == seq![job.input_path]
            &&& got.action == ActionView::RunTool { job }
            &&& read == ActionView::ReadOutput { path: job.output_path, capacity: upload.size }
            &&& respond == ActionView::respond_and_remove(
                ResponseView::transcoded(content),
                job.input_path,
            )
            &&& done is Done
        }),
{
    lemma_ingest(Bitrate::from_text(bitrate)->0, None, parts);
}

/// When the tool ends without success, the response is a server error whose
/// body is the tool's name followed by what the tool wrote to its standard
/// error, read as text.
pub proof fn lemma_tool_failure_reported(
    bitrate: Seq<char>,
    parts: Seq<PartView>,
    stderr: Seq<u8>,
)
    requires
        Bitrate::allowed(bitrate),
        file_parts(parts) <= 1,
    ensures
        ({
            let got = ingest(SessionView::start(bitrate).0, parts);
            let (done, respond) = got.session.step(
                EventView::ToolExited { success: false, stderr },
            );
            &&& done is Done
            &&& respond matches ActionView::Respond { response, .. }
            &&& response == ResponseView::failure(tool_failure_message(lossy_text(stderr)))
        }),
{
    lemma_ingest(Bitrate::from_text(bitrate)->0, None, parts);
}

/// However the run of the tool ends, the closing action asks for the
/// removal of the upload: whether the tool could not be run, ended without
/// success, or ended with success and its output was read or could not be
/// read. The path to remove is the input path of the job, which is the
/// path that the upload was written to.
pub proof fn lemma_upload_removed(
    bitrate: Seq<char>,
    parts: Seq<PartView>,
    tool: EventView,
    output: EventView,
)
    requires
        Bitrate::allowed(bitrate),
        file_parts(parts) <= 1,
        tool is ToolUnavailable || tool is ToolExited,
        output is OutputRead || output is OutputUnreadable,
    ensures
        ({
            let got = ingest(SessionView::start(bitrate).0, parts);
            let name = SessionView::upload_at_end(first_file(parts)).file_name;
            &&& closing(got.session, tool, output) matches ActionView::Respond { remove, .. }
            &&& remove == Some(input_path_of(name))
            &&& file_parts(parts) == 1 ==> got.written == seq![input_path_of(name)]
        }),
{
    lemma_ingest(Bitrate::from_text(bitrate)->0, None, parts);
}

} // verus!
