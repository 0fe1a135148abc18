//! The upload session: from the bitrate and the parts of the body to the
//! stored file, the run of the tool and the response.
//!
//! A session does no work of its own. It is told what happened and answers
//! what to do next. Whoever drives it starts with `Session::start`, performs
//! each action, hands the outcome to `Session::step`, and stops at
//! `Action::Respond`.

use vstd::prelude::*;
use vstd::string::*;
use crate::bitrate::Bitrate;
use crate::response::{Error, Response, ResponseView};
use crate::storage::{input_path, input_path_of};
use crate::transcode::{
    lossy_text, tool_exit_failure, tool_failure, tool_failure_message, JobView, TranscodeJob,
};

verus! {

/// What happened while an action was performed.
#[derive(Debug, Clone, PartialEq, Eq)]
pub enum Event {
    /// The body's next part was reached. `file_name` is the file name that
    /// the part declares, if it declares one.
    Part { file_name: Option<String> },
    /// The body has no further part.
    EndOfParts,
    /// The part's content was read and dropped.
    Skipped,
    /// The part's content was read in full and written to the path that was
    /// asked for; `size` is its length in bytes.
    Stored { size: usize },
    /// The file could not be created or written.
    StoreFailed,
    /// The tool could not be started or waited for.
    ToolUnavailable { reason: String },
    /// The tool ran to its end. `success` tells whether its exit status was
    /// zero, `stderr` is what it wrote to its standard error.
    ToolExited { success: bool, stderr: Vec<u8> },
    /// The output file was read in full.
    OutputRead { content: Vec<u8> },
    /// The output file could not be opened or read.
    OutputUnreadable { reason: String },
}

/// The model of an `Event`.
pub enum EventView {
    Part { file_name: Option<Seq<char>> },
    EndOfParts,
    Skipped,
    Stored { size: nat },
    StoreFailed,
    ToolUnavailable { reason: Seq<char> },
    ToolExited { success: bool, stderr: Seq<u8> },
    OutputRead { content: Seq<u8> },
    OutputUnreadable { reason: Seq<char> },
}

impl View for Event {
    type V = EventView;

    open spec fn view(&self) -> EventView {
        match *self {
            Event::Part { file_name } => EventView::Part {
                file_name: match file_name {
                    Some(name) => Some(name@),
                    None => None,
                },
            },
            Event::EndOfParts => EventView::EndOfParts,
            Event::Skipped => EventView::Skipped,
            Event::Stored { size } => EventView::Stored { size: size as nat },
            Event::StoreFailed => EventView::StoreFailed,
            Event::ToolUnavailable { reason } => EventView::ToolUnavailable { reason: reason@ },
            Event::ToolExited { success, stderr } => EventView::ToolExited {
                success,
                stderr: stderr@,
            },
            Event::OutputRead { content } => EventView::OutputRead { content: content@ },
            Event::OutputUnreadable { reason } => EventView::OutputUnreadable { reason: reason@ },
        }
    }
}

/// What is to be done next.
#[derive(Debug, Clone, PartialEq, Eq)]
pub enum Action {
    /// Go on to the body's next part and report it, or the end of the body.
    NextPart,
    /// Read the current part's content and drop it, whether or not the
    /// reading succeeds.
    SkipPart,
    /// Read the current part's content in full and write it to `path`.
    StorePart { path: String },
    /// Run the tool on `job` and wait for its end: either the job's command
    /// line through a shell, or the tool itself with the job's arguments.
    RunTool { job: TranscodeJob },
    /// Read the file at `path` in full. `capacity` is the size of the
    /// upload, as a first guess of how much there is to read.
    ReadOutput { path: String, capacity: usize },
    /// Send `response`; the session is over. If `remove` names a path, ask
    /// for that file's removal first, without waiting for the outcome.
    Respond { response: Response, remove: Option<String> },
}

/// The model of an `Action`.
pub enum ActionView {
    NextPart,
    SkipPart,
    StorePart { path: Seq<char> },
    RunTool { job: JobView },
    ReadOutput { path: Seq<char>, capacity: nat },
    Respond { response: ResponseView, remove: Option<Seq<char>> },
}

impl View for Action {
    type V = ActionView;

    open spec fn view(&self) -> ActionView {
        match *self {
            Action::NextPart => ActionView::NextPart,
            Action::SkipPart => ActionView::SkipPart,
            Action::StorePart { path } => ActionView::StorePart { path: path@ },
            Action::RunTool { job } => ActionView::RunTool { job: job@ },
            Action::ReadOutput { path, capacity } => ActionView::ReadOutput {
                path: path@,
                capacity: capacity as nat,
            },
            Action::Respond { response, remove } => ActionView::Respond {
                response: response@,
                remove: match remove {
                    Some(path) => Some(path@),
                    None => None,
                },
            },
        }
    }
}

impl ActionView {
    /// The action that ends a session with `response` and leaves the disk
    /// as it is.
    pub open spec fn respond(response: ResponseView) -> ActionView {
        ActionView::Respond { response, remove: None }
    }

    /// The action that ends a session with `response` and asks for the
    /// removal of the file at `path`.
    pub open spec fn respond_and_remove(response: ResponseView, path: Seq<char>) -> ActionView {
        ActionView::Respond { response, remove: Some(path) }
    }
}

/// An upload that lies on disk.
#[derive(Debug, Clone, PartialEq, Eq)]
pub struct StoredInput {
    /// The file name that the part declared.
    pub file_name: String,
    /// The length of its content in bytes.
    pub size: usize,
}

/// The model of a `StoredInput`.
pub struct StoredView {
    pub file_name: Seq<char>,
    pub size: nat,
}

impl View for StoredInput {
    type V = StoredView;

    open spec fn view(&self) -> StoredView {
        StoredView { file_name: self.file_name@, size: self.size as nat }
    }
}

/// Where a session stands.
#[derive(Debug, Clone, PartialEq, Eq)]
pub enum Session {
    /// Going through the parts of the body. `stored` is the upload met so
    /// far, if any.
    Reading { bitrate: Bitrate, stored: Option<StoredInput> },
    /// Waiting for a part without a file name to be dropped.
    Skipping { bitrate: Bitrate, stored: Option<StoredInput> },
    /// Waiting for the file part named `file_name` to reach the disk.
    Storing { bitrate: Bitrate, file_name: String },
    /// Waiting for the tool. `size` is the length of the upload.
    Transcoding { job: TranscodeJob, size: usize },
    /// Waiting for the content of the tool's output.
    Streaming { job: TranscodeJob },
    /// The response was given.
    Done,
}

/// The model of a `Session`.
pub enum SessionView {
    Reading { bitrate: Bitrate, stored: Option<StoredView> },
    Skipping { bitrate: Bitrate, stored: Option<StoredView> },
    Storing { bitrate: Bitrate, file_name: Seq<char> },
    Transcoding { job: JobView, size: nat },
    Streaming { job: JobView },
    Done,
}

impl View for Session {
    type V = SessionView;

    open spec fn view(&self) -> SessionView {
        match *self {
            Session::Reading { bitrate, stored } => SessionView::Reading {
                bitrate,
                stored: match stored {
                    Some(upload) => Some(upload@),
                    None => None,
                },
            },
            Session::Skipping { bitrate, stored } => SessionView::Skipping {
                bitrate,
                stored: match stored {
                    Some(upload) => Some(upload@),
                    None => None,
                },
            },
            Session::Storing { bitrate, file_name } => SessionView::Storing {
                bitrate,
                file_name: file_name@,
            },
            Session::Transcoding { job, size } => SessionView::Transcoding {
                job: job@,
                size: size as nat,
            },
            Session::Streaming { job } => SessionView::Streaming { job: job@ },
            Session::Done => SessionView::Done,
        }
    }
}

/// The words of the response to an event that the session was not waiting
/// for.
pub open spec fn unexpected_event_message() -> Seq<char> {
    "Unexpected event"@
}

impl SessionView {
    /// The upload that the tool is run on when the body ends: the one that
    /// was stored, or, where the body held no file, an upload without a
    /// name and without content.
    pub open spec fn upload_at_end(stored: Option<StoredView>) -> StoredView {
        match stored {
            Some(upload) => upload,
            None => StoredView { file_name: Seq::empty(), size: 0 },
        }
    }

    /// How a session begins: with the first part of the body if the bitrate
    /// is on the allow-list, and with a refusal if it is not.
    pub open spec fn start(bitrate: Seq<char>) -> (SessionView, ActionView) {
        match Bitrate::from_text(bitrate) {
            Some(preset) => (
                SessionView::Reading { bitrate: preset, stored: None },
                ActionView::NextPart,
            ),
            None => (SessionView::Done, ActionView::respond(ResponseView::bitrate_refused())),
        }
    }

    /// What a session answers to a part of the body.
    pub open spec fn on_part(
        bitrate: Bitrate,
        stored: Option<StoredView>,
        file_name: Option<Seq<char>>,
    ) -> (SessionView, ActionView) {
        match file_name {
            None => (SessionView::Skipping { bitrate, stored }, ActionView::SkipPart),
            Some(name) => if stored is None {
                (
                    SessionView::Storing { bitrate, file_name: name },
                    ActionView::StorePart { path: input_path_of(name) },
                )
            } else {
                (SessionView::Done, ActionView::respond(ResponseView::second_file_refused()))
            },
        }
    }

    /// What a session answers to the end of the body.
    pub open spec fn on_end_of_parts(bitrate: Bitrate, stored: Option<StoredView>) -> (
        SessionView,
        ActionView,
    ) {
        let upload = Self::upload_at_end(stored);
        let job = JobView::for_upload(upload.file_name, bitrate);
        (SessionView::Transcoding { job, size: upload.size }, ActionView::RunTool { job })
    }

    /// What a session answers to the end of the tool's run.
    pub open spec fn on_tool_exit(job: JobView, size: nat, success: bool, stderr: Seq<u8>) -> (
        SessionView,
        ActionView,
    ) {
        if success {
            (
                SessionView::Streaming { job },
                ActionView::ReadOutput { path: job.output_path, capacity: size },
            )
        } else {
            (
                SessionView::Done,
                ActionView::respond_and_remove(
                    ResponseView::failure(tool_failure_message(lossy_text(stderr))),
                    job.input_path,
                ),
            )
        }
    }

    /// What a session answers to an event that it was not waiting for: a
    /// server error, and nothing on disk is touched.
    pub open spec fn on_unexpected() -> (SessionView, ActionView) {
        (
            SessionView::Done,
            ActionView::respond(ResponseView::failure(unexpected_event_message())),
        )
    }

    /// The session's answer to an event: where it stands afterwards, and
    /// what is to be done next.
    pub open spec fn step(self, event: EventView) -> (SessionView, ActionView) {
        match self {
            SessionView::Reading { bitrate, stored } => match event {
                EventView::Part { file_name } => Self::on_part(bitrate, stored, file_name),
                EventView::EndOfParts => Self::on_end_of_parts(bitrate, stored),
                _ => Self::on_unexpected(),
            },
            SessionView::Skipping { bitrate, stored } => match event {
                EventView::Skipped => (
                    SessionView::Reading { bitrate, stored },
                    ActionView::NextPart,
                ),
                _ => Self::on_unexpected(),
            },
            SessionView::Storing { bitrate, file_name } => match event {
                EventView::Stored { size } => (
                    SessionView::Reading { bitrate, stored: Some(StoredView { file_name, size }) },
                    ActionView::NextPart,
                ),
                EventView::StoreFailed => (
                    SessionView::Done,
                    ActionView::respond(ResponseView::failure(Error::SaveFile.message())),
                ),
                _ => Self::on_unexpected(),
            },
            SessionView::Transcoding { job, size } => match event {
                EventView::ToolUnavailable { reason } => (
                    SessionView::Done,
                    ActionView::respond_and_remove(
                        ResponseView::failure(tool_failure_message(reason)),
                        job.input_path,
                    ),
                ),
                EventView::ToolExited { success, stderr } => Self::on_tool_exit(
                    job,
                    size,
                    success,
                    stderr,
                ),
                _ => Self::on_unexpected(),
            },
            SessionView::Streaming { job } => match event {
                EventView::OutputRead { content } => (
                    SessionView::Done,
                    ActionView::respond_and_remove(
                        ResponseView::transcoded(content),
                        job.input_path,
                    ),
                ),
                EventView::OutputUnreadable { reason } => (
                    SessionView::Done,
                    ActionView::respond_and_remove(ResponseView::failure(reason), job.input_path),
                ),
                _ => Self::on_unexpected(),
            },
            SessionView::Done => Self::on_unexpected(),
        }
    }
}

impl Session {
    /// Begins the session of one request. The bitrate is judged before
    /// anything is read: one that is not on the allow-list ends the session
    /// at once with a client error.
    pub fn start(bitrate: &str) -> (r: (Session, Action))
        ensures
            (r.0@, r.1@) == SessionView::start(bitrate@),
    {
        match Bitrate::parse(bitrate) {
            Some(preset) => (Session::Reading { bitrate: preset, stored: None }, Action::NextPart),
            None => (
                Session::Done,
                Action::Respond { response: Response::bitrate_refused(), remove: None },
            ),
        }
    }

    /// Takes an event and answers with the session's next stand and the
    /// next action.
    ///
    /// A part without a file name is skipped. The first part with a file
    /// name is stored under the uploads directory; a second one ends the
    /// session with a client error, and the first file stays where it was
    /// written. At the end of the body the tool is run; where the body held
    /// no file it is run on the uploads directory itself, and its failure
    /// is what the caller gets to see. However the run ends, the closing
    /// action asks for the upload's removal. An event that the session was
    /// not waiting for ends it with a server error.
    pub fn step(self, event: Event) -> (r: (Session, Action))
        ensures
            (r.0@, r.1@) == self@.step(event@),
    {
        match self {
            Session::Reading { bitrate, stored } => match event {
                Event::Part { file_name } => on_part(bitrate, stored, file_name),
                Event::EndOfParts => on_end_of_parts(bitrate, stored),
                _ => on_unexpected(),
            },
            Session::Skipping { bitrate, stored } => match event {
                Event::Skipped => (Session::Reading { bitrate, stored }, Action::NextPart),
                _ => on_unexpected(),
            },
            Session::Storing { bitrate, file_name } => match event {
                Event::Stored { size } => (
                    Session::Reading { bitrate, stored: Some(StoredInput { file_name, size }) },
                    Action::NextPart,
                ),
                Event::StoreFailed => (
                    Session::Done,
                    Action::Respond { response: Error::SaveFile.into_response(), remove: None },
                ),
                _ => on_unexpected(),
            },
            Session::Transcoding { job, size } => match event {
                Event::ToolUnavailable { reason } => (
                    Session::Done,
                    Action::Respond {
                        response: tool_failure(reason.as_str()),
                        remove: Some(job.input_path),
                    },
                ),
                Event::ToolExited { success, stderr } => on_tool_exit(job, size, success, stderr),
                _ => on_unexpected(),
            },
            Session::Streaming { job } => match event {
                Event::OutputRead { content } => (
                    Session::Done,
                    Action::Respond {
                        response: Response::transcoded(content),
                        remove: Some(job.input_path),
                    },
                ),
                Event::OutputUnreadable { reason } => (
                    Session::Done,
                    Action::Respond {
                        response: Error::Other(reason).into_response(),
                        remove: Some(job.input_path),
                    },
                ),
                _ => on_unexpected(),
            },
            Session::Done => on_unexpected(),
        }
    }
}

fn on_part(bitrate: Bitrate, stored: Option<StoredInput>, file_name: Option<String>) -> (r: (
    Session,
    Action,
))
    ensures
        (r.0@, r.1@) == SessionView::on_part(
            bitrate,
            match stored {
                Some(upload) => Some(upload@),
                None => None,
            },
            match file_name {
                Some(name) => Some(name@),
                None => None,
            },
        ),
{
    match file_name {
        None => (Session::Skipping { bitrate, stored }, Action::SkipPart),
        Some(name) => match stored {
            None => {
                let path: String = input_path(name.as_str());
                (Session::Storing { bitrate, file_name: name }, Action::StorePart { path })
            },
            Some(_) => (
                Session::Done,
                Action::Respond { response: Response::second_file_refused(), remove: None },
            ),
        },
    }
}

fn on_end_of_parts(bitrate: Bitrate, stored: Option<StoredInput>) -> (r: (Session, Action))
    ensures
        (r.0@, r.1@) == SessionView::on_end_of_parts(
            bitrate,
            match stored {
                Some(upload) => Some(upload@),
                None => None,
            },
        ),
{
    let upload: StoredInput = match stored {
        Some(upload) => upload,
        None => StoredInput { file_name: String::new(), size: 0 },
    };
    let job: TranscodeJob = TranscodeJob::for_upload(upload.file_name.as_str(), bitrate);
    let to_run: TranscodeJob = TranscodeJob::for_upload(upload.file_name.as_str(), bitrate);
    (Session::Transcoding { job, size: upload.size }, Action::RunTool { job: to_run })
}

fn on_tool_exit(job: TranscodeJob, size: usize, success: bool, stderr: Vec<u8>) -> (r: (
    Session,
    Action,
))
    ensures
        (r.0@, r.1@) == SessionView::on_tool_exit(job@, size as nat, success, stderr@),
{
    if success {
        let path: String = job.output_path.clone();
        (Session::Streaming { job }, Action::ReadOutput { path, capacity: size })
    } else {
        (
            Session::Done,
            Action::Respond {
                response: tool_exit_failure(stderr.as_slice()),
                remove: Some(job.input_path),
            },
        )
    }
}

fn on_unexpected() -> (r: (Session, Action))
    ensures
        (r.0@, r.1@) == SessionView::on_unexpected(),
{
    (
        Session::Done,
        Action::Respond {
            response: Error::Other("Unexpected event".to_owned()).into_response(),
            remove: None,
        },
    )
}

} // verus!
