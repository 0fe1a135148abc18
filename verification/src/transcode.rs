//! The transcode invoker: the command that runs the tool, and what is made
//! of the way the tool ended.

use vstd::prelude::*;
use vstd::string::*;
use crate::bitrate::Bitrate;
use crate::response::{Error, Response, ResponseView};
use crate::storage::{input_path, input_path_of, output_path, output_path_of};

verus! {

/// The name under which the tool is started.
pub open spec fn tool_name() -> Seq<char> {
    "ffmpeg"@
}

/// A word between double quotes.
pub open spec fn quoted(word: Seq<char>) -> Seq<char> {
    "\""@ + word + "\""@
}

/// One run of the tool: the file it reads, the file it writes, and the
/// video bitrate it is given. It lives for one request.
#[derive(Debug, Clone, PartialEq, Eq)]
pub struct TranscodeJob {
    pub input_path: String,
    pub output_path: String,
    pub bitrate: Bitrate,
}

/// The model of a `TranscodeJob`.
pub struct JobView {
    pub input_path: Seq<char>,
    pub output_path: Seq<char>,
    pub bitrate: Bitrate,
}

impl View for TranscodeJob {
    type V = JobView;

    open spec fn view(&self) -> JobView {
        JobView {
            input_path: self.input_path@,
            output_path: self.output_path@,
            bitrate: self.bitrate,
        }
    }
}

impl JobView {
    /// The job that transcodes the upload named `file_name`.
    pub open spec fn for_upload(file_name: Seq<char>, bitrate: Bitrate) -> JobView {
        JobView {
            input_path: input_path_of(file_name),
            output_path: output_path_of(file_name),
            bitrate,
        }
    }

    /// The arguments that the tool is started with: overwrite the output,
    /// choose the number of threads yourself, the input path, the video
    /// bitrate, the fixed audio bitrate, the output path.
    pub open spec fn arguments(self) -> Seq<Seq<char>> {
        seq![
            "-y"@,
            "-threads"@,
            "0"@,
            "-i"@,
            self.input_path,
            "-b:v"@,
            self.bitrate.text(),
            "-b:a"@,
            "44K"@,
            self.output_path,
        ]
    }

    /// The shell command line of the job: the tool, told to overwrite its
    /// output and to choose its own number of threads, then the input path
    /// in double quotes, the video bitrate, the fixed audio bitrate, and
    /// the output path in double quotes.
    pub open spec fn command_line(self) -> Seq<char> {
        "ffmpeg -y -threads 0 -i \""@ + self.input_path + "\" -b:v "@ + self.bitrate.text()
            + " -b:a 44K \""@ + self.output_path + "\""@
    }

    /// The command line is the tool's name and the arguments written out
    /// one after another with a space before each, the two paths between
    /// double quotes.
    pub proof fn lemma_command_line_spells_arguments(self)
        ensures
            ({
                let a = self.arguments();
                &&& a.len() == 10
                &&& self.command_line() == tool_name() + " "@ + a[0] + " "@ + a[1] + " "@ + a[2]
                    + " "@ + a[3] + " "@ + quoted(a[4]) + " "@ + a[5] + " "@ + a[6] + " "@ + a[7]
                    + " "@ + a[8] + " "@ + quoted(a[9])
            }),
    {
        reveal_strlit("ffmpeg");
        reveal_strlit(" ");
        reveal_strlit("-y");
        reveal_strlit("-threads");
        reveal_strlit("0");
        reveal_strlit("-i");
        reveal_strlit("\"");
        reveal_strlit("-b:v");
        reveal_strlit("-b:a");
        reveal_strlit("44K");
        reveal_strlit("ffmpeg -y -threads 0 -i \"");
        reveal_strlit("\" -b:v ");
        reveal_strlit(" -b:a 44K \"");
        let a = self.arguments();
        let head = tool_name() + " "@ + a[0] + " "@ + a[1] + " "@ + a[2] + " "@ + a[3] + " "@
            + "\""@;
        assert(head =~= "ffmpeg -y -threads 0 -i \""@);
        let middle = "\""@ + " "@ + a[5] + " "@;
        assert(middle =~= "\" -b:v "@);
        let tail = " "@ + a[7] + " "@ + a[8] + " "@ + "\""@;
        assert(tail =~= " -b:a 44K \""@);
        assert(self.command_line() =~= head + a[4] + middle + a[6] + tail + a[9] + "\""@);
        assert(head + a[4] + middle + a[6] + tail + a[9] + "\""@ =~= tool_name() + " "@ + a[0]
            + " "@ + a[1] + " "@ + a[2] + " "@ + a[3] + " "@ + quoted(a[4]) + " "@ + a[5] + " "@
            + a[6] + " "@ + a[7] + " "@ + a[8] + " "@ + quoted(a[9]));
    }
}

impl TranscodeJob {
    /// The job that transcodes the upload named `file_name` at `bitrate`.
    pub fn for_upload(file_name: &str, bitrate: Bitrate) -> (r: TranscodeJob)
        ensures
            r@ == JobView::for_upload(file_name@, bitrate),
    {
        TranscodeJob {
            input_path: input_path(file_name),
            output_path: output_path(file_name),
            bitrate,
        }
    }

    /// The name under which the tool is started.
    pub fn tool() -> (r: &'static str)
        ensures
            r@ == tool_name(),
    {
        "ffmpeg"
    }

    /// The arguments to start the tool with, for a caller that starts it
    /// without a shell. Each path is one argument, whatever it holds.
    pub fn arguments(&self) -> (r: Vec<String>)
        ensures
            r.deep_view() == self@.arguments(),
    {
        let mut list: Vec<String> = Vec::new();
        list.push("-y".to_owned());
        list.push("-threads".to_owned());
        list.push("0".to_owned());
        list.push("-i".to_owned());
        list.push(self.input_path.clone());
        list.push("-b:v".to_owned());
        list.push(self.bitrate.as_str().to_owned());
        list.push("-b:a".to_owned());
        list.push("44K".to_owned());
        list.push(self.output_path.clone());
        assert(list.deep_view() =~= self@.arguments());
        list
    }

    /// The command line that a shell is to run for this job. The two paths
    /// stand in it as they are, between double quotes; the bitrate can only
    /// be a preset's text.
    pub fn command_line(&self) -> (r: String)
        ensures
            r@ == self@.command_line(),
    {
        let mut line: String = "ffmpeg -y -threads 0 -i \"".to_owned();
        line.append(self.input_path.as_str());
        line.append("\" -b:v ");
        line.append(self.bitrate.as_str());
        line.append(" -b:a 44K \"");
        line.append(self.output_path.as_str());
        line.append("\"");
        line
    }
}

/// The text that `String::from_utf8_lossy` makes of a sequence of bytes.
pub uninterp spec fn lossy_text(bytes: Seq<u8>) -> Seq<char>;

/// Calls `String::from_utf8_lossy` and takes the result as an owned string.
/// Trusted: the result depends on the bytes alone. What the text holds is
/// not said here, only that it has a name.
#[verifier::external_body]
fn read_lossy(bytes: &[u8]) -> (r: String)
    ensures
        r@ == lossy_text(bytes@),
{
    String::from_utf8_lossy(bytes).into_owned()
}

/// The words under which a failure of the tool is reported.
pub open spec fn tool_failure_message(diagnostic: Seq<char>) -> Seq<char> {
    "Error in `ffmpeg`: "@ + diagnostic
}

/// Reports a failure of the tool: a server error whose body names the tool
/// and then gives the diagnostic as it is.
pub fn tool_failure(diagnostic: &str) -> (r: Response)
    ensures
        r@ == ResponseView::failure(tool_failure_message(diagnostic@)),
{
    let mut words: String = "Error in `ffmpeg`: ".to_owned();
    words.append(diagnostic);
    Error::Other(words).into_response()
}

/// Reports that the tool ran and failed. The diagnostic is what the tool
/// wrote to its standard error, read as text.
pub fn tool_exit_failure(stderr: &[u8]) -> (r: Response)
    ensures
        r@ == ResponseView::failure(tool_failure_message(lossy_text(stderr@))),
{
    let diagnostic: String = read_lossy(stderr);
    tool_failure(diagnostic.as_str())
}

} // verus!
