//! The temporary storage: where an upload and its transcoded form lie on
//! disk, and how large a request may be.

use vstd::prelude::*;
use vstd::string::*;

verus! {

/// The largest request body that is taken, in bytes: 512 MiB.
pub const MAX_BODY_BYTES: u64 = 512 * 1024 * 1024;

/// Whether a request body of this length is taken. The cap itself is in;
/// one byte more is out.
pub fn body_fits(length: u64) -> (r: bool)
    ensures
        r == (length <= MAX_BODY_BYTES),
{
    length <= MAX_BODY_BYTES
}

/// The path of the upload named `file_name`.
pub open spec fn input_path_of(file_name: Seq<char>) -> Seq<char> {
    "uploads/"@ + file_name
}

/// The path of the transcoded form of the upload named `file_name`.
pub open spec fn output_path_of(file_name: Seq<char>) -> Seq<char> {
    "uploads/1M.."@ + file_name
}

/// Where the upload named `file_name` is written. The name is the caller's
/// and is taken as it is: two uploads of one name share the path.
pub fn input_path(file_name: &str) -> (r: String)
    ensures
        r@ == input_path_of(file_name@),
{
    let mut path: String = "uploads/".to_owned();
    path.append(file_name);
    path
}

/// Where the tool writes the transcoded form of the upload named
/// `file_name`: beside the upload, under a fixed prefix.
pub fn output_path(file_name: &str) -> (r: String)
    ensures
        r@ == output_path_of(file_name@),
{
    let mut path: String = "uploads/1M..".to_owned();
    path.append(file_name);
    path
}

/// The tool never writes over the file that it reads: an upload and its
/// transcoded form have different paths.
pub proof fn lemma_output_beside_input(file_name: Seq<char>)
    ensures
        input_path_of(file_name) != output_path_of(file_name),
{
    reveal_strlit("uploads/");
    reveal_strlit("uploads/1M..");
    assert(input_path_of(file_name).len() == 8 + file_name.len());
    assert(output_path_of(file_name).len() == 12 + file_name.len());
}

} // verus!
