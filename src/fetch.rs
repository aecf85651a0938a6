use vstd::prelude::*;

use crate::error::{Error, Failure};

verus! {

/// Where the gophers live unless a fetcher is given another base.
pub const BASE_URL: &'static str = "https://github.com/scraly/gophers/raw/main";

/// The status that marks a reply worth saving; nothing else is accepted.
pub const STATUS_OK: i32 = 200;

/// The local file a gopher is saved to: its name with `.png` appended,
/// used as it stands.
pub open spec fn file_name_of(gopher: Seq<char>) -> Seq<char> {
    gopher + ".png"@
}

/// The address a gopher is fetched from: `<base>/<gopher>.png`.
pub open spec fn url_of(base: Seq<char>, gopher: Seq<char>) -> Seq<char> {
    base + "/"@ + gopher + ".png"@
}

/// What the caller is told when a gopher does not exist.
pub open spec fn not_found_text(gopher: Seq<char>) -> Seq<char> {
    "Gopher "@ + gopher + " does not exist"@
}

/// What the caller is told once the picture is saved under `file_name`.
pub open spec fn saved_text(file_name: Seq<char>) -> Seq<char> {
    "Perfect! Just saved in "@ + file_name
}

/// The reply of the server as received by the caller.
#[derive(Debug, Clone, PartialEq, Eq)]
pub struct Reply {
    pub status_code: i32,
    pub body: Vec<u8>,
}

/// A write that the caller is asked to perform: create (or truncate) the file
/// `file_name` and put exactly `bytes` in it.
#[derive(Debug, Clone, PartialEq, Eq)]
pub struct Save {
    pub file_name: String,
    pub bytes: Vec<u8>,
}

impl View for Save {
    type V = (Seq<char>, Seq<u8>);

    open spec fn view(&self) -> (Seq<char>, Seq<u8>) {
        (self.file_name@, self.bytes@)
    }
}

/// The view of what the request brought: a status and a body, or the text of
/// the transport failure.
pub open spec fn reply_view(reply: Result<Reply, String>) -> Result<(i32, Seq<u8>), Seq<char>> {
    match reply {
        Ok(r) => Ok((r.status_code, r.body@)),
        Err(t) => Err(t@),
    }
}

/// The view of what the write brought: nothing, or the text of its failure.
pub open spec fn write_view(outcome: Result<(), String>) -> Result<(), Seq<char>> {
    match outcome {
        Ok(u) => Ok(u),
        Err(t) => Err(t@),
    }
}

/// What follows a request for `gopher`: the write to perform, or the failure
/// to report. Only status 200 leads to a write, of the body as received.
pub open spec fn reply_outcome(
    gopher: Seq<char>,
    reply: Result<(i32, Seq<u8>), Seq<char>>,
) -> Result<(Seq<char>, Seq<u8>), Failure> {
    match reply {
        Err(t) => Err(Failure::Response(t)),
        Ok((status, body)) => if status == STATUS_OK {
            Ok((file_name_of(gopher), body))
        } else {
            Err(Failure::GopherNotFound(not_found_text(gopher)))
        },
    }
}

/// What a fetch reports once the write to `file_name` has been tried.
pub open spec fn write_outcome(
    file_name: Seq<char>,
    outcome: Result<(), Seq<char>>,
) -> Result<Seq<char>, Failure> {
    match outcome {
        Ok(_) => Ok(saved_text(file_name)),
        Err(t) => Err(Failure::IO(t)),
    }
}

/// The view of a result that carries a `Save` or an error.
pub open spec fn save_result_view(r: Result<Save, Error>) -> Result<(Seq<char>, Seq<u8>), Failure> {
    match r {
        Ok(s) => Ok(s@),
        Err(e) => Err(e@),
    }
}

/// The view of a result that carries a message or an error.
pub open spec fn message_result_view(r: Result<String, Error>) -> Result<Seq<char>, Failure> {
    match r {
        Ok(m) => Ok(m@),
        Err(e) => Err(e@),
    }
}

/// Whether `part` occurs in `text` as a contiguous run.
pub open spec fn mentions(text: Seq<char>, part: Seq<char>) -> bool {
    exists|i: int|
        0 <= i && i + part.len() <= text.len() && #[trigger] text.subrange(i, i + part.len())
            == part
}

/// The directory after a `Save` (a file name and its bytes) is performed: the
/// file is created or truncated, so it holds exactly the bytes, whatever it
/// held before.
pub open spec fn apply_save(
    files: Map<Seq<char>, Seq<u8>>,
    save: (Seq<char>, Seq<u8>),
) -> Map<Seq<char>, Seq<u8>> {
    files.insert(save.0, save.1)
}

/// The directory after a fetch of `gopher` that brought `reply` and whose
/// write, if one was asked for, completed.
pub open spec fn directory_after(
    files: Map<Seq<char>, Seq<u8>>,
    gopher: Seq<char>,
    reply: Result<(i32, Seq<u8>), Seq<char>>,
) -> Map<Seq<char>, Seq<u8>> {
    match reply_outcome(gopher, reply) {
        Ok(save) => apply_save(files, save),
        Err(_) => files,
    }
}

/// What a whole fetch of `gopher` reports, given what the request brought and,
/// where a write was asked for, what the write brought.
pub open spec fn fetch_outcome(
    gopher: Seq<char>,
    reply: Result<(i32, Seq<u8>), Seq<char>>,
    write: Result<(), Seq<char>>,
) -> Result<Seq<char>, Failure> {
    match reply_outcome(gopher, reply) {
        Ok(save) => write_outcome(save.0, write),
        Err(f) => Err(f),
    }
}

/// Resolves gopher names to addresses under one base URL.
#[derive(Debug, Clone)]
pub struct Fetcher {
    pub base_url: String,
}

impl Fetcher {
    /// A fetcher that asks under `base_url`.
    pub fn new(base_url: String) -> (r: Fetcher)
        ensures
            r.base_url@ == base_url@,
    {
        Fetcher { base_url }
    }

    /// A fetcher that asks under [`BASE_URL`].
    pub fn remote() -> (r: Fetcher)
        ensures
            r.base_url@ == BASE_URL@,
    {
        Fetcher { base_url: String::from_str(BASE_URL) }
    }

    /// The address of `gopher`: `<base>/<gopher>.png`, with no check on the name.
    pub fn url_for(&self, gopher: &str) -> (r: String)
        ensures
            r@ == url_of(self.base_url@, gopher@),
    {
        let mut url = self.base_url.clone();
        url.append("/");
        url.append(gopher);
        url.append(".png");
        url
    }
}

/// The file name for `gopher`: `<gopher>.png`, with no check on the name.
pub fn file_name_for(gopher: &str) -> (r: String)
    ensures
        r@ == file_name_of(gopher@),
{
    let name = String::from_str(gopher);
    name.concat(".png")
}

/// Decides what follows the request for `gopher`. A transport failure becomes
/// `Error::Response` with its text; a status of exactly 200 asks for the body
/// to be saved to `<gopher>.png`; any other status is `Error::GopherNotFound`
/// naming the gopher, and nothing is written.
pub fn handle_reply(gopher: &str, reply: Result<Reply, String>) -> (r: Result<Save, Error>)
    ensures
        save_result_view(r) == reply_outcome(gopher@, reply_view(reply)),
{
    match reply {
        Err(t) => Err(Error::Response(t)),
        Ok(resp) => {
            if resp.status_code == STATUS_OK {
                let file_name = file_name_for(gopher);
                Ok(Save { file_name, bytes: resp.body })
            } else {
                let mut text = String::from_str("Gopher ");
                text.append(gopher);
                text.append(" does not exist");
                Err(Error::GopherNotFound(text))
            }
        },
    }
}

/// Decides what a fetch reports once `save` has been tried: the confirmation
/// naming the file, or `Error::IO` with the text of the write failure.
pub fn handle_saved(save: &Save, outcome: Result<(), String>) -> (r: Result<String, Error>)
    ensures
        message_result_view(r) == write_outcome(save.file_name@, write_view(outcome)),
{
    match outcome {
        Ok(()) => {
            let text = String::from_str("Perfect! Just saved in ");
            Ok(text.concat(save.file_name.as_str()))
        },
        Err(t) => Err(Error::IO(t)),
    }
}

} // verus!
