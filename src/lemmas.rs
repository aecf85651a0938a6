use vstd::prelude::*;

use crate::error::Failure;
use crate::fetch::{
    apply_save, directory_after, fetch_outcome, file_name_of, mentions, not_found_text,
    reply_outcome, saved_text, url_of, write_outcome,
};

verus! {

/// A text that is `prefix + part + suffix` mentions `part`.
proof fn lemma_mentions_middle(prefix: Seq<char>, part: Seq<char>, suffix: Seq<char>)
    ensures
        mentions(prefix + part + suffix, part),
{
    let text = prefix + part + suffix;
    assert(text.subrange(prefix.len() as int, (prefix.len() + part.len()) as int) =~= part);
}

/// The address of a gopher is the base, a slash, and the gopher's file name.
pub proof fn lemma_url_names_file(base: Seq<char>, gopher: Seq<char>)
    ensures
        url_of(base, gopher) == base + "/"@ + file_name_of(gopher),
        mentions(url_of(base, gopher), file_name_of(gopher)),
{
    assert(url_of(base, gopher) =~= base + "/"@ + file_name_of(gopher));
    lemma_mentions_middle(base + "/"@, file_name_of(gopher), Seq::empty());
    assert(base + "/"@ + file_name_of(gopher) + Seq::<char>::empty() =~= url_of(base, gopher));
}

/// A reply with status 200 and body `body` leaves `<gopher>.png` holding exactly
/// `body`, and a completed write is reported with a message naming that file.
pub proof fn lemma_ok_reply_saves_body(
    files: Map<Seq<char>, Seq<u8>>,
    gopher: Seq<char>,
    body: Seq<u8>,
)
    ensures
        reply_outcome(gopher, Ok((200i32, body))) == Ok::<_, Failure>((file_name_of(gopher), body)),
        directory_after(files, gopher, Ok((200i32, body))).contains_key(file_name_of(gopher)),
        directory_after(files, gopher, Ok((200i32, body)))[file_name_of(gopher)] == body,
        fetch_outcome(gopher, Ok((200i32, body)), Ok(())) == Ok::<_, Failure>(
            saved_text(file_name_of(gopher)),
        ),
        mentions(saved_text(file_name_of(gopher)), file_name_of(gopher)),
{
    lemma_mentions_middle("Perfect! Just saved in "@, file_name_of(gopher), Seq::empty());
    assert("Perfect! Just saved in "@ + file_name_of(gopher) + Seq::<char>::empty()
        =~= saved_text(file_name_of(gopher)));
}

/// A reply with any status other than 200 asks for no write, leaves the
/// directory as it was, and is reported as a missing gopher, naming it.
pub proof fn lemma_other_status_writes_nothing(
    files: Map<Seq<char>, Seq<u8>>,
    gopher: Seq<char>,
    status: i32,
    body: Seq<u8>,
)
    requires
        status != 200,
    ensures
        reply_outcome(gopher, Ok((status, body))) is Err,
        directory_after(files, gopher, Ok((status, body))) == files,
        fetch_outcome(gopher, Ok((status, body)), Ok(())) == Err::<Seq<char>, _>(
            Failure::GopherNotFound(not_found_text(gopher)),
        ),
        mentions(not_found_text(gopher), gopher),
{
    lemma_mentions_middle("Gopher "@, gopher, " does not exist"@);
}

/// A failed request asks for no write, leaves the directory as it was, and is
/// reported as a transport failure carrying its text.
pub proof fn lemma_transport_failure_writes_nothing(
    files: Map<Seq<char>, Seq<u8>>,
    gopher: Seq<char>,
    reason: Seq<char>,
)
    ensures
        reply_outcome(gopher, Err(reason)) is Err,
        directory_after(files, gopher, Err(reason)) == files,
        fetch_outcome(gopher, Err(reason), Ok(())) == Err::<Seq<char>, _>(
            Failure::Response(reason),
        ),
{
}

/// After a reply with status 200, a failed write is reported as a
/// persistence failure carrying its text.
pub proof fn lemma_write_failure_reported(gopher: Seq<char>, body: Seq<u8>, reason: Seq<char>)
    ensures
        fetch_outcome(gopher, Ok((200i32, body)), Err(reason)) == Err::<Seq<char>, _>(
            Failure::IO(reason),
        ),
        write_outcome(file_name_of(gopher), Err(reason)) == Err::<Seq<char>, _>(
            Failure::IO(reason),
        ),
{
}

/// Fetching the same gopher twice with the same successful reply leaves the
/// directory as one fetch does: the file holds the body once, not twice.
pub proof fn lemma_fetch_twice_same_as_once(
    files: Map<Seq<char>, Seq<u8>>,
    gopher: Seq<char>,
    body: Seq<u8>,
)
    ensures
        directory_after(directory_after(files, gopher, Ok((200i32, body))), gopher, Ok((200i32, body)))
            == directory_after(files, gopher, Ok((200i32, body))),
        directory_after(directory_after(files, gopher, Ok((200i32, body))), gopher, Ok((200i32, body)))[file_name_of(gopher)]
            == body,
{
    let once = directory_after(files, gopher, Ok((200i32, body)));
    assert(apply_save(once, (file_name_of(gopher), body)) =~= once);
}

} // verus!
