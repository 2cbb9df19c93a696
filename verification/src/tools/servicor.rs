//! Replies of the native browsing service.
//!
//! The service is reached over a foreign-function boundary by the
//! application; what its replies mean is decided here.

use vstd::prelude::*;

verus! {

/// The entry points of the native service.
#[derive(Debug, Clone, Copy, PartialEq, Eq, Structural)]
pub enum ServiceCall {
    Search,
    Visit,
    DownloadNovel,
}

/// Whether `text` begins with `prefix`.
pub open spec fn has_prefix(text: Seq<char>, prefix: Seq<char>) -> bool {
    prefix.len() <= text.len() && text.subrange(0, prefix.len() as int) == prefix
}

/// What is reported when the service hands back no string at all.
pub open spec fn null_reply_message(call: ServiceCall) -> Seq<char> {
    match call {
        ServiceCall::Search => "Search returned null pointer"@,
        ServiceCall::Visit => "Visit returned null pointer"@,
        ServiceCall::DownloadNovel => "DownloadNovel returned null pointer"@,
    }
}

/// Whether `text` begins with `prefix`.
pub fn starts_with(text: &str, prefix: &str) -> (r: bool)
    ensures
        r == has_prefix(text@, prefix@),
{
    let n = prefix.unicode_len();
    if text.unicode_len() < n {
        return false;
    }
    let mut i: usize = 0;
    while i < n
        invariant
            i <= n,
            n == prefix@.len(),
            n <= text@.len(),
            forall|k: int| 0 <= k < i ==> text@[k] == prefix@[k],
        decreases n - i,
    {
        if text.get_char(i) != prefix.get_char(i) {
            assert(text@.subrange(0, n as int)[i as int] != prefix@[i as int]);
            return false;
        }
        i += 1;
    }
    assert(text@.subrange(0, n as int) =~= prefix@);
    true
}

/// Reads a reply of the service: no string is an error that names the entry
/// point, a string that begins with `Error:` is an error carrying that
/// string, and any other string is the result.
pub fn interpret_reply(call: ServiceCall, reply: Option<String>) -> (r: Result<String, String>)
    ensures
        match reply {
            None => r is Err && r->Err_0@ == null_reply_message(call),
            Some(text) => if has_prefix(text@, "Error:"@) {
                r == Err::<String, String>(text)
            } else {
                r == Ok::<String, String>(text)
            },
        },
{
    match reply {
        None => {
            let message = match call {
                ServiceCall::Search => "Search returned null pointer",
                ServiceCall::Visit => "Visit returned null pointer",
                ServiceCall::DownloadNovel => "DownloadNovel returned null pointer",
            };
            Err(message.to_owned())
        },
        Some(text) => {
            if starts_with(text.as_str(), "Error:") {
                Err(text)
            } else {
                Ok(text)
            }
        },
    }
}

} // verus!
