use vstd::prelude::*;
use vstd::string::StringExecFns;
use crate::crypto::{sha256, sha256_of};
use crate::text::{
    append_chars, chars_of, decimal, decimal_exec, decimal_exec_u128, hex_encode, hex_lower, matches_at,
    occurs_at, replace_all, replace_all_exec, slice_of, string_of, trim_ws, trim_ws_exec,
};

verus! {

/// The reasoning text with its `<details>` wrapper and quote markers removed:
/// both tags go, a leading `> ` goes, each `\n> ` becomes `\n`, then the text
/// is trimmed.
pub open spec fn thinking_cleaned(s: Seq<char>) -> Seq<char> {
    let r1 = replace_all(replace_all(s, "<details>"@, Seq::empty()), "</details>"@, Seq::empty());
    let r2 = if occurs_at(r1, "> "@, 0) {
        r1.skip(2)
    } else {
        r1
    };
    trim_ws(replace_all(r2, "\n> "@, "\n"@))
}

/// Cleans the reasoning text that a response quotes in a `<details>` block.
pub fn process_thinking_content(content: &str) -> (r: String)
    ensures
        r@ == thinking_cleaned(content@),
{
    proof {
        reveal_strlit("<details>");
        reveal_strlit("</details>");
        reveal_strlit("> ");
        reveal_strlit("\n> ");
    }
    let s = chars_of(content);
    let empty: Vec<char> = Vec::new();
    let r1 = replace_all_exec(&s, &chars_of("<details>"), &empty);
    let r1 = replace_all_exec(&r1, &chars_of("</details>"), &empty);
    let r2 = if matches_at(&r1, &chars_of("> "), 0) {
        let v = slice_of(&r1, 2, r1.len());
        assert(v@ =~= r1@.skip(2));
        v
    } else {
        r1
    };
    let r3 = replace_all_exec(&r2, &chars_of("\n> "), &chars_of("\n"));
    string_of(&trim_ws_exec(&r3))
}

/// Relies on `SystemTime::now().duration_since(UNIX_EPOCH)`: the whole seconds
/// and the nanoseconds since the epoch (both zero if the clock is set before
/// it); the seconds are the nanoseconds divided by 10^9.
#[verifier::external_body]
fn since_epoch() -> (r: (u64, u128))
    ensures
        r.1 / 1_000_000_000 == r.0 as u128,
{
    let d = std::time::SystemTime::now().duration_since(std::time::UNIX_EPOCH).unwrap_or_default();
    (d.as_secs(), d.as_nanos())
}

/// What can go wrong with the Z-style service.
#[derive(Debug, Clone, PartialEq, Eq)]
pub enum ZtoError {
    TokenFetch(String),
    RequestFailed(String),
    ParseError(String),
    UnauthorizedError(String),
    ServerError(String),
    Other(String),
}

/// The guest token that the service hands out.
#[derive(Debug, Clone)]
pub struct TokenResponse {
    pub token: String,
}

/// The features of a request.
#[derive(Debug, Clone, Copy)]
pub struct Features {
    pub enable_thinking: bool,
}

/// The chat id for a time since the epoch: `<nanoseconds>-<seconds>`.
pub fn chat_id_of(secs: u64, nanos: u128) -> (r: String)
    ensures
        r@ == decimal(nanos as nat) + "-"@ + decimal(secs as nat),
{
    let mut out = decimal_exec_u128(nanos);
    out.push('-');
    let s = decimal_exec(secs);
    append_chars(&mut out, &s);
    proof {
        reveal_strlit("-");
        assert(out@ =~= decimal(nanos as nat) + "-"@ + decimal(secs as nat));
    }
    string_of(&out)
}

/// The message id for a time since the epoch: its nanoseconds.
pub fn message_id_of(nanos: u128) -> (r: String)
    ensures
        r@ == decimal(nanos as nat),
{
    string_of(&decimal_exec_u128(nanos))
}

/// A chat id from the clock: `<nanoseconds>-<seconds>` since the epoch.
pub fn generate_chat_id() -> (r: String)
    ensures
        exists|n: nat| r@ == decimal(n) + "-"@ + decimal(n / 1_000_000_000),
{
    let (secs, nanos) = since_epoch();
    chat_id_of(secs, nanos)
}

/// A message id from the clock: the nanoseconds since the epoch.
pub fn generate_message_id() -> (r: String)
    ensures
        exists|n: nat| r@ == decimal(n),
{
    let (_, nanos) = since_epoch();
    message_id_of(nanos)
}

/// The hex SHA-256 of a request body.
pub fn generate_signature(body: &[u8]) -> (r: String)
    ensures
        r@ == hex_lower(sha256_of(body@)),
{
    let digest = sha256(body);
    string_of(&hex_encode(digest.as_slice()))
}

/// How often a call is retried with a fresh token after the service refused
/// the token.
pub const MAX_RETRIES: u32 = 3;

/// What an HTTP status of the chat endpoint means: 200 is a stream to read,
/// 401 a refused token, anything else a server error naming the status.
pub fn status_outcome(status: u16) -> (r: Result<(), ZtoError>)
    ensures
        status == 200 <==> r is Ok,
        status == 401 ==> (r matches Err(e) && e is UnauthorizedError),
        (status != 200 && status != 401) ==> (r matches Err(ZtoError::ServerError(m)) && m@
            == "Server returned status: "@ + decimal(status as nat)),
{
    if status == 200 {
        Ok(())
    } else if status == 401 {
        Err(ZtoError::UnauthorizedError(string_of(&chars_of("Token invalid or expired"))))
    } else {
        let mut msg = chars_of("Server returned status: ");
        let digits = decimal_exec(status as u64);
        append_chars(&mut msg, &digits);
        Err(ZtoError::ServerError(string_of(&msg)))
    }
}

/// Whether a failed call is tried again with a fresh token: only after a
/// refused token, and at most `MAX_RETRIES` times.
pub fn retry_with_fresh_token(retry_count: u32, error: &ZtoError) -> (r: bool)
    ensures
        r == (error is UnauthorizedError && retry_count < MAX_RETRIES),
{
    match error {
        ZtoError::UnauthorizedError(_) => retry_count < MAX_RETRIES,
        _ => false,
    }
}

/// The answer text that a run of stream deltas spells: the contents that are
/// there, in order.
pub open spec fn delta_text(deltas: Seq<Option<String>>) -> Seq<char>
    decreases deltas.len(),
{
    if deltas.len() == 0 {
        Seq::empty()
    } else {
        delta_text(deltas.drop_last()) + match deltas.last() {
            Some(t) => t@,
            None => Seq::empty(),
        }
    }
}

/// Appends the contents of the deltas of one stream line to the answer.
pub fn append_delta_contents(content: &mut String, deltas: &Vec<Option<String>>)
    ensures
        final(content)@ == old(content)@ + delta_text(deltas@),
{
    let mut k: usize = 0;
    let ghost start = content@;
    assert(deltas@.take(0) =~= Seq::<Option<String>>::empty());
    while k < deltas.len()
        invariant
            k <= deltas.len(),
            content@ == start + delta_text(deltas@.take(k as int)),
        decreases deltas.len() - k,
    {
        assert(deltas@.take(k + 1).drop_last() =~= deltas@.take(k as int));
        if let Some(t) = &deltas[k] {
            content.append(t.as_str());
        }
        k += 1;
    }
    assert(deltas@.take(deltas.len() as int) =~= deltas@);
}

} // verus!
