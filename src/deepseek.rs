use vstd::prelude::*;
use vstd::string::StringExecFns;
use crate::error::DeepSeekError;
use crate::streaming::str_eq;
use crate::text::{append_chars, append_str, contains, signed_decimal, signed_decimal_exec, str_contains, string_of};

verus! {

/// The one proof-of-work algorithm the solver knows.
pub open spec fn supported_algorithm() -> Seq<char> {
    "DeepSeekHashV1"@
}

/// The prefix handed to the solver: `<salt>_<expire_at>_`.
pub open spec fn pow_prefix_of(salt: Seq<char>, expire_at: int) -> Seq<char> {
    salt + "_"@ + signed_decimal(expire_at) + "_"@
}

/// The little-endian number in four bytes.
pub open spec fn le_u32(b: Seq<u8>) -> nat {
    b[0] as nat + 256 * b[1] as nat + 65536 * b[2] as nat + 16777216 * b[3] as nat
}

/// The little-endian number in eight bytes.
pub open spec fn le_u64(b: Seq<u8>) -> nat {
    le_u32(b.take(4)) + 4294967296 * le_u32(b.skip(4))
}

/// A chat request of the DeepSeek-style service.
#[derive(Debug, Clone)]
pub struct DeepSeekChatRequest {
    pub chat_session_id: String,
    pub parent_message_id: Option<String>,
    pub prompt: String,
    pub ref_file_ids: Vec<String>,
    pub search_enabled: bool,
    pub thinking_enabled: bool,
}

/// A turn's answer and what continues the conversation.
#[derive(Debug, Clone)]
pub struct DeepSeekResponse {
    pub response: Option<String>,
    pub extra_data: ExtraData,
}

/// What a caller passes back to continue a conversation.
#[derive(Debug, Clone)]
pub struct ExtraData {
    pub session_id: String,
    pub message_id: String,
}

/// One streamed event, already decoded from JSON.
#[derive(Debug, Clone)]
pub struct DeepSeekEvent {
    /// The `response_message_id` that a ready event carries.
    pub response_message_id: Option<i64>,
    /// The text value `v`.
    pub v: Option<String>,
    /// The path `p` that the value belongs to.
    pub p: Option<String>,
}

/// The answer text and message id gathered from the stream so far.
#[derive(Debug, Clone)]
pub struct DeepSeekTurn {
    pub content: String,
    pub message_id: String,
}

/// The turn after one event: a message id replaces the last one, a value is
/// appended when its path is a content path, or when it has no path and is not
/// empty.
pub open spec fn turn_after(content: Seq<char>, message_id: Seq<char>, e: DeepSeekEvent) -> (Seq<char>, Seq<char>) {
    let mid = match e.response_message_id {
        Some(id) => signed_decimal(id as int),
        None => message_id,
    };
    let text = match e.v {
        Some(v) => match e.p {
            Some(p) => if contains(p@, "response/content"@) { content + v@ } else { content },
            None => if v@.len() > 0 { content + v@ } else { content },
        },
        None => content,
    };
    (text, mid)
}

/// The proof-of-work solver's protocol around its module.
pub struct DeepSeekHash;

impl DeepSeekHash {
    /// Refuses every algorithm but the supported one.
    pub fn check_algorithm(algorithm: &str) -> (r: Result<(), DeepSeekError>)
        ensures
            r is Ok <==> algorithm@ == supported_algorithm(),
            r matches Err(e) ==> (e matches DeepSeekError::ApiError(m) && m@ == "Unsupported algorithm: "@
                + algorithm@),
    {
        if str_eq(algorithm, "DeepSeekHashV1") {
            Ok(())
        } else {
            let mut msg = String::from_str("Unsupported algorithm: ");
            msg.append(algorithm);
            Err(DeepSeekError::ApiError(msg))
        }
    }

    /// The prefix written into the module's memory beside the challenge.
    pub fn pow_prefix(salt: &str, expire_at: i64) -> (r: String)
        ensures
            r@ == pow_prefix_of(salt@, expire_at as int),
    {
        let mut out: Vec<char> = Vec::new();
        append_str(&mut out, salt);
        append_str(&mut out, "_");
        let digits = signed_decimal_exec(expire_at);
        append_chars(&mut out, &digits);
        append_str(&mut out, "_");
        string_of(&out)
    }

    /// Reads the solver's answer off the 16 stack bytes it wrote: a status in
    /// bytes 0 to 3 (zero for no solution), and the answer's bits in bytes 8 to 15.
    pub fn read_solution(stack: &[u8]) -> (r: Option<u64>)
        requires
            stack@.len() >= 16,
        ensures
            le_u32(stack@.take(4)) == 0 ==> r is None,
            le_u32(stack@.take(4)) != 0 ==> r == Some(le_u64(stack@.subrange(8, 16)) as u64),
    {
        if stack[0] == 0 && stack[1] == 0 && stack[2] == 0 && stack[3] == 0 {
            return None;
        }
        let ghost w = stack@.subrange(8, 16);
        assert(le_u32(stack@.take(4)) != 0);
        let lo: u64 = stack[8] as u64 + 256 * stack[9] as u64 + 65536 * stack[10] as u64 + 16777216 * stack[11] as u64;
        let hi: u64 = stack[12] as u64 + 256 * stack[13] as u64 + 65536 * stack[14] as u64 + 16777216 * stack[15] as u64;
        assert(w.take(4) =~= seq![stack@[8], stack@[9], stack@[10], stack@[11]]);
        assert(w.skip(4) =~= seq![stack@[12], stack@[13], stack@[14], stack@[15]]);
        assert(hi * 4294967296 + lo <= u64::MAX) by (nonlinear_arith)
            requires hi <= 4294967295, lo <= 4294967295;
        Some(hi * 4294967296 + lo)
    }
}

impl DeepSeekTurn {
    pub fn new() -> (r: Self)
        ensures
            r.content@ == Seq::<char>::empty(),
            r.message_id@ == Seq::<char>::empty(),
    {
        DeepSeekTurn { content: String::new(), message_id: String::new() }
    }

    /// Takes one event of the stream into the turn.
    pub fn apply_event(&mut self, event: &DeepSeekEvent)
        ensures
            (final(self).content@, final(self).message_id@) == turn_after(old(self).content@, old(self).message_id@, *event),
    {
        if let Some(id) = event.response_message_id {
            self.message_id = string_of(&signed_decimal_exec(id));
        }
        if let Some(v) = &event.v {
            match &event.p {
                Some(p) => {
                    if str_contains(p.as_str(), "response/content") {
                        self.content.append(v.as_str());
                    }
                },
                None => {
                    if !v.as_str().is_empty() {
                        self.content.append(v.as_str());
                    }
                },
            }
        }
    }
}

/// Keeps the session of the token endpoint.
#[derive(Debug, Clone)]
pub struct DeepSeekSignature {
    pub session: String,
}

impl DeepSeekSignature {
    /// No session yet.
    pub fn new() -> (r: Self)
        ensures
            r.session@ == Seq::<char>::empty(),
    {
        DeepSeekSignature { session: String::new() }
    }
}

impl Default for DeepSeekSignature {
    fn default() -> (r: Self)
        ensures
            r.session@ == Seq::<char>::empty(),
    {
        Self::new()
    }
}

} // verus!
