use vstd::prelude::*;
use vstd::string::StringExecFns;
use crate::error::QwenError;
use crate::text::{chars_of, contains, matches_at, occurs_at, slice_of, str_contains, string_of, trim_ws, trim_ws_exec};

verus! {

/// One web search hit that a search phase reports.
#[derive(Debug, Clone)]
pub struct WebSearchInfo {
    pub url: String,
    pub title: String,
    pub snippet: String,
    pub hostname: Option<String>,
    pub hostlogo: Option<String>,
    pub date: String,
}

/// One `delta` of a streamed envelope, already decoded from JSON.
#[derive(Debug)]
pub struct StreamDelta {
    /// The phase tag, where the delta carries one.
    pub phase: Option<String>,
    /// The text of the delta, where it carries one.
    pub content: Option<String>,
    /// The search hits, where the delta carries a list that decoded.
    pub web_search_info: Option<Vec<WebSearchInfo>>,
}

/// One `data:` line of the stream, already decoded from JSON.
#[derive(Debug)]
pub struct StreamEnvelope {
    /// `(code, details)` of an error envelope.
    pub error: Option<(Option<String>, Option<String>)>,
    /// The response id that a `response.created` envelope announces.
    pub response_id: Option<String>,
    /// The deltas of its choices, in order.
    pub deltas: Vec<StreamDelta>,
}

/// What one turn of the stream reconstructs.
#[derive(Debug)]
pub struct StreamingOutput {
    pub content: String,
    pub response_id: String,
    pub thinking_content: Option<String>,
    pub web_search_results: Option<Vec<WebSearchInfo>>,
}

/// The buffers of one response while its stream is read.
#[derive(Debug)]
pub struct StreamAccumulator {
    pub content: String,
    pub thinking_content: String,
    pub web_search_results: Option<Vec<WebSearchInfo>>,
    pub current_phase: String,
    pub response_id: Option<String>,
}

/// The state of the buffers, as values.
pub struct AccView {
    pub content: Seq<char>,
    pub thinking: Seq<char>,
    pub search: Option<Seq<WebSearchInfo>>,
    pub phase: Seq<char>,
    pub response_id: Option<Seq<char>>,
}

/// Whether text of the phase `p` goes to the answer: the `answer` phase, and any
/// phase that is no thinking, search or image phase (also the unset one).
pub open spec fn routes_to_answer(p: Seq<char>) -> bool {
    p == "answer"@ || (!contains(p, "thinking"@) && !contains(p, "search"@) && p != "image_gen"@)
}

/// The buffers after one delta.
pub open spec fn step_delta(s: AccView, d: StreamDelta) -> AccView {
    let phase = match d.phase {
        Some(p) => p@,
        None => s.phase,
    };
    let thinking = if phase == "thinking"@ && d.content is Some {
        s.thinking + d.content->0@
    } else {
        s.thinking
    };
    let search = if phase == "web_search"@ && d.web_search_info is Some {
        Some(d.web_search_info->0@)
    } else {
        s.search
    };
    let replaced = if phase == "image_gen"@ && d.content is Some && d.content->0@.len() > 0 {
        d.content->0@
    } else {
        s.content
    };
    let content = if routes_to_answer(phase) && d.content is Some {
        replaced + d.content->0@
    } else {
        replaced
    };
    AccView { content, thinking, search, phase, response_id: s.response_id }
}

/// The buffers after the deltas `ds`, in order.
pub open spec fn step_deltas(s: AccView, ds: Seq<StreamDelta>) -> AccView
    decreases ds.len(),
{
    if ds.len() == 0 {
        s
    } else {
        step_deltas(step_delta(s, ds[0]), ds.skip(1))
    }
}

/// The buffers after one envelope that is no error: the first response id is
/// kept, then its deltas apply.
pub open spec fn step_envelope(s: AccView, e: StreamEnvelope) -> AccView {
    let s1 = if s.response_id is None && e.response_id is Some {
        AccView { response_id: Some(e.response_id->0@), ..s }
    } else {
        s
    };
    step_deltas(s1, e.deltas@)
}

/// The empty buffers.
pub open spec fn empty_acc() -> AccView {
    AccView {
        content: Seq::empty(),
        thinking: Seq::empty(),
        search: None,
        phase: Seq::empty(),
        response_id: None,
    }
}

/// The buffers after the envelopes `es`, none of them an error.
pub open spec fn step_envelopes(s: AccView, es: Seq<StreamEnvelope>) -> AccView
    decreases es.len(),
{
    if es.len() == 0 {
        s
    } else {
        step_envelopes(step_envelope(s, es[0]), es.skip(1))
    }
}

/// The message of an error envelope: `Server error: <code> - <details>`.
pub open spec fn server_error_message(code: Option<String>, details: Option<String>) -> Seq<char> {
    "Server error: "@ + (match code { Some(c) => c@, None => "unknown"@ }) + " - "@ + (match details {
        Some(d) => d@,
        None => "no details"@,
    })
}

impl StreamAccumulator {
    pub open spec fn view(&self) -> AccView {
        AccView {
            content: self.content@,
            thinking: self.thinking_content@,
            search: match self.web_search_results {
                Some(v) => Some(v@),
                None => None,
            },
            phase: self.current_phase@,
            response_id: match self.response_id {
                Some(r) => Some(r@),
                None => None,
            },
        }
    }

    /// Empty buffers, no phase yet.
    pub fn new() -> (r: Self)
        ensures
            r.view() == empty_acc(),
    {
        StreamAccumulator {
            content: String::new(),
            thinking_content: String::new(),
            web_search_results: None,
            current_phase: String::new(),
            response_id: None,
        }
    }

    /// Routes one delta by the current phase.
    pub fn apply_delta(&mut self, delta: StreamDelta)
        ensures
            final(self).view() == step_delta(old(self).view(), delta),
    {
        let ghost d = delta;
        let StreamDelta { phase, content, web_search_info } = delta;
        if let Some(p) = phase {
            self.current_phase = p;
        }
        let is_thinking = str_eq(self.current_phase.as_str(), "thinking");
        let is_search = str_eq(self.current_phase.as_str(), "web_search");
        let is_image = str_eq(self.current_phase.as_str(), "image_gen");
        let is_answer = str_eq(self.current_phase.as_str(), "answer");
        let to_answer = is_answer || (!str_contains(self.current_phase.as_str(), "thinking")
            && !str_contains(self.current_phase.as_str(), "search") && !is_image);
        if is_thinking {
            if let Some(t) = &content {
                self.thinking_content.append(t.as_str());
            }
        }
        if is_search {
            if let Some(results) = web_search_info {
                self.web_search_results = Some(results);
            }
        }
        if is_image {
            if let Some(t) = &content {
                if !t.as_str().is_empty() {
                    self.content = t.clone();
                }
            }
        }
        if to_answer {
            if let Some(t) = &content {
                self.content.append(t.as_str());
            }
        }
        proof {
            let s = step_delta(old(self).view(), d);
            assert(self.view().search == s.search);
            assert(self.view() == s);
        }
    }

    /// Keeps the first response id that the stream announces.
    pub fn note_response_id(&mut self, id: String)
        ensures
            final(self).view() == (if old(self).view().response_id is None {
                AccView { response_id: Some(id@), ..old(self).view() }
            } else {
                old(self).view()
            }),
    {
        if self.response_id.is_none() {
            self.response_id = Some(id);
        }
    }

    /// The turn as reconstructed: the thinking text is there only if not empty,
    /// the response id is empty if none was announced.
    pub fn finish(self) -> (r: StreamingOutput)
        ensures
            r.content@ == self.view().content,
            r.response_id@ == (match self.view().response_id {
                Some(id) => id,
                None => Seq::empty(),
            }),
            r.thinking_content is Some <==> self.view().thinking.len() > 0,
            r.thinking_content matches Some(t) ==> t@ == self.view().thinking,
            r.web_search_results is Some <==> self.view().search is Some,
            r.web_search_results matches Some(v) ==> self.view().search == Some(v@),
    {
        let StreamAccumulator { content, thinking_content, web_search_results, current_phase, response_id } = self;
        let rid = match response_id {
            Some(r) => r,
            None => String::new(),
        };
        let thinking = if thinking_content.as_str().is_empty() {
            None
        } else {
            Some(thinking_content)
        };
        StreamingOutput { content, response_id: rid, thinking_content: thinking, web_search_results }
    }
}

/// Whether `out` is what the buffers `s` finish as.
pub open spec fn finished_as(out: StreamingOutput, s: AccView) -> bool {
    &&& out.content@ == s.content
    &&& out.response_id@ == (match s.response_id {
        Some(id) => id,
        None => Seq::empty(),
    })
    &&& (out.thinking_content is Some <==> s.thinking.len() > 0)
    &&& (out.thinking_content matches Some(t) ==> t@ == s.thinking)
    &&& (out.web_search_results is Some <==> s.search is Some)
    &&& (out.web_search_results matches Some(v) ==> s.search == Some(v@))
}

/// Whether envelope `i` is the first error envelope of `es`, and `e` the error
/// that it aborts the turn with.
pub open spec fn aborts_at(es: Seq<StreamEnvelope>, i: int, e: QwenError) -> bool {
    &&& 0 <= i < es.len()
    &&& forall|j: int| 0 <= j < i ==> es[j].error is None
    &&& es[i].error matches Some((c, d))
    &&& e matches QwenError::ApiError(m)
    &&& m@ == server_error_message(c, d)
}

/// The error that an error envelope aborts the turn with.
pub fn server_error(code: &Option<String>, details: &Option<String>) -> (r: QwenError)
    ensures
        r matches QwenError::ApiError(m) && m@ == server_error_message(*code, *details),
{
    let mut msg = String::from_str("Server error: ");
    match code {
        Some(c) => msg.append(c.as_str()),
        None => msg.append("unknown"),
    }
    msg.append(" - ");
    match details {
        Some(d) => msg.append(d.as_str()),
        None => msg.append("no details"),
    }
    QwenError::ApiError(msg)
}

/// Reconstructs turns from streamed envelopes.
pub struct StreamingHandler;

impl StreamingHandler {
    /// Reconstructs one turn from its decoded envelopes, in stream order. The first
    /// error envelope aborts the turn with its code and details.
    pub fn handle_streaming_response(events: Vec<StreamEnvelope>) -> (r: Result<StreamingOutput, QwenError>)
        ensures
            r is Err <==> exists|i: int| 0 <= i < events@.len() && events@[i].error is Some,
            r matches Ok(out) ==> finished_as(out, step_envelopes(empty_acc(), events@)),
            r matches Err(e) ==> exists|i: int| #[trigger] aborts_at(events@, i, e),
    {
        let ghost all = events@;
        let mut rest = events;
        let mut acc = StreamAccumulator::new();
        let ghost mut k: int = 0;
        assert(all.skip(0) =~= all);
        while rest.len() > 0
            invariant
                0 <= k <= all.len(),
                all == events@,
                rest@ == all.skip(k),
                forall|j: int| 0 <= j < k ==> all[j].error is None,
                step_envelopes(acc.view(), rest@) == step_envelopes(empty_acc(), all),
            decreases rest.len(),
        {
            let e = rest.remove(0);
            let ghost e0 = e;
            let ghost acc0 = acc.view();
            proof {
                assert(all.skip(k)[0] == e);
                assert(all.skip(k).skip(1) =~= all.skip(k + 1));
            }
            let StreamEnvelope { error, response_id, deltas } = e;
            if let Some((code, details)) = error {
                let err = server_error(&code, &details);
                assert(all[k].error is Some);
                assert(aborts_at(all, k, err));
                return Err(err);
            }
            if let Some(id) = response_id {
                acc.note_response_id(id);
            }
            let ghost all_d = deltas@;
            let mut deltas = deltas;
            let ghost mut q: int = 0;
            assert(all_d.skip(0) =~= all_d);
            while deltas.len() > 0
                invariant
                    0 <= q <= all_d.len(),
                    all_d == e0.deltas@,
                    deltas@ == all_d.skip(q),
                    step_deltas(acc.view(), deltas@) == step_envelope(acc0, e0),
                decreases deltas.len(),
            {
                let d = deltas.remove(0);
                proof {
                    assert(all_d.skip(q)[0] == d);
                    assert(all_d.skip(q).skip(1) =~= all_d.skip(q + 1));
                }
                acc.apply_delta(d);
                proof { q = q + 1; }
            }
            proof { k = k + 1; }
        }
        assert(k == all.len());
        Ok(acc.finish())
    }
}

/// The payload of a stream line: the trimmed text after `data: `, unless it is
/// empty or the `[DONE]` sentinel.
pub open spec fn line_payload(line: Seq<char>) -> Option<Seq<char>> {
    if occurs_at(line, "data: "@, 0) {
        let data = trim_ws(line.skip(6));
        if data.len() == 0 || data == "[DONE]"@ {
            None
        } else {
            Some(data)
        }
    } else {
        None
    }
}

/// The JSON text that a stream line carries, if any.
pub fn data_payload(line: &str) -> (r: Option<String>)
    ensures
        match r {
            Some(d) => line_payload(line@) == Some(d@),
            None => line_payload(line@) is None,
        },
{
    proof { reveal_strlit("data: "); }
    let cs = chars_of(line);
    if !matches_at(&cs, &chars_of("data: "), 0) {
        return None;
    }
    let rest = slice_of(&cs, 6, cs.len());
    assert(rest@ =~= line@.skip(6));
    let data = string_of(&trim_ws_exec(&rest));
    if data.as_str().is_empty() || str_eq(data.as_str(), "[DONE]") {
        None
    } else {
        Some(data)
    }
}

/// Whether a stream line is the `[DONE]` sentinel that ends the turn.
pub open spec fn is_done_line(line: Seq<char>) -> bool {
    occurs_at(line, "data: "@, 0) && trim_ws(line.skip(6)) == "[DONE]"@
}

/// The payloads of a turn's lines, in order, up to the first sentinel.
pub open spec fn turn_payloads(lines: Seq<Seq<char>>) -> Seq<Seq<char>>
    decreases lines.len(),
{
    if lines.len() == 0 || is_done_line(lines[0]) {
        Seq::empty()
    } else {
        match line_payload(lines[0]) {
            Some(d) => seq![d] + turn_payloads(lines.skip(1)),
            None => turn_payloads(lines.skip(1)),
        }
    }
}

/// Whether a stream line is the `[DONE]` sentinel.
pub fn is_done_line_exec(line: &str) -> (r: bool)
    ensures
        r == is_done_line(line@),
{
    proof { reveal_strlit("data: "); }
    let cs = chars_of(line);
    if !matches_at(&cs, &chars_of("data: "), 0) {
        return false;
    }
    let rest = slice_of(&cs, 6, cs.len());
    assert(rest@ =~= line@.skip(6));
    let data = string_of(&trim_ws_exec(&rest));
    str_eq(data.as_str(), "[DONE]")
}

/// The payloads of a turn's lines, in order: the stream ends at the first
/// `[DONE]` line, and lines after it are not read.
pub fn payloads_until_done(lines: &Vec<String>) -> (r: Vec<String>)
    ensures
        r@.map_values(|d: String| d@) == turn_payloads(lines@.map_values(|l: String| l@)),
{
    let ghost all = lines@.map_values(|l: String| l@);
    let mut out: Vec<String> = Vec::new();
    let mut k: usize = 0;
    assert(all.skip(0) =~= all);
    assert(out@.map_values(|d: String| d@) + turn_payloads(all) =~= turn_payloads(all));
    while k < lines.len()
        invariant
            k <= lines.len(),
            all == lines@.map_values(|l: String| l@),
            out@.map_values(|d: String| d@) + turn_payloads(all.skip(k as int)) == turn_payloads(all),
        decreases lines.len() - k,
    {
        let ghost before = out@.map_values(|d: String| d@);
        let ghost rest = all.skip(k as int);
        assert(rest[0] == lines@[k as int]@);
        assert(rest.skip(1) =~= all.skip(k + 1));
        if is_done_line_exec(lines[k].as_str()) {
            assert(turn_payloads(rest) == Seq::<Seq<char>>::empty());
            assert(before + Seq::<Seq<char>>::empty() =~= before);
            return out;
        }
        match data_payload(lines[k].as_str()) {
            Some(d) => {
                out.push(d);
                assert(out@.map_values(|d: String| d@) =~= before.push(d@));
                assert(before.push(d@) + turn_payloads(all.skip(k + 1)) =~= before + (seq![d@] + turn_payloads(
                    all.skip(k + 1),
                )));
            },
            None => {},
        }
        k += 1;
    }
    assert(all.skip(k as int) =~= Seq::<Seq<char>>::empty());
    assert(out@.map_values(|d: String| d@) + Seq::<Seq<char>>::empty() =~= out@.map_values(|d: String| d@));
    out
}

/// Whether two strings hold the same characters.
pub fn str_eq(a: &str, b: &str) -> (r: bool)
    ensures
        r == (a@ == b@),
{
    let x = chars_of(a);
    let y = chars_of(b);
    if x.len() != y.len() {
        return false;
    }
    let mut k: usize = 0;
    while k < x.len()
        invariant
            k <= x.len() == y.len(),
            x@ == a@,
            y@ == b@,
            forall|i: int| 0 <= i < k ==> x@[i] == y@[i],
        decreases x.len() - k,
    {
        if x[k] != y[k] {
            assert(x@[k as int] != y@[k as int]);
            return false;
        }
        k += 1;
    }
    assert(x@ =~= y@);
    true
}

} // verus!
