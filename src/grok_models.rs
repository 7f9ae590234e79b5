use vstd::prelude::*;
use vstd::string::StringExecFns;
use crate::error::GrokError;
use crate::streaming::str_eq;
use crate::text::{append_str, between_spec, contains, str_contains, string_of};
use crate::utils::Utils;

verus! {

/// A turn's answer and what continues the conversation.
#[derive(Debug, Clone)]
pub struct GrokResponse {
    pub response: Option<String>,
    pub stream_response: Vec<String>,
    pub images: Option<Vec<String>>,
    pub extra_data: ExtraData,
}

/// What a caller passes back to continue a conversation.
#[derive(Debug, Clone)]
pub struct ExtraData {
    pub anon_user: String,
    /// Cookies as name and value.
    pub cookies: Vec<(String, String)>,
    pub actions: Vec<String>,
    pub xsid_script: String,
    pub baggage: String,
    pub sentry_trace: String,
    pub conversation_id: Option<String>,
    pub parent_response_id: Option<String>,
    /// The session's private key in base64.
    pub private_key: String,
}

/// A cached result of the script scan: which script held the private-key
/// marker, the action ids it declared, and the signature script.
#[derive(Debug, Clone)]
pub struct GrokMapping {
    pub xsid_script: String,
    pub action_script: String,
    pub actions: Vec<String>,
}

/// Offsets read out of each signature script, by script link; only appended to.
#[derive(Debug, Clone)]
pub struct XsidMapping {
    pub mappings: Vec<(String, Vec<usize>)>,
}

/// The model names and their two mode strings.
pub open spec fn model_table() -> Seq<(Seq<char>, Seq<char>, Seq<char>)> {
    seq![
        ("grok-3-auto"@, "MODEL_MODE_AUTO"@, "auto"@),
        ("grok-3-fast"@, "MODEL_MODE_FAST"@, "fast"@),
        ("grok-4"@, "MODEL_MODE_EXPERT"@, "expert"@),
        ("grok-4-mini-thinking-tahoe"@, "MODEL_MODE_GROK_4_MINI_THINKING"@, "grok-4-mini-thinking"@),
    ]
}

/// The table row of a model, or that of `grok-3-auto` for an unknown one.
pub open spec fn model_row(model: Seq<char>) -> (Seq<char>, Seq<char>, Seq<char>) {
    let t = model_table();
    if model == t[0].0 {
        t[0]
    } else if model == t[1].0 {
        t[1]
    } else if model == t[2].0 {
        t[2]
    } else if model == t[3].0 {
        t[3]
    } else {
        t[0]
    }
}

/// The known models.
pub struct Models {
    models: Vec<(String, String, String)>,
}

impl Models {
    /// Whether the table holds the known models.
    pub closed spec fn wf(&self) -> bool {
        &&& self.models@.len() == 4
        &&& forall|i: int| 0 <= i < 4 ==> (#[trigger] self.models@[i]).0@ == model_table()[i].0
            && self.models@[i].1@ == model_table()[i].1 && self.models@[i].2@ == model_table()[i].2
    }

    pub fn new() -> (r: Self)
        ensures
            r.wf(),
    {
        let mut models: Vec<(String, String, String)> = Vec::new();
        models.push((String::from_str("grok-3-auto"), String::from_str("MODEL_MODE_AUTO"), String::from_str("auto")));
        models.push((String::from_str("grok-3-fast"), String::from_str("MODEL_MODE_FAST"), String::from_str("fast")));
        models.push((String::from_str("grok-4"), String::from_str("MODEL_MODE_EXPERT"), String::from_str("expert")));
        models.push((
            String::from_str("grok-4-mini-thinking-tahoe"),
            String::from_str("MODEL_MODE_GROK_4_MINI_THINKING"),
            String::from_str("grok-4-mini-thinking"),
        ));
        let r = Models { models };
        assert(r.models@.len() == 4);
        r
    }

    fn row(&self, model: &str) -> (r: usize)
        requires
            self.wf(),
        ensures
            r < 4,
            self.models@[r as int].0@ == model_row(model@).0,
            self.models@[r as int].1@ == model_row(model@).1,
            self.models@[r as int].2@ == model_row(model@).2,
    {
        let mut i: usize = 0;
        while i < 4
            invariant
                i <= 4,
                self.wf(),
                forall|j: int| 0 <= j < i ==> model@ != model_table()[j].0,
            decreases 4 - i,
        {
            if str_eq(self.models[i].0.as_str(), model) {
                assert(self.models@[i as int].0@ == model_table()[i as int].0);
                return i;
            }
            i += 1;
        }
        assert(self.models@[0].0@ == model_table()[0].0);
        0
    }

    /// The model mode of a model (`MODEL_MODE_...`); that of `grok-3-auto` for
    /// an unknown one.
    pub fn get_model_mode(&self, model: &str) -> (r: String)
        requires
            self.wf(),
        ensures
            r@ == model_row(model@).1,
    {
        let i = self.row(model);
        self.models[i].1.clone()
    }

    /// The short mode of a model; that of `grok-3-auto` for an unknown one.
    pub fn get_mode(&self, model: &str) -> (r: String)
        requires
            self.wf(),
        ensures
            r@ == model_row(model@).2,
    {
        let i = self.row(model);
        self.models[i].2.clone()
    }
}

/// Whether a cached scan's action script is among the page's scripts.
pub open spec fn listed(m: GrokMapping, scripts: Seq<String>) -> bool {
    exists|j: int| 0 <= j < scripts.len() && (#[trigger] scripts[j])@ == m.action_script@
}

/// Whether cached scan `i` is the first whose action script is listed.
pub open spec fn first_listed(ms: Seq<GrokMapping>, scripts: Seq<String>, i: int) -> bool {
    &&& 0 <= i < ms.len()
    &&& listed(ms[i], scripts)
    &&& forall|k: int| 0 <= k < i ==> !#[trigger] listed(ms[k], scripts)
}

/// The link of the signature script: the twimg `ondemand.s` script, whose hash
/// the page names, or a script under `_next`.
pub open spec fn script_link_of(script_id: Seq<char>, html: Seq<char>) -> Option<Seq<char>> {
    if script_id == "ondemand.s"@ {
        match between_spec(html, "\"ondemand.s\":\""@, "\""@) {
            Some(hash) => Some("https://abs.twimg.com/responsive-web/client-web/ondemand.s."@ + hash + "a.js"@),
            None => None,
        }
    } else {
        Some("https://grok.com/_next/"@ + script_id)
    }
}

/// Whether entry `i` is the first cached entry for `link`.
pub open spec fn first_cached(ms: Seq<(String, Vec<usize>)>, link: Seq<char>, i: int) -> bool {
    &&& 0 <= i < ms.len()
    &&& ms[i].0@ == link
    &&& forall|j: int| 0 <= j < i ==> ms[j].0@ != link
}

impl XsidMapping {
    /// Appends the offsets read out of a script.
    pub fn push(&mut self, link: String, offsets: Vec<usize>)
        ensures
            final(self).mappings@ == old(self).mappings@.push((link, offsets)),
    {
        self.mappings.push((link, offsets));
    }

    /// The offsets cached for a script link, if any (the first entry for it).
    pub fn get(&self, link: &str) -> (r: Option<Vec<usize>>)
        ensures
            r is Some <==> exists|i: int| 0 <= i < self.mappings@.len() && (#[trigger] self.mappings@[i]).0@ == link@,
            r matches Some(v) ==> exists|i: int| #[trigger] first_cached(self.mappings@, link@, i) && v@ == self.mappings@[i].1@,
    {
        let mut i: usize = 0;
        while i < self.mappings.len()
            invariant
                i <= self.mappings.len(),
                forall|j: int| 0 <= j < i ==> (#[trigger] self.mappings@[j]).0@ != link@,
            decreases self.mappings.len() - i,
        {
            if str_eq(self.mappings[i].0.as_str(), link) {
                assert(first_cached(self.mappings@, link@, i as int));
                return Some(self.mappings[i].1.clone());
            }
            i += 1;
        }
        None
    }
}

/// The script cache and page scraping of the signature engine.
pub struct ScriptLinks;

impl ScriptLinks {
    /// The link of the signature script named `script_id` on the page `html`;
    /// an error where the page does not name the `ondemand.s` hash.
    pub fn script_link(script_id: &str, html: &str) -> (r: Result<String, GrokError>)
        ensures
            match r {
                Ok(link) => script_link_of(script_id@, html@) == Some(link@),
                Err(e) => e is ParseError && script_link_of(script_id@, html@) is None,
            },
    {
        if str_eq(script_id, "ondemand.s") {
            let hash = match Utils::between(html, "\"ondemand.s\":\"", "\"") {
                Ok(h) => h,
                Err(e) => return Err(e),
            };
            let mut link: Vec<char> = Vec::new();
            append_str(&mut link, "https://abs.twimg.com/responsive-web/client-web/ondemand.s.");
            append_str(&mut link, hash.as_str());
            append_str(&mut link, "a.js");
            Ok(string_of(&link))
        } else {
            let mut link: Vec<char> = Vec::new();
            append_str(&mut link, "https://grok.com/_next/");
            append_str(&mut link, script_id);
            Ok(string_of(&link))
        }
    }

    /// A copy of a list of strings.
    fn copy_strings(v: &Vec<String>) -> (r: Vec<String>)
        ensures
            r@.map_values(|x: String| x@) == v@.map_values(|x: String| x@),
    {
        let mut out: Vec<String> = Vec::new();
        let mut i: usize = 0;
        while i < v.len()
            invariant
                i <= v.len(),
                out@.len() == i,
                forall|j: int| 0 <= j < i ==> (#[trigger] out@[j])@ == v@[j]@,
            decreases v.len() - i,
        {
            out.push(v[i].clone());
            i += 1;
        }
        assert(out@.map_values(|x: String| x@) =~= v@.map_values(|x: String| x@));
        out
    }

    /// The first cached scan result whose action script is among the page's
    /// scripts, if any.
    pub fn cached_scan(mappings: &Vec<GrokMapping>, scripts: &Vec<String>) -> (r: Option<GrokMapping>)
        ensures
            r is Some <==> exists|i: int| 0 <= i < mappings@.len() && #[trigger] listed(mappings@[i], scripts@),
            r matches Some(m) ==> exists|i: int| #[trigger] first_listed(mappings@, scripts@, i)
                && m.xsid_script@ == mappings@[i].xsid_script@ && m.action_script@ == mappings@[i].action_script@
                && m.actions@.map_values(|x: String| x@) == mappings@[i].actions@.map_values(|x: String| x@),
    {
        let mut i: usize = 0;
        while i < mappings.len()
            invariant
                i <= mappings.len(),
                forall|a: int| 0 <= a < i ==> !#[trigger] listed(mappings@[a], scripts@),
            decreases mappings.len() - i,
        {
            let mut k: usize = 0;
            while k < scripts.len()
                invariant
                    i < mappings.len(),
                    k <= scripts.len(),
                    forall|a: int| 0 <= a < i ==> !#[trigger] listed(mappings@[a], scripts@),
                    forall|j: int| 0 <= j < k ==> mappings@[i as int].action_script@ != (#[trigger] scripts@[j])@,
                decreases scripts.len() - k,
            {
                if str_eq(mappings[i].action_script.as_str(), scripts[k].as_str()) {
                    let m = &mappings[i];
                    let found = GrokMapping {
                        xsid_script: m.xsid_script.clone(),
                        action_script: m.action_script.clone(),
                        actions: Self::copy_strings(&m.actions),
                    };
                    assert(listed(mappings@[i as int], scripts@));
                    assert(first_listed(mappings@, scripts@, i as int));
                    return Some(found);
                }
                k += 1;
            }
            assert(!listed(mappings@[i as int], scripts@));
            i += 1;
        }
        None
    }
}

} // verus!

verus! {

/// The fields that one line of a chat answer carries, already decoded from JSON;
/// each is the first of its two possible places that holds it.
#[derive(Debug, Clone)]
pub struct AnswerLine {
    pub token: Option<String>,
    pub message: Option<String>,
    pub conversation_id: Option<String>,
    pub response_id: Option<String>,
    pub image_urls: Option<Vec<String>>,
}

/// What the answer lines of one turn give: the tokens in order, and for each
/// other field the first value seen.
#[derive(Debug, Clone)]
pub struct GrokTurn {
    pub full_response: Option<String>,
    pub stream_response: Vec<String>,
    pub conversation_id: Option<String>,
    pub parent_response_id: Option<String>,
    pub image_urls: Option<Vec<String>>,
}

/// `first` if it is set, else `next`.
pub open spec fn first_of<T>(first: Option<T>, next: Option<T>) -> Option<T> {
    if first is Some { first } else { next }
}

/// Whether an answer body is refused by the anti-bot rules, or is not an
/// answer at all.
pub open spec fn answer_check(text: Seq<char>) -> Option<bool> {
    if contains(text, "rejected by anti-bot rules"@) {
        Some(true)
    } else if !contains(text, "modelResponse"@) {
        Some(false)
    } else {
        None
    }
}

impl GrokTurn {
    /// Nothing seen yet; a resumed conversation starts from its id.
    pub fn new(conversation_id: Option<String>) -> (r: Self)
        ensures
            r.full_response is None,
            r.stream_response@.len() == 0,
            r.conversation_id == conversation_id,
            r.parent_response_id is None,
            r.image_urls is None,
    {
        GrokTurn {
            full_response: None,
            stream_response: Vec::new(),
            conversation_id,
            parent_response_id: None,
            image_urls: None,
        }
    }

    /// Takes one answer line into the turn.
    pub fn apply_line(&mut self, line: AnswerLine)
        ensures
            final(self).stream_response@ == (match line.token {
                Some(t) => old(self).stream_response@.push(t),
                None => old(self).stream_response@,
            }),
            final(self).full_response == first_of(old(self).full_response, line.message),
            final(self).conversation_id == first_of(old(self).conversation_id, line.conversation_id),
            final(self).parent_response_id == first_of(old(self).parent_response_id, line.response_id),
            final(self).image_urls == first_of(old(self).image_urls, line.image_urls),
    {
        let AnswerLine { token, message, conversation_id, response_id, image_urls } = line;
        if let Some(t) = token {
            self.stream_response.push(t);
        }
        if self.full_response.is_none() {
            self.full_response = message;
        }
        if self.conversation_id.is_none() {
            self.conversation_id = conversation_id;
        }
        if self.parent_response_id.is_none() {
            self.parent_response_id = response_id;
        }
        if self.image_urls.is_none() {
            self.image_urls = image_urls;
        }
    }

    /// Refuses an answer body that carries the anti-bot rejection, or that holds
    /// no model response.
    pub fn check_answer(text: &str) -> (r: Result<(), GrokError>)
        ensures
            answer_check(text@) is None <==> r is Ok,
            answer_check(text@) == Some(true) ==> (r matches Err(e) && e is AntiBotRejection),
            answer_check(text@) == Some(false) ==> (r matches Err(e) && e is Other),
    {
        if str_contains(text, "rejected by anti-bot rules") {
            return Err(GrokError::AntiBotRejection);
        }
        if !str_contains(text, "modelResponse") {
            let mut msg = String::from_str("Unexpected response: ");
            msg.append(text);
            return Err(GrokError::Other(msg));
        }
        Ok(())
    }
}

} // verus!
