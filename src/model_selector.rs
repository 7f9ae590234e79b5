use vstd::prelude::*;
use vstd::string::StringExecFns;
use crate::qwen_models::Model;
use crate::streaming::str_eq;

verus! {

/// A capability that a model may have.
#[derive(Debug, Clone, Copy, PartialEq, Eq, Structural)]
pub enum Capability {
    Thinking,
    Search,
    Vision,
    Audio,
    Video,
}

/// Whether a model lists `search` among its chat types.
pub open spec fn lists_search(m: Model) -> bool {
    m.info matches Some(info) && exists|i: int| 0 <= i < info.meta.chat_type@.len() && #[trigger] info.meta.chat_type@[i]@ == "search"@
}

/// Whether a model has the capability; a model without info has none.
pub open spec fn has_capability(m: Model, c: Capability) -> bool {
    match c {
        Capability::Search => lists_search(m),
        _ => m.info matches Some(info) && match c {
            Capability::Thinking => info.meta.capabilities.thinking,
            Capability::Vision => info.meta.capabilities.vision,
            Capability::Audio => info.meta.capabilities.audio,
            Capability::Video => info.meta.capabilities.video,
            Capability::Search => false,
        },
    }
}

/// The index of the first model with the id, if any.
pub open spec fn first_with_id(models: Seq<Model>, id: Seq<char>) -> Option<int> {
    if exists|i: int| 0 <= i < models.len() && #[trigger] models[i].id@ == id {
        Some(choose|i: int| 0 <= i < models.len() && models[i].id@ == id && forall|j: int| 0 <= j < i ==> #[trigger] models[j].id@ != id)
    } else {
        None
    }
}

/// Whether the first model with the id has the capability.
pub open spec fn supports(models: Seq<Model>, id: Seq<char>, c: Capability) -> bool {
    first_with_id(models, id) matches Some(i) && has_capability(models[i], c)
}

/// Whether a model meets every required capability.
pub open spec fn meets(m: Model, vision: bool, audio: bool, video: bool, thinking: bool, search: bool) -> bool {
    m.info is Some && (vision ==> has_capability(m, Capability::Vision)) && (audio ==> has_capability(m, Capability::Audio))
        && (video ==> has_capability(m, Capability::Video)) && (thinking ==> has_capability(m, Capability::Thinking))
        && (search ==> has_capability(m, Capability::Search))
}

/// A model's score: 100 for each required capability, 10 each for documents and
/// citations, and one per 10000 tokens of context up to 50.
pub open spec fn score(m: Model, vision: bool, audio: bool, video: bool, thinking: bool, search: bool) -> nat {
    let info = m.info->0;
    let caps = info.meta.capabilities;
    let ctx = info.meta.max_context_length / 10000;
    (if vision { 100nat } else { 0 }) + (if audio { 100nat } else { 0 }) + (if video { 100nat } else { 0 })
        + (if thinking { 100nat } else { 0 }) + (if search { 100nat } else { 0 })
        + (if caps.document { 10nat } else { 0 }) + (if caps.citations { 10nat } else { 0 })
        + (if ctx < 50 { ctx as nat } else { 50nat })
}

/// The model id to use when none meets the requirements.
pub open spec fn fallback_model() -> Seq<char> {
    "qwen3-max"@
}

/// Whether model `i` is the one to pick: it meets the requirements, no model
/// that meets them scores higher, and none before it scores as high.
pub open spec fn is_best(models: Seq<Model>, i: int, vision: bool, audio: bool, video: bool, thinking: bool, search: bool) -> bool {
    &&& 0 <= i < models.len()
    &&& meets(models[i], vision, audio, video, thinking, search)
    &&& forall|j: int| 0 <= j < models.len() && meets(#[trigger] models[j], vision, audio, video, thinking, search)
        ==> score(models[j], vision, audio, video, thinking, search) <= score(models[i], vision, audio, video, thinking, search)
    &&& forall|j: int| 0 <= j < i && meets(#[trigger] models[j], vision, audio, video, thinking, search)
        ==> score(models[j], vision, audio, video, thinking, search) < score(models[i], vision, audio, video, thinking, search)
}

/// Whether one of the file classes is `class`.
pub open spec fn has_class(classes: Seq<String>, class: Seq<char>) -> bool {
    exists|i: int| 0 <= i < classes.len() && (#[trigger] classes[i])@ == class
}

/// Picks models by their capabilities.
pub struct ModelSelector;

impl ModelSelector {
    fn position(models: &[Model], model_id: &str) -> (r: Option<usize>)
        ensures
            match r {
                Some(i) => first_with_id(models@, model_id@) == Some(i as int) && i < models@.len(),
                None => first_with_id(models@, model_id@) is None,
            },
    {
        let mut i: usize = 0;
        while i < models.len()
            invariant
                i <= models.len(),
                forall|j: int| 0 <= j < i ==> #[trigger] models@[j].id@ != model_id@,
            decreases models.len() - i,
        {
            if str_eq(models[i].id.as_str(), model_id) {
                assert(models@[i as int].id@ == model_id@);
                return Some(i);
            }
            i += 1;
        }
        None
    }

    fn has_exec(m: &Model, c: Capability) -> (r: bool)
        ensures
            r == has_capability(*m, c),
    {
        match &m.info {
            None => false,
            Some(info) => match c {
                Capability::Thinking => info.meta.capabilities.thinking,
                Capability::Vision => info.meta.capabilities.vision,
                Capability::Audio => info.meta.capabilities.audio,
                Capability::Video => info.meta.capabilities.video,
                Capability::Search => {
                    let ct = &info.meta.chat_type;
                    let mut k: usize = 0;
                    while k < ct.len()
                        invariant
                            k <= ct.len(),
                            m.info matches Some(i) && i.meta.chat_type@ == ct@,
                            c == Capability::Search,
                            forall|j: int| 0 <= j < k ==> #[trigger] ct@[j]@ != "search"@,
                        decreases ct.len() - k,
                    {
                        if str_eq(ct[k].as_str(), "search") {
                            assert(ct@[k as int]@ == "search"@);
                            return true;
                        }
                        k += 1;
                    }
                    false
                },
            },
        }
    }

    fn supports_exec(models: &[Model], model_id: &str, c: Capability) -> (r: bool)
        ensures
            r == supports(models@, model_id@, c),
    {
        match Self::position(models, model_id) {
            Some(i) => Self::has_exec(&models[i], c),
            None => false,
        }
    }

    /// Whether the first model with the id supports thinking.
    pub fn model_supports_thinking(models: &[Model], model_id: &str) -> (r: bool)
        ensures
            r == supports(models@, model_id@, Capability::Thinking),
    {
        Self::supports_exec(models, model_id, Capability::Thinking)
    }

    /// Whether the first model with the id lists search.
    pub fn model_supports_search(models: &[Model], model_id: &str) -> (r: bool)
        ensures
            r == supports(models@, model_id@, Capability::Search),
    {
        Self::supports_exec(models, model_id, Capability::Search)
    }

    /// The thinking budget of the first model with the id, where it has one.
    pub fn get_model_thinking_budget(models: &[Model], model_id: &str) -> (r: Option<u32>)
        ensures
            match first_with_id(models@, model_id@) {
                Some(i) => match models@[i].info {
                    Some(info) => r == (if info.meta.capabilities.thinking_budget {
                        Some(info.meta.max_thinking_generation_length)
                    } else {
                        None::<u32>
                    }),
                    None => r is None,
                },
                None => r is None,
            },
    {
        match Self::position(models, model_id) {
            Some(i) => match &models[i].info {
                Some(info) => if info.meta.capabilities.thinking_budget {
                    Some(info.meta.max_thinking_generation_length)
                } else {
                    None
                },
                None => None,
            },
            None => None,
        }
    }

    fn filter_by(models: Vec<Model>, c: Capability) -> (r: Vec<Model>)
        ensures
            r@ == models@.filter(|m: Model| has_capability(m, c)),
    {
        let ghost all = models@;
        let mut rest = models;
        let mut out: Vec<Model> = Vec::new();
        let ghost mut k: int = 0;
        assert(all.take(0).filter(|m: Model| has_capability(m, c)) =~= Seq::<Model>::empty()) by {
            reveal(Seq::filter);
        }
        assert(all.skip(0) =~= all);
        while rest.len() > 0
            invariant
                0 <= k <= all.len(),
                rest@ == all.skip(k),
                out@ == all.take(k).filter(|m: Model| has_capability(m, c)),
            decreases rest.len(),
        {
            let m = rest.remove(0);
            proof {
                assert(all.skip(k)[0] == m);
                assert(all.skip(k).skip(1) =~= all.skip(k + 1));
                assert(all.take(k + 1).drop_last() =~= all.take(k));
                reveal(Seq::filter);
            }
            if Self::has_exec(&m, c) {
                out.push(m);
            }
            proof { k = k + 1; }
        }
        assert(all.take(k) =~= all);
        out
    }

    /// The models that support thinking, in order.
    pub fn get_thinking_capable_models(models: Vec<Model>) -> (r: Vec<Model>)
        ensures
            r@ == models@.filter(|m: Model| has_capability(m, Capability::Thinking)),
    {
        Self::filter_by(models, Capability::Thinking)
    }

    /// The models that list search, in order.
    pub fn get_search_capable_models(models: Vec<Model>) -> (r: Vec<Model>)
        ensures
            r@ == models@.filter(|m: Model| has_capability(m, Capability::Search)),
    {
        Self::filter_by(models, Capability::Search)
    }

    /// The models that support vision, in order.
    pub fn get_vision_capable_models(models: Vec<Model>) -> (r: Vec<Model>)
        ensures
            r@ == models@.filter(|m: Model| has_capability(m, Capability::Vision)),
    {
        Self::filter_by(models, Capability::Vision)
    }

    /// The models that support audio, in order.
    pub fn get_audio_capable_models(models: Vec<Model>) -> (r: Vec<Model>)
        ensures
            r@ == models@.filter(|m: Model| has_capability(m, Capability::Audio)),
    {
        Self::filter_by(models, Capability::Audio)
    }

    /// The models that support video, in order.
    pub fn get_video_capable_models(models: Vec<Model>) -> (r: Vec<Model>)
        ensures
            r@ == models@.filter(|m: Model| has_capability(m, Capability::Video)),
    {
        Self::filter_by(models, Capability::Video)
    }

    fn meets_exec(m: &Model, vision: bool, audio: bool, video: bool, thinking: bool, search: bool) -> (r: bool)
        ensures
            r == meets(*m, vision, audio, video, thinking, search),
    {
        m.info.is_some() && (!vision || Self::has_exec(m, Capability::Vision)) && (!audio || Self::has_exec(m, Capability::Audio))
            && (!video || Self::has_exec(m, Capability::Video)) && (!thinking || Self::has_exec(m, Capability::Thinking))
            && (!search || Self::has_exec(m, Capability::Search))
    }

    fn score_exec(m: &Model, vision: bool, audio: bool, video: bool, thinking: bool, search: bool) -> (r: u32)
        requires
            m.info is Some,
        ensures
            r == score(*m, vision, audio, video, thinking, search),
    {
        let info = m.info.as_ref().unwrap();
        let caps = info.meta.capabilities;
        let mut s: u32 = 0;
        if vision { s += 100; }
        if audio { s += 100; }
        if video { s += 100; }
        if thinking { s += 100; }
        if search { s += 100; }
        if caps.document { s += 10; }
        if caps.citations { s += 10; }
        let ctx = info.meta.max_context_length / 10000;
        s + if ctx < 50 { ctx } else { 50 }
    }

    /// The id of the best model for the requirements: among the models that have
    /// every required capability (and info), the one with the highest score, the
    /// first of equals; `qwen3-max` when none qualifies.
    pub fn select_best_model(
        models: Vec<Model>,
        requires_vision: bool,
        requires_audio: bool,
        requires_video: bool,
        requires_thinking: bool,
        requires_search: bool,
    ) -> (r: String)
        ensures
            (forall|j: int| 0 <= j < models@.len() ==> !meets(#[trigger] models@[j], requires_vision, requires_audio, requires_video, requires_thinking, requires_search))
                ==> r@ == fallback_model(),
            (exists|j: int| 0 <= j < models@.len() && meets(#[trigger] models@[j], requires_vision, requires_audio, requires_video, requires_thinking, requires_search))
                ==> exists|i: int| #[trigger] is_best(models@, i, requires_vision, requires_audio, requires_video, requires_thinking, requires_search)
                    && r@ == models@[i].id@,
    {
        let mut best: Option<usize> = None;
        let mut best_score: u32 = 0;
        let mut k: usize = 0;
        let ghost ms = models@;
        let ghost (v, a, d, t, q) = (requires_vision, requires_audio, requires_video, requires_thinking, requires_search);
        while k < models.len()
            invariant
                k <= models.len(),
                ms == models@,
                v == requires_vision && a == requires_audio && d == requires_video && t == requires_thinking && q == requires_search,
                best is None ==> forall|j: int| 0 <= j < k ==> !meets(#[trigger] ms[j], v, a, d, t, q),
                best matches Some(b) ==> b < k && meets(ms[b as int], v, a, d, t, q)
                    && best_score == score(ms[b as int], v, a, d, t, q),
                best matches Some(b) ==> forall|j: int| 0 <= j < k && meets(#[trigger] ms[j], v, a, d, t, q)
                    ==> score(ms[j], v, a, d, t, q) <= best_score,
                best matches Some(b) ==> forall|j: int| 0 <= j < b && meets(#[trigger] ms[j], v, a, d, t, q)
                    ==> score(ms[j], v, a, d, t, q) < best_score,
            decreases models.len() - k,
        {
            let m = &models[k];
            if Self::meets_exec(m, requires_vision, requires_audio, requires_video, requires_thinking, requires_search) {
                let sc = Self::score_exec(m, requires_vision, requires_audio, requires_video, requires_thinking, requires_search);
                if best.is_none() || sc > best_score {
                    best = Some(k);
                    best_score = sc;
                }
            }
            k += 1;
        }
        proof {
            if let Some(bi) = best {
                assert(is_best(ms, bi as int, v, a, d, t, q));
            }
        }
        match best {
            Some(b) => models[b].id.clone(),
            None => {
                proof { reveal_strlit("qwen3-max"); }
                String::from_str("qwen3-max")
            },
        }
    }

    /// Whether any file of the classes given is of class `class`.
    fn any_class(file_classes: &Vec<String>, class: &str) -> (r: bool)
        ensures
            r == has_class(file_classes@, class@),
    {
        let mut i: usize = 0;
        while i < file_classes.len()
            invariant
                i <= file_classes.len(),
                forall|j: int| 0 <= j < i ==> (#[trigger] file_classes@[j])@ != class@,
            decreases file_classes.len() - i,
        {
            if str_eq(file_classes[i].as_str(), class) {
                return true;
            }
            i += 1;
        }
        false
    }

    /// The best model for files of the given classes: vision, audio and video
    /// files require those capabilities.
    pub fn select_model_for_files(models: Vec<Model>, file_classes: &Vec<String>) -> (r: String)
        ensures
            ({
                let v = has_class(file_classes@, "vision"@);
                let a = has_class(file_classes@, "audio"@);
                let d = has_class(file_classes@, "video"@);
                &&& (forall|j: int| 0 <= j < models@.len() ==> !meets(#[trigger] models@[j], v, a, d, false, false))
                    ==> r@ == fallback_model()
                &&& (exists|j: int| 0 <= j < models@.len() && meets(#[trigger] models@[j], v, a, d, false, false))
                    ==> exists|i: int| #[trigger] is_best(models@, i, v, a, d, false, false) && r@ == models@[i].id@
            }),
    {
        let v = Self::any_class(file_classes, "vision");
        let a = Self::any_class(file_classes, "audio");
        let d = Self::any_class(file_classes, "video");
        Self::select_best_model(models, v, a, d, false, false)
    }
}

} // verus!
