use vstd::prelude::*;
use crate::error::GrokError;
use crate::streaming::str_eq;
use crate::text::{
    between_spec, chars_of, occurs_at, split_char, split_char_exec, string_of, trim_ws, trim_ws_exec,
};
use crate::utils::Utils;

verus! {

/// The name and value of one `name=value` piece of a `set-cookie` header: the
/// text before the first `=` and between it and the next, both trimmed.
pub open spec fn cookie_pair(piece: Seq<char>) -> Option<(Seq<char>, Seq<char>)> {
    let parts = split_char(piece, '=');
    if parts.len() >= 2 {
        Some((trim_ws(parts[0]), trim_ws(parts[1])))
    } else {
        None
    }
}

/// The cookies `m` after the pieces `pieces`, in order, each later one
/// replacing an earlier one of the same name.
pub open spec fn cookies_after(m: Map<Seq<char>, Seq<char>>, pieces: Seq<Seq<char>>) -> Map<Seq<char>, Seq<char>>
    decreases pieces.len(),
{
    if pieces.len() == 0 {
        m
    } else {
        let next = match cookie_pair(pieces[0]) {
            Some((k, v)) => m.insert(k, v),
            None => m,
        };
        cookies_after(next, pieces.skip(1))
    }
}

/// The session's cookies by name.
pub struct CookieJar {
    entries: Vec<(String, String)>,
    model: Ghost<Map<Seq<char>, Seq<char>>>,
}

impl CookieJar {
    /// The cookies, name to value.
    pub closed spec fn view(&self) -> Map<Seq<char>, Seq<char>> {
        self.model@
    }

    /// Each entry is in the model, each name of the model has an entry, and no
    /// name has two entries.
    pub closed spec fn wf(&self) -> bool {
        &&& forall|i: int| 0 <= i < self.entries.len() ==> #[trigger] self.model@.contains_key(self.entries@[i].0@)
            && self.model@[self.entries@[i].0@] == self.entries@[i].1@
        &&& forall|k: Seq<char>| #[trigger] self.model@.contains_key(k) ==> exists|i: int|
            0 <= i < self.entries.len() && self.entries@[i].0@ == k
        &&& forall|i: int, j: int| 0 <= i < self.entries.len() && 0 <= j < self.entries.len() && i != j
            ==> self.entries@[i].0@ != self.entries@[j].0@
    }

    /// No cookies.
    pub fn new() -> (r: Self)
        ensures
            r.wf(),
            r@ == Map::<Seq<char>, Seq<char>>::empty(),
    {
        CookieJar { entries: Vec::new(), model: Ghost(Map::empty()) }
    }

    /// Sets the cookie `name` to `value`.
    pub fn set(&mut self, name: String, value: String)
        requires
            old(self).wf(),
        ensures
            final(self).wf(),
            final(self)@ == old(self)@.insert(name@, value@),
    {
        let ghost old_model = self.model@;
        let ghost old_entries = self.entries@;
        let ghost key = name@;
        let ghost val = value@;
        let mut i: usize = 0;
        while i < self.entries.len()
            invariant
                i <= self.entries.len(),
                self.entries@ == old_entries,
                self.model@ == old_model,
                old(self)@ == old_model,
                self.wf(),
                key == name@,
                val == value@,
                forall|j: int| 0 <= j < i ==> self.entries@[j].0@ != key,
            decreases self.entries.len() - i,
        {
            if str_eq(self.entries[i].0.as_str(), name.as_str()) {
                self.entries.set(i, (name, value));
                self.model = Ghost(old_model.insert(key, val));
                assert forall|a: int| 0 <= a < self.entries.len() implies #[trigger] self.model@.contains_key(self.entries@[a].0@)
                    && self.model@[self.entries@[a].0@] == self.entries@[a].1@ by {
                    if a != i {
                        assert(old_entries[a].0@ != old_entries[i as int].0@);
                    }
                }
                assert forall|a: int, b: int| 0 <= a < self.entries.len() && 0 <= b < self.entries.len() && a != b
                    implies self.entries@[a].0@ != self.entries@[b].0@ by {
                    assert(old_entries[a].0@ != old_entries[b].0@);
                }
                assert forall|k: Seq<char>| #[trigger] self.model@.contains_key(k) implies exists|j: int|
                    0 <= j < self.entries.len() && self.entries@[j].0@ == k by {
                    if k != key {
                        let j = choose|j: int| 0 <= j < old_entries.len() && old_entries[j].0@ == k;
                        assert(self.entries@[j].0@ == k);
                    } else {
                        assert(self.entries@[i as int].0@ == k);
                    }
                }
                return;
            }
            i += 1;
        }
        assert(!old_model.contains_key(key));
        self.entries.push((name, value));
        self.model = Ghost(old_model.insert(key, val));
        assert forall|a: int| 0 <= a < self.entries.len() implies #[trigger] self.model@.contains_key(self.entries@[a].0@)
            && self.model@[self.entries@[a].0@] == self.entries@[a].1@ by {
            if a < old_entries.len() {
                assert(old_model.contains_key(old_entries[a].0@));
                assert(old_entries[a].0@ != key);
            }
        }
        assert forall|a: int, b: int| 0 <= a < self.entries.len() && 0 <= b < self.entries.len() && a != b
            implies self.entries@[a].0@ != self.entries@[b].0@ by {
            if a < old_entries.len() && b < old_entries.len() {
                assert(old_entries[a].0@ != old_entries[b].0@);
            }
        }
        assert forall|k: Seq<char>| #[trigger] self.model@.contains_key(k) implies exists|j: int|
            0 <= j < self.entries.len() && self.entries@[j].0@ == k by {
            if k != key {
                let j = choose|j: int| 0 <= j < old_entries.len() && old_entries[j].0@ == k;
                assert(self.entries@[j].0@ == k);
            } else {
                assert(self.entries@[old_entries.len() as int].0@ == k);
            }
        }
    }

    /// The value of the cookie `name`, if set.
    pub fn get(&self, name: &str) -> (r: Option<String>)
        requires
            self.wf(),
        ensures
            match r {
                Some(v) => self@.contains_key(name@) && self@[name@] == v@,
                None => !self@.contains_key(name@),
            },
    {
        let mut i: usize = 0;
        while i < self.entries.len()
            invariant
                i <= self.entries.len(),
                self.wf(),
                forall|j: int| 0 <= j < i ==> self.entries@[j].0@ != name@,
            decreases self.entries.len() - i,
        {
            if str_eq(self.entries[i].0.as_str(), name) {
                return Some(self.entries[i].1.clone());
            }
            i += 1;
        }
        None
    }

    /// The cookies as name and value pairs, each name once.
    pub fn pairs(&self) -> (r: Vec<(String, String)>)
        requires
            self.wf(),
        ensures
            forall|i: int| 0 <= i < r@.len() ==> self@.contains_key((#[trigger] r@[i]).0@) && self@[r@[i].0@] == r@[i].1@,
            forall|k: Seq<char>| #[trigger] self@.contains_key(k) ==> exists|i: int| 0 <= i < r@.len() && r@[i].0@ == k,
    {
        let mut out: Vec<(String, String)> = Vec::new();
        let mut i: usize = 0;
        while i < self.entries.len()
            invariant
                i <= self.entries.len(),
                out@.len() == i,
                forall|j: int| 0 <= j < i ==> (#[trigger] out@[j]).0@ == self.entries@[j].0@ && out@[j].1@ == self.entries@[j].1@,
            decreases self.entries.len() - i,
        {
            out.push((self.entries[i].0.clone(), self.entries[i].1.clone()));
            i += 1;
        }
        assert forall|k: Seq<char>| #[trigger] self@.contains_key(k) implies exists|i: int| 0 <= i < out@.len() && out@[i].0@ == k by {
            let j = choose|j: int| 0 <= j < self.entries.len() && self.entries@[j].0@ == k;
            assert(out@[j].0@ == k);
        }
        out
    }

    /// Takes the `name=value` pieces of a `set-cookie` header into the jar.
    pub fn merge_set_cookie(&mut self, header: &str)
        requires
            old(self).wf(),
        ensures
            final(self).wf(),
            final(self)@ == cookies_after(old(self)@, split_char(header@, ';')),
    {
        let pieces = split_char_exec(&chars_of(header), ';');
        let ghost all = pieces@.map_values(|p: Vec<char>| p@);
        let ghost target = cookies_after(self@, all);
        let mut k: usize = 0;
        assert(all.skip(0) =~= all);
        while k < pieces.len()
            invariant
                k <= pieces.len(),
                self.wf(),
                all == pieces@.map_values(|p: Vec<char>| p@),
                cookies_after(self@, all.skip(k as int)) == target,
            decreases pieces.len() - k,
        {
            let parts = split_char_exec(&pieces[k], '=');
            proof {
                assert(all.skip(k as int)[0] == pieces@[k as int]@);
                assert(all.skip(k as int).skip(1) =~= all.skip(k + 1));
                assert(parts@.len() == split_char(pieces@[k as int]@, '=').len());
            }
            if parts.len() >= 2 {
                let name = string_of(&trim_ws_exec(&parts[0]));
                let value = string_of(&trim_ws_exec(&parts[1]));
                proof {
                    assert(parts@.map_values(|p: Vec<char>| p@)[0] == parts@[0]@);
                    assert(parts@.map_values(|p: Vec<char>| p@)[1] == parts@[1]@);
                }
                self.set(name, value);
            }
            k += 1;
        }
        assert(all.skip(k as int) =~= Seq::<Seq<char>>::empty());
    }
}

/// The two metadata tokens of the landing page: the `baggage` meta content, and
/// the `sentry-trace` meta content up to its first `-`.
pub open spec fn page_tokens(html: Seq<char>) -> Option<(Seq<char>, Seq<char>)> {
    match (between_spec(html, "<meta name=\"baggage\" content=\""@, "\""@), between_spec(
        html,
        "<meta name=\"sentry-trace\" content=\""@,
        "-"@,
    )) {
        (Some(b), Some(s)) => Some((b, s)),
        _ => None,
    }
}

/// The landing page's metadata tokens: `(baggage, sentry trace)`; an error where
/// a meta tag is missing.
pub fn page_metadata(html: &str) -> (r: Result<(String, String), GrokError>)
    ensures
        match r {
            Ok((b, s)) => page_tokens(html@) == Some((b@, s@)),
            Err(e) => e is ParseError && page_tokens(html@) is None,
        },
{
    let baggage = match Utils::between(html, "<meta name=\"baggage\" content=\"", "\"") {
        Ok(b) => b,
        Err(e) => return Err(e),
    };
    let trace = match Utils::between(html, "<meta name=\"sentry-trace\" content=\"", "-") {
        Ok(s) => s,
        Err(e) => return Err(e),
    };
    Ok((baggage, trace))
}

/// Whether a script source is one of the app's chunk scripts.
pub open spec fn is_chunk_script(src: Seq<char>) -> bool {
    occurs_at(src, "/_next/static/chunks/"@, 0)
}

/// The chunk scripts among a page's script sources, in order.
pub fn chunk_scripts(srcs: Vec<String>) -> (r: Vec<String>)
    ensures
        r@ == srcs@.filter(|s: String| is_chunk_script(s@)),
{
    let ghost all = srcs@;
    let prefix = chars_of("/_next/static/chunks/");
    let mut rest = srcs;
    let mut out: Vec<String> = Vec::new();
    let ghost mut k: int = 0;
    assert(all.take(0).filter(|s: String| is_chunk_script(s@)) =~= Seq::<String>::empty()) by {
        reveal(Seq::filter);
    }
    assert(all.skip(0) =~= all);
    while rest.len() > 0
        invariant
            0 <= k <= all.len(),
            prefix@ == "/_next/static/chunks/"@,
            rest@ == all.skip(k),
            out@ == all.take(k).filter(|s: String| is_chunk_script(s@)),
        decreases rest.len(),
    {
        let s = rest.remove(0);
        proof {
            assert(all.skip(k)[0] == s);
            assert(all.skip(k).skip(1) =~= all.skip(k + 1));
            assert(all.take(k + 1).drop_last() =~= all.take(k));
            reveal(Seq::filter);
        }
        let cs = chars_of(s.as_str());
        if crate::text::matches_at(&cs, &prefix, 0) {
            out.push(s);
        }
        proof { k = k + 1; }
    }
    assert(all.take(k) =~= all);
    out
}

/// The `src` values of a page's `script` tags that carry one, in document order.
pub uninterp spec fn script_srcs_of(html: Seq<char>) -> Seq<Seq<char>>;

/// Relies on scraper: `Html::parse_document`, then `select` with the selector
/// `script[src]` and each element's `src` attribute, in document order.
#[verifier::external_body]
fn script_srcs(html: &str) -> (r: Vec<String>)
    ensures
        r@.map_values(|s: String| s@) == script_srcs_of(html@),
{
    let document = scraper::Html::parse_document(html);
    let selector = scraper::Selector::parse("script[src]").unwrap();
    document.select(&selector).filter_map(|el| el.value().attr("src")).map(|s| s.to_string()).collect()
}

/// The chunk scripts that the landing page loads, in order.
pub fn landing_scripts(html: &str) -> (r: Vec<String>)
    ensures
        r@.map_values(|s: String| s@) == script_srcs_of(html@).filter(|s: Seq<char>| is_chunk_script(s)),
{
    let srcs = script_srcs(html);
    let ghost all = script_srcs_of(html@);
    let prefix = chars_of("/_next/static/chunks/");
    let mut out: Vec<String> = Vec::new();
    let mut k: usize = 0;
    assert(all.take(0).filter(|s: Seq<char>| is_chunk_script(s)) =~= Seq::<Seq<char>>::empty()) by {
        reveal(Seq::filter);
    }
    while k < srcs.len()
        invariant
            k <= srcs.len(),
            prefix@ == "/_next/static/chunks/"@,
            all == srcs@.map_values(|s: String| s@),
            out@.map_values(|s: String| s@) == all.take(k as int).filter(|s: Seq<char>| is_chunk_script(s)),
        decreases srcs.len() - k,
    {
        proof {
            assert(all.take(k + 1).drop_last() =~= all.take(k as int));
            assert(all[k as int] == srcs@[k as int]@);
            reveal(Seq::filter);
        }
        let ghost before = out@.map_values(|s: String| s@);
        let cs = chars_of(srcs[k].as_str());
        if crate::text::matches_at(&cs, &prefix, 0) {
            out.push(srcs[k].clone());
            assert(out@.map_values(|s: String| s@) =~= before.push(srcs@[k as int]@));
        }
        k += 1;
    }
    assert(all.take(srcs.len() as int) =~= all);
    out
}

} // verus!
