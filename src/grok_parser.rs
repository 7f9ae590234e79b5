use vstd::prelude::*;
use vstd::string::StringExecFns;
use crate::crypto::{base64_decode, base64_decoded};
use crate::error::GrokError;
use crate::grok_models::{first_cached, script_link_of, GrokMapping, ScriptLinks, XsidMapping};
use crate::text::{
    append_chars, append_str, between_spec, chars_of, contains, decimal, decimal_exec, find_from,
    find_from_exec, hex_decode, hex_decoded, hex_encode, hex_lower, is_ws, is_ws_exec,
    lemma_find_from_sound, matches_at, occurs_at, parse_usize, parse_usize_exec, slice_of,
    str_contains, string_of,
};
use crate::utils::Utils;

verus! {

/// The marker that precedes the challenge in the step-one response, in hex.
pub open spec fn challenge_start_marker() -> Seq<char> {
    "3a6f38362c"@
}

/// The marker that follows the challenge, in hex.
pub open spec fn challenge_end_marker() -> Seq<char> {
    "313a"@
}

/// The hex text of the challenge inside the hex form `h` of a response: after
/// the first start marker, up to the first end marker that follows.
pub open spec fn challenge_hex(h: Seq<char>) -> Option<Seq<char>> {
    match find_from(h, challenge_start_marker(), 0) {
        None => None,
        Some(i) => {
            let start = i + challenge_start_marker().len();
            match find_from(h, challenge_end_marker(), start) {
                None => None,
                Some(j) => Some(h.subrange(start as int, j as int)),
            }
        },
    }
}

/// The challenge bytes in a step-one response, if its markers are there and
/// the text between them decodes.
pub open spec fn challenge_of(response: Seq<u8>) -> Option<Seq<u8>> {
    match challenge_hex(hex_lower(response)) {
        Some(h) => hex_decoded(h),
        None => None,
    }
}

/// The name of the loading animation that a decoded verification token selects.
pub open spec fn anim_name(decoded: Seq<u8>) -> Seq<char> {
    "loading-x-anim-"@ + decimal((decoded[5] % 4) as nat)
}

/// The delimiter before the verification token's value in a page.
pub open spec fn token_delimiter(name: Seq<char>) -> Seq<char> {
    "\"name\":\""@ + name + "\",\"content\":\""@
}

/// Whether the SVG path value `"d":"M...` with at least 200 characters after
/// the `M` starts at `i`, and where its closing quote is.
pub open spec fn d_value_end(s: Seq<char>, i: int) -> Option<nat> {
    if occurs_at(s, "\"d\":\"M"@, i) {
        match find_from(s, "\""@, (i + 6) as nat) {
            Some(j) => if j - (i + 6) >= 200 { Some(j) } else { None },
            None => None,
        }
    } else {
        None
    }
}

/// Every SVG path value at or after `i`, left to right, without overlaps: what
/// the pattern `"d":"(M[^"]{200,})"` captures.
pub open spec fn d_values_from(s: Seq<char>, i: nat) -> Seq<Seq<char>>
    decreases s.len() - i,
{
    if i >= s.len() {
        Seq::empty()
    } else {
        match d_value_end(s, i as int) {
            Some(j) => if j + 1 > i && j < s.len() {
                seq![s.subrange((i + 5) as int, j as int)] + d_values_from(s, j + 1)
            } else {
                Seq::empty()
            },
            None => d_values_from(s, i + 1),
        }
    }
}

/// The animation index that a loading animation's name carries.
pub open spec fn anim_index(loading: Seq<char>) -> Option<nat> {
    if occurs_at(loading, "loading-x-anim-"@, 0) {
        parse_usize(loading.skip(15))
    } else {
        None
    }
}

/// The first index at or after `i` whose character is no ASCII digit, or the length.
pub open spec fn digits_end(s: Seq<char>, i: nat) -> nat
    decreases s.len() - i,
{
    if i >= s.len() || !('0' <= s[i as int] <= '9') {
        i
    } else {
        digits_end(s, i + 1)
    }
}

/// The first index at or after `i` whose character is no whitespace, or the length.
pub open spec fn spaces_end(s: Seq<char>, i: nat) -> nat
    decreases s.len() - i,
{
    if i >= s.len() || !is_ws(s[i as int]) {
        i
    } else {
        spaces_end(s, i + 1)
    }
}

/// Whether `x[<digits>] , 16` starts at `i`: the digits' range and the end of
/// the match.
pub open spec fn offset_match(s: Seq<char>, i: int) -> Option<(nat, nat, nat)> {
    if occurs_at(s, "x["@, i) {
        let a = (i + 2) as nat;
        let b = digits_end(s, a);
        if b > a && b < s.len() && s[b as int] == ']' {
            let c = spaces_end(s, b + 1);
            if c < s.len() && s[c as int] == ',' {
                let d = spaces_end(s, c + 1);
                if occurs_at(s, "16"@, d as int) {
                    Some((a, b, d + 2))
                } else {
                    None
                }
            } else {
                None
            }
        } else {
            None
        }
    } else {
        None
    }
}

/// The offsets that the signature script reads, from `i` on: each
/// `x[<n>] , 16` whose `n` fits, left to right, without overlaps.
pub open spec fn offsets_from(s: Seq<char>, i: nat) -> Seq<nat>
    decreases s.len() - i,
{
    if i >= s.len() {
        Seq::empty()
    } else {
        match offset_match(s, i as int) {
            Some((a, b, e)) => if e > i && e <= s.len() {
                match parse_usize(s.subrange(a as int, b as int)) {
                    Some(v) => seq![v] + offsets_from(s, e),
                    None => offsets_from(s, e),
                }
            } else {
                Seq::empty()
            },
            None => offsets_from(s, i + 1),
        }
    }
}

proof fn lemma_digits_end(s: Seq<char>, i: nat)
    ensures
        i <= digits_end(s, i),
        i <= s.len() ==> digits_end(s, i) <= s.len(),
    decreases s.len() - i,
{
    if i < s.len() && '0' <= s[i as int] <= '9' {
        lemma_digits_end(s, i + 1);
    }
}

proof fn lemma_spaces_end(s: Seq<char>, i: nat)
    ensures
        i <= spaces_end(s, i),
        i <= s.len() ==> spaces_end(s, i) <= s.len(),
    decreases s.len() - i,
{
    if i < s.len() && is_ws(s[i as int]) {
        lemma_spaces_end(s, i + 1);
    }
}

/// Whether `c` is a lowercase hex digit.
pub open spec fn is_lower_hex(c: char) -> bool {
    ('0' <= c <= '9') || ('a' <= c <= 'f')
}

/// The first index at or after `i` whose character is no lowercase hex digit, or the length.
pub open spec fn hex_run_end(s: Seq<char>, i: nat) -> nat
    decreases s.len() - i,
{
    if i >= s.len() || !is_lower_hex(s[i as int]) {
        i
    } else {
        hex_run_end(s, i + 1)
    }
}

/// The opener of a server action reference.
pub open spec fn action_opener() -> Seq<char> {
    "createServerReference)(\""@
}

/// Whether an action id `createServerReference)("<hex>"` starts at `i`: the
/// id's range.
pub open spec fn action_match(s: Seq<char>, i: int) -> Option<(nat, nat)> {
    if occurs_at(s, action_opener(), i) {
        let a = (i + action_opener().len()) as nat;
        let b = hex_run_end(s, a);
        if b > a && b < s.len() && s[b as int] == '"' {
            Some((a, b))
        } else {
            None
        }
    } else {
        None
    }
}

/// The action ids of a script from `i` on, left to right, without overlaps.
pub open spec fn actions_from(s: Seq<char>, i: nat) -> Seq<Seq<char>>
    decreases s.len() - i,
{
    if i >= s.len() {
        Seq::empty()
    } else {
        match action_match(s, i as int) {
            Some((a, b)) => if b + 1 > i && b < s.len() {
                seq![s.subrange(a as int, b as int)] + actions_from(s, b + 1)
            } else {
                Seq::empty()
            },
            None => actions_from(s, i + 1),
        }
    }
}

proof fn lemma_hex_run_end(s: Seq<char>, i: nat)
    ensures
        i <= hex_run_end(s, i),
        i <= s.len() ==> hex_run_end(s, i) <= s.len(),
    decreases s.len() - i,
{
    if i < s.len() && is_lower_hex(s[i as int]) {
        lemma_hex_run_end(s, i + 1);
    }
}

/// Whether the quoted script path `"static/chunks/<x>.js"` starts at `p` and is
/// followed by `a(880932)` before any `}`: the path's range.
pub open spec fn xsid_match(s: Seq<char>, p: int) -> Option<(nat, nat)> {
    if occurs_at(s, "\"static/chunks/"@, p) {
        match find_from(s, "\""@, (p + 15) as nat) {
            Some(q) => if q >= p + 19 && occurs_at(s, ".js"@, q - 3) {
                match find_from(s, "a(880932)"@, q + 1) {
                    Some(k) => if (find_from(s, "}"@, q + 1) matches Some(b) ==> b >= k) {
                        Some(((p + 1) as nat, q))
                    } else {
                        None
                    },
                    None => None,
                }
            } else {
                None
            },
            None => None,
        }
    } else {
        None
    }
}

/// The first signature script path at or after `i`.
pub open spec fn xsid_script_from(s: Seq<char>, i: nat) -> Option<Seq<char>>
    decreases s.len() - i,
{
    if i >= s.len() {
        None
    } else {
        match xsid_match(s, i as int) {
            Some((a, q)) => Some(s.subrange(a as int, q as int)),
            None => xsid_script_from(s, i + 1),
        }
    }
}

/// Whether a script holds the anonymous private-key marker.
pub open spec fn is_action_script(content: Seq<char>) -> bool {
    contains(content, "anonPrivateKey"@)
}

/// Whether a script (without that marker) refers to the signature module.
pub open spec fn is_xsid_source(content: Seq<char>) -> bool {
    !is_action_script(content) && contains(content, "880932)"@)
}

/// The last of the first `n` fetched scripts that is an action script.
pub open spec fn last_action_script(ss: Seq<(String, String)>, n: int) -> Option<int>
    decreases n,
{
    if n <= 0 {
        None
    } else if is_action_script(ss[n - 1].1@) {
        Some(n - 1)
    } else {
        last_action_script(ss, n - 1)
    }
}

/// The last of the first `n` fetched scripts that refers to the signature module.
pub open spec fn last_xsid_source(ss: Seq<(String, String)>, n: int) -> Option<int>
    decreases n,
{
    if n <= 0 {
        None
    } else if is_xsid_source(ss[n - 1].1@) {
        Some(n - 1)
    } else {
        last_xsid_source(ss, n - 1)
    }
}

/// What reading the animation values decides.
#[derive(Debug)]
pub enum ValuesStep {
    /// The SVG path and the offsets: none for an empty script id, else those
    /// cached for the script's link.
    Ready(String, Vec<usize>),
    /// The SVG path; the offsets are to be read from the script at this link
    /// (see `script_offsets`) and cached.
    NeedScript(String, String),
}

/// Whether `svg` is the path that the loading animation selects in the page.
pub open spec fn selected_svg(html: Seq<char>, loading: Seq<char>, svg: Seq<char>) -> bool {
    anim_index(loading) matches Some(i) && i < d_values_from(html, 0).len() && svg == d_values_from(html, 0)[i as int]
}

/// Scraping of the handshake responses.
pub struct Parser;

impl Parser {
    /// The challenge bytes of a step-one response, found between two markers in
    /// the response's hex form; `None` where a marker is missing or the text
    /// between them does not decode.
    pub fn extract_challenge(response: &[u8]) -> (r: Option<Vec<u8>>)
        ensures
            match r {
                Some(c) => challenge_of(response@) == Some(c@),
                None => challenge_of(response@) is None,
            },
    {
        proof {
            reveal_strlit("3a6f38362c");
            reveal_strlit("313a");
        }
        let h = hex_encode(response);
        let start_marker = chars_of("3a6f38362c");
        match find_from_exec(&h, &start_marker, 0) {
            None => None,
            Some(i) => {
                proof { lemma_find_from_sound(h@, start_marker@, 0); }
                let start = i + 10;
                match find_from_exec(&h, &chars_of("313a"), start) {
                    None => None,
                    Some(j) => {
                        proof { lemma_find_from_sound(h@, "313a"@, start as nat); }
                        hex_decode(&slice_of(&h, start, j))
                    },
                }
            },
        }
    }

    /// The verification token named `verification` in a step-two response, and
    /// the loading animation it selects (`loading-x-anim-<byte 5 mod 4>`).
    pub fn get_anim(html: &str, verification: &str) -> (r: Result<(String, String), GrokError>)
        ensures
            match r {
                Ok((token, anim)) => between_spec(html@, token_delimiter(verification@), "\""@) == Some(token@)
                    && (base64_decoded(token@) matches Some(d) && d.len() > 5 && anim@ == anim_name(d)),
                Err(e) => e is ParseError && (between_spec(html@, token_delimiter(verification@), "\""@) matches Some(t)
                    ==> !(base64_decoded(t) matches Some(d) && d.len() > 5)),
            },
    {
        let mut delim = String::from_str("\"name\":\"");
        delim.append(verification);
        delim.append("\",\"content\":\"");
        let token = Utils::between(html, delim.as_str(), "\"")?;
        let decoded = match base64_decode(token.as_str()) {
            Some(d) => d,
            None => return Err(GrokError::ParseError(String::from_str("Base64 decode error"))),
        };
        if decoded.len() <= 5 {
            return Err(GrokError::ParseError(String::from_str("Invalid verification token")));
        }
        let mut anim: Vec<char> = Vec::new();
        append_str(&mut anim, "loading-x-anim-");
        let digit = decimal_exec((decoded[5] % 4) as u64);
        append_chars(&mut anim, &digit);
        Ok((token, string_of(&anim)))
    }

    /// Every SVG path value (`"d":"M` and at least 200 more characters up to a
    /// quote) in a response, in order.
    pub fn svg_paths(html: &str) -> (r: Vec<String>)
        ensures
            r@.map_values(|v: String| v@) == d_values_from(html@, 0),
    {
        proof {
            reveal_strlit("\"d\":\"M");
            reveal_strlit("\"");
        }
        let s = chars_of(html);
        let opener = chars_of("\"d\":\"M");
        let quote = chars_of("\"");
        let mut out: Vec<String> = Vec::new();
        let mut i: usize = 0;
        while i < s.len()
            invariant
                i <= s.len(),
                s@ == html@,
                opener@ == "\"d\":\"M"@,
                quote@ == "\""@,
                out@.map_values(|v: String| v@) + d_values_from(s@, i as nat) == d_values_from(s@, 0),
            decreases s.len() - i,
        {
            let mut found: Option<usize> = None;
            proof {
                reveal_strlit("\"d\":\"M");
                reveal_strlit("\"");
            }
            if matches_at(&s, &opener, i) {
                assert(i + 6 <= s.len());
                match find_from_exec(&s, &quote, i + 6) {
                    Some(j) => {
                        proof { lemma_find_from_sound(s@, quote@, (i + 6) as nat); }
                        if j - (i + 6) >= 200 {
                            found = Some(j);
                        }
                    },
                    None => {},
                }
            }
            assert(found matches Some(j) ==> d_value_end(s@, i as int) == Some(j as nat));
            assert(found is None ==> d_value_end(s@, i as int) is None);
            match found {
                Some(j) => {
                    proof { lemma_find_from_sound(s@, quote@, (i + 6) as nat); }
                    assert(j < s.len());
                    let v = string_of(&slice_of(&s, i + 5, j));
                    let ghost before = out@.map_values(|v: String| v@);
                    out.push(v);
                    assert(out@.map_values(|v: String| v@) =~= before.push(v@));
                    assert(before.push(v@) + d_values_from(s@, (j + 1) as nat) =~= before + (seq![s@.subrange(i + 5, j as int)] + d_values_from(s@, (j + 1) as nat)));
                    i = j + 1;
                },
                None => {
                    i += 1;
                },
            }
        }
        assert(out@.map_values(|v: String| v@) + d_values_from(s@, i as nat) =~= out@.map_values(|v: String| v@));
        out
    }

    /// The SVG path of the response that the loading animation selects; an error
    /// where the name carries no index or the index is out of the paths.
    pub fn select_svg(html: &str, loading: &str) -> (r: Result<String, GrokError>)
        ensures
            match r {
                Ok(svg) => anim_index(loading@) matches Some(i) && i < d_values_from(html@, 0).len()
                    && svg@ == d_values_from(html@, 0)[i as int],
                Err(e) => e matches GrokError::ParseError(m) && match anim_index(loading@) {
                    None => m@ == "Invalid loading animation"@,
                    Some(i) => i >= d_values_from(html@, 0).len() && m@ == "Animation index out of bounds"@,
                },
            },
    {
        proof { reveal_strlit("loading-x-anim-"); }
        let all = Self::svg_paths(html);
        let name = chars_of(loading);
        let prefix = chars_of("loading-x-anim-");
        let idx = if matches_at(&name, &prefix, 0) {
            let rest = slice_of(&name, 15, name.len());
            assert(rest@ =~= name@.skip(15));
            parse_usize_exec(&rest)
        } else {
            None
        };
        let i = match idx {
            Some(i) => i,
            None => return Err(GrokError::ParseError(String::from_str("Invalid loading animation"))),
        };
        if i >= all.len() {
            return Err(GrokError::ParseError(String::from_str("Animation index out of bounds")));
        }
        assert(all@.map_values(|v: String| v@)[i as int] == all@[i as int]@);
        Ok(all[i].clone())
    }

    fn digits_end_exec(s: &Vec<char>, i: usize) -> (r: usize)
        requires
            i <= s.len(),
        ensures
            r == digits_end(s@, i as nat),
    {
        let mut k = i;
        while k < s.len() && '0' <= s[k] && s[k] <= '9'
            invariant
                i <= k <= s.len(),
                digits_end(s@, k as nat) == digits_end(s@, i as nat),
            decreases s.len() - k,
        {
            k += 1;
        }
        k
    }

    fn spaces_end_exec(s: &Vec<char>, i: usize) -> (r: usize)
        requires
            i <= s.len(),
        ensures
            r == spaces_end(s@, i as nat),
    {
        let mut k = i;
        while k < s.len() && is_ws_exec(s[k])
            invariant
                i <= k <= s.len(),
                spaces_end(s@, k as nat) == spaces_end(s@, i as nat),
            decreases s.len() - k,
        {
            k += 1;
        }
        k
    }

    fn offset_match_exec(s: &Vec<char>, i: usize) -> (r: Option<(usize, usize, usize)>)
        requires
            i < s.len(),
        ensures
            match r {
                Some((a, b, e)) => offset_match(s@, i as int) == Some((a as nat, b as nat, e as nat)) && a <= b
                    && e <= s.len() && e > i,
                None => offset_match(s@, i as int) is None,
            },
    {
        proof {
            reveal_strlit("x[");
            reveal_strlit("16");
        }
        if !matches_at(s, &chars_of("x["), i) {
            return None;
        }
        let a = i + 2;
        let b = Self::digits_end_exec(s, a);
        proof { lemma_digits_end(s@, a as nat); }
        if !(b > a && b < s.len() && s[b] == ']') {
            return None;
        }
        let c = Self::spaces_end_exec(s, b + 1);
        proof { lemma_spaces_end(s@, (b + 1) as nat); }
        if !(c < s.len() && s[c] == ',') {
            return None;
        }
        let d = Self::spaces_end_exec(s, c + 1);
        proof { lemma_spaces_end(s@, (c + 1) as nat); }
        if !matches_at(s, &chars_of("16"), d) {
            return None;
        }
        Some((a, b, d + 2))
    }

    /// The offsets that the signature script reads: the `n` of each
    /// `x[n] , 16` in it (whitespace allowed around the comma), in order.
    pub fn script_offsets(script: &str) -> (r: Vec<usize>)
        ensures
            r@.map_values(|v: usize| v as nat) == offsets_from(script@, 0),
    {
        let s = chars_of(script);
        let mut out: Vec<usize> = Vec::new();
        let mut i: usize = 0;
        assert(out@.map_values(|v: usize| v as nat) + offsets_from(s@, 0) =~= offsets_from(s@, 0));
        while i < s.len()
            invariant
                i <= s.len(),
                s@ == script@,
                out@.map_values(|v: usize| v as nat) + offsets_from(s@, i as nat) == offsets_from(s@, 0),
            decreases s.len() - i,
        {
            let ghost before = out@.map_values(|v: usize| v as nat);
            match Self::offset_match_exec(&s, i) {
                Some((a, b, e)) => {
                    let digits = slice_of(&s, a, b);
                    match parse_usize_exec(&digits) {
                        Some(v) => {
                            out.push(v);
                            assert(out@.map_values(|v: usize| v as nat) =~= before.push(v as nat));
                            assert(before.push(v as nat) + offsets_from(s@, e as nat) =~= before + (seq![v as nat]
                                + offsets_from(s@, e as nat)));
                        },
                        None => {},
                    }
                    i = e;
                },
                None => {
                    i += 1;
                },
            }
        }
        assert(out@.map_values(|v: usize| v as nat) + offsets_from(s@, i as nat) =~= out@.map_values(|v: usize| v as nat));
        out
    }

    fn hex_run_end_exec(s: &Vec<char>, i: usize) -> (r: usize)
        requires
            i <= s.len(),
        ensures
            r == hex_run_end(s@, i as nat),
    {
        let mut k = i;
        while k < s.len() && (('0' <= s[k] && s[k] <= '9') || ('a' <= s[k] && s[k] <= 'f'))
            invariant
                i <= k <= s.len(),
                hex_run_end(s@, k as nat) == hex_run_end(s@, i as nat),
            decreases s.len() - k,
        {
            k += 1;
        }
        k
    }

    /// The server action ids that a script declares (the hex id after each
    /// `createServerReference)("`), in order.
    pub fn script_actions(script: &str) -> (r: Vec<String>)
        ensures
            r@.map_values(|v: String| v@) == actions_from(script@, 0),
    {
        proof { reveal_strlit("createServerReference)(\""); }
        let s = chars_of(script);
        let opener = chars_of("createServerReference)(\"");
        let n = opener.len();
        let mut out: Vec<String> = Vec::new();
        let mut i: usize = 0;
        assert(out@.map_values(|v: String| v@) + actions_from(s@, 0) =~= actions_from(s@, 0));
        while i < s.len()
            invariant
                i <= s.len(),
                s@ == script@,
                opener@ == action_opener(),
                n == opener@.len(),
                out@.map_values(|v: String| v@) + actions_from(s@, i as nat) == actions_from(s@, 0),
            decreases s.len() - i,
        {
            let ghost before = out@.map_values(|v: String| v@);
            let mut found: Option<(usize, usize)> = None;
            if matches_at(&s, &opener, i) {
                let a = i + n;
                let b = Self::hex_run_end_exec(&s, a);
                proof { lemma_hex_run_end(s@, a as nat); }
                if b > a && b < s.len() && s[b] == '"' {
                    found = Some((a, b));
                }
            }
            assert(found matches Some((a, b)) ==> action_match(s@, i as int) == Some((a as nat, b as nat)));
            assert(found is None ==> action_match(s@, i as int) is None);
            match found {
                Some((a, b)) => {
                    let v = string_of(&slice_of(&s, a, b));
                    out.push(v);
                    assert(out@.map_values(|v: String| v@) =~= before.push(v@));
                    assert(before.push(v@) + actions_from(s@, (b + 1) as nat) =~= before + (seq![s@.subrange(a as int, b as int)]
                        + actions_from(s@, (b + 1) as nat)));
                    i = b + 1;
                },
                None => {
                    i += 1;
                },
            }
        }
        assert(out@.map_values(|v: String| v@) + actions_from(s@, i as nat) =~= out@.map_values(|v: String| v@));
        out
    }

    fn xsid_match_exec(s: &Vec<char>, p: usize) -> (r: Option<(usize, usize)>)
        requires
            p < s.len(),
        ensures
            match r {
                Some((a, q)) => xsid_match(s@, p as int) == Some((a as nat, q as nat)) && a <= q <= s.len(),
                None => xsid_match(s@, p as int) is None,
            },
    {
        proof {
            reveal_strlit("\"static/chunks/");
            reveal_strlit("\"");
            reveal_strlit(".js");
        }
        if !matches_at(s, &chars_of("\"static/chunks/"), p) {
            return None;
        }
        let q = match find_from_exec(s, &chars_of("\""), p + 15) {
            Some(q) => q,
            None => return None,
        };
        proof { lemma_find_from_sound(s@, "\""@, (p + 15) as nat); }
        if !(q - p >= 19 && matches_at(s, &chars_of(".js"), q - 3)) {
            return None;
        }
        let k = match find_from_exec(s, &chars_of("a(880932)"), q + 1) {
            Some(k) => k,
            None => return None,
        };
        match find_from_exec(s, &chars_of("}"), q + 1) {
            Some(b) => if b < k {
                return None;
            },
            None => {},
        }
        Some((p + 1, q))
    }

    /// The signature script that a script names: the first quoted
    /// `static/chunks/<x>.js` followed by `a(880932)` before any `}`; an error
    /// where there is none.
    pub fn xsid_script(script: &str) -> (r: Result<String, GrokError>)
        ensures
            match r {
                Ok(path) => xsid_script_from(script@, 0) == Some(path@),
                Err(e) => e is ParseError && xsid_script_from(script@, 0) is None,
            },
    {
        let s = chars_of(script);
        let mut i: usize = 0;
        while i < s.len()
            invariant
                i <= s.len(),
                s@ == script@,
                xsid_script_from(s@, i as nat) == xsid_script_from(s@, 0),
            decreases s.len() - i,
        {
            match Self::xsid_match_exec(&s, i) {
                Some((a, q)) => {
                    return Ok(string_of(&slice_of(&s, a, q)));
                },
                None => {},
            }
            i += 1;
        }
        Err(GrokError::ParseError(String::from_str("XSID script not found")))
    }

    /// The scan of the fetched scripts, as `(link, content)` pairs: the last
    /// action script gives its link and action ids, the last script that refers
    /// to the signature module gives the signature script; an error where that
    /// one is missing or names none.
    pub fn scan_scripts(scripts: &Vec<(String, String)>) -> (r: Result<GrokMapping, GrokError>)
        ensures
            ({
                let ss = scripts@;
                let xsid_text = match last_xsid_source(ss, ss.len() as int) {
                    Some(i) => ss[i].1@,
                    None => Seq::empty(),
                };
                let action_text = match last_action_script(ss, ss.len() as int) {
                    Some(i) => ss[i].1@,
                    None => Seq::empty(),
                };
                match r {
                    Ok(m) => xsid_script_from(xsid_text, 0) == Some(m.xsid_script@)
                        && m.actions@.map_values(|v: String| v@) == actions_from(action_text, 0)
                        && m.action_script@ == (match last_action_script(ss, ss.len() as int) {
                            Some(i) => ss[i].0@,
                            None => Seq::empty(),
                        }),
                    Err(e) => e is ParseError && xsid_script_from(xsid_text, 0) is None,
                }
            }),
    {
        let mut action: Option<usize> = None;
        let mut xsid: Option<usize> = None;
        let mut k: usize = 0;
        while k < scripts.len()
            invariant
                k <= scripts.len(),
                match action {
                    Some(i) => last_action_script(scripts@, k as int) == Some(i as int) && i < k,
                    None => last_action_script(scripts@, k as int) is None,
                },
                match xsid {
                    Some(i) => last_xsid_source(scripts@, k as int) == Some(i as int) && i < k,
                    None => last_xsid_source(scripts@, k as int) is None,
                },
            decreases scripts.len() - k,
        {
            let content = scripts[k].1.as_str();
            if str_contains(content, "anonPrivateKey") {
                action = Some(k);
            } else if str_contains(content, "880932)") {
                xsid = Some(k);
            }
            k += 1;
        }
        let empty = String::new();
        let xsid_text = match xsid {
            Some(i) => &scripts[i].1,
            None => &empty,
        };
        let xsid_script = match Self::xsid_script(xsid_text.as_str()) {
            Ok(x) => x,
            Err(e) => return Err(e),
        };
        let (action_script, actions) = match action {
            Some(i) => (scripts[i].0.clone(), Self::script_actions(scripts[i].1.as_str())),
            None => (String::new(), Self::script_actions("")),
        };
        proof {
            if action is None {
                reveal_strlit("");
            }
        }
        Ok(GrokMapping { xsid_script, action_script, actions })
    }

    /// The SVG path that the loading animation selects, and the offsets of the
    /// signature script `script_id`: none for an empty id, the cached ones for
    /// its link, or else the link to read them from.
    pub fn parse_values(html: &str, loading: &str, script_id: &str, mapping: &XsidMapping) -> (r: Result<ValuesStep, GrokError>)
        ensures
            match r {
                Ok(ValuesStep::Ready(svg, offsets)) => selected_svg(html@, loading@, svg@) && (script_id@.len() == 0
                    ==> offsets@.len() == 0) && (script_id@.len() > 0 ==> script_link_of(script_id@, html@) is Some
                    && exists|i: int| #[trigger] first_cached(mapping.mappings@, script_link_of(script_id@, html@)->0, i)
                    && offsets@ == mapping.mappings@[i].1@),
                Ok(ValuesStep::NeedScript(svg, link)) => selected_svg(html@, loading@, svg@) && script_id@.len() > 0
                    && script_link_of(script_id@, html@) == Some(link@) && forall|i: int|
                    0 <= i < mapping.mappings@.len() ==> (#[trigger] mapping.mappings@[i]).0@ != link@,
                Err(e) => e matches GrokError::ParseError(m) && match anim_index(loading@) {
                    None => m@ == "Invalid loading animation"@,
                    Some(i) => if i >= d_values_from(html@, 0).len() {
                        m@ == "Animation index out of bounds"@
                    } else {
                        script_id@.len() > 0 && script_link_of(script_id@, html@) is None
                    },
                },
            },
    {
        let svg = match Self::select_svg(html, loading) {
            Ok(svg) => svg,
            Err(e) => return Err(e),
        };
        if script_id.is_empty() {
            return Ok(ValuesStep::Ready(svg, Vec::new()));
        }
        let link = match ScriptLinks::script_link(script_id, html) {
            Ok(l) => l,
            Err(e) => return Err(e),
        };
        match mapping.get(link.as_str()) {
            Some(offsets) => {
                proof {
                    let i = choose|i: int| #[trigger] first_cached(mapping.mappings@, link@, i)
                        && offsets@ == mapping.mappings@[i].1@;
                    assert(script_link_of(script_id@, html@)->0 == link@);
                    assert(first_cached(mapping.mappings@, script_link_of(script_id@, html@)->0, i));
                }
                Ok(ValuesStep::Ready(svg, offsets))
            },
            None => Ok(ValuesStep::NeedScript(svg, link)),
        }
    }
}

} // verus!
