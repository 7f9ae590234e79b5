use vstd::prelude::*;
use crate::crypto::{base64_decode, base64_decoded, base64_encode, base64_of, sha256, sha256_of};
use crate::error::GrokError;
use crate::text::{
    append_chars, append_str, chars_of, decimal, decimal_exec, parse_i32, parse_i32_exec, remove_char,
    remove_char_exec, slice_of, split_char, split_char_exec, split_whitespace_exec, string_of,
    trim_end_char, trim_end_char_exec, trim_ws, trim_ws_exec, words_from,
};
use vstd::utf8::encode_utf8;

verus! {

/// The word that the service mixes into the signed message.
pub open spec fn mix_word() -> Seq<char> {
    seq!['o', 'b', 'f', 'i', 'o', 'w', 'e', 'r', 'e', 'h', 'i', 'r', 'i', 'n', 'g']
}

/// Whether the four offsets that the signature reads lie inside the token.
pub open spec fn offsets_fit(token: Seq<u8>, offsets: Seq<usize>) -> bool {
    offsets.len() >= 4 && forall|i: int| 0 <= i < 4 ==> (offsets[i] as int) < token.len()
}

/// Which path group of the animation the token selects.
pub open spec fn group_index(token: Seq<u8>, offsets: Seq<usize>) -> nat {
    (token[offsets[0] as int] % 16) as nat
}

/// The time scalar `c` that the token selects.
pub open spec fn time_scalar(token: Seq<u8>, offsets: Seq<usize>) -> nat {
    ((token[offsets[1] as int] % 16) * (token[offsets[2] as int] % 16) * (token[offsets[3]
        as int] % 16)) as nat
}

/// The text whose digest the signature carries: `method!path!n`, the mix word, `o`.
pub open spec fn signed_message(method: Seq<char>, path: Seq<char>, n: nat, o: Seq<char>) -> Seq<char> {
    method + seq!['!'] + path + seq!['!'] + decimal(n) + mix_word() + o
}

/// The four bytes of `n`, least significant first.
pub open spec fn le_bytes(n: u32) -> Seq<u8> {
    seq![(n % 256) as u8, ((n / 256) % 256) as u8, ((n / 65536) % 256) as u8, (n / 16777216) as u8]
}

/// Prefix byte, token, time, truncated digest and the closing `3`.
pub open spec fn plain_record(prefix: u8, token: Seq<u8>, n: u32, digest16: Seq<u8>) -> Seq<u8> {
    seq![prefix] + token + le_bytes(n) + digest16 + seq![3u8]
}

/// Every byte after the first XORed with the first.
pub open spec fn mask_with_first(b: Seq<u8>) -> Seq<u8> {
    Seq::new(b.len(), |i: int| if i == 0 { b[0] } else { b[i] ^ b[0] })
}

/// The header value for a decoded token and the folded style text `o`.
pub open spec fn xsid_header(
    method: Seq<char>,
    path: Seq<char>,
    n: u32,
    o: Seq<char>,
    prefix: u8,
    token: Seq<u8>,
) -> Seq<char> {
    let digest = sha256_of(encode_utf8(signed_message(method, path, n as nat, o)));
    trim_end_char(
        base64_of(mask_with_first(plain_record(prefix, token, n, digest.take(16)))),
        '=',
    )
}

/// The folded style text: the hex parts joined, with every `.` and `-` removed.
pub open spec fn fold_parts(parts: Seq<Seq<char>>) -> Seq<char> {
    remove_char(remove_char(parts.flatten(), '.'), '-')
}

/// The per-request signature header ("x-statsig-id").
pub struct Signature;

impl Signature {
    /// Decodes the base64 verification token to its raw bytes.
    pub fn decode_verification(verification: &str) -> (r: Result<Vec<u8>, GrokError>)
        ensures
            match r {
                Ok(b) => base64_decoded(verification@) == Some(b@),
                Err(e) => base64_decoded(verification@) is None && e is Base64Error,
            },
    {
        match base64_decode(verification) {
            Some(b) => Ok(b),
            None => Err(GrokError::Base64Error),
        }
    }

    /// The path group index and the time scalar that the token bytes select
    /// through the first four offsets; `None` where an offset is missing or out
    /// of the token.
    pub fn style_params(x_bytes: &[u8], x_values: &[usize]) -> (r: Option<(usize, u32)>)
        ensures
            r is Some <==> offsets_fit(x_bytes@, x_values@),
            r matches Some((idx, c)) ==> idx == group_index(x_bytes@, x_values@) && c
                == time_scalar(x_bytes@, x_values@),
    {
        if x_values.len() < 4 {
            return None;
        }
        let mut k: usize = 0;
        while k < 4
            invariant
                k <= 4 <= x_values.len(),
                forall|i: int| 0 <= i < k ==> (x_values@[i] as int) < x_bytes@.len(),
            decreases 4 - k,
        {
            if x_values[k] >= x_bytes.len() {
                return None;
            }
            k += 1;
        }
        let idx = (x_bytes[x_values[0]] % 16) as usize;
        let a = (x_bytes[x_values[1]] % 16) as u32;
        let b = (x_bytes[x_values[2]] % 16) as u32;
        let d = (x_bytes[x_values[3]] % 16) as u32;
        assert(a * b <= 225) by (nonlinear_arith)
            requires
                a < 16,
                b < 16,
        ;
        assert(a * b * d <= 225 * 15) by (nonlinear_arith)
            requires
                a * b <= 225,
                d < 16,
        ;
        Some((idx, a * b * d))
    }

    /// Joins the hex forms of the style's numbers and removes every `.` and `-`.
    pub fn fold_hex_parts(parts: &Vec<String>) -> (r: String)
        ensures
            r@ == fold_parts(parts@.map_values(|p: String| p@)),
    {
        let mut all: Vec<char> = Vec::new();
        let mut k: usize = 0;
        while k < parts.len()
            invariant
                k <= parts.len(),
                all@ == parts@.map_values(|p: String| p@).take(k as int).flatten(),
            decreases parts.len() - k,
        {
            let ghost before = all@;
            append_str(&mut all, parts[k].as_str());
            proof {
                let m = parts@.map_values(|p: String| p@);
                assert(m.take(k + 1) =~= m.take(k as int).push(parts@[k as int]@));
                m.take(k as int).lemma_flatten_push(parts@[k as int]@);
            }
            k += 1;
        }
        proof {
            let m = parts@.map_values(|p: String| p@);
            assert(m.take(parts.len() as int) =~= m);
        }
        let no_dots = remove_char_exec(&all, '.');
        let folded = remove_char_exec(&no_dots, '-');
        string_of(&folded)
    }

    /// The signature header for a request: `o` is the folded style text of the
    /// token's animation, `time_n` the seconds since the service's epoch and
    /// `prefix_byte` the random first byte. Fails only where the verification
    /// token is not valid base64.
    pub fn generate_sign(
        path: &str,
        method: &str,
        verification: &str,
        o: &str,
        time_n: u32,
        prefix_byte: u8,
    ) -> (r: Result<String, GrokError>)
        ensures
            match r {
                Ok(s) => base64_decoded(verification@) matches Some(tok) && s@ == xsid_header(
                    method@,
                    path@,
                    time_n,
                    o@,
                    prefix_byte,
                    tok,
                ),
                Err(e) => base64_decoded(verification@) is None && e is Base64Error,
            },
    {
        let token = Self::decode_verification(verification)?;
        let mut msg: Vec<char> = Vec::new();
        append_str(&mut msg, method);
        msg.push('!');
        append_str(&mut msg, path);
        msg.push('!');
        let digits = decimal_exec(time_n as u64);
        append_chars(&mut msg, &digits);
        let word = vec!['o', 'b', 'f', 'i', 'o', 'w', 'e', 'r', 'e', 'h', 'i', 'r', 'i', 'n', 'g'];
        append_chars(&mut msg, &word);
        append_str(&mut msg, o);
        assert(msg@ =~= signed_message(method@, path@, time_n as nat, o@));
        let msg_text = string_of(&msg);
        let digest = sha256(msg_text.as_str().as_bytes());
        let mut plain: Vec<u8> = Vec::new();
        plain.push(prefix_byte);
        let mut k: usize = 0;
        while k < token.len()
            invariant
                k <= token.len(),
                plain@ == seq![prefix_byte] + token@.take(k as int),
            decreases token.len() - k,
        {
            plain.push(token[k]);
            proof {
                assert(token@.take(k + 1) =~= token@.take(k as int).push(token@[k as int]));
            }
            k += 1;
        }
        assert(token@.take(token.len() as int) =~= token@);
        plain.push((time_n % 256) as u8);
        plain.push(((time_n / 256) % 256) as u8);
        plain.push(((time_n / 65536) % 256) as u8);
        plain.push((time_n / 16777216) as u8);
        let mut j: usize = 0;
        let ghost before = plain@;
        while j < 16
            invariant
                j <= 16,
                digest@.len() == 32,
                plain@ == before + digest@.take(j as int),
            decreases 16 - j,
        {
            plain.push(digest[j]);
            proof {
                assert(digest@.take(j + 1) =~= digest@.take(j as int).push(digest@[j as int]));
            }
            j += 1;
        }
        plain.push(3u8);
        assert(plain@ =~= plain_record(prefix_byte, token@, time_n, digest@.take(16)));
        let ghost plain0 = plain@;
        let first = plain[0];
        let mut i: usize = 1;
        while i < plain.len()
            invariant
                1 <= i <= plain.len(),
                plain.len() == plain0.len(),
                first == plain0[0],
                forall|q: int| 0 <= q < i ==> plain@[q] == mask_with_first(plain0)[q],
                forall|q: int| i <= q < plain.len() ==> plain@[q] == plain0[q],
            decreases plain.len() - i,
        {
            let v = plain[i] ^ first;
            plain.set(i, v);
            i += 1;
        }
        assert(plain@ =~= mask_with_first(plain0));
        let encoded = base64_encode(plain.as_slice());
        let trimmed = trim_end_char_exec(&chars_of(encoded.as_str()), '=');
        Ok(string_of(&trimmed))
    }
}

} // verus!

verus! {

/// What replacing every run of non-digits (Unicode `\d`) in `s` by one space gives.
pub uninterp spec fn non_digits_spaced(s: Seq<char>) -> Seq<char>;

/// Relies on `regex::Regex::replace_all` with the pattern `[^\d]+`, replacing
/// each match by a space.
#[verifier::external_body]
fn space_non_digits(part: &str) -> (r: String)
    ensures
        r@ == non_digits_spaced(part@),
{
    regex::Regex::new(r"[^\d]+").unwrap().replace_all(part, " ").into_owned()
}

/// The values of the words that parse as `i32`, in order.
pub open spec fn parsed_words(ws: Seq<Seq<char>>) -> Seq<int>
    decreases ws.len(),
{
    if ws.len() == 0 {
        Seq::empty()
    } else {
        let rest = parsed_words(ws.drop_last());
        match parse_i32(ws.last()) {
            Some(v) => rest.push(v),
            None => rest,
        }
    }
}

/// The numbers of one piece of a path: the digit runs that parse, or a single
/// zero where the piece holds no digit.
pub open spec fn piece_numbers(part: Seq<char>) -> Seq<int> {
    let cleaned = trim_ws(non_digits_spaced(part));
    if cleaned.len() == 0 {
        seq![0]
    } else {
        parsed_words(words_from(cleaned, 0))
    }
}

/// The number groups of an SVG path: its text after the first nine characters,
/// split at each `C`.
pub open spec fn svg_groups(svg: Seq<char>) -> Seq<Seq<int>> {
    split_char(svg.skip(9), 'C').map_values(|p: Seq<char>| piece_numbers(p))
}

impl Signature {
    fn piece_numbers_exec(part: &Vec<char>) -> (r: Vec<i32>)
        ensures
            r@.map_values(|v: i32| v as int) == piece_numbers(part@),
    {
        let spaced = space_non_digits(string_of(part).as_str());
        let cleaned = trim_ws_exec(&chars_of(spaced.as_str()));
        if cleaned.len() == 0 {
            let r = vec![0i32];
            assert(r@.map_values(|v: i32| v as int) =~= seq![0int]);
            return r;
        }
        let words = split_whitespace_exec(&cleaned);
        let ghost ws = words@.map_values(|w: Vec<char>| w@);
        let mut out: Vec<i32> = Vec::new();
        let mut k: usize = 0;
        assert(ws.take(0) =~= Seq::<Seq<char>>::empty());
        while k < words.len()
            invariant
                k <= words.len(),
                ws == words@.map_values(|w: Vec<char>| w@),
                out@.map_values(|v: i32| v as int) == parsed_words(ws.take(k as int)),
            decreases words.len() - k,
        {
            assert(ws.take(k + 1).drop_last() =~= ws.take(k as int));
            assert(ws.take(k + 1).last() == words@[k as int]@);
            let ghost before = out@.map_values(|v: i32| v as int);
            match parse_i32_exec(&words[k]) {
                Some(v) => {
                    out.push(v);
                    assert(out@.map_values(|v: i32| v as int) =~= before.push(v as int));
                },
                None => {},
            }
            k += 1;
        }
        assert(ws.take(words.len() as int) =~= ws);
        out
    }

    /// The number groups of an SVG path (see `svg_groups`).
    pub fn xa(svg: &str) -> (r: Vec<Vec<i32>>)
        requires
            svg@.len() >= 9,
        ensures
            r@.map_values(|g: Vec<i32>| g@.map_values(|v: i32| v as int)) == svg_groups(svg@),
    {
        let all = chars_of(svg);
        let s = slice_of(&all, 9, all.len());
        assert(s@ =~= svg@.skip(9));
        let pieces = split_char_exec(&s, 'C');
        let ghost ps = pieces@.map_values(|p: Vec<char>| p@);
        let mut out: Vec<Vec<i32>> = Vec::new();
        let mut k: usize = 0;
        while k < pieces.len()
            invariant
                k <= pieces.len(),
                ps == pieces@.map_values(|p: Vec<char>| p@),
                out@.len() == k,
                forall|j: int| 0 <= j < k ==> (#[trigger] out@[j])@.map_values(|v: i32| v as int) == piece_numbers(ps[j]),
            decreases pieces.len() - k,
        {
            let nums = Self::piece_numbers_exec(&pieces[k]);
            out.push(nums);
            k += 1;
        }
        assert(out@.map_values(|g: Vec<i32>| g@.map_values(|v: i32| v as int)) =~= ps.map_values(|p: Seq<char>| piece_numbers(p)));
        out
    }
}

} // verus!
