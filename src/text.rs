use vstd::prelude::*;

verus! {

/// The characters of `s`, in order.
pub fn chars_of(s: &str) -> (r: Vec<char>)
    ensures
        r@ == s@,
{
    let mut out: Vec<char> = Vec::new();
    for c in it: s.chars()
        invariant
            out@ == it.seq().take(it.index() as int),
    {
        out.push(c);
    }
    out
}

/// Relies on `String::push`: appends one character.
#[verifier::external_body]
fn push_char(s: &mut String, c: char)
    ensures
        final(s)@ == old(s)@.push(c),
{
    s.push(c);
}

/// The string whose characters are `cs`.
pub fn string_of(cs: &Vec<char>) -> (r: String)
    ensures
        r@ == cs@,
{
    let mut out = String::new();
    let mut i: usize = 0;
    while i < cs.len()
        invariant
            i <= cs.len(),
            out@ == cs@.take(i as int),
        decreases cs.len() - i,
    {
        push_char(&mut out, cs[i]);
        proof { assert(cs@.take(i + 1) == cs@.take(i as int).push(cs@[i as int])); }
        i += 1;
    }
    proof { assert(cs@.take(cs.len() as int) == cs@); }
    out
}


/// Whether `p` occurs in `s` starting at index `i`.
pub open spec fn occurs_at(s: Seq<char>, p: Seq<char>, i: int) -> bool {
    0 <= i && i + p.len() <= s.len() && s.subrange(i, i + p.len()) =~= p
}

/// The first index at or after `from` where `p` occurs in `s`.
pub open spec fn find_from(s: Seq<char>, p: Seq<char>, from: nat) -> Option<nat>
    decreases s.len() - from,
{
    if from + p.len() > s.len() {
        None
    } else if occurs_at(s, p, from as int) {
        Some(from)
    } else if from >= s.len() {
        None
    } else {
        find_from(s, p, from + 1)
    }
}

/// Every occurrence of `p` in `s` replaced by `r`, left to right and without
/// overlaps, as `str::replace` does for a non-empty pattern.
pub open spec fn replace_all(s: Seq<char>, p: Seq<char>, r: Seq<char>) -> Seq<char>
    decreases s.len(),
{
    if p.len() == 0 || s.len() < p.len() {
        s
    } else if s.take(p.len() as int) =~= p {
        r + replace_all(s.skip(p.len() as int), p, r)
    } else {
        seq![s[0]] + replace_all(s.skip(1), p, r)
    }
}

/// Whether `s` occurs in `text` somewhere.
pub open spec fn contains(text: Seq<char>, s: Seq<char>) -> bool {
    find_from(text, s, 0) is Some
}

pub proof fn lemma_find_from_sound(s: Seq<char>, p: Seq<char>, from: nat)
    ensures
        find_from(s, p, from) matches Some(i) ==> from <= i && occurs_at(s, p, i as int),
        find_from(s, p, from) is None ==> forall|j: int| from <= j ==> !occurs_at(s, p, j),
        find_from(s, p, from) matches Some(i) ==> forall|j: int| from <= j < i ==> !occurs_at(s, p, j),
    decreases s.len() - from,
{
    if from + p.len() > s.len() {
    } else if occurs_at(s, p, from as int) {
    } else if from >= s.len() {
    } else {
        lemma_find_from_sound(s, p, from + 1);
    }
}

/// Whether `p` occurs in `s` at index `i`.
pub fn matches_at(s: &Vec<char>, p: &Vec<char>, i: usize) -> (r: bool)
    requires
        i <= s.len(),
    ensures
        r == occurs_at(s@, p@, i as int),
{
    if p.len() > s.len() - i {
        return false;
    }
    let mut k: usize = 0;
    while k < p.len()
        invariant
            k <= p.len(),
            i + p.len() <= s.len(),
            forall|j: int| 0 <= j < k ==> s@[i + j] == p@[j],
        decreases p.len() - k,
    {
        if s[i + k] != p[k] {
            assert(s@.subrange(i as int, i + p.len())[k as int] != p@[k as int]);
            return false;
        }
        k += 1;
    }
    assert(s@.subrange(i as int, i + p.len()) =~= p@);
    true
}

/// The first index at or after `from` where `p` occurs in `s`.
pub fn find_from_exec(s: &Vec<char>, p: &Vec<char>, from: usize) -> (r: Option<usize>)
    requires
        from <= s.len(),
    ensures
        r matches Some(i) ==> find_from(s@, p@, from as nat) == Some(i as nat),
        r is None ==> find_from(s@, p@, from as nat) is None,
{
    let mut i: usize = from;
    while i <= s.len()
        invariant
            from <= i,
            find_from(s@, p@, from as nat) == find_from(s@, p@, i as nat),
        decreases s.len() + 1 - i,
    {
        if p.len() > s.len() - i {
            return None;
        }
        if matches_at(s, p, i) {
            return Some(i);
        }
        if i == s.len() {
            return None;
        }
        i += 1;
    }
    None
}

/// `s` with every occurrence of the non-empty `p` replaced by `r`.
pub fn replace_all_exec(s: &Vec<char>, p: &Vec<char>, r: &Vec<char>) -> (out: Vec<char>)
    requires
        p.len() > 0,
    ensures
        out@ == replace_all(s@, p@, r@),
{
    let mut out: Vec<char> = Vec::new();
    let mut i: usize = 0;
    assert(s@.skip(0) =~= s@);
    assert(out@ + replace_all(s@, p@, r@) =~= replace_all(s@, p@, r@));
    while i < s.len()
        invariant
            i <= s.len(),
            p.len() > 0,
            out@ + replace_all(s@.skip(i as int), p@, r@) == replace_all(s@, p@, r@),
        decreases s.len() - i,
    {
        let ghost rest = s@.skip(i as int);
        if p.len() > s.len() - i {
            assert(replace_all(rest, p@, r@) == rest);
            let mut k: usize = i;
            while k < s.len()
                invariant
                    i <= k <= s.len(),
                    out@ + s@.skip(k as int) == replace_all(s@, p@, r@),
                decreases s.len() - k,
            {
                proof {
                    assert(s@.skip(k as int) =~= seq![s@[k as int]] + s@.skip(k + 1));
                }
                out.push(s[k]);
                k += 1;
            }
            assert(s@.skip(k as int) =~= Seq::<char>::empty());
            assert(out@ =~= out@ + s@.skip(k as int));
            return out;
        }
        if matches_at(s, p, i) {
            assert(rest.take(p.len() as int) =~= s@.subrange(i as int, i + p.len()));
            assert(rest.skip(p.len() as int) =~= s@.skip(i + p.len()));
            let mut k: usize = 0;
            let ghost out0 = out@;
            while k < r.len()
                invariant
                    k <= r.len(),
                    out@ == out0 + r@.take(k as int),
                decreases r.len() - k,
            {
                out.push(r[k]);
                proof {
                    assert(r@.take(k + 1) =~= r@.take(k as int).push(r@[k as int]));
                }
                k += 1;
            }
            assert(r@.take(r.len() as int) =~= r@);
            assert(out@ + replace_all(s@.skip(i + p.len()), p@, r@) =~= out0 + (r@
                + replace_all(rest.skip(p.len() as int), p@, r@)));
            i += p.len();
        } else {
            assert(rest.take(p.len() as int) =~= s@.subrange(i as int, i + p.len()));
            assert(rest.skip(1) =~= s@.skip(i + 1));
            assert(rest[0] == s@[i as int]);
            let ghost out0 = out@;
            out.push(s[i]);
            assert(out@ + replace_all(s@.skip(i + 1), p@, r@) =~= out0 + (seq![rest[0]]
                + replace_all(rest.skip(1), p@, r@)));
            i += 1;
        }
    }
    assert(s@.skip(i as int) =~= Seq::<char>::empty());
    assert(replace_all(s@.skip(i as int), p@, r@) == Seq::<char>::empty());
    assert(out@ =~= out@ + Seq::<char>::empty());
    out
}

} // verus!

verus! {

/// The text after the first `start` and before the first `end` that follows
/// it; `None` where either delimiter is missing.
pub open spec fn between_spec(text: Seq<char>, start: Seq<char>, end: Seq<char>) -> Option<Seq<char>> {
    match find_from(text, start, 0) {
        None => None,
        Some(i) => {
            let after = i + start.len();
            match find_from(text, end, after) {
                Some(j) => Some(text.subrange(after as int, j as int)),
                None => None,
            }
        },
    }
}

/// `s[lo..hi]` as a new vector.
pub fn slice_of(s: &Vec<char>, lo: usize, hi: usize) -> (r: Vec<char>)
    requires
        lo <= hi <= s.len(),
    ensures
        r@ == s@.subrange(lo as int, hi as int),
{
    let mut out: Vec<char> = Vec::new();
    let mut k: usize = lo;
    while k < hi
        invariant
            lo <= k <= hi <= s.len(),
            out@ == s@.subrange(lo as int, k as int),
        decreases hi - k,
    {
        out.push(s[k]);
        proof {
            assert(s@.subrange(lo as int, k + 1) =~= s@.subrange(lo as int, k as int).push(s@[k as int]));
        }
        k += 1;
    }
    out
}

/// The text between the first `start` and the first `end` after it.
pub fn between_exec(text: &Vec<char>, start: &Vec<char>, end: &Vec<char>) -> (r: Option<Vec<char>>)
    ensures
        match r {
            Some(v) => between_spec(text@, start@, end@) == Some(v@),
            None => between_spec(text@, start@, end@) is None,
        },
{
    match find_from_exec(text, start, 0) {
        None => None,
        Some(i) => {
            proof { lemma_find_from_sound(text@, start@, 0); }
            assert(occurs_at(text@, start@, i as int));
            assert(i + start@.len() <= text@.len());
            let tl = text.len();
            assert(i + start.len() <= tl);
            let after = i + start.len();
            match find_from_exec(text, end, after) {
                Some(j) => {
                    proof { lemma_find_from_sound(text@, end@, after as nat); }
                    Some(slice_of(text, after, j))
                },
                None => None,
            }
        },
    }
}

/// Whether `p` occurs in `s`.
pub fn contains_exec(s: &Vec<char>, p: &Vec<char>) -> (r: bool)
    ensures
        r == contains(s@, p@),
{
    find_from_exec(s, p, 0).is_some()
}

/// Whether the string `s` contains `p`.
pub fn str_contains(s: &str, p: &str) -> (r: bool)
    ensures
        r == contains(s@, p@),
{
    contains_exec(&chars_of(s), &chars_of(p))
}

} // verus!

verus! {

/// The decimal digit character for `d < 10`.
pub open spec fn digit_char(d: nat) -> char {
    seq!['0', '1', '2', '3', '4', '5', '6', '7', '8', '9'][d as int]
}

/// The decimal representation of `n`, without leading zeros.
pub open spec fn decimal(n: nat) -> Seq<char>
    decreases n,
{
    if n < 10 {
        seq![digit_char(n)]
    } else {
        decimal(n / 10).push(digit_char(n % 10))
    }
}

/// The decimal representation of a signed number, with a leading `-` if negative.
pub open spec fn signed_decimal(n: int) -> Seq<char> {
    if n < 0 {
        seq!['-'] + decimal((-n) as nat)
    } else {
        decimal(n as nat)
    }
}

fn digit_exec(d: u64) -> (c: char)
    requires
        d < 10,
    ensures
        c == digit_char(d as nat),
{
    let digits = ['0', '1', '2', '3', '4', '5', '6', '7', '8', '9'];
    assert(digits@ == seq!['0', '1', '2', '3', '4', '5', '6', '7', '8', '9']);
    digits[d as usize]
}

/// The decimal digits of `n`.
pub fn decimal_exec(n: u64) -> (r: Vec<char>)
    ensures
        r@ == decimal(n as nat),
    decreases n,
{
    if n < 10 {
        vec![digit_exec(n)]
    } else {
        let mut v = decimal_exec(n / 10);
        v.push(digit_exec(n % 10));
        v
    }
}

/// The decimal digits of a 128-bit `n`.
pub fn decimal_exec_u128(n: u128) -> (r: Vec<char>)
    ensures
        r@ == decimal(n as nat),
    decreases n,
{
    if n < 10 {
        vec![digit_exec(n as u64)]
    } else {
        let mut v = decimal_exec_u128(n / 10);
        v.push(digit_exec((n % 10) as u64));
        v
    }
}

/// The decimal representation of a signed `n`.
pub fn signed_decimal_exec(n: i64) -> (r: Vec<char>)
    ensures
        r@ == signed_decimal(n as int),
{
    if n < 0 {
        let m: u64 = if n == i64::MIN { 9223372036854775808u64 } else { (-n) as u64 };
        let mut v = vec!['-'];
        let d = decimal_exec(m);
        append_chars(&mut v, &d);
        v
    } else {
        decimal_exec(n as u64)
    }
}

/// Appends the characters of `b` to `a`.
pub fn append_chars(a: &mut Vec<char>, b: &Vec<char>)
    ensures
        final(a)@ == old(a)@ + b@,
{
    let mut k: usize = 0;
    let ghost a0 = a@;
    while k < b.len()
        invariant
            k <= b.len(),
            a@ == a0 + b@.take(k as int),
        decreases b.len() - k,
    {
        a.push(b[k]);
        proof {
            assert(b@.take(k + 1) =~= b@.take(k as int).push(b@[k as int]));
        }
        k += 1;
    }
    assert(b@.take(b.len() as int) =~= b@);
}

/// Appends the characters of the string `b` to `a`.
pub fn append_str(a: &mut Vec<char>, b: &str)
    ensures
        final(a)@ == old(a)@ + b@,
{
    let cs = chars_of(b);
    append_chars(a, &cs);
}

/// `s` without the characters `c` at its end.
pub open spec fn trim_end_char(s: Seq<char>, c: char) -> Seq<char>
    decreases s.len(),
{
    if s.len() > 0 && s.last() == c {
        trim_end_char(s.drop_last(), c)
    } else {
        s
    }
}

/// `s` without the characters `c` at its end.
pub fn trim_end_char_exec(s: &Vec<char>, c: char) -> (r: Vec<char>)
    ensures
        r@ == trim_end_char(s@, c),
{
    let mut n: usize = s.len();
    assert(s@.take(n as int) =~= s@);
    while n > 0 && s[n - 1] == c
        invariant
            n <= s.len(),
            trim_end_char(s@.take(n as int), c) == trim_end_char(s@, c),
        decreases n,
    {
        assert(s@.take(n as int).drop_last() =~= s@.take(n - 1));
        n -= 1;
    }
    let r = slice_of(s, 0, n);
    assert(r@ =~= s@.take(n as int));
    r
}

/// `s` with every character `c` removed.
pub open spec fn remove_char(s: Seq<char>, c: char) -> Seq<char> {
    s.filter(|x: char| x != c)
}

/// `s` with every character `c` removed.
pub fn remove_char_exec(s: &Vec<char>, c: char) -> (r: Vec<char>)
    ensures
        r@ == remove_char(s@, c),
{
    let mut out: Vec<char> = Vec::new();
    let mut k: usize = 0;
    while k < s.len()
        invariant
            k <= s.len(),
            out@ == remove_char(s@.take(k as int), c),
        decreases s.len() - k,
    {
        proof {
            assert(s@.take(k + 1).drop_last() =~= s@.take(k as int));
            reveal(Seq::filter);
        }
        if s[k] != c {
            out.push(s[k]);
        }
        k += 1;
    }
    assert(s@.take(s.len() as int) =~= s@);
    out
}

} // verus!

verus! {

/// `char::is_whitespace`: the characters of Unicode's `White_Space` property.
pub open spec fn is_ws(c: char) -> bool {
    let u = c as u32;
    (0x09 <= u <= 0x0D) || u == 0x20 || u == 0x85 || u == 0xA0 || u == 0x1680 || (0x2000 <= u
        <= 0x200A) || u == 0x2028 || u == 0x2029 || u == 0x202F || u == 0x205F || u == 0x3000
}

/// `s` without its leading whitespace.
pub open spec fn trim_start_ws(s: Seq<char>) -> Seq<char>
    decreases s.len(),
{
    if s.len() > 0 && is_ws(s[0]) {
        trim_start_ws(s.skip(1))
    } else {
        s
    }
}

/// `s` without its trailing whitespace.
pub open spec fn trim_end_ws(s: Seq<char>) -> Seq<char>
    decreases s.len(),
{
    if s.len() > 0 && is_ws(s.last()) {
        trim_end_ws(s.drop_last())
    } else {
        s
    }
}

/// `str::trim`: `s` without leading and trailing whitespace.
pub open spec fn trim_ws(s: Seq<char>) -> Seq<char> {
    trim_end_ws(trim_start_ws(s))
}

/// Whether `c` is whitespace.
pub fn is_ws_exec(c: char) -> (r: bool)
    ensures
        r == is_ws(c),
{
    let u = c as u32;
    (0x09 <= u && u <= 0x0D) || u == 0x20 || u == 0x85 || u == 0xA0 || u == 0x1680 || (0x2000
        <= u && u <= 0x200A) || u == 0x2028 || u == 0x2029 || u == 0x202F || u == 0x205F || u
        == 0x3000
}

/// `s` without leading and trailing whitespace.
pub fn trim_ws_exec(s: &Vec<char>) -> (r: Vec<char>)
    ensures
        r@ == trim_ws(s@),
{
    let mut lo: usize = 0;
    assert(s@.skip(0) =~= s@);
    while lo < s.len() && is_ws_exec(s[lo])
        invariant
            lo <= s.len(),
            trim_start_ws(s@.skip(lo as int)) == trim_start_ws(s@),
        decreases s.len() - lo,
    {
        assert(s@.skip(lo as int).skip(1) =~= s@.skip(lo + 1));
        lo += 1;
    }
    let mut hi: usize = s.len();
    assert(s@.subrange(lo as int, hi as int) =~= s@.skip(lo as int));
    while hi > lo && is_ws_exec(s[hi - 1])
        invariant
            lo <= hi <= s.len(),
            trim_end_ws(s@.subrange(lo as int, hi as int)) == trim_ws(s@),
        decreases hi,
    {
        assert(s@.subrange(lo as int, hi as int).drop_last() =~= s@.subrange(lo as int, hi - 1));
        hi -= 1;
    }
    slice_of(s, lo, hi)
}

/// Whether `s` begins with `p`.
pub open spec fn starts_with(s: Seq<char>, p: Seq<char>) -> bool {
    occurs_at(s, p, 0)
}

} // verus!

verus! {

/// The lowercase hex digit for `d < 16`.
pub open spec fn hex_digit(d: nat) -> char {
    seq!['0', '1', '2', '3', '4', '5', '6', '7', '8', '9', 'a', 'b', 'c', 'd', 'e', 'f'][d as int]
}

/// Two lowercase hex digits per byte, high nibble first.
pub open spec fn hex_lower(b: Seq<u8>) -> Seq<char>
    decreases b.len(),
{
    if b.len() == 0 {
        Seq::empty()
    } else {
        hex_lower(b.drop_last()) + seq![hex_digit((b.last() / 16) as nat), hex_digit((b.last() % 16) as nat)]
    }
}

fn hex_digit_exec(d: u8) -> (c: char)
    requires
        d < 16,
    ensures
        c == hex_digit(d as nat),
{
    let digits = ['0', '1', '2', '3', '4', '5', '6', '7', '8', '9', 'a', 'b', 'c', 'd', 'e', 'f'];
    assert(digits@ == seq!['0', '1', '2', '3', '4', '5', '6', '7', '8', '9', 'a', 'b', 'c', 'd', 'e', 'f']);
    digits[d as usize]
}

/// The bytes in lowercase hex, as `hex::encode` writes them.
pub fn hex_encode(b: &[u8]) -> (r: Vec<char>)
    ensures
        r@ == hex_lower(b@),
{
    let mut out: Vec<char> = Vec::new();
    let mut k: usize = 0;
    while k < b.len()
        invariant
            k <= b.len(),
            out@ == hex_lower(b@.take(k as int)),
        decreases b.len() - k,
    {
        assert(b@.take(k + 1).drop_last() =~= b@.take(k as int));
        out.push(hex_digit_exec(b[k] / 16));
        out.push(hex_digit_exec(b[k] % 16));
        k += 1;
    }
    assert(b@.take(b.len() as int) =~= b@);
    out
}

} // verus!

verus! {

/// The value of a hex digit character, either case.
pub open spec fn hex_value(c: char) -> Option<nat> {
    let u = c as u32;
    if 0x30 <= u <= 0x39 {
        Some((u - 0x30) as nat)
    } else if 0x61 <= u <= 0x66 {
        Some((u - 0x61 + 10) as nat)
    } else if 0x41 <= u <= 0x46 {
        Some((u - 0x41 + 10) as nat)
    } else {
        None
    }
}

/// The bytes that hex text stands for: `None` for an odd length or a character
/// that is no hex digit.
pub open spec fn hex_decoded(h: Seq<char>) -> Option<Seq<u8>> {
    if h.len() % 2 == 0 && forall|i: int| 0 <= i < h.len() ==> #[trigger] hex_value(h[i]) is Some {
        Some(Seq::new((h.len() / 2) as nat, |i: int| (hex_value(h[2 * i])->0 * 16 + hex_value(h[2 * i + 1])->0) as u8))
    } else {
        None
    }
}

fn hex_value_exec(c: char) -> (r: Option<u8>)
    ensures
        match r {
            Some(v) => hex_value(c) == Some(v as nat) && v < 16,
            None => hex_value(c) is None,
        },
{
    let u = c as u32;
    if 0x30 <= u && u <= 0x39 {
        Some((u - 0x30) as u8)
    } else if 0x61 <= u && u <= 0x66 {
        Some((u - 0x61 + 10) as u8)
    } else if 0x41 <= u && u <= 0x46 {
        Some((u - 0x41 + 10) as u8)
    } else {
        None
    }
}

/// Decodes hex text, as `hex::decode` does.
pub fn hex_decode(h: &Vec<char>) -> (r: Option<Vec<u8>>)
    ensures
        match r {
            Some(v) => hex_decoded(h@) == Some(v@),
            None => hex_decoded(h@) is None,
        },
{
    if h.len() % 2 != 0 {
        return None;
    }
    let mut out: Vec<u8> = Vec::new();
    let mut k: usize = 0;
    while k < h.len() / 2
        invariant
            h.len() % 2 == 0,
            k <= h.len() / 2,
            out@.len() == k,
            forall|i: int| 0 <= i < 2 * k ==> #[trigger] hex_value(h@[i]) is Some,
            forall|i: int| 0 <= i < k ==> out@[i] == (hex_value(h@[2 * i])->0 * 16 + hex_value(h@[2 * i + 1])->0) as u8,
        decreases h.len() / 2 - k,
    {
        let hi = hex_value_exec(h[2 * k]);
        let lo = hex_value_exec(h[2 * k + 1]);
        match (hi, lo) {
            (Some(a), Some(b)) => {
                out.push(a * 16 + b);
            },
            _ => {
                return None;
            },
        }
        k += 1;
    }
    assert(out@ =~= hex_decoded(h@)->0);
    Some(out)
}

} // verus!

verus! {

/// Whether every character of `s` is an ASCII digit.
pub open spec fn all_digits(s: Seq<char>) -> bool {
    forall|i: int| 0 <= i < s.len() ==> '0' <= #[trigger] s[i] <= '9'
}

/// The number that a run of ASCII digits spells.
pub open spec fn digits_value(s: Seq<char>) -> nat
    decreases s.len(),
{
    if s.len() == 0 {
        0
    } else {
        digits_value(s.drop_last()) * 10 + ((s.last() as u32) - 48) as nat
    }
}

/// What `usize::from_str` gives: an optional `+`, then at least one ASCII digit,
/// for a value that fits.
pub open spec fn parse_usize(s: Seq<char>) -> Option<nat> {
    let body = if s.len() > 0 && s[0] == '+' { s.skip(1) } else { s };
    if body.len() > 0 && all_digits(body) && digits_value(body) <= usize::MAX {
        Some(digits_value(body))
    } else {
        None
    }
}

proof fn lemma_digits_value_grows(s: Seq<char>, k: int)
    requires
        0 <= k <= s.len(),
        all_digits(s),
    ensures
        digits_value(s.take(k)) <= digits_value(s),
    decreases s.len() - k,
{
    if k < s.len() {
        lemma_digits_value_grows(s, k + 1);
        assert(s.take(k + 1).drop_last() =~= s.take(k));
        assert('0' <= s.take(k + 1).last() <= '9');
    } else {
        assert(s.take(k) =~= s);
    }
}

/// Parses a decimal index, as `usize::from_str` does.
pub fn parse_usize_exec(s: &Vec<char>) -> (r: Option<usize>)
    ensures
        match r {
            Some(v) => parse_usize(s@) == Some(v as nat),
            None => parse_usize(s@) is None,
        },
{
    let start: usize = if s.len() > 0 && s[0] == '+' { 1 } else { 0 };
    let ghost body = if s@.len() > 0 && s@[0] == '+' { s@.skip(1) } else { s@ };
    assert(body =~= s@.skip(start as int));
    if start >= s.len() {
        return None;
    }
    let mut acc: usize = 0;
    let mut k: usize = start;
    assert(body.take(0) =~= Seq::<char>::empty());
    while k < s.len()
        invariant
            start <= k <= s.len(),
            body == s@.skip(start as int),
            body == (if s@.len() > 0 && s@[0] == '+' { s@.skip(1) } else { s@ }),
            all_digits(body.take(k - start)),
            acc == digits_value(body.take(k - start)),
        decreases s.len() - k,
    {
        let c = s[k];
        assert(body[k - start] == c);
        if !('0' <= c && c <= '9') {
            assert(!all_digits(body));
            return None;
        }
        let d = (c as u32 - 48) as usize;
        assert(body.take(k + 1 - start).drop_last() =~= body.take(k - start));
        if acc > (usize::MAX - d) / 10 {
            proof {
                assert(acc * 10 + d > usize::MAX) by (nonlinear_arith)
                    requires acc > (usize::MAX - d) / 10, d <= 9;
                if all_digits(body) {
                    lemma_digits_value_grows(body, (k + 1 - start) as int);
                }
            }
            return None;
        }
        assert(acc * 10 + d <= usize::MAX) by (nonlinear_arith)
            requires acc <= (usize::MAX - d) / 10, d <= 9;
        acc = acc * 10 + d;
        k += 1;
    }
    assert(body.take(k - start) =~= body);
    Some(acc)
}

} // verus!

verus! {

/// The index of the first whitespace character at or after `i`, or the length.
pub open spec fn word_end(s: Seq<char>, i: nat) -> nat
    decreases s.len() - i,
{
    if i >= s.len() || is_ws(s[i as int]) {
        i
    } else {
        word_end(s, i + 1)
    }
}

/// The index of the first non-whitespace character at or after `i`, or the length.
pub open spec fn word_start(s: Seq<char>, i: nat) -> nat
    decreases s.len() - i,
{
    if i >= s.len() || !is_ws(s[i as int]) {
        i
    } else {
        word_start(s, i + 1)
    }
}

proof fn lemma_word_bounds(s: Seq<char>, i: nat)
    ensures
        i <= word_start(s, i),
        word_start(s, i) <= s.len() || word_start(s, i) == i,
        i <= word_end(s, i),
        word_end(s, i) <= s.len() || word_end(s, i) == i,
        word_start(s, i) < s.len() ==> word_end(s, word_start(s, i)) > word_start(s, i),
    decreases s.len() - i,
{
    if i < s.len() {
        lemma_word_bounds(s, i + 1);
        if word_start(s, i) < s.len() {
            let w = word_start(s, i);
            assert(!is_ws(s[w as int])) by {
                lemma_word_start_stops(s, i);
            }
        }
    }
}

proof fn lemma_word_start_stops(s: Seq<char>, i: nat)
    ensures
        word_start(s, i) < s.len() ==> !is_ws(s[word_start(s, i) as int]),
    decreases s.len() - i,
{
    if i < s.len() && is_ws(s[i as int]) {
        lemma_word_start_stops(s, i + 1);
    }
}

/// The whitespace-separated words of `s` from `i` on, as `split_whitespace` gives them.
pub open spec fn words_from(s: Seq<char>, i: nat) -> Seq<Seq<char>>
    decreases s.len() - i,
{
    let a = word_start(s, i);
    if a >= s.len() {
        Seq::empty()
    } else {
        let b = word_end(s, a);
        if b > i && b <= s.len() {
            seq![s.subrange(a as int, b as int)] + words_from(s, b)
        } else {
            Seq::empty()
        }
    }
}

/// The words of `s` split at whitespace.
pub fn split_whitespace_exec(s: &Vec<char>) -> (r: Vec<Vec<char>>)
    ensures
        r@.map_values(|w: Vec<char>| w@) == words_from(s@, 0),
{
    let mut out: Vec<Vec<char>> = Vec::new();
    let mut i: usize = 0;
    assert(out@.map_values(|w: Vec<char>| w@) + words_from(s@, 0) =~= words_from(s@, 0));
    while i < s.len()
        invariant
            i <= s.len(),
            out@.map_values(|w: Vec<char>| w@) + words_from(s@, i as nat) == words_from(s@, 0),
        decreases s.len() - i,
    {
        let ghost i0 = i as nat;
        let mut a: usize = i;
        while a < s.len() && is_ws_exec(s[a])
            invariant
                i <= a <= s.len(),
                word_start(s@, i0) == word_start(s@, a as nat),
            decreases s.len() - a,
        {
            a += 1;
        }
        if a == s.len() {
            assert(words_from(s@, i0) == Seq::<Seq<char>>::empty());
            assert(out@.map_values(|w: Vec<char>| w@) + Seq::<Seq<char>>::empty() =~= out@.map_values(|w: Vec<char>| w@));
            return out;
        }
        let mut b: usize = a;
        while b < s.len() && !is_ws_exec(s[b])
            invariant
                a <= b <= s.len(),
                word_end(s@, a as nat) == word_end(s@, b as nat),
            decreases s.len() - b,
        {
            b += 1;
        }
        proof {
            lemma_word_bounds(s@, i0);
        }
        let w = slice_of(s, a, b);
        let ghost before = out@.map_values(|w: Vec<char>| w@);
        out.push(w);
        assert(out@.map_values(|w: Vec<char>| w@) =~= before.push(w@));
        assert(before.push(w@) + words_from(s@, b as nat) =~= before + (seq![s@.subrange(a as int, b as int)]
            + words_from(s@, b as nat)));
        i = b;
    }
    assert(words_from(s@, i as nat) == Seq::<Seq<char>>::empty());
    assert(out@.map_values(|w: Vec<char>| w@) + Seq::<Seq<char>>::empty() =~= out@.map_values(|w: Vec<char>| w@));
    out
}

/// What `i32::from_str` gives: an optional sign, then at least one ASCII digit,
/// for a value in range.
pub open spec fn parse_i32(s: Seq<char>) -> Option<int> {
    let neg = s.len() > 0 && s[0] == '-';
    let body = if s.len() > 0 && (s[0] == '+' || s[0] == '-') { s.skip(1) } else { s };
    if body.len() > 0 && all_digits(body) {
        let v = if neg { -(digits_value(body) as int) } else { digits_value(body) as int };
        if i32::MIN <= v <= i32::MAX { Some(v) } else { None }
    } else {
        None
    }
}

/// Parses a decimal `i32`, as `i32::from_str` does.
pub fn parse_i32_exec(s: &Vec<char>) -> (r: Option<i32>)
    ensures
        match r {
            Some(v) => parse_i32(s@) == Some(v as int),
            None => parse_i32(s@) is None,
        },
{
    let neg = s.len() > 0 && s[0] == '-';
    let start: usize = if s.len() > 0 && (s[0] == '+' || s[0] == '-') { 1 } else { 0 };
    let ghost body = if s@.len() > 0 && (s@[0] == '+' || s@[0] == '-') { s@.skip(1) } else { s@ };
    assert(body =~= s@.skip(start as int));
    if start >= s.len() {
        return None;
    }
    let limit: u64 = if neg { 2147483648 } else { 2147483647 };
    let mut acc: u64 = 0;
    let mut k: usize = start;
    assert(body.take(0) =~= Seq::<char>::empty());
    while k < s.len()
        invariant
            start <= k <= s.len(),
            body == s@.skip(start as int),
            body == (if s@.len() > 0 && (s@[0] == '+' || s@[0] == '-') { s@.skip(1) } else { s@ }),
            all_digits(body.take(k - start)),
            acc == digits_value(body.take(k - start)),
            acc <= limit,
            neg == (s@.len() > 0 && s@[0] == '-'),
            limit == (if neg { 2147483648u64 } else { 2147483647u64 }),
        decreases s.len() - k,
    {
        let c = s[k];
        assert(body[k - start] == c);
        if !('0' <= c && c <= '9') {
            assert(!all_digits(body));
            return None;
        }
        let d = (c as u32 - 48) as u64;
        assert(body.take(k + 1 - start).drop_last() =~= body.take(k - start));
        if acc * 10 + d > limit {
            proof {
                if all_digits(body) {
                    lemma_digits_value_grows(body, (k + 1 - start) as int);
                    assert(digits_value(body.take(k + 1 - start)) == acc * 10 + d);
                }
            }
            return None;
        }
        acc = acc * 10 + d;
        k += 1;
    }
    assert(body.take(k - start) =~= body);
    if neg {
        Some((0 - acc as i64) as i32)
    } else {
        Some(acc as i32)
    }
}

} // verus!

verus! {

/// The pieces of `s` between the characters `c`, as `str::split` gives them.
pub open spec fn split_char(s: Seq<char>, c: char) -> Seq<Seq<char>>
    decreases s.len(),
{
    match find_from(s, seq![c], 0) {
        Some(i) => if i < s.len() {
            seq![s.take(i as int)] + split_char(s.skip((i + 1) as int), c)
        } else {
            seq![s]
        },
        None => seq![s],
    }
}

/// The pieces of `s` between the characters `c`.
pub fn split_char_exec(s: &Vec<char>, c: char) -> (r: Vec<Vec<char>>)
    ensures
        r@.map_values(|p: Vec<char>| p@) == split_char(s@, c),
{
    let sep = vec![c];
    let mut out: Vec<Vec<char>> = Vec::new();
    let mut rest = slice_of(s, 0, s.len());
    assert(rest@ =~= s@);
    assert(out@.map_values(|p: Vec<char>| p@) + split_char(rest@, c) =~= split_char(s@, c));
    loop
        invariant
            sep@ == seq![c],
            out@.map_values(|p: Vec<char>| p@) + split_char(rest@, c) == split_char(s@, c),
        decreases rest@.len(),
    {
        let ghost before = out@.map_values(|p: Vec<char>| p@);
        match find_from_exec(&rest, &sep, 0) {
            Some(i) => {
                proof { lemma_find_from_sound(rest@, sep@, 0); }
                let piece = slice_of(&rest, 0, i);
                let next = slice_of(&rest, i + 1, rest.len());
                assert(piece@ =~= rest@.take(i as int));
                assert(next@ =~= rest@.skip(i + 1));
                out.push(piece);
                assert(out@.map_values(|p: Vec<char>| p@) =~= before.push(piece@));
                assert(before.push(piece@) + split_char(next@, c) =~= before + (seq![piece@]
                    + split_char(next@, c)));
                rest = next;
            },
            None => {
                out.push(rest);
                assert(out@.map_values(|p: Vec<char>| p@) =~= before + seq![rest@]);
                return out;
            },
        }
    }
}


} // verus!
