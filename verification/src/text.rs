//! Verified string utilities: ASCII case folding, prefix and substring
//! search, trimming, and decimal rendering. All contracts are stated over
//! `Seq<char>` views.

use vstd::prelude::*;
use vstd::string::StrSliceExecFns;
use vstd::string::StringExecFns;

verus! {

/// ASCII lowercasing of a single character; anything outside `A`..`Z`
/// is left as it is.
pub open spec fn to_lower_char(c: char) -> char {
    if 65 <= c as u32 && c as u32 <= 90 {
        (((c as u32) + 32) as u8) as char
    } else {
        c
    }
}

/// ASCII lowercasing of a whole character sequence.
pub open spec fn to_lower(s: Seq<char>) -> Seq<char> {
    s.map_values(|c: char| to_lower_char(c))
}

/// `p` is a prefix of `s`.
pub open spec fn starts_with_seq(s: Seq<char>, p: Seq<char>) -> bool {
    p.len() <= s.len() && s.subrange(0, p.len() as int) == p
}

/// `n` occurs somewhere in `s` as a contiguous run.
pub open spec fn contains_seq(s: Seq<char>, n: Seq<char>) -> bool {
    exists|i: int| 0 <= i && i + n.len() <= s.len() && #[trigger] s.subrange(i, i + n.len() as int)
        == n
}

/// Lowercase one character.
pub fn lower_char(c: char) -> (r: char)
    ensures
        r == to_lower_char(c),
{
    let u = c as u32;
    if 65 <= u && u <= 90 {
        ((u + 32) as u8) as char
    } else {
        c
    }
}

/// Character-sequence equality of two string slices.
pub fn str_eq(a: &str, b: &str) -> (r: bool)
    ensures
        r == (a@ == b@),
{
    let sa = String::from_str(a);
    let sb = String::from_str(b);
    sa == sb
}

/// Whether `s` starts with `p`, character by character.
pub fn starts_with(s: &str, p: &str) -> (r: bool)
    ensures
        r == starts_with_seq(s@, p@),
{
    let sl = s.unicode_len();
    let pl = p.unicode_len();
    if pl > sl {
        return false;
    }
    let mut i: usize = 0;
    while i < pl
        invariant
            i <= pl <= sl,
            pl == p@.len(),
            sl == s@.len(),
            forall|j: int| 0 <= j < i ==> s@[j] == p@[j],
        decreases pl - i,
    {
        if s.get_char(i) != p.get_char(i) {
            proof {
                assert(s@.subrange(0, pl as int)[i as int] != p@[i as int]);
            }
            return false;
        }
        i = i + 1;
    }
    proof {
        assert(s@.subrange(0, pl as int) =~= p@);
    }
    true
}

/// Case-insensitive (ASCII) equality of two string slices.
pub fn eq_ignore_ascii_case(a: &str, b: &str) -> (r: bool)
    ensures
        r == (to_lower(a@) == to_lower(b@)),
{
    let al = a.unicode_len();
    let bl = b.unicode_len();
    if al != bl {
        proof {
            assert(to_lower(a@).len() != to_lower(b@).len());
        }
        return false;
    }
    let mut i: usize = 0;
    while i < al
        invariant
            i <= al,
            al == a@.len() == b@.len(),
            forall|j: int| 0 <= j < i ==> to_lower_char(a@[j]) == to_lower_char(b@[j]),
        decreases al - i,
    {
        if lower_char(a.get_char(i)) != lower_char(b.get_char(i)) {
            proof {
                assert(to_lower(a@)[i as int] != to_lower(b@)[i as int]);
            }
            return false;
        }
        i = i + 1;
    }
    proof {
        assert(to_lower(a@) =~= to_lower(b@));
    }
    true
}

/// Whether the lowered form of `n` occurs in the lowered form of `h`:
/// a case-insensitive (ASCII) substring test.
pub fn contains_ignore_ascii_case(h: &str, n: &str) -> (r: bool)
    ensures
        r == contains_seq(to_lower(h@), to_lower(n@)),
{
    let hl = h.unicode_len();
    let nl = n.unicode_len();
    if nl > hl {
        return false;
    }
    let mut i: usize = 0;
    while i <= hl - nl
        invariant
            0 <= i <= hl - nl + 1,
            nl <= hl,
            hl == h@.len(),
            nl == n@.len(),
            forall|k: int|
                0 <= k < i ==> #[trigger] to_lower(h@).subrange(k, k + to_lower(n@).len() as int)
                    != to_lower(n@),
        decreases hl - nl + 1 - i,
    {
        let mut j: usize = 0;
        let mut hit = true;
        while j < nl
            invariant
                0 <= j <= nl,
                i + nl <= hl,
                hl == h@.len(),
                nl == n@.len(),
                hit ==> forall|m: int|
                    0 <= m < j ==> to_lower_char(h@[i + m]) == to_lower_char(n@[m]),
                !hit ==> exists|m: int|
                    0 <= m < nl && to_lower_char(h@[i + m]) != to_lower_char(#[trigger] n@[m]),
            decreases nl - j,
        {
            if lower_char(h.get_char(i + j)) != lower_char(n.get_char(j)) {
                hit = false;
                proof {
                    assert(to_lower_char(h@[i + j]) != to_lower_char(n@[j as int]));
                }
                j = nl;
            } else {
                j = j + 1;
            }
        }
        if hit {
            proof {
                assert(to_lower(h@).subrange(i as int, i + to_lower(n@).len() as int) =~= to_lower(
                    n@,
                )) by {
                    assert(forall|m: int|
                        0 <= m < nl ==> to_lower(h@).subrange(i as int, i + nl as int)[m]
                            == to_lower_char(#[trigger] h@[i + m]));
                }
            }
            return true;
        }
        proof {
            let m = choose|m: int|
                0 <= m < nl && to_lower_char(h@[i + m]) != to_lower_char(#[trigger] n@[m]);
            assert(to_lower(h@).subrange(i as int, i + to_lower(n@).len() as int)[m]
                == to_lower_char(h@[i + m]));
            assert(to_lower(h@).subrange(i as int, i + to_lower(n@).len() as int) != to_lower(n@));
        }
        i = i + 1;
    }
    proof {
        assert forall|k: int| 0 <= k && k + to_lower(n@).len() <= to_lower(h@).len() implies #[trigger] to_lower(
            h@,
        ).subrange(k, k + to_lower(n@).len() as int) != to_lower(n@) by {
            assert(k < i);
        }
    }
    false
}

/// Whether `n` occurs in `h`, compared exactly.
pub fn contains(h: &str, n: &str) -> (r: bool)
    ensures
        r == contains_seq(h@, n@),
{
    let hl = h.unicode_len();
    let nl = n.unicode_len();
    if nl > hl {
        return false;
    }
    let mut i: usize = 0;
    while i <= hl - nl
        invariant
            0 <= i <= hl - nl + 1,
            nl <= hl,
            hl == h@.len(),
            nl == n@.len(),
            forall|k: int|
                0 <= k < i ==> #[trigger] h@.subrange(k, k + n@.len() as int) != n@,
        decreases hl - nl + 1 - i,
    {
        let mut j: usize = 0;
        let mut hit = true;
        while j < nl
            invariant
                0 <= j <= nl,
                i + nl <= hl,
                hl == h@.len(),
                nl == n@.len(),
                hit ==> forall|m: int| 0 <= m < j ==> h@[i + m] == n@[m],
                !hit ==> exists|m: int| 0 <= m < nl && h@[i + m] != #[trigger] n@[m],
            decreases nl - j,
        {
            if h.get_char(i + j) != n.get_char(j) {
                hit = false;
                proof {
                    assert(h@[i + j] != n@[j as int]);
                }
                j = nl;
            } else {
                j = j + 1;
            }
        }
        if hit {
            proof {
                assert(h@.subrange(i as int, i + n@.len() as int) =~= n@);
            }
            return true;
        }
        proof {
            let m = choose|m: int| 0 <= m < nl && h@[i + m] != #[trigger] n@[m];
            assert(h@.subrange(i as int, i + n@.len() as int)[m] == h@[i + m]);
            assert(h@.subrange(i as int, i + n@.len() as int) != n@);
        }
        i = i + 1;
    }
    proof {
        assert forall|k: int| 0 <= k && k + n@.len() <= h@.len() implies #[trigger] h@.subrange(
            k,
            k + n@.len() as int,
        ) != n@ by {
            assert(k < i);
        }
    }
    false
}

/// How many characters at the front of `s` satisfy `p`.
pub open spec fn count_leading(s: Seq<char>, p: spec_fn(char) -> bool) -> nat
    decreases s.len(),
{
    if s.len() == 0 || !p(s[0]) {
        0
    } else {
        1 + count_leading(s.drop_first(), p)
    }
}

/// How many characters at the back of `s` satisfy `p`.
pub open spec fn count_trailing(s: Seq<char>, p: spec_fn(char) -> bool) -> nat
    decreases s.len(),
{
    if s.len() == 0 || !p(s[s.len() - 1]) {
        0
    } else {
        1 + count_trailing(s.take(s.len() - 1), p)
    }
}

/// `count_leading` is exactly the first index whose character fails `p`.
pub proof fn lemma_count_leading_is(s: Seq<char>, p: spec_fn(char) -> bool, k: int)
    requires
        0 <= k <= s.len(),
        forall|j: int| 0 <= j < k ==> p(#[trigger] s[j]),
        k < s.len() ==> !p(s[k]),
    ensures
        count_leading(s, p) == k,
    decreases s.len(),
{
    if s.len() == 0 {
    } else if k == 0 {
    } else {
        assert(p(s[0]));
        lemma_count_leading_is(s.drop_first(), p, k - 1);
    }
}

/// `count_trailing` is exactly the length of the final run satisfying `p`.
pub proof fn lemma_count_trailing_is(s: Seq<char>, p: spec_fn(char) -> bool, k: int)
    requires
        0 <= k <= s.len(),
        forall|j: int| s.len() - k <= j < s.len() ==> p(#[trigger] s[j]),
        k < s.len() ==> !p(s[s.len() - k - 1]),
    ensures
        count_trailing(s, p) == k,
    decreases s.len(),
{
    if s.len() == 0 {
    } else if k == 0 {
    } else {
        assert(p(s[s.len() - 1]));
        lemma_count_trailing_is(s.take(s.len() - 1), p, k - 1);
    }
}

/// The whitespace characters recognised when trimming a response body.
pub open spec fn is_space_char(c: char) -> bool {
    c == ' ' || c == '\t' || c == '\n' || c == '\r'
}

/// What trimming leaves: the characters between the leading and the
/// trailing run of whitespace.
pub open spec fn trimmed(s: Seq<char>) -> Seq<char> {
    let lead = count_leading(s, |c: char| is_space_char(c));
    let trail = count_trailing(s, |c: char| is_space_char(c));
    if lead == s.len() {
        Seq::empty()
    } else {
        s.subrange(lead as int, s.len() - trail)
    }
}

/// Strip leading and trailing whitespace.
pub fn trim(s: &str) -> (r: &str)
    ensures
        r@ == trimmed(s@),
{
    let len = s.unicode_len();
    let mut a: usize = 0;
    while a < len && is_space(s.get_char(a))
        invariant
            0 <= a <= len,
            len == s@.len(),
            forall|j: int| 0 <= j < a ==> is_space_char(#[trigger] s@[j]),
        decreases len - a,
    {
        a = a + 1;
    }
    proof {
        lemma_count_leading_is(s@, |c: char| is_space_char(c), a as int);
    }
    if a == len {
        proof {
            reveal_strlit("");
        }
        return "";
    }
    let mut b: usize = len;
    while b > a && is_space(s.get_char(b - 1))
        invariant
            a <= b <= len,
            len == s@.len(),
            a < len,
            !is_space_char(s@[a as int]),
            forall|j: int| b <= j < len ==> is_space_char(#[trigger] s@[j]),
        decreases b,
    {
        b = b - 1;
    }
    proof {
        if b == a {
            assert(!is_space_char(s@[s@.len() - (len - a) - 1 + 1]));
        }
        lemma_count_trailing_is(s@, |c: char| is_space_char(c), len - b);
    }
    s.substring_char(a, b)
}

/// Whitespace test for a single character.
pub fn is_space(c: char) -> (r: bool)
    ensures
        r == is_space_char(c),
{
    c == ' ' || c == '\t' || c == '\n' || c == '\r'
}

/// What remains of an API base address after its trailing `/` run is cut.
pub open spec fn trim_trailing_slashes_spec(s: Seq<char>) -> Seq<char> {
    s.take(s.len() - count_trailing(s, |c: char| c == '/'))
}

/// Strip every trailing `/` from an API base address.
pub fn trim_trailing_slashes(s: &str) -> (r: &str)
    ensures
        r@ == trim_trailing_slashes_spec(s@),
{
    let len = s.unicode_len();
    let mut b: usize = len;
    while b > 0 && s.get_char(b - 1) == '/'
        invariant
            0 <= b <= len,
            len == s@.len(),
            forall|j: int| b <= j < len ==> #[trigger] s@[j] == '/',
        decreases b,
    {
        b = b - 1;
    }
    proof {
        lemma_count_trailing_is(s@, |c: char| c == '/', len - b);
        assert(s@.subrange(0, b as int) =~= s@.take(b as int));
    }
    s.substring_char(0, b)
}

/// Drop every newline character, as done to base64 blob payloads before
/// re-upload.
pub fn strip_newlines(s: &str) -> (r: String)
    ensures
        r@ == s@.filter(|c: char| c != '\n'),
{
    broadcast use vstd::seq_lib::group_seq_lib_default;

    let len = s.unicode_len();
    let mut out = String::new();
    let mut i: usize = 0;
    while i < len
        invariant
            0 <= i <= len,
            len == s@.len(),
            out@ == s@.take(i as int).filter(|c: char| c != '\n'),
        decreases len - i,
    {
        let ghost prev = out@;
        if s.get_char(i) != '\n' {
            let piece = s.substring_char(i, i + 1);
            out.append(piece);
            proof {
                assert(piece@ =~= seq![s@[i as int]]);
            }
        }
        proof {
            let p = |c: char| c != '\n';
            assert(s@.take(i + 1) =~= s@.take(i as int) + seq![s@[i as int]]);
            Seq::filter_distributes_over_add(s@.take(i as int), seq![s@[i as int]], p);
            reveal_with_fuel(Seq::filter, 2);
            assert(seq![s@[i as int]].drop_last() =~= Seq::<char>::empty());
            if p(s@[i as int]) {
                assert(seq![s@[i as int]].filter(p) =~= seq![s@[i as int]]);
            } else {
                assert(seq![s@[i as int]].filter(p) =~= Seq::<char>::empty());
            }
            assert(out@ =~= s@.take(i + 1).filter(p));
        }
        i = i + 1;
    }
    proof {
        assert(s@.take(len as int) =~= s@);
    }
    out
}

/// The character for one decimal digit.
pub open spec fn digit_char(d: int) -> char {
    if d == 0 {
        '0'
    } else if d == 1 {
        '1'
    } else if d == 2 {
        '2'
    } else if d == 3 {
        '3'
    } else if d == 4 {
        '4'
    } else if d == 5 {
        '5'
    } else if d == 6 {
        '6'
    } else if d == 7 {
        '7'
    } else if d == 8 {
        '8'
    } else {
        '9'
    }
}

/// The decimal rendering of `n`, most significant digit first.
pub open spec fn dec_digits(n: nat) -> Seq<char>
    decreases n,
{
    if n < 10 {
        seq![digit_char(n as int)]
    } else {
        dec_digits(n / 10) + seq![digit_char((n % 10) as int)]
    }
}

/// The one-character string for a decimal digit.
fn digit_str(d: u64) -> (r: &'static str)
    requires
        d < 10,
    ensures
        r@ =~= seq![digit_char(d as int)],
{
    proof {
        reveal_strlit("0");
        reveal_strlit("1");
        reveal_strlit("2");
        reveal_strlit("3");
        reveal_strlit("4");
        reveal_strlit("5");
        reveal_strlit("6");
        reveal_strlit("7");
        reveal_strlit("8");
        reveal_strlit("9");
    }
    match d {
        0 => "0",
        1 => "1",
        2 => "2",
        3 => "3",
        4 => "4",
        5 => "5",
        6 => "6",
        7 => "7",
        8 => "8",
        _ => "9",
    }
}

/// Append the decimal rendering of `n` to `out`.
pub fn push_decimal(n: u64, out: &mut String)
    ensures
        final(out)@ == old(out)@ + dec_digits(n as nat),
    decreases n,
{
    if n >= 10 {
        push_decimal(n / 10, out);
    }
    out.append(digit_str(n % 10));
    proof {
        if n < 10 {
            assert(old(out)@ + seq![digit_char((n % 10) as int)] =~= old(out)@ + dec_digits(
                n as nat,
            ));
        } else {
            assert(old(out)@ + dec_digits((n / 10) as nat) + seq![digit_char((n % 10) as int)]
                =~= old(out)@ + dec_digits(n as nat));
        }
    }
}

/// The decimal rendering of `n` as a fresh string.
pub fn decimal_string(n: u64) -> (r: String)
    ensures
        r@ == dec_digits(n as nat),
{
    let mut out = String::new();
    push_decimal(n, &mut out);
    proof {
        assert(Seq::<char>::empty() + dec_digits(n as nat) =~= dec_digits(n as nat));
    }
    out
}

} // verus!
