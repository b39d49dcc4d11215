//! Text utilities of the gateway: exact string comparison, whitespace
//! trimming of file contents, whitespace splitting of the fan-curve data
//! line, and message concatenation.

use vstd::prelude::*;
use crate::chars::{is_space, space};

verus! {

/// Decides exact, byte-for-byte (character-for-character) equality of two
/// strings. The registry check rests on this being exact: nothing shorter,
/// longer or differently cased compares equal.
pub fn str_eq(a: &str, b: &str) -> (r: bool)
    ensures
        r == (a@ == b@),
{
    let na = a.unicode_len();
    let nb = b.unicode_len();
    if na != nb {
        return false;
    }
    let mut i: usize = 0;
    while i < na
        invariant
            0 <= i <= na,
            na == a@.len(),
            na == b@.len(),
            forall|k: int| 0 <= k < i ==> a@[k] == b@[k],
        decreases na - i,
    {
        if a.get_char(i) != b.get_char(i) {
            return false;
        }
        i = i + 1;
    }
    proof {
        assert(a@ =~= b@);
    }
    true
}

/// The number of leading whitespace characters of `s`.
pub open spec fn ws_prefix(s: Seq<char>) -> nat
    decreases s.len(),
{
    if s.len() == 0 || !is_space(s[0]) {
        0
    } else {
        1 + ws_prefix(s.drop_first())
    }
}

/// The number of trailing whitespace characters of `s`.
pub open spec fn ws_suffix(s: Seq<char>) -> nat
    decreases s.len(),
{
    if s.len() == 0 || !is_space(s.last()) {
        0
    } else {
        1 + ws_suffix(s.drop_last())
    }
}

/// `s` with surrounding whitespace removed.
pub open spec fn trim_spec(s: Seq<char>) -> Seq<char> {
    if ws_prefix(s) == s.len() {
        Seq::empty()
    } else {
        s.subrange(ws_prefix(s) as int, s.len() - ws_suffix(s))
    }
}

/// The leading-whitespace count is the first non-whitespace position:
/// everything before it is whitespace, and the character there, if any,
/// is not.
proof fn lemma_ws_prefix_character(s: Seq<char>)
    ensures
        ws_prefix(s) <= s.len(),
        forall|k: int| 0 <= k < ws_prefix(s) ==> is_space(#[trigger] s[k]),
        ws_prefix(s) < s.len() ==> !is_space(s[ws_prefix(s) as int]),
    decreases s.len(),
{
    if s.len() > 0 && is_space(s[0]) {
        lemma_ws_prefix_character(s.drop_first());
        assert forall|k: int| 0 <= k < ws_prefix(s) implies is_space(#[trigger] s[k]) by {
            if k > 0 {
                assert(s.drop_first()[k - 1] == s[k]);
            }
        }
        if ws_prefix(s) < s.len() {
            assert(s.drop_first()[ws_prefix(s) - 1] == s[ws_prefix(s) as int]);
        }
    }
}

/// The trailing-whitespace count is, from the end, the first
/// non-whitespace position.
proof fn lemma_ws_suffix_character(s: Seq<char>)
    ensures
        ws_suffix(s) <= s.len(),
        forall|k: int| s.len() - ws_suffix(s) <= k < s.len() ==> is_space(#[trigger] s[k]),
        ws_suffix(s) < s.len() ==> !is_space(s[s.len() - ws_suffix(s) - 1]),
    decreases s.len(),
{
    if s.len() > 0 && is_space(s.last()) {
        lemma_ws_suffix_character(s.drop_last());
        assert forall|k: int| s.len() - ws_suffix(s) <= k < s.len() implies is_space(
            #[trigger] s[k],
        ) by {
            if k < s.len() - 1 {
                assert(s.drop_last()[k] == s[k]);
            }
        }
        if ws_suffix(s) < s.len() {
            assert(s.drop_last()[s.len() - ws_suffix(s) - 1] == s[s.len() - ws_suffix(s) - 1]);
        }
    }
}

/// A prefix count given by its characterization equals `ws_prefix`.
proof fn lemma_ws_prefix_unique(s: Seq<char>, p: int)
    requires
        0 <= p <= s.len(),
        forall|k: int| 0 <= k < p ==> is_space(#[trigger] s[k]),
        p < s.len() ==> !is_space(s[p]),
    ensures
        ws_prefix(s) == p,
{
    lemma_ws_prefix_character(s);
    if ws_prefix(s) < p {
        assert(is_space(s[ws_prefix(s) as int]));
    }
    if p < ws_prefix(s) {
        assert(is_space(s[p]));
    }
}

/// A suffix count given by its characterization equals `ws_suffix`.
proof fn lemma_ws_suffix_unique(s: Seq<char>, q: int)
    requires
        0 <= q <= s.len(),
        forall|k: int| s.len() - q <= k < s.len() ==> is_space(#[trigger] s[k]),
        q < s.len() ==> !is_space(s[s.len() - q - 1]),
    ensures
        ws_suffix(s) == q,
{
    lemma_ws_suffix_character(s);
    if ws_suffix(s) < q {
        assert(is_space(s[s.len() - ws_suffix(s) - 1]));
    }
    if q < ws_suffix(s) {
        assert(is_space(s[s.len() - q - 1]));
    }
}

/// Removes surrounding whitespace, as a read of a control file does
/// before its content is reported.
pub fn trim_str(s: &str) -> (r: String)
    ensures
        r@ == trim_spec(s@),
{
    let n = s.unicode_len();
    let mut a: usize = 0;
    while a < n && space(s.get_char(a))
        invariant
            0 <= a <= n,
            n == s@.len(),
            forall|k: int| 0 <= k < a ==> is_space(#[trigger] s@[k]),
        decreases n - a,
    {
        a = a + 1;
    }
    if a == n {
        proof {
            lemma_ws_prefix_unique(s@, n as int);
        }
        let r = String::new();
        return r;
    }
    proof {
        lemma_ws_prefix_unique(s@, a as int);
    }
    let mut b: usize = n;
    while b > a && space(s.get_char(b - 1))
        invariant
            a <= b <= n,
            n == s@.len(),
            a == ws_prefix(s@) < n,
            forall|k: int| b <= k < n ==> is_space(#[trigger] s@[k]),
        decreases b,
    {
        b = b - 1;
    }
    proof {
        if b == a {
            // the character at `a` is not whitespace, so the scan from the
            // right stops strictly after it
            assert(!is_space(s@[a as int]));
            lemma_ws_prefix_character(s@);
        }
        lemma_ws_suffix_unique(s@, n - b);
    }
    let piece = s.substring_char(a, b);
    piece.to_owned()
}

/// One step of the whitespace tokenizer: fold the next character into
/// the finished tokens and the token being built.
pub open spec fn split_step(acc: (Seq<Seq<char>>, Seq<char>), c: char) -> (Seq<Seq<char>>, Seq<
    char,
>) {
    if is_space(c) {
        if acc.1.len() > 0 {
            (acc.0.push(acc.1), Seq::empty())
        } else {
            acc
        }
    } else {
        (acc.0, acc.1.push(c))
    }
}

/// The tokenizer's state after reading all of `s`: the finished tokens
/// and the still-open token.
pub open spec fn split_scan(s: Seq<char>) -> (Seq<Seq<char>>, Seq<char>)
    decreases s.len(),
{
    if s.len() == 0 {
        (Seq::empty(), Seq::empty())
    } else {
        split_step(split_scan(s.drop_last()), s.last())
    }
}

/// The whitespace-separated tokens of `s`, as `str::split_whitespace`
/// yields them: maximal runs of non-whitespace characters, in order.
pub open spec fn split_ws(s: Seq<char>) -> Seq<Seq<char>> {
    let st = split_scan(s);
    if st.1.len() > 0 {
        st.0.push(st.1)
    } else {
        st.0
    }
}

/// Splits a string at whitespace into its tokens.
pub fn split_whitespace_tokens(s: &str) -> (r: Vec<String>)
    ensures
        r.deep_view() == split_ws(s@),
{
    let n = s.unicode_len();
    let mut toks: Vec<String> = Vec::new();
    let mut cur_start: usize = 0;
    let mut cur_len: usize = 0;
    let mut i: usize = 0;
    while i < n
        invariant
            0 <= i <= n,
            n == s@.len(),
            cur_start + cur_len == i,
            cur_len <= i,
            toks.deep_view() == split_scan(s@.subrange(0, i as int)).0,
            split_scan(s@.subrange(0, i as int)).1 == s@.subrange(
                cur_start as int,
                cur_start + cur_len,
            ),
        decreases n - i,
    {
        let ghost pre = s@.subrange(0, i as int);
        let c = s.get_char(i);
        proof {
            assert(s@.subrange(0, i + 1).drop_last() =~= pre);
            assert(s@.subrange(0, i + 1).last() == s@[i as int]);
        }
        if space(c) {
            if cur_len > 0 {
                let piece = s.substring_char(cur_start, cur_start + cur_len);
                let owned = piece.to_owned();
                toks.push(owned);
                proof {
                    assert(toks.deep_view() =~= split_scan(s@.subrange(0, i + 1)).0);
                }
            }
            cur_start = i + 1;
            cur_len = 0;
            proof {
                assert(split_scan(s@.subrange(0, i + 1)).1 =~= s@.subrange(
                    cur_start as int,
                    cur_start + cur_len,
                ));
            }
        } else {
            cur_len = cur_len + 1;
            proof {
                assert(split_scan(s@.subrange(0, i + 1)).1 =~= s@.subrange(
                    cur_start as int,
                    cur_start + cur_len,
                ));
            }
        }
        i = i + 1;
    }
    proof {
        assert(s@.subrange(0, n as int) =~= s@);
    }
    if cur_len > 0 {
        let piece = s.substring_char(cur_start, cur_start + cur_len);
        let owned = piece.to_owned();
        toks.push(owned);
        proof {
            assert(toks.deep_view() =~= split_ws(s@));
        }
    }
    toks
}

/// Relies on `String::push_str`: appends the characters of the suffix to
/// the string, changing nothing else.
#[verifier::external_body]
pub fn append_str(s: &mut String, t: &str)
    ensures
        final(s)@ == old(s)@ + t@,
{
    s.push_str(t);
}

/// The concatenation of two strings, used to assemble diagnostic lines.
pub fn concat_str(a: &str, b: &str) -> (r: String)
    ensures
        r@ == a@ + b@,
{
    let mut r = a.to_owned();
    append_str(&mut r, b);
    r
}

} // verus!
