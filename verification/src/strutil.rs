//! Verified string utilities: splitting, joining, trimming and searching
//! over `&str` / `String`, each specified against a spec-level function on
//! `Seq<char>`.

use vstd::prelude::*;
use vstd::string::StrSliceExecFns;
use vstd::string::StringExecFns;

verus! {

/// What `char::is_whitespace` returns; the result depends on the character
/// alone.
pub uninterp spec fn spec_char_is_whitespace(c: char) -> bool;

/// Relies on `char::is_whitespace`.  The listed concrete cases follow
/// plainly from the Unicode white-space property it tests.
#[verifier::external_body]
pub fn char_is_whitespace(c: char) -> (r: bool)
    ensures
        r == spec_char_is_whitespace(c),
        c == ' ' || c == '\n' || c == '\t' || c == '\r' ==> r,
        ('a' <= c && c <= 'z') || ('A' <= c && c <= 'Z') || ('0' <= c && c <= '9') ==> !r,
        c == '/' || c == '.' || c == '_' || c == '-' || c == ':' || c == '^' || c == '{'
            || c == '}' ==> !r,
{
    c.is_whitespace()
}

/// `String::push` appends one character.
pub assume_specification[ String::push ](s: &mut String, c: char)
    ensures
        final(s)@ == old(s)@.push(c),
;

/// The views of a sequence of owned strings.
pub open spec fn seq_views(v: Seq<String>) -> Seq<Seq<char>> {
    v.map_values(|t: String| t@)
}

/// Splitting on a separator character; the result always has at least one
/// piece, pieces may be empty, and the separator stands in no piece.
pub open spec fn spec_split(s: Seq<char>, sep: char) -> Seq<Seq<char>>
    decreases s.len(),
{
    if s.len() == 0 {
        seq![Seq::<char>::empty()]
    } else if s[0] == sep {
        seq![Seq::<char>::empty()] + spec_split(s.drop_first(), sep)
    } else {
        let rest = spec_split(s.drop_first(), sep);
        seq![seq![s[0]] + rest[0]] + rest.drop_first()
    }
}

pub proof fn lemma_split_nonempty(s: Seq<char>, sep: char)
    ensures
        spec_split(s, sep).len() >= 1,
    decreases s.len(),
{
    if s.len() == 0 {
    } else {
        lemma_split_nonempty(s.drop_first(), sep);
    }
}

pub proof fn lemma_split_no_sep(s: Seq<char>, sep: char)
    ensures
        forall|i: int|
            0 <= i < spec_split(s, sep).len() ==> !(#[trigger] spec_split(s, sep)[i]).contains(sep),
    decreases s.len(),
{
    if s.len() == 0 {
    } else {
        lemma_split_no_sep(s.drop_first(), sep);
        if s[0] == sep {
        } else {
            let rest = spec_split(s.drop_first(), sep);
            lemma_split_nonempty(s.drop_first(), sep);
            assert forall|i: int|
                0 <= i < spec_split(s, sep).len() implies !(#[trigger] spec_split(s, sep)[i])
                .contains(sep) by {
                if i == 0 {
                    assert(!rest[0].contains(sep));
                    assert forall|k: int|
                        0 <= k < (seq![s[0]] + rest[0]).len() implies (seq![s[0]] + rest[0])[k]
                        != sep by {
                        if k > 0 {
                            assert(rest[0][k - 1] != sep);
                        }
                    }
                } else {
                    assert(spec_split(s, sep)[i] == rest[i]);
                }
            }
        }
    }
}

/// Joining pieces with a separator character.
pub open spec fn spec_join(parts: Seq<Seq<char>>, sep: char) -> Seq<char>
    decreases parts.len(),
{
    if parts.len() == 0 {
        Seq::<char>::empty()
    } else if parts.len() == 1 {
        parts[0]
    } else {
        parts[0] + seq![sep] + spec_join(parts.drop_first(), sep)
    }
}

/// Trailing whitespace removed.
pub open spec fn spec_trim_end(s: Seq<char>) -> Seq<char>
    decreases s.len(),
{
    if s.len() == 0 {
        s
    } else if spec_char_is_whitespace(s.last()) {
        spec_trim_end(s.drop_last())
    } else {
        s
    }
}

/// Leading whitespace removed.
pub open spec fn spec_trim_start(s: Seq<char>) -> Seq<char>
    decreases s.len(),
{
    if s.len() == 0 {
        s
    } else if spec_char_is_whitespace(s[0]) {
        spec_trim_start(s.drop_first())
    } else {
        s
    }
}

/// Leading and trailing whitespace removed.
pub open spec fn spec_trim(s: Seq<char>) -> Seq<char> {
    spec_trim_start(spec_trim_end(s))
}

/// Splitting on whitespace runs: the maximal whitespace-free, nonempty
/// pieces, in order.
pub open spec fn spec_split_ws(s: Seq<char>) -> Seq<Seq<char>>
    decreases s.len(),
{
    if s.len() == 0 {
        Seq::<Seq<char>>::empty()
    } else if spec_char_is_whitespace(s[0]) {
        spec_split_ws(s.drop_first())
    } else if s.len() == 1 || spec_char_is_whitespace(s[1]) {
        seq![seq![s[0]]] + spec_split_ws(s.drop_first())
    } else {
        let rest = spec_split_ws(s.drop_first());
        seq![seq![s[0]] + rest[0]] + rest.drop_first()
    }
}

pub proof fn lemma_split_ws_nonempty(s: Seq<char>)
    requires
        s.len() > 0,
        !spec_char_is_whitespace(s[0]),
    ensures
        spec_split_ws(s).len() >= 1,
    decreases s.len(),
{
    if s.len() == 1 || spec_char_is_whitespace(s[1]) {
    } else {
        lemma_split_ws_nonempty(s.drop_first());
    }
}

/// Whether `sub` occurs contiguously inside `s`.
pub open spec fn spec_contains_sub(s: Seq<char>, sub: Seq<char>) -> bool {
    exists|i: int| 0 <= i && i + sub.len() <= s.len() && #[trigger] s.subrange(i, i + sub.len())
        == sub
}

/// A single owned character.
pub fn string_of_char(c: char) -> (r: String)
    ensures
        r@ == seq![c],
{
    let mut r = String::new();
    r.push(c);
    proof {
        assert(r@ =~= seq![c]);
    }
    r
}

/// Character-wise equality of two string slices.
pub fn str_eq(a: &str, b: &str) -> (r: bool)
    ensures
        r == (a@ == b@),
{
    let alen = a.unicode_len();
    let blen = b.unicode_len();
    if alen != blen {
        return false;
    }
    let mut i: usize = 0;
    while i < alen
        invariant
            alen == a@.len(),
            blen == b@.len(),
            alen == blen,
            i <= alen,
            forall|j: int| 0 <= j < i ==> a@[j] == b@[j],
        decreases alen - i,
    {
        if a.get_char(i) != b.get_char(i) {
            return false;
        }
        i = i + 1;
    }
    proof {
        assert(a@ =~= b@);
    }
    true
}

/// Lexicographic order on character sequences: the first differing
/// character decides, a prefix comes first.
pub open spec fn spec_str_le(a: Seq<char>, b: Seq<char>) -> bool
    decreases a.len(),
{
    if a.len() == 0 {
        true
    } else if b.len() == 0 {
        false
    } else if a[0] != b[0] {
        a[0] < b[0]
    } else {
        spec_str_le(a.drop_first(), b.drop_first())
    }
}

/// Whether `a` comes before `b` (or equals it) lexicographically.
pub fn str_le(a: &str, b: &str) -> (r: bool)
    ensures
        r == spec_str_le(a@, b@),
    decreases a@.len(),
{
    let alen = a.unicode_len();
    let blen = b.unicode_len();
    if alen == 0 {
        true
    } else if blen == 0 {
        false
    } else {
        let ca = a.get_char(0);
        let cb = b.get_char(0);
        if ca != cb {
            ca < cb
        } else {
            let ta = a.substring_char(1, alen);
            let tb = b.substring_char(1, blen);
            proof {
                assert(ta@ =~= a@.drop_first());
                assert(tb@ =~= b@.drop_first());
            }
            str_le(ta, tb)
        }
    }
}

/// Splits `s` on the separator character.
pub fn split_char(s: &str, sep: char) -> (r: Vec<String>)
    ensures
        seq_views(r@) == spec_split(s@, sep),
    decreases s@.len(),
{
    let len = s.unicode_len();
    if len == 0 {
        let mut r: Vec<String> = Vec::new();
        r.push(String::new());
        proof {
            assert(seq_views(r@) =~= spec_split(s@, sep));
        }
        r
    } else {
        let c = s.get_char(0);
        let rest = s.substring_char(1, len);
        proof {
            assert(rest@ =~= s@.drop_first());
        }
        let mut r = split_char(rest, sep);
        proof {
            lemma_split_nonempty(rest@, sep);
        }
        if c == sep {
            r.insert(0, String::new());
            proof {
                assert(seq_views(r@) =~= spec_split(s@, sep));
            }
            r
        } else {
            let first = r.remove(0);
            let mut nf = string_of_char(c);
            nf.append(first.as_str());
            r.insert(0, nf);
            proof {
                assert(seq_views(r@) =~= spec_split(s@, sep));
            }
            r
        }
    }
}

fn join_rest(parts: &Vec<String>, i: usize, sep: char) -> (r: String)
    requires
        i <= parts@.len(),
    ensures
        r@ == spec_join(seq_views(parts@).skip(i as int), sep),
    decreases parts@.len() - i,
{
    if i == parts.len() {
        let r = String::new();
        proof {
            assert(r@ =~= spec_join(seq_views(parts@).skip(i as int), sep));
        }
        r
    } else if i + 1 == parts.len() {
        let r = parts[i].clone();
        proof {
            assert(seq_views(parts@).skip(i as int) =~= seq![parts@[i as int]@]);
        }
        r
    } else {
        let mut r = parts[i].clone();
        r.push(sep);
        let tail = join_rest(parts, i + 1, sep);
        r.append(tail.as_str());
        proof {
            assert(seq_views(parts@).skip(i as int).drop_first() =~= seq_views(parts@).skip(
                i as int + 1,
            ));
            assert(r@ =~= spec_join(seq_views(parts@).skip(i as int), sep));
        }
        r
    }
}

/// Joins the parts with the separator character.
pub fn join_char(parts: &Vec<String>, sep: char) -> (r: String)
    ensures
        r@ == spec_join(seq_views(parts@), sep),
{
    let r = join_rest(parts, 0, sep);
    proof {
        assert(seq_views(parts@).skip(0) =~= seq_views(parts@));
    }
    r
}

/// Removes trailing whitespace.
pub fn trim_end_ws(s: &str) -> (r: String)
    ensures
        r@ == spec_trim_end(s@),
{
    let len = s.unicode_len();
    let mut end: usize = len;
    proof {
        assert(s@.take(len as int) =~= s@);
    }
    loop
        invariant_except_break
            end <= len,
            len == s@.len(),
            spec_trim_end(s@) == spec_trim_end(s@.take(end as int)),
        ensures
            end <= len,
            len == s@.len(),
            spec_trim_end(s@) == spec_trim_end(s@.take(end as int)),
            end == 0 || !spec_char_is_whitespace(s@[end as int - 1]),
        decreases end,
    {
        if end == 0 {
            break;
        }
        let c = s.get_char(end - 1);
        if !char_is_whitespace(c) {
            break;
        }
        proof {
            assert(s@.take(end as int).drop_last() =~= s@.take(end as int - 1));
        }
        end = end - 1;
    }
    proof {
        if end > 0 {
            assert(s@.take(end as int).last() == s@[end as int - 1]);
        }
        assert(spec_trim_end(s@.take(end as int)) == s@.take(end as int));
    }
    let r = s.substring_char(0, end);
    proof {
        assert(r@ =~= s@.take(end as int));
    }
    r.to_owned()
}

/// Removes leading and trailing whitespace.
pub fn trim_ws(s: &str) -> (r: String)
    ensures
        r@ == spec_trim(s@),
{
    let e = trim_end_ws(s);
    let len = e.as_str().unicode_len();
    let mut start: usize = 0;
    proof {
        assert(e@.skip(0) =~= e@);
    }
    loop
        invariant_except_break
            start <= len,
            len == e@.len(),
            spec_trim_start(e@) == spec_trim_start(e@.skip(start as int)),
        ensures
            start <= len,
            len == e@.len(),
            spec_trim_start(e@) == spec_trim_start(e@.skip(start as int)),
            start == len || !spec_char_is_whitespace(e@[start as int]),
        decreases len - start,
    {
        if start == len {
            break;
        }
        let c = e.as_str().get_char(start);
        if !char_is_whitespace(c) {
            break;
        }
        proof {
            assert(e@.skip(start as int).drop_first() =~= e@.skip(start as int + 1));
            assert(e@.skip(start as int)[0] == e@[start as int]);
        }
        start = start + 1;
    }
    proof {
        if start < len {
            assert(e@.skip(start as int)[0] == e@[start as int]);
        } else {
            assert(e@.skip(start as int) =~= Seq::<char>::empty());
        }
        assert(spec_trim_start(e@.skip(start as int)) == e@.skip(start as int));
    }
    let r = e.as_str().substring_char(start, len);
    proof {
        assert(r@ =~= e@.skip(start as int));
    }
    r.to_owned()
}

/// Whether `p` is a prefix of `s`.
pub fn has_prefix(s: &str, p: &str) -> (r: bool)
    ensures
        r == p@.is_prefix_of(s@),
{
    let plen = p.unicode_len();
    if plen > s.unicode_len() {
        return false;
    }
    str_eq(s.substring_char(0, plen), p)
}

/// Whether `p` is a suffix of `s`.
pub fn has_suffix(s: &str, p: &str) -> (r: bool)
    ensures
        r == p@.is_suffix_of(s@),
{
    let plen = p.unicode_len();
    let slen = s.unicode_len();
    if plen > slen {
        return false;
    }
    str_eq(s.substring_char(slen - plen, slen), p)
}

/// The rest of `s` after the prefix `p`, when `p` is a prefix.
pub fn strip_prefix_str(s: &str, p: &str) -> (r: Option<String>)
    ensures
        match r {
            Some(t) => p@.is_prefix_of(s@) && t@ == s@.skip(p@.len() as int),
            None => !p@.is_prefix_of(s@),
        },
{
    if has_prefix(s, p) {
        let t = s.substring_char(p.unicode_len(), s.unicode_len());
        proof {
            assert(t@ =~= s@.skip(p@.len() as int));
        }
        Some(t.to_owned())
    } else {
        None
    }
}

/// `s` with one trailing `c` removed, when one stands there.
pub fn strip_trailing(s: &str, c: char) -> (r: String)
    ensures
        r@ == if s@.len() > 0 && s@.last() == c {
            s@.drop_last()
        } else {
            s@
        },
{
    let len = s.unicode_len();
    if len > 0 && s.get_char(len - 1) == c {
        let t = s.substring_char(0, len - 1);
        proof {
            assert(t@ =~= s@.drop_last());
        }
        t.to_owned()
    } else {
        s.to_owned()
    }
}

/// Whether `sub` occurs contiguously inside `s`.
pub fn contains_sub(s: &str, sub: &str) -> (r: bool)
    ensures
        r == spec_contains_sub(s@, sub@),
{
    let slen = s.unicode_len();
    let sublen = sub.unicode_len();
    if sublen > slen {
        proof {
            assert(!spec_contains_sub(s@, sub@));
        }
        return false;
    }
    let mut i: usize = 0;
    loop
        invariant_except_break
            sublen <= slen,
            slen == s@.len(),
            sublen == sub@.len(),
            i <= slen - sublen,
            forall|j: int|
                0 <= j < i ==> #[trigger] s@.subrange(j, j + sub@.len() as int) != sub@,
        ensures
            forall|k: int|
                0 <= k && k + sub@.len() <= s@.len() ==> #[trigger] s@.subrange(
                    k,
                    k + sub@.len() as int,
                ) != sub@,
        decreases slen - i,
    {
        if str_eq(s.substring_char(i, i + sublen), sub) {
            proof {
                assert(s@.subrange(i as int, i as int + sub@.len() as int) == sub@);
            }
            return true;
        }
        if i == slen - sublen {
            proof {
                assert forall|k: int| 0 <= k && k + sub@.len() <= s@.len() implies #[trigger] s@
                    .subrange(k, k + sub@.len() as int) != sub@ by {
                    assert(k <= i);
                }
            }
            break;
        }
        i = i + 1;
    }
    false
}

/// View-level equality of two vectors of strings.
pub fn string_vecs_eq(a: &Vec<String>, b: &Vec<String>) -> (r: bool)
    ensures
        r == (seq_views(a@) == seq_views(b@)),
{
    if a.len() != b.len() {
        proof {
            assert(seq_views(a@).len() != seq_views(b@).len());
        }
        return false;
    }
    let mut i: usize = 0;
    while i < a.len()
        invariant
            a@.len() == b@.len(),
            i <= a@.len(),
            forall|j: int| 0 <= j < i ==> seq_views(a@)[j] == seq_views(b@)[j],
        decreases a@.len() - i,
    {
        if !str_eq(a[i].as_str(), b[i].as_str()) {
            proof {
                assert(seq_views(a@)[i as int] != seq_views(b@)[i as int]);
            }
            return false;
        }
        i = i + 1;
    }
    proof {
        assert(seq_views(a@) =~= seq_views(b@));
    }
    true
}

/// A copy of a vector of strings whose view is the same.
pub fn string_vec_dup(v: &Vec<String>) -> (r: Vec<String>)
    ensures
        seq_views(r@) == seq_views(v@),
{
    let mut r: Vec<String> = Vec::new();
    let mut i: usize = 0;
    while i < v.len()
        invariant
            i <= v@.len(),
            r@.len() == i,
            forall|j: int| 0 <= j < i ==> seq_views(r@)[j] == seq_views(v@)[j],
        decreases v@.len() - i,
    {
        r.push(v[i].clone());
        i = i + 1;
    }
    proof {
        assert(seq_views(r@) =~= seq_views(v@));
    }
    r
}

/// Splits `s` into its maximal whitespace-free pieces.
pub fn split_whitespace_parts(s: &str) -> (r: Vec<String>)
    ensures
        seq_views(r@) == spec_split_ws(s@),
    decreases s@.len(),
{
    let len = s.unicode_len();
    if len == 0 {
        let r: Vec<String> = Vec::new();
        proof {
            assert(seq_views(r@) =~= spec_split_ws(s@));
        }
        r
    } else {
        let c = s.get_char(0);
        let rest = s.substring_char(1, len);
        proof {
            assert(rest@ =~= s@.drop_first());
        }
        let mut r = split_whitespace_parts(rest);
        if char_is_whitespace(c) {
            r
        } else if len == 1 || char_is_whitespace(s.get_char(1)) {
            r.insert(0, string_of_char(c));
            proof {
                assert(seq_views(r@) =~= spec_split_ws(s@));
            }
            r
        } else {
            proof {
                assert(rest@[0] == s@[1]);
                lemma_split_ws_nonempty(rest@);
            }
            let first = r.remove(0);
            let mut nf = string_of_char(c);
            nf.append(first.as_str());
            r.insert(0, nf);
            proof {
                assert(seq_views(r@) =~= spec_split_ws(s@));
            }
            r
        }
    }
}

} // verus!
