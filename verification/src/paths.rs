//! A plain model of UTF-8 filesystem paths.
//!
//! An absolute path is a sequence of plain segments anchored at the root;
//! a relative path is a normalized sequence of segments in which `.` has
//! been dropped and `..` resolved as far as possible, so only a leading
//! run of `..` remains.  All resolution logic works on these two types;
//! rendering to strings and parsing from strings happen at the boundary.

use vstd::prelude::*;
use vstd::string::StrSliceExecFns;
use vstd::string::StringExecFns;

use crate::strutil::lemma_split_no_sep;
use crate::strutil::seq_views;
use crate::strutil::spec_join;
use crate::strutil::spec_split;
use crate::strutil::split_char;
use crate::strutil::str_eq;
use crate::strutil::string_of_char;
use crate::strutil::string_vec_dup;
use crate::strutil::string_vecs_eq;
use crate::strutil::join_char;

verus! {

/// The `.` segment.
pub open spec fn dot() -> Seq<char> {
    seq!['.']
}

/// The `..` segment.
pub open spec fn dotdot() -> Seq<char> {
    seq!['.', '.']
}

/// A usable path segment: nonempty, separator-free and not `.`.
pub open spec fn wf_seg(s: Seq<char>) -> bool {
    s.len() > 0 && !s.contains('/') && s != dot()
}

/// A normalized relative path: usable segments with every `..` leading.
pub open spec fn rel_wf(v: Seq<Seq<char>>) -> bool {
    (forall|i: int| 0 <= i < v.len() ==> wf_seg(#[trigger] v[i])) && (forall|i: int, j: int|
        0 <= i < j < v.len() && v[j] == dotdot() ==> v[i] == dotdot())
}

/// One normalization step of a relative path: `.` and empty segments are
/// dropped, `..` removes a preceding plain segment or is kept in front.
pub open spec fn spec_push_rel(acc: Seq<Seq<char>>, seg: Seq<char>) -> Seq<Seq<char>> {
    if seg.len() == 0 || seg == dot() {
        acc
    } else if seg == dotdot() {
        if acc.len() > 0 && acc.last() != dotdot() {
            acc.drop_last()
        } else {
            acc.push(dotdot())
        }
    } else {
        acc.push(seg)
    }
}

/// One normalization step at an absolute anchor: `..` at the root is
/// dropped rather than kept.
pub open spec fn spec_push_abs(acc: Seq<Seq<char>>, seg: Seq<char>) -> Seq<Seq<char>> {
    if seg.len() == 0 || seg == dot() {
        acc
    } else if seg == dotdot() {
        if acc.len() > 0 {
            acc.drop_last()
        } else {
            acc
        }
    } else {
        acc.push(seg)
    }
}

pub open spec fn spec_fold_rel(acc: Seq<Seq<char>>, parts: Seq<Seq<char>>) -> Seq<Seq<char>>
    decreases parts.len(),
{
    if parts.len() == 0 {
        acc
    } else {
        spec_push_rel(spec_fold_rel(acc, parts.drop_last()), parts.last())
    }
}

pub open spec fn spec_fold_abs(acc: Seq<Seq<char>>, parts: Seq<Seq<char>>) -> Seq<Seq<char>>
    decreases parts.len(),
{
    if parts.len() == 0 {
        acc
    } else {
        spec_push_abs(spec_fold_abs(acc, parts.drop_last()), parts.last())
    }
}

/// The segments a relative path string normalizes to.
pub open spec fn spec_rel_of(s: Seq<char>) -> Seq<Seq<char>> {
    spec_fold_rel(Seq::empty(), spec_split(s, '/'))
}

/// The segments an absolute path string (leading `/` already removed)
/// normalizes to.
pub open spec fn spec_abs_of_tail(tail: Seq<char>) -> Seq<Seq<char>> {
    spec_fold_abs(Seq::empty(), spec_split(tail, '/'))
}

/// Rendering of an absolute path.
pub open spec fn spec_abs_str(v: Seq<Seq<char>>) -> Seq<char> {
    seq!['/'] + spec_join(v, '/')
}

/// A normalized relative path.
#[derive(Debug)]
pub struct RelPath {
    segs: Vec<String>,
}

impl View for RelPath {
    type V = Seq<Seq<char>>;

    closed spec fn view(&self) -> Seq<Seq<char>> {
        seq_views(self.segs@)
    }
}

/// An absolute path.
#[derive(Debug)]
pub struct AbsPath {
    segs: Vec<String>,
}

impl View for AbsPath {
    type V = Seq<Seq<char>>;

    closed spec fn view(&self) -> Seq<Seq<char>> {
        seq_views(self.segs@)
    }
}

proof fn lemma_push_rel_wf(acc: Seq<Seq<char>>, seg: Seq<char>)
    requires
        rel_wf(acc),
        !seg.contains('/'),
    ensures
        rel_wf(spec_push_rel(acc, seg)),
{
    let r = spec_push_rel(acc, seg);
    if seg.len() == 0 || seg == dot() {
    } else if seg == dotdot() {
        if acc.len() > 0 && acc.last() != dotdot() {
            assert forall|i: int, j: int|
                0 <= i < j < r.len() && r[j] == dotdot() implies r[i] == dotdot() by {
                assert(acc[j] == dotdot());
            }
        } else {
            assert(wf_seg(dotdot()));
            assert forall|i: int, j: int|
                0 <= i < j < r.len() && r[j] == dotdot() implies r[i] == dotdot() by {
                if j < acc.len() {
                    assert(acc[i] == dotdot());
                } else {
                    if i < acc.len() {
                        assert(acc.len() > 0 ==> acc.last() == dotdot());
                        if acc.len() > 0 {
                            assert(acc[acc.len() - 1] == dotdot());
                            if i < acc.len() - 1 {
                                assert(acc[i] == dotdot());
                            }
                        }
                    }
                }
            }
        }
    } else {
        assert(wf_seg(seg));
        assert forall|i: int, j: int|
            0 <= i < j < r.len() && r[j] == dotdot() implies r[i] == dotdot() by {
            assert(j < acc.len());
            assert(acc[j] == dotdot());
        }
    }
}

impl RelPath {
    /// The empty relative path.
    pub fn empty() -> (r: RelPath)
        ensures
            r@ == Seq::<Seq<char>>::empty(),
            r@.len() == 0,
    {
        let r = RelPath { segs: Vec::new() };
        proof {
            assert(r@ =~= Seq::<Seq<char>>::empty());
        }
        r
    }

    pub fn is_empty(&self) -> (r: bool)
        ensures
            r == (self@.len() == 0),
    {
        self.segs.len() == 0
    }

    /// A copy with the same view.
    pub fn dup(&self) -> (r: RelPath)
        ensures
            r@ == self@,
    {
        RelPath { segs: string_vec_dup(&self.segs) }
    }

    /// View-level equality.
    pub fn same(&self, other: &RelPath) -> (r: bool)
        ensures
            r == (self@ == other@),
    {
        string_vecs_eq(&self.segs, &other.segs)
    }

    /// Parses and normalizes a relative path string.
    pub fn parse(s: &str) -> (r: RelPath)
        ensures
            r@ == spec_rel_of(s@),
            rel_wf(r@),
    {
        let parts = split_char(s, '/');
        proof {
            lemma_split_no_sep(s@, '/');
        }
        let mut segs: Vec<String> = Vec::new();
        let mut i: usize = 0;
        proof {
            assert(seq_views(parts@).take(0) =~= Seq::<Seq<char>>::empty());
            assert(seq_views(segs@) =~= Seq::<Seq<char>>::empty());
        }
        while i < parts.len()
            invariant
                i <= parts@.len(),
                seq_views(parts@) == spec_split(s@, '/'),
                forall|k: int|
                    0 <= k < seq_views(parts@).len() ==> !(#[trigger] seq_views(parts@)[k])
                        .contains('/'),
                seq_views(segs@) == spec_fold_rel(
                    Seq::empty(),
                    seq_views(parts@).take(i as int),
                ),
                rel_wf(seq_views(segs@)),
            decreases parts@.len() - i,
        {
            proof {
                reveal_strlit(".");
                reveal_strlit("..");
                assert("."@ =~= dot());
                assert(".."@ =~= dotdot());
                assert(seq_views(parts@).take(i as int + 1).drop_last() =~= seq_views(
                    parts@,
                ).take(i as int));
                assert(seq_views(parts@).take(i as int + 1).last() == parts@[i as int]@);
                lemma_push_rel_wf(seq_views(segs@), parts@[i as int]@);
            }
            let p = &parts[i];
            if p.unicode_len() == 0 || str_eq(p.as_str(), ".") {
                // dropped
            } else if str_eq(p.as_str(), "..") {
                let keep = if segs.len() > 0 {
                    str_eq(segs[segs.len() - 1].as_str(), "..")
                } else {
                    true
                };
                if keep {
                    segs.push(p.clone());
                    proof {
                        assert(seq_views(segs@) =~~= spec_fold_rel(
                            Seq::empty(),
                            seq_views(parts@).take(i as int + 1),
                        ));
                    }
                } else {
                    segs.pop();
                    proof {
                        assert(seq_views(segs@) =~~= spec_fold_rel(
                            Seq::empty(),
                            seq_views(parts@).take(i as int + 1),
                        ));
                    }
                }
            } else {
                segs.push(p.clone());
                proof {
                    assert(seq_views(segs@) =~~= spec_fold_rel(
                        Seq::empty(),
                        seq_views(parts@).take(i as int + 1),
                    ));
                }
            }
            i = i + 1;
        }
        proof {
            assert(seq_views(parts@).take(parts@.len() as int) =~= seq_views(parts@));
        }
        RelPath { segs }
    }

    /// Renders the path with `/` separators; the empty path renders as the
    /// empty string.
    pub fn render(&self) -> (r: String)
        ensures
            r@ == spec_join(self@, '/'),
    {
        join_char(&self.segs, '/')
    }

    /// The concatenation `self` after `base`, normalized.
    pub fn concat(base: &RelPath, ext: &RelPath) -> (r: RelPath)
        ensures
            r@ == spec_fold_rel(base@, ext@),
    {
        let mut segs = string_vec_dup(&base.segs);
        let mut i: usize = 0;
        proof {
            assert(ext@.take(0) =~= Seq::<Seq<char>>::empty());
        }
        while i < ext.segs.len()
            invariant
                i <= ext.segs@.len(),
                seq_views(segs@) == spec_fold_rel(base@, ext@.take(i as int)),
            decreases ext.segs@.len() - i,
        {
            proof {
                reveal_strlit(".");
                reveal_strlit("..");
                assert("."@ =~= dot());
                assert(".."@ =~= dotdot());
                assert(ext@.take(i as int + 1).drop_last() =~= ext@.take(i as int));
                assert(ext@.take(i as int + 1).last() == ext.segs@[i as int]@);
            }
            push_rel_exec(&mut segs, &ext.segs[i]);
            proof {
                assert(seq_views(segs@) =~~= spec_fold_rel(base@, ext@.take(i as int + 1)));
            }
            i = i + 1;
        }
        proof {
            assert(ext@.take(ext@.len() as int) =~= ext@);
        }
        RelPath { segs }
    }
}

/// Applies one relative normalization step to an owned segment vector.
fn push_rel_exec(segs: &mut Vec<String>, seg: &String)
    ensures
        seq_views(final(segs)@) == spec_push_rel(seq_views(old(segs)@), seg@),
{
    proof {
        reveal_strlit(".");
        reveal_strlit("..");
        assert("."@ =~= dot());
        assert(".."@ =~= dotdot());
    }
    if seg.as_str().unicode_len() == 0 || str_eq(seg.as_str(), ".") {
        // dropped
    } else if str_eq(seg.as_str(), "..") {
        let keep = if segs.len() > 0 {
            str_eq(segs[segs.len() - 1].as_str(), "..")
        } else {
            true
        };
        if keep {
            segs.push(seg.clone());
            proof {
                assert(seq_views(segs@) =~~= seq_views(old(segs)@).push(dotdot()));
            }
        } else {
            segs.pop();
            proof {
                assert(seq_views(segs@) =~~= seq_views(old(segs)@).drop_last());
            }
        }
    } else {
        segs.push(seg.clone());
        proof {
            assert(seq_views(segs@) =~~= seq_views(old(segs)@).push(seg@));
        }
    }
}

/// Applies one absolute normalization step to an owned segment vector.
fn push_abs_exec(segs: &mut Vec<String>, seg: &String)
    ensures
        seq_views(final(segs)@) == spec_push_abs(seq_views(old(segs)@), seg@),
{
    proof {
        reveal_strlit(".");
        reveal_strlit("..");
        assert("."@ =~= dot());
        assert(".."@ =~= dotdot());
    }
    if seg.as_str().unicode_len() == 0 || str_eq(seg.as_str(), ".") {
        // dropped
    } else if str_eq(seg.as_str(), "..") {
        if segs.len() > 0 {
            segs.pop();
            proof {
                assert(seq_views(segs@) =~~= seq_views(old(segs)@).drop_last());
            }
        }
    } else {
        segs.push(seg.clone());
        proof {
            assert(seq_views(segs@) =~~= seq_views(old(segs)@).push(seg@));
        }
    }
}

/// A path string classified as absolute or relative.
pub enum ParsedPath {
    Absolute(AbsPath),
    Relative(RelPath),
}

impl AbsPath {
    /// The root path `/`.
    pub fn root() -> (r: AbsPath)
        ensures
            r@ == Seq::<Seq<char>>::empty(),
    {
        let r = AbsPath { segs: Vec::new() };
        proof {
            assert(r@ =~= Seq::<Seq<char>>::empty());
        }
        r
    }

    /// A copy with the same view.
    pub fn dup(&self) -> (r: AbsPath)
        ensures
            r@ == self@,
    {
        AbsPath { segs: string_vec_dup(&self.segs) }
    }

    /// View-level equality.
    pub fn same(&self, other: &AbsPath) -> (r: bool)
        ensures
            r == (self@ == other@),
    {
        string_vecs_eq(&self.segs, &other.segs)
    }

    /// The final segment, if any.
    pub fn last_segment(&self) -> (r: Option<&String>)
        ensures
            match r {
                Some(s) => self@.len() > 0 && s@ == self@.last(),
                None => self@.len() == 0,
            },
    {
        if self.segs.len() == 0 {
            None
        } else {
            Some(&self.segs[self.segs.len() - 1])
        }
    }

    /// Parses and normalizes an absolute path string (leading `/`).
    pub fn parse_absolute(s: &str) -> (r: Option<AbsPath>)
        ensures
            match r {
                Some(a) => s@.len() > 0 && s@[0] == '/' && a@ == spec_abs_of_tail(
                    s@.drop_first(),
                ),
                None => !(s@.len() > 0 && s@[0] == '/'),
            },
    {
        let len = s.unicode_len();
        if len == 0 || s.get_char(0) != '/' {
            return None;
        }
        let tail = s.substring_char(1, len);
        proof {
            assert(tail@ =~= s@.drop_first());
        }
        let parts = split_char(tail, '/');
        let mut segs: Vec<String> = Vec::new();
        let mut i: usize = 0;
        proof {
            assert(seq_views(parts@).take(0) =~= Seq::<Seq<char>>::empty());
            assert(seq_views(segs@) =~= Seq::<Seq<char>>::empty());
        }
        while i < parts.len()
            invariant
                i <= parts@.len(),
                seq_views(parts@) == spec_split(tail@, '/'),
                seq_views(segs@) == spec_fold_abs(
                    Seq::empty(),
                    seq_views(parts@).take(i as int),
                ),
            decreases parts@.len() - i,
        {
            proof {
                assert(seq_views(parts@).take(i as int + 1).drop_last() =~= seq_views(
                    parts@,
                ).take(i as int));
                assert(seq_views(parts@).take(i as int + 1).last() == parts@[i as int]@);
            }
            push_abs_exec(&mut segs, &parts[i]);
            proof {
                assert(seq_views(segs@) =~~= spec_fold_abs(
                    Seq::empty(),
                    seq_views(parts@).take(i as int + 1),
                ));
            }
            i = i + 1;
        }
        proof {
            assert(seq_views(parts@).take(parts@.len() as int) =~= seq_views(parts@));
        }
        Some(AbsPath { segs })
    }

    /// Classifies a path string: absolute when it starts with `/`, else
    /// relative, each normalized.
    pub fn parse_path(s: &str) -> (r: ParsedPath)
        ensures
            match r {
                ParsedPath::Absolute(a) => s@.len() > 0 && s@[0] == '/' && a@
                    == spec_abs_of_tail(s@.drop_first()),
                ParsedPath::Relative(p) => !(s@.len() > 0 && s@[0] == '/') && p@ == spec_rel_of(
                    s@,
                ),
            },
    {
        match AbsPath::parse_absolute(s) {
            Some(a) => ParsedPath::Absolute(a),
            None => ParsedPath::Relative(RelPath::parse(s)),
        }
    }

    /// `rel` resolved against `self`: segments are appended, `..` steps up.
    pub fn join_rel(&self, rel: &RelPath) -> (r: AbsPath)
        ensures
            r@ == spec_fold_abs(self@, rel@),
    {
        let mut segs = string_vec_dup(&self.segs);
        let mut i: usize = 0;
        proof {
            assert(rel@.take(0) =~= Seq::<Seq<char>>::empty());
        }
        while i < rel.segs.len()
            invariant
                i <= rel.segs@.len(),
                seq_views(segs@) == spec_fold_abs(self@, rel@.take(i as int)),
            decreases rel.segs@.len() - i,
        {
            proof {
                assert(rel@.take(i as int + 1).drop_last() =~= rel@.take(i as int));
                assert(rel@.take(i as int + 1).last() == rel.segs@[i as int]@);
            }
            push_abs_exec(&mut segs, &rel.segs[i]);
            proof {
                assert(seq_views(segs@) =~~= spec_fold_abs(self@, rel@.take(i as int + 1)));
            }
            i = i + 1;
        }
        proof {
            assert(rel@.take(rel@.len() as int) =~= rel@);
        }
        AbsPath { segs }
    }

    /// Renders the path, starting with `/`.
    pub fn render(&self) -> (r: String)
        ensures
            r@ == spec_abs_str(self@),
    {
        let mut r = string_of_char('/');
        let joined = join_char(&self.segs, '/');
        r.append(joined.as_str());
        r
    }

    /// The path one plain segment below `self`.  The segment is recorded
    /// as given; callers hand in separator-free names.
    pub fn child(&self, seg: &str) -> (r: AbsPath)
        ensures
            r@ == self@.push(seg@),
    {
        let mut segs = string_vec_dup(&self.segs);
        segs.push(seg.to_owned());
        let r = AbsPath { segs };
        proof {
            assert(r@ =~= self@.push(seg@));
        }
        r
    }

    /// The sibling path whose final segment is this path's final segment
    /// with a suffix appended.
    pub fn sibling_with_suffix(&self, suffix: &str) -> (r: AbsPath)
        requires
            self@.len() > 0,
        ensures
            r@ == self@.drop_last().push(self@.last() + suffix@),
    {
        let mut segs = string_vec_dup(&self.segs);
        let mut last = match segs.pop() {
            Some(s) => s,
            None => String::new(),
        };
        last.append(suffix);
        segs.push(last);
        let r = AbsPath { segs };
        proof {
            assert(r@ =~= self@.drop_last().push(self@.last() + suffix@));
        }
        r
    }

    /// One path per leading piece of `rel`: the i-th entry is the first
    /// `i + 1` segments of `rel` resolved against `self`, so the last
    /// entry is `self.join_rel(rel)`.
    pub fn component_paths(&self, rel: &RelPath) -> (r: Vec<AbsPath>)
        ensures
            r@.len() == rel@.len(),
            forall|i: int|
                0 <= i < rel@.len() ==> (#[trigger] r@[i])@ == spec_fold_abs(
                    self@,
                    rel@.take(i + 1),
                ),
    {
        let mut segs = string_vec_dup(&self.segs);
        let mut r: Vec<AbsPath> = Vec::new();
        let mut i: usize = 0;
        proof {
            assert(rel@.take(0) =~= Seq::<Seq<char>>::empty());
        }
        while i < rel.segs.len()
            invariant
                i <= rel.segs@.len(),
                r@.len() == i,
                seq_views(segs@) == spec_fold_abs(self@, rel@.take(i as int)),
                forall|j: int|
                    0 <= j < i ==> (#[trigger] r@[j])@ == spec_fold_abs(
                        self@,
                        rel@.take(j + 1),
                    ),
            decreases rel.segs@.len() - i,
        {
            proof {
                assert(rel@.take(i as int + 1).drop_last() =~= rel@.take(i as int));
                assert(rel@.take(i as int + 1).last() == rel.segs@[i as int]@);
            }
            push_abs_exec(&mut segs, &rel.segs[i]);
            r.push(AbsPath { segs: string_vec_dup(&segs) });
            i = i + 1;
        }
        r
    }
}

/// The cleaned form of a path string: `.` segments dropped, `..` resolved
/// against plain segments (and dropped at an absolute root), empty input
/// cleaning to `.`.
pub open spec fn spec_clean(s: Seq<char>) -> Seq<char> {
    if s.len() > 0 && s[0] == '/' {
        spec_abs_str(spec_abs_of_tail(s.drop_first()))
    } else {
        let v = spec_rel_of(s);
        if v.len() == 0 {
            dot()
        } else {
            spec_join(v, '/')
        }
    }
}

/// Logically normalizes a path string, without touching the filesystem.
pub fn clean(path: &str) -> (r: String)
    ensures
        r@ == spec_clean(path@),
{
    match AbsPath::parse_path(path) {
        ParsedPath::Absolute(a) => a.render(),
        ParsedPath::Relative(p) => {
            if p.is_empty() {
                proof {
                    reveal_strlit(".");
                }
                let r: &str = ".";
                r.to_owned()
            } else {
                p.render()
            }
        },
    }
}

} // verus!
