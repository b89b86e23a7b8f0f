//! Planning of the content-addressed Git cache.
//!
//! Nothing here runs `git` or touches the filesystem.  The functions
//! derive the cache keys (a repository directory name from the URL, a
//! snapshot directory from commit and sparse paths), build the exact
//! `git` invocations as data, decide what a cache hit skips, and
//! disambiguate `ls-remote` output into a single commit.  The caller
//! checks directory existence, runs the planned commands and hands their
//! output back.

use sha2::Digest;
use vstd::prelude::*;
use vstd::string::StrSliceExecFns;
use vstd::string::StringExecFns;

use crate::errors::GitError;
use crate::next::state::spec_url_name;
use crate::next::state::spec_url_name_ok;
use crate::paths::spec_abs_str;
use crate::paths::AbsPath;
use crate::strutil::contains_sub;
use crate::strutil::has_suffix;
use crate::strutil::seq_views;
use crate::strutil::spec_contains_sub;
use crate::strutil::spec_split;
use crate::strutil::spec_split_ws;
use crate::strutil::spec_trim;
use crate::strutil::split_char;
use crate::strutil::split_whitespace_parts;
use crate::strutil::str_eq;
use crate::strutil::trim_ws;

verus! {

/// What `sha2::Sha256` digests the UTF-8 bytes of a string to; the result
/// depends on the bytes alone.
pub uninterp spec fn sha256_of(bytes: Seq<u8>) -> Seq<u8>;

/// Relies on `sha2::Sha256::digest`: SHA-256 yields exactly 32 bytes and
/// is a function of the input bytes alone.
#[verifier::external_body]
fn sha256_digest(input: &str) -> (r: Vec<u8>)
    ensures
        r@ == sha256_of(vstd::utf8::encode_utf8(input@)),
        r@.len() == 32,
{
    sha2::Sha256::digest(input.as_bytes()).to_vec()
}

/// The lower-case hexadecimal digit of a value below 16.
pub open spec fn spec_hex_digit(n: u8) -> char {
    if n == 0 {
        '0'
    } else if n == 1 {
        '1'
    } else if n == 2 {
        '2'
    } else if n == 3 {
        '3'
    } else if n == 4 {
        '4'
    } else if n == 5 {
        '5'
    } else if n == 6 {
        '6'
    } else if n == 7 {
        '7'
    } else if n == 8 {
        '8'
    } else if n == 9 {
        '9'
    } else if n == 10 {
        'a'
    } else if n == 11 {
        'b'
    } else if n == 12 {
        'c'
    } else if n == 13 {
        'd'
    } else if n == 14 {
        'e'
    } else {
        'f'
    }
}

fn hex_digit(n: u8) -> (r: char)
    requires
        n < 16,
    ensures
        r == spec_hex_digit(n),
{
    if n == 0 {
        '0'
    } else if n == 1 {
        '1'
    } else if n == 2 {
        '2'
    } else if n == 3 {
        '3'
    } else if n == 4 {
        '4'
    } else if n == 5 {
        '5'
    } else if n == 6 {
        '6'
    } else if n == 7 {
        '7'
    } else if n == 8 {
        '8'
    } else if n == 9 {
        '9'
    } else if n == 10 {
        'a'
    } else if n == 11 {
        'b'
    } else if n == 12 {
        'c'
    } else if n == 13 {
        'd'
    } else if n == 14 {
        'e'
    } else {
        'f'
    }
}

/// Two lower-case hexadecimal digits per byte, in order.
pub open spec fn spec_hex_of(bytes: Seq<u8>) -> Seq<char>
    decreases bytes.len(),
{
    if bytes.len() == 0 {
        Seq::empty()
    } else {
        spec_hex_of(bytes.drop_last()) + seq![
            spec_hex_digit(bytes.last() / 16),
            spec_hex_digit(bytes.last() % 16),
        ]
    }
}

pub proof fn lemma_hex_len(bytes: Seq<u8>)
    ensures
        spec_hex_of(bytes).len() == 2 * bytes.len(),
    decreases bytes.len(),
{
    if bytes.len() > 0 {
        lemma_hex_len(bytes.drop_last());
    }
}

/// Renders bytes as lower-case hexadecimal.
fn hex_of(bytes: &Vec<u8>) -> (r: String)
    ensures
        r@ == spec_hex_of(bytes@),
{
    let mut r = String::new();
    let mut i: usize = 0;
    proof {
        assert(bytes@.take(0) =~= Seq::<u8>::empty());
        assert(r@ =~= Seq::<char>::empty());
    }
    while i < bytes.len()
        invariant
            i <= bytes@.len(),
            r@ == spec_hex_of(bytes@.take(i as int)),
        decreases bytes@.len() - i,
    {
        proof {
            assert(bytes@.take(i as int + 1).drop_last() =~= bytes@.take(i as int));
            assert(bytes@.take(i as int + 1).last() == bytes@[i as int]);
        }
        let b = bytes[i];
        r.push(hex_digit(b / 16));
        r.push(hex_digit(b % 16));
        i = i + 1;
    }
    proof {
        assert(bytes@.take(bytes@.len() as int) =~= bytes@);
    }
    r
}

/// The bytes in reverse order.
fn reversed_bytes(v: &Vec<u8>) -> (r: Vec<u8>)
    ensures
        r@ == v@.reverse(),
{
    let mut r: Vec<u8> = Vec::new();
    let mut i: usize = v.len();
    while i > 0
        invariant
            i <= v@.len(),
            r@.len() == v@.len() - i,
            forall|j: int| 0 <= j < r@.len() ==> r@[j] == v@[v@.len() - 1 - j],
        decreases i,
    {
        i = i - 1;
        r.push(v[i]);
    }
    proof {
        assert(r@ =~= v@.reverse());
    }
    r
}

/// The first `n` characters (all 64 when `n` is larger) of the
/// hexadecimal rendering of the byte-reversed SHA-256 digest of the
/// input.
pub open spec fn spec_hash_last_n(s: Seq<char>, n: int) -> Seq<char> {
    let hex = spec_hex_of(sha256_of(vstd::utf8::encode_utf8(s)).reverse());
    if n <= 64 {
        hex.take(n)
    } else {
        hex
    }
}

/// A short, stable content hash of the input: the SHA-256 digest,
/// reversed, rendered as hexadecimal and cut to `n` characters.
pub fn hash_last_n(input: &str, n: usize) -> (r: String)
    ensures
        r@ == spec_hash_last_n(input@, n as int),
        r@.len() == if n <= 64 {
            n as int
        } else {
            64
        },
{
    let digest = sha256_digest(input);
    let rev = reversed_bytes(&digest);
    let hex = hex_of(&rev);
    proof {
        lemma_hex_len(rev@);
    }
    let end = if n > 64 {
        64
    } else {
        n
    };
    let cut = hex.as_str().substring_char(0, end);
    proof {
        if n <= 64 {
            assert(cut@ =~= spec_hash_last_n(input@, n as int));
        } else {
            assert(cut@ =~= spec_hash_last_n(input@, n as int));
        }
    }
    cut.to_owned()
}

/// The last `n` characters of the input.
pub fn str_last_n<'a>(input: &'a str, n: usize) -> (r: &'a str)
    requires
        n <= input@.len(),
    ensures
        r@ == input@.skip(input@.len() - n as int),
{
    let len = input.unicode_len();
    let r = input.substring_char(len - n, len);
    proof {
        assert(r@ =~= input@.skip(input@.len() - n as int));
    }
    r
}

/// The cache directory name a repository URL maps to: the derived name,
/// an underscore, and a short hash of the whole URL.
pub open spec fn spec_dir_name(url: Seq<char>) -> Seq<char> {
    spec_url_name(url) + seq!['_'] + spec_hash_last_n(url, 8)
}

/// Derives the repository cache directory name from a URL.  Identical
/// URLs always map to the same directory, so an existing directory is
/// reused without any network call.
pub fn repo_dir_name(url: &str) -> (r: Result<String, crate::errors::AddressError>)
    ensures
        spec_url_name_ok(url@) ==> (r matches Ok(n) && n@ == spec_dir_name(url@)),
        !spec_url_name_ok(url@) ==> (r matches Err(crate::errors::AddressError::RepoParse(u))
            && u@ == url@),
{
    match crate::next::state::parse_url_name(url) {
        Ok(name) => {
            let mut r = name;
            r.push('_');
            let h = hash_last_n(url, 8);
            r.append(h.as_str());
            Ok(r)
        },
        Err(e) => Err(e),
    }
}

/// One `git` invocation: the directory to run in and the arguments.
#[derive(Debug)]
pub struct GitCmd {
    pub working_dir: String,
    pub args: Vec<String>,
}

#[verifier::ext_equal]
pub ghost struct GitCmdV {
    pub working_dir: Seq<char>,
    pub args: Seq<Seq<char>>,
}

impl View for GitCmd {
    type V = GitCmdV;

    open spec fn view(&self) -> GitCmdV {
        GitCmdV { working_dir: self.working_dir@, args: seq_views(self.args@) }
    }
}

/// The sparse, treeless clone of a repository into the store.
pub open spec fn spec_clone_cmd(store: Seq<Seq<char>>, dir_name: Seq<char>, url: Seq<char>)
    -> GitCmdV {
    GitCmdV {
        working_dir: spec_abs_str(store),
        args: seq!["clone"@, "--filter=tree:0"@, "--sparse"@, "--no-checkout"@, url, dir_name],
    }
}

pub fn clone_cmd(store_dir: &AbsPath, dir_name: &str, url: &str) -> (r: GitCmd)
    ensures
        r@ == spec_clone_cmd(store_dir@, dir_name@, url@),
{
    let mut args: Vec<String> = Vec::new();
    args.push(String::from_str("clone"));
    args.push(String::from_str("--filter=tree:0"));
    args.push(String::from_str("--sparse"));
    args.push(String::from_str("--no-checkout"));
    args.push(url.to_owned());
    args.push(dir_name.to_owned());
    let r = GitCmd { working_dir: store_dir.render(), args };
    proof {
        assert(r@.args =~= spec_clone_cmd(store_dir@, dir_name@, url@).args);
    }
    r
}

/// Cone-mode initialization of the sparse checkout inside a fresh clone.
pub open spec fn spec_sparse_init_cmd(repo_dir: Seq<Seq<char>>) -> GitCmdV {
    GitCmdV {
        working_dir: spec_abs_str(repo_dir),
        args: seq!["sparse-checkout"@, "init"@, "--cone"@],
    }
}

pub fn sparse_init_cmd(repo_dir: &AbsPath) -> (r: GitCmd)
    ensures
        r@ == spec_sparse_init_cmd(repo_dir@),
{
    let mut args: Vec<String> = Vec::new();
    args.push(String::from_str("sparse-checkout"));
    args.push(String::from_str("init"));
    args.push(String::from_str("--cone"));
    let r = GitCmd { working_dir: repo_dir.render(), args };
    proof {
        assert(r@.args =~= spec_sparse_init_cmd(repo_dir@).args);
    }
    r
}

/// A fetch that makes sure the wanted commit is present.
pub open spec fn spec_fetch_cmd(repo_dir: Seq<Seq<char>>) -> GitCmdV {
    GitCmdV { working_dir: spec_abs_str(repo_dir), args: seq!["fetch"@] }
}

pub fn fetch_cmd(repo_dir: &AbsPath) -> (r: GitCmd)
    ensures
        r@ == spec_fetch_cmd(repo_dir@),
{
    let mut args: Vec<String> = Vec::new();
    args.push(String::from_str("fetch"));
    let r = GitCmd { working_dir: repo_dir.render(), args };
    proof {
        assert(r@.args =~= spec_fetch_cmd(repo_dir@).args);
    }
    r
}

/// The checkout of one commit inside a snapshot copy.
pub open spec fn spec_checkout_cmd(dir: Seq<Seq<char>>, commit: Seq<char>) -> GitCmdV {
    GitCmdV { working_dir: spec_abs_str(dir), args: seq!["checkout"@, commit] }
}

pub fn checkout_cmd(dir: &AbsPath, commit: &str) -> (r: GitCmd)
    ensures
        r@ == spec_checkout_cmd(dir@, commit@),
{
    let mut args: Vec<String> = Vec::new();
    args.push(String::from_str("checkout"));
    args.push(commit.to_owned());
    let r = GitCmd { working_dir: dir.render(), args };
    proof {
        assert(r@.args =~= spec_checkout_cmd(dir@, commit@).args);
    }
    r
}

/// Restriction of a snapshot's content to the wanted paths.
pub open spec fn spec_sparse_set_cmd(dir: Seq<Seq<char>>, paths: Seq<Seq<char>>) -> GitCmdV {
    GitCmdV { working_dir: spec_abs_str(dir), args: seq!["sparse-checkout"@, "set"@] + paths }
}

pub fn sparse_set_cmd(dir: &AbsPath, paths: &Vec<String>) -> (r: GitCmd)
    ensures
        r@ == spec_sparse_set_cmd(dir@, seq_views(paths@)),
{
    let mut args: Vec<String> = Vec::new();
    args.push(String::from_str("sparse-checkout"));
    args.push(String::from_str("set"));
    let mut rest = crate::strutil::string_vec_dup(paths);
    args.append(&mut rest);
    let r = GitCmd { working_dir: dir.render(), args };
    proof {
        assert(r@.args =~= spec_sparse_set_cmd(dir@, seq_views(paths@)).args);
    }
    r
}

/// The query that lists remote refs matching a pattern.
pub open spec fn spec_ls_remote_cmd(repo_dir: Seq<Seq<char>>, pattern: Seq<char>) -> GitCmdV {
    GitCmdV { working_dir: spec_abs_str(repo_dir), args: seq!["ls-remote"@, "origin"@, pattern] }
}

pub fn ls_remote_cmd(repo_dir: &AbsPath, pattern: &str) -> (r: GitCmd)
    ensures
        r@ == spec_ls_remote_cmd(repo_dir@, pattern@),
{
    let mut args: Vec<String> = Vec::new();
    args.push(String::from_str("ls-remote"));
    args.push(String::from_str("origin"));
    args.push(pattern.to_owned());
    let r = GitCmd { working_dir: repo_dir.render(), args };
    proof {
        assert(r@.args =~= spec_ls_remote_cmd(repo_dir@, pattern@).args);
    }
    r
}

/// The query for the top-level directory of the repository around `dir`.
pub open spec fn spec_root_dir_cmd(dir: Seq<Seq<char>>) -> GitCmdV {
    GitCmdV { working_dir: spec_abs_str(dir), args: seq!["rev-parse"@, "--show-toplevel"@] }
}

pub fn git_root_dir_cmd(dir: &AbsPath) -> (r: GitCmd)
    ensures
        r@ == spec_root_dir_cmd(dir@),
{
    let mut args: Vec<String> = Vec::new();
    args.push(String::from_str("rev-parse"));
    args.push(String::from_str("--show-toplevel"));
    let r = GitCmd { working_dir: dir.render(), args };
    proof {
        assert(r@.args =~= spec_root_dir_cmd(dir@).args);
    }
    r
}

/// The query for the URL of the `origin` remote.
pub open spec fn spec_origin_url_cmd(dir: Seq<Seq<char>>) -> GitCmdV {
    GitCmdV {
        working_dir: spec_abs_str(dir),
        args: seq!["config"@, "--get"@, "remote.origin.url"@],
    }
}

pub fn git_origin_url_cmd(dir: &AbsPath) -> (r: GitCmd)
    ensures
        r@ == spec_origin_url_cmd(dir@),
{
    let mut args: Vec<String> = Vec::new();
    args.push(String::from_str("config"));
    args.push(String::from_str("--get"));
    args.push(String::from_str("remote.origin.url"));
    let r = GitCmd { working_dir: dir.render(), args };
    proof {
        assert(r@.args =~= spec_origin_url_cmd(dir@).args);
    }
    r
}

/// One line of `ls-remote` output: a commit id and the ref that points
/// at it.
pub struct ShaRef {
    pub sha: String,
    pub tag: String,
}

pub ghost struct ShaRefV {
    pub sha: Seq<char>,
    pub tag: Seq<char>,
}

impl View for ShaRef {
    type V = ShaRefV;

    open spec fn view(&self) -> ShaRefV {
        ShaRefV { sha: self.sha@, tag: self.tag@ }
    }
}

pub open spec fn refs_views(v: Seq<ShaRef>) -> Seq<ShaRefV> {
    v.map_values(|x: ShaRef| x@)
}

/// The lines of `ls-remote` output: the trimmed output split at
/// newlines, no lines at all when it is empty.
pub open spec fn spec_ls_lines(out: Seq<char>) -> Seq<Seq<char>> {
    let t = spec_trim(out);
    if t.len() == 0 {
        Seq::empty()
    } else {
        spec_split(t, '\n')
    }
}

/// A usable line has exactly two whitespace-separated fields.
pub open spec fn spec_line_fields_ok(line: Seq<char>) -> bool {
    spec_split_ws(line).len() == 2
}

pub open spec fn spec_lines_ok(lines: Seq<Seq<char>>) -> bool {
    forall|i: int| 0 <= i < lines.len() ==> spec_line_fields_ok(#[trigger] lines[i])
}

pub open spec fn spec_ref_of(line: Seq<char>) -> ShaRefV {
    ShaRefV { sha: spec_split_ws(line)[0], tag: spec_split_ws(line)[1] }
}

/// Refs of the remote's own remotes do not count.
pub open spec fn spec_is_remote_ref(tag: Seq<char>) -> bool {
    spec_contains_sub(tag, "refs/remotes"@)
}

/// The refs the listed lines carry, with remote-tracking refs dropped.
pub open spec fn spec_refs_of(lines: Seq<Seq<char>>) -> Seq<ShaRefV>
    decreases lines.len(),
{
    if lines.len() == 0 {
        Seq::empty()
    } else {
        let rest = spec_refs_of(lines.drop_last());
        if spec_is_remote_ref(spec_ref_of(lines.last()).tag) {
            rest
        } else {
            rest.push(spec_ref_of(lines.last()))
        }
    }
}

pub open spec fn spec_all_same_sha(refs: Seq<ShaRefV>) -> bool {
    forall|i: int| 0 <= i < refs.len() ==> (#[trigger] refs[i]).sha == refs[0].sha
}

/// A peeled ref: the annotated tag's target commit rather than the tag
/// object.
pub open spec fn spec_peeled(tag: Seq<char>) -> bool {
    "^{}"@.is_suffix_of(tag)
}

/// How `ls-remote` output for a pattern is disambiguated.
pub ghost enum LsOutcomeV {
    /// A single commit was determined.
    Commit(Seq<char>),
    /// Some line does not have exactly two fields.
    BadLine,
    /// Two refs with different commits and no peeled one to prefer.
    NoPeeled,
    /// More than two refs with differing commits.
    TooMany,
}

/// Disambiguation of `ls-remote` output: no matching refs mean the
/// pattern is already a commit; refs that all agree give that commit;
/// exactly two disagreeing refs give the peeled (`^{}`) one; anything
/// else is ambiguous.
pub open spec fn spec_ls_remote(out: Seq<char>, pattern: Seq<char>) -> LsOutcomeV {
    let lines = spec_ls_lines(out);
    if !spec_lines_ok(lines) {
        LsOutcomeV::BadLine
    } else {
        let refs = spec_refs_of(lines);
        if refs.len() == 0 {
            LsOutcomeV::Commit(pattern)
        } else if refs.len() >= 2 && spec_all_same_sha(refs) {
            LsOutcomeV::Commit(refs[0].sha)
        } else if refs.len() == 2 {
            if spec_peeled(refs[0].tag) {
                LsOutcomeV::Commit(refs[0].sha)
            } else if spec_peeled(refs[1].tag) {
                LsOutcomeV::Commit(refs[1].sha)
            } else {
                LsOutcomeV::NoPeeled
            }
        } else if refs.len() == 1 {
            LsOutcomeV::Commit(refs[0].sha)
        } else {
            LsOutcomeV::TooMany
        }
    }
}

fn all_same_sha(refs: &Vec<ShaRef>) -> (r: bool)
    ensures
        r == spec_all_same_sha(refs_views(refs@)),
{
    let mut i: usize = 0;
    while i < refs.len()
        invariant
            i <= refs@.len(),
            forall|j: int| 0 <= j < i ==> (#[trigger] refs_views(refs@)[j]).sha == refs_views(
                refs@,
            )[0].sha,
        decreases refs@.len() - i,
    {
        if !str_eq(refs[i].sha.as_str(), refs[0].sha.as_str()) {
            proof {
                assert(refs_views(refs@)[i as int].sha != refs_views(refs@)[0].sha);
            }
            return false;
        }
        i = i + 1;
    }
    true
}

/// Resolves the output of `ls-remote origin <pattern>` to one commit.
/// No matching refs mean the pattern itself is taken as the commit; refs
/// that all name one commit give that commit; of exactly two refs naming
/// different commits the peeled `^{}` one wins; anything else fails, as
/// does a malformed line.
pub fn parse_ls_remote(out: &str, pattern: &str) -> (r: Result<String, GitError>)
    ensures
        spec_ls_remote(out@, pattern@) matches LsOutcomeV::Commit(c) ==> (r matches Ok(s) && s@
            == c),
        (spec_ls_remote(out@, pattern@) is BadLine) ==> (r matches Err(GitError::Failed(m)) && m@
            == "ls-remote returned a line without exactly two fields"@),
        (spec_ls_remote(out@, pattern@) is NoPeeled) ==> (r matches Err(GitError::Failed(m)) && m@
            == "could not choose a commit from two refs for the pattern"@),
        (spec_ls_remote(out@, pattern@) is TooMany) ==> (r matches Err(GitError::Failed(m)) && m@
            == "pattern is not specific enough to determine a commit"@),
{
    let trimmed = trim_ws(out);
    let lines: Vec<String> = if trimmed.as_str().unicode_len() == 0 {
        Vec::new()
    } else {
        split_char(trimmed.as_str(), '\n')
    };
    proof {
        assert(seq_views(lines@) =~= spec_ls_lines(out@));
    }
    let ghost linevs = spec_ls_lines(out@);
    let mut refs: Vec<ShaRef> = Vec::new();
    let mut i: usize = 0;
    proof {
        assert(refs_views(refs@) =~= spec_refs_of(linevs.take(0)));
    }
    while i < lines.len()
        invariant
            i <= lines@.len(),
            linevs == spec_ls_lines(out@),
            seq_views(lines@) == linevs,
            refs_views(refs@) == spec_refs_of(linevs.take(i as int)),
            forall|j: int| 0 <= j < i ==> spec_line_fields_ok(#[trigger] linevs[j]),
        decreases lines@.len() - i,
    {
        let fields = split_whitespace_parts(lines[i].as_str());
        proof {
            assert(seq_views(fields@) == spec_split_ws(linevs[i as int]));
        }
        if fields.len() != 2 {
            proof {
                assert(seq_views(fields@).len() != 2);
                assert(!spec_line_fields_ok(linevs[i as int]));
                assert(!spec_lines_ok(linevs));
                assert(spec_ls_lines(out@) == linevs);
                assert(!spec_lines_ok(spec_ls_lines(out@)));
                assert(spec_ls_remote(out@, pattern@) == LsOutcomeV::BadLine);
            }
            return Err(
                GitError::Failed(
                    String::from_str("ls-remote returned a line without exactly two fields"),
                ),
            );
        }
        let mut fields = fields;
        let tag = match fields.pop() {
            Some(t) => t,
            None => {
                proof {
                    assert(false);
                }
                String::new()
            },
        };
        let sha = match fields.pop() {
            Some(s) => s,
            None => {
                proof {
                    assert(false);
                }
                String::new()
            },
        };
        proof {
            assert(sha@ == spec_ref_of(linevs[i as int]).sha);
            assert(tag@ == spec_ref_of(linevs[i as int]).tag);
            assert(linevs.take(i as int + 1).drop_last() =~= linevs.take(i as int));
            assert(linevs.take(i as int + 1).last() == linevs[i as int]);
        }
        if !contains_sub(tag.as_str(), "refs/remotes") {
            refs.push(ShaRef { sha, tag });
            proof {
                assert(refs_views(refs@) =~= spec_refs_of(linevs.take(i as int)).push(
                    spec_ref_of(linevs[i as int]),
                ));
            }
        }
        i = i + 1;
    }
    proof {
        assert(linevs.take(linevs.len() as int) =~= linevs);
        assert(spec_lines_ok(linevs));
    }
    let ghost refvs = spec_refs_of(linevs);
    if refs.len() == 0 {
        return Ok(pattern.to_owned());
    }
    let same = all_same_sha(&refs);
    if refs.len() >= 2 && same {
        proof {
            assert(refs_views(refs@)[0].sha == refs@[0]@.sha);
        }
        Ok(refs[0].sha.clone())
    } else if refs.len() == 2 {
        if has_suffix(refs[0].tag.as_str(), "^{}") {
            Ok(refs[0].sha.clone())
        } else if has_suffix(refs[1].tag.as_str(), "^{}") {
            proof {
                assert(refs_views(refs@)[1] == refs@[1]@);
            }
            Ok(refs[1].sha.clone())
        } else {
            proof {
                assert(refs_views(refs@)[1] == refs@[1]@);
            }
            Err(
                GitError::Failed(
                    String::from_str("could not choose a commit from two refs for the pattern"),
                ),
            )
        }
    } else if refs.len() == 1 {
        Ok(refs[0].sha.clone())
    } else {
        Err(
            GitError::Failed(
                String::from_str("pattern is not specific enough to determine a commit"),
            ),
        )
    }
}

/// The repository stage of one materialization: the clone setup a
/// missing repository needs, together with the single ref-resolution
/// query, which must run before the snapshot key is even known because
/// the commit is part of that key.  On a repository cache hit no setup
/// is planned, and an existing snapshot plans nothing either
/// (`plan_materialize`), so a fully cached materialization performs
/// exactly this one `ls-remote` query and no clone, fetch or checkout.
pub fn plan_ref_resolution(
    repo_exists: bool,
    store_dir: &AbsPath,
    dir_name: &str,
    name: &str,
    url: &str,
    git_ref: &str,
) -> (r: (Option<Vec<CacheAction>>, GitCmd))
    ensures
        repo_exists <==> r.0 is None,
        !repo_exists ==> (r.0 matches Some(v) && actions_views(v@) == seq![
            CacheActionV::RunGit(spec_clone_cmd(store_dir@, dir_name@, url@)),
            CacheActionV::RunGit(spec_sparse_init_cmd(store_dir@.push(dir_name@))),
            CacheActionV::WriteFile {
                path: spec_abs_str(
                    store_dir@.push(dir_name@).push(spec_repo_meta_name(dir_name@)),
                ),
                content: spec_repo_meta(url@, name@),
            },
        ]),
        r.1@ == spec_ls_remote_cmd(store_dir@.push(dir_name@), git_ref@),
{
    let setup = plan_repo_cache(repo_exists, store_dir, dir_name, name, url);
    let query = ls_remote_cmd(&store_dir.child(dir_name), git_ref);
    (setup, query)
}

/// The sparse-checkout targets of one materialization, in canonical
/// order: the state root and the state path, each anchored at the
/// address's target path, sorted.
pub open spec fn spec_sorted_pair(a: Seq<char>, b: Seq<char>) -> Seq<Seq<char>> {
    if crate::strutil::spec_str_le(a, b) {
        seq![a, b]
    } else {
        seq![b, a]
    }
}

/// The canonical sparse-checkout targets for a materialization.
pub fn materialize_paths(
    addr_path: &crate::paths::RelPath,
    state_root: &crate::paths::RelPath,
    state_path: &crate::paths::RelPath,
) -> (r: Vec<String>)
    ensures
        seq_views(r@) == spec_sorted_pair(
            crate::strutil::spec_join(crate::paths::spec_fold_rel(addr_path@, state_root@), '/'),
            crate::strutil::spec_join(crate::paths::spec_fold_rel(addr_path@, state_path@), '/'),
        ),
{
    let p1 = crate::paths::RelPath::concat(addr_path, state_root).render();
    let p2 = crate::paths::RelPath::concat(addr_path, state_path).render();
    let mut r: Vec<String> = Vec::new();
    if crate::strutil::str_le(p1.as_str(), p2.as_str()) {
        r.push(p1);
        r.push(p2);
    } else {
        r.push(p2);
        r.push(p1);
    }
    proof {
        assert(seq_views(r@) =~= spec_sorted_pair(
            crate::strutil::spec_join(crate::paths::spec_fold_rel(addr_path@, state_root@), '/'),
            crate::strutil::spec_join(crate::paths::spec_fold_rel(addr_path@, state_path@), '/'),
        ));
    }
    r
}

/// The snapshot directory for one materialization: under `c/` in the
/// store, keyed by the repository directory name, the last ten commit
/// characters, and a short hash of the joined sparse-checkout targets.
/// It is a function of those inputs alone, so identical inputs always
/// reuse one directory.
pub open spec fn spec_snapshot_dir(
    store: Seq<Seq<char>>,
    dir_name: Seq<char>,
    commit: Seq<char>,
    paths_name: Seq<char>,
) -> Seq<Seq<char>> {
    store.push("c"@).push(dir_name).push(commit.skip(commit.len() - 10)).push(
        spec_hash_last_n(paths_name, 8),
    )
}

/// The snapshot directory for a commit and joined sparse-checkout
/// targets inside a cached repository.
pub fn snapshot_dir(store_dir: &AbsPath, dir_name: &str, commit: &str, paths_name: &str) -> (r:
    AbsPath)
    requires
        commit@.len() >= 10,
    ensures
        r@ == spec_snapshot_dir(store_dir@, dir_name@, commit@, paths_name@),
{
    let short = str_last_n(commit, 10);
    let enc = hash_last_n(paths_name, 8);
    store_dir.child("c").child(dir_name).child(short).child(enc.as_str())
}

/// One step of building a cache entry: a `git` invocation, or the plain
/// filesystem work around it.
#[derive(Debug)]
pub enum CacheAction {
    RunGit(GitCmd),
    CopyDir { from: String, to: String },
    RemoveDir { path: String },
    WriteFile { path: String, content: String },
    /// An atomic move of a finished directory into its final place.
    RenameDir { from: String, to: String },
}

#[verifier::ext_equal]
pub ghost enum CacheActionV {
    RunGit(GitCmdV),
    CopyDir { from: Seq<char>, to: Seq<char> },
    RemoveDir { path: Seq<char> },
    WriteFile { path: Seq<char>, content: Seq<char> },
    RenameDir { from: Seq<char>, to: Seq<char> },
}

impl View for CacheAction {
    type V = CacheActionV;

    open spec fn view(&self) -> CacheActionV {
        match self {
            CacheAction::RunGit(c) => CacheActionV::RunGit(c@),
            CacheAction::CopyDir { from, to } => CacheActionV::CopyDir { from: from@, to: to@ },
            CacheAction::RemoveDir { path } => CacheActionV::RemoveDir { path: path@ },
            CacheAction::WriteFile { path, content } => CacheActionV::WriteFile {
                path: path@,
                content: content@,
            },
            CacheAction::RenameDir { from, to } => CacheActionV::RenameDir {
                from: from@,
                to: to@,
            },
        }
    }
}

pub open spec fn actions_views(v: Seq<CacheAction>) -> Seq<CacheActionV> {
    v.map_values(|a: CacheAction| a@)
}

/// The name of the metadata file beside a cached repository.
pub open spec fn spec_repo_meta_name(dir_name: Seq<char>) -> Seq<char> {
    "tidploy_repo_meta_"@ + dir_name
}

/// The metadata recorded for a cached repository.
pub open spec fn spec_repo_meta(url: Seq<char>, name: Seq<char>) -> Seq<char> {
    "url:"@ + url + "\n"@ + "name:"@ + name
}

/// Plans bringing the repository cache directory into being.  An existing
/// directory is a cache hit: nothing is planned, so no network call is
/// made.  Otherwise the repository is clone-sparsed into the store and a
/// metadata file records its URL and name.
pub fn plan_repo_cache(
    repo_exists: bool,
    store_dir: &AbsPath,
    dir_name: &str,
    name: &str,
    url: &str,
) -> (r: Option<Vec<CacheAction>>)
    ensures
        repo_exists <==> r is None,
        !repo_exists ==> (r matches Some(v) && actions_views(v@) == seq![
            CacheActionV::RunGit(spec_clone_cmd(store_dir@, dir_name@, url@)),
            CacheActionV::RunGit(spec_sparse_init_cmd(store_dir@.push(dir_name@))),
            CacheActionV::WriteFile {
                path: spec_abs_str(
                    store_dir@.push(dir_name@).push(spec_repo_meta_name(dir_name@)),
                ),
                content: spec_repo_meta(url@, name@),
            },
        ]),
{
    if repo_exists {
        return None;
    }
    let target = store_dir.child(dir_name);
    let mut meta_name = String::from_str("tidploy_repo_meta_");
    meta_name.append(dir_name);
    let mut content = String::from_str("url:");
    content.append(url);
    content.append("\n");
    content.append("name:");
    content.append(name);
    let mut v: Vec<CacheAction> = Vec::new();
    v.push(CacheAction::RunGit(clone_cmd(store_dir, dir_name, url)));
    v.push(CacheAction::RunGit(sparse_init_cmd(&target)));
    v.push(
        CacheAction::WriteFile { path: target.child(meta_name.as_str()).render(), content },
    );
    proof {
        assert(actions_views(v@) =~~= seq![
            CacheActionV::RunGit(spec_clone_cmd(store_dir@, dir_name@, url@)),
            CacheActionV::RunGit(spec_sparse_init_cmd(store_dir@.push(dir_name@))),
            CacheActionV::WriteFile {
                path: spec_abs_str(
                    store_dir@.push(dir_name@).push(spec_repo_meta_name(dir_name@)),
                ),
                content: spec_repo_meta(url@, name@),
            },
        ]);
    }
    Some(v)
}

/// The name of the metadata file inside a snapshot.
pub open spec fn spec_snap_meta_name(commit: Seq<char>, paths_name: Seq<char>) -> Seq<char> {
    "tidploy_deploy_meta_"@ + commit.skip(commit.len() - 10) + "_"@ + spec_hash_last_n(
        paths_name,
        8,
    )
}

/// The metadata recorded inside a snapshot.
pub open spec fn spec_snap_meta(commit: Seq<char>, paths_name: Seq<char>) -> Seq<char> {
    "commit:"@ + commit + "\n"@ + "paths:"@ + paths_name
}

/// The working directory a snapshot is built in before it is moved into
/// place: the snapshot directory's name with a suffix.
pub open spec fn spec_snapshot_tmp(commit_path: Seq<Seq<char>>) -> Seq<Seq<char>> {
    commit_path.drop_last().push(commit_path.last() + ".tmp"@)
}

/// Plans materializing one snapshot.  An existing snapshot directory is
/// a pure cache hit: nothing is planned, so resolving the same
/// `(url, commit, paths)` twice performs zero git operations the second
/// time.  Otherwise the cached repository is fetched and copied to a
/// temporary sibling of the snapshot directory, which is pinned to the
/// commit, restricted to the sparse paths, stripped of its `.git`
/// directory, given a metadata file, and only at the end moved into
/// place — so a crash mid-build never leaves a half-built snapshot
/// where the cache-hit check would find it.
pub fn plan_materialize(
    snapshot_exists: bool,
    repo_dir: &AbsPath,
    commit_path: &AbsPath,
    commit: &str,
    sparse_paths: &Vec<String>,
) -> (r: Option<Vec<CacheAction>>)
    requires
        commit@.len() >= 10,
        commit_path@.len() > 0,
    ensures
        snapshot_exists <==> r is None,
        !snapshot_exists ==> (r matches Some(v) && actions_views(v@) == seq![
            CacheActionV::RunGit(spec_fetch_cmd(repo_dir@)),
            CacheActionV::CopyDir {
                from: spec_abs_str(repo_dir@),
                to: spec_abs_str(spec_snapshot_tmp(commit_path@)),
            },
            CacheActionV::RunGit(spec_checkout_cmd(spec_snapshot_tmp(commit_path@), commit@)),
            CacheActionV::RunGit(
                spec_sparse_set_cmd(spec_snapshot_tmp(commit_path@), seq_views(sparse_paths@)),
            ),
            CacheActionV::RemoveDir {
                path: spec_abs_str(spec_snapshot_tmp(commit_path@).push(".git"@)),
            },
            CacheActionV::WriteFile {
                path: spec_abs_str(
                    spec_snapshot_tmp(commit_path@).push(
                        spec_snap_meta_name(
                            commit@,
                            crate::strutil::spec_join(seq_views(sparse_paths@), '_'),
                        ),
                    ),
                ),
                content: spec_snap_meta(
                    commit@,
                    crate::strutil::spec_join(seq_views(sparse_paths@), '_'),
                ),
            },
            CacheActionV::RenameDir {
                from: spec_abs_str(spec_snapshot_tmp(commit_path@)),
                to: spec_abs_str(commit_path@),
            },
        ]),
{
    if snapshot_exists {
        return None;
    }
    let tmp = commit_path.sibling_with_suffix(".tmp");
    let paths_name = crate::strutil::join_char(sparse_paths, '_');
    let mut meta_name = String::from_str("tidploy_deploy_meta_");
    meta_name.append(str_last_n(commit, 10));
    meta_name.append("_");
    let enc = hash_last_n(paths_name.as_str(), 8);
    meta_name.append(enc.as_str());
    let mut content = String::from_str("commit:");
    content.append(commit);
    content.append("\n");
    content.append("paths:");
    content.append(paths_name.as_str());
    let mut v: Vec<CacheAction> = Vec::new();
    v.push(CacheAction::RunGit(fetch_cmd(repo_dir)));
    v.push(CacheAction::CopyDir { from: repo_dir.render(), to: tmp.render() });
    v.push(CacheAction::RunGit(checkout_cmd(&tmp, commit)));
    v.push(CacheAction::RunGit(sparse_set_cmd(&tmp, sparse_paths)));
    v.push(CacheAction::RemoveDir { path: tmp.child(".git").render() });
    v.push(
        CacheAction::WriteFile { path: tmp.child(meta_name.as_str()).render(), content },
    );
    v.push(CacheAction::RenameDir { from: tmp.render(), to: commit_path.render() });
    proof {
        assert(actions_views(v@) =~~= seq![
            CacheActionV::RunGit(spec_fetch_cmd(repo_dir@)),
            CacheActionV::CopyDir {
                from: spec_abs_str(repo_dir@),
                to: spec_abs_str(spec_snapshot_tmp(commit_path@)),
            },
            CacheActionV::RunGit(spec_checkout_cmd(spec_snapshot_tmp(commit_path@), commit@)),
            CacheActionV::RunGit(
                spec_sparse_set_cmd(spec_snapshot_tmp(commit_path@), seq_views(sparse_paths@)),
            ),
            CacheActionV::RemoveDir {
                path: spec_abs_str(spec_snapshot_tmp(commit_path@).push(".git"@)),
            },
            CacheActionV::WriteFile {
                path: spec_abs_str(
                    spec_snapshot_tmp(commit_path@).push(
                        spec_snap_meta_name(
                            commit@,
                            crate::strutil::spec_join(seq_views(sparse_paths@), '_'),
                        ),
                    ),
                ),
                content: spec_snap_meta(
                    commit@,
                    crate::strutil::spec_join(seq_views(sparse_paths@), '_'),
                ),
            },
            CacheActionV::RenameDir {
                from: spec_abs_str(spec_snapshot_tmp(commit_path@)),
                to: spec_abs_str(commit_path@),
            },
        ]);
    }
    Some(v)
}

} // verus!
