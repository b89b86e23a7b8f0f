//! Addresses, resolution state and the convergence engine.
//!
//! An [`Address`] says where to look next: a local directory or a Git
//! location.  Resolving one yields a [`State`]; reading and merging the
//! configurations inside its traversal window may redirect resolution to
//! a new address, and the engine repeats this until a fixed point is
//! reached or the hop bound is spent.
//!
//! Outside work is handed back to the caller as events: when a needed
//! directory configuration has not been supplied yet the engine asks for
//! it, and when a Git address has not been materialized yet the engine
//! asks for that.  The caller performs the work and calls again with the
//! answer added to the lookup tables; the engine itself is pure and
//! total.

use vstd::prelude::*;
use vstd::string::StrSliceExecFns;
use vstd::string::StringExecFns;

use crate::errors::AddressError;
use crate::errors::StateError;
use crate::errors::StateErrorKind;
use crate::next::config::vars_views;
use crate::next::config::ConfigVar;
use crate::next::config::ConfigVarV;
use crate::paths::spec_abs_str;
use crate::paths::spec_fold_abs;
use crate::paths::spec_rel_of;
use crate::paths::AbsPath;
use crate::paths::ParsedPath;
use crate::paths::RelPath;
use crate::strutil::lemma_split_nonempty;
use crate::strutil::seq_views;
use crate::strutil::spec_split;
use crate::strutil::split_char;
use crate::strutil::strip_trailing;

verus! {

/// Which anchor a relative input is resolved against when nothing more
/// specific was given: the current directory, or the enclosing Git
/// repository.
#[derive(Debug, Clone, Copy, PartialEq, Eq)]
pub enum InferContext {
    Cwd,
    Git,
}

impl Default for InferContext {
    /// The default anchor is the enclosing Git repository.
    fn default() -> (r: Self)
        ensures
            r == InferContext::Git,
    {
        InferContext::Git
    }
}

/// Caller-supplied input for a local address.
#[derive(Debug, Default)]
pub struct LocalAddressIn {
    pub resolve_root: Option<String>,
    pub state_path: Option<String>,
    pub state_root: Option<String>,
}

pub ghost struct LocalAddressInV {
    pub resolve_root: Option<Seq<char>>,
    pub state_path: Option<Seq<char>>,
    pub state_root: Option<Seq<char>>,
}

impl View for LocalAddressIn {
    type V = LocalAddressInV;

    open spec fn view(&self) -> LocalAddressInV {
        LocalAddressInV {
            resolve_root: crate::next::config::opt_str_view(self.resolve_root),
            state_path: crate::next::config::opt_str_view(self.state_path),
            state_root: crate::next::config::opt_str_view(self.state_root),
        }
    }
}

/// Caller-supplied input for a Git address.
#[derive(Debug, Default)]
pub struct GitAddressIn {
    pub url: Option<String>,
    pub local: bool,
    pub git_ref: Option<String>,
    pub target_resolve_root: Option<String>,
    pub state_path: Option<String>,
    pub state_root: Option<String>,
}

pub ghost struct GitAddressInV {
    pub url: Option<Seq<char>>,
    pub local: bool,
    pub git_ref: Option<Seq<char>>,
    pub target_resolve_root: Option<Seq<char>>,
    pub state_path: Option<Seq<char>>,
    pub state_root: Option<Seq<char>>,
}

impl View for GitAddressIn {
    type V = GitAddressInV;

    open spec fn view(&self) -> GitAddressInV {
        GitAddressInV {
            url: crate::next::config::opt_str_view(self.url),
            local: self.local,
            git_ref: crate::next::config::opt_str_view(self.git_ref),
            target_resolve_root: crate::next::config::opt_str_view(self.target_resolve_root),
            state_path: crate::next::config::opt_str_view(self.state_path),
            state_root: crate::next::config::opt_str_view(self.state_root),
        }
    }
}

/// Caller-supplied input for the initial address.
#[derive(Debug)]
pub enum AddressIn {
    Local(LocalAddressIn),
    Git(GitAddressIn),
}

pub ghost enum AddressInV {
    Local(LocalAddressInV),
    Git(GitAddressInV),
}

impl View for AddressIn {
    type V = AddressInV;

    open spec fn view(&self) -> AddressInV {
        match self {
            AddressIn::Local(l) => AddressInV::Local(l@),
            AddressIn::Git(g) => AddressInV::Git(g@),
        }
    }
}

impl AddressIn {
    /// The address a plain run starts from: local, with the given window.
    pub fn from_run(
        resolve_root: Option<String>,
        state_path: Option<String>,
        state_root: Option<String>,
    ) -> (r: Self)
        ensures
            r matches AddressIn::Local(l) && l@ == (LocalAddressInV {
                resolve_root: crate::next::config::opt_str_view(resolve_root),
                state_path: crate::next::config::opt_str_view(state_path),
                state_root: crate::next::config::opt_str_view(state_root),
            }),
    {
        AddressIn::Local(LocalAddressIn { resolve_root, state_path, state_root })
    }

    /// The address a secret command starts from: the same local shape.
    pub fn from_secret(
        resolve_root: Option<String>,
        state_path: Option<String>,
        state_root: Option<String>,
    ) -> (r: Self)
        ensures
            r matches AddressIn::Local(l) && l@ == (LocalAddressInV {
                resolve_root: crate::next::config::opt_str_view(resolve_root),
                state_path: crate::next::config::opt_str_view(state_path),
                state_root: crate::next::config::opt_str_view(state_root),
            }),
    {
        AddressIn::Local(LocalAddressIn { resolve_root, state_path, state_root })
    }

    /// The address a deploy starts from: a Git location.
    pub fn from_deploy(
        url: Option<String>,
        local: bool,
        git_ref: Option<String>,
        target_resolve_root: Option<String>,
        state_path: Option<String>,
        state_root: Option<String>,
    ) -> (r: Self)
        ensures
            r matches AddressIn::Git(g) && g@ == (GitAddressInV {
                url: crate::next::config::opt_str_view(url),
                local,
                git_ref: crate::next::config::opt_str_view(git_ref),
                target_resolve_root: crate::next::config::opt_str_view(target_resolve_root),
                state_path: crate::next::config::opt_str_view(state_path),
                state_root: crate::next::config::opt_str_view(state_root),
            }),
    {
        AddressIn::Git(GitAddressIn {
            url,
            local,
            git_ref,
            target_resolve_root,
            state_path,
            state_root,
        })
    }
}

/// Consecutive pairs of the input, a secret key followed by the
/// environment variable to put it in; a trailing unpaired element is
/// dropped.
pub open spec fn spec_pairs(s: Seq<Seq<char>>) -> Seq<ConfigVarV>
    decreases s.len(),
{
    if s.len() < 2 {
        Seq::empty()
    } else {
        seq![ConfigVarV { key: s[0], env_name: s[1] }] + spec_pairs(s.skip(2))
    }
}

/// Interprets the list as pairs of secret key and target environment
/// variable name.
pub fn parse_cli_vars(envs: Vec<String>) -> (r: Vec<ConfigVar>)
    ensures
        vars_views(r@) == spec_pairs(seq_views(envs@)),
{
    let mut r: Vec<ConfigVar> = Vec::new();
    let mut i: usize = 0;
    proof {
        assert(seq_views(envs@).skip(0) =~= seq_views(envs@));
        assert(vars_views(r@) =~= Seq::<ConfigVarV>::empty());
    }
    while i + 1 < envs.len()
        invariant
            i <= envs@.len(),
            vars_views(r@) + spec_pairs(seq_views(envs@).skip(i as int)) == spec_pairs(
                seq_views(envs@),
            ),
            i % 2 == 0,
        decreases envs@.len() - i,
    {
        proof {
            assert(seq_views(envs@).skip(i as int).skip(2) =~= seq_views(envs@).skip(
                i as int + 2,
            ));
            assert(seq_views(envs@).skip(i as int)[0] == envs@[i as int]@);
            assert(seq_views(envs@).skip(i as int)[1] == envs@[i as int + 1]@);
        }
        let v = ConfigVar { key: envs[i].clone(), env_name: envs[i + 1].clone() };
        r.push(v);
        proof {
            assert(vars_views(r@) =~= vars_views(r@.drop_last()).push(v@));
            assert(vars_views(r@) + spec_pairs(seq_views(envs@).skip(i as int + 2)) =~= spec_pairs(
                seq_views(envs@),
            ));
        }
        i = i + 2;
    }
    proof {
        assert(spec_pairs(seq_views(envs@).skip(i as int)) =~= Seq::<ConfigVarV>::empty());
        assert(vars_views(r@) =~= spec_pairs(seq_views(envs@)));
    }
    r
}

/// The input with one trailing `/` removed.
pub open spec fn spec_strip_slash(url: Seq<char>) -> Seq<char> {
    if url.len() > 0 && url.last() == '/' {
        url.drop_last()
    } else {
        url
    }
}

/// The name a URL or path carries: its final `/`-separated segment, up to
/// that segment's first `.` when it has one.
pub open spec fn spec_url_name(url: Seq<char>) -> Seq<char> {
    let stripped = spec_strip_slash(url);
    let parts = spec_split(stripped, '/');
    let last = parts.last();
    let dotparts = spec_split(last, '.');
    if dotparts.len() <= 1 {
        last
    } else {
        dotparts[0]
    }
}

/// Whether a usable, nonempty name can be derived.
pub open spec fn spec_url_name_ok(url: Seq<char>) -> bool {
    spec_url_name(url).len() > 0
}

/// Derives a name from a repository URL or path; only forward slashes
/// separate segments.  An input whose final segment gives an empty name
/// is rejected.
pub fn parse_url_name(url: &str) -> (r: Result<String, AddressError>)
    ensures
        spec_url_name_ok(url@) ==> (r matches Ok(n) && n@ == spec_url_name(url@)),
        !spec_url_name_ok(url@) ==> (r matches Err(AddressError::RepoParse(u)) && u@ == url@),
{
    let stripped = strip_trailing(url, '/');
    let parts = split_char(stripped.as_str(), '/');
    proof {
        lemma_split_nonempty(stripped@, '/');
        assert(seq_views(parts@).last() == parts@[parts@.len() - 1]@);
    }
    let last = &parts[parts.len() - 1];
    let dotparts = split_char(last.as_str(), '.');
    proof {
        lemma_split_nonempty(last@, '.');
        assert(seq_views(dotparts@)[0] == dotparts@[0]@);
    }
    let name = if dotparts.len() <= 1 {
        last.clone()
    } else {
        dotparts[0].clone()
    };
    if name.as_str().unicode_len() == 0 {
        Err(AddressError::RepoParse(url.to_owned()))
    } else {
        Ok(name)
    }
}

/// The URL of a local Git address resolved against an anchor directory:
/// a relative path becomes the anchor's rendering with it appended; an
/// absolute path or a remote URL stays as it is.
pub open spec fn spec_url_local(url: Seq<char>, local: bool, anchor: Seq<Seq<char>>) -> Seq<
    char,
> {
    if local && !(url.len() > 0 && url[0] == '/') {
        spec_abs_str(spec_fold_abs(anchor, spec_rel_of(url)))
    } else {
        url
    }
}

/// Resolves a local Git URL that was given as a relative path against
/// the anchor directory.
pub fn url_local(url: String, local: bool, anchor: &AbsPath) -> (r: String)
    ensures
        r@ == spec_url_local(url@, local, anchor@),
{
    if local {
        match AbsPath::parse_path(url.as_str()) {
            ParsedPath::Relative(rel) => anchor.join_rel(&rel).render(),
            ParsedPath::Absolute(_) => url,
        }
    } else {
        url
    }
}

/// A Git location: a URL (possibly a local path), the ref to resolve,
/// and the path inside the materialized snapshot that becomes the
/// resolution root.
#[derive(Debug)]
pub struct GitAddress {
    pub url: String,
    pub local: bool,
    pub git_ref: String,
    pub path: RelPath,
}

pub ghost struct GitAddressV {
    pub url: Seq<char>,
    pub local: bool,
    pub git_ref: Seq<char>,
    pub path: Seq<Seq<char>>,
}

impl View for GitAddress {
    type V = GitAddressV;

    open spec fn view(&self) -> GitAddressV {
        GitAddressV { url: self.url@, local: self.local, git_ref: self.git_ref@, path: self.path@ }
    }
}

impl GitAddress {
    pub fn dup(&self) -> (r: GitAddress)
        ensures
            r@ == self@,
    {
        GitAddress {
            url: self.url.clone(),
            local: self.local,
            git_ref: self.git_ref.clone(),
            path: self.path.dup(),
        }
    }

    /// View-level equality.
    pub fn same(&self, other: &GitAddress) -> (r: bool)
        ensures
            r == (self@ == other@),
    {
        let r = crate::strutil::str_eq(self.url.as_str(), other.url.as_str()) && self.local
            == other.local && crate::strutil::str_eq(self.git_ref.as_str(), other.git_ref.as_str())
            && self.path.same(&other.path);
        proof {
            if r {
                assert(self@ == other@);
            }
        }
        r
    }
}

/// What an address anchors at: a local directory, or Git content that
/// still has to be materialized.
#[derive(Debug)]
pub enum AddressRoot {
    /// Either absolute or relative to the previous resolution root.
    Local(AbsPath),
    Git(GitAddress),
}

pub ghost enum AddressRootV {
    Local(Seq<Seq<char>>),
    Git(GitAddressV),
}

impl View for AddressRoot {
    type V = AddressRootV;

    open spec fn view(&self) -> AddressRootV {
        match self {
            AddressRoot::Local(p) => AddressRootV::Local(p@),
            AddressRoot::Git(g) => AddressRootV::Git(g@),
        }
    }
}

impl AddressRoot {
    pub fn dup(&self) -> (r: AddressRoot)
        ensures
            r@ == self@,
    {
        match self {
            AddressRoot::Local(p) => AddressRoot::Local(p.dup()),
            AddressRoot::Git(g) => AddressRoot::Git(g.dup()),
        }
    }
}

/// Where to look next, together with the traversal window to use there.
#[derive(Debug)]
pub struct Address {
    pub name: String,
    pub root: AddressRoot,
    pub state_root: RelPath,
    pub state_path: RelPath,
}

pub ghost struct AddressV {
    pub name: Seq<char>,
    pub root: AddressRootV,
    pub state_root: Seq<Seq<char>>,
    pub state_path: Seq<Seq<char>>,
}

impl View for Address {
    type V = AddressV;

    open spec fn view(&self) -> AddressV {
        AddressV {
            name: self.name@,
            root: self.root@,
            state_root: self.state_root@,
            state_path: self.state_path@,
        }
    }
}

impl Address {
    pub fn dup(&self) -> (r: Address)
        ensures
            r@ == self@,
    {
        Address {
            name: self.name.clone(),
            root: self.root.dup(),
            state_root: self.state_root.dup(),
            state_path: self.state_path.dup(),
        }
    }
}

/// A resolution state: a concrete root, the traversal window inside it,
/// and a pending address when configuration redirected resolution.
#[derive(Debug)]
pub struct State {
    pub name: String,
    pub state_root: RelPath,
    pub state_path: RelPath,
    pub resolve_root: AbsPath,
    pub address: Option<Address>,
    /// The commit a Git materialization pinned, carried into the final
    /// state's hash.
    pub commit: Option<String>,
}

pub ghost struct StateV {
    pub name: Seq<char>,
    pub state_root: Seq<Seq<char>>,
    pub state_path: Seq<Seq<char>>,
    pub resolve_root: Seq<Seq<char>>,
    pub address: Option<AddressV>,
    pub commit: Option<Seq<char>>,
}

pub open spec fn opt_address_view(o: Option<Address>) -> Option<AddressV> {
    match o {
        Some(a) => Some(a@),
        None => None,
    }
}

impl View for State {
    type V = StateV;

    open spec fn view(&self) -> StateV {
        StateV {
            name: self.name@,
            state_root: self.state_root@,
            state_path: self.state_path@,
            resolve_root: self.resolve_root@,
            address: opt_address_view(self.address),
            commit: crate::next::config::opt_str_view(self.commit),
        }
    }
}

/// The fixed point of a resolution, ready for argument and secret
/// resolution.
#[derive(Debug)]
pub struct ResolveState {
    pub state_root: AbsPath,
    pub state_path: RelPath,
    pub resolve_root: AbsPath,
    pub name: String,
    pub sub: String,
    pub hash: String,
}

pub ghost struct ResolveStateV {
    pub state_root: Seq<Seq<char>>,
    pub state_path: Seq<Seq<char>>,
    pub resolve_root: Seq<Seq<char>>,
    pub name: Seq<char>,
    pub sub: Seq<char>,
    pub hash: Seq<char>,
}

impl View for ResolveState {
    type V = ResolveStateV;

    open spec fn view(&self) -> ResolveStateV {
        ResolveStateV {
            state_root: self.state_root@,
            state_path: self.state_path@,
            resolve_root: self.resolve_root@,
            name: self.name@,
            sub: self.sub@,
            hash: self.hash@,
        }
    }
}

/// The normalized relative path of an optional string, empty when
/// absent.
pub open spec fn spec_opt_rel(o: Option<Seq<char>>) -> Seq<Seq<char>> {
    match o {
        Some(s) => spec_rel_of(s),
        None => Seq::empty(),
    }
}

/// Parses an optional relative path, the empty path when absent.
pub fn opt_rel(o: &Option<String>) -> (r: RelPath)
    ensures
        r@ == spec_opt_rel(crate::next::config::opt_str_view(*o)),
{
    match o {
        Some(s) => RelPath::parse(s.as_str()),
        None => RelPath::empty(),
    }
}

/// A configured local root resolved against the previous resolution
/// root: an absolute path stands alone, a relative one is joined.
pub open spec fn spec_local_root(path: Seq<char>, root: Seq<Seq<char>>) -> Seq<Seq<char>> {
    if path.len() > 0 && path[0] == '/' {
        crate::paths::spec_abs_of_tail(path.drop_first())
    } else {
        spec_fold_abs(root, spec_rel_of(path))
    }
}

fn local_root(path: &str, root: &AbsPath) -> (r: AbsPath)
    ensures
        r@ == spec_local_root(path@, root@),
{
    match AbsPath::parse_path(path) {
        ParsedPath::Absolute(a) => a,
        ParsedPath::Relative(rel) => root.join_rel(&rel),
    }
}

/// The string a configured address derives its name from: the resolved
/// URL for Git, the rendered resolved root for a local address.
pub open spec fn spec_addr_name_src(v: crate::next::config::ConfigAddressV, root: Seq<Seq<char>>)
    -> Seq<char> {
    match v {
        crate::next::config::ConfigAddressV::Git { url, local, .. } => spec_url_local(
            url,
            local == Some(true),
            root,
        ),
        crate::next::config::ConfigAddressV::Local { path, .. } => spec_abs_str(
            spec_local_root(path, root),
        ),
    }
}

/// Whether a configured address yields a usable name.
pub open spec fn spec_config_addr_ok(
    v: crate::next::config::ConfigAddressV,
    root: Seq<Seq<char>>,
) -> bool {
    spec_url_name_ok(spec_addr_name_src(v, root))
}

/// The address a configured address stands for, resolved against the
/// previous resolution root.
pub open spec fn spec_from_config_addr(
    v: crate::next::config::ConfigAddressV,
    root: Seq<Seq<char>>,
) -> AddressV {
    match v {
        crate::next::config::ConfigAddressV::Git {
            url,
            local,
            git_ref,
            target_path,
            state_path,
            state_root,
        } => {
            let loc = local == Some(true);
            let u = spec_url_local(url, loc, root);
            AddressV {
                name: spec_url_name(u),
                root: AddressRootV::Git(
                    GitAddressV { url: u, local: loc, git_ref, path: spec_opt_rel(target_path) },
                ),
                state_path: spec_opt_rel(state_path),
                state_root: spec_opt_rel(state_root),
            }
        },
        crate::next::config::ConfigAddressV::Local { path, state_path, state_root } => {
            AddressV {
                name: spec_url_name(spec_abs_str(spec_local_root(path, root))),
                root: AddressRootV::Local(spec_local_root(path, root)),
                state_path: spec_opt_rel(state_path),
                state_root: spec_opt_rel(state_root),
            }
        },
    }
}

impl Address {
    /// Turns a configured address into a concrete one, resolving its URL
    /// or path against the previous resolution root and deriving its
    /// name; an address whose name would be empty is rejected.
    pub fn from_config_addr(value: crate::next::config::ConfigAddress, resolve_root: &AbsPath)
        -> (r: Result<Address, StateError>)
        ensures
            spec_config_addr_ok(value@, resolve_root@) ==> (r matches Ok(a) && a@
                == spec_from_config_addr(value@, resolve_root@)),
            !spec_config_addr_ok(value@, resolve_root@) ==> (r matches Err(e) && e.kind matches
                StateErrorKind::Address(ae) && ae matches AddressError::RepoParse(u) && u@
                == spec_addr_name_src(value@, resolve_root@)),
    {
        match value {
            crate::next::config::ConfigAddress::Git {
                url,
                local,
                git_ref,
                target_path,
                state_path,
                state_root,
            } => {
                let loc = match local {
                    Some(b) => b,
                    None => false,
                };
                let u = url_local(url, loc, resolve_root);
                match parse_url_name(u.as_str()) {
                    Ok(name) => Ok(
                        Address {
                            name,
                            root: AddressRoot::Git(
                                GitAddress {
                                    url: u,
                                    local: loc,
                                    git_ref,
                                    path: opt_rel(&target_path),
                                },
                            ),
                            state_path: opt_rel(&state_path),
                            state_root: opt_rel(&state_root),
                        },
                    ),
                    Err(ae) => Err(
                        StateError {
                            msg: String::from_str("Cannot get name from url."),
                            kind: StateErrorKind::Address(ae),
                        },
                    ),
                }
            },
            crate::next::config::ConfigAddress::Local { path, state_path, state_root } => {
                let root = local_root(path.as_str(), resolve_root);
                let rendered = root.render();
                match parse_url_name(rendered.as_str()) {
                    Ok(name) => Ok(
                        Address {
                            name,
                            root: AddressRoot::Local(root),
                            state_path: opt_rel(&state_path),
                            state_root: opt_rel(&state_root),
                        },
                    ),
                    Err(ae) => Err(
                        StateError {
                            msg: String::from_str("Error getting name from address root!"),
                            kind: StateErrorKind::Address(ae),
                        },
                    ),
                }
            },
        }
    }
}

/// Whether merging this state section would be accepted.
pub open spec fn spec_merge_ok(st: StateV, sc: crate::next::config::StateConfigV) -> bool {
    match sc.address {
        Some(a) => spec_config_addr_ok(a, st.resolve_root),
        None => true,
    }
}

/// The state after a merged configuration's state section is applied:
/// window fields it sets are replaced, a configured address overrides a
/// pending one, and the root is kept.
pub open spec fn spec_merge_config(st: StateV, sc: crate::next::config::StateConfigV) -> StateV {
    StateV {
        name: st.name,
        state_path: match sc.state_path {
            Some(p) => spec_rel_of(p),
            None => st.state_path,
        },
        state_root: match sc.state_root {
            Some(p) => spec_rel_of(p),
            None => st.state_root,
        },
        resolve_root: st.resolve_root,
        address: match sc.address {
            Some(a) => Some(spec_from_config_addr(a, st.resolve_root)),
            None => st.address,
        },
        commit: st.commit,
    }
}

/// Two states converge to the same point when their root and normalized
/// window agree.
pub open spec fn spec_same(a: StateV, b: StateV) -> bool {
    a.resolve_root == b.resolve_root && a.state_path == b.state_path && a.state_root
        == b.state_root
}

impl State {
    pub fn dup(&self) -> (r: State)
        ensures
            r@ == self@,
    {
        State {
            name: self.name.clone(),
            state_root: self.state_root.dup(),
            state_path: self.state_path.dup(),
            resolve_root: self.resolve_root.dup(),
            address: match &self.address {
                Some(a) => Some(a.dup()),
                None => None,
            },
            commit: crate::next::config::opt_str_dup(&self.commit),
        }
    }

    /// Applies a merged configuration's state section to this state.
    pub fn merge_config(&self, other: crate::next::config::StateConfig) -> (r: Result<
        State,
        StateError,
    >)
        ensures
            spec_merge_ok(self@, other@) ==> (r matches Ok(s) && s@ == spec_merge_config(
                self@,
                other@,
            )),
            !spec_merge_ok(self@, other@) ==> (r matches Err(e) && e.kind matches
                StateErrorKind::Address(ae) && ae matches AddressError::RepoParse(u) && u@
                == spec_addr_name_src(other@.address->0, self@.resolve_root)),
    {
        let address = match other.address {
            Some(a) => Some(Address::from_config_addr(a, &self.resolve_root)?),
            None => match &self.address {
                Some(a) => Some(a.dup()),
                None => None,
            },
        };
        let state = State {
            name: self.name.clone(),
            state_path: match &other.state_path {
                Some(p) => RelPath::parse(p.as_str()),
                None => self.state_path.dup(),
            },
            state_root: match &other.state_root {
                Some(p) => RelPath::parse(p.as_str()),
                None => self.state_root.dup(),
            },
            resolve_root: self.resolve_root.dup(),
            address,
            commit: crate::next::config::opt_str_dup(&self.commit),
        };
        Ok(state)
    }

    /// Whether another state is the same for the purposes of converging:
    /// same root and same normalized traversal window.
    pub fn same(&self, other: &State) -> (r: bool)
        ensures
            r == spec_same(self@, other@),
    {
        self.resolve_root.same(&other.resolve_root) && self.state_path.same(&other.state_path)
            && self.state_root.same(&other.state_root)
    }
}

/// One directory whose configuration the caller has read, keyed by the
/// directory's rendered absolute path.
pub struct ConfigEntry {
    pub dir: String,
    pub config: crate::next::config::Config,
}

pub ghost struct ConfigEntryV {
    pub dir: Seq<char>,
    pub config: crate::next::config::ConfigV,
}

impl View for ConfigEntry {
    type V = ConfigEntryV;

    open spec fn view(&self) -> ConfigEntryV {
        ConfigEntryV { dir: self.dir@, config: self.config@ }
    }
}

/// The first configuration recorded for a directory, if any.
pub open spec fn spec_lookup_config(entries: Seq<ConfigEntryV>, dir: Seq<char>) -> Option<
    crate::next::config::ConfigV,
>
    decreases entries.len(),
{
    if entries.len() == 0 {
        None
    } else if entries[0].dir == dir {
        Some(entries[0].config)
    } else {
        spec_lookup_config(entries.drop_first(), dir)
    }
}

/// The directory configurations the caller has supplied so far.
pub struct ConfigLookup {
    entries: Vec<ConfigEntry>,
}

impl View for ConfigLookup {
    type V = Seq<ConfigEntryV>;

    closed spec fn view(&self) -> Seq<ConfigEntryV> {
        self.entries@.map_values(|e: ConfigEntry| e@)
    }
}

impl ConfigLookup {
    pub fn new() -> (r: ConfigLookup)
        ensures
            r@ == Seq::<ConfigEntryV>::empty(),
    {
        let r = ConfigLookup { entries: Vec::new() };
        proof {
            assert(r@ =~= Seq::<ConfigEntryV>::empty());
        }
        r
    }

    /// Records the configuration read at a directory.
    pub fn add(&mut self, dir: String, config: crate::next::config::Config)
        ensures
            final(self)@ == old(self)@.push(
                ConfigEntryV { dir: dir@, config: config@ },
            ),
    {
        let ghost pre = self@;
        self.entries.push(ConfigEntry { dir, config });
        proof {
            assert(self@ =~= pre.push(self.entries@.last()@));
        }
    }

    /// The configuration recorded for a directory, if one is.
    pub fn get(&self, dir: &str) -> (r: Option<crate::next::config::Config>)
        ensures
            match spec_lookup_config(self@, dir@) {
                Some(c) => r matches Some(rc) && rc@ == c,
                None => r is None,
            },
    {
        let mut i: usize = 0;
        proof {
            assert(self@.skip(0) =~= self@);
        }
        while i < self.entries.len()
            invariant
                i <= self.entries@.len(),
                self@.len() == self.entries@.len(),
                forall|j: int| 0 <= j < self@.len() ==> #[trigger] self@[j] == self.entries@[j]@,
                spec_lookup_config(self@, dir@) == spec_lookup_config(self@.skip(i as int), dir@),
            decreases self.entries@.len() - i,
        {
            proof {
                assert(self@.skip(i as int).drop_first() =~= self@.skip(i as int + 1));
                assert(self@.skip(i as int)[0] == self@[i as int]);
            }
            if crate::strutil::str_eq(self.entries[i].dir.as_str(), dir) {
                return Some(self.entries[i].config.dup());
            }
            i = i + 1;
        }
        None
    }
}

/// What one Git materialization produced: the derived repository name,
/// the snapshot directory and the commit it pinned.
pub struct GitResolved {
    pub name: String,
    pub commit_path: AbsPath,
    pub commit: String,
}

pub ghost struct GitResolvedV {
    pub name: Seq<char>,
    pub commit_path: Seq<Seq<char>>,
    pub commit: Seq<char>,
}

impl View for GitResolved {
    type V = GitResolvedV;

    open spec fn view(&self) -> GitResolvedV {
        GitResolvedV { name: self.name@, commit_path: self.commit_path@, commit: self.commit@ }
    }
}

/// One materialized Git address, keyed by the address and the traversal
/// window it was materialized for.
pub struct GitEntry {
    pub address: GitAddress,
    pub state_path: RelPath,
    pub state_root: RelPath,
    pub resolved: GitResolved,
}

pub ghost struct GitEntryV {
    pub address: GitAddressV,
    pub state_path: Seq<Seq<char>>,
    pub state_root: Seq<Seq<char>>,
    pub resolved: GitResolvedV,
}

impl View for GitEntry {
    type V = GitEntryV;

    open spec fn view(&self) -> GitEntryV {
        GitEntryV {
            address: self.address@,
            state_path: self.state_path@,
            state_root: self.state_root@,
            resolved: self.resolved@,
        }
    }
}

/// The first materialization recorded for this address and window.
pub open spec fn spec_lookup_git(
    entries: Seq<GitEntryV>,
    addr: GitAddressV,
    sp: Seq<Seq<char>>,
    sr: Seq<Seq<char>>,
) -> Option<GitResolvedV>
    decreases entries.len(),
{
    if entries.len() == 0 {
        None
    } else if entries[0].address == addr && entries[0].state_path == sp && entries[0].state_root
        == sr {
        Some(entries[0].resolved)
    } else {
        spec_lookup_git(entries.drop_first(), addr, sp, sr)
    }
}

/// The Git materializations the caller has performed so far.
pub struct GitLookup {
    entries: Vec<GitEntry>,
}

impl View for GitLookup {
    type V = Seq<GitEntryV>;

    closed spec fn view(&self) -> Seq<GitEntryV> {
        self.entries@.map_values(|e: GitEntry| e@)
    }
}

impl GitLookup {
    pub fn new() -> (r: GitLookup)
        ensures
            r@ == Seq::<GitEntryV>::empty(),
    {
        let r = GitLookup { entries: Vec::new() };
        proof {
            assert(r@ =~= Seq::<GitEntryV>::empty());
        }
        r
    }

    /// Records what materializing an address produced.
    pub fn add(
        &mut self,
        address: GitAddress,
        state_path: RelPath,
        state_root: RelPath,
        resolved: GitResolved,
    )
        ensures
            final(self)@ == old(self)@.push(
                GitEntryV {
                    address: address@,
                    state_path: state_path@,
                    state_root: state_root@,
                    resolved: resolved@,
                },
            ),
    {
        let ghost pre = self@;
        self.entries.push(GitEntry { address, state_path, state_root, resolved });
        proof {
            assert(self@ =~= pre.push(self.entries@.last()@));
        }
    }

    /// The recorded materialization for this address and window, if one
    /// is.
    pub fn get(&self, addr: &GitAddress, sp: &RelPath, sr: &RelPath) -> (r: Option<GitResolved>)
        ensures
            match spec_lookup_git(self@, addr@, sp@, sr@) {
                Some(g) => r matches Some(rg) && rg@ == g,
                None => r is None,
            },
    {
        let mut i: usize = 0;
        proof {
            assert(self@.skip(0) =~= self@);
        }
        while i < self.entries.len()
            invariant
                i <= self.entries@.len(),
                self@.len() == self.entries@.len(),
                forall|j: int| 0 <= j < self@.len() ==> #[trigger] self@[j] == self.entries@[j]@,
                spec_lookup_git(self@, addr@, sp@, sr@) == spec_lookup_git(
                    self@.skip(i as int),
                    addr@,
                    sp@,
                    sr@,
                ),
            decreases self.entries@.len() - i,
        {
            proof {
                assert(self@.skip(i as int).drop_first() =~= self@.skip(i as int + 1));
                assert(self@.skip(i as int)[0] == self@[i as int]);
            }
            if self.entries[i].address.same(addr) && self.entries[i].state_path.same(sp)
                && self.entries[i].state_root.same(sr) {
                let e = &self.entries[i];
                return Some(
                    GitResolved {
                        name: e.resolved.name.clone(),
                        commit_path: e.resolved.commit_path.dup(),
                        commit: e.resolved.commit.clone(),
                    },
                );
            }
            i = i + 1;
        }
        None
    }
}

/// What resolving one address yields without touching the outside world:
/// a state, or the Git materialization that is still missing.
pub enum Resolved {
    St(State),
    NeedGit(GitAddress, RelPath, RelPath),
}

pub ghost enum ResolvedV {
    St(StateV),
    NeedGit(GitAddressV, Seq<Seq<char>>, Seq<Seq<char>>),
}

/// Resolution of one address against the recorded materializations: a
/// local address is its own root; a Git address uses its recorded
/// snapshot, with the address's target path joined onto it.
pub open spec fn spec_resolve_address(a: AddressV, gits: Seq<GitEntryV>) -> ResolvedV {
    match a.root {
        AddressRootV::Local(p) => ResolvedV::St(
            StateV {
                name: a.name,
                state_root: a.state_root,
                state_path: a.state_path,
                resolve_root: p,
                address: None,
                commit: None,
            },
        ),
        AddressRootV::Git(ga) => match spec_lookup_git(gits, ga, a.state_path, a.state_root) {
            Some(res) => ResolvedV::St(
                StateV {
                    name: res.name,
                    state_root: a.state_root,
                    state_path: a.state_path,
                    resolve_root: spec_fold_abs(res.commit_path, ga.path),
                    address: None,
                    commit: Some(res.commit),
                },
            ),
            None => ResolvedV::NeedGit(ga, a.state_path, a.state_root),
        },
    }
}

/// Resolves one address, or reports the materialization it still needs.
pub fn resolve_address(address: Address, gits: &GitLookup) -> (r: Resolved)
    ensures
        ({
            let s = spec_resolve_address(address@, gits@);
            &&& (s matches ResolvedV::St(sv) ==> (r matches Resolved::St(st) && st@ == sv))
            &&& (s matches ResolvedV::NeedGit(g, p, q) ==> (r matches Resolved::NeedGit(
                ge,
                pe,
                qe,
            ) && ge@ == g && pe@ == p && qe@ == q))
        }),
{
    let Address { name, root, state_root, state_path } = address;
    match root {
        AddressRoot::Local(p) => Resolved::St(
            State {
                name,
                state_root,
                state_path,
                resolve_root: p,
                address: None,
                commit: None,
            },
        ),
        AddressRoot::Git(ga) => match gits.get(&ga, &state_path, &state_root) {
            Some(res) => {
                let resolve_root = res.commit_path.join_rel(&ga.path);
                Resolved::St(
                    State {
                        name: res.name,
                        state_root,
                        state_path,
                        resolve_root,
                        address: None,
                        commit: Some(res.commit),
                    },
                )
            },
            None => Resolved::NeedGit(ga, state_path, state_root),
        },
    }
}

/// The directories one traversal pass visits: the window root, followed
/// by one directory per segment of the state path.
pub open spec fn spec_state_dirs(st: StateV) -> Seq<Seq<Seq<char>>> {
    let root = spec_fold_abs(st.resolve_root, st.state_root);
    seq![root] + Seq::new(st.state_path.len() as nat, |i: int| spec_fold_abs(
        root,
        st.state_path.take(i + 1),
    ))
}

/// The first listed directory that has no recorded configuration.
pub open spec fn spec_first_missing(
    dirs: Seq<Seq<Seq<char>>>,
    cfgs: Seq<ConfigEntryV>,
) -> Option<Seq<Seq<char>>>
    decreases dirs.len(),
{
    if dirs.len() == 0 {
        None
    } else if spec_lookup_config(cfgs, spec_abs_str(dirs[0])) is None {
        Some(dirs[0])
    } else {
        spec_first_missing(dirs.drop_first(), cfgs)
    }
}

/// The recorded configurations of the listed directories, in order.
pub open spec fn spec_dir_configs(
    dirs: Seq<Seq<Seq<char>>>,
    cfgs: Seq<ConfigEntryV>,
) -> Seq<crate::next::config::ConfigV> {
    Seq::new(dirs.len(), |i: int| spec_lookup_config(cfgs, spec_abs_str(dirs[i]))->0)
}

/// The merged configuration one traversal pass produces for this state.
pub open spec fn spec_merged_of(st: StateV, cfgs: Seq<ConfigEntryV>)
    -> crate::next::config::ConfigV {
    let cs = spec_dir_configs(spec_state_dirs(st), cfgs);
    crate::next::config::spec_merge_chain(cs[0], cs.drop_first())
}

/// A failure the convergence engine itself can raise.
pub ghost enum ConvergeErrV {
    /// A configured address has no usable name; carries the string the
    /// name was derived from.
    BadName(Seq<char>),
    /// The hop bound was spent before a fixed point was reached.
    TooManyRedirects,
}

/// What a convergence run yields.
pub ghost enum ConvergedV {
    Done(StateV),
    NeedConfig(Seq<char>),
    NeedGit(GitAddressV, Seq<Seq<char>>, Seq<Seq<char>>),
    Failed(ConvergeErrV),
}

/// What a convergence run yields: the fixed point, a request for outside
/// work, or a failure.
pub enum Converged {
    /// The stable state: its address is cleared and another merge pass
    /// would change nothing.
    Done(State),
    /// The rendered path of a directory whose configuration is needed.
    NeedConfig(String),
    /// A Git address that has to be materialized for this window: the
    /// state path and state root it is resolved with.
    NeedGit(GitAddress, RelPath, RelPath),
    Failed(StateError),
}

/// How an executable outcome realizes a spec-level one.
pub open spec fn converged_matches(r: Converged, s: ConvergedV) -> bool {
    &&& (s matches ConvergedV::Done(sv) ==> (r matches Converged::Done(st) && st@ == sv))
    &&& (s matches ConvergedV::NeedConfig(d) ==> (r matches Converged::NeedConfig(ds) && ds@
        == d))
    &&& (s matches ConvergedV::NeedGit(g, p, q) ==> (r matches Converged::NeedGit(ge, pe, qe)
        && ge@ == g && pe@ == p && qe@ == q))
    &&& (s matches ConvergedV::Failed(ConvergeErrV::TooManyRedirects) ==> (r matches
        Converged::Failed(e) && e.kind matches StateErrorKind::TooManyRedirects))
    &&& (s matches ConvergedV::Failed(ConvergeErrV::BadName(u)) ==> (r matches Converged::Failed(
        e,
    ) && e.kind matches StateErrorKind::Address(ae) && ae matches AddressError::RepoParse(uu)
        && uu@ == u))
}

/// Convergence from an address: resolve it, converge from the state.
pub open spec fn spec_converge_address(
    a: AddressV,
    cfgs: Seq<ConfigEntryV>,
    gits: Seq<GitEntryV>,
    fuel: nat,
) -> ConvergedV
    decreases fuel, 2int,
{
    match spec_resolve_address(a, gits) {
        ResolvedV::NeedGit(g, p, q) => ConvergedV::NeedGit(g, p, q),
        ResolvedV::St(st) => spec_converge_state(st, cfgs, gits, fuel),
    }
}

/// Convergence from a state: merge the configurations in its window; no
/// state section or an unchanged window is a fixed point of this pass,
/// anything else consumes one hop and repeats.
pub open spec fn spec_converge_state(
    st: StateV,
    cfgs: Seq<ConfigEntryV>,
    gits: Seq<GitEntryV>,
    fuel: nat,
) -> ConvergedV
    decreases fuel, 1int,
{
    let dirs = spec_state_dirs(st);
    match spec_first_missing(dirs, cfgs) {
        Some(d) => ConvergedV::NeedConfig(spec_abs_str(d)),
        None => {
            let merged = spec_merged_of(st, cfgs);
            match merged.state {
                None => spec_finish_state(st, cfgs, gits, fuel),
                Some(sc) => if !spec_merge_ok(st, sc) {
                    ConvergedV::Failed(
                        ConvergeErrV::BadName(spec_addr_name_src(sc.address->0, st.resolve_root)),
                    )
                } else {
                    let st2 = spec_merge_config(st, sc);
                    if spec_same(st2, st) {
                        spec_finish_state(st2, cfgs, gits, fuel)
                    } else if fuel == 0 {
                        ConvergedV::Failed(ConvergeErrV::TooManyRedirects)
                    } else {
                        spec_converge_state(st2, cfgs, gits, (fuel - 1) as nat)
                    }
                },
            }
        },
    }
}

/// A stable window: done when no address is pending, else one hop is
/// spent following the address.
pub open spec fn spec_finish_state(
    st: StateV,
    cfgs: Seq<ConfigEntryV>,
    gits: Seq<GitEntryV>,
    fuel: nat,
) -> ConvergedV
    decreases fuel, 0int,
{
    match st.address {
        None => ConvergedV::Done(st),
        Some(a) => if fuel == 0 {
            ConvergedV::Failed(ConvergeErrV::TooManyRedirects)
        } else {
            spec_converge_address(a, cfgs, gits, (fuel - 1) as nat)
        },
    }
}

/// The views of a vector of absolute paths.
pub open spec fn abs_views(v: Seq<AbsPath>) -> Seq<Seq<Seq<char>>> {
    v.map_values(|p: AbsPath| p@)
}

/// The directories one traversal pass over this state visits.
fn state_dirs(st: &State) -> (r: Vec<AbsPath>)
    ensures
        abs_views(r@) == spec_state_dirs(st@),
{
    let root = st.resolve_root.join_rel(&st.state_root);
    let mut comps = root.component_paths(&st.state_path);
    let mut r: Vec<AbsPath> = Vec::new();
    r.push(root);
    r.append(&mut comps);
    proof {
        assert(abs_views(r@) =~= spec_state_dirs(st@));
    }
    r
}

/// Looks every listed directory up, or names the first missing one.
pub(crate) fn gather_configs(dirs: &Vec<AbsPath>, cfgs: &ConfigLookup) -> (r: Result<
    Vec<crate::next::config::Config>,
    String,
>)
    ensures
        match spec_first_missing(abs_views(dirs@), cfgs@) {
            Some(d) => r matches Err(ds) && ds@ == spec_abs_str(d),
            None => r matches Ok(v) && crate::next::config::configs_views(v@) == spec_dir_configs(
                abs_views(dirs@),
                cfgs@,
            ),
        },
{
    let mut out: Vec<crate::next::config::Config> = Vec::new();
    let mut i: usize = 0;
    proof {
        assert(abs_views(dirs@).skip(0) =~= abs_views(dirs@));
    }
    while i < dirs.len()
        invariant
            i <= dirs@.len(),
            out@.len() == i,
            spec_first_missing(abs_views(dirs@), cfgs@) == spec_first_missing(
                abs_views(dirs@).skip(i as int),
                cfgs@,
            ),
            forall|j: int|
                0 <= j < i ==> (#[trigger] out@[j])@ == spec_lookup_config(
                    cfgs@,
                    spec_abs_str(abs_views(dirs@)[j]),
                )->0,
        decreases dirs@.len() - i,
    {
        proof {
            assert(abs_views(dirs@).skip(i as int).drop_first() =~= abs_views(dirs@).skip(
                i as int + 1,
            ));
            assert(abs_views(dirs@).skip(i as int)[0] == abs_views(dirs@)[i as int]);
        }
        let rendered = dirs[i].render();
        match cfgs.get(rendered.as_str()) {
            Some(c) => {
                out.push(c);
            },
            None => {
                return Err(rendered);
            },
        }
        i = i + 1;
    }
    proof {
        assert(crate::next::config::configs_views(out@) =~= spec_dir_configs(
            abs_views(dirs@),
            cfgs@,
        ));
    }
    Ok(out)
}

/// Follows one address and converges from what it resolves to.
pub fn converge_address(a: Address, cfgs: &ConfigLookup, gits: &GitLookup, fuel: u32) -> (r:
    Converged)
    ensures
        converged_matches(r, spec_converge_address(a@, cfgs@, gits@, fuel as nat)),
    decreases fuel, 2int,
{
    match resolve_address(a, gits) {
        Resolved::NeedGit(g, p, q) => Converged::NeedGit(g, p, q),
        Resolved::St(st) => converge_state(st, cfgs, gits, fuel),
    }
}

/// Runs merge passes from this state until the window stops changing,
/// asking the caller for any directory configuration it is missing, and
/// spending one hop per pass; a spent hop bound is a hard error, so a
/// redirect cycle can never make resolution hang.
pub fn converge_state(st: State, cfgs: &ConfigLookup, gits: &GitLookup, fuel: u32) -> (r:
    Converged)
    ensures
        converged_matches(r, spec_converge_state(st@, cfgs@, gits@, fuel as nat)),
    decreases fuel, 1int,
{
    let dirs = state_dirs(&st);
    match gather_configs(&dirs, cfgs) {
        Err(d) => Converged::NeedConfig(d),
        Ok(mut cv) => {
            proof {
                assert(spec_state_dirs(st@).len() >= 1);
                assert(crate::next::config::configs_views(cv@).len() >= 1);
            }
            let root_cfg = cv.remove(0);
            let ghost all = spec_dir_configs(spec_state_dirs(st@), cfgs@);
            proof {
                assert(crate::next::config::configs_views(cv@) =~= all.drop_first());
            }
            let merged = crate::next::config::merge_config_chain(root_cfg, cv);
            proof {
                assert(merged@ == spec_merged_of(st@, cfgs@));
            }
            match merged.state {
                None => finish_state(st, cfgs, gits, fuel),
                Some(sc) => {
                    match st.merge_config(sc) {
                        Err(e) => Converged::Failed(e),
                        Ok(st2) => {
                            if st2.same(&st) {
                                finish_state(st2, cfgs, gits, fuel)
                            } else if fuel == 0 {
                                Converged::Failed(
                                    StateError {
                                        msg: String::from_str("Too many redirects."),
                                        kind: StateErrorKind::TooManyRedirects,
                                    },
                                )
                            } else {
                                converge_state(st2, cfgs, gits, fuel - 1)
                            }
                        },
                    }
                },
            }
        },
    }
}

/// Finishes a stable window: done, or one hop into the pending address.
pub fn finish_state(st: State, cfgs: &ConfigLookup, gits: &GitLookup, fuel: u32) -> (r: Converged)
    ensures
        converged_matches(r, spec_finish_state(st@, cfgs@, gits@, fuel as nat)),
    decreases fuel, 0int,
{
    let State { name, state_root, state_path, resolve_root, address, commit } = st;
    match address {
        None => Converged::Done(
            State { name, state_root, state_path, resolve_root, address: None, commit },
        ),
        Some(a) => {
            if fuel == 0 {
                Converged::Failed(
                    StateError {
                        msg: String::from_str("Too many redirects."),
                        kind: StateErrorKind::TooManyRedirects,
                    },
                )
            } else {
                converge_address(a, cfgs, gits, fuel - 1)
            }
        },
    }
}

/// A state at a fixed point of the convergence loop: no address is
/// pending, every directory of its window has a known configuration,
/// and the window's merged configuration either has no state section or
/// leaves the whole state unchanged by another merge pass.
pub open spec fn spec_is_fixed_point(s: StateV, cfgs: Seq<ConfigEntryV>) -> bool {
    &&& s.address is None
    &&& spec_first_missing(spec_state_dirs(s), cfgs) is None
    &&& match spec_merged_of(s, cfgs).state {
        None => true,
        Some(sc) => spec_merge_ok(s, sc) && spec_merge_config(s, sc) == s,
    }
}

/// Stability (law): a state the convergence engine declares done is a
/// true fixed point — running one more merge pass over its window could
/// not change it, and no address is left pending.
pub proof fn lemma_done_is_fixed_point(
    a: AddressV,
    cfgs: Seq<ConfigEntryV>,
    gits: Seq<GitEntryV>,
    fuel: nat,
)
    ensures
        spec_converge_address(a, cfgs, gits, fuel) matches ConvergedV::Done(s)
            ==> spec_is_fixed_point(s, cfgs),
    decreases fuel, 3int,
{
    match spec_resolve_address(a, gits) {
        ResolvedV::NeedGit(_, _, _) => {
        },
        ResolvedV::St(st) => {
            lemma_state_done_is_fixed_point(st, cfgs, gits, fuel);
        },
    }
}

proof fn lemma_state_done_is_fixed_point(
    st: StateV,
    cfgs: Seq<ConfigEntryV>,
    gits: Seq<GitEntryV>,
    fuel: nat,
)
    ensures
        spec_converge_state(st, cfgs, gits, fuel) matches ConvergedV::Done(s)
            ==> spec_is_fixed_point(s, cfgs),
    decreases fuel, 1int,
{
    let dirs = spec_state_dirs(st);
    match spec_first_missing(dirs, cfgs) {
        Some(_) => {
        },
        None => {
            let merged = spec_merged_of(st, cfgs);
            match merged.state {
                None => {
                    lemma_finish_done_is_fixed_point(st, cfgs, gits, fuel);
                },
                Some(sc) => {
                    if spec_merge_ok(st, sc) {
                        let st2 = spec_merge_config(st, sc);
                        if spec_same(st2, st) {
                            assert(spec_state_dirs(st2) =~= spec_state_dirs(st));
                            assert(spec_merged_of(st2, cfgs) == merged);
                            assert(spec_merge_ok(st2, sc));
                            if st2.address is None {
                                assert(sc.address is None);
                                assert(spec_merge_config(st2, sc) == st2);
                            }
                            lemma_finish_done_is_fixed_point(st2, cfgs, gits, fuel);
                        } else if fuel == 0 {
                        } else {
                            lemma_state_done_is_fixed_point(st2, cfgs, gits, (fuel - 1) as nat);
                        }
                    }
                },
            }
        },
    }
}

proof fn lemma_finish_done_is_fixed_point(
    st: StateV,
    cfgs: Seq<ConfigEntryV>,
    gits: Seq<GitEntryV>,
    fuel: nat,
)
    requires
        st.address is None ==> spec_is_fixed_point(st, cfgs),
    ensures
        spec_finish_state(st, cfgs, gits, fuel) matches ConvergedV::Done(s)
            ==> spec_is_fixed_point(s, cfgs),
    decreases fuel, 0int,
{
    match st.address {
        None => {
        },
        Some(a) => {
            if fuel > 0 {
                lemma_done_is_fixed_point(a, cfgs, gits, (fuel - 1) as nat);
            }
        },
    }
}

/// Stability, the other direction (law): a state that already is a fixed
/// point is declared done at once with itself as the result, whatever
/// hop budget remains — convergence never moves past a fixed point.
pub proof fn lemma_fixed_point_is_done(
    st: StateV,
    cfgs: Seq<ConfigEntryV>,
    gits: Seq<GitEntryV>,
    fuel: nat,
)
    requires
        spec_is_fixed_point(st, cfgs),
    ensures
        spec_converge_state(st, cfgs, gits, fuel) == ConvergedV::Done(st),
{
    let merged = spec_merged_of(st, cfgs);
    match merged.state {
        None => {
            assert(spec_converge_state(st, cfgs, gits, fuel) == spec_finish_state(
                st,
                cfgs,
                gits,
                fuel,
            ));
        },
        Some(sc) => {
            let st2 = spec_merge_config(st, sc);
            assert(st2 == st);
            assert(spec_same(st2, st));
            assert(spec_converge_state(st, cfgs, gits, fuel) == spec_finish_state(
                st2,
                cfgs,
                gits,
                fuel,
            ));
        },
    }
}

/// The fuel-consuming transitions the engine performs from an address:
/// this mirrors `spec_converge_address` step for step, adding one
/// exactly where the engine spends one hop.
pub open spec fn spec_hops_address(
    a: AddressV,
    cfgs: Seq<ConfigEntryV>,
    gits: Seq<GitEntryV>,
    fuel: nat,
) -> nat
    decreases fuel, 2int,
{
    match spec_resolve_address(a, gits) {
        ResolvedV::NeedGit(_, _, _) => 0,
        ResolvedV::St(st) => spec_hops_state(st, cfgs, gits, fuel),
    }
}

/// The fuel-consuming transitions from a state: one per merge pass that
/// changes the window, mirroring `spec_converge_state`.
pub open spec fn spec_hops_state(
    st: StateV,
    cfgs: Seq<ConfigEntryV>,
    gits: Seq<GitEntryV>,
    fuel: nat,
) -> nat
    decreases fuel, 1int,
{
    let dirs = spec_state_dirs(st);
    match spec_first_missing(dirs, cfgs) {
        Some(_) => 0,
        None => {
            let merged = spec_merged_of(st, cfgs);
            match merged.state {
                None => spec_hops_finish(st, cfgs, gits, fuel),
                Some(sc) => if !spec_merge_ok(st, sc) {
                    0
                } else {
                    let st2 = spec_merge_config(st, sc);
                    if spec_same(st2, st) {
                        spec_hops_finish(st2, cfgs, gits, fuel)
                    } else if fuel == 0 {
                        0
                    } else {
                        1 + spec_hops_state(st2, cfgs, gits, (fuel - 1) as nat)
                    }
                },
            }
        },
    }
}

/// The fuel-consuming transitions from a stable window: one per
/// followed address, mirroring `spec_finish_state`.
pub open spec fn spec_hops_finish(
    st: StateV,
    cfgs: Seq<ConfigEntryV>,
    gits: Seq<GitEntryV>,
    fuel: nat,
) -> nat
    decreases fuel, 0int,
{
    match st.address {
        None => 0,
        Some(a) => if fuel == 0 {
            0
        } else {
            1 + spec_hops_address(a, cfgs, gits, (fuel - 1) as nat)
        },
    }
}

/// Hop bound (law): for every input, the total number of inner
/// (window-changing merge) and outer (address-following) transitions
/// the convergence engine performs never exceeds the hop budget it was
/// given; at the bound it stops with the explicit too-many-redirects
/// failure instead of transitioning further, so a resolution run with
/// budget `MAX_HOPS` makes at most `MAX_HOPS` transitions.
pub proof fn lemma_hops_bounded(
    a: AddressV,
    cfgs: Seq<ConfigEntryV>,
    gits: Seq<GitEntryV>,
    fuel: nat,
)
    ensures
        spec_hops_address(a, cfgs, gits, fuel) <= fuel,
    decreases fuel, 2int,
{
    match spec_resolve_address(a, gits) {
        ResolvedV::NeedGit(_, _, _) => {
        },
        ResolvedV::St(st) => {
            lemma_hops_state_bounded(st, cfgs, gits, fuel);
        },
    }
}

proof fn lemma_hops_state_bounded(
    st: StateV,
    cfgs: Seq<ConfigEntryV>,
    gits: Seq<GitEntryV>,
    fuel: nat,
)
    ensures
        spec_hops_state(st, cfgs, gits, fuel) <= fuel,
    decreases fuel, 1int,
{
    let dirs = spec_state_dirs(st);
    match spec_first_missing(dirs, cfgs) {
        Some(_) => {
        },
        None => {
            let merged = spec_merged_of(st, cfgs);
            match merged.state {
                None => {
                    lemma_hops_finish_bounded(st, cfgs, gits, fuel);
                },
                Some(sc) => {
                    if spec_merge_ok(st, sc) {
                        let st2 = spec_merge_config(st, sc);
                        if spec_same(st2, st) {
                            lemma_hops_finish_bounded(st2, cfgs, gits, fuel);
                        } else if fuel == 0 {
                        } else {
                            lemma_hops_state_bounded(st2, cfgs, gits, (fuel - 1) as nat);
                        }
                    }
                },
            }
        },
    }
}

proof fn lemma_hops_finish_bounded(
    st: StateV,
    cfgs: Seq<ConfigEntryV>,
    gits: Seq<GitEntryV>,
    fuel: nat,
)
    ensures
        spec_hops_finish(st, cfgs, gits, fuel) <= fuel,
    decreases fuel, 0int,
{
    match st.address {
        None => {
        },
        Some(a) => {
            if fuel > 0 {
                lemma_hops_bounded(a, cfgs, gits, (fuel - 1) as nat);
            }
        },
    }
}

/// The hop bound a resolution run starts with: the total number of
/// inner and outer transitions allowed before convergence is declared
/// failed.
pub const MAX_HOPS: u32 = 64;

/// A configuration whose only content is a redirect to a local address.
pub open spec fn spec_redirect_cfg(target: Seq<char>) -> crate::next::config::ConfigV {
    crate::next::config::ConfigV {
        argument: None,
        state: Some(
            crate::next::config::StateConfigV {
                address: Some(
                    crate::next::config::ConfigAddressV::Local {
                        path: target,
                        state_path: None,
                        state_root: None,
                    },
                ),
                state_path: None,
                state_root: None,
            },
        ),
    }
}

/// Convergence termination: when the configuration at directory `a`
/// redirects to directory `b` and the one at `b` redirects back to `a`,
/// convergence from either directory ends in the too-many-redirects
/// failure, whatever the hop bound — it can never hang and never claim a
/// fixed point.
pub proof fn lemma_redirect_cycle_fails(
    cfgs: Seq<ConfigEntryV>,
    gits: Seq<GitEntryV>,
    sa: Seq<char>,
    sb: Seq<char>,
    st: StateV,
    fuel: nat,
)
    requires
        sa.len() > 0 && sa[0] == '/',
        sb.len() > 0 && sb[0] == '/',
        spec_lookup_config(
            cfgs,
            spec_abs_str(crate::paths::spec_abs_of_tail(sa.drop_first())),
        ) == Some(spec_redirect_cfg(sb)),
        spec_lookup_config(
            cfgs,
            spec_abs_str(crate::paths::spec_abs_of_tail(sb.drop_first())),
        ) == Some(spec_redirect_cfg(sa)),
        spec_url_name_ok(spec_abs_str(crate::paths::spec_abs_of_tail(sa.drop_first()))),
        spec_url_name_ok(spec_abs_str(crate::paths::spec_abs_of_tail(sb.drop_first()))),
        st.resolve_root == crate::paths::spec_abs_of_tail(sa.drop_first()),
        st.state_root == Seq::<Seq<char>>::empty(),
        st.state_path == Seq::<Seq<char>>::empty(),
    ensures
        spec_converge_state(st, cfgs, gits, fuel) == ConvergedV::Failed(
            ConvergeErrV::TooManyRedirects,
        ),
    decreases fuel,
{
    let pa = crate::paths::spec_abs_of_tail(sa.drop_first());
    let pb = crate::paths::spec_abs_of_tail(sb.drop_first());
    let dirs = spec_state_dirs(st);
    assert(spec_fold_abs(st.resolve_root, st.state_root) == pa);
    assert(dirs =~= seq![pa]);
    assert(spec_lookup_config(cfgs, spec_abs_str(pa)) is Some);
    assert(dirs[0] == pa);
    assert(dirs.drop_first() =~= Seq::<Seq<Seq<char>>>::empty());
    assert(spec_first_missing(dirs.drop_first(), cfgs) is None);
    assert(spec_first_missing(dirs, cfgs) is None);
    let cs = spec_dir_configs(dirs, cfgs);
    assert(cs =~= seq![spec_redirect_cfg(sb)]);
    assert(cs.drop_first() =~= Seq::<crate::next::config::ConfigV>::empty());
    let merged = spec_merged_of(st, cfgs);
    assert(merged == spec_redirect_cfg(sb));
    let sc = merged.state->0;
    assert(spec_local_root(sb, st.resolve_root) == pb);
    assert(spec_merge_ok(st, sc));
    let st2 = spec_merge_config(st, sc);
    assert(spec_same(st2, st));
    assert(st2.address is Some);
    assert(spec_converge_state(st, cfgs, gits, fuel) == spec_finish_state(st2, cfgs, gits, fuel));
    if fuel == 0 {
        assert(spec_finish_state(st2, cfgs, gits, fuel) == ConvergedV::Failed(
            ConvergeErrV::TooManyRedirects,
        ));
    } else {
        let addr = st2.address->0;
        assert(spec_finish_state(st2, cfgs, gits, fuel) == spec_converge_address(
            addr,
            cfgs,
            gits,
            (fuel - 1) as nat,
        ));
        assert(addr.root == AddressRootV::Local(pb));
        assert(addr.state_path =~~= Seq::<Seq<char>>::empty());
        assert(addr.state_root =~~= Seq::<Seq<char>>::empty());
        let next = spec_resolve_address(addr, gits);
        match next {
            ResolvedV::St(s2) => {
                assert(s2.resolve_root == pb);
                assert(s2.state_root == Seq::<Seq<char>>::empty());
                assert(s2.state_path == Seq::<Seq<char>>::empty());
                assert(spec_converge_address(addr, cfgs, gits, (fuel - 1) as nat)
                    == spec_converge_state(s2, cfgs, gits, (fuel - 1) as nat));
                lemma_redirect_cycle_fails(cfgs, gits, sb, sa, s2, (fuel - 1) as nat);
            },
            ResolvedV::NeedGit(_, _, _) => {
                assert(false);
            },
        }
    }
}

/// Anchor information the caller gathered for address construction: the
/// current directory, and what the enclosing Git repository reported when
/// the caller consulted it.
pub struct InferInfo {
    pub current_dir: AbsPath,
    /// The URL of the `origin` remote, when the caller read one.
    pub git_origin_url: Option<String>,
    /// The repository's top-level directory, when the caller read one.
    pub git_root_dir: Option<AbsPath>,
}

pub ghost struct InferInfoV {
    pub current_dir: Seq<Seq<char>>,
    pub git_origin_url: Option<Seq<char>>,
    pub git_root_dir: Option<Seq<Seq<char>>>,
}

impl View for InferInfo {
    type V = InferInfoV;

    open spec fn view(&self) -> InferInfoV {
        InferInfoV {
            current_dir: self.current_dir@,
            git_origin_url: crate::next::config::opt_str_view(self.git_origin_url),
            git_root_dir: match &self.git_root_dir {
                Some(p) => Some(p@),
                None => None,
            },
        }
    }
}

/// Whether building this address must read the enclosing repository's
/// origin URL.
pub open spec fn spec_needs_origin(v: AddressInV, ctx: InferContext) -> bool {
    v matches AddressInV::Git(g) && g.url is None && ctx == InferContext::Git
}

/// Whether building this address must know the enclosing repository's
/// root directory.
pub open spec fn spec_needs_root_dir(v: AddressInV, ctx: InferContext) -> bool {
    v matches AddressInV::Local(_) && ctx == InferContext::Git
}

/// The URL the initial Git address uses.
pub open spec fn spec_addr_in_url(g: GitAddressInV, ctx: InferContext, info: InferInfoV) -> Seq<
    char,
> {
    match g.url {
        Some(u) => spec_url_local(u, g.local, info.current_dir),
        None => match ctx {
            InferContext::Git => info.git_origin_url->0,
            InferContext::Cwd => spec_abs_str(info.current_dir),
        },
    }
}

/// The root directory the initial local address uses.
pub open spec fn spec_addr_in_root(l: LocalAddressInV, ctx: InferContext, info: InferInfoV)
    -> Seq<Seq<char>> {
    let base = match ctx {
        InferContext::Cwd => info.current_dir,
        InferContext::Git => info.git_root_dir->0,
    };
    match l.resolve_root {
        Some(s) => spec_local_root(s, base),
        None => base,
    }
}

/// Whether the initial address yields a usable name.
pub open spec fn spec_addr_in_ok(v: AddressInV, ctx: InferContext, info: InferInfoV) -> bool {
    match v {
        AddressInV::Git(g) => spec_url_name_ok(spec_addr_in_url(g, ctx, info)),
        AddressInV::Local(l) => spec_url_name_ok(spec_abs_str(spec_addr_in_root(l, ctx, info))),
    }
}

/// The address the caller-supplied input stands for.
pub open spec fn spec_from_addr_in(v: AddressInV, ctx: InferContext, info: InferInfoV)
    -> AddressV {
    match v {
        AddressInV::Git(g) => {
            let u = spec_addr_in_url(g, ctx, info);
            AddressV {
                name: spec_url_name(u),
                root: AddressRootV::Git(
                    GitAddressV {
                        url: u,
                        local: g.local,
                        git_ref: match g.git_ref {
                            Some(r) => r,
                            None => "HEAD"@,
                        },
                        path: spec_opt_rel(g.target_resolve_root),
                    },
                ),
                state_path: spec_opt_rel(g.state_path),
                state_root: spec_opt_rel(g.state_root),
            }
        },
        AddressInV::Local(l) => {
            let root = spec_addr_in_root(l, ctx, info);
            AddressV {
                name: spec_url_name(spec_abs_str(root)),
                root: AddressRootV::Local(root),
                state_path: spec_opt_rel(l.state_path),
                state_root: spec_opt_rel(l.state_root),
            }
        },
    }
}

impl Address {
    /// Builds the initial address from caller input.  A relative local
    /// root is anchored at the current directory or the Git root,
    /// according to the context; a Git address without a URL falls back
    /// to the origin remote or the current directory.  Anchor information
    /// the input needs but the caller could not gather is an error, as is
    /// an address without a usable name.
    pub fn from_addr_in(value: AddressIn, infer_ctx: InferContext, info: &InferInfo) -> (r:
        Result<Address, StateError>)
        ensures
            spec_needs_origin(value@, infer_ctx) && info@.git_origin_url is None ==> (r matches
                Err(e) && e.kind matches StateErrorKind::Git(_)),
            spec_needs_root_dir(value@, infer_ctx) && info@.git_root_dir is None ==> (r matches
                Err(e) && e.kind matches StateErrorKind::Git(_)),
            (spec_needs_origin(value@, infer_ctx) ==> info@.git_origin_url is Some) && (
            spec_needs_root_dir(value@, infer_ctx) ==> info@.git_root_dir is Some) ==> {
                &&& spec_addr_in_ok(value@, infer_ctx, info@) ==> (r matches Ok(a) && a@
                    == spec_from_addr_in(value@, infer_ctx, info@))
                &&& !spec_addr_in_ok(value@, infer_ctx, info@) ==> (r matches Err(e)
                    && e.kind matches StateErrorKind::Address(_))
            },
    {
        match value {
            AddressIn::Git(g) => {
                let GitAddressIn { url, local, git_ref, target_resolve_root, state_path, state_root }
                    = g;
                let u = match url {
                    Some(u) => url_local(u, local, &info.current_dir),
                    None => match infer_ctx {
                        InferContext::Git => match &info.git_origin_url {
                            Some(o) => o.clone(),
                            None => {
                                return Err(
                                    StateError {
                                        msg: String::from_str(
                                            "Error resolving current Git repository.",
                                        ),
                                        kind: StateErrorKind::Git(
                                            crate::errors::GitError::Failed(
                                                String::from_str("origin URL was not read"),
                                            ),
                                        ),
                                    },
                                );
                            },
                        },
                        InferContext::Cwd => info.current_dir.render(),
                    },
                };
                match parse_url_name(u.as_str()) {
                    Ok(name) => Ok(
                        Address {
                            name,
                            root: AddressRoot::Git(
                                GitAddress {
                                    url: u,
                                    local,
                                    git_ref: match git_ref {
                                        Some(r) => r,
                                        None => String::from_str("HEAD"),
                                    },
                                    path: opt_rel(&target_resolve_root),
                                },
                            ),
                            state_path: opt_rel(&state_path),
                            state_root: opt_rel(&state_root),
                        },
                    ),
                    Err(ae) => Err(
                        StateError {
                            msg: String::from_str("Cannot get name from url."),
                            kind: StateErrorKind::Address(ae),
                        },
                    ),
                }
            },
            AddressIn::Local(l) => {
                let LocalAddressIn { resolve_root, state_path, state_root } = l;
                let base = match infer_ctx {
                    InferContext::Cwd => info.current_dir.dup(),
                    InferContext::Git => match &info.git_root_dir {
                        Some(p) => p.dup(),
                        None => {
                            return Err(
                                StateError {
                                    msg: String::from_str(
                                        "Error resolving current Git repository.",
                                    ),
                                    kind: StateErrorKind::Git(
                                        crate::errors::GitError::Failed(
                                            String::from_str("repository root was not read"),
                                        ),
                                    ),
                                },
                            );
                        },
                    },
                };
                let root = match &resolve_root {
                    Some(s) => local_root(s.as_str(), &base),
                    None => base,
                };
                let rendered = root.render();
                match parse_url_name(rendered.as_str()) {
                    Ok(name) => Ok(
                        Address {
                            name,
                            root: AddressRoot::Local(root),
                            state_path: opt_rel(&state_path),
                            state_root: opt_rel(&state_root),
                        },
                    ),
                    Err(ae) => Err(
                        StateError {
                            msg: String::from_str("Cannot get name from resolve root."),
                            kind: StateErrorKind::Address(ae),
                        },
                    ),
                }
            },
        }
    }
}

/// The final resolution product of a converged state: the traversal
/// window made absolute, the derived name, and the pinned commit or the
/// default sentinel as its hash.
pub open spec fn spec_resolve_state_of(st: StateV) -> ResolveStateV {
    ResolveStateV {
        state_root: spec_fold_abs(st.resolve_root, st.state_root),
        state_path: st.state_path,
        resolve_root: st.resolve_root,
        name: st.name,
        sub: "tidploy_root"@,
        hash: match st.commit {
            Some(c) => c,
            None => "tidploy_default_hash"@,
        },
    }
}

/// What one resolution run yields.
pub enum Resolution {
    Done(ResolveState),
    /// The rendered path of a directory whose configuration is needed.
    NeedConfig(String),
    /// A Git address that has to be materialized for this window: the
    /// state path and state root it is resolved with.
    NeedGit(GitAddress, RelPath, RelPath),
    Failed(StateError),
}

/// How an executable resolution realizes a spec-level convergence.
pub open spec fn resolution_matches(r: Resolution, s: ConvergedV) -> bool {
    &&& (s matches ConvergedV::Done(sv) ==> (r matches Resolution::Done(rs) && rs@
        == spec_resolve_state_of(sv)))
    &&& (s matches ConvergedV::NeedConfig(d) ==> (r matches Resolution::NeedConfig(ds) && ds@
        == d))
    &&& (s matches ConvergedV::NeedGit(g, p, q) ==> (r matches Resolution::NeedGit(ge, pe, qe)
        && ge@ == g && pe@ == p && qe@ == q))
    &&& (s matches ConvergedV::Failed(_) ==> r matches Resolution::Failed(_))
}

/// Builds the initial address and converges it to a final resolution
/// state, asking the caller for directory configurations and Git
/// materializations as they come up.
pub fn create_resolve_state(
    addr_in: AddressIn,
    infer_ctx: InferContext,
    info: &InferInfo,
    cfgs: &ConfigLookup,
    gits: &GitLookup,
    fuel: u32,
) -> (r: Resolution)
    ensures
        (spec_needs_origin(addr_in@, infer_ctx) ==> info@.git_origin_url is Some) && (
        spec_needs_root_dir(addr_in@, infer_ctx) ==> info@.git_root_dir is Some) && spec_addr_in_ok(
            addr_in@,
            infer_ctx,
            info@,
        ) ==> resolution_matches(
            r,
            spec_converge_address(
                spec_from_addr_in(addr_in@, infer_ctx, info@),
                cfgs@,
                gits@,
                fuel as nat,
            ),
        ),
        spec_needs_origin(addr_in@, infer_ctx) && info@.git_origin_url is None ==> r matches
            Resolution::Failed(_),
        spec_needs_root_dir(addr_in@, infer_ctx) && info@.git_root_dir is None ==> r matches
            Resolution::Failed(_),
        (spec_needs_origin(addr_in@, infer_ctx) ==> info@.git_origin_url is Some) && (
        spec_needs_root_dir(addr_in@, infer_ctx) ==> info@.git_root_dir is Some)
            && !spec_addr_in_ok(addr_in@, infer_ctx, info@) ==> r matches Resolution::Failed(_),
{
    let address = match Address::from_addr_in(addr_in, infer_ctx, info) {
        Ok(a) => a,
        Err(e) => {
            return Resolution::Failed(e);
        },
    };
    match converge_address(address, cfgs, gits, fuel) {
        Converged::Done(state) => {
            let State { name, state_root, state_path, resolve_root, address: _, commit } = state;
            let state_root_abs = resolve_root.join_rel(&state_root);
            Resolution::Done(
                ResolveState {
                    state_root: state_root_abs,
                    state_path,
                    resolve_root,
                    name,
                    sub: String::from_str("tidploy_root"),
                    hash: match commit {
                        Some(c) => c,
                        None => String::from_str("tidploy_default_hash"),
                    },
                },
            )
        },
        Converged::NeedConfig(d) => Resolution::NeedConfig(d),
        Converged::NeedGit(g, p, q) => Resolution::NeedGit(g, p, q),
        Converged::Failed(e) => Resolution::Failed(e),
    }
}

} // verus!
