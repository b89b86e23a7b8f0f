//! Repository identity: parsing a URL into a name and an encoded form
//! that together identify its cache directory.

use base64::Engine;
use vstd::prelude::*;
use vstd::string::StrSliceExecFns;
use vstd::string::StringExecFns;

use crate::errors::AddressError;
use crate::strutil::lemma_split_nonempty;
use crate::strutil::seq_views;
use crate::strutil::spec_join;
use crate::strutil::spec_split;
use crate::strutil::split_char;
use crate::strutil::strip_trailing;
use crate::strutil::join_char;
use crate::next::state::spec_strip_slash;

verus! {

/// What base64's URL-safe, unpadded alphabet encodes bytes to; the
/// result depends on the bytes alone.
pub uninterp spec fn b64url_of(bytes: Seq<u8>) -> Seq<char>;

/// Relies on `base64::engine::general_purpose::URL_SAFE_NO_PAD`: the
/// encoding is a function of the input bytes alone, and empty input
/// encodes to the empty string.
#[verifier::external_body]
fn b64_urlsafe_nopad(s: &str) -> (r: String)
    ensures
        r@ == b64url_of(vstd::utf8::encode_utf8(s@)),
        s@.len() == 0 ==> r@.len() == 0,
{
    base64::engine::general_purpose::URL_SAFE_NO_PAD.encode(s)
}

/// A parsed repository identity.
#[derive(Debug)]
pub struct Repo {
    pub name: String,
    pub encoded_url: String,
    pub url: String,
}

pub ghost struct RepoV {
    pub name: Seq<char>,
    pub encoded_url: Seq<char>,
    pub url: Seq<char>,
}

impl View for Repo {
    type V = RepoV;

    open spec fn view(&self) -> RepoV {
        RepoV { name: self.name@, encoded_url: self.encoded_url@, url: self.url@ }
    }
}

impl Repo {
    /// The cache directory name: the repository name and the encoded
    /// URL, joined by an underscore.
    pub fn dir_name(&self) -> (r: String)
        ensures
            r@ == self@.name + "_"@ + self@.encoded_url,
    {
        let mut r = self.name.clone();
        r.append("_");
        r.append(self.encoded_url.as_str());
        r
    }
}

/// The directory a repository is cached at: the store directory with the
/// repository's cache directory name appended.  The caller clones into
/// it when it does not exist yet; an existing directory is reused.
pub fn create_repo(store_dir: &crate::paths::AbsPath, repo: &Repo) -> (r: crate::paths::AbsPath)
    ensures
        r@ == store_dir@.push(repo@.name + "_"@ + repo@.encoded_url),
{
    let dir_name = repo.dir_name();
    store_dir.child(dir_name.as_str())
}

/// The part of the URL before its final segment, encoded so it can stand
/// in a file name.
pub open spec fn spec_repo_encoded(url: Seq<char>) -> Seq<char> {
    let stripped = spec_strip_slash(url);
    let parts = spec_split(stripped, '/');
    if parts.len() <= 1 {
        Seq::empty()
    } else {
        b64url_of(vstd::utf8::encode_utf8(spec_join(parts.drop_last(), '/')))
    }
}

/// Parses a repository URL into its identity: the name is the final
/// `/`-separated segment up to its first `.`, and the part before it is
/// base64url-encoded to keep the pair unique.  Only forward slashes
/// separate segments; a URL whose name would be empty is rejected.
pub fn parse_repo_url(url: String) -> (r: Result<Repo, AddressError>)
    ensures
        crate::next::state::spec_url_name_ok(url@) ==> (r matches Ok(rep) && rep@ == (RepoV {
            name: crate::next::state::spec_url_name(url@),
            encoded_url: spec_repo_encoded(url@),
            url: spec_strip_slash(url@),
        })),
        !crate::next::state::spec_url_name_ok(url@) ==> (r matches Err(
            AddressError::RepoParse(u),
        ) && u@ == url@),
{
    let stripped = strip_trailing(url.as_str(), '/');
    let name = match crate::next::state::parse_url_name(url.as_str()) {
        Ok(n) => n,
        Err(e) => {
            return Err(e);
        },
    };
    let mut parts = split_char(stripped.as_str(), '/');
    proof {
        lemma_split_nonempty(stripped@, '/');
    }
    let encoded_url = if parts.len() <= 1 {
        let e = String::new();
        proof {
            assert(e@ =~= Seq::<char>::empty());
        }
        e
    } else {
        let ghost pre = seq_views(parts@);
        let _last = parts.pop();
        proof {
            assert(seq_views(parts@) =~= pre.drop_last());
        }
        let pre_part = join_char(&parts, '/');
        b64_urlsafe_nopad(pre_part.as_str())
    };
    Ok(Repo { name, encoded_url, url: stripped })
}

} // verus!
