use vstd::prelude::*;

verus! {

/// `p` begins with `prefix`.
pub open spec fn has_prefix(p: Seq<char>, prefix: Seq<char>) -> bool {
    prefix.len() <= p.len() && p.subrange(0, prefix.len() as int) == prefix
}

pub open spec fn http_scheme() -> Seq<char> {
    seq!['h', 't', 't', 'p', ':', '/', '/']
}

pub open spec fn https_scheme() -> Seq<char> {
    seq!['h', 't', 't', 'p', 's', ':', '/', '/']
}

/// A path names a remote archive when it carries an HTTP(S) scheme.
pub open spec fn is_remote(p: Seq<char>) -> bool {
    has_prefix(p, http_scheme()) || has_prefix(p, https_scheme())
}

/// Whether `s` begins with `prefix`.
pub fn starts_with(s: &str, prefix: &str) -> (r: bool)
    ensures
        r == has_prefix(s@, prefix@),
{
    let n = prefix.unicode_len();
    let m = s.unicode_len();
    if n > m {
        return false;
    }
    let mut i: usize = 0;
    while i < n
        invariant
            n == prefix@.len(),
            m == s@.len(),
            n <= m,
            i <= n,
            s@.subrange(0, i as int) == prefix@.subrange(0, i as int),
        decreases n - i,
    {
        if s.get_char(i) != prefix.get_char(i) {
            assert(s@.subrange(0, n as int)[i as int] != prefix@[i as int]);
            return false;
        }
        assert(s@.subrange(0, i + 1) == s@.subrange(0, i as int).push(s@[i as int]));
        assert(prefix@.subrange(0, i + 1) == prefix@.subrange(0, i as int).push(prefix@[i as int]));
        i = i + 1;
    }
    assert(prefix@.subrange(0, n as int) == prefix@);
    true
}

/// Where a firmware archive comes from.
#[derive(Debug)]
pub enum ArchiveSource {
    RemoteUrl(String),
    LocalPath(String),
}

impl ArchiveSource {
    /// The path or URL the source was chosen from.
    pub open spec fn spec_path(&self) -> Seq<char> {
        match self {
            ArchiveSource::RemoteUrl(u) => u@,
            ArchiveSource::LocalPath(p) => p@,
        }
    }

    pub open spec fn spec_is_remote(&self) -> bool {
        self is RemoteUrl
    }

    /// Chooses remote when `path` begins with `http://` or `https://`, local otherwise.
    pub fn classify(path: String) -> (r: ArchiveSource)
        ensures
            r.spec_is_remote() == is_remote(path@),
            r.spec_path() == path@,
    {
        let remote = starts_with(path.as_str(), "http://") || starts_with(path.as_str(), "https://");
        proof {
            reveal_strlit("http://");
            reveal_strlit("https://");
            assert("http://"@ == http_scheme());
            assert("https://"@ == https_scheme());
        }
        if remote {
            ArchiveSource::RemoteUrl(path)
        } else {
            ArchiveSource::LocalPath(path)
        }
    }
}

impl Clone for ArchiveSource {
    fn clone(&self) -> (r: Self)
        ensures
            r == *self,
    {
        match self {
            ArchiveSource::RemoteUrl(u) => ArchiveSource::RemoteUrl(u.clone()),
            ArchiveSource::LocalPath(p) => ArchiveSource::LocalPath(p.clone()),
        }
    }
}

} // verus!
