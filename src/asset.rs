use vstd::prelude::*;

verus! {

/// `suf` is a suffix of `s`.
pub open spec fn has_suffix(s: Seq<char>, suf: Seq<char>) -> bool {
    suf.len() <= s.len() && s.subrange(s.len() - suf.len(), s.len() as int) == suf
}

/// `pre` is a prefix of `s`.
pub open spec fn has_prefix(s: Seq<char>, pre: Seq<char>) -> bool {
    pre.len() <= s.len() && s.subrange(0, pre.len() as int) == pre
}

/// The content type of a file, decided by its extension alone.
pub open spec fn mime_of(p: Seq<char>) -> Seq<char> {
    if has_suffix(p, ".wasm"@) {
        "application/wasm"@
    } else if has_suffix(p, ".html"@) {
        "text/html"@
    } else if has_suffix(p, ".js"@) {
        "application/javascript"@
    } else if has_suffix(p, ".css"@) {
        "text/css"@
    } else {
        "text/plain"@
    }
}

/// The file that a request path names: the default document for the root,
/// else the path under the static directory.
pub open spec fn asset_path_of(p: Seq<char>) -> Seq<char> {
    if p == "/"@ {
        "static/index.html"@
    } else {
        "static"@ + p
    }
}

/// A request path mapped to a file and its content type.
pub struct ResolvedAsset {
    pub file_path: String,
    pub content_type: String,
}

/// Whether `suf` is a suffix of `s`.
pub fn ends_with(s: &str, suf: &str) -> (r: bool)
    ensures
        r == has_suffix(s@, suf@),
{
    let n = s.unicode_len();
    let m = suf.unicode_len();
    if m > n {
        return false;
    }
    let off = n - m;
    let mut i: usize = 0;
    while i < m
        invariant
            n == s@.len(),
            m == suf@.len(),
            off == n - m,
            i <= m,
            forall|j: int| 0 <= j < i ==> s@[off + j] == suf@[j],
        decreases m - i,
    {
        if s.get_char(off + i) != suf.get_char(i) {
            assert(s@.subrange(off as int, n as int)[i as int] != suf@[i as int]);
            return false;
        }
        i += 1;
    }
    assert(s@.subrange(off as int, n as int) =~= suf@);
    true
}

/// Whether `pre` is a prefix of `s`.
pub fn starts_with(s: &str, pre: &str) -> (r: bool)
    ensures
        r == has_prefix(s@, pre@),
{
    let n = s.unicode_len();
    let m = pre.unicode_len();
    if m > n {
        return false;
    }
    let mut i: usize = 0;
    while i < m
        invariant
            n == s@.len(),
            m == pre@.len(),
            i <= m <= n,
            forall|j: int| 0 <= j < i ==> s@[j] == pre@[j],
        decreases m - i,
    {
        if s.get_char(i) != pre.get_char(i) {
            assert(s@.subrange(0, m as int)[i as int] != pre@[i as int]);
            return false;
        }
        i += 1;
    }
    assert(s@.subrange(0, m as int) =~= pre@);
    true
}

/// Whether two strings hold the same characters.
pub fn same_text(a: &str, b: &str) -> (r: bool)
    ensures
        r == (a@ == b@),
{
    let same = a.unicode_len() == b.unicode_len() && starts_with(a, b);
    proof {
        assert(a@.subrange(0, a@.len() as int) =~= a@);
        if a@.len() == b@.len() && has_prefix(a@, b@) {
            assert(a@ =~= a@.subrange(0, b@.len() as int));
        }
    }
    same
}

/// The content type of a file path, by its extension.
pub fn get_mime_type(path: &str) -> (r: &'static str)
    ensures
        r@ == mime_of(path@),
{
    if ends_with(path, ".wasm") {
        "application/wasm"
    } else if ends_with(path, ".html") {
        "text/html"
    } else if ends_with(path, ".js") {
        "application/javascript"
    } else if ends_with(path, ".css") {
        "text/css"
    } else {
        "text/plain"
    }
}

/// Maps a (non-API) request path to the file to serve and its content type.
pub fn resolve_asset(path: &str) -> (r: ResolvedAsset)
    ensures
        r.file_path@ == asset_path_of(path@),
        r.content_type@ == mime_of(asset_path_of(path@)),
{
    let file_path = if same_text(path, "/") {
        String::from_str("static/index.html")
    } else {
        let mut p = String::from_str("static");
        p.append(path);
        p
    };
    let content_type = String::from_str(get_mime_type(file_path.as_str()));
    ResolvedAsset { file_path, content_type }
}

} // verus!
