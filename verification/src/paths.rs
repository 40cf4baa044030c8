//! Safety predicates and normalization for client-supplied path names.
//!
//! Uploaded videos are addressed by a bare filename; static assets by a
//! relative path. Neither may reach outside its directory, so both reject
//! path separators that do not belong there and any `..` occurrence.

use vstd::prelude::*;

verus! {

/// A character that can never act as a path separator.
pub open spec fn sep_free_char(c: char) -> bool {
    c != '/' && c != '\\'
}

/// Two consecutive dots occur somewhere in `s`.
pub open spec fn has_dotdot(s: Seq<char>) -> bool {
    exists|i: int| 0 <= i && i + 1 < s.len() && #[trigger] s[i] == '.' && s[i + 1] == '.'
}

/// A name that is safe to use as a single file name inside the content
/// directory: non-empty, free of path separators, and not a reference to the
/// current or parent directory.
pub open spec fn valid_filename(s: Seq<char>) -> bool {
    &&& s.len() > 0
    &&& (forall|i: int| 0 <= i < s.len() ==> sep_free_char(#[trigger] s[i]))
    &&& !has_dotdot(s)
    &&& !(s.len() == 1 && s[0] == '.')
}

/// A relative asset path that cannot escape the asset directory: non-empty,
/// not absolute, free of backslashes and of any `..` occurrence.
pub open spec fn valid_asset_path(s: Seq<char>) -> bool {
    &&& s.len() > 0
    &&& s[0] != '/'
    &&& (forall|i: int| 0 <= i < s.len() ==> #[trigger] s[i] != '\\')
    &&& !has_dotdot(s)
}

/// Decides `valid_filename` on an executable string.
pub fn is_safe_filename(s: &str) -> (r: bool)
    ensures
        r == valid_filename(s@),
{
    let n = s.unicode_len();
    if n == 0 {
        return false;
    }
    let mut i: usize = 0;
    while i < n
        invariant
            n == s@.len(),
            0 <= i <= n,
            forall|j: int| 0 <= j < i ==> sep_free_char(#[trigger] s@[j]),
            forall|j: int| 0 <= j < i && j + 1 < n ==> !(#[trigger] s@[j] == '.' && s@[j + 1] == '.'),
        decreases n - i,
    {
        let c = s.get_char(i);
        if c == '/' || c == '\\' {
            return false;
        }
        if i + 1 < n && c == '.' && s.get_char(i + 1) == '.' {
            return false;
        }
        i = i + 1;
    }
    if n == 1 && s.get_char(0) == '.' {
        return false;
    }
    true
}

/// Decides `valid_asset_path` on an executable string.
pub fn is_safe_asset_path(s: &str) -> (r: bool)
    ensures
        r == valid_asset_path(s@),
{
    let n = s.unicode_len();
    if n == 0 {
        return false;
    }
    if s.get_char(0) == '/' {
        return false;
    }
    let mut i: usize = 0;
    while i < n
        invariant
            n == s@.len(),
            0 <= i <= n,
            forall|j: int| 0 <= j < i ==> #[trigger] s@[j] != '\\',
            forall|j: int| 0 <= j < i && j + 1 < n ==> !(#[trigger] s@[j] == '.' && s@[j + 1] == '.'),
        decreases n - i,
    {
        let c = s.get_char(i);
        if c == '\\' {
            return false;
        }
        if i + 1 < n && c == '.' && s.get_char(i + 1) == '.' {
            return false;
        }
        i = i + 1;
    }
    true
}

/// The asset-path normalization: strip a single leading slash, and default an
/// empty path to `index.html`.
pub open spec fn normalize_path(s: Seq<char>) -> Seq<char> {
    let t = if s.len() > 0 && s[0] == '/' {
        s.subrange(1, s.len() as int)
    } else {
        s
    };
    if t.len() == 0 {
        "index.html"@
    } else {
        t
    }
}

/// Applies `normalize_path` to an executable string.
pub fn normalize(s: &str) -> (r: String)
    ensures
        r@ == normalize_path(s@),
{
    let n = s.unicode_len();
    if n == 0 {
        return String::from_str("index.html");
    }
    if s.get_char(0) == '/' {
        if n == 1 {
            String::from_str("index.html")
        } else {
            let rest = s.substring_char(1, n);
            String::from_str(rest)
        }
    } else {
        String::from_str(s)
    }
}

/// A path traversal attempt (one that mentions a parent directory) is never a
/// valid filename nor a valid asset path, and normalization does not launder
/// it: the normalized path still mentions the parent directory.
pub proof fn lemma_traversal_never_valid(s: Seq<char>)
    requires
        has_dotdot(s),
    ensures
        !valid_filename(s),
        !valid_asset_path(s),
        has_dotdot(normalize_path(s)),
        !valid_asset_path(normalize_path(s)),
{
    let i = choose|i: int| 0 <= i && i + 1 < s.len() && #[trigger] s[i] == '.' && s[i + 1] == '.';
    let t = normalize_path(s);
    if s.len() > 0 && s[0] == '/' {
        let u = s.subrange(1, s.len() as int);
        if i == 0 {
            // s starts with "/", so the dots cannot sit at position 0
            assert(s[0] == '/');
            assert(false);
        }
        assert(u[i - 1] == s[i] && u[i] == s[i + 1]);
        assert(has_dotdot(u));
        assert(u.len() > 0);
        assert(t == u);
    } else {
        assert(t == s);
    }
}

} // verus!
