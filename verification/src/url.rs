//! URL construction and file-name derivation.
//!
//! A candidate URL is the fixed template
//! `https://a11.gdl.netease.com/MuMuNG-setup-V<X>-<Y><Z>.exe` with the two
//! version strings and one generated candidate interpolated. The download
//! step derives its output file name from the final path segment of the
//! URL, and joins it onto the target directory.

use vstd::prelude::*;
use crate::errors::DownloadError;

verus! {

/// The candidate URL for version strings `x`, `y` and candidate `z`.
pub open spec fn url_chars(x: Seq<char>, y: Seq<char>, z: Seq<char>) -> Seq<char> {
    "https://a11.gdl.netease.com/MuMuNG-setup-V"@ + x + "-"@ + y + z + ".exe"@
}

/// Build the candidate URL by interpolating into the fixed template.
pub fn build_url(x: &str, y: &str, z: &str) -> (r: String)
    ensures
        r@ == url_chars(x@, y@, z@),
{
    let mut r = String::from_str("https://a11.gdl.netease.com/MuMuNG-setup-V");
    r.append(x);
    r.append("-");
    r.append(y);
    r.append(z);
    r.append(".exe");
    proof {
        assert(r@ =~= url_chars(x@, y@, z@));
    }
    r
}

/// Whether `s` contains a `/` at all.
pub open spec fn has_slash(s: Seq<char>) -> bool {
    exists|i: int| 0 <= i < s.len() && s[i] == '/'
}

/// The suffix of `s` after its last `/`; `s` itself when it has no `/`.
pub open spec fn tail_after_last_slash(s: Seq<char>) -> Seq<char>
    decreases s.len(),
{
    if s.len() == 0 {
        s
    } else if s[s.len() - 1] == '/' {
        Seq::empty()
    } else {
        tail_after_last_slash(s.drop_last()).push(s[s.len() - 1])
    }
}

/// When `s` has no slash, the tail after the last slash is `s` itself.
proof fn lemma_tail_no_slash(s: Seq<char>)
    requires
        forall|k: int| 0 <= k < s.len() ==> s[k] != '/',
    ensures
        tail_after_last_slash(s) == s,
    decreases s.len(),
{
    if s.len() > 0 {
        lemma_tail_no_slash(s.drop_last());
        assert(tail_after_last_slash(s) =~= s);
    }
}

/// When position `p` holds the last slash of `s`, the tail after the last
/// slash is exactly the subrange after `p`.
proof fn lemma_tail_at_last_slash(s: Seq<char>, p: int)
    requires
        0 <= p < s.len(),
        s[p] == '/',
        forall|k: int| p < k < s.len() ==> s[k] != '/',
    ensures
        tail_after_last_slash(s) == s.subrange(p + 1, s.len() as int),
    decreases s.len(),
{
    if p == s.len() - 1 {
        assert(tail_after_last_slash(s) =~= s.subrange(p + 1, s.len() as int));
    } else {
        lemma_tail_at_last_slash(s.drop_last(), p);
        assert(tail_after_last_slash(s) =~= s.subrange(p + 1, s.len() as int));
    }
}

/// Derive the output file name from the URL's final path segment: the
/// characters after the last `/`. Fails with `InvalidUrlFormat` when the
/// URL has no `/` or nothing follows the last one (no path segment).
pub fn file_name_of(url: &str) -> (r: Result<String, DownloadError>)
    ensures
        match r {
            Ok(name) => {
                &&& has_slash(url@)
                &&& name@ == tail_after_last_slash(url@)
                &&& name@.len() > 0
            },
            Err(e) => {
                &&& e == DownloadError::InvalidUrlFormat
                &&& (!has_slash(url@) || tail_after_last_slash(url@).len() == 0)
            },
        },
{
    let n = url.unicode_len();
    let mut last: usize = n;
    let mut j: usize = 0;
    while j < n
        invariant
            j <= n,
            n == url@.len(),
            last == n || last < j,
            last == n ==> forall|k: int| 0 <= k < j ==> url@[k] != '/',
            last < n ==> url@[last as int] == '/' && (forall|k: int|
                last < k < j ==> url@[k] != '/'),
        decreases n - j,
    {
        if url.get_char(j) == '/' {
            last = j;
        }
        j = j + 1;
    }
    if last == n {
        proof {
            lemma_tail_no_slash(url@);
        }
        Err(DownloadError::InvalidUrlFormat)
    } else {
        proof {
            lemma_tail_at_last_slash(url@, last as int);
        }
        if last + 1 == n {
            Err(DownloadError::InvalidUrlFormat)
        } else {
            let name = url.substring_char(last + 1, n);
            Ok(String::from_str(name))
        }
    }
}

/// The output path: the directory, a `/`, and the file name.
pub open spec fn joined_path(dir: Seq<char>, name: Seq<char>) -> Seq<char> {
    dir + "/"@ + name
}

/// Join the target directory and the derived file name into the output
/// path, as `<dir>/<name>`.
pub fn output_path(dir: &str, name: &str) -> (r: String)
    ensures
        r@ == joined_path(dir@, name@),
{
    let mut r = String::from_str(dir);
    r.append("/");
    r.append(name);
    proof {
        assert(r@ =~= joined_path(dir@, name@));
    }
    r
}

} // verus!
