//! Argument handling and the download-prompt decision.
//!
//! The program takes `<version-major> <version-minor> [download-dir]`:
//! exactly two or three arguments after the program name. When a URL is
//! found and a download directory was supplied, the user is prompted for
//! confirmation; only an answer that is `y` or `Y` once surrounding
//! whitespace is stripped is affirmative — anything else, including an
//! empty line, skips the download.

use vstd::prelude::*;

verus! {

/// The run configuration parsed from the command line.
pub struct SearchConfig {
    /// The version-major template parameter (`X`).
    pub version_major: String,
    /// The version-minor template parameter (`Y`).
    pub version_minor: String,
    /// Where to offer a download, when supplied.
    pub download_dir: Option<String>,
}

/// Whether an argument vector (program name included) has a valid arity.
pub open spec fn valid_arity(n: int) -> bool {
    3 <= n <= 4
}

/// Parse the argument vector (program name at position 0). Returns the
/// configuration exactly when the arity is valid, `None` otherwise.
pub fn parse_args(args: &Vec<String>) -> (r: Option<SearchConfig>)
    ensures
        r is Some <==> valid_arity(args@.len() as int),
        match r {
            Some(c) => {
                &&& c.version_major@ == args@[1]@
                &&& c.version_minor@ == args@[2]@
                &&& (c.download_dir is Some <==> args@.len() == 4)
                &&& (args@.len() == 4 ==> c.download_dir->0@ == args@[3]@)
            },
            None => true,
        },
{
    if args.len() < 3 || args.len() > 4 {
        None
    } else {
        let download_dir = if args.len() == 4 {
            Some(args[3].clone())
        } else {
            None
        };
        Some(
            SearchConfig {
                version_major: args[1].clone(),
                version_minor: args[2].clone(),
                download_dir,
            },
        )
    }
}

/// The usage message for a wrong argument count.
pub open spec fn usage_chars(program: Seq<char>) -> Seq<char> {
    "Usage: "@ + program + " <X> <Y> [download_dir]\nExample: "@ + program
        + " 4.1.21.3664 0325 [./downloads]"@
}

/// Build the usage message shown when the argument count is wrong.
pub fn usage_message(program: &str) -> (r: String)
    ensures
        r@ == usage_chars(program@),
{
    let mut r = String::from_str("Usage: ");
    r.append(program);
    r.append(" <X> <Y> [download_dir]\nExample: ");
    r.append(program);
    r.append(" 4.1.21.3664 0325 [./downloads]");
    proof {
        assert(r@ =~= usage_chars(program@));
    }
    r
}

/// Whether `c` is whitespace stripped from a prompt answer.
pub open spec fn is_space_char(c: char) -> bool {
    c == ' ' || c == '\t' || c == '\r' || c == '\n'
}

/// `s` without its leading whitespace.
pub open spec fn trim_front(s: Seq<char>) -> Seq<char>
    decreases s.len(),
{
    if s.len() > 0 && is_space_char(s[0]) {
        trim_front(s.drop_first())
    } else {
        s
    }
}

/// `s` without its trailing whitespace.
pub open spec fn trim_back(s: Seq<char>) -> Seq<char>
    decreases s.len(),
{
    if s.len() > 0 && is_space_char(s[s.len() - 1]) {
        trim_back(s.drop_last())
    } else {
        s
    }
}

/// `s` without leading and trailing whitespace.
pub open spec fn trimmed(s: Seq<char>) -> Seq<char> {
    trim_back(trim_front(s))
}

/// An affirmative prompt answer: exactly `y` or `Y` once surrounding
/// whitespace is stripped.
pub open spec fn is_affirmative(s: Seq<char>) -> bool {
    trimmed(s) == seq!['y'] || trimmed(s) == seq!['Y']
}

/// When the first `a` characters of `s` are whitespace and the next one
/// is not, trimming the front yields the subrange from `a`.
proof fn lemma_trim_front_subrange(s: Seq<char>, a: int)
    requires
        0 <= a <= s.len(),
        forall|j: int| 0 <= j < a ==> is_space_char(s[j]),
        a == s.len() || !is_space_char(s[a]),
    ensures
        trim_front(s) == s.subrange(a, s.len() as int),
    decreases a,
{
    if a == 0 {
        assert(trim_front(s) =~= s.subrange(0, s.len() as int));
    } else {
        lemma_trim_front_subrange(s.drop_first(), a - 1);
        assert(s.drop_first().subrange(a - 1, s.drop_first().len() as int) =~= s.subrange(
            a,
            s.len() as int,
        ));
    }
}

/// When the characters of `s` from `b` on are whitespace and the one
/// before is not, trimming the back yields the subrange up to `b`.
proof fn lemma_trim_back_subrange(s: Seq<char>, b: int)
    requires
        0 <= b <= s.len(),
        forall|j: int| b <= j < s.len() ==> is_space_char(s[j]),
        b == 0 || !is_space_char(s[b - 1]),
    ensures
        trim_back(s) == s.subrange(0, b),
    decreases s.len() - b,
{
    if b == s.len() {
        assert(trim_back(s) =~= s.subrange(0, b));
    } else {
        lemma_trim_back_subrange(s.drop_last(), b);
        assert(s.drop_last().subrange(0, b) =~= s.subrange(0, b));
    }
}

/// Decide the download prompt: true exactly for an affirmative answer.
pub fn confirm_download(answer: &str) -> (r: bool)
    ensures
        r == is_affirmative(answer@),
{
    let n = answer.unicode_len();
    let mut a: usize = 0;
    while a < n && is_space(answer.get_char(a))
        invariant
            a <= n,
            n == answer@.len(),
            forall|j: int| 0 <= j < a ==> is_space_char(answer@[j]),
        decreases n - a,
    {
        a = a + 1;
    }
    proof {
        lemma_trim_front_subrange(answer@, a as int);
    }
    let mut b: usize = n;
    while b > a && is_space(answer.get_char(b - 1))
        invariant
            a <= b <= n,
            n == answer@.len(),
            forall|j: int| b <= j < n ==> is_space_char(answer@[j]),
        decreases b,
    {
        b = b - 1;
    }
    proof {
        let front = answer@.subrange(a as int, n as int);
        lemma_trim_back_subrange(front, b - a);
        assert(front.subrange(0, b - a) =~= answer@.subrange(a as int, b as int));
    }
    if b - a == 1 {
        let c = answer.get_char(a);
        proof {
            assert(answer@.subrange(a as int, b as int) =~= seq![c]);
            assert(trimmed(answer@) == seq![c]);
            assert(seq![c][0] == c);
            assert(seq!['y'][0] == 'y');
            assert(seq!['Y'][0] == 'Y');
        }
        c == 'y' || c == 'Y'
    } else {
        proof {
            assert(trimmed(answer@).len() != 1);
        }
        false
    }
}

/// Whether `c` is whitespace, as an executable check.
fn is_space(c: char) -> (r: bool)
    ensures
        r == is_space_char(c),
{
    c == ' ' || c == '\t' || c == '\r' || c == '\n'
}

} // verus!
