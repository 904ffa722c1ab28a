//! Character-level helpers: pattern search, the first line of a message,
//! the short form of a commit message and the repository name of an API url.

use vstd::prelude::*;

use crate::error::FetchError;

verus! {

/// `p` occurs in `s` starting at index `i`.
pub open spec fn occurs_at(s: Seq<char>, p: Seq<char>, i: int) -> bool {
    0 <= i && i + p.len() <= s.len() && s.subrange(i, i + p.len()) == p
}

/// The first index at or after `i` where the non-empty pattern `p` occurs in `s`.
pub open spec fn find_from(s: Seq<char>, p: Seq<char>, i: int) -> Option<int>
    decreases s.len() - i,
{
    if i < 0 || p.len() == 0 || i + p.len() > s.len() {
        None
    } else if occurs_at(s, p, i) {
        Some(i)
    } else {
        find_from(s, p, i + 1)
    }
}

/// The first index where the non-empty pattern `p` occurs in `s`.
pub open spec fn find(s: Seq<char>, p: Seq<char>) -> Option<int> {
    find_from(s, p, 0)
}

/// What precedes the first occurrence of `p` in `s`; all of `s` when `p` does not occur.
pub open spec fn before_first(s: Seq<char>, p: Seq<char>) -> Seq<char> {
    match find(s, p) {
        Some(i) => s.subrange(0, i),
        None => s,
    }
}

/// The line break that ends the first line of a message.
pub open spec fn newline() -> Seq<char> {
    seq!['\n']
}

/// The marker in an API url that precedes the repository name.
pub open spec fn repos_marker() -> Seq<char> {
    "repos/"@
}

/// The marker appended to a shortened message.
pub open spec fn ellipsis() -> Seq<char> {
    "..."@
}

/// The longest first line that is shown unchanged.
pub const SHORT_LIMIT: usize = 50;

/// How many characters of a longer first line are kept before the ellipsis.
pub const SHORT_KEEP: usize = 47;

/// The first line of a message: everything before the first line break.
pub open spec fn first_line(m: Seq<char>) -> Seq<char> {
    before_first(m, newline())
}

/// The short form of a message: its first line when that has at most 50
/// characters, else the first 47 characters of it followed by the ellipsis.
pub open spec fn shortened(m: Seq<char>) -> Seq<char> {
    let l = first_line(m);
    if l.len() > SHORT_LIMIT {
        l.subrange(0, SHORT_KEEP as int) + ellipsis()
    } else {
        l
    }
}

/// The repository name in an API url: everything after the first `repos/`
/// marker; `None` when the url has no marker.
pub open spec fn repo_name_of(url: Seq<char>) -> Option<Seq<char>> {
    match find(url, repos_marker()) {
        Some(i) => Some(url.subrange(i + repos_marker().len(), url.len() as int)),
        None => None,
    }
}

/// A first line of at most 50 characters is its own short form.
pub proof fn lemma_short_line_kept(m: Seq<char>)
    requires
        first_line(m).len() <= SHORT_LIMIT,
    ensures
        shortened(m) == first_line(m),
{
}

/// A first line of more than 50 characters shortens to exactly 50: its first
/// 47 characters, then the 3-character ellipsis.
pub proof fn lemma_long_line_cut(m: Seq<char>)
    requires
        first_line(m).len() > SHORT_LIMIT,
    ensures
        shortened(m).len() == SHORT_LIMIT,
        shortened(m).subrange(0, SHORT_KEEP as int) == first_line(m).subrange(0, SHORT_KEEP as int),
        shortened(m).subrange(SHORT_KEEP as int, SHORT_LIMIT as int) == ellipsis(),
{
    reveal_strlit("...");
    let l = first_line(m);
    assert(shortened(m).subrange(0, SHORT_KEEP as int) =~= l.subrange(0, SHORT_KEEP as int));
    assert(shortened(m).subrange(SHORT_KEEP as int, SHORT_LIMIT as int) =~= ellipsis());
}

/// The characters of a string slice, in order.
pub(crate) fn chars_of(s: &str) -> (r: Vec<char>)
    ensures
        r@ == s@,
{
    let n = s.unicode_len();
    let mut r: Vec<char> = Vec::new();
    let mut i: usize = 0;
    while i < n
        invariant
            n == s@.len(),
            i <= n,
            r@ == s@.subrange(0, i as int),
        decreases n - i,
    {
        r.push(s.get_char(i));
        i = i + 1;
        assert(r@ =~= s@.subrange(0, i as int));
    }
    assert(r@ =~= s@);
    r
}

/// Whether `p` occurs in `s` at index `i`.
fn occurs_at_exec(s: &Vec<char>, p: &Vec<char>, i: usize) -> (r: bool)
    requires
        i <= s@.len(),
        p@.len() <= s@.len() - i,
    ensures
        r == occurs_at(s@, p@, i as int),
{
    let n = s.len();
    let mut j: usize = 0;
    while j < p.len()
        invariant
            n == s@.len(),
            j <= p@.len(),
            i + p@.len() <= s@.len(),
            forall|k: int| 0 <= k < j ==> s@[i + k] == p@[k],
        decreases p@.len() - j,
    {
        if s[i + j] != p[j] {
            assert(s@.subrange(i as int, i + p@.len())[j as int] != p@[j as int]);
            return false;
        }
        j = j + 1;
    }
    assert(s@.subrange(i as int, i + p@.len()) =~= p@);
    true
}

/// The first index where the non-empty pattern `p` occurs in `s`.
pub(crate) fn find_chars(s: &Vec<char>, p: &Vec<char>) -> (r: Option<usize>)
    requires
        p@.len() > 0,
    ensures
        r matches Some(i) ==> find(s@, p@) == Some(i as int) && occurs_at(s@, p@, i as int),
        r is None ==> find(s@, p@) is None,
{
    let mut i: usize = 0;
    while i < s.len() && p.len() <= s.len() - i
        invariant
            p@.len() > 0,
            i <= s@.len(),
            find_from(s@, p@, 0) == find_from(s@, p@, i as int),
        decreases s@.len() - i,
    {
        if occurs_at_exec(s, p, i) {
            return Some(i);
        }
        i = i + 1;
    }
    None
}

/// The short form of a commit message, as `shortened` describes it.
pub fn short_message(message: &str) -> (r: String)
    ensures
        r@ == shortened(message@),
{
    let cs = chars_of(message);
    let nl: Vec<char> = vec!['\n'];
    assert(nl@ =~= newline());
    let end: usize = match find_chars(&cs, &nl) {
        Some(i) => i,
        None => cs.len(),
    };
    assert(first_line(message@) =~= message@.subrange(0, end as int));
    if end > SHORT_LIMIT {
        let mut r = String::from_str(message.substring_char(0, SHORT_KEEP));
        r.append("...");
        assert(r@ =~= first_line(message@).subrange(0, SHORT_KEEP as int) + ellipsis());
        r
    } else {
        String::from_str(message.substring_char(0, end))
    }
}

/// The repository name in an API url, as `repo_name_of` describes it; a url
/// without the `repos/` marker is a data-shape violation.
pub fn repo_name(url: &str) -> (r: Result<String, FetchError>)
    ensures
        r matches Ok(name) ==> repo_name_of(url@) == Some(name@),
        r matches Err(e) ==> repo_name_of(url@) is None && e == FetchError::DataShapeViolation,
{
    let cs = chars_of(url);
    let marker = chars_of("repos/");
    proof {
        reveal_strlit("repos/");
    }
    let n = cs.len();
    match find_chars(&cs, &marker) {
        None => Err(FetchError::DataShapeViolation),
        Some(k) => {
            Ok(String::from_str(url.substring_char(k + marker.len(), n)))
        },
    }
}

} // verus!
