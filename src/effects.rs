//! Where a review's worktree goes and what its terminal session is called.
use vstd::prelude::*;
use vstd::string::{StrSliceExecFns, StringExecFns};

use crate::git::{LocalReviewRequest, ReviewRequestView};

verus! {

broadcast use vstd::string::group_string_axioms;

/// The subdirectory of a clone that holds the review worktrees.
pub const REVIEWS_DIR: &'static str = "/reviews/";

/// The start of every review session's name.
pub const SESSION_PREFIX: &'static str = "Code_Review:_";

/// Characters with the Unicode `White_Space` property.
pub open spec fn is_white_space(c: char) -> bool {
    ('\t' <= c && c <= '\r') || c == ' ' || c == '\u{85}' || c == '\u{a0}' || c == '\u{1680}'
        || ('\u{2000}' <= c && c <= '\u{200a}') || c == '\u{2028}' || c == '\u{2029}' || c
        == '\u{202f}' || c == '\u{205f}' || c == '\u{3000}'
}

/// `t` with each white-space character replaced by an underscore.
pub open spec fn single_token(t: Seq<char>) -> Seq<char> {
    Seq::new(t.len(), |i: int| if is_white_space(t[i]) { '_' } else { t[i] })
}

/// The directory of the worktree for request `r`.
pub open spec fn worktree_dir_of(r: ReviewRequestView) -> Seq<char> {
    r.path + REVIEWS_DIR@ + r.branch
}

/// The session name for a review titled `title`.
pub open spec fn session_name_of(title: Seq<char>) -> Seq<char> {
    SESSION_PREFIX@ + single_token(title)
}

fn white_space(c: char) -> (r: bool)
    ensures
        r == is_white_space(c),
{
    ('\t' <= c && c <= '\r') || c == ' ' || c == '\u{85}' || c == '\u{a0}' || c == '\u{1680}'
        || ('\u{2000}' <= c && c <= '\u{200a}') || c == '\u{2028}' || c == '\u{2029}' || c
        == '\u{202f}' || c == '\u{205f}' || c == '\u{3000}'
}

/// The directory in which the worktree for `req` is created.
pub fn worktree_dir(req: &LocalReviewRequest) -> (r: String)
    ensures
        r@ == worktree_dir_of(req@),
{
    let mut d = req.path.clone();
    d.append(REVIEWS_DIR);
    d.append(req.branch.as_str());
    d
}

/// The name of the session opened for a review titled `title`: a single
/// token, with every white-space character of the title made an underscore.
pub fn session_name(title: &str) -> (r: String)
    ensures
        r@ == session_name_of(title@),
{
    let mut name = String::from_str(SESSION_PREFIX);
    let n = title.unicode_len();
    let mut i: usize = 0;
    while i < n
        invariant
            n == title@.len(),
            i <= n,
            name@ == SESSION_PREFIX@ + single_token(title@.subrange(0, i as int)),
        decreases n - i,
    {
        let c = title.get_char(i);
        let ghost before = name@;
        if white_space(c) {
            name.append("_");
            proof {
                reveal_strlit("_");
            }
            assert("_"@ =~= seq!['_']);
        } else {
            let one = title.substring_char(i, i + 1);
            assert(one@ =~= seq![c]);
            name.append(one);
        }
        assert(name@ =~= before.push(if is_white_space(c) { '_' } else { c }));
        assert(single_token(title@.subrange(0, i + 1)) =~= single_token(
            title@.subrange(0, i as int),
        ).push(if is_white_space(c) { '_' } else { c }));
        assert(SESSION_PREFIX@ + single_token(title@.subrange(0, i + 1)) =~= before.push(
            if is_white_space(c) { '_' } else { c },
        ));
        i = i + 1;
    }
    assert(title@.subrange(0, n as int) =~= title@);
    name
}

} // verus!
