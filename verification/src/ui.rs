//! Display helpers: cleaning tree-drawing decoration out of menu labels.

use vstd::prelude::*;
use crate::strutil::spec_is_ws;

verus! {

/// Whether `c` is one of the tree-drawing characters used by the
/// interactive menus: the box-drawing block or the expansion arrows.
pub open spec fn spec_is_tree_char(c: char) -> bool {
    ('\u{2500}' <= c && c <= '\u{257f}') || c == '\u{25b6}' || c == '\u{25bc}'
}

/// Whether `c` is one of the tree-drawing characters.
pub fn is_tree_char(c: char) -> (r: bool)
    ensures
        r == spec_is_tree_char(c),
{
    ('\u{2500}' <= c && c <= '\u{257f}') || c == '\u{25b6}' || c == '\u{25bc}'
}

/// Left fold that rebuilds a string with its whitespace normalized: words
/// keep their order, runs of whitespace between words become a single
/// space, and leading and trailing whitespace disappears. The boolean
/// tracks whether a separating space is owed before the next word.
pub open spec fn spec_ws_fold(s: Seq<char>) -> (Seq<char>, bool)
    decreases s.len(),
{
    if s.len() == 0 {
        (Seq::empty(), false)
    } else {
        let prev = spec_ws_fold(s.drop_last());
        let c = s.last();
        if spec_is_ws(c) {
            (prev.0, prev.0.len() > 0)
        } else if prev.1 {
            (prev.0.push(' ').push(c), false)
        } else {
            (prev.0.push(c), false)
        }
    }
}

/// A string with its whitespace normalized.
pub open spec fn spec_normalize_ws(s: Seq<char>) -> Seq<char> {
    spec_ws_fold(s).0
}

/// `s` without its tree-drawing characters.
pub open spec fn spec_without_tree_chars(s: Seq<char>) -> Seq<char> {
    s.filter((|c: char| !spec_is_tree_char(c)))
}

/// Strip tree-drawing characters from a menu label and normalize the
/// whitespace that their removal leaves behind.
pub fn strip_tree_chars(s: &str) -> (r: String)
    ensures
        r@ == spec_normalize_ws(spec_without_tree_chars(s@)),
{
    let ghost keep = (|c: char| !spec_is_tree_char(c));
    let n = s.unicode_len();
    let mut cs: Vec<char> = Vec::new();
    let mut pending: bool = false;
    let mut i: usize = 0;
    while i < n
        invariant
            0 <= i <= n == s@.len(),
            keep == (|c: char| !spec_is_tree_char(c)),
            cs@ == spec_ws_fold(s@.take(i as int).filter(keep)).0,
            pending == spec_ws_fold(s@.take(i as int).filter(keep)).1,
        decreases n - i,
    {
        let c = s.get_char(i);
        proof {
            reveal_with_fuel(Seq::<char>::filter, 2);
            let prefix1 = s@.take(i as int + 1);
            assert(prefix1.drop_last() =~= s@.take(i as int));
            assert(prefix1.last() == s@[i as int]);
            if keep(prefix1.last()) {
                assert(prefix1.filter(keep) == prefix1.drop_last().filter(keep).push(
                    prefix1.last(),
                ));
                assert(prefix1.filter(keep).drop_last() =~= prefix1.drop_last().filter(
                    keep,
                ));
            } else {
                assert(prefix1.filter(keep) == prefix1.drop_last().filter(keep));
            }
        }
        if !is_tree_char(c) {
            if crate::strutil::is_ws(c) {
                pending = cs.len() > 0;
            } else {
                if pending {
                    cs.push(' ');
                }
                cs.push(c);
                pending = false;
            }
        }
        i = i + 1;
    }
    proof {
        assert(s@.take(n as int) =~= s@);
    }
    crate::strutil::chars_to_string(&cs)
}

} // verus!
