//! Joining path components the way `PathBuf::push` does for relative parts.

use vstd::prelude::*;
use crate::text::{push_char, push_str, string_of};

verus! {

/// Whether `c` separates path components (`/` or `\`).
pub open spec fn is_separator(c: char) -> bool {
    c == '/' || c == '\\'
}

/// `base` followed by `leaf`, with one `/` between them unless `base` is
/// empty or already ends with a separator.
pub open spec fn joined(base: Seq<char>, leaf: Seq<char>) -> Seq<char> {
    if base.len() == 0 || is_separator(base.last()) {
        base + leaf
    } else {
        base + seq!['/'] + leaf
    }
}

/// Appends the relative component `leaf` to the path `base`.
pub fn join_path(base: &str, leaf: &str) -> (r: String)
    ensures
        r@ == joined(base@, leaf@),
{
    let n = base.unicode_len();
    let mut out = string_of(base);
    if n > 0 {
        let c = base.get_char(n - 1);
        if c != '/' && c != '\\' {
            push_char(&mut out, '/');
        }
    }
    push_str(&mut out, leaf);
    out
}

} // verus!
