//! Two predicates on text that the statements about reports use.

use vstd::prelude::*;

verus! {

/// `part` stands somewhere in `whole`, unbroken.
pub open spec fn occurs_in(part: Seq<char>, whole: Seq<char>) -> bool {
    exists|at: int| #[trigger] occurs_at(part, whole, at)
}

/// `part` stands in `whole` from position `at` on.
pub open spec fn occurs_at(part: Seq<char>, whole: Seq<char>, at: int) -> bool {
    &&& 0 <= at
    &&& at + part.len() <= whole.len()
    &&& whole.subrange(at, at + part.len()) == part
}

/// `text` is exactly one line: it ends in a line feed and holds no other.
pub open spec fn is_single_line(text: Seq<char>) -> bool {
    &&& text.len() > 0
    &&& text.last() == '\n'
    &&& forall|i: int| 0 <= i < text.len() - 1 ==> text[i] != '\n'
}

} // verus!
