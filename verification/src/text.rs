//! Small vocabulary for talking about texts as character sequences.

use vstd::prelude::*;

verus! {

/// `needle` stands in `hay` starting at position `at`.
pub open spec fn occurs_at(hay: Seq<char>, needle: Seq<char>, at: int) -> bool {
    &&& 0 <= at
    &&& at + needle.len() <= hay.len()
    &&& hay.subrange(at, at + needle.len()) == needle
}

/// `needle` stands somewhere in `hay`.
pub open spec fn occurs_in(hay: Seq<char>, needle: Seq<char>) -> bool {
    exists|at: int| occurs_at(hay, needle, at)
}

/// All positions of `hay` at which `needle` stands.
pub open spec fn occurrences(hay: Seq<char>, needle: Seq<char>) -> Set<int> {
    Set::new(|at: int| occurs_at(hay, needle, at))
}

/// `hay` closes with `tail`.
pub open spec fn ends_with(hay: Seq<char>, tail: Seq<char>) -> bool {
    occurs_at(hay, tail, hay.len() - tail.len())
}

/// The lines held by a vector of strings, each as its character sequence.
pub open spec fn texts(lines: Seq<String>) -> Seq<Seq<char>> {
    lines.map_values(|line: String| line@)
}

} // verus!
