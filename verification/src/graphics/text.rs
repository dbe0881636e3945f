//! Searching shader source text.
//!
//! What a fragment shader needs from its vertex shader is read off its
//! source: a shader that declares a certain input contains a certain
//! marker. This module decides whether one text occurs in another.

use vstd::prelude::*;
use vstd::std_specs::iter::IteratorSpec;

verus! {

/// Whether `pattern` stands in `text` at offset `at`.
pub open spec fn occurs_at(text: Seq<char>, pattern: Seq<char>, at: int) -> bool {
    &&& 0 <= at
    &&& at + pattern.len() <= text.len()
    &&& text.subrange(at, at + pattern.len()) == pattern
}

/// Whether `pattern` stands somewhere in `text`.
pub open spec fn occurs(text: Seq<char>, pattern: Seq<char>) -> bool {
    exists|at: int| occurs_at(text, pattern, at)
}

/// The characters of a text, one by one.
pub fn characters(text: &str) -> (chars: Vec<char>)
    ensures
        chars@ == text@,
{
    broadcast use vstd::string::group_string_axioms;

    let mut chars: Vec<char> = Vec::new();
    let mut rest = text.chars();
    loop
        invariant
            rest.obeys_prophetic_iter_laws(),
            rest.decrease() is Some,
            chars@ + rest.remaining() == text@,
        decreases rest.decrease()->0,
    {
        let ghost before = rest;
        match rest.next() {
            Some(c) => {
                proof {
                    assert(chars@.push(c) + rest.remaining() =~= chars@ + before.remaining());
                }
                chars.push(c);
            },
            None => {
                proof {
                    assert(chars@ + rest.remaining() =~= chars@);
                }
                return chars;
            },
        }
    }
}

/// Whether `pattern` stands in `text` at offset `at`.
pub fn matches_at(text: &Vec<char>, pattern: &Vec<char>, at: usize) -> (found: bool)
    requires
        at + pattern@.len() <= text@.len(),
    ensures
        found == occurs_at(text@, pattern@, at as int),
{
    let length: usize = pattern.len();
    let total: usize = text.len();
    let mut i: usize = 0;
    while i < length
        invariant
            length == pattern@.len(),
            total == text@.len(),
            i <= length,
            at + length <= total,
            forall|j: int| 0 <= j < i ==> text@[at + j] == pattern@[j],
        decreases length - i,
    {
        if text[at + i] != pattern[i] {
            proof {
                assert(text@.subrange(at as int, at + length)[i as int] == text@[at + i]);
            }
            return false;
        }
        i += 1;
    }
    proof {
        assert(text@.subrange(at as int, at + length) =~= pattern@);
    }
    true
}

/// Whether `pattern` stands somewhere in `text`.
pub fn contains(text: &str, pattern: &str) -> (found: bool)
    ensures
        found == occurs(text@, pattern@),
{
    let haystack = characters(text);
    let needle = characters(pattern);
    if needle.len() > haystack.len() {
        return false;
    }
    let last: usize = haystack.len() - needle.len();
    let mut at: usize = 0;
    loop
        invariant
            haystack@ == text@,
            needle@ == pattern@,
            last + needle@.len() == haystack@.len(),
            at <= last,
            forall|k: int| 0 <= k < at ==> !occurs_at(text@, pattern@, k),
        decreases last - at,
    {
        if matches_at(&haystack, &needle, at) {
            proof {
                assert(occurs_at(text@, pattern@, at as int));
            }
            return true;
        }
        if at == last {
            return false;
        }
        at += 1;
    }
}

} // verus!
