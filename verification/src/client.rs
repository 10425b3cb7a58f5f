//! The command-suggestion provider boundary.

use vstd::prelude::*;
use vstd::string::StrSliceExecFns;

use self::models::{InputContent, OutputContent};

pub mod groq;
pub mod models;

verus! {

/// A command-suggestion provider: given the snake's head and the
/// food, it answers with an ordered batch of directions. Backends
/// implement this over their own transport; the core never sees how.
pub trait ApiClient {
    fn snake_commands(&mut self, input: InputContent) -> Result<OutputContent, String>;
}

/// `i` is the position of the first `{` in `s`.
pub open spec fn is_first_open(s: Seq<char>, i: int) -> bool {
    &&& 0 <= i < s.len()
    &&& s[i] == '{'
    &&& forall|k: int| 0 <= k < i ==> s[k] != '{'
}

/// How one character changes the brace-nesting depth.
pub open spec fn depth_change(c: char) -> int {
    if c == '{' {
        1
    } else if c == '}' {
        -1
    } else {
        0
    }
}

/// The brace-nesting depth after reading all of `s`: opens minus
/// closes.
pub open spec fn depth(s: Seq<char>) -> int
    decreases s.len(),
{
    if s.len() == 0 {
        0
    } else {
        depth(s.drop_last()) + depth_change(s.last())
    }
}

/// `j` closes the balanced span opened at `i`: the depth over
/// `s[i..=j]` returns to zero there for the first time.
pub open spec fn is_balanced_end(s: Seq<char>, i: int, j: int) -> bool {
    &&& i <= j < s.len()
    &&& depth(s.subrange(i, j + 1)) == 0
    &&& forall|k: int| i <= k < j ==> depth(s.subrange(i, #[trigger] (k + 1))) > 0
}

/// The span `s[i..=j]` is the first balanced `{...}` object of `s`.
pub open spec fn balanced_object_span(s: Seq<char>, i: int, j: int) -> bool {
    is_first_open(s, i) && is_balanced_end(s, i, j)
}

/// `s` holds a balanced `{...}` object at its first `{`.
pub open spec fn has_balanced_object(s: Seq<char>) -> bool {
    exists|i: int, j: int| balanced_object_span(s, i, j)
}

/// The first balanced object's bounds are unique.
pub proof fn lemma_balanced_object_span_unique(s: Seq<char>, i1: int, j1: int, i2: int, j2: int)
    requires
        balanced_object_span(s, i1, j1),
        balanced_object_span(s, i2, j2),
    ensures
        i1 == i2,
        j1 == j2,
{
    if i1 < i2 {
        assert(s[i1] != '{');
    } else if i2 < i1 {
        assert(s[i2] != '{');
    }
    if j1 < j2 {
        assert(depth(s.subrange(i1, j1 + 1)) > 0);
    } else if j2 < j1 {
        assert(depth(s.subrange(i1, j2 + 1)) > 0);
    }
}

/// Cuts a provider reply down to the first balanced `{...}` span, so
/// that prose around an embedded JSON object is shed before parsing;
/// yields nothing when no such span exists.
pub fn try_extract_json(input: &str) -> (r: Option<String>)
    ensures
        match r {
            Some(v) => has_balanced_object(input@) && forall|i: int, j: int|
                balanced_object_span(input@, i, j) ==> v@ == input@.subrange(i, j + 1),
            None => !has_balanced_object(input@),
        },
{
    let n = input.unicode_len();
    let mut start: usize = 0;
    while start < n && input.get_char(start) != '{'
        invariant
            0 <= start <= n,
            n == input@.len(),
            forall|k: int| 0 <= k < start ==> input@[k] != '{',
        decreases n - start,
    {
        start = start + 1;
    }
    if start == n {
        proof {
            assert forall|i: int, j: int| !balanced_object_span(input@, i, j) by {
                if 0 <= i < n {
                    assert(input@[i] != '{');
                }
            }
        }
        return None;
    }

    let mut depth_count: usize = 1;
    let mut end: usize = start + 1;
    proof {
        let opening = input@.subrange(start as int, start + 1);
        assert(opening.last() == input@[start as int]);
        assert(opening.drop_last() =~= Seq::<char>::empty());
        assert(depth(Seq::<char>::empty()) == 0);
        assert(depth(opening) == 1);
        assert forall|k: int|
            start <= k < start + 1 implies depth(
            input@.subrange(start as int, #[trigger] (k + 1)),
        ) > 0 by {
            assert(input@.subrange(start as int, k + 1) =~= opening);
        }
    }
    while end < n
        invariant
            0 <= start < end <= n,
            n == input@.len(),
            input@[start as int] == '{',
            forall|k: int| 0 <= k < start ==> input@[k] != '{',
            depth_count as int == depth(input@.subrange(start as int, end as int)),
            1 <= depth_count <= end - start,
            forall|k: int|
                start <= k < end ==> depth(input@.subrange(start as int, #[trigger] (k + 1))) > 0,
        decreases n - end,
    {
        let c = input.get_char(end);
        proof {
            assert(input@.subrange(start as int, end + 1).drop_last() =~= input@.subrange(
                start as int,
                end as int,
            ));
            assert(input@.subrange(start as int, end + 1).last() == input@[end as int]);
        }
        if c == '{' {
            depth_count = depth_count + 1;
        } else if c == '}' {
            depth_count = depth_count - 1;
        }
        end = end + 1;
        if depth_count == 0 {
            proof {
                assert(balanced_object_span(input@, start as int, end - 1));
                lemma_result_is_the_span(input@, start as int, end - 1);
            }
            return Some(input.substring_char(start, end).to_owned());
        }
    }
    proof {
        assert forall|i: int, j: int| !balanced_object_span(input@, i, j) by {
            if balanced_object_span(input@, i, j) {
                if i < start {
                    assert(input@[i] != '{');
                } else if start < i {
                    assert(input@[start as int] != '{');
                } else {
                    assert(depth(input@.subrange(start as int, j + 1)) > 0);
                }
            }
        }
    }
    None
}

/// Whatever bounds a caller knows for the first balanced object, the
/// span found by the scan is that one.
proof fn lemma_result_is_the_span(s: Seq<char>, i0: int, j0: int)
    requires
        balanced_object_span(s, i0, j0),
    ensures
        forall|i: int, j: int|
            balanced_object_span(s, i, j) ==> s.subrange(i0, j0 + 1) == s.subrange(i, j + 1),
{
    assert forall|i: int, j: int|
        balanced_object_span(s, i, j) implies s.subrange(i0, j0 + 1) == s.subrange(i, j + 1) by {
        lemma_balanced_object_span_unique(s, i0, j0, i, j);
    }
}

/// Cuts a provider reply down to the first balanced `{...}` span.
pub fn extract_json(input: &str) -> (r: String)
    requires
        has_balanced_object(input@),
    ensures
        forall|i: int, j: int|
            balanced_object_span(input@, i, j) ==> r@ == input@.subrange(i, j + 1),
{
    match try_extract_json(input) {
        Some(r) => r,
        None => vstd::pervasive::unreached(),
    }
}

} // verus!

