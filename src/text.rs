use vstd::prelude::*;
use vstd::string::*;

verus! {

/// The texts held by a sequence of strings.
pub open spec fn texts(v: Seq<String>) -> Seq<Seq<char>> {
    v.map_values(|s: String| s@)
}

/// `needle` stands in `haystack` starting at position `i`.
pub open spec fn occurs_at(haystack: Seq<char>, needle: Seq<char>, i: int) -> bool {
    0 <= i && i + needle.len() <= haystack.len() && haystack.subrange(i, i + needle.len())
        == needle
}

/// `needle` stands somewhere in `haystack`.
pub open spec fn has_substring(haystack: Seq<char>, needle: Seq<char>) -> bool {
    exists|i: int| occurs_at(haystack, needle, i)
}

fn occurs_at_exec(haystack: &str, needle: &str, i: usize, haystack_len: usize, needle_len: usize) -> (r: bool)
    requires
        haystack_len == haystack@.len(),
        needle_len == needle@.len(),
        i + needle_len <= haystack_len,
    ensures
        r == occurs_at(haystack@, needle@, i as int),
{
    let mut j: usize = 0;
    while j < needle_len
        invariant
            haystack_len == haystack@.len(),
            needle_len == needle@.len(),
            i + needle_len <= haystack_len,
            j <= needle_len,
            forall|k: int| 0 <= k < j ==> haystack@[i + k] == needle@[k],
        decreases needle_len - j,
    {
        if haystack.get_char(i + j) != needle.get_char(j) {
            assert(haystack@.subrange(i as int, i + needle_len)[j as int] != needle@[j as int]);
            return false;
        }
        j = j + 1;
    }
    assert(haystack@.subrange(i as int, i + needle_len) =~= needle@);
    true
}

/// Whether `needle` occurs in `haystack`, character for character.
pub fn contains_text(haystack: &str, needle: &str) -> (r: bool)
    ensures
        r == has_substring(haystack@, needle@),
{
    let haystack_len: usize = haystack.unicode_len();
    let needle_len: usize = needle.unicode_len();
    if needle_len == 0 {
        assert(haystack@.subrange(0, 0) =~= needle@);
        assert(occurs_at(haystack@, needle@, 0));
        return true;
    }
    if needle_len > haystack_len {
        return false;
    }
    let last: usize = haystack_len - needle_len;
    let mut i: usize = 0;
    while i <= last
        invariant
            haystack_len == haystack@.len(),
            needle_len == needle@.len(),
            needle_len >= 1,
            last == haystack_len - needle_len,
            i <= last + 1,
            forall|k: int| 0 <= k < i ==> !occurs_at(haystack@, needle@, k),
        decreases last + 1 - i,
    {
        if occurs_at_exec(haystack, needle, i, haystack_len, needle_len) {
            return true;
        }
        i = i + 1;
    }
    assert forall|k: int| !occurs_at(haystack@, needle@, k) by {
        if 0 <= k < i {
        }
    }
    false
}

} // verus!
