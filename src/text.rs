use vstd::prelude::*;

verus! {

/// Position of the first `c` in `s`, or -1 when `s` holds none.
pub open spec fn index_of_first(s: Seq<char>, c: char) -> int
    decreases s.len(),
{
    if s.len() == 0 {
        -1
    } else if s[0] == c {
        0
    } else {
        let r = index_of_first(s.drop_first(), c);
        if r < 0 {
            -1
        } else {
            r + 1
        }
    }
}

/// Position of the last `c` in `s`, or -1 when `s` holds none.
pub open spec fn index_of_last(s: Seq<char>, c: char) -> int
    decreases s.len(),
{
    if s.len() == 0 {
        -1
    } else if s.last() == c {
        s.len() - 1
    } else {
        index_of_last(s.drop_last(), c)
    }
}

pub open spec fn contains_char(s: Seq<char>, c: char) -> bool {
    index_of_first(s, c) >= 0
}

/// What follows the last `c` in `s`; all of `s` when it holds no `c`.
pub open spec fn after_last(s: Seq<char>, c: char) -> Seq<char> {
    s.subrange(index_of_last(s, c) + 1, s.len() as int)
}

/// What precedes the last `c` in `s`; empty when it holds no `c`.
pub open spec fn before_last(s: Seq<char>, c: char) -> Seq<char> {
    if index_of_last(s, c) < 0 {
        Seq::empty()
    } else {
        s.subrange(0, index_of_last(s, c))
    }
}

pub proof fn lemma_index_of_first(s: Seq<char>, c: char, k: int)
    requires
        -1 <= k <= s.len(),
        k < s.len() ==> k >= 0 && s[k] == c,
        k == s.len() || k == -1 ==> forall|j: int| 0 <= j < s.len() ==> s[j] != c,
        forall|j: int| 0 <= j < k ==> s[j] != c,
    ensures
        index_of_first(s, c) == (if k == s.len() || k == -1 {
            -1
        } else {
            k
        }),
    decreases s.len(),
{
    if s.len() > 0 && s[0] != c {
        let t = s.drop_first();
        let k2 = if k == s.len() || k == -1 {
            t.len() as int
        } else {
            k - 1
        };
        assert forall|j: int| 0 <= j < k2 implies t[j] != c by {
            assert(t[j] == s[j + 1]);
        }
        if k2 == t.len() {
            assert forall|j: int| 0 <= j < t.len() implies t[j] != c by {
                assert(t[j] == s[j + 1]);
            }
        } else {
            assert(t[k2] == s[k2 + 1]);
        }
        lemma_index_of_first(t, c, k2);
    } else if s.len() > 0 {
        assert(k == 0 || k == -1 || k == s.len());
        if k != 0 {
            assert(s[0] != c);
        }
    }
}

pub proof fn lemma_index_of_last(s: Seq<char>, c: char, k: int)
    requires
        -1 <= k < s.len(),
        k >= 0 ==> s[k] == c,
        forall|j: int| k < j < s.len() ==> s[j] != c,
    ensures
        index_of_last(s, c) == k,
    decreases s.len(),
{
    if s.len() > 0 && k < s.len() - 1 {
        let t = s.drop_last();
        assert forall|j: int| k < j < t.len() implies t[j] != c by {
            assert(t[j] == s[j]);
        }
        if k >= 0 {
            assert(t[k] == s[k]);
        }
        lemma_index_of_last(t, c, k);
    }
}

/// Position of the first `c` in `s`.
pub fn find_first(s: &str, c: char) -> (r: Option<usize>)
    ensures
        match r {
            Some(k) => k == index_of_first(s@, c) && k < s@.len(),
            None => index_of_first(s@, c) == -1,
        },
{
    let len = s.unicode_len();
    let mut i: usize = 0;
    while i < len
        invariant
            len == s@.len(),
            i <= len,
            forall|j: int| 0 <= j < i ==> s@[j] != c,
        decreases len - i,
    {
        if s.get_char(i) == c {
            proof {
                lemma_index_of_first(s@, c, i as int);
            }
            return Some(i);
        }
        i = i + 1;
    }
    proof {
        lemma_index_of_first(s@, c, len as int);
    }
    None
}

/// Position of the last `c` in `s`.
pub fn find_last(s: &str, c: char) -> (r: Option<usize>)
    ensures
        match r {
            Some(k) => k == index_of_last(s@, c) && k < s@.len(),
            None => index_of_last(s@, c) == -1,
        },
{
    let len = s.unicode_len();
    let mut i: usize = len;
    while i > 0
        invariant
            len == s@.len(),
            i <= len,
            forall|j: int| i <= j < len ==> s@[j] != c,
        decreases i,
    {
        if s.get_char(i - 1) == c {
            proof {
                lemma_index_of_last(s@, c, i - 1);
            }
            return Some(i - 1);
        }
        i = i - 1;
    }
    proof {
        lemma_index_of_last(s@, c, -1);
    }
    None
}

} // verus!
