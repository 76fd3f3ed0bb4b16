//! Scanning the wire string: the first and the last `.` delimiter, and the
//! trailing `!` termination sign that marks a vector frozen.

use vstd::prelude::*;

verus! {

/// The index of the first `.` in the string, if any.
pub open spec fn first_dot(s: Seq<char>) -> Option<int>
    decreases s.len(),
{
    if s.len() == 0 {
        Option::None
    } else if s[0] == '.' {
        Option::Some(0)
    } else {
        match first_dot(s.drop_first()) {
            Option::Some(i) => Option::Some(i + 1),
            Option::None => Option::None,
        }
    }
}

/// The index of the last `.` in the string, if any.
pub open spec fn last_dot(s: Seq<char>) -> Option<int>
    decreases s.len(),
{
    if s.len() == 0 {
        Option::None
    } else if s.last() == '.' {
        Option::Some(s.len() - 1)
    } else {
        last_dot(s.drop_last())
    }
}

/// The string carries the trailing termination sign.
pub open spec fn ends_bang(s: Seq<char>) -> bool {
    s.len() > 0 && s.last() == '!'
}

/// `first_dot` points at a `.` that no earlier `.` precedes, and is absent
/// exactly when the string holds no `.` at all.
pub proof fn lemma_first_dot_spec(s: Seq<char>)
    ensures
        match first_dot(s) {
            Option::Some(i) => 0 <= i < s.len() && s[i] == '.' && (forall|j: int|
                0 <= j < i ==> s[j] != '.'),
            Option::None => forall|j: int| 0 <= j < s.len() ==> s[j] != '.',
        },
    decreases s.len(),
{
    if s.len() == 0 {
    } else if s[0] == '.' {
    } else {
        lemma_first_dot_spec(s.drop_first());
        let t = s.drop_first();
        match first_dot(t) {
            Option::Some(i) => {
                assert(s[i + 1] == t[i]);
                assert forall|j: int| 0 <= j < i + 1 implies s[j] != '.' by {
                    if j > 0 {
                        assert(s[j] == t[j - 1]);
                    }
                }
            },
            Option::None => {
                assert forall|j: int| 0 <= j < s.len() implies s[j] != '.' by {
                    if j > 0 {
                        assert(s[j] == t[j - 1]);
                    }
                }
            },
        }
    }
}

/// `last_dot` points at a `.` that no later `.` follows, and is absent
/// exactly when the string holds no `.` at all.
pub proof fn lemma_last_dot_spec(s: Seq<char>)
    ensures
        match last_dot(s) {
            Option::Some(i) => 0 <= i < s.len() && s[i] == '.' && (forall|j: int|
                i < j < s.len() ==> s[j] != '.'),
            Option::None => forall|j: int| 0 <= j < s.len() ==> s[j] != '.',
        },
    decreases s.len(),
{
    if s.len() == 0 {
    } else if s.last() == '.' {
    } else {
        lemma_last_dot_spec(s.drop_last());
        let t = s.drop_last();
        match last_dot(t) {
            Option::Some(i) => {
                assert(s[i] == t[i]);
                assert forall|j: int| i < j < s.len() implies s[j] != '.' by {
                    if j < s.len() - 1 {
                        assert(s[j] == t[j]);
                    }
                }
            },
            Option::None => {
                assert forall|j: int| 0 <= j < s.len() implies s[j] != '.' by {
                    if j < s.len() - 1 {
                        assert(s[j] == t[j]);
                    }
                }
            },
        }
    }
}

/// Appending dot-free text does not move the last `.`.
pub proof fn lemma_last_dot_append_no_dot(s: Seq<char>, t: Seq<char>)
    requires
        forall|j: int| 0 <= j < t.len() ==> t[j] != '.',
    ensures
        last_dot(s + t) == last_dot(s),
    decreases t.len(),
{
    if t.len() == 0 {
        assert(s + t =~= s);
    } else {
        assert((s + t).last() == t.last());
        assert((s + t).drop_last() =~= s + t.drop_last());
        lemma_last_dot_append_no_dot(s, t.drop_last());
    }
}

/// Appending a `.` makes it the last one.
pub proof fn lemma_last_dot_push_dot(s: Seq<char>)
    ensures
        last_dot(s.push('.')) == Option::Some(s.len() as int),
{
    assert(s.push('.').last() == '.');
}

/// Whether the string ends with the termination sign.
pub fn ends_with_bang(s: &str) -> (r: bool)
    ensures
        r == ends_bang(s@),
{
    let n = s.unicode_len();
    if n == 0 {
        false
    } else {
        let c = s.get_char(n - 1);
        c == '!'
    }
}

/// The index of the first `.` in the string, if any.
pub fn find_first_dot(s: &str) -> (r: Option<usize>)
    ensures
        match r {
            Some(i) => first_dot(s@) == Option::Some(i as int),
            None => first_dot(s@) is None,
        },
{
    proof {
        lemma_first_dot_spec(s@);
    }
    let n = s.unicode_len();
    let mut i: usize = 0;
    while i < n
        invariant
            0 <= i <= n,
            n == s@.len(),
            forall|j: int| 0 <= j < i ==> s@[j] != '.',
        decreases n - i,
    {
        let c = s.get_char(i);
        if c == '.' {
            proof {
                lemma_first_dot_spec(s@);
                match first_dot(s@) {
                    Option::Some(fi) => {
                        if fi < i as int {
                            assert(s@[fi] != '.');
                        } else if fi > i as int {
                            assert(s@[i as int] != '.');
                        }
                    },
                    Option::None => {
                        assert(s@[i as int] != '.');
                    },
                }
            }
            return Some(i);
        }
        i += 1;
    }
    proof {
        lemma_first_dot_spec(s@);
    }
    None
}

/// The index of the last `.` in the string, if any.
pub fn find_last_dot(s: &str) -> (r: Option<usize>)
    ensures
        match r {
            Some(i) => last_dot(s@) == Option::Some(i as int),
            None => last_dot(s@) is None,
        },
{
    proof {
        lemma_last_dot_spec(s@);
    }
    let n = s.unicode_len();
    let mut i: usize = n;
    while i > 0
        invariant
            0 <= i <= n,
            n == s@.len(),
            forall|j: int| i <= j < n ==> s@[j] != '.',
        decreases i,
    {
        let c = s.get_char(i - 1);
        if c == '.' {
            proof {
                lemma_last_dot_spec(s@);
                match last_dot(s@) {
                    Option::Some(li) => {
                        if li < i as int - 1 {
                            assert(s@[i as int - 1] != '.');
                        } else if li > i as int - 1 {
                            assert(s@[li] != '.');
                        }
                    },
                    Option::None => {
                        assert(s@[i as int - 1] != '.');
                    },
                }
            }
            return Some(i - 1);
        }
        i -= 1;
    }
    proof {
        lemma_last_dot_spec(s@);
    }
    None
}

} // verus!
