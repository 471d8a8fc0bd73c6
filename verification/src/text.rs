//! Searching and removing a pattern in a string, over the string's characters.
use vstd::prelude::*;
use vstd::string::*;

verus! {

/// `p` stands in `s` starting at character `i`.
pub open spec fn occurs_at(s: Seq<char>, p: Seq<char>, i: int) -> bool {
    &&& 0 <= i
    &&& i + p.len() <= s.len()
    &&& s.subrange(i, i + p.len()) == p
}

/// `p` stands somewhere in `s`.
pub open spec fn contains_seq(s: Seq<char>, p: Seq<char>) -> bool {
    exists|i: int| occurs_at(s, p, i)
}

/// The greatest start below `k` at which `p` stands in `s`, if there is one.
pub open spec fn last_occurrence_below(s: Seq<char>, p: Seq<char>, k: int) -> Option<int>
    decreases k,
{
    if k <= 0 {
        None
    } else if occurs_at(s, p, k - 1) {
        Some(k - 1)
    } else {
        last_occurrence_below(s, p, k - 1)
    }
}

/// The start of the last occurrence of `p` in `s` (what `str::rfind` finds,
/// counted in characters).
pub open spec fn last_occurrence(s: Seq<char>, p: Seq<char>) -> Option<int> {
    last_occurrence_below(s, p, s.len() as int + 1)
}

/// `s` with every occurrence of `p` removed, scanning from the left and
/// taking matches that do not overlap (what `str::replace(p, "")` gives).
pub open spec fn remove_all(s: Seq<char>, p: Seq<char>) -> Seq<char>
    decreases s.len(),
{
    if s.len() == 0 {
        s
    } else if p.len() > 0 && occurs_at(s, p, 0) {
        remove_all(s.subrange(p.len() as int, s.len() as int), p)
    } else {
        seq![s[0]] + remove_all(s.subrange(1, s.len() as int), p)
    }
}

/// An occurrence in the tail of `s` from `i` is an occurrence in `s` shifted by `i`.
pub proof fn lemma_occurs_at_skip(s: Seq<char>, p: Seq<char>, i: int, j: int)
    requires
        0 <= i <= s.len(),
        0 <= j,
    ensures
        occurs_at(s.skip(i), p, j) <==> occurs_at(s, p, i + j),
{
    if occurs_at(s.skip(i), p, j) {
        assert(s.subrange(i + j, i + j + p.len()) =~= s.skip(i).subrange(j, j + p.len()));
    }
    if occurs_at(s, p, i + j) {
        assert(s.subrange(i + j, i + j + p.len()) =~= s.skip(i).subrange(j, j + p.len()));
    }
}

/// The search from the top finds something exactly when some start below the
/// bound carries an occurrence, and what it finds is the greatest such start.
pub proof fn lemma_last_occurrence_below(s: Seq<char>, p: Seq<char>, k: int)
    ensures
        last_occurrence_below(s, p, k) is Some <==> exists|i: int| 0 <= i < k && occurs_at(s, p, i),
        last_occurrence_below(s, p, k) matches Some(i) ==> {
            &&& 0 <= i < k
            &&& occurs_at(s, p, i)
            &&& forall|j: int| i < j < k ==> !occurs_at(s, p, j)
        },
    decreases k,
{
    if k > 0 {
        lemma_last_occurrence_below(s, p, k - 1);
        if !occurs_at(s, p, k - 1) {
            if exists|i: int| 0 <= i < k && occurs_at(s, p, i) {
                let i = choose|i: int| 0 <= i < k && occurs_at(s, p, i);
                assert(0 <= i < k - 1 && occurs_at(s, p, i));
            }
        }
    }
}

/// `last_occurrence` finds something exactly when `p` stands in `s`, and it
/// finds the last start.
pub proof fn lemma_last_occurrence(s: Seq<char>, p: Seq<char>)
    ensures
        last_occurrence(s, p) is Some <==> contains_seq(s, p),
        last_occurrence(s, p) matches Some(i) ==> {
            &&& occurs_at(s, p, i)
            &&& forall|j: int| i < j ==> !occurs_at(s, p, j)
        },
{
    lemma_last_occurrence_below(s, p, s.len() as int + 1);
    if contains_seq(s, p) {
        let i = choose|i: int| occurs_at(s, p, i);
        assert(0 <= i < s.len() + 1 && occurs_at(s, p, i));
    }
}

/// The characters of `s`, one by one.
pub fn chars_of(s: &str) -> (v: Vec<char>)
    ensures
        v@ == s@,
{
    let n = s.unicode_len();
    let mut v: Vec<char> = Vec::new();
    let mut i: usize = 0;
    while i < n
        invariant
            n == s@.len(),
            i <= n,
            v@ == s@.subrange(0, i as int),
        decreases n - i,
    {
        v.push(s.get_char(i));
        i = i + 1;
    }
    assert(v@ =~= s@);
    v
}

/// Whether `p` stands in `s` starting at `i`.
pub fn occurs_at_exec(s: &Vec<char>, p: &Vec<char>, i: usize) -> (b: bool)
    ensures
        b == occurs_at(s@, p@, i as int),
{
    if p.len() > s.len() || i > s.len() - p.len() {
        return false;
    }
    let mut j: usize = 0;
    while j < p.len()
        invariant
            i + p.len() <= s.len(),
            j <= p.len(),
            forall|k: int| 0 <= k < j ==> s@[i + k] == p@[k],
        decreases p.len() - j,
    {
        if s[i + j] != p[j] {
            assert(s@.subrange(i as int, i + p.len())[j as int] != p@[j as int]);
            return false;
        }
        j = j + 1;
    }
    assert(s@.subrange(i as int, i + p.len()) =~= p@);
    true
}

/// The start, in characters, of the last occurrence of `p` in `s`.
pub fn rfind_chars(s: &Vec<char>, p: &Vec<char>) -> (res: Option<usize>)
    ensures
        match res {
            Some(i) => last_occurrence(s@, p@) == Some(i as int),
            None => last_occurrence(s@, p@) is None,
        },
{
    let mut i: usize = s.len();
    loop
        invariant
            i <= s@.len(),
            last_occurrence(s@, p@) == last_occurrence_below(s@, p@, i + 1),
        decreases i,
    {
        if occurs_at_exec(s, p, i) {
            return Some(i);
        }
        if i == 0 {
            assert(last_occurrence_below(s@, p@, 0) is None);
            return None;
        }
        i = i - 1;
    }
}

/// Whether `p` stands anywhere in `s`.
pub fn contains_str(s: &str, p: &str) -> (b: bool)
    ensures
        b == contains_seq(s@, p@),
{
    let sv = chars_of(s);
    let pv = chars_of(p);
    proof {
        lemma_last_occurrence(s@, p@);
    }
    rfind_chars(&sv, &pv).is_some()
}

/// Unfolds `remove_all` once at position `i` of `s`.
proof fn lemma_remove_all_step(s: Seq<char>, p: Seq<char>, i: int)
    requires
        0 <= i < s.len(),
        p.len() > 0,
    ensures
        occurs_at(s, p, i) ==> remove_all(s.skip(i), p) == remove_all(s.skip(i + p.len()), p),
        !occurs_at(s, p, i) ==> remove_all(s.skip(i), p) == seq![s[i]] + remove_all(
            s.skip(i + 1),
            p,
        ),
{
    lemma_occurs_at_skip(s, p, i, 0);
    let t = s.skip(i);
    if occurs_at(s, p, i) {
        assert(t.subrange(p.len() as int, t.len() as int) =~= s.skip(i + p.len()));
    } else {
        assert(t.subrange(1, t.len() as int) =~= s.skip(i + 1));
    }
}

/// `s` with every occurrence of `p` removed.
pub fn remove_all_str(s: &str, p: &str) -> (res: String)
    requires
        p@.len() > 0,
    ensures
        res@ == remove_all(s@, p@),
{
    let sv = chars_of(s);
    let pv = chars_of(p);
    let n = sv.len();
    let mut out = String::new();
    let mut start: usize = 0;
    let mut i: usize = 0;
    assert(s@.skip(0) =~= s@);
    assert(s@.subrange(0, 0) =~= Seq::<char>::empty());
    while i < n
        invariant
            n == s@.len(),
            sv@ == s@,
            pv@ == p@,
            p@.len() > 0,
            start <= i <= n,
            remove_all(s@, p@) == out@ + s@.subrange(start as int, i as int) + remove_all(
                s@.skip(i as int),
                p@,
            ),
        decreases n - i,
    {
        proof {
            lemma_remove_all_step(s@, p@, i as int);
        }
        if occurs_at_exec(&sv, &pv, i) {
            let piece = s.substring_char(start, i);
            out.append(piece);
            i = i + pv.len();
            start = i;
            assert(s@.subrange(start as int, i as int) =~= Seq::<char>::empty());
            assert(out@ + s@.subrange(start as int, i as int) =~= out@);
        } else {
            let ghost sub = s@.subrange(start as int, i as int);
            assert(s@.subrange(start as int, i + 1) =~= sub + seq![s@[i as int]]);
            i = i + 1;
        }
    }
    let piece = s.substring_char(start, n);
    out.append(piece);
    assert(s@.skip(n as int) =~= Seq::<char>::empty());
    assert(remove_all(Seq::<char>::empty(), p@) == Seq::<char>::empty());
    assert(out@ =~= out@ + Seq::<char>::empty());
    out
}

} // verus!
