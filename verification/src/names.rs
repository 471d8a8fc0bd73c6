//! Names read from the game: weapon names and player names arrive as raw
//! bytes, are decoded as UTF-8, and weapon names are shortened for display.
use vstd::prelude::*;
use vstd::string::*;
use vstd::utf8::*;
use crate::text::{
    lemma_last_occurrence, lemma_occurs_at_skip, occurs_at, chars_of, contains_seq, contains_str, last_occurrence, remove_all, remove_all_str, rfind_chars,
};

verus! {

/// The characters of `weapon_`, the prefix of the game's weapon class names.
pub open spec fn weapon_prefix() -> Seq<char> {
    seq!['w', 'e', 'a', 'p', 'o', 'n', '_']
}

/// The characters of `awp`.
pub open spec fn awp_name() -> Seq<char> {
    seq!['a', 'w', 'p']
}

/// The characters of `crappy name`, shown for a player whose name is not UTF-8.
pub open spec fn fallback_player_name() -> Seq<char> {
    seq!['c', 'r', 'a', 'p', 'p', 'y', ' ', 'n', 'a', 'm', 'e']
}

/// A non-empty name is cut at the last `weapon_` it holds, unless that
/// occurrence starts the name.
pub open spec fn trimmed_weapon_name(s: Seq<char>) -> Seq<char> {
    if s.len() > 0 {
        match last_occurrence(s, weapon_prefix()) {
            Some(a) => if a != 0 {
                s.take(a)
            } else {
                s
            },
            None => s,
        }
    } else {
        s
    }
}

/// The display name of a weapon: `awp` for any name that mentions it after the
/// cut, otherwise the cut name with every `weapon_` removed.
pub open spec fn fixed_weapon_name(s: Seq<char>) -> Seq<char> {
    let t = trimmed_weapon_name(s);
    if contains_seq(t, awp_name()) {
        awp_name()
    } else {
        remove_all(t, weapon_prefix())
    }
}

/// The text that raw bytes decode to, or nothing when they are not UTF-8.
pub open spec fn decoded_or_empty(raw: Seq<u8>) -> Seq<char> {
    if valid_utf8(raw) {
        decode_utf8(raw)
    } else {
        Seq::empty()
    }
}

/// The display name of the weapon whose raw class name is `raw`.
pub open spec fn weapon_display_name(raw: Seq<u8>) -> Seq<char> {
    fixed_weapon_name(decoded_or_empty(raw))
}

/// The name of a player whose raw name is `raw`.
pub open spec fn player_name(raw: Seq<u8>) -> Seq<char> {
    if valid_utf8(raw) {
        decode_utf8(raw)
    } else {
        fallback_player_name()
    }
}

/// With no occurrence of `p` in `s`, removing `p` changes nothing.
pub proof fn lemma_remove_all_absent(s: Seq<char>, p: Seq<char>)
    requires
        !contains_seq(s, p),
    ensures
        remove_all(s, p) == s,
    decreases s.len(),
{
    if s.len() > 0 {
        let t = s.subrange(1, s.len() as int);
        assert(!occurs_at(s, p, 0));
        assert forall|i: int| !occurs_at(t, p, i) by {
            if occurs_at(t, p, i) {
                lemma_occurs_at_skip(s, p, 1, i);
                assert(s.skip(1) =~= t);
                assert(occurs_at(s, p, 1 + i));
            }
        }
        lemma_remove_all_absent(t, p);
        assert(seq![s[0]] + t =~= s);
    }
}

/// A weapon class name is `weapon_` followed by the weapon's own name; when
/// that name holds neither `weapon_` nor `awp`, its display name is that
/// name.
pub proof fn lemma_class_prefix_stripped(x: Seq<char>)
    requires
        !contains_seq(x, weapon_prefix()),
        !contains_seq(x, awp_name()),
    ensures
        fixed_weapon_name(weapon_prefix() + x) == x,
{
    let w = weapon_prefix();
    let s = w + x;
    assert(s.skip(7) =~= x);
    // The only `weapon_` in `s` is its prefix.
    assert(s.subrange(0, 7) =~= w);
    assert(occurs_at(s, w, 0));
    assert forall|j: int| 0 < j implies !occurs_at(s, w, j) by {
        if occurs_at(s, w, j) {
            if j < 7 {
                assert(s.subrange(j, j + 7)[0] == s[j]);
            } else {
                lemma_occurs_at_skip(s, w, 7, j - 7);
                assert(occurs_at(x, w, j - 7));
            }
        }
    }
    lemma_last_occurrence(s, w);
    assert(last_occurrence(s, w) == Some(0int));
    assert(trimmed_weapon_name(s) == s);
    // `s` holds no `awp`.
    assert forall|j: int| !occurs_at(s, awp_name(), j) by {
        if occurs_at(s, awp_name(), j) {
            assert(s.subrange(j, j + 3)[0] == s[j]);
            assert(s.subrange(j, j + 3)[1] == s[j + 1]);
            if j < 7 {
            } else {
                lemma_occurs_at_skip(s, awp_name(), 7, j - 7);
                assert(occurs_at(x, awp_name(), j - 7));
            }
        }
    }
    assert(!contains_seq(s, awp_name()));
    // Removing `weapon_` drops the prefix and leaves the rest.
    assert(s.subrange(7, s.len() as int) =~= x);
    assert(remove_all(s, w) == remove_all(x, w));
    lemma_remove_all_absent(x, w);
}

/// A weapon class name `weapon_` followed by a name without `weapon_` is
/// not cut.
#[verifier::rlimit(40)]
proof fn lemma_single_prefix_kept(x: Seq<char>)
    requires
        !contains_seq(x, weapon_prefix()),
    ensures
        trimmed_weapon_name(weapon_prefix() + x) == weapon_prefix() + x,
{
    let w = weapon_prefix();
    let s = w + x;
    assert(s.skip(7) =~= x);
    // The only `weapon_` in `s` is its prefix.
    assert(s.subrange(0, 7) =~= w);
    assert(occurs_at(s, w, 0));
    assert forall|j: int| 0 < j implies !occurs_at(s, w, j) by {
        if occurs_at(s, w, j) {
            if j < 7 {
                assert(s.subrange(j, j + 7)[0] == s[j]);
            } else {
                lemma_occurs_at_skip(s, w, 7, j - 7);
                assert(occurs_at(x, w, j - 7));
            }
        }
    }
    lemma_last_occurrence(s, w);
    assert(last_occurrence(s, w) == Some(0int));
    assert(trimmed_weapon_name(s) == s);
}

/// Every AWP variant shows as `awp`: the display name of `weapon_` followed
/// by a name that holds `awp` (and no `weapon_`) is `awp`.
pub proof fn lemma_awp_variants(x: Seq<char>, i: int)
    requires
        0 <= i,
        i + 3 <= x.len(),
        x.subrange(i, i + 3) == seq!['a', 'w', 'p'],
        !contains_seq(x, seq!['w', 'e', 'a', 'p', 'o', 'n', '_']),
    ensures
        fixed_weapon_name(seq!['w', 'e', 'a', 'p', 'o', 'n', '_'] + x) == seq!['a', 'w', 'p'],
{
    let w = weapon_prefix();
    assert(w =~= seq!['w', 'e', 'a', 'p', 'o', 'n', '_']);
    assert(awp_name() =~= seq!['a', 'w', 'p']);
    let s = w + x;
    lemma_single_prefix_kept(x);
    assert(s.subrange(7 + i, 7 + i + 3) =~= x.subrange(i, i + 3));
    assert(occurs_at(s, awp_name(), 7 + i));
}

/// A player's name is the text its raw bytes encode when they are valid
/// UTF-8, and `crappy name` otherwise.
pub proof fn lemma_player_name(raw: Seq<u8>)
    ensures
        valid_utf8(raw) ==> player_name(raw) == decode_utf8(raw),
        !valid_utf8(raw) ==> player_name(raw) == seq!['c', 'r', 'a', 'p', 'p', 'y', ' ', 'n', 'a', 'm', 'e'],
{
}

/// Calls `String::from_utf8`, which gives back a string exactly when the bytes
/// are valid UTF-8, and then the string that they encode. The error value,
/// which says where decoding stopped, is dropped.
#[verifier::external_body]
fn string_from_utf8(bytes: Vec<u8>) -> (res: Option<String>)
    ensures
        res is Some <==> valid_utf8(bytes@),
        res matches Some(s) ==> s@ == decode_utf8(bytes@),
{
    String::from_utf8(bytes).ok()
}

/// Shortens a weapon's class name for display: cuts it at the last
/// `weapon_` that does not start it, gives `awp` for any AWP variant, and
/// otherwise removes every `weapon_`.
pub fn fix_weapon_name(weapon_name: String) -> (res: String)
    ensures
        res@ == fixed_weapon_name(weapon_name@),
{
    let prefix = "weapon_";
    let awp = "awp";
    proof {
        reveal_strlit("weapon_");
        reveal_strlit("awp");
        assert(prefix@ =~= weapon_prefix());
        assert(awp@ =~= awp_name());
    }
    let whole: &str = weapon_name.as_str();
    let chars = chars_of(whole);
    let prefix_chars = chars_of(prefix);
    let n = whole.unicode_len();
    let trimmed: &str = if n != 0 {
        match rfind_chars(&chars, &prefix_chars) {
            Some(a) => {
                if a != 0 {
                    proof {
                        lemma_last_occurrence(whole@, prefix@);
                    }
                    whole.substring_char(0, a)
                } else {
                    whole
                }
            },
            None => whole,
        }
    } else {
        whole
    };
    assert(trimmed@ == trimmed_weapon_name(weapon_name@));
    if contains_str(trimmed, awp) {
        String::from_str(awp)
    } else {
        remove_all_str(trimmed, prefix)
    }
}

/// The display name of the weapon whose raw class name is `raw`: the bytes
/// decoded as UTF-8 (nothing when they are not), then shortened.
pub fn weapon_name_from_raw(raw: &[u8]) -> (name: String)
    ensures
        name@ == weapon_display_name(raw@),
{
    let decoded = match string_from_utf8(vstd::slice::slice_to_vec(raw)) {
        Some(s) => s,
        None => String::new(),
    };
    fix_weapon_name(decoded)
}

/// The name of a player from the raw bytes of its name field, or
/// `crappy name` when they are not UTF-8.
pub fn player_name_from_raw(raw: &[u8]) -> (name: String)
    ensures
        name@ == player_name(raw@),
{
    match string_from_utf8(vstd::slice::slice_to_vec(raw)) {
        Some(s) => s,
        None => {
            let fallback = "crappy name";
            proof {
                reveal_strlit("crappy name");
                assert(fallback@ =~= fallback_player_name());
            }
            String::from_str(fallback)
        },
    }
}

/// Whether two byte strings are equal.
fn bytes_equal(a: &Vec<u8>, b: &[u8]) -> (res: bool)
    ensures
        res == (a@ == b@),
{
    if a.len() != b.len() {
        return false;
    }
    let mut i: usize = 0;
    while i < a.len()
        invariant
            a@.len() == b@.len(),
            i <= a@.len(),
            forall|k: int| 0 <= k < i ==> a@[k] == b@[k],
        decreases a.len() - i,
    {
        if a[i] != b[i] {
            return false;
        }
        i = i + 1;
    }
    assert(a@ =~= b@);
    true
}

/// The weapon names met so far, each raw class name with its display name,
/// so that a name is decoded and shortened only once.
///
/// The names are kept in a `Vec` of pairs, with no raw name twice, rather
/// than in a `HashMap` keyed by the raw bytes: vstd gives a `HashMap` a model
/// of its contents only for keys whose hashing it knows (integers, `bool`,
/// `Box` of such), so with byte-string keys nothing could be stated of what
/// the map holds without an assumption.
pub struct WeaponNames {
    entries: Vec<(Vec<u8>, String)>,
}

impl WeaponNames {
    /// Every stored display name is the one its raw name gives, and no raw
    /// name is stored twice.
    #[verifier::type_invariant]
    pub(crate) closed spec fn well_formed(self) -> bool {
        &&& forall|i: int|
            0 <= i < self.entries@.len() ==> #[trigger] self.entries@[i].1@ == weapon_display_name(
                self.entries@[i].0@,
            )
        &&& forall|i: int, j: int|
            0 <= i < j < self.entries@.len() ==> #[trigger] self.entries@[i].0@
                != #[trigger] self.entries@[j].0@
    }

    /// Whether `raw` is stored, at position `i`.
    pub closed spec fn stored_at(self, raw: Seq<u8>, i: int) -> bool {
        0 <= i < self.entries@.len() && self.entries@[i].0@ == raw
    }

    /// The display names stored, by raw name.
    pub closed spec fn names(self) -> Map<Seq<u8>, Seq<char>> {
        Map::new(
            |raw: Seq<u8>| exists|i: int| self.stored_at(raw, i),
            |raw: Seq<u8>| self.entries@[choose|i: int| self.stored_at(raw, i)].1@,
        )
    }

    /// No weapon name is known yet.
    pub fn new() -> (res: Self)
        ensures
            res.names() == Map::<Seq<u8>, Seq<char>>::empty(),
            res.names_coherent(),
    {
        let res = WeaponNames { entries: Vec::new() };
        assert(res.names() =~= Map::<Seq<u8>, Seq<char>>::empty());
        res
    }

    /// Every stored name is the display name of its raw name.
    pub open spec fn names_coherent(self) -> bool {
        forall|raw: Seq<u8>| #[trigger]
            self.names().contains_key(raw) ==> self.names()[raw] == weapon_display_name(raw)
    }

    /// A cache that keeps its invariant maps each raw name to its display name.
    pub(crate) proof fn lemma_coherent(self)
        requires
            self.well_formed(),
        ensures
            self.names_coherent(),
    {
        assert forall|raw: Seq<u8>| #[trigger]
            self.names().contains_key(raw) implies self.names()[raw] == weapon_display_name(
            raw,
        ) by {
            let i = choose|i: int| self.stored_at(raw, i);
            assert(self.entries@[i].1@ == weapon_display_name(self.entries@[i].0@));
        }
    }

    /// The display name of the weapon whose raw class name is `raw`, taken
    /// from the names met before, or worked out and remembered.
    pub fn resolve(&mut self, raw: &[u8]) -> (name: String)
        ensures
            name@ == weapon_display_name(raw@),
            final(self).names() == old(self).names().insert(raw@, name@),
            old(self).names_coherent(),
            final(self).names_coherent(),
    {
        proof {
            use_type_invariant(&*self);
            self.lemma_coherent();
        }
        let n = self.entries.len();
        let mut i: usize = 0;
        while i < n
            invariant
                n == self.entries@.len(),
                self.well_formed(),
                i <= n,
                forall|k: int| 0 <= k < i ==> self.entries@[k].0@ != raw@,
            decreases n - i,
        {
            if bytes_equal(&self.entries[i].0, raw) {
                let name = self.entries[i].1.clone();
                proof {
                    let old_names = self.names();
                    assert(self.stored_at(raw@, i as int));
                    let j = choose|j: int| self.stored_at(raw@, j);
                    assert(j == i) by {
                        if j < i {
                        } else if j > i {
                            assert(self.entries@[i as int].0@ != self.entries@[j].0@);
                        }
                    }
                    assert(old_names.insert(raw@, name@) =~= old_names);
                    self.lemma_coherent();
                }
                return name;
            }
            i = i + 1;
        }
        let name = weapon_name_from_raw(raw);
        let ghost old_self = *self;
        let ghost old_names = self.names();
        let ghost old_entries = self.entries@;
        let mut entries: Vec<(Vec<u8>, String)> = Vec::new();
        std::mem::swap(&mut entries, &mut self.entries);
        entries.push((vstd::slice::slice_to_vec(raw), name.clone()));
        self.entries = entries;
        proof {
            let new_names = self.names();
            assert(self.entries@.len() == n + 1);
            assert(forall|j: int| 0 <= j < n ==> self.entries@[j] == old_entries[j]);
            assert(self.entries@[n as int].0@ == raw@);
            assert forall|k: Seq<u8>| #[trigger] new_names.contains_key(k) == old_names.insert(
                raw@,
                name@,
            ).contains_key(k) by {
                if k == raw@ {
                    assert(self.stored_at(k, n as int));
                } else if old_names.contains_key(k) {
                    let j = choose|j: int| old_self.stored_at(k, j);
                    assert(self.stored_at(k, j));
                } else if new_names.contains_key(k) {
                    let j = choose|j: int| self.stored_at(k, j);
                    assert(j < n);
                    assert(old_self.stored_at(k, j));
                }
            }
            assert forall|k: Seq<u8>| #[trigger] new_names.contains_key(k) implies new_names[k]
                == old_names.insert(raw@, name@)[k] by {
                let j = choose|j: int| self.stored_at(k, j);
                if k == raw@ {
                    assert(j == n);
                } else {
                    assert(j < n);
                    assert(old_self.stored_at(k, j));
                    let j0 = choose|j0: int| old_self.stored_at(k, j0);
                    assert(j0 == j) by {
                        if j0 != j {
                            if j0 < j {
                                assert(old_entries[j0].0@ != old_entries[j].0@);
                            } else {
                                assert(old_entries[j].0@ != old_entries[j0].0@);
                            }
                        }
                    }
                }
            }
            assert(new_names =~= old_names.insert(raw@, name@));
        }
        proof {
            use_type_invariant(&*self);
            self.lemma_coherent();
        }
        name
    }
}

} // verus!
