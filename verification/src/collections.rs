//! Small ordered collections keyed by text: a set of names and a map from
//! names to JSON fragments, each kept in a vector sorted by name, with no
//! name held twice.

use vstd::prelude::*;

use crate::json::{JsonData, JsonValue};
use crate::text::{str_eq, starts_with, chars_of};

verus! {

/// `a` sorts before `b` in the order of `String`: character by character
/// by code point (the order of their UTF-8 bytes), a proper prefix first.
pub open spec fn text_lt(a: Seq<char>, b: Seq<char>) -> bool
    decreases a.len(),
{
    if a.len() == 0 {
        b.len() > 0
    } else if b.len() == 0 {
        false
    } else if (a[0] as u32) < (b[0] as u32) {
        true
    } else if a[0] == b[0] {
        text_lt(a.drop_first(), b.drop_first())
    } else {
        false
    }
}

/// No text sorts before itself.
pub proof fn lemma_text_lt_irreflexive(a: Seq<char>)
    ensures
        !text_lt(a, a),
    decreases a.len(),
{
    if a.len() > 0 {
        lemma_text_lt_irreflexive(a.drop_first());
    }
}

/// The text order is transitive.
pub proof fn lemma_text_lt_transitive(a: Seq<char>, b: Seq<char>, c: Seq<char>)
    requires
        text_lt(a, b),
        text_lt(b, c),
    ensures
        text_lt(a, c),
    decreases a.len(),
{
    if a.len() > 0 && b.len() > 0 && c.len() > 0 {
        if a[0] == b[0] && b[0] == c[0] {
            lemma_text_lt_transitive(a.drop_first(), b.drop_first(), c.drop_first());
        }
    }
}

proof fn lemma_same_code_same_char(c: char, d: char)
    requires
        (c as u32) == (d as u32),
    ensures
        c == d,
{
}

/// Of two different texts, one sorts before the other.
pub proof fn lemma_text_lt_total(a: Seq<char>, b: Seq<char>)
    requires
        a != b,
    ensures
        text_lt(a, b) || text_lt(b, a),
    decreases a.len(),
{
    if a.len() > 0 && b.len() > 0 {
        if a[0] == b[0] {
            if a.drop_first() == b.drop_first() {
                assert(a =~= seq![a[0]] + a.drop_first());
                assert(b =~= seq![b[0]] + b.drop_first());
            }
            lemma_text_lt_total(a.drop_first(), b.drop_first());
        } else if (a[0] as u32) == (b[0] as u32) {
            lemma_same_code_same_char(a[0], b[0]);
        }
    } else if a.len() == 0 && b.len() == 0 {
        assert(a =~= b);
    }
}

/// Returns whether `a` sorts before `b` in the order of `String`.
pub fn text_less(a: &str, b: &str) -> (r: bool)
    ensures
        r == text_lt(a@, b@),
{
    let x = chars_of(a);
    let y = chars_of(b);
    let mut i: usize = 0;
    assert(a@.skip(0) =~= a@);
    assert(b@.skip(0) =~= b@);
    while i < x.len() && i < y.len()
        invariant
            i <= x.len(),
            i <= y.len(),
            x@ == a@,
            y@ == b@,
            text_lt(a@, b@) == text_lt(a@.skip(i as int), b@.skip(i as int)),
        decreases x.len() - i,
    {
        let c = x[i];
        let d = y[i];
        assert(a@.skip(i as int)[0] == c);
        assert(b@.skip(i as int)[0] == d);
        if (c as u32) < (d as u32) {
            return true;
        }
        if (c as u32) != (d as u32) {
            return false;
        }
        proof {
            lemma_same_code_same_char(c, d);
        }
        assert(a@.skip(i as int).drop_first() =~= a@.skip(i + 1));
        assert(b@.skip(i as int).drop_first() =~= b@.skip(i + 1));
        i += 1;
    }
    assert(i == x.len() ==> a@.skip(i as int).len() == 0);
    assert(i == y.len() ==> b@.skip(i as int).len() == 0);
    i == x.len() && i < y.len()
}

/// Each name sorts before every later one: the names are sorted and
/// none is held twice.
pub open spec fn sorted_names(v: Seq<String>) -> bool {
    forall|i: int, j: int| 0 <= i < j < v.len() ==> text_lt((#[trigger] v[i])@, (#[trigger] v[j])@)
}

/// Each member's name sorts before every later one's.
pub open spec fn sorted_members(v: Seq<(String, JsonValue)>) -> bool {
    forall|i: int, j: int|
        0 <= i < j < v.len() ==> text_lt((#[trigger] v[i]).0@, (#[trigger] v[j]).0@)
}

/// The names held by a vector of strings.
pub open spec fn names_of(v: Seq<String>) -> Set<Seq<char>>
    decreases v.len(),
{
    if v.len() == 0 {
        Set::empty()
    } else {
        names_of(v.drop_last()).insert(v.last()@)
    }
}

/// The name-to-content map held by a vector of members; a later member
/// replaces an earlier one with the same name.
pub open spec fn members_map(v: Seq<(String, JsonValue)>) -> Map<Seq<char>, JsonData>
    decreases v.len(),
{
    if v.len() == 0 {
        Map::empty()
    } else {
        members_map(v.drop_last()).insert(v.last().0@, v.last().1@)
    }
}

/// A name is held exactly when some entry spells it.
pub proof fn lemma_names_of_contains(v: Seq<String>, n: Seq<char>)
    ensures
        names_of(v).contains(n) <==> exists|i: int| 0 <= i < v.len() && (#[trigger] v[i])@ == n,
    decreases v.len(),
{
    if v.len() > 0 {
        let init = v.drop_last();
        lemma_names_of_contains(init, n);
        if names_of(v).contains(n) {
            if names_of(init).contains(n) {
                let i = choose|i: int| 0 <= i < init.len() && (#[trigger] init[i])@ == n;
                assert(v[i] == init[i]);
            } else {
                assert(v[v.len() - 1]@ == n);
            }
        }
        if exists|i: int| 0 <= i < v.len() && (#[trigger] v[i])@ == n {
            let i = choose|i: int| 0 <= i < v.len() && (#[trigger] v[i])@ == n;
            if i < v.len() - 1 {
                assert(init[i] == v[i]);
            }
        }
    }
}

/// Returns whether `names` holds `name`.
pub fn contains_name(names: &Vec<String>, name: &str) -> (r: bool)
    ensures
        r == names_of(names@).contains(name@),
{
    proof {
        lemma_names_of_contains(names@, name@);
    }
    let mut i: usize = 0;
    while i < names.len()
        invariant
            i <= names.len(),
            forall|j: int| 0 <= j < i ==> (#[trigger] names@[j])@ != name@,
        decreases names.len() - i,
    {
        if str_eq(names[i].as_str(), name) {
            assert(names@[i as int]@ == name@);
            proof {
                lemma_names_of_contains(names@, name@);
            }
            return true;
        }
        i += 1;
    }
    proof {
        lemma_names_of_contains(names@, name@);
    }
    false
}

/// The position at which `name` belongs in the sorted `names`: every
/// name before it sorts before `name`, and the name there, if any, does not.
fn position_of_name(names: &Vec<String>, name: &str) -> (r: usize)
    ensures
        r <= names.len(),
        forall|k: int| 0 <= k < r ==> text_lt((#[trigger] names@[k])@, name@),
        r < names.len() ==> !text_lt(names@[r as int]@, name@),
{
    let mut i: usize = 0;
    while i < names.len()
        invariant
            i <= names.len(),
            forall|k: int| 0 <= k < i ==> text_lt((#[trigger] names@[k])@, name@),
        ensures
            i <= names.len(),
            forall|k: int| 0 <= k < i ==> text_lt((#[trigger] names@[k])@, name@),
            i < names.len() ==> !text_lt(names@[i as int]@, name@),
        decreases names.len() - i,
    {
        if !text_less(names[i].as_str(), name) {
            break;
        }
        i += 1;
    }
    i
}

/// Adds `name` to the sorted `names` unless it is already held, keeping
/// them sorted.
pub fn insert_name(names: &mut Vec<String>, name: String)
    requires
        sorted_names(old(names)@),
    ensures
        sorted_names(final(names)@),
        names_of(final(names)@) == names_of(old(names)@).insert(name@),
{
    let i = position_of_name(names, name.as_str());
    if i < names.len() && str_eq(names[i].as_str(), name.as_str()) {
        proof {
            lemma_names_of_contains(names@, name@);
        }
        assert(names_of(old(names)@).insert(name@) =~= names_of(old(names)@));
        return;
    }
    let ghost v = names@;
    let ghost n = name@;
    proof {
        if i < v.len() {
            lemma_text_lt_total(v[i as int]@, n);
        }
    }
    names.insert(i, name);
    let ghost w = names@;
    assert(w == v.insert(i as int, name));
    assert forall|a: int, b: int| 0 <= a < b < w.len() implies text_lt((#[trigger] w[a])@, (#[trigger] w[b])@) by {
        if a < i && b == i {
        } else if a < i && b > i {
            assert(w[b] == v[b - 1]);
        } else if a == i && b > i {
            assert(w[b] == v[b - 1]);
            if b - 1 > i {
                assert(text_lt(v[i as int]@, v[b - 1]@));
                lemma_text_lt_transitive(n, v[i as int]@, v[b - 1]@);
            }
        } else if a > i {
            assert(w[a] == v[a - 1]);
            assert(w[b] == v[b - 1]);
        } else {
            assert(w[a] == v[a]);
            assert(w[b] == v[b - 1] || w[b] == v[b]);
            if b < i {
                assert(w[b] == v[b]);
            }
        }
    }
    assert forall|x: Seq<char>| names_of(w).contains(x) == names_of(v).insert(n).contains(x) by {
        lemma_names_of_contains(w, x);
        lemma_names_of_contains(v, x);
        if names_of(v).contains(x) {
            let k = choose|k: int| 0 <= k < v.len() && (#[trigger] v[k])@ == x;
            if k < i {
                assert(w[k] == v[k]);
            } else {
                assert(w[k + 1] == v[k]);
            }
        }
        if x == n {
            assert(w[i as int]@ == n);
        }
        if names_of(w).contains(x) {
            let k = choose|k: int| 0 <= k < w.len() && (#[trigger] w[k])@ == x;
            if k < i {
                assert(w[k] == v[k]);
            } else if k > i {
                assert(w[k] == v[k - 1]);
            }
        }
    }
    assert(names_of(w) =~= names_of(v).insert(n));
}

/// Returns whether some name in `names` begins with `prefix`.
pub fn any_name_starts_with(names: &Vec<String>, prefix: &str) -> (r: bool)
    ensures
        r == exists|n: Seq<char>|
            names_of(names@).contains(n) && prefix@.len() <= n.len() && #[trigger] n.take(
                prefix@.len() as int,
            ) == prefix@,
{
    let mut i: usize = 0;
    while i < names.len()
        invariant
            i <= names.len(),
            forall|j: int|
                0 <= j < i ==> !(prefix@.len() <= (#[trigger] names@[j])@.len() && names@[j]@.take(
                    prefix@.len() as int,
                ) == prefix@),
        decreases names.len() - i,
    {
        let cs = chars_of(names[i].as_str());
        if starts_with(cs.as_slice(), prefix) {
            proof {
                lemma_names_of_contains(names@, names@[i as int]@);
            }
            return true;
        }
        i += 1;
    }
    proof {
        assert forall|n: Seq<char>|
            names_of(names@).contains(n) && prefix@.len() <= n.len() implies #[trigger] n.take(
            prefix@.len() as int,
        ) != prefix@ by {
            lemma_names_of_contains(names@, n);
            let j = choose|j: int| 0 <= j < names@.len() && (#[trigger] names@[j])@ == n;
            assert(names@[j]@ == n);
        }
    }
    false
}

/// In a vector whose members have distinct names, each name maps to its
/// member's content, and the map holds no other name.
proof fn lemma_members_map_distinct(v: Seq<(String, JsonValue)>)
    requires
        forall|i: int, j: int| 0 <= i < j < v.len() ==> (#[trigger] v[i]).0@ != (#[trigger] v[j]).0@,
    ensures
        forall|i: int|
            0 <= i < v.len() ==> members_map(v).contains_key((#[trigger] v[i]).0@) && members_map(
                v,
            )[v[i].0@] == v[i].1@,
        forall|k: Seq<char>|
            #[trigger] members_map(v).contains_key(k) ==> exists|i: int| 0 <= i < v.len() && (#[trigger] v[i]).0@ == k,
    decreases v.len(),
{
    if v.len() > 0 {
        let init = v.drop_last();
        assert forall|i: int, j: int| 0 <= i < j < init.len() implies (#[trigger] init[i]).0@ != (#[trigger] init[j]).0@ by {
            assert(init[i] == v[i] && init[j] == v[j]);
        }
        lemma_members_map_distinct(init);
        assert forall|i: int| 0 <= i < v.len() implies members_map(v).contains_key((#[trigger] v[i]).0@) && members_map(v)[v[i].0@] == v[i].1@ by {
            if i < v.len() - 1 {
                assert(init[i] == v[i]);
                assert(v[i].0@ != v[v.len() - 1].0@);
            }
        }
        assert forall|k: Seq<char>| #[trigger] members_map(v).contains_key(k) implies exists|i: int| 0 <= i < v.len() && (#[trigger] v[i]).0@ == k by {
            if k != v.last().0@ {
                assert(members_map(init).contains_key(k));
                let i = choose|i: int| 0 <= i < init.len() && (#[trigger] init[i]).0@ == k;
                assert(v[i] == init[i]);
            } else {
                assert(v[v.len() - 1].0@ == k);
            }
        }
    }
}

/// Sorted members have distinct names.
proof fn lemma_sorted_members_distinct(v: Seq<(String, JsonValue)>)
    requires
        sorted_members(v),
    ensures
        forall|i: int, j: int| 0 <= i < j < v.len() ==> (#[trigger] v[i]).0@ != (#[trigger] v[j]).0@,
{
    assert forall|i: int, j: int| 0 <= i < j < v.len() implies (#[trigger] v[i]).0@ != (#[trigger] v[j]).0@ by {
        lemma_text_lt_irreflexive(v[i].0@);
    }
}

fn position_of_member(members: &Vec<(String, JsonValue)>, name: &str) -> (r: usize)
    ensures
        r <= members.len(),
        forall|k: int| 0 <= k < r ==> text_lt((#[trigger] members@[k]).0@, name@),
        r < members.len() ==> !text_lt(members@[r as int].0@, name@),
{
    let mut i: usize = 0;
    while i < members.len()
        invariant
            i <= members.len(),
            forall|k: int| 0 <= k < i ==> text_lt((#[trigger] members@[k]).0@, name@),
        ensures
            i <= members.len(),
            forall|k: int| 0 <= k < i ==> text_lt((#[trigger] members@[k]).0@, name@),
            i < members.len() ==> !text_lt(members@[i as int].0@, name@),
        decreases members.len() - i,
    {
        if !text_less(members[i].0.as_str(), name) {
            break;
        }
        i += 1;
    }
    i
}

/// Records `content` under `name` in the sorted `members`, replacing the
/// member of that name if there is one, and keeping them sorted.
pub fn insert_member(members: &mut Vec<(String, JsonValue)>, name: String, content: JsonValue)
    requires
        sorted_members(old(members)@),
    ensures
        sorted_members(final(members)@),
        members_map(final(members)@) == members_map(old(members)@).insert(name@, content@),
{
    let ghost v = members@;
    let ghost n = name@;
    let ghost c = content@;
    proof {
        lemma_sorted_members_distinct(v);
        lemma_members_map_distinct(v);
    }
    let i = position_of_member(members, name.as_str());
    let replace = i < members.len() && str_eq(members[i].0.as_str(), name.as_str());
    proof {
        if i < v.len() && !replace {
            lemma_text_lt_total(v[i as int].0@, n);
        }
    }
    if replace {
        members.set(i, (name, content));
    } else {
        members.insert(i, (name, content));
    }
    let ghost w = members@;
    assert(w[i as int].0@ == n && w[i as int].1@ == c);
    assert forall|a: int, b: int| 0 <= a < b < w.len() implies text_lt((#[trigger] w[a]).0@, (#[trigger] w[b]).0@) by {
        if replace {
            if a == i {
                assert(w[b] == v[b]);
            } else if b == i {
                assert(w[a] == v[a]);
            } else {
                assert(w[a] == v[a] && w[b] == v[b]);
            }
        } else if a < i && b == i {
            assert(w[a] == v[a]);
        } else if a < i && b > i {
            assert(w[a] == v[a] && w[b] == v[b - 1]);
        } else if a == i && b > i {
            assert(w[b] == v[b - 1]);
            if b - 1 > i {
                assert(text_lt(v[i as int].0@, v[b - 1].0@));
                lemma_text_lt_transitive(n, v[i as int].0@, v[b - 1].0@);
            }
        } else if a > i {
            assert(w[a] == v[a - 1] && w[b] == v[b - 1]);
        } else {
            assert(w[a] == v[a] && w[b] == v[b]);
        }
    }
    proof {
        lemma_sorted_members_distinct(w);
        lemma_members_map_distinct(w);
    }
    let ghost m = members_map(v).insert(n, c);
    assert forall|k: Seq<char>| members_map(w).contains_key(k) == m.contains_key(k) by {
        if members_map(w).contains_key(k) {
            let j = choose|j: int| 0 <= j < w.len() && (#[trigger] w[j]).0@ == k;
            if j != i {
                let jv = if replace || j < i { j } else { j - 1 };
                assert(w[j] == v[jv]);
            }
        }
        if members_map(v).contains_key(k) {
            let j = choose|j: int| 0 <= j < v.len() && (#[trigger] v[j]).0@ == k;
            let jw = if replace || j < i { j } else { j + 1 };
            assert(w[jw] == v[j] || (replace && j == i));
            if replace && j == i {
                assert(w[i as int].0@ == k);
            }
        }
    }
    assert forall|k: Seq<char>| #[trigger] members_map(w).contains_key(k) implies members_map(w)[k] == m[k] by {
        let j = choose|j: int| 0 <= j < w.len() && (#[trigger] w[j]).0@ == k;
        if j != i {
            let jv = if replace || j < i { j } else { j - 1 };
            assert(w[j] == v[jv]);
        }
    }
    assert(members_map(w) =~= m);
}

} // verus!
