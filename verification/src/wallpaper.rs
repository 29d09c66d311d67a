//! The picture behind the shelf: one PNG out of `Wallpapers`, chosen by the boot's seed.
//!
//! Reading the directory is the caller's; what is decided here is which of the names it
//! found is a PNG, in what order they stand, and which one a seed lands on.

use vstd::prelude::*;
use vstd::relations::sorted_by;
use vstd::seq_lib::lemma_multiset_commutative;

verus! {

/// `c` is the ASCII letter `lower` in either case.
pub open spec fn ascii_either(c: char, lower: char, upper: char) -> bool {
    c == lower || c == upper
}

/// The name's extension is `png` in any ASCII case. As `Path::extension` reads it: the part
/// after the last dot, and only where something stands before that dot, so `.png` alone is
/// a hidden file with no extension.
pub open spec fn is_png(name: Seq<char>) -> bool {
    let n = name.len();
    &&& n >= 5
    &&& name[n - 4] == '.'
    &&& ascii_either(name[n - 3], 'p', 'P')
    &&& ascii_either(name[n - 2], 'n', 'N')
    &&& ascii_either(name[n - 1], 'g', 'G')
}

/// Names compared from position `i` on, character by character by code point, a name
/// that runs out first coming first. This is the order of their UTF-8 bytes, which is the
/// order of the paths they name inside one directory.
pub open spec fn le_from(a: Seq<char>, b: Seq<char>, i: int) -> bool
    decreases a.len() - i,
{
    if i < 0 || i >= a.len() {
        true
    } else if i >= b.len() {
        false
    } else if a[i] != b[i] {
        a[i] < b[i]
    } else {
        le_from(a, b, i + 1)
    }
}

/// `a` sorts at or before `b`.
pub open spec fn name_le(a: Seq<char>, b: Seq<char>) -> bool {
    le_from(a, b, 0)
}

/// The names as their characters.
pub open spec fn views(names: Seq<String>) -> Seq<Seq<char>> {
    names.map_values(|s: String| s@)
}

/// `is_png` as a test to filter by.
pub open spec fn png_test() -> spec_fn(Seq<char>) -> bool {
    |n: Seq<char>| is_png(n)
}

/// `name_le` as an order to sort by.
pub open spec fn by_name() -> spec_fn(Seq<char>, Seq<char>) -> bool {
    |a: Seq<char>, b: Seq<char>| name_le(a, b)
}

/// The PNG names among `names`, in the order they came.
pub open spec fn png_names(names: Seq<Seq<char>>) -> Seq<Seq<char>> {
    names.filter(png_test())
}

/// `s` holds exactly the PNG names of `names`, each as often as it occurs there, in order.
pub open spec fn sorted_pngs(s: Seq<Seq<char>>, names: Seq<Seq<char>>) -> bool {
    &&& sorted_by(s, by_name())
    &&& s.to_multiset() == png_names(names).to_multiset()
}

proof fn lemma_le_from_transitive(a: Seq<char>, b: Seq<char>, c: Seq<char>, i: int)
    requires
        0 <= i,
        le_from(a, b, i),
        le_from(b, c, i),
    ensures
        le_from(a, c, i),
    decreases a.len() - i,
{
    if i < a.len() && i < b.len() && i < c.len() && a[i] == b[i] && b[i] == c[i] {
        lemma_le_from_transitive(a, b, c, i + 1);
    }
}

proof fn lemma_le_from_total(a: Seq<char>, b: Seq<char>, i: int)
    requires
        0 <= i,
    ensures
        le_from(a, b, i) || le_from(b, a, i),
    decreases a.len() - i,
{
    if i < a.len() && i < b.len() && a[i] == b[i] {
        lemma_le_from_total(a, b, i + 1);
    }
}

proof fn lemma_le_from_reflexive(a: Seq<char>, i: int)
    requires
        0 <= i,
    ensures
        le_from(a, a, i),
    decreases a.len() - i,
{
    if i < a.len() {
        lemma_le_from_reflexive(a, i + 1);
    }
}

proof fn lemma_le_from_antisymmetric(a: Seq<char>, b: Seq<char>, i: int)
    requires
        0 <= i <= a.len(),
        i <= b.len(),
        le_from(a, b, i),
        le_from(b, a, i),
    ensures
        a.len() == b.len(),
        forall|j: int| i <= j < a.len() ==> a[j] == b[j],
    decreases a.len() - i,
{
    if i < a.len() && i < b.len() {
        lemma_le_from_antisymmetric(a, b, i + 1);
    }
}

/// How often `x` occurs among the names `s` keeps by `test`.
proof fn lemma_filter_count(s: Seq<Seq<char>>, test: spec_fn(Seq<char>) -> bool, x: Seq<char>)
    ensures
        s.filter(test).to_multiset().count(x) == if test(x) {
            s.to_multiset().count(x)
        } else {
            0
        },
    decreases s.len(),
{
    broadcast use vstd::multiset::group_multiset_axioms;

    if s.len() == 0 {
        s.lemma_filter_len(test);
        assert(s.filter(test) =~= Seq::empty());
        s.to_multiset_ensures();
        s.filter(test).to_multiset_ensures();
    } else {
        let rest = s.drop_last();
        lemma_filter_count(rest, test, x);
        assert(s =~= rest.push(s.last()));
        rest.lemma_filter_push(s.last(), test);
        rest.to_multiset_ensures();
        rest.filter(test).to_multiset_ensures();
    }
}

/// Two arrangements of the same names, each sorted, are one arrangement.
proof fn lemma_sorted_unique(s1: Seq<Seq<char>>, s2: Seq<Seq<char>>)
    requires
        sorted_by(s1, by_name()),
        sorted_by(s2, by_name()),
        s1.to_multiset() == s2.to_multiset(),
    ensures
        s1 == s2,
    decreases s1.len(),
{
    s1.to_multiset_ensures();
    s2.to_multiset_ensures();
    if s1.len() == 0 {
        assert(s1 =~= s2);
    } else {
        let (a, b) = (s1[0], s2[0]);
        assert(s2.contains(b));
        assert(s2.to_multiset().count(b) > 0);
        assert(s1.contains(b));
        let j = choose|j: int| 0 <= j < s1.len() && s1[j] == b;
        assert(s1.contains(a));
        assert(s1.to_multiset().count(a) > 0);
        assert(s2.contains(a));
        let k = choose|k: int| 0 <= k < s2.len() && s2[k] == a;
        if j == 0 {
            lemma_le_from_reflexive(a, 0);
        } else {
            assert(by_name()(s1[0], s1[j]));
        }
        if k == 0 {
            lemma_le_from_reflexive(b, 0);
        } else {
            assert(by_name()(s2[0], s2[k]));
        }
        lemma_le_from_antisymmetric(a, b, 0);
        assert(a =~= b);
        let (t1, t2) = (s1.drop_first(), s2.drop_first());
        assert(s1.remove(0) =~= t1);
        assert(s2.remove(0) =~= t2);
        assert forall|x: int, y: int| 0 <= x < y < t1.len() implies #[trigger] by_name()(
            t1[x],
            t1[y],
        ) by {
            assert(by_name()(s1[x + 1], s1[y + 1]));
        }
        assert forall|x: int, y: int| 0 <= x < y < t2.len() implies #[trigger] by_name()(
            t2[x],
            t2[y],
        ) by {
            assert(by_name()(s2[x + 1], s2[y + 1]));
        }
        lemma_sorted_unique(t1, t2);
        assert(s1 =~= s2) by {
            assert forall|x: int| 0 <= x < s1.len() implies s1[x] == s2[x] by {
                if x > 0 {
                    assert(s1[x] == t1[x - 1]);
                    assert(s2[x] == t2[x - 1]);
                }
            }
        }
    }
}

/// The same names in whatever order the directory hands them back, and the same seed,
/// give the same picture: any two arrangements that `pick` can speak of for them are one
/// and the same, and there is a PNG among the one exactly when there is among the other.
pub proof fn law_the_same_card_shows_the_same_picture(
    a: Seq<Seq<char>>,
    b: Seq<Seq<char>>,
    s1: Seq<Seq<char>>,
    s2: Seq<Seq<char>>,
)
    requires
        a.to_multiset() == b.to_multiset(),
        sorted_pngs(s1, a),
        sorted_pngs(s2, b),
    ensures
        s1 == s2,
        png_names(a).len() == png_names(b).len(),
{
    assert(png_names(a).to_multiset() =~= png_names(b).to_multiset()) by {
        assert forall|x: Seq<char>|
            png_names(a).to_multiset().count(x) == png_names(b).to_multiset().count(x) by {
            lemma_filter_count(a, png_test(), x);
            lemma_filter_count(b, png_test(), x);
        }
    }
    lemma_sorted_unique(s1, s2);
    png_names(a).to_multiset_ensures();
    png_names(b).to_multiset_ensures();
}

/// Whether `a` sorts at or before `b`.
fn name_le_exec(a: &str, b: &str) -> (r: bool)
    ensures
        r == name_le(a@, b@),
{
    let na = a.unicode_len();
    let nb = b.unicode_len();
    let mut i: usize = 0;
    while i < na && i < nb
        invariant
            na == a@.len(),
            nb == b@.len(),
            i <= na,
            i <= nb,
            le_from(a@, b@, 0) == le_from(a@, b@, i as int),
        decreases na - i,
    {
        let ca = a.get_char(i);
        let cb = b.get_char(i);
        if ca != cb {
            return ca < cb;
        }
        i += 1;
    }
    i >= na
}

/// The name for a boot seeded with `seed`: the PNG names sorted, and the one `seed` lands on
/// counting round them. `None` when there is no PNG to show.
///
/// Sorted first, so the same seed on the same card is the same picture whatever order the
/// directory handed its entries back in. There is no settings screen to choose a picture on
/// and no reason to prefer one, so a seed taken from the wall clock shows a different one
/// each time the card is turned on.
pub fn pick(names: Vec<String>, seed: u64) -> (r: Option<String>)
    ensures
        r is None <==> png_names(views(names@)).len() == 0,
        r matches Some(name) ==> exists|s: Seq<Seq<char>>|
            #![trigger sorted_pngs(s, views(names@))]
            sorted_pngs(s, views(names@)) && s.len() > 0 && name@ == s[(seed % s.len() as u64) as int],
{
    let ghost all = views(names@);
    let ghost le = by_name();
    let mut files: Vec<String> = Vec::new();
    let mut i: usize = 0;
    proof {
        all.take(0).lemma_filter_len(png_test());
        assert(png_names(all.take(0)) =~= Seq::empty());
        assert(views(files@) =~= Seq::empty());
    }
    while i < names.len()
        invariant
            i <= names.len(),
            all == views(names@),
            le == by_name(),
            sorted_by(views(files@), le),
            views(files@).to_multiset() == png_names(all.take(i as int)).to_multiset(),
        decreases names.len() - i,
    {
        let ghost before = views(files@);
        proof {
            assert(all.take(i as int + 1) =~= all.take(i as int).push(all[i as int]));
            all.take(i as int).lemma_filter_push(all[i as int], png_test());
        }
        if is_png_exec(names[i].as_str()) {
            let name = names[i].clone();
            // Where `name` goes: after every name that sorts at or before it.
            let mut p: usize = 0;
            while p < files.len() && name_le_exec(files[p].as_str(), name.as_str())
                invariant
                    p <= files.len(),
                    views(files@) == before,
                    forall|j: int| 0 <= j < p ==> name_le(#[trigger] before[j], name@),
                decreases files.len() - p,
            {
                p += 1;
            }
            proof {
                if p < files.len() {
                    lemma_le_from_total(before[p as int], name@, 0);
                }
            }
            files.insert(p, name);
            proof {
                let after = views(files@);
                assert(after =~= before.insert(p as int, name@));
                assert forall|x: int, y: int| 0 <= x < y < after.len() implies #[trigger] le(
                    after[x],
                    after[y],
                ) by {
                    if y == p {
                        assert(after[x] == before[x]);
                    } else if x == p {
                        assert(after[y] == before[y - 1]);
                        if p < y - 1 {
                            assert(le(before[p as int], before[y - 1]));
                            lemma_le_from_transitive(name@, before[p as int], before[y - 1], 0);
                        }
                    } else {
                        let bx = if x < p { x } else { x - 1 };
                        let by = if y < p { y } else { y - 1 };
                        assert(after[x] == before[bx]);
                        assert(after[y] == before[by]);
                        assert(le(before[bx], before[by]));
                    }
                }
                let head = before.subrange(0, p as int);
                let tail = before.subrange(p as int, before.len() as int);
                assert(before =~= head + tail);
                assert(after =~= head.push(name@) + tail);
                lemma_multiset_commutative(head, tail);
                lemma_multiset_commutative(head.push(name@), tail);
                head.to_multiset_ensures();
                let found = png_names(all.take(i as int));
                found.to_multiset_ensures();
                assert(name@ == all[i as int]);
                assert(png_names(all.take(i as int + 1)) == found.push(name@));
                assert(after.to_multiset() =~= before.to_multiset().insert(name@)) by {
                    broadcast use vstd::multiset::group_multiset_axioms;
                }
            }
        }
        i += 1;
    }
    proof {
        assert(all.take(names.len() as int) =~= all);
    }
    if files.len() == 0 {
        proof {
            views(files@).to_multiset_ensures();
            png_names(all).to_multiset_ensures();
        }
        return None;
    }
    let k: usize = (seed % (files.len() as u64)) as usize;
    let chosen = files[k].clone();
    proof {
        views(files@).to_multiset_ensures();
        png_names(all).to_multiset_ensures();
        assert(sorted_pngs(views(files@), views(names@)));
    }
    Some(chosen)
}

/// Whether the name is a PNG, by `is_png`.
fn is_png_exec(name: &str) -> (r: bool)
    ensures
        r == is_png(name@),
{
    let n = name.unicode_len();
    if n < 5 {
        return false;
    }
    let dot = name.get_char(n - 4);
    let p = name.get_char(n - 3);
    let g_n = name.get_char(n - 2);
    let g = name.get_char(n - 1);
    dot == '.' && (p == 'p' || p == 'P') && (g_n == 'n' || g_n == 'N') && (g == 'g' || g == 'G')
}

} // verus!
