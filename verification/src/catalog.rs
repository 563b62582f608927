//! Which directory entries count as tunes, and how a directory listing is
//! narrowed down to them.

use vstd::prelude::*;

verus! {

/// A file name names a tune exactly when its extension — the part after the
/// last dot, with the dot not the leading character — is the literal `mp3`,
/// case-sensitively. Equivalently: the name ends in `.mp3` and has at least
/// one character before that suffix.
pub open spec fn is_tune(name: Seq<char>) -> bool {
    &&& name.len() >= 5
    &&& name[name.len() - 4] == '.'
    &&& name[name.len() - 3] == 'm'
    &&& name[name.len() - 2] == 'p'
    &&& name[name.len() - 1] == '3'
}

/// Decides `is_tune` for a concrete file name.
pub fn is_tune_name(name: &str) -> (r: bool)
    ensures
        r == is_tune(name@),
{
    let n = name.unicode_len();
    if n < 5 {
        return false;
    }
    name.get_char(n - 4) == '.' && name.get_char(n - 3) == 'm' && name.get_char(n - 2) == 'p'
        && name.get_char(n - 1) == '3'
}

/// The character sequences behind a sequence of strings.
pub open spec fn views_of(names: Seq<String>) -> Seq<Seq<char>> {
    names.map_values(|s: String| s@)
}

/// The subsequence of a listing's names that are tunes, in listing order.
pub open spec fn tunes_of(names: Seq<Seq<char>>) -> Seq<Seq<char>>
    decreases names.len(),
{
    if names.len() == 0 {
        Seq::empty()
    } else if is_tune(names.last()) {
        tunes_of(names.drop_last()).push(names.last())
    } else {
        tunes_of(names.drop_last())
    }
}

/// Narrows a directory listing down to its tunes: exactly the entries whose
/// name satisfies `is_tune`, kept in listing order.
pub fn collect_tunes(entries: &Vec<String>) -> (songs: Vec<String>)
    ensures
        views_of(songs@) == tunes_of(views_of(entries@)),
{
    let mut songs: Vec<String> = Vec::new();
    let mut i: usize = 0;
    while i < entries.len()
        invariant
            i <= entries.len(),
            views_of(songs@) == tunes_of(views_of(entries@.take(i as int))),
        decreases entries.len() - i,
    {
        let ghost prev = views_of(entries@.take(i as int));
        let ghost prev_songs = views_of(songs@);
        if is_tune_name(entries[i].as_str()) {
            let name = entries[i].clone();
            songs.push(name);
        }
        proof {
            let cur = views_of(entries@.take(i + 1 as int));
            assert(cur.drop_last() =~= prev);
            assert(cur.last() == entries@[i as int]@);
            if is_tune(entries@[i as int]@) {
                assert(views_of(songs@) =~= prev_songs.push(entries@[i as int]@));
            }
        }
        i = i + 1;
    }
    proof {
        assert(entries@.take(entries.len() as int) =~= entries@);
    }
    songs
}

/// The tunes of a listing are exactly the listing's entries that satisfy
/// `is_tune`: nothing is invented, nothing with the right extension is
/// dropped, and nothing with a wrong extension slips in.
pub proof fn lemma_tunes_of_membership(names: Seq<Seq<char>>)
    ensures
        forall|n: Seq<char>|
            #[trigger] tunes_of(names).contains(n) <==> names.contains(n) && is_tune(n),
    decreases names.len(),
{
    if names.len() == 0 {
        assert(forall|n: Seq<char>| !names.contains(n));
    } else {
        let p = names.drop_last();
        let l = names.last();
        lemma_tunes_of_membership(p);
        assert forall|n: Seq<char>| names.contains(n) implies p.contains(n) || n == l by {
            let i = choose|i: int| 0 <= i < names.len() && names[i] == n;
            if i < names.len() - 1 {
                assert(p[i] == n);
            }
        }
        assert forall|n: Seq<char>| p.contains(n) implies names.contains(n) by {
            let i = choose|i: int| 0 <= i < p.len() && p[i] == n;
            assert(names[i] == n);
        }
        assert(names[names.len() - 1] == l);
        assert(names.contains(l));
        if is_tune(l) {
            let t = tunes_of(p).push(l);
            assert(tunes_of(names) == t);
            assert forall|n: Seq<char>| t.contains(n) implies tunes_of(p).contains(n) || n == l by {
                let i = choose|i: int| 0 <= i < t.len() && t[i] == n;
                if i < t.len() - 1 {
                    assert(tunes_of(p)[i] == n);
                }
            }
            assert forall|n: Seq<char>| tunes_of(p).contains(n) implies t.contains(n) by {
                let i = choose|i: int| 0 <= i < tunes_of(p).len() && tunes_of(p)[i] == n;
                assert(t[i] == n);
            }
            assert(t[t.len() - 1] == l);
            assert(t.contains(l));
        }
    }
}

/// A listing without duplicate names yields a tune list without duplicates:
/// the result is a set however the directory happens to be ordered.
pub proof fn lemma_tunes_of_no_duplicates(names: Seq<Seq<char>>)
    requires
        names.no_duplicates(),
    ensures
        tunes_of(names).no_duplicates(),
    decreases names.len(),
{
    if names.len() > 0 {
        let p = names.drop_last();
        let l = names.last();
        assert forall|i: int, j: int|
            0 <= i < p.len() && 0 <= j < p.len() && i != j implies p[i] != p[j] by {
            assert(names[i] == p[i]);
            assert(names[j] == p[j]);
        }
        lemma_tunes_of_no_duplicates(p);
        if is_tune(l) {
            let t = tunes_of(p).push(l);
            assert(!p.contains(l)) by {
                if p.contains(l) {
                    let i = choose|i: int| 0 <= i < p.len() && p[i] == l;
                    assert(names[i] == names[names.len() - 1]);
                }
            }
            lemma_tunes_of_membership(p);
            assert(!tunes_of(p).contains(l));
            assert forall|i: int, j: int|
                0 <= i < t.len() && 0 <= j < t.len() && i != j implies t[i] != t[j] by {
                if i < t.len() - 1 && j < t.len() - 1 {
                    assert(t[i] == tunes_of(p)[i]);
                    assert(t[j] == tunes_of(p)[j]);
                } else if i == t.len() - 1 {
                    assert(tunes_of(p)[j] == t[j]);
                    if t[j] == l {
                        assert(tunes_of(p).contains(l));
                    }
                } else {
                    assert(tunes_of(p)[i] == t[i]);
                    if t[i] == l {
                        assert(tunes_of(p).contains(l));
                    }
                }
            }
        }
    }
}

/// Two listings that hold the same names — in whatever order, as a
/// filesystem walk may return them — yield tune lists that hold the same
/// names.
pub proof fn lemma_tunes_of_any_order(a: Seq<Seq<char>>, b: Seq<Seq<char>>)
    requires
        forall|n: Seq<char>| a.contains(n) <==> #[trigger] b.contains(n),
    ensures
        forall|n: Seq<char>| tunes_of(a).contains(n) <==> #[trigger] tunes_of(b).contains(n),
{
    lemma_tunes_of_membership(a);
    lemma_tunes_of_membership(b);
}

} // verus!
