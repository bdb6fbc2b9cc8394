use vstd::prelude::*;
use vstd::string::*;
use crate::matcher::ResolveError;
use crate::pattern::{
    all_match_groups, captures_all, compile, compiles, group_one, groups_view, Pattern,
};

verus! {

/// Finds `identifier:(checksum` pairs, the checksum being 40 or more hex
/// digits; group 1 is the version identifier.
pub const VERSION_PATTERN: &'static str = r"([[:alnum:]\.-]+):\([[:xdigit:]]{40,}";

/// Lexicographic order on text, character by character, as `str` orders it.
pub open spec fn lex_lt(a: Seq<char>, b: Seq<char>) -> bool
    decreases a.len(),
{
    if a.len() == 0 {
        b.len() > 0
    } else if b.len() == 0 {
        false
    } else if a[0] != b[0] {
        (a[0] as int) < (b[0] as int)
    } else {
        lex_lt(a.drop_first(), b.drop_first())
    }
}

/// Every entry comes strictly before the entries after it.
pub open spec fn strictly_sorted(s: Seq<Seq<char>>) -> bool {
    forall|i: int, j: int| 0 <= i < j < s.len() ==> lex_lt(#[trigger] s[i], #[trigger] s[j])
}

pub open spec fn strings_view(v: Seq<String>) -> Seq<Seq<char>> {
    v.map_values(|s: String| s@)
}

/// The version identifiers that a sequence of matches yields.
pub open spec fn found_versions(matches: Seq<Seq<Option<Seq<char>>>>) -> Set<Seq<char>> {
    Set::new(|v: Seq<char>| exists|k: int| 0 <= k < matches.len() && group_one(#[trigger] matches[k]) == Some(v))
}

/// `items` with `sep` between each two of them.
pub open spec fn join_spec(items: Seq<Seq<char>>, sep: Seq<char>) -> Seq<char>
    decreases items.len(),
{
    if items.len() == 0 {
        Seq::empty()
    } else if items.len() == 1 {
        items[0]
    } else {
        join_spec(items.drop_last(), sep) + sep + items.last()
    }
}

pub proof fn lemma_lex_total(a: Seq<char>, b: Seq<char>)
    requires
        a != b,
    ensures
        lex_lt(a, b) || lex_lt(b, a),
    decreases a.len(),
{
    if a.len() > 0 && b.len() > 0 && a[0] == b[0] {
        assert(a.drop_first() != b.drop_first()) by {
            if a.drop_first() == b.drop_first() {
                assert(a =~= seq![a[0]] + a.drop_first());
                assert(b =~= seq![b[0]] + b.drop_first());
            }
        }
        lemma_lex_total(a.drop_first(), b.drop_first());
    } else if a.len() == 0 && b.len() == 0 {
        assert(a =~= b);
    } else if a.len() > 0 && b.len() > 0 {
        let (x, y) = (a[0], b[0]);
        assert(x as int != y as int);
    }
}

pub proof fn lemma_lex_transitive(a: Seq<char>, b: Seq<char>, c: Seq<char>)
    requires
        lex_lt(a, b),
        lex_lt(b, c),
    ensures
        lex_lt(a, c),
    decreases a.len(),
{
    if a.len() > 0 && b.len() > 0 && c.len() > 0 && a[0] == b[0] && b[0] == c[0] {
        lemma_lex_transitive(a.drop_first(), b.drop_first(), c.drop_first());
    }
}

/// Whether `a` comes strictly before `b`.
pub fn str_lt(a: &str, b: &str) -> (r: bool)
    ensures
        r == lex_lt(a@, b@),
{
    let la = a.unicode_len();
    let lb = b.unicode_len();
    let mut i: usize = 0;
    assert(a@.skip(0) =~= a@);
    assert(b@.skip(0) =~= b@);
    while i < la && i < lb
        invariant
            la == a@.len(),
            lb == b@.len(),
            i <= la,
            i <= lb,
            lex_lt(a@, b@) == lex_lt(a@.skip(i as int), b@.skip(i as int)),
        decreases la - i,
    {
        let ca = a.get_char(i);
        let cb = b.get_char(i);
        if ca != cb {
            assert(a@.skip(i as int)[0] == ca);
            assert(b@.skip(i as int)[0] == cb);
            return (ca as u32) < (cb as u32);
        }
        assert(a@.skip(i as int).drop_first() =~= a@.skip(i + 1));
        assert(b@.skip(i as int).drop_first() =~= b@.skip(i + 1));
        i = i + 1;
    }
    i < lb
}

/// Adds `v` to the strictly sorted `out`, keeping it strictly sorted; an entry
/// already there is not added again.
fn insert_sorted(out: &mut Vec<String>, v: String)
    requires
        strictly_sorted(strings_view(old(out)@)),
    ensures
        strictly_sorted(strings_view(final(out)@)),
        strings_view(final(out)@).to_set() == strings_view(old(out)@).to_set().insert(v@),
{
    let ghost before = strings_view(out@);
    let mut p: usize = 0;
    let mut scanning = true;
    while scanning && p < out.len()
        invariant
            p <= out@.len(),
            !scanning ==> p < out@.len() && !lex_lt(before[p as int], v@),
            out@ == old(out)@,
            before == strings_view(out@),
            forall|k: int| 0 <= k < p ==> lex_lt(#[trigger] before[k], v@),
        decreases out@.len() - p + if scanning { 1int } else { 0int },
    {
        if str_lt(out[p].as_str(), v.as_str()) {
            p = p + 1;
        } else {
            scanning = false;
        }
    }
    if p < out.len() && out[p] == v {
        assert(before[p as int] == v@);
        assert(before.to_set().insert(v@) =~= before.to_set());
        return;
    }
    proof {
        if p < before.len() {
            lemma_lex_total(before[p as int], v@);
        }
    }
    let ghost vv = v@;
    out.insert(p, v);
    let ghost after = strings_view(out@);
    assert(after =~= before.insert(p as int, vv));
    assert forall|i: int, j: int| 0 <= i < j < after.len() implies lex_lt(#[trigger] after[i], #[trigger] after[j]) by {
        if j == p {
            assert(after[i] == before[i]);
        } else if i == p {
            assert(lex_lt(vv, before[p as int]));
            if j > p + 1 {
                assert(after[j] == before[j - 1]);
                lemma_lex_transitive(vv, before[p as int], before[j - 1]);
            }
        } else if i > p {
            assert(after[i] == before[i - 1]);
            assert(after[j] == before[j - 1]);
        } else if j > p {
            assert(after[i] == before[i]);
            assert(after[j] == before[j - 1]);
        } else {
            assert(after[i] == before[i]);
            assert(after[j] == before[j]);
        }
    }
    assert(after.to_set() =~= before.to_set().insert(vv)) by {
        assert forall|x: Seq<char>| after.to_set().contains(x) implies before.to_set().insert(vv).contains(x) by {
            let i = choose|i: int| 0 <= i < after.len() && after[i] == x;
            if i > p {
                assert(after[i] == before[i - 1]);
            }
        }
        assert forall|x: Seq<char>| before.to_set().insert(vv).contains(x) implies after.to_set().contains(x) by {
            if x == vv {
                assert(after[p as int] == vv);
            } else {
                let i = choose|i: int| 0 <= i < before.len() && before[i] == x;
                if i >= p {
                    assert(after[i + 1] == x);
                } else {
                    assert(after[i] == x);
                }
            }
        }
    }
}

/// The distinct version identifiers (group 1) of `matches`, in ascending
/// order.
pub fn collect_versions(matches: &Vec<Vec<Option<String>>>) -> (r: Vec<String>)
    ensures
        strictly_sorted(strings_view(r@)),
        strings_view(r@).to_set() == found_versions(matches@.map_values(|g: Vec<Option<String>>| groups_view(g@))),
{
    let ghost ms = matches@.map_values(|g: Vec<Option<String>>| groups_view(g@));
    let mut out: Vec<String> = Vec::new();
    let mut k: usize = 0;
    assert(strings_view(out@).to_set() =~= found_versions(ms.take(0)));
    while k < matches.len()
        invariant
            k <= matches@.len(),
            ms == matches@.map_values(|g: Vec<Option<String>>| groups_view(g@)),
            strictly_sorted(strings_view(out@)),
            strings_view(out@).to_set() == found_versions(ms.take(k as int)),
        decreases matches@.len() - k,
    {
        let g = &matches[k];
        let ghost gv = groups_view(g@);
        assert(ms[k as int] == gv);
        let ghost prev = strings_view(out@).to_set();
        if g.len() >= 2 {
            match &g[1] {
                Some(v) => {
                    assert(gv[1] == Some(v@));
                    insert_sorted(&mut out, v.clone());
                    assert(found_versions(ms.take(k + 1)) =~= prev.insert(v@)) by {
                        assert(ms.take(k + 1)[k as int] == gv);
                        assert forall|x: Seq<char>| #[trigger] found_versions(ms.take(k + 1)).contains(x) implies prev.insert(v@).contains(x) by {
                            let j = choose|j: int| 0 <= j < k + 1 && group_one(#[trigger] ms.take(k + 1)[j]) == Some(x);
                            if j < k {
                                assert(ms.take(k as int)[j] == ms.take(k + 1)[j]);
                            }
                        }
                        assert forall|x: Seq<char>| prev.insert(v@).contains(x) implies #[trigger] found_versions(ms.take(k + 1)).contains(x) by {
                            if x != v@ {
                                let j = choose|j: int| 0 <= j < k && group_one(#[trigger] ms.take(k as int)[j]) == Some(x);
                                assert(ms.take(k + 1)[j] == ms.take(k as int)[j]);
                            }
                        }
                    }
                },
                None => {
                    assert(found_versions(ms.take(k + 1)) =~= prev) by {
                        assert forall|x: Seq<char>| #[trigger] found_versions(ms.take(k + 1)).contains(x) implies prev.contains(x) by {
                            let j = choose|j: int| 0 <= j < k + 1 && group_one(#[trigger] ms.take(k + 1)[j]) == Some(x);
                            assert(ms.take(k as int)[j] == ms.take(k + 1)[j]);
                        }
                        assert forall|x: Seq<char>| prev.contains(x) implies #[trigger] found_versions(ms.take(k + 1)).contains(x) by {
                            let j = choose|j: int| 0 <= j < k && group_one(#[trigger] ms.take(k as int)[j]) == Some(x);
                            assert(ms.take(k + 1)[j] == ms.take(k as int)[j]);
                        }
                    }
                },
            }
        } else {
            assert(found_versions(ms.take(k + 1)) =~= prev) by {
                assert forall|x: Seq<char>| #[trigger] found_versions(ms.take(k + 1)).contains(x) implies prev.contains(x) by {
                    let j = choose|j: int| 0 <= j < k + 1 && group_one(#[trigger] ms.take(k + 1)[j]) == Some(x);
                    assert(ms.take(k as int)[j] == ms.take(k + 1)[j]);
                }
                assert forall|x: Seq<char>| prev.contains(x) implies #[trigger] found_versions(ms.take(k + 1)).contains(x) by {
                    let j = choose|j: int| 0 <= j < k && group_one(#[trigger] ms.take(k as int)[j]) == Some(x);
                    assert(ms.take(k + 1)[j] == ms.take(k as int)[j]);
                }
            }
        }
        k = k + 1;
    }
    assert(ms.take(matches@.len() as int) =~= ms);
    out
}

/// The separator between versions in a listing.
pub const VERSION_SEPARATOR: &'static str = ", ";

/// The versions joined by `, `.
pub fn join_versions(versions: &Vec<String>) -> (r: String)
    ensures
        r@ == join_spec(strings_view(versions@), VERSION_SEPARATOR@),
{
    let ghost items = strings_view(versions@);
    let mut r = String::new();
    let mut i: usize = 0;
    assert(items.take(0) =~= Seq::<Seq<char>>::empty());
    while i < versions.len()
        invariant
            i <= versions@.len(),
            items == strings_view(versions@),
            r@ == join_spec(items.take(i as int), VERSION_SEPARATOR@),
        decreases versions@.len() - i,
    {
        assert(items.take(i + 1).drop_last() =~= items.take(i as int));
        if i > 0 {
            r.append(VERSION_SEPARATOR);
        } else {
            assert(r@ =~= Seq::<char>::empty());
        }
        r.append(versions[i].as_str());
        proof {
            assert(items.take(i + 1).last() == items[i as int]);
            assert(r@ =~= join_spec(items.take(i + 1), VERSION_SEPARATOR@));
        }
        i = i + 1;
    }
    assert(items.take(versions@.len() as int) =~= items);
    r
}

/// The versions that a listing page advertises: every identifier that the
/// version pattern captures, once each, in ascending order.
pub fn list_page_versions(page: &str) -> (r: Result<Vec<String>, ResolveError>)
    ensures
        r is Err <==> !compiles(VERSION_PATTERN@),
        r is Err ==> r == Err::<Vec<String>, ResolveError>(ResolveError::InvalidPattern),
        r is Ok ==> strictly_sorted(strings_view(r->Ok_0@)) && strings_view(r->Ok_0@).to_set()
            == found_versions(all_match_groups(VERSION_PATTERN@, page@)),
{
    let p: Pattern = match compile(String::from_str(VERSION_PATTERN)) {
        Ok(p) => p,
        Err(_) => {
            return Err(ResolveError::InvalidPattern);
        },
    };
    let matches = captures_all(&p, page);
    let r = collect_versions(&matches);
    assert(matches@.map_values(|g: Vec<Option<String>>| groups_view(g@)) =~= all_match_groups(VERSION_PATTERN@, page@));
    Ok(r)
}

/// The line that lists the versions of a page: the identifiers of
/// `list_page_versions`, joined by `, `.
pub fn render_page_versions(page: &str) -> (r: Result<String, ResolveError>)
    ensures
        r is Err <==> !compiles(VERSION_PATTERN@),
        r is Err ==> r == Err::<String, ResolveError>(ResolveError::InvalidPattern),
        r is Ok ==> exists|vs: Seq<Seq<char>>| strictly_sorted(vs) && vs.to_set()
            == found_versions(all_match_groups(VERSION_PATTERN@, page@))
            && r->Ok_0@ == join_spec(vs, VERSION_SEPARATOR@),
{
    match list_page_versions(page) {
        Ok(vs) => {
            let r = join_versions(&vs);
            assert(strictly_sorted(strings_view(vs@)));
            Ok(r)
        },
        Err(e) => Err(e),
    }
}

} // verus!
