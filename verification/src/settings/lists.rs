//! The comma-delimited list format of libtorrent's list-valued string
//! settings (`listen_interfaces`, `dht_bootstrap_nodes`, ...): writing a
//! list of entries, and splitting a stored list back into its entries.

use vstd::prelude::*;

use crate::addr_text::split;
use crate::text::{first_index_of, lemma_first_index_of, string_from_range, to_chars};

verus! {

/// `parts` joined with `sep` between consecutive parts (`[..].join(",")`).
pub open spec fn join(parts: Seq<Seq<char>>, sep: char) -> Seq<char>
    decreases parts.len(),
{
    if parts.len() == 0 {
        Seq::empty()
    } else if parts.len() == 1 {
        parts[0]
    } else {
        join(parts.drop_last(), sep) + seq![sep] + parts.last()
    }
}

/// The non-empty fields of `fields`, in order.
pub open spec fn nonempty(fields: Seq<Seq<char>>) -> Seq<Seq<char>>
    decreases fields.len(),
{
    if fields.len() == 0 {
        Seq::empty()
    } else if fields.last().len() > 0 {
        nonempty(fields.drop_last()).push(fields.last())
    } else {
        nonempty(fields.drop_last())
    }
}

/// The entries of a stored list: its comma-separated fields, skipping
/// empty ones (`s.split(',').filter(|e| !e.is_empty())`).
pub open spec fn list_entries(s: Seq<char>) -> Seq<Seq<char>> {
    nonempty(split(s, ','))
}

/// The index of the last `c` in `s`, or -1 (`rsplit_once`'s split point).
pub open spec fn last_index_of(s: Seq<char>, c: char) -> int
    decreases s.len(),
{
    if s.len() == 0 {
        -1
    } else if s.last() == c {
        s.len() - 1
    } else {
        last_index_of(s.drop_last(), c)
    }
}

/// Facts about [`last_index_of`].
pub proof fn lemma_last_index_of(s: Seq<char>, c: char)
    ensures
        -1 <= last_index_of(s, c) < s.len(),
        last_index_of(s, c) >= 0 ==> s[last_index_of(s, c)] == c,
        forall|j: int| last_index_of(s, c) < j < s.len() ==> s[j] != c,
    decreases s.len(),
{
    if s.len() > 0 && s.last() != c {
        lemma_last_index_of(s.drop_last(), c);
        assert forall|j: int| last_index_of(s, c) < j < s.len() implies s[j] != c by {
            if j < s.len() - 1 {
                assert(s[j] == s.drop_last()[j]);
            }
        }
    }
}

/// The index of the last `c` among `v[0..end]`, if any.
pub fn find_last(v: &[char], end: usize, c: char) -> (r: Option<usize>)
    requires
        end <= v@.len(),
    ensures
        r matches Some(i) ==> i as int == last_index_of(v@.take(end as int), c),
        r is None ==> last_index_of(v@.take(end as int), c) == -1,
{
    let mut i: usize = end;
    while i > 0
        invariant
            i <= end <= v@.len(),
            last_index_of(v@.take(end as int), c) == last_index_of(v@.take(i as int), c),
        decreases i,
    {
        proof {
            assert(v@.take(i as int).drop_last() =~= v@.take(i as int - 1));
        }
        if v[i - 1] == c {
            return Some(i - 1);
        }
        i -= 1;
    }
    None
}

/// The fields of `s.split(',')` starting at `from`, collected as strings,
/// with the empty ones skipped.
pub fn list_entries_of(s: &str) -> (r: Vec<String>)
    ensures
        r@.len() == list_entries(s@).len(),
        forall|i: int| 0 <= i < r@.len() ==> (#[trigger] r@[i])@ == list_entries(s@)[i],
{
    let v = to_chars(s);
    let n = v.len();
    let mut out: Vec<String> = Vec::new();
    let mut pos: usize = 0;
    let ghost mut done: Seq<Seq<char>> = Seq::empty();
    proof {
        assert(s@.skip(0) =~= s@);
        assert(done + split(s@.skip(0), ',') =~= split(s@, ','));
    }
    loop
        invariant
            v@ == s@,
            n == v@.len(),
            pos <= n,
            split(s@, ',') == done + split(s@.skip(pos as int), ','),
            out@.len() == nonempty(done).len(),
            forall|i: int| 0 <= i < out@.len() ==> (#[trigger] out@[i])@ == nonempty(done)[i],
        decreases n - pos,
    {
        let ghost rest = s@.skip(pos as int);
        let mut j: usize = pos;
        while j < n && v[j] != ','
            invariant
                v@ == s@,
                n == v@.len(),
                pos <= j <= n,
                forall|k: int| pos <= k < j ==> v@[k] != ',',
            decreases n - j,
        {
            j += 1;
        }
        let field = string_from_range(v.as_slice(), pos, j);
        proof {
            lemma_first_index_of(rest, ',');
            assert(field@ =~= rest.take(j - pos));
            if j < n {
                assert(rest[j - pos] == ',');
                assert forall|k: int| 0 <= k < j - pos implies rest[k] != ',' by {
                    assert(rest[k] == v@[pos + k]);
                }
                assert(first_index_of(rest, ',') == j - pos) by {
                    lemma_first_index_of(rest, ',');
                    let f = first_index_of(rest, ',');
                    if f < j - pos {
                        assert(rest[f] != ',');
                    }
                }
                assert(split(rest, ',') == seq![rest.take(j - pos)] + split(rest.skip(j - pos + 1), ','));
                assert(rest.skip(j - pos + 1) =~= s@.skip(j + 1));
            } else {
                assert forall|k: int| 0 <= k < rest.len() implies rest[k] != ',' by {
                    assert(rest[k] == v@[pos + k]);
                }
                assert(first_index_of(rest, ',') < 0 || first_index_of(rest, ',') >= rest.len()) by {
                    lemma_first_index_of(rest, ',');
                }
                assert(rest.take(j - pos) =~= rest);
            }
        }
        let ghost before = done;
        proof {
            done = done.push(field@);
            assert(done.drop_last() =~= before);
        }
        if j > pos {
            out.push(field);
        }
        proof {
            if j < n {
                assert(split(s@, ',') =~= done + split(s@.skip(j + 1), ','));
            }
        }
        if j == n {
            proof {
                assert(split(s@, ',') =~= done);
            }
            return out;
        }
        pos = j + 1;
    }
}

/// The last `c` of `a + [c] + b`, when `b` holds none, ends `a`.
pub proof fn lemma_last_index_before(a: Seq<char>, c: char, b: Seq<char>)
    requires
        !b.contains(c),
    ensures
        last_index_of(a + seq![c] + b, c) == a.len(),
    decreases b.len(),
{
    let s = a + seq![c] + b;
    if b.len() == 0 {
        assert(s.last() == c);
    } else {
        assert(b.last() != c) by {
            assert(b[b.len() - 1] == b.last());
        }
        assert(s.drop_last() =~= a + seq![c] + b.drop_last());
        assert(!b.drop_last().contains(c)) by {
            if b.drop_last().contains(c) {
                let k = choose|k: int| 0 <= k < b.drop_last().len() && b.drop_last()[k] == c;
                assert(b[k] == c);
            }
        }
        lemma_last_index_before(a, c, b.drop_last());
    }
}

/// A join of two or more parts starts with the first part and a separator.
proof fn lemma_join_front(parts: Seq<Seq<char>>, sep: char)
    requires
        parts.len() >= 2,
    ensures
        join(parts, sep) == parts[0] + seq![sep] + join(parts.drop_first(), sep),
    decreases parts.len(),
{
    if parts.len() == 2 {
        assert(parts.drop_last() =~= seq![parts[0]]);
        assert(parts.drop_first() =~= seq![parts[1]]);
        assert(join(parts.drop_last(), sep) == parts[0]);
        assert(join(parts.drop_first(), sep) == parts[1]);
        assert(join(parts, sep) == join(parts.drop_last(), sep) + seq![sep] + parts.last());
    } else {
        lemma_join_front(parts.drop_last(), sep);
        assert(parts.drop_last().drop_first() =~= parts.drop_first().drop_last());
        assert(parts.drop_first().last() == parts.last());
        assert(parts.drop_last()[0] == parts[0]);
        let rest = parts.drop_first();
        assert(rest.len() >= 2);
        assert(join(rest, sep) == join(rest.drop_last(), sep) + seq![sep] + rest.last());
        assert(join(parts, sep) == join(parts.drop_last(), sep) + seq![sep] + parts.last());
        assert(join(parts, sep) =~= parts[0] + seq![sep] + join(parts.drop_first(), sep));
    }
}

/// The first `c` of `a + [c] + b`, when `a` holds none, ends `a`.
proof fn lemma_first_index_after(a: Seq<char>, c: char, b: Seq<char>)
    requires
        !a.contains(c),
    ensures
        first_index_of(a + seq![c] + b, c) == a.len(),
    decreases a.len(),
{
    let s = a + seq![c] + b;
    if a.len() > 0 {
        assert(a[0] != c) by {
            if a[0] == c {
                assert(a.contains(c));
            }
        }
        assert(s.drop_first() =~= a.drop_first() + seq![c] + b);
        assert(!a.drop_first().contains(c)) by {
            if a.drop_first().contains(c) {
                let k = choose|k: int| 0 <= k < a.drop_first().len() && a.drop_first()[k] == c;
                assert(a[k + 1] == c);
            }
        }
        lemma_first_index_after(a.drop_first(), c, b);
    }
}

/// Splitting parts that hold no separator, joined with it, gives the
/// parts back.
pub proof fn lemma_split_join(parts: Seq<Seq<char>>, sep: char)
    requires
        parts.len() >= 1,
        forall|i: int| 0 <= i < parts.len() ==> !(#[trigger] parts[i]).contains(sep),
    ensures
        split(join(parts, sep), sep) == parts,
    decreases parts.len(),
{
    if parts.len() == 1 {
        lemma_first_index_of(parts[0], sep);
        assert(split(join(parts, sep), sep) =~= parts);
    } else {
        lemma_join_front(parts, sep);
        let rest = parts.drop_first();
        assert forall|i: int| 0 <= i < rest.len() implies !(#[trigger] rest[i]).contains(sep) by {
            assert(rest[i] == parts[i + 1]);
        }
        lemma_split_join(rest, sep);
        let s = join(parts, sep);
        let a = parts[0];
        lemma_first_index_after(a, sep, join(rest, sep));
        assert(s.take(a.len() as int) =~= a);
        assert(s.skip(a.len() as int + 1) =~= join(rest, sep));
        assert(split(s, sep) =~= parts);
    }
}

/// Keeping the non-empty fields of non-empty fields keeps them all.
pub proof fn lemma_nonempty_all(fields: Seq<Seq<char>>)
    requires
        forall|i: int| 0 <= i < fields.len() ==> (#[trigger] fields[i]).len() > 0,
    ensures
        nonempty(fields) == fields,
    decreases fields.len(),
{
    if fields.len() > 0 {
        lemma_nonempty_all(fields.drop_last());
        assert(fields.drop_last().push(fields.last()) =~= fields);
    }
}

/// A list written from non-empty entries free of commas reads back as
/// those entries.
pub proof fn lemma_list_round_trip(parts: Seq<Seq<char>>)
    requires
        forall|i: int|
            0 <= i < parts.len() ==> (#[trigger] parts[i]).len() > 0 && !parts[i].contains(','),
    ensures
        list_entries(join(parts, ',')) == parts,
{
    if parts.len() == 0 {
        lemma_first_index_of(Seq::<char>::empty(), ',');
        assert(split(Seq::<char>::empty(), ',') =~= seq![Seq::<char>::empty()]);
        let one = seq![Seq::<char>::empty()];
        assert(one.drop_last() =~= Seq::<Seq<char>>::empty());
        assert(one.last().len() == 0);
        assert(nonempty(one) == nonempty(one.drop_last()));
        assert(nonempty(Seq::<Seq<char>>::empty()) == Seq::<Seq<char>>::empty());
        assert(nonempty(one) =~= Seq::<Seq<char>>::empty());
        assert(parts =~= Seq::<Seq<char>>::empty());
    } else {
        lemma_split_join(parts, ',');
        lemma_nonempty_all(parts);
    }
}

} // verus!
