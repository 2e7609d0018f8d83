//! The textual forms of IP addresses that `str::parse::<Ipv6Addr>`
//! accepts, as a grammar over characters, with a verified recognizer.

use vstd::prelude::*;

use crate::text::{all_digits, digits_value, first_index_of, is_digit, lemma_first_index_of};

verus! {

/// Splits `s` at every occurrence of `sep` (`str::split`): always at least
/// one field, empty fields included.
pub open spec fn split(s: Seq<char>, sep: char) -> Seq<Seq<char>>
    decreases s.len(),
{
    let i = first_index_of(s, sep);
    if i < 0 || i >= s.len() {
        seq![s]
    } else {
        seq![s.take(i)] + split(s.skip(i + 1), sep)
    }
}

pub open spec fn is_hex(c: char) -> bool {
    ||| ('0' <= c && c <= '9')
    ||| ('a' <= c && c <= 'f')
    ||| ('A' <= c && c <= 'F')
}

/// One 16-bit group of an IPv6 address: one to four hex digits.
pub open spec fn hex_group(g: Seq<char>) -> bool {
    1 <= g.len() <= 4 && forall|i: int| 0 <= i < g.len() ==> is_hex(#[trigger] g[i])
}

/// One octet of a dotted IPv4 address: one to three decimal digits, at most
/// 255, and no leading zero unless it is the only digit.
pub open spec fn dec_octet(g: Seq<char>) -> bool {
    &&& 1 <= g.len() <= 3
    &&& all_digits(g)
    &&& digits_value(g) <= 255
    &&& (g.len() == 1 || g[0] != '0')
}

/// A dotted-quad IPv4 address.
pub open spec fn ipv4_text(s: Seq<char>) -> bool {
    let f = split(s, '.');
    f.len() == 4 && forall|k: int| 0 <= k < 4 ==> dec_octet(#[trigger] f[k])
}

/// Colon-separated IPv6 groups, the last of which may be an embedded IPv4
/// address.
pub open spec fn units_ok(f: Seq<Seq<char>>) -> bool {
    &&& forall|k: int| 0 <= k < f.len() - 1 ==> hex_group(#[trigger] f[k])
    &&& (f.len() == 0 || hex_group(f.last()) || ipv4_text(f.last()))
}

/// How many 16-bit groups the fields stand for (an embedded IPv4 address
/// counts as two).
pub open spec fn unit_count(f: Seq<Seq<char>>) -> int {
    if f.len() > 0 && ipv4_text(f.last()) {
        f.len() + 1int
    } else {
        f.len() as int
    }
}

/// The fields of one side of a `::`; an empty side has none.
pub open spec fn side_fields(p: Seq<char>) -> Seq<Seq<char>> {
    if p.len() == 0 {
        Seq::empty()
    } else {
        split(p, ':')
    }
}

/// The index of the first `::` in `s`, or -1.
pub open spec fn double_colon_index(s: Seq<char>) -> int
    decreases s.len(),
{
    if s.len() < 2 {
        -1
    } else if s[0] == ':' && s[1] == ':' {
        0
    } else {
        let r = double_colon_index(s.drop_first());
        if r < 0 {
            -1
        } else {
            r + 1
        }
    }
}

/// An IPv6 address written out in full: eight groups.
pub open spec fn ipv6_full(s: Seq<char>) -> bool {
    let f = split(s, ':');
    units_ok(f) && unit_count(f) == 8
}

/// An IPv6 address with one `::` standing for at least one zero group: hex
/// groups before it, groups (perhaps ending in an IPv4 address) after it.
pub open spec fn ipv6_compressed(s: Seq<char>) -> bool {
    let i = double_colon_index(s);
    &&& 0 <= i
    &&& {
        let h = side_fields(s.take(i));
        let t = side_fields(s.skip(i + 2));
        &&& forall|k: int| 0 <= k < h.len() ==> hex_group(#[trigger] h[k])
        &&& units_ok(t)
        &&& h.len() + unit_count(t) <= 7
    }
}

/// The texts that `str::parse::<Ipv6Addr>` accepts.
pub open spec fn ipv6_text(s: Seq<char>) -> bool {
    ipv6_full(s) || ipv6_compressed(s)
}

// ---- lemmas ----------------------------------------------------------------------------------

proof fn lemma_split_step(s: Seq<char>, sep: char, i: int)
    requires
        0 <= i < s.len(),
        s[i] == sep,
        forall|j: int| 0 <= j < i ==> s[j] != sep,
    ensures
        split(s, sep) == seq![s.take(i)] + split(s.skip(i + 1), sep),
{
    lemma_first_index_of(s, sep);
    let k = first_index_of(s, sep);
    if k < i {
        assert(s[k] == sep);
    } else if k > i {
        assert(s[i] != sep);
    }
}

proof fn lemma_split_last(s: Seq<char>, sep: char)
    requires
        forall|j: int| 0 <= j < s.len() ==> s[j] != sep,
    ensures
        split(s, sep) == seq![s],
{
    lemma_first_index_of(s, sep);
    if first_index_of(s, sep) >= 0 {
        assert(s[first_index_of(s, sep)] == sep);
    }
}

proof fn lemma_double_colon_index(s: Seq<char>)
    ensures
        -1 <= double_colon_index(s) < s.len() - 1 || double_colon_index(s) == -1,
        double_colon_index(s) >= 0 ==> s[double_colon_index(s)] == ':' && s[double_colon_index(s)
            + 1] == ':',
        forall|j: int|
            #![trigger s[j]]
            0 <= j < (if double_colon_index(s) >= 0 {
                double_colon_index(s)
            } else {
                s.len() - 1
            }) ==> !(s[j] == ':' && s[j + 1] == ':'),
    decreases s.len(),
{
    if s.len() >= 2 && !(s[0] == ':' && s[1] == ':') {
        let t = s.drop_first();
        lemma_double_colon_index(t);
        assert forall|j: int|
            #![trigger s[j]]
            0 <= j < (if double_colon_index(s) >= 0 {
                double_colon_index(s)
            } else {
                s.len() - 1
            }) implies !(s[j] == ':' && s[j + 1] == ':') by {
            if j > 0 {
                assert(s[j] == t[j - 1]);
                assert(s[j + 1] == t[j]);
            }
        }
    }
}

// ---- recognizers -----------------------------------------------------------------------------

fn char_is_hex(c: char) -> (r: bool)
    ensures
        r == is_hex(c),
{
    ('0' <= c && c <= '9') || ('a' <= c && c <= 'f') || ('A' <= c && c <= 'F')
}

fn is_hex_group(v: &[char], a: usize, b: usize) -> (r: bool)
    requires
        a <= b <= v@.len(),
    ensures
        r == hex_group(v@.subrange(a as int, b as int)),
{
    let ghost g = v@.subrange(a as int, b as int);
    if b - a < 1 || b - a > 4 {
        return false;
    }
    let mut i = a;
    while i < b
        invariant
            a <= i <= b <= v@.len(),
            g == v@.subrange(a as int, b as int),
            forall|j: int| 0 <= j < i - a ==> is_hex(#[trigger] g[j]),
        decreases b - i,
    {
        if !char_is_hex(v[i]) {
            assert(g[i - a] == v@[i as int]);
            return false;
        }
        assert(g[i - a] == v@[i as int]);
        i += 1;
    }
    true
}

fn is_dec_octet(v: &[char], a: usize, b: usize) -> (r: bool)
    requires
        a <= b <= v@.len(),
    ensures
        r == dec_octet(v@.subrange(a as int, b as int)),
{
    let ghost g = v@.subrange(a as int, b as int);
    if b - a < 1 || b - a > 3 {
        return false;
    }
    if b - a > 1 && v[a] == '0' {
        assert(g[0] == v@[a as int]);
        return false;
    }
    let mut acc: u32 = 0;
    let mut i = a;
    while i < b
        invariant
            a <= i <= b <= v@.len(),
            b - a <= 3,
            g == v@.subrange(a as int, b as int),
            all_digits(g.take(i - a)),
            acc as nat == digits_value(g.take(i - a)),
            acc < 1000,
        decreases b - i,
    {
        let c = v[i];
        assert(g[i - a] == c);
        if !('0' <= c && c <= '9') {
            return false;
        }
        proof {
            let p = g.take(i - a + 1);
            assert(p.drop_last() =~= g.take(i - a));
            assert(p.last() == c);
            assert forall|j: int| 0 <= j < p.len() implies is_digit(#[trigger] p[j]) by {
                if j < p.len() - 1 {
                    assert(p[j] == g.take(i - a)[j]);
                }
            }
            if i - a == 0 {
                assert(digits_value(g.take(0)) == 0) by {
                    assert(g.take(0) =~= Seq::<char>::empty());
                }
            }
        }
        assert(acc < 100) by {
            if i - a > 0 {
                lemma_digits_below(g.take(i - a));
            } else {
                assert(digits_value(g.take(0)) == 0) by {
                    assert(g.take(0) =~= Seq::<char>::empty());
                }
            }
        }
        acc = acc * 10 + ((c as u32) - ('0' as u32));
        i += 1;
    }
    assert(g.take(b - a) =~= g);
    acc <= 255
}

proof fn lemma_digits_below(s: Seq<char>)
    requires
        s.len() <= 2,
        all_digits(s),
    ensures
        digits_value(s) < (if s.len() == 0 {
            1int
        } else if s.len() == 1 {
            10
        } else {
            100
        }),
    decreases s.len(),
{
    if s.len() > 0 {
        assert(all_digits(s.drop_last())) by {
            assert forall|j: int| 0 <= j < s.drop_last().len() implies is_digit(
                #[trigger] s.drop_last()[j],
            ) by {
                assert(s.drop_last()[j] == s[j]);
            }
        }
        lemma_digits_below(s.drop_last());
        assert(is_digit(s[s.len() - 1]));
        if s.len() == 1 {
            assert(s.drop_last() =~= Seq::<char>::empty());
        } else {
            assert(s.drop_last().drop_last() =~= Seq::<char>::empty());
            assert(is_digit(s.drop_last()[0]));
        }
    }
}

/// Whether `v[a..b]` is a dotted-quad IPv4 address.
fn is_ipv4(v: &[char], a: usize, b: usize) -> (r: bool)
    requires
        a <= b <= v@.len(),
    ensures
        r == ipv4_text(v@.subrange(a as int, b as int)),
{
    let ghost s = v@.subrange(a as int, b as int);
    let mut p = a;
    let mut count: usize = 0;
    let mut ok = true;
    let ghost mut done: Seq<Seq<char>> = Seq::empty();
    loop
        invariant
            a <= p <= b <= v@.len(),
            s == v@.subrange(a as int, b as int),
            split(s, '.') == done + split(v@.subrange(p as int, b as int), '.'),
            count == done.len(),
            count <= 3,
            ok == (forall|k: int| 0 <= k < done.len() ==> dec_octet(#[trigger] done[k])),
        decreases b - p,
    {
        let mut q = p;
        while q < b && v[q] != '.'
            invariant
                p <= q <= b <= v@.len(),
                forall|j: int| p <= j < q ==> v@[j] != '.',
            decreases b - q,
        {
            q += 1;
        }
        let field_ok = is_dec_octet(v, p, q);
        let ghost prev_done = done;
        let ghost rest = v@.subrange(p as int, b as int);
        if q == b {
            proof {
                assert forall|j: int| 0 <= j < rest.len() implies rest[j] != '.' by {
                    assert(rest[j] == v@[p + j]);
                }
                lemma_split_last(rest, '.');
                assert(rest =~= v@.subrange(p as int, q as int));
            }
            let total = count + 1;
            proof {
                let f = split(s, '.');
                assert(f =~= done.push(v@.subrange(p as int, q as int)));
                if total == 4 {
                    if ok && field_ok {
                        assert forall|k: int| 0 <= k < 4 implies dec_octet(#[trigger] f[k]) by {
                            if k < done.len() {
                                assert(f[k] == done[k]);
                            }
                        }
                    } else if !ok {
                        let k = choose|k: int| 0 <= k < done.len() && !dec_octet(#[trigger] done[k]);
                        assert(f[k] == done[k]);
                    } else {
                        assert(f[3] == v@.subrange(p as int, q as int));
                    }
                }
            }
            return total == 4 && ok && field_ok;
        }
        proof {
            assert(rest[q - p] == '.');
            assert forall|j: int| 0 <= j < q - p implies rest[j] != '.' by {
                assert(rest[j] == v@[p + j]);
            }
            lemma_split_step(rest, '.', q - p);
            assert(rest.take(q - p) =~= v@.subrange(p as int, q as int));
            assert(rest.skip(q - p + 1) =~= v@.subrange(q + 1, b as int));
            done = done.push(v@.subrange(p as int, q as int));
            assert(split(s, '.') =~= done + split(v@.subrange(q + 1, b as int), '.'));
        }
        if count == 3 {
            proof {
                lemma_split_len(v@.subrange(q + 1, b as int), '.');
            }
            return false;
        }
        let ghost old_done = done.drop_last();
        proof {
            assert(old_done =~= prev_done);
            assert(ok == (forall|k: int| 0 <= k < old_done.len() ==> dec_octet(#[trigger] old_done[k])));
        }
        let new_ok = ok && field_ok;
        proof {
            if new_ok {
                assert forall|k: int| 0 <= k < done.len() implies dec_octet(#[trigger] done[k]) by {
                    if k < old_done.len() {
                        assert(done[k] == old_done[k]);
                    }
                }
            } else if !ok {
                let k = choose|k: int| 0 <= k < old_done.len() && !dec_octet(#[trigger] old_done[k]);
                assert(done[k] == old_done[k]);
            } else {
                assert(!dec_octet(done[done.len() - 1]));
            }
        }
        ok = new_ok;
        count += 1;
        p = q + 1;
    }
}

proof fn lemma_split_len(s: Seq<char>, sep: char)
    ensures
        split(s, sep).len() >= 1,
    decreases s.len(),
{
    lemma_first_index_of(s, sep);
    let i = first_index_of(s, sep);
    if 0 <= i < s.len() {
        lemma_split_len(s.skip(i + 1), sep);
    }
}


proof fn lemma_split_take(s: Seq<char>, sep: char, p: int, q: int, b: int, v: Seq<char>)
    requires
        0 <= p <= q < b <= v.len(),
        s == v.subrange(p, b),
        v[q] == sep,
        forall|j: int| p <= j < q ==> v[j] != sep,
    ensures
        split(s, sep) == seq![v.subrange(p, q)] + split(v.subrange(q + 1, b), sep),
{
    assert(s[q - p] == sep);
    assert forall|j: int| 0 <= j < q - p implies s[j] != sep by {
        assert(s[j] == v[p + j]);
    }
    lemma_split_step(s, sep, q - p);
    assert(s.take(q - p) =~= v.subrange(p, q));
    assert(s.skip(q - p + 1) =~= v.subrange(q + 1, b));
}

proof fn lemma_split_end(s: Seq<char>, sep: char, p: int, b: int, v: Seq<char>)
    requires
        0 <= p <= b <= v.len(),
        s == v.subrange(p, b),
        forall|j: int| p <= j < b ==> v[j] != sep,
    ensures
        split(s, sep) == seq![s],
{
    assert forall|j: int| 0 <= j < s.len() implies s[j] != sep by {
        assert(s[j] == v[p + j]);
    }
    lemma_split_last(s, sep);
}

/// For `v[a..b]` split at `:`: the group count when the fields are IPv6
/// units standing for at most eight groups.
fn units_count(v: &[char], a: usize, b: usize) -> (r: Option<usize>)
    requires
        a <= b <= v@.len(),
    ensures
        ({
            let f = split(v@.subrange(a as int, b as int), ':');
            r == (if units_ok(f) && unit_count(f) <= 8 {
                Some(unit_count(f) as usize)
            } else {
                None
            })
        }),
{
    let ghost s = v@.subrange(a as int, b as int);
    let mut p = a;
    let mut count: usize = 0;
    let ghost mut done: Seq<Seq<char>> = Seq::empty();
    loop
        invariant
            a <= p <= b <= v@.len(),
            s == v@.subrange(a as int, b as int),
            split(s, ':') == done + split(v@.subrange(p as int, b as int), ':'),
            count == done.len(),
            count <= 8,
            forall|k: int| 0 <= k < done.len() ==> hex_group(#[trigger] done[k]),
        decreases b - p,
    {
        let mut q = p;
        while q < b && v[q] != ':'
            invariant
                p <= q <= b <= v@.len(),
                forall|j: int| p <= j < q ==> v@[j] != ':',
            decreases b - q,
        {
            q += 1;
        }
        let ghost rest = v@.subrange(p as int, b as int);
        if q == b {
            proof {
                lemma_split_end(rest, ':', p as int, b as int, v@);
            }
            let ghost f = split(s, ':');
            proof {
                assert(f =~= done.push(rest));
                assert(f.last() == rest);
                assert forall|k: int| 0 <= k < f.len() - 1 implies hex_group(#[trigger] f[k]) by {
                    assert(f[k] == done[k]);
                }
            }
            if is_hex_group(v, p, b) {
                proof {
                    lemma_hex_not_ipv4(rest);
                }
                if count < 8 {
                    return Some(count + 1);
                } else {
                    return None;
                }
            } else if is_ipv4(v, p, b) {
                if count + 2 <= 8 {
                    return Some(count + 2);
                } else {
                    return None;
                }
            } else {
                return None;
            }
        }
        proof {
            lemma_split_take(rest, ':', p as int, q as int, b as int, v@);
            lemma_split_len(v@.subrange(q + 1, b as int), ':');
        }
        let ghost f = split(s, ':');
        let ghost field = v@.subrange(p as int, q as int);
        proof {
            assert(f =~= done.push(field) + split(v@.subrange(q + 1, b as int), ':'));
            assert(f[done.len() as int] == field);
            assert(f.len() >= done.len() + 2);
        }
        if !is_hex_group(v, p, q) {
            return None;
        }
        if count == 8 {
            proof {
                if f.len() > 0 && ipv4_text(f.last()) {
                    assert(unit_count(f) >= 10);
                }
            }
            return None;
        }
        proof {
            let nd = done.push(field);
            assert forall|k: int| 0 <= k < nd.len() implies hex_group(#[trigger] nd[k]) by {
                if k < done.len() {
                    assert(nd[k] == done[k]);
                }
            }
            assert(f =~= nd + split(v@.subrange(q + 1, b as int), ':'));
            done = nd;
        }
        count += 1;
        p = q + 1;
    }
}

/// For `v[a..b]` split at `:`: the field count when every field is a hex
/// group and there are at most eight of them.
fn hex_fields_count(v: &[char], a: usize, b: usize) -> (r: Option<usize>)
    requires
        a <= b <= v@.len(),
    ensures
        ({
            let f = split(v@.subrange(a as int, b as int), ':');
            r == (if (forall|k: int| 0 <= k < f.len() ==> hex_group(#[trigger] f[k])) && f.len()
                <= 8 {
                Some(f.len() as usize)
            } else {
                None
            })
        }),
{
    let ghost s = v@.subrange(a as int, b as int);
    let mut p = a;
    let mut count: usize = 0;
    let ghost mut done: Seq<Seq<char>> = Seq::empty();
    loop
        invariant
            a <= p <= b <= v@.len(),
            s == v@.subrange(a as int, b as int),
            split(s, ':') == done + split(v@.subrange(p as int, b as int), ':'),
            count == done.len(),
            count <= 8,
            forall|k: int| 0 <= k < done.len() ==> hex_group(#[trigger] done[k]),
        decreases b - p,
    {
        let mut q = p;
        while q < b && v[q] != ':'
            invariant
                p <= q <= b <= v@.len(),
                forall|j: int| p <= j < q ==> v@[j] != ':',
            decreases b - q,
        {
            q += 1;
        }
        let ghost rest = v@.subrange(p as int, b as int);
        if q == b {
            proof {
                lemma_split_end(rest, ':', p as int, b as int, v@);
            }
            let ghost f = split(s, ':');
            proof {
                assert(f =~= done.push(rest));
                assert(f.last() == rest);
            }
            if is_hex_group(v, p, b) && count < 8 {
                proof {
                    assert forall|k: int| 0 <= k < f.len() implies hex_group(#[trigger] f[k]) by {
                        if k < done.len() {
                            assert(f[k] == done[k]);
                        }
                    }
                }
                return Some(count + 1);
            } else {
                return None;
            }
        }
        proof {
            lemma_split_take(rest, ':', p as int, q as int, b as int, v@);
            lemma_split_len(v@.subrange(q + 1, b as int), ':');
        }
        let ghost f = split(s, ':');
        let ghost field = v@.subrange(p as int, q as int);
        proof {
            assert(f =~= done.push(field) + split(v@.subrange(q + 1, b as int), ':'));
            assert(f[done.len() as int] == field);
        }
        if !is_hex_group(v, p, q) || count == 8 {
            return None;
        }
        proof {
            let nd = done.push(field);
            assert forall|k: int| 0 <= k < nd.len() implies hex_group(#[trigger] nd[k]) by {
                if k < done.len() {
                    assert(nd[k] == done[k]);
                }
            }
            assert(f =~= nd + split(v@.subrange(q + 1, b as int), ':'));
            done = nd;
        }
        count += 1;
        p = q + 1;
    }
}


proof fn lemma_hex_not_ipv4(g: Seq<char>)
    requires
        hex_group(g),
    ensures
        !ipv4_text(g),
{
    assert forall|j: int| 0 <= j < g.len() implies g[j] != '.' by {
        assert(is_hex(g[j]));
    }
    lemma_split_last(g, '.');
}


proof fn lemma_double_colon_at(s: Seq<char>, j: int)
    requires
        0 <= j < s.len() - 1,
        s[j] == ':' && s[j + 1] == ':',
        forall|k: int| #![trigger s[k]] 0 <= k < j ==> !(s[k] == ':' && s[k + 1] == ':'),
    ensures
        double_colon_index(s) == j,
    decreases s.len(),
{
    if j > 0 {
        let t = s.drop_first();
        assert(!(s[0] == ':' && s[1] == ':'));
        assert forall|k: int| #![trigger t[k]] 0 <= k < j - 1 implies !(t[k] == ':' && t[k + 1] == ':') by {
            assert(t[k] == s[k + 1]);
            assert(t[k + 1] == s[k + 2]);
        }
        lemma_double_colon_at(t, j - 1);
    }
}

proof fn lemma_double_colon_none(s: Seq<char>)
    requires
        forall|k: int| #![trigger s[k]] 0 <= k < s.len() - 1 ==> !(s[k] == ':' && s[k + 1] == ':'),
    ensures
        double_colon_index(s) == -1,
    decreases s.len(),
{
    if s.len() >= 2 {
        let t = s.drop_first();
        assert(!(s[0] == ':' && s[1] == ':'));
        assert forall|k: int| #![trigger t[k]] 0 <= k < t.len() - 1 implies !(t[k] == ':' && t[k + 1] == ':') by {
            assert(t[k] == s[k + 1]);
            assert(t[k + 1] == s[k + 2]);
        }
        lemma_double_colon_none(t);
    }
}

/// The first `::` in `v[a..b]`, relative to `a`.
fn find_double_colon(v: &[char], a: usize, b: usize) -> (r: Option<usize>)
    requires
        a <= b <= v@.len(),
    ensures
        match r {
            Some(i) => i == double_colon_index(v@.subrange(a as int, b as int)) && i + 2 <= b - a,
            None => double_colon_index(v@.subrange(a as int, b as int)) == -1,
        },
{
    let ghost s = v@.subrange(a as int, b as int);
    let mut i = a;
    while b - i >= 2
        invariant
            a <= i <= b <= v@.len(),
            s == v@.subrange(a as int, b as int),
            forall|k: int| #![trigger s[k]] 0 <= k < i - a ==> !(s[k] == ':' && s[k + 1] == ':'),
        decreases b - i,
    {
        if v[i] == ':' && v[i + 1] == ':' {
            proof {
                assert(s[i - a] == v@[i as int]);
                assert(s[i - a + 1] == v@[i + 1]);
                lemma_double_colon_at(s, i - a);
            }
            return Some(i - a);
        }
        proof {
            assert(s[i - a] == v@[i as int]);
            assert(s[i - a + 1] == v@[i + 1]);
        }
        i += 1;
    }
    proof {
        lemma_double_colon_none(s);
    }
    None
}

/// Whether `v[a..b]` is an IPv6 address text (`str::parse::<Ipv6Addr>`).
pub fn is_ipv6(v: &[char], a: usize, b: usize) -> (r: bool)
    requires
        a <= b <= v@.len(),
    ensures
        r == ipv6_text(v@.subrange(a as int, b as int)),
{
    let ghost s = v@.subrange(a as int, b as int);
    if units_count(v, a, b) == Some(8usize) {
        return true;
    }
    match find_double_colon(v, a, b) {
        None => false,
        Some(i) => {
            let hs = a + i;
            let ts = a + i + 2;
            let ghost head = s.take(i as int);
            let ghost tail = s.skip(i + 2);
            proof {
                lemma_double_colon_index(s);
                assert(head =~= v@.subrange(a as int, hs as int));
                assert(tail =~= v@.subrange(ts as int, b as int));
            }
            let h = if hs == a {
                Some(0usize)
            } else {
                hex_fields_count(v, a, hs)
            };
            let t = if ts == b {
                Some(0usize)
            } else {
                units_count(v, ts, b)
            };
            proof {
                let hf = side_fields(head);
                let tf = side_fields(tail);
                if hs == a {
                    assert(hf =~= Seq::<Seq<char>>::empty());
                }
                if ts == b {
                    assert(tf =~= Seq::<Seq<char>>::empty());
                    assert(units_ok(tf));
                    assert(unit_count(tf) == 0);
                }
            }
            match (h, t) {
                (Some(hn), Some(tn)) => hn + tn <= 7,
                _ => false,
            }
        },
    }
}

/// An IPv6 literal with an optional `%scope` suffix: the part before the
/// first `%` must be an IPv6 address text.
pub open spec fn ipv6_literal(s: Seq<char>) -> bool {
    let i = first_index_of(s, '%');
    if i < 0 {
        ipv6_text(s)
    } else {
        ipv6_text(s.take(i))
    }
}

pub fn is_ipv6_literal(v: &[char], a: usize, b: usize) -> (r: bool)
    requires
        a <= b <= v@.len(),
    ensures
        r == ipv6_literal(v@.subrange(a as int, b as int)),
{
    let ghost s = v@.subrange(a as int, b as int);
    let mut i = a;
    while i < b && v[i] != '%'
        invariant
            a <= i <= b <= v@.len(),
            forall|j: int| a <= j < i ==> v@[j] != '%',
        decreases b - i,
    {
        i += 1;
    }
    proof {
        lemma_first_index_of(s, '%');
        let k = first_index_of(s, '%');
        if i < b {
            assert(s[i - a] == '%');
            if k < i - a {
                assert(s[k] == v@[a + k]);
            }
            if k >= 0 && k > i - a {
                assert(s[i - a] != '%');
            }
            assert(k == i - a);
            assert(s.take(k) =~= v@.subrange(a as int, i as int));
        } else {
            if k >= 0 {
                assert(s[k] == v@[a + k]);
            }
            assert(v@.subrange(a as int, i as int) =~= s);
        }
    }
    is_ipv6(v, a, i)
}

} // verus!
