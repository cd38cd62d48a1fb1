//! Text helpers shared by the subjects: joining, decimal rendering and
//! splitting strings on a separator character.
use vstd::prelude::*;

verus! {

/// Concatenation of `parts` with `sep` between each two neighbours.
pub open spec fn seq_join(parts: Seq<Seq<char>>, sep: Seq<char>) -> Seq<char>
    decreases parts.len(),
{
    if parts.len() == 0 {
        Seq::empty()
    } else if parts.len() == 1 {
        parts[0]
    } else {
        seq_join(parts.drop_last(), sep) + sep + parts.last()
    }
}

/// Views of a vector of strings.
pub open spec fn views(v: Seq<String>) -> Seq<Seq<char>> {
    v.map_values(|s: String| s@)
}

/// Joins `parts` with `sep`, as `Itertools::join` does.
pub fn join(parts: &Vec<String>, sep: &str) -> (res: String)
    ensures
        res@ == seq_join(views(parts@), sep@),
{
    let mut res = String::new();
    let mut i: usize = 0;
    while i < parts.len()
        invariant
            i <= parts.len(),
            res@ == seq_join(views(parts@).take(i as int), sep@),
        decreases parts.len() - i,
    {
        if i > 0 {
            res.append(sep);
        }
        res.append(parts[i].as_str());
        assert(views(parts@).take(i + 1).drop_last() =~= views(parts@).take(i as int));
        i = i + 1;
    }
    assert(views(parts@).take(parts.len() as int) =~= views(parts@));
    res
}

} // verus!

verus! {

/// The pieces of `s` between occurrences of `c`, as `str::split` with a
/// single character pattern yields them (empty pieces included).
pub open spec fn split_on(s: Seq<char>, c: char) -> Seq<Seq<char>>
    decreases s.len(),
{
    if s.len() == 0 {
        seq![Seq::<char>::empty()]
    } else {
        let prev = split_on(s.drop_last(), c);
        if s.last() == c {
            prev.push(Seq::<char>::empty())
        } else {
            prev.update(prev.len() - 1, prev.last().push(s.last()))
        }
    }
}

/// Views of a vector of string slices.
pub open spec fn str_views(v: Seq<&str>) -> Seq<Seq<char>> {
    v.map_values(|s: &str| s@)
}

/// Splitting always yields at least one piece.
pub proof fn lemma_split_on_nonempty(s: Seq<char>, c: char)
    ensures
        split_on(s, c).len() >= 1,
    decreases s.len(),
{
    if s.len() > 0 {
        lemma_split_on_nonempty(s.drop_last(), c);
    }
}

/// A sequence without `c` splits into itself alone.
pub proof fn lemma_split_on_free(s: Seq<char>, c: char)
    requires
        !s.contains(c),
    ensures
        split_on(s, c) == seq![s],
    decreases s.len(),
{
    if s.len() > 0 {
        assert(!s.drop_last().contains(c)) by {
            if s.drop_last().contains(c) {
                let k = choose|k: int| 0 <= k < s.drop_last().len() && s.drop_last()[k] == c;
                assert(s[k] == c);
            }
        }
        lemma_split_on_free(s.drop_last(), c);
        assert(s.last() != c) by {
            assert(s[s.len() - 1] == s.last());
        }
        assert(s.drop_last().push(s.last()) =~= s);
        assert(seq![s.drop_last()].update(0, s) =~= seq![s]);
    } else {
        assert(s =~= Seq::<char>::empty());
    }
}

/// Splitting `a + [c] + b` where `a` holds no `c`: the first piece is `a` and
/// the rest is the split of `b`.
pub proof fn lemma_split_on_prefix(a: Seq<char>, b: Seq<char>, c: char)
    requires
        !a.contains(c),
    ensures
        split_on(a + seq![c] + b, c) == seq![a] + split_on(b, c),
    decreases b.len(),
{
    lemma_split_on_nonempty(b, c);
    if b.len() == 0 {
        lemma_split_on_free(a, c);
        assert((a + seq![c] + b).drop_last() =~= a);
        assert(seq![a].push(Seq::<char>::empty()) =~= seq![a] + seq![Seq::<char>::empty()]);
    } else {
        lemma_split_on_prefix(a, b.drop_last(), c);
        let whole = a + seq![c] + b;
        assert(whole.drop_last() =~= a + seq![c] + b.drop_last());
        assert(whole.last() == b.last());
        lemma_split_on_nonempty(b.drop_last(), c);
        let pb = split_on(b.drop_last(), c);
        if b.last() == c {
            assert((seq![a] + pb).push(Seq::<char>::empty()) =~= seq![a] + pb.push(Seq::<char>::empty()));
        } else {
            assert((seq![a] + pb).update((seq![a] + pb).len() - 1, pb.last().push(b.last()))
                =~= seq![a] + pb.update(pb.len() - 1, pb.last().push(b.last())));
        }
    }
}

/// Splits `s` on every occurrence of `c`.
pub fn split_char<'a>(s: &'a str, c: char) -> (res: Vec<&'a str>)
    ensures
        str_views(res@) == split_on(s@, c),
{
    let n = s.unicode_len();
    let mut pieces: Vec<&'a str> = Vec::new();
    let mut start: usize = 0;
    let mut i: usize = 0;
    assert(s@.take(0) =~= Seq::<char>::empty());
    assert(s@.subrange(0, 0) =~= Seq::<char>::empty());
    while i < n
        invariant
            n == s@.len(),
            start <= i <= n,
            str_views(pieces@) + seq![s@.subrange(start as int, i as int)] == split_on(s@.take(i as int), c),
        decreases n - i,
    {
        let ch = s.get_char(i);
        let ghost prev = split_on(s@.take(i as int), c);
        assert(s@.take(i + 1).drop_last() =~= s@.take(i as int));
        assert(s@.take(i + 1).last() == ch);
        if ch == c {
            let piece = s.substring_char(start, i);
            pieces.push(piece);
            start = i + 1;
            assert(str_views(pieces@) =~= str_views(pieces@.drop_last()).push(piece@));
            assert(s@.subrange(start as int, (i + 1) as int) =~= Seq::<char>::empty());
            assert(str_views(pieces@) + seq![s@.subrange(start as int, (i + 1) as int)]
                =~= prev.push(Seq::<char>::empty()));
        } else {
            assert(s@.subrange(start as int, (i + 1) as int) =~= s@.subrange(start as int, i as int).push(ch));
            assert(str_views(pieces@) + seq![s@.subrange(start as int, (i + 1) as int)]
                =~= prev.update(prev.len() - 1, prev.last().push(ch)));
        }
        i = i + 1;
    }
    let last = s.substring_char(start, n);
    pieces.push(last);
    assert(s@.take(n as int) =~= s@);
    assert(str_views(pieces@) =~= str_views(pieces@.drop_last()).push(last@));
    assert(str_views(pieces@) =~= str_views(pieces@.drop_last()) + seq![s@.subrange(start as int, n as int)]);
    pieces
}

/// Character-wise equality of two string slices.
pub fn str_equal(a: &str, b: &str) -> (res: bool)
    ensures
        res == (a@ == b@),
{
    let n = a.unicode_len();
    let m = b.unicode_len();
    if n != m {
        return false;
    }
    let mut i: usize = 0;
    while i < n
        invariant
            n == a@.len(),
            m == b@.len(),
            n == m,
            i <= n,
            forall|k: int| 0 <= k < i ==> a@[k] == b@[k],
        decreases n - i,
    {
        if a.get_char(i) != b.get_char(i) {
            return false;
        }
        i = i + 1;
    }
    assert(a@ =~= b@);
    true
}

} // verus!

verus! {

/// Splitting `a + [c] + b` where `b` holds no `c`: the split of `a` followed by `b`.
pub proof fn lemma_split_on_suffix(a: Seq<char>, b: Seq<char>, c: char)
    requires
        !b.contains(c),
    ensures
        split_on(a + seq![c] + b, c) == split_on(a, c).push(b),
    decreases b.len(),
{
    let whole = a + seq![c] + b;
    if b.len() == 0 {
        assert(whole.drop_last() =~= a);
        assert(b =~= Seq::<char>::empty());
    } else {
        assert(!b.drop_last().contains(c)) by {
            if b.drop_last().contains(c) {
                let k = choose|k: int| 0 <= k < b.drop_last().len() && b.drop_last()[k] == c;
                assert(b[k] == c);
            }
        }
        assert(b.last() != c) by {
            assert(b[b.len() - 1] == b.last());
        }
        lemma_split_on_suffix(a, b.drop_last(), c);
        assert(whole.drop_last() =~= a + seq![c] + b.drop_last());
        assert(whole.last() == b.last());
        let pa = split_on(a, c);
        assert(b.drop_last().push(b.last()) =~= b);
        assert(pa.push(b.drop_last()).update(pa.len() as int, b.drop_last().push(b.last())) =~= pa.push(b));
    }
}

/// Splitting a join on a separator character that none of the parts holds
/// gives back the parts.
pub proof fn lemma_split_on_join(parts: Seq<Seq<char>>, c: char)
    requires
        parts.len() >= 1,
        forall|i: int| 0 <= i < parts.len() ==> !(#[trigger] parts[i]).contains(c),
    ensures
        split_on(seq_join(parts, seq![c]), c) == parts,
    decreases parts.len(),
{
    if parts.len() == 1 {
        lemma_split_on_free(parts[0], c);
        assert(seq![parts[0]] =~= parts);
    } else {
        let init = parts.drop_last();
        assert forall|i: int| 0 <= i < init.len() implies !(#[trigger] init[i]).contains(c) by {
            assert(init[i] == parts[i]);
        }
        lemma_split_on_join(init, c);
        assert(!parts.last().contains(c)) by {
            assert(parts[parts.len() - 1] == parts.last());
        }
        lemma_split_on_suffix(seq_join(init, seq![c]), parts.last(), c);
        assert(init.push(parts.last()) =~= parts);
    }
}

} // verus!

verus! {

/// The decimal digit character for `d < 10`.
pub open spec fn digit_char(d: nat) -> char {
    if d == 0 { '0' } else if d == 1 { '1' } else if d == 2 { '2' } else if d == 3 { '3' } else if d == 4 { '4' }
    else if d == 5 { '5' } else if d == 6 { '6' } else if d == 7 { '7' } else if d == 8 { '8' } else { '9' }
}

/// Decimal notation of `n`, without leading zeros, as `to_string` renders integers.
pub open spec fn decimal(n: nat) -> Seq<char>
    decreases n,
{
    if n < 10 {
        seq![digit_char(n)]
    } else {
        decimal(n / 10).push(digit_char(n % 10))
    }
}

fn digit_str(d: u64) -> (s: &'static str)
    requires
        d < 10,
    ensures
        s@ == seq![digit_char(d as nat)],
{
    proof {
        reveal_strlit("0");
        reveal_strlit("1");
        reveal_strlit("2");
        reveal_strlit("3");
        reveal_strlit("4");
        reveal_strlit("5");
        reveal_strlit("6");
        reveal_strlit("7");
        reveal_strlit("8");
        reveal_strlit("9");
    }
    if d == 0 { "0" } else if d == 1 { "1" } else if d == 2 { "2" } else if d == 3 { "3" } else if d == 4 { "4" }
    else if d == 5 { "5" } else if d == 6 { "6" } else if d == 7 { "7" } else if d == 8 { "8" } else { "9" }
}

/// Renders `n` in decimal notation.
pub fn decimal_string(n: u64) -> (s: String)
    ensures
        s@ == decimal(n as nat),
    decreases n,
{
    if n < 10 {
        String::from_str(digit_str(n))
    } else {
        let mut s = decimal_string(n / 10);
        s.append(digit_str(n % 10));
        s
    }
}

/// Decimal notation of a signed number, with a minus sign when it is negative.
pub open spec fn signed_decimal(n: int) -> Seq<char> {
    if n < 0 {
        seq!['-'] + decimal((-n) as nat)
    } else {
        decimal(n as nat)
    }
}

/// Renders a signed number in decimal notation.
pub fn signed_decimal_string(n: i64) -> (s: String)
    ensures
        s@ == signed_decimal(n as int),
{
    if n < 0 {
        let magnitude: u64 = ((-(n + 1)) as u64) + 1;
        let mut s = String::from_str("-");
        proof {
            reveal_strlit("-");
        }
        let digits = decimal_string(magnitude);
        s.append(digits.as_str());
        s
    } else {
        decimal_string(n as u64)
    }
}

/// `"true"` or `"false"`, as `bool` is displayed.
pub open spec fn bool_text(b: bool) -> Seq<char> {
    if b { "true"@ } else { "false"@ }
}

/// Renders a boolean as it is displayed.
pub fn bool_string(b: bool) -> (s: String)
    ensures
        s@ == bool_text(b),
{
    if b { String::from_str("true") } else { String::from_str("false") }
}

} // verus!

verus! {

/// Lexicographic order on character sequences, by code point, as `str` is ordered.
pub open spec fn lex_le(a: Seq<char>, b: Seq<char>) -> bool
    decreases a.len(),
{
    if a.len() == 0 {
        true
    } else if b.len() == 0 {
        false
    } else if (a[0] as int) < (b[0] as int) {
        true
    } else if a[0] == b[0] {
        lex_le(a.drop_first(), b.drop_first())
    } else {
        false
    }
}

/// The order is total.
pub proof fn lemma_lex_total(a: Seq<char>, b: Seq<char>)
    ensures
        lex_le(a, b) || lex_le(b, a),
    decreases a.len(),
{
    if a.len() > 0 && b.len() > 0 {
        if a[0] == b[0] {
            lemma_lex_total(a.drop_first(), b.drop_first());
        } else {
            assert((a[0] as int) != (b[0] as int));
        }
    }
}

/// The order is transitive.
pub proof fn lemma_lex_transitive(a: Seq<char>, b: Seq<char>, c: Seq<char>)
    requires
        lex_le(a, b),
        lex_le(b, c),
    ensures
        lex_le(a, c),
    decreases a.len(),
{
    if a.len() > 0 && b.len() > 0 && c.len() > 0 && a[0] == b[0] && b[0] == c[0] {
        lemma_lex_transitive(a.drop_first(), b.drop_first(), c.drop_first());
    }
}

/// The order is antisymmetric.
pub proof fn lemma_lex_antisymmetric(a: Seq<char>, b: Seq<char>)
    requires
        lex_le(a, b),
        lex_le(b, a),
    ensures
        a == b,
    decreases a.len(),
{
    if a.len() > 0 && b.len() > 0 && a[0] == b[0] {
        lemma_lex_antisymmetric(a.drop_first(), b.drop_first());
        assert(a =~= seq![a[0]] + a.drop_first());
        assert(b =~= seq![b[0]] + b.drop_first());
    }
}

/// The order is reflexive.
pub proof fn lemma_lex_reflexive(a: Seq<char>)
    ensures
        lex_le(a, a),
    decreases a.len(),
{
    if a.len() > 0 {
        lemma_lex_reflexive(a.drop_first());
    }
}

/// Whether `a` comes before or equals `b` in lexicographic order.
pub fn str_less_eq(a: &str, b: &str) -> (res: bool)
    ensures
        res == lex_le(a@, b@),
{
    let n = a.unicode_len();
    let m = b.unicode_len();
    let mut i: usize = 0;
    assert(a@.skip(0) =~= a@);
    assert(b@.skip(0) =~= b@);
    while i < n && i < m
        invariant
            n == a@.len(),
            m == b@.len(),
            i <= n,
            i <= m,
            lex_le(a@, b@) == lex_le(a@.skip(i as int), b@.skip(i as int)),
        decreases n - i,
    {
        let x = a.get_char(i);
        let y = b.get_char(i);
        assert(a@.skip(i as int)[0] == x);
        assert(b@.skip(i as int)[0] == y);
        if x < y {
            return true;
        }
        if x != y {
            return false;
        }
        assert(a@.skip(i as int).drop_first() =~= a@.skip(i + 1));
        assert(b@.skip(i as int).drop_first() =~= b@.skip(i + 1));
        i = i + 1;
    }
    i == n
}

/// Whether the texts are in lexicographic order.
pub open spec fn lex_sorted(v: Seq<Seq<char>>) -> bool {
    forall|i: int, j: int| 0 <= i < j < v.len() ==> lex_le(#[trigger] v[i], #[trigger] v[j])
}

/// Inserts `s` after the strings that do not come after it.
fn insert_string_sorted(v: &mut Vec<String>, s: String)
    requires
        lex_sorted(views(old(v)@)),
    ensures
        lex_sorted(views(final(v)@)),
        views(final(v)@).to_multiset() == views(old(v)@).to_multiset().insert(s@),
{
    broadcast use vstd::seq_lib::group_to_multiset_ensures;
    let ghost before = views(v@);
    let ghost sv = s@;
    let mut p: usize = 0;
    while p < v.len()
        invariant
            p <= v.len(),
            before == views(v@),
            sv == s@,
            forall|i: int| 0 <= i < p ==> lex_le(#[trigger] before[i], sv),
        ensures
            p <= v.len(),
            before == views(v@),
            forall|i: int| 0 <= i < p ==> lex_le(#[trigger] before[i], sv),
            p < v.len() ==> !lex_le(before[p as int], sv),
        decreases v.len() - p,
    {
        assert(before[p as int] == v@[p as int]@);
        if !str_less_eq(v[p].as_str(), s.as_str()) {
            break;
        }
        p = p + 1;
    }
    v.insert(p, s);
    let ghost after = views(v@);
    assert(after =~= before.insert(p as int, sv));
    assert forall|a: int, b: int| 0 <= a < b < after.len() implies lex_le(#[trigger] after[a], #[trigger] after[b]) by {
        if a == p {
            assert(after[b] == before[b - 1]);
            lemma_lex_total(before[p as int], sv);
            if b - 1 > p {
                lemma_lex_transitive(sv, before[p as int], before[b - 1]);
            }
        } else if b == p {
            assert(after[a] == before[a]);
        } else {
            let oa = if a < p { a } else { a - 1 };
            let ob = if b < p { b } else { b - 1 };
            assert(after[a] == before[oa] && after[b] == before[ob]);
        }
    }
}

/// The strings in lexicographic order, as `sort` orders them.
pub fn sorted_strings(v: Vec<String>) -> (r: Vec<String>)
    ensures
        lex_sorted(views(r@)),
        views(r@).to_multiset() == views(v@).to_multiset(),
{
    broadcast use vstd::seq_lib::group_to_multiset_ensures;
    let mut rest = v;
    let mut r: Vec<String> = Vec::new();
    assert(views(r@) =~= Seq::<Seq<char>>::empty());
    while rest.len() > 0
        invariant
            lex_sorted(views(r@)),
            views(r@).to_multiset().add(views(rest@).to_multiset()) == views(v@).to_multiset(),
        decreases rest.len(),
    {
        let ghost before_rest = views(rest@);
        let s = rest.pop().unwrap();
        let ghost after_rest = views(rest@);
        assert(before_rest =~= after_rest.push(s@));
        proof {
            vstd::seq_lib::to_multiset_build(after_rest, s@);
        }
        insert_string_sorted(&mut r, s);
    }
    assert(views(rest@) =~= Seq::<Seq<char>>::empty());
    r
}

/// Views of a list of string pairs.
pub open spec fn pair_views(v: Seq<(String, String)>) -> Seq<(Seq<char>, Seq<char>)> {
    v.map_values(|p: (String, String)| (p.0@, p.1@))
}

/// Whether the pairs are ordered by their first text.
pub open spec fn key_sorted(v: Seq<(Seq<char>, Seq<char>)>) -> bool {
    forall|i: int, j: int| 0 <= i < j < v.len() ==> lex_le((#[trigger] v[i]).0, (#[trigger] v[j]).0)
}

/// Inserts `p` after the pairs whose key does not come after its own.
fn insert_pair_sorted(v: &mut Vec<(String, String)>, p: (String, String))
    requires
        key_sorted(pair_views(old(v)@)),
    ensures
        key_sorted(pair_views(final(v)@)),
        pair_views(final(v)@).to_multiset() == pair_views(old(v)@).to_multiset().insert((p.0@, p.1@)),
{
    broadcast use vstd::seq_lib::group_to_multiset_ensures;
    let ghost before = pair_views(v@);
    let ghost pv = (p.0@, p.1@);
    let mut k: usize = 0;
    while k < v.len()
        invariant
            k <= v.len(),
            before == pair_views(v@),
            pv == (p.0@, p.1@),
            forall|i: int| 0 <= i < k ==> lex_le((#[trigger] before[i]).0, pv.0),
        ensures
            k <= v.len(),
            before == pair_views(v@),
            forall|i: int| 0 <= i < k ==> lex_le((#[trigger] before[i]).0, pv.0),
            k < v.len() ==> !lex_le(before[k as int].0, pv.0),
        decreases v.len() - k,
    {
        assert(before[k as int] == (v@[k as int].0@, v@[k as int].1@));
        if !str_less_eq(v[k].0.as_str(), p.0.as_str()) {
            break;
        }
        k = k + 1;
    }
    v.insert(k, p);
    let ghost after = pair_views(v@);
    assert(after =~= before.insert(k as int, pv));
    assert forall|a: int, b: int| 0 <= a < b < after.len() implies lex_le((#[trigger] after[a]).0, (#[trigger] after[b]).0) by {
        if a == k {
            assert(after[b] == before[b - 1]);
            lemma_lex_total(before[k as int].0, pv.0);
            if b - 1 > k {
                lemma_lex_transitive(pv.0, before[k as int].0, before[b - 1].0);
            }
        } else if b == k {
            assert(after[a] == before[a]);
        } else {
            let oa = if a < k { a } else { a - 1 };
            let ob = if b < k { b } else { b - 1 };
            assert(after[a] == before[oa] && after[b] == before[ob]);
        }
    }
}

/// The pairs ordered by their first text.
pub fn sorted_by_key(v: Vec<(String, String)>) -> (r: Vec<(String, String)>)
    ensures
        key_sorted(pair_views(r@)),
        pair_views(r@).to_multiset() == pair_views(v@).to_multiset(),
{
    broadcast use vstd::seq_lib::group_to_multiset_ensures;
    let mut rest = v;
    let mut r: Vec<(String, String)> = Vec::new();
    assert(pair_views(r@) =~= Seq::<(Seq<char>, Seq<char>)>::empty());
    while rest.len() > 0
        invariant
            key_sorted(pair_views(r@)),
            pair_views(r@).to_multiset().add(pair_views(rest@).to_multiset()) == pair_views(v@).to_multiset(),
        decreases rest.len(),
    {
        let ghost before_rest = pair_views(rest@);
        let p = rest.pop().unwrap();
        let ghost after_rest = pair_views(rest@);
        assert(before_rest =~= after_rest.push((p.0@, p.1@)));
        proof {
            vstd::seq_lib::to_multiset_build(after_rest, (p.0@, p.1@));
        }
        insert_pair_sorted(&mut r, p);
    }
    assert(pair_views(rest@) =~= Seq::<(Seq<char>, Seq<char>)>::empty());
    r
}

/// `key: value` for each pair, in order.
pub open spec fn key_value_texts(v: Seq<(Seq<char>, Seq<char>)>) -> Seq<Seq<char>> {
    v.map_values(|p: (Seq<char>, Seq<char>)| p.0 + ": "@ + p.1)
}

/// One `key: value` line per pair, in order.
pub fn key_value_lines(v: &Vec<(String, String)>) -> (lines: Vec<String>)
    ensures
        views(lines@) == key_value_texts(pair_views(v@)),
{
    let mut lines: Vec<String> = Vec::new();
    let mut i: usize = 0;
    while i < v.len()
        invariant
            i <= v.len(),
            views(lines@) == key_value_texts(pair_views(v@)).take(i as int),
        decreases v.len() - i,
    {
        let mut line = v[i].0.clone();
        line.append(": ");
        line.append(v[i].1.as_str());
        let ghost before = views(lines@);
        lines.push(line);
        assert(views(lines@) =~= before.push(v@[i as int].0@ + ": "@ + v@[i as int].1@));
        assert(key_value_texts(pair_views(v@)).take(i + 1) =~= key_value_texts(pair_views(v@)).take(i as int).push(v@[i as int].0@ + ": "@ + v@[i as int].1@));
        i = i + 1;
    }
    assert(key_value_texts(pair_views(v@)).take(v.len() as int) =~= key_value_texts(pair_views(v@)));
    lines
}

} // verus!
