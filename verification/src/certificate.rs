//! Certificates: distinguished names, certificate labels and values, and the
//! issues found in a certificate and the secrets it refers to.
use vstd::prelude::*;
use crate::issues::{
    before_issue, expiry_issue, issue_views, kept, kept_issues, notification_issues, notification_views, push_notification_issues, severity_of,
    AllocationStatus, Issue, IssueView, Severity,
};
use crate::secret::{secret_issue_list, SecretMetadata, SecretWithMetadata};
use crate::text::{seq_join, split_char, split_on, str_equal, str_views};

verus! {

/// The value of `piece` when it is a `type=value` pair of type `target`.
pub open spec fn rdn_of(piece: Seq<char>, target: Seq<char>) -> Option<Seq<char>> {
    let kv = split_on(piece, '=');
    if kv.len() == 2 && kv[0] == target {
        Some(kv[1])
    } else {
        None
    }
}

/// The first piece, in order, that is a `type=value` pair of type `target`.
pub open spec fn find_rdn(pieces: Seq<Seq<char>>, target: Seq<char>) -> Option<Seq<char>>
    decreases pieces.len(),
{
    if pieces.len() == 0 {
        None
    } else {
        match rdn_of(pieces[0], target) {
            Some(value) => Some(value),
            None => find_rdn(pieces.drop_first(), target),
        }
    }
}

/// The value of the first relative distinguished name of type `target` in a
/// comma separated distinguished name.
pub open spec fn relative_distinguished_name(dn: Seq<char>, target: Seq<char>) -> Option<Seq<char>> {
    find_rdn(split_on(dn, ','), target)
}

/// Gets the value of the relative distinguished name of type `target_rdn_type`
/// (case sensitive, e.g. `"CN"`) from a distinguished name such as
/// `"CN=tenant.org,O=Tenant Organization,C=NL"`. Pieces that are not exactly one
/// `type=value` pair are skipped.
pub fn get_relative_distinguished_name<'a>(distinguished_name: &'a str, target_rdn_type: &str) -> (res: Option<&'a str>)
    ensures
        res is Some <==> relative_distinguished_name(distinguished_name@, target_rdn_type@) is Some,
        res is Some ==> res->0@ == relative_distinguished_name(distinguished_name@, target_rdn_type@)->0,
{
    let pieces = split_char(distinguished_name, ',');
    let ghost all = str_views(pieces@);
    let mut i: usize = 0;
    assert(all.skip(0) =~= all);
    while i < pieces.len()
        invariant
            all == str_views(pieces@),
            all == split_on(distinguished_name@, ','),
            i <= pieces.len(),
            find_rdn(all, target_rdn_type@) == find_rdn(all.skip(i as int), target_rdn_type@),
        decreases pieces.len() - i,
    {
        let kv = split_char(pieces[i], '=');
        assert(all.skip(i as int)[0] == pieces@[i as int]@);
        assert(all.skip(i as int).drop_first() =~= all.skip(i + 1));
        assert(kv.len() == 2 ==> str_views(kv@)[0] == kv@[0]@ && str_views(kv@)[1] == kv@[1]@);
        if kv.len() == 2 && str_equal(kv[0], target_rdn_type) {
            assert(rdn_of(all.skip(i as int)[0], target_rdn_type@) == Some(kv@[1]@));
            assert(find_rdn(all.skip(i as int), target_rdn_type@) == Some(kv@[1]@));
            return Some(kv[1]);
        }
        i = i + 1;
    }
    None
}

} // verus!

verus! {

/// The `type=value` pieces of a distinguished name made of the given types and values.
pub open spec fn rdn_pairs(types: Seq<Seq<char>>, values: Seq<Seq<char>>) -> Seq<Seq<char>> {
    Seq::new(types.len(), |i: int| types[i] + seq!['='] + values[i])
}

/// The value paired with the first occurrence of `target` in `types`.
pub open spec fn first_value(types: Seq<Seq<char>>, values: Seq<Seq<char>>, target: Seq<char>) -> Option<Seq<char>>
    decreases types.len(),
{
    if types.len() == 0 {
        None
    } else if types[0] == target {
        Some(values[0])
    } else {
        first_value(types.drop_first(), values.drop_first(), target)
    }
}

/// Text that can stand as the type or the value of a relative distinguished name.
pub open spec fn rdn_text(s: Seq<char>) -> bool {
    !s.contains(',') && !s.contains('=')
}

proof fn lemma_pair_splits(t: Seq<char>, v: Seq<char>)
    requires
        rdn_text(t),
        rdn_text(v),
    ensures
        split_on(t + seq!['='] + v, '=') == seq![t, v],
{
    let parts = seq![t, v];
    assert(parts.drop_last() =~= seq![t]);
    assert(seq_join(seq![t], seq!['=']) == t);
    assert(parts.last() == v);
    assert(seq_join(parts, seq!['=']) == t + seq!['='] + v);
    assert forall|i: int| 0 <= i < parts.len() implies !(#[trigger] parts[i]).contains('=') by {
        if i == 0 {
            assert(parts[i] == t);
        } else {
            assert(parts[i] == v);
        }
    }
    crate::text::lemma_split_on_join(parts, '=');
}

proof fn lemma_find_in_pairs(types: Seq<Seq<char>>, values: Seq<Seq<char>>, target: Seq<char>)
    requires
        types.len() == values.len(),
        forall|i: int| 0 <= i < types.len() ==> rdn_text(#[trigger] types[i]) && rdn_text(values[i]),
    ensures
        find_rdn(rdn_pairs(types, values), target) == first_value(types, values, target),
    decreases types.len(),
{
    if types.len() > 0 {
        lemma_pair_splits(types[0], values[0]);
        let rest_t = types.drop_first();
        let rest_v = values.drop_first();
        assert forall|i: int| 0 <= i < rest_t.len() implies rdn_text(#[trigger] rest_t[i]) && rdn_text(rest_v[i]) by {
            assert(rest_t[i] == types[i + 1]);
            assert(rest_v[i] == values[i + 1]);
        }
        lemma_find_in_pairs(rest_t, rest_v, target);
        assert(rdn_pairs(types, values).drop_first() =~= rdn_pairs(rest_t, rest_v));
    }
}

/// Reading back a distinguished name that was composed of `type=value` pairs
/// (none of them holding `,` or `=`) gives, for every type, the value of its
/// first pair, and nothing for a type that does not occur.
pub proof fn lemma_composed_distinguished_name(types: Seq<Seq<char>>, values: Seq<Seq<char>>, target: Seq<char>)
    requires
        types.len() == values.len(),
        types.len() >= 1,
        forall|i: int| 0 <= i < types.len() ==> rdn_text(#[trigger] types[i]) && rdn_text(values[i]),
    ensures
        relative_distinguished_name(seq_join(rdn_pairs(types, values), seq![',']), target)
            == first_value(types, values, target),
{
    let pairs = rdn_pairs(types, values);
    assert forall|i: int| 0 <= i < pairs.len() implies !(#[trigger] pairs[i]).contains(',') by {
        if pairs[i].contains(',') {
            let k = choose|k: int| 0 <= k < pairs[i].len() && pairs[i][k] == ',';
            let t = types[i];
            let v = values[i];
            assert(pairs[i] == t + seq!['='] + v);
            if k < t.len() {
                assert(t[k] == ',');
            } else if k == t.len() {
                assert(pairs[i][k] == '=');
            } else {
                assert(v[k - t.len() - 1] == ',');
            }
        }
    }
    crate::text::lemma_split_on_join(pairs, ',');
    lemma_find_in_pairs(types, values, target);
}

} // verus!

verus! {

/// The attribute map of a sequence of pieces: every `type=value` pair sets the
/// type to the value, later pairs overriding earlier ones.
pub open spec fn dn_map_of(pieces: Seq<Seq<char>>) -> Map<Seq<char>, Seq<char>>
    decreases pieces.len(),
{
    if pieces.len() == 0 {
        Map::empty()
    } else {
        let m = dn_map_of(pieces.drop_last());
        let kv = split_on(pieces.last(), '=');
        if kv.len() == 2 {
            m.insert(kv[0], kv[1])
        } else {
            m
        }
    }
}

/// The attribute map of a comma separated distinguished name.
pub open spec fn distinguished_name_map(dn: Seq<char>) -> Map<Seq<char>, Seq<char>> {
    dn_map_of(split_on(dn, ','))
}

/// Views of a list of string slice pairs.
pub open spec fn pair_views(v: Seq<(&str, &str)>) -> Seq<(Seq<char>, Seq<char>)> {
    v.map_values(|p: (&str, &str)| (p.0@, p.1@))
}

/// `pairs` lists the entries of `m`, each key once.
pub open spec fn lists_map(pairs: Seq<(Seq<char>, Seq<char>)>, m: Map<Seq<char>, Seq<char>>) -> bool {
    &&& forall|i: int, j: int| 0 <= i < j < pairs.len() ==> (#[trigger] pairs[i]).0 != (#[trigger] pairs[j]).0
    &&& forall|i: int| 0 <= i < pairs.len() ==> m.contains_key((#[trigger] pairs[i]).0) && m[pairs[i].0] == pairs[i].1
    &&& forall|k: Seq<char>| #[trigger] m.contains_key(k) ==> exists|i: int| 0 <= i < pairs.len() && (#[trigger] pairs[i]).0 == k
}

/// Position of the pair with key `key`, if any.
fn position_of_key(pairs: &Vec<(&str, &str)>, key: &str) -> (res: Option<usize>)
    ensures
        match res {
            Some(j) => j < pairs.len() && pairs@[j as int].0@ == key@,
            None => forall|j: int| 0 <= j < pairs.len() ==> (#[trigger] pairs@[j]).0@ != key@,
        },
{
    let mut j: usize = 0;
    while j < pairs.len()
        invariant
            j <= pairs.len(),
            forall|k: int| 0 <= k < j ==> (#[trigger] pairs@[k]).0@ != key@,
        decreases pairs.len() - j,
    {
        if str_equal(pairs[j].0, key) {
            return Some(j);
        }
        j = j + 1;
    }
    None
}

/// The attributes of a distinguished name as `(type, value)` pairs, one per
/// type; when a type occurs more than once the last value is kept, as when
/// the pairs are collected into a map.
pub fn distinguished_name_to_map<'a>(distinguished_name: &'a str) -> (res: Vec<(&'a str, &'a str)>)
    ensures
        lists_map(pair_views(res@), distinguished_name_map(distinguished_name@)),
{
    let pieces = split_char(distinguished_name, ',');
    let ghost all = str_views(pieces@);
    let mut res: Vec<(&'a str, &'a str)> = Vec::new();
    let mut i: usize = 0;
    assert(all.take(0) =~= Seq::<Seq<char>>::empty());
    while i < pieces.len()
        invariant
            all == str_views(pieces@),
            all == split_on(distinguished_name@, ','),
            i <= pieces.len(),
            lists_map(pair_views(res@), dn_map_of(all.take(i as int))),
        decreases pieces.len() - i,
    {
        let ghost before = pair_views(res@);
        let ghost m = dn_map_of(all.take(i as int));
        assert(all.take(i + 1).drop_last() =~= all.take(i as int));
        assert(all.take(i + 1).last() == pieces@[i as int]@);
        let kv = split_char(pieces[i], '=');
        if kv.len() == 2 {
            assert(str_views(kv@)[0] == kv@[0]@ && str_views(kv@)[1] == kv@[1]@);
            let key = kv[0];
            let value = kv[1];
            let ghost m2 = m.insert(key@, value@);
            assert(dn_map_of(all.take(i + 1)) == m2);
            match position_of_key(&res, key) {
                Some(j) => {
                    res.set(j, (key, value));
                    let ghost after = pair_views(res@);
                    assert(after =~= before.update(j as int, (key@, value@)));
                    assert forall|p: int, q: int| 0 <= p < q < after.len() implies (#[trigger] after[p]).0
                        != (#[trigger] after[q]).0 by {
                        assert(after[p].0 == before[p].0);
                        assert(after[q].0 == before[q].0);
                    }
                    assert forall|k: Seq<char>| #[trigger] m2.contains_key(k) implies exists|p: int|
                        0 <= p < after.len() && (#[trigger] after[p]).0 == k by {
                        if k == key@ {
                            assert(after[j as int].0 == k);
                        } else {
                            assert(m.contains_key(k));
                            let p = choose|p: int| 0 <= p < before.len() && (#[trigger] before[p]).0 == k;
                            assert(after[p].0 == k);
                        }
                    }
                    assert forall|p: int| 0 <= p < after.len() implies m2.contains_key((#[trigger] after[p]).0)
                        && m2[after[p].0] == after[p].1 by {
                        if p != j {
                            assert(after[p] == before[p]);
                            assert(before[p].0 != before[j as int].0 || p == j);
                        }
                    }
                    assert(lists_map(after, m2));
                }
                None => {
                    res.push((key, value));
                    let ghost after = pair_views(res@);
                    assert(after =~= before.push((key@, value@)));
                    assert forall|k: Seq<char>| #[trigger] m2.contains_key(k) implies exists|p: int|
                        0 <= p < after.len() && (#[trigger] after[p]).0 == k by {
                        if k == key@ {
                            assert(after[before.len() as int].0 == k);
                        } else {
                            assert(m.contains_key(k));
                            let p = choose|p: int| 0 <= p < before.len() && (#[trigger] before[p]).0 == k;
                            assert(after[p].0 == k);
                        }
                    }
                    assert forall|p: int, q: int| 0 <= p < q < after.len() implies (#[trigger] after[p]).0
                        != (#[trigger] after[q]).0 by {
                        if q == before.len() {
                            assert(res@[p].0@ == before[p].0);
                        } else {
                            assert(after[p] == before[p] && after[q] == before[q]);
                        }
                    }
                    assert forall|p: int| 0 <= p < after.len() implies m2.contains_key((#[trigger] after[p]).0)
                        && m2[after[p].0] == after[p].1 by {
                        if p < before.len() {
                            assert(after[p] == before[p]);
                        }
                    }
                    assert(lists_map(after, m2));
                }
            }
        } else {
            assert(dn_map_of(all.take(i + 1)) == m);
        }
        i = i + 1;
    }
    assert(all.take(pieces.len() as int) =~= all);
    res
}

} // verus!

verus! {

/// The attribute types that are shown first, in this order.
pub open spec fn standard_attributes() -> Seq<Seq<char>> {
    seq!["CN"@, "O"@, "OU"@, "L"@, "S"@, "SP"@, "ST"@, "C"@]
}

/// Rows for the attributes of `attributes` that `m` holds, in order.
pub open spec fn standard_rows(attributes: Seq<Seq<char>>, m: Map<Seq<char>, Seq<char>>) -> Seq<(Seq<char>, Seq<char>)>
    decreases attributes.len(),
{
    if attributes.len() == 0 {
        Seq::empty()
    } else {
        let rest = standard_rows(attributes.drop_last(), m);
        if m.contains_key(attributes.last()) {
            rest.push((attributes.last(), m[attributes.last()]))
        } else {
            rest
        }
    }
}

/// Views of a list of string pairs.
pub open spec fn string_pair_views(v: Seq<(String, String)>) -> Seq<(Seq<char>, Seq<char>)> {
    v.map_values(|p: (String, String)| (p.0@, p.1@))
}

/// The rows in which a distinguished name is shown: first the standard
/// attributes that it holds, in the standard order, then every other
/// attribute once.
pub open spec fn distinguished_name_rows(rows: Seq<(Seq<char>, Seq<char>)>, m: Map<Seq<char>, Seq<char>>) -> bool {
    let std = standard_rows(standard_attributes(), m);
    let others = rows.skip(std.len() as int);
    &&& rows.len() >= std.len()
    &&& rows.take(std.len() as int) == std
    &&& forall|i: int, j: int| 0 <= i < j < others.len() ==> (#[trigger] others[i]).0 != (#[trigger] others[j]).0
    &&& forall|i: int| 0 <= i < others.len() ==> !standard_attributes().contains((#[trigger] others[i]).0)
        && m.contains_key(others[i].0) && m[others[i].0] == others[i].1
    &&& forall|k: Seq<char>| #[trigger] m.contains_key(k) && !standard_attributes().contains(k)
        ==> exists|i: int| 0 <= i < others.len() && (#[trigger] others[i]).0 == k
}

/// Lays out a distinguished name as `(attribute, value)` rows: the standard
/// attributes `CN`, `O`, `OU`, `L`, `S`, `SP`, `ST` and `C` first, in that
/// order, followed by any other attributes.
pub fn format_distinguished_name(distinguished_name: &str) -> (rows: Vec<(String, String)>)
    ensures
        distinguished_name_rows(string_pair_views(rows@), distinguished_name_map(distinguished_name@)),
{
    let attributes: Vec<&str> = vec!["CN", "O", "OU", "L", "S", "SP", "ST", "C"];
    assert(str_views(attributes@) =~= standard_attributes());
    let pairs = distinguished_name_to_map(distinguished_name);
    let ghost m = distinguished_name_map(distinguished_name@);
    let ghost pv = pair_views(pairs@);
    let mut rows: Vec<(String, String)> = Vec::new();
    let mut a: usize = 0;
    assert(standard_attributes().take(0) =~= Seq::<Seq<char>>::empty());
    while a < attributes.len()
        invariant
            str_views(attributes@) == standard_attributes(),
            lists_map(pv, m),
            pv == pair_views(pairs@),
            a <= attributes.len(),
            string_pair_views(rows@) == standard_rows(standard_attributes().take(a as int), m),
        decreases attributes.len() - a,
    {
        let attribute = attributes[a];
        let ghost before = string_pair_views(rows@);
        assert(standard_attributes().take(a + 1).drop_last() =~= standard_attributes().take(a as int));
        assert(standard_attributes().take(a + 1).last() == attribute@);
        match position_of_key(&pairs, attribute) {
            Some(j) => {
                assert(pv[j as int] == (pairs@[j as int].0@, pairs@[j as int].1@));
                rows.push((String::from_str(attribute), String::from_str(pairs[j].1)));
                assert(string_pair_views(rows@) =~= before.push((attribute@, m[attribute@])));
            }
            None => {
                assert(!m.contains_key(attribute@)) by {
                    if m.contains_key(attribute@) {
                        let p = choose|p: int| 0 <= p < pv.len() && (#[trigger] pv[p]).0 == attribute@;
                        assert(pairs@[p].0@ == pv[p].0);
                    }
                }
            }
        }
        a = a + 1;
    }
    assert(standard_attributes().take(8) =~= standard_attributes());
    let ghost std = standard_rows(standard_attributes(), m);
    let mut p: usize = 0;
    assert(string_pair_views(rows@).skip(std.len() as int) =~= Seq::<(Seq<char>, Seq<char>)>::empty());
    while p < pairs.len()
        invariant
            str_views(attributes@) == standard_attributes(),
            lists_map(pv, m),
            pv == pair_views(pairs@),
            std == standard_rows(standard_attributes(), m),
            p <= pairs.len(),
            string_pair_views(rows@).len() >= std.len(),
            string_pair_views(rows@).take(std.len() as int) == std,
            ({
                let others = string_pair_views(rows@).skip(std.len() as int);
                &&& forall|i: int, j: int| 0 <= i < j < others.len() ==> (#[trigger] others[i]).0 != (#[trigger] others[j]).0
                &&& forall|i: int| 0 <= i < others.len() ==> !standard_attributes().contains((#[trigger] others[i]).0)
                    && m.contains_key(others[i].0) && m[others[i].0] == others[i].1
                &&& forall|i: int| 0 <= i < others.len() ==> exists|q: int| 0 <= q < p && (#[trigger] pv[q]).0 == (#[trigger] others[i]).0
                &&& forall|q: int| 0 <= q < p && !standard_attributes().contains((#[trigger] pv[q]).0)
                    ==> exists|i: int| 0 <= i < others.len() && (#[trigger] others[i]).0 == pv[q].0
            }),
        decreases pairs.len() - p,
    {
        let ghost before = string_pair_views(rows@);
        let key = pairs[p].0;
        let value = pairs[p].1;
        assert(pv[p as int] == (key@, value@));
        let mut standard = false;
        let mut a: usize = 0;
        while a < attributes.len()
            invariant
                str_views(attributes@) == standard_attributes(),
                a <= attributes.len(),
                standard == exists|b: int| 0 <= b < a && (#[trigger] standard_attributes()[b]) == key@,
            decreases attributes.len() - a,
        {
            assert(str_views(attributes@)[a as int] == attributes@[a as int]@);
            if str_equal(attributes[a], key) {
                standard = true;
            }
            a = a + 1;
        }
        assert(standard == standard_attributes().contains(key@));
        if !standard {
            rows.push((String::from_str(key), String::from_str(value)));
            let ghost after = string_pair_views(rows@);
            assert(after =~= before.push((key@, value@)));
            let ghost others_before = before.skip(std.len() as int);
            let ghost others = after.skip(std.len() as int);
            assert(others =~= others_before.push((key@, value@)));
            assert(after.take(std.len() as int) =~= before.take(std.len() as int));
            assert forall|i: int, j: int| 0 <= i < j < others.len() implies (#[trigger] others[i]).0
                != (#[trigger] others[j]).0 by {
                if j == others_before.len() {
                    assert(others[i] == others_before[i]);
                    let q = choose|q: int| 0 <= q < p && (#[trigger] pv[q]).0 == others_before[i].0;
                    assert(pv[q].0 != pv[p as int].0);
                } else {
                    assert(others[i] == others_before[i] && others[j] == others_before[j]);
                }
            }
            assert forall|i: int| 0 <= i < others.len() implies exists|q: int| 0 <= q < p + 1
                && (#[trigger] pv[q]).0 == (#[trigger] others[i]).0 by {
                if i == others_before.len() {
                    assert(pv[p as int].0 == others[i].0);
                } else {
                    assert(others[i] == others_before[i]);
                    let q = choose|q: int| 0 <= q < p && (#[trigger] pv[q]).0 == others_before[i].0;
                    assert(pv[q].0 == others[i].0);
                }
            }
            assert forall|q: int| 0 <= q < p + 1 && !standard_attributes().contains((#[trigger] pv[q]).0)
                implies exists|i: int| 0 <= i < others.len() && (#[trigger] others[i]).0 == pv[q].0 by {
                if q == p {
                    assert(others[others_before.len() as int].0 == pv[q].0);
                } else {
                    let i = choose|i: int| 0 <= i < others_before.len() && (#[trigger] others_before[i]).0 == pv[q].0;
                    assert(others[i] == others_before[i]);
                }
            }
            assert forall|i: int| 0 <= i < others.len() implies !standard_attributes().contains((#[trigger] others[i]).0)
                && m.contains_key(others[i].0) && m[others[i].0] == others[i].1 by {
                if i < others_before.len() {
                    assert(others[i] == others_before[i]);
                }
            }
        }
        p = p + 1;
    }
    let ghost others = string_pair_views(rows@).skip(std.len() as int);
    assert forall|k: Seq<char>| #[trigger] m.contains_key(k) && !standard_attributes().contains(k)
        implies exists|i: int| 0 <= i < others.len() && (#[trigger] others[i]).0 == k by {
        let q = choose|q: int| 0 <= q < pv.len() && (#[trigger] pv[q]).0 == k;
        assert(!standard_attributes().contains(pv[q].0));
    }
    rows
}

} // verus!

verus! {

/// Whether a piece is exactly one `type=value` pair.
pub open spec fn is_rdn_pair(piece: Seq<char>) -> bool {
    split_on(piece, '=').len() == 2
}

/// The type of a `type=value` piece.
pub open spec fn rdn_type(piece: Seq<char>) -> Seq<char> {
    split_on(piece, '=')[0]
}

/// The value of a `type=value` piece.
pub open spec fn rdn_value(piece: Seq<char>) -> Seq<char> {
    split_on(piece, '=')[1]
}

/// Whether no two `type=value` pieces share their type.
pub open spec fn distinct_rdn_types(pieces: Seq<Seq<char>>) -> bool {
    forall|i: int, j: int|
        0 <= i < j < pieces.len() && is_rdn_pair(#[trigger] pieces[i]) && is_rdn_pair(#[trigger] pieces[j])
            ==> rdn_type(pieces[i]) != rdn_type(pieces[j])
}

/// The value a map holds for a key, if any.
pub open spec fn map_value(m: Map<Seq<char>, Seq<char>>, k: Seq<char>) -> Option<Seq<char>> {
    if m.contains_key(k) {
        Some(m[k])
    } else {
        None
    }
}

/// With distinct types, the attribute map holds each pair's value under its
/// type, and nothing else.
proof fn lemma_dn_map_of_distinct(pieces: Seq<Seq<char>>)
    requires
        distinct_rdn_types(pieces),
    ensures
        forall|i: int| 0 <= i < pieces.len() && is_rdn_pair(#[trigger] pieces[i]) ==>
            dn_map_of(pieces).contains_key(rdn_type(pieces[i])) && dn_map_of(pieces)[rdn_type(pieces[i])] == rdn_value(pieces[i]),
        forall|t: Seq<char>| #[trigger] dn_map_of(pieces).contains_key(t) ==>
            exists|i: int| 0 <= i < pieces.len() && is_rdn_pair(#[trigger] pieces[i]) && rdn_type(pieces[i]) == t,
    decreases pieces.len(),
{
    if pieces.len() > 0 {
        let front = pieces.drop_last();
        let n = pieces.len() - 1;
        assert forall|i: int, j: int|
            0 <= i < j < front.len() && is_rdn_pair(#[trigger] front[i]) && is_rdn_pair(#[trigger] front[j])
                implies rdn_type(front[i]) != rdn_type(front[j]) by {
            assert(front[i] == pieces[i] && front[j] == pieces[j]);
        }
        lemma_dn_map_of_distinct(front);
        let m = dn_map_of(front);
        assert(pieces.last() == pieces[n]);
        assert forall|i: int| 0 <= i < pieces.len() && is_rdn_pair(#[trigger] pieces[i]) implies
            dn_map_of(pieces).contains_key(rdn_type(pieces[i])) && dn_map_of(pieces)[rdn_type(pieces[i])] == rdn_value(pieces[i]) by {
            if i < n {
                assert(front[i] == pieces[i]);
            }
        }
        assert forall|t: Seq<char>| #[trigger] dn_map_of(pieces).contains_key(t) implies
            exists|i: int| 0 <= i < pieces.len() && is_rdn_pair(#[trigger] pieces[i]) && rdn_type(pieces[i]) == t by {
            if m.contains_key(t) {
                let i = choose|i: int| 0 <= i < front.len() && is_rdn_pair(#[trigger] front[i]) && rdn_type(front[i]) == t;
                assert(pieces[i] == front[i]);
            } else {
                assert(is_rdn_pair(pieces[n]) && rdn_type(pieces[n]) == t);
            }
        }
    }
}

/// With distinct types, the first pair of type `t` is the only one.
proof fn lemma_find_rdn_distinct(pieces: Seq<Seq<char>>, t: Seq<char>)
    requires
        distinct_rdn_types(pieces),
    ensures
        (forall|i: int| 0 <= i < pieces.len() ==> !(is_rdn_pair(#[trigger] pieces[i]) && rdn_type(pieces[i]) == t))
            ==> find_rdn(pieces, t) is None,
        forall|i: int| 0 <= i < pieces.len() && is_rdn_pair(#[trigger] pieces[i]) && rdn_type(pieces[i]) == t
            ==> find_rdn(pieces, t) == Some(rdn_value(pieces[i])),
    decreases pieces.len(),
{
    if pieces.len() > 0 {
        let rest = pieces.drop_first();
        assert forall|i: int, j: int|
            0 <= i < j < rest.len() && is_rdn_pair(#[trigger] rest[i]) && is_rdn_pair(#[trigger] rest[j])
                implies rdn_type(rest[i]) != rdn_type(rest[j]) by {
            assert(rest[i] == pieces[i + 1] && rest[j] == pieces[j + 1]);
        }
        lemma_find_rdn_distinct(rest, t);
        if (forall|i: int| 0 <= i < pieces.len() ==> !(is_rdn_pair(#[trigger] pieces[i]) && rdn_type(pieces[i]) == t)) {
            assert(!(is_rdn_pair(pieces[0]) && rdn_type(pieces[0]) == t));
            assert forall|i: int| 0 <= i < rest.len() implies !(is_rdn_pair(#[trigger] rest[i]) && rdn_type(rest[i]) == t) by {
                assert(rest[i] == pieces[i + 1]);
            }
        }
        assert forall|i: int| 0 <= i < pieces.len() && is_rdn_pair(#[trigger] pieces[i]) && rdn_type(pieces[i]) == t
            implies find_rdn(pieces, t) == Some(rdn_value(pieces[i])) by {
            if i > 0 {
                assert(rest[i - 1] == pieces[i]);
                assert(!(is_rdn_pair(pieces[0]) && rdn_type(pieces[0]) == t));
            }
        }
    }
}

/// When the types of the `type=value` pieces of a distinguished name are
/// distinct, the attribute map holds for every type exactly the relative
/// distinguished name of that type.
pub proof fn lemma_map_agrees_with_rdn(distinguished_name: Seq<char>, t: Seq<char>)
    requires
        distinct_rdn_types(split_on(distinguished_name, ',')),
    ensures
        map_value(distinguished_name_map(distinguished_name), t) == relative_distinguished_name(distinguished_name, t),
{
    let pieces = split_on(distinguished_name, ',');
    lemma_dn_map_of_distinct(pieces);
    lemma_find_rdn_distinct(pieces, t);
    if exists|i: int| 0 <= i < pieces.len() && is_rdn_pair(#[trigger] pieces[i]) && rdn_type(pieces[i]) == t {
        let i = choose|i: int| 0 <= i < pieces.len() && is_rdn_pair(#[trigger] pieces[i]) && rdn_type(pieces[i]) == t;
        assert(find_rdn(pieces, t) == Some(rdn_value(pieces[i])));
    } else {
        assert(!dn_map_of(pieces).contains_key(t));
    }
}

/// Whether a piece is a `type=value` pair of a standard attribute type.
pub open spec fn is_standard_pair(piece: Seq<char>) -> bool {
    is_rdn_pair(piece) && standard_attributes().contains(rdn_type(piece))
}

/// Reordering the components of a distinguished name made of standard
/// attributes of distinct types does not change the rows it is laid out in.
pub proof fn lemma_rows_ignore_order(
    dn1: Seq<char>,
    dn2: Seq<char>,
    rows1: Seq<(Seq<char>, Seq<char>)>,
    rows2: Seq<(Seq<char>, Seq<char>)>,
)
    requires
        split_on(dn1, ',').to_multiset() == split_on(dn2, ',').to_multiset(),
        forall|i: int| 0 <= i < split_on(dn1, ',').len() ==> is_standard_pair(#[trigger] split_on(dn1, ',')[i]),
        distinct_rdn_types(split_on(dn1, ',')),
        distinct_rdn_types(split_on(dn2, ',')),
        distinguished_name_rows(rows1, distinguished_name_map(dn1)),
        distinguished_name_rows(rows2, distinguished_name_map(dn2)),
    ensures
        rows1 == rows2,
{
    broadcast use vstd::seq_lib::group_to_multiset_ensures;
    let p1 = split_on(dn1, ',');
    let p2 = split_on(dn2, ',');
    lemma_dn_map_of_distinct(p1);
    lemma_dn_map_of_distinct(p2);
    let m1 = dn_map_of(p1);
    let m2 = dn_map_of(p2);
    assert forall|t: Seq<char>| m1.contains_key(t) <==> m2.contains_key(t) by {
        if m1.contains_key(t) {
            let i = choose|i: int| 0 <= i < p1.len() && is_rdn_pair(#[trigger] p1[i]) && rdn_type(p1[i]) == t;
            assert(p1.contains(p1[i]));
            vstd::seq_lib::to_multiset_contains(p1, p1[i]);
            vstd::seq_lib::to_multiset_contains(p2, p1[i]);
            assert(p2.contains(p1[i]));
            let j = choose|j: int| 0 <= j < p2.len() && p2[j] == p1[i];
            assert(is_rdn_pair(p2[j]));
        }
        if m2.contains_key(t) {
            let j = choose|j: int| 0 <= j < p2.len() && is_rdn_pair(#[trigger] p2[j]) && rdn_type(p2[j]) == t;
            assert(p2.contains(p2[j]));
            vstd::seq_lib::to_multiset_contains(p1, p2[j]);
            vstd::seq_lib::to_multiset_contains(p2, p2[j]);
            assert(p1.contains(p2[j]));
            let i = choose|i: int| 0 <= i < p1.len() && p1[i] == p2[j];
            assert(is_rdn_pair(p1[i]));
        }
    }
    assert forall|t: Seq<char>| m1.contains_key(t) implies m1[t] == m2[t] by {
        let i = choose|i: int| 0 <= i < p1.len() && is_rdn_pair(#[trigger] p1[i]) && rdn_type(p1[i]) == t;
        assert(p1.contains(p1[i]));
        vstd::seq_lib::to_multiset_contains(p1, p1[i]);
        vstd::seq_lib::to_multiset_contains(p2, p1[i]);
        assert(p2.contains(p1[i]));
        let j = choose|j: int| 0 <= j < p2.len() && p2[j] == p1[i];
        assert(is_rdn_pair(p2[j]));
    }
    assert(m1 =~= m2);
    let std = standard_rows(standard_attributes(), m1);
    assert forall|k: Seq<char>| #[trigger] m1.contains_key(k) implies standard_attributes().contains(k) by {
        let i = choose|i: int| 0 <= i < p1.len() && is_rdn_pair(#[trigger] p1[i]) && rdn_type(p1[i]) == k;
        assert(is_standard_pair(p1[i]));
    }
    if rows1.len() > std.len() {
        let others = rows1.skip(std.len() as int);
        assert(others[0] == rows1[std.len() as int]);
        assert(m1.contains_key(others[0].0));
    }
    if rows2.len() > std.len() {
        let others = rows2.skip(std.len() as int);
        assert(others[0] == rows2[std.len() as int]);
        assert(m1.contains_key(others[0].0));
    }
    assert(rows1 =~= rows1.take(std.len() as int));
    assert(rows2 =~= rows2.take(std.len() as int));
}

} // verus!

verus! {

/// Where an issue of a certificate comes from: the attribute of the
/// certificate that names a secret, the secret's name and the kind of subject.
#[derive(Debug, PartialEq)]
pub struct IssueOrigin {
    pub attribute: String,
    pub name: String,
    pub subject: String,
}

/// An issue, with where it comes from when that is not the certificate itself.
#[derive(Debug, PartialEq)]
pub struct IssueDescription {
    pub origin: Option<IssueOrigin>,
    pub issue: Issue,
}

/// View of an [`IssueOrigin`].
pub struct IssueOriginView {
    pub attribute: Seq<char>,
    pub name: Seq<char>,
    pub subject: Seq<char>,
}

/// View of an [`IssueDescription`].
pub struct IssueDescriptionView {
    pub origin: Option<IssueOriginView>,
    pub issue: IssueView,
}

impl View for IssueDescription {
    type V = IssueDescriptionView;

    open spec fn view(&self) -> IssueDescriptionView {
        IssueDescriptionView {
            origin: match self.origin {
                Some(o) => Some(IssueOriginView { attribute: o.attribute@, name: o.name@, subject: o.subject@ }),
                None => None,
            },
            issue: self.issue@,
        }
    }
}

/// Views of a list of issue descriptions.
pub open spec fn description_views(v: Seq<IssueDescription>) -> Seq<IssueDescriptionView> {
    v.map_values(|d: IssueDescription| d@)
}

/// The status of a certificate on the platform.
pub struct CertificateStatus {
    /// Allocation status of the certificate.
    pub status: AllocationStatus,
    /// The certificate as it is deployed, once it is.
    pub actual: Option<ActualCertificate>,
}

/// A certificate as it is deployed on the platform. Moments are seconds since the epoch.
pub struct ActualCertificate {
    pub cert_chain_secret: String,
    pub key_secret: String,
    pub passphrase_secret: Option<String>,
    pub distinguished_name: String,
    pub dns_names: Vec<String>,
    pub serial_number: String,
    pub not_after: i64,
    pub not_before: i64,
}

/// The first secret, in order, with the given name.
pub open spec fn find_secret(secrets: Seq<SecretWithMetadata>, name: Seq<char>) -> Option<SecretWithMetadata>
    decreases secrets.len(),
{
    if secrets.len() == 0 {
        None
    } else if secrets[0].name@ == name {
        Some(secrets[0])
    } else {
        find_secret(secrets.drop_first(), name)
    }
}

/// The issues, each described with the same origin.
pub open spec fn described(origin: Option<IssueOriginView>, issues: Seq<IssueView>) -> Seq<IssueDescriptionView> {
    issues.map_values(|i: IssueView| IssueDescriptionView { origin, issue: i })
}

/// The origin of the issues of a secret that a certificate attribute names.
pub open spec fn secret_origin(attribute: Seq<char>, name: Seq<char>) -> Option<IssueOriginView> {
    Some(IssueOriginView { attribute, name, subject: "secret"@ })
}

/// The issues of the secret that a certificate attribute names: the kept
/// issues of the secret, or `NotFound` when there is no such secret.
pub open spec fn secret_issues_spec(
    secret: Seq<char>,
    days: Option<u64>,
    only_errors: bool,
    attribute: Seq<char>,
    secrets: Seq<SecretWithMetadata>,
    now: i64,
) -> Seq<IssueDescriptionView> {
    match find_secret(secrets, secret) {
        Some(s) => described(secret_origin(attribute, secret), kept_issues(secret_issue_list(s, days, now), only_errors)),
        None => seq![IssueDescriptionView { origin: secret_origin(attribute, secret), issue: IssueView::NotFound }],
    }
}

/// Position of the first secret with the given name.
fn position_of_secret(secrets: &Vec<SecretWithMetadata>, name: &str) -> (res: Option<usize>)
    ensures
        match res {
            Some(j) => j < secrets.len() && find_secret(secrets@, name@) == Some(secrets@[j as int]),
            None => find_secret(secrets@, name@) is None,
        },
{
    let mut j: usize = 0;
    assert(secrets@.skip(0) =~= secrets@);
    while j < secrets.len()
        invariant
            j <= secrets.len(),
            find_secret(secrets@, name@) == find_secret(secrets@.skip(j as int), name@),
        decreases secrets.len() - j,
    {
        assert(secrets@.skip(j as int)[0] == secrets@[j as int]);
        assert(secrets@.skip(j as int).drop_first() =~= secrets@.skip(j + 1));
        if str_equal(secrets[j].name.as_str(), name) {
            return Some(j);
        }
        j = j + 1;
    }
    None
}

fn secret_origin_value(attribute: &str, secret: &str) -> (o: IssueOrigin)
    ensures
        o.attribute@ == attribute@,
        o.name@ == secret@,
        o.subject@ == "secret"@,
{
    (IssueOrigin {
        attribute: String::from_str(attribute),
        name: String::from_str(secret),
        subject: String::from_str("secret"),
    })
}

/// The issues of the secret named `secret` that the certificate attribute
/// `secret_attribute` refers to; with `only_errors` only the errors.
pub fn secret_issues(
    secret: &str,
    days: Option<u64>,
    only_errors: bool,
    secret_attribute: &str,
    secrets: &Vec<SecretWithMetadata>,
    now: i64,
) -> (issues: Vec<IssueDescription>)
    ensures
        description_views(issues@) == secret_issues_spec(secret@, days, only_errors, secret_attribute@, secrets@, now),
{
    let mut issues: Vec<IssueDescription> = Vec::new();
    match position_of_secret(secrets, secret) {
        Some(j) => {
            match crate::secret::has_issues(&secrets[j], days, now) {
                Some(found) => {
                    let ghost origin = secret_origin(secret_attribute@, secret@);
                    let ghost all = issue_views(found@);
                    let mut k: usize = 0;
                    assert(all.take(0) =~= Seq::<IssueView>::empty());
                    assert(description_views(issues@) =~= described(origin, kept_issues(all.take(0), only_errors)));
                    while k < found.len()
                        invariant
                            all == issue_views(found@),
                            origin == secret_origin(secret_attribute@, secret@),
                            k <= found.len(),
                            description_views(issues@) == described(origin, kept_issues(all.take(k as int), only_errors)),
                        decreases found.len() - k,
                    {
                        assert(all.take(k + 1).drop_last() =~= all.take(k as int));
                        assert(all.take(k + 1).last() == found@[k as int]@);
                        let ghost before = description_views(issues@);
                        let issue = found[k].clone();
                        if !only_errors || issue.severity() == Severity::Error {
                            let origin_value = secret_origin_value(secret_attribute, secret);
                            assert(issue@ == found@[k as int]@);
                            let description = IssueDescription { origin: Some(origin_value), issue };
                            assert(description@.origin == origin);
                            issues.push(description);
                            assert(description_views(issues@) =~= before.push(description_views(issues@).last()));
                            assert(kept_issues(all.take(k + 1), only_errors) == kept_issues(all.take(k as int), only_errors).push(found@[k as int]@));
                            assert(description_views(issues@).last() == (IssueDescriptionView { origin, issue: found@[k as int]@ }));
                            assert(described(origin, kept_issues(all.take(k + 1), only_errors)) =~=
                                described(origin, kept_issues(all.take(k as int), only_errors)).push(description_views(issues@).last()));
                        }
                        k = k + 1;
                    }
                    assert(all.take(found.len() as int) =~= all);
                }
                None => {
                    assert(kept_issues(secret_issue_list(secrets@[j as int], days, now), only_errors) =~= Seq::<IssueView>::empty());
                    assert(description_views(issues@) =~= secret_issues_spec(secret@, days, only_errors, secret_attribute@, secrets@, now));
                }
            }
        }
        None => {
            let origin_value = secret_origin_value(secret_attribute, secret);
            issues.push(IssueDescription { origin: Some(origin_value), issue: Issue::NotFound });
            assert(description_views(issues@) =~= secret_issues_spec(secret@, days, only_errors, secret_attribute@, secrets@, now));
        }
    }
    issues
}

/// Whether the first secret named `secret` holds a certificate, or `None`
/// when there is no such secret.
pub fn secret_is_certificate(secret: &str, secrets: &Vec<SecretWithMetadata>) -> (res: Option<bool>)
    ensures
        res == match find_secret(secrets@, secret@) {
            Some(s) => Some(s.metadata is Certificate),
            None => None,
        },
{
    match position_of_secret(secrets, secret) {
        Some(j) => Some(match &secrets[j].metadata {
            SecretMetadata::Certificate { .. } => true,
            _ => false,
        }),
        None => None,
    }
}

} // verus!

verus! {

impl Clone for IssueOrigin {
    fn clone(&self) -> (res: Self)
        ensures
            res.attribute@ == self.attribute@,
            res.name@ == self.name@,
            res.subject@ == self.subject@,
    {
        IssueOrigin { attribute: self.attribute.clone(), name: self.name.clone(), subject: self.subject.clone() }
    }
}

impl Clone for IssueDescription {
    fn clone(&self) -> (res: Self)
        ensures
            res@ == self@,
    {
        let origin = match &self.origin {
            Some(o) => Some(o.clone()),
            None => None,
        };
        IssueDescription { origin, issue: self.issue.clone() }
    }
}

/// The descriptions whose issues are kept, in order.
pub open spec fn kept_descriptions(ds: Seq<IssueDescriptionView>, only_errors: bool) -> Seq<IssueDescriptionView>
    decreases ds.len(),
{
    if ds.len() == 0 {
        Seq::empty()
    } else {
        let rest = kept_descriptions(ds.drop_last(), only_errors);
        if kept(only_errors, ds.last().issue) {
            rest.push(ds.last())
        } else {
            rest
        }
    }
}

/// The descriptions whose issues are kept.
fn keep_descriptions(ds: &Vec<IssueDescription>, only_errors: bool) -> (res: Vec<IssueDescription>)
    ensures
        description_views(res@) == kept_descriptions(description_views(ds@), only_errors),
{
    let ghost all = description_views(ds@);
    let mut res: Vec<IssueDescription> = Vec::new();
    let mut i: usize = 0;
    assert(all.take(0) =~= Seq::<IssueDescriptionView>::empty());
    while i < ds.len()
        invariant
            all == description_views(ds@),
            i <= ds.len(),
            description_views(res@) == kept_descriptions(all.take(i as int), only_errors),
        decreases ds.len() - i,
    {
        assert(all.take(i + 1).drop_last() =~= all.take(i as int));
        assert(all.take(i + 1).last() == ds@[i as int]@);
        if !only_errors || ds[i].issue.severity() == Severity::Error {
            let ghost before = description_views(res@);
            res.push(ds[i].clone());
            assert(description_views(res@) =~= before.push(ds@[i as int]@));
        }
        i = i + 1;
    }
    assert(all.take(ds.len() as int) =~= all);
    res
}

/// Whether one of the descriptions is about an expiry that has passed.
pub open spec fn any_expired(ds: Seq<IssueDescriptionView>) -> bool {
    exists|i: int| 0 <= i < ds.len() && (#[trigger] ds[i]).issue is Expired
}

/// Whether one of the descriptions is about a validity that has not started.
pub open spec fn any_before(ds: Seq<IssueDescriptionView>) -> bool {
    exists|i: int| 0 <= i < ds.len() && (#[trigger] ds[i]).issue is Before
}

/// The description of an optional issue of the certificate itself, when it is kept.
pub open spec fn own_issue(issue: Option<IssueView>, only_errors: bool) -> Seq<IssueDescriptionView> {
    match issue {
        Some(i) => if kept(only_errors, i) { seq![IssueDescriptionView { origin: None, issue: i }] } else { Seq::empty() },
        None => Seq::empty(),
    }
}

/// The issues found for the secrets that a deployed certificate refers to,
/// and for its own validity period.
pub open spec fn actual_certificate_issues(
    a: ActualCertificate,
    secrets: Seq<SecretWithMetadata>,
    days: Option<u64>,
    only_errors: bool,
    now: i64,
) -> Seq<IssueDescriptionView> {
    let chain = secret_issues_spec(a.cert_chain_secret@, days, only_errors, "cert chain"@, secrets, now);
    let expiry = if any_expired(chain) { Seq::empty() } else { own_issue(expiry_issue(a.not_after, days, now), only_errors) };
    let before = if any_before(chain) { Seq::empty() } else { own_issue(before_issue(a.not_before, now), only_errors) };
    let chain_checked = chain_checked_issues(chain, a, secrets);
    let key = secret_issues_spec(a.key_secret@, days, only_errors, "key"@, secrets, now);
    let passphrase = match a.passphrase_secret {
        Some(p) => secret_issues_spec(p@, days, only_errors, "passphrase"@, secrets, now),
        None => Seq::empty(),
    };
    expiry + before + chain_checked + key + passphrase
}

/// All issues of a certificate, given its status (`None` when the status could
/// not be obtained), the secrets, the warning period in days and the moment
/// `now`; with `only_errors` only the errors.
pub open spec fn certificate_issue_list(
    status: Option<CertificateStatus>,
    secrets: Seq<SecretWithMetadata>,
    days: Option<u64>,
    only_errors: bool,
    now: i64,
) -> Seq<IssueDescriptionView> {
    match status {
        None => seq![IssueDescriptionView {
            origin: None,
            issue: IssueView::Unexpected { message: "could not get certificate status"@ },
        }],
        Some(cs) => {
            let provisioning = if cs.status.provisioned { Seq::empty() } else { seq![IssueDescriptionView { origin: None, issue: IssueView::NotProvisioned }] };
            let notified = described(None, notification_issues(notification_views(cs.status.notifications@)));
            let from_actual = match cs.actual {
                Some(a) => actual_certificate_issues(a, secrets, days, only_errors, now),
                None => Seq::empty(),
            };
            kept_descriptions(provisioning + notified + from_actual, only_errors)
        },
    }
}

/// Whether one of the descriptions is about an expiry that has passed.
fn has_expired(ds: &Vec<IssueDescription>) -> (b: bool)
    ensures
        b == any_expired(description_views(ds@)),
{
    let mut i: usize = 0;
    while i < ds.len()
        invariant
            i <= ds.len(),
            forall|k: int| 0 <= k < i ==> !(description_views(ds@)[k].issue is Expired),
        decreases ds.len() - i,
    {
        if let Issue::Expired { .. } = ds[i].issue {
            assert(description_views(ds@)[i as int].issue is Expired);
            return true;
        }
        i = i + 1;
    }
    false
}

/// Whether one of the descriptions is about a validity that has not started.
fn has_before(ds: &Vec<IssueDescription>) -> (b: bool)
    ensures
        b == any_before(description_views(ds@)),
{
    let mut i: usize = 0;
    while i < ds.len()
        invariant
            i <= ds.len(),
            forall|k: int| 0 <= k < i ==> !(description_views(ds@)[k].issue is Before),
        decreases ds.len() - i,
    {
        if let Issue::Before { .. } = ds[i].issue {
            assert(description_views(ds@)[i as int].issue is Before);
            return true;
        }
        i = i + 1;
    }
    false
}

/// Appends the kept issue of the certificate itself, if any.
fn push_own_issue(issues: &mut Vec<IssueDescription>, issue: Option<Issue>, only_errors: bool)
    ensures
        description_views(final(issues)@) == description_views(old(issues)@) + own_issue(crate::issues::option_issue_view(issue), only_errors),
{
    match issue {
        Some(i) => {
            if !only_errors || i.severity() == Severity::Error {
                let ghost before = description_views(issues@);
                issues.push(IssueDescription { origin: None, issue: i });
                assert(description_views(issues@) =~= before + own_issue(crate::issues::option_issue_view(issue), only_errors));
            } else {
                assert(description_views(issues@) =~= description_views(issues@) + Seq::<IssueDescriptionView>::empty());
            }
        }
        None => {
            assert(description_views(issues@) =~= description_views(issues@) + Seq::<IssueDescriptionView>::empty());
        }
    }
}

/// Appends the descriptions of `more` to `issues`.
fn append_descriptions(issues: &mut Vec<IssueDescription>, more: Vec<IssueDescription>)
    ensures
        description_views(final(issues)@) == description_views(old(issues)@) + description_views(more@),
{
    let mut more = more;
    let ghost a = issues@;
    let ghost b = more@;
    issues.append(&mut more);
    assert(issues@ =~= a + b);
    assert(description_views(issues@) =~= description_views(a) + description_views(b));
}

/// The issue that the chain secret of a certificate raises when it does not hold a certificate.
pub open spec fn chain_checked_issues(chain: Seq<IssueDescriptionView>, a: ActualCertificate, secrets: Seq<SecretWithMetadata>) -> Seq<IssueDescriptionView> {
    match find_secret(secrets, a.cert_chain_secret@) {
        Some(s) => if s.metadata is Certificate {
            chain
        } else {
            chain.push(IssueDescriptionView {
                origin: secret_origin("cert chain"@, a.cert_chain_secret@),
                issue: IssueView::Misconfiguration { explanation: Seq::empty() },
            })
        },
        None => chain,
    }
}

/// Appends the issues of a deployed certificate and the secrets it refers to.
#[verifier::rlimit(40)]
fn push_actual_certificate_issues(
    issues: &mut Vec<IssueDescription>,
    actual: &ActualCertificate,
    secrets: &Vec<SecretWithMetadata>,
    days: Option<u64>,
    only_errors: bool,
    now: i64,
)
    ensures
        description_views(final(issues)@) == description_views(old(issues)@)
            + actual_certificate_issues(*actual, secrets@, days, only_errors, now),
{
    let ghost base = description_views(issues@);
    let mut chain = secret_issues(actual.cert_chain_secret.as_str(), days, only_errors, "cert chain", secrets, now);
    let ghost chain_spec = description_views(chain@);
    let ghost expiry = if any_expired(chain_spec) { Seq::empty() } else { own_issue(expiry_issue(actual.not_after, days, now), only_errors) };
    let ghost before = if any_before(chain_spec) { Seq::empty() } else { own_issue(before_issue(actual.not_before, now), only_errors) };
    if !has_expired(&chain) {
        push_own_issue(issues, Issue::timestamp_expired(actual.not_after, days, now), only_errors);
    } else {
        assert(description_views(issues@) =~= base + Seq::<IssueDescriptionView>::empty());
    }
    assert(description_views(issues@) == base + expiry);
    if !has_before(&chain) {
        push_own_issue(issues, Issue::timestamp_before(actual.not_before, now), only_errors);
    } else {
        assert(description_views(issues@) =~= base + expiry + Seq::<IssueDescriptionView>::empty());
    }
    assert(description_views(issues@) == base + expiry + before);
    match secret_is_certificate(actual.cert_chain_secret.as_str(), secrets) {
        Some(false) => {
            let origin = secret_origin_value("cert chain", actual.cert_chain_secret.as_str());
            chain.push(IssueDescription {
                origin: Some(origin),
                issue: Issue::Misconfiguration { explanation: String::new() },
            });
            assert(description_views(chain@) =~= chain_checked_issues(chain_spec, *actual, secrets@));
        }
        _ => {
            assert(description_views(chain@) =~= chain_checked_issues(chain_spec, *actual, secrets@));
        }
    }
    let ghost checked = description_views(chain@);
    append_descriptions(issues, chain);
    let key = secret_issues(actual.key_secret.as_str(), days, only_errors, "key", secrets, now);
    let ghost key_spec = description_views(key@);
    append_descriptions(issues, key);
    let ghost passphrase = match &actual.passphrase_secret {
        Some(p) => secret_issues_spec(p@, days, only_errors, "passphrase"@, secrets@, now),
        None => Seq::<IssueDescriptionView>::empty(),
    };
    let ghost so_far = description_views(issues@);
    match &actual.passphrase_secret {
        Some(p) => {
            append_descriptions(issues, secret_issues(p.as_str(), days, only_errors, "passphrase", secrets, now));
        }
        None => {
            assert(description_views(issues@) =~= so_far + passphrase);
        }
    }
    assert(description_views(issues@) == base + expiry + before + checked + key_spec + passphrase);
    assert(actual_certificate_issues(*actual, secrets@, days, only_errors, now) == expiry + before + checked + key_spec + passphrase);
    assert(description_views(issues@) =~= base + (expiry + before + checked + key_spec + passphrase));
}

/// The issues raised by the allocation status of a certificate.
fn status_issues(status: &AllocationStatus) -> (issues: Vec<IssueDescription>)
    ensures
        description_views(issues@) == (if status.provisioned {
            Seq::<IssueDescriptionView>::empty()
        } else {
            seq![IssueDescriptionView { origin: None, issue: IssueView::NotProvisioned }]
        }) + described(None, notification_issues(notification_views(status.notifications@))),
{
    let mut issues: Vec<IssueDescription> = Vec::new();
    if !status.provisioned {
        issues.push(IssueDescription { origin: None, issue: Issue::NotProvisioned });
    }
    let ghost provisioning = description_views(issues@);
    let mut notification_list: Vec<Issue> = Vec::new();
    push_notification_issues(&mut notification_list, &status.notifications);
    let mut n: usize = 0;
    let ghost notes = issue_views(notification_list@);
    assert(notes =~= notification_issues(notification_views(status.notifications@)));
    assert(description_views(issues@) =~= provisioning + described(None, notes.take(0)));
    while n < notification_list.len()
        invariant
            notes == issue_views(notification_list@),
            n <= notification_list.len(),
            description_views(issues@) == provisioning + described(None, notes.take(n as int)),
        decreases notification_list.len() - n,
    {
        let ghost before = description_views(issues@);
        issues.push(IssueDescription { origin: None, issue: notification_list[n].clone() });
        assert(described(None, notes.take(n + 1)) =~= described(None, notes.take(n as int)).push(description_views(issues@).last()));
        assert(description_views(issues@) =~= before.push(description_views(issues@).last()));
        n = n + 1;
    }
    assert(notes.take(notification_list.len() as int) =~= notes);
    issues
}

/// Checks a certificate for issues, given its status (`None` when it could
/// not be obtained), all secrets, the number of days ahead in which expiry is
/// warned for and the moment `now`; with `only_errors` only the errors are
/// returned. `Some` holds the issues found (at least one), `None` means there
/// are none.
pub fn has_issues(
    certificate_status: Option<&CertificateStatus>,
    secrets: &Vec<SecretWithMetadata>,
    days: Option<u64>,
    only_errors: bool,
    now: i64,
) -> (res: Option<Vec<IssueDescription>>)
    ensures
        ({
            let list = certificate_issue_list(
                match certificate_status { Some(s) => Some(*s), None => None },
                secrets@,
                days,
                only_errors,
                now,
            );
            &&& res is None <==> list.len() == 0
            &&& res is Some ==> description_views(res->0@) == list
        }),
{
    let certificate_status = match certificate_status {
        Some(s) => s,
        None => {
            let mut v: Vec<IssueDescription> = Vec::new();
            v.push(IssueDescription {
                origin: None,
                issue: Issue::Unexpected { message: String::from_str("could not get certificate status") },
            });
            assert(description_views(v@) =~= certificate_issue_list(None, secrets@, days, only_errors, now));
            return Some(v);
        }
    };
    let mut issues = status_issues(&certificate_status.status);
    let ghost base = description_views(issues@);
    match &certificate_status.actual {
        Some(actual) => {
            push_actual_certificate_issues(&mut issues, actual, secrets, days, only_errors, now);
        }
        None => {
            assert(description_views(issues@) =~= base + Seq::<IssueDescriptionView>::empty());
        }
    }
    let result = keep_descriptions(&issues, only_errors);
    if result.len() == 0 {
        None
    } else {
        Some(result)
    }
}


/// Every kept description is one of the given ones and passes the filter
/// (so it is an error when only errors are asked for); without the filter
/// all descriptions are kept.
pub proof fn lemma_kept_descriptions(ds: Seq<IssueDescriptionView>, only_errors: bool)
    ensures
        forall|i: int| 0 <= i < kept_descriptions(ds, only_errors).len() ==>
            kept(only_errors, (#[trigger] kept_descriptions(ds, only_errors)[i]).issue)
            && ds.contains(kept_descriptions(ds, only_errors)[i]),
        !only_errors ==> kept_descriptions(ds, only_errors) == ds,
    decreases ds.len(),
{
    if ds.len() > 0 {
        let front = ds.drop_last();
        lemma_kept_descriptions(front, only_errors);
        let rest = kept_descriptions(front, only_errors);
        assert forall|i: int| 0 <= i < kept_descriptions(ds, only_errors).len() implies
            kept(only_errors, (#[trigger] kept_descriptions(ds, only_errors)[i]).issue)
            && ds.contains(kept_descriptions(ds, only_errors)[i]) by {
            if i < rest.len() {
                assert(kept_descriptions(ds, only_errors)[i] == rest[i]);
                assert(front.contains(rest[i]));
                let k = choose|k: int| 0 <= k < front.len() && front[k] == rest[i];
                assert(ds[k] == rest[i]);
            } else {
                assert(ds[ds.len() - 1] == ds.last());
            }
        }
        if !only_errors {
            assert(ds =~= front.push(ds.last()));
        }
    } else {
        assert(ds =~= Seq::<IssueDescriptionView>::empty());
    }
}

/// When only errors are asked for, every issue found in a certificate is an error.
pub proof fn lemma_only_errors(status: Option<CertificateStatus>, secrets: Seq<SecretWithMetadata>, days: Option<u64>, now: i64)
    ensures
        forall|i: int| 0 <= i < certificate_issue_list(status, secrets, days, true, now).len() ==>
            severity_of((#[trigger] certificate_issue_list(status, secrets, days, true, now)[i]).issue) == Severity::Error,
{
    match status {
        None => {}
        Some(cs) => {
            let provisioning = if cs.status.provisioned { Seq::empty() } else { seq![IssueDescriptionView { origin: None, issue: IssueView::NotProvisioned }] };
            let notified = described(None, notification_issues(notification_views(cs.status.notifications@)));
            let from_actual = match cs.actual {
                Some(a) => actual_certificate_issues(a, secrets, days, true, now),
                None => Seq::empty(),
            };
            lemma_kept_descriptions(provisioning + notified + from_actual, true);
        }
    }
}

/// The issues per certificate, in the order of the identifiers, of the
/// certificates that have issues.
pub open spec fn listed_certificate_issues(
    ids: Seq<String>,
    statuses: Seq<Option<CertificateStatus>>,
    secrets: Seq<SecretWithMetadata>,
    days: Option<u64>,
    only_errors: bool,
    now: i64,
) -> Seq<(Seq<char>, Seq<IssueDescriptionView>)>
    decreases ids.len(),
{
    if ids.len() == 0 {
        Seq::empty()
    } else {
        let n = ids.len() - 1;
        let list = certificate_issue_list(statuses[n], secrets, days, only_errors, now);
        listed_certificate_issues(ids.drop_last(), statuses, secrets, days, only_errors, now)
            + if list.len() == 0 { Seq::empty() } else { seq![(ids[n]@, list)] }
    }
}

/// The issues per certificate, for the certificates that have issues, given
/// the status of each certificate (`None` when it could not be obtained);
/// identifiers beyond the statuses given are left out.
pub fn certificates_with_issues(
    certificate_ids: &Vec<String>,
    statuses: &Vec<Option<CertificateStatus>>,
    secrets: &Vec<SecretWithMetadata>,
    days: Option<u64>,
    only_errors: bool,
    now: i64,
) -> (res: Vec<(String, Vec<IssueDescription>)>)
    ensures
        res@.map_values(|r: (String, Vec<IssueDescription>)| (r.0@, description_views(r.1@)))
            == listed_certificate_issues(
                certificate_ids@.take(if certificate_ids.len() < statuses.len() { certificate_ids.len() as int } else { statuses.len() as int }),
                statuses@, secrets@, days, only_errors, now),
{
    let n: usize = if certificate_ids.len() < statuses.len() { certificate_ids.len() } else { statuses.len() };
    let mut res: Vec<(String, Vec<IssueDescription>)> = Vec::new();
    let mut i: usize = 0;
    assert(certificate_ids@.take(0) =~= Seq::<String>::empty());
    while i < n
        invariant
            i <= n,
            n <= certificate_ids.len(),
            n <= statuses.len(),
            res@.map_values(|r: (String, Vec<IssueDescription>)| (r.0@, description_views(r.1@)))
                == listed_certificate_issues(certificate_ids@.take(i as int), statuses@, secrets@, days, only_errors, now),
        decreases n - i,
    {
        let ghost before = res@.map_values(|r: (String, Vec<IssueDescription>)| (r.0@, description_views(r.1@)));
        assert(certificate_ids@.take(i + 1).drop_last() =~= certificate_ids@.take(i as int));
        let status = match &statuses[i] {
            Some(s) => Some(s),
            None => None,
        };
        match has_issues(status, secrets, days, only_errors, now) {
            Some(issues) => {
                res.push((certificate_ids[i].clone(), issues));
                assert(res@.map_values(|r: (String, Vec<IssueDescription>)| (r.0@, description_views(r.1@)))
                    =~= before + seq![(certificate_ids@[i as int]@, certificate_issue_list(statuses@[i as int], secrets@, days, only_errors, now))]);
            }
            None => {
                assert(before =~= before + Seq::<(Seq<char>, Seq<IssueDescriptionView>)>::empty());
            }
        }
        i = i + 1;
    }
    res
}

} // verus!
