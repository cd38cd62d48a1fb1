//! Kafka proxy ACL groups: which streams a group may read and write, and how
//! access is granted and revoked.
use vstd::prelude::*;
use crate::text::{lex_le, str_equal, str_less_eq, bool_text};
use crate::value::{Value, ValueView};

verus! {

/// The kind of stream that an ACL group refers to.
#[derive(Debug, PartialEq, Eq, Structural, Clone, Copy)]
pub enum KafkaAclGroupTopicKind {
    Internal,
    Public,
    Topic,
}

impl KafkaAclGroupTopicKind {
    /// The kind as it is displayed.
    pub open spec fn text(self) -> Seq<char> {
        match self {
            KafkaAclGroupTopicKind::Internal => "internal"@,
            KafkaAclGroupTopicKind::Public => "public"@,
            KafkaAclGroupTopicKind::Topic => "topic"@,
        }
    }

    /// The kind as it is displayed.
    pub fn as_str(&self) -> (s: &'static str)
        ensures
            s@ == self.text(),
    {
        match self {
            KafkaAclGroupTopicKind::Internal => "internal",
            KafkaAclGroupTopicKind::Public => "public",
            KafkaAclGroupTopicKind::Topic => "topic",
        }
    }
}

/// A stream that an ACL group refers to.
#[derive(Debug, PartialEq)]
pub struct KafkaAclGroupTopic {
    pub kind: KafkaAclGroupTopicKind,
    pub name: String,
}

impl View for KafkaAclGroupTopic {
    type V = (Seq<char>, KafkaAclGroupTopicKind);

    open spec fn view(&self) -> (Seq<char>, KafkaAclGroupTopicKind) {
        (self.name@, self.kind)
    }
}

impl Clone for KafkaAclGroupTopic {
    fn clone(&self) -> (res: Self)
        ensures
            res@ == self@,
    {
        KafkaAclGroupTopic { kind: self.kind, name: self.name.clone() }
    }
}

impl KafkaAclGroupTopic {
    /// A stream of the given kind and name.
    pub fn new(kind: KafkaAclGroupTopicKind, name: &str) -> (t: Self)
        ensures
            t@ == (name@, kind),
    {
        KafkaAclGroupTopic { kind, name: String::from_str(name) }
    }
}

/// Views of a list of streams.
pub open spec fn topic_views(v: Seq<KafkaAclGroupTopic>) -> Seq<(Seq<char>, KafkaAclGroupTopicKind)> {
    v.map_values(|t: KafkaAclGroupTopic| t@)
}

/// Whether two streams are the same.
pub fn topic_equal(a: &KafkaAclGroupTopic, b: &KafkaAclGroupTopic) -> (res: bool)
    ensures
        res == (a@ == b@),
{
    a.kind == b.kind && str_equal(a.name.as_str(), b.name.as_str())
}

/// Whether `topics` holds the stream `t`.
pub fn topics_contain(topics: &Vec<KafkaAclGroupTopic>, t: &KafkaAclGroupTopic) -> (res: bool)
    ensures
        res == topic_views(topics@).contains(t@),
{
    let mut i: usize = 0;
    while i < topics.len()
        invariant
            i <= topics.len(),
            forall|k: int| 0 <= k < i ==> topic_views(topics@)[k] != t@,
        decreases topics.len() - i,
    {
        if topic_equal(&topics[i], t) {
            assert(topic_views(topics@)[i as int] == t@);
            return true;
        }
        i = i + 1;
    }
    false
}

/// The streams of the given kind with the given names, in order.
pub open spec fn topics_of_kind(kind: KafkaAclGroupTopicKind, names: Seq<Seq<char>>) -> Seq<(Seq<char>, KafkaAclGroupTopicKind)> {
    names.map_values(|n: Seq<char>| (n, kind))
}

/// Appends a stream of `kind` for every name.
fn push_topics(topics: &mut Vec<KafkaAclGroupTopic>, kind: KafkaAclGroupTopicKind, names: &Vec<String>)
    ensures
        topic_views(final(topics)@) == topic_views(old(topics)@) + topics_of_kind(kind, crate::text::views(names@)),
{
    let ghost start = topic_views(topics@);
    let mut i: usize = 0;
    while i < names.len()
        invariant
            i <= names.len(),
            topic_views(topics@) == start + topics_of_kind(kind, crate::text::views(names@)).take(i as int),
        decreases names.len() - i,
    {
        let ghost before = topic_views(topics@);
        topics.push(KafkaAclGroupTopic::new(kind, names[i].as_str()));
        assert(topic_views(topics@) =~= before.push((names@[i as int]@, kind)));
        assert(topics_of_kind(kind, crate::text::views(names@)).take(i + 1)
            =~= topics_of_kind(kind, crate::text::views(names@)).take(i as int).push((names@[i as int]@, kind)));
        i = i + 1;
    }
    assert(topics_of_kind(kind, crate::text::views(names@)).take(names.len() as int)
        =~= topics_of_kind(kind, crate::text::views(names@)));
}

/// The readable and writable streams that the stream options name: internal,
/// then public, then other topics, each in the order given.
pub fn get_kafka_acl_group_topic_options(
    read_internal: &Vec<String>,
    read_public: &Vec<String>,
    read_topic: &Vec<String>,
    write_internal: &Vec<String>,
    write_public: &Vec<String>,
    write_topic: &Vec<String>,
) -> (res: (Vec<KafkaAclGroupTopic>, Vec<KafkaAclGroupTopic>))
    ensures
        topic_views(res.0@) == topics_of_kind(KafkaAclGroupTopicKind::Internal, crate::text::views(read_internal@))
            + topics_of_kind(KafkaAclGroupTopicKind::Public, crate::text::views(read_public@))
            + topics_of_kind(KafkaAclGroupTopicKind::Topic, crate::text::views(read_topic@)),
        topic_views(res.1@) == topics_of_kind(KafkaAclGroupTopicKind::Internal, crate::text::views(write_internal@))
            + topics_of_kind(KafkaAclGroupTopicKind::Public, crate::text::views(write_public@))
            + topics_of_kind(KafkaAclGroupTopicKind::Topic, crate::text::views(write_topic@)),
{
    let mut readable: Vec<KafkaAclGroupTopic> = Vec::new();
    assert(topic_views(readable@) =~= Seq::<(Seq<char>, KafkaAclGroupTopicKind)>::empty());
    push_topics(&mut readable, KafkaAclGroupTopicKind::Internal, read_internal);
    push_topics(&mut readable, KafkaAclGroupTopicKind::Public, read_public);
    push_topics(&mut readable, KafkaAclGroupTopicKind::Topic, read_topic);
    let mut writable: Vec<KafkaAclGroupTopic> = Vec::new();
    assert(topic_views(writable@) =~= Seq::<(Seq<char>, KafkaAclGroupTopicKind)>::empty());
    push_topics(&mut writable, KafkaAclGroupTopicKind::Internal, write_internal);
    push_topics(&mut writable, KafkaAclGroupTopicKind::Public, write_public);
    push_topics(&mut writable, KafkaAclGroupTopicKind::Topic, write_topic);
    (readable, writable)
}

} // verus!

verus! {

/// Read and write access of an ACL group to one stream.
#[derive(Debug, PartialEq)]
pub struct StreamAccess {
    pub name: String,
    pub kind: KafkaAclGroupTopicKind,
    pub readable: bool,
    pub writable: bool,
}

impl View for StreamAccess {
    type V = (Seq<char>, KafkaAclGroupTopicKind, bool, bool);

    open spec fn view(&self) -> (Seq<char>, KafkaAclGroupTopicKind, bool, bool) {
        (self.name@, self.kind, self.readable, self.writable)
    }
}

/// Views of a list of stream accesses.
pub open spec fn access_views(v: Seq<StreamAccess>) -> Seq<(Seq<char>, KafkaAclGroupTopicKind, bool, bool)> {
    v.map_values(|a: StreamAccess| a@)
}

/// The stream that an access is about.
pub open spec fn access_key(a: (Seq<char>, KafkaAclGroupTopicKind, bool, bool)) -> (Seq<char>, KafkaAclGroupTopicKind) {
    (a.0, a.1)
}

/// `es` lists the accesses that the readable and writable streams give: one
/// entry per stream, ordered by stream name.
pub open spec fn streams_of(
    es: Seq<(Seq<char>, KafkaAclGroupTopicKind, bool, bool)>,
    readable: Seq<(Seq<char>, KafkaAclGroupTopicKind)>,
    writable: Seq<(Seq<char>, KafkaAclGroupTopicKind)>,
) -> bool {
    &&& forall|i: int, j: int| 0 <= i < j < es.len() ==> lex_le((#[trigger] es[i]).0, (#[trigger] es[j]).0)
    &&& forall|i: int, j: int| 0 <= i < j < es.len() ==> access_key(#[trigger] es[i]) != access_key(#[trigger] es[j])
    &&& forall|i: int| 0 <= i < es.len() ==> {
        &&& (#[trigger] es[i]).2 == readable.contains(access_key(es[i]))
        &&& es[i].3 == writable.contains(access_key(es[i]))
        &&& (es[i].2 || es[i].3)
    }
    &&& forall|k: (Seq<char>, KafkaAclGroupTopicKind)|
        #![trigger readable.contains(k)]
        #![trigger writable.contains(k)]
        readable.contains(k) || writable.contains(k)
        ==> exists|i: int| 0 <= i < es.len() && access_key(#[trigger] es[i]) == k
}

/// Position of the access to stream `t`, if any.
fn position_of_access(entries: &Vec<StreamAccess>, t: &KafkaAclGroupTopic) -> (res: Option<usize>)
    ensures
        match res {
            Some(j) => j < entries.len() && access_key(entries@[j as int]@) == t@,
            None => forall|j: int| 0 <= j < entries.len() ==> access_key((#[trigger] entries@[j])@) != t@,
        },
{
    let mut j: usize = 0;
    while j < entries.len()
        invariant
            j <= entries.len(),
            forall|k: int| 0 <= k < j ==> access_key((#[trigger] entries@[k])@) != t@,
        decreases entries.len() - j,
    {
        if entries[j].kind == t.kind && str_equal(entries[j].name.as_str(), t.name.as_str()) {
            return Some(j);
        }
        j = j + 1;
    }
    None
}

/// Position of the first access whose stream name comes after `name`.
fn insertion_point(entries: &Vec<StreamAccess>, name: &str) -> (p: usize)
    ensures
        p <= entries.len(),
        forall|i: int| 0 <= i < p ==> lex_le((#[trigger] entries@[i])@.0, name@),
        p < entries.len() ==> !lex_le(entries@[p as int]@.0, name@),
{
    let mut p: usize = 0;
    while p < entries.len()
        invariant
            p <= entries.len(),
            forall|i: int| 0 <= i < p ==> lex_le((#[trigger] entries@[i])@.0, name@),
        decreases entries.len() - p,
    {
        if !str_less_eq(entries[p].name.as_str(), name) {
            return p;
        }
        p = p + 1;
    }
    p
}

/// Records read (`read`) or write (`!read`) access to stream `t`.
fn record_access(
    entries: &mut Vec<StreamAccess>,
    t: &KafkaAclGroupTopic,
    read: bool,
    Ghost(readable): Ghost<Seq<(Seq<char>, KafkaAclGroupTopicKind)>>,
    Ghost(writable): Ghost<Seq<(Seq<char>, KafkaAclGroupTopicKind)>>,
)
    requires
        streams_of(access_views(old(entries)@), readable, writable),
    ensures
        streams_of(
            access_views(final(entries)@),
            if read { readable.push(t@) } else { readable },
            if read { writable } else { writable.push(t@) },
        ),
{
    let ghost r2 = if read { readable.push(t@) } else { readable };
    let ghost w2 = if read { writable } else { writable.push(t@) };
    let ghost old_es = access_views(entries@);
    assert forall|k: (Seq<char>, KafkaAclGroupTopicKind)| #[trigger] r2.contains(k) <==> readable.contains(k) || (read && k == t@) by {
        if read {
            if r2.contains(k) && k != t@ {
                let i = choose|i: int| 0 <= i < r2.len() && r2[i] == k;
                assert(readable[i] == k);
            }
            if k == t@ {
                assert(r2[readable.len() as int] == k);
            }
            if readable.contains(k) {
                let i = choose|i: int| 0 <= i < readable.len() && readable[i] == k;
                assert(r2[i] == k);
            }
        }
    }
    assert forall|k: (Seq<char>, KafkaAclGroupTopicKind)| #[trigger] w2.contains(k) <==> writable.contains(k) || (!read && k == t@) by {
        if !read {
            if w2.contains(k) && k != t@ {
                let i = choose|i: int| 0 <= i < w2.len() && w2[i] == k;
                assert(writable[i] == k);
            }
            if k == t@ {
                assert(w2[writable.len() as int] == k);
            }
            if writable.contains(k) {
                let i = choose|i: int| 0 <= i < writable.len() && writable[i] == k;
                assert(w2[i] == k);
            }
        }
    }
    match position_of_access(entries, t) {
        Some(j) => {
            let e = StreamAccess {
                name: entries[j].name.clone(),
                kind: entries[j].kind,
                readable: entries[j].readable || read,
                writable: entries[j].writable || !read,
            };
            assert(old_es[j as int] == old(entries)@[j as int]@);
            entries.set(j, e);
            let ghost es = access_views(entries@);
            assert(es =~= old_es.update(j as int, e@));
            assert forall|i: int| 0 <= i < es.len() implies {
                &&& (#[trigger] es[i]).2 == r2.contains(access_key(es[i]))
                &&& es[i].3 == w2.contains(access_key(es[i]))
                &&& (es[i].2 || es[i].3)
            } by {
                if i != j {
                    assert(es[i] == old_es[i]);
                    assert(access_key(old_es[i]) != access_key(old_es[j as int]));
                }
            }
            assert forall|k: (Seq<char>, KafkaAclGroupTopicKind)|
                #![trigger r2.contains(k)]
                #![trigger w2.contains(k)]
                r2.contains(k) || w2.contains(k)
                implies exists|i: int| 0 <= i < es.len() && access_key(#[trigger] es[i]) == k by {
                if k == t@ {
                    assert(access_key(es[j as int]) == k);
                } else {
                    let i = choose|i: int| 0 <= i < old_es.len() && access_key(#[trigger] old_es[i]) == k;
                    assert(access_key(es[i]) == k);
                }
            }
            assert forall|a: int, b: int| 0 <= a < b < es.len() implies lex_le((#[trigger] es[a]).0, (#[trigger] es[b]).0) by {
                assert(es[a].0 == old_es[a].0 && es[b].0 == old_es[b].0);
            }
            assert forall|a: int, b: int| 0 <= a < b < es.len() implies access_key(#[trigger] es[a]) != access_key(#[trigger] es[b]) by {
                assert(access_key(es[a]) == access_key(old_es[a]) && access_key(es[b]) == access_key(old_es[b]));
            }
        }
        None => {
            let p = insertion_point(entries, t.name.as_str());
            let e = StreamAccess { name: t.name.clone(), kind: t.kind, readable: read, writable: !read };
            entries.insert(p, e);
            let ghost es = access_views(entries@);
            assert(es =~= old_es.insert(p as int, e@));
            assert(!readable.contains(t@) && !writable.contains(t@)) by {
                if readable.contains(t@) || writable.contains(t@) {
                    let i = choose|i: int| 0 <= i < old_es.len() && access_key(#[trigger] old_es[i]) == t@;
                    assert(old_es[i] == old(entries)@[i]@);
                }
            }
            assert forall|i: int| 0 <= i < es.len() implies {
                &&& (#[trigger] es[i]).2 == r2.contains(access_key(es[i]))
                &&& es[i].3 == w2.contains(access_key(es[i]))
                &&& (es[i].2 || es[i].3)
            } by {
                if i < p {
                    assert(es[i] == old_es[i]);
                    assert(access_key(old_es[i]) != t@);
                } else if i > p {
                    assert(es[i] == old_es[i - 1]);
                    assert(access_key(old_es[i - 1]) != t@);
                }
            }
            assert forall|k: (Seq<char>, KafkaAclGroupTopicKind)|
                #![trigger r2.contains(k)]
                #![trigger w2.contains(k)]
                r2.contains(k) || w2.contains(k)
                implies exists|i: int| 0 <= i < es.len() && access_key(#[trigger] es[i]) == k by {
                if k == t@ {
                    assert(access_key(es[p as int]) == k);
                } else {
                    let i = choose|i: int| 0 <= i < old_es.len() && access_key(#[trigger] old_es[i]) == k;
                    if i < p {
                        assert(access_key(es[i]) == k);
                    } else {
                        assert(access_key(es[i + 1]) == k);
                    }
                }
            }
            assert forall|a: int, b: int| 0 <= a < b < es.len() implies access_key(#[trigger] es[a]) != access_key(#[trigger] es[b]) by {
                if a == p {
                    assert(es[b] == old_es[b - 1]);
                } else if b == p {
                    assert(es[a] == old_es[a]);
                } else {
                    let oa = if a < p { a } else { a - 1 };
                    let ob = if b < p { b } else { b - 1 };
                    assert(es[a] == old_es[oa] && es[b] == old_es[ob]);
                }
            }
            assert forall|a: int, b: int| 0 <= a < b < es.len() implies lex_le((#[trigger] es[a]).0, (#[trigger] es[b]).0) by {
                if a == p {
                    assert(es[b] == old_es[b - 1]);
                    assert(entries@[b]@ == old_es[b - 1]);
                    assert(!lex_le(old_es[p as int].0, t@.0)) by {
                        assert(old(entries)@[p as int]@ == old_es[p as int]);
                    }
                    crate::text::lemma_lex_total(old_es[p as int].0, t@.0);
                    if b - 1 > p {
                        crate::text::lemma_lex_transitive(t@.0, old_es[p as int].0, old_es[b - 1].0);
                    }
                } else if b == p {
                    assert(es[a] == old_es[a]);
                    assert(old(entries)@[a]@ == old_es[a]);
                } else {
                    let oa = if a < p { a } else { a - 1 };
                    let ob = if b < p { b } else { b - 1 };
                    assert(es[a] == old_es[oa] && es[b] == old_es[ob]);
                }
            }
        }
    }
}


/// The streams that the readable and writable streams of an ACL group name,
/// one entry per stream with its read and write flag, ordered by stream name.
pub fn get_streams(readable_streams: &Vec<KafkaAclGroupTopic>, writable_streams: &Vec<KafkaAclGroupTopic>) -> (res: Vec<StreamAccess>)
    ensures
        streams_of(access_views(res@), topic_views(readable_streams@), topic_views(writable_streams@)),
{
    let mut entries: Vec<StreamAccess> = Vec::new();
    let ghost none = Seq::<(Seq<char>, KafkaAclGroupTopicKind)>::empty();
    assert(access_views(entries@) =~= Seq::<(Seq<char>, KafkaAclGroupTopicKind, bool, bool)>::empty());
    let mut i: usize = 0;
    while i < readable_streams.len()
        invariant
            i <= readable_streams.len(),
            streams_of(access_views(entries@), topic_views(readable_streams@).take(i as int), none),
            none == Seq::<(Seq<char>, KafkaAclGroupTopicKind)>::empty(),
        decreases readable_streams.len() - i,
    {
        record_access(&mut entries, &readable_streams[i], true, Ghost(topic_views(readable_streams@).take(i as int)), Ghost(none));
        assert(topic_views(readable_streams@).take(i as int).push(readable_streams@[i as int]@)
            =~= topic_views(readable_streams@).take(i + 1));
        i = i + 1;
    }
    assert(topic_views(readable_streams@).take(readable_streams.len() as int) =~= topic_views(readable_streams@));
    let mut k: usize = 0;
    while k < writable_streams.len()
        invariant
            k <= writable_streams.len(),
            streams_of(access_views(entries@), topic_views(readable_streams@), topic_views(writable_streams@).take(k as int)),
        decreases writable_streams.len() - k,
    {
        record_access(&mut entries, &writable_streams[k], false, Ghost(topic_views(readable_streams@)), Ghost(topic_views(writable_streams@).take(k as int)));
        assert(topic_views(writable_streams@).take(k as int).push(writable_streams@[k as int]@)
            =~= topic_views(writable_streams@).take(k + 1));
        k = k + 1;
    }
    assert(topic_views(writable_streams@).take(writable_streams.len() as int) =~= topic_views(writable_streams@));
    entries
}


/// The streams after each option was granted in turn: an option that is not
/// among them yet is appended.
pub open spec fn granted(
    streams: Seq<(Seq<char>, KafkaAclGroupTopicKind)>,
    options: Seq<(Seq<char>, KafkaAclGroupTopicKind)>,
) -> Seq<(Seq<char>, KafkaAclGroupTopicKind)>
    decreases options.len(),
{
    if options.len() == 0 {
        streams
    } else {
        let before = granted(streams, options.drop_last());
        if before.contains(options.last()) {
            before
        } else {
            before.push(options.last())
        }
    }
}

/// The streams after each option was revoked in turn: every occurrence of
/// the option is removed.
pub open spec fn revoked(
    streams: Seq<(Seq<char>, KafkaAclGroupTopicKind)>,
    options: Seq<(Seq<char>, KafkaAclGroupTopicKind)>,
) -> Seq<(Seq<char>, KafkaAclGroupTopicKind)>
    decreases options.len(),
{
    if options.len() == 0 {
        streams
    } else {
        without(revoked(streams, options.drop_last()), options.last())
    }
}

/// `streams` without any occurrence of `t`.
pub open spec fn without(
    streams: Seq<(Seq<char>, KafkaAclGroupTopicKind)>,
    t: (Seq<char>, KafkaAclGroupTopicKind),
) -> Seq<(Seq<char>, KafkaAclGroupTopicKind)>
    decreases streams.len(),
{
    if streams.len() == 0 {
        streams
    } else {
        let rest = without(streams.drop_last(), t);
        if streams.last() == t {
            rest
        } else {
            rest.push(streams.last())
        }
    }
}

/// Grants every option in turn. `changed[i]` tells whether option `i` was
/// added; it was not when the stream was there already.
pub fn grant_streams(streams: &mut Vec<KafkaAclGroupTopic>, options: &Vec<KafkaAclGroupTopic>) -> (changed: Vec<bool>)
    ensures
        topic_views(final(streams)@) == granted(topic_views(old(streams)@), topic_views(options@)),
        changed@.len() == options.len(),
        forall|i: int| 0 <= i < options.len() ==>
            changed@[i] == !granted(topic_views(old(streams)@), topic_views(options@).take(i)).contains(#[trigger] options@[i]@),
{
    let ghost start = topic_views(streams@);
    let mut changed: Vec<bool> = Vec::new();
    let mut i: usize = 0;
    assert(topic_views(options@).take(0) =~= Seq::<(Seq<char>, KafkaAclGroupTopicKind)>::empty());
    while i < options.len()
        invariant
            i <= options.len(),
            start == topic_views(old(streams)@),
            topic_views(streams@) == granted(start, topic_views(options@).take(i as int)),
            changed@.len() == i,
            forall|k: int| 0 <= k < i ==>
                changed@[k] == !granted(start, topic_views(options@).take(k)).contains(#[trigger] options@[k]@),
        decreases options.len() - i,
    {
        let ghost before = topic_views(streams@);
        assert(topic_views(options@).take(i + 1).drop_last() =~= topic_views(options@).take(i as int));
        assert(topic_views(options@).take(i + 1).last() == options@[i as int]@);
        if topics_contain(streams, &options[i]) {
            changed.push(false);
        } else {
            streams.push(options[i].clone());
            assert(topic_views(streams@) =~= before.push(options@[i as int]@));
            changed.push(true);
        }
        i = i + 1;
    }
    assert(topic_views(options@).take(options.len() as int) =~= topic_views(options@));
    changed
}

/// Removes every occurrence of stream `t`.
fn remove_topic(streams: &mut Vec<KafkaAclGroupTopic>, t: &KafkaAclGroupTopic)
    ensures
        topic_views(final(streams)@) == without(topic_views(old(streams)@), t@),
{
    let ghost start = topic_views(streams@);
    let mut kept: Vec<KafkaAclGroupTopic> = Vec::new();
    let mut i: usize = 0;
    assert(start.take(0) =~= Seq::<(Seq<char>, KafkaAclGroupTopicKind)>::empty());
    while i < streams.len()
        invariant
            i <= streams.len(),
            start == topic_views(streams@),
            start == topic_views(old(streams)@),
            topic_views(kept@) == without(start.take(i as int), t@),
        decreases streams.len() - i,
    {
        let ghost before = topic_views(kept@);
        assert(start.take(i + 1).drop_last() =~= start.take(i as int));
        if !topic_equal(&streams[i], t) {
            kept.push(streams[i].clone());
            assert(topic_views(kept@) =~= before.push(streams@[i as int]@));
        }
        i = i + 1;
    }
    assert(start.take(streams.len() as int) =~= start);
    *streams = kept;
}

/// Revokes every option in turn. `changed[i]` tells whether option `i` was
/// there to be removed.
pub fn revoke_streams(streams: &mut Vec<KafkaAclGroupTopic>, options: &Vec<KafkaAclGroupTopic>) -> (changed: Vec<bool>)
    ensures
        topic_views(final(streams)@) == revoked(topic_views(old(streams)@), topic_views(options@)),
        changed@.len() == options.len(),
        forall|i: int| 0 <= i < options.len() ==>
            changed@[i] == revoked(topic_views(old(streams)@), topic_views(options@).take(i)).contains(#[trigger] options@[i]@),
{
    let ghost start = topic_views(streams@);
    let mut changed: Vec<bool> = Vec::new();
    let mut i: usize = 0;
    assert(topic_views(options@).take(0) =~= Seq::<(Seq<char>, KafkaAclGroupTopicKind)>::empty());
    while i < options.len()
        invariant
            i <= options.len(),
            start == topic_views(old(streams)@),
            topic_views(streams@) == revoked(start, topic_views(options@).take(i as int)),
            changed@.len() == i,
            forall|k: int| 0 <= k < i ==>
                changed@[k] == revoked(start, topic_views(options@).take(k)).contains(#[trigger] options@[k]@),
        decreases options.len() - i,
    {
        assert(topic_views(options@).take(i + 1).drop_last() =~= topic_views(options@).take(i as int));
        assert(topic_views(options@).take(i + 1).last() == options@[i as int]@);
        let ghost before = topic_views(streams@);
        let present = topics_contain(streams, &options[i]);
        remove_topic(streams, &options[i]);
        assert(topic_views(streams@) == without(before, options@[i as int]@));
        changed.push(present);
        i = i + 1;
    }
    assert(topic_views(options@).take(options.len() as int) =~= topic_views(options@));
    changed
}

/// Granting keeps the streams that were there, in their order, ahead of the
/// new ones, and a stream is there afterwards exactly when it was there
/// before or is one of the options.
pub proof fn lemma_granted_contents(
    streams: Seq<(Seq<char>, KafkaAclGroupTopicKind)>,
    options: Seq<(Seq<char>, KafkaAclGroupTopicKind)>,
)
    ensures
        granted(streams, options).len() >= streams.len(),
        granted(streams, options).take(streams.len() as int) == streams,
        forall|x: (Seq<char>, KafkaAclGroupTopicKind)|
            #[trigger] granted(streams, options).contains(x) <==> streams.contains(x) || options.contains(x),
    decreases options.len(),
{
    if options.len() > 0 {
        let rest = options.drop_last();
        let t = options.last();
        lemma_granted_contents(streams, rest);
        let before = granted(streams, rest);
        let after = granted(streams, options);
        if !before.contains(t) {
            assert(after.take(streams.len() as int) =~= before.take(streams.len() as int));
        }
        assert forall|x: (Seq<char>, KafkaAclGroupTopicKind)|
            #[trigger] after.contains(x) <==> streams.contains(x) || options.contains(x) by {
            if options.contains(x) && x != t {
                let k = choose|k: int| 0 <= k < options.len() && options[k] == x;
                assert(rest[k] == x);
            }
            if rest.contains(x) {
                let k = choose|k: int| 0 <= k < rest.len() && rest[k] == x;
                assert(options[k] == x);
            }
            if x == t {
                assert(options[options.len() - 1] == x);
            }
            if !before.contains(t) {
                if after.contains(x) && x != t {
                    let k = choose|k: int| 0 <= k < after.len() && after[k] == x;
                    assert(before[k] == x);
                }
                if before.contains(x) {
                    let k = choose|k: int| 0 <= k < before.len() && before[k] == x;
                    assert(after[k] == x);
                }
                assert(after[before.len() as int] == t);
            }
        }
    } else {
        assert(streams.take(streams.len() as int) =~= streams);
    }
}

/// A stream is in `without(streams, t)` exactly when it is in `streams` and is not `t`.
proof fn lemma_without_contains(streams: Seq<(Seq<char>, KafkaAclGroupTopicKind)>, t: (Seq<char>, KafkaAclGroupTopicKind))
    ensures
        forall|x: (Seq<char>, KafkaAclGroupTopicKind)|
            #[trigger] without(streams, t).contains(x) <==> streams.contains(x) && x != t,
    decreases streams.len(),
{
    if streams.len() > 0 {
        let front = streams.drop_last();
        let last = streams.last();
        lemma_without_contains(front, t);
        let r = without(front, t);
        assert forall|x: (Seq<char>, KafkaAclGroupTopicKind)|
            #[trigger] without(streams, t).contains(x) <==> streams.contains(x) && x != t by {
            if front.contains(x) {
                let k = choose|k: int| 0 <= k < front.len() && front[k] == x;
                assert(streams[k] == x);
            }
            if streams.contains(x) && x != last {
                let k = choose|k: int| 0 <= k < streams.len() && streams[k] == x;
                assert(front[k] == x);
            }
            if x == last {
                assert(streams[streams.len() - 1] == x);
            }
            if last != t {
                if r.push(last).contains(x) && x != last {
                    let k = choose|k: int| 0 <= k < r.len() + 1 && r.push(last)[k] == x;
                    assert(r[k] == x);
                }
                if r.contains(x) {
                    let k = choose|k: int| 0 <= k < r.len() && r[k] == x;
                    assert(r.push(last)[k] == x);
                }
                assert(r.push(last)[r.len() as int] == last);
            }
        }
    }
}

/// After revoking, a stream is there exactly when it was there before and is
/// none of the options.
pub proof fn lemma_revoked_contents(
    streams: Seq<(Seq<char>, KafkaAclGroupTopicKind)>,
    options: Seq<(Seq<char>, KafkaAclGroupTopicKind)>,
)
    ensures
        forall|x: (Seq<char>, KafkaAclGroupTopicKind)|
            #[trigger] revoked(streams, options).contains(x) <==> streams.contains(x) && !options.contains(x),
    decreases options.len(),
{
    if options.len() > 0 {
        let rest = options.drop_last();
        let t = options.last();
        lemma_revoked_contents(streams, rest);
        lemma_without_contains(revoked(streams, rest), t);
        assert forall|x: (Seq<char>, KafkaAclGroupTopicKind)|
            #[trigger] revoked(streams, options).contains(x) <==> streams.contains(x) && !options.contains(x) by {
            if options.contains(x) && x != t {
                let k = choose|k: int| 0 <= k < options.len() && options[k] == x;
                assert(rest[k] == x);
            }
            if rest.contains(x) {
                let k = choose|k: int| 0 <= k < rest.len() && rest[k] == x;
                assert(options[k] == x);
            }
            if x == t {
                assert(options[options.len() - 1] == x);
            }
        }
    }
}

/// Revoking the options that were just granted leaves exactly the streams
/// that were there before and are none of the options.
pub proof fn lemma_revoke_undoes_grant(
    streams: Seq<(Seq<char>, KafkaAclGroupTopicKind)>,
    options: Seq<(Seq<char>, KafkaAclGroupTopicKind)>,
)
    ensures
        forall|x: (Seq<char>, KafkaAclGroupTopicKind)|
            #[trigger] revoked(granted(streams, options), options).contains(x)
                <==> streams.contains(x) && !options.contains(x),
{
    lemma_granted_contents(streams, options);
    lemma_revoked_contents(granted(streams, options), options);
}

/// The view of a stream: its name and kind.
pub type Stream = (Seq<char>, KafkaAclGroupTopicKind);

proof fn lemma_without_concat(a: Seq<Stream>, b: Seq<Stream>, t: Stream)
    ensures
        without(a + b, t) == without(a, t) + without(b, t),
    decreases b.len(),
{
    if b.len() == 0 {
        assert(a + b =~= a);
        assert(without(a, t) + without(b, t) =~= without(a, t));
    } else {
        lemma_without_concat(a, b.drop_last(), t);
        assert((a + b).drop_last() =~= a + b.drop_last());
        assert((a + b).last() == b.last());
        if b.last() != t {
            assert(without(a, t) + without(b.drop_last(), t).push(b.last()) =~= (without(a, t) + without(b.drop_last(), t)).push(b.last()));
        }
    }
}

proof fn lemma_revoked_concat(a: Seq<Stream>, b: Seq<Stream>, options: Seq<Stream>)
    ensures
        revoked(a + b, options) == revoked(a, options) + revoked(b, options),
    decreases options.len(),
{
    if options.len() > 0 {
        lemma_revoked_concat(a, b, options.drop_last());
        lemma_without_concat(revoked(a, options.drop_last()), revoked(b, options.drop_last()), options.last());
    }
}

proof fn lemma_without_absent(streams: Seq<Stream>, t: Stream)
    requires
        !streams.contains(t),
    ensures
        without(streams, t) == streams,
    decreases streams.len(),
{
    if streams.len() > 0 {
        let front = streams.drop_last();
        if front.contains(t) {
            let k = choose|k: int| 0 <= k < front.len() && front[k] == t;
            assert(streams[k] == t);
        }
        lemma_without_absent(front, t);
        assert(streams.last() == streams[streams.len() - 1]);
        assert(front.push(streams.last()) =~= streams);
    }
}

proof fn lemma_revoked_absent(streams: Seq<Stream>, options: Seq<Stream>)
    requires
        forall|i: int| 0 <= i < options.len() ==> !streams.contains(#[trigger] options[i]),
    ensures
        revoked(streams, options) == streams,
    decreases options.len(),
{
    if options.len() > 0 {
        let rest = options.drop_last();
        assert forall|i: int| 0 <= i < rest.len() implies !streams.contains(#[trigger] rest[i]) by {
            assert(rest[i] == options[i]);
        }
        lemma_revoked_absent(streams, rest);
        assert(options.last() == options[options.len() - 1]);
        lemma_without_absent(streams, options.last());
    }
}

proof fn lemma_granted_new(streams: Seq<Stream>, options: Seq<Stream>)
    ensures
        forall|i: int| streams.len() <= i < granted(streams, options).len() ==> options.contains(#[trigger] granted(streams, options)[i]),
    decreases options.len(),
{
    if options.len() > 0 {
        let rest = options.drop_last();
        lemma_granted_new(streams, rest);
        lemma_granted_contents(streams, rest);
        let before = granted(streams, rest);
        assert forall|i: int| streams.len() <= i < granted(streams, options).len() implies options.contains(#[trigger] granted(streams, options)[i]) by {
            if i < before.len() {
                assert(granted(streams, options)[i] == before[i]);
                let k = choose|k: int| 0 <= k < rest.len() && rest[k] == before[i];
                assert(options[k] == before[i]);
            } else {
                assert(granted(streams, options)[i] == options.last());
                assert(options[options.len() - 1] == options.last());
            }
        }
    }
}

/// Revoking options that none of the streams held, right after granting
/// them, gives back exactly the streams that were there, in their order.
pub proof fn lemma_revoke_restores_streams(streams: Seq<Stream>, options: Seq<Stream>)
    requires
        forall|i: int| 0 <= i < options.len() ==> !streams.contains(#[trigger] options[i]),
    ensures
        revoked(granted(streams, options), options) == streams,
{
    let g = granted(streams, options);
    lemma_granted_contents(streams, options);
    lemma_granted_new(streams, options);
    let added = g.skip(streams.len() as int);
    assert(g =~= streams + added);
    lemma_revoked_concat(streams, added, options);
    lemma_revoked_absent(streams, options);
    lemma_revoked_contents(added, options);
    let r = revoked(added, options);
    if r.len() > 0 {
        assert(r.contains(r[0]));
        let k = choose|k: int| 0 <= k < added.len() && added[k] == r[0];
        assert(g[streams.len() + k] == added[k]);
    }
    assert(streams + r =~= streams);
}

} // verus!

verus! {

/// The streams that an ACL group may read and write.
pub struct KafkaAclGroup {
    pub readable_streams: Vec<KafkaAclGroupTopic>,
    pub writable_streams: Vec<KafkaAclGroupTopic>,
}

/// What granting or revoking did: per readable and per writable option
/// whether it changed the group, and whether anything changed.
pub struct AclGroupChanges {
    pub readable: Vec<bool>,
    pub writable: Vec<bool>,
    pub update: bool,
}

/// Whether some entry of `changed` is set.
pub open spec fn any_set(changed: Seq<bool>) -> bool {
    exists|i: int| 0 <= i < changed.len() && changed[i]
}

/// Whether some entry of `changed` is set.
fn any_changed(changed: &Vec<bool>) -> (res: bool)
    ensures
        res == any_set(changed@),
{
    let mut i: usize = 0;
    while i < changed.len()
        invariant
            i <= changed.len(),
            forall|k: int| 0 <= k < i ==> !changed@[k],
        decreases changed.len() - i,
    {
        if changed[i] {
            return true;
        }
        i = i + 1;
    }
    false
}

/// Fails, with the message that is shown, when no stream option is given.
pub fn check_stream_options(readable_options: &Vec<KafkaAclGroupTopic>, writable_options: &Vec<KafkaAclGroupTopic>) -> (res: Result<(), String>)
    ensures
        res is Ok <==> readable_options.len() > 0 || writable_options.len() > 0,
        res matches Err(m) ==> m@ == "no readable or writable stream options are provided"@,
{
    if readable_options.len() == 0 && writable_options.len() == 0 {
        Err(String::from_str("no readable or writable stream options are provided"))
    } else {
        Ok(())
    }
}

/// Grants read access for the readable options and write access for the
/// writable options; the group needs an update when any option was new.
pub fn grant_acl_group(
    acl_group: &mut KafkaAclGroup,
    readable_options: &Vec<KafkaAclGroupTopic>,
    writable_options: &Vec<KafkaAclGroupTopic>,
) -> (changes: AclGroupChanges)
    ensures
        topic_views(final(acl_group).readable_streams@)
            == granted(topic_views(old(acl_group).readable_streams@), topic_views(readable_options@)),
        topic_views(final(acl_group).writable_streams@)
            == granted(topic_views(old(acl_group).writable_streams@), topic_views(writable_options@)),
        changes.readable@.len() == readable_options.len(),
        changes.writable@.len() == writable_options.len(),
        forall|i: int| 0 <= i < readable_options.len() ==> changes.readable@[i]
            == !granted(topic_views(old(acl_group).readable_streams@), topic_views(readable_options@).take(i))
                .contains(#[trigger] readable_options@[i]@),
        forall|i: int| 0 <= i < writable_options.len() ==> changes.writable@[i]
            == !granted(topic_views(old(acl_group).writable_streams@), topic_views(writable_options@).take(i))
                .contains(#[trigger] writable_options@[i]@),
        changes.update == (any_set(changes.readable@) || any_set(changes.writable@)),
{
    let readable = grant_streams(&mut acl_group.readable_streams, readable_options);
    let writable = grant_streams(&mut acl_group.writable_streams, writable_options);
    let update = any_changed(&readable) || any_changed(&writable);
    AclGroupChanges { readable, writable, update }
}

/// Revokes read access for the readable options and write access for the
/// writable options; the group needs an update when any option was granted.
pub fn revoke_acl_group(
    acl_group: &mut KafkaAclGroup,
    readable_options: &Vec<KafkaAclGroupTopic>,
    writable_options: &Vec<KafkaAclGroupTopic>,
) -> (changes: AclGroupChanges)
    ensures
        topic_views(final(acl_group).readable_streams@)
            == revoked(topic_views(old(acl_group).readable_streams@), topic_views(readable_options@)),
        topic_views(final(acl_group).writable_streams@)
            == revoked(topic_views(old(acl_group).writable_streams@), topic_views(writable_options@)),
        changes.readable@.len() == readable_options.len(),
        changes.writable@.len() == writable_options.len(),
        forall|i: int| 0 <= i < readable_options.len() ==> changes.readable@[i]
            == revoked(topic_views(old(acl_group).readable_streams@), topic_views(readable_options@).take(i))
                .contains(#[trigger] readable_options@[i]@),
        forall|i: int| 0 <= i < writable_options.len() ==> changes.writable@[i]
            == revoked(topic_views(old(acl_group).writable_streams@), topic_views(writable_options@).take(i))
                .contains(#[trigger] writable_options@[i]@),
        changes.update == (any_set(changes.readable@) || any_set(changes.writable@)),
{
    let readable = revoke_streams(&mut acl_group.readable_streams, readable_options);
    let writable = revoke_streams(&mut acl_group.writable_streams, writable_options);
    let update = any_changed(&readable) || any_changed(&writable);
    AclGroupChanges { readable, writable, update }
}

/// How a stream is named in messages: its kind, the word stream and its
/// name in quotes.
pub open spec fn stream_text(t: (Seq<char>, KafkaAclGroupTopicKind)) -> Seq<char> {
    t.1.text() + " stream '"@ + t.0 + "'"@
}

/// How a stream is named in messages.
pub fn stream_description(t: &KafkaAclGroupTopic) -> (s: String)
    ensures
        s@ == stream_text(t@),
{
    let mut s = String::from_str(t.kind.as_str());
    s.append(" stream '");
    s.append(t.name.as_str());
    s.append("'");
    s
}

/// The message for an option that grants nothing new.
pub fn already_granted_message(t: &KafkaAclGroupTopic, read: bool) -> (s: String)
    ensures
        s@ == stream_text(t@) + (if read { " is already readable"@ } else { " is already writable"@ }),
{
    let mut s = stream_description(t);
    if read {
        s.append(" is already readable");
    } else {
        s.append(" is already writable");
    }
    s
}

/// The message for an option to revoke: what is revoked when the access was
/// granted (`present`), else that it was not granted.
pub fn revoke_message(t: &KafkaAclGroupTopic, read: bool, present: bool) -> (s: String)
    ensures
        s@ == if present {
            (if read { "revoke read access from "@ } else { "revoke write access from "@ }) + stream_text(t@)
        } else {
            (if read { "read access is not granted to "@ } else { "write access is not granted to "@ }) + stream_text(t@)
        },
{
    let mut s = if present {
        if read { String::from_str("revoke read access from ") } else { String::from_str("revoke write access from ") }
    } else {
        if read { String::from_str("read access is not granted to ") } else { String::from_str("write access is not granted to ") }
    };
    let d = stream_description(t);
    s.append(d.as_str());
    s
}

/// Labels under which Kafka proxy ACL groups and their streams are shown.
#[derive(Debug, PartialEq, Eq, Structural, Clone, Copy)]
pub enum AclGroupLabel {
    AclGroupName,
    Kind,
    Readable,
    StreamName,
    Writable,
}

impl AclGroupLabel {
    /// The text under which the label is shown.
    pub open spec fn text(self) -> Seq<char> {
        match self {
            AclGroupLabel::AclGroupName => "acl group"@,
            AclGroupLabel::Kind => "kind"@,
            AclGroupLabel::Readable => "readable"@,
            AclGroupLabel::StreamName => "stream"@,
            AclGroupLabel::Writable => "writable"@,
        }
    }

    /// The text under which the label is shown.
    pub fn as_str(&self) -> (s: &'static str)
        ensures
            s@ == self.text(),
    {
        match self {
            AclGroupLabel::AclGroupName => "acl group",
            AclGroupLabel::Kind => "kind",
            AclGroupLabel::Readable => "readable",
            AclGroupLabel::StreamName => "stream",
            AclGroupLabel::Writable => "writable",
        }
    }

    /// Whether the label shows the identifier of the subject.
    pub fn is_target_label(&self) -> (b: bool)
        ensures
            b == (*self == AclGroupLabel::AclGroupName),
    {
        match self {
            AclGroupLabel::AclGroupName => true,
            _ => false,
        }
    }
}


/// The value shown under `label` for a stream of an ACL group, or for a
/// group without streams (`None`).
pub open spec fn acl_group_value_view(
    stream: Option<(Seq<char>, KafkaAclGroupTopicKind, bool, bool)>,
    label: AclGroupLabel,
    target_id: Seq<char>,
) -> ValueView {
    match stream {
        Some(a) => match label {
            AclGroupLabel::AclGroupName => ValueView::Target(target_id),
            AclGroupLabel::Kind => ValueView::Plain(a.1.text()),
            AclGroupLabel::StreamName => ValueView::Target(a.0),
            AclGroupLabel::Readable => ValueView::Plain(bool_text(a.2)),
            AclGroupLabel::Writable => ValueView::Plain(bool_text(a.3)),
        },
        None => match label {
            AclGroupLabel::AclGroupName => ValueView::Target(target_id),
            AclGroupLabel::StreamName => ValueView::Warning("none"@),
            _ => ValueView::Empty,
        },
    }
}

/// The value shown under `label` for a stream of an ACL group, or for a
/// group without streams (`None`).
pub fn acl_group_value(stream: Option<&StreamAccess>, label: AclGroupLabel, target_id: &str) -> (v: Value)
    ensures
        v@ == acl_group_value_view(match stream { Some(a) => Some(a@), None => None }, label, target_id@),
{
    match stream {
        Some(a) => match label {
            AclGroupLabel::AclGroupName => Value::target(target_id),
            AclGroupLabel::Kind => Value::plain(a.kind.as_str()),
            AclGroupLabel::StreamName => Value::target(a.name.as_str()),
            AclGroupLabel::Readable => Value::plain_bool(a.readable),
            AclGroupLabel::Writable => Value::plain_bool(a.writable),
        },
        None => match label {
            AclGroupLabel::AclGroupName => Value::target(target_id),
            AclGroupLabel::StreamName => Value::warn("none"),
            _ => Value::Empty,
        },
    }
}

} // verus!
