//! Filters that select objects by their attributes.
//!
//! On the wire a filter is one byte that names the attribute and then the
//! value to compare with; filters follow one another without a separator.

use crate::algorithm::{lemma_algorithm_round_trip, Algorithm};
use crate::codec::{be16, be64, lemma_u16_round_trip, lemma_u64_round_trip, put_bytes, put_u16,
    put_u64, put_u8, read_bytes, read_u16, read_u64, u16_at, u64_at, CodecError};
use crate::object::{lemma_object_tags_round_trip, Capability, Domain, ObjectInfo, ObjectOrigin,
    ObjectType, LABEL_SIZE};
use vstd::prelude::*;

verus! {

/// A condition on an object. `B` is the type of a byte string: `Vec<u8>` in
/// running code, `Seq<u8>` in contracts.
#[derive(Debug)]
pub enum Filter<B = Vec<u8>> {
    /// The object has this algorithm.
    Algorithm(Algorithm),
    /// The object permits all of these operations.
    Capabilities(Capability),
    /// The object is visible in all of these domains.
    Domains(Domain),
    /// The object has this label: forty bytes.
    Label(B),
    /// The object has this number.
    Id(u16),
    /// The object has this type.
    Type(ObjectType),
}

impl View for Filter<Vec<u8>> {
    type V = Filter<Seq<u8>>;

    open spec fn view(&self) -> Filter<Seq<u8>> {
        match *self {
            Filter::Algorithm(a) => Filter::Algorithm(a),
            Filter::Capabilities(c) => Filter::Capabilities(c),
            Filter::Domains(d) => Filter::Domains(d),
            Filter::Label(l) => Filter::Label(l@),
            Filter::Id(id) => Filter::Id(id),
            Filter::Type(t) => Filter::Type(t),
        }
    }
}

impl Filter<Seq<u8>> {
    /// A label to compare with has forty bytes.
    pub open spec fn wf(self) -> bool {
        self matches Filter::Label(l) ==> l.len() == LABEL_SIZE
    }

    /// The byte that names the attribute.
    pub open spec fn tag(self) -> u8 {
        match self {
            Filter::Id(_) => 0x01,
            Filter::Type(_) => 0x02,
            Filter::Domains(_) => 0x03,
            Filter::Capabilities(_) => 0x04,
            Filter::Algorithm(_) => 0x05,
            Filter::Label(_) => 0x06,
        }
    }

    /// The bytes of the filter: the tag, then the value.
    pub open spec fn wire(self) -> Seq<u8> {
        seq![self.tag()] + match self {
            Filter::Id(id) => be16(id),
            Filter::Type(t) => seq![t.code()],
            Filter::Domains(d) => be16(d.bits),
            Filter::Capabilities(c) => be64(c.bits),
            Filter::Algorithm(a) => seq![a.code()],
            Filter::Label(l) => l,
        }
    }

    /// The width of the value behind a tag; `None` for a byte that names no
    /// attribute.
    pub open spec fn value_len(tag: u8) -> Option<int> {
        if tag == 0x01 {
            Some(2)
        } else if tag == 0x02 {
            Some(1)
        } else if tag == 0x03 {
            Some(2)
        } else if tag == 0x04 {
            Some(8)
        } else if tag == 0x05 {
            Some(1)
        } else if tag == 0x06 {
            Some(40)
        } else {
            None
        }
    }

    /// The filter that begins at offset `at` of a buffer, or the reason why
    /// none does.
    pub open spec fn at(s: Seq<u8>, at: int) -> Result<Filter<Seq<u8>>, CodecError> {
        if at >= s.len() {
            Err(CodecError::UnexpectedEof)
        } else {
            match Filter::value_len(s[at]) {
                None => Err(CodecError::InvalidTag),
                Some(n) => if at + 1 + n > s.len() {
                    Err(CodecError::UnexpectedEof)
                } else if s[at] == 0x01 {
                    Ok(Filter::Id(u16_at(s, at + 1)))
                } else if s[at] == 0x02 {
                    match ObjectType::of_code(s[at + 1]) {
                        Some(t) => Ok(Filter::Type(t)),
                        None => Err(CodecError::InvalidTag),
                    }
                } else if s[at] == 0x03 {
                    Ok(Filter::Domains(Domain { bits: u16_at(s, at + 1) }))
                } else if s[at] == 0x04 {
                    Ok(Filter::Capabilities(Capability { bits: u64_at(s, at + 1) }))
                } else if s[at] == 0x05 {
                    match Algorithm::of_code(s[at + 1]) {
                        Some(a) => Ok(Filter::Algorithm(a)),
                        None => Err(CodecError::InvalidTag),
                    }
                } else {
                    Ok(Filter::Label(s.subrange(at + 1, at + 41)))
                },
            }
        }
    }

    /// Whether an object meets the condition.
    pub open spec fn admits(self, info: ObjectInfo<Seq<u8>>) -> bool {
        match self {
            Filter::Algorithm(a) => info.algorithm == a,
            Filter::Capabilities(c) => c.subset_of(info.capabilities),
            Filter::Domains(d) => d.subset_of(info.domains),
            Filter::Label(l) => info.label == l,
            Filter::Id(id) => info.object_id == id,
            Filter::Type(t) => info.object_type == t,
        }
    }
}

/// The bytes of a list of filters, one after the other.
pub open spec fn filters_wire(filters: Seq<Filter<Seq<u8>>>) -> Seq<u8>
    decreases filters.len(),
{
    if filters.len() == 0 {
        Seq::<u8>::empty()
    } else {
        filters_wire(filters.drop_last()) + filters.last().wire()
    }
}

/// The filters that stand in a buffer from offset `at` to its end, or the
/// reason why the buffer does not hold a list of filters.
pub open spec fn filters_at(s: Seq<u8>, at: int) -> Result<Seq<Filter<Seq<u8>>>, CodecError>
    decreases s.len() - at,
{
    if at >= s.len() {
        Ok(Seq::<Filter<Seq<u8>>>::empty())
    } else {
        match Filter::at(s, at) {
            Err(e) => Err(e),
            Ok(first) => {
                let next = at + 1 + Filter::value_len(s[at])->0;
                if next <= at || next > s.len() {
                    Err(CodecError::UnexpectedEof)
                } else {
                    match filters_at(s, next) {
                        Err(e) => Err(e),
                        Ok(rest) => Ok(seq![first] + rest),
                    }
                }
            },
        }
    }
}

/// Whether an object meets every one of the conditions. An empty list admits
/// every object.
pub open spec fn admits_all(filters: Seq<Filter<Seq<u8>>>, info: ObjectInfo<Seq<u8>>) -> bool {
    forall|i: int| 0 <= i < filters.len() ==> (#[trigger] filters[i]).admits(info)
}

/// Reading back the bytes of a well-formed filter gives the filter, wherever
/// in a buffer they stand.
pub proof fn lemma_filter_round_trip(s: Seq<u8>, at: int, f: Filter<Seq<u8>>)
    requires
        f.wf(),
        0 <= at,
        at + f.wire().len() <= s.len(),
        s.subrange(at, at + f.wire().len()) == f.wire(),
    ensures
        Filter::at(s, at) == Ok::<Filter<Seq<u8>>, CodecError>(f),
        Filter::value_len(s[at]) == Some(f.wire().len() - 1),
        f.wire().len() >= 2,
{
    let w = f.wire();
    let n = w.len() as int;
    assert(s[at] == s.subrange(at, at + n)[0]);
    assert(s[at + 1] == s.subrange(at, at + n)[1]);
    assert(w[0] == f.tag());
    match f {
        Filter::Id(id) => {
            assert(s.subrange(at + 1, at + 3) =~= w.subrange(1, 3));
            assert(w.subrange(1, 3) =~= be16(id));
            lemma_u16_round_trip(s, at + 1, id);
        },
        Filter::Type(t) => {
            lemma_object_tags_round_trip(t, ObjectOrigin::Generated);
        },
        Filter::Domains(d) => {
            assert(s.subrange(at + 1, at + 3) =~= w.subrange(1, 3));
            assert(w.subrange(1, 3) =~= be16(d.bits));
            lemma_u16_round_trip(s, at + 1, d.bits);
        },
        Filter::Capabilities(c) => {
            assert(s.subrange(at + 1, at + 9) =~= w.subrange(1, 9));
            assert(w.subrange(1, 9) =~= be64(c.bits));
            lemma_u64_round_trip(s, at + 1, c.bits);
        },
        Filter::Algorithm(a) => {
            lemma_algorithm_round_trip(a);
        },
        Filter::Label(l) => {
            assert(s.subrange(at + 1, at + 41) =~= w.subrange(1, 41));
            assert(w.subrange(1, 41) =~= l);
        },
    }
}

impl Filter<Vec<u8>> {
    /// Appends the bytes of the filter.
    pub fn serialize(&self, out: &mut Vec<u8>)
        requires
            self@.wf(),
        ensures
            final(out)@ == old(out)@ + self@.wire(),
    {
        match self {
            Filter::Id(id) => {
                put_u8(out, 0x01);
                put_u16(out, *id);
            },
            Filter::Type(t) => {
                put_u8(out, 0x02);
                put_u8(out, t.to_u8());
            },
            Filter::Domains(d) => {
                put_u8(out, 0x03);
                put_u16(out, d.bits);
            },
            Filter::Capabilities(c) => {
                put_u8(out, 0x04);
                put_u64(out, c.bits);
            },
            Filter::Algorithm(a) => {
                put_u8(out, 0x05);
                put_u8(out, a.to_u8());
            },
            Filter::Label(l) => {
                put_u8(out, 0x06);
                put_bytes(out, l.as_slice());
            },
        }
        assert(out@ =~= old(out)@ + self@.wire());
    }

    /// Reads the filter that begins at offset `at` of a buffer.
    pub fn deserialize(data: &[u8], at: usize) -> (r: Result<Filter, CodecError>)
        ensures
            match r {
                Ok(f) => f@.wf() && Filter::at(data@, at as int) == Ok::<
                    Filter<Seq<u8>>,
                    CodecError,
                >(f@) && at + f@.wire().len() <= data@.len() && f@.wire().len() >= 2,
                Err(e) => Filter::at(data@, at as int) == Err::<Filter<Seq<u8>>, CodecError>(e),
            },
    {
        let len: usize = data.len();
        if at >= len {
            return Err(CodecError::UnexpectedEof);
        }
        let tag = data[at];
        let width: usize = match tag {
            0x01 => 2,
            0x02 => 1,
            0x03 => 2,
            0x04 => 8,
            0x05 => 1,
            0x06 => 40,
            _ => {
                return Err(CodecError::InvalidTag);
            },
        };
        if width > len - at - 1 {
            return Err(CodecError::UnexpectedEof);
        }
        match tag {
            0x01 => Ok(Filter::Id(read_u16(data, at + 1))),
            0x02 => match ObjectType::from_u8(data[at + 1]) {
                Some(t) => Ok(Filter::Type(t)),
                None => Err(CodecError::InvalidTag),
            },
            0x03 => Ok(Filter::Domains(Domain::from_bits(read_u16(data, at + 1)))),
            0x04 => Ok(Filter::Capabilities(Capability::from_bits(read_u64(data, at + 1)))),
            0x05 => match Algorithm::from_u8(data[at + 1]) {
                Some(a) => Ok(Filter::Algorithm(a)),
                None => Err(CodecError::InvalidTag),
            },
            _ => Ok(Filter::Label(read_bytes(data, at + 1, at + 41))),
        }
    }

    /// The number of bytes that the filter takes on the wire.
    pub fn wire_len(&self) -> (n: usize)
        requires
            self@.wf(),
        ensures
            n == self@.wire().len(),
            2 <= n <= 41,
    {
        match self {
            Filter::Id(_) => 3,
            Filter::Type(_) => 2,
            Filter::Domains(_) => 3,
            Filter::Capabilities(_) => 9,
            Filter::Algorithm(_) => 2,
            Filter::Label(_) => 41,
        }
    }

    /// Whether an object meets the condition.
    pub fn matches(&self, info: &ObjectInfo) -> (r: bool)
        ensures
            r == self@.admits(info@),
    {
        match self {
            Filter::Algorithm(a) => info.algorithm == *a,
            Filter::Capabilities(c) => info.capabilities.contains(*c),
            Filter::Domains(d) => info.domains.contains(*d),
            Filter::Label(l) => crate::codec::bytes_eq(info.label.as_slice(), l.as_slice()),
            Filter::Id(id) => info.object_id == *id,
            Filter::Type(t) => info.object_type == *t,
        }
    }
}

/// The bytes of a list of filters are those of its first filter, then those
/// of the others.
pub proof fn lemma_filters_wire_front(filters: Seq<Filter<Seq<u8>>>)
    requires
        filters.len() > 0,
    ensures
        filters_wire(filters) == filters.first().wire() + filters_wire(filters.drop_first()),
    decreases filters.len(),
{
    if filters.len() == 1 {
        reveal_with_fuel(filters_wire, 2);
        assert(filters.last() == filters.first());
        assert(filters_wire(filters.drop_last()) =~= Seq::<u8>::empty());
        assert(filters_wire(filters.drop_first()) =~= Seq::<u8>::empty());
        assert(filters_wire(filters) =~= filters.first().wire() + Seq::<u8>::empty());
    } else {
        let front = filters.drop_last();
        lemma_filters_wire_front(front);
        assert(front.drop_first() =~= filters.drop_first().drop_last());
        assert(filters.drop_first().last() == filters.last());
        assert(front.first() == filters.first());
        assert(filters_wire(filters) =~= filters.first().wire() + filters_wire(
            filters.drop_first(),
        ));
    }
}

/// Reading back the bytes of a list of well-formed filters gives the list,
/// whatever stands before them in the buffer.
pub proof fn lemma_filters_round_trip(before: Seq<u8>, filters: Seq<Filter<Seq<u8>>>)
    requires
        filters_wf(filters),
    ensures
        filters_at(before + filters_wire(filters), before.len() as int) == Ok::<
            Seq<Filter<Seq<u8>>>,
            CodecError,
        >(filters),
    decreases filters.len(),
{
    let s = before + filters_wire(filters);
    let at = before.len() as int;
    if filters.len() == 0 {
        assert(s =~= before);
        assert(filters =~= Seq::<Filter<Seq<u8>>>::empty());
    } else {
        let first = filters.first();
        let rest = filters.drop_first();
        let width = first.wire().len() as int;
        let mid = before + first.wire();
        lemma_filters_wire_front(filters);
        assert(s == mid + filters_wire(rest)) by {
            assert(before + (first.wire() + filters_wire(rest)) =~= mid + filters_wire(rest));
        }
        assert(s.subrange(at, at + width) == first.wire()) by {
            assert(s.subrange(at, at + width) =~= first.wire());
        }
        assert(first.wf());
        assert(filters_wf(rest)) by {
            assert forall|i: int| 0 <= i < rest.len() implies (#[trigger] rest[i]).wf() by {
                assert(filters[i + 1].wf());
            }
        }
        lemma_filter_round_trip(s, at, first);
        lemma_filters_round_trip(mid, rest);
        assert(filters_at(s, at + width) == Ok::<Seq<Filter<Seq<u8>>>, CodecError>(rest));
        assert(seq![first] + rest =~= filters);
    }
}

/// The filters of a list, as contracts see them.
pub open spec fn filter_views(filters: Seq<Filter>) -> Seq<Filter<Seq<u8>>> {
    Seq::new(filters.len(), |i: int| filters[i]@)
}

/// Every filter of the list is well formed.
pub open spec fn filters_wf(filters: Seq<Filter<Seq<u8>>>) -> bool {
    forall|i: int| 0 <= i < filters.len() ==> (#[trigger] filters[i]).wf()
}

/// The bytes of a list of filters.
pub fn serialize_filters(filters: &[Filter]) -> (out: Vec<u8>)
    requires
        filters_wf(filter_views(filters@)),
    ensures
        out@ == filters_wire(filter_views(filters@)),
{
    let mut out: Vec<u8> = Vec::new();
    let mut i: usize = 0;
    while i < filters.len()
        invariant
            i <= filters@.len(),
            filters_wf(filter_views(filters@)),
            out@ == filters_wire(filter_views(filters@).subrange(0, i as int)),
        decreases filters@.len() - i,
    {
        let ghost views = filter_views(filters@);
        assert(views[i as int].wf());
        assert(views[i as int] == filters@[i as int]@);
        filters[i].serialize(&mut out);
        i += 1;
        proof {
            let now = views.subrange(0, i as int);
            assert(now.drop_last() =~= views.subrange(0, i as int - 1));
            assert(now.last() == views[i as int - 1]);
        }
    }
    assert(filter_views(filters@).subrange(0, i as int) =~= filter_views(filters@));
    out
}

/// Reads the list of filters that a buffer holds.
pub fn parse_filters(data: &[u8]) -> (r: Result<Vec<Filter>, CodecError>)
    ensures
        match r {
            Ok(filters) => filters_at(data@, 0) == Ok::<Seq<Filter<Seq<u8>>>, CodecError>(
                filter_views(filters@),
            ) && filters_wf(filter_views(filters@)),
            Err(e) => filters_at(data@, 0) == Err::<Seq<Filter<Seq<u8>>>, CodecError>(e),
        },
{
    let mut filters: Vec<Filter> = Vec::new();
    let mut at: usize = 0;
    assert(filter_views(filters@) =~= Seq::<Filter<Seq<u8>>>::empty());
    assert(filters_at(data@, 0) == match filters_at(data@, 0) {
        Ok(rest) => Ok::<Seq<Filter<Seq<u8>>>, CodecError>(Seq::<Filter<Seq<u8>>>::empty() + rest),
        Err(e) => Err(e),
    }) by {
        if let Ok(rest) = filters_at(data@, 0) {
            assert(Seq::<Filter<Seq<u8>>>::empty() + rest =~= rest);
        }
    }
    while at < data.len()
        invariant
            at <= data@.len(),
            filters_wf(filter_views(filters@)),
            filters_at(data@, 0) == match filters_at(data@, at as int) {
                Ok(rest) => Ok::<Seq<Filter<Seq<u8>>>, CodecError>(filter_views(filters@) + rest),
                Err(e) => Err(e),
            },
        decreases data@.len() - at,
    {
        let ghost before = filter_views(filters@);
        match Filter::deserialize(data, at) {
            Err(e) => {
                return Err(e);
            },
            Ok(filter) => {
                let width = filter.wire_len();
                proof {
                    let first = filter@;
                    let next = at as int + 1 + Filter::value_len(data@[at as int])->0;
                    assert(next == at + width);
                    if let Ok(rest) = filters_at(data@, next) {
                        assert(before + (seq![first] + rest) =~= before.push(first) + rest);
                    }
                }
                filters.push(filter);
                proof {
                    assert(filter_views(filters@) =~= before.push(filter@));
                }
                at = at + width;
            },
        }
    }
    proof {
        assert(filters_at(data@, at as int) == Ok::<Seq<Filter<Seq<u8>>>, CodecError>(
            Seq::<Filter<Seq<u8>>>::empty(),
        ));
        assert(filter_views(filters@) + Seq::<Filter<Seq<u8>>>::empty() =~= filter_views(
            filters@,
        ));
    }
    Ok(filters)
}

/// Whether an object meets every one of the conditions.
pub fn matches_all(filters: &[Filter], info: &ObjectInfo) -> (r: bool)
    ensures
        r == admits_all(filter_views(filters@), info@),
{
    let mut i: usize = 0;
    while i < filters.len()
        invariant
            i <= filters@.len(),
            forall|k: int| 0 <= k < i ==> (#[trigger] filter_views(filters@)[k]).admits(info@),
        decreases filters@.len() - i,
    {
        if !filters[i].matches(info) {
            assert(!filter_views(filters@)[i as int].admits(info@));
            return false;
        }
        i += 1;
    }
    true
}

} // verus!
