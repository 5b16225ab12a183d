//! Where the rings lie in memory.
use vstd::prelude::*;
use crate::abi::{
    CQE_BYTES, INDEX_BYTES, IORING_FEAT_SINGLE_MMAP, IORING_OFF_CQ_RING, IORING_OFF_SQES,
    IORING_OFF_SQ_RING, Params, SQE_BYTES,
};

verus! {

/// A stretch of the ring's file descriptor to be mapped.
#[derive(Clone, Copy, Debug, PartialEq, Eq, Structural)]
pub struct Mapping {
    pub len: u64,
    pub offset: i64,
}

/// A place in a mapping.
#[derive(Clone, Copy, Debug, PartialEq, Eq, Structural)]
pub struct Place {
    /// Which of the mappings, counted from zero.
    pub mapping: usize,
    /// How many bytes from its start.
    pub offset: u64,
}

/// What is to be mapped of a new ring, and where its parts lie.
#[derive(Debug, PartialEq, Eq)]
pub struct RingLayout {
    pub fd: i32,
    /// The mappings, in the order in which they are to be made.
    pub mappings: Vec<Mapping>,
    pub sq_tail: Place,
    pub sq_mask: Place,
    pub sq_array: Place,
    pub sqes: Place,
    pub cq_head: Place,
    pub cq_tail: Place,
    pub cq_mask: Place,
    pub cqes: Place,
}

/// Bytes of the submission ring: its index array comes last.
pub open spec fn sq_bytes(p: Params) -> int {
    p.sq_off.array + p.sq_entries * INDEX_BYTES
}

/// Bytes of the completion ring: its entries come last.
pub open spec fn cq_bytes(p: Params) -> int {
    p.cq_off.cqes + p.cq_entries * CQE_BYTES
}

/// Bytes of the submission entries.
pub open spec fn sqe_bytes(p: Params) -> int {
    p.sq_entries * SQE_BYTES
}

/// Whether one mapping holds both rings.
pub open spec fn shares_mapping(p: Params) -> bool {
    p.features & IORING_FEAT_SINGLE_MMAP != 0
}

/// The mappings that a ring needs: the two rings, in one mapping as long as the
/// longer of them or in one each, and the submission entries.
pub open spec fn mappings_of(p: Params) -> Seq<Mapping> {
    let sqes = Mapping { len: sqe_bytes(p) as u64, offset: IORING_OFF_SQES };
    if shares_mapping(p) {
        let len = if sq_bytes(p) < cq_bytes(p) {
            cq_bytes(p)
        } else {
            sq_bytes(p)
        };
        seq![Mapping { len: len as u64, offset: IORING_OFF_SQ_RING }, sqes]
    } else {
        seq![
            Mapping { len: sq_bytes(p) as u64, offset: IORING_OFF_SQ_RING },
            Mapping { len: cq_bytes(p) as u64, offset: IORING_OFF_CQ_RING },
            sqes,
        ]
    }
}

/// Which mapping holds the completion ring.
pub open spec fn cq_mapping(p: Params) -> usize {
    if shares_mapping(p) {
        0
    } else {
        1
    }
}

/// How many mappings a ring needs.
pub fn mapping_count(p: &Params) -> (r: usize)
    ensures
        r == mappings_of(*p).len(),
        p.features & 1 != 0 ==> r == 2,
        p.features & 1 == 0 ==> r == 3,
{
    if p.features & IORING_FEAT_SINGLE_MMAP != 0 {
        2
    } else {
        3
    }
}

/// The `i`-th mapping that a ring needs.
pub fn mapping(p: &Params, i: usize) -> (r: Mapping)
    requires
        i < mappings_of(*p).len(),
    ensures
        r == mappings_of(*p)[i as int],
        p.features & 1 != 0 && i == 0 ==> {
            &&& r.offset == 0
            &&& r.len >= p.sq_off.array + p.sq_entries * 4
            &&& r.len >= p.cq_off.cqes + p.cq_entries * 16
            &&& r.len == p.sq_off.array + p.sq_entries * 4 || r.len == p.cq_off.cqes + p.cq_entries
                * 16
        },
        p.features & 1 == 0 && i == 0 ==> r.offset == 0 && r.len == p.sq_off.array + p.sq_entries
            * 4,
        p.features & 1 == 0 && i == 1 ==> r.offset == 0x800_0000 && r.len == p.cq_off.cqes
            + p.cq_entries * 16,
        p.features & 1 != 0 && i == 1 || i == 2 ==> r.offset == 0x1000_0000 && r.len
            == p.sq_entries * 64,
{
    if i + 1 == mapping_count(p) {
        return Mapping { len: p.sq_entries as u64 * SQE_BYTES, offset: IORING_OFF_SQES };
    }
    let sq_len: u64 = p.sq_off.array as u64 + p.sq_entries as u64 * INDEX_BYTES;
    let cq_len: u64 = p.cq_off.cqes as u64 + p.cq_entries as u64 * CQE_BYTES;
    if p.features & IORING_FEAT_SINGLE_MMAP != 0 {
        let len: u64 = if sq_len < cq_len {
            cq_len
        } else {
            sq_len
        };
        Mapping { len, offset: IORING_OFF_SQ_RING }
    } else if i == 0 {
        Mapping { len: sq_len, offset: IORING_OFF_SQ_RING }
    } else {
        Mapping { len: cq_len, offset: IORING_OFF_CQ_RING }
    }
}

impl RingLayout {
    /// Whether this is the layout of the ring that `p` describes.
    pub open spec fn describes(self, p: Params) -> bool {
        let cq = cq_mapping(p);
        &&& self.mappings@ == mappings_of(p)
        &&& self.sq_tail == Place { mapping: 0, offset: p.sq_off.tail as u64 }
        &&& self.sq_mask == Place { mapping: 0, offset: p.sq_off.ring_mask as u64 }
        &&& self.sq_array == Place { mapping: 0, offset: p.sq_off.array as u64 }
        &&& self.sqes == Place { mapping: (cq + 1) as usize, offset: 0 }
        &&& self.cq_head == Place { mapping: cq, offset: p.cq_off.head as u64 }
        &&& self.cq_tail == Place { mapping: cq, offset: p.cq_off.tail as u64 }
        &&& self.cq_mask == Place { mapping: cq, offset: p.cq_off.ring_mask as u64 }
        &&& self.cqes == Place { mapping: cq, offset: p.cq_off.cqes as u64 }
    }

    /// The layout of the ring that `io_uring_setup` made, given what it
    /// returned and what it reported; nothing where it returned no descriptor.
    pub fn new(fd: i32, p: &Params) -> (r: Option<RingLayout>)
        ensures
            match r {
                None => fd < 0,
                Some(l) => fd >= 0 && l.fd == fd && l.describes(*p),
            },
            r matches Some(l) ==> {
                let cq: int = if p.features & 1 != 0 {
                    0
                } else {
                    1
                };
                &&& l.mappings@ == mappings_of(*p)
                &&& l.sq_tail.mapping == 0 && l.sq_tail.offset == p.sq_off.tail
                &&& l.sq_mask.mapping == 0 && l.sq_mask.offset == p.sq_off.ring_mask
                &&& l.sq_array.mapping == 0 && l.sq_array.offset == p.sq_off.array
                &&& l.sqes.mapping == cq + 1 && l.sqes.offset == 0
                &&& l.cq_head.mapping == cq && l.cq_head.offset == p.cq_off.head
                &&& l.cq_tail.mapping == cq && l.cq_tail.offset == p.cq_off.tail
                &&& l.cq_mask.mapping == cq && l.cq_mask.offset == p.cq_off.ring_mask
                &&& l.cqes.mapping == cq && l.cqes.offset == p.cq_off.cqes
            },
    {
        if fd < 0 {
            return None;
        }
        let count: usize = mapping_count(p);
        let cq: usize = count - 2;
        let mut mappings: Vec<Mapping> = Vec::new();
        let mut i: usize = 0;
        while i < count
            invariant
                i <= count,
                count == mappings_of(*p).len(),
                mappings@ == mappings_of(*p).take(i as int),
            decreases count - i,
        {
            mappings.push(mapping(p, i));
            assert(mappings@ =~= mappings_of(*p).take(i + 1));
            i = i + 1;
        }
        assert(mappings@ =~= mappings_of(*p));
        Some(
            RingLayout {
                fd,
                mappings,
                sq_tail: Place { mapping: 0, offset: p.sq_off.tail as u64 },
                sq_mask: Place { mapping: 0, offset: p.sq_off.ring_mask as u64 },
                sq_array: Place { mapping: 0, offset: p.sq_off.array as u64 },
                sqes: Place { mapping: cq + 1, offset: 0 },
                cq_head: Place { mapping: cq, offset: p.cq_off.head as u64 },
                cq_tail: Place { mapping: cq, offset: p.cq_off.tail as u64 },
                cq_mask: Place { mapping: cq, offset: p.cq_off.ring_mask as u64 },
                cqes: Place { mapping: cq, offset: p.cq_off.cqes as u64 },
            },
        )
    }
}

/// Whether the `index`-th item of `size` bytes behind a place lies inside the
/// mapping that the place is in.
pub open spec fn item_fits(l: RingLayout, place: Place, index: int, size: int) -> bool {
    &&& place.mapping < l.mappings@.len()
    &&& place.offset + index * size + size <= l.mappings@[place.mapping as int].len
}

/// Every slot of the index array, every submission entry and every completion
/// entry that the kernel announced lies inside what is mapped.
pub proof fn law_slots_are_mapped(l: RingLayout, p: Params, i: int)
    requires
        l.describes(p),
        i >= 0,
    ensures
        i < p.sq_entries ==> item_fits(l, l.sq_array, i, INDEX_BYTES as int),
        i < p.sq_entries ==> item_fits(l, l.sqes, i, SQE_BYTES as int),
        i < p.cq_entries ==> item_fits(l, l.cqes, i, CQE_BYTES as int),
{
}

/// Where the masks are one less than the numbers of entries, every entry and
/// every index that is stored to queue a pair, and every completion that is
/// taken, lies inside what is mapped.
pub proof fn law_every_access_is_mapped(
    l: RingLayout,
    p: Params,
    ring: crate::ring::Ring,
    tail: u32,
    first: crate::abi::Sqe,
    second: crate::abi::Sqe,
    i: int,
    head: u32,
    to: u32,
)
    requires
        l.describes(p),
        ring.sq_mask + 1 == p.sq_entries,
        ring.cq_mask + 1 == p.cq_entries,
        0 <= i < crate::ring::stores_of_pair(tail, ring.sq_mask, first, second).len(),
    ensures
        match crate::ring::stores_of_pair(tail, ring.sq_mask, first, second)[i] {
            crate::ring::SqStore::Entry { index, .. } => item_fits(
                l,
                l.sqes,
                index as int,
                SQE_BYTES as int,
            ),
            crate::ring::SqStore::Index { index, value } => item_fits(
                l,
                l.sq_array,
                index as int,
                INDEX_BYTES as int,
            ) && item_fits(l, l.sqes, value as int, SQE_BYTES as int),
            _ => true,
        },
        crate::ring::next_take(head, to, ring.cq_mask) matches Some(t) ==> item_fits(
            l,
            l.cqes,
            t.index as int,
            CQE_BYTES as int,
        ),
{
    crate::ring::law_slots_are_in_range(tail, ring.sq_mask, first, second, i);
    match crate::ring::stores_of_pair(tail, ring.sq_mask, first, second)[i] {
        crate::ring::SqStore::Entry { index, .. } => law_slots_are_mapped(l, p, index as int),
        crate::ring::SqStore::Index { index, .. } => law_slots_are_mapped(l, p, index as int),
        _ => {},
    }
    if let Some(t) = crate::ring::next_take(head, to, ring.cq_mask) {
        law_slots_are_mapped(l, p, t.index as int);
    }
}

/// A word of four bytes in front of a ring's last part is mapped with it.
pub proof fn law_ring_words_are_mapped(l: RingLayout, p: Params)
    requires
        l.describes(p),
    ensures
        p.sq_off.tail + 4 <= p.sq_off.array ==> item_fits(l, l.sq_tail, 0, 4),
        p.sq_off.ring_mask + 4 <= p.sq_off.array ==> item_fits(l, l.sq_mask, 0, 4),
        p.cq_off.head + 4 <= p.cq_off.cqes ==> item_fits(l, l.cq_head, 0, 4),
        p.cq_off.tail + 4 <= p.cq_off.cqes ==> item_fits(l, l.cq_tail, 0, 4),
        p.cq_off.ring_mask + 4 <= p.cq_off.cqes ==> item_fits(l, l.cq_mask, 0, 4),
{
}

/// No two mappings begin at the same place of the descriptor, and two rings in
/// one mapping are both covered by it.
pub proof fn law_mappings_are_apart(p: Params)
    ensures
        forall|i: int, j: int|
            0 <= i < j < mappings_of(p).len() ==> #[trigger] mappings_of(p)[i].offset
                != #[trigger] mappings_of(p)[j].offset,
        shares_mapping(p) ==> mappings_of(p)[0].len >= sq_bytes(p) && mappings_of(p)[0].len
            >= cq_bytes(p),
{
}

/// Each mapping is exactly as long as what the kernel announced needs, and is
/// made from the place of the descriptor that belongs to it: one mapping of both
/// rings is as long as the longer of them.
pub proof fn law_mappings_are_as_long_as_needed(p: Params)
    ensures
        ({
            let m = mappings_of(p);
            let sq = p.sq_off.array + p.sq_entries * 4;
            let cq = p.cq_off.cqes + p.cq_entries * 16;
            &&& m.last().len == p.sq_entries * 64 && m.last().offset == 0x1000_0000
            &&& m[0].offset == 0
            &&& p.features & 1 != 0 ==> {
                &&& m.len() == 2
                &&& sq >= cq ==> m[0].len == sq
                &&& sq <= cq ==> m[0].len == cq
            }
            &&& p.features & 1 == 0 ==> {
                &&& m.len() == 3
                &&& m[0].len == sq
                &&& m[1].len == cq
                &&& m[1].offset == 0x800_0000
            }
        }),
{
}

/// Every part of a ring lies where the kernel announced it: the parts of the
/// submission ring in the first mapping, those of the completion ring in the same
/// one where both share it and in the second one else, and the entries at the
/// start of the last.
pub proof fn law_parts_lie_where_they_were_announced(l: RingLayout, p: Params)
    requires
        l.describes(p),
    ensures
        l.sq_tail.offset == p.sq_off.tail,
        l.sq_mask.offset == p.sq_off.ring_mask,
        l.sq_array.offset == p.sq_off.array,
        l.cq_head.offset == p.cq_off.head,
        l.cq_tail.offset == p.cq_off.tail,
        l.cq_mask.offset == p.cq_off.ring_mask,
        l.cqes.offset == p.cq_off.cqes,
        l.sqes.offset == 0,
        l.sq_tail.mapping == 0 && l.sq_mask.mapping == 0 && l.sq_array.mapping == 0,
        l.sqes.mapping + 1 == l.mappings@.len(),
        ({
            let cq: int = if p.features & 1 != 0 {
                0
            } else {
                1
            };
            &&& l.cq_head.mapping == cq && l.cq_tail.mapping == cq
            &&& l.cq_mask.mapping == cq && l.cqes.mapping == cq
        }),
        l.mappings@ == mappings_of(p),
{
}

} // verus!
