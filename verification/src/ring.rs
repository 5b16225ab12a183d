//! The two rings shared with the kernel: what is stored to queue an operation,
//! and what is loaded to take a completion.
//!
//! Positions in a ring count up and wrap at 32 bits. The slot of a position is
//! its low bits, selected by a mask that is one less than the ring's length.
use vstd::prelude::*;
use crate::abi::{
    Cqe, IORING_OP_LINK_TIMEOUT, IORING_OP_READ, IOSQE_IO_LINK, Sqe, USER_DATA_READ,
    USER_DATA_TIMEOUT,
};

verus! {

// -------------------------------------------------------------- positions

/// The position `i` steps behind `start`.
pub open spec fn position(start: u32, i: int) -> u32 {
    ((start + i) % 0x1_0000_0000) as u32
}

/// How many steps lead from one position to another.
pub open spec fn distance(from: u32, to: u32) -> nat {
    ((to - from) % 0x1_0000_0000) as nat
}

/// The slot that a position falls on.
pub open spec fn slot(pos: u32, mask: u32) -> u32 {
    pos & mask
}

/// Whether `mask` is one less than a power of two of at most 31 bits.
pub open spec fn is_ring_mask(mask: u32) -> bool {
    mask < u32::MAX && mask & ((mask + 1) as u32) == 0
}

proof fn lemma_slot_in_range(pos: u32, mask: u32)
    ensures
        slot(pos, mask) <= mask,
{
    assert(pos & mask <= mask) by (bit_vector);
}

proof fn lemma_slots_differ(start: u32, i: int, j: int, mask: u32)
    requires
        is_ring_mask(mask),
        0 <= i < j,
        j - i <= mask,
    ensures
        slot(position(start, i), mask) != slot(position(start, j), mask),
{
    let a = position(start, i);
    let b = position(start, j);
    let d = (j - i) as u32;
    let next = (mask + 1) as u32;
    assert(b == (a + d) % 0x1_0000_0000);
    assert(a & mask != b & mask) by (bit_vector)
        requires
            next == mask + 1,
            mask & next == 0,
            0 < d <= mask,
            b == (a + d) % 0x1_0000_0000,
    ;
}

proof fn lemma_position_at_distance(from: u32, to: u32, i: int)
    ensures
        position(from, distance(from, to) + i) == position(to, i),
{
}

// ------------------------------------------------------------- submission

/// One store into the memory of the submission ring.
#[derive(Clone, Copy, Debug, PartialEq, Eq)]
pub enum SqStore {
    /// The entry in a slot.
    Entry { index: u32, sqe: Sqe },
    /// The entry number in a slot of the index array.
    Index { index: u32, value: u32 },
    /// A release fence: no store before it is seen after one behind it.
    Fence,
    /// The position up to which the kernel may read.
    Tail { value: u32 },
}

/// A read of `len` bytes at the current file position, guarded by the entry
/// that follows it.
pub open spec fn read_entry(fd: i32, addr: u64, len: u32) -> Sqe {
    Sqe {
        opcode: IORING_OP_READ,
        flags: IOSQE_IO_LINK,
        fd,
        off: u64::MAX,
        addr,
        len,
        user_data: USER_DATA_READ,
        ..crate::abi::zero_sqe()
    }
}

/// A timeout, given by the address of one time value, for the entry before it.
pub open spec fn timeout_entry(timeout: u64) -> Sqe {
    Sqe {
        opcode: IORING_OP_LINK_TIMEOUT,
        addr: timeout,
        len: 1,
        user_data: USER_DATA_TIMEOUT,
        ..crate::abi::zero_sqe()
    }
}

/// The stores that queue `first` and `second` behind position `tail`.
pub open spec fn stores_of_pair(tail: u32, mask: u32, first: Sqe, second: Sqe) -> Seq<SqStore> {
    let a = slot(tail, mask);
    let b = slot(position(tail, 1), mask);
    seq![
        SqStore::Entry { index: a, sqe: first },
        SqStore::Index { index: a, value: a },
        SqStore::Entry { index: b, sqe: second },
        SqStore::Index { index: b, value: b },
        SqStore::Fence,
        SqStore::Tail { value: position(tail, 2) },
    ]
}

/// The memory of a submission ring.
pub struct SqMemory {
    pub tail: u32,
    pub array: Seq<u32>,
    pub sqes: Seq<Sqe>,
}

impl SqMemory {
    /// The memory after one store.
    pub open spec fn store(self, s: SqStore) -> SqMemory {
        match s {
            SqStore::Entry { index, sqe } => SqMemory {
                sqes: self.sqes.update(index as int, sqe),
                ..self
            },
            SqStore::Index { index, value } => SqMemory {
                array: self.array.update(index as int, value),
                ..self
            },
            SqStore::Fence => self,
            SqStore::Tail { value } => SqMemory { tail: value, ..self },
        }
    }

    /// The memory after some stores, made in order.
    pub open spec fn store_all(self, stores: Seq<SqStore>) -> SqMemory
        decreases stores.len(),
    {
        if stores.len() == 0 {
            self
        } else {
            self.store_all(stores.drop_last()).store(stores.last())
        }
    }

    /// Whether the memory has one slot per value of the mask.
    pub open spec fn wf(self, mask: u32) -> bool {
        &&& is_ring_mask(mask)
        &&& self.array.len() == mask + 1
        &&& self.sqes.len() == mask + 1
    }

    /// What the kernel finds at a position.
    pub open spec fn entry_at(self, pos: u32, mask: u32) -> Sqe {
        self.sqes[self.array[slot(pos, mask) as int] as int]
    }

    /// What the kernel, which has read up to `head`, still finds queued.
    pub open spec fn queued(self, head: u32, mask: u32) -> Seq<Sqe> {
        Seq::new(distance(head, self.tail), |i: int| self.entry_at(position(head, i), mask))
    }

    /// Whether every queued position is served by the entry of its own slot.
    pub open spec fn in_place(self, head: u32, mask: u32) -> bool {
        forall|i: int|
            0 <= i < distance(head, self.tail) ==> self.array[slot(
                #[trigger] position(head, i),
                mask,
            ) as int] == slot(position(head, i), mask)
    }
}

/// The masks of a ring that is set up.
#[derive(Clone, Copy, Debug, PartialEq, Eq, Structural)]
pub struct Ring {
    pub fd: i32,
    pub sq_mask: u32,
    pub cq_mask: u32,
}

impl Ring {
    /// The stores that queue a read with a link timeout, in the order in which
    /// they are to be made, given the tail that the ring holds.
    pub fn submit_read_with_timeout(
        &self,
        tail: u32,
        fd: i32,
        addr: u64,
        len: u32,
        timeout: u64,
    ) -> (r: Vec<SqStore>)
        ensures
            r@ == stores_of_pair(
                tail,
                self.sq_mask,
                read_entry(fd, addr, len),
                timeout_entry(timeout),
            ),
            r@.len() == 6,
            r@[0] matches SqStore::Entry { index, sqe } && {
                &&& index == tail & self.sq_mask
                &&& sqe.opcode == 22
                &&& sqe.flags == 4
                &&& sqe.ioprio == 0
                &&& sqe.fd == fd
                &&& sqe.off == 0xffff_ffff_ffff_ffff
                &&& sqe.addr == addr
                &&& sqe.len == len
                &&& sqe.rw_flags == 0
                &&& sqe.user_data == 0x1623
                &&& sqe.buf_index == 0
                &&& sqe.personality == 0
                &&& sqe.splice_fd_in == 0
                &&& sqe.addr3 == 0
                &&& sqe.pad2 == 0
            },
            r@[1] == (SqStore::Index { index: tail & self.sq_mask, value: tail & self.sq_mask }),
            r@[2] matches SqStore::Entry { index, sqe } && {
                &&& index == ((tail + 1) % 0x1_0000_0000) as u32 & self.sq_mask
                &&& sqe.opcode == 15
                &&& sqe.flags == 0
                &&& sqe.ioprio == 0
                &&& sqe.fd == 0
                &&& sqe.off == 0
                &&& sqe.addr == timeout
                &&& sqe.len == 1
                &&& sqe.rw_flags == 0
                &&& sqe.user_data == 0x1624
                &&& sqe.buf_index == 0
                &&& sqe.personality == 0
                &&& sqe.splice_fd_in == 0
                &&& sqe.addr3 == 0
                &&& sqe.pad2 == 0
            },
            r@[3] matches SqStore::Index { index, value } && {
                &&& index == ((tail + 1) % 0x1_0000_0000) as u32 & self.sq_mask
                &&& value == index
            },
            r@[4] is Fence,
            r@[5] == (SqStore::Tail { value: ((tail + 2) % 0x1_0000_0000) as u32 }),
    {
        let mut stores: Vec<SqStore> = Vec::new();

        let idx: u32 = tail & self.sq_mask;
        let mut sqe = Sqe::default();
        sqe.opcode = IORING_OP_READ;
        sqe.flags = IOSQE_IO_LINK;
        sqe.fd = fd;
        sqe.off = u64::MAX;
        sqe.addr = addr;
        sqe.len = len;
        sqe.user_data = USER_DATA_READ;
        stores.push(SqStore::Entry { index: idx, sqe });
        stores.push(SqStore::Index { index: idx, value: idx });

        let idx: u32 = tail.wrapping_add(1) & self.sq_mask;
        let mut sqe = Sqe::default();
        sqe.opcode = IORING_OP_LINK_TIMEOUT;
        sqe.addr = timeout;
        sqe.len = 1;
        sqe.user_data = USER_DATA_TIMEOUT;
        stores.push(SqStore::Entry { index: idx, sqe });
        stores.push(SqStore::Index { index: idx, value: idx });

        stores.push(SqStore::Fence);
        stores.push(SqStore::Tail { value: tail.wrapping_add(2) });
        stores
    }

    /// Where the oldest completion lies and which head is to be stored once it
    /// has been copied, or nothing where no completion waits.
    pub fn peek_cqe(&self, head: u32, tail: u32) -> (r: Option<CqTake>)
        ensures
            r == next_take(head, tail, self.cq_mask),
            r is None <==> head == tail,
            r matches Some(t) ==> {
                &&& t.index == head & self.cq_mask
                &&& t.next_head == (head + 1) % 0x1_0000_0000
            },
    {
        if head == tail {
            return None;
        }
        Some(CqTake { index: head & self.cq_mask, next_head: head.wrapping_add(1) })
    }
}

// ------------------------------------------------------------- completion

/// How one completion is taken out of the ring.
#[derive(Clone, Copy, Debug, PartialEq, Eq, Structural)]
pub struct CqTake {
    /// The slot to copy the completion from.
    pub index: u32,
    /// The head to store afterwards.
    pub next_head: u32,
}

/// How the oldest completion between `head` and `tail` is taken.
pub open spec fn next_take(head: u32, tail: u32, mask: u32) -> Option<CqTake> {
    if head == tail {
        None
    } else {
        Some(CqTake { index: slot(head, mask), next_head: position(head, 1) })
    }
}

/// The completions that wait between `head` and `tail`, oldest first.
pub open spec fn waiting(cqes: Seq<Cqe>, head: u32, tail: u32, mask: u32) -> Seq<Cqe> {
    Seq::new(distance(head, tail), |i: int| cqes[slot(position(head, i), mask) as int])
}

/// How many completions wait between `head` and `tail`.
pub fn completions(head: u32, tail: u32) -> (r: u32)
    ensures
        r == distance(head, tail),
        r == (tail - head) % 0x1_0000_0000,
{
    tail.wrapping_sub(head)
}

// ------------------------------------------------------------------- laws

proof fn lemma_store_one_more(m: SqMemory, s: Seq<SqStore>, k: int)
    requires
        0 < k <= s.len(),
    ensures
        m.store_all(s.take(k)) == m.store_all(s.take(k - 1)).store(s[k - 1]),
{
    assert(s.take(k).drop_last() =~= s.take(k - 1));
}

/// What the first `k` stores of a pair leave of the ring, for `k` short of the
/// last one: the tail is as it was, the ring has its size, every slot but the
/// two behind the tail is as it was, and these hold what was stored so far.
proof fn lemma_before_tail(m: SqMemory, mask: u32, first: Sqe, second: Sqe, k: int)
    requires
        m.wf(mask),
        0 <= k < 6,
    ensures
        ({
            let s = stores_of_pair(m.tail, mask, first, second);
            let n = m.store_all(s.take(k));
            let a = slot(m.tail, mask);
            let b = slot(position(m.tail, 1), mask);
            &&& n.wf(mask)
            &&& n.tail == m.tail
            &&& forall|i: int|
                0 <= i <= mask && i != a && i != b ==> #[trigger] n.array[i] == m.array[i]
                    && n.sqes[i] == m.sqes[i]
            &&& k >= 1 && a != b ==> n.sqes[a as int] == first
            &&& k >= 2 && a != b ==> n.array[a as int] == a
            &&& k >= 3 ==> n.sqes[b as int] == second
            &&& k >= 4 ==> n.array[b as int] == b
        }),
    decreases k,
{
    let s = stores_of_pair(m.tail, mask, first, second);
    lemma_slot_in_range(m.tail, mask);
    lemma_slot_in_range(position(m.tail, 1), mask);
    if k > 0 {
        lemma_before_tail(m, mask, first, second, k - 1);
        lemma_store_one_more(m, s, k);
        let before = m.store_all(s.take(k - 1));
        let n = m.store_all(s.take(k));
        assert forall|i: int|
            0 <= i <= mask && i != slot(m.tail, mask) && i != slot(
                position(m.tail, 1),
                mask,
            ) implies #[trigger] n.array[i] == m.array[i] && n.sqes[i] == m.sqes[i] by {
            assert(before.array[i] == m.array[i]);
        }
    }
}

/// Until the very last store has been made, the kernel finds what it found
/// before: no half-written entry is ever published.
///
/// The ring must have two free slots, and its queued entries must lie in place.
pub proof fn law_nothing_is_published_early(
    m: SqMemory,
    head: u32,
    mask: u32,
    first: Sqe,
    second: Sqe,
    k: int,
)
    requires
        m.wf(mask),
        m.in_place(head, mask),
        distance(head, m.tail) + 2 <= mask + 1,
        0 <= k < stores_of_pair(m.tail, mask, first, second).len(),
    ensures
        m.store_all(stores_of_pair(m.tail, mask, first, second).take(k)).queued(head, mask)
            == m.queued(head, mask),
{
    let s = stores_of_pair(m.tail, mask, first, second);
    let n = m.store_all(s.take(k));
    lemma_before_tail(m, mask, first, second, k);
    let used = distance(head, m.tail) as int;
    lemma_position_at_distance(head, m.tail, 0);
    lemma_position_at_distance(head, m.tail, 1);
    assert forall|i: int| 0 <= i < used implies #[trigger] n.queued(head, mask)[i] == m.queued(
        head,
        mask,
    )[i] by {
        lemma_slots_differ(head, i, used, mask);
        lemma_slots_differ(head, i, used + 1, mask);
        lemma_slot_in_range(position(head, i), mask);
    }
    assert(n.queued(head, mask) =~= m.queued(head, mask));
}

/// Once all stores have been made, the kernel finds what it found before and
/// behind it the two new entries, in order; the entries lie in place again.
pub proof fn law_a_pair_is_queued(m: SqMemory, head: u32, mask: u32, first: Sqe, second: Sqe)
    requires
        m.wf(mask),
        m.in_place(head, mask),
        distance(head, m.tail) + 2 <= mask + 1,
    ensures
        ({
            let n = m.store_all(stores_of_pair(m.tail, mask, first, second));
            &&& n.queued(head, mask) == m.queued(head, mask).push(first).push(second)
            &&& n.wf(mask)
            &&& n.in_place(head, mask)
        }),
{
    let s = stores_of_pair(m.tail, mask, first, second);
    let before = m.store_all(s.take(5));
    let n = m.store_all(s);
    let used = distance(head, m.tail) as int;
    lemma_before_tail(m, mask, first, second, 5);
    law_nothing_is_published_early(m, head, mask, first, second, 5);
    lemma_store_one_more(m, s, 6);
    assert(s.take(6) =~= s);
    assert(n == SqMemory { tail: position(m.tail, 2), ..before });
    assert(distance(head, n.tail) == used + 2);
    lemma_position_at_distance(head, m.tail, 0);
    lemma_position_at_distance(head, m.tail, 1);
    lemma_slots_differ(head, used, used + 1, mask);
    assert forall|i: int| 0 <= i < used + 2 implies n.array[slot(
        #[trigger] position(head, i),
        mask,
    ) as int] == slot(position(head, i), mask) by {
        if i < used {
            lemma_slots_differ(head, i, used, mask);
            lemma_slots_differ(head, i, used + 1, mask);
            lemma_slot_in_range(position(head, i), mask);
        }
    }
    let grown = m.queued(head, mask).push(first).push(second);
    assert forall|i: int| 0 <= i < used + 2 implies #[trigger] n.queued(head, mask)[i]
        == grown[i] by {
        if i < used {
            assert(before.queued(head, mask)[i] == m.queued(head, mask)[i]);
        }
    }
    assert(n.queued(head, mask) =~= grown);
}

/// Taking hands out the oldest waiting completion and leaves the others, and
/// nothing is handed out exactly when nothing waits.
pub proof fn law_taking_drains_in_order(cqes: Seq<Cqe>, head: u32, tail: u32, mask: u32)
    ensures
        match next_take(head, tail, mask) {
            None => waiting(cqes, head, tail, mask) == Seq::<Cqe>::empty(),
            Some(t) => {
                &&& waiting(cqes, head, tail, mask).len() > 0
                &&& cqes[t.index as int] == waiting(cqes, head, tail, mask)[0]
                &&& waiting(cqes, t.next_head, tail, mask) == waiting(
                    cqes,
                    head,
                    tail,
                    mask,
                ).drop_first()
            },
        },
{
    match next_take(head, tail, mask) {
        None => {
            assert(waiting(cqes, head, tail, mask) =~= Seq::<Cqe>::empty());
        },
        Some(t) => {
            let rest = waiting(cqes, head, tail, mask).drop_first();
            assert(distance(t.next_head, tail) + 1 == distance(head, tail));
            assert forall|i: int| 0 <= i < rest.len() implies waiting(
                cqes,
                t.next_head,
                tail,
                mask,
            )[i] == #[trigger] rest[i] by {
                assert(position(t.next_head, i) == position(head, i + 1));
            }
            assert(waiting(cqes, t.next_head, tail, mask) =~= rest);
        },
    }
}

/// What `n` takes hand out, one after the other, up to the first that hands out
/// nothing.
pub open spec fn taken(cqes: Seq<Cqe>, head: u32, tail: u32, mask: u32, n: nat) -> Seq<Cqe>
    decreases n,
{
    if n == 0 {
        Seq::empty()
    } else {
        match next_take(head, tail, mask) {
            None => Seq::empty(),
            Some(t) => seq![cqes[t.index as int]] + taken(
                cqes,
                t.next_head,
                tail,
                mask,
                (n - 1) as nat,
            ),
        }
    }
}

/// The head after `n` takes.
pub open spec fn head_after(head: u32, tail: u32, mask: u32, n: nat) -> u32
    decreases n,
{
    if n == 0 {
        head
    } else {
        match next_take(head, tail, mask) {
            None => head,
            Some(t) => head_after(t.next_head, tail, mask, (n - 1) as nat),
        }
    }
}

/// As many takes as completions wait hand out all of them, in order, and one
/// more hands out nothing; fewer takes hand out the oldest of them.
pub proof fn law_takes_hand_out_what_waits(
    cqes: Seq<Cqe>,
    head: u32,
    tail: u32,
    mask: u32,
    n: nat,
)
    requires
        n <= distance(head, tail),
    ensures
        taken(cqes, head, tail, mask, n) == waiting(cqes, head, tail, mask).take(n as int),
        head_after(head, tail, mask, n) == position(head, n as int),
        n == distance(head, tail) ==> {
            &&& taken(cqes, head, tail, mask, n) == waiting(cqes, head, tail, mask)
            &&& head_after(head, tail, mask, n) == tail
            &&& next_take(head_after(head, tail, mask, n), tail, mask) is None
        },
    decreases n,
{
    let all = waiting(cqes, head, tail, mask);
    if n > 0 {
        law_taking_drains_in_order(cqes, head, tail, mask);
        let t = next_take(head, tail, mask)->0;
        let rest = waiting(cqes, t.next_head, tail, mask);
        assert(distance(t.next_head, tail) + 1 == distance(head, tail));
        law_takes_hand_out_what_waits(cqes, t.next_head, tail, mask, (n - 1) as nat);
        assert(seq![all[0]] + rest.take(n - 1) =~= all.take(n as int));
        assert(position(t.next_head, n - 1) == position(head, n as int));
    } else {
        assert(all.take(0) =~= Seq::<Cqe>::empty());
    }
    if n == distance(head, tail) {
        assert(all.take(n as int) =~= all);
    }
}

/// Every slot that is stored to or loaded from lies within a ring that has one
/// slot per value of its mask.
pub proof fn law_slots_are_in_range(tail: u32, sq_mask: u32, first: Sqe, second: Sqe, i: int)
    requires
        0 <= i < stores_of_pair(tail, sq_mask, first, second).len(),
    ensures
        match stores_of_pair(tail, sq_mask, first, second)[i] {
            SqStore::Entry { index, .. } => index <= sq_mask,
            SqStore::Index { index, value } => index <= sq_mask && value <= sq_mask,
            _ => true,
        },
        forall|head: u32, to: u32, cq_mask: u32|
            #[trigger] next_take(head, to, cq_mask) matches Some(t) ==> t.index <= cq_mask,
{
    lemma_slot_in_range(tail, sq_mask);
    lemma_slot_in_range(position(tail, 1), sq_mask);
    assert forall|head: u32, to: u32, cq_mask: u32|
        (#[trigger] next_take(head, to, cq_mask) matches Some(t) ==> t.index <= cq_mask) by {
        lemma_slot_in_range(head, cq_mask);
    }
}

/// A queued pair is a read with the file, the buffer and the length that were
/// asked for, linked to the entry behind it, and a timeout with the address that
/// was asked for; of both, nothing else is set.
pub proof fn law_a_pair_is_what_was_asked_for(
    tail: u32,
    mask: u32,
    fd: i32,
    addr: u64,
    len: u32,
    timeout: u64,
)
    ensures
        ({
            let s = stores_of_pair(tail, mask, read_entry(fd, addr, len), timeout_entry(timeout));
            &&& s[0] matches SqStore::Entry { sqe, .. } && {
                &&& sqe.opcode == 22 && sqe.flags == 4 && sqe.user_data == 0x1623
                &&& sqe.fd == fd && sqe.addr == addr && sqe.len == len
                &&& sqe.off == 0xffff_ffff_ffff_ffff
                &&& sqe.ioprio == 0 && sqe.rw_flags == 0 && sqe.buf_index == 0
                &&& sqe.personality == 0 && sqe.splice_fd_in == 0
                &&& sqe.addr3 == 0 && sqe.pad2 == 0
            }
            &&& s[2] matches SqStore::Entry { sqe, .. } && {
                &&& sqe.opcode == 15 && sqe.flags == 0 && sqe.user_data == 0x1624
                &&& sqe.fd == 0 && sqe.addr == timeout && sqe.len == 1
                &&& sqe.off == 0
                &&& sqe.ioprio == 0 && sqe.rw_flags == 0 && sqe.buf_index == 0
                &&& sqe.personality == 0 && sqe.splice_fd_in == 0
                &&& sqe.addr3 == 0 && sqe.pad2 == 0
            }
        }),
{
}

/// Requests that differ in the file, the buffer, the length or the address of
/// the timeout never queue the same pair.
pub proof fn law_different_requests_differ(
    fds: (i32, i32),
    addrs: (u64, u64),
    lens: (u32, u32),
    timeouts: (u64, u64),
)
    ensures
        read_entry(fds.0, addrs.0, lens.0) == read_entry(fds.1, addrs.1, lens.1) <==> fds.0
            == fds.1 && addrs.0 == addrs.1 && lens.0 == lens.1,
        timeout_entry(timeouts.0) == timeout_entry(timeouts.1) <==> timeouts.0 == timeouts.1,
{
    let a = read_entry(fds.0, addrs.0, lens.0);
    let b = read_entry(fds.1, addrs.1, lens.1);
    assert(a == b ==> a.fd == b.fd && a.addr == b.addr && a.len == b.len);
    assert(timeout_entry(timeouts.0).addr == timeouts.0);
    assert(timeout_entry(timeouts.1).addr == timeouts.1);
}

/// What a pair of stores does to the ring: each entry goes into the slot of its
/// position, the index array names that slot, the fence comes before the new
/// tail, and that is two steps ahead, wrapping at 32 bits.
pub proof fn law_each_store_has_its_place(tail: u32, mask: u32, first: Sqe, second: Sqe)
    ensures
        ({
            let s = stores_of_pair(tail, mask, first, second);
            let next = ((tail + 1) % 0x1_0000_0000) as u32;
            &&& s.len() == 6
            &&& s[0] == (SqStore::Entry { index: tail & mask, sqe: first })
            &&& s[1] == (SqStore::Index { index: tail & mask, value: tail & mask })
            &&& s[2] == (SqStore::Entry { index: next & mask, sqe: second })
            &&& s[3] == (SqStore::Index { index: next & mask, value: next & mask })
            &&& s[4] is Fence
            &&& s[5] matches SqStore::Tail { value } && (value == tail + 2 || value + 0x1_0000_0000
                == tail + 2)
        }),
{
}

/// A take comes exactly where the two positions differ; it reads the slot of the
/// head and moves the head by one step, wrapping at 32 bits, whatever the tail.
pub proof fn law_a_take_moves_one_step(head: u32, tail: u32, mask: u32)
    ensures
        next_take(head, tail, mask) is None <==> head == tail,
        next_take(head, tail, mask) matches Some(t) ==> {
            &&& t.index == head & mask
            &&& t.next_head == if head == 0xffff_ffff {
                0
            } else {
                head + 1
            }
        },
{
}

/// As many steps as lead from one position to another, and no fewer, lead there:
/// the distance is what the second is ahead of the first, or, where the count
/// has wrapped in between, what it is ahead plus the full range.
pub proof fn law_distance_leads_there(from: u32, to: u32)
    ensures
        from <= to ==> distance(from, to) == to - from,
        from > to ==> distance(from, to) == to - from + 0x1_0000_0000,
        position(from, distance(from, to) as int) == to,
        forall|i: int|
            0 <= i < distance(from, to) ==> #[trigger] position(from, i) != to,
{
}


} // verus!
