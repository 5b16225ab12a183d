//! The part of the io_uring interface that the program speaks.
use vstd::prelude::*;

verus! {

/// The argument of `TCFLSH` that discards unread input.
pub const TCIFLUSH: i32 = 0;

/// Opcode of a plain read.
pub const IORING_OP_READ: u8 = 22;

/// Opcode of a timeout that guards the entry queued before it.
pub const IORING_OP_LINK_TIMEOUT: u8 = 15;

/// Entry flag: the next entry belongs to this one.
pub const IOSQE_IO_LINK: u8 = 4;

/// Tag of the read, handed back in its completion.
pub const USER_DATA_READ: u64 = 0x1623;

/// Tag of the link timeout, handed back in its completion.
pub const USER_DATA_TIMEOUT: u64 = 0x1624;

/// Where the submission ring is mapped from.
pub const IORING_OFF_SQ_RING: i64 = 0;

/// Where the completion ring is mapped from.
pub const IORING_OFF_CQ_RING: i64 = 0x800_0000;

/// Where the submission entries are mapped from.
pub const IORING_OFF_SQES: i64 = 0x1000_0000;

/// Feature bit: one mapping holds both rings.
pub const IORING_FEAT_SINGLE_MMAP: u32 = 1;

/// How many submission entries are asked for.
pub const RING_ENTRIES: u32 = 8;

/// Bytes of one submission entry.
pub const SQE_BYTES: u64 = 64;

/// Bytes of one completion entry.
pub const CQE_BYTES: u64 = 16;

/// Bytes of one slot of the submission index array.
pub const INDEX_BYTES: u64 = 4;

/// Result of a completion whose operation was cancelled.
pub const NEG_ECANCELED: i32 = -125;

/// Result of a timeout that fired.
pub const NEG_ETIME: i32 = -62;

/// A submission entry.
#[derive(Clone, Copy, Debug, PartialEq, Eq, Structural)]
pub struct Sqe {
    pub opcode: u8,
    pub flags: u8,
    pub ioprio: u16,
    pub fd: i32,
    pub off: u64,
    pub addr: u64,
    pub len: u32,
    pub rw_flags: u32,
    pub user_data: u64,
    pub buf_index: u16,
    pub personality: u16,
    pub splice_fd_in: i32,
    pub addr3: u64,
    pub pad2: u64,
}

/// The submission entry whose fields are all zero.
pub open spec fn zero_sqe() -> Sqe {
    Sqe {
        opcode: 0,
        flags: 0,
        ioprio: 0,
        fd: 0,
        off: 0,
        addr: 0,
        len: 0,
        rw_flags: 0,
        user_data: 0,
        buf_index: 0,
        personality: 0,
        splice_fd_in: 0,
        addr3: 0,
        pad2: 0,
    }
}

impl Default for Sqe {
    fn default() -> (r: Sqe)
        ensures
            r == zero_sqe(),
            r.opcode == 0 && r.flags == 0 && r.ioprio == 0 && r.fd == 0 && r.off == 0,
            r.addr == 0 && r.len == 0 && r.rw_flags == 0 && r.user_data == 0,
            r.buf_index == 0 && r.personality == 0 && r.splice_fd_in == 0,
            r.addr3 == 0 && r.pad2 == 0,
    {
        Sqe {
            opcode: 0,
            flags: 0,
            ioprio: 0,
            fd: 0,
            off: 0,
            addr: 0,
            len: 0,
            rw_flags: 0,
            user_data: 0,
            buf_index: 0,
            personality: 0,
            splice_fd_in: 0,
            addr3: 0,
            pad2: 0,
        }
    }
}

/// A completion entry.
#[derive(Clone, Copy, Debug, PartialEq, Eq, Structural)]
pub struct Cqe {
    pub user_data: u64,
    pub res: i32,
    pub flags: u32,
}

/// A relative time, as the kernel reads it.
#[derive(Clone, Copy, Debug, PartialEq, Eq, Structural)]
pub struct Timespec {
    pub tv_sec: i64,
    pub tv_nsec: i64,
}

/// Byte offsets of the fields of the submission ring.
#[derive(Clone, Copy, Debug, PartialEq, Eq, Structural)]
pub struct SqringOffsets {
    pub head: u32,
    pub tail: u32,
    pub ring_mask: u32,
    pub ring_entries: u32,
    pub flags: u32,
    pub dropped: u32,
    pub array: u32,
    pub resv1: u32,
    pub user_addr: u64,
}

/// Byte offsets of the fields of the completion ring.
#[derive(Clone, Copy, Debug, PartialEq, Eq, Structural)]
pub struct CqringOffsets {
    pub head: u32,
    pub tail: u32,
    pub ring_mask: u32,
    pub ring_entries: u32,
    pub overflow: u32,
    pub cqes: u32,
    pub flags: u32,
    pub resv1: u32,
    pub user_addr: u64,
}

/// What `io_uring_setup` reports of a new ring.
#[derive(Clone, Copy, Debug, PartialEq, Eq)]
pub struct Params {
    pub sq_entries: u32,
    pub cq_entries: u32,
    pub flags: u32,
    pub sq_thread_cpu: u32,
    pub sq_thread_idle: u32,
    pub features: u32,
    pub wq_fd: u32,
    pub resv: [u32; 3],
    pub sq_off: SqringOffsets,
    pub cq_off: CqringOffsets,
}

impl Params {
    /// Whether all fields are zero.
    pub open spec fn is_zero(self) -> bool {
        &&& self.sq_entries == 0
        &&& self.cq_entries == 0
        &&& self.flags == 0
        &&& self.sq_thread_cpu == 0
        &&& self.sq_thread_idle == 0
        &&& self.features == 0
        &&& self.wq_fd == 0
        &&& self.resv@ == seq![0u32, 0, 0]
        &&& self.sq_off == (SqringOffsets {
            head: 0,
            tail: 0,
            ring_mask: 0,
            ring_entries: 0,
            flags: 0,
            dropped: 0,
            array: 0,
            resv1: 0,
            user_addr: 0,
        })
        &&& self.cq_off == (CqringOffsets {
            head: 0,
            tail: 0,
            ring_mask: 0,
            ring_entries: 0,
            overflow: 0,
            cqes: 0,
            flags: 0,
            resv1: 0,
            user_addr: 0,
        })
    }
}

impl Default for Params {
    fn default() -> (r: Params)
        ensures
            r.is_zero(),
            r.sq_entries == 0 && r.cq_entries == 0 && r.flags == 0 && r.features == 0,
            r.sq_thread_cpu == 0 && r.sq_thread_idle == 0 && r.wq_fd == 0,
            r.resv@ == seq![0u32, 0u32, 0u32],
            r.sq_off.head == 0 && r.sq_off.tail == 0 && r.sq_off.ring_mask == 0,
            r.sq_off.ring_entries == 0 && r.sq_off.flags == 0 && r.sq_off.dropped == 0,
            r.sq_off.array == 0 && r.sq_off.resv1 == 0 && r.sq_off.user_addr == 0,
            r.cq_off.head == 0 && r.cq_off.tail == 0 && r.cq_off.ring_mask == 0,
            r.cq_off.ring_entries == 0 && r.cq_off.overflow == 0 && r.cq_off.cqes == 0,
            r.cq_off.flags == 0 && r.cq_off.resv1 == 0 && r.cq_off.user_addr == 0,
    {
        let r = Params {
            sq_entries: 0,
            cq_entries: 0,
            flags: 0,
            sq_thread_cpu: 0,
            sq_thread_idle: 0,
            features: 0,
            wq_fd: 0,
            resv: [0, 0, 0],
            sq_off: SqringOffsets {
                head: 0,
                tail: 0,
                ring_mask: 0,
                ring_entries: 0,
                flags: 0,
                dropped: 0,
                array: 0,
                resv1: 0,
                user_addr: 0,
            },
            cq_off: CqringOffsets {
                head: 0,
                tail: 0,
                ring_mask: 0,
                ring_entries: 0,
                overflow: 0,
                cqes: 0,
                flags: 0,
                resv1: 0,
                user_addr: 0,
            },
        };
        assert(r.resv@ =~= seq![0u32, 0, 0]);
        r
    }
}

} // verus!
