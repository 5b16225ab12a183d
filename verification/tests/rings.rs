use ttyhang::abi::{
    CqringOffsets, Params, Sqe, SqringOffsets, IORING_FEAT_SINGLE_MMAP, IORING_OFF_CQ_RING,
    IORING_OFF_SQES, IORING_OFF_SQ_RING, RING_ENTRIES, TCIFLUSH,
};
use ttyhang::affinity::{first_cpu, only_cpu, pin_current_cpu, pin_mask, MASK_WORDS};
use ttyhang::layout::{mapping, mapping_count, Mapping, Place, RingLayout};
use ttyhang::ring::{completions, CqTake, Ring, SqStore};
use ttyhang::setup::{RingSetup, SetupAction, SetupReply};

fn params(features: u32) -> Params {
    Params {
        sq_entries: 8,
        cq_entries: 16,
        flags: 0,
        sq_thread_cpu: 0,
        sq_thread_idle: 0,
        features,
        wq_fd: 0,
        resv: [0; 3],
        sq_off: SqringOffsets {
            head: 0,
            tail: 64,
            ring_mask: 256,
            ring_entries: 264,
            flags: 276,
            dropped: 272,
            array: 576,
            resv1: 0,
            user_addr: 0,
        },
        cq_off: CqringOffsets {
            head: 128,
            tail: 192,
            ring_mask: 260,
            ring_entries: 268,
            overflow: 284,
            cqes: 320,
            flags: 280,
            resv1: 0,
            user_addr: 0,
        },
    }
}

#[test]
fn one_mapping_is_as_long_as_the_longer_ring() {
    let layout = RingLayout::new(5, &params(IORING_FEAT_SINGLE_MMAP | 0x40)).unwrap();
    assert_eq!(layout.fd, 5);
    assert_eq!(
        layout.mappings,
        vec![
            Mapping { len: 576 + 8 * 4, offset: IORING_OFF_SQ_RING },
            Mapping { len: 8 * 64, offset: IORING_OFF_SQES },
        ]
    );
    assert_eq!(layout.sq_tail, Place { mapping: 0, offset: 64 });
    assert_eq!(layout.sq_mask, Place { mapping: 0, offset: 256 });
    assert_eq!(layout.sq_array, Place { mapping: 0, offset: 576 });
    assert_eq!(layout.sqes, Place { mapping: 1, offset: 0 });
    assert_eq!(layout.cq_head, Place { mapping: 0, offset: 128 });
    assert_eq!(layout.cq_tail, Place { mapping: 0, offset: 192 });
    assert_eq!(layout.cq_mask, Place { mapping: 0, offset: 260 });
    assert_eq!(layout.cqes, Place { mapping: 0, offset: 320 });

    let mut longer = params(IORING_FEAT_SINGLE_MMAP);
    longer.cq_entries = 64;
    let layout = RingLayout::new(5, &longer).unwrap();
    assert_eq!(layout.mappings[0].len, 320 + 64 * 16);
}

#[test]
fn two_rings_may_have_a_mapping_each() {
    let layout = RingLayout::new(0, &params(0x40)).unwrap();
    assert_eq!(
        layout.mappings,
        vec![
            Mapping { len: 608, offset: 0 },
            Mapping { len: 320 + 16 * 16, offset: IORING_OFF_CQ_RING },
            Mapping { len: 512, offset: 0x1000_0000 },
        ]
    );
    assert_eq!(layout.sq_array, Place { mapping: 0, offset: 576 });
    assert_eq!(layout.cqes, Place { mapping: 1, offset: 320 });
    assert_eq!(layout.cq_head, Place { mapping: 1, offset: 128 });
    assert_eq!(layout.sqes, Place { mapping: 2, offset: 0 });
}

#[test]
fn layout_takes_the_largest_numbers() {
    let mut p = params(0);
    p.sq_entries = u32::MAX;
    p.cq_entries = u32::MAX;
    p.sq_off.array = u32::MAX;
    p.cq_off.cqes = u32::MAX;
    let layout = RingLayout::new(1, &p).unwrap();
    let max = u32::MAX as u64;
    assert_eq!(layout.mappings[0].len, max + max * 4);
    assert_eq!(layout.mappings[1].len, max + max * 16);
    assert_eq!(layout.mappings[2].len, max * 64);
}

#[test]
fn no_layout_without_a_descriptor() {
    assert!(RingLayout::new(-1, &params(1)).is_none());
    assert!(RingLayout::new(i32::MIN, &params(1)).is_none());
    assert!(RingLayout::new(0, &params(1)).is_some());
}

#[test]
fn every_announced_slot_is_mapped() {
    for features in [0, 1] {
        let p = params(features);
        let l = RingLayout::new(3, &p).unwrap();
        let array = l.mappings[l.sq_array.mapping].len;
        assert!(l.sq_array.offset + 7 * 4 + 4 <= array);
        assert!(l.sqes.offset + 7 * 64 + 64 <= l.mappings[l.sqes.mapping].len);
        assert!(l.cqes.offset + 15 * 16 + 16 <= l.mappings[l.cqes.mapping].len);
        assert!(l.cq_tail.offset + 4 <= l.mappings[l.cq_tail.mapping].len);
    }
}

const RING: Ring = Ring { fd: 3, sq_mask: 7, cq_mask: 15 };

fn read_sqe(fd: i32, addr: u64, len: u32) -> Sqe {
    Sqe {
        opcode: 22,
        flags: 4,
        ioprio: 0,
        fd,
        off: u64::MAX,
        addr,
        len,
        rw_flags: 0,
        user_data: 0x1623,
        buf_index: 0,
        personality: 0,
        splice_fd_in: 0,
        addr3: 0,
        pad2: 0,
    }
}

fn timeout_sqe(addr: u64) -> Sqe {
    Sqe { opcode: 15, addr, len: 1, user_data: 0x1624, ..Sqe::default() }
}

#[test]
fn a_pair_is_stored_in_order() {
    assert_eq!(
        RING.submit_read_with_timeout(0, 9, 0x1000, 1, 0x2000),
        vec![
            SqStore::Entry { index: 0, sqe: read_sqe(9, 0x1000, 1) },
            SqStore::Index { index: 0, value: 0 },
            SqStore::Entry { index: 1, sqe: timeout_sqe(0x2000) },
            SqStore::Index { index: 1, value: 1 },
            SqStore::Fence,
            SqStore::Tail { value: 2 },
        ]
    );
}

#[test]
fn positions_wrap() {
    let stores = RING.submit_read_with_timeout(u32::MAX, -1, 1, 2, 3);
    assert_eq!(stores[0], SqStore::Entry { index: 7, sqe: read_sqe(-1, 1, 2) });
    assert_eq!(stores[3], SqStore::Index { index: 0, value: 0 });
    assert_eq!(stores[5], SqStore::Tail { value: 1 });
    let stores = RING.submit_read_with_timeout(15, 0, 0, 0, 0);
    assert_eq!(stores[1], SqStore::Index { index: 7, value: 7 });
    assert_eq!(stores[3], SqStore::Index { index: 0, value: 0 });
    assert_eq!(stores[5], SqStore::Tail { value: 17 });
}

struct Memory {
    tail: u32,
    array: Vec<u32>,
    sqes: Vec<Sqe>,
}

impl Memory {
    fn store(&mut self, store: &SqStore) {
        match *store {
            SqStore::Entry { index, sqe } => self.sqes[index as usize] = sqe,
            SqStore::Index { index, value } => self.array[index as usize] = value,
            SqStore::Fence => {}
            SqStore::Tail { value } => self.tail = value,
        }
    }

    fn queued(&self, head: u32) -> Vec<Sqe> {
        let mut out = Vec::new();
        let mut pos = head;
        while pos != self.tail {
            out.push(self.sqes[self.array[(pos & 7) as usize] as usize]);
            pos = pos.wrapping_add(1);
        }
        out
    }
}

#[test]
fn a_pair_is_queued_by_its_last_store() {
    let head = u32::MAX - 2;
    let mut memory = Memory { tail: head, array: vec![5; 8], sqes: vec![Sqe::default(); 8] };
    let mut expected: Vec<Sqe> = Vec::new();
    for round in 0..4u64 {
        let stores = RING.submit_read_with_timeout(memory.tail, 4, round, 1, 100 + round);
        for (i, store) in stores.iter().enumerate() {
            memory.store(store);
            if i + 1 < stores.len() {
                assert_eq!(memory.queued(head), expected);
            }
        }
        expected.push(read_sqe(4, round, 1));
        expected.push(timeout_sqe(100 + round));
        assert_eq!(memory.queued(head), expected);
    }
}

#[test]
fn completions_are_taken_in_order() {
    assert_eq!(RING.peek_cqe(4, 4), None);
    assert_eq!(RING.peek_cqe(4, 5), Some(CqTake { index: 4, next_head: 5 }));
    assert_eq!(RING.peek_cqe(u32::MAX, 1), Some(CqTake { index: 15, next_head: 0 }));
    let mut head = u32::MAX - 1;
    let mut indices = Vec::new();
    while let Some(take) = RING.peek_cqe(head, 2) {
        indices.push(take.index);
        head = take.next_head;
    }
    assert_eq!(indices, vec![14, 15, 0, 1]);
}

#[test]
fn completions_are_counted() {
    assert_eq!(completions(0, 0), 0);
    assert_eq!(completions(3, 5), 2);
    assert_eq!(completions(u32::MAX, 1), 2);
    assert_eq!(completions(1, 0), u32::MAX);
}

fn mask(cpus: &[usize]) -> [usize; MASK_WORDS] {
    let width = usize::BITS as usize;
    let mut words = [0; MASK_WORDS];
    for cpu in cpus {
        words[cpu / width] |= 1 << (cpu % width);
    }
    words
}

#[test]
fn the_lowest_processor_is_chosen() {
    assert_eq!(first_cpu(&mask(&[])), None);
    assert_eq!(first_cpu(&mask(&[0])), Some(0));
    assert_eq!(first_cpu(&mask(&[5, 3, 200])), Some(3));
    assert_eq!(first_cpu(&mask(&[63])), Some(63));
    assert_eq!(first_cpu(&mask(&[64, 130])), Some(64));
    let last = MASK_WORDS * usize::BITS as usize - 1;
    assert_eq!(first_cpu(&mask(&[last])), Some(last));
    assert_eq!(first_cpu(&[usize::MAX; MASK_WORDS]), Some(0));
}

#[test]
fn the_pinning_mask_is_short() {
    let width = usize::BITS as usize;
    assert_eq!(only_cpu(0), vec![1]);
    assert_eq!(only_cpu(width - 1), vec![1 << (width - 1)]);
    assert_eq!(only_cpu(width), vec![0, 1]);
    assert_eq!(pin_mask(&mask(&[2 * width + 3, 2 * width + 4])), Some(vec![0, 0, 8]));
    assert_eq!(pin_mask(&mask(&[])), None);
}

#[test]
fn pinning_twice_keeps_the_processor() {
    let pinned = pin_mask(&mask(&[70, 71])).unwrap();
    let mut words = [0; MASK_WORDS];
    words[..pinned.len()].copy_from_slice(&pinned);
    assert_eq!(words, mask(&[70]));
    assert_eq!(pin_mask(&words), Some(pinned));
}

#[test]
fn constants_are_those_of_the_kernel() {
    assert_eq!(RING_ENTRIES, 8);
    assert_eq!(TCIFLUSH, 0);
    assert_eq!(IORING_OFF_SQ_RING, 0);
    assert_eq!(IORING_OFF_CQ_RING, 0x8000000);
    assert_eq!(IORING_OFF_SQES, 0x10000000);
}

#[test]
fn a_ring_is_set_up_step_by_step() {
    for features in [0, 1] {
        let p = params(features);
        let mut setup = RingSetup::new();
        let zero = Params::default();
        assert_eq!(setup.action(), SetupAction::Setup { entries: 8, params: zero });
        assert_eq!(zero.resv, [0; 3]);
        let mut action = setup.step(SetupReply::Made { fd: 6, params: p }).unwrap();
        for i in 0..mapping_count(&p) {
            assert_eq!(action, SetupAction::MakeMapping { fd: 6, mapping: mapping(&p, i) });
            assert!(setup.layout().is_none());
            action = setup.step(SetupReply::Mapped(true)).unwrap();
        }
        assert_eq!(action, SetupAction::Ready);
        assert_eq!(setup.layout(), RingLayout::new(6, &p));
        assert_eq!(setup.step(SetupReply::Mapped(true)), None);
    }
}

#[test]
fn a_failed_setup_maps_nothing() {
    let mut setup = RingSetup::new();
    let made = SetupReply::Made { fd: -1, params: params(1) };
    assert_eq!(setup.step(made), Some(SetupAction::ShowSetupFailure));
    assert_eq!(setup.step(SetupReply::Mapped(true)), None);
    assert_eq!(setup.step(SetupReply::Ack), Some(SetupAction::Failed));
    assert!(setup.layout().is_none());
    assert_eq!(setup.step(made), None);
}

#[test]
fn a_failed_mapping_is_the_last() {
    for good in 0..3 {
        let mut setup = RingSetup::new();
        setup.step(SetupReply::Made { fd: 0, params: params(0) });
        for _ in 0..good {
            setup.step(SetupReply::Mapped(true));
        }
        assert_eq!(setup.step(SetupReply::Mapped(false)), Some(SetupAction::ShowMappingFailure));
        assert_eq!(setup.step(SetupReply::Ack), Some(SetupAction::Failed));
        assert!(setup.layout().is_none());
    }
}

#[test]
fn an_unknown_mask_pins_nothing() {
    assert_eq!(pin_current_cpu(None), None);
    assert_eq!(pin_current_cpu(Some(&mask(&[]))), None);
    assert_eq!(pin_current_cpu(Some(&mask(&[3, 4]))), Some(vec![8]));
}

#[test]
fn every_access_is_mapped() {
    for features in [0, 1] {
        let l = RingLayout::new(3, &params(features)).unwrap();
        for tail in [0, 5, 6, 7, u32::MAX] {
            for store in RING.submit_read_with_timeout(tail, 0, 0, 0, 0) {
                if let SqStore::Entry { index, .. } = store {
                    let end = l.sqes.offset + index as u64 * 64 + 64;
                    assert!(end <= l.mappings[l.sqes.mapping].len);
                }
                if let SqStore::Index { index, .. } = store {
                    let end = l.sq_array.offset + index as u64 * 4 + 4;
                    assert!(end <= l.mappings[l.sq_array.mapping].len);
                }
            }
            let take = RING.peek_cqe(tail, tail.wrapping_add(1)).unwrap();
            let end = l.cqes.offset + take.index as u64 * 16 + 16;
            assert!(end <= l.mappings[l.cqes.mapping].len);
        }
    }
}
