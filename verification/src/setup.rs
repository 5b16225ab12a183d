//! How a ring is set up: one call makes it, and each of its mappings is made in
//! turn. The first failure ends it.
use vstd::prelude::*;
use crate::machine::Machine;
use crate::abi::{Params, RING_ENTRIES};
use crate::layout::{Mapping, RingLayout, mapping, mapping_count};

verus! {

/// What is to be done.
#[derive(Clone, Copy, Debug, PartialEq, Eq)]
pub enum SetupAction {
    /// Call `io_uring_setup`.
    Setup { entries: u32, params: Params },
    /// Make a mapping of the ring's descriptor.
    MakeMapping { fd: i32, mapping: Mapping },
    /// Print that the ring could not be made.
    ShowSetupFailure,
    /// Print that a mapping could not be made.
    ShowMappingFailure,
    /// There is no ring.
    Failed,
    /// The ring is set up.
    Ready,
}

/// What came of an action.
#[derive(Clone, Copy, Debug, PartialEq, Eq)]
pub enum SetupReply {
    /// It is done.
    Ack,
    /// What `io_uring_setup` returned, and what it reported.
    Made { fd: i32, params: Params },
    /// Whether the mapping was made.
    Mapped(bool),
}

/// The state of setting a ring up.
#[derive(Clone, Copy, Debug, PartialEq, Eq)]
pub struct SetupState {
    /// The ring's descriptor, negative where there is none.
    pub fd: i32,
    /// What is handed to `io_uring_setup`, and what it reported once it is made.
    pub params: Params,
    /// How many mappings have been made.
    pub made: usize,
    /// The action that is to be done now.
    pub doing: SetupAction,
}

impl SetupState {
    /// Whether nothing has been done yet: eight entries are to be asked for,
    /// with parameters that are all zero.
    pub open spec fn is_start(self) -> bool {
        &&& self.fd < 0
        &&& self.params.is_zero()
        &&& self.made == 0
        &&& self.doing == (SetupAction::Setup { entries: RING_ENTRIES, params: self.params })
    }

    /// What holds of every state that setting a ring up can come to.
    pub open spec fn wf(self) -> bool {
        let all = crate::layout::mappings_of(self.params);
        match self.doing {
            SetupAction::MakeMapping { fd, mapping } => {
                &&& self.fd == fd
                &&& fd >= 0
                &&& self.made < all.len()
                &&& mapping == all[self.made as int]
            },
            SetupAction::Ready => self.fd >= 0 && self.made == all.len(),
            SetupAction::ShowSetupFailure => self.fd < 0,
            _ => true,
        }
    }

    /// The same state with another action.
    pub open spec fn then_do(self, doing: SetupAction) -> Option<SetupState> {
        Some(SetupState { doing, ..self })
    }

    /// The state with the next mapping to be made, or ready where none is left.
    pub open spec fn map_next(self) -> Option<SetupState> {
        let all = crate::layout::mappings_of(self.params);
        if self.made < all.len() {
            self.then_do(
                SetupAction::MakeMapping { fd: self.fd, mapping: all[self.made as int] },
            )
        } else {
            self.then_do(SetupAction::Ready)
        }
    }

    /// The state behind some answers, given in order.
    pub open spec fn run(self, replies: Seq<SetupReply>) -> Option<SetupState> {
        crate::machine::run(self, replies)
    }

    fn after_mapping(&self) -> (r: SetupAction)
        ensures
            self.map_next() == self.then_do(r),
    {
        if self.made < mapping_count(&self.params) {
            SetupAction::MakeMapping { fd: self.fd, mapping: mapping(&self.params, self.made) }
        } else {
            SetupAction::Ready
        }
    }

    /// Moves on to the state behind an answer, where there is one.
    fn advance(&mut self, reply: SetupReply) -> (r: Option<SetupAction>)
        requires
            old(self).wf(),
        ensures
            final(self).wf(),
            match old(self).next(reply) {
                Some(s) => *final(self) == s && r == Some(s.doing),
                None => *final(self) == *old(self) && r is None,
            },
    {
        let doing = match (self.doing, reply) {
            (SetupAction::Setup { .. }, SetupReply::Made { fd, params }) => {
                self.fd = fd;
                self.params = params;
                self.made = 0;
                if fd < 0 {
                    SetupAction::ShowSetupFailure
                } else {
                    self.after_mapping()
                }
            },
            (SetupAction::MakeMapping { .. }, SetupReply::Mapped(mapped)) => {
                if mapped {
                    self.made = self.made + 1;
                    self.after_mapping()
                } else {
                    SetupAction::ShowMappingFailure
                }
            },
            (SetupAction::ShowSetupFailure, SetupReply::Ack) => SetupAction::Failed,
            (SetupAction::ShowMappingFailure, SetupReply::Ack) => SetupAction::Failed,
            _ => return None,
        };
        self.doing = doing;
        Some(doing)
    }
}

impl Machine for SetupState {
    type Reply = SetupReply;

    /// The state behind an answer, or nothing where the answer does not belong
    /// to the action.
    open spec fn next(self, reply: SetupReply) -> Option<SetupState> {
        match (self.doing, reply) {
            (SetupAction::Setup { .. }, SetupReply::Made { fd, params }) => {
                let set = SetupState { fd, params, made: 0, ..self };
                if fd < 0 {
                    set.then_do(SetupAction::ShowSetupFailure)
                } else {
                    set.map_next()
                }
            },
            (SetupAction::MakeMapping { .. }, SetupReply::Mapped(true)) => {
                SetupState { made: (self.made + 1) as usize, ..self }.map_next()
            },
            (SetupAction::MakeMapping { .. }, SetupReply::Mapped(false)) => self.then_do(
                SetupAction::ShowMappingFailure,
            ),
            (SetupAction::ShowSetupFailure, SetupReply::Ack) => self.then_do(SetupAction::Failed),
            (SetupAction::ShowMappingFailure, SetupReply::Ack) => self.then_do(SetupAction::Failed),
            _ => None,
        }
    }
}

/// A ring that is being set up. Its state is what [`SetupState`] describes, and
/// is always well formed.
#[derive(Debug, PartialEq, Eq)]
pub struct RingSetup {
    state: SetupState,
}

impl View for RingSetup {
    type V = SetupState;

    closed spec fn view(&self) -> SetupState {
        self.state
    }
}

impl RingSetup {
    #[verifier::type_invariant]
    spec fn inv(self) -> bool {
        self.state.wf()
    }

    /// Begins to set a ring up.
    pub fn new() -> (r: RingSetup)
        ensures
            r@.is_start(),
            r@.wf(),
            r@.fd < 0,
            r@.made == 0,
            r@.doing matches SetupAction::Setup { entries, params } && {
                &&& entries == 8
                &&& params.sq_entries == 0 && params.cq_entries == 0
                &&& params.flags == 0 && params.sq_thread_cpu == 0 && params.sq_thread_idle == 0
                &&& params.features == 0 && params.wq_fd == 0
            },
    {
        let params = Params::default();
        RingSetup {
            state: SetupState {
                fd: -1,
                params,
                made: 0,
                doing: SetupAction::Setup { entries: RING_ENTRIES, params },
            },
        }
    }

    /// The action that is to be done now.
    pub fn action(&self) -> (r: SetupAction)
        ensures
            r == self@.doing,
    {
        self.state.doing
    }

    /// Takes the answer to the present action and gives the next one. An answer
    /// that does not belong to the action changes nothing.
    pub fn step(&mut self, reply: SetupReply) -> (r: Option<SetupAction>)
        ensures
            final(self)@.wf(),
            match old(self)@.next(reply) {
                Some(s) => final(self)@ == s && r == Some(s.doing),
                None => final(self)@ == old(self)@ && r is None,
            },
    {
        proof {
            use_type_invariant(&*self);
        }
        let mut state = self.state;
        let action = state.advance(reply);
        self.state = state;
        action
    }

    /// The layout of the ring, once it is set up and only then.
    pub fn layout(&self) -> (r: Option<RingLayout>)
        ensures
            r is Some <==> self@.doing is Ready,
            r matches Some(l) ==> l.fd == self@.fd && l.fd >= 0 && l.describes(self@.params),
    {
        proof {
            use_type_invariant(self);
        }
        match self.state.doing {
            SetupAction::Ready => RingLayout::new(self.state.fd, &self.state.params),
            _ => None,
        }
    }
}

// ------------------------------------------------------------------- laws

/// The answers of a setup that made a ring, and of `n` mappings of it that were
/// made.
pub open spec fn mapped_replies(fd: i32, params: Params, n: nat) -> Seq<SetupReply> {
    seq![SetupReply::Made { fd, params }] + Seq::new(n, |i: int| SetupReply::Mapped(true))
}

proof fn lemma_first_reply(s: SetupState, fd: i32, params: Params)
    ensures
        s.run(seq![SetupReply::Made { fd, params }]) == s.next(SetupReply::Made { fd, params }),
{
    let none = Seq::<SetupReply>::empty();
    crate::machine::lemma_run_push(s, none, SetupReply::Made { fd, params });
    assert(none.push(SetupReply::Made { fd, params }) =~= seq![SetupReply::Made { fd, params }]);
}

/// Whether setting up has come to a failure.
pub open spec fn has_failed(s: SetupState) -> bool {
    s.doing is ShowSetupFailure || s.doing is ShowMappingFailure || s.doing is Failed
}

/// A failure is never left behind: no mapping is made after it.
proof fn lemma_failure_stays(s: SetupState, before: Seq<SetupReply>, after: Seq<SetupReply>)
    requires
        s.run(before) matches Some(t) && has_failed(t),
    ensures
        s.run(before + after) matches Some(t) ==> has_failed(t),
    decreases after.len(),
{
    if after.len() == 0 {
        assert(before + after =~= before);
    } else {
        lemma_failure_stays(s, before, after.drop_last());
        assert((before + after).drop_last() =~= before + after.drop_last());
    }
}

/// The call that makes a ring is made once, and first.
pub proof fn law_setup_is_called_once(s: SetupState, replies: Seq<SetupReply>)
    requires
        s.is_start(),
        replies.len() > 0,
    ensures
        s.doing is Setup,
        s.run(replies) matches Some(t) ==> !(t.doing is Setup),
    decreases replies.len(),
{
    if replies.len() > 1 {
        law_setup_is_called_once(s, replies.drop_last());
    } else {
        assert(replies.drop_last() =~= Seq::<SetupReply>::empty());
    }
}

/// Where no ring was made that is told, there is no ring, and nothing is ever
/// mapped.
pub proof fn law_a_failed_setup_maps_nothing(
    s: SetupState,
    fd: i32,
    params: Params,
    replies: Seq<SetupReply>,
)
    requires
        s.is_start(),
        fd < 0,
    ensures
        ({
            let made = seq![SetupReply::Made { fd, params }];
            &&& s.run(made) matches Some(t) && t.doing == SetupAction::ShowSetupFailure
            &&& s.run(made.push(SetupReply::Ack)) matches Some(t) && t.doing == SetupAction::Failed
            &&& s.run(made + replies) matches Some(t) ==> has_failed(t)
        }),
{
    let made = seq![SetupReply::Made { fd, params }];
    lemma_first_reply(s, fd, params);
    crate::machine::lemma_run_push(s, made, SetupReply::Ack);
    lemma_failure_stays(s, made, replies);
}

/// The mappings of a ring are made one by one, in order, and with the last one
/// the ring is set up.
pub proof fn law_mappings_are_made_in_order(s: SetupState, fd: i32, params: Params, n: nat)
    requires
        s.is_start(),
        fd >= 0,
        n <= crate::layout::mappings_of(params).len(),
    ensures
        s.run(mapped_replies(fd, params, n)) == Some(
            SetupState {
                fd,
                params,
                made: n as usize,
                doing: if n < crate::layout::mappings_of(params).len() {
                    SetupAction::MakeMapping {
                        fd,
                        mapping: crate::layout::mappings_of(params)[n as int],
                    }
                } else {
                    SetupAction::Ready
                },
            },
        ),
    decreases n,
{
    if n == 0 {
        lemma_first_reply(s, fd, params);
        assert(mapped_replies(fd, params, 0) =~= seq![SetupReply::Made { fd, params }]);
    } else {
        let m = (n - 1) as nat;
        law_mappings_are_made_in_order(s, fd, params, m);
        crate::machine::lemma_run_push(s, mapped_replies(fd, params, m), SetupReply::Mapped(true));
        assert(mapped_replies(fd, params, m).push(SetupReply::Mapped(true)) =~= mapped_replies(
            fd,
            params,
            n,
        ));
    }
}

/// Where a mapping could not be made that is told, there is no ring, and
/// nothing further is ever mapped.
pub proof fn law_a_failed_mapping_is_the_last(
    s: SetupState,
    fd: i32,
    params: Params,
    n: nat,
    replies: Seq<SetupReply>,
)
    requires
        s.is_start(),
        fd >= 0,
        n < crate::layout::mappings_of(params).len(),
    ensures
        ({
            let failed = mapped_replies(fd, params, n).push(SetupReply::Mapped(false));
            &&& s.run(failed) matches Some(t) && t.doing == SetupAction::ShowMappingFailure
            &&& s.run(failed.push(SetupReply::Ack)) matches Some(t) && t.doing
                == SetupAction::Failed
            &&& s.run(failed + replies) matches Some(t) ==> has_failed(t)
        }),
{
    let failed = mapped_replies(fd, params, n).push(SetupReply::Mapped(false));
    law_mappings_are_made_in_order(s, fd, params, n);
    crate::machine::lemma_run_push(s, mapped_replies(fd, params, n), SetupReply::Mapped(false));
    crate::machine::lemma_run_push(s, failed, SetupReply::Ack);
    lemma_failure_stays(s, failed, replies);
}

/// A ring is set up if and only if it was made, with a descriptor that is not
/// negative, and then each of its mappings was.
pub proof fn law_a_ring_needs_every_success(s: SetupState, replies: Seq<SetupReply>)
    requires
        s.is_start(),
        s.run(replies) is Some,
    ensures
        ({
            let t = s.run(replies)->0;
            let all = crate::layout::mappings_of(t.params).len();
            &&& t.wf()
            &&& t.doing is Ready <==> t.fd >= 0 && replies == mapped_replies(t.fd, t.params, all)
        }),
{
    let t = s.run(replies)->0;
    lemma_successes_are_all(s, replies);
    if t.fd >= 0 {
        law_mappings_are_made_in_order(
            s,
            t.fd,
            t.params,
            crate::layout::mappings_of(t.params).len(),
        );
    }
}

proof fn lemma_successes_are_all(s: SetupState, replies: Seq<SetupReply>)
    requires
        s.is_start(),
    ensures
        s.run(replies) matches Some(t) ==> {
            &&& t.wf()
            &&& t.doing is MakeMapping || t.doing is Ready ==> replies == mapped_replies(
                t.fd,
                t.params,
                t.made as nat,
            )
            &&& t.doing is Setup ==> replies.len() == 0
        },
    decreases replies.len(),
{
    if replies.len() > 0 {
        let shorter = replies.drop_last();
        lemma_successes_are_all(s, shorter);
        if let Some(t) = s.run(shorter) {
            assert(replies =~= shorter.push(replies.last()));
            match (t.doing, replies.last()) {
                (SetupAction::Setup { .. }, SetupReply::Made { fd, params }) => {
                    assert(replies =~= mapped_replies(fd, params, 0));
                },
                (SetupAction::MakeMapping { .. }, SetupReply::Mapped(true)) => {
                    let n = t.made as nat;
                    assert(mapped_replies(t.fd, t.params, n).push(SetupReply::Mapped(true))
                        =~= mapped_replies(t.fd, t.params, n + 1));
                },
                _ => {},
            }
        }
    }
}

/// No answer leads on from a ring that is set up, or from having none.
pub proof fn law_the_end_of_a_setup_is_final(s: SetupState, reply: SetupReply)
    requires
        s.doing is Ready || s.doing is Failed,
    ensures
        s.next(reply) is None,
{
}

/// What the call that makes a ring returned and reported is kept as it came: the
/// first mapping is made of that very descriptor, as the report asks for it, and
/// a negative descriptor is a failure.
pub proof fn law_a_new_ring_is_kept_as_it_came(s: SetupState, fd: i32, params: Params)
    requires
        s.doing is Setup,
    ensures
        s.next(SetupReply::Made { fd, params }) matches Some(t) && {
            &&& t.fd == fd
            &&& t.params == params
            &&& t.made == 0
            &&& fd < 0 ==> t.doing == SetupAction::ShowSetupFailure
            &&& fd >= 0 ==> t.doing == (SetupAction::MakeMapping {
                fd,
                mapping: crate::layout::mappings_of(params)[0],
            })
        },
{
}

/// A mapping that was made leads to the next one, of the same descriptor, and
/// behind the last to a ring; one that was not is a failure. What the call
/// returned and reported stays as it is.
pub proof fn law_mappings_follow_one_another(s: SetupState)
    requires
        s.wf(),
        s.doing is MakeMapping,
    ensures
        ({
            let all = crate::layout::mappings_of(s.params);
            &&& s.next(SetupReply::Mapped(true)) matches Some(t) && {
                &&& t.fd == s.fd && t.params == s.params && t.made == s.made + 1
                &&& s.made + 1 < all.len() ==> t.doing == (SetupAction::MakeMapping {
                    fd: s.fd,
                    mapping: all[s.made + 1],
                })
                &&& s.made + 1 == all.len() ==> t.doing == SetupAction::Ready
            }
            &&& s.next(SetupReply::Mapped(false)) == Some(
                SetupState { doing: SetupAction::ShowMappingFailure, ..s },
            )
        }),
{
}

/// A failure that was told leaves no ring.
pub proof fn law_a_failure_that_was_told_is_the_end(s: SetupState)
    requires
        s.doing is ShowSetupFailure || s.doing is ShowMappingFailure,
    ensures
        s.next(SetupReply::Ack) == Some(SetupState { doing: SetupAction::Failed, ..s }),
{
}

/// An answer leads on if and only if it is of the kind that the action asks for,
/// whatever it holds.
pub proof fn law_a_setup_takes_fitting_answers_only(s: SetupState, reply: SetupReply)
    ensures
        s.next(reply) is Some <==> match s.doing {
            SetupAction::Setup { .. } => reply is Made,
            SetupAction::MakeMapping { .. } => reply is Mapped,
            SetupAction::ShowSetupFailure | SetupAction::ShowMappingFailure => reply is Ack,
            SetupAction::Failed | SetupAction::Ready => false,
        },
{
}

} // verus!
