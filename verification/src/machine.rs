//! Machines that ask for an action and are answered what came of it.
use vstd::prelude::*;

verus! {

/// A state that an answer leads on from.
pub trait Machine: Sized {
    type Reply;

    /// The state behind an answer, or nothing where the answer does not belong
    /// to the state.
    spec fn next(self, reply: Self::Reply) -> Option<Self>;
}

/// The state behind some answers, given in order.
pub open spec fn run<M: Machine>(m: M, replies: Seq<M::Reply>) -> Option<M>
    decreases replies.len(),
{
    if replies.len() == 0 {
        Some(m)
    } else {
        match run(m, replies.drop_last()) {
            Some(n) => n.next(replies.last()),
            None => None,
        }
    }
}

pub(crate) proof fn lemma_run_push<M: Machine>(m: M, replies: Seq<M::Reply>, reply: M::Reply)
    ensures
        run(m, replies.push(reply)) == match run(m, replies) {
            Some(n) => n.next(reply),
            None => None,
        },
{
    assert(replies.push(reply).drop_last() =~= replies);
}

pub(crate) proof fn lemma_contains_push<A>(s: Seq<A>, last: A, x: A)
    ensures
        s.push(last).contains(x) <==> s.contains(x) || last == x,
{
    let all = s.push(last);
    if s.contains(x) {
        let i = choose|i: int| 0 <= i < s.len() && s[i] == x;
        assert(all[i] == x);
    }
    if last == x {
        assert(all[s.len() as int] == x);
    }
}

/// Running in two stretches is running in one.
pub proof fn law_runs_compose<M: Machine>(m: M, first: Seq<M::Reply>, second: Seq<M::Reply>)
    ensures
        run(m, first + second) == match run(m, first) {
            Some(n) => run(n, second),
            None => None,
        },
    decreases second.len(),
{
    if second.len() == 0 {
        assert(first + second =~= first);
    } else {
        law_runs_compose(m, first, second.drop_last());
        assert((first + second).drop_last() =~= first + second.drop_last());
    }
}

/// No answers leave a machine where it is, one answer leads where it says, and a
/// further one leads on from where the others led; where one did not belong,
/// none leads on.
pub proof fn law_answers_are_taken_in_turn<M: Machine>(
    m: M,
    replies: Seq<M::Reply>,
    reply: M::Reply,
)
    ensures
        run(m, Seq::empty()) == Some(m),
        run(m, seq![reply]) == m.next(reply),
        run(m, replies.push(reply)) == match run(m, replies) {
            Some(n) => n.next(reply),
            None => None,
        },
{
    lemma_run_push(m, replies, reply);
    lemma_run_push(m, Seq::empty(), reply);
    assert(Seq::<M::Reply>::empty().push(reply) =~= seq![reply]);
}

} // verus!
