//! What the command line asks for.
use vstd::prelude::*;
use vstd::string::*;
use crate::text::parse_count;

verus! {

/// How many attempts are made where the command line names no number.
pub const DEFAULT_ATTEMPTS: u32 = 5;

/// What the command line asks for.
#[derive(Clone, Copy, Debug, PartialEq, Eq, Structural)]
pub struct Config {
    /// How many attempts to make at most.
    pub attempts: u32,
    /// Whether to make a single run without a competing reader instead.
    pub control: bool,
}

/// The texts of some arguments.
pub open spec fn argument_texts(args: Seq<String>) -> Seq<Seq<char>> {
    args.map_values(|arg: String| arg@)
}

/// The count that comes last among the arguments, or the default.
pub open spec fn requested_attempts(args: Seq<Seq<char>>) -> u32
    decreases args.len(),
{
    if args.len() == 0 {
        DEFAULT_ATTEMPTS
    } else {
        match crate::text::parsed_count(args.last()) {
            Some(n) => n,
            None => requested_attempts(args.drop_last()),
        }
    }
}

/// Whether the arguments ask for a control run.
pub open spec fn requested_control(args: Seq<Seq<char>>) -> bool {
    args.contains("--control"@)
}

/// What the arguments, without the program's name, ask for. Any argument that
/// is neither a count nor the control flag is passed over.
pub fn parse_args(args: &Vec<String>) -> (r: Config)
    ensures
        r == (Config {
            attempts: requested_attempts(argument_texts(args@)),
            control: requested_control(argument_texts(args@)),
        }),
        r.control <==> exists|i: int|
            0 <= i < args@.len() && (#[trigger] args@[i])@ == "--control"@,
        ({
            ||| exists|i: int|
                {
                    &&& 0 <= i < args@.len()
                    &&& crate::text::parsed_count((#[trigger] args@[i])@) == Some(r.attempts)
                    &&& forall|j: int|
                        i < j < args@.len() ==> crate::text::parsed_count((#[trigger] args@[j])@) is None
                }
            ||| {
                &&& r.attempts == 5
                &&& forall|j: int|
                    0 <= j < args@.len() ==> crate::text::parsed_count((#[trigger] args@[j])@) is None
            }
        }),
{
    let mut attempts: u32 = DEFAULT_ATTEMPTS;
    let mut control: bool = false;
    let flag = String::from_str("--control");
    let ghost texts = argument_texts(args@);
    let mut i: usize = 0;
    assert(texts.take(0) =~= Seq::<Seq<char>>::empty());
    while i < args.len()
        invariant
            i <= args.len(),
            texts == argument_texts(args@),
            flag@ == "--control"@,
            attempts == requested_attempts(texts.take(i as int)),
            control == requested_control(texts.take(i as int)),
        decreases args.len() - i,
    {
        let ghost before = texts.take(i as int);
        let ghost after = texts.take(i + 1);
        proof {
            assert(after.drop_last() =~= before);
            assert(after.last() == args@[i as int]@);
            assert(after =~= before.push(args@[i as int]@));
        }
        if args[i] == flag {
            control = true;
            proof {
                assert(after[i as int] == "--control"@);
                law_control_is_no_count();
            }
        } else {
            proof {
                if requested_control(before) {
                    let k = choose|k: int| 0 <= k < before.len() && before[k] == "--control"@;
                    assert(after[k] == "--control"@);
                }
                if requested_control(after) {
                    let k = choose|k: int| 0 <= k < after.len() && after[k] == "--control"@;
                    assert(before[k] == "--control"@);
                }
            }
            if let Some(n) = parse_count(args[i].as_str()) {
                attempts = n;
            }
        }
        i = i + 1;
    }
    assert(texts.take(i as int) =~= texts);
    proof {
        let from = lemma_deciding_count(texts);
        assert forall|j: int| 0 <= j < args@.len() implies texts[j] == (#[trigger] args@[j])@ by {}
        if control {
            let k = choose|k: int| 0 <= k < texts.len() && texts[k] == "--control"@;
            assert(args@[k]@ == "--control"@);
        }
        assert forall|j: int|
            0 <= j < args@.len() && (#[trigger] args@[j])@ == "--control"@ implies control by {
            assert(texts[j] == "--control"@);
        }
        assert forall|j: int| from <= j < args@.len() implies crate::text::parsed_count(
            (#[trigger] args@[j])@,
        ) is None by {
            assert(crate::text::parsed_count(texts[j]) is None);
        }
        if from > 0 {
            assert(crate::text::parsed_count(args@[from - 1]@) == Some(attempts));
        }
    }
    Config { attempts, control }
}

/// The control flag is not a count.
pub proof fn law_control_is_no_count()
    ensures
        crate::text::parsed_count("--control"@) is None,
{
    reveal_strlit("--control");
    assert(!crate::text::is_digit(crate::text::unsigned_part("--control"@)[0]));
}

/// A count behind all other arguments decides the number of attempts, and the
/// control flag and texts that are no counts leave it as it is.
pub proof fn law_the_last_count_decides(args: Seq<Seq<char>>, n: u32, other: Seq<char>)
    requires
        crate::text::parsed_count(other) is None,
    ensures
        requested_attempts(args.push(crate::text::decimal(n as int))) == n,
        requested_attempts(args.push(other)) == requested_attempts(args),
        requested_attempts(args.push("--control"@)) == requested_attempts(args),
{
    crate::text::law_count_reads_back(n);
    law_control_is_no_count();
    assert(args.push(other).drop_last() =~= args);
    assert(args.push("--control"@).drop_last() =~= args);
}

/// A control flag asks for a control run wherever it stands.
pub proof fn law_control_may_stand_anywhere(before: Seq<Seq<char>>, after: Seq<Seq<char>>)
    ensures
        requested_control(before.push("--control"@) + after),
        requested_control(before + after) <==> requested_control(before) || requested_control(
            after,
        ),
{
    let flagged = before.push("--control"@) + after;
    let all = before + after;
    assert(flagged[before.len() as int] == "--control"@);
    if requested_control(all) {
        let k = choose|k: int| 0 <= k < all.len() && all[k] == "--control"@;
        if k < before.len() {
            assert(before[k] == "--control"@);
        } else {
            assert(after[k - before.len()] == "--control"@);
        }
    }
    if requested_control(before) {
        let k = choose|k: int| 0 <= k < before.len() && before[k] == "--control"@;
        assert(all[k] == "--control"@);
    }
    if requested_control(after) {
        let k = choose|k: int| 0 <= k < after.len() && after[k] == "--control"@;
        assert(all[before.len() + k] == "--control"@);
    }
}

/// A control run is asked for if and only if some argument is the flag, character
/// by character: one more argument that is anything else changes nothing.
pub proof fn law_control_is_the_exact_flag(args: Seq<Seq<char>>, other: Seq<char>)
    ensures
        requested_control(args) <==> exists|i: int|
            0 <= i < args.len() && #[trigger] args[i] == seq![
                '-',
                '-',
                'c',
                'o',
                'n',
                't',
                'r',
                'o',
                'l',
            ],
        other != "--control"@ ==> requested_control(args.push(other)) == requested_control(args),
        !requested_control(Seq::empty()),
{
    reveal_strlit("--control");
    let flag = seq!['-', '-', 'c', 'o', 'n', 't', 'r', 'o', 'l'];
    assert("--control"@ =~= flag);
    let more = args.push(other);
    if requested_control(args) {
        let k = choose|k: int| 0 <= k < args.len() && args[k] == "--control"@;
        assert(args[k] == flag);
        assert(more[k] == "--control"@);
    }
    if requested_control(more) && other != "--control"@ {
        let k = choose|k: int| 0 <= k < more.len() && more[k] == "--control"@;
        assert(args[k] == "--control"@);
    }
    if exists|i: int| 0 <= i < args.len() && #[trigger] args[i] == flag {
        let k = choose|k: int| 0 <= k < args.len() && #[trigger] args[k] == flag;
        assert(args[k] == "--control"@);
    }
}

/// The number of attempts grows out of the arguments one by one: it is five
/// without any, one more argument that is a count replaces it, and one that is
/// none keeps it.
pub proof fn law_attempts_argument_by_argument(args: Seq<Seq<char>>, arg: Seq<char>)
    ensures
        requested_attempts(Seq::empty()) == 5,
        crate::text::parsed_count(arg) matches Some(n) ==> requested_attempts(args.push(arg)) == n,
        crate::text::parsed_count(arg) is None ==> requested_attempts(args.push(arg))
            == requested_attempts(args),
{
    assert(args.push(arg).drop_last() =~= args);
}

/// The arguments' texts are taken as they stand, in order.
pub proof fn law_every_argument_is_read(args: Seq<String>, i: int)
    requires
        0 <= i < args.len(),
    ensures
        argument_texts(args).len() == args.len(),
        argument_texts(args)[i] == args[i]@,
{
}

/// The place behind the last count, or zero where no argument is one.
proof fn lemma_deciding_count(args: Seq<Seq<char>>) -> (from: int)
    ensures
        0 <= from <= args.len(),
        forall|j: int|
            from <= j < args.len() ==> crate::text::parsed_count(#[trigger] args[j]) is None,
        from == 0 ==> requested_attempts(args) == 5,
        from > 0 ==> crate::text::parsed_count(args[from - 1]) == Some(requested_attempts(args)),
    decreases args.len(),
{
    if args.len() == 0 {
        0
    } else if crate::text::parsed_count(args.last()) is Some {
        args.len() as int
    } else {
        let from = lemma_deciding_count(args.drop_last());
        assert forall|j: int| from <= j < args.len() implies crate::text::parsed_count(
            #[trigger] args[j],
        ) is None by {
            if j < args.len() - 1 {
                assert(args.drop_last()[j] == args[j]);
            }
        }
        from
    }
}

} // verus!
