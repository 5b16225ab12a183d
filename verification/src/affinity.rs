//! Which processor a thread is pinned to.
use vstd::prelude::*;

verus! {

/// Words of a processor mask.
pub const MASK_WORDS: usize = 16;

/// Whether bit `b` of a word is set.
pub open spec fn has_bit(word: usize, b: int) -> bool {
    (word >> (b as usize)) & 1 == 1
}

/// Whether a processor mask names a processor.
pub open spec fn names_cpu(mask: Seq<usize>, cpu: int) -> bool {
    &&& 0 <= cpu < mask.len() * usize::BITS
    &&& has_bit(mask[cpu / usize::BITS as int], cpu % usize::BITS as int)
}

/// Whether `cpu` is the lowest processor that a mask names.
pub open spec fn is_first_cpu(mask: Seq<usize>, cpu: int) -> bool {
    &&& names_cpu(mask, cpu)
    &&& forall|other: int| names_cpu(mask, other) ==> cpu <= other
}

/// Whether a mask names `cpu` alone, and ends with the word that names it.
pub open spec fn names_only(mask: Seq<usize>, cpu: int) -> bool {
    &&& mask.len() == cpu / usize::BITS as int + 1
    &&& forall|other: int| names_cpu(mask, other) <==> other == cpu
}

proof fn lemma_zero_word(b: int)
    requires
        0 <= b < usize::BITS,
    ensures
        !has_bit(0, b),
{
    let n = b as usize;
    assert((0usize >> n) & 1 == 0) by (bit_vector)
        requires
            n < usize::BITS,
    ;
}

proof fn lemma_lowest_bit(word: usize, low: int)
    requires
        word != 0,
        low == (word as u64).trailing_zeros(),
    ensures
        0 <= low < usize::BITS,
        has_bit(word, low),
        forall|b: int| 0 <= b < low ==> !has_bit(word, b),
{
    let wide = word as u64;
    vstd::std_specs::bits::axiom_u64_trailing_zeros(wide);
    let n = low as u64;
    assert((wide >> n) & 1 == 1);
    assert(n < usize::BITS) by (bit_vector)
        requires
            wide == word,
            n < 64,
            (wide >> n) & 1 == 1,
    ;
    let m = low as usize;
    assert((word >> m) & 1 == 1) by (bit_vector)
        requires
            wide == word,
            n == m,
            n < usize::BITS,
            (wide >> n) & 1 == 1,
    ;
    assert forall|b: int| 0 <= b < low implies !has_bit(word, b) by {
        let x = b as u64;
        let y = b as usize;
        assert((wide >> x) & 1u64 == 0u64);
        assert((word >> y) & 1 == 0) by (bit_vector)
            requires
                wide == word,
                x == y,
                x < usize::BITS,
                (wide >> x) & 1 == 0,
        ;
    }
}

proof fn lemma_single_bit(b: int, other: int)
    requires
        0 <= b < usize::BITS,
        0 <= other < usize::BITS,
    ensures
        has_bit(1usize << (b as usize), other) <==> other == b,
{
    let x = b as usize;
    let y = other as usize;
    assert((((1usize << x) >> y) & 1 == 1) <==> x == y) by (bit_vector)
        requires
            x < usize::BITS,
            y < usize::BITS,
    ;
}

/// The lowest processor that a mask names, where it names any.
pub fn first_cpu(mask: &[usize; MASK_WORDS]) -> (r: Option<usize>)
    ensures
        match r {
            Some(cpu) => is_first_cpu(mask@, cpu as int),
            None => forall|cpu: int| !names_cpu(mask@, cpu),
        },
        match r {
            Some(cpu) => {
                let word = cpu / usize::BITS as usize;
                let bit = cpu % usize::BITS as usize;
                &&& word < 16
                &&& (mask@[word as int] >> bit) & 1 == 1
                &&& forall|i: int| 0 <= i < word ==> #[trigger] mask@[i] == 0
                &&& forall|b: usize| b < bit ==> #[trigger] (mask@[word as int] >> b) & 1 == 0
            },
            None => forall|i: int| 0 <= i < 16 ==> #[trigger] mask@[i] == 0,
        },
{
    let width: usize = usize::BITS as usize;
    let mut word: usize = 0;
    while word < MASK_WORDS
        invariant
            word <= MASK_WORDS,
            mask@.len() == MASK_WORDS,
            width == usize::BITS,
            width == 32 || width == 64,
            forall|i: int| 0 <= i < word ==> #[trigger] mask@[i] == 0,
        decreases MASK_WORDS - word,
    {
        let bits: usize = mask[word];
        if bits != 0 {
            let low: u32 = (bits as u64).trailing_zeros();
            proof {
                lemma_lowest_bit(bits, low as int);
            }
            let cpu: usize = word * width + low as usize;
            proof {
                assert(cpu / width == word && cpu % width == low);
                assert forall|other: int| names_cpu(mask@, other) implies cpu <= other by {
                    let w = other / width as int;
                    let b = other % width as int;
                    if w < word {
                        lemma_zero_word(b);
                        assert(mask@[w] == 0);
                    } else if w == word && b < low {
                        assert(!has_bit(bits, b));
                    }
                }
            }
            proof {
                assert forall|b: usize| b < low implies #[trigger] (bits >> b) & 1 == 0 by {
                    assert(!has_bit(bits, b as int));
                    assert((bits >> b) & 1 == 0 || (bits >> b) & 1 == 1) by (bit_vector);
                }
            }
            return Some(cpu);
        }
        word = word + 1;
    }
    assert forall|cpu: int| !names_cpu(mask@, cpu) by {
        if 0 <= cpu < mask@.len() * usize::BITS {
            lemma_zero_word(cpu % width as int);
            assert(mask@[cpu / width as int] == 0);
        }
    }
    None
}

/// The shortest mask that names one processor alone.
pub fn only_cpu(cpu: usize) -> (r: Vec<usize>)
    ensures
        names_only(r@, cpu as int),
        r@.len() == cpu / usize::BITS as usize + 1,
        forall|i: int| 0 <= i < r@.len() - 1 ==> #[trigger] r@[i] == 0,
        r@.last() == 1usize << (cpu % usize::BITS as usize),
{
    let width: usize = usize::BITS as usize;
    let last: usize = cpu / width;
    let mut words: Vec<usize> = Vec::new();
    while words.len() < last
        invariant
            words.len() <= last,
            forall|i: int| 0 <= i < words.len() ==> #[trigger] words@[i] == 0,
        decreases last - words.len(),
    {
        words.push(0);
    }
    words.push(1usize << (cpu % width));
    proof {
        assert forall|other: int| names_cpu(words@, other) <==> other == cpu by {
            if 0 <= other < words@.len() * usize::BITS {
                let w = other / width as int;
                if w < last {
                    lemma_zero_word(other % width as int);
                    assert(words@[w] == 0);
                } else {
                    lemma_single_bit(cpu as int % width as int, other % width as int);
                }
            }
        }
    }
    words
}

/// The mask that pins a thread to the lowest processor it may run on, given the
/// mask of those; nothing where that mask is empty.
pub fn pin_mask(mask: &[usize; MASK_WORDS]) -> (r: Option<Vec<usize>>)
    ensures
        match r {
            Some(m) => exists|cpu: int| #[trigger] is_first_cpu(mask@, cpu) && names_only(m@, cpu),
            None => forall|cpu: int| !names_cpu(mask@, cpu),
        },
{
    match first_cpu(mask) {
        Some(cpu) => {
            let m = only_cpu(cpu);
            assert(is_first_cpu(mask@, cpu as int));
            Some(m)
        },
        None => None,
    }
}

/// The mask that pins a thread, given the mask of the processors it may run on
/// where that could be read; nothing where it could not, or is empty.
pub fn pin_current_cpu(mask: Option<&[usize; MASK_WORDS]>) -> (r: Option<Vec<usize>>)
    ensures
        match (mask, r) {
            (None, _) => r is None,
            (Some(allowed), Some(m)) => exists|cpu: int| #[trigger]
                is_first_cpu(allowed@, cpu) && names_only(m@, cpu),
            (Some(allowed), None) => forall|cpu: int| !names_cpu(allowed@, cpu),
        },
{
    match mask {
        Some(allowed) => pin_mask(allowed),
        None => None,
    }
}

/// Whether a mask, of whatever length, names `cpu` and no other processor.
pub open spec fn names_alone(mask: Seq<usize>, cpu: int) -> bool {
    forall|other: int| names_cpu(mask, other) <==> other == cpu
}

proof fn lemma_equal_words(x: usize, y: usize)
    requires
        forall|b: int| 0 <= b < usize::BITS ==> (has_bit(x, b) <==> has_bit(y, b)),
    ensures
        x == y,
{
    let d = x ^ y;
    if d != 0 {
        let low = (d as u64).trailing_zeros() as int;
        lemma_lowest_bit(d, low);
        let n = low as usize;
        assert(((x >> n) & 1 == 1) != ((y >> n) & 1 == 1)) by (bit_vector)
            requires
                n < usize::BITS,
                d == x ^ y,
                (d >> n) & 1 == 1,
        ;
        assert(has_bit(x, low) <==> has_bit(y, low));
    } else {
        assert(x == y) by (bit_vector)
            requires
                x ^ y == 0,
        ;
    }
}

proof fn lemma_only_mask_is_unique(a: Seq<usize>, b: Seq<usize>, cpu: int)
    requires
        cpu >= 0,
        names_only(a, cpu),
        names_only(b, cpu),
    ensures
        a == b,
{
    let width = usize::BITS as int;
    assert forall|w: int| 0 <= w < a.len() implies a[w] == b[w] by {
        assert forall|bit: int| 0 <= bit < width implies (has_bit(a[w], bit) <==> has_bit(
            b[w],
            bit,
        )) by {
            let other = w * width + bit;
            assert(0 <= other < a.len() * width) by (nonlinear_arith)
                requires
                    0 <= w < a.len(),
                    0 <= bit < width,
                    other == w * width + bit,
            ;
            vstd::arithmetic::div_mod::lemma_fundamental_div_mod_converse(other, width, w, bit);
            assert(names_cpu(a, other) <==> other == cpu);
            assert(names_cpu(b, other) <==> other == cpu);
        }
        lemma_equal_words(a[w], b[w]);
    }
    assert(a =~= b);
}

/// Pinning is settled by the mask of the allowed processors: whatever masks pin
/// to a lowest one of them, they pin to the same processor, which is allowed,
/// and are the same mask.
pub proof fn law_pinning_is_determined(
    mask: Seq<usize>,
    pin: Seq<usize>,
    a: int,
    again: Seq<usize>,
    b: int,
)
    requires
        is_first_cpu(mask, a),
        is_first_cpu(mask, b),
        names_only(pin, a),
        names_only(again, b),
    ensures
        a == b,
        pin == again,
        forall|cpu: int| names_cpu(pin, cpu) ==> names_cpu(mask, cpu),
{
    lemma_only_mask_is_unique(pin, again, a);
}

/// A thread that starts on a pinned thread's mask and pins itself stays on the
/// same processor, and pins itself with the very same mask.
pub proof fn law_a_pinned_thread_hands_its_processor_on(
    mask: Seq<usize>,
    pin: Seq<usize>,
    cpu: int,
    again: Seq<usize>,
    chosen: int,
)
    requires
        names_only(pin, cpu),
        names_alone(mask, cpu),
        is_first_cpu(mask, chosen),
        names_only(again, chosen),
    ensures
        chosen == cpu,
        again == pin,
{
    assert(names_cpu(mask, chosen));
    lemma_only_mask_is_unique(pin, again, cpu);
}

/// A mask is read word by word, the lowest bit of a word first, and names no
/// processor beyond its words.
pub proof fn law_a_mask_is_read_bit_by_bit(mask: Seq<usize>, word: int, bit: int)
    requires
        0 <= bit < usize::BITS,
    ensures
        names_cpu(mask, word * usize::BITS + bit) <==> 0 <= word < mask.len() && (mask[word] >> (
        bit as usize)) & 1 == 1,
{
    let width = usize::BITS as int;
    let cpu = word * width + bit;
    vstd::arithmetic::div_mod::lemma_fundamental_div_mod_converse(cpu, width, word, bit);
    assert(0 <= cpu < mask.len() * width <==> 0 <= word < mask.len()) by (nonlinear_arith)
        requires
            0 <= bit < width,
            cpu == word * width + bit,
    ;
}

/// The lowest processor of a mask lies in the first word that is not zero, and
/// there at the lowest bit that is set.
pub proof fn law_the_lowest_processor_is_the_lowest_bit(mask: Seq<usize>, cpu: int)
    requires
        is_first_cpu(mask, cpu),
    ensures
        ({
            let word = cpu / usize::BITS as int;
            let bit = cpu % usize::BITS as int;
            &&& 0 <= word < mask.len()
            &&& (mask[word] >> (bit as usize)) & 1 == 1
            &&& forall|i: int| 0 <= i < word ==> #[trigger] mask[i] == 0
            &&& forall|b: int|
                0 <= b < bit ==> #[trigger] (mask[word] >> (b as usize)) & 1 != 1
        }),
{
    let width = usize::BITS as int;
    let word = cpu / width;
    let bit = cpu % width;
    vstd::arithmetic::div_mod::lemma_fundamental_div_mod(cpu, width);
    assert(word * width + bit == cpu) by (nonlinear_arith)
        requires
            cpu == width * word + bit,
    ;
    law_a_mask_is_read_bit_by_bit(mask, word, bit);
    assert forall|i: int| 0 <= i < word implies #[trigger] mask[i] == 0 by {
        assert forall|b: int| 0 <= b < width implies (has_bit(mask[i], b) <==> has_bit(0, b)) by {
            law_a_mask_is_read_bit_by_bit(mask, i, b);
            lemma_zero_word(b);
            assert(i * width + b < cpu) by (nonlinear_arith)
                requires
                    i < word,
                    b < width,
                    0 <= bit,
                    word * width + bit == cpu,
                    width > 0,
            ;
        }
        lemma_equal_words(mask[i], 0);
    }
    assert forall|b: int| 0 <= b < bit implies #[trigger] (mask[word] >> (b as usize)) & 1 != 1 by {
        law_a_mask_is_read_bit_by_bit(mask, word, b);
    }
}

/// A mask that names one processor alone and ends with the word that names it is
/// zero but for one bit of its last word.
pub proof fn law_an_only_mask_has_one_bit(mask: Seq<usize>, cpu: int)
    requires
        cpu >= 0,
        names_only(mask, cpu),
    ensures
        mask.len() == cpu / usize::BITS as int + 1,
        forall|i: int| 0 <= i < mask.len() - 1 ==> #[trigger] mask[i] == 0,
        mask.last() == 1usize << ((cpu % usize::BITS as int) as usize),
{
    let width = usize::BITS as int;
    let last = cpu / width;
    vstd::arithmetic::div_mod::lemma_fundamental_div_mod(cpu, width);
    assert(last * width + cpu % width == cpu) by (nonlinear_arith)
        requires
            cpu == width * last + cpu % width,
    ;
    assert forall|i: int| 0 <= i < mask.len() - 1 implies #[trigger] mask[i] == 0 by {
        assert forall|b: int| 0 <= b < width implies (has_bit(mask[i], b) <==> has_bit(0, b)) by {
            law_a_mask_is_read_bit_by_bit(mask, i, b);
            lemma_zero_word(b);
            vstd::arithmetic::div_mod::lemma_fundamental_div_mod_converse(i * width + b, width, i, b);
        }
        lemma_equal_words(mask[i], 0);
    }
    let one = 1usize << ((cpu % width) as usize);
    assert forall|b: int| 0 <= b < width implies (has_bit(mask[last], b) <==> has_bit(one, b)) by {
        law_a_mask_is_read_bit_by_bit(mask, last, b);
        lemma_single_bit(cpu % width, b);
        assert(last * width + b == cpu <==> b == cpu % width);
    }
    lemma_equal_words(mask[last], one);
}

} // verus!
