//! Sums of dice rolls: `count` dice with `sides` faces each.
use vstd::prelude::*;

verus! {

#[verifier::external_type_specification]
#[verifier::external_body]
pub struct ExThreadRng(rand::rngs::ThreadRng);

/// Relies on rand::thread_rng: hands out the generator of the calling thread.
#[verifier::external_body]
fn thread_generator() -> (r: rand::rngs::ThreadRng) {
    rand::thread_rng()
}

/// Relies on rand::Rng::gen_range over the inclusive range `1..=sides`: the
/// value lies in that range (the call panics on an empty range, which
/// `requires` leaves out).
#[verifier::external_body]
fn draw(rng: &mut rand::rngs::ThreadRng, sides: u8) -> (r: u8)
    requires
        1 <= sides,
    ensures
        1 <= r <= sides,
{
    rand::Rng::gen_range(rng, 1..=sides)
}

/// The sum of a sequence of face values.
pub open spec fn sum_of(s: Seq<u8>) -> int
    decreases s.len(),
{
    if s.len() == 0 {
        0
    } else {
        sum_of(s.drop_last()) + s.last() as int
    }
}

/// Whether a roll of `count` dice with `sides` faces is a real roll.
pub open spec fn valid_roll(count: u8, sides: u8) -> bool {
    count >= 1 && sides >= 2
}

/// The total of a roll whose faces came up as `draws`: their sum, or 0 when
/// the roll is not a real one or the sum does not fit in a `u16`.
pub open spec fn roll_total(count: u8, sides: u8, draws: Seq<u8>) -> int {
    if !valid_roll(count, sides) || sum_of(draws) > u16::MAX {
        0
    } else {
        sum_of(draws)
    }
}

proof fn lemma_sum_bounds(s: Seq<u8>, lo: int, hi: int)
    requires
        forall|i: int| 0 <= i < s.len() ==> lo <= #[trigger] s[i] <= hi,
    ensures
        s.len() * lo <= sum_of(s) <= s.len() * hi,
    decreases s.len(),
{
    if s.len() > 0 {
        let t = s.drop_last();
        assert forall|i: int| 0 <= i < t.len() implies lo <= #[trigger] t[i] <= hi by {
            assert(t[i] == s[i]);
        }
        lemma_sum_bounds(t, lo, hi);
        assert(s.len() * lo == t.len() * lo + lo) by (nonlinear_arith)
            requires s.len() == t.len() + 1;
        assert(s.len() * hi == t.len() * hi + hi) by (nonlinear_arith)
            requires s.len() == t.len() + 1;
    }
}

/// Totals the faces `draws` of a roll of `count` dice with `sides` faces:
/// 0 when `count` is 0 or `sides` is below 2, else the sum, or 0 where the sum
/// would not fit in a `u16`.
pub fn total_of_draws(count: u8, sides: u8, draws: &Vec<u8>) -> (r: u16)
    ensures
        r == roll_total(count, sides, draws@),
{
    if count < 1 || sides < 2 {
        return 0;
    }
    let mut sum: u16 = 0;
    let mut i: usize = 0;
    while i < draws.len()
        invariant
            i <= draws@.len(),
            sum == sum_of(draws@.subrange(0, i as int)),
        decreases draws@.len() - i,
    {
        let ghost before = draws@.subrange(0, i as int);
        assert(draws@.subrange(0, i + 1).drop_last() == before);
        match sum.checked_add(draws[i] as u16) {
            Some(next) => {
                sum = next;
            },
            None => {
                proof {
                    lemma_sum_prefix_grows(draws@, i as int + 1);
                }
                return 0;
            },
        }
        i += 1;
    }
    assert(draws@.subrange(0, draws@.len() as int) == draws@);
    sum
}

proof fn lemma_sum_prefix_grows(s: Seq<u8>, j: int)
    requires
        0 <= j <= s.len(),
    ensures
        sum_of(s.subrange(0, j)) <= sum_of(s),
    decreases s.len() - j,
{
    if j < s.len() {
        lemma_sum_prefix_grows(s, j + 1);
        assert(s.subrange(0, j + 1).drop_last() == s.subrange(0, j));
    } else {
        assert(s.subrange(0, j) == s);
    }
}

/// Rolls `count` dice with `sides` faces each and returns the total; 0 when
/// `count` is 0 or `sides` is below 2.
pub fn roll(count: u8, sides: u8) -> (r: u16)
    ensures
        !valid_roll(count, sides) ==> r == 0,
        valid_roll(count, sides) ==> count <= r <= count as int * sides as int,
        valid_roll(count, sides) ==> exists|draws: Seq<u8>|
            draws.len() == count && r == roll_total(count, sides, draws) && (forall|i: int|
                0 <= i < draws.len() ==> 1 <= #[trigger] draws[i] <= sides),
{
    let mut rng = thread_generator();
    if count < 1 || sides < 2 {
        return 0;
    }
    let mut draws: Vec<u8> = Vec::new();
    let mut i: u8 = 0;
    while i < count
        invariant
            valid_roll(count, sides),
            i <= count,
            draws@.len() == i,
            forall|j: int| 0 <= j < draws@.len() ==> 1 <= #[trigger] draws@[j] <= sides,
        decreases count - i,
    {
        let face = draw(&mut rng, sides);
        draws.push(face);
        i += 1;
    }
    let r = total_of_draws(count, sides, &draws);
    proof {
        lemma_sum_bounds(draws@, 1, sides as int);
        assert(count as int * sides as int <= 255 * 255) by (nonlinear_arith)
            requires
                count <= 255,
                sides <= 255,
        ;
    }
    r
}

} // verus!
