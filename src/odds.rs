use vstd::prelude::*;

verus! {

/// The number of faces of the die: draws lie in `[0, DIE_FACES)`.
pub const DIE_FACES: u64 = 100;

/// A bet over wins when the draw exceeds the prediction; a bet under wins when
/// the draw falls short of it. A draw equal to the prediction always loses.
pub open spec fn spec_wins(prediction: u8, over: bool, lucky: u8) -> bool {
    if over {
        prediction < lucky
    } else {
        prediction > lucky
    }
}

/// The odds divisor: the number of draws in `[0, 100)` that win the bet, so
/// that a win pays `stake * 100 / divisor`.
pub open spec fn spec_divisor(prediction: u8, over: bool) -> int {
    if over {
        99 - prediction
    } else {
        prediction as int
    }
}

/// The exact payout of a wager against a draw: zero on a loss.
pub open spec fn spec_prize(stake: u128, prediction: u8, over: bool, lucky: u8) -> int {
    if spec_wins(prediction, over, lucky) {
        (stake as int * 100) / spec_divisor(prediction, over)
    } else {
        0
    }
}

/// A prediction that no draw in `[0, 100)` beats, or one outside `[0, 99]`.
pub open spec fn spec_unwinnable(prediction: u8, over: bool) -> bool {
    prediction > 99 || (over && prediction == 99) || (!over && prediction == 0)
}

/// Whether the wager wins against the draw `lucky`.
pub fn bet_outcome(prediction: u8, over: bool, lucky: u8) -> (r: bool)
    ensures
        r == spec_wins(prediction, over, lucky),
        over ==> (r <==> prediction < lucky),
        !over ==> (r <==> prediction > lucky),
        prediction == lucky ==> !r,
{
    if over {
        prediction < lucky
    } else {
        prediction > lucky
    }
}

/// Whether a prediction may be placed: it lies in `[0, 99]` and some draw beats it.
pub fn prediction_is_valid(prediction: u8, over: bool) -> (r: bool)
    ensures
        r == !spec_unwinnable(prediction, over),
        r ==> spec_divisor(prediction, over) >= 1,
{
    if prediction > 99 {
        false
    } else if over {
        prediction != 99
    } else {
        prediction != 0
    }
}

/// A winning wager on a draw in `[0, 100)` has a positive divisor: no draw
/// beats a prediction of 99 or more over, or of 0 under.
pub proof fn lemma_win_has_divisor(prediction: u8, over: bool, lucky: u8)
    requires
        lucky < 100,
        spec_wins(prediction, over, lucky),
    ensures
        1 <= spec_divisor(prediction, over) <= 255,
{
}

/// The payout of the wager against the draw `lucky`: `stake * 100 / divisor`
/// rounded down on a win, zero on a loss, and `None` where the payout does not
/// fit in a `u128`.
pub fn prize_amount(stake: u128, prediction: u8, over: bool, lucky: u8) -> (r: Option<u128>)
    requires
        lucky < 100,
    ensures
        r == (if spec_prize(stake, prediction, over, lucky) <= u128::MAX {
            Some(spec_prize(stake, prediction, over, lucky) as u128)
        } else {
            None::<u128>
        }),
        !spec_wins(prediction, over, lucky) ==> r == Some(0u128),
        spec_wins(prediction, over, lucky) && r.is_some() ==> r.unwrap() as int == (stake as int
            * 100) / spec_divisor(prediction, over),
{
    if !bet_outcome(prediction, over, lucky) {
        return Some(0);
    }
    proof {
        lemma_win_has_divisor(prediction, over, lucky);
    }
    let divisor: u128 = if over {
        (99 - prediction) as u128
    } else {
        prediction as u128
    };
    // stake * 100 / d == (stake / d) * 100 + (stake % d) * 100 / d, where the
    // second term stays small.
    let q: u128 = stake / divisor;
    let m: u128 = stake % divisor;
    let tail: u128 = m * 100 / divisor;
    proof {
        lemma_split_quotient(stake as int, divisor as int);
    }
    match q.checked_mul(100) {
        None => None,
        Some(head) => head.checked_add(tail),
    }
}

/// `s * 100 / d` splits into the whole quotient and the remainder's share.
proof fn lemma_split_quotient(s: int, d: int)
    requires
        s >= 0,
        d >= 1,
    ensures
        (s * 100) / d == (s / d) * 100 + ((s % d) * 100) / d,
        0 <= ((s % d) * 100) / d < 100,
{
    let q = s / d;
    let m = s % d;
    assert(s == q * d + m && 0 <= m < d) by (nonlinear_arith)
        requires
            d > 0,
            q == s / d,
            m == s % d,
    ;
    assert(s * 100 == (q * 100) * d + m * 100) by (nonlinear_arith)
        requires
            s == q * d + m,
    ;
    assert(0 <= (m * 100) / d < 100) by (nonlinear_arith)
        requires
            0 <= m < d,
            d > 0,
    ;
    assert(((q * 100) * d + m * 100) / d == q * 100 + (m * 100) / d) by (nonlinear_arith)
        requires
            d > 0,
            q >= 0,
            m >= 0,
    ;
}

} // verus!
