//! The check-digit engine: positional weights, the weighted modulo-11 sum,
//! the expected check character, and its comparison with the received one.

use vstd::prelude::*;

use crate::chars::translit;
use crate::vin::Vin;
use crate::vin::valid_vin;

verus! {

/// The weight of each of the 17 positions. The check-digit slot itself,
/// position 8 (0-indexed), has weight 0 and so never contributes to the sum.
pub open spec fn weight(i: int) -> u32 {
    if i == 0 {
        8
    } else if i == 1 {
        7
    } else if i == 2 {
        6
    } else if i == 3 {
        5
    } else if i == 4 {
        4
    } else if i == 5 {
        3
    } else if i == 6 {
        2
    } else if i == 7 {
        10
    } else if i == 8 {
        0
    } else if i == 9 {
        9
    } else if i == 10 {
        8
    } else if i == 11 {
        7
    } else if i == 12 {
        6
    } else if i == 13 {
        5
    } else if i == 14 {
        4
    } else if i == 15 {
        3
    } else if i == 16 {
        2
    } else {
        0
    }
}

/// The weighted sum of the transliterated character values of `s`.
pub open spec fn checksum_sum(s: Seq<char>) -> int
    decreases s.len(),
{
    if s.len() == 0 {
        0
    } else {
        checksum_sum(s.drop_last()) + weight(s.len() - 1) * translit(s.last())
    }
}

/// The character a remainder stands for: `X` for ten, else the digit itself.
pub open spec fn check_char_of(rem: int) -> char {
    if rem == 0 {
        '0'
    } else if rem == 1 {
        '1'
    } else if rem == 2 {
        '2'
    } else if rem == 3 {
        '3'
    } else if rem == 4 {
        '4'
    } else if rem == 5 {
        '5'
    } else if rem == 6 {
        '6'
    } else if rem == 7 {
        '7'
    } else if rem == 8 {
        '8'
    } else if rem == 9 {
        '9'
    } else {
        'X'
    }
}

/// The check character a well-formed VIN is expected to carry in its
/// check-digit slot: the weighted sum modulo 11, written as a digit or `X`.
pub open spec fn expected_of(s: Seq<char>) -> char {
    check_char_of(checksum_sum(s) % 11)
}

/// Whether the received check character agrees with the computed one.
#[derive(Debug, Clone, Copy, PartialEq, Eq)]
pub enum ChecksumOutcome {
    /// The character in the check-digit slot equals the computed one.
    Valid,
    /// It differs; carries the computed and the received characters.
    Mismatch { expected: char, received: char },
}

/// The checksum outcome a well-formed VIN determines: `Valid` exactly when
/// the character in the check-digit slot equals the expected one.
pub open spec fn outcome_of(s: Seq<char>) -> ChecksumOutcome {
    if s[8] == expected_of(s) {
        ChecksumOutcome::Valid
    } else {
        ChecksumOutcome::Mismatch { expected: expected_of(s), received: s[8] }
    }
}

impl ChecksumOutcome {
    /// Whether the outcome reports agreement.
    pub fn is_valid(&self) -> (r: bool)
        ensures
            r == (*self is Valid),
    {
        match self {
            ChecksumOutcome::Valid => true,
            ChecksumOutcome::Mismatch { .. } => false,
        }
    }
}

/// Computes the expected check character of a VIN from the 16 positions
/// outside the check-digit slot.
pub fn compute_expected(vin: &Vin) -> (r: char)
    ensures
        r == expected_of(vin@),
{
    proof {
        use_type_invariant(vin);
    }
    let mut sum: u32 = 0;
    let mut i: usize = 0;
    while i < 17
        invariant
            i <= 17,
            valid_vin(vin@),
            sum == checksum_sum(vin@.take(i as int)),
            sum <= 90 * i,
        decreases 17 - i,
    {
        let c = vin.char_at(i);
        let w = weight_at(i);
        assert(crate::chars::is_vin_char(vin@[i as int]));
        let v = crate::chars::value_of(c).unwrap();
        proof {
            assert(vin@.take(i + 1).drop_last() =~= vin@.take(i as int));
            assert(vin@.take(i + 1).last() == vin@[i as int]);
            assert(w * v <= 90) by (nonlinear_arith)
                requires
                    w <= 10,
                    v <= 9,
            ;
        }
        sum = sum + w * v;
        i += 1;
    }
    assert(vin@.take(17) =~= vin@);
    let rem = sum % 11;
    match rem {
        0 => '0',
        1 => '1',
        2 => '2',
        3 => '3',
        4 => '4',
        5 => '5',
        6 => '6',
        7 => '7',
        8 => '8',
        9 => '9',
        _ => 'X',
    }
}

/// The weight of a position, as executable code.
fn weight_at(i: usize) -> (w: u32)
    ensures
        w == weight(i as int),
        w <= 10,
{
    if i == 0 {
        8
    } else if i == 1 {
        7
    } else if i == 2 {
        6
    } else if i == 3 {
        5
    } else if i == 4 {
        4
    } else if i == 5 {
        3
    } else if i == 6 {
        2
    } else if i == 7 {
        10
    } else if i == 8 {
        0
    } else if i == 9 {
        9
    } else if i == 10 {
        8
    } else if i == 11 {
        7
    } else if i == 12 {
        6
    } else if i == 13 {
        5
    } else if i == 14 {
        4
    } else if i == 15 {
        3
    } else if i == 16 {
        2
    } else {
        0
    }
}

/// Determinism: the expected check character is a function of the VIN
/// characters alone, so two computations over equal character sequences
/// agree.
pub proof fn lemma_expected_deterministic(s1: Seq<char>, s2: Seq<char>)
    requires
        s1 == s2,
    ensures
        expected_of(s1) == expected_of(s2),
{
}

/// The weighted sum never depends on the check-digit slot, whose weight is
/// zero.
proof fn lemma_sum_ignores_check_slot(s: Seq<char>, c: char)
    requires
        9 <= s.len(),
    ensures
        checksum_sum(s.update(8, c)) == checksum_sum(s),
    decreases s.len(),
{
    let t = s.update(8, c);
    if s.len() == 9 {
        assert(t.drop_last() =~= s.drop_last());
        assert(t.last() == c);
        assert(weight(8) == 0);
    } else {
        assert(t.drop_last() =~= s.drop_last().update(8, c));
        assert(t.last() == s.last());
        lemma_sum_ignores_check_slot(s.drop_last(), c);
    }
}

/// Replacing the character in the check-digit slot never changes the
/// expected check character.
pub proof fn lemma_check_slot_independent(s: Seq<char>, c: char)
    requires
        s.len() == 17,
    ensures
        expected_of(s.update(8, c)) == expected_of(s),
{
    lemma_sum_ignores_check_slot(s, c);
}

/// Round trip: a well-formed VIN whose check-digit slot carries the expected
/// character has outcome `Valid`; replacing only that slot by any other
/// permitted character keeps the VIN well-formed and yields a mismatch whose
/// `received` is the new character and whose `expected` is unchanged.
pub proof fn lemma_round_trip(s: Seq<char>, c: char)
    requires
        valid_vin(s),
        s[8] == expected_of(s),
        crate::chars::is_vin_char(c),
        c != s[8],
    ensures
        outcome_of(s) == ChecksumOutcome::Valid,
        valid_vin(s.update(8, c)),
        outcome_of(s.update(8, c)) == (ChecksumOutcome::Mismatch {
            expected: expected_of(s),
            received: c,
        }),
{
    lemma_check_slot_independent(s, c);
    let t = s.update(8, c);
    assert forall|i: int| 0 <= i < t.len() implies crate::chars::is_vin_char(#[trigger] t[i]) by {
        if i != 8 {
            assert(t[i] == s[i]);
        }
    }
    assert(t[8] == c);
}

/// Compares the computed check character with the one the VIN carries at the
/// check-digit slot.
pub fn verify(vin: &Vin) -> (r: ChecksumOutcome)
    ensures
        r == outcome_of(vin@),
{
    let expected = compute_expected(vin);
    let received = vin.char_at(8);
    if received == expected {
        ChecksumOutcome::Valid
    } else {
        ChecksumOutcome::Mismatch { expected, received }
    }
}

} // verus!
