use vstd::prelude::*;

verus! {

/// The number of voltages the designer is given: the reference voltage,
/// output full scale, output zero scale, input full scale, input zero scale.
pub const INPUT_COUNT: usize = 5;

/// Why the command-line voltages cannot be used.
#[derive(Clone, Copy, Debug, PartialEq, Eq, Structural)]
pub enum InputError {
    /// Not exactly five values were given.
    WrongCount { given: usize },
    /// The value at `index` (counting from zero) is not a number.
    NotANumber { index: usize },
}

/// Whether some token before position `end` failed to parse.
pub open spec fn fails_before(parsed: Seq<bool>, end: int) -> bool {
    exists|i: int| 0 <= i < end && !#[trigger] parsed[i]
}

/// What the input check answers, given for each token whether it parsed as
/// a number: the count is checked first, then the first token that failed.
pub open spec fn input_verdict(parsed: Seq<bool>) -> Result<(), InputError> {
    if parsed.len() != INPUT_COUNT {
        Err(InputError::WrongCount { given: parsed.len() as usize })
    } else if fails_before(parsed, parsed.len() as int) {
        let i = choose|i: int| 0 <= i < parsed.len() && !parsed[i]
            && (forall|j: int| 0 <= j < i ==> parsed[j]);
        Err(InputError::NotANumber { index: i as usize })
    } else {
        Ok(())
    }
}

/// Checks the command-line tokens, given for each whether it parsed as a
/// number. Succeeds exactly when there are five tokens and all parsed.
pub fn check_inputs(parsed: &Vec<bool>) -> (r: Result<(), InputError>)
    ensures
        r is Ok <==> (parsed@.len() == INPUT_COUNT && forall|i: int|
            0 <= i < parsed@.len() ==> #[trigger] parsed@[i]),
        parsed@.len() != INPUT_COUNT ==> r == Err::<(), InputError>(
            InputError::WrongCount { given: parsed@.len() as usize },
        ),
        r matches Err(InputError::NotANumber { index }) ==> parsed@.len() == INPUT_COUNT
            && index < parsed@.len() && !parsed@[index as int]
            && forall|j: int| 0 <= j < index ==> #[trigger] parsed@[j],
        r == input_verdict(parsed@),
{
    if parsed.len() != INPUT_COUNT {
        return Err(InputError::WrongCount { given: parsed.len() });
    }
    let mut i: usize = 0;
    while i < parsed.len()
        invariant
            i <= parsed@.len() == INPUT_COUNT,
            forall|j: int| 0 <= j < i ==> #[trigger] parsed@[j],
        decreases parsed@.len() - i,
    {
        if !parsed[i] {
            let ghost k = choose|k: int| 0 <= k < parsed@.len() && !parsed@[k]
                && (forall|j: int| 0 <= j < k ==> parsed@[j]);
            assert(k == i as int) by {
                if k < i as int {
                    assert(parsed@[k]);
                } else if k > i as int {
                    assert(parsed@[i as int]);
                }
            }
            return Err(InputError::NotANumber { index: i });
        }
        i = i + 1;
    }
    Ok(())
}

} // verus!
