use opamp_design::inputs::{check_inputs, InputError};

#[test]
fn five_numbers_are_accepted() {
    assert_eq!(check_inputs(&vec![true; 5]), Ok(()));
}

#[test]
fn three_tokens_are_refused() {
    assert_eq!(check_inputs(&vec![true; 3]), Err(InputError::WrongCount { given: 3 }));
}

#[test]
fn no_tokens_are_refused() {
    assert_eq!(check_inputs(&vec![]), Err(InputError::WrongCount { given: 0 }));
}

#[test]
fn six_tokens_are_refused() {
    assert_eq!(check_inputs(&vec![true; 6]), Err(InputError::WrongCount { given: 6 }));
}

#[test]
fn non_numeric_token_is_refused() {
    let tokens = ["1", "abc", "1", "2", "0"];
    let parsed: Vec<bool> = tokens.iter().map(|t| t.parse::<f64>().is_ok()).collect();
    assert_eq!(check_inputs(&parsed), Err(InputError::NotANumber { index: 1 }));
}

#[test]
fn first_bad_token_is_reported() {
    assert_eq!(
        check_inputs(&vec![true, true, false, true, false]),
        Err(InputError::NotANumber { index: 2 })
    );
}

#[test]
fn count_is_checked_before_tokens() {
    assert_eq!(check_inputs(&vec![false; 4]), Err(InputError::WrongCount { given: 4 }));
}
