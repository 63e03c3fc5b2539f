use bpf_iwr_ace::error::{IWRError, ProcessError};

#[test]
fn codes_count_from_zero() {
    assert_eq!(IWRError::IncorrectAuthority.code(), 0);
    assert_eq!(IWRError::NotEnoughLamports.code(), 1);
    assert_eq!(IWRError::NotEnoughTokens.code(), 2);
    assert_eq!(IWRError::Overflow.code(), 3);
}

#[test]
fn codes_are_read_back() {
    assert_eq!(IWRError::from_code(0), Some(IWRError::IncorrectAuthority));
    assert_eq!(IWRError::from_code(1), Some(IWRError::NotEnoughLamports));
    assert_eq!(IWRError::from_code(2), Some(IWRError::NotEnoughTokens));
    assert_eq!(IWRError::from_code(3), Some(IWRError::Overflow));
    assert_eq!(IWRError::from_code(4), None);
    assert_eq!(IWRError::from_code(u32::MAX), None);
}

#[test]
fn errors_have_their_texts() {
    assert_eq!(IWRError::IncorrectAuthority.message(), "incorrect authority");
    assert_eq!(IWRError::NotEnoughLamports.message(), "not enough lamports");
    assert_eq!(IWRError::NotEnoughTokens.message(), "not enough tokens");
    assert_eq!(IWRError::Overflow.message(), "Calculation overflow");
    assert_eq!(IWRError::type_of(), "IWR Error");
}

#[test]
fn process_errors_are_distinct() {
    let all = [
        ProcessError::MalformedInstruction,
        ProcessError::NotEnoughAccountKeys,
        ProcessError::AddressMismatch,
        ProcessError::MalformedRecord,
        ProcessError::Pool(IWRError::Overflow),
        ProcessError::Pool(IWRError::NotEnoughLamports),
    ];
    for (i, a) in all.iter().enumerate() {
        for (j, b) in all.iter().enumerate() {
            assert_eq!(a == b, i == j);
        }
    }
}
