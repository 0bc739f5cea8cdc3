use ajo_contract::error::{decimal_text, ContractError};

fn msg(e: ContractError) -> String {
    e.message()
}

#[test]
fn numbers_are_written_in_decimal() {
    for n in [0u64, 1, 7, 9, 10, 11, 42, 99, 100, 101, 1_000, 65_535, 1_234_567_890, u64::MAX] {
        assert_eq!(decimal_text(n), n.to_string());
    }
    assert_eq!(decimal_text(0), "0");
    assert_eq!(decimal_text(907), "907");
    assert_eq!(decimal_text(u64::MAX), "18446744073709551615");
}

#[test]
fn failures_without_detail_have_fixed_messages() {
    assert_eq!(msg(ContractError::PlanActive {}), "Plan is already active");
    assert_eq!(msg(ContractError::PlanNotActive {}), "Plan is not active");
    assert_eq!(msg(ContractError::PlanFull {}), "Plan is already full");
    assert_eq!(msg(ContractError::AlreadyParticipant {}), "You are already a participant");
    assert_eq!(msg(ContractError::NotParticipant {}), "You are not a participant");
    assert_eq!(
        msg(ContractError::InsufficientTrustScore {}),
        "Your trust score is too low to join this plan"
    );
    assert_eq!(
        msg(ContractError::InsufficientContributions {}),
        "Not enough total contributions to distribute payout"
    );
    assert_eq!(msg(ContractError::AlreadyRequested {}), "Join request already exists");
    assert_eq!(msg(ContractError::JoinRequestNotFound {}), "Join request not found");
    assert_eq!(msg(ContractError::AlreadyApproved {}), "Already approved");
    assert_eq!(msg(ContractError::NotFound), "Item not found");
}

#[test]
fn failures_with_detail_carry_it_in_their_message() {
    assert_eq!(msg(ContractError::Std("storage failed".to_string())), "storage failed");
    assert_eq!(msg(ContractError::Unauthorized("not the admin".to_string())), "Unauthorized: not the admin");
    assert_eq!(
        msg(ContractError::InvalidInput("Invalid frequency".to_string())),
        "Invalid input: Invalid frequency"
    );
    assert_eq!(msg(ContractError::InvalidInput(String::new())), "Invalid input: ");
    assert_eq!(msg(ContractError::PlanNotFound(0)), "Plan not found with id 0");
    assert_eq!(msg(ContractError::PlanNotFound(12)), "Plan not found with id 12");
    assert_eq!(
        msg(ContractError::PlanNotFound(u64::MAX)),
        "Plan not found with id 18446744073709551615"
    );
}

#[test]
fn failures_are_made_with_their_reason() {
    assert_eq!(
        ContractError::invalid_input("Invalid frequency"),
        ContractError::InvalidInput("Invalid frequency".to_string())
    );
    assert_eq!(
        ContractError::overflow(),
        ContractError::InvalidInput("Arithmetic overflow".to_string())
    );
    assert_eq!(ContractError::overflow().message(), "Invalid input: Arithmetic overflow");
}
