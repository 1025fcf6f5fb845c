use pump69_program::identity::same_option;
use pump69_program::ErrorCode;
use pump69_program::Identity;

#[test]
fn identities_are_compared_by_their_bytes() {
    let a = Identity::new([1; 32]);
    let mut bytes = [1u8; 32];
    let b = Identity::new(bytes);
    bytes[31] = 2;
    let c = Identity::new(bytes);
    assert!(a.same(&b));
    assert!(!a.same(&c));
    assert!(a == b);
    assert!(a != c);
    assert_eq!(c.to_bytes(), bytes);
    bytes[31] = 1;
    bytes[0] = 0;
    assert!(!a.same(&Identity::new(bytes)));
}

#[test]
fn optional_identities_are_compared() {
    let a = Identity::new([1; 32]);
    let b = Identity::new([2; 32]);
    assert!(same_option(&None, &None));
    assert!(same_option(&Some(a), &Some(a)));
    assert!(!same_option(&Some(a), &Some(b)));
    assert!(!same_option(&Some(a), &None));
    assert!(!same_option(&None, &Some(b)));
}

#[test]
fn errors_have_their_messages() {
    assert_eq!(ErrorCode::InvalidFeePercentages.message(), "Invalid fee percentages");
    assert_eq!(ErrorCode::LeagueFull.message(), "League is full");
    assert_eq!(ErrorCode::LeagueNotActive.message(), "League not active");
    assert_eq!(ErrorCode::LeagueAlreadyResolved.message(), "League already resolved");
    assert_eq!(ErrorCode::Unauthorized.message(), "Unauthorized operation");
    assert_eq!(ErrorCode::InvalidLeagueState.message(), "Invalid league state");
    assert_eq!(ErrorCode::InsufficientFunds.message(), "Insufficient funds");
    assert_eq!(ErrorCode::MathOverflow.message(), "Math overflow");
    assert_eq!(ErrorCode::VrfRequestFailed.message(), "VRF request failed");
    assert_eq!(ErrorCode::InvalidVrfProof.message(), "Invalid VRF proof");
}
