use minidao::basic::Dao;
use minidao::errors::DaoError;

const ALICE: u64 = 1;
const BOB: u64 = 2;
const CAROL: u64 = 3;

#[test]
fn test_name() {
    let dao = Dao::new(String::from("Test DAO"));
    assert_eq!(dao.get_name(), String::from("Test DAO"));
}

#[test]
fn test_default() {
    let dao = Dao::default();
    assert_eq!(dao.get_name(), String::from("Default DAO"));
}

#[test]
fn test_empty_name() {
    let dao = Dao::new(String::from(""));
    assert_eq!(dao.get_name(), String::from(""));
}

#[test]
fn test_long_name() {
    let long_name = "Very Long DAO Name That Should Still Work".to_string();
    let dao = Dao::new(long_name.clone());
    assert_eq!(dao.get_name(), long_name);
}

#[test]
fn test_voter_registration() {
    let mut dao = Dao::new(String::from("TestDAO"));

    // Registration
    assert!(dao.register_voter(ALICE).is_ok());
    assert!(dao.has_voter(ALICE));

    // Duplicate registration
    assert!(dao.register_voter(ALICE).is_err());

    // Deregistration
    assert!(dao.deregister_voter(ALICE).is_ok());
    assert!(!dao.has_voter(ALICE));

    // Deregistration of a non-registered voter
    assert!(dao.deregister_voter(ALICE).is_err());
}

#[test]
fn test_proposal_management() {
    let mut dao = Dao::new(String::from("TestDAO"));

    assert!(dao.register_voter(ALICE).is_ok());

    assert!(dao.create_proposal(ALICE).is_ok());

    let proposal = dao.get_proposal(0);
    assert!(proposal.is_some());
    assert_eq!(proposal.unwrap().vote_count, 0);

    assert!(dao.remove_proposal(ALICE, 0).is_ok());
    assert!(dao.get_proposal(0).is_none());
}

#[test]
fn test_vote() {
    let mut dao = Dao::new(String::from("TestDAO"));

    assert!(dao.register_voter(ALICE).is_ok());

    assert!(dao.create_proposal(ALICE).is_ok());

    assert!(dao.vote(ALICE, 0).is_ok());
    assert_eq!(dao.vote_count(ALICE), 1);

    let proposal = dao.get_proposal(0).unwrap();
    assert_eq!(proposal.vote_count, 1);

    // A second vote by the same voter on the same proposal is refused.
    assert!(dao.vote(ALICE, 0).is_err());
}

#[test]
fn registering_twice_fails_and_keeps_membership_unchanged() {
    let mut dao = Dao::new(String::from("TestDAO"));
    assert_eq!(dao.register_voter(ALICE), Ok(()));
    assert_eq!(dao.register_voter(BOB), Ok(()));
    assert_eq!(
        dao.register_voter(ALICE),
        Err(DaoError::VoterAlreadyRegistered)
    );
    assert!(dao.has_voter(ALICE));
    assert!(dao.has_voter(BOB));
    assert!(!dao.has_voter(CAROL));
}

#[test]
fn deregister_then_register_restores_membership() {
    let mut dao = Dao::new(String::from("TestDAO"));
    assert_eq!(dao.register_voter(ALICE), Ok(()));
    assert_eq!(dao.register_voter(BOB), Ok(()));
    assert_eq!(dao.register_voter(CAROL), Ok(()));

    assert_eq!(dao.deregister_voter(ALICE), Ok(()));
    assert!(!dao.has_voter(ALICE));
    assert!(dao.has_voter(BOB));
    assert!(dao.has_voter(CAROL));

    assert_eq!(dao.register_voter(ALICE), Ok(()));
    assert!(dao.has_voter(ALICE));
    assert!(dao.has_voter(BOB));
    assert!(dao.has_voter(CAROL));
}

#[test]
fn double_vote_changes_tally_by_exactly_one() {
    let mut dao = Dao::new(String::from("TestDAO"));
    assert_eq!(dao.register_voter(ALICE), Ok(()));
    assert_eq!(dao.register_voter(BOB), Ok(()));
    assert_eq!(dao.create_proposal(ALICE), Ok(()));

    assert_eq!(dao.vote(ALICE, 0), Ok(()));
    assert_eq!(dao.vote(ALICE, 0), Err(DaoError::AlreadyVoted));
    assert_eq!(dao.get_proposal(0).unwrap().vote_count, 1);
    assert_eq!(dao.vote_count(ALICE), 1);

    // A different voter still raises the tally.
    assert_eq!(dao.vote(BOB, 0), Ok(()));
    assert_eq!(dao.get_proposal(0).unwrap().vote_count, 2);
}

#[test]
fn removed_proposal_is_invisible_and_id_not_reissued() {
    let mut dao = Dao::new(String::from("TestDAO"));
    assert_eq!(dao.register_voter(ALICE), Ok(()));

    assert_eq!(dao.create_proposal(ALICE), Ok(())); // id 0
    assert_eq!(dao.create_proposal(ALICE), Ok(())); // id 1
    assert_eq!(dao.remove_proposal(ALICE, 0), Ok(()));

    assert!(dao.get_proposal(0).is_none());
    assert_eq!(
        dao.remove_proposal(ALICE, 0),
        Err(DaoError::ProposalDoesNotExist)
    );
    assert_eq!(dao.vote(ALICE, 0), Err(DaoError::ProposalDoesNotExist));

    // The next creation takes a fresh id, not the removed one.
    assert_eq!(dao.create_proposal(ALICE), Ok(())); // id 2
    assert!(dao.get_proposal(0).is_none());
    assert!(dao.get_proposal(1).is_some());
    assert!(dao.get_proposal(2).is_some());
    assert!(dao.get_proposal(3).is_none());
}

#[test]
fn proposal_ids_strictly_increase_across_removals() {
    let mut dao = Dao::new(String::from("TestDAO"));
    assert_eq!(dao.register_voter(ALICE), Ok(()));

    assert_eq!(dao.create_proposal(ALICE), Ok(())); // id 0
    assert_eq!(dao.remove_proposal(ALICE, 0), Ok(()));
    assert_eq!(dao.create_proposal(ALICE), Ok(())); // id 1, not 0 again
    assert!(dao.get_proposal(0).is_none());
    assert_eq!(dao.get_proposal(1).unwrap().vote_count, 0);
}

#[test]
fn non_member_operations_are_refused() {
    let mut dao = Dao::new(String::from("TestDAO"));
    assert_eq!(dao.create_proposal(BOB), Err(DaoError::VoterNotRegistered));
    assert_eq!(
        dao.remove_proposal(BOB, 0),
        Err(DaoError::VoterNotRegistered)
    );
    assert_eq!(dao.vote(BOB, 0), Err(DaoError::VoterNotRegistered));
    assert_eq!(dao.vote_count(BOB), 0);
}
