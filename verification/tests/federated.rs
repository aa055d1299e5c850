use minidao::calls::{Call, ContractCall};
use minidao::cross_chain;
use minidao::direct;
use minidao::errors::DaoError;
use minidao::types::Vote;
use minidao::upstream::{AcceptedRequest, InMemorySuperDao};

const ALICE: u64 = 1;
const BOB: u64 = 2;

fn sample_call(callee: u64) -> ContractCall {
    ContractCall {
        callee,
        selector: [0; 4],
        input: Vec::new(),
        transferred_value: 0,
        ref_time_limit: 0,
        allow_reentry: false,
    }
}

fn chain_fields(action: &Call) -> (u32, Vec<u8>) {
    match action {
        Call::Chain(c) => (c.chain_id, c.message.clone()),
        _ => panic!("expected a cross-chain action"),
    }
}

#[test]
fn test_create_superdao_contract_call_proposal() {
    let mut superdao = InMemorySuperDao::new();
    let mut dao = direct::Dao::new(String::from("Test DAO"));

    assert_eq!(dao.register_voter(ALICE), Ok(()));

    assert_eq!(
        dao.create_contract_call_proposal(ALICE, &mut superdao, sample_call(ALICE)),
        Ok(())
    );

    // An unregistered caller is refused before the parent is contacted.
    assert_eq!(
        dao.create_contract_call_proposal(BOB, &mut superdao, sample_call(BOB)),
        Err(DaoError::VoterNotRegistered)
    );
    assert_eq!(superdao.accepted_len(), 1);
}

#[test]
fn test_vote_superdao_proposal() {
    let mut superdao = InMemorySuperDao::new();
    let mut dao = direct::Dao::new(String::from("Test DAO"));

    assert_eq!(dao.register_voter(ALICE), Ok(()));

    assert_eq!(dao.vote_proposal(ALICE, &mut superdao, 1, true), Ok(()));

    assert_eq!(
        dao.vote_proposal(BOB, &mut superdao, 1, true),
        Err(DaoError::VoterNotRegistered)
    );

    assert_eq!(superdao.accepted_len(), 1);
    match superdao.accepted_at(0) {
        AcceptedRequest::Voted { id, vote } => {
            assert_eq!(*id, 1);
            assert_eq!(*vote, Vote::Aye);
        }
        _ => panic!("expected a vote to be forwarded"),
    }
}

#[test]
fn test_complete_proposal_flow() {
    let mut superdao = InMemorySuperDao::new();
    let mut dao =
        cross_chain::Dao::new(String::from("Test DAO"), &mut superdao).expect("parent refused");

    assert!(dao.register_voter(ALICE).is_ok());

    let call_data = vec![1, 2, 3, 4];
    let proposal_id = dao
        .create_superdao_cross_chain_proposal(ALICE, &mut superdao, 1, call_data.clone())
        .expect("Failed to create proposal");

    let result = dao.vote_proposal(ALICE, &mut superdao, proposal_id, true);
    assert!(result.is_ok());

    let proposal = dao
        .get_proposal(proposal_id)
        .expect("Failed to get proposal");
    assert_eq!(proposal.votes_yes, 1);
    assert_eq!(proposal.votes_no, 0);
    let (chain_id, stored) = chain_fields(&proposal.action);
    assert_eq!(chain_id, 1);
    assert_eq!(stored, call_data);
}

#[test]
fn test_invalid_voter() {
    let mut superdao = InMemorySuperDao::new();
    let mut dao =
        cross_chain::Dao::new(String::from("Test DAO"), &mut superdao).expect("parent refused");

    let result = dao.vote_proposal(ALICE, &mut superdao, 0, true);
    assert!(matches!(result, Err(DaoError::VoterNotRegistered)));
}

#[test]
fn test_vote_superdao_cross_chain_proposal() {
    let mut superdao = InMemorySuperDao::new();
    let mut dao = direct::Dao::new(String::from("Test DAO"));

    assert_eq!(dao.register_voter(ALICE), Ok(()));
    assert_eq!(
        dao.create_superdao_cross_chain_proposal(ALICE, &mut superdao, 1000, vec![9, 8, 7]),
        Ok(())
    );
    assert_eq!(dao.vote_proposal(ALICE, &mut superdao, 0, false), Ok(()));

    assert_eq!(superdao.accepted_len(), 2);
    match superdao.accepted_at(0) {
        AcceptedRequest::Proposed { call, .. } => {
            let (chain_id, message) = chain_fields(call);
            assert_eq!(chain_id, 1000);
            assert_eq!(message, vec![9, 8, 7]);
        }
        _ => panic!("expected a proposal submission"),
    }
    match superdao.accepted_at(1) {
        AcceptedRequest::Voted { id, vote } => {
            assert_eq!(*id, 0);
            assert_eq!(*vote, Vote::Nay);
        }
        _ => panic!("expected a vote"),
    }
}

#[test]
fn contract_call_bytes_round_trip_unmodified() {
    let mut superdao = InMemorySuperDao::new();
    let mut dao = direct::Dao::new(String::from("Test DAO"));
    assert_eq!(dao.register_voter(ALICE), Ok(()));

    // An all-zero selector and arbitrary input bytes are valid and must
    // reach the parent unchanged.
    let call = ContractCall {
        callee: BOB,
        selector: [0, 0, 0, 0],
        input: vec![255, 0, 42, 7, 7],
        transferred_value: 10,
        ref_time_limit: 99,
        allow_reentry: true,
    };
    assert_eq!(
        dao.create_contract_call_proposal(ALICE, &mut superdao, call),
        Ok(())
    );

    match superdao.accepted_at(0) {
        AcceptedRequest::Proposed { call, .. } => match call {
            Call::Contract(c) => {
                assert_eq!(c.callee, BOB);
                assert_eq!(c.selector, [0, 0, 0, 0]);
                assert_eq!(c.input, vec![255, 0, 42, 7, 7]);
                assert_eq!(c.transferred_value, 10);
                assert_eq!(c.ref_time_limit, 99);
                assert!(c.allow_reentry);
            }
            _ => panic!("expected a contract call"),
        },
        _ => panic!("expected a proposal submission"),
    }
}

#[test]
fn stored_contract_call_round_trips_through_get_proposal() {
    let mut superdao = InMemorySuperDao::new();
    let mut dao =
        cross_chain::Dao::new(String::from("Test DAO"), &mut superdao).expect("parent refused");
    assert!(dao.register_voter(ALICE).is_ok());

    // Arbitrary selector and input bytes, stored and read back identical.
    let call = ContractCall {
        callee: BOB,
        selector: [9, 0, 255, 1],
        input: vec![0, 128, 7, 255, 0],
        transferred_value: 3,
        ref_time_limit: 11,
        allow_reentry: false,
    };
    let id = dao.create_contract_call_proposal(ALICE, call).unwrap();
    let got = dao.get_proposal(id).expect("stored proposal must be readable");
    match &got.action {
        Call::Contract(c) => {
            assert_eq!(c.callee, BOB);
            assert_eq!(c.selector, [9, 0, 255, 1]);
            assert_eq!(c.input, vec![0, 128, 7, 255, 0]);
            assert_eq!(c.transferred_value, 3);
            assert_eq!(c.ref_time_limit, 11);
            assert!(!c.allow_reentry);
        }
        _ => panic!("expected the stored contract call"),
    }
    assert_eq!(got.votes_yes, 0);
    assert_eq!(got.votes_no, 0);

    // A zero-length input and an all-zero selector round-trip unchanged too.
    let id2 = dao
        .create_contract_call_proposal(ALICE, sample_call(ALICE))
        .unwrap();
    assert!(id2 > id);
    match &dao.get_proposal(id2).unwrap().action {
        Call::Contract(c) => {
            assert_eq!(c.selector, [0, 0, 0, 0]);
            assert_eq!(c.input, Vec::<u8>::new());
        }
        _ => panic!("expected the stored contract call"),
    }

    // Storing locally does not contact the parent (registration aside).
    assert_eq!(superdao.accepted_len(), 1);

    // An unregistered caller is refused and nothing is stored.
    assert_eq!(
        dao.create_contract_call_proposal(BOB, sample_call(BOB)),
        Err(DaoError::VoterNotRegistered)
    );
    assert!(matches!(
        dao.get_proposal(id2 + 1),
        Err(DaoError::ProposalNotFound)
    ));
}

#[test]
fn mirror_refuses_a_second_vote_by_the_same_voter() {
    let mut superdao = InMemorySuperDao::new();
    let mut dao =
        cross_chain::Dao::new(String::from("Test DAO"), &mut superdao).expect("parent refused");
    assert!(dao.register_voter(ALICE).is_ok());
    assert!(dao.register_voter(BOB).is_ok());
    let id = dao
        .create_superdao_cross_chain_proposal(ALICE, &mut superdao, 1, vec![4])
        .unwrap();

    assert_eq!(dao.vote_proposal(ALICE, &mut superdao, id, true), Ok(()));
    let upstream_after_first = superdao.accepted_len();

    // The same voter on the same proposal is refused: counters and the
    // upstream log stay exactly as they were.
    assert_eq!(
        dao.vote_proposal(ALICE, &mut superdao, id, true),
        Err(DaoError::AlreadyVoted)
    );
    assert_eq!(
        dao.vote_proposal(ALICE, &mut superdao, id, false),
        Err(DaoError::AlreadyVoted)
    );
    assert_eq!(superdao.accepted_len(), upstream_after_first);
    let p = dao.get_proposal(id).unwrap();
    assert_eq!(p.votes_yes, 1);
    assert_eq!(p.votes_no, 0);

    // Another voter still votes.
    assert_eq!(dao.vote_proposal(BOB, &mut superdao, id, false), Ok(()));
    let p = dao.get_proposal(id).unwrap();
    assert_eq!(p.votes_yes, 1);
    assert_eq!(p.votes_no, 1);
}

#[test]
fn refused_registration_builds_no_organization() {
    let mut refusing = minidao::upstream::RefusingSuperDao::new();
    let r = cross_chain::Dao::new(String::from("Test DAO"), &mut refusing);
    assert!(matches!(r, Err(DaoError::UpstreamRefused)));
}

#[test]
fn refused_upstream_vote_leaves_counters_unchanged() {
    let mut superdao = InMemorySuperDao::new();
    let mut dao =
        cross_chain::Dao::new(String::from("Test DAO"), &mut superdao).expect("parent refused");
    assert!(dao.register_voter(ALICE).is_ok());
    let id = dao
        .create_superdao_cross_chain_proposal(ALICE, &mut superdao, 1, vec![5])
        .unwrap();

    let mut refusing = minidao::upstream::RefusingSuperDao::new();
    assert_eq!(
        dao.vote_proposal(ALICE, &mut refusing, id, true),
        Err(DaoError::UpstreamRefused)
    );
    let p = dao.get_proposal(id).unwrap();
    assert_eq!(p.votes_yes, 0);
    assert_eq!(p.votes_no, 0);

    // The refused vote left no cast record: the voter may try again.
    assert_eq!(dao.vote_proposal(ALICE, &mut superdao, id, true), Ok(()));
    assert_eq!(dao.get_proposal(id).unwrap().votes_yes, 1);
}

#[test]
fn deregistering_removes_the_callers_entry_not_anothers() {
    let mut dao = direct::Dao::new(String::from("Test DAO"));
    assert_eq!(dao.register_voter(ALICE), Ok(()));
    assert_eq!(dao.register_voter(BOB), Ok(()));

    // The caller's own entry goes, not the first one registered.
    assert_eq!(dao.deregister_voter(BOB), Ok(()));
    assert!(dao.has_voter(ALICE));
    assert!(!dao.has_voter(BOB));
}

#[test]
fn cross_chain_payload_round_trips_through_mirror() {
    let mut superdao = InMemorySuperDao::new();
    let mut dao =
        cross_chain::Dao::new(String::from("Test DAO"), &mut superdao).expect("parent refused");
    assert!(dao.register_voter(ALICE).is_ok());

    // A zero-length payload is valid and round-trips unchanged.
    let id_empty = dao
        .create_superdao_cross_chain_proposal(ALICE, &mut superdao, 7, Vec::new())
        .unwrap();
    let (chain_id, stored) = chain_fields(&dao.get_proposal(id_empty).unwrap().action);
    assert_eq!(chain_id, 7);
    assert_eq!(stored, Vec::<u8>::new());

    let bytes = vec![0, 255, 1, 128, 64];
    let id = dao
        .create_superdao_cross_chain_proposal(ALICE, &mut superdao, 7, bytes.clone())
        .unwrap();
    assert!(id > id_empty);
    let (_, stored) = chain_fields(&dao.get_proposal(id).unwrap().action);
    assert_eq!(stored, bytes);

    // An id never assigned is refused.
    assert!(matches!(
        dao.get_proposal(id + 1),
        Err(DaoError::ProposalNotFound)
    ));
}
