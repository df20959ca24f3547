use quadratic_voting::address::Address;
use quadratic_voting::address::addr_eq;
use quadratic_voting::address::derive_proposal_address;
use quadratic_voting::address::derive_vote_address;
use quadratic_voting::credits::isqrt;
use quadratic_voting::errors::QuadraticVotingError;
use quadratic_voting::initialize_dao;
use quadratic_voting::initialize_proposal;
use quadratic_voting::ledger::Ledger;
use quadratic_voting::state::Record;
use quadratic_voting::state::VoteType;
use quadratic_voting::vote;

const ALICE: u64 = 11;
const BOB: u64 = 22;
const CAROL: u64 = 33;

fn dao_counter(ledger: &Ledger, addr: &Address) -> u64 {
    match ledger.read(addr) {
        Some(Record::Dao(d)) => d.proposal_count,
        _ => panic!("no DAO at that address"),
    }
}

fn tallies(ledger: &Ledger, addr: &Address) -> (u64, u64) {
    match ledger.read(addr) {
        Some(Record::Proposal(p)) => (p.yes_vote_count, p.no_vote_count),
        _ => panic!("no proposal at that address"),
    }
}

fn vote_credits(ledger: &Ledger, addr: &Address) -> u64 {
    match ledger.read(addr) {
        Some(Record::Vote(v)) => v.vote_credits,
        _ => panic!("no vote at that address"),
    }
}

fn dao_with_proposal(ledger: &mut Ledger, authority: u64) -> (Address, Address) {
    let dao = initialize_dao(ledger, authority, b"assembly".to_vec()).unwrap_or_else(|_| {
        panic!("DAO creation failed")
    });
    let proposal = initialize_proposal(
        ledger,
        authority,
        dao.dup(),
        b"motion".to_vec(),
        b"".to_vec(),
        authority,
    )
    .unwrap_or_else(|_| panic!("proposal creation failed"));
    (dao, proposal)
}

#[test]
fn create_dao_once_then_slot_occupied() {
    let mut ledger = Ledger::new();
    let dao = initialize_dao(&mut ledger, ALICE, b"Treasury".to_vec());
    let dao = match dao {
        Ok(a) => a,
        Err(_) => panic!("first creation must succeed"),
    };
    assert_eq!(dao_counter(&ledger, &dao), 0);

    let again = initialize_dao(&mut ledger, ALICE, b"Treasury".to_vec());
    assert!(matches!(again, Err(QuadraticVotingError::SlotOccupied)));
    assert_eq!(dao_counter(&ledger, &dao), 0);
    match ledger.read(&dao) {
        Some(Record::Dao(d)) => {
            assert_eq!(d.name, b"Treasury".to_vec());
            assert_eq!(d.authority, ALICE);
        }
        _ => panic!("the first DAO must still be there"),
    }
}

#[test]
fn same_name_different_authority_is_a_different_dao() {
    let mut ledger = Ledger::new();
    assert!(initialize_dao(&mut ledger, ALICE, b"Treasury".to_vec()).is_ok());
    assert!(initialize_dao(&mut ledger, BOB, b"Treasury".to_vec()).is_ok());
}

#[test]
fn proposal_addresses_follow_the_counter() {
    let mut ledger = Ledger::new();
    let dao = initialize_dao(&mut ledger, ALICE, b"guild".to_vec()).unwrap_or_else(|_| {
        panic!("DAO creation failed")
    });
    let mut created: Vec<Address> = Vec::new();
    for i in 0..3u64 {
        assert_eq!(dao_counter(&ledger, &dao), i);
        let p = initialize_proposal(
            &mut ledger,
            ALICE,
            dao.dup(),
            b"subject".to_vec(),
            b"meta".to_vec(),
            ALICE,
        );
        let p = match p {
            Ok(a) => a,
            Err(_) => panic!("creation {} must succeed", i),
        };
        assert!(addr_eq(&p, &derive_proposal_address(&dao, i)));
        created.push(p);
    }
    assert_eq!(dao_counter(&ledger, &dao), 3);
    for i in 0..created.len() {
        for j in 0..created.len() {
            if i != j {
                assert!(!addr_eq(&created[i], &created[j]));
            }
        }
    }
}

#[test]
fn proposal_checks_run_in_order() {
    let mut ledger = Ledger::new();
    let dao = initialize_dao(&mut ledger, ALICE, b"guild".to_vec()).unwrap_or_else(|_| {
        panic!("DAO creation failed")
    });
    // A wrong signer loses before any input validation.
    let r = initialize_proposal(&mut ledger, BOB, dao.dup(), b"".to_vec(), b"".to_vec(), BOB);
    assert!(matches!(r, Err(QuadraticVotingError::Unauthorized)));
    // An empty subject loses before an oversized metadata is looked at.
    let r = initialize_proposal(
        &mut ledger,
        ALICE,
        dao.dup(),
        b"".to_vec(),
        vec![0u8; 501],
        ALICE,
    );
    assert!(matches!(r, Err(QuadraticVotingError::EmptySubject)));
    assert_eq!(dao_counter(&ledger, &dao), 0);
}

#[test]
fn subject_length_bounds() {
    let mut ledger = Ledger::new();
    let dao = initialize_dao(&mut ledger, ALICE, b"guild".to_vec()).unwrap_or_else(|_| {
        panic!("DAO creation failed")
    });
    let run = |ledger: &mut Ledger, dao: &Address, len: usize| {
        initialize_proposal(ledger, ALICE, dao.dup(), vec![b'x'; len], b"".to_vec(), ALICE)
    };
    assert!(matches!(run(&mut ledger, &dao, 0), Err(QuadraticVotingError::EmptySubject)));
    assert!(matches!(run(&mut ledger, &dao, 301), Err(QuadraticVotingError::SubjectTooLong)));
    assert!(run(&mut ledger, &dao, 1).is_ok());
    assert!(run(&mut ledger, &dao, 300).is_ok());
    assert_eq!(dao_counter(&ledger, &dao), 2);
}

#[test]
fn metadata_length_bounds() {
    let mut ledger = Ledger::new();
    let dao = initialize_dao(&mut ledger, ALICE, b"guild".to_vec()).unwrap_or_else(|_| {
        panic!("DAO creation failed")
    });
    let run = |ledger: &mut Ledger, dao: &Address, len: usize| {
        initialize_proposal(ledger, ALICE, dao.dup(), b"s".to_vec(), vec![b'm'; len], ALICE)
    };
    assert!(matches!(run(&mut ledger, &dao, 501), Err(QuadraticVotingError::MetadataTooLong)));
    assert!(run(&mut ledger, &dao, 500).is_ok());
    assert_eq!(dao_counter(&ledger, &dao), 1);
}

#[test]
fn proposal_authority_is_recorded_as_supplied() {
    let mut ledger = Ledger::new();
    let dao = initialize_dao(&mut ledger, ALICE, b"guild".to_vec()).unwrap_or_else(|_| {
        panic!("DAO creation failed")
    });
    // The recorded authority is the caller-supplied one, not the signer.
    let p = initialize_proposal(
        &mut ledger,
        ALICE,
        dao.dup(),
        b"s".to_vec(),
        b"".to_vec(),
        CAROL,
    )
    .unwrap_or_else(|_| panic!("proposal creation failed"));
    match ledger.read(&p) {
        Some(Record::Proposal(rec)) => {
            assert_eq!(rec.authority, CAROL);
            assert_eq!(rec.subject, b"s".to_vec());
            assert_eq!(rec.yes_vote_count, 0);
            assert_eq!(rec.no_vote_count, 0);
        }
        _ => panic!("no proposal record"),
    }
}

#[test]
fn credits_are_floor_of_square_root() {
    let mut ledger = Ledger::new();
    let (_, proposal) = dao_with_proposal(&mut ledger, ALICE);
    let cases: [(u64, u64); 8] =
        [(0, 0), (1, 1), (3, 1), (4, 2), (8, 2), (9, 3), (15, 3), (16, 4)];
    for (voter, (balance, expected)) in cases.iter().enumerate() {
        let v = vote(
            &mut ledger,
            voter as u64,
            proposal.dup(),
            *balance,
            VoteType::Yes,
        );
        let v = match v {
            Ok(a) => a,
            Err(_) => panic!("vote with balance {} must succeed", balance),
        };
        assert_eq!(vote_credits(&ledger, &v), *expected);
    }
}

#[test]
fn isqrt_exact_values() {
    assert_eq!(isqrt(0), 0);
    assert_eq!(isqrt(2), 1);
    assert_eq!(isqrt(99), 9);
    assert_eq!(isqrt(100), 10);
    assert_eq!(isqrt(10_000_000_000), 100_000);
    assert_eq!(isqrt(u64::MAX), 4_294_967_295);
    assert_eq!(isqrt(4_294_967_295 * 4_294_967_295), 4_294_967_295);
    assert_eq!(isqrt(4_294_967_295 * 4_294_967_295 - 1), 4_294_967_294);
}

#[test]
fn second_vote_is_rejected_and_tally_unchanged() {
    let mut ledger = Ledger::new();
    let (_, proposal) = dao_with_proposal(&mut ledger, ALICE);
    assert!(vote(&mut ledger, BOB, proposal.dup(), 9, VoteType::Yes).is_ok());
    let (yes, no) = tallies(&ledger, &proposal);
    let again = vote(&mut ledger, BOB, proposal.dup(), 25, VoteType::No);
    assert!(matches!(again, Err(QuadraticVotingError::SlotOccupied)));
    assert_eq!(tallies(&ledger, &proposal), (yes, no));
    assert_eq!(yes + no, 1);
}

#[test]
fn zero_balance_vote_is_valid() {
    let mut ledger = Ledger::new();
    let (_, proposal) = dao_with_proposal(&mut ledger, ALICE);
    let v = vote(&mut ledger, BOB, proposal.dup(), 0, VoteType::No)
        .unwrap_or_else(|_| panic!("a zero-credit vote is still a vote"));
    assert_eq!(vote_credits(&ledger, &v), 0);
    assert_eq!(tallies(&ledger, &proposal), (0, 1));
}

#[test]
fn hundred_distinct_voters_each_succeed_once() {
    let mut ledger = Ledger::new();
    let (_, proposal) = dao_with_proposal(&mut ledger, ALICE);
    for voter in 0..100u64 {
        let ballot = if voter % 2 == 0 { VoteType::Yes } else { VoteType::No };
        assert!(vote(&mut ledger, voter, proposal.dup(), voter, ballot).is_ok());
    }
    let (yes, no) = tallies(&ledger, &proposal);
    assert_eq!(yes, 50);
    assert_eq!(no, 50);
    for voter in 0..100u64 {
        let va = derive_vote_address(&proposal, voter);
        match ledger.read(&va) {
            Some(Record::Vote(v)) => assert_eq!(v.authority, voter),
            _ => panic!("voter {} must hold a vote record", voter),
        }
        let again = vote(&mut ledger, voter, proposal.dup(), voter, VoteType::Yes);
        assert!(matches!(again, Err(QuadraticVotingError::SlotOccupied)));
    }
    assert_eq!(tallies(&ledger, &proposal), (50, 50));
}

#[test]
fn treasury_end_to_end() {
    let mut ledger = Ledger::new();
    let dao = initialize_dao(&mut ledger, ALICE, b"Treasury".to_vec()).unwrap_or_else(|_| {
        panic!("DAO creation failed")
    });
    let proposal = initialize_proposal(
        &mut ledger,
        ALICE,
        dao.dup(),
        b"Fund X".to_vec(),
        b"v1".to_vec(),
        ALICE,
    )
    .unwrap_or_else(|_| panic!("proposal creation failed"));
    let ballot = vote(&mut ledger, BOB, proposal.dup(), 16, VoteType::Yes)
        .unwrap_or_else(|_| panic!("the first vote must succeed"));
    assert_eq!(vote_credits(&ledger, &ballot), 4);
    assert_eq!(tallies(&ledger, &proposal), (1, 0));
    let again = vote(&mut ledger, BOB, proposal.dup(), 16, VoteType::Yes);
    assert!(matches!(again, Err(QuadraticVotingError::SlotOccupied)));
    assert_eq!(tallies(&ledger, &proposal), (1, 0));
}

#[test]
fn proposals_under_different_daos_never_collide() {
    let mut ledger = Ledger::new();
    let dao_a = initialize_dao(&mut ledger, ALICE, b"guild".to_vec()).unwrap_or_else(|_| {
        panic!("DAO creation failed")
    });
    let dao_b = initialize_dao(&mut ledger, BOB, b"guild".to_vec()).unwrap_or_else(|_| {
        panic!("DAO creation failed")
    });
    let pa = initialize_proposal(&mut ledger, ALICE, dao_a.dup(), b"s".to_vec(), b"".to_vec(), ALICE)
        .unwrap_or_else(|_| panic!("proposal creation failed"));
    let pb = initialize_proposal(&mut ledger, BOB, dao_b.dup(), b"s".to_vec(), b"".to_vec(), BOB)
        .unwrap_or_else(|_| panic!("proposal creation failed"));
    // Same subject, same sequence number 0 — still different slots.
    assert!(!addr_eq(&pa, &pb));
    assert!(!addr_eq(&derive_vote_address(&pa, CAROL), &derive_vote_address(&pb, CAROL)));
    assert!(vote(&mut ledger, CAROL, pa.dup(), 4, VoteType::Yes).is_ok());
    assert!(vote(&mut ledger, CAROL, pb.dup(), 4, VoteType::No).is_ok());
    assert_eq!(tallies(&ledger, &pa), (1, 0));
    assert_eq!(tallies(&ledger, &pb), (0, 1));
}
