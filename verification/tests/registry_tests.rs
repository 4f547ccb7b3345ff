use poll::registry::PollContract;
use poll::types::{Address, PollError};

fn addr(value: u64) -> Address {
    Address { value }
}

fn options(n: usize) -> Vec<String> {
    let mut out: Vec<String> = Vec::new();
    let mut i: usize = 0;
    while i < n {
        out.push(format!("option {}", i));
        i += 1;
    }
    out
}

fn question() -> String {
    String::from("favorite letter?")
}

#[test]
fn initialize_is_a_no_op() {
    let reg = PollContract::new();
    reg.initialize();
    assert_eq!(reg.get_poll_count(), 0);
}

#[test]
fn fresh_registry_is_empty() {
    let reg = PollContract::new();
    assert_eq!(reg.get_poll_count(), 0);
    assert_eq!(reg.get_all_poll_ids(), Vec::<u32>::new());
    assert!(!reg.has_voted(1, addr(1)));
}

#[test]
fn create_returns_prior_count_plus_one() {
    let mut reg = PollContract::new();
    let before = reg.get_poll_count();
    let id = reg
        .create_poll(addr(1), true, question(), options(2), 100)
        .unwrap();
    assert_eq!(id, before + 1);
    assert_eq!(reg.get_poll_count(), before + 1);

    let before = reg.get_poll_count();
    let id = reg
        .create_poll(addr(2), true, question(), options(3), 200)
        .unwrap();
    assert_eq!(id, before + 1);
    assert_eq!(reg.get_poll_count(), before + 1);
}

#[test]
fn create_rejects_out_of_range_option_counts() {
    let mut reg = PollContract::new();
    assert_eq!(
        reg.create_poll(addr(1), true, question(), options(0), 1),
        Err(PollError::InvalidInput)
    );
    assert_eq!(
        reg.create_poll(addr(1), true, question(), options(1), 1),
        Err(PollError::InvalidInput)
    );
    assert_eq!(
        reg.create_poll(addr(1), true, question(), options(11), 1),
        Err(PollError::InvalidInput)
    );
    assert_eq!(
        reg.create_poll(addr(1), true, question(), options(15), 1),
        Err(PollError::InvalidInput)
    );
    assert_eq!(reg.get_poll_count(), 0);
    assert_eq!(reg.create_poll(addr(1), true, question(), options(2), 1), Ok(1));
    assert_eq!(reg.create_poll(addr(1), true, question(), options(10), 1), Ok(2));
}

#[test]
fn create_requires_authorization() {
    let mut reg = PollContract::new();
    assert_eq!(
        reg.create_poll(addr(1), false, question(), options(2), 1),
        Err(PollError::Unauthorized)
    );
    assert_eq!(reg.get_poll_count(), 0);
}

#[test]
fn new_poll_starts_with_zero_tallies() {
    let mut reg = PollContract::new();
    let id = reg
        .create_poll(addr(1), true, question(), options(4), 1)
        .unwrap();
    assert_eq!(reg.get_results(id), Ok(vec![0, 0, 0, 0]));
}

#[test]
fn created_poll_keeps_its_fields() {
    let mut reg = PollContract::new();
    let id = reg
        .create_poll(addr(9), true, String::from("tea or coffee?"), options(2), 1234)
        .unwrap();
    let p = reg.get_poll(id).unwrap();
    assert_eq!(p.id, id);
    assert_eq!(p.question, "tea or coffee?");
    assert_eq!(p.options, options(2));
    assert_eq!(p.votes, vec![0, 0]);
    assert_eq!(p.creator, addr(9));
    assert_eq!(p.created_at, 1234);
    assert!(p.is_active);
}

#[test]
fn first_vote_is_counted() {
    let mut reg = PollContract::new();
    let id = reg
        .create_poll(addr(1), true, question(), options(3), 1)
        .unwrap();
    assert_eq!(reg.vote(addr(2), true, id, 1), Ok(true));
    assert_eq!(reg.get_results(id), Ok(vec![0, 1, 0]));
    assert!(reg.has_voted(id, addr(2)));
}

#[test]
fn second_vote_by_same_voter_is_rejected() {
    let mut reg = PollContract::new();
    let id = reg
        .create_poll(addr(1), true, question(), options(2), 1)
        .unwrap();
    assert_eq!(reg.vote(addr(2), true, id, 0), Ok(true));
    assert_eq!(reg.vote(addr(2), true, id, 1), Ok(false));
    assert_eq!(reg.get_results(id), Ok(vec![1, 0]));
}

#[test]
fn out_of_range_option_is_rejected() {
    let mut reg = PollContract::new();
    let id = reg
        .create_poll(addr(1), true, question(), options(2), 1)
        .unwrap();
    assert_eq!(reg.vote(addr(2), true, id, 2), Ok(false));
    assert_eq!(reg.vote(addr(2), true, id, 17), Ok(false));
    assert_eq!(reg.get_results(id), Ok(vec![0, 0]));
    assert!(!reg.has_voted(id, addr(2)));
}

#[test]
fn vote_requires_authorization() {
    let mut reg = PollContract::new();
    let id = reg
        .create_poll(addr(1), true, question(), options(2), 1)
        .unwrap();
    assert_eq!(reg.vote(addr(2), false, id, 0), Err(PollError::Unauthorized));
    assert_eq!(reg.get_results(id), Ok(vec![0, 0]));
}

#[test]
fn closed_poll_rejects_votes() {
    let mut reg = PollContract::new();
    let id = reg
        .create_poll(addr(1), true, question(), options(2), 1)
        .unwrap();
    assert_eq!(reg.close_poll(addr(1), true, id), Ok(true));
    assert_eq!(reg.vote(addr(2), true, id, 0), Ok(false));
    assert_eq!(reg.get_results(id), Ok(vec![0, 0]));
    assert!(!reg.has_voted(id, addr(2)));
}

#[test]
fn only_the_creator_closes_and_closing_is_idempotent() {
    let mut reg = PollContract::new();
    let id = reg
        .create_poll(addr(1), true, question(), options(2), 1)
        .unwrap();
    assert_eq!(reg.close_poll(addr(2), true, id), Ok(false));
    assert!(reg.get_poll(id).unwrap().is_active);
    assert_eq!(reg.close_poll(addr(1), true, id), Ok(true));
    assert!(!reg.get_poll(id).unwrap().is_active);
    assert_eq!(reg.close_poll(addr(1), true, id), Ok(true));
    assert!(!reg.get_poll(id).unwrap().is_active);
}

#[test]
fn close_requires_authorization() {
    let mut reg = PollContract::new();
    let id = reg
        .create_poll(addr(1), true, question(), options(2), 1)
        .unwrap();
    assert_eq!(reg.close_poll(addr(1), false, id), Err(PollError::Unauthorized));
    assert!(reg.get_poll(id).unwrap().is_active);
}

#[test]
fn missing_poll_is_not_found() {
    let mut reg = PollContract::new();
    assert!(matches!(reg.get_poll(1), Err(PollError::NotFound)));
    assert_eq!(reg.get_results(1), Err(PollError::NotFound));
    assert_eq!(reg.close_poll(addr(1), true, 1), Err(PollError::NotFound));
    assert_eq!(reg.vote(addr(1), true, 1, 0), Err(PollError::NotFound));

    let id = reg
        .create_poll(addr(1), true, question(), options(2), 1)
        .unwrap();
    assert!(matches!(reg.get_poll(id + 1), Err(PollError::NotFound)));
    assert_eq!(reg.get_results(0), Err(PollError::NotFound));
    assert_eq!(reg.vote(addr(2), true, id + 1, 0), Err(PollError::NotFound));
    assert_eq!(reg.close_poll(addr(1), true, 0), Err(PollError::NotFound));
}

#[test]
fn already_voted_wins_over_not_found() {
    let mut reg = PollContract::new();
    let id = reg
        .create_poll(addr(1), true, question(), options(2), 1)
        .unwrap();
    assert_eq!(reg.vote(addr(2), true, id, 0), Ok(true));
    // The marker is checked before the poll lookup, so a repeat voter
    // gets a soft `false` even where a fresh voter would get an error.
    assert_eq!(reg.vote(addr(2), true, id, 5), Ok(false));
}

#[test]
fn all_poll_ids_form_a_dense_range() {
    let mut reg = PollContract::new();
    reg.create_poll(addr(1), true, question(), options(2), 1).unwrap();
    reg.create_poll(addr(2), true, question(), options(3), 2).unwrap();
    reg.create_poll(addr(3), true, question(), options(4), 3).unwrap();
    assert_eq!(reg.get_all_poll_ids(), vec![1, 2, 3]);
}

#[test]
fn votes_land_on_separate_polls_independently() {
    let mut reg = PollContract::new();
    let a = reg.create_poll(addr(1), true, question(), options(2), 1).unwrap();
    let b = reg.create_poll(addr(1), true, question(), options(2), 1).unwrap();
    assert_eq!(reg.vote(addr(2), true, a, 0), Ok(true));
    assert_eq!(reg.vote(addr(2), true, b, 1), Ok(true));
    assert_eq!(reg.get_results(a), Ok(vec![1, 0]));
    assert_eq!(reg.get_results(b), Ok(vec![0, 1]));
    assert!(reg.has_voted(a, addr(2)));
    assert!(reg.has_voted(b, addr(2)));
    assert!(!reg.has_voted(a, addr(3)));
}

#[test]
fn end_to_end_scenario() {
    let mut reg = PollContract::new();
    let creator = addr(1);
    let voter_x = addr(2);
    let voter_y = addr(3);
    let voter_z = addr(4);
    let opts = vec![String::from("A"), String::from("B")];
    let id = reg
        .create_poll(creator, true, String::from("A or B?"), opts, 50)
        .unwrap();
    assert_eq!(reg.vote(voter_x, true, id, 0), Ok(true));
    assert_eq!(reg.get_results(id), Ok(vec![1, 0]));
    assert_eq!(reg.vote(voter_x, true, id, 1), Ok(false));
    assert_eq!(reg.get_results(id), Ok(vec![1, 0]));
    assert_eq!(reg.vote(voter_y, true, id, 1), Ok(true));
    assert_eq!(reg.get_results(id), Ok(vec![1, 1]));
    assert_eq!(reg.close_poll(creator, true, id), Ok(true));
    assert_eq!(reg.vote(voter_z, true, id, 0), Ok(false));
    assert_eq!(reg.get_results(id), Ok(vec![1, 1]));
}
