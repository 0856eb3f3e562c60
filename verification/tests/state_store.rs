use secretvars::error::ContractError;
use secretvars::state::{copy_identities, is_listed, same_identity, State, StateStore};

fn initialized() -> StateStore {
    let mut store = StateStore::new();
    store.initialize(b"creator".to_vec()).unwrap();
    store
}

#[test]
fn new_store_has_no_record() {
    let store = StateStore::new();
    assert!(store.record.is_none());
    assert_eq!(store.load().unwrap_err(), ContractError::NotFound);
}

#[test]
fn initialize_creates_a_fresh_record() {
    let mut store = StateStore::new();
    let state = store.initialize(b"creator".to_vec()).unwrap();
    assert_eq!(state.owner, b"creator".to_vec());
    assert!(state.allowed_viewers.is_empty());
    assert_eq!(state.secret_variables, "");

    let loaded = store.load().unwrap();
    assert_eq!(loaded.owner, b"creator".to_vec());
    assert!(loaded.allowed_viewers.is_empty());
    assert_eq!(loaded.secret_variables, "");
}

#[test]
fn initialize_twice_is_refused() {
    let mut store = initialized();
    assert_eq!(
        store.initialize(b"intruder".to_vec()).unwrap_err(),
        ContractError::AlreadyInitialized
    );
    assert_eq!(store.load().unwrap().owner, b"creator".to_vec());
}

#[test]
fn update_commits_what_the_transform_returns() {
    let mut store = initialized();
    let result = store.update(|mut state: State| {
        state.allowed_viewers = vec![b"viewer1".to_vec(), b"viewer2".to_vec()];
        state.secret_variables = "this is a secret".to_string();
        Ok(state)
    });
    assert_eq!(result, Ok(()));
    let loaded = store.load().unwrap();
    assert_eq!(loaded.owner, b"creator".to_vec());
    assert_eq!(loaded.allowed_viewers, vec![b"viewer1".to_vec(), b"viewer2".to_vec()]);
    assert_eq!(loaded.secret_variables, "this is a secret");
}

#[test]
fn update_that_fails_changes_nothing() {
    let mut store = initialized();
    store
        .update(|mut state: State| {
            state.secret_variables = "kept".to_string();
            Ok(state)
        })
        .unwrap();
    let result = store.update(|mut state: State| {
        state.secret_variables = "lost".to_string();
        state.allowed_viewers.push(b"viewer1".to_vec());
        if state.owner.is_empty() {
            Ok(state)
        } else {
            Err(ContractError::Malformed)
        }
    });
    assert_eq!(result, Err(ContractError::Malformed));
    let loaded = store.load().unwrap();
    assert_eq!(loaded.owner, b"creator".to_vec());
    assert!(loaded.allowed_viewers.is_empty());
    assert_eq!(loaded.secret_variables, "kept");
}

#[test]
fn update_without_a_record_is_not_found() {
    let mut store = StateStore::new();
    let result = store.update(|state: State| Ok(state));
    assert_eq!(result, Err(ContractError::NotFound));
    assert!(store.record.is_none());
}

#[test]
fn load_hands_out_a_copy() {
    let store = initialized();
    let mut loaded = store.load().unwrap();
    loaded.owner = b"intruder".to_vec();
    loaded.secret_variables.push_str("changed");
    assert_eq!(store.load().unwrap().owner, b"creator".to_vec());
    assert_eq!(store.load().unwrap().secret_variables, "");
}

#[test]
fn state_clone_keeps_every_field() {
    let state = State {
        owner: vec![1, 2, 3],
        allowed_viewers: vec![vec![4], vec![], vec![5, 6]],
        secret_variables: "x".to_string(),
    };
    let copy = state.clone();
    assert_eq!(copy.owner, vec![1, 2, 3]);
    assert_eq!(copy.allowed_viewers, vec![vec![4], vec![], vec![5, 6]]);
    assert_eq!(copy.secret_variables, "x");
}

#[test]
fn same_identity_compares_bytes() {
    assert!(same_identity(&vec![], &vec![]));
    assert!(same_identity(&vec![1, 2, 3], &vec![1, 2, 3]));
    assert!(!same_identity(&vec![1, 2, 3], &vec![1, 2, 4]));
    assert!(!same_identity(&vec![0, 2, 3], &vec![1, 2, 3]));
    assert!(!same_identity(&vec![1, 2], &vec![1, 2, 3]));
    assert!(!same_identity(&vec![1, 2, 3], &vec![1, 2]));
}

#[test]
fn is_listed_finds_an_identity_anywhere() {
    let list = vec![vec![1], vec![2, 2], vec![3], vec![1]];
    assert!(is_listed(&list, &vec![1]));
    assert!(is_listed(&list, &vec![2, 2]));
    assert!(is_listed(&list, &vec![3]));
    assert!(!is_listed(&list, &vec![2]));
    assert!(!is_listed(&list, &vec![]));
    assert!(!is_listed(&vec![], &vec![1]));
}

#[test]
fn copy_identities_keeps_order_and_repeats() {
    let list = vec![vec![9], vec![], vec![9], vec![1, 2]];
    assert_eq!(copy_identities(&list), list);
    assert_eq!(copy_identities(&vec![]), Vec::<Vec<u8>>::new());
}
