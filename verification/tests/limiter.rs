use wasm_sandbox::limiter::{GrowthRequest, SandboxState, MAX_TABLE_ENTRIES};
use wasmtime::ResourceLimiter;

#[test]
fn a_fresh_state_has_refused_nothing() {
    let state = SandboxState::new(4096);
    assert_eq!(state.max_memory_bytes, 4096);
    assert!(!state.growth_denied);
    assert_eq!(state, SandboxState { max_memory_bytes: 4096, growth_denied: false });
}

#[test]
fn memory_may_grow_up_to_the_ceiling() {
    let mut state = SandboxState::new(65536);
    assert!(state.memory_growing(0, 0, None).unwrap());
    assert!(state.memory_growing(0, 65535, None).unwrap());
    assert!(state.memory_growing(0, 65536, None).unwrap());
    assert!(!state.growth_denied);
    assert!(!state.memory_growing(0, 65537, None).unwrap());
    assert!(state.growth_denied);
}

#[test]
fn the_memory_decision_ignores_current_and_declared_maximum() {
    let mut state = SandboxState::new(1000);
    assert!(state.memory_growing(5000, 1000, Some(10)).unwrap());
    assert!(state.memory_growing(0, 1000, Some(usize::MAX)).unwrap());
    assert!(!state.memory_growing(0, 1001, Some(usize::MAX)).unwrap());
    assert!(!state.memory_growing(1001, 1001, None).unwrap());
}

#[test]
fn tables_may_grow_up_to_a_thousand_entries() {
    assert_eq!(MAX_TABLE_ENTRIES, 1000);
    let mut state = SandboxState::new(0);
    assert!(state.table_growing(0, 0, None).unwrap());
    assert!(state.table_growing(0, 1000, None).unwrap());
    assert!(!state.growth_denied);
    assert!(!state.table_growing(0, 1001, None).unwrap());
    assert!(state.growth_denied);
    assert!(!state.table_growing(0, usize::MAX, Some(5)).unwrap());
}

#[test]
fn the_table_ceiling_ignores_the_memory_ceiling() {
    let mut small = SandboxState::new(1);
    let mut large = SandboxState::new(usize::MAX);
    assert!(small.table_growing(0, 1000, None).unwrap());
    assert!(!large.table_growing(0, 1001, None).unwrap());
}

#[test]
fn a_refusal_is_remembered_and_the_ceiling_stays() {
    let mut state = SandboxState::new(100);
    assert!(!state.answer(GrowthRequest::Memory { desired: 101 }));
    assert!(state.answer(GrowthRequest::Memory { desired: 100 }));
    assert!(state.answer(GrowthRequest::Table { desired: 1 }));
    assert_eq!(state, SandboxState { max_memory_bytes: 100, growth_denied: true });
}

#[test]
fn requests_within_the_ceilings_leave_no_mark() {
    let mut state = SandboxState::new(100);
    for desired in [0, 1, 99, 100] {
        assert!(state.answer(GrowthRequest::Memory { desired }));
    }
    for desired in [0, 1, 999, 1000] {
        assert!(state.answer(GrowthRequest::Table { desired }));
    }
    assert_eq!(state, SandboxState::new(100));
}

#[test]
fn no_memory_at_all_may_be_allowed() {
    let mut state = SandboxState::new(0);
    assert!(state.memory_growing(0, 0, None).unwrap());
    assert!(!state.memory_growing(0, 1, None).unwrap());
}

#[test]
fn the_largest_ceiling_allows_every_request() {
    let mut state = SandboxState::new(usize::MAX);
    assert!(state.memory_growing(0, usize::MAX, None).unwrap());
    assert!(!state.growth_denied);
}
