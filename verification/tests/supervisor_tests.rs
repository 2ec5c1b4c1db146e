use singularity_llm::supervisor::LoadDecision;
use singularity_llm::supervisor::Supervisor;

#[test]
fn fresh_supervisor_is_idle() {
    let s: Supervisor<u64> = Supervisor::new();
    assert!(!s.is_loaded());
}

#[test]
fn scenario_double_load_single_teardown() {
    let mut s: Supervisor<u64> = Supervisor::new();

    // First load: the slot is empty, so this call performs the spawn.
    let first = s.load();
    assert_eq!(first, LoadDecision::MustSpawn);
    s.confirm_load(4242);
    assert!(s.is_loaded());

    // Second load in a row: a benign no-op, no duplicate spawn.
    let second = s.load();
    assert_eq!(second, LoadDecision::AlreadyRunning);
    assert!(s.is_loaded());

    // One unload fully tears down the single process: the one handle comes
    // back for termination and nothing is supervised afterwards.
    let handle = s.unload();
    assert_eq!(handle, Some(4242));
    assert!(!s.is_loaded());
    let again = s.unload();
    assert_eq!(again, None);
}

#[test]
fn exactly_one_of_many_loads_spawns() {
    let mut s: Supervisor<u64> = Supervisor::new();
    let mut spawns = 0;
    for pid in 0..10u64 {
        match s.load() {
            LoadDecision::MustSpawn => {
                s.confirm_load(pid);
                spawns += 1;
            },
            LoadDecision::AlreadyRunning => {},
        }
    }
    assert_eq!(spawns, 1);
    assert!(s.is_loaded());
    assert_eq!(s.unload(), Some(0), "the first call's handle is the one kept");
}

#[test]
fn unload_is_unconditional_and_clears_the_flag() {
    let mut s: Supervisor<u64> = Supervisor::new();
    assert_eq!(s.unload(), None);
    assert!(!s.is_loaded());

    let d = s.load();
    assert_eq!(d, LoadDecision::MustSpawn);
    s.confirm_load(7);
    let h = s.unload();
    assert_eq!(h, Some(7));
    assert!(!s.is_loaded());

    // After the teardown the slot is free again: the next load spawns.
    assert_eq!(s.load(), LoadDecision::MustSpawn);
}
