use asyncra::{Action, LockState, SharedValueActor, SharedValueMessage};

fn read_lock<T: Clone>(actor: &mut SharedValueActor<T>) -> T {
    let msg = SharedValueMessage::<T, u8>::ReadLock { tx: 7 };
    assert!(actor.is_ready(&msg));
    match actor.handle(msg) {
        Action::Reply { tx, snapshot, wake } => {
            assert_eq!(tx, 7);
            assert!(wake);
            snapshot
        }
        _ => panic!("a shared read must be answered"),
    }
}

fn read<T: Clone>(actor: &mut SharedValueActor<T>) -> T {
    match actor.handle(SharedValueMessage::<T, u8>::Read { tx: 3 }) {
        Action::Reply { tx, snapshot, wake } => {
            assert_eq!(tx, 3);
            assert!(!wake);
            snapshot
        }
        _ => panic!("a read must be answered"),
    }
}

fn write_lock<T: Clone>(actor: &mut SharedValueActor<T>, data: T) {
    let msg = SharedValueMessage::<T, u8>::WriteLock { data };
    assert!(actor.is_ready(&msg));
    assert!(matches!(actor.handle(msg), Action::Stored));
}

#[test]
fn two_loops_lose_no_update() {
    let mut num = SharedValueActor::new(1i32);
    let mut arr = SharedValueActor::new(vec![0i32]);
    for _ in 0..100 {
        let n = read_lock(&mut num);
        let mut a = read_lock(&mut arr);
        a.push(n);
        write_lock(&mut arr, a);

        let m = read_lock(&mut num);
        write_lock(&mut num, m + 1);
    }
    let list = read_lock(&mut arr);
    assert_eq!(list.len(), 101);
    assert_eq!(read_lock(&mut num), 101);
    assert_eq!(list[0], 0);
    assert_eq!(list[1], 1);
    assert_eq!(list[100], 100);
}

#[test]
fn two_loops_in_other_order_lose_no_update() {
    let mut num = SharedValueActor::new(1i32);
    let mut arr = SharedValueActor::new(vec![0i32]);
    for _ in 0..100 {
        let m = read_lock(&mut num);
        write_lock(&mut num, m + 1);
    }
    for _ in 0..100 {
        let n = read_lock(&mut num);
        let mut a = read_lock(&mut arr);
        a.push(n);
        write_lock(&mut arr, a);
    }
    let list = read_lock(&mut arr);
    assert_eq!(list.len(), 101);
    assert_eq!(read_lock(&mut num), 101);
    assert_eq!(list[100], 101);
}

#[test]
fn write_lock_then_read_lock_round_trips() {
    let mut cell = SharedValueActor::new((0u64, String::from("seed")));
    let v = (42u64, String::from("forty-two"));
    write_lock(&mut cell, v.clone());
    assert_eq!(read_lock(&mut cell), v);
    assert_eq!(read(&mut cell), v);
}

#[test]
fn many_exclusive_writes_keep_the_last_whole_value() {
    let mut cell = SharedValueActor::new(vec![0u32; 4]);
    for i in 1..=20u32 {
        write_lock(&mut cell, vec![i; 4]);
        let seen = read_lock(&mut cell);
        assert!(seen.iter().all(|x| *x == seen[0]));
    }
    assert_eq!(read_lock(&mut cell), vec![20u32; 4]);
}

#[test]
fn best_effort_write_is_always_ready_and_stores() {
    let mut cell = SharedValueActor::new(5i64);
    let msg = SharedValueMessage::<i64, u8>::Write { data: -9 };
    assert!(cell.is_ready(&msg));
    assert!(matches!(cell.handle(msg), Action::Stored));
    assert_eq!(*cell.current(), -9);
    assert_eq!(read(&mut cell), -9);
}

#[test]
fn read_leaves_value_unchanged() {
    let mut cell = SharedValueActor::new(String::from("kept"));
    assert_eq!(read(&mut cell), "kept");
    assert_eq!(read_lock(&mut cell), "kept");
    assert_eq!(cell.current(), "kept");
}

#[test]
fn lock_state_grants_and_releases_holds() {
    let mut lock = LockState::new();
    assert_eq!(lock, LockState { shared_count: 0, exclusive_active: false });
    assert!(lock.can_share());
    assert!(lock.can_exclude());
    lock.acquire_shared();
    lock.acquire_shared();
    assert_eq!(lock.shared_count, 2);
    assert!(lock.can_share());
    assert!(!lock.can_exclude());
    lock.release_shared();
    lock.release_shared();
    assert!(lock.can_exclude());
    lock.acquire_exclusive();
    assert!(lock.exclusive_active);
    assert!(!lock.can_share());
    assert!(!lock.can_exclude());
    lock.release_exclusive();
    assert_eq!(lock, LockState::new());
}
