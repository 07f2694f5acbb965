use concurrent_queue::error::{PopError, PushError};
use concurrent_queue::zst::{ZeroSized, Zst};
use easy_parallel::Parallel;
use std::sync::atomic::{AtomicUsize, Ordering};

#[test]
fn smoke() {
    let q = Zst::new(Some(2));

    q.push(()).unwrap();
    assert_eq!(q.pop(), Ok(()));

    q.push(()).unwrap();
    assert_eq!(q.pop(), Ok(()));
    assert!(q.pop().is_err());
}

#[test]
fn smoke_unbounded() {
    let q = Zst::new(None);

    q.push(()).unwrap();
    assert_eq!(q.pop(), Ok(()));

    q.push(()).unwrap();
    assert_eq!(q.pop(), Ok(()));
    assert!(q.pop().is_err());
}

#[test]
fn capacity() {
    for i in 1..10 {
        let q = Zst::<()>::new(Some(i));
        assert_eq!(q.capacity(), Some(i));
    }
}

#[test]
fn len_empty_full() {
    let q = Zst::<()>::new(Some(2));

    assert_eq!(q.len(), 0);
    assert_eq!(q.is_empty(), true);
    assert_eq!(q.is_full(), false);

    q.push(()).unwrap();

    assert_eq!(q.len(), 1);
    assert_eq!(q.is_empty(), false);
    assert_eq!(q.is_full(), false);

    q.push(()).unwrap();

    assert_eq!(q.len(), 2);
    assert_eq!(q.is_empty(), false);
    assert_eq!(q.is_full(), true);

    q.pop().unwrap();

    assert_eq!(q.len(), 1);
    assert_eq!(q.is_empty(), false);
    assert_eq!(q.is_full(), false);
}

#[test]
fn len_empty_full_unbounded() {
    let q = Zst::<()>::new(None);

    assert_eq!(q.len(), 0);
    assert_eq!(q.is_empty(), true);
    assert_eq!(q.is_full(), false);

    q.push(()).unwrap();

    assert_eq!(q.len(), 1);
    assert_eq!(q.is_empty(), false);
    assert_eq!(q.is_full(), false);

    q.push(()).unwrap();

    assert_eq!(q.len(), 2);
    assert_eq!(q.is_empty(), false);
    assert_eq!(q.is_full(), false);

    q.pop().unwrap();

    assert_eq!(q.len(), 1);
    assert_eq!(q.is_empty(), false);
    assert_eq!(q.is_full(), false);
}

#[test]
fn len() {
    const COUNT: usize = 25_000;
    const CAP: usize = 1000;

    let q = Zst::<()>::new(Some(CAP));
    assert_eq!(q.len(), 0);

    for _ in 0..CAP / 10 {
        for i in 0..50 {
            q.push(()).unwrap();
            assert_eq!(q.len(), i + 1);
        }

        for i in 0..50 {
            q.pop().unwrap();
            assert_eq!(q.len(), 50 - i - 1);
        }
    }
    assert_eq!(q.len(), 0);

    for i in 0..CAP {
        q.push(()).unwrap();
        assert_eq!(q.len(), i + 1);
    }

    for _ in 0..CAP {
        q.pop().unwrap();
    }
    assert_eq!(q.len(), 0);

    Parallel::new()
        .add(|| {
            for _ in 0..COUNT {
                loop {
                    if let Ok(()) = q.pop() {
                        break;
                    }
                }
                let len = q.len();
                assert!(len <= CAP);
            }
        })
        .add(|| {
            for _ in 0..COUNT {
                while q.push(()).is_err() {}
                let len = q.len();
                assert!(len <= CAP);
            }
        })
        .run();

    assert_eq!(q.len(), 0);
}

#[test]
fn len_unbounded() {
    let q = Zst::<()>::new(None);
    assert_eq!(q.len(), 0);

    for i in 0..1000 {
        q.push(()).unwrap();
        assert_eq!(q.len(), i + 1);
    }

    for _ in 0..1000 {
        q.pop().unwrap();
    }

    assert_eq!(q.len(), 0);
}

#[test]
fn close() {
    let q = Zst::<()>::new(Some(2));
    assert_eq!(q.push(()), Ok(()));

    assert!(!q.is_closed());
    assert!(q.close());

    assert!(q.is_closed());
    assert!(!q.close());

    assert_eq!(q.push(()), Err(PushError::Closed(())));
    assert_eq!(q.pop(), Ok(()));
    assert_eq!(q.pop(), Err(PopError::Closed));
}

#[test]
fn close_unbounded() {
    let q = Zst::<()>::new(None);
    assert_eq!(q.push(()), Ok(()));

    assert!(!q.is_closed());
    assert!(q.close());

    assert!(q.is_closed());
    assert!(!q.close());

    assert_eq!(q.push(()), Err(PushError::Closed(())));
    assert_eq!(q.pop(), Ok(()));
    assert_eq!(q.pop(), Err(PopError::Closed));
}

#[test]
fn zst_spsc() {
    const COUNT: usize = 100_000;

    let q = Zst::<()>::new(Some(3));

    Parallel::new()
        .add(|| {
            for _ in 0..COUNT {
                loop {
                    if let Ok(()) = q.pop() {
                        break;
                    }
                }
            }
            assert!(q.pop().is_err());
        })
        .add(|| {
            for _ in 0..COUNT {
                while q.push(()).is_err() {}
            }
        })
        .run();
}

#[test]
fn drops() {
    const RUNS: usize = 100;
    const STEPS: usize = 10_000;

    static DROPS: AtomicUsize = AtomicUsize::new(0);

    #[derive(Debug, PartialEq)]
    struct DropCounter;

    impl Drop for DropCounter {
        fn drop(&mut self) {
            DROPS.fetch_add(1, Ordering::SeqCst);
        }
    }

    impl ZeroSized for DropCounter {
        fn instance() -> Self {
            DropCounter
        }
    }

    for _ in 0..RUNS {
        let steps = fastrand::usize(..STEPS);
        let additional = fastrand::usize(..50);

        DROPS.store(0, Ordering::SeqCst);
        let q = Zst::new(Some(50));

        Parallel::new()
            .add(|| {
                for _ in 0..steps {
                    while q.pop().is_err() {}
                }
            })
            .add(|| {
                for _ in 0..steps {
                    while q.push(DropCounter).is_err() {
                        DROPS.fetch_sub(1, Ordering::SeqCst);
                    }
                }
            })
            .run();

        for _ in 0..additional {
            q.push(DropCounter).unwrap();
        }

        assert_eq!(DROPS.load(Ordering::SeqCst), steps);
        q.drop();
        assert_eq!(DROPS.load(Ordering::SeqCst), steps + additional);
    }
}

#[test]
fn linearizable() {
    const COUNT: usize = 25_000;
    const THREADS: usize = 4;

    let q = Zst::new(Some(THREADS));

    Parallel::new()
        .each(0..THREADS, |_| {
            for _ in 0..COUNT {
                while q.push(()).is_err() {}
                q.pop().unwrap();
            }
        })
        .run();
}

#[test]
fn bounded_fills_and_drains() {
    let q = Zst::new(Some(2));

    assert_eq!(q.push(()), Ok(()));
    assert_eq!(q.push(()), Ok(()));
    assert_eq!(q.push(()), Err(PushError::Full(())));
    assert_eq!(q.pop(), Ok(()));
    assert_eq!(q.pop(), Ok(()));
    assert_eq!(q.pop(), Err(PopError::Empty));
}

#[test]
fn full_then_pop_then_push() {
    let q = Zst::new(Some(3));

    for _ in 0..3 {
        assert_eq!(q.push(()), Ok(()));
    }
    assert!(q.is_full());
    assert_eq!(q.capacity(), Some(q.len()));
    assert_eq!(q.push(()), Err(PushError::Full(())));

    assert_eq!(q.pop(), Ok(()));
    assert!(!q.is_full());
    assert_eq!(q.push(()), Ok(()));
    assert_eq!(q.push(()), Err(PushError::Full(())));
}

#[test]
fn unbounded_thousand() {
    let q = Zst::new(None);

    for _ in 0..1000 {
        assert_eq!(q.push(()), Ok(()));
    }
    assert!(!q.is_full());
    for _ in 0..1000 {
        assert_eq!(q.pop(), Ok(()));
    }
    assert_eq!(q.pop(), Err(PopError::Empty));
}

#[test]
fn close_keeps_the_items() {
    let q = Zst::new(Some(5));

    for _ in 0..3 {
        q.push(()).unwrap();
    }
    assert!(q.close());
    assert!(q.is_closed());
    assert_eq!(q.len(), 3);

    assert_eq!(q.push(()), Err(PushError::Closed(())));
    assert_eq!(q.len(), 3);

    for left in [2, 1, 0] {
        assert_eq!(q.pop(), Ok(()));
        assert_eq!(q.len(), left);
        assert!(q.is_closed());
    }
    assert_eq!(q.pop(), Err(PopError::Closed));
    assert!(!q.close());
}

#[test]
fn new_queue_is_empty_and_open() {
    let q = Zst::<()>::new(Some(1));

    assert_eq!(q.len(), 0);
    assert!(q.is_empty());
    assert!(!q.is_full());
    assert!(!q.is_closed());
    assert_eq!(q.pop(), Err(PopError::Empty));
}

#[test]
fn empty_and_full_follow_len() {
    let q = Zst::<()>::new(Some(4));

    for pushed in 0..=4 {
        assert_eq!(q.len(), pushed);
        assert_eq!(q.is_empty(), q.len() == 0);
        assert_eq!(q.is_full(), q.capacity() == Some(q.len()));
        assert!(q.len() <= 4);
        let _ = q.push(());
    }
    assert_eq!(q.len(), 4);
}

#[derive(Debug, PartialEq)]
struct Token;

impl ZeroSized for Token {
    fn instance() -> Self {
        Token
    }
}

#[test]
fn refused_item_comes_back() {
    let q = Zst::new(Some(1));

    assert_eq!(q.push(Token), Ok(()));
    assert_eq!(q.push(Token), Err(PushError::Full(Token)));
    assert_eq!(q.push(Token).unwrap_err().into_inner(), Token);
    assert!(q.close());
    assert_eq!(q.push(Token), Err(PushError::Closed(Token)));
    assert_eq!(q.pop(), Ok(Token));
    assert_eq!(q.pop(), Err(PopError::Closed));
}

#[test]
fn drop_runs_one_destructor_for_each_item_left() {
    static DROPPED: AtomicUsize = AtomicUsize::new(0);

    struct Counted;

    impl Drop for Counted {
        fn drop(&mut self) {
            DROPPED.fetch_add(1, Ordering::SeqCst);
        }
    }

    impl ZeroSized for Counted {
        fn instance() -> Self {
            Counted
        }
    }

    let q = Zst::new(None);
    for _ in 0..7 {
        assert!(q.push(Counted).is_ok());
    }
    assert_eq!(DROPPED.load(Ordering::SeqCst), 0);

    for _ in 0..3 {
        assert!(q.pop().is_ok());
    }
    assert_eq!(DROPPED.load(Ordering::SeqCst), 3);

    assert_eq!(q.len(), 4);
    q.drop();
    assert_eq!(DROPPED.load(Ordering::SeqCst), 7);
}

#[test]
fn mpmc() {
    const PRODUCERS: usize = 4;
    const CONSUMERS: usize = 4;
    const ITEMS: usize = 10_000;

    let q = Zst::<()>::new(Some(8));
    let popped = AtomicUsize::new(0);

    Parallel::new()
        .each(0..PRODUCERS, |_| {
            for _ in 0..ITEMS {
                while q.push(()).is_err() {}
            }
        })
        .each(0..CONSUMERS, |_| {
            for _ in 0..PRODUCERS * ITEMS / CONSUMERS {
                while q.pop().is_err() {}
                popped.fetch_add(1, Ordering::SeqCst);
            }
        })
        .run();

    assert_eq!(popped.load(Ordering::SeqCst), PRODUCERS * ITEMS);
    assert_eq!(q.len(), 0);
    assert_eq!(q.pop(), Err(PopError::Empty));
}
