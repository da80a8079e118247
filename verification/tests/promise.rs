use promise::{Outcome, Promise};

#[test]
fn executes() {
    let mut called = false;
    let _ = Promise::<u32, u32>::new(|_, _| called = true);
    assert!(called);
}

#[test]
fn resolves() {
    let p = Promise::<_, u32>::new(|resolve, _| {
        resolve.resolve(Some(1)).unwrap();
    });

    assert!(p.peek().unwrap().into_result().is_some());
    assert!(p.peek().unwrap().into_result().unwrap().is_ok());
    assert_eq!(p.peek().unwrap().into_result().unwrap().unwrap(), 1);
}

#[test]
fn rejects() {
    let p = Promise::<u32, _>::new(|_, reject| {
        reject.reject(Some("some error")).unwrap();
    });

    assert_eq!(p.peek().unwrap().into_result().unwrap(), Err("some error"));
}

#[test]
fn executor_runs_once_before_new_returns() {
    let mut runs = 0u32;
    let p = Promise::<u32, u32>::new(|_, _| runs += 1);
    assert_eq!(runs, 1);
    assert_eq!(p.is_done(), Ok(false));
    assert_eq!(runs, 1);
}

#[test]
fn resolved_cell_peeks_resolved() {
    let p = Promise::<u32, &str>::new(|resolve, _| {
        assert_eq!(resolve.resolve(Some(1)), Ok(()));
    });
    assert_eq!(p.peek(), Ok(Outcome::Resolved(1)));
    assert_eq!(p.is_done(), Ok(true));
}

#[test]
fn rejected_cell_peeks_rejected_and_is_settled() {
    let p = Promise::<u32, &str>::new(|_, reject| {
        assert_eq!(reject.reject(Some("boom")), Ok(()));
    });
    assert_eq!(p.peek(), Ok(Outcome::Rejected("boom")));
    assert_eq!(p.is_done(), Ok(true));
}

#[test]
fn untouched_cell_stays_pending() {
    let p = Promise::<u32, &str>::new(|_, _| {});
    assert_eq!(p.is_done(), Ok(false));
    assert_eq!(p.peek(), Ok(Outcome::Pending));
    assert_eq!(p.is_done(), Ok(false));
    assert_eq!(p.peek(), Ok(Outcome::Pending));
}

#[test]
fn resolve_then_reject_keeps_the_success() {
    let p = Promise::<u32, &str>::new(|resolve, reject| {
        resolve.resolve(Some(1)).unwrap();
        reject.reject(Some("x")).unwrap();
    });
    assert_eq!(p.peek(), Ok(Outcome::Resolved(1)));
}

#[test]
fn reject_then_resolve_keeps_the_failure() {
    let p = Promise::<u32, &str>::new(|resolve, reject| {
        reject.reject(Some("x")).unwrap();
        resolve.resolve(Some(1)).unwrap();
    });
    assert_eq!(p.peek(), Ok(Outcome::Rejected("x")));
}

#[test]
fn absent_value_leaves_the_cell_pending() {
    let p = Promise::<u32, &str>::new(|resolve, reject| {
        resolve.resolve(None).unwrap();
        reject.reject(None).unwrap();
    });
    assert_eq!(p.is_done(), Ok(false));
    assert_eq!(p.peek(), Ok(Outcome::Pending));
}

#[test]
fn absent_value_does_not_undo_a_settlement() {
    let p = Promise::<u32, &str>::new(|resolve, reject| {
        reject.reject(Some("boom")).unwrap();
        resolve.resolve(None).unwrap();
    });
    assert_eq!(p.peek(), Ok(Outcome::Rejected("boom")));
}

#[test]
fn handles_kept_for_later_settle_the_same_cell() {
    let mut kept = None;
    let p = Promise::<u32, &str>::new(|resolve, reject| kept = Some((resolve, reject)));
    assert_eq!(p.is_done(), Ok(false));

    let (resolve, reject) = kept.unwrap();
    resolve.resolve(Some(42)).unwrap();
    assert_eq!(p.peek(), Ok(Outcome::Resolved(42)));

    reject.reject(Some("late")).unwrap();
    assert_eq!(p.peek(), Ok(Outcome::Resolved(42)));
}

struct Probe {
    watched: std::sync::Arc<std::sync::Mutex<Option<std::sync::Arc<Promise<Probe, u32>>>>>,
    seen: std::sync::Arc<std::sync::Mutex<Option<bool>>>,
}

impl Drop for Probe {
    fn drop(&mut self) {
        if let Some(cell) = self.watched.lock().unwrap().as_ref() {
            *self.seen.lock().unwrap() = Some(cell.is_done().unwrap());
        }
    }
}

#[test]
fn unused_value_is_dropped_after_the_lock_is_released() {
    let watched = std::sync::Arc::new(std::sync::Mutex::new(None));
    let seen = std::sync::Arc::new(std::sync::Mutex::new(None));
    let mut kept = None;
    let p = std::sync::Arc::new(Promise::<Probe, u32>::new(|resolve, reject| {
        reject.reject(Some(7)).unwrap();
        kept = Some(resolve);
    }));
    *watched.lock().unwrap() = Some(p.clone());

    let probe = Probe { watched: watched.clone(), seen: seen.clone() };
    assert_eq!(kept.unwrap().resolve(Some(probe)), Ok(()));

    assert_eq!(*seen.lock().unwrap(), Some(true));
    assert_eq!(p.is_done(), Ok(true));
    *watched.lock().unwrap() = None;
}
