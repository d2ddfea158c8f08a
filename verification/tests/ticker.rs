use pedalrs::ticker::ForceFlag;

#[test]
fn new_flag_is_down() {
    let mut flag = ForceFlag::new();
    assert!(!flag.is_raised());
    assert!(!flag.take());
}

#[test]
fn take_reads_and_clears() {
    let mut flag = ForceFlag::new();
    flag.raise();
    assert!(flag.is_raised());
    assert!(flag.take());
    assert!(!flag.is_raised());
    assert!(!flag.take());
}

#[test]
fn raising_twice_asks_for_one_report() {
    let mut flag = ForceFlag::new();
    flag.raise();
    flag.raise();
    assert!(flag.take());
    assert!(!flag.take());
}
