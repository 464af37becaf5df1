use tales_tree::commons::clock::{Clock, DateTime, SystemClock};

#[test]
fn now_reads_the_machine_clock() {
    let a = DateTime::now();
    let b = SystemClock.now();
    // 2020-09-13 and later.
    assert!(a.secs > 1_600_000_000);
    assert!(b.secs >= a.secs);
    assert!(a.nanos < 2_000_000_000);
    assert_eq!(DateTime::from_timestamp(7, 9), DateTime { secs: 7, nanos: 9 });
}
