use sysmon_core::history::SparklineHistory;
use sysmon_core::types::{DiskIOStats, NetworkStats};

fn net(rx: u64, tx: u64) -> NetworkStats {
    NetworkStats { received_bytes: rx, transmitted_bytes: tx }
}

fn disk(r: u64, w: u64) -> DiskIOStats {
    DiskIOStats { read_bytes: r, write_bytes: w }
}

#[test]
fn new_history_is_empty() {
    let h = SparklineHistory::new(120);
    assert_eq!(h.rx_snapshot(), Vec::<u64>::new());
    assert_eq!(h.tx_snapshot(), Vec::<u64>::new());
    assert_eq!(h.read_snapshot(), Vec::<u64>::new());
    assert_eq!(h.write_snapshot(), Vec::<u64>::new());
}

#[test]
fn push_appends_to_all_four() {
    let mut h = SparklineHistory::new(4);
    h.push(&net(1, 2), &disk(3, 4));
    h.push(&net(5, 6), &disk(7, 8));
    assert_eq!(h.rx_snapshot(), vec![1, 5]);
    assert_eq!(h.tx_snapshot(), vec![2, 6]);
    assert_eq!(h.read_snapshot(), vec![3, 7]);
    assert_eq!(h.write_snapshot(), vec![4, 8]);
}

#[test]
fn capacity_two_window_slides() {
    // Pushing (rx,tx) = (100,10), (200,20), (300,30) into capacity 2 keeps
    // the last two samples of every sequence, in push order.
    let mut h = SparklineHistory::new(2);
    h.push(&net(100, 10), &disk(1, 2));
    h.push(&net(200, 20), &disk(3, 4));
    h.push(&net(300, 30), &disk(5, 6));
    assert_eq!(h.rx_snapshot(), vec![200, 300]);
    assert_eq!(h.tx_snapshot(), vec![20, 30]);
    assert_eq!(h.read_snapshot(), vec![3, 5]);
    assert_eq!(h.write_snapshot(), vec![4, 6]);
}

#[test]
fn lengths_stay_equal_and_bounded() {
    let mut h = SparklineHistory::new(3);
    for i in 0..10u64 {
        h.push(&net(i, i), &disk(i, i));
        let n = h.rx_snapshot().len();
        assert!(n <= 3);
        assert_eq!(h.tx_snapshot().len(), n);
        assert_eq!(h.read_snapshot().len(), n);
        assert_eq!(h.write_snapshot().len(), n);
    }
    assert_eq!(h.rx_snapshot(), vec![7, 8, 9]);
}

#[test]
fn capacity_one_keeps_newest() {
    let mut h = SparklineHistory::new(1);
    h.push(&net(1, 1), &disk(1, 1));
    h.push(&net(2, 2), &disk(2, 2));
    assert_eq!(h.rx_snapshot(), vec![2]);
    assert_eq!(h.write_snapshot(), vec![2]);
}
