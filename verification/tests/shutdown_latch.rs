use tbl::shutdown::ShutdownLatch;

#[test]
fn latch_delivers_once() {
    let mut latch = ShutdownLatch::new();
    assert!(latch.armed());
    assert!(latch.take());
    assert!(!latch.armed());
    assert!(!latch.take());
    assert!(!latch.take());
}
