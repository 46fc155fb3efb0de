use metrics_pipeline::poller::{Poller, Step, Wake};

#[test]
fn valid_poller_samples_until_shutdown() {
    let mut p = Poller::new(true, 1_000);
    assert_eq!(p.next_step(), Step::Sample);
    p.wake(Wake::Elapsed);
    assert_eq!(p.next_step(), Step::Sample);
    p.wake(Wake::Shutdown);
    assert_eq!(p.next_step(), Step::Exit);
    p.wake(Wake::Elapsed);
    assert_eq!(p.next_step(), Step::Exit);
}

#[test]
fn failed_source_is_never_read_and_still_exits() {
    let mut p = Poller::new(false, 1_000);
    for _ in 0..5 {
        assert_eq!(p.next_step(), Step::Idle);
        assert!(p.wait_ms(0, 0) <= 1_000);
        p.wake(Wake::Elapsed);
    }
    p.wake(Wake::Shutdown);
    assert_eq!(p.next_step(), Step::Exit);
}

#[test]
fn wait_is_the_rest_of_the_period() {
    let p = Poller::new(true, 1_000);
    assert_eq!(p.wait_ms(5_000, 5_300), 700);
    assert_eq!(p.wait_ms(5_000, 5_000), 1_000);
    assert_eq!(p.wait_ms(5_000, 6_000), 0);
    assert_eq!(p.wait_ms(5_000, 9_000), 0);
    assert_eq!(p.wait_ms(5_000, 4_000), 1_000);
}
