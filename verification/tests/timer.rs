use std::time::Duration;

use peanutbutter::Timer;

#[test]
fn test_truncated_time() {
    let (clock, mock) = quanta::Clock::mock();
    mock.increment(Duration::from_millis(500));
    let timer = Timer::new(clock);

    let duration: u64 = 1_000_000;
    let now = timer.truncated(timer.now(), duration);

    mock.increment(Duration::from_millis(750));

    let still_now = timer.truncated(timer.now(), duration);
    assert_eq!(now, still_now);

    mock.increment(Duration::from_millis(750));

    let advanced_now = timer.truncated(timer.now(), duration);
    assert!(advanced_now > now);
    assert_eq!(advanced_now - now, duration);
}
