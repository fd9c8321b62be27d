use wavecore::clock::GameClock;

#[test]
fn clock_readings_never_run_backwards() {
    let clock = GameClock::new();
    let first = clock.now_ms();
    let mut last = first;
    for _ in 0..1000 {
        let now = clock.now_ms();
        assert!(now >= last);
        last = now;
    }
}
