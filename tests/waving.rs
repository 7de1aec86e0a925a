use paddle_strike::waving::{UiWavingComp, WaveLook, WaveStep};

fn letter(order: usize) -> UiWavingComp {
    // lead-in 100 per place, waves of 1000, rests of 5000
    UiWavingComp::new("title".to_string(), order, true, 100, 1000, 5000)
}

#[test]
fn idle_element_is_left_alone() {
    let mut w = UiWavingComp::new("title".to_string(), 0, false, 100, 1000, 5000);
    let s = w.wave_step(10, true);
    assert_eq!(s, WaveStep { look: WaveLook::Unchanged, next_cycle: true });
    assert!(!w.timer.is_running());
}

#[test]
fn first_element_starts_with_a_wave() {
    let mut w = letter(0);
    let s = w.wave_step(10, false);
    assert_eq!(s, WaveStep { look: WaveLook::Unchanged, next_cycle: false });
    assert!(w.timer.is_running());
    assert!(w.playing);
    assert_eq!(w.timer.get_duration(), 1000);
    let s = w.wave_step(250, false);
    assert_eq!(s, WaveStep { look: WaveLook::Wave { ratio: 250_000 }, next_cycle: false });
}

#[test]
fn later_element_waits_for_its_lead_in() {
    let mut w = letter(3);
    w.wave_step(10, false);
    assert!(!w.playing);
    assert_eq!(w.timer.get_duration(), 300);
    let s = w.wave_step(100, false);
    assert_eq!(s.look, WaveLook::Rest);
    // the lead-in ends: the wave begins
    let s = w.wave_step(200, false);
    assert_eq!(s, WaveStep { look: WaveLook::Rest, next_cycle: false });
    assert!(w.playing);
    assert_eq!(w.timer.get_duration(), 1000);
    assert!(w.timer.is_running());
}

#[test]
fn wave_is_followed_by_rest() {
    let mut w = letter(0);
    w.wave_step(0, false);
    let s = w.wave_step(1000, false);
    assert_eq!(s.look, WaveLook::Wave { ratio: 1_000_000 });
    assert!(!s.next_cycle);
    assert!(!w.playing);
    assert_eq!(w.timer.get_duration(), 5000);
}

#[test]
fn first_element_restarts_the_row_after_rest() {
    let mut w = letter(0);
    w.wave_step(0, false);
    w.wave_step(1000, false);
    let s = w.wave_step(5000, false);
    assert_eq!(s, WaveStep { look: WaveLook::Rest, next_cycle: true });
    assert!(w.playing);
    assert_eq!(w.timer.get_duration(), 1000);
}

#[test]
fn next_cycle_restarts_a_later_element() {
    let mut w = letter(2);
    w.wave_step(0, false);
    w.wave_step(50, false);
    let s = w.wave_step(0, true);
    assert_eq!(s, WaveStep { look: WaveLook::Unchanged, next_cycle: true });
    assert_eq!(w.timer.get_duration(), 200);
    assert_eq!(w.timer.get_time_remain(), 200);
    assert!(!w.playing);
}

#[test]
fn lead_in_saturates() {
    let mut w = UiWavingComp::new("t".to_string(), 3, true, u64::MAX / 2, 1, 1);
    w.wave_step(0, false);
    assert_eq!(w.timer.get_duration(), u64::MAX);
}

#[test]
fn row_stays_in_step() {
    let mut row: Vec<UiWavingComp> = (0..3).map(letter).collect();
    let mut frame = |row: &mut Vec<UiWavingComp>, delta: u64| -> Vec<WaveLook> {
        let mut next = false;
        let mut looks = Vec::new();
        for w in row.iter_mut() {
            let s = w.wave_step(delta, next);
            next = s.next_cycle;
            looks.push(s.look);
        }
        looks
    };
    frame(&mut row, 0);
    assert!(row[0].playing && !row[1].playing && !row[2].playing);
    frame(&mut row, 1000); // wave of the first ends, leads-in of the others too
    frame(&mut row, 5000); // rest of the first ends: the row starts over
    assert!(row[0].playing);
    assert_eq!(row[1].timer.get_duration(), 100);
    assert_eq!(row[2].timer.get_duration(), 200);
    assert_eq!(row[2].timer.get_time_remain(), 200);
}
