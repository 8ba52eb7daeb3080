use santa::dialogue::{
    ActiveDialogue, Dialogue, DialogueConditions, DialogueQueue, DialogueState, DialogueTimer,
    SpeechCue, ARRIVE_X,
};

fn world(assets_ready: bool, on_ground: bool, player_x: i64, indoors: bool) -> DialogueConditions {
    DialogueConditions { assets_ready, on_ground, player_x, indoors }
}

fn queued(d: &Dialogue) -> Vec<SpeechCue> {
    d.queue.backlog().iter().copied().collect()
}

#[test]
fn hello_waits_for_assets_and_ground() {
    let mut d = Dialogue::new();
    d.trigger(16_000, world(true, false, 0, false));
    assert_eq!(d.state, DialogueState::Hello);
    d.trigger(16_000, world(false, true, 0, false));
    assert_eq!(d.state, DialogueState::Hello);
    d.trigger(16_000, world(true, true, 0, false));
    assert_eq!(d.state, DialogueState::Tutorial);
    assert_eq!(queued(&d), vec![SpeechCue::Hello1, SpeechCue::Hello2, SpeechCue::Hello3]);
}

#[test]
fn tutorial_waits_five_seconds_without_active_cue() {
    let mut d = Dialogue::new();
    d.trigger(0, world(true, true, 0, false));
    d.timer.reset();
    d.trigger(5_000_000, world(true, true, 0, false));
    assert_eq!(d.state, DialogueState::Tutorial);
    d.active = Some(ActiveDialogue(SpeechCue::Hello3));
    d.trigger(1, world(true, true, 0, false));
    assert_eq!(d.state, DialogueState::Tutorial);
    d.active = None;
    d.trigger(0, world(true, true, 0, false));
    assert_eq!(d.state, DialogueState::Arrive);
    assert_eq!(queued(&d).len(), 6);
    assert_eq!(queued(&d)[3..], [SpeechCue::Tutorial1, SpeechCue::Tutorial2, SpeechCue::Tutorial3]);
}

#[test]
fn arrive_needs_position_and_a_second() {
    let mut d = Dialogue::new();
    d.state = DialogueState::Arrive;
    d.trigger(2_000_000, world(true, true, ARRIVE_X - 1, false));
    assert_eq!(d.state, DialogueState::Arrive);
    d.timer.reset();
    d.trigger(1_000_000, world(true, true, ARRIVE_X, false));
    assert_eq!(d.state, DialogueState::Arrive);
    d.trigger(1, world(true, true, ARRIVE_X, false));
    assert_eq!(d.state, DialogueState::EnterHouse);
    assert_eq!(queued(&d), vec![SpeechCue::Arrive1]);
    assert_eq!(ARRIVE_X, 100 * 3600);
}

#[test]
fn enter_house_waits_for_indoors() {
    let mut d = Dialogue::new();
    d.state = DialogueState::EnterHouse;
    for _ in 0..10 {
        d.trigger(10_000_000, world(true, true, 1_000_000, false));
        assert_eq!(d.state, DialogueState::EnterHouse);
    }
    d.trigger(0, world(true, true, 0, true));
    assert_eq!(d.state, DialogueState::Finished);
    assert_eq!(queued(&d), vec![SpeechCue::EnterHouse1]);
    d.trigger(0, world(true, true, 0, true));
    assert_eq!(d.state, DialogueState::Finished);
    assert_eq!(queued(&d).len(), 1);
}

#[test]
fn cues_play_one_at_a_time_in_order() {
    let mut d = Dialogue::new();
    d.trigger(0, world(true, true, 0, false));
    let out = d.execute(false);
    assert_eq!(out.started, Some(SpeechCue::Hello1));
    assert!(!out.dismissed);
    assert_eq!(d.active, Some(ActiveDialogue(SpeechCue::Hello1)));
    let out = d.execute(false);
    assert_eq!(out.started, None);
    assert_eq!(queued(&d).len(), 2);
    let out = d.execute(true);
    assert!(out.dismissed);
    assert_eq!(out.started, None);
    assert_eq!(d.active, None);
    assert_eq!(queued(&d).len(), 2);
    assert_eq!(d.timer.elapsed_us(), 0);
    let out = d.execute(true);
    assert!(!out.dismissed);
    assert_eq!(out.started, Some(SpeechCue::Hello2));
    assert_eq!(d.active, Some(ActiveDialogue(SpeechCue::Hello2)));
    d.execute(true);
    let out = d.execute(true);
    assert_eq!(out.started, Some(SpeechCue::Hello3));
    let out = d.execute(true);
    assert!(out.dismissed);
    assert_eq!(out.started, None);
    let out = d.execute(false);
    assert_eq!(out.started, None);
    assert_eq!(d.active, None);
}

#[test]
fn advance_without_active_cue_does_nothing() {
    let mut d = Dialogue::new();
    d.timer.tick(123);
    let out = d.execute(true);
    assert!(!out.dismissed);
    assert_eq!(out.started, None);
    assert_eq!(d.timer.elapsed_us(), 123);
}

#[test]
fn full_script_runs_forward() {
    let mut d = Dialogue::new();
    let mut states = vec![d.state];
    let mut x = 0;
    let mut indoors = false;
    for tick in 0..2000 {
        if tick == 1500 {
            indoors = true;
        }
        d.trigger(16_667, world(true, true, x, indoors));
        d.execute(tick % 60 == 59);
        x += 1000;
        if *states.last().unwrap() != d.state {
            states.push(d.state);
        }
    }
    assert_eq!(
        states,
        vec![
            DialogueState::Hello,
            DialogueState::Tutorial,
            DialogueState::Arrive,
            DialogueState::EnterHouse,
            DialogueState::Finished
        ]
    );
}

#[test]
fn queue_is_first_in_first_out() {
    let mut q = DialogueQueue::new();
    assert_eq!(q.pop_front(), None);
    q.push_back(SpeechCue::Arrive1);
    q.push_back(SpeechCue::Tutorial2);
    assert_eq!(q.pop_front(), Some(SpeechCue::Arrive1));
    assert_eq!(q.pop_front(), Some(SpeechCue::Tutorial2));
    assert_eq!(q.pop_front(), None);
}

#[test]
fn timer_wraps_at_its_period() {
    let mut t = DialogueTimer::new();
    t.tick(99_999_999_000_000 - 1);
    assert_eq!(t.elapsed_us(), 99_999_999_000_000 - 1);
    t.tick(3);
    assert_eq!(t.elapsed_us(), 2);
    t.reset();
    assert_eq!(t.elapsed_us(), 0);
}

#[test]
fn cue_names_and_captions() {
    assert_eq!(SpeechCue::Hello1.key(), "hello_1");
    assert_eq!(SpeechCue::EnterHouse1.key(), "enter_house_1");
    assert_eq!(SpeechCue::Hello1.text(), "Hello, I'm Santa!");
    assert_eq!(SpeechCue::Tutorial3.text(), "Do it now!");
    assert_eq!(SpeechCue::all().len(), 8);
}
