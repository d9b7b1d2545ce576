use stackchan_core::clock::Instant;
use stackchan_core::emotion::Emotion;
use stackchan_core::mind::{Attention, Intent};
use stackchan_core::modifiers::emotion_head::EmotionTransition;
use stackchan_core::modifiers::head_from_attention::{ListenPhase, ListenPosture, LISTEN_HEAD_EASE_MS};
use stackchan_core::modifiers::head_from_body_gesture::{reaction_signs, GestureReaction, HEADPET_REACTION_TOTAL_MS};
use stackchan_core::modifiers::head_from_intent::{StartleWindow, STARTLE_HEAD_TOTAL_MS};
use stackchan_core::modifiers::idle_head_drift::{
    GlanceSchedule, GlanceTick, GLANCE_INTERVAL_MAX_MS, GLANCE_INTERVAL_MIN_MS, GLANCE_TOTAL_MS,
};
use stackchan_core::modifiers::lost_target_search::{beat_phase, BeatPhase, SearchBeat, SEARCH_TOTAL_MS};

fn at(ms: u64) -> Instant {
    Instant::from_millis(ms)
}

#[test]
fn startle_opens_one_window_per_entry() {
    let mut w = StartleWindow::new();
    assert_eq!(w.observe(Intent::Idle, at(0)), None);
    assert_eq!(w.observe(Intent::Startled, at(100)), Some(0));
    assert_eq!(w.observe(Intent::Startled, at(150)), Some(50));
    // Holding the intent past the window does not reopen it.
    assert_eq!(w.observe(Intent::Startled, at(100 + STARTLE_HEAD_TOTAL_MS)), None);
    assert_eq!(w.observe(Intent::Startled, at(1_000)), None);
    // Leaving and re-entering does.
    assert_eq!(w.observe(Intent::Idle, at(1_100)), None);
    assert_eq!(w.observe(Intent::Startled, at(1_200)), Some(0));
}

#[test]
fn startle_window_runs_out_after_intent_ends() {
    let mut w = StartleWindow::new();
    assert_eq!(w.observe(Intent::Startled, at(0)), Some(0));
    assert_eq!(w.observe(Intent::Idle, at(200)), Some(200));
    assert_eq!(w.observe(Intent::Idle, at(399)), Some(399));
    assert_eq!(w.observe(Intent::Idle, at(400)), None);
}

#[test]
fn listening_posture_eases_in_and_out() {
    let listening = Attention::Listening { since: at(0) };
    let mut p = ListenPosture::new();
    p.observe(listening, at(1_000));
    assert_eq!(p.phase(at(1_050)), ListenPhase::Rising { elapsed_ms: 50 });
    p.observe(Attention::Unfocused, at(2_000));
    assert_eq!(p.phase(at(2_100)), ListenPhase::Falling { elapsed_ms: 100 });
    assert_eq!(p.phase(at(2_000 + LISTEN_HEAD_EASE_MS)), ListenPhase::Rest);
    assert_eq!(p.release_since, None);
    assert_eq!(p.phase(at(2_100)), ListenPhase::Rest);
}

#[test]
fn re_entering_listening_drops_the_release() {
    let listening = Attention::Listening { since: at(0) };
    let mut p = ListenPosture::new();
    p.observe(listening, at(0));
    p.observe(Attention::Unfocused, at(100));
    p.observe(listening, at(150));
    assert_eq!(p.release_since, None);
    assert_eq!(p.phase(at(250)), ListenPhase::Rising { elapsed_ms: 100 });
}

#[test]
fn emotion_change_starts_a_transition_from_the_previous_target() {
    let mut t = EmotionTransition::new();
    let first = t.observe(Emotion::Happy, at(0));
    assert_eq!(first.from, None);
    assert_eq!(first.to, Emotion::Happy);
    assert_eq!(first.elapsed_ms, 0);
    let held = t.observe(Emotion::Happy, at(120));
    assert_eq!(held.elapsed_ms, 120);
    let changed = t.observe(Emotion::Sad, at(500));
    assert_eq!(changed.from, Some(Emotion::Happy));
    assert_eq!(changed.to, Emotion::Sad);
    assert_eq!(changed.elapsed_ms, 0);
    assert_eq!(t.observe(Emotion::Sad, at(650)).elapsed_ms, 150);
}

#[test]
fn glances_are_spaced_within_the_interval_window() {
    let mut s = GlanceSchedule::new();
    // The first tick schedules a glance inside the window.
    assert_eq!(s.observe(false, at(0)), GlanceTick::Still);
    let mut now = 0u64;
    let mut starts = Vec::new();
    let mut ends = Vec::new();
    let mut was_glancing = false;
    while now < 120_000 {
        now += 10;
        match s.observe(false, at(now)) {
            GlanceTick::Glancing { elapsed_ms, draws } => {
                if !was_glancing {
                    assert_eq!(elapsed_ms, 0);
                    assert!(draws.is_some());
                    starts.push(now);
                } else {
                    assert!(draws.is_none());
                    assert!(elapsed_ms < GLANCE_TOTAL_MS);
                }
                was_glancing = true;
            }
            GlanceTick::Still => {
                if was_glancing {
                    ends.push(now);
                }
                was_glancing = false;
            }
        }
    }
    assert!(starts.len() >= 5);
    assert!(starts[0] >= GLANCE_INTERVAL_MIN_MS && starts[0] <= GLANCE_INTERVAL_MAX_MS + 10);
    for (end, next) in ends.iter().zip(starts.iter().skip(1)) {
        let gap = next - end;
        assert!(gap >= GLANCE_INTERVAL_MIN_MS && gap <= GLANCE_INTERVAL_MAX_MS + 10, "gap {gap}");
    }
    for (start, end) in starts.iter().zip(ends.iter()) {
        assert_eq!(end - start, GLANCE_TOTAL_MS);
    }
}

#[test]
fn sleep_stops_glances() {
    let mut s = GlanceSchedule::new();
    assert_eq!(s.observe(false, at(0)), GlanceTick::Still);
    for ms in (10..40_000).step_by(10) {
        assert_eq!(s.observe(true, at(ms)), GlanceTick::Still);
    }
}

#[test]
fn same_seed_same_glances() {
    let mut a = GlanceSchedule::with_seed(7);
    let mut b = GlanceSchedule::with_seed(7);
    for ms in (0..60_000).step_by(25) {
        assert_eq!(a.observe(false, at(ms)), b.observe(false, at(ms)));
    }
}

#[test]
fn search_beat_phases() {
    assert_eq!(beat_phase(0), BeatPhase::Hold);
    assert_eq!(beat_phase(499), BeatPhase::Hold);
    assert_eq!(beat_phase(500), BeatPhase::Saccade { into_ms: 0 });
    assert_eq!(beat_phase(799), BeatPhase::Saccade { into_ms: 299 });
    assert_eq!(beat_phase(800), BeatPhase::Return { into_ms: 0 });
    assert_eq!(beat_phase(1_799), BeatPhase::Return { into_ms: 999 });
    assert_eq!(beat_phase(SEARCH_TOTAL_MS), BeatPhase::Done);
}

#[test]
fn lock_loss_starts_a_beat_and_relock_cancels_it() {
    let mut b = SearchBeat::new();
    let t = b.observe(true, true, at(0));
    assert!(!t.started && !t.forget && t.elapsed_ms.is_none());
    let t = b.observe(false, true, at(100));
    assert!(t.started);
    assert_eq!(t.elapsed_ms, Some(0));
    assert_eq!(b.observe(false, true, at(600)).elapsed_ms, Some(500));
    let t = b.observe(true, true, at(700));
    assert_eq!(t.elapsed_ms, None);
    assert!(!t.started);
}

#[test]
fn beat_ends_and_face_is_forgotten() {
    let mut b = SearchBeat::new();
    b.observe(true, true, at(0));
    b.observe(false, true, at(0));
    let t = b.observe(false, true, at(SEARCH_TOTAL_MS));
    assert_eq!(t.elapsed_ms, None);
    assert!(!t.forget);
    let t = b.observe(false, true, at(SEARCH_TOTAL_MS + 10));
    assert!(t.forget);
    // Losing a lock with no remembered face starts nothing.
    let mut c = SearchBeat::new();
    c.observe(true, false, at(0));
    let t = c.observe(false, false, at(10));
    assert!(!t.started && t.forget);
}

#[test]
fn gesture_reaction_answers_each_gesture_once() {
    let mut g = GestureReaction::new();
    let tick = g.observe(Some((true, at(100))), at(100));
    assert_eq!(tick.new_direction, Some(reaction_signs(at(100))));
    assert_eq!(tick.elapsed_ms, Some(0));
    let tick = g.observe(Some((true, at(100))), at(400));
    assert_eq!(tick.new_direction, None);
    assert_eq!(tick.elapsed_ms, Some(300));
    let tick = g.observe(Some((true, at(100))), at(100 + HEADPET_REACTION_TOTAL_MS));
    assert_eq!(tick.elapsed_ms, None);
}

#[test]
fn release_gesture_does_not_react() {
    let mut g = GestureReaction::new();
    let tick = g.observe(Some((false, at(100))), at(100));
    assert_eq!(tick.new_direction, None);
    assert_eq!(tick.elapsed_ms, None);
    assert_eq!(g.last_consumed_at, None);
}

#[test]
fn second_gesture_within_window_restarts_envelope() {
    let mut g = GestureReaction::new();
    g.observe(Some((true, at(100))), at(100));
    let tick = g.observe(Some((true, at(400))), at(400));
    assert!(tick.new_direction.is_some());
    assert_eq!(tick.elapsed_ms, Some(0));
    assert_eq!(g.started_at, Some(at(400)));
}

#[test]
fn entry_edge_anchors_recoil() {
    let mut w = StartleWindow::new();
    assert_eq!(w.observe(Intent::Idle, at(0)), None);
    assert_eq!(w.observe(Intent::Startled, at(250)), Some(0));
    assert_eq!(w.started_at, Some(at(250)));
}

#[test]
fn decay_returns_to_zero() {
    let mut w = StartleWindow::new();
    w.observe(Intent::Startled, at(0));
    assert_eq!(w.observe(Intent::Idle, at(STARTLE_HEAD_TOTAL_MS - 1)), Some(STARTLE_HEAD_TOTAL_MS - 1));
    assert_eq!(w.observe(Intent::Idle, at(STARTLE_HEAD_TOTAL_MS)), None);
    assert_eq!(w.started_at, None);
}

#[test]
fn recoil_completes_even_if_intent_holds() {
    let mut w = StartleWindow::new();
    w.observe(Intent::Startled, at(0));
    for ms in (STARTLE_HEAD_TOTAL_MS..5_000).step_by(50) {
        assert_eq!(w.observe(Intent::Startled, at(ms)), None);
    }
}

#[test]
fn re_entry_after_completion_re_anchors() {
    let mut w = StartleWindow::new();
    w.observe(Intent::Startled, at(0));
    w.observe(Intent::Startled, at(STARTLE_HEAD_TOTAL_MS + 10));
    w.observe(Intent::Idle, at(1_000));
    assert_eq!(w.observe(Intent::Startled, at(1_500)), Some(0));
    assert_eq!(w.started_at, Some(at(1_500)));
}

#[test]
fn quiet_until_first_glance_fires() {
    let mut s = GlanceSchedule::new();
    for ms in (0..GLANCE_INTERVAL_MIN_MS).step_by(10) {
        assert_eq!(s.observe(false, at(ms)), GlanceTick::Still);
    }
}

#[test]
fn at_least_one_glance_fires_within_max_interval_plus_total() {
    let mut s = GlanceSchedule::new();
    let mut fired = false;
    for ms in (0..=GLANCE_INTERVAL_MAX_MS + GLANCE_TOTAL_MS).step_by(10) {
        if let GlanceTick::Glancing { .. } = s.observe(false, at(ms)) {
            fired = true;
        }
    }
    assert!(fired);
}

#[test]
fn dormant_state_holds_zero_contribution() {
    let mut s = GlanceSchedule::new();
    for ms in (0..60_000).step_by(10) {
        assert_eq!(s.observe(true, at(ms)), GlanceTick::Still);
    }
}

#[test]
fn distinct_seeds_produce_distinct_glance_sequences() {
    let first_glance = |seed: u32| {
        let mut s = GlanceSchedule::with_seed(seed);
        for ms in (0..=GLANCE_INTERVAL_MAX_MS + GLANCE_TOTAL_MS).step_by(10) {
            if let GlanceTick::Glancing { draws: Some(d), .. } = s.observe(false, at(ms)) {
                return Some((ms, d));
            }
        }
        None
    };
    let a = first_glance(1);
    let b = first_glance(0xDEAD_BEEF);
    assert!(a.is_some() && b.is_some());
    assert_ne!(a, b);
}

#[test]
fn locked_to_idle_skipping_releasing_still_starts_beat() {
    let mut b = SearchBeat::new();
    b.observe(true, true, at(0));
    let t = b.observe(false, true, at(33));
    assert!(t.started);
    assert_eq!(b.started_at, Some(at(33)));
}

#[test]
fn relock_during_beat_clears_contribution() {
    let mut b = SearchBeat::new();
    b.observe(true, true, at(0));
    b.observe(false, true, at(10));
    let t = b.observe(true, true, at(200));
    assert_eq!(t.elapsed_ms, None);
    assert_eq!(b.started_at, None);
}

#[test]
fn re_enter_during_ease_out_resumes_ease_in() {
    let listening = Attention::Listening { since: at(0) };
    let mut p = ListenPosture::new();
    p.observe(listening, at(0));
    p.observe(Attention::Unfocused, at(300));
    assert_eq!(p.phase(at(350)), ListenPhase::Falling { elapsed_ms: 50 });
    p.observe(listening, at(360));
    assert_eq!(p.phase(at(360)), ListenPhase::Rising { elapsed_ms: 0 });
}

#[test]
fn changing_emotion_mid_transition_re_anchors_from_current() {
    let mut t = EmotionTransition::new();
    t.observe(Emotion::Neutral, at(0));
    t.observe(Emotion::Happy, at(100));
    let mid = t.observe(Emotion::Sad, at(250));
    assert_eq!(mid.from, Some(Emotion::Happy));
    assert_eq!(mid.to, Emotion::Sad);
    assert_eq!(mid.elapsed_ms, 0);
    assert_eq!(t.started_at, Some(at(250)));
}
