//! End-to-end exercises of the platform state machine: accounts, progress,
//! quizzes, badges, and the certificate gate.

use yavin::badges::BadgeId;
use yavin::catalog::SectionId;
use yavin::certificate::CertificateOutcome;
use yavin::platform::{ApiError, Platform};

const NOW: u64 = 1_700_000_000;
const TODAY: u32 = 19_700;

#[test]
fn register_and_resolve() {
    let mut p = Platform::new();
    let id = p.register("a@b.co", "longpass1", Some("Ada".to_string()), NOW).unwrap();
    assert_eq!(id, 0);
    let profile = p.resolve(Some(id)).unwrap();
    assert_eq!(profile.user_id, 0);
    assert_eq!(profile.email, "a@b.co");
    assert_eq!(profile.display_name, Some("Ada".to_string()));
    assert_eq!(profile.streak_days, 0);
    assert_eq!(profile.total_xp, 0);
    assert!(p.resolve(None).is_none());
    assert!(p.resolve(Some(7)).is_none());
}

#[test]
fn register_rejects_bad_input() {
    let mut p = Platform::new();
    assert_eq!(p.register("abcdef", "longpass1", None, NOW), Err(ApiError::InvalidEmail));
    assert_eq!(p.register("a@b", "longpass1", None, NOW), Err(ApiError::InvalidEmail));
    assert_eq!(p.register("a@b.co", "short", None, NOW), Err(ApiError::WeakPassword));
    assert_eq!(p.register("a@b.co", "longpass1", None, NOW), Ok(0));
    assert_eq!(p.register("a@b.co", "otherpass9", None, NOW), Err(ApiError::EmailTaken));
    assert_eq!(p.users.len(), 1);
}

#[test]
fn login_verifies_credentials_and_streak() {
    let mut p = Platform::new();
    p.register("a@b.co", "longpass1", None, NOW).unwrap();
    assert_eq!(p.login("a@b.co", "wrongpass1", TODAY), Err(ApiError::InvalidCredentials));
    assert_eq!(p.login("nobody@x.co", "longpass1", TODAY), Err(ApiError::InvalidCredentials));
    assert_eq!(p.login("a@b.co", "longpass1", TODAY), Ok(0));
    assert_eq!(p.users[0].streak_days, 1);
    assert_eq!(p.users[0].last_activity_date, Some(TODAY));
    // A second login on the same day leaves the streak unchanged.
    assert_eq!(p.login("a@b.co", "longpass1", TODAY), Ok(0));
    assert_eq!(p.users[0].streak_days, 1);
    // The next day raises it by one.
    assert_eq!(p.login("a@b.co", "longpass1", TODAY + 1), Ok(0));
    assert_eq!(p.users[0].streak_days, 2);
    // A gap resets it.
    assert_eq!(p.login("a@b.co", "longpass1", TODAY + 11), Ok(0));
    assert_eq!(p.users[0].streak_days, 1);
}

#[test]
fn upsert_awards_xp_once() {
    // Idempotence: the second completed=true call awards nothing.
    let mut p = Platform::new();
    let id = p.register("a@b.co", "longpass1", None, NOW).unwrap();
    let o1 = p.upsert_progress(id, "foundations", true, 300, NOW, TODAY).unwrap();
    assert_eq!(o1.xp_earned, 100);
    assert_eq!(o1.total_xp, 100);
    let o2 = p.upsert_progress(id, "foundations", true, 300, NOW + 60, TODAY).unwrap();
    assert_eq!(o2.xp_earned, 0);
    assert_eq!(o2.total_xp, 100);
    assert_eq!(p.users[0].total_xp, 100);
}

#[test]
fn upsert_accumulates_time_and_keeps_completed_at() {
    let mut p = Platform::new();
    let id = p.register("a@b.co", "longpass1", None, NOW).unwrap();
    p.upsert_progress(id, "deep", true, 300, NOW, TODAY).unwrap();
    let slot = &p.users[0].progress[3];
    assert_eq!(slot.completed_at, Some(NOW));
    assert_eq!(slot.time_spent_seconds, 300);
    // An "incomplete" update clears the flag but never the timestamp,
    // and keeps accumulating time.
    p.upsert_progress(id, "deep", false, 200, NOW + 60, TODAY).unwrap();
    let slot = &p.users[0].progress[3];
    assert!(!slot.completed);
    assert_eq!(slot.completed_at, Some(NOW));
    assert_eq!(slot.time_spent_seconds, 500);
}

#[test]
fn upsert_rejects_bad_input() {
    let mut p = Platform::new();
    let id = p.register("a@b.co", "longpass1", None, NOW).unwrap();
    assert_eq!(
        p.upsert_progress(id, "astrology", true, 0, NOW, TODAY),
        Err(ApiError::InvalidSection)
    );
    assert_eq!(
        p.upsert_progress(99, "foundations", true, 0, NOW, TODAY),
        Err(ApiError::NotAuthenticated)
    );
}

#[test]
fn quiz_score_is_monotonic() {
    // Monotonicity: the stored score never decreases across calls.
    let mut p = Platform::new();
    let id = p.register("a@b.co", "longpass1", None, NOW).unwrap();
    let o1 = p.record_quiz(Some(id), "neural", 7, 10, NOW).unwrap();
    assert_eq!(o1.percentage, 70);
    assert_eq!(p.users[0].progress[2].quiz_score, Some(70));
    let o2 = p.record_quiz(Some(id), "neural", 4, 10, NOW + 1).unwrap();
    assert_eq!(o2.percentage, 40);
    assert_eq!(p.users[0].progress[2].quiz_score, Some(70));
    let o3 = p.record_quiz(Some(id), "neural", 9, 10, NOW + 2).unwrap();
    assert_eq!(o3.percentage, 90);
    assert_eq!(p.users[0].progress[2].quiz_score, Some(90));
}

#[test]
fn quiz_perfect_bonus_repeats() {
    let mut p = Platform::new();
    let id = p.register("a@b.co", "longpass1", None, NOW).unwrap();
    let o1 = p.record_quiz(Some(id), "ethics", 10, 10, NOW).unwrap();
    assert_eq!(o1.percentage, 100);
    assert_eq!(o1.bonus_xp, 50);
    // A repeated perfect score grants the bonus again, deliberately.
    let o2 = p.record_quiz(Some(id), "ethics", 10, 10, NOW + 1).unwrap();
    assert_eq!(o2.bonus_xp, 50);
    assert_eq!(p.users[0].total_xp, 100);
}

#[test]
fn quiz_rejects_bad_totals() {
    let mut p = Platform::new();
    let id = p.register("a@b.co", "longpass1", None, NOW).unwrap();
    assert_eq!(p.record_quiz(Some(id), "ethics", 1, 0, NOW), Err(ApiError::InvalidQuizInput));
    assert_eq!(p.record_quiz(Some(id), "ethics", 11, 10, NOW), Err(ApiError::InvalidQuizInput));
    assert_eq!(p.record_quiz(Some(id), "astrology", 5, 10, NOW), Err(ApiError::InvalidSection));
}

#[test]
fn quiz_anonymous_computes_but_stores_nothing() {
    let mut p = Platform::new();
    let id = p.register("a@b.co", "longpass1", None, NOW).unwrap();
    let o = p.record_quiz(None, "ethics", 10, 10, NOW).unwrap();
    assert_eq!(o.percentage, 100);
    assert_eq!(o.bonus_xp, 0);
    // A stale identifier counts as anonymous too.
    let o = p.record_quiz(Some(42), "ethics", 3, 4, NOW).unwrap();
    assert_eq!(o.percentage, 75);
    assert_eq!(o.bonus_xp, 0);
    assert_eq!(p.users[id as usize].total_xp, 0);
    assert_eq!(p.users[id as usize].progress[5].quiz_score, None);
}

#[test]
fn badge_check_grants_each_badge_once() {
    // Badge idempotence: across two consecutive checks, each eligible
    // badge is granted exactly once.
    let mut p = Platform::new();
    let id = p.register("a@b.co", "longpass1", None, NOW).unwrap();
    p.record_quiz(Some(id), "foundations", 10, 10, NOW).unwrap();
    p.upsert_progress(id, "foundations", true, 120, NOW, TODAY).unwrap();
    let first = p.check_badges(id, None).unwrap();
    assert!(first.contains(&BadgeId::FirstSteps));
    assert!(first.contains(&BadgeId::QuizAce));
    assert!(first.contains(&BadgeId::Foundational));
    let second = p.check_badges(id, None).unwrap();
    for b in &second {
        assert!(!first.contains(b));
    }
    assert!(second.is_empty());
    assert_eq!(p.check_badges(9, None), Err(ApiError::NotAuthenticated));
}

#[test]
fn quiz_percentage_rounds_down() {
    let mut p = Platform::new();
    let id = p.register("a@b.co", "longpass1", None, NOW).unwrap();
    let o = p.record_quiz(Some(id), "modern", 2, 3, NOW).unwrap();
    assert_eq!(o.percentage, 66);
    assert_eq!(o.bonus_xp, 0);
    let o = p.record_quiz(Some(id), "modern", 0, 5, NOW).unwrap();
    assert_eq!(o.percentage, 0);
    // A zero score still counts as a recorded quiz, but cannot lower 66.
    assert_eq!(p.users[0].progress[4].quiz_score, Some(66));
}

#[test]
fn streak_badge_after_three_days() {
    let mut p = Platform::new();
    let id = p.register("a@b.co", "longpass1", None, NOW).unwrap();
    p.login("a@b.co", "longpass1", TODAY).unwrap();
    p.login("a@b.co", "longpass1", TODAY + 1).unwrap();
    p.login("a@b.co", "longpass1", TODAY + 2).unwrap();
    assert_eq!(p.users[0].streak_days, 3);
    let newly = p.check_badges(id, None).unwrap();
    assert_eq!(newly, vec![BadgeId::StreakStarter]);
}

#[test]
fn badge_trigger_tags() {
    let mut p = Platform::new();
    let id = p.register("a@b.co", "longpass1", None, NOW).unwrap();
    let with_trigger = p
        .check_badges(id, yavin::badges::trigger_from_str("playground"))
        .unwrap();
    assert_eq!(with_trigger, vec![BadgeId::Tinkerer]);
    // The reward of the trigger badge lands on the account.
    assert_eq!(p.users[0].total_xp, 10);
    let again = p.check_badges(id, Some(yavin::badges::TriggerTag::PlaygroundRun)).unwrap();
    assert!(again.is_empty());
}

#[test]
fn badges_view_splits_earned_and_available() {
    let mut p = Platform::new();
    let id = p.register("a@b.co", "longpass1", None, NOW).unwrap();
    let anon = p.badges_view(None);
    assert!(anon.earned.is_empty());
    assert_eq!(anon.available.len(), 15);
    p.upsert_progress(id, "foundations", true, 0, NOW, TODAY).unwrap();
    p.check_badges(id, None).unwrap();
    let view = p.badges_view(Some(id));
    assert!(view.earned.contains(&BadgeId::FirstSteps));
    assert!(!view.available.contains(&BadgeId::FirstSteps));
    assert_eq!(view.earned.len() + view.available.len(), 15);
}

#[test]
fn certificate_gates_on_core_sections() {
    // Five of six core sections done: not eligible, exactly one missing.
    let mut p = Platform::new();
    let id = p.register("a@b.co", "longpass1", Some("Ada".to_string()), NOW).unwrap();
    for key in ["foundations", "learning", "neural", "deep", "modern"] {
        p.upsert_progress(id, key, true, 60, NOW, TODAY).unwrap();
    }
    match p.certificate(id, TODAY).unwrap() {
        CertificateOutcome::NotEligible { remaining } => {
            assert_eq!(remaining, vec![SectionId::Ethics]);
        }
        CertificateOutcome::Eligible { .. } => panic!("must not be eligible yet"),
    }
    // Completing the sixth section makes the user eligible.
    p.upsert_progress(id, "ethics", true, 60, NOW, TODAY).unwrap();
    match p.certificate(id, TODAY).unwrap() {
        CertificateOutcome::Eligible { certificate_id, holder_name, total_xp, average_score } => {
            assert_eq!(certificate_id, format!("YAVIN-00000000-{}", TODAY));
            assert_eq!(holder_name, "Ada");
            assert_eq!(total_xp, p.users[0].total_xp);
            assert_eq!(average_score, 0);
        }
        CertificateOutcome::NotEligible { .. } => panic!("must be eligible"),
    }
    assert!(matches!(p.certificate(3, TODAY), Err(ApiError::NotAuthenticated)));
}

#[test]
fn certificate_averages_quiz_scores_and_falls_back_to_email() {
    let mut p = Platform::new();
    let id = p.register("ada.l@site.org", "longpass1", None, NOW).unwrap();
    for key in ["foundations", "learning", "neural", "deep", "modern", "ethics"] {
        p.upsert_progress(id, key, true, 60, NOW, TODAY).unwrap();
    }
    p.record_quiz(Some(id), "foundations", 10, 10, NOW).unwrap();
    p.record_quiz(Some(id), "neural", 7, 10, NOW).unwrap();
    match p.certificate(id, TODAY).unwrap() {
        CertificateOutcome::Eligible { holder_name, average_score, .. } => {
            assert_eq!(holder_name, "ada.l");
            // floor((100 + 70) / 2)
            assert_eq!(average_score, 85);
        }
        CertificateOutcome::NotEligible { .. } => panic!("must be eligible"),
    }
}

#[test]
fn end_to_end_registration_quiz_and_completion() {
    let mut p = Platform::new();
    let id = p.register("a@b.co", "longpass1", None, NOW).unwrap();
    assert!(p.resolve(Some(id)).is_some());

    let quiz = p.record_quiz(Some(id), "foundations", 10, 10, NOW).unwrap();
    assert_eq!(quiz.percentage, 100);
    assert_eq!(quiz.bonus_xp, 50);
    assert_eq!(p.users[0].total_xp, 50);

    let up = p.upsert_progress(id, "foundations", true, 300, NOW, TODAY).unwrap();
    assert_eq!(up.xp_earned, 100);
    assert_eq!(p.users[0].total_xp, 150);
    assert_eq!(p.users[0].progress[0].completed_at, Some(NOW));
    assert_eq!(p.users[0].progress[0].time_spent_seconds, 300);

    let again = p.upsert_progress(id, "foundations", true, 10, NOW + 5, TODAY).unwrap();
    assert_eq!(again.xp_earned, 0);
    assert_eq!(p.users[0].total_xp, 150);
    assert_eq!(p.users[0].progress[0].completed_at, Some(NOW));
}

#[test]
fn xp_accumulator() {
    let mut p = Platform::new();
    let id = p.register("a@b.co", "longpass1", None, NOW).unwrap();
    assert_eq!(p.add_xp(id, 40), Ok(40));
    assert_eq!(p.add_xp(id, 2), Ok(42));
    assert_eq!(p.users[0].total_xp, 42);
    // The counter saturates instead of wrapping.
    assert_eq!(p.add_xp(id, u64::MAX), Ok(u64::MAX));
    assert_eq!(p.add_xp(7, 1), Err(ApiError::NotAuthenticated));
}

#[test]
fn newsletter_and_feedback() {
    let mut p = Platform::new();
    assert!(p.newsletter_signup("a@b.co"));
    assert!(!p.newsletter_signup("a@b.co"));
    assert!(p.newsletter_signup("c@d.eu"));
    assert_eq!(p.newsletter.len(), 2);
    p.add_feedback(Some("a@b.co".to_string()), "Great site".to_string(), NOW);
    assert_eq!(p.feedback.len(), 1);
    assert_eq!(p.feedback[0].message, "Great site");
    assert_eq!(yavin::platform::feedback_ack(), "Thank you for your feedback!");
}

#[test]
fn error_codes_are_stable() {
    assert_eq!(ApiError::InvalidEmail.code(), "INVALID_EMAIL");
    assert_eq!(ApiError::WeakPassword.code(), "WEAK_PASSWORD");
    assert_eq!(ApiError::EmailTaken.code(), "EMAIL_TAKEN");
    assert_eq!(ApiError::InvalidCredentials.code(), "INVALID_CREDENTIALS");
    assert_eq!(ApiError::NotAuthenticated.code(), "NOT_AUTHENTICATED");
    assert_eq!(ApiError::InvalidSection.code(), "INVALID_SECTION");
    assert_eq!(ApiError::InvalidQuizInput.code(), "INVALID_QUIZ_INPUT");
}
