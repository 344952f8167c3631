//! The static achievement catalog: fifteen badges, each a predicate over a
//! plain snapshot of a user's ledger state, with a one-time XP reward.

use vstd::prelude::*;
use crate::text::str_eq;

verus! {

/// How many badges the catalog has.
pub const BADGE_COUNT: usize = 15;

/// One of the fifteen fixed achievement badges.
#[derive(Clone, Copy, PartialEq, Eq, Structural, Debug)]
pub enum BadgeId {
    FirstSteps,
    Halfway,
    Completionist,
    CoreScholar,
    QuizAce,
    QuizMaster,
    StreakStarter,
    WeekStreak,
    MonthStreak,
    XpCollector,
    XpHoarder,
    Tinkerer,
    CuriousMind,
    Foundational,
    EthicsAware,
}

/// A caller-supplied event tag for badge conditions that stored state
/// cannot show.
#[derive(Clone, Copy, PartialEq, Eq, Structural, Debug)]
pub enum TriggerTag {
    PlaygroundRun,
    ChatUsed,
}

/// The position of a badge in the catalog order (0 to 14).
pub open spec fn spec_badge_rank(b: BadgeId) -> int {
    match b {
        BadgeId::FirstSteps => 0,
        BadgeId::Halfway => 1,
        BadgeId::Completionist => 2,
        BadgeId::CoreScholar => 3,
        BadgeId::QuizAce => 4,
        BadgeId::QuizMaster => 5,
        BadgeId::StreakStarter => 6,
        BadgeId::WeekStreak => 7,
        BadgeId::MonthStreak => 8,
        BadgeId::XpCollector => 9,
        BadgeId::XpHoarder => 10,
        BadgeId::Tinkerer => 11,
        BadgeId::CuriousMind => 12,
        BadgeId::Foundational => 13,
        BadgeId::EthicsAware => 14,
    }
}

/// The catalog order of the badges.
pub open spec fn spec_badges() -> Seq<BadgeId> {
    seq![
        BadgeId::FirstSteps,
        BadgeId::Halfway,
        BadgeId::Completionist,
        BadgeId::CoreScholar,
        BadgeId::QuizAce,
        BadgeId::QuizMaster,
        BadgeId::StreakStarter,
        BadgeId::WeekStreak,
        BadgeId::MonthStreak,
        BadgeId::XpCollector,
        BadgeId::XpHoarder,
        BadgeId::Tinkerer,
        BadgeId::CuriousMind,
        BadgeId::Foundational,
        BadgeId::EthicsAware,
    ]
}

/// Every rank below `BADGE_COUNT` names exactly the badge stored at that
/// position of the catalog order.
pub proof fn lemma_badge_rank(b: BadgeId)
    ensures
        0 <= spec_badge_rank(b) < BADGE_COUNT,
        spec_badges()[spec_badge_rank(b)] == b,
{
}

/// Returns the position of `b` in the catalog order.
pub fn badge_rank(b: BadgeId) -> (r: usize)
    ensures
        r == spec_badge_rank(b),
        r < BADGE_COUNT,
{
    match b {
        BadgeId::FirstSteps => 0,
        BadgeId::Halfway => 1,
        BadgeId::Completionist => 2,
        BadgeId::CoreScholar => 3,
        BadgeId::QuizAce => 4,
        BadgeId::QuizMaster => 5,
        BadgeId::StreakStarter => 6,
        BadgeId::WeekStreak => 7,
        BadgeId::MonthStreak => 8,
        BadgeId::XpCollector => 9,
        BadgeId::XpHoarder => 10,
        BadgeId::Tinkerer => 11,
        BadgeId::CuriousMind => 12,
        BadgeId::Foundational => 13,
        BadgeId::EthicsAware => 14,
    }
}

/// Returns all badges in catalog order.
pub fn all_badges() -> (r: Vec<BadgeId>)
    ensures
        r@ == spec_badges(),
{
    let mut v: Vec<BadgeId> = Vec::new();
    v.push(BadgeId::FirstSteps);
    v.push(BadgeId::Halfway);
    v.push(BadgeId::Completionist);
    v.push(BadgeId::CoreScholar);
    v.push(BadgeId::QuizAce);
    v.push(BadgeId::QuizMaster);
    v.push(BadgeId::StreakStarter);
    v.push(BadgeId::WeekStreak);
    v.push(BadgeId::MonthStreak);
    v.push(BadgeId::XpCollector);
    v.push(BadgeId::XpHoarder);
    v.push(BadgeId::Tinkerer);
    v.push(BadgeId::CuriousMind);
    v.push(BadgeId::Foundational);
    v.push(BadgeId::EthicsAware);
    proof {
        assert(v@ =~= spec_badges());
    }
    v
}

/// The request-level key of a badge.
pub open spec fn spec_badge_key(b: BadgeId) -> Seq<char> {
    match b {
        BadgeId::FirstSteps => "first-steps"@,
        BadgeId::Halfway => "halfway"@,
        BadgeId::Completionist => "completionist"@,
        BadgeId::CoreScholar => "core-scholar"@,
        BadgeId::QuizAce => "quiz-ace"@,
        BadgeId::QuizMaster => "quiz-master"@,
        BadgeId::StreakStarter => "streak-starter"@,
        BadgeId::WeekStreak => "week-streak"@,
        BadgeId::MonthStreak => "month-streak"@,
        BadgeId::XpCollector => "xp-collector"@,
        BadgeId::XpHoarder => "xp-hoarder"@,
        BadgeId::Tinkerer => "tinkerer"@,
        BadgeId::CuriousMind => "curious-mind"@,
        BadgeId::Foundational => "foundational"@,
        BadgeId::EthicsAware => "ethics-aware"@,
    }
}

/// Returns the request-level key of `b`.
pub fn badge_key(b: BadgeId) -> (r: &'static str)
    ensures
        r@ == spec_badge_key(b),
{
    match b {
        BadgeId::FirstSteps => "first-steps",
        BadgeId::Halfway => "halfway",
        BadgeId::Completionist => "completionist",
        BadgeId::CoreScholar => "core-scholar",
        BadgeId::QuizAce => "quiz-ace",
        BadgeId::QuizMaster => "quiz-master",
        BadgeId::StreakStarter => "streak-starter",
        BadgeId::WeekStreak => "week-streak",
        BadgeId::MonthStreak => "month-streak",
        BadgeId::XpCollector => "xp-collector",
        BadgeId::XpHoarder => "xp-hoarder",
        BadgeId::Tinkerer => "tinkerer",
        BadgeId::CuriousMind => "curious-mind",
        BadgeId::Foundational => "foundational",
        BadgeId::EthicsAware => "ethics-aware",
    }
}

/// The display name of a badge.
pub open spec fn spec_badge_name(b: BadgeId) -> Seq<char> {
    match b {
        BadgeId::FirstSteps => "First Steps"@,
        BadgeId::Halfway => "Halfway There"@,
        BadgeId::Completionist => "Completionist"@,
        BadgeId::CoreScholar => "Core Scholar"@,
        BadgeId::QuizAce => "Quiz Ace"@,
        BadgeId::QuizMaster => "Quiz Master"@,
        BadgeId::StreakStarter => "Streak Starter"@,
        BadgeId::WeekStreak => "Week of Learning"@,
        BadgeId::MonthStreak => "Month of Learning"@,
        BadgeId::XpCollector => "XP Collector"@,
        BadgeId::XpHoarder => "XP Hoarder"@,
        BadgeId::Tinkerer => "Tinkerer"@,
        BadgeId::CuriousMind => "Curious Mind"@,
        BadgeId::Foundational => "Foundational"@,
        BadgeId::EthicsAware => "Ethics Aware"@,
    }
}

/// Returns the display name of `b`.
pub fn badge_name(b: BadgeId) -> (r: &'static str)
    ensures
        r@ == spec_badge_name(b),
{
    match b {
        BadgeId::FirstSteps => "First Steps",
        BadgeId::Halfway => "Halfway There",
        BadgeId::Completionist => "Completionist",
        BadgeId::CoreScholar => "Core Scholar",
        BadgeId::QuizAce => "Quiz Ace",
        BadgeId::QuizMaster => "Quiz Master",
        BadgeId::StreakStarter => "Streak Starter",
        BadgeId::WeekStreak => "Week of Learning",
        BadgeId::MonthStreak => "Month of Learning",
        BadgeId::XpCollector => "XP Collector",
        BadgeId::XpHoarder => "XP Hoarder",
        BadgeId::Tinkerer => "Tinkerer",
        BadgeId::CuriousMind => "Curious Mind",
        BadgeId::Foundational => "Foundational",
        BadgeId::EthicsAware => "Ethics Aware",
    }
}

/// The icon glyph shown beside a badge.
pub fn badge_icon(b: BadgeId) -> (r: &'static str) {
    match b {
        BadgeId::FirstSteps => "*",
        BadgeId::Halfway => "+",
        BadgeId::Completionist => "#",
        BadgeId::CoreScholar => "^",
        BadgeId::QuizAce => "!",
        BadgeId::QuizMaster => "!!",
        BadgeId::StreakStarter => "~",
        BadgeId::WeekStreak => "~~",
        BadgeId::MonthStreak => "~~~",
        BadgeId::XpCollector => "$",
        BadgeId::XpHoarder => "$$",
        BadgeId::Tinkerer => "&",
        BadgeId::CuriousMind => "?",
        BadgeId::Foundational => "_",
        BadgeId::EthicsAware => "=",
    }
}

/// The one-time XP reward a badge grants (may be zero).
pub open spec fn spec_badge_xp(b: BadgeId) -> u64 {
    match b {
        BadgeId::FirstSteps => 10,
        BadgeId::Halfway => 25,
        BadgeId::Completionist => 100,
        BadgeId::CoreScholar => 50,
        BadgeId::QuizAce => 20,
        BadgeId::QuizMaster => 60,
        BadgeId::StreakStarter => 15,
        BadgeId::WeekStreak => 30,
        BadgeId::MonthStreak => 150,
        BadgeId::XpCollector => 0,
        BadgeId::XpHoarder => 0,
        BadgeId::Tinkerer => 10,
        BadgeId::CuriousMind => 5,
        BadgeId::Foundational => 10,
        BadgeId::EthicsAware => 10,
    }
}

/// Returns the one-time XP reward of `b`.
pub fn badge_xp(b: BadgeId) -> (r: u64)
    ensures
        r == spec_badge_xp(b),
{
    match b {
        BadgeId::FirstSteps => 10,
        BadgeId::Halfway => 25,
        BadgeId::Completionist => 100,
        BadgeId::CoreScholar => 50,
        BadgeId::QuizAce => 20,
        BadgeId::QuizMaster => 60,
        BadgeId::StreakStarter => 15,
        BadgeId::WeekStreak => 30,
        BadgeId::MonthStreak => 150,
        BadgeId::XpCollector => 0,
        BadgeId::XpHoarder => 0,
        BadgeId::Tinkerer => 10,
        BadgeId::CuriousMind => 5,
        BadgeId::Foundational => 10,
        BadgeId::EthicsAware => 10,
    }
}

/// A plain snapshot of everything the badge predicates may read.
#[derive(Clone, Copy, Debug)]
pub struct BadgeState {
    /// How many sections are completed right now.
    pub completed_count: u32,
    /// Whether the Foundations section is completed.
    pub foundations_done: bool,
    /// Whether the Ethics section is completed.
    pub ethics_done: bool,
    /// Whether all six core sections are completed.
    pub core_done: bool,
    /// Whether all eight sections are completed.
    pub all_done: bool,
    /// How many sections hold a perfect quiz score.
    pub perfect_quizzes: u32,
    /// The user's streak counter.
    pub streak_days: u32,
    /// The user's experience points.
    pub total_xp: u64,
    /// The event tag the caller handed in, if any.
    pub trigger: Option<TriggerTag>,
}

/// The condition under which a badge is owed, as a predicate over a
/// snapshot of the user's state.
pub open spec fn spec_badge_eligible(b: BadgeId, st: BadgeState) -> bool {
    match b {
        BadgeId::FirstSteps => st.completed_count >= 1,
        BadgeId::Halfway => st.completed_count >= 4,
        BadgeId::Completionist => st.all_done,
        BadgeId::CoreScholar => st.core_done,
        BadgeId::QuizAce => st.perfect_quizzes >= 1,
        BadgeId::QuizMaster => st.perfect_quizzes >= 5,
        BadgeId::StreakStarter => st.streak_days >= 3,
        BadgeId::WeekStreak => st.streak_days >= 7,
        BadgeId::MonthStreak => st.streak_days >= 30,
        BadgeId::XpCollector => st.total_xp >= 250,
        BadgeId::XpHoarder => st.total_xp >= 1000,
        BadgeId::Tinkerer => st.trigger == Some(TriggerTag::PlaygroundRun),
        BadgeId::CuriousMind => st.trigger == Some(TriggerTag::ChatUsed),
        BadgeId::Foundational => st.foundations_done,
        BadgeId::EthicsAware => st.ethics_done,
    }
}

/// Evaluates the predicate of `b` against the snapshot `st`.
pub fn badge_eligible(b: BadgeId, st: &BadgeState) -> (r: bool)
    ensures
        r == spec_badge_eligible(b, *st),
{
    match b {
        BadgeId::FirstSteps => st.completed_count >= 1,
        BadgeId::Halfway => st.completed_count >= 4,
        BadgeId::Completionist => st.all_done,
        BadgeId::CoreScholar => st.core_done,
        BadgeId::QuizAce => st.perfect_quizzes >= 1,
        BadgeId::QuizMaster => st.perfect_quizzes >= 5,
        BadgeId::StreakStarter => st.streak_days >= 3,
        BadgeId::WeekStreak => st.streak_days >= 7,
        BadgeId::MonthStreak => st.streak_days >= 30,
        BadgeId::XpCollector => st.total_xp >= 250,
        BadgeId::XpHoarder => st.total_xp >= 1000,
        BadgeId::Tinkerer => matches!(st.trigger, Some(TriggerTag::PlaygroundRun)),
        BadgeId::CuriousMind => matches!(st.trigger, Some(TriggerTag::ChatUsed)),
        BadgeId::Foundational => st.foundations_done,
        BadgeId::EthicsAware => st.ethics_done,
    }
}

/// The event tag named by a request-level string, if any.
pub open spec fn spec_trigger_from(key: Seq<char>) -> Option<TriggerTag> {
    if key == "playground"@ {
        Some(TriggerTag::PlaygroundRun)
    } else if key == "chat"@ {
        Some(TriggerTag::ChatUsed)
    } else {
        None
    }
}

/// Parses a request-level event tag; unknown tags give `None`.
pub fn trigger_from_str(key: &str) -> (r: Option<TriggerTag>)
    ensures
        r == spec_trigger_from(key@),
{
    if str_eq(key, "playground") {
        Some(TriggerTag::PlaygroundRun)
    } else if str_eq(key, "chat") {
        Some(TriggerTag::ChatUsed)
    } else {
        None
    }
}

} // verus!
