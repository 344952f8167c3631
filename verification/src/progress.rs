//! The progress ledger operations: marking sections completed (with a
//! one-time XP award) and recording quiz scores (kept as a running
//! maximum, with a bonus for perfect scores).

use vstd::prelude::*;
use crate::catalog::{
    SectionId, section_from_str, section_rank, section_xp, spec_section_from, spec_section_rank,
    spec_section_xp,
};
use crate::platform::{ApiError, Platform, spec_platform_wf};
use crate::streak::{next_streak, spec_next_streak};
use crate::user::{SectionProgress, spec_slot_wf, spec_user_wf};

verus! {

/// The XP bonus for a perfect quiz score.
pub const QUIZ_BONUS_XP: u64 = 50;

/// Addition on counters that stops at the machine limit instead of
/// wrapping.
pub open spec fn spec_sat_add(a: u64, b: u64) -> u64 {
    if a + b <= u64::MAX {
        (a + b) as u64
    } else {
        u64::MAX
    }
}

/// What a progress update hands back.
#[derive(Clone, Copy, PartialEq, Eq, Structural, Debug)]
pub struct ProgressOutcome {
    /// XP awarded by this call: the section value on the first
    /// completion, zero otherwise.
    pub xp_earned: u64,
    /// The user's XP after the call.
    pub total_xp: u64,
    /// The user's streak after the call.
    pub streak_days: u32,
}

/// What a quiz submission hands back.
#[derive(Clone, Copy, PartialEq, Eq, Structural, Debug)]
pub struct QuizOutcome {
    /// `floor(score * 100 / total)`.
    pub percentage: u8,
    /// The bonus granted by this call: `QUIZ_BONUS_XP` on a persisted
    /// perfect score, zero otherwise.
    pub bonus_xp: u64,
}

/// How a progress update rewrites one ledger slot: the completed flag is
/// overwritten, the first-completion timestamp is set once and never
/// cleared, and the time spent accumulates.
pub open spec fn spec_upsert_slot(
    s0: SectionProgress,
    completed: bool,
    time_spent: u64,
    now: u64,
) -> SectionProgress {
    SectionProgress {
        completed,
        completed_at: if completed && s0.completed_at is None {
            Some(now)
        } else {
            s0.completed_at
        },
        time_spent_seconds: spec_sat_add(s0.time_spent_seconds, time_spent),
        quiz_score: s0.quiz_score,
        quiz_completed_at: s0.quiz_completed_at,
    }
}

/// The XP a progress update awards: the section's value exactly when the
/// completed flag goes false to true, by the snapshot taken before the
/// write.
pub open spec fn spec_upsert_xp(s0: SectionProgress, sec: SectionId, completed: bool) -> u64 {
    if completed && !s0.completed {
        spec_section_xp(sec)
    } else {
        0
    }
}

/// The full effect of `upsert_progress`: which error comes on which
/// input, and, on success, exactly how the one touched user changes and
/// what comes back.
pub open spec fn spec_upsert_post(
    pre: Platform,
    post: Platform,
    r: Result<ProgressOutcome, ApiError>,
    user_id: u64,
    section_key: Seq<char>,
    completed: bool,
    time_spent: u64,
    now: u64,
    today: u32,
) -> bool {
    match spec_section_from(section_key) {
        None => r == Err::<ProgressOutcome, ApiError>(ApiError::InvalidSection) && post == pre,
        Some(sec) => {
            if user_id >= pre.users@.len() {
                r == Err::<ProgressOutcome, ApiError>(ApiError::NotAuthenticated) && post == pre
            } else {
                let u0 = pre.users@[user_id as int];
                let u1 = post.users@[user_id as int];
                let rank = spec_section_rank(sec);
                let s0 = u0.progress@[rank];
                let earned = spec_upsert_xp(s0, sec, completed);
                &&& post.users@.len() == pre.users@.len()
                &&& forall|i: int|
                    0 <= i < pre.users@.len() && i != user_id ==> post.users@[i] == pre.users@[i]
                &&& post.newsletter@ == pre.newsletter@
                &&& post.feedback@ == pre.feedback@
                &&& u1.progress@ == u0.progress@.update(
                    rank,
                    spec_upsert_slot(s0, completed, time_spent, now),
                )
                &&& u1.total_xp == spec_sat_add(u0.total_xp, earned)
                &&& u1.streak_days == spec_next_streak(
                    u0.last_activity_date,
                    u0.streak_days,
                    today,
                )
                &&& u1.last_activity_date == Some(today)
                &&& u1.email == u0.email
                &&& u1.password_digest == u0.password_digest
                &&& u1.display_name == u0.display_name
                &&& u1.created_at == u0.created_at
                &&& u1.badges == u0.badges
                &&& r == Ok::<ProgressOutcome, ApiError>(
                    ProgressOutcome {
                        xp_earned: earned,
                        total_xp: u1.total_xp,
                        streak_days: u1.streak_days,
                    },
                )
            }
        },
    }
}

/// How a persisted quiz submission rewrites one ledger slot: the stored
/// score becomes the maximum of the old score and the new percentage,
/// and the quiz timestamp records this submission.
pub open spec fn spec_quiz_slot(s0: SectionProgress, pct: u8, now: u64) -> SectionProgress {
    let old_q: u8 = match s0.quiz_score {
        Some(q) => q,
        None => 0,
    };
    SectionProgress {
        completed: s0.completed,
        completed_at: s0.completed_at,
        time_spent_seconds: s0.time_spent_seconds,
        quiz_score: Some(
            if pct > old_q {
                pct
            } else {
                old_q
            },
        ),
        quiz_completed_at: Some(now),
    }
}

/// The percentage a quiz submission computes.
pub open spec fn spec_quiz_pct(score: u32, total: u32) -> u8
    recommends
        0 < total,
        score <= total,
{
    (((score as int) * 100) / (total as int)) as u8
}

/// The full effect of `record_quiz`.
///
/// A zero total, or a score above it, is refused. An anonymous caller
/// (no identifier, or one no user has) gets the percentage back and
/// nothing is stored. A known user gets the score persisted as a running
/// maximum, and `QUIZ_BONUS_XP` added on every perfect submission.
pub open spec fn spec_quiz_post(
    pre: Platform,
    post: Platform,
    r: Result<QuizOutcome, ApiError>,
    user_id: Option<u64>,
    section_key: Seq<char>,
    score: u32,
    total: u32,
    now: u64,
) -> bool {
    if total == 0 || score > total {
        r == Err::<QuizOutcome, ApiError>(ApiError::InvalidQuizInput) && post == pre
    } else {
        let pct = spec_quiz_pct(score, total);
        let anonymous = match user_id {
            None => true,
            Some(id) => id >= pre.users@.len(),
        };
        if anonymous {
            r == Ok::<QuizOutcome, ApiError>(QuizOutcome { percentage: pct, bonus_xp: 0 }) && post
                == pre
        } else {
            match spec_section_from(section_key) {
                None => r == Err::<QuizOutcome, ApiError>(ApiError::InvalidSection) && post == pre,
                Some(sec) => {
                    let id = user_id->0;
                    let u0 = pre.users@[id as int];
                    let u1 = post.users@[id as int];
                    let rank = spec_section_rank(sec);
                    let s0 = u0.progress@[rank];
                    let bonus: u64 = if pct == 100 {
                        QUIZ_BONUS_XP as u64
                    } else {
                        0
                    };
                    &&& post.users@.len() == pre.users@.len()
                    &&& forall|i: int|
                        0 <= i < pre.users@.len() && i != id ==> post.users@[i] == pre.users@[i]
                    &&& post.newsletter@ == pre.newsletter@
                    &&& post.feedback@ == pre.feedback@
                    &&& u1.progress@ == u0.progress@.update(rank, spec_quiz_slot(s0, pct, now))
                    &&& u1.total_xp == spec_sat_add(u0.total_xp, bonus)
                    &&& u1.streak_days == u0.streak_days
                    &&& u1.last_activity_date == u0.last_activity_date
                    &&& u1.email == u0.email
                    &&& u1.password_digest == u0.password_digest
                    &&& u1.display_name == u0.display_name
                    &&& u1.created_at == u0.created_at
                    &&& u1.badges == u0.badges
                    &&& r == Ok::<QuizOutcome, ApiError>(
                        QuizOutcome { percentage: pct, bonus_xp: bonus },
                    )
                },
            }
        }
    }
}

impl Platform {
    /// Adds `delta` experience points to one user's counter, in one
    /// read-modify-write step, and returns the new total. The counter
    /// stops at the machine limit; there is no decrement path. An
    /// identifier no user has is refused with `NotAuthenticated`.
    pub fn add_xp(&mut self, user_id: u64, delta: u64) -> (r: Result<u64, ApiError>)
        requires
            spec_platform_wf(*old(self)),
        ensures
            spec_platform_wf(*final(self)),
            user_id >= old(self).users@.len() ==> r == Err::<u64, ApiError>(
                ApiError::NotAuthenticated,
            ) && *final(self) == *old(self),
            user_id < old(self).users@.len() ==> {
                let u0 = old(self).users@[user_id as int];
                let u1 = final(self).users@[user_id as int];
                &&& r == Ok::<u64, ApiError>(spec_sat_add(u0.total_xp, delta))
                &&& u1.total_xp == spec_sat_add(u0.total_xp, delta)
                &&& final(self).users@.len() == old(self).users@.len()
                &&& forall|i: int|
                    0 <= i < old(self).users@.len() && i != user_id ==> final(self).users@[i]
                        == old(self).users@[i]
                &&& u1.email == u0.email
                &&& u1.password_digest == u0.password_digest
                &&& u1.display_name == u0.display_name
                &&& u1.created_at == u0.created_at
                &&& u1.streak_days == u0.streak_days
                &&& u1.last_activity_date == u0.last_activity_date
                &&& u1.progress == u0.progress
                &&& u1.badges == u0.badges
                &&& final(self).newsletter@ == old(self).newsletter@
                &&& final(self).feedback@ == old(self).feedback@
            },
    {
        if user_id >= self.users.len() as u64 {
            return Err(ApiError::NotAuthenticated);
        }
        let i = user_id as usize;
        let u = &mut self.users[i];
        u.total_xp = u.total_xp.saturating_add(delta);
        let total = self.users[i].total_xp;
        proof {
            let pres = old(self).users@;
            let posts = self.users@;
            assert(forall|k: int| 0 <= k < pres.len() && k != i ==> posts[k] == pres[k]);
            assert forall|k: int| 0 <= k < posts.len() implies spec_user_wf(#[trigger] posts[k]) by {
                if k != i {
                    assert(posts[k] == pres[k]);
                } else {
                    assert(spec_user_wf(pres[k]));
                }
            }
            assert forall|k: int, l: int| 0 <= k < l < posts.len() implies posts[k].email@
                != posts[l].email@ by {
                assert(posts[k].email == pres[k].email);
                assert(posts[l].email == pres[l].email);
            }
        }
        Ok(total)
    }

    /// Writes a progress update for one user and one section.
    ///
    /// Unknown section keys are refused with `InvalidSection`; an
    /// identifier no user has is refused with `NotAuthenticated`. On
    /// success the slot is rewritten by `spec_upsert_slot`, the section's
    /// XP value is awarded exactly when the completed flag goes false to
    /// true, and the streak rule is applied with `today` — also when the
    /// completion state did not change.
    pub fn upsert_progress(
        &mut self,
        user_id: u64,
        section_key: &str,
        completed: bool,
        time_spent: u64,
        now: u64,
        today: u32,
    ) -> (r: Result<ProgressOutcome, ApiError>)
        requires
            spec_platform_wf(*old(self)),
        ensures
            spec_platform_wf(*final(self)),
            spec_upsert_post(
                *old(self),
                *final(self),
                r,
                user_id,
                section_key@,
                completed,
                time_spent,
                now,
                today,
            ),
    {
        let sec = match section_from_str(section_key) {
            None => {
                return Err(ApiError::InvalidSection);
            },
            Some(s) => s,
        };
        if user_id >= self.users.len() as u64 {
            return Err(ApiError::NotAuthenticated);
        }
        let i = user_id as usize;
        let rank = section_rank(sec);
        let was_completed = self.users[i].progress[rank].completed;
        let earned: u64 = if completed && !was_completed {
            section_xp(sec)
        } else {
            0
        };
        let ghost pre = *self;
        let slot = &mut self.users[i].progress[rank];
        slot.completed = completed;
        if completed && slot.completed_at.is_none() {
            slot.completed_at = Some(now);
        }
        slot.time_spent_seconds = slot.time_spent_seconds.saturating_add(time_spent);
        let u = &mut self.users[i];
        u.total_xp = u.total_xp.saturating_add(earned);
        let ns = next_streak(u.last_activity_date, u.streak_days, today);
        u.streak_days = ns;
        u.last_activity_date = Some(today);
        let total_xp = self.users[i].total_xp;
        let streak_days = self.users[i].streak_days;
        proof {
            let posts = self.users@;
            let pres = pre.users@;
            let u0 = pres[i as int];
            let u1 = posts[i as int];
            assert(u1.progress@ =~= u0.progress@.update(
                rank as int,
                spec_upsert_slot(u0.progress@[rank as int], completed, time_spent, now),
            ));
            assert(forall|k: int| 0 <= k < pres.len() && k != i ==> posts[k] == pres[k]);
            assert forall|k: int| 0 <= k < posts.len() implies spec_user_wf(#[trigger] posts[k]) by {
                if k != i {
                    assert(posts[k] == pres[k]);
                } else {
                    assert(spec_user_wf(u0));
                    assert forall|m: int| 0 <= m < u1.progress@.len() implies spec_slot_wf(
                        #[trigger] u1.progress@[m],
                    ) by {
                        if m != rank {
                            assert(u1.progress@[m] == u0.progress@[m]);
                        }
                    }
                }
            }
            assert forall|k: int, l: int| 0 <= k < l < posts.len() implies posts[k].email@
                != posts[l].email@ by {
                assert(posts[k].email == pres[k].email);
                assert(posts[l].email == pres[l].email);
            }
        }
        Ok(ProgressOutcome { xp_earned: earned, total_xp, streak_days })
    }

    /// Records a quiz submission.
    ///
    /// A zero total, or a score above it, is refused with
    /// `InvalidQuizInput`. An anonymous caller still gets the percentage,
    /// but nothing is stored and no bonus granted. For a known user the
    /// stored score only ever rises, and every perfect submission grants
    /// `QUIZ_BONUS_XP` — deliberately not just the first.
    pub fn record_quiz(
        &mut self,
        user_id: Option<u64>,
        section_key: &str,
        score: u32,
        total: u32,
        now: u64,
    ) -> (r: Result<QuizOutcome, ApiError>)
        requires
            spec_platform_wf(*old(self)),
        ensures
            spec_platform_wf(*final(self)),
            spec_quiz_post(
                *old(self),
                *final(self),
                r,
                user_id,
                section_key@,
                score,
                total,
                now,
            ),
    {
        if total == 0 || score > total {
            return Err(ApiError::InvalidQuizInput);
        }
        let pct_wide: u64 = (score as u64) * 100 / (total as u64);
        let pct: u8 = pct_wide as u8;
        proof {
            assert(pct_wide <= 100) by (nonlinear_arith)
                requires
                    0 < total,
                    score <= total,
                    pct_wide == ((score as int) * 100) / (total as int),
            ;
            assert(pct == spec_quiz_pct(score, total));
        }
        let id = match user_id {
            None => {
                return Ok(QuizOutcome { percentage: pct, bonus_xp: 0 });
            },
            Some(id) => id,
        };
        if id >= self.users.len() as u64 {
            return Ok(QuizOutcome { percentage: pct, bonus_xp: 0 });
        }
        let sec = match section_from_str(section_key) {
            None => {
                return Err(ApiError::InvalidSection);
            },
            Some(s) => s,
        };
        let i = id as usize;
        let rank = section_rank(sec);
        let bonus: u64 = if pct == 100 {
            QUIZ_BONUS_XP
        } else {
            0
        };
        let ghost pre = *self;
        let slot = &mut self.users[i].progress[rank];
        let old_q: u8 = match slot.quiz_score {
            Some(q) => q,
            None => 0,
        };
        slot.quiz_score = Some(
            if pct > old_q {
                pct
            } else {
                old_q
            },
        );
        slot.quiz_completed_at = Some(now);
        let u = &mut self.users[i];
        u.total_xp = u.total_xp.saturating_add(bonus);
        proof {
            let posts = self.users@;
            let pres = pre.users@;
            let u0 = pres[i as int];
            let u1 = posts[i as int];
            assert(u1.progress@ =~= u0.progress@.update(
                rank as int,
                spec_quiz_slot(u0.progress@[rank as int], pct, now),
            ));
            assert(forall|k: int| 0 <= k < pres.len() && k != i ==> posts[k] == pres[k]);
            assert forall|k: int| 0 <= k < posts.len() implies spec_user_wf(#[trigger] posts[k]) by {
                if k != i {
                    assert(posts[k] == pres[k]);
                } else {
                    assert(spec_user_wf(u0));
                    assert forall|m: int| 0 <= m < u1.progress@.len() implies spec_slot_wf(
                        #[trigger] u1.progress@[m],
                    ) by {
                        if m != rank {
                            assert(u1.progress@[m] == u0.progress@[m]);
                        }
                    }
                }
            }
            assert forall|k: int, l: int| 0 <= k < l < posts.len() implies posts[k].email@
                != posts[l].email@ by {
                assert(posts[k].email == pres[k].email);
                assert(posts[l].email == pres[l].email);
            }
        }
        Ok(QuizOutcome { percentage: pct, bonus_xp: bonus })
    }
}

/// Completing a section is idempotent for XP: when an update marks a
/// section completed and a later update marks the same section completed
/// again, the second one awards nothing and leaves the user's XP where
/// the first left it.
pub proof fn lemma_upsert_idempotent(
    pre: Platform,
    mid: Platform,
    post: Platform,
    r1: Result<ProgressOutcome, ApiError>,
    r2: Result<ProgressOutcome, ApiError>,
    user_id: u64,
    section_key: Seq<char>,
    time1: u64,
    time2: u64,
    now1: u64,
    now2: u64,
    today1: u32,
    today2: u32,
)
    requires
        spec_platform_wf(pre),
        spec_upsert_post(pre, mid, r1, user_id, section_key, true, time1, now1, today1),
        spec_upsert_post(mid, post, r2, user_id, section_key, true, time2, now2, today2),
        r1 is Ok,
    ensures
        r2 matches Ok(o2) && o2.xp_earned == 0,
        post.users@[user_id as int].total_xp == mid.users@[user_id as int].total_xp,
{
    let sec = spec_section_from(section_key)->0;
    let rank = spec_section_rank(sec);
    assert(spec_user_wf(pre.users@[user_id as int]));
    let s1 = mid.users@[user_id as int].progress@[rank];
    assert(s1.completed);
}

/// A recorded quiz score never goes down: one `record_quiz` call leaves
/// every stored score at least where it was.
pub proof fn lemma_quiz_monotonic_step(
    pre: Platform,
    post: Platform,
    r: Result<QuizOutcome, ApiError>,
    user_id: Option<u64>,
    section_key: Seq<char>,
    score: u32,
    total: u32,
    now: u64,
    watched_user: int,
    watched_rank: int,
)
    requires
        spec_platform_wf(pre),
        spec_quiz_post(pre, post, r, user_id, section_key, score, total, now),
        0 <= watched_user < pre.users@.len(),
        0 <= watched_rank < pre.users@[watched_user].progress@.len(),
        pre.users@[watched_user].progress@[watched_rank].quiz_score is Some,
    ensures
        post.users@[watched_user].progress@[watched_rank].quiz_score matches Some(q1)
            && pre.users@[watched_user].progress@[watched_rank].quiz_score matches Some(q0) && q1
            >= q0,
        post.users@.len() == pre.users@.len(),
        post.users@[watched_user].progress@.len() == pre.users@[watched_user].progress@.len(),
{
    assert(spec_user_wf(pre.users@[watched_user]));
    if !(total == 0 || score > total) {
        let anonymous = match user_id {
            None => true,
            Some(id) => id >= pre.users@.len(),
        };
        if !anonymous {
            match spec_section_from(section_key) {
                None => {},
                Some(sec) => {
                    let id = user_id->0 as int;
                    let rank = spec_section_rank(sec);
                    assert(spec_user_wf(pre.users@[id]));
                    if watched_user == id {
                        assert(post.users@[id].progress@ == pre.users@[id].progress@.update(
                            rank,
                            spec_quiz_slot(
                                pre.users@[id].progress@[rank],
                                spec_quiz_pct(score, total),
                                now,
                            ),
                        ));
                    } else {
                        assert(post.users@[watched_user] == pre.users@[watched_user]);
                    }
                },
            }
        }
    }
}

/// Across two quiz submissions, in any order and with any scores, a
/// stored score never falls below where it started.
pub proof fn lemma_quiz_monotonic(
    pre: Platform,
    mid: Platform,
    post: Platform,
    r1: Result<QuizOutcome, ApiError>,
    r2: Result<QuizOutcome, ApiError>,
    user1: Option<u64>,
    user2: Option<u64>,
    key1: Seq<char>,
    key2: Seq<char>,
    score1: u32,
    score2: u32,
    total1: u32,
    total2: u32,
    now1: u64,
    now2: u64,
    watched_user: int,
    watched_rank: int,
)
    requires
        spec_platform_wf(pre),
        spec_platform_wf(mid),
        spec_quiz_post(pre, mid, r1, user1, key1, score1, total1, now1),
        spec_quiz_post(mid, post, r2, user2, key2, score2, total2, now2),
        0 <= watched_user < pre.users@.len(),
        0 <= watched_rank < pre.users@[watched_user].progress@.len(),
        pre.users@[watched_user].progress@[watched_rank].quiz_score is Some,
    ensures
        post.users@[watched_user].progress@[watched_rank].quiz_score matches Some(q2)
            && pre.users@[watched_user].progress@[watched_rank].quiz_score matches Some(q0) && q2
            >= q0,
{
    lemma_quiz_monotonic_step(
        pre,
        mid,
        r1,
        user1,
        key1,
        score1,
        total1,
        now1,
        watched_user,
        watched_rank,
    );
    lemma_quiz_monotonic_step(
        mid,
        post,
        r2,
        user2,
        key2,
        score2,
        total2,
        now2,
        watched_user,
        watched_rank,
    );
}

} // verus!
