//! The user record and its per-section progress ledger.
//!
//! A user's ledger holds one slot per catalog section, indexed by the
//! section's catalog rank; a slot starts in its fresh state and is filled
//! in by progress and quiz events. Badges are one-time flags, indexed by
//! the badge's catalog rank.

use vstd::prelude::*;
use crate::badges::BADGE_COUNT;
use crate::catalog::{SECTION_COUNT, SectionId, spec_section_rank, section_rank};

verus! {

/// The progress state of one user in one section.
#[derive(Clone, Debug)]
pub struct SectionProgress {
    /// Whether the section counts as completed right now.
    pub completed: bool,
    /// When the section was first marked completed; set once and never
    /// cleared, even if `completed` later flips back to false.
    pub completed_at: Option<u64>,
    /// Total seconds spent in the section; only ever added to.
    pub time_spent_seconds: u64,
    /// The best quiz percentage recorded so far (0 to 100), if any.
    pub quiz_score: Option<u8>,
    /// When a quiz score was last recorded.
    pub quiz_completed_at: Option<u64>,
}

/// The slot invariant: scores stay percentages, and the two timestamps
/// are present whenever the state they record has been reached.
pub open spec fn spec_slot_wf(p: SectionProgress) -> bool {
    &&& (p.quiz_score matches Some(q) ==> q <= 100)
    &&& (p.completed ==> p.completed_at is Some)
    &&& (p.quiz_score is Some <==> p.quiz_completed_at is Some)
}

/// The fresh state of a progress slot: nothing recorded yet.
pub open spec fn spec_fresh_slot() -> SectionProgress {
    SectionProgress {
        completed: false,
        completed_at: None,
        time_spent_seconds: 0,
        quiz_score: None,
        quiz_completed_at: None,
    }
}

/// Returns a fresh progress slot.
pub fn fresh_slot() -> (r: SectionProgress)
    ensures
        r == spec_fresh_slot(),
{
    SectionProgress {
        completed: false,
        completed_at: None,
        time_spent_seconds: 0,
        quiz_score: None,
        quiz_completed_at: None,
    }
}

/// One registered user, with account data, counters, and the per-section
/// ledger.
#[derive(Clone, Debug)]
pub struct User {
    /// The login email; unique across the store.
    pub email: String,
    /// The digest of the password (see `text::spec_digest`).
    pub password_digest: u64,
    /// The optional profile name.
    pub display_name: Option<String>,
    /// When the account was created.
    pub created_at: u64,
    /// Consecutive days with recorded activity.
    pub streak_days: u32,
    /// Experience points; only ever added to.
    pub total_xp: u64,
    /// The last day with recorded activity, if any.
    pub last_activity_date: Option<u32>,
    /// One progress slot per catalog section, indexed by section rank.
    pub progress: Vec<SectionProgress>,
    /// One granted flag per catalog badge, indexed by badge rank.
    pub badges: Vec<bool>,
}

/// The user invariant: one slot per section, one flag per badge, every
/// slot well formed.
pub open spec fn spec_user_wf(u: User) -> bool {
    &&& u.progress@.len() == SECTION_COUNT
    &&& u.badges@.len() == BADGE_COUNT
    &&& forall|i: int| 0 <= i < SECTION_COUNT ==> spec_slot_wf(#[trigger] u.progress@[i])
}

/// The progress slot of `u` in section `s`.
pub open spec fn spec_slot(u: User, s: SectionId) -> SectionProgress {
    u.progress@[spec_section_rank(s)]
}

/// Whether `u` has completed section `s`.
pub open spec fn spec_section_completed(u: User, s: SectionId) -> bool {
    spec_slot(u, s).completed
}

/// Builds a user record as registration creates it: the given account
/// data, zero counters, no activity, an empty ledger.
pub fn new_user(email: String, password_digest: u64, display_name: Option<String>, now: u64) -> (u:
    User)
    ensures
        spec_user_wf(u),
        u.email == email,
        u.password_digest == password_digest,
        u.display_name == display_name,
        u.created_at == now,
        u.streak_days == 0,
        u.total_xp == 0,
        u.last_activity_date is None,
        forall|i: int| 0 <= i < SECTION_COUNT ==> u.progress@[i] == spec_fresh_slot(),
        forall|i: int| 0 <= i < BADGE_COUNT ==> u.badges@[i] == false,
{
    let mut progress: Vec<SectionProgress> = Vec::new();
    while progress.len() < SECTION_COUNT
        invariant
            progress@.len() <= SECTION_COUNT,
            forall|i: int| 0 <= i < progress@.len() ==> progress@[i] == spec_fresh_slot(),
        decreases SECTION_COUNT - progress@.len(),
    {
        progress.push(fresh_slot());
    }
    let mut badges: Vec<bool> = Vec::new();
    while badges.len() < BADGE_COUNT
        invariant
            badges@.len() <= BADGE_COUNT,
            forall|i: int| 0 <= i < badges@.len() ==> badges@[i] == false,
        decreases BADGE_COUNT - badges@.len(),
    {
        badges.push(false);
    }
    User {
        email,
        password_digest,
        display_name,
        created_at: now,
        streak_days: 0,
        total_xp: 0,
        last_activity_date: None,
        progress,
        badges,
    }
}

/// How many slots of `p` are completed.
pub open spec fn spec_count_completed(p: Seq<SectionProgress>) -> int
    decreases p.len(),
{
    if p.len() == 0 {
        0
    } else {
        spec_count_completed(p.drop_last()) + if p.last().completed {
            1int
        } else {
            0int
        }
    }
}

/// How many slots of `p` hold a perfect quiz score.
pub open spec fn spec_count_perfect(p: Seq<SectionProgress>) -> int
    decreases p.len(),
{
    if p.len() == 0 {
        0
    } else {
        spec_count_perfect(p.drop_last()) + if p.last().quiz_score == Some(100u8) {
            1int
        } else {
            0int
        }
    }
}

/// A count over slots never exceeds the number of slots.
pub proof fn lemma_counts_bounded(p: Seq<SectionProgress>)
    ensures
        0 <= spec_count_completed(p) <= p.len(),
        0 <= spec_count_perfect(p) <= p.len(),
    decreases p.len(),
{
    if p.len() > 0 {
        lemma_counts_bounded(p.drop_last());
    }
}

/// Counts the completed sections of `u`.
pub fn count_completed(u: &User) -> (r: u32)
    requires
        spec_user_wf(*u),
    ensures
        r == spec_count_completed(u.progress@),
{
    let mut r: u32 = 0;
    let mut i: usize = 0;
    while i < u.progress.len()
        invariant
            spec_user_wf(*u),
            0 <= i <= u.progress@.len(),
            r <= i,
            r == spec_count_completed(u.progress@.subrange(0, i as int)),
        decreases u.progress@.len() - i,
    {
        proof {
            let pre = u.progress@.subrange(0, i as int);
            let cur = u.progress@.subrange(0, i + 1);
            assert(cur.drop_last() =~= pre);
        }
        if u.progress[i].completed {
            r = r + 1;
        }
        i += 1;
    }
    proof {
        assert(u.progress@.subrange(0, u.progress@.len() as int) =~= u.progress@);
    }
    r
}

/// Counts the sections of `u` with a perfect quiz score.
pub fn count_perfect(u: &User) -> (r: u32)
    requires
        spec_user_wf(*u),
    ensures
        r == spec_count_perfect(u.progress@),
{
    let mut r: u32 = 0;
    let mut i: usize = 0;
    while i < u.progress.len()
        invariant
            spec_user_wf(*u),
            0 <= i <= u.progress@.len(),
            r <= i,
            r == spec_count_perfect(u.progress@.subrange(0, i as int)),
        decreases u.progress@.len() - i,
    {
        proof {
            let pre = u.progress@.subrange(0, i as int);
            let cur = u.progress@.subrange(0, i + 1);
            assert(cur.drop_last() =~= pre);
        }
        let perfect = match u.progress[i].quiz_score {
            Some(q) => q == 100,
            None => false,
        };
        if perfect {
            r = r + 1;
        }
        i += 1;
    }
    proof {
        assert(u.progress@.subrange(0, u.progress@.len() as int) =~= u.progress@);
    }
    r
}

/// Tells whether `u` has completed section `s`.
pub fn section_completed(u: &User, s: SectionId) -> (r: bool)
    requires
        spec_user_wf(*u),
    ensures
        r == spec_section_completed(*u, s),
{
    let rank = section_rank(s);
    u.progress[rank].completed
}

/// The public profile of a user, as the session resolver reports it.
#[derive(Clone, Debug)]
pub struct Profile {
    /// The user's identifier.
    pub user_id: u64,
    /// The login email.
    pub email: String,
    /// The optional profile name.
    pub display_name: Option<String>,
    /// Consecutive days with recorded activity.
    pub streak_days: u32,
    /// Experience points.
    pub total_xp: u64,
}

} // verus!
