//! Badge evaluation: building a snapshot of a user's state, granting
//! every eligible badge exactly once, and listing earned and available
//! badges.

use vstd::prelude::*;
use crate::badges::{
    BADGE_COUNT, BadgeId, BadgeState, TriggerTag, all_badges, badge_eligible, badge_rank, badge_xp,
    spec_badge_eligible, spec_badge_rank, spec_badge_xp, spec_badges,
};
use crate::catalog::{SECTION_COUNT, SectionId, spec_is_core};
use crate::platform::{ApiError, Platform, spec_platform_wf};
use crate::progress::spec_sat_add;
use crate::user::{
    User, count_completed, count_perfect, section_completed, spec_count_completed,
    spec_count_perfect, spec_section_completed, spec_user_wf, lemma_counts_bounded,
};

verus! {

/// Whether all six core sections are completed.
pub open spec fn spec_core_done(u: User) -> bool {
    forall|s: SectionId| spec_is_core(s) ==> #[trigger] spec_section_completed(u, s)
}

/// Whether all eight sections are completed.
pub open spec fn spec_all_done(u: User) -> bool {
    forall|i: int| 0 <= i < SECTION_COUNT ==> (#[trigger] u.progress@[i]).completed
}

/// The snapshot the badge predicates are evaluated against: every field
/// read straight off the user's state, plus the caller's event tag.
pub open spec fn spec_badge_state(u: User, trigger: Option<TriggerTag>) -> BadgeState {
    BadgeState {
        completed_count: spec_count_completed(u.progress@) as u32,
        foundations_done: spec_section_completed(u, SectionId::Foundations),
        ethics_done: spec_section_completed(u, SectionId::Ethics),
        core_done: spec_core_done(u),
        all_done: spec_all_done(u),
        perfect_quizzes: spec_count_perfect(u.progress@) as u32,
        streak_days: u.streak_days,
        total_xp: u.total_xp,
        trigger,
    }
}

/// Tells whether all six core sections of `u` are completed.
pub fn core_done(u: &User) -> (r: bool)
    requires
        spec_user_wf(*u),
    ensures
        r == spec_core_done(*u),
{
    let r = section_completed(u, SectionId::Foundations) && section_completed(
        u,
        SectionId::Learning,
    ) && section_completed(u, SectionId::Neural) && section_completed(u, SectionId::Deep)
        && section_completed(u, SectionId::Modern) && section_completed(u, SectionId::Ethics);
    proof {
        if r {
            assert forall|s: SectionId| spec_is_core(s) implies #[trigger] spec_section_completed(
                *u,
                s,
            ) by {
                match s {
                    SectionId::Foundations => {},
                    SectionId::Learning => {},
                    SectionId::Neural => {},
                    SectionId::Deep => {},
                    SectionId::Modern => {},
                    SectionId::Ethics => {},
                    SectionId::Sequential => {},
                    SectionId::Glossary => {},
                }
            }
        }
    }
    r
}

/// Tells whether all eight sections of `u` are completed.
pub fn all_done(u: &User) -> (r: bool)
    requires
        spec_user_wf(*u),
    ensures
        r == spec_all_done(*u),
{
    let mut k: usize = 0;
    while k < u.progress.len()
        invariant
            spec_user_wf(*u),
            0 <= k <= u.progress@.len(),
            forall|j: int| 0 <= j < k ==> (#[trigger] u.progress@[j]).completed,
        decreases u.progress@.len() - k,
    {
        if !u.progress[k].completed {
            return false;
        }
        k += 1;
    }
    true
}

/// Builds the badge snapshot of `u` with the caller's event tag.
pub fn badge_state_of(u: &User, trigger: Option<TriggerTag>) -> (st: BadgeState)
    requires
        spec_user_wf(*u),
    ensures
        st == spec_badge_state(*u, trigger),
{
    proof {
        lemma_counts_bounded(u.progress@);
    }
    BadgeState {
        completed_count: count_completed(u),
        foundations_done: section_completed(u, SectionId::Foundations),
        ethics_done: section_completed(u, SectionId::Ethics),
        core_done: core_done(u),
        all_done: all_done(u),
        perfect_quizzes: count_perfect(u),
        streak_days: u.streak_days,
        total_xp: u.total_xp,
        trigger,
    }
}

/// The badges a prefix of the catalog would newly grant: those whose
/// predicate holds under `st` and whose flag in `bs` is not yet set.
pub open spec fn spec_newly_prefix(prefix: Seq<BadgeId>, bs: Seq<bool>, st: BadgeState) -> Seq<
    BadgeId,
> {
    prefix.filter(|b: BadgeId| spec_badge_eligible(b, st) && !bs[spec_badge_rank(b)])
}

/// The badges one evaluation pass newly grants.
pub open spec fn spec_newly(bs: Seq<bool>, st: BadgeState) -> Seq<BadgeId> {
    spec_newly_prefix(spec_badges(), bs, st)
}

/// Extending the catalog prefix by one badge extends the newly-granted
/// list exactly when that badge is eligible and not yet granted.
proof fn lemma_newly_push(prefix: Seq<BadgeId>, bs: Seq<bool>, st: BadgeState, x: BadgeId)
    ensures
        spec_newly_prefix(prefix.push(x), bs, st) == if spec_badge_eligible(x, st) && !bs[
            spec_badge_rank(x)
        ] {
            spec_newly_prefix(prefix, bs, st).push(x)
        } else {
            spec_newly_prefix(prefix, bs, st)
        },
{
    reveal(Seq::filter);
    assert(prefix.push(x).drop_last() =~= prefix);
}

/// Every badge on a newly-granted list is eligible under the snapshot
/// and was not yet granted.
pub proof fn lemma_newly_elem(bs: Seq<bool>, st: BadgeState, b: BadgeId)
    requires
        spec_newly(bs, st).contains(b),
    ensures
        spec_badge_eligible(b, st),
        !bs[spec_badge_rank(b)],
{
    let pred = |x: BadgeId| spec_badge_eligible(x, st) && !bs[spec_badge_rank(x)];
    let i = choose|i: int| 0 <= i < spec_newly(bs, st).len() && spec_newly(bs, st)[i] == b;
    spec_badges().lemma_filter_pred(pred, i);
}

/// The user's XP after the rewards of `granted` are added one by one,
/// in order, each stopping at the machine limit.
pub open spec fn spec_add_rewards(xp: u64, granted: Seq<BadgeId>) -> u64
    decreases granted.len(),
{
    if granted.len() == 0 {
        xp
    } else {
        spec_sat_add(spec_add_rewards(xp, granted.drop_last()), spec_badge_xp(granted.last()))
    }
}

/// The position of each badge in the catalog order is its rank.
pub proof fn lemma_badge_at_rank()
    ensures
        forall|k: int| 0 <= k < BADGE_COUNT ==> spec_badge_rank(#[trigger] spec_badges()[k]) == k,
{
    assert(spec_badge_rank(spec_badges()[0]) == 0);
    assert(spec_badge_rank(spec_badges()[1]) == 1);
    assert(spec_badge_rank(spec_badges()[2]) == 2);
    assert(spec_badge_rank(spec_badges()[3]) == 3);
    assert(spec_badge_rank(spec_badges()[4]) == 4);
    assert(spec_badge_rank(spec_badges()[5]) == 5);
    assert(spec_badge_rank(spec_badges()[6]) == 6);
    assert(spec_badge_rank(spec_badges()[7]) == 7);
    assert(spec_badge_rank(spec_badges()[8]) == 8);
    assert(spec_badge_rank(spec_badges()[9]) == 9);
    assert(spec_badge_rank(spec_badges()[10]) == 10);
    assert(spec_badge_rank(spec_badges()[11]) == 11);
    assert(spec_badge_rank(spec_badges()[12]) == 12);
    assert(spec_badge_rank(spec_badges()[13]) == 13);
    assert(spec_badge_rank(spec_badges()[14]) == 14);
}

/// The full effect of `check_badges`: on success, exactly the badges of
/// `spec_newly` are granted and their rewards added; everything else is
/// untouched.
pub open spec fn spec_check_post(
    pre: Platform,
    post: Platform,
    r: Result<Vec<BadgeId>, ApiError>,
    user_id: u64,
    trigger: Option<TriggerTag>,
) -> bool {
    if user_id >= pre.users@.len() {
        r == Err::<Vec<BadgeId>, ApiError>(ApiError::NotAuthenticated) && post == pre
    } else {
        let u0 = pre.users@[user_id as int];
        let u1 = post.users@[user_id as int];
        let st = spec_badge_state(u0, trigger);
        &&& post.users@.len() == pre.users@.len()
        &&& forall|i: int|
            0 <= i < pre.users@.len() && i != user_id ==> post.users@[i] == pre.users@[i]
        &&& post.newsletter@ == pre.newsletter@
        &&& post.feedback@ == pre.feedback@
        &&& u1.badges@.len() == u0.badges@.len()
        &&& forall|k: int|
            0 <= k < BADGE_COUNT ==> u1.badges@[k] == (u0.badges@[k] || spec_badge_eligible(
                spec_badges()[k],
                st,
            ))
        &&& u1.total_xp == spec_add_rewards(u0.total_xp, spec_newly(u0.badges@, st))
        &&& u1.progress@ == u0.progress@
        &&& u1.streak_days == u0.streak_days
        &&& u1.last_activity_date == u0.last_activity_date
        &&& u1.email == u0.email
        &&& u1.password_digest == u0.password_digest
        &&& u1.display_name == u0.display_name
        &&& u1.created_at == u0.created_at
        &&& (r matches Ok(v) && v@ == spec_newly(u0.badges@, st))
    }
}

impl Platform {
    /// Runs one badge evaluation pass for a user.
    ///
    /// All fifteen predicates are evaluated against one snapshot of the
    /// user's state, taken before anything is granted. Every eligible
    /// badge not yet held is granted once, its reward added, and the
    /// newly granted badges come back in catalog order — never ones held
    /// before the call. An identifier no user has is refused with
    /// `NotAuthenticated`.
    pub fn check_badges(&mut self, user_id: u64, trigger: Option<TriggerTag>) -> (r: Result<
        Vec<BadgeId>,
        ApiError,
    >)
        requires
            spec_platform_wf(*old(self)),
        ensures
            spec_platform_wf(*final(self)),
            spec_check_post(*old(self), *final(self), r, user_id, trigger),
    {
        if user_id >= self.users.len() as u64 {
            return Err(ApiError::NotAuthenticated);
        }
        let i = user_id as usize;
        let st = badge_state_of(&self.users[i], trigger);
        let ghost pre = *self;
        let ghost u0 = self.users@[i as int];
        let ghost cat = spec_badges();
        proof {
            lemma_badge_at_rank();
        }
        let catalog = all_badges();
        let mut newly: Vec<BadgeId> = Vec::new();
        let mut k: usize = 0;
        while k < catalog.len()
            invariant
                spec_platform_wf(*self),
                catalog@ == cat,
                cat.len() == BADGE_COUNT,
                0 <= k <= BADGE_COUNT,
                forall|m: int|
                    0 <= m < BADGE_COUNT ==> spec_badge_rank(#[trigger] cat[m]) == m,
                0 <= i < self.users@.len(),
                self.users@.len() == pre.users@.len(),
                u0 == pre.users@[i as int],
                spec_user_wf(u0),
                st == spec_badge_state(u0, trigger),
                forall|j: int|
                    0 <= j < pre.users@.len() && j != i ==> self.users@[j] == pre.users@[j],
                self.newsletter@ == pre.newsletter@,
                self.feedback@ == pre.feedback@,
                self.users@[i as int].badges@.len() == BADGE_COUNT,
                forall|j: int|
                    k <= j < BADGE_COUNT ==> self.users@[i as int].badges@[j] == u0.badges@[j],
                forall|j: int|
                    0 <= j < k ==> self.users@[i as int].badges@[j] == (u0.badges@[j]
                        || spec_badge_eligible(cat[j], st)),
                newly@ == spec_newly_prefix(cat.subrange(0, k as int), u0.badges@, st),
                self.users@[i as int].total_xp == spec_add_rewards(u0.total_xp, newly@),
                self.users@[i as int].progress@ == u0.progress@,
                self.users@[i as int].streak_days == u0.streak_days,
                self.users@[i as int].last_activity_date == u0.last_activity_date,
                self.users@[i as int].email == u0.email,
                self.users@[i as int].password_digest == u0.password_digest,
                self.users@[i as int].display_name == u0.display_name,
                self.users@[i as int].created_at == u0.created_at,
            decreases BADGE_COUNT - k,
        {
            let ghost flags_before = self.users@[i as int].badges@;
            proof {
                assert(forall|j: int|
                    0 <= j < k ==> flags_before[j] == (u0.badges@[j] || spec_badge_eligible(
                        cat[j],
                        st,
                    )));
            }
            let b = catalog[k];
            let rank = badge_rank(b);
            proof {
                assert(rank == k);
                assert(cat.subrange(0, k + 1) =~= cat.subrange(0, k as int).push(cat[k as int]));
                lemma_newly_push(cat.subrange(0, k as int), u0.badges@, st, cat[k as int]);
            }
            let held = self.users[i].badges[rank];
            if !held && badge_eligible(b, &st) {
                let reward = badge_xp(b);
                let u = &mut self.users[i];
                u.badges[rank] = true;
                u.total_xp = u.total_xp.saturating_add(reward);
                newly.push(b);
                proof {
                    assert(self.users@[i as int].badges@ =~= flags_before.update(
                        k as int,
                        true,
                    ));
                    assert(newly@.drop_last() =~= spec_newly_prefix(
                        cat.subrange(0, k as int),
                        u0.badges@,
                        st,
                    ));
                }
            }
            proof {
                assert forall|j: int| 0 <= j < k + 1 implies self.users@[i as int].badges@[j] == (
                u0.badges@[j] || spec_badge_eligible(cat[j], st)) by {
                    if j < k {
                        assert(flags_before[j] == (u0.badges@[j] || spec_badge_eligible(
                            cat[j],
                            st,
                        )));
                    }
                }
            }
            k += 1;
        }
        proof {
            assert(cat.subrange(0, BADGE_COUNT as int) =~= cat);
            assert forall|m: int| 0 <= m < BADGE_COUNT implies self.users@[i as int].badges@[m]
                == (u0.badges@[m] || spec_badge_eligible(spec_badges()[m], st)) by {
                assert(self.users@[i as int].badges@[m] == (u0.badges@[m] || spec_badge_eligible(
                    cat[m],
                    st,
                )));
                assert(cat[m] == spec_badges()[m]);
            }
        }
        Ok(newly)
    }
}

/// Grants are append-only: a badge held before a check pass is still
/// held after it.
pub proof fn lemma_grants_append_only(
    pre: Platform,
    post: Platform,
    r: Result<Vec<BadgeId>, ApiError>,
    user_id: u64,
    trigger: Option<TriggerTag>,
)
    requires
        spec_check_post(pre, post, r, user_id, trigger),
        user_id < pre.users@.len(),
    ensures
        forall|k: int|
            0 <= k < BADGE_COUNT && pre.users@[user_id as int].badges@[k] ==> post.users@[user_id
                as int].badges@[k],
{
}

/// One badge check leaves no eligible badge behind: after the pass,
/// the user holds every badge whose predicate held under the snapshot
/// the pass evaluated.
pub proof fn lemma_check_grants_every_eligible(
    pre: Platform,
    post: Platform,
    r: Result<Vec<BadgeId>, ApiError>,
    user_id: u64,
    trigger: Option<TriggerTag>,
)
    requires
        spec_check_post(pre, post, r, user_id, trigger),
        user_id < pre.users@.len(),
    ensures
        forall|b: BadgeId|
            #[trigger] spec_badge_eligible(
                b,
                spec_badge_state(pre.users@[user_id as int], trigger),
            ) ==> post.users@[user_id as int].badges@[spec_badge_rank(b)],
{
    let st = spec_badge_state(pre.users@[user_id as int], trigger);
    assert forall|b: BadgeId| #[trigger] spec_badge_eligible(b, st) implies post.users@[user_id
        as int].badges@[spec_badge_rank(b)] by {
        crate::badges::lemma_badge_rank(b);
    }
}

/// Running the badge check twice grants nothing twice: a badge granted
/// by the first pass is never on the second pass's newly-granted list,
/// whatever event tags the two calls carry.
pub proof fn lemma_badge_check_idempotent(
    pre: Platform,
    mid: Platform,
    post: Platform,
    r1: Result<Vec<BadgeId>, ApiError>,
    r2: Result<Vec<BadgeId>, ApiError>,
    user_id: u64,
    trigger1: Option<TriggerTag>,
    trigger2: Option<TriggerTag>,
    b: BadgeId,
)
    requires
        spec_check_post(pre, mid, r1, user_id, trigger1),
        spec_check_post(mid, post, r2, user_id, trigger2),
        r1 matches Ok(v1) && v1@.contains(b),
    ensures
        r2 matches Ok(v2) && !v2@.contains(b),
{
    let u0 = pre.users@[user_id as int];
    let u1 = mid.users@[user_id as int];
    let st1 = spec_badge_state(u0, trigger1);
    let st2 = spec_badge_state(u1, trigger2);
    let v1 = r1->Ok_0;
    let v2 = r2->Ok_0;
    lemma_newly_elem(u0.badges@, st1, b);
    lemma_badge_at_rank();
    crate::badges::lemma_badge_rank(b);
    assert(u1.badges@[spec_badge_rank(b)]);
    if v2@.contains(b) {
        lemma_newly_elem(u1.badges@, st2, b);
    }
}

/// What `badges_view` reports: earned and still-available badges, both
/// in catalog order.
#[derive(Clone, Debug)]
pub struct BadgesView {
    /// The badges the user holds.
    pub earned: Vec<BadgeId>,
    /// The badges the user does not hold yet.
    pub available: Vec<BadgeId>,
}

/// The badges of a catalog prefix whose flag in `bs` matches `held`.
pub open spec fn spec_held_prefix(prefix: Seq<BadgeId>, bs: Seq<bool>, held: bool) -> Seq<
    BadgeId,
> {
    prefix.filter(|b: BadgeId| bs[spec_badge_rank(b)] == held)
}

/// Extending the catalog prefix by one badge extends the held list
/// exactly when that badge's flag matches.
proof fn lemma_held_push(prefix: Seq<BadgeId>, bs: Seq<bool>, held: bool, x: BadgeId)
    ensures
        spec_held_prefix(prefix.push(x), bs, held) == if bs[spec_badge_rank(x)] == held {
            spec_held_prefix(prefix, bs, held).push(x)
        } else {
            spec_held_prefix(prefix, bs, held)
        },
{
    reveal(Seq::filter);
    assert(prefix.push(x).drop_last() =~= prefix);
}

impl Platform {
    /// Lists the earned and available badge catalogs for a session.
    ///
    /// A known user gets the badges it holds and the rest; an anonymous
    /// caller gets an empty earned list and the full catalog as
    /// available.
    pub fn badges_view(&self, user_id: Option<u64>) -> (r: BadgesView)
        requires
            spec_platform_wf(*self),
        ensures
            match user_id {
                Some(id) if id < self.users@.len() => {
                    &&& r.earned@ == spec_held_prefix(
                        spec_badges(),
                        self.users@[id as int].badges@,
                        true,
                    )
                    &&& r.available@ == spec_held_prefix(
                        spec_badges(),
                        self.users@[id as int].badges@,
                        false,
                    )
                },
                _ => r.earned@ == Seq::<BadgeId>::empty() && r.available@ == spec_badges(),
            },
    {
        let known: Option<usize> = match user_id {
            Some(id) if id < self.users.len() as u64 => Some(id as usize),
            _ => None,
        };
        let catalog = all_badges();
        match known {
            None => {
                BadgesView { earned: Vec::new(), available: catalog }
            },
            Some(i) => {
                let ghost cat = spec_badges();
                let ghost bs = self.users@[i as int].badges@;
                proof {
                    lemma_badge_at_rank();
                }
                let mut earned: Vec<BadgeId> = Vec::new();
                let mut available: Vec<BadgeId> = Vec::new();
                let mut k: usize = 0;
                while k < catalog.len()
                    invariant
                        spec_platform_wf(*self),
                        catalog@ == cat,
                        cat.len() == BADGE_COUNT,
                        0 <= k <= BADGE_COUNT,
                        forall|m: int|
                            0 <= m < BADGE_COUNT ==> spec_badge_rank(#[trigger] cat[m]) == m,
                        0 <= i < self.users@.len(),
                        bs == self.users@[i as int].badges@,
                        bs.len() == BADGE_COUNT,
                        earned@ == spec_held_prefix(cat.subrange(0, k as int), bs, true),
                        available@ == spec_held_prefix(cat.subrange(0, k as int), bs, false),
                    decreases BADGE_COUNT - k,
                {
                    let b = catalog[k];
                    let rank = badge_rank(b);
                    proof {
                        assert(rank == k);
                        assert(cat.subrange(0, k + 1) =~= cat.subrange(0, k as int).push(
                            cat[k as int],
                        ));
                        lemma_held_push(cat.subrange(0, k as int), bs, true, cat[k as int]);
                        lemma_held_push(cat.subrange(0, k as int), bs, false, cat[k as int]);
                    }
                    if self.users[i].badges[rank] {
                        earned.push(b);
                    } else {
                        available.push(b);
                    }
                    k += 1;
                }
                proof {
                    assert(cat.subrange(0, BADGE_COUNT as int) =~= cat);
                }
                BadgesView { earned, available }
            },
        }
    }
}

} // verus!
