//! Account registration and login against the user store.

use vstd::prelude::*;
use crate::platform::{ApiError, Platform, spec_email_known, spec_platform_wf};
use crate::streak::{next_streak, spec_next_streak};
use crate::text::{digest, spec_digest, str_contains_char, str_eq};
use crate::user::{User, new_user, spec_fresh_slot, spec_user_wf};
use crate::badges::BADGE_COUNT;
use crate::catalog::SECTION_COUNT;

verus! {

/// A registerable email: it holds an `@` and is at least five characters
/// long.
pub open spec fn spec_email_valid(e: Seq<char>) -> bool {
    e.contains('@') && e.len() >= 5
}

/// An acceptable password: at least eight characters.
pub open spec fn spec_password_strong(pw: Seq<char>) -> bool {
    pw.len() >= 8
}

/// What registration writes: a well-formed user carrying exactly the
/// given account data, with zero counters, no recorded activity, a fresh
/// ledger and no badges.
pub open spec fn spec_registered_user(
    u: User,
    email: Seq<char>,
    pw: Seq<char>,
    display_name: Option<String>,
    now: u64,
) -> bool {
    &&& spec_user_wf(u)
    &&& u.email@ == email
    &&& u.password_digest == spec_digest(pw)
    &&& u.display_name == display_name
    &&& u.created_at == now
    &&& u.streak_days == 0
    &&& u.total_xp == 0
    &&& u.last_activity_date is None
    &&& forall|i: int| 0 <= i < SECTION_COUNT ==> u.progress@[i] == spec_fresh_slot()
    &&& forall|i: int| 0 <= i < BADGE_COUNT ==> u.badges@[i] == false
}

/// Whether some user of `p` has both this email and this password digest.
pub open spec fn spec_credentials_match(p: Platform, email: Seq<char>, pw: Seq<char>) -> bool {
    exists|i: int|
        0 <= i < p.users@.len() && (#[trigger] p.users@[i]).email@ == email
            && p.users@[i].password_digest == spec_digest(pw)
}

impl Platform {
    /// Creates a user account.
    ///
    /// Refused, in this order of checks, when the email is malformed,
    /// the password is weak, or the email is already registered; the
    /// state is then unchanged. Otherwise the new user is appended and
    /// its identifier returned.
    pub fn register(
        &mut self,
        email: &str,
        password: &str,
        display_name: Option<String>,
        now: u64,
    ) -> (r: Result<u64, ApiError>)
        requires
            spec_platform_wf(*old(self)),
        ensures
            spec_platform_wf(*final(self)),
            final(self).newsletter@ == old(self).newsletter@,
            final(self).feedback@ == old(self).feedback@,
            !spec_email_valid(email@) ==> r == Err::<u64, ApiError>(ApiError::InvalidEmail)
                && final(self).users@ == old(self).users@,
            spec_email_valid(email@) && !spec_password_strong(password@) ==> r == Err::<
                u64,
                ApiError,
            >(ApiError::WeakPassword) && final(self).users@ == old(self).users@,
            spec_email_valid(email@) && spec_password_strong(password@) && spec_email_known(
                *old(self),
                email@,
            ) ==> r == Err::<u64, ApiError>(ApiError::EmailTaken) && final(self).users@ == old(
                self,
            ).users@,
            spec_email_valid(email@) && spec_password_strong(password@) && !spec_email_known(
                *old(self),
                email@,
            ) ==> {
                &&& r == Ok::<u64, ApiError>(old(self).users@.len() as u64)
                &&& final(self).users@.len() == old(self).users@.len() + 1
                &&& forall|i: int|
                    0 <= i < old(self).users@.len() ==> final(self).users@[i] == old(
                        self,
                    ).users@[i]
                &&& spec_registered_user(
                    final(self).users@.last(),
                    email@,
                    password@,
                    display_name,
                    now,
                )
            },
    {
        let has_at = str_contains_char(email, '@');
        if !has_at || email.unicode_len() < 5 {
            return Err(ApiError::InvalidEmail);
        }
        if password.unicode_len() < 8 {
            return Err(ApiError::WeakPassword);
        }
        let mut i: usize = 0;
        while i < self.users.len()
            invariant
                *self == *old(self),
                spec_platform_wf(*self),
                spec_email_valid(email@),
                spec_password_strong(password@),
                0 <= i <= self.users@.len(),
                forall|j: int| 0 <= j < i ==> (#[trigger] self.users@[j]).email@ != email@,
            decreases self.users@.len() - i,
        {
            if str_eq(self.users[i].email.as_str(), email) {
                return Err(ApiError::EmailTaken);
            }
            i += 1;
        }
        let pw_digest = digest(password);
        let u = new_user(email.to_owned(), pw_digest, display_name, now);
        let id = self.users.len() as u64;
        self.users.push(u);
        Ok(id)
    }

    /// Verifies a login and, on success, records today's activity:
    /// the streak is advanced by the streak rule and the last-activity
    /// day set to `today`.
    ///
    /// An unknown email and a wrong password fail alike, with
    /// `InvalidCredentials` and an untouched state.
    pub fn login(&mut self, email: &str, password: &str, today: u32) -> (r: Result<u64, ApiError>)
        requires
            spec_platform_wf(*old(self)),
        ensures
            spec_platform_wf(*final(self)),
            final(self).newsletter@ == old(self).newsletter@,
            final(self).feedback@ == old(self).feedback@,
            match r {
                Ok(uid) => {
                    let u0 = old(self).users@[uid as int];
                    let u1 = final(self).users@[uid as int];
                    &&& uid < old(self).users@.len()
                    &&& u0.email@ == email@
                    &&& u0.password_digest == spec_digest(password@)
                    &&& final(self).users@.len() == old(self).users@.len()
                    &&& forall|i: int|
                        0 <= i < old(self).users@.len() && i != uid ==> final(self).users@[i]
                            == old(self).users@[i]
                    &&& u1.streak_days == spec_next_streak(
                        u0.last_activity_date,
                        u0.streak_days,
                        today,
                    )
                    &&& u1.last_activity_date == Some(today)
                    &&& u1.email == u0.email
                    &&& u1.password_digest == u0.password_digest
                    &&& u1.display_name == u0.display_name
                    &&& u1.created_at == u0.created_at
                    &&& u1.total_xp == u0.total_xp
                    &&& u1.progress == u0.progress
                    &&& u1.badges == u0.badges
                },
                Err(e) => {
                    &&& e == ApiError::InvalidCredentials
                    &&& *final(self) == *old(self)
                    &&& !spec_credentials_match(*old(self), email@, password@)
                },
            },
    {
        let pw_digest = digest(password);
        let mut i: usize = 0;
        while i < self.users.len()
            invariant
                *self == *old(self),
                spec_platform_wf(*self),
                pw_digest == spec_digest(password@),
                0 <= i <= self.users@.len(),
                forall|j: int| 0 <= j < i ==> (#[trigger] self.users@[j]).email@ != email@,
            decreases self.users@.len() - i,
        {
            if str_eq(self.users[i].email.as_str(), email) {
                if self.users[i].password_digest == pw_digest {
                    let last = self.users[i].last_activity_date;
                    let cur = self.users[i].streak_days;
                    let ns = next_streak(last, cur, today);
                    let u = &mut self.users[i];
                    u.streak_days = ns;
                    u.last_activity_date = Some(today);
                    proof {
                        let pre = old(self).users@;
                        let post = self.users@;
                        assert(forall|k: int| 0 <= k < pre.len() && k != i ==> post[k] == pre[k]);
                        let u1 = post[i as int];
                        assert(u1.progress == pre[i as int].progress);
                        assert(spec_user_wf(pre[i as int]));
                        assert forall|k: int| 0 <= k < post.len() implies spec_user_wf(
                            #[trigger] post[k],
                        ) by {
                            if k != i {
                                assert(post[k] == pre[k]);
                            }
                        }
                        assert forall|k: int, l: int| 0 <= k < l < post.len() implies post[k].email@
                            != post[l].email@ by {
                            assert(post[k].email == pre[k].email);
                            assert(post[l].email == pre[l].email);
                        }
                    }
                    return Ok(i as u64);
                } else {
                    // The only user with this email has another password:
                    // no credential pair in the store matches.
                    proof {
                        assert forall|j: int|
                            0 <= j < self.users@.len() && (#[trigger] self.users@[j]).email@
                                == email@ implies self.users@[j].password_digest != spec_digest(
                            password@,
                        ) by {
                            if j < i {
                                assert(self.users@[j].email@ != email@);
                            } else if j > i {
                                assert(self.users@[i as int].email@ != self.users@[j].email@);
                            }
                        }
                    }
                    return Err(ApiError::InvalidCredentials);
                }
            }
            i += 1;
        }
        Err(ApiError::InvalidCredentials)
    }
}

} // verus!
