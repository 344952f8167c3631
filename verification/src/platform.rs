//! The platform state: the user store with its ledgers, plus the two
//! simple append stores (newsletter signups and feedback notes), and the
//! session resolver over it.

use vstd::prelude::*;
use crate::text::str_eq;
use crate::user::{Profile, User, spec_user_wf};

verus! {

/// Why a request was refused.
#[derive(Clone, Copy, PartialEq, Eq, Structural, Debug)]
pub enum ApiError {
    /// The email has no `@` or is shorter than five characters.
    InvalidEmail,
    /// The password is shorter than eight characters.
    WeakPassword,
    /// A user with this email already exists.
    EmailTaken,
    /// No user has this email and password.
    InvalidCredentials,
    /// The request needs a logged-in user and none was found.
    NotAuthenticated,
    /// The section key names no catalog section.
    InvalidSection,
    /// The quiz total is zero or smaller than the score.
    InvalidQuizInput,
}

/// The wire code of an error.
pub open spec fn spec_error_code(e: ApiError) -> Seq<char> {
    match e {
        ApiError::InvalidEmail => "INVALID_EMAIL"@,
        ApiError::WeakPassword => "WEAK_PASSWORD"@,
        ApiError::EmailTaken => "EMAIL_TAKEN"@,
        ApiError::InvalidCredentials => "INVALID_CREDENTIALS"@,
        ApiError::NotAuthenticated => "NOT_AUTHENTICATED"@,
        ApiError::InvalidSection => "INVALID_SECTION"@,
        ApiError::InvalidQuizInput => "INVALID_QUIZ_INPUT"@,
    }
}

impl ApiError {
    /// Returns the wire code of the error.
    pub fn code(&self) -> (r: &'static str)
        ensures
            r@ == spec_error_code(*self),
    {
        match self {
            ApiError::InvalidEmail => "INVALID_EMAIL",
            ApiError::WeakPassword => "WEAK_PASSWORD",
            ApiError::EmailTaken => "EMAIL_TAKEN",
            ApiError::InvalidCredentials => "INVALID_CREDENTIALS",
            ApiError::NotAuthenticated => "NOT_AUTHENTICATED",
            ApiError::InvalidSection => "INVALID_SECTION",
            ApiError::InvalidQuizInput => "INVALID_QUIZ_INPUT",
        }
    }
}

/// One feedback note, kept as it came in.
#[derive(Clone, Debug)]
pub struct FeedbackEntry {
    /// The sender's email, when one was given.
    pub email: Option<String>,
    /// The note itself.
    pub message: String,
    /// When the note arrived.
    pub created_at: u64,
}

/// The whole platform state.
#[derive(Clone, Debug)]
pub struct Platform {
    /// All registered users; a user's identifier is its position here.
    pub users: Vec<User>,
    /// Newsletter signups, one entry per email.
    pub newsletter: Vec<String>,
    /// Feedback notes, append-only.
    pub feedback: Vec<FeedbackEntry>,
}

/// The store invariant: every user record is well formed, and emails are
/// unique, in the user store and in the newsletter list alike.
pub open spec fn spec_platform_wf(p: Platform) -> bool {
    &&& forall|i: int| 0 <= i < p.users@.len() ==> spec_user_wf(#[trigger] p.users@[i])
    &&& forall|i: int, j: int|
        0 <= i < j < p.users@.len() ==> p.users@[i].email@ != p.users@[j].email@
    &&& forall|i: int, j: int|
        0 <= i < j < p.newsletter@.len() ==> p.newsletter@[i]@ != p.newsletter@[j]@
}

/// Whether some user of `p` has the email `e`.
pub open spec fn spec_email_known(p: Platform, e: Seq<char>) -> bool {
    exists|i: int| 0 <= i < p.users@.len() && (#[trigger] p.users@[i]).email@ == e
}

impl Platform {
    /// Creates an empty platform: no users, no signups, no feedback.
    pub fn new() -> (r: Platform)
        ensures
            spec_platform_wf(r),
            r.users@.len() == 0,
            r.newsletter@.len() == 0,
            r.feedback@.len() == 0,
    {
        Platform { users: Vec::new(), newsletter: Vec::new(), feedback: Vec::new() }
    }

    /// Resolves a session's user identifier to the user's public profile.
    ///
    /// A missing or unknown identifier resolves to `None` (anonymous),
    /// never to an error; the state is not touched.
    pub fn resolve(&self, user_id: Option<u64>) -> (r: Option<Profile>)
        ensures
            match r {
                Some(p) => {
                    &&& user_id == Some(p.user_id)
                    &&& p.user_id < self.users@.len()
                    &&& p.email@ == self.users@[p.user_id as int].email@
                    &&& p.display_name == self.users@[p.user_id as int].display_name
                    &&& p.streak_days == self.users@[p.user_id as int].streak_days
                    &&& p.total_xp == self.users@[p.user_id as int].total_xp
                },
                None => match user_id {
                    Some(id) => id >= self.users@.len(),
                    None => true,
                },
            },
    {
        match user_id {
            None => None,
            Some(id) => {
                if id < self.users.len() as u64 {
                    let u = &self.users[id as usize];
                    Some(
                        Profile {
                            user_id: id,
                            email: u.email.clone(),
                            display_name: u.display_name.clone(),
                            streak_days: u.streak_days,
                            total_xp: u.total_xp,
                        },
                    )
                } else {
                    None
                }
            },
        }
    }

    /// Records a newsletter signup. A new email is appended and `true`
    /// comes back; an email already on the list leaves it unchanged and
    /// gives `false`.
    pub fn newsletter_signup(&mut self, email: &str) -> (added: bool)
        requires
            spec_platform_wf(*old(self)),
        ensures
            spec_platform_wf(*final(self)),
            final(self).users@ == old(self).users@,
            final(self).feedback@ == old(self).feedback@,
            added == !(exists|i: int|
                0 <= i < old(self).newsletter@.len() && (#[trigger] old(
                    self,
                ).newsletter@[i])@ == email@),
            if added {
                final(self).newsletter@.len() == old(self).newsletter@.len() + 1
                    && final(self).newsletter@.last()@ == email@ && forall|i: int|
                    0 <= i < old(self).newsletter@.len() ==> final(self).newsletter@[i] == old(
                        self,
                    ).newsletter@[i]
            } else {
                final(self).newsletter@ == old(self).newsletter@
            },
    {
        let mut i: usize = 0;
        while i < self.newsletter.len()
            invariant
                *self == *old(self),
                spec_platform_wf(*self),
                0 <= i <= self.newsletter@.len(),
                forall|j: int| 0 <= j < i ==> (#[trigger] self.newsletter@[j])@ != email@,
            decreases self.newsletter@.len() - i,
        {
            if str_eq(self.newsletter[i].as_str(), email) {
                return false;
            }
            i += 1;
        }
        self.newsletter.push(email.to_owned());
        true
    }

    /// Appends one feedback note.
    pub fn add_feedback(&mut self, email: Option<String>, message: String, now: u64)
        requires
            spec_platform_wf(*old(self)),
        ensures
            spec_platform_wf(*final(self)),
            final(self).users@ == old(self).users@,
            final(self).newsletter@ == old(self).newsletter@,
            final(self).feedback@.len() == old(self).feedback@.len() + 1,
            final(self).feedback@.last().email == email,
            final(self).feedback@.last().message == message,
            final(self).feedback@.last().created_at == now,
            forall|i: int|
                0 <= i < old(self).feedback@.len() ==> final(self).feedback@[i] == old(
                    self,
                ).feedback@[i],
    {
        self.feedback.push(FeedbackEntry { email, message, created_at: now });
    }
}

/// The acknowledgement sent back for a feedback note.
pub fn feedback_ack() -> (r: &'static str)
    ensures
        r@ == "Thank you for your feedback!"@,
{
    "Thank you for your feedback!"
}

} // verus!
