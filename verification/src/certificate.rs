//! The certificate gate: a read-only report over the ledger. A user who
//! has completed all six core sections gets a deterministic certificate
//! code, a holder name, an XP snapshot and the mean quiz score; anyone
//! else gets the list of core sections still missing.

use vstd::prelude::*;
use crate::catalog::{SectionId, section_rank, spec_is_core, spec_section_rank};
use crate::platform::{ApiError, Platform, spec_platform_wf};
use crate::seqext::{lemma_filter_in_original, lemma_filter_push};
use crate::text::{
    dec_string, email_local, hex_width, spec_dec, spec_email_local, spec_hex_width,
};
use crate::user::{SectionProgress, User, spec_slot, spec_user_wf};
use crate::grants::spec_core_done;

verus! {

/// The six core sections, in catalog order.
pub open spec fn spec_core_sections() -> Seq<SectionId> {
    seq![
        SectionId::Foundations,
        SectionId::Learning,
        SectionId::Neural,
        SectionId::Deep,
        SectionId::Modern,
        SectionId::Ethics,
    ]
}

/// Returns the six core sections in catalog order.
pub fn core_sections() -> (r: Vec<SectionId>)
    ensures
        r@ == spec_core_sections(),
{
    let mut v: Vec<SectionId> = Vec::new();
    v.push(SectionId::Foundations);
    v.push(SectionId::Learning);
    v.push(SectionId::Neural);
    v.push(SectionId::Deep);
    v.push(SectionId::Modern);
    v.push(SectionId::Ethics);
    proof {
        assert(v@ =~= spec_core_sections());
    }
    v
}

/// The core sections a user has not completed, in catalog order.
pub open spec fn spec_remaining(u: User) -> Seq<SectionId> {
    spec_core_sections().filter(|s: SectionId| !spec_slot(u, s).completed)
}

/// The certificate gate in one sentence: no core section is missing
/// exactly when all six are completed.
pub proof fn lemma_remaining_empty_iff_core_done(u: User)
    requires
        spec_user_wf(u),
    ensures
        spec_remaining(u).len() == 0 <==> spec_core_done(u),
{
    let pred = |s: SectionId| !spec_slot(u, s).completed;
    let core = spec_core_sections();
    if spec_remaining(u).len() == 0 {
        assert forall|s: SectionId| spec_is_core(s) implies #[trigger] crate::user::spec_section_completed(
            u,
            s,
        ) by {
            let i = match s {
                SectionId::Foundations => 0int,
                SectionId::Learning => 1,
                SectionId::Neural => 2,
                SectionId::Deep => 3,
                SectionId::Modern => 4,
                SectionId::Ethics => 5,
                SectionId::Sequential => 0,
                SectionId::Glossary => 0,
            };
            assert(core[i] == s);
            if pred(s) {
                core.lemma_filter_contains(pred, i);
            }
        }
    }
    if spec_core_done(u) {
        if spec_remaining(u).len() > 0 {
            let x = spec_remaining(u)[0];
            core.lemma_filter_pred(pred, 0);
            lemma_filter_in_original(core, pred, 0);
            let j = choose|j: int| 0 <= j < core.len() && core[j] == x;
            assert(spec_is_core(core[0]));
            assert(spec_is_core(core[1]));
            assert(spec_is_core(core[2]));
            assert(spec_is_core(core[3]));
            assert(spec_is_core(core[4]));
            assert(spec_is_core(core[5]));
            assert(spec_is_core(x));
            assert(crate::user::spec_section_completed(u, x));
            assert(false);
        }
    }
}

/// The deterministic certificate code: a fixed prefix, the low 32 bits
/// of the user identifier in uppercase hexadecimal, and the issue day.
pub open spec fn spec_cert_code(user_id: u64, day: u32) -> Seq<char> {
    "YAVIN-"@ + spec_hex_width(user_id % 0x100000000, 8) + "-"@ + spec_dec(day)
}

/// Renders the certificate code for a user and an issue day.
pub fn cert_code(user_id: u64, day: u32) -> (r: String)
    ensures
        r@ == spec_cert_code(user_id, day),
{
    let mut s = String::from_str("YAVIN-");
    let hex = hex_width(user_id % 0x100000000, 8);
    s.append(hex.as_str());
    s.append("-");
    let dec = dec_string(day);
    s.append(dec.as_str());
    proof {
        assert(s@ =~= spec_cert_code(user_id, day));
    }
    s
}

/// The sum of the recorded quiz scores of `p`.
pub open spec fn spec_quiz_sum(p: Seq<SectionProgress>) -> int
    decreases p.len(),
{
    if p.len() == 0 {
        0
    } else {
        spec_quiz_sum(p.drop_last()) + match p.last().quiz_score {
            Some(q) => q as int,
            None => 0,
        }
    }
}

/// How many slots of `p` have a recorded quiz score.
pub open spec fn spec_quiz_count(p: Seq<SectionProgress>) -> int
    decreases p.len(),
{
    if p.len() == 0 {
        0
    } else {
        spec_quiz_count(p.drop_last()) + if p.last().quiz_score is Some {
            1int
        } else {
            0int
        }
    }
}

/// The mean of the recorded quiz scores, rounded down; 0 when none is
/// recorded.
pub open spec fn spec_average_quiz(p: Seq<SectionProgress>) -> int {
    if spec_quiz_count(p) == 0 {
        0
    } else {
        spec_quiz_sum(p) / spec_quiz_count(p)
    }
}

/// Computes the mean recorded quiz score of a user.
pub fn average_quiz(u: &User) -> (r: u8)
    requires
        spec_user_wf(*u),
    ensures
        r as int == spec_average_quiz(u.progress@),
        r <= 100,
{
    let mut sum: u32 = 0;
    let mut count: u32 = 0;
    let mut i: usize = 0;
    while i < u.progress.len()
        invariant
            spec_user_wf(*u),
            0 <= i <= u.progress@.len(),
            count <= i,
            sum == spec_quiz_sum(u.progress@.subrange(0, i as int)),
            count == spec_quiz_count(u.progress@.subrange(0, i as int)),
            sum <= 100 * count,
        decreases u.progress@.len() - i,
    {
        proof {
            let pre = u.progress@.subrange(0, i as int);
            let cur = u.progress@.subrange(0, i + 1);
            assert(cur.drop_last() =~= pre);
        }
        match u.progress[i].quiz_score {
            Some(q) => {
                sum = sum + q as u32;
                count = count + 1;
            },
            None => {},
        }
        i += 1;
    }
    proof {
        assert(u.progress@.subrange(0, u.progress@.len() as int) =~= u.progress@);
    }
    if count == 0 {
        0
    } else {
        let avg = sum / count;
        proof {
            assert(avg <= 100) by (nonlinear_arith)
                requires
                    0 < count,
                    sum <= 100 * count,
                    avg == sum / count,
            ;
        }
        avg as u8
    }
}

/// What the certificate endpoint reports.
#[derive(Clone, Debug)]
pub enum CertificateOutcome {
    /// Not every core section is completed; these are missing.
    NotEligible { remaining: Vec<SectionId> },
    /// All core sections are completed.
    Eligible {
        /// The deterministic certificate code.
        certificate_id: String,
        /// The display name, or the local part of the email when no
        /// display name is set.
        holder_name: String,
        /// The user's XP at issue time.
        total_xp: u64,
        /// The mean recorded quiz score at issue time.
        average_score: u8,
    },
}

impl Platform {
    /// Builds the certificate report for a user: the missing core
    /// sections while any remain, the certificate itself once none does.
    /// Read-only; an identifier no user has is refused with
    /// `NotAuthenticated`.
    pub fn certificate(&self, user_id: u64, today: u32) -> (r: Result<
        CertificateOutcome,
        ApiError,
    >)
        requires
            spec_platform_wf(*self),
        ensures
            user_id >= self.users@.len() ==> r == Err::<CertificateOutcome, ApiError>(
                ApiError::NotAuthenticated,
            ),
            user_id < self.users@.len() ==> {
                let u = self.users@[user_id as int];
                match r {
                    Ok(out) => match out {
                        CertificateOutcome::NotEligible { remaining } => {
                            &&& remaining@ == spec_remaining(u)
                            &&& spec_remaining(u).len() > 0
                        },
                        CertificateOutcome::Eligible {
                            certificate_id,
                            holder_name,
                            total_xp,
                            average_score,
                        } => {
                            &&& spec_remaining(u).len() == 0
                            &&& certificate_id@ == spec_cert_code(user_id, today)
                            &&& holder_name@ == (match u.display_name {
                                Some(n) => n@,
                                None => spec_email_local(u.email@),
                            })
                            &&& total_xp == u.total_xp
                            &&& average_score as int == spec_average_quiz(u.progress@)
                        },
                    },
                    Err(_) => false,
                }
            },
    {
        if user_id >= self.users.len() as u64 {
            return Err(ApiError::NotAuthenticated);
        }
        let i = user_id as usize;
        let u = &self.users[i];
        let ghost pred = |s: SectionId| !spec_slot(*u, s).completed;
        let core = core_sections();
        let mut remaining: Vec<SectionId> = Vec::new();
        let mut k: usize = 0;
        while k < core.len()
            invariant
                spec_user_wf(*u),
                core@ == spec_core_sections(),
                0 <= k <= core@.len(),
                remaining@ == spec_core_sections().subrange(0, k as int).filter(pred),
                pred == (|s: SectionId| !spec_slot(*u, s).completed),
            decreases core@.len() - k,
        {
            let s = core[k];
            proof {
                assert(spec_core_sections().subrange(0, k + 1) =~= spec_core_sections().subrange(
                    0,
                    k as int,
                ).push(core@[k as int]));
                lemma_filter_push(spec_core_sections().subrange(0, k as int), pred, core@[k as int]);
            }
            let rank = section_rank(s);
            if !u.progress[rank].completed {
                remaining.push(s);
            }
            k += 1;
        }
        proof {
            assert(spec_core_sections().subrange(0, spec_core_sections().len() as int)
                =~= spec_core_sections());
        }
        if remaining.len() > 0 {
            return Ok(CertificateOutcome::NotEligible { remaining });
        }
        let certificate_id = cert_code(user_id, today);
        let holder_name = match &u.display_name {
            Some(n) => n.clone(),
            None => email_local(u.email.as_str()),
        };
        let average_score = average_quiz(u);
        Ok(
            CertificateOutcome::Eligible {
                certificate_id,
                holder_name,
                total_xp: u.total_xp,
                average_score,
            },
        )
    }
}

} // verus!
