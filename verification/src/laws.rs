//! Laws of the decoration procedure, proved once and for all inputs.

use vstd::prelude::*;

use crate::adjuster::spec_decorate;
use crate::adjuster::spec_plan;
use crate::adjuster::Outcome;
use crate::adjuster::Plan;
use crate::adjuster::WindowEffectState;
use crate::adjuster::WindowView;
use crate::chrome::Platform;
use crate::style::lemma_strip_caption_idempotent;

verus! {

/// Idempotence: a second run of the procedure on the resulting state and
/// window changes nothing further. After a successful application (or a run
/// that found the blur already applied) the second run reports
/// `AlreadyApplied` and leaves state and window as they are; and with the
/// same compositor answer, the second run leaves state and window unchanged
/// whatever the first run's outcome was.
pub proof fn lemma_decorate_idempotent(
    s: WindowEffectState,
    w: WindowView,
    platform: Platform,
    c1: bool,
    c2: bool,
)
    ensures
        ({
            let (s1, w1, r1) = spec_decorate(s, w, platform, c1);
            let (s2, w2, r2) = spec_decorate(s1, w1, platform, c2);
            &&& (r1 matches Outcome::Applied { .. } || r1 is AlreadyApplied ==> s2 == s1 && w2
                =~= w1 && r2 is AlreadyApplied)
            &&& (c1 == c2 ==> s2 == s1 && w2 =~= w1)
        }),
{
    lemma_strip_caption_idempotent(w.style);
}

/// The state invariant: `blur_applied` never reverts. Once true it stays
/// true and the procedure touches nothing; and it becomes true only on a run
/// whose outcome is a successful application.
pub proof fn lemma_blur_applied_monotone(
    s: WindowEffectState,
    w: WindowView,
    platform: Platform,
    compositor_ok: bool,
)
    ensures
        ({
            let (s1, w1, r1) = spec_decorate(s, w, platform, compositor_ok);
            &&& (s.blur_applied ==> s1 == s && w1 == w && r1 is AlreadyApplied)
            &&& (s1.blur_applied ==> s.blur_applied || r1 matches Outcome::Applied { .. })
        }),
{
}

/// The decision half agrees with the whole procedure: a `Skip` plan is
/// exactly a run that reports `AlreadyApplied`, an `Abort` plan exactly a
/// handle mismatch, and a `Perform` plan carries exactly the restyle and the
/// tint that a run with a willing compositor applies.
pub proof fn lemma_plan_matches_decorate(
    s: WindowEffectState,
    w: WindowView,
    platform: Platform,
    compositor_ok: bool,
)
    ensures
        ({
            let plan = spec_plan(s, platform, w.handle, w.style);
            let (s1, w1, r1) = spec_decorate(s, w, platform, compositor_ok);
            &&& (plan is Skip <==> r1 is AlreadyApplied)
            &&& (plan is Abort <==> r1 is HandleMismatch)
            &&& (plan matches Plan::Perform { restyle, tint } ==> (compositor_ok <==> r1
                == (Outcome::Applied { restyle, tint })))
        }),
{
}

} // verus!
