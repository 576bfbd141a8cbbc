//! Decisions of the privileged gamma engine that runs as root: which CRTCs
//! get a gamma ramp and which VT to return to after the VT bounce.

use vstd::prelude::*;

verus! {

/// Outcome of applying a tint.
#[derive(Clone, Copy, Debug, PartialEq, Eq, Structural)]
pub struct Applied {
    /// Number of CRTCs (display pipes) whose gamma was updated.
    pub crtcs: usize,
}

/// The gamma ramp length to write for a CRTC, or `None` to skip it: a CRTC
/// with no current mode drives no display, and a gamma length of zero means
/// the driver exposes no legacy gamma table for it.
pub fn gamma_ramp_size(has_mode: bool, gamma_length: u32) -> (res: Option<usize>)
    ensures
        res is Some <==> (has_mode && gamma_length > 0),
        res matches Some(size) ==> size == gamma_length,
{
    if !has_mode {
        return None;
    }
    let size = gamma_length as usize;
    if size == 0 {
        None
    } else {
        Some(size)
    }
}

/// The VT to switch back to after the bounce, or `None` when the bounce must
/// not run. Given the session's VT, the bounce runs only while that VT is in
/// the foreground and always returns to it; without it, the foreground VT is
/// the one to return to.
pub fn switch_back_vt(session_vt: Option<i32>, foreground: i32) -> (res: Option<i32>)
    ensures
        session_vt is None ==> res == Some(foreground),
        session_vt matches Some(vt) ==> (res == if vt == foreground {
            Some(vt)
        } else {
            None::<i32>
        }),
{
    match session_vt {
        Some(vt) => if vt == foreground {
            Some(vt)
        } else {
            None
        },
        None => Some(foreground),
    }
}

/// How many times the DRM master lock is tried before giving up.
pub const MASTER_ATTEMPTS: u32 = 20;

/// Milliseconds to wait after a failed try of the DRM master lock, which
/// absorbs the race between the VT switch and logind revoking the
/// compositor's master.
pub const MASTER_RETRY_MILLIS: u64 = 50;

/// Whether to try the DRM master lock (again) after `failed` failed tries.
pub fn retry_master(failed: u32) -> (res: bool)
    ensures
        res == (failed < MASTER_ATTEMPTS),
{
    failed < MASTER_ATTEMPTS
}

/// The CRTCs updated over a list of per-card outcomes: the count of each
/// card that was programmed, nothing for a card that failed.
pub open spec fn updated_total(outcomes: Seq<Option<usize>>) -> int
    decreases outcomes.len(),
{
    if outcomes.len() == 0 {
        0
    } else {
        updated_total(outcomes.drop_last()) + match outcomes.last() {
            Some(n) => n as int,
            None => 0,
        }
    }
}

proof fn lemma_updated_total_prefix(outcomes: Seq<Option<usize>>, i: int)
    requires
        0 <= i <= outcomes.len(),
    ensures
        0 <= updated_total(outcomes.take(i)) <= updated_total(outcomes),
    decreases outcomes.len(),
{
    if outcomes.len() > 0 {
        if i == outcomes.len() {
            assert(outcomes.take(i) =~= outcomes);
            lemma_updated_total_prefix(outcomes.drop_last(), i - 1);
            assert(outcomes.drop_last().take(i - 1) =~= outcomes.drop_last());
        } else {
            assert(outcomes.drop_last().take(i) =~= outcomes.take(i));
            lemma_updated_total_prefix(outcomes.drop_last(), i);
        }
    } else {
        assert(outcomes.take(i) =~= outcomes);
    }
}

/// The result of programming every card, one outcome per card (`None` for a
/// card that failed and was skipped): no cards at all is an error (`None`);
/// otherwise the total of CRTCs updated, failed cards counting nothing.
pub fn total_updated(outcomes: &Vec<Option<usize>>) -> (res: Option<usize>)
    requires
        updated_total(outcomes@) <= usize::MAX,
    ensures
        outcomes@.len() == 0 ==> res is None,
        outcomes@.len() > 0 ==> res == Some(updated_total(outcomes@) as usize),
{
    if outcomes.len() == 0 {
        return None;
    }
    let mut total: usize = 0;
    let mut i: usize = 0;
    assert(outcomes@.take(0) =~= Seq::<Option<usize>>::empty());
    while i < outcomes.len()
        invariant
            i <= outcomes@.len(),
            total == updated_total(outcomes@.take(i as int)),
            updated_total(outcomes@) <= usize::MAX,
        decreases outcomes.len() - i,
    {
        proof {
            assert(outcomes@.take(i + 1).drop_last() =~= outcomes@.take(i as int));
            lemma_updated_total_prefix(outcomes@, i + 1);
        }
        match outcomes[i] {
            Some(n) => {
                total = total + n;
            },
            None => {},
        }
        i = i + 1;
    }
    assert(outcomes@.take(i as int) =~= outcomes@);
    Some(total)
}

} // verus!
