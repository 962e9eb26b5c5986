//! Iterative depenetration: turn a list of `(normal, penetration)` contacts
//! into one corrective displacement.
//!
//! The solver is a bounded Gauss-Seidel relaxation: each round walks the
//! contacts, measures the penetration still remaining along each normal
//! after the displacement accumulated so far, and pushes the displacement
//! further along that normal by the remaining amount. It stops early once a
//! round's summed error falls below the configured threshold, and otherwise
//! returns its best attempt when the round budget runs out.

use vstd::prelude::*;
use crate::fixed::{fx_add, fx_mul, fx_ok, fx_sub, spec_fx_add, spec_fx_mul, spec_fx_sub};
use crate::vec2::{
    spec_dot, spec_v2_add, spec_v2_scale, spec_v2_zero, unit_ok, v2_add, v2_dot, v2_ok, v2_scale,
    v2_zero, Vec2,
};

verus! {

/// Configuration for a depenetration pass.
#[derive(Clone, Copy, Debug)]
pub struct DepenetrationConfig {
    /// Round budget for the relaxation.
    pub depenetration_iterations: usize,
    /// Once a round's summed error is below this (scaled by the length
    /// unit), the solver stops early.
    pub max_depenetration_error: i64,
    /// Contacts whose stated penetration exceeds this (scaled by the length
    /// unit) are treated as degenerate and skipped entirely.
    pub penetration_rejection_threshold: i64,
    /// Minimal separation the caller wants to keep from other colliders.
    pub skin_width: i64,
}

/// The configuration's numeric fields are in range and the skin width is
/// not negative.
pub open spec fn depen_cfg_ok(c: DepenetrationConfig) -> bool {
    &&& fx_ok(c.max_depenetration_error)
    &&& fx_ok(c.penetration_rejection_threshold)
    &&& fx_ok(c.skin_width)
    &&& c.skin_width >= 0
}

impl Default for DepenetrationConfig {
    /// Defaults: 16 rounds, error target 0.0001, rejection threshold 0.5,
    /// skin width 0.002 (all in length units).
    fn default() -> (c: Self)
        ensures
            c.depenetration_iterations == 16,
            c.max_depenetration_error == 100,
            c.penetration_rejection_threshold == 500_000,
            c.skin_width == 2_000,
            depen_cfg_ok(c),
    {
        DepenetrationConfig {
            depenetration_iterations: 16,
            max_depenetration_error: 100,
            penetration_rejection_threshold: 500_000,
            skin_width: 2_000,
        }
    }
}

/// Every contact in the list has a near-unit normal and an in-range
/// penetration.
pub open spec fn contacts_ok(s: Seq<(Vec2, i64)>) -> bool {
    forall|i: int| 0 <= i < s.len() ==> unit_ok(#[trigger] s[i].0) && fx_ok(s[i].1)
}

/// One relaxation round, from contact index `i` on: returns the new
/// displacement and the round's accumulated error.
pub open spec fn spec_depen_pass(
    contacts: Seq<(Vec2, i64)>,
    reject_limit: i64,
    fix: Vec2,
    total: i64,
    i: int,
) -> (Vec2, i64)
    decreases contacts.len() - i,
{
    if i < 0 || i >= contacts.len() {
        (fix, total)
    } else if contacts[i].1 > reject_limit {
        spec_depen_pass(contacts, reject_limit, fix, total, i + 1)
    } else {
        let e0 = spec_fx_sub(contacts[i].1 as int, spec_dot(fix, contacts[i].0));
        let err: i64 = if e0 > 0 {
            e0 as i64
        } else {
            0
        };
        spec_depen_pass(
            contacts,
            reject_limit,
            spec_v2_add(fix, spec_v2_scale(contacts[i].0, err)),
            spec_fx_add(total as int, err as int) as i64,
            i + 1,
        )
    }
}

/// Up to `rounds` relaxation rounds, stopping early after a round whose
/// accumulated error is below `err_limit`.
pub open spec fn spec_depen_rounds(
    contacts: Seq<(Vec2, i64)>,
    reject_limit: i64,
    err_limit: i64,
    fix: Vec2,
    rounds: nat,
) -> Vec2
    decreases rounds,
{
    if rounds == 0 {
        fix
    } else {
        let (fix2, total) = spec_depen_pass(contacts, reject_limit, fix, 0, 0);
        if total < err_limit {
            fix2
        } else {
            spec_depen_rounds(contacts, reject_limit, err_limit, fix2, (rounds - 1) as nat)
        }
    }
}

/// The displacement the solver returns for a contact list: zero for an
/// empty list, otherwise the relaxation result, with both thresholds
/// scaled by the world's length unit.
pub open spec fn spec_depenetrate(
    config: DepenetrationConfig,
    length_unit: i64,
    contacts: Seq<(Vec2, i64)>,
) -> Vec2 {
    if contacts.len() == 0 {
        spec_v2_zero()
    } else {
        spec_depen_rounds(
            contacts,
            spec_fx_mul(length_unit as int, config.penetration_rejection_threshold as int) as i64,
            spec_fx_mul(length_unit as int, config.max_depenetration_error as int) as i64,
            spec_v2_zero(),
            config.depenetration_iterations as nat,
        )
    }
}

impl crate::engine::MoveAndSlide {
/// Computes the corrective displacement for the given contacts: an empty
/// list yields zero displacement; otherwise the bounded relaxation result,
/// which is the best attempt found if the round budget runs out before the
/// error target is met.
pub fn depenetrate(
    config: &DepenetrationConfig,
    length_unit: i64,
    contacts: &Vec<(Vec2, i64)>,
) -> (r: Vec2)
    requires
        depen_cfg_ok(*config),
        fx_ok(length_unit),
        contacts_ok(contacts@),
    ensures
        r == spec_depenetrate(*config, length_unit, contacts@),
        v2_ok(r),
        contacts@.len() == 0 ==> r == spec_v2_zero(),
{
    if contacts.len() == 0 {
        return v2_zero();
    }
    let reject_limit: i64 = fx_mul(length_unit, config.penetration_rejection_threshold);
    let err_limit: i64 = fx_mul(length_unit, config.max_depenetration_error);
    let iters: usize = config.depenetration_iterations;
    let mut fixup: Vec2 = v2_zero();
    let mut round: usize = 0;
    while round < iters
        invariant_except_break
            v2_ok(fixup),
            round <= iters,
            spec_depen_rounds(contacts@, reject_limit, err_limit, fixup, (iters - round) as nat)
                == spec_depen_rounds(contacts@, reject_limit, err_limit, spec_v2_zero(), iters as nat),
            contacts_ok(contacts@),
        ensures
            v2_ok(fixup),
            fixup == spec_depen_rounds(
                contacts@,
                reject_limit,
                err_limit,
                spec_v2_zero(),
                iters as nat,
            ),
        decreases iters - round,
    {
        let ghost fix_entry = fixup;
        let mut total: i64 = 0;
        let mut i: usize = 0;
        while i < contacts.len()
            invariant
                i <= contacts.len(),
                v2_ok(fixup),
                fx_ok(total),
                contacts_ok(contacts@),
                spec_depen_pass(contacts@, reject_limit, fixup, total, i as int)
                    == spec_depen_pass(contacts@, reject_limit, fix_entry, 0, 0),
            decreases contacts.len() - i,
        {
            let c: (Vec2, i64) = contacts[i];
            if !(c.1 > reject_limit) {
                let d: i64 = v2_dot(fixup, c.0);
                let e0: i64 = fx_sub(c.1, d);
                let err: i64 = if e0 > 0 {
                    e0
                } else {
                    0
                };
                total = fx_add(total, err);
                fixup = v2_add(fixup, v2_scale(c.0, err));
            }
            i = i + 1;
        }
        if total < err_limit {
            proof {
                assert(spec_depen_rounds(
                    contacts@,
                    reject_limit,
                    err_limit,
                    fix_entry,
                    (iters - round) as nat,
                ) == fixup);
            }
            break;
        }
        round = round + 1;
        proof {
            assert(spec_depen_rounds(
                contacts@,
                reject_limit,
                err_limit,
                fix_entry,
                (iters - round + 1) as nat,
            ) == spec_depen_rounds(
                contacts@,
                reject_limit,
                err_limit,
                fixup,
                (iters - round) as nat,
            ));
        }
    }
    fixup
}
}

} // verus!
