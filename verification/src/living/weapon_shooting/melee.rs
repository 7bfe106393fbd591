use vstd::prelude::*;
use crate::living::components::Team;

verus! {

/// Whether a melee swing of `wielder` may strike `target`: never the wielder
/// itself, and never a target on the wielder's own team when both have one.
pub open spec fn spec_melee_may_hit(
    wielder: u64,
    wielder_team: Option<Team>,
    target: u64,
    target_team: Option<Team>,
) -> bool {
    &&& target != wielder
    &&& !(wielder_team is Some && target_team is Some && wielder_team == target_team)
}

/// The targets, in order, out of `targets` (entity id and team of each) that a
/// swing of `wielder` may strike.
pub open spec fn spec_melee_candidates(
    wielder: u64,
    wielder_team: Option<Team>,
    targets: Seq<(u64, Option<Team>)>,
) -> Seq<u64>
    decreases targets.len(),
{
    if targets.len() == 0 {
        Seq::empty()
    } else {
        let rest = spec_melee_candidates(wielder, wielder_team, targets.drop_last());
        let (target, target_team) = targets.last();
        if spec_melee_may_hit(wielder, wielder_team, target, target_team) {
            rest.push(target)
        } else {
            rest
        }
    }
}

/// Whether a melee swing of `wielder` may strike `target`.
pub fn melee_may_hit(
    wielder: u64,
    wielder_team: Option<Team>,
    target: u64,
    target_team: Option<Team>,
) -> (may_hit: bool)
    ensures
        may_hit == spec_melee_may_hit(wielder, wielder_team, target, target_team),
        target == wielder ==> !may_hit,
        wielder_team is Some && target_team == wielder_team ==> !may_hit,
        target != wielder && (wielder_team is None || target_team is None || target_team
            != wielder_team) ==> may_hit,
{
    if target == wielder {
        return false;
    }
    match (wielder_team, target_team) {
        (Some(w), Some(t)) => w != t,
        _ => true,
    }
}

/// What a melee swing does.
#[derive(Debug, PartialEq, Eq)]
pub struct MeleeSwing {
    /// Restart the wielder's fire-rate limiter (the cooldown restarts with
    /// every swing).
    pub reset_fire_rate: bool,
    /// The targets that may be struck, in order; the caller strikes those
    /// within the weapon's arc and reach.
    pub candidates: Vec<u64>,
}

/// Decides one fire request for a melee weapon. Nothing happens while the
/// cooldown runs; otherwise the weapon swings: its cooldown restarts, its
/// fire-rate limiter too if it has one, and every target but the wielder and
/// its teammates is a candidate.
pub fn fire_melee_weapon(
    wielder: u64,
    wielder_team: Option<Team>,
    cooldown_finished: bool,
    has_fire_rate: bool,
    targets: &Vec<(u64, Option<Team>)>,
) -> (swing: Option<MeleeSwing>)
    ensures
        swing is Some <==> cooldown_finished,
        swing matches Some(s) ==> s.reset_fire_rate == has_fire_rate && s.candidates@
            == spec_melee_candidates(wielder, wielder_team, targets@),
{
    if !cooldown_finished {
        return None;
    }
    let mut candidates: Vec<u64> = Vec::new();
    let mut i: usize = 0;
    while i < targets.len()
        invariant
            i <= targets@.len(),
            candidates@ == spec_melee_candidates(wielder, wielder_team, targets@.take(i as int)),
        decreases targets@.len() - i,
    {
        assert(targets@.take(i + 1).drop_last() =~= targets@.take(i as int));
        let (target, target_team) = targets[i];
        if melee_may_hit(wielder, wielder_team, target, target_team) {
            candidates.push(target);
        }
        i = i + 1;
    }
    assert(targets@.take(targets@.len() as int) =~= targets@);
    Some(MeleeSwing { reset_fire_rate: has_fire_rate, candidates })
}

/// Whether `id` names one of `targets` that a swing of `wielder` may strike.
pub open spec fn is_strikable_target(
    wielder: u64,
    wielder_team: Option<Team>,
    targets: Seq<(u64, Option<Team>)>,
    id: u64,
) -> bool {
    exists|j: int|
        0 <= j < targets.len() && #[trigger] targets[j].0 == id && spec_melee_may_hit(
            wielder,
            wielder_team,
            targets[j].0,
            targets[j].1,
        )
}

/// Every candidate of a swing is one of the targets and may be struck: a swing
/// never strikes its wielder or a teammate of its wielder.
pub proof fn melee_spares_wielder_and_team(
    wielder: u64,
    wielder_team: Option<Team>,
    targets: Seq<(u64, Option<Team>)>,
)
    ensures
        forall|k: int|
            0 <= k < spec_melee_candidates(wielder, wielder_team, targets).len()
                ==> is_strikable_target(
                wielder,
                wielder_team,
                targets,
                #[trigger] spec_melee_candidates(wielder, wielder_team, targets)[k],
            ),
    decreases targets.len(),
{
    if targets.len() > 0 {
        let init = targets.drop_last();
        melee_spares_wielder_and_team(wielder, wielder_team, init);
        let c = spec_melee_candidates(wielder, wielder_team, targets);
        let ci = spec_melee_candidates(wielder, wielder_team, init);
        let (t, tt) = targets.last();
        assert forall|k: int| 0 <= k < c.len() implies is_strikable_target(
            wielder,
            wielder_team,
            targets,
            #[trigger] c[k],
        ) by {
            if k < ci.len() {
                assert(c[k] == ci[k]);
                assert(is_strikable_target(wielder, wielder_team, init, ci[k]));
                let j = choose|j: int|
                    0 <= j < init.len() && #[trigger] init[j].0 == ci[k] && spec_melee_may_hit(
                        wielder,
                        wielder_team,
                        init[j].0,
                        init[j].1,
                    );
                assert(targets[j] == init[j]);
            } else {
                let j = targets.len() - 1;
                assert(c[k] == t);
                assert(targets[j] == (t, tt));
            }
        }
    }
}

/// A target that may be struck is a candidate of the swing.
pub proof fn melee_candidates_complete(
    wielder: u64,
    wielder_team: Option<Team>,
    targets: Seq<(u64, Option<Team>)>,
    j: int,
)
    requires
        0 <= j < targets.len(),
        spec_melee_may_hit(wielder, wielder_team, targets[j].0, targets[j].1),
    ensures
        spec_melee_candidates(wielder, wielder_team, targets).contains(targets[j].0),
    decreases targets.len(),
{
    let init = targets.drop_last();
    let c = spec_melee_candidates(wielder, wielder_team, targets);
    if j < targets.len() - 1 {
        melee_candidates_complete(wielder, wielder_team, init, j);
        let ci = spec_melee_candidates(wielder, wielder_team, init);
        let k = choose|k: int| 0 <= k < ci.len() && ci[k] == init[j].0;
        assert(c[k] == targets[j].0);
    } else {
        assert(c[c.len() - 1] == targets[j].0);
    }
}

/// A swing never strikes its wielder, nor a target on its wielder's team,
/// whatever that team is; every other target may be struck, including any
/// target when either side has no team.
pub proof fn melee_spares_exactly_self_and_team(
    wielder: u64,
    target: u64,
    team: Team,
    wielder_team: Option<Team>,
    target_team: Option<Team>,
)
    ensures
        !spec_melee_may_hit(wielder, wielder_team, wielder, target_team),
        !spec_melee_may_hit(wielder, Some(team), target, Some(team)),
        target != wielder && (wielder_team is None || target_team is None || target_team
            != wielder_team) ==> spec_melee_may_hit(wielder, wielder_team, target, target_team),
{
}

} // verus!
