use vstd::prelude::*;

verus! {

/// The name of a projectile shot by a cannon named `cannon_name`.
pub fn cannon_projectile_name(cannon_name: &str) -> (name: String)
    ensures
        name@ == cannon_name@ + " projectile"@,
{
    let mut name = String::from_str(cannon_name);
    name.append(" projectile");
    name
}

/// Whether `ids` holds `id`.
fn holds_id(ids: &Vec<u64>, id: u64) -> (found: bool)
    ensures
        found == ids@.contains(id),
{
    let mut i: usize = 0;
    while i < ids.len()
        invariant
            i <= ids@.len(),
            forall|k: int| 0 <= k < i ==> ids@[k] != id,
        decreases ids@.len() - i,
    {
        if ids[i] == id {
            return true;
        }
        i = i + 1;
    }
    false
}

/// The (bullet, player) hits among the collisions `events`: each collision is
/// looked at both ways round, and it is a hit when its first entity is a
/// cannon bullet and its second a player.
pub open spec fn spec_cannon_hits(
    events: Seq<(u64, u64)>,
    bullets: Seq<u64>,
    players: Seq<u64>,
) -> Seq<(u64, u64)>
    decreases events.len(),
{
    if events.len() == 0 {
        Seq::empty()
    } else {
        let (a, b) = events.last();
        let rest = spec_cannon_hits(events.drop_last(), bullets, players);
        let with_ab = if bullets.contains(a) && players.contains(b) {
            rest.push((a, b))
        } else {
            rest
        };
        if bullets.contains(b) && players.contains(a) {
            with_ab.push((b, a))
        } else {
            with_ab
        }
    }
}

/// Finds the cannon bullets that hit a player among the collisions `events`;
/// the caller applies each bullet's effect to the player and despawns the
/// bullet.
pub fn handle_collision(events: &Vec<(u64, u64)>, bullets: &Vec<u64>, players: &Vec<u64>) -> (hits:
    Vec<(u64, u64)>)
    ensures
        hits@ == spec_cannon_hits(events@, bullets@, players@),
{
    let mut hits: Vec<(u64, u64)> = Vec::new();
    let mut i: usize = 0;
    while i < events.len()
        invariant
            i <= events@.len(),
            hits@ == spec_cannon_hits(events@.take(i as int), bullets@, players@),
        decreases events@.len() - i,
    {
        assert(events@.take(i + 1).drop_last() =~= events@.take(i as int));
        let (a, b) = events[i];
        if holds_id(bullets, a) && holds_id(players, b) {
            hits.push((a, b));
        }
        if holds_id(bullets, b) && holds_id(players, a) {
            hits.push((b, a));
        }
        i = i + 1;
    }
    assert(events@.take(events@.len() as int) =~= events@);
    hits
}

/// Every hit pairs a cannon bullet with a player.
pub proof fn cannon_hits_pair_bullets_with_players(
    events: Seq<(u64, u64)>,
    bullets: Seq<u64>,
    players: Seq<u64>,
)
    ensures
        forall|k: int|
            0 <= k < spec_cannon_hits(events, bullets, players).len() ==> bullets.contains(
                (#[trigger] spec_cannon_hits(events, bullets, players)[k]).0,
            ) && players.contains(spec_cannon_hits(events, bullets, players)[k].1),
    decreases events.len(),
{
    if events.len() > 0 {
        cannon_hits_pair_bullets_with_players(events.drop_last(), bullets, players);
        let h = spec_cannon_hits(events, bullets, players);
        let r = spec_cannon_hits(events.drop_last(), bullets, players);
        assert forall|k: int| 0 <= k < h.len() implies bullets.contains((#[trigger] h[k]).0)
            && players.contains(h[k].1) by {
            if k < r.len() {
                assert(h[k] == r[k]);
            }
        }
    }
}

/// A collision between a cannon bullet and a player is a hit, whichever way
/// round the collision names them.
pub proof fn cannon_hits_found_both_ways(
    events: Seq<(u64, u64)>,
    bullets: Seq<u64>,
    players: Seq<u64>,
    j: int,
)
    requires
        0 <= j < events.len(),
    ensures
        bullets.contains(events[j].0) && players.contains(events[j].1) ==> spec_cannon_hits(
            events,
            bullets,
            players,
        ).contains(events[j]),
        bullets.contains(events[j].1) && players.contains(events[j].0) ==> spec_cannon_hits(
            events,
            bullets,
            players,
        ).contains((events[j].1, events[j].0)),
    decreases events.len(),
{
    let init = events.drop_last();
    let h = spec_cannon_hits(events, bullets, players);
    let r = spec_cannon_hits(init, bullets, players);
    let (a, b) = events.last();
    assert(r.len() <= h.len());
    assert forall|k: int| 0 <= k < r.len() implies h[k] == r[k] by {}
    if j < events.len() - 1 {
        cannon_hits_found_both_ways(init, bullets, players, j);
        assert(init[j] == events[j]);
        if bullets.contains(events[j].0) && players.contains(events[j].1) {
            let k = choose|k: int| 0 <= k < r.len() && r[k] == events[j];
            assert(h[k] == events[j]);
        }
        if bullets.contains(events[j].1) && players.contains(events[j].0) {
            let k = choose|k: int| 0 <= k < r.len() && r[k] == (events[j].1, events[j].0);
            assert(h[k] == (events[j].1, events[j].0));
        }
    } else {
        let with_ab = if bullets.contains(a) && players.contains(b) {
            r.push((a, b))
        } else {
            r
        };
        if bullets.contains(a) && players.contains(b) {
            assert(with_ab[with_ab.len() - 1] == (a, b));
            assert(h[with_ab.len() - 1] == (a, b));
        }
        if bullets.contains(b) && players.contains(a) {
            assert(h[h.len() - 1] == (b, a));
        }
    }
}

} // verus!
