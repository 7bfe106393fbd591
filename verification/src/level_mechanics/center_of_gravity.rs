use vstd::prelude::*;

verus! {

/// Marker for an entity whose position pulls characters towards it.
pub struct IsCenterOfGravity;

/// Which characters gain or lose their custom gravity this frame.
#[derive(Debug, PartialEq, Eq)]
pub struct GravityChanges {
    /// Characters whose custom gravity is removed.
    pub remove: Vec<u64>,
    /// Players that get a custom gravity.
    pub insert: Vec<u64>,
}

/// Copies a list of entity ids.
fn copy_ids(ids: &Vec<u64>) -> (copy: Vec<u64>)
    ensures
        copy@ == ids@,
{
    let mut copy: Vec<u64> = Vec::new();
    let mut i: usize = 0;
    while i < ids.len()
        invariant
            i <= ids@.len(),
            copy@ == ids@.take(i as int),
        decreases ids@.len() - i,
    {
        copy.push(ids[i]);
        i = i + 1;
    }
    assert(ids@.take(ids@.len() as int) =~= ids@);
    copy
}

/// Keeps custom gravity in line with the level: with no center of gravity,
/// every character that has a custom gravity loses it; with one or more, every
/// player without a custom gravity gets one.
pub fn add_or_remove_components(
    has_centers: bool,
    with_gravity: &Vec<u64>,
    players_without: &Vec<u64>,
) -> (changes: GravityChanges)
    ensures
        !has_centers ==> changes.remove@ == with_gravity@ && changes.insert@.len() == 0,
        has_centers ==> changes.remove@.len() == 0 && changes.insert@ == players_without@,
{
    if !has_centers {
        GravityChanges { remove: copy_ids(with_gravity), insert: Vec::new() }
    } else {
        GravityChanges { remove: Vec::new(), insert: copy_ids(players_without) }
    }
}

} // verus!
