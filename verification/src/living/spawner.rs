use vstd::prelude::*;

verus! {

/// The name of the sprite child of a character named `name`.
pub fn character_sprite_name(name: &str) -> (sprite_name: String)
    ensures
        sprite_name@ == name@ + " Sprite"@,
{
    let mut sprite_name = String::from_str(name);
    sprite_name.append(" Sprite");
    sprite_name
}

} // verus!
