use vstd::prelude::*;
use crate::world::generator::WorldGen;

verus! {

broadcast use vstd::string::group_string_axioms;

/// What is written about a world when it is created: its name, seed, game
/// mode label and terrain kind.
#[derive(Clone, Debug)]
pub struct WorldMeta {
    pub name: String,
    pub seed: u32,
    pub mode: String,
    pub generator: WorldGen,
}

/// The directory that holds world `name`: `worlds/<name>`, relative to the
/// working directory, with `/` as separator. A name that is itself an
/// absolute path (it starts with `/`) replaces the base, as joining paths
/// does.
pub open spec fn world_path(name: Seq<char>) -> Seq<char> {
    if name.len() > 0 && name[0] == '/' {
        name
    } else {
        "worlds/"@ + name
    }
}

/// The directory that holds world `name` (see `world_path`).
pub fn world_dir(name: &str) -> (dir: String)
    ensures
        dir@ == world_path(name@),
{
    if name.unicode_len() > 0 && name.get_char(0) == '/' {
        return name.to_string();
    }
    let mut dir = "worlds/".to_string();
    dir.append(name);
    dir
}

} // verus!
