use vstd::prelude::*;

verus! {

/// The images the game loads before it starts playing.
#[derive(Clone, Copy, Debug, PartialEq, Eq, Structural, Hash)]
pub enum GameAsset {
    Terrain,
    Character,
    Trash,
    Spear,
}

/// Where the loading of one asset stands, as the asset server reports it.
#[derive(Clone, Copy, Debug, PartialEq, Eq, Structural, Hash)]
pub enum AssetLoadState {
    NotLoaded,
    Loading,
    Loaded,
    Failed,
    Unloaded,
}

/// Every asset of the game, in the order in which they are requested.
pub open spec fn spec_all_assets() -> Seq<GameAsset> {
    seq![GameAsset::Terrain, GameAsset::Character, GameAsset::Trash, GameAsset::Spear]
}

/// True when every reported load state is `Loaded` (also when none is reported).
pub open spec fn all_loaded(states: Seq<AssetLoadState>) -> bool {
    forall|i: int| 0 <= i < states.len() ==> #[trigger] states[i] == AssetLoadState::Loaded
}

impl GameAsset {
    /// The name under which the asset is kept in the table of loaded images.
    pub open spec fn spec_key(self) -> Seq<char> {
        match self {
            GameAsset::Terrain => "terrain"@,
            GameAsset::Character => "Character"@,
            GameAsset::Trash => "trash"@,
            GameAsset::Spear => "spear"@,
        }
    }

    /// The file the asset is loaded from.
    pub open spec fn spec_path(self) -> Seq<char> {
        match self {
            GameAsset::Terrain => "terrain.png"@,
            GameAsset::Character => "character.png"@,
            GameAsset::Trash => "trash.png"@,
            GameAsset::Spear => "spear.png"@,
        }
    }

    pub fn key(self) -> (r: &'static str)
        ensures
            r@ == self.spec_key(),
    {
        match self {
            GameAsset::Terrain => "terrain",
            GameAsset::Character => "Character",
            GameAsset::Trash => "trash",
            GameAsset::Spear => "spear",
        }
    }

    pub fn path(self) -> (r: &'static str)
        ensures
            r@ == self.spec_path(),
    {
        match self {
            GameAsset::Terrain => "terrain.png",
            GameAsset::Character => "character.png",
            GameAsset::Trash => "trash.png",
            GameAsset::Spear => "spear.png",
        }
    }

    pub fn all() -> (r: Vec<GameAsset>)
        ensures
            r@ == spec_all_assets(),
    {
        let r = vec![GameAsset::Terrain, GameAsset::Character, GameAsset::Trash, GameAsset::Spear];
        assert(r@ =~= spec_all_assets());
        r
    }
}

/// Whether every reported load state is `Loaded`.
pub fn all_assets_loaded(states: &Vec<AssetLoadState>) -> (r: bool)
    ensures
        r == all_loaded(states@),
{
    let mut i: usize = 0;
    while i < states.len()
        invariant
            i <= states@.len(),
            all_loaded(states@.subrange(0, i as int)),
        decreases states@.len() - i,
    {
        if states[i] != AssetLoadState::Loaded {
            return false;
        }
        assert(all_loaded(states@.subrange(0, i as int + 1))) by {
            assert forall|j: int| 0 <= j < i as int + 1 implies #[trigger] states@.subrange(0, i as int + 1)[j]
                == AssetLoadState::Loaded by {
                if j < i {
                    assert(states@.subrange(0, i as int + 1)[j] == states@.subrange(0, i as int)[j]);
                }
            }
        }
        i = i + 1;
    }
    assert(states@.subrange(0, i as int) =~= states@);
    true
}

} // verus!
