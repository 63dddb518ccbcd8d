use game::assets::{all_assets_loaded, AssetLoadState, GameAsset};
use game::movement::{movement_direction, movement_impulse_per_second, PLAYER_SPEED};
use game::state::{check_assets, runs_in, AppStates, FrameSystem};
use game::terrain::{terrain_tile_offsets, TERRAIN_TILES};

#[test]
fn default_state_is_loading() {
    assert_eq!(AppStates::default(), AppStates::Loading);
}

#[test]
fn asset_table_keys_and_paths() {
    let all = GameAsset::all();
    let keys: Vec<&str> = all.iter().map(|a| a.key()).collect();
    let paths: Vec<&str> = all.iter().map(|a| a.path()).collect();
    assert_eq!(keys, vec!["terrain", "Character", "trash", "spear"]);
    assert_eq!(paths, vec!["terrain.png", "character.png", "trash.png", "spear.png"]);
}

#[test]
fn all_loaded_moves_to_playing() {
    let states = vec![AssetLoadState::Loaded; 4];
    assert!(all_assets_loaded(&states));
    assert_eq!(check_assets(&states), Some(AppStates::Playing));
}

#[test]
fn one_asset_still_loading_keeps_state() {
    let states = vec![
        AssetLoadState::Loaded,
        AssetLoadState::Loading,
        AssetLoadState::Loaded,
        AssetLoadState::Loaded,
    ];
    assert!(!all_assets_loaded(&states));
    assert_eq!(check_assets(&states), None);
}

#[test]
fn failed_or_unrequested_asset_keeps_state() {
    assert_eq!(check_assets(&vec![AssetLoadState::Loaded, AssetLoadState::Failed]), None);
    assert_eq!(check_assets(&vec![AssetLoadState::NotLoaded]), None);
    assert_eq!(check_assets(&vec![AssetLoadState::Unloaded, AssetLoadState::Loaded]), None);
}

#[test]
fn no_assets_counts_as_loaded() {
    assert_eq!(check_assets(&Vec::new()), Some(AppStates::Playing));
}

#[test]
fn systems_gated_by_state() {
    let playing_only = [
        FrameSystem::MovePlayer,
        FrameSystem::RotateSpear,
        FrameSystem::RotatePlayer,
        FrameSystem::CameraFollow,
    ];
    for s in playing_only {
        assert!(runs_in(s, AppStates::Playing));
        assert!(!runs_in(s, AppStates::Loading));
    }
    assert!(runs_in(FrameSystem::CheckAssets, AppStates::Loading));
    assert!(!runs_in(FrameSystem::CheckAssets, AppStates::Playing));
    assert!(runs_in(FrameSystem::CloseOnEsc, AppStates::Loading));
    assert!(runs_in(FrameSystem::CloseOnEsc, AppStates::Playing));
}

#[test]
fn direction_from_keys() {
    assert_eq!(movement_direction(false, false, false, false), (0, 0));
    assert_eq!(movement_direction(true, false, false, false), (1, 0));
    assert_eq!(movement_direction(false, true, false, false), (-1, 0));
    assert_eq!(movement_direction(false, false, true, false), (0, 1));
    assert_eq!(movement_direction(false, false, false, true), (0, -1));
    assert_eq!(movement_direction(true, false, false, true), (1, -1));
}

#[test]
fn opposite_keys_cancel() {
    assert_eq!(movement_direction(true, true, true, true), (0, 0));
    assert_eq!(movement_direction(true, true, false, true), (0, -1));
}

#[test]
fn impulse_scaled_by_speed() {
    assert_eq!(PLAYER_SPEED, 1000);
    assert_eq!(movement_impulse_per_second(false, true, true, false), (-1000, 1000));
    assert_eq!(movement_impulse_per_second(false, false, false, false), (0, 0));
}

#[test]
fn terrain_tiles_edge_to_edge() {
    let offsets = terrain_tile_offsets(64);
    assert_eq!(offsets.len(), TERRAIN_TILES);
    assert_eq!(offsets, vec![0, 320]);
}

#[test]
fn terrain_tiles_widest_image() {
    assert_eq!(terrain_tile_offsets(u32::MAX), vec![0, u32::MAX as u64 * 5]);
    assert_eq!(terrain_tile_offsets(0), vec![0, 0]);
}
