use vstd::prelude::*;

use crate::assets::{all_assets_loaded, all_loaded, AssetLoadState};

verus! {

/// The states the game moves through: it starts by loading its assets and
/// plays once every one of them has loaded.
#[derive(Clone, Copy, Debug, PartialEq, Eq, Structural, Hash)]
pub enum AppStates {
    Loading,
    Playing,
}

impl Default for AppStates {
    /// The game starts in the loading state.
    fn default() -> (r: AppStates)
        ensures
            r == AppStates::Loading,
    {
        AppStates::Loading
    }
}

/// The systems that run every frame, each gated by the application state.
#[derive(Clone, Copy, Debug, PartialEq, Eq, Structural, Hash)]
pub enum FrameSystem {
    MovePlayer,
    RotateSpear,
    RotatePlayer,
    CameraFollow,
    CheckAssets,
    CloseOnEsc,
}

/// Which frame systems run in which state: the asset check only while
/// loading, the player, spear and camera systems only while playing, and the
/// escape key handler always.
pub open spec fn spec_runs_in(system: FrameSystem, state: AppStates) -> bool {
    match system {
        FrameSystem::CheckAssets => state == AppStates::Loading,
        FrameSystem::CloseOnEsc => true,
        _ => state == AppStates::Playing,
    }
}

pub fn runs_in(system: FrameSystem, state: AppStates) -> (r: bool)
    ensures
        r == spec_runs_in(system, state),
{
    match system {
        FrameSystem::CheckAssets => state == AppStates::Loading,
        FrameSystem::CloseOnEsc => true,
        _ => state == AppStates::Playing,
    }
}

/// The state that the asset check asks for, given the load state of every
/// asset: `Playing` once all of them have loaded, nothing while any has not.
pub fn check_assets(states: &Vec<AssetLoadState>) -> (r: Option<AppStates>)
    ensures
        r == (if all_loaded(states@) {
            Some(AppStates::Playing)
        } else {
            None
        }),
{
    if all_assets_loaded(states) {
        Some(AppStates::Playing)
    } else {
        None
    }
}

} // verus!
