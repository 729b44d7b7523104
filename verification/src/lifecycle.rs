//! The viewer's lifecycle: the two-state loading machine, the
//! per-frame camera-cycling step, and the decisions taken when the
//! scene is first populated.

use vstd::prelude::*;
use vstd::arithmetic::div_mod::lemma_add_mod_noop_right;
use vstd::arithmetic::div_mod::lemma_mod_add_multiples_vanish;
use vstd::arithmetic::div_mod::lemma_mod_division_less_than_divisor;
use vstd::arithmetic::div_mod::lemma_small_mod;
use crate::CameraWithPose;
use crate::CameraUpdate;
use crate::is_transform_of;

verus! {

/// The viewer's lifecycle states: assets load first, then the scene
/// runs. There is no transition back and no teardown state.
#[derive(Clone, Copy, Debug, PartialEq, Eq, Hash, Structural)]
pub enum GameState {
    Loading,
    InGame,
}

impl Default for GameState {
    /// The viewer starts in the loading state.
    fn default() -> (s: Self)
        ensures
            s == GameState::Loading,
    {
        GameState::Loading
    }
}

/// The one-way lifecycle transition: the game state becomes `InGame`
/// exactly when it already was, or when the deferred-resource loader
/// reports every tracked asset done; `InGame` is never left.
pub fn next_state(state: GameState, all_done: bool) -> (next: GameState)
    ensures
        (next == GameState::InGame) == (state == GameState::InGame || all_done),
        state == GameState::InGame ==> next == GameState::InGame,
{
    match state {
        GameState::Loading => if all_done {
            GameState::InGame
        } else {
            GameState::Loading
        },
        GameState::InGame => GameState::InGame,
    }
}

/// The camera index shown after index `i` in a list of `len` cameras:
/// one step forward, wrapping at the end of the list.
pub open spec fn next_index(i: nat, len: nat) -> nat
    recommends
        len > 0,
{
    (((i + 1) as int) % (len as int)) as nat
}

/// The index reached from `i` after `n` per-frame advances through a
/// list of `len` cameras.
pub open spec fn advance_n(i: nat, len: nat, n: nat) -> nat
    recommends
        len > 0,
    decreases n,
{
    if n == 0 {
        i
    } else {
        advance_n(next_index(i, len), len, (n - 1) as nat)
    }
}

proof fn lemma_advance_n_mod(i: nat, len: nat, n: nat)
    requires
        len > 0,
        i < len,
    ensures
        advance_n(i, len, n) == (((i + n) as int) % (len as int)) as nat,
    decreases n,
{
    if n == 0 {
        lemma_small_mod(i, len);
    } else {
        let j = next_index(i, len);
        lemma_mod_division_less_than_divisor(i + 1 as int, len as int);
        lemma_advance_n_mod(j, len, (n - 1) as nat);
        lemma_add_mod_noop_right((n - 1) as int, (i + 1) as int, len as int);
    }
}

/// Cyclic wraparound: from any valid starting index, the per-frame
/// advance through a list of `len` cameras returns to its starting
/// index after exactly `len` advances.
pub proof fn lemma_camera_cycle(start: nat, len: nat)
    requires
        len > 0,
        start < len,
    ensures
        advance_n(start, len, len) == start,
{
    lemma_advance_n_mod(start, len, len);
    lemma_mod_add_multiples_vanish(start as int, len as int);
    lemma_small_mod(start, len);
}

/// The viewer's configuration resource: the point-cloud file path, the
/// camera list read from the JSON sidecar file (empty when none was
/// given), and the index of the camera to show next.
pub struct RenderingConfig {
    pub file_path: String,
    pub cameras: Vec<CameraWithPose>,
    pub current_camera_idx: usize,
}

impl RenderingConfig {
    /// The camera index stays inside the list whenever the list is
    /// nonempty; with no cameras it stays at zero.
    pub open spec fn wf(&self) -> bool {
        if self.cameras@.len() == 0 {
            self.current_camera_idx == 0
        } else {
            self.current_camera_idx < self.cameras@.len()
        }
    }

    /// A configuration as built at startup: the given path and camera
    /// list, with the camera index at the start of the list.
    pub fn new(file_path: String, cameras: Vec<CameraWithPose>) -> (cfg: Self)
        ensures
            cfg.file_path@ == file_path@,
            cfg.cameras@ == cameras@,
            cfg.current_camera_idx == 0,
            cfg.wf(),
    {
        RenderingConfig { file_path, cameras, current_camera_idx: 0 }
    }

    /// One frame of the camera-cycling system. With no cameras
    /// configured, or while a sort operation is pending, nothing
    /// changes and no update is returned. Otherwise the update carries
    /// the transform and the field-of-view inputs of the camera at the
    /// current index, and the index advances by one, wrapping at the
    /// end of the list.
    pub fn update_camera(&mut self, sort_pending: bool) -> (upd: Option<CameraUpdate>)
        requires
            old(self).wf(),
        ensures
            final(self).wf(),
            final(self).file_path@ == old(self).file_path@,
            final(self).cameras@ == old(self).cameras@,
            (upd is Some) == (old(self).cameras@.len() > 0 && !sort_pending),
            upd is None ==> final(self).current_camera_idx == old(self).current_camera_idx,
            upd matches Some(u) ==> {
                let shown = old(self).cameras@[old(self).current_camera_idx as int];
                &&& is_transform_of(u.transform, shown)
                &&& u.height == shown.height
                &&& u.fy == shown.fy
                &&& final(self).current_camera_idx as nat == next_index(
                    old(self).current_camera_idx as nat,
                    old(self).cameras@.len() as nat,
                )
            },
    {
        if self.cameras.len() == 0 || sort_pending {
            return None;
        }
        let idx = self.current_camera_idx;
        let c = &self.cameras[idx];
        let upd = CameraUpdate { transform: c.get_transform(), height: c.height, fy: c.fy };
        self.current_camera_idx = (idx + 1) % self.cameras.len();
        Some(upd)
    }
}

/// What one scene-population pass decides on entering the running
/// state.
pub struct ScenePlan {
    /// The number of array layers to reinterpret the stacked 2D skybox
    /// image into, when it needs reinterpreting at all.
    pub reinterpret_layers: Option<u32>,
    /// Spawn the free orbit-camera rig rather than the posed-camera
    /// rig.
    pub use_orbit_camera: bool,
}

/// The decisions taken when the scene is first populated. The skybox
/// image is reinterpreted as a stacked array exactly when it still has
/// a single array layer, into one layer per `width`-tall tile; and the
/// free orbit-camera rig is used exactly when no camera list was
/// configured.
pub fn plan_scene_setup(
    skybox_layer_count: u32,
    skybox_width: u32,
    skybox_height: u32,
    camera_count: usize,
) -> (plan: ScenePlan)
    requires
        skybox_width > 0,
    ensures
        plan.reinterpret_layers == if skybox_layer_count == 1 {
            Some(skybox_height / skybox_width)
        } else {
            None::<u32>
        },
        plan.use_orbit_camera == (camera_count == 0),
{
    let reinterpret_layers = if skybox_layer_count == 1 {
        Some(skybox_height / skybox_width)
    } else {
        None
    };
    ScenePlan { reinterpret_layers, use_orbit_camera: camera_count == 0 }
}

} // verus!
