//! The scene and the per-tick driver: the one tracked rectangle (the
//! enemy), the containers for windows, cameras and enemies, and the rule
//! applied once per simulation tick when the primary mouse button is held.

use crate::camera::{spec_in_viewport, world_x, world_y, CameraModel};
use crate::geometry::{Vec2i, COORD_BOUND};
use crate::hit;
use crate::window::WindowState;
use vstd::prelude::*;

verus! {

/// Side of the square enemy sprite, in world units, when the scene is
/// created; the half-extent of its bounding box is half of this.
pub const DEFAULT_ENEMY_SCALE: i64 = 100;

/// Viewport size, in logical pixels, of the window and camera the scene
/// is created with.
pub const DEFAULT_VIEWPORT_WIDTH: i64 = 1280;

/// See `DEFAULT_VIEWPORT_WIDTH`.
pub const DEFAULT_VIEWPORT_HEIGHT: i64 = 720;

/// Logical cursor position the scene starts with: a little up and to the
/// right of the viewport's center, so that it maps to a world point just
/// inside the enemy's bounding box.
pub const DEFAULT_CURSOR_X: i64 = 650;

/// See `DEFAULT_CURSOR_X`.
pub const DEFAULT_CURSOR_Y: i64 = 350;

/// The one tracked rectangle: an axis-aligned bounding box given by its
/// center in world space and its scale (side lengths; the half-extents
/// are half of these).
#[derive(Clone, Copy, PartialEq, Eq, Structural, Debug)]
pub struct Enemy {
    pub position: Vec2i,
    pub scale: Vec2i,
}

impl Enemy {
    /// Bounded center and non-negative, bounded side lengths.
    pub open spec fn wf(self) -> bool {
        &&& self.position.in_bounds()
        &&& 0 <= self.scale.x <= COORD_BOUND
        &&& 0 <= self.scale.y <= COORD_BOUND
    }

    /// Runtime check of `wf`.
    pub fn is_wf(&self) -> (r: bool)
        ensures
            r == self.wf(),
    {
        self.position.is_in_bounds() && 0 <= self.scale.x && self.scale.x <= COORD_BOUND
            && 0 <= self.scale.y && self.scale.y <= COORD_BOUND
    }

    /// Half-extent of the bounding box on the x axis.
    pub open spec fn half_x(self) -> int {
        self.scale.x as int / 2
    }

    /// Half-extent of the bounding box on the y axis.
    pub open spec fn half_y(self) -> int {
        self.scale.y as int / 2
    }

    /// The bounding box's half-extents, derived from the scale.
    pub fn half_extent(&self) -> (r: Vec2i)
        requires
            self.scale.x >= 0,
            self.scale.y >= 0,
        ensures
            r.x == self.half_x(),
            r.y == self.half_y(),
    {
        Vec2i { x: self.scale.x / 2, y: self.scale.y / 2 }
    }
}

/// A cardinality the scene is not designed to run with: the per-tick
/// driver demands exactly one window, one camera and one enemy, and
/// reports the violation rather than guessing at an instance.
#[derive(Clone, Copy, PartialEq, Eq, Structural, Debug)]
pub enum SceneError {
    NoWindow,
    MultipleWindows,
    NoCamera,
    MultipleCameras,
    NoEnemy,
    MultipleEnemies,
}

/// The whole simulation state: the windows, cameras and enemies that
/// exist. A well-formed running scene holds exactly one of each; the
/// containers exist so that a violation of that invariant is a value the
/// driver can detect and report.
pub struct Scene {
    pub windows: Vec<WindowState>,
    pub cameras: Vec<CameraModel>,
    pub enemies: Vec<Enemy>,
}

impl Scene {
    /// Every instance in the scene is within the coordinate bounds.
    pub open spec fn wf(self) -> bool {
        &&& forall|i: int| 0 <= i < self.windows@.len() ==> self.windows@[i].wf()
        &&& forall|i: int| 0 <= i < self.cameras@.len() ==> self.cameras@[i].wf()
        &&& forall|i: int| 0 <= i < self.enemies@.len() ==> self.enemies@[i].wf()
    }

    /// A scene with nothing in it.
    pub fn new() -> (s: Scene)
        ensures
            s.windows@ =~= Seq::<WindowState>::empty(),
            s.cameras@ =~= Seq::<CameraModel>::empty(),
            s.enemies@ =~= Seq::<Enemy>::empty(),
            s.wf(),
    {
        Scene { windows: Vec::new(), cameras: Vec::new(), enemies: Vec::new() }
    }

    /// Runtime check of `wf`.
    pub fn is_wf(&self) -> (r: bool)
        ensures
            r == self.wf(),
    {
        let mut i: usize = 0;
        while i < self.windows.len()
            invariant
                i <= self.windows@.len(),
                forall|j: int| 0 <= j < i ==> self.windows@[j].wf(),
            decreases self.windows@.len() - i,
        {
            if !self.windows[i].is_wf() {
                return false;
            }
            i += 1;
        }
        let mut i: usize = 0;
        while i < self.cameras.len()
            invariant
                i <= self.cameras@.len(),
                forall|j: int| 0 <= j < i ==> self.cameras@[j].wf(),
            decreases self.cameras@.len() - i,
        {
            if !self.cameras[i].is_wf() {
                return false;
            }
            i += 1;
        }
        let mut i: usize = 0;
        while i < self.enemies.len()
            invariant
                i <= self.enemies@.len(),
                forall|j: int| 0 <= j < i ==> self.enemies@[j].wf(),
            decreases self.enemies@.len() - i,
        {
            if !self.enemies[i].is_wf() {
                return false;
            }
            i += 1;
        }
        true
    }
}

/// The window the scene is created with: cursor present, at
/// `(DEFAULT_CURSOR_X, DEFAULT_CURSOR_Y)` logical pixels.
pub open spec fn default_window() -> WindowState {
    WindowState { cursor: Some(Vec2i { x: DEFAULT_CURSOR_X, y: DEFAULT_CURSOR_Y }) }
}

/// The camera the scene is created with: looking at the origin, one world
/// unit per logical pixel, a `DEFAULT_VIEWPORT_WIDTH` by
/// `DEFAULT_VIEWPORT_HEIGHT` viewport.
pub open spec fn default_camera() -> CameraModel {
    CameraModel {
        position: Vec2i { x: 0, y: 0 },
        viewport_width: DEFAULT_VIEWPORT_WIDTH,
        viewport_height: DEFAULT_VIEWPORT_HEIGHT,
        scale: 1,
    }
}

/// The enemy the scene is created with: at the origin, with a square
/// `DEFAULT_ENEMY_SCALE`-sided bounding box.
pub open spec fn default_enemy() -> Enemy {
    Enemy {
        position: Vec2i { x: 0, y: 0 },
        scale: Vec2i { x: DEFAULT_ENEMY_SCALE, y: DEFAULT_ENEMY_SCALE },
    }
}

/// Add the default camera to the scene.
pub fn add_camera(scene: &mut Scene)
    ensures
        final(scene).cameras@ =~= old(scene).cameras@.push(default_camera()),
        final(scene).windows@ == old(scene).windows@,
        final(scene).enemies@ == old(scene).enemies@,
{
    scene.cameras.push(
        CameraModel {
            position: Vec2i { x: 0, y: 0 },
            viewport_width: DEFAULT_VIEWPORT_WIDTH,
            viewport_height: DEFAULT_VIEWPORT_HEIGHT,
            scale: 1,
        },
    );
}

/// Add the default enemy to the scene.
pub fn add_enemy(scene: &mut Scene)
    ensures
        final(scene).enemies@ =~= old(scene).enemies@.push(default_enemy()),
        final(scene).windows@ == old(scene).windows@,
        final(scene).cameras@ == old(scene).cameras@,
{
    scene.enemies.push(
        Enemy {
            position: Vec2i { x: 0, y: 0 },
            scale: Vec2i { x: DEFAULT_ENEMY_SCALE, y: DEFAULT_ENEMY_SCALE },
        },
    );
}

/// Create the whole scene: one window with the cursor present, one
/// default camera, one enemy at the origin.
pub fn create_app() -> (s: Scene)
    ensures
        s.windows@ =~= seq![default_window()],
        s.cameras@ =~= seq![default_camera()],
        s.enemies@ =~= seq![default_enemy()],
        s.wf(),
{
    let mut s = Scene::new();
    s.windows.push(
        WindowState { cursor: Some(Vec2i { x: DEFAULT_CURSOR_X, y: DEFAULT_CURSOR_Y }) },
    );
    add_camera(&mut s);
    add_enemy(&mut s);
    s
}

/// How many enemies exist in the scene.
pub fn count_n_enemies(scene: &Scene) -> (n: usize)
    ensures
        n == scene.enemies@.len(),
{
    scene.enemies.len()
}

/// The position of the one enemy.
pub fn get_enemy_position(scene: &Scene) -> (r: Vec2i)
    requires
        scene.enemies@.len() == 1,
    ensures
        r == scene.enemies@[0].position,
{
    scene.enemies[0].position
}

/// The scale of the one enemy.
pub fn get_enemy_scale(scene: &Scene) -> (r: Vec2i)
    requires
        scene.enemies@.len() == 1,
    ensures
        r == scene.enemies@[0].scale,
{
    scene.enemies[0].scale
}

/// The cardinality violation a tick with the button held would report,
/// if any, after the guards that short-circuit earlier: an absent cursor
/// or a degenerate camera ends the tick quietly before the later
/// cardinality checks are reached.
pub open spec fn tick_error(s: Scene, left_pressed: bool) -> Option<SceneError> {
    if !left_pressed {
        None
    } else if s.windows@.len() == 0 {
        Some(SceneError::NoWindow)
    } else if s.windows@.len() > 1 {
        Some(SceneError::MultipleWindows)
    } else if s.windows@[0].cursor is None {
        None
    } else if s.cameras@.len() == 0 {
        Some(SceneError::NoCamera)
    } else if s.cameras@.len() > 1 {
        Some(SceneError::MultipleCameras)
    } else if !spec_in_viewport(s.cameras@[0]) {
        None
    } else if s.enemies@.len() == 0 {
        Some(SceneError::NoEnemy)
    } else if s.enemies@.len() > 1 {
        Some(SceneError::MultipleEnemies)
    } else {
        None
    }
}

/// Does the tick displace the enemy? Exactly when the button is held,
/// the cardinalities are right, the cursor is present, the camera can
/// resolve it, and the resulting world point is strictly inside the
/// enemy's bounding box.
pub open spec fn tick_hits(s: Scene, left_pressed: bool) -> bool {
    &&& left_pressed
    &&& s.windows@.len() == 1
    &&& s.windows@[0].cursor is Some
    &&& s.cameras@.len() == 1
    &&& spec_in_viewport(s.cameras@[0])
    &&& s.enemies@.len() == 1
    &&& {
        let e = s.enemies@[0];
        let cursor = s.windows@[0].cursor.unwrap();
        &&& hit::strictly_within(
            e.position.x as int,
            e.half_x(),
            world_x(s.cameras@[0], cursor),
        )
        &&& hit::strictly_within(
            e.position.y as int,
            e.half_y(),
            world_y(s.cameras@[0], cursor),
        )
    }
}

/// One simulation tick. If the primary button is held and the cursor's
/// world point lies strictly inside the enemy's bounding box, the enemy's
/// center jumps directly away from that point; a scene that does not hold
/// exactly one window, one camera and one enemy when those are consulted
/// is reported as the matching `SceneError`, and every other guard
/// failure (button up, cursor absent, degenerate camera, no overlap) is
/// a quiet no-op. A cursor the camera cannot resolve even though it is
/// inside the window is deliberately treated as such a quiet no-op
/// rather than a fault.
pub fn respond_to_mouse_button_press(
    scene: &mut Scene,
    left_pressed: bool,
) -> (r: Result<(), SceneError>)
    requires
        old(scene).wf(),
    ensures
        final(scene).windows@ == old(scene).windows@,
        final(scene).cameras@ == old(scene).cameras@,
        match r {
            Ok(_) => tick_error(*old(scene), left_pressed) is None,
            Err(e) => tick_error(*old(scene), left_pressed) == Some(e),
        },
        !tick_hits(*old(scene), left_pressed) ==> final(scene).enemies@ == old(scene).enemies@,
        tick_hits(*old(scene), left_pressed) ==> ({
            let e = old(scene).enemies@[0];
            let cursor = old(scene).windows@[0].cursor.unwrap();
            let cam = old(scene).cameras@[0];
            &&& final(scene).enemies@.len() == 1
            &&& final(scene).enemies@[0].scale == e.scale
            &&& final(scene).enemies@[0].position.x == hit::mirror(
                e.position.x as int,
                world_x(cam, cursor),
            )
            &&& final(scene).enemies@[0].position.y == hit::mirror(
                e.position.y as int,
                world_y(cam, cursor),
            )
        }),
{
    if !left_pressed {
        return Ok(());
    }
    if scene.windows.len() == 0 {
        return Err(SceneError::NoWindow);
    }
    if scene.windows.len() > 1 {
        return Err(SceneError::MultipleWindows);
    }
    let window = scene.windows[0];
    let cursor_pos = match window.cursor {
        None => {
            return Ok(());
        },
        Some(c) => c,
    };
    if scene.cameras.len() == 0 {
        return Err(SceneError::NoCamera);
    }
    if scene.cameras.len() > 1 {
        return Err(SceneError::MultipleCameras);
    }
    let camera = scene.cameras[0];
    if !crate::camera::is_cursor_pos_in_viewport(&camera, cursor_pos) {
        return Ok(());
    }
    let world_position = crate::camera::get_world_position(&camera, cursor_pos);
    if scene.enemies.len() == 0 {
        return Err(SceneError::NoEnemy);
    }
    if scene.enemies.len() > 1 {
        return Err(SceneError::MultipleEnemies);
    }
    let enemy = scene.enemies[0];
    let half = enemy.half_extent();
    if hit::contains(enemy.position, half, world_position) {
        let new_center = hit::respond(enemy.position, world_position);
        scene.enemies.set(0, Enemy { position: new_center, scale: enemy.scale });
    }
    Ok(())
}

/// A tick in which the primary button is not pressed is a no-op: no
/// cardinality violation is reported and no displacement happens,
/// whatever the window, camera and cursor state; with the tick's
/// contract, the scene is left unchanged.
pub proof fn lemma_unpressed_tick_is_noop(s: Scene)
    ensures
        tick_error(s, false) is None,
        !tick_hits(s, false),
{
}

} // verus!
