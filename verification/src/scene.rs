//! World setup: the fixed layout of the scene, computed once before the first
//! frame from the scene's bounds.

use vstd::prelude::*;

use crate::geometry::{Size, Vector2};
use crate::motion::{is_first_player, player_count, Body, PLAYER_TAG};

verus! {

/// The width of the scene the game ships with.
pub const SCENE_WIDTH: u16 = 900;

/// The height of the scene the game ships with.
pub const SCENE_HEIGHT: u16 = 600;

/// The thickness of every boundary wall.
pub const WALL_THICKNESS: i32 = 10;

/// The radius of the player's ball.
pub const PLAYER_RADIUS: i32 = 10;

/// The height above the origin at which the player starts.
pub const PLAYER_START_HEIGHT: i32 = 50;

/// The depth at which the player's sprite sits in front of its body.
pub const PLAYER_SPRITE_DEPTH: i32 = 10;

/// The rotation of the ramp, in radians.
pub const RAMP_ROTATION: i32 = 2;

/// Half the length of the ramp.
pub const RAMP_HALF_LENGTH: i32 = 100;

/// Half the thickness of the ramp.
pub const RAMP_HALF_THICKNESS: i32 = 10;

/// The mass given to the ramp on top of what its shape weighs.
pub const RAMP_MASS: i32 = 10;

/// The vertical acceleration of gravity, in units per second squared.
pub const GRAVITY_Y: i32 = -1000;

/// The tag of every body that is not the player.
pub const UNTAGGED: u128 = 0;

/// The extent of the scene, which is also the size of the window.
#[derive(Clone, Copy, Debug, PartialEq, Eq, Structural)]
pub struct Bounds {
    pub width: u16,
    pub height: u16,
}

/// An immovable box: where its centre is, how far it is turned, and how far
/// it reaches from its centre along each of its own axes.
#[derive(Clone, Copy, Debug, PartialEq, Eq, Structural)]
pub struct StaticBox {
    pub position: Vector2,
    /// Rotation in radians.
    pub rotation: i32,
    pub half_extents: Size,
}

/// The ramp: an angled immovable box.
#[derive(Clone, Copy, Debug, PartialEq, Eq, Structural)]
pub struct Ramp {
    pub collider: StaticBox,
    pub additional_mass: i32,
}

/// A boundary wall: an immovable box and the rectangle drawn at its centre.
#[derive(Clone, Copy, Debug, PartialEq, Eq, Structural)]
pub struct Wall {
    pub collider: StaticBox,
    pub sprite: Size,
}

/// The player: a dynamic ball with a sprite in front of it.
#[derive(Clone, Copy, Debug, PartialEq, Eq, Structural)]
pub struct Player {
    pub position: Vector2,
    pub radius: i32,
    pub tag: u128,
    /// The size of the sprite, twice the radius each way.
    pub sprite: Size,
    /// How far in front of the body the sprite is drawn.
    pub sprite_depth: i32,
}

/// Everything world setup creates, as plain values.
#[derive(Clone, Copy, Debug, PartialEq, Eq, Structural)]
pub struct Scene {
    pub bounds: Bounds,
    pub gravity: Vector2,
    pub ramp: Ramp,
    pub player: Player,
    pub left_wall: Wall,
    pub bottom_wall: Wall,
    pub right_wall: Wall,
    pub top_wall: Wall,
}

/// The bounds of the scene the game ships with.
pub open spec fn standard_bounds() -> Bounds {
    Bounds { width: SCENE_WIDTH, height: SCENE_HEIGHT }
}

/// A wall on the left or right edge, centred at `x` on the x axis. Its box
/// is as wide as the wall is thick, so it reaches half the thickness to
/// either side, and it reaches the scene's height up and down; its sprite is
/// as wide as the wall is thick and overshoots the scene's height by the
/// thickness, so that walls overlap at the corners.
pub open spec fn side_wall(bounds: Bounds, x: int) -> Wall {
    Wall {
        collider: StaticBox {
            position: Vector2 { x: x as i32, y: 0 },
            rotation: 0,
            half_extents: Size {
                width: (WALL_THICKNESS / 2) as i32,
                height: bounds.height as i32,
            },
        },
        sprite: Size { width: WALL_THICKNESS, height: (bounds.height + WALL_THICKNESS) as i32 },
    }
}

/// A wall on the bottom or top edge, centred at `y` on the y axis. Its box
/// reaches the scene's width sideways and is as high as the wall is thick,
/// so it reaches half the thickness up and down; its sprite overshoots the
/// scene's width by the thickness and is as high as the wall is thick.
pub open spec fn level_wall(bounds: Bounds, y: int) -> Wall {
    Wall {
        collider: StaticBox {
            position: Vector2 { x: 0, y: y as i32 },
            rotation: 0,
            half_extents: Size {
                width: bounds.width as i32,
                height: (WALL_THICKNESS / 2) as i32,
            },
        },
        sprite: Size { width: (bounds.width + WALL_THICKNESS) as i32, height: WALL_THICKNESS },
    }
}

/// The ramp: at the origin, turned by [`RAMP_ROTATION`].
pub open spec fn ramp() -> Ramp {
    Ramp {
        collider: StaticBox {
            position: Vector2 { x: 0, y: 0 },
            rotation: RAMP_ROTATION,
            half_extents: Size { width: RAMP_HALF_LENGTH, height: RAMP_HALF_THICKNESS },
        },
        additional_mass: RAMP_MASS,
    }
}

/// The player at its starting place, carrying the player tag.
pub open spec fn player() -> Player {
    Player {
        position: Vector2 { x: 0, y: PLAYER_START_HEIGHT },
        radius: PLAYER_RADIUS,
        tag: PLAYER_TAG,
        sprite: Size {
            width: (2 * PLAYER_RADIUS) as i32,
            height: (2 * PLAYER_RADIUS) as i32,
        },
        sprite_depth: PLAYER_SPRITE_DEPTH,
    }
}

/// The scene for the given bounds.
///
/// Gravity points down. The ramp and the player do not depend on the
/// bounds. The four walls are centred on the edges of the scene: half the
/// width left and right of the origin, half the height below and above it,
/// in whole units.
pub open spec fn scene_of(bounds: Bounds) -> Scene {
    Scene {
        bounds,
        gravity: Vector2 { x: 0, y: GRAVITY_Y },
        ramp: ramp(),
        player: player(),
        left_wall: side_wall(bounds, -(bounds.width as int / 2)),
        bottom_wall: level_wall(bounds, -(bounds.height as int / 2)),
        right_wall: side_wall(bounds, bounds.width as int / 2),
        top_wall: level_wall(bounds, bounds.height as int / 2),
    }
}

/// The bodies of a scene as the motion rules see them, all at rest, in the
/// order in which they are created: ramp, player, then the left, bottom,
/// right and top walls.
pub open spec fn bodies_of(scene: Scene) -> Seq<Body> {
    let rest = Vector2 { x: 0, y: 0 };
    seq![
        Body { tag: UNTAGGED, velocity: rest },
        Body { tag: scene.player.tag, velocity: rest },
        Body { tag: UNTAGGED, velocity: rest },
        Body { tag: UNTAGGED, velocity: rest },
        Body { tag: UNTAGGED, velocity: rest },
        Body { tag: UNTAGGED, velocity: rest },
    ]
}

/// Whatever the bounds, the scene holds exactly one player, and it is the
/// second body.
pub proof fn scene_has_one_player(bounds: Bounds)
    ensures
        player_count(bodies_of(scene_of(bounds))) == 1,
        is_first_player(bodies_of(scene_of(bounds)), 1),
{
    let bodies = bodies_of(scene_of(bounds));
    let b5 = bodies.drop_last();
    let b4 = b5.drop_last();
    let b3 = b4.drop_last();
    let b2 = b3.drop_last();
    let b1 = b2.drop_last();
    let b0 = b1.drop_last();
    assert(player_count(b0) == 0);
    assert(player_count(b1) == 0);
    assert(player_count(b2) == 1);
    assert(player_count(b3) == 1);
    assert(player_count(b4) == 1);
    assert(player_count(b5) == 1);
}

/// Whatever the bounds, gravity points straight down with magnitude 1000,
/// the box and the sprite of every wall are as thick as
/// [`WALL_THICKNESS`], which is 10, and opposite walls sit
/// mirrored about the origin on the edges of the scene, half the width or
/// half the height away from it.
pub proof fn walls_sit_on_the_edges(bounds: Bounds)
    ensures
        ({
            let scene = scene_of(bounds);
            &&& scene.gravity.x == 0
            &&& scene.gravity.y == -1000
            &&& scene.left_wall.collider.position.x == -(bounds.width as int / 2)
            &&& scene.left_wall.collider.position.y == 0
            &&& scene.right_wall.collider.position.x == bounds.width as int / 2
            &&& scene.right_wall.collider.position.y == 0
            &&& scene.bottom_wall.collider.position.x == 0
            &&& scene.bottom_wall.collider.position.y == -(bounds.height as int / 2)
            &&& scene.top_wall.collider.position.x == 0
            &&& scene.top_wall.collider.position.y == bounds.height as int / 2
            &&& 2 * scene.left_wall.collider.half_extents.width == WALL_THICKNESS
            &&& 2 * scene.right_wall.collider.half_extents.width == WALL_THICKNESS
            &&& 2 * scene.bottom_wall.collider.half_extents.height == WALL_THICKNESS
            &&& 2 * scene.top_wall.collider.half_extents.height == WALL_THICKNESS
            &&& scene.left_wall.sprite.width == WALL_THICKNESS
            &&& scene.right_wall.sprite.width == WALL_THICKNESS
            &&& scene.bottom_wall.sprite.height == WALL_THICKNESS
            &&& scene.top_wall.sprite.height == WALL_THICKNESS
        }),
        WALL_THICKNESS == 10,
{
}

/// In the scene the game ships with, which is 900 wide and 600 high, the
/// side walls stand 450 units left and right of the origin and the level
/// walls 300 units below and above it.
pub proof fn standard_walls()
    ensures
        ({
            let scene = scene_of(standard_bounds());
            &&& scene.bounds.width == 900
            &&& scene.bounds.height == 600
            &&& scene.left_wall.collider.position.x == -450
            &&& scene.left_wall.collider.position.y == 0
            &&& scene.right_wall.collider.position.x == 450
            &&& scene.right_wall.collider.position.y == 0
            &&& scene.bottom_wall.collider.position.x == 0
            &&& scene.bottom_wall.collider.position.y == -300
            &&& scene.top_wall.collider.position.x == 0
            &&& scene.top_wall.collider.position.y == 300
        }),
{
}

impl Bounds {
    /// The bounds of the scene the game ships with: 900 by 600.
    pub fn standard() -> (bounds: Bounds)
        ensures
            bounds == standard_bounds(),
    {
        Bounds { width: SCENE_WIDTH, height: SCENE_HEIGHT }
    }
}

/// World setup: lays out the scene for the given bounds.
pub fn setup(bounds: Bounds) -> (scene: Scene)
    ensures
        scene == scene_of(bounds),
        scene.gravity.x == 0 && scene.gravity.y == -1000,
        scene.player.tag == PLAYER_TAG,
{
    let width: i32 = bounds.width as i32;
    let height: i32 = bounds.height as i32;
    let half_width: i32 = width / 2;
    let half_height: i32 = height / 2;
    let side = Size { width: WALL_THICKNESS / 2, height };
    let side_sprite = Size { width: WALL_THICKNESS, height: height + WALL_THICKNESS };
    let level = Size { width, height: WALL_THICKNESS / 2 };
    let level_sprite = Size { width: width + WALL_THICKNESS, height: WALL_THICKNESS };
    Scene {
        bounds,
        gravity: Vector2 { x: 0, y: GRAVITY_Y },
        ramp: Ramp {
            collider: StaticBox {
                position: Vector2 { x: 0, y: 0 },
                rotation: RAMP_ROTATION,
                half_extents: Size { width: RAMP_HALF_LENGTH, height: RAMP_HALF_THICKNESS },
            },
            additional_mass: RAMP_MASS,
        },
        player: Player {
            position: Vector2 { x: 0, y: PLAYER_START_HEIGHT },
            radius: PLAYER_RADIUS,
            tag: PLAYER_TAG,
            sprite: Size { width: 2 * PLAYER_RADIUS, height: 2 * PLAYER_RADIUS },
            sprite_depth: PLAYER_SPRITE_DEPTH,
        },
        left_wall: Wall {
            collider: StaticBox {
                position: Vector2 { x: -half_width, y: 0 },
                rotation: 0,
                half_extents: side,
            },
            sprite: side_sprite,
        },
        bottom_wall: Wall {
            collider: StaticBox {
                position: Vector2 { x: 0, y: -half_height },
                rotation: 0,
                half_extents: level,
            },
            sprite: level_sprite,
        },
        right_wall: Wall {
            collider: StaticBox {
                position: Vector2 { x: half_width, y: 0 },
                rotation: 0,
                half_extents: side,
            },
            sprite: side_sprite,
        },
        top_wall: Wall {
            collider: StaticBox {
                position: Vector2 { x: 0, y: half_height },
                rotation: 0,
                half_extents: level,
            },
            sprite: level_sprite,
        },
    }
}

impl Scene {
    /// The bodies of the scene as the motion rules see them, all at rest.
    pub fn bodies(&self) -> (bodies: Vec<Body>)
        ensures
            bodies@ == bodies_of(*self),
    {
        let rest = Vector2 { x: 0, y: 0 };
        let fixed = Body { tag: UNTAGGED, velocity: rest };
        let mut bodies: Vec<Body> = Vec::new();
        bodies.push(fixed);
        bodies.push(Body { tag: self.player.tag, velocity: rest });
        bodies.push(fixed);
        bodies.push(fixed);
        bodies.push(fixed);
        bodies.push(fixed);
        assert(bodies@ =~= bodies_of(*self));
        bodies
    }
}

} // verus!
