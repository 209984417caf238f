//! The engine node type a generated class inherits from: a closed set of node
//! names, with `Node` as the fallback for any unrecognized identifier.

use crate::strings::{ascii_lowercase, lower_chars, str_eq};
use vstd::prelude::*;

verus! {

/// An engine node type.
#[derive(Clone, Copy, Debug, PartialEq, Eq, Structural)]
pub enum NodeType {
    Node,
    Node2D,
    AnimatedSprite,
    AnimationPlayer,
    Area2D,
    AudioStreamPlayer2D,
    Camera2D,
    CanvasLayer,
    CollisionPolygon2D,
    CollisionShape2D,
    KinematicBody2D,
    Navigation,
    ParallaxBackground,
    Particles,
    Path2D,
    PathFollow2D,
    RigidBody2D,
    Sprite,
    StaticBody2D,
    TileMap,
    Timer,
    Tween,
    YSort,
}

impl NodeType {
    /// The node type an identifier resolves to, compared without regard to
    /// letter case; any unrecognized identifier resolves to `Node`.
    pub open spec fn parse_spec(s: Seq<char>) -> NodeType {
        let l = lower_chars(s);
        if l == "node"@ {
            NodeType::Node
        } else if l == "node2d"@ {
            NodeType::Node2D
        } else if l == "animatedsprite"@ {
            NodeType::AnimatedSprite
        } else if l == "animationplayer"@ {
            NodeType::AnimationPlayer
        } else if l == "area2d"@ {
            NodeType::Area2D
        } else if l == "audiostreamplayer2d"@ {
            NodeType::AudioStreamPlayer2D
        } else if l == "camera2d"@ {
            NodeType::Camera2D
        } else if l == "canvaslayer"@ {
            NodeType::CanvasLayer
        } else if l == "collisionpolygon2d"@ {
            NodeType::CollisionPolygon2D
        } else if l == "collisionshape2d"@ {
            NodeType::CollisionShape2D
        } else if l == "kinematicbody2d"@ {
            NodeType::KinematicBody2D
        } else if l == "navigation"@ {
            NodeType::Navigation
        } else if l == "parallaxbackground"@ {
            NodeType::ParallaxBackground
        } else if l == "particles"@ {
            NodeType::Particles
        } else if l == "path2d"@ {
            NodeType::Path2D
        } else if l == "pathfollow2d"@ {
            NodeType::PathFollow2D
        } else if l == "rigidbody2d"@ {
            NodeType::RigidBody2D
        } else if l == "sprite"@ {
            NodeType::Sprite
        } else if l == "staticbody2d"@ {
            NodeType::StaticBody2D
        } else if l == "tilemap"@ {
            NodeType::TileMap
        } else if l == "timer"@ {
            NodeType::Timer
        } else if l == "tween"@ {
            NodeType::Tween
        } else if l == "ysort"@ {
            NodeType::YSort
        } else {
            NodeType::Node
        }
    }

    /// Resolves a node-type identifier; never fails.
    pub fn from_str(s: &str) -> (r: NodeType)
        ensures
            r == NodeType::parse_spec(s@),
    {
        let lowered = ascii_lowercase(s);
        let l = lowered.as_str();
        if str_eq(l, "node") {
            NodeType::Node
        } else if str_eq(l, "node2d") {
            NodeType::Node2D
        } else if str_eq(l, "animatedsprite") {
            NodeType::AnimatedSprite
        } else if str_eq(l, "animationplayer") {
            NodeType::AnimationPlayer
        } else if str_eq(l, "area2d") {
            NodeType::Area2D
        } else if str_eq(l, "audiostreamplayer2d") {
            NodeType::AudioStreamPlayer2D
        } else if str_eq(l, "camera2d") {
            NodeType::Camera2D
        } else if str_eq(l, "canvaslayer") {
            NodeType::CanvasLayer
        } else if str_eq(l, "collisionpolygon2d") {
            NodeType::CollisionPolygon2D
        } else if str_eq(l, "collisionshape2d") {
            NodeType::CollisionShape2D
        } else if str_eq(l, "kinematicbody2d") {
            NodeType::KinematicBody2D
        } else if str_eq(l, "navigation") {
            NodeType::Navigation
        } else if str_eq(l, "parallaxbackground") {
            NodeType::ParallaxBackground
        } else if str_eq(l, "particles") {
            NodeType::Particles
        } else if str_eq(l, "path2d") {
            NodeType::Path2D
        } else if str_eq(l, "pathfollow2d") {
            NodeType::PathFollow2D
        } else if str_eq(l, "rigidbody2d") {
            NodeType::RigidBody2D
        } else if str_eq(l, "sprite") {
            NodeType::Sprite
        } else if str_eq(l, "staticbody2d") {
            NodeType::StaticBody2D
        } else if str_eq(l, "tilemap") {
            NodeType::TileMap
        } else if str_eq(l, "timer") {
            NodeType::Timer
        } else if str_eq(l, "tween") {
            NodeType::Tween
        } else if str_eq(l, "ysort") {
            NodeType::YSort
        } else {
            NodeType::Node
        }
    }

    /// The node type's canonical name, as the engine spells it.
    pub open spec fn display_name_spec(&self) -> Seq<char> {
        match self {
            NodeType::Node => "Node"@,
            NodeType::Node2D => "Node2D"@,
            NodeType::AnimatedSprite => "AnimatedSprite"@,
            NodeType::AnimationPlayer => "AnimationPlayer"@,
            NodeType::Area2D => "Area2D"@,
            NodeType::AudioStreamPlayer2D => "AudioStreamPlayer2D"@,
            NodeType::Camera2D => "Camera2D"@,
            NodeType::CanvasLayer => "CanvasLayer"@,
            NodeType::CollisionPolygon2D => "CollisionPolygon2D"@,
            NodeType::CollisionShape2D => "CollisionShape2D"@,
            NodeType::KinematicBody2D => "KinematicBody2D"@,
            NodeType::Navigation => "Navigation"@,
            NodeType::ParallaxBackground => "ParallaxBackground"@,
            NodeType::Particles => "Particles"@,
            NodeType::Path2D => "Path2D"@,
            NodeType::PathFollow2D => "PathFollow2D"@,
            NodeType::RigidBody2D => "RigidBody2D"@,
            NodeType::Sprite => "Sprite"@,
            NodeType::StaticBody2D => "StaticBody2D"@,
            NodeType::TileMap => "TileMap"@,
            NodeType::Timer => "Timer"@,
            NodeType::Tween => "Tween"@,
            NodeType::YSort => "YSort"@,
        }
    }

    /// The node type's canonical name, as the engine spells it.
    pub fn display_name(&self) -> (r: String)
        ensures
            r@ == self.display_name_spec(),
    {
        match self {
            NodeType::Node => "Node".to_owned(),
            NodeType::Node2D => "Node2D".to_owned(),
            NodeType::AnimatedSprite => "AnimatedSprite".to_owned(),
            NodeType::AnimationPlayer => "AnimationPlayer".to_owned(),
            NodeType::Area2D => "Area2D".to_owned(),
            NodeType::AudioStreamPlayer2D => "AudioStreamPlayer2D".to_owned(),
            NodeType::Camera2D => "Camera2D".to_owned(),
            NodeType::CanvasLayer => "CanvasLayer".to_owned(),
            NodeType::CollisionPolygon2D => "CollisionPolygon2D".to_owned(),
            NodeType::CollisionShape2D => "CollisionShape2D".to_owned(),
            NodeType::KinematicBody2D => "KinematicBody2D".to_owned(),
            NodeType::Navigation => "Navigation".to_owned(),
            NodeType::ParallaxBackground => "ParallaxBackground".to_owned(),
            NodeType::Particles => "Particles".to_owned(),
            NodeType::Path2D => "Path2D".to_owned(),
            NodeType::PathFollow2D => "PathFollow2D".to_owned(),
            NodeType::RigidBody2D => "RigidBody2D".to_owned(),
            NodeType::Sprite => "Sprite".to_owned(),
            NodeType::StaticBody2D => "StaticBody2D".to_owned(),
            NodeType::TileMap => "TileMap".to_owned(),
            NodeType::Timer => "Timer".to_owned(),
            NodeType::Tween => "Tween".to_owned(),
            NodeType::YSort => "YSort".to_owned(),
        }
    }
}

impl Default for NodeType {
    /// The fallback node type is `Node`.
    fn default() -> (r: Self)
        ensures
            r == NodeType::Node,
    {
        NodeType::Node
    }
}

} // verus!
