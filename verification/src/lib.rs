//! A verified core for a small 2D sprite simulation.
//!
//! The crate manages a collection of moving visual entities ("sprites"): it
//! advances each of them once per discrete simulation tick, applies a boundary
//! policy (stop, wrap, bounce or die), resolves pairwise overlap with an
//! optional position rollback, and retires or spawns entities between ticks.
//! Rendering, audio and window plumbing are consumed through capability
//! traits implemented by the host; the simulation itself owns no platform
//! code.
//!
//! All coordinates are integers. Every public operation carries a contract
//! that pins its result down against a mathematical model of the sprite
//! state, and the ordering, rollback and lifecycle laws of the engine are
//! proved as lemmas next to the functions they govern.

mod animation;
mod engine;
mod geom;
mod graphics;
mod image;
mod random;
mod sprite;
mod support;
mod timer;

pub use animation::Animation;
pub use animation::AnimationModel;
pub use animation::spec_anim_draw_index;
pub use animation::spec_anim_frame_height;
pub use animation::spec_anim_frame_width;
pub use animation::spec_anim_is_end;
pub use animation::spec_anim_jump;
pub use animation::spec_anim_update;

pub use engine::GameEngine;
pub use engine::GameHost;
pub use engine::lemma_add_sprite_ordering;
pub use engine::lemma_die_exit_removed;
pub use engine::lemma_find_id_in_range;
pub use engine::lemma_insert_index_bounds;
pub use engine::lemma_insert_index_unique;
pub use engine::lemma_kill_by_id_idempotent;
pub use engine::lemma_prefix_props;
pub use engine::lemma_remove_ids_absent;
pub use engine::lemma_rollback_keeps_velocity;
pub use engine::lemma_sprite_update_fields;
pub use engine::models;
pub use engine::no_ext;
pub use engine::spec_find_id;
pub use engine::spec_first_hit;
pub use engine::spec_first_hit_from;
pub use engine::spec_insert_index;
pub use engine::spec_kill_by_id;
pub use engine::spec_pass_prefix;
pub use engine::spec_pass_step;
pub use engine::spec_point_hit;
pub use engine::spec_point_hit_from;
pub use engine::spec_remove_ids;
pub use engine::spec_sorted_by_z;
pub use engine::spec_update_pass;

pub use geom::CLOCK_LIMIT;
pub use geom::COORD_LIMIT;
pub use geom::Point;
pub use geom::PointModel;
pub use geom::Rect;
pub use geom::RectModel;
pub use geom::Region;
pub use geom::rect_at;
pub use geom::rect_contains_point;
pub use geom::rect_height;
pub use geom::rect_moved_to;
pub use geom::rect_width;
pub use geom::rects_overlap;

pub use graphics::AssetsType;
pub use graphics::Graphics;
pub use graphics::SubImage;
pub use graphics::Window;

pub use image::Image;
pub use image::ImageModel;

pub use random::rand_int;

pub use sprite::BoundsAction;
pub use sprite::Resource;
pub use sprite::ResourceModel;
pub use sprite::Sprite;
pub use sprite::SpriteAction;
pub use sprite::SpriteExt;
pub use sprite::SpriteModel;
pub use sprite::lemma_bounce_policy;
pub use sprite::lemma_die_policy;
pub use sprite::lemma_dying_killed_unchanged;
pub use sprite::lemma_stop_policy;
pub use sprite::lemma_wrap_policy;
pub use sprite::spec_bounce_coord;
pub use sprite::spec_collision_region;
pub use sprite::spec_die_exited;
pub use sprite::spec_in_playfield;
pub use sprite::spec_resource_height;
pub use sprite::spec_resource_tick;
pub use sprite::spec_resource_tick_ended;
pub use sprite::spec_resource_width;
pub use sprite::spec_sprite_drawable;
pub use sprite::spec_sprite_update;
pub use sprite::spec_stop_coord;
pub use sprite::spec_tick_resource;
pub use sprite::spec_valid_position;
pub use sprite::spec_valid_velocity;
pub use sprite::spec_wrap_coord;

pub use support::AudioType;
pub use support::ScrollDir;
pub use support::Size;
pub use support::spec_audio_type;
pub use support::spec_ends_with;
pub use support::spec_lower_byte;
pub use support::spec_lower_bytes;

pub use timer::AnimationTimer;
pub use timer::TimerModel;
pub use timer::spec_timer_ready;
pub use timer::spec_timer_tick;
