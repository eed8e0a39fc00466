//! Plain data types of the document schema: the typed records that a decoded
//! chunk document maps onto. They carry no behaviour of their own; the
//! container decoder and the fixed-length codec do the work.

use crate::uuid::Uuid;
use crate::vec::Vec3I;
use vstd::prelude::*;

verus! {

/// Extra data attached to an item.
#[derive(Debug, Clone, PartialEq, Eq)]
pub struct ItemTag {
    pub damage: Option<i32>,
    pub unbreakable: Option<bool>,
    pub can_destroy: Vec<String>,
    pub custom_model_data: Option<i32>,
}

/// One item stack, optionally bound to a container slot.
#[derive(Debug, Clone, PartialEq, Eq)]
pub struct Item {
    pub count: i8,
    pub slot: Option<i8>,
    pub id: String,
    pub tag: Option<ItemTag>,
}

/// A mob's working memory.
#[derive(Debug, Clone, PartialEq, Eq)]
pub struct Brain {
    pub memories: Option<Memories>,
}

/// A single remembered value.
#[derive(Debug, Clone, PartialEq, Eq)]
pub struct ValueCompound<T> {
    pub value: T,
}

/// A remembered flag with a time to live.
#[derive(Debug, Clone, PartialEq, Eq)]
pub struct TTLCompound<T> {
    pub value: bool,
    pub ttl: T,
}

/// A remembered time to live with no value of its own.
#[derive(Debug, Clone, PartialEq, Eq)]
pub struct EmptyTTLCompound<T> {
    pub ttl: T,
}

/// A memory that carries no payload: its presence is the value.
#[derive(Debug, Clone, PartialEq, Eq)]
pub struct BoolCompound;

/// A remembered location.
#[derive(Debug, Clone, PartialEq, Eq)]
pub struct Home {
    pub value: HomeValue,
}

/// A dimension name and a position within it.
#[derive(Debug, Clone, PartialEq, Eq)]
pub struct HomeValue {
    pub dimension: String,
    pub pos: Vec3I,
}

/// The full set of optional mob memories.
#[derive(Debug, Clone, PartialEq, Eq)]
pub struct Memories {
    pub admiring_disabled: Option<TTLCompound<i64>>,
    pub admiring_item: Option<TTLCompound<i64>>,
    pub angry_at: Option<TTLCompound<i64>>,
    pub dig_cooldown: Option<ValueCompound<i64>>,
    pub gaze_cooldown_ticks: Option<ValueCompound<i32>>,
    pub golem_detected_recently: Option<TTLCompound<i32>>,
    pub has_hunting_cooldown: Option<TTLCompound<i32>>,
    pub home: Option<Home>,
    pub hunted_recently: Option<TTLCompound<i32>>,
    pub is_emerging: Option<BoolCompound>,
    pub is_in_water: Option<BoolCompound>,
    pub is_pregnant: Option<BoolCompound>,
    pub is_sniffing: Option<BoolCompound>,
    pub is_tempted: Option<ValueCompound<bool>>,
    pub item_pickup_cooldown_ticks: Option<ValueCompound<i32>>,
    pub job_site: Option<Home>,
    pub last_slept: Option<i64>,
    pub last_woken: Option<i64>,
    pub last_worked_at_poi: Option<i64>,
    pub liked_noteblock: Option<Home>,
    pub liked_noteblock_cooldown_ticks: Option<ValueCompound<i32>>,
    pub liked_player: Option<ValueCompound<Uuid>>,
    pub long_jump_cooling_down: Option<ValueCompound<i32>>,
    pub meeting_point: Option<Home>,
    pub play_dead_ticks: Option<ValueCompound<i32>>,
    pub potential_job_site: Option<Home>,
    pub ram_cooldown_ticks: Option<ValueCompound<i32>>,
    pub recent_projectiles: Option<EmptyTTLCompound<i64>>,
    pub roar_sound_cooldown: Option<EmptyTTLCompound<i64>>,
    pub roar_sound_delay: Option<EmptyTTLCompound<i64>>,
    pub sniff_cooldown: Option<EmptyTTLCompound<i64>>,
    pub sniffer_explored_positions: Option<Vec3I>,
    pub temptation_cooldown_ticks: Option<i32>,
    pub touch_cooldown: Option<EmptyTTLCompound<i64>>,
    pub universal_anger: Option<TTLCompound<i64>>,
    pub vibration_cooldown: Option<EmptyTTLCompound<i64>>,
}

/// An item held in a hand slot.
#[derive(Debug, Clone, PartialEq, Eq)]
pub struct HandItem;

/// A potion effect hidden behind a stronger one of the same kind.
#[derive(Debug, Clone, PartialEq, Eq)]
pub struct HiddenEffect;

/// One active potion effect.
#[derive(Debug, Clone, PartialEq, Eq)]
pub struct PotionEffect {
    pub ambient: bool,
    pub amplifier: i8,
    pub duration: i32,
    pub hidden_effect: Option<HiddenEffect>,
    pub id: i32,
    pub show_icon: bool,
    pub show_particles: bool,
}

/// What a mob is leashed to: another entity, or a fixed position.
#[derive(Debug, Clone, PartialEq, Eq)]
pub struct Leash {
    pub uuid: Option<Uuid>,
    pub x: Option<i32>,
    pub y: Option<i32>,
    pub z: Option<i32>,
}

/// Fields of a mob that can be angered at a target.
#[derive(Debug, Clone, PartialEq, Eq)]
pub struct AngryEntityTags {
    pub anger_time: i32,
    pub angry_at: Uuid,
}

/// Fields of a mob that can breed.
#[derive(Debug, Clone, PartialEq, Eq)]
pub struct CanBreedTags {
    pub age: i32,
    pub forced_age: i32,
    pub in_love: i32,
    pub love_cause: Uuid,
}

/// Fields of a mob that can be tamed.
#[derive(Debug, Clone, PartialEq, Eq)]
pub struct CanBeTamedTags {
    pub owner: Uuid,
    pub sitting: bool,
}

/// Fields of a horse-like mob.
#[derive(Debug, Clone, PartialEq, Eq)]
pub struct HorseTags {
    pub bred: bool,
    pub eating_hatstack: bool,
    pub owner: Uuid,
    pub saddle_item: Option<Item>,
    pub tame: bool,
    pub temper: i32,
}

/// Fields of a zombie-like mob.
#[derive(Debug, Clone, PartialEq, Eq)]
pub struct ZombieTags {
    pub can_break_doors: bool,
    pub drowned_conversion_time: i32,
    pub in_water_time: i32,
    pub is_baby: bool,
}

/// Fields of a mob that can take part in a raid.
#[derive(Debug, Clone, PartialEq, Eq)]
pub struct CanBeInRaidTags {
    pub can_join_raid: bool,
    pub patrol_leader: bool,
    pub patrolling: bool,
    pub patrol_target: Vec3I,
    pub raid_id: i32,
    pub wave: i32,
}

/// One gossip entry a villager holds about a target.
#[derive(Debug, Clone, PartialEq, Eq)]
pub struct Gossip {
    pub value: i32,
    pub target: Uuid,
    pub typ: String,
}

/// A villager's trading level.
#[derive(Debug, Clone, Copy, PartialEq, Eq)]
pub enum VillagerLevel {
    Novice,
    Apprentice,
    Journeyman,
    Expert,
    Master,
}

/// A villager's profession, level and kind.
#[derive(Debug, Clone, PartialEq, Eq)]
pub struct VillagerData {
    pub level: VillagerLevel,
    pub profession: String,
    pub typ: String,
}

/// Fields of a projectile.
#[derive(Debug, Clone, PartialEq, Eq)]
pub struct ProjectileTags {
    pub has_been_shot: bool,
    pub left_owner: Option<bool>,
    pub owner: Uuid,
}

/// Fields of a boat.
#[derive(Debug, Clone, PartialEq, Eq)]
pub struct BoatTags {
    pub typ: String,
}

/// Fields of an entity that carries a container.
#[derive(Debug, Clone, PartialEq, Eq)]
pub struct ContainerEntityTags {
    pub items: Vec<Item>,
    pub loot_table: Option<String>,
    pub loot_table_seed: Option<i64>,
}

/// Fields of a minecart.
#[derive(Debug, Clone, PartialEq, Eq)]
pub struct MinecartTags {
    pub custom_display_tile: Option<bool>,
    pub display_offset: Option<i32>,
}

/// One weighted spawn candidate of a spawner.
#[derive(Debug, Clone, PartialEq, Eq)]
pub struct SpawnPotential<T> {
    pub weight: i32,
    pub data: SpawnPotentialData<T>,
}

/// The entity a spawn candidate produces, and its spawn rules.
#[derive(Debug, Clone, PartialEq, Eq)]
pub struct SpawnPotentialData<T> {
    pub entity: T,
    pub custom_spawn_rules: CustomSpawnRules,
}

/// Light-level limits under which a spawner may fire.
#[derive(Debug, Clone, PartialEq, Eq)]
pub struct CustomSpawnRules {
    pub block_light_limit: i32,
    pub sky_light_limit: i32,
}

/// Fields of a monster spawner block entity.
#[derive(Debug, Clone, PartialEq, Eq)]
pub struct SpawnerTags<T> {
    pub delay: i16,
    pub max_nearby_entities: i16,
    pub max_spawn_delay: i16,
    pub min_spaw_delay: i16,
    pub required_player_percentage: i16,
    pub spawn_count: i16,
    pub spawn_data: T,
    pub spawn_potentials: Option<Vec<SpawnPotential<T>>>,
    pub spawn_range: i16,
}

/// Fields of an entity hung on a wall block.
#[derive(Debug, Clone, PartialEq, Eq)]
pub struct HangableTags {
    pub facing: i8,
    pub tile_x: i32,
    pub tile_y: i32,
    pub tile_z: i32,
}

/// One block entity: a block with data beyond its state, at a position.
#[derive(Debug, Clone, PartialEq, Eq)]
pub struct BlockEntity {
    pub id: String,
    pub keep_packed: Option<bool>,
    pub x: i32,
    pub y: i32,
    pub z: i32,
}

} // verus!
