//! The event stream's sum type and the two accessors the pipeline needs.
//!
//! The remote reports a tagged union of event kinds. The trajectory pipeline
//! only reads each event's timestamp and, where present, the position
//! resources of its source and target actors; both accessors match
//! exhaustively, so adding a variant without extending them fails to compile.
//! Decoding the wire representation is owned by the caller.

use vstd::prelude::*;

verus! {

/// Character statistics reported by a combatant-info event.
#[derive(Clone, PartialEq, Eq, Structural, Debug)]
pub struct CombatantStats {
    pub attack: i64,
    pub attack_magic_potency: i64,
    pub critical_hit: i64,
    pub determination: i64,
    pub dexterity: i64,
    pub direct_hit: i64,
    pub heal_magic_potency: i64,
    pub intelligence: i64,
    pub level: i64,
    pub mind: i64,
    pub piety: i64,
    pub skill_speed: i64,
    pub spell_speed: i64,
    pub strength: i64,
    pub tenacity: i64,
    pub vitality: i64,
}

/// An actor's resources at the moment of an event, including its position.
#[derive(Clone, PartialEq, Eq, Structural, Debug)]
pub struct Resources {
    pub absorb: Option<i64>,
    /// Facing in milliradian-of-pi units: divide by 1000 and multiply by pi
    /// for radians.
    pub facing: i64,
    pub hit_points: i64,
    pub max_hit_points: i64,
    pub mp: i64,
    pub x: i64,
    pub y: i64,
}

/// One aura active on a combatant.
#[derive(Clone, PartialEq, Eq, Debug)]
pub struct Aura {
    pub ability: i64,
    pub name: String,
    pub source: i64,
    pub stacks: i64,
}

/// The actor an event originates from.
#[derive(Clone, Copy, PartialEq, Eq, Structural, Debug)]
pub struct SourceInfo {
    pub id: i64,
    pub marker: Option<i64>,
    pub instance: Option<i64>,
}

/// The actor an event is directed at.
#[derive(Clone, Copy, PartialEq, Eq, Structural, Debug)]
pub struct TargetInfo {
    pub id: i64,
    pub marker: Option<i64>,
    pub instance: Option<i64>,
}

/// One event of the report's stream, one variant per event kind.
#[derive(Clone, PartialEq, Eq, Debug)]
pub enum Event {
    Absorbed {
        ability_game_id: i64,
        extra_ability_game_id: Option<i64>,
        amount: i64,
        attacker_id: i64,
        source: SourceInfo,
        target: TargetInfo,
        target_resources: Option<Resources>,
        timestamp: i64,
    },
    ApplyBuff {
        ability_game_id: i64,
        extra_ability_game_id: Option<i64>,
        duration: i64,
        source: SourceInfo,
        target: TargetInfo,
        timestamp: i64,
    },
    ApplyBuffStack {
        ability_game_id: i64,
        source: SourceInfo,
        target: TargetInfo,
        stack: i64,
        timestamp: i64,
    },
    ApplyDebuff {
        ability_game_id: i64,
        extra_ability_game_id: Option<i64>,
        duration: i64,
        source: SourceInfo,
        target: TargetInfo,
        timestamp: i64,
    },
    BeginCast {
        ability_game_id: i64,
        duration: i64,
        source: SourceInfo,
        target: TargetInfo,
        timestamp: i64,
    },
    CalculatedDamage {
        ability_game_id: i64,
        amount: i64,
        unmitigated_amount: Option<i64>,
        direct_hit: Option<bool>,
        hit_type: i64,
        source: SourceInfo,
        target: TargetInfo,
        source_resources: Option<Resources>,
        target_resources: Option<Resources>,
        timestamp: i64,
    },
    CalculatedHeal {
        ability_game_id: i64,
        amount: i64,
        hit_type: i64,
        source: SourceInfo,
        target: TargetInfo,
        source_resources: Option<Resources>,
        target_resources: Option<Resources>,
        timestamp: i64,
    },
    Cast {
        ability_game_id: i64,
        source: SourceInfo,
        target: TargetInfo,
        source_resources: Option<Resources>,
        target_resources: Option<Resources>,
        timestamp: i64,
    },
    CombatantInfo {
        stats: Option<CombatantStats>,
        auras: Vec<Aura>,
        source: SourceInfo,
        timestamp: i64,
    },
    Damage {
        ability_game_id: i64,
        amount: i64,
        unmitigated_amount: Option<i64>,
        direct_hit: Option<bool>,
        hit_type: i64,
        source: SourceInfo,
        target: TargetInfo,
        source_resources: Option<Resources>,
        target_resources: Option<Resources>,
        timestamp: i64,
    },
    Death {
        source: SourceInfo,
        target: TargetInfo,
        source_resources: Option<Resources>,
        target_resources: Option<Resources>,
        timestamp: i64,
    },
    EncounterEnd {
        kill: bool,
        timestamp: i64,
    },
    GaugeUpdate {
        timestamp: i64,
    },
    HeadMarker {
        source: SourceInfo,
        target: TargetInfo,
        source_resources: Option<Resources>,
        target_resources: Option<Resources>,
        timestamp: i64,
    },
    Heal {
        ability_game_id: i64,
        amount: i64,
        hit_type: i64,
        source: SourceInfo,
        target: TargetInfo,
        source_resources: Option<Resources>,
        target_resources: Option<Resources>,
        timestamp: i64,
    },
    LimitBreakUpdate {
        bars: i64,
        value: i64,
        timestamp: i64,
    },
    RefreshBuff {
        ability_game_id: i64,
        duration: i64,
        source: SourceInfo,
        target: TargetInfo,
        timestamp: i64,
    },
    RefreshDebuff {
        ability_game_id: i64,
        extra_ability_game_id: Option<i64>,
        duration: i64,
        source: SourceInfo,
        target: TargetInfo,
        timestamp: i64,
    },
    RemoveBuff {
        ability_game_id: i64,
        source: SourceInfo,
        target: TargetInfo,
        timestamp: i64,
    },
    RemoveBuffStack {
        ability_game_id: i64,
        source: SourceInfo,
        target: TargetInfo,
        stack: i64,
        timestamp: i64,
    },
    RemoveDebuff {
        ability_game_id: i64,
        source: SourceInfo,
        target: TargetInfo,
        timestamp: i64,
    },
    TargetabilityUpdate {
        ability_game_id: i64,
        targetable: i64,
        source: SourceInfo,
        target: TargetInfo,
        timestamp: i64,
    },
    Tether {
        ability_game_id: i64,
        source: SourceInfo,
        target: TargetInfo,
        timestamp: i64,
    },
}

impl Event {
    /// The event's timestamp, which every variant carries.
    pub open spec fn spec_timestamp(self) -> i64 {
        match self {
            Event::Absorbed { timestamp, .. } => timestamp,
            Event::ApplyBuff { timestamp, .. } => timestamp,
            Event::ApplyBuffStack { timestamp, .. } => timestamp,
            Event::ApplyDebuff { timestamp, .. } => timestamp,
            Event::BeginCast { timestamp, .. } => timestamp,
            Event::CalculatedDamage { timestamp, .. } => timestamp,
            Event::CalculatedHeal { timestamp, .. } => timestamp,
            Event::Cast { timestamp, .. } => timestamp,
            Event::CombatantInfo { timestamp, .. } => timestamp,
            Event::Damage { timestamp, .. } => timestamp,
            Event::Death { timestamp, .. } => timestamp,
            Event::EncounterEnd { timestamp, .. } => timestamp,
            Event::GaugeUpdate { timestamp } => timestamp,
            Event::HeadMarker { timestamp, .. } => timestamp,
            Event::Heal { timestamp, .. } => timestamp,
            Event::LimitBreakUpdate { timestamp, .. } => timestamp,
            Event::RefreshBuff { timestamp, .. } => timestamp,
            Event::RefreshDebuff { timestamp, .. } => timestamp,
            Event::RemoveBuff { timestamp, .. } => timestamp,
            Event::RemoveBuffStack { timestamp, .. } => timestamp,
            Event::RemoveDebuff { timestamp, .. } => timestamp,
            Event::TargetabilityUpdate { timestamp, .. } => timestamp,
            Event::Tether { timestamp, .. } => timestamp,
        }
    }

    /// The source actor's id and resources, for the event kinds that report
    /// the source's resources.
    pub open spec fn spec_source_resources(self) -> Option<(i64, Resources)> {
        match self {
            Event::CalculatedDamage { source, source_resources, .. } => match source_resources {
                Some(r) => Some((source.id, r)),
                None => None,
            },
            Event::CalculatedHeal { source, source_resources, .. } => match source_resources {
                Some(r) => Some((source.id, r)),
                None => None,
            },
            Event::Cast { source, source_resources, .. } => match source_resources {
                Some(r) => Some((source.id, r)),
                None => None,
            },
            Event::Damage { source, source_resources, .. } => match source_resources {
                Some(r) => Some((source.id, r)),
                None => None,
            },
            Event::Death { source, source_resources, .. } => match source_resources {
                Some(r) => Some((source.id, r)),
                None => None,
            },
            Event::Heal { source, source_resources, .. } => match source_resources {
                Some(r) => Some((source.id, r)),
                None => None,
            },
            Event::HeadMarker { source, source_resources, .. } => match source_resources {
                Some(r) => Some((source.id, r)),
                None => None,
            },
            _ => None,
        }
    }

    /// The target actor's id and resources, for the event kinds that report
    /// the target's resources.
    pub open spec fn spec_target_resources(self) -> Option<(i64, Resources)> {
        match self {
            Event::Absorbed { target, target_resources, .. } => match target_resources {
                Some(r) => Some((target.id, r)),
                None => None,
            },
            Event::CalculatedDamage { target, target_resources, .. } => match target_resources {
                Some(r) => Some((target.id, r)),
                None => None,
            },
            Event::CalculatedHeal { target, target_resources, .. } => match target_resources {
                Some(r) => Some((target.id, r)),
                None => None,
            },
            Event::Cast { target, target_resources, .. } => match target_resources {
                Some(r) => Some((target.id, r)),
                None => None,
            },
            Event::Damage { target, target_resources, .. } => match target_resources {
                Some(r) => Some((target.id, r)),
                None => None,
            },
            Event::Death { target, target_resources, .. } => match target_resources {
                Some(r) => Some((target.id, r)),
                None => None,
            },
            Event::Heal { target, target_resources, .. } => match target_resources {
                Some(r) => Some((target.id, r)),
                None => None,
            },
            Event::HeadMarker { target, target_resources, .. } => match target_resources {
                Some(r) => Some((target.id, r)),
                None => None,
            },
            _ => None,
        }
    }

    /// The event's timestamp.
    pub fn get_timestamp(&self) -> (t: i64)
        ensures
            t == self.spec_timestamp(),
    {
        match self {
            Event::Absorbed { timestamp, .. } => *timestamp,
            Event::CalculatedDamage { timestamp, .. } => *timestamp,
            Event::CalculatedHeal { timestamp, .. } => *timestamp,
            Event::Cast { timestamp, .. } => *timestamp,
            Event::CombatantInfo { timestamp, .. } => *timestamp,
            Event::RefreshBuff { timestamp, .. } => *timestamp,
            Event::ApplyBuff { timestamp, .. } => *timestamp,
            Event::ApplyBuffStack { timestamp, .. } => *timestamp,
            Event::LimitBreakUpdate { timestamp, .. } => *timestamp,
            Event::RemoveBuff { timestamp, .. } => *timestamp,
            Event::Damage { timestamp, .. } => *timestamp,
            Event::Heal { timestamp, .. } => *timestamp,
            Event::ApplyDebuff { timestamp, .. } => *timestamp,
            Event::BeginCast { timestamp, .. } => *timestamp,
            Event::RemoveBuffStack { timestamp, .. } => *timestamp,
            Event::GaugeUpdate { timestamp } => *timestamp,
            Event::RemoveDebuff { timestamp, .. } => *timestamp,
            Event::RefreshDebuff { timestamp, .. } => *timestamp,
            Event::TargetabilityUpdate { timestamp, .. } => *timestamp,
            Event::EncounterEnd { timestamp, .. } => *timestamp,
            Event::Death { timestamp, .. } => *timestamp,
            Event::HeadMarker { timestamp, .. } => *timestamp,
            Event::Tether { timestamp, .. } => *timestamp,
        }
    }

    /// The source actor's id and resources, if this event reports them.
    pub fn get_source_resources(&self) -> (r: Option<(i64, &Resources)>)
        ensures
            match r {
                Some(p) => self.spec_source_resources() == Some((p.0, *p.1)),
                None => self.spec_source_resources() is None,
            },
    {
        match self {
            Event::CalculatedDamage { source, source_resources, .. } => match source_resources {
                Some(r) => Some((source.id, r)),
                None => None,
            },
            Event::CalculatedHeal { source, source_resources, .. } => match source_resources {
                Some(r) => Some((source.id, r)),
                None => None,
            },
            Event::Cast { source, source_resources, .. } => match source_resources {
                Some(r) => Some((source.id, r)),
                None => None,
            },
            Event::Damage { source, source_resources, .. } => match source_resources {
                Some(r) => Some((source.id, r)),
                None => None,
            },
            Event::Death { source, source_resources, .. } => match source_resources {
                Some(r) => Some((source.id, r)),
                None => None,
            },
            Event::Heal { source, source_resources, .. } => match source_resources {
                Some(r) => Some((source.id, r)),
                None => None,
            },
            Event::HeadMarker { source, source_resources, .. } => match source_resources {
                Some(r) => Some((source.id, r)),
                None => None,
            },
            Event::Absorbed { .. } => None,
            Event::ApplyBuff { .. } => None,
            Event::ApplyBuffStack { .. } => None,
            Event::ApplyDebuff { .. } => None,
            Event::BeginCast { .. } => None,
            Event::CombatantInfo { .. } => None,
            Event::EncounterEnd { .. } => None,
            Event::GaugeUpdate { .. } => None,
            Event::LimitBreakUpdate { .. } => None,
            Event::RefreshBuff { .. } => None,
            Event::RefreshDebuff { .. } => None,
            Event::RemoveBuff { .. } => None,
            Event::RemoveBuffStack { .. } => None,
            Event::RemoveDebuff { .. } => None,
            Event::TargetabilityUpdate { .. } => None,
            Event::Tether { .. } => None,
        }
    }

    /// The target actor's id and resources, if this event reports them.
    pub fn get_target_resources(&self) -> (r: Option<(i64, &Resources)>)
        ensures
            match r {
                Some(p) => self.spec_target_resources() == Some((p.0, *p.1)),
                None => self.spec_target_resources() is None,
            },
    {
        match self {
            Event::Absorbed { target, target_resources, .. } => match target_resources {
                Some(r) => Some((target.id, r)),
                None => None,
            },
            Event::CalculatedDamage { target, target_resources, .. } => match target_resources {
                Some(r) => Some((target.id, r)),
                None => None,
            },
            Event::CalculatedHeal { target, target_resources, .. } => match target_resources {
                Some(r) => Some((target.id, r)),
                None => None,
            },
            Event::Cast { target, target_resources, .. } => match target_resources {
                Some(r) => Some((target.id, r)),
                None => None,
            },
            Event::Damage { target, target_resources, .. } => match target_resources {
                Some(r) => Some((target.id, r)),
                None => None,
            },
            Event::Death { target, target_resources, .. } => match target_resources {
                Some(r) => Some((target.id, r)),
                None => None,
            },
            Event::Heal { target, target_resources, .. } => match target_resources {
                Some(r) => Some((target.id, r)),
                None => None,
            },
            Event::HeadMarker { target, target_resources, .. } => match target_resources {
                Some(r) => Some((target.id, r)),
                None => None,
            },
            Event::ApplyBuff { .. } => None,
            Event::ApplyBuffStack { .. } => None,
            Event::ApplyDebuff { .. } => None,
            Event::BeginCast { .. } => None,
            Event::CombatantInfo { .. } => None,
            Event::EncounterEnd { .. } => None,
            Event::GaugeUpdate { .. } => None,
            Event::LimitBreakUpdate { .. } => None,
            Event::RefreshBuff { .. } => None,
            Event::RefreshDebuff { .. } => None,
            Event::RemoveBuff { .. } => None,
            Event::RemoveBuffStack { .. } => None,
            Event::RemoveDebuff { .. } => None,
            Event::TargetabilityUpdate { .. } => None,
            Event::Tether { .. } => None,
        }
    }
}

} // verus!
