use vstd::prelude::*;

use crate::battle::Battle;
use crate::types::{AttributeId, Player, PowerTmg, ProtectionTmg};

verus! {

/// The attribute in the player's active slot, or 0 where that slot is empty
/// or out of range.
pub open spec fn active_attribute(p: Player) -> AttributeId {
    let slot = if p.actual_attribute == 1 {
        p.attributes.round_1
    } else if p.actual_attribute == 2 {
        p.attributes.round_2
    } else if p.actual_attribute == 3 {
        p.attributes.round_3
    } else {
        None
    };
    match slot {
        Some(id) => id,
        None => 0,
    }
}

/// The attacker's power, times its weapon's factor where its active
/// attribute is a weapon, less the defender's shield where the defender's
/// active attribute is a shield (never below zero).
pub open spec fn total_attack(
    weapons: Map<AttributeId, PowerTmg>,
    shields: Map<AttributeId, ProtectionTmg>,
    attacker: Player,
    defender: Player,
) -> int {
    let a = active_attribute(attacker);
    let d = active_attribute(defender);
    let base = if weapons.contains_key(a) {
        attacker.power as int * weapons[a] as int
    } else {
        attacker.power as int
    };
    if shields.contains_key(d) {
        if base >= shields[d] as int {
            base - shields[d] as int
        } else {
            0
        }
    } else {
        base
    }
}

/// Whether the defender's active attribute is a shield, which stops the
/// attack.
pub open spec fn is_shielded(shields: Map<AttributeId, ProtectionTmg>, defender: Player) -> bool {
    shields.contains_key(active_attribute(defender))
}

/// The damage that reaches the defender in one step: none where the defender
/// is shielded or the two face different sides, the total attack otherwise.
pub open spec fn step_damage(
    weapons: Map<AttributeId, PowerTmg>,
    shields: Map<AttributeId, ProtectionTmg>,
    attacker: Player,
    defender: Player,
) -> int {
    if is_shielded(shields, defender) || attacker.actual_side != defender.actual_side {
        0
    } else {
        total_attack(weapons, shields, attacker, defender)
    }
}

/// `max(0, energy - damage)`.
pub open spec fn drained(energy: u16, damage: int) -> u16 {
    if damage >= energy as int {
        0
    } else {
        (energy as int - damage) as u16
    }
}

/// The defender after one step of the attacker.
pub open spec fn struck(
    weapons: Map<AttributeId, PowerTmg>,
    shields: Map<AttributeId, ProtectionTmg>,
    attacker: Player,
    defender: Player,
) -> Player {
    Player { energy: drained(defender.energy, step_damage(weapons, shields, attacker, defender)), ..defender }
}

impl Battle {
    /// The attribute in the player's active slot, or 0 where there is none.
    pub fn get_player_actual_attribute_id(player: &Player) -> (r: AttributeId)
        ensures
            r == active_attribute(*player),
    {
        let slot = match player.actual_attribute {
            1 => player.attributes.round_1,
            2 => player.attributes.round_2,
            3 => player.attributes.round_3,
            _ => None,
        };
        match slot {
            Some(attribute_id) => attribute_id,
            None => 0,
        }
    }

    /// The attack of `player` on `opponent` before shielding stops it or a
    /// dodge avoids it: the power, multiplied by the weapon's factor, less the
    /// opponent's shield.
    pub fn calculate_tamagotchi_total_attack(&self, player: &Player, opponent: &Player) -> (r: u32)
        ensures
            r as int == total_attack(self.weapons_data@, self.shields_data@, *player, *opponent),
    {
        let player_weapon_attribute = Self::get_player_actual_attribute_id(player);
        let opponent_attribute = Self::get_player_actual_attribute_id(opponent);
        let mut total_attack: u32 = player.power as u32;
        match self.weapons_data.get(&player_weapon_attribute) {
            Some(factor) => {
                let f = *factor as u32;
                assert(total_attack * f <= 0xffff * 0xffff) by (nonlinear_arith)
                    requires
                        total_attack <= 0xffff,
                        f <= 0xffff,
                ;
                total_attack = total_attack * f;
            },
            None => {},
        }
        match self.shields_data.get(&opponent_attribute) {
            Some(protection) => {
                let p = *protection as u32;
                total_attack = if total_attack >= p {
                    total_attack - p
                } else {
                    0
                };
            },
            None => {},
        }
        total_attack
    }

    /// One step of `attacker` on `defender`: returns the defender afterwards
    /// and whether the attack was dodged (the two face different sides).
    pub fn resolve_step(&self, attacker: &Player, defender: &Player) -> (r: (Player, bool))
        ensures
            r.0 == struck(self.weapons_data@, self.shields_data@, *attacker, *defender),
            r.1 == (attacker.actual_side != defender.actual_side),
    {
        let mut hit = *defender;
        let dodged = attacker.actual_side != defender.actual_side;
        let defender_attribute = Self::get_player_actual_attribute_id(defender);
        if !self.shields_data.contains_key(&defender_attribute) && !dodged {
            let damage = self.calculate_tamagotchi_total_attack(attacker, defender);
            hit.energy = if damage >= defender.energy as u32 {
                0
            } else {
                defender.energy - damage as u16
            };
        }
        (hit, dodged)
    }
}

} // verus!
