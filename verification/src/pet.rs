//! The pet rules engine.
//!
//! A [`Pet`] holds bounded needs that evolve over discrete ticks and respond
//! to feeding, training and being consumed. Every operation is specified as a
//! function on the pet's mathematical model, [`PetModel`], and proved to keep
//! the pet well formed: needs stay within their bounds, the learned sounds
//! stay few and distinct, and a dead pet never changes again.

use rand::Rng;
use vstd::prelude::*;
use vstd::string::*;

use crate::cake::{Cake, CakeModel, Replenishment};
use crate::text::{trim, trimmed};

verus! {

// Fixed bounds and rates shared by every pet. The boredom limit is the one
// threshold that varies: it is drawn at construction.
const BASE_MAX_BOREDOM: u8 = 100;

const BASE_MAX_HUNGER: u8 = 100;

const BASE_MAX_HEALTH: u16 = 100;

const BASE_MAX_SOUNDS: u8 = 5;

const BASE_HUNGER_LIMIT: u8 = 80;

const BASE_ANGER_LIMIT: u8 = 90;

const BASE_BOREDOM_RATE: u8 = 4;

const BASE_HUNGER_RATE: u8 = 4;

/// A pet's constitution, fixed at creation. It decides the health capacity,
/// the hunger rate, and how the boredom limit is chosen.
#[derive(Clone, Copy)]
pub enum Strength {
    Weak,
    Normal,
    Strong,
}

/// The mathematical value of a [`Pet`]: the same fields, over unbounded
/// integers and sequences.
#[verifier::ext_equal]
pub ghost struct PetModel {
    pub name: Seq<char>,
    pub max_boredom: int,
    pub max_hunger: int,
    pub max_health: int,
    pub max_sounds: int,
    pub boredom: int,
    pub hunger: int,
    pub health: int,
    pub sounds: Seq<Seq<char>>,
    pub boredom_limit: int,
    pub hunger_limit: int,
    pub anger_limit: int,
    pub base_boredom_rate: int,
    pub base_hunger_rate: int,
    pub ticks_survived: int,
    pub reason_for_death: Seq<char>,
}

/// `v + amount`, clamped from above at `max`.
pub open spec fn clamp_add(v: int, amount: int, max: int) -> int {
    if v + amount > max {
        max
    } else {
        v + amount
    }
}

/// `v - amount`, clamped from below at zero.
pub open spec fn clamp_sub(v: int, amount: int) -> int {
    if v >= amount {
        v - amount
    } else {
        0
    }
}

/// The mathematical value of a [`Status`] report.
#[verifier::ext_equal]
pub ghost struct StatusModel {
    pub boredom: int,
    pub boredom_percentage: int,
    pub boredom_status_message: Seq<char>,
    pub hunger: int,
    pub hunger_percentage: int,
    pub hunger_status_message: Seq<char>,
    pub health: int,
    pub health_percentage: int,
    pub health_status_message: Seq<char>,
}

impl PetModel {
    /// Well-formedness: the capacity bounds and thresholds hold their fixed
    /// values, every need lies within its bounds, the sounds are few and
    /// pairwise distinct, and a death reason is recorded exactly when the
    /// pet is dead.
    pub open spec fn wf(self) -> bool {
        &&& self.max_boredom == 100
        &&& self.max_hunger == 100
        &&& (self.max_health == 50 || self.max_health == 100 || self.max_health == 200)
        &&& self.max_sounds == 5
        &&& self.hunger_limit == 80
        &&& self.anger_limit == 90
        &&& self.base_boredom_rate == 4
        &&& (self.base_hunger_rate == 4 || self.base_hunger_rate == 8)
        &&& 50 <= self.boredom_limit <= 99
        &&& 0 <= self.boredom <= self.max_boredom
        &&& 0 <= self.hunger <= self.max_hunger
        &&& 0 <= self.health <= self.max_health
        &&& 0 <= self.ticks_survived <= u16::MAX
        &&& self.sounds.len() <= self.max_sounds
        &&& (forall|p: int, q: int|
            0 <= p < q < self.sounds.len() ==> self.sounds[p] != self.sounds[q])
        &&& (self.reason_for_death.len() > 0 <==> self.health == 0)
    }

    /// Dead means the health has reached zero.
    pub open spec fn is_dead(self) -> bool {
        self.health == 0
    }

    /// The per-tick boredom increment: doubled above the boredom limit.
    pub open spec fn current_boredom_rate(self) -> int {
        if self.boredom > self.boredom_limit {
            2 * self.base_boredom_rate
        } else {
            self.base_boredom_rate
        }
    }

    /// The per-tick hunger increment: halved at low health, doubled above
    /// the boredom limit, doubled once more above the anger limit.
    pub open spec fn current_hunger_rate(self) -> int {
        let rate = if self.health <= self.max_health / 4 {
            self.base_hunger_rate / 2
        } else {
            self.base_hunger_rate
        };
        if self.boredom > self.boredom_limit {
            if self.boredom > self.anger_limit {
                4 * rate
            } else {
                2 * rate
            }
        } else {
            rate
        }
    }

    /// The boredom classification of the status report.
    pub open spec fn boredom_message(self) -> Seq<char> {
        if self.boredom <= self.boredom_limit {
            "happy"@
        } else if self.boredom < self.anger_limit {
            "bored"@
        } else {
            "angry"@
        }
    }

    /// The hunger classification of the status report.
    pub open spec fn hunger_message(self) -> Seq<char> {
        if self.hunger < self.max_hunger / 2 {
            "full"@
        } else if self.hunger <= self.hunger_limit {
            "hungry"@
        } else {
            "starving"@
        }
    }

    /// Starving: neither full nor merely hungry.
    pub open spec fn is_starving(self) -> bool {
        self.hunger >= self.max_hunger / 2 && self.hunger > self.hunger_limit
    }

    /// The health classification of the status report. The thresholds are
    /// the exact ratios four fifths and one fifth of the health capacity;
    /// both are whole numbers for every capacity a pet can have.
    pub open spec fn health_message(self) -> Seq<char> {
        if 5 * self.health >= 4 * self.max_health {
            "fighting fit"@
        } else if 5 * self.health >= self.max_health {
            "ok"@
        } else if self.health >= 1 {
            "sick"@
        } else {
            "dead"@
        }
    }

    /// The full status report: each raw value, its integer percentage of its
    /// maximum (the quotient is taken before the scaling, so the percentage
    /// is 0 until the value reaches its maximum), and its classification.
    pub open spec fn status(self) -> StatusModel {
        StatusModel {
            boredom: self.boredom,
            boredom_percentage: (self.boredom / self.max_boredom) * 100,
            boredom_status_message: self.boredom_message(),
            hunger: self.hunger,
            hunger_percentage: (self.hunger / self.max_hunger) * 100,
            hunger_status_message: self.hunger_message(),
            health: self.health,
            health_percentage: (self.health / self.max_health) * 100,
            health_status_message: self.health_message(),
        }
    }

    /// Death, recorded at most once: a pet that already has a death reason
    /// ignores further death requests, so the first cause is retained.
    /// Dying zeroes health, hunger and boredom.
    pub open spec fn after_death(self, reason: Seq<char>) -> PetModel {
        if self.reason_for_death.len() > 0 {
            self
        } else {
            PetModel { boredom: 0, hunger: 0, health: 0, reason_for_death: reason, ..self }
        }
    }

    /// One logical time step. Boredom and hunger grow by their current
    /// rates, clamped at their maxima; a pet left starving loses half its
    /// hunger rate in health; the tick counter grows (saturating at its
    /// width); reaching zero health is death by starvation.
    pub open spec fn after_tick(self) -> PetModel {
        if self.is_dead() {
            self
        } else {
            let bored = PetModel {
                boredom: clamp_add(self.boredom, self.current_boredom_rate(), self.max_boredom),
                ..self
            };
            let fed = PetModel {
                hunger: clamp_add(bored.hunger, bored.current_hunger_rate(), bored.max_hunger),
                ..bored
            };
            let hurt = if fed.is_starving() {
                PetModel { health: clamp_sub(fed.health, fed.current_hunger_rate() / 2), ..fed }
            } else {
                fed
            };
            let counted = PetModel {
                ticks_survived: if hurt.ticks_survived < u16::MAX {
                    hurt.ticks_survived + 1
                } else {
                    hurt.ticks_survived
                },
                ..hurt
            };
            if counted.health == 0 {
                counted.after_death("Died of starvation"@)
            } else {
                counted
            }
        }
    }

    /// Feeding: a finite hunger replenishment lowers hunger (floored at
    /// zero), an unbounded one clears it; health symmetrically, capped at
    /// the maximum. A dead pet cannot be fed.
    pub open spec fn after_feed(self, cake: CakeModel) -> PetModel {
        if self.is_dead() {
            self
        } else {
            let hunger = match cake.hunger_replenished {
                Replenishment::Finite(amount) => clamp_sub(self.hunger, amount),
                Replenishment::Unbounded => 0,
            };
            let health = match cake.health_replenished {
                Replenishment::Finite(amount) => clamp_add(self.health, amount, self.max_health),
                Replenishment::Unbounded => self.max_health,
            };
            PetModel { hunger, health, ..self }
        }
    }

    /// The cake this pet yields when eaten: its deficits, floored at 20 so
    /// that even a sated, healthy pet has some nutritive value; a dead pet
    /// yields nothing. The cake costs nothing and bears the pet's name.
    pub open spec fn nutrition(self) -> CakeModel {
        CakeModel {
            name: self.name + "Cake"@,
            hunger_replenished: Replenishment::Finite(
                if self.is_dead() {
                    0
                } else if self.hunger_limit - self.hunger > 20 {
                    self.hunger_limit - self.hunger
                } else {
                    20
                },
            ),
            health_replenished: Replenishment::Finite(
                if self.is_dead() {
                    0
                } else if self.max_health - self.health > 20 {
                    self.max_health - self.health
                } else {
                    20
                },
            ),
            cost: 0,
        }
    }

    /// The message training answers with, or nothing on success: a dead pet,
    /// a blank sound, a full memory and a known sound are each refused with
    /// their own message.
    pub open spec fn train_reply(self, sound: Seq<char>) -> Option<Seq<char>> {
        if self.is_dead() {
            Some(self.name + " is dead!"@)
        } else if trimmed(sound).len() == 0 {
            Some("no sound provided..."@)
        } else if self.sounds.len() >= self.max_sounds {
            Some(self.name + "'s memory is full!"@)
        } else if self.sounds.contains(trimmed(sound)) {
            Some(self.name + " already knows "@ + sound + "..."@)
        } else {
            None
        }
    }

    /// Training on success: the trimmed sound is learned, boredom falls by
    /// 50 (floored at zero) and hunger grows by 25 (capped). A refused
    /// training changes nothing.
    pub open spec fn after_train(self, sound: Seq<char>) -> PetModel {
        if self.train_reply(sound) is None {
            PetModel {
                sounds: self.sounds.push(trimmed(sound)),
                boredom: clamp_sub(self.boredom, 50),
                hunger: clamp_add(self.hunger, 25, self.max_hunger),
                ..self
            }
        } else {
            self
        }
    }

    /// Consuming another pet: feeding on its nutrition, and the interaction
    /// clears this pet's boredom. The other pet is only read.
    pub open spec fn after_consume(self, other: PetModel) -> PetModel {
        if self.is_dead() {
            self
        } else {
            PetModel { boredom: 0, ..self.after_feed(other.nutrition()) }
        }
    }

    /// Being consumed kills the pet, naming its consumer.
    pub open spec fn after_be_consumed(self, consumer: Seq<char>) -> PetModel {
        if self.is_dead() {
            self
        } else {
            self.after_death("Eaten by "@ + consumer)
        }
    }

    /// Renaming: a new name that is blank after trimming is silently
    /// ignored; otherwise the name is replaced as given. A dead pet keeps
    /// its name.
    pub open spec fn after_change_name(self, new_name: Seq<char>) -> PetModel {
        if self.is_dead() {
            self
        } else if trimmed(new_name).len() > 0 {
            PetModel { name: new_name, ..self }
        } else {
            self
        }
    }

    /// A newly created pet: full health for its constitution, nothing
    /// learned, nothing suffered. A weak pet's boredom limit is pinned just
    /// under the boredom capacity; otherwise the drawn limit is used.
    pub open spec fn fresh(name: Seq<char>, strength: Strength, boredom_limit: int) -> PetModel {
        let max_health: int = match strength {
            Strength::Weak => 50,
            Strength::Normal => 100,
            Strength::Strong => 200,
        };
        PetModel {
            name: name,
            max_boredom: 100,
            max_hunger: 100,
            max_health: max_health,
            max_sounds: 5,
            boredom: 0,
            hunger: 0,
            health: max_health,
            sounds: Seq::empty(),
            boredom_limit: if strength is Weak {
                99
            } else {
                boredom_limit
            },
            hunger_limit: 80,
            anger_limit: 90,
            base_boredom_rate: 4,
            base_hunger_rate: if strength is Strong {
                8
            } else {
                4
            },
            ticks_survived: 0,
            reason_for_death: Seq::empty(),
        }
    }
}

/// A virtual pet: its needs, their bounds and rates, what it has learned,
/// and how it died, if it did.
pub struct Pet {
    name: String,
    max_boredom: u8,
    max_hunger: u8,
    max_health: u16,
    max_sounds: u8,
    boredom: u8,
    hunger: u8,
    health: u16,
    sounds: Vec<String>,
    boredom_limit: u8,
    hunger_limit: u8,
    anger_limit: u8,
    base_boredom_rate: u8,
    base_hunger_rate: u8,
    ticks_survived: u16,
    reason_for_death: String,
}

impl View for Pet {
    type V = PetModel;

    closed spec fn view(&self) -> PetModel {
        PetModel {
            name: self.name@,
            max_boredom: self.max_boredom as int,
            max_hunger: self.max_hunger as int,
            max_health: self.max_health as int,
            max_sounds: self.max_sounds as int,
            boredom: self.boredom as int,
            hunger: self.hunger as int,
            health: self.health as int,
            sounds: self.sounds.deep_view(),
            boredom_limit: self.boredom_limit as int,
            hunger_limit: self.hunger_limit as int,
            anger_limit: self.anger_limit as int,
            base_boredom_rate: self.base_boredom_rate as int,
            base_hunger_rate: self.base_hunger_rate as int,
            ticks_survived: self.ticks_survived as int,
            reason_for_death: self.reason_for_death@,
        }
    }
}

/// Relies on rand::Rng::gen_range over the thread-local generator: on a
/// non-empty range it returns a value within the range (uniformly, which is
/// more than is stated or needed here).
#[verifier::external_body]
fn random_in_range(lo: u8, hi: u8) -> (r: u8)
    requires
        lo < hi,
    ensures
        lo <= r < hi,
{
    rand::thread_rng().gen_range(lo..hi)
}

impl Pet {
    /// Well-formedness, lifted from the model.
    pub open spec fn wf(&self) -> bool {
        self@.wf()
    }

    /// A pet in a chosen state: its constitution and boredom limit as a
    /// creation would have drawn them, and its needs and tick count
    /// anywhere within their bounds. The pet must be alive, and has not
    /// learned any sounds.
    pub fn with_state(
        name: String,
        strength: Strength,
        boredom_limit: u8,
        boredom: u8,
        hunger: u8,
        health: u16,
        ticks_survived: u16,
    ) -> (r: Pet)
        requires
            (strength is Normal || strength is Strong) ==> 50 <= boredom_limit < 90,
            boredom <= 100,
            hunger <= 100,
            1 <= health,
            strength is Weak ==> health <= 50,
            strength is Normal ==> health <= 100,
            strength is Strong ==> health <= 200,
        ensures
            r.wf(),
            r@ == (PetModel {
                boredom: boredom as int,
                hunger: hunger as int,
                health: health as int,
                ticks_survived: ticks_survived as int,
                ..PetModel::fresh(name@, strength, boredom_limit as int)
            }),
    {
        let max_health: u16 = match strength {
            Strength::Weak => BASE_MAX_HEALTH / 2,
            Strength::Normal => BASE_MAX_HEALTH,
            Strength::Strong => BASE_MAX_HEALTH * 2,
        };
        let base_hunger_rate: u8 = match strength {
            Strength::Strong => BASE_HUNGER_RATE * 2,
            _ => BASE_HUNGER_RATE,
        };
        let limit: u8 = match strength {
            Strength::Weak => BASE_MAX_BOREDOM - 1,
            _ => boredom_limit,
        };
        let ghost expected = PetModel {
            boredom: boredom as int,
            hunger: hunger as int,
            health: health as int,
            ticks_survived: ticks_survived as int,
            ..PetModel::fresh(name@, strength, boredom_limit as int)
        };
        let pet = Pet {
            name,
            max_boredom: BASE_MAX_BOREDOM,
            max_hunger: BASE_MAX_HUNGER,
            max_health,
            max_sounds: BASE_MAX_SOUNDS,
            boredom,
            hunger,
            health,
            sounds: Vec::new(),
            boredom_limit: limit,
            hunger_limit: BASE_HUNGER_LIMIT,
            anger_limit: BASE_ANGER_LIMIT,
            base_boredom_rate: BASE_BOREDOM_RATE,
            base_hunger_rate,
            ticks_survived,
            reason_for_death: String::new(),
        };
        proof {
            assert(pet@ =~= expected);
        }
        pet
    }

    /// A new pet with the given name, its constitution drawn at random with
    /// equal probability, and — unless it is weak — its boredom limit drawn
    /// from [50, 90).
    pub fn new(name: String) -> (r: Pet)
        ensures
            r.wf(),
            r@.name == name@,
            r@.boredom == 0,
            r@.hunger == 0,
            r@.health == r@.max_health,
            r@.ticks_survived == 0,
            r@.sounds == Seq::<Seq<char>>::empty(),
            r@.reason_for_death == Seq::<char>::empty(),
            exists|strength: Strength, limit: int|
                50 <= limit < 90 && r@ == PetModel::fresh(name@, strength, limit),
    {
        let pick = random_in_range(0, 3);
        let strength = if pick == 0 {
            Strength::Weak
        } else if pick == 1 {
            Strength::Normal
        } else {
            Strength::Strong
        };
        let limit = random_in_range(50, 90);
        let health: u16 = match strength {
            Strength::Weak => BASE_MAX_HEALTH / 2,
            Strength::Normal => BASE_MAX_HEALTH,
            Strength::Strong => BASE_MAX_HEALTH * 2,
        };
        let pet = Pet::with_state(name, strength, limit, 0, 0, health, 0);
        proof {
            let l: int = limit as int;
            assert(50 <= l < 90 && pet@ == PetModel::fresh(pet@.name, strength, l));
        }
        pet
    }

    fn is_dead(&self) -> (r: bool)
        ensures
            r == self@.is_dead(),
    {
        self.health == 0
    }

    /// The pet's display name.
    pub fn get_name(&self) -> (r: &String)
        ensures
            r@ == self@.name,
    {
        &self.name
    }

    /// The boredom capacity.
    pub fn get_max_boredom(&self) -> (r: u8)
        ensures
            r as int == self@.max_boredom,
    {
        self.max_boredom
    }

    /// The hunger capacity.
    pub fn get_max_hunger(&self) -> (r: u8)
        ensures
            r as int == self@.max_hunger,
    {
        self.max_hunger
    }

    /// The health capacity.
    pub fn get_max_health(&self) -> (r: u16)
        ensures
            r as int == self@.max_health,
    {
        self.max_health
    }

    /// The sounds the pet has learned, in learning order.
    pub fn get_sounds(&self) -> (r: &Vec<String>)
        ensures
            r.deep_view() == self@.sounds,
    {
        &self.sounds
    }

    /// How many ticks the pet has lived through.
    pub fn get_ticks_survived(&self) -> (r: u16)
        ensures
            r as int == self@.ticks_survived,
    {
        self.ticks_survived
    }

    fn increase_boredom(&mut self, amount: u8)
        requires
            old(self)@.boredom <= old(self)@.max_boredom,
        ensures
            final(self)@ == (PetModel {
                boredom: clamp_add(old(self)@.boredom, amount as int, old(self)@.max_boredom),
                ..old(self)@
            }),
    {
        let room = self.max_boredom - self.boredom;
        if amount > room {
            self.boredom = self.max_boredom;
        } else {
            self.boredom = self.boredom + amount;
        }
    }

    fn decrease_boredom(&mut self, amount: u8)
        ensures
            final(self)@ == (PetModel {
                boredom: clamp_sub(old(self)@.boredom, amount as int),
                ..old(self)@
            }),
    {
        if self.boredom >= amount {
            self.boredom = self.boredom - amount;
        } else {
            self.boredom = 0;
        }
    }

    fn increase_hunger(&mut self, amount: u8)
        requires
            old(self)@.hunger <= old(self)@.max_hunger,
        ensures
            final(self)@ == (PetModel {
                hunger: clamp_add(old(self)@.hunger, amount as int, old(self)@.max_hunger),
                ..old(self)@
            }),
    {
        let room = self.max_hunger - self.hunger;
        if amount > room {
            self.hunger = self.max_hunger;
        } else {
            self.hunger = self.hunger + amount;
        }
    }

    fn decrease_hunger(&mut self, amount: u8)
        ensures
            final(self)@ == (PetModel {
                hunger: clamp_sub(old(self)@.hunger, amount as int),
                ..old(self)@
            }),
    {
        if self.hunger >= amount {
            self.hunger = self.hunger - amount;
        } else {
            self.hunger = 0;
        }
    }

    fn increase_health(&mut self, amount: u16)
        requires
            old(self)@.health <= old(self)@.max_health,
        ensures
            final(self)@ == (PetModel {
                health: clamp_add(old(self)@.health, amount as int, old(self)@.max_health),
                ..old(self)@
            }),
    {
        let room = self.max_health - self.health;
        if amount > room {
            self.health = self.max_health;
        } else {
            self.health = self.health + amount;
        }
    }

    fn decrease_health(&mut self, amount: u16)
        ensures
            final(self)@ == (PetModel {
                health: clamp_sub(old(self)@.health, amount as int),
                ..old(self)@
            }),
    {
        if self.health >= amount {
            self.health = self.health - amount;
        } else {
            self.health = 0;
        }
    }

    fn get_current_boredom_rate(&self) -> (r: u8)
        requires
            self.wf(),
        ensures
            r as int == self@.current_boredom_rate(),
    {
        if self.boredom > self.boredom_limit {
            return self.base_boredom_rate * 2;
        }
        self.base_boredom_rate
    }

    fn get_current_hunger_rate(&self) -> (r: u8)
        requires
            self.wf(),
        ensures
            r as int == self@.current_hunger_rate(),
    {
        let mut rate: u8 = self.base_hunger_rate;
        if self.health <= self.max_health / 4 {
            rate = rate / 2;
        }
        if self.boredom > self.boredom_limit {
            rate = rate * 2;
            if self.boredom > self.anger_limit {
                rate = rate * 2;
            }
        }
        rate
    }

    /// Whether the pet already knows this (trimmed) sound.
    fn knows(&self, sound: &String) -> (r: bool)
        ensures
            r == self@.sounds.contains(sound@),
    {
        let mut k: usize = 0;
        while k < self.sounds.len()
            invariant
                k <= self.sounds.len(),
                forall|p: int| 0 <= p < k ==> self@.sounds[p] != sound@,
            decreases self.sounds.len() - k,
        {
            let candidate: &String = &self.sounds[k];
            if *candidate == *sound {
                proof {
                    assert(self@.sounds[k as int] == sound@);
                }
                return true;
            }
            k = k + 1;
        }
        false
    }

    /// The cake this pet would be as a meal: its deficits, floored at 20,
    /// or nothing at all if it is dead.
    pub fn get_nutritional_info(&self) -> (r: Cake)
        requires
            self.wf(),
        ensures
            r@ == self@.nutrition(),
    {
        let hunger_replenished: u8;
        let health_replenished: u16;
        if self.is_dead() {
            hunger_replenished = 0;
            health_replenished = 0;
        } else {
            let deficit = if self.hunger_limit >= self.hunger {
                self.hunger_limit - self.hunger
            } else {
                0
            };
            hunger_replenished = if deficit > 20 {
                deficit
            } else {
                20
            };
            let health_deficit = self.max_health - self.health;
            health_replenished = if health_deficit > 20 {
                health_deficit
            } else {
                20
            };
        }
        Cake::new(
            self.name.clone().concat("Cake"),
            Replenishment::Finite(hunger_replenished),
            Replenishment::Finite(health_replenished),
            0,
        )
    }

    /// The recorded death reason, or a placeholder while the pet lives.
    pub fn get_reason_for_death(self) -> (r: String)
        ensures
            r@ == (if self@.health != 0 {
                "I'm still alive :eye:"@
            } else {
                self@.reason_for_death
            }),
    {
        if self.health != 0 {
            return String::from_str("I'm still alive :eye:");
        }
        self.reason_for_death
    }

    /// Rename the pet; a blank name is silently ignored, and a dead pet
    /// keeps its name.
    pub fn change_name(&mut self, new_name: String)
        requires
            old(self).wf(),
        ensures
            final(self).wf(),
            final(self)@ == old(self)@.after_change_name(new_name@),
    {
        if self.is_dead() {
            return ;
        }
        if !trim(new_name.as_str()).is_empty() {
            self.name = new_name;
        }
    }

    /// The status report: raw values, integer percentages and the three
    /// classification messages.
    pub fn get_status_report(&self) -> (r: Status)
        requires
            self.wf(),
        ensures
            r@ == self@.status(),
    {
        let boredom_status_message: String;
        let hunger_status_message: String;
        let health_status_message: String;
        if self.boredom <= self.boredom_limit {
            boredom_status_message = String::from_str("happy");
        } else if self.boredom < self.anger_limit {
            boredom_status_message = String::from_str("bored");
        } else {
            boredom_status_message = String::from_str("angry");
        }
        if self.hunger < self.max_hunger / 2 {
            hunger_status_message = String::from_str("full");
        } else if self.hunger <= self.hunger_limit {
            hunger_status_message = String::from_str("hungry");
        } else {
            hunger_status_message = String::from_str("starving");
        }
        // The health thresholds are the ratios 0.8 and 0.2 of the capacity,
        // which are whole numbers for every capacity a pet can have, so the
        // comparisons can be exact in integers.
        if 5 * self.health >= 4 * self.max_health {
            health_status_message = String::from_str("fighting fit");
        } else if 5 * self.health >= self.max_health {
            health_status_message = String::from_str("ok");
        } else if self.health >= 1 {
            health_status_message = String::from_str("sick");
        } else {
            health_status_message = String::from_str("dead");
        }
        proof {
            // Each value is at most its maximum, so each quotient is 0 or 1
            // and each percentage is 0 or 100.
            if self@.boredom < self@.max_boredom {
                vstd::arithmetic::div_mod::lemma_basic_div(self@.boredom, self@.max_boredom);
            } else {
                vstd::arithmetic::div_mod::lemma_div_by_self(self@.max_boredom);
            }
            if self@.hunger < self@.max_hunger {
                vstd::arithmetic::div_mod::lemma_basic_div(self@.hunger, self@.max_hunger);
            } else {
                vstd::arithmetic::div_mod::lemma_div_by_self(self@.max_hunger);
            }
            if self@.health < self@.max_health {
                vstd::arithmetic::div_mod::lemma_basic_div(self@.health, self@.max_health);
            } else {
                vstd::arithmetic::div_mod::lemma_div_by_self(self@.max_health);
            }
        }
        Status {
            boredom: self.boredom,
            boredom_percentage: (self.boredom / self.max_boredom) * 100,
            boredom_status_message,
            hunger: self.hunger,
            hunger_percentage: (self.hunger / self.max_hunger) * 100,
            hunger_status_message,
            health: self.health,
            health_percentage: ((self.health / self.max_health) * 100) as u8,
            health_status_message,
        }
    }

    /// Feed the pet a cake.
    pub fn feed(&mut self, cake: &Cake)
        requires
            old(self).wf(),
        ensures
            final(self).wf(),
            final(self)@ == old(self)@.after_feed(cake@),
    {
        if self.is_dead() {
            return ;
        }
        match cake.get_hunger_replenished() {
            Replenishment::Finite(amount) => self.decrease_hunger(amount),
            Replenishment::Unbounded => self.hunger = 0,
        }
        match cake.get_health_replenished() {
            Replenishment::Finite(amount) => self.increase_health(amount),
            Replenishment::Unbounded => self.health = self.max_health,
        }
    }

    /// Eat another pet: feed on its nutrition and forget all boredom. The
    /// other pet is only read; it is the caller's part to have it consumed.
    pub fn consume(&mut self, pet: &Pet)
        requires
            old(self).wf(),
            pet.wf(),
        ensures
            final(self).wf(),
            final(self)@ == old(self)@.after_consume(pet@),
    {
        if self.is_dead() {
            return ;
        }
        let snack = pet.get_nutritional_info();
        self.feed(&snack);
        self.boredom = 0;
    }

    /// Be eaten by the named consumer: death, unless already dead.
    pub fn be_consumed(&mut self, name_of_consumer: String)
        requires
            old(self).wf(),
        ensures
            final(self).wf(),
            final(self)@ == old(self)@.after_be_consumed(name_of_consumer@),
    {
        if self.is_dead() {
            return ;
        }
        proof {
            reveal_strlit("Eaten by ");
        }
        let reason = String::from_str("Eaten by ").concat(name_of_consumer.as_str());
        self.die(reason);
    }

    /// Teach the pet a sound. On success the trimmed sound is learned,
    /// boredom falls by 50 and hunger grows by 25, and there is no message;
    /// otherwise the returned message says what was refused.
    pub fn train(&mut self, new_sound: String) -> (r: Option<String>)
        requires
            old(self).wf(),
        ensures
            final(self).wf(),
            final(self)@ == old(self)@.after_train(new_sound@),
            r.deep_view() == old(self)@.train_reply(new_sound@),
    {
        if self.is_dead() {
            return Some(self.name.clone().concat(" is dead!"));
        }
        let trimmed_sound = String::from_str(trim(new_sound.as_str()));
        if trimmed_sound.as_str().is_empty() {
            return Some(String::from_str("no sound provided..."));
        }
        if self.sounds.len() >= self.max_sounds as usize {
            return Some(self.name.clone().concat("'s memory is full!"));
        }
        if self.knows(&trimmed_sound) {
            return Some(
                self.name.clone().concat(" already knows ").concat(new_sound.as_str()).concat(
                    "...",
                ),
            );
        }
        self.sounds.push(trimmed_sound);
        proof {
            assert(self.sounds.deep_view() =~= old(self)@.sounds.push(trimmed(new_sound@)));
        }
        self.decrease_boredom(50);
        self.increase_hunger(25);
        proof {
            lemma_train_keeps_sounds_few_and_distinct(old(self)@, new_sound@);
            assert(self@ =~= old(self)@.after_train(new_sound@));
        }
        None
    }

    /// One logical time step.
    pub fn tick(&mut self)
        requires
            old(self).wf(),
        ensures
            final(self).wf(),
            final(self)@ == old(self)@.after_tick(),
    {
        if self.is_dead() {
            return ;
        }
        let boredom_rate = self.get_current_boredom_rate();
        self.increase_boredom(boredom_rate);
        let hunger_rate = self.get_current_hunger_rate();
        self.increase_hunger(hunger_rate);
        if self.hunger > self.hunger_limit {
            // Above the hunger limit the pet is starving: the limit is no
            // lower than half the hunger capacity.
            self.decrease_health((hunger_rate / 2) as u16);
        }
        if self.ticks_survived < u16::MAX {
            self.ticks_survived = self.ticks_survived + 1;
        }
        proof {
            reveal_strlit("Died of starvation");
        }
        if self.health == 0 {
            self.die(String::from_str("Died of starvation"));
        }
    }

    fn die(&mut self, reason_for_death: String)
        ensures
            final(self)@ == old(self)@.after_death(reason_for_death@),
    {
        if !self.reason_for_death.as_str().is_empty() {
            return ;
        }
        self.health = 0;
        self.hunger = 0;
        self.boredom = 0;
        self.reason_for_death = reason_for_death;
    }
}

impl Default for Pet {
    /// A nameless pet, otherwise created like any other.
    fn default() -> (r: Pet)
        ensures
            r.wf(),
            r@.name == Seq::<char>::empty(),
            exists|strength: Strength, limit: int|
                50 <= limit < 90 && r@ == PetModel::fresh(Seq::empty(), strength, limit),
    {
        Pet::new(String::new())
    }
}

/// A status report: each need's raw value, its integer percentage of its
/// maximum, and its classification message.
pub struct Status {
    boredom: u8,
    boredom_percentage: u8,
    boredom_status_message: String,
    hunger: u8,
    hunger_percentage: u8,
    hunger_status_message: String,
    health: u16,
    health_percentage: u8,
    health_status_message: String,
}

impl View for Status {
    type V = StatusModel;

    closed spec fn view(&self) -> StatusModel {
        StatusModel {
            boredom: self.boredom as int,
            boredom_percentage: self.boredom_percentage as int,
            boredom_status_message: self.boredom_status_message@,
            hunger: self.hunger as int,
            hunger_percentage: self.hunger_percentage as int,
            hunger_status_message: self.hunger_status_message@,
            health: self.health as int,
            health_percentage: self.health_percentage as int,
            health_status_message: self.health_status_message@,
        }
    }
}

impl Status {
    /// The raw boredom value.
    pub fn get_boredom(&self) -> (r: u8)
        ensures
            r as int == self@.boredom,
    {
        self.boredom
    }

    /// Boredom as an integer percentage of its maximum.
    pub fn get_boredom_percentage(&self) -> (r: u8)
        ensures
            r as int == self@.boredom_percentage,
    {
        self.boredom_percentage
    }

    /// The boredom classification message.
    pub fn get_boredom_status_message(&self) -> (r: &String)
        ensures
            r@ == self@.boredom_status_message,
    {
        &self.boredom_status_message
    }

    /// The raw hunger value.
    pub fn get_hunger(&self) -> (r: u8)
        ensures
            r as int == self@.hunger,
    {
        self.hunger
    }

    /// Hunger as an integer percentage of its maximum.
    pub fn get_hunger_percentage(&self) -> (r: u8)
        ensures
            r as int == self@.hunger_percentage,
    {
        self.hunger_percentage
    }

    /// The hunger classification message.
    pub fn get_hunger_status_message(&self) -> (r: &String)
        ensures
            r@ == self@.hunger_status_message,
    {
        &self.hunger_status_message
    }

    /// The raw health value.
    pub fn get_health(&self) -> (r: u16)
        ensures
            r as int == self@.health,
    {
        self.health
    }

    /// Health as an integer percentage of its maximum.
    pub fn get_health_percentage(&self) -> (r: u8)
        ensures
            r as int == self@.health_percentage,
    {
        self.health_percentage
    }

    /// The health classification message.
    pub fn get_health_status_message(&self) -> (r: &String)
        ensures
            r@ == self@.health_status_message,
    {
        &self.health_status_message
    }
}

/// Law: once a pet is dead, every operation leaves it exactly as it is.
pub proof fn lemma_dead_pet_is_frozen(
    m: PetModel,
    cake: CakeModel,
    other: PetModel,
    sound: Seq<char>,
    text: Seq<char>,
)
    requires
        m.is_dead(),
    ensures
        m.after_tick() == m,
        m.after_feed(cake) == m,
        m.after_train(sound) == m,
        m.after_consume(other) == m,
        m.after_be_consumed(text) == m,
        m.after_change_name(text) == m,
{
}

/// Law: a death reason is recorded at most once; whatever death-causing
/// event comes second, the first cause is retained.
pub proof fn lemma_first_death_cause_retained(m: PetModel, first: Seq<char>, second: Seq<char>)
    requires
        first.len() > 0,
    ensures
        m.after_death(first).after_death(second) == m.after_death(first),
{
}

/// Law: a tick keeps the pet well formed; in particular every need stays
/// within its bounds.
pub proof fn lemma_tick_keeps_invariants(m: PetModel)
    requires
        m.wf(),
    ensures
        m.after_tick().wf(),
        0 <= m.after_tick().boredom <= m.max_boredom,
        0 <= m.after_tick().hunger <= m.max_hunger,
        0 <= m.after_tick().health <= m.max_health,
{
    reveal_strlit("Died of starvation");
}

/// Law: training keeps the pet well formed; in particular it never lets the
/// learned sounds outgrow their capacity, and never stores a duplicate.
pub proof fn lemma_train_keeps_sounds_few_and_distinct(m: PetModel, sound: Seq<char>)
    requires
        m.wf(),
    ensures
        m.after_train(sound).wf(),
        m.after_train(sound).sounds.len() <= m.max_sounds,
        forall|p: int, q: int|
            0 <= p < q < m.after_train(sound).sounds.len() ==> m.after_train(sound).sounds[p]
                != m.after_train(sound).sounds[q],
{
}

/// Law: a rename with a name that is blank after trimming never changes the
/// pet's name.
pub proof fn lemma_blank_rename_keeps_name(m: PetModel, new_name: Seq<char>)
    requires
        trimmed(new_name).len() == 0,
    ensures
        m.after_change_name(new_name).name == m.name,
{
}

} // verus!
