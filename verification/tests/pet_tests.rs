use tamagotchi::cake::{Cake, Replenishment};
use tamagotchi::pet::{Pet, Strength};

fn fresh_normal(name: &str) -> Pet {
    Pet::with_state(String::from(name), Strength::Normal, 60, 0, 0, 100, 0)
}

#[test]
fn bounds_hold_over_many_ticks() {
    let mut pet = fresh_normal("Rex");
    for _ in 0..60 {
        pet.tick();
        let status = pet.get_status_report();
        assert!(status.get_boredom() <= pet.get_max_boredom());
        assert!(status.get_hunger() <= pet.get_max_hunger());
        assert!(status.get_health() <= pet.get_max_health());
    }
}

#[test]
fn dead_pet_is_frozen() {
    let mut pet = fresh_normal("Rex");
    pet.tick();
    assert!(pet.train(String::from("Woof")).is_none());
    pet.be_consumed(String::from("Alice"));

    let status = pet.get_status_report();
    assert_eq!(status.get_health(), 0);
    assert_eq!(status.get_hunger(), 0);
    assert_eq!(status.get_boredom(), 0);
    assert_eq!(pet.get_ticks_survived(), 1);

    pet.tick();
    assert_eq!(pet.get_ticks_survived(), 1);
    let cake = Cake::new(
        String::from("c"),
        Replenishment::Unbounded,
        Replenishment::Unbounded,
        0,
    );
    pet.feed(&cake);
    assert_eq!(pet.get_status_report().get_health(), 0);
    let reply = pet.train(String::from("Miaow"));
    assert_eq!(reply, Some(String::from("Rex is dead!")));
    assert_eq!(pet.get_sounds().len(), 1);
    pet.change_name(String::from("Max"));
    assert_eq!(pet.get_name(), "Rex");
    let other = fresh_normal("Sam");
    pet.consume(&other);
    assert_eq!(pet.get_status_report().get_hunger(), 0);
    assert_eq!(pet.get_status_report().get_health(), 0);
}

#[test]
fn first_death_cause_is_retained() {
    let mut pet = fresh_normal("Rex");
    pet.be_consumed(String::from("Alice"));
    pet.be_consumed(String::from("Bob"));
    assert_eq!(pet.get_reason_for_death(), "Eaten by Alice");
}

#[test]
fn training_respects_capacity_and_rejects_duplicates() {
    let mut pet = fresh_normal("Rex");
    for sound in ["Woof", "Miaow", "Moo", "Baa", "Oink"] {
        assert!(pet.train(String::from(sound)).is_none());
    }
    assert_eq!(pet.get_sounds().len(), 5);

    let reply = pet.train(String::from("Neigh"));
    assert_eq!(reply, Some(String::from("Rex's memory is full!")));
    assert_eq!(pet.get_sounds().len(), 5);

    let sounds = pet.get_sounds().clone();
    for i in 0..sounds.len() {
        for j in 0..sounds.len() {
            if i != j {
                assert_ne!(sounds[i], sounds[j]);
            }
        }
    }
}

#[test]
fn tick_at_the_hunger_limit_starves() {
    let mut pet = Pet::with_state(String::from("Pip"), Strength::Normal, 60, 0, 80, 100, 0);
    pet.tick();
    let status = pet.get_status_report();
    assert_eq!(status.get_boredom(), 4);
    assert_eq!(status.get_boredom_status_message(), "happy");
    assert_eq!(status.get_hunger(), 84);
    assert_eq!(status.get_hunger_status_message(), "starving");
    assert_eq!(status.get_health(), 98);
    assert_eq!(pet.get_ticks_survived(), 1);
}

#[test]
fn feeding_applies_finite_and_unbounded_replenishment() {
    let mut pet = Pet::with_state(String::from("Rex"), Strength::Normal, 60, 0, 30, 50, 0);
    let cake = Cake::new(
        String::from("sponge"),
        Replenishment::Finite(20),
        Replenishment::Unbounded,
        3,
    );
    pet.feed(&cake);
    let status = pet.get_status_report();
    assert_eq!(status.get_hunger(), 10);
    assert_eq!(status.get_health(), 100);
}

#[test]
fn feeding_clamps_at_the_bounds() {
    let mut pet = Pet::with_state(String::from("Rex"), Strength::Normal, 60, 0, 10, 50, 0);
    let cake = Cake::new(
        String::from("rich"),
        Replenishment::Finite(20),
        Replenishment::Finite(100),
        0,
    );
    pet.feed(&cake);
    let status = pet.get_status_report();
    assert_eq!(status.get_hunger(), 0);
    assert_eq!(status.get_health(), 100);
}

#[test]
fn training_twice_with_the_same_sound() {
    let mut pet = fresh_normal("Rex");
    assert_eq!(pet.train(String::from("Woof")), None);
    assert_eq!(pet.get_sounds(), &vec![String::from("Woof")]);
    let status = pet.get_status_report();
    assert_eq!(status.get_boredom(), 0);
    assert_eq!(status.get_hunger(), 25);

    let reply = pet.train(String::from("Woof"));
    assert_eq!(reply, Some(String::from("Rex already knows Woof...")));
    assert_eq!(pet.get_sounds(), &vec![String::from("Woof")]);
    let status = pet.get_status_report();
    assert_eq!(status.get_boredom(), 0);
    assert_eq!(status.get_hunger(), 25);
}

#[test]
fn a_dead_pet_has_no_nutritional_value() {
    let mut pet = fresh_normal("Rex");
    pet.be_consumed(String::from("Alice"));
    let cake = pet.get_nutritional_info();
    assert_eq!(cake.get_hunger_replenished().finite(), Some(0));
    assert_eq!(cake.get_health_replenished().finite(), Some(0));
    assert_eq!(cake.get_name(), "RexCake");
    assert_eq!(cake.get_cost(), 0);
}

#[test]
fn blank_renames_are_ignored() {
    let mut pet = fresh_normal("Rex");
    pet.change_name(String::from(""));
    assert_eq!(pet.get_name(), "Rex");
    pet.change_name(String::from("  "));
    assert_eq!(pet.get_name(), "Rex");
    pet.change_name(String::from("Max"));
    assert_eq!(pet.get_name(), "Max");
}

#[test]
fn training_rejects_a_blank_sound() {
    let mut pet = fresh_normal("Rex");
    let reply = pet.train(String::from("   "));
    assert_eq!(reply, Some(String::from("no sound provided...")));
    assert!(pet.get_sounds().is_empty());
}

#[test]
fn sounds_are_stored_trimmed() {
    let mut pet = fresh_normal("Rex");
    assert_eq!(pet.train(String::from("  Woof  ")), None);
    assert_eq!(pet.get_sounds(), &vec![String::from("Woof")]);
    let reply = pet.train(String::from("Woof"));
    assert_eq!(reply, Some(String::from("Rex already knows Woof...")));
}

#[test]
fn a_living_pet_has_no_death_reason() {
    let pet = fresh_normal("Rex");
    assert_eq!(pet.get_reason_for_death(), "I'm still alive :eye:");
}

#[test]
fn starvation_kills_and_names_the_cause() {
    let mut pet = Pet::with_state(String::from("Rex"), Strength::Normal, 60, 0, 100, 1, 7);
    pet.tick();
    let status = pet.get_status_report();
    assert_eq!(status.get_health(), 0);
    assert_eq!(status.get_health_status_message(), "dead");
    assert_eq!(pet.get_ticks_survived(), 8);
    assert_eq!(pet.get_reason_for_death(), "Died of starvation");
}

#[test]
fn boredom_above_the_limit_doubles_the_rates() {
    let mut pet = Pet::with_state(String::from("Rex"), Strength::Normal, 50, 60, 0, 100, 0);
    pet.tick();
    let status = pet.get_status_report();
    assert_eq!(status.get_boredom(), 68);
    assert_eq!(status.get_boredom_status_message(), "bored");
    assert_eq!(status.get_hunger(), 8);
}

#[test]
fn boredom_above_the_anger_limit_quadruples_the_hunger_rate() {
    let mut pet = Pet::with_state(String::from("Rex"), Strength::Normal, 50, 95, 0, 100, 0);
    pet.tick();
    let status = pet.get_status_report();
    assert_eq!(status.get_boredom(), 100);
    assert_eq!(status.get_boredom_status_message(), "angry");
    assert_eq!(status.get_hunger(), 16);
}

#[test]
fn low_health_halves_the_hunger_rate() {
    let mut pet = Pet::with_state(String::from("Rex"), Strength::Normal, 60, 0, 0, 25, 0);
    pet.tick();
    assert_eq!(pet.get_status_report().get_hunger(), 2);
}

#[test]
fn a_weak_pet_has_a_fixed_boredom_limit() {
    let mut pet = Pet::with_state(String::from("Rex"), Strength::Weak, 0, 95, 0, 50, 0);
    assert_eq!(pet.get_max_health(), 50);
    pet.tick();
    let status = pet.get_status_report();
    assert_eq!(status.get_boredom(), 99);
    assert_eq!(status.get_boredom_status_message(), "happy");
    assert_eq!(status.get_hunger(), 4);
}

#[test]
fn a_strong_pet_hungers_twice_as_fast() {
    let mut pet = Pet::with_state(String::from("Rex"), Strength::Strong, 60, 0, 0, 200, 0);
    assert_eq!(pet.get_max_health(), 200);
    pet.tick();
    assert_eq!(pet.get_status_report().get_hunger(), 8);
}

#[test]
fn percentages_truncate_before_scaling() {
    let pet = Pet::with_state(String::from("Rex"), Strength::Normal, 60, 99, 100, 100, 0);
    let status = pet.get_status_report();
    assert_eq!(status.get_boredom_percentage(), 0);
    assert_eq!(status.get_hunger_percentage(), 100);
    assert_eq!(status.get_health_percentage(), 100);

    let part = Pet::with_state(String::from("Rex"), Strength::Strong, 60, 0, 0, 100, 0);
    assert_eq!(part.get_status_report().get_health_percentage(), 0);
}

#[test]
fn health_messages_follow_the_ratio_thresholds() {
    let fit = Pet::with_state(String::from("Rex"), Strength::Strong, 60, 0, 0, 160, 0);
    assert_eq!(
        fit.get_status_report().get_health_status_message(),
        "fighting fit"
    );
    let ok = Pet::with_state(String::from("Rex"), Strength::Strong, 60, 0, 0, 159, 0);
    assert_eq!(ok.get_status_report().get_health_status_message(), "ok");
    let still_ok = Pet::with_state(String::from("Rex"), Strength::Strong, 60, 0, 0, 40, 0);
    assert_eq!(
        still_ok.get_status_report().get_health_status_message(),
        "ok"
    );
    let sick = Pet::with_state(String::from("Rex"), Strength::Strong, 60, 0, 0, 39, 0);
    assert_eq!(sick.get_status_report().get_health_status_message(), "sick");
}

#[test]
fn hunger_messages_follow_the_limits() {
    let full = Pet::with_state(String::from("Rex"), Strength::Normal, 60, 0, 49, 100, 0);
    assert_eq!(full.get_status_report().get_hunger_status_message(), "full");
    let hungry = Pet::with_state(String::from("Rex"), Strength::Normal, 60, 0, 50, 100, 0);
    assert_eq!(
        hungry.get_status_report().get_hunger_status_message(),
        "hungry"
    );
    let edge = Pet::with_state(String::from("Rex"), Strength::Normal, 60, 0, 80, 100, 0);
    assert_eq!(
        edge.get_status_report().get_hunger_status_message(),
        "hungry"
    );
    let starving = Pet::with_state(String::from("Rex"), Strength::Normal, 60, 0, 81, 100, 0);
    assert_eq!(
        starving.get_status_report().get_hunger_status_message(),
        "starving"
    );
}

#[test]
fn consuming_another_pet_feeds_on_its_deficits() {
    let mut eater = Pet::with_state(String::from("Rex"), Strength::Normal, 60, 30, 50, 60, 0);
    let mut meal = Pet::with_state(String::from("Sam"), Strength::Normal, 60, 0, 0, 100, 0);
    // The meal's deficits, floored at 20: hunger 80 - 0 = 80, health 20.
    eater.consume(&meal);
    let status = eater.get_status_report();
    assert_eq!(status.get_hunger(), 0);
    assert_eq!(status.get_health(), 80);
    assert_eq!(status.get_boredom(), 0);
    // The meal itself is only read; the caller has it consumed separately.
    assert_eq!(meal.get_status_report().get_health(), 100);
    meal.be_consumed(String::from("Rex"));
    assert_eq!(meal.get_reason_for_death(), "Eaten by Rex");
}

#[test]
fn nutrition_of_a_starved_pet_is_floored() {
    let pet = Pet::with_state(String::from("Rex"), Strength::Normal, 60, 0, 100, 100, 0);
    let cake = pet.get_nutritional_info();
    // Hunger is past the limit and health is full, so both deficits take
    // the floor of 20.
    assert_eq!(cake.get_hunger_replenished().finite(), Some(20));
    assert_eq!(cake.get_health_replenished().finite(), Some(20));
}

#[test]
fn a_new_pet_starts_fresh() {
    let pet = Pet::new(String::from("Rex"));
    assert_eq!(pet.get_name(), "Rex");
    assert_eq!(pet.get_max_boredom(), 100);
    assert_eq!(pet.get_max_hunger(), 100);
    let max_health = pet.get_max_health();
    assert!(max_health == 50 || max_health == 100 || max_health == 200);
    assert_eq!(pet.get_ticks_survived(), 0);
    assert!(pet.get_sounds().is_empty());
    let status = pet.get_status_report();
    assert_eq!(status.get_boredom(), 0);
    assert_eq!(status.get_hunger(), 0);
    assert_eq!(status.get_health(), max_health);
    assert_eq!(status.get_health_percentage(), 100);
    assert_eq!(status.get_health_status_message(), "fighting fit");
}

#[test]
fn a_default_pet_is_nameless() {
    let pet = Pet::default();
    assert_eq!(pet.get_name(), "");
    assert!(pet.get_sounds().is_empty());
    assert_eq!(pet.get_ticks_survived(), 0);
}

#[test]
fn the_tick_counter_saturates_at_its_width() {
    let mut pet = fresh_normal("Rex");
    let cake = Cake::new(
        String::from("c"),
        Replenishment::Unbounded,
        Replenishment::Unbounded,
        0,
    );
    for _ in 0..70_000 {
        pet.feed(&cake);
        pet.tick();
    }
    assert_eq!(pet.get_ticks_survived(), u16::MAX);
    assert_eq!(pet.get_reason_for_death(), "I'm still alive :eye:");
}
