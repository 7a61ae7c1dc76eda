use tileworld::building::BuildingCooldown;
use tileworld::properties::GameProperties;
use tileworld::tick::Ticked;

fn properties(tick_speed: u32) -> GameProperties {
    GameProperties { rpc_port: 1337, tick_speed, seed: 0 }
}

#[test]
fn test_ticking() {
    let properties = properties(1);

    // Build ticking entity
    let mut ticked = Ticked::new(2);

    // Tick through the world, observing the entity firing on every other tick.
    for i in 1..100 {
        ticked.inc(&properties);
        if i % 2 == 0 {
            assert_eq!(ticked.fire_count(), 1, "Ticked did not fire on tick {}", i);
        }
    }
}

#[test]
fn test_increased_tick_speed() {
    let properties = properties(2);

    // Build ticking entity
    let mut ticked = Ticked::new(2);

    // Tick through the world, observing the entity firing on every tick.
    for i in 1..100 {
        ticked.inc(&properties);
        assert_eq!(ticked.fire_count(), 1, "Ticked did not fire on tick {}", i);
    }
}

#[test]
fn test_multiple_fires_every_game_tick() {
    let properties = properties(25);

    // Build ticking entity
    let mut ticked = Ticked::every_tick();

    // Tick through the world, observing the entity firing on every tick 25 times.
    for i in 1..100 {
        ticked.inc(&properties);
        assert_eq!(ticked.fire_count(), 25, "Ticked did not fire on tick {}", i);
    }
}

#[test]
fn odd_ticks_do_not_fire() {
    let properties = properties(1);
    let mut ticked = Ticked::new(2);
    assert_eq!(ticked.fire_count(), 0);
    for i in 1..20 {
        ticked.inc(&properties);
        assert_eq!(ticked.fire_count(), if i % 2 == 0 { 1 } else { 0 });
    }
}

#[test]
fn leftover_steps_are_kept() {
    let properties = properties(5);
    let mut ticked = Ticked::new(3);
    let mut fires = Vec::new();
    for _ in 0..6 {
        ticked.inc(&properties);
        fires.push(ticked.fire_count());
    }
    // 5, 10, 15, 20, 25, 30 steps: 1, 3, 5, 6, 8, 10 times three in all
    assert_eq!(fires, vec![1, 2, 2, 1, 2, 2]);
}

#[test]
fn standing_clock_fires_nothing() {
    let mut ticked = Ticked::new(4);
    ticked.inc(&properties(0));
    assert_eq!(ticked.fire_count(), 0);
    let mut always = Ticked::every_tick();
    always.inc(&properties(0));
    assert_eq!(always.fire_count(), 0);
}

#[test]
fn fire_calls_once_for_each_firing() {
    let mut ticked = Ticked::new(2);
    ticked.inc(&properties(7));
    assert_eq!(ticked.fire_count(), 3);
    let mut calls = 0;
    ticked.fire(|| calls += 1);
    assert_eq!(calls, 3);
    ticked.inc(&properties(0));
    let mut calls = 0;
    ticked.fire(|| calls += 1);
    assert_eq!(calls, 0);
}

#[test]
fn building_cooldown() {
    let mut cooldown = BuildingCooldown(5);
    for x in 0..5 {
        assert_eq!(cooldown.0, 5 - x);
        assert!(!cooldown.tick_down());
    }
    assert_eq!(cooldown.0, 0);

    // The cooldown is over
    assert!(cooldown.tick_down(), "Expected to be over but instead was {:?}", cooldown);
    assert_eq!(cooldown.0, 0);
}

#[test]
fn check_inc_tells_when_the_counter_overflows() {
    let mut ticked = Ticked::new(u32::MAX);
    assert!(ticked.check_inc(&properties(u32::MAX)));
    ticked.inc(&properties(u32::MAX - 1));
    assert_eq!(ticked.fire_count(), 0);
    assert!(ticked.check_inc(&properties(1)));
    assert!(!ticked.check_inc(&properties(2)));
    ticked.inc(&properties(1));
    assert_eq!(ticked.fire_count(), 1);
    assert!(Ticked::every_tick().check_inc(&properties(u32::MAX)));
}
