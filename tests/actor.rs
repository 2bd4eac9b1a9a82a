use arena::actor::{Actor, Component};

fn sample_actor(x: i16, y: i16) -> Actor {
    Actor {
        id: 1,
        components: vec![
            Component::Transform { x, y },
            Component::Physics {
                acceleration_bits: 5.0f32.to_bits(),
                max_velocity_bits: 20.0f32.to_bits(),
            },
        ],
    }
}

#[test]
fn five_updates_move_transform_five_steps() {
    let mut actor = sample_actor(100, 100);
    for _ in 0..5 {
        actor.update();
    }
    assert_eq!(actor.components[0], Component::Transform { x: 105, y: 100 });
}

#[test]
fn updates_keep_order_and_physics() {
    let mut actor = sample_actor(-7, 3);
    let n: i16 = 40;
    for _ in 0..n {
        actor.update();
    }
    assert_eq!(actor.id, 1);
    assert_eq!(actor.components.len(), 2);
    assert_eq!(actor.components[0], Component::Transform { x: -7 + n, y: 3 });
    match actor.components[1] {
        Component::Physics { acceleration_bits, max_velocity_bits } => {
            assert_eq!(f32::from_bits(acceleration_bits), 5.0);
            assert_eq!(f32::from_bits(max_velocity_bits), 20.0);
        }
        _ => panic!("physics moved from its place"),
    }
}

#[test]
fn transform_wraps_at_largest_coordinate() {
    let mut c = Component::Transform { x: i16::MAX, y: 0 };
    c.update();
    assert_eq!(c, Component::Transform { x: i16::MIN, y: 0 });
}

#[test]
fn physics_update_does_nothing() {
    let before = Component::Physics { acceleration_bits: 7, max_velocity_bits: 9 };
    let mut c = before;
    c.update();
    assert_eq!(c, before);
}

#[test]
fn actor_without_components_updates() {
    let mut actor = Actor { id: 4, components: vec![] };
    actor.update();
    assert_eq!(actor.id, 4);
    assert!(actor.components.is_empty());
}

#[test]
fn each_transform_advances_on_its_own() {
    let mut actor = Actor {
        id: 2,
        components: vec![
            Component::Transform { x: 1, y: 1 },
            Component::Transform { x: 50, y: -2 },
        ],
    };
    actor.update();
    actor.update();
    assert_eq!(actor.components[0], Component::Transform { x: 3, y: 1 });
    assert_eq!(actor.components[1], Component::Transform { x: 52, y: -2 });
}
