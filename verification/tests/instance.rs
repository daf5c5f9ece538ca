use particle_gravity::instance::{Instance, InstanceRaw, Vector3};
use particle_gravity::scalar::{clear_sign, is_within, HALF, ONE, SIGN_BIT, ZERO};

fn vector(x: f32, y: f32, z: f32) -> Vector3 {
    Vector3 { x: x.to_bits(), y: y.to_bits(), z: z.to_bits() }
}

fn sum(a: u32, b: u32) -> u32 {
    (f32::from_bits(a) + f32::from_bits(b)).to_bits()
}

#[test]
fn constants_are_the_patterns_of_their_values() {
    assert_eq!(ZERO, 0.0f32.to_bits());
    assert_eq!(HALF, 0.5f32.to_bits());
    assert_eq!(ONE, 1.0f32.to_bits());
    assert_eq!(SIGN_BIT, (-0.0f32).to_bits());
}

#[test]
fn clearing_the_sign_gives_the_absolute_value() {
    for value in [0.0f32, -0.0, 1.5, -1.5, 0.05, -0.05, f32::INFINITY, f32::NEG_INFINITY, f32::MIN_POSITIVE] {
        assert_eq!(clear_sign(value.to_bits()), value.abs().to_bits());
    }
    assert_eq!(clear_sign(0xFFFF_FFFF), 0x7FFF_FFFF);
}

#[test]
fn within_compares_absolute_values() {
    let bound = 2.0f32.to_bits();
    for (value, expected) in [(0.0f32, true), (2.0, true), (-2.0, true), (1.999, true), (2.0001, false), (-3.0, false)] {
        assert_eq!(is_within(value.to_bits(), bound), expected);
    }
    assert!(!is_within(f32::NAN.to_bits(), bound));
    assert!(!is_within(f32::INFINITY.to_bits(), bound));
}

#[test]
fn raw_instance_keeps_position_and_colour_and_drops_the_force() {
    let instance = Instance {
        position: vector(0.25, -0.5, 0.0),
        color: vector(1.0, 1.0, 0.5),
        forces: vector(9.0, 8.0, 7.0),
    };
    let raw = instance.to_raw();
    assert_eq!(
        raw,
        InstanceRaw {
            position: [0.25f32.to_bits(), (-0.5f32).to_bits(), 0],
            color: [ONE, ONE, HALF],
        }
    );
}

#[test]
fn force_compounds_from_call_to_call() {
    let p = (0.5f32, -0.25f32, 0.0f32);
    let f = (0.125f32, 0.0625f32, 0.0f32);
    let mut instance = Instance {
        position: vector(p.0, p.1, p.2),
        color: vector(1.0, 1.0, 0.5),
        forces: vector(0.0, 0.0, 0.0),
    };
    instance.update_forces(vector(f.0, f.1, f.2), &sum);
    assert_eq!(instance.forces, vector(f.0, f.1, f.2));
    assert_eq!(instance.position, vector(p.0 + f.0, p.1 + f.1, p.2 + f.2));
    instance.update_forces(vector(f.0, f.1, f.2), &sum);
    assert_eq!(instance.forces, vector(2.0 * f.0, 2.0 * f.1, 2.0 * f.2));
    assert_eq!(instance.position, vector(p.0 + f.0 + 2.0 * f.0, p.1 + f.1 + 2.0 * f.1, 0.0));
    assert_ne!(instance.position, vector(p.0 + 2.0 * f.0, p.1 + 2.0 * f.1, 0.0));
    assert_eq!(instance.color, vector(1.0, 1.0, 0.5));
}

#[test]
fn update_forces_adds_force_first_and_then_moves_by_all_of_it() {
    let tag = |a: u32, b: u32| 1000 * a + b;
    let mut instance = Instance {
        position: Vector3 { x: 1, y: 2, z: 3 },
        color: Vector3 { x: 4, y: 5, z: 6 },
        forces: Vector3 { x: 7, y: 8, z: 9 },
    };
    instance.update_forces(Vector3 { x: 10, y: 20, z: 30 }, &tag);
    assert_eq!(instance.forces, Vector3 { x: 7010, y: 8020, z: 9030 });
    assert_eq!(instance.position, Vector3 { x: 1000 + 7010, y: 2000 + 8020, z: 3000 + 9030 });
    assert_eq!(instance.color, Vector3 { x: 4, y: 5, z: 6 });
}

#[test]
fn the_pull_is_asked_at_the_place_in_the_plane_and_lies_in_the_plane() {
    let instance = Instance {
        position: Vector3 { x: 11, y: 22, z: 33 },
        color: Vector3 { x: 4, y: 5, z: 6 },
        forces: Vector3 { x: 7, y: 8, z: 9 },
    };
    let force = instance.calculate_gravitational_pull(&|x: u32, y: u32| (x + 1, y + 2));
    assert_eq!(force, Vector3 { x: 12, y: 24, z: ZERO });
}

#[test]
fn a_force_that_is_not_a_number_spreads_to_the_position() {
    let mut instance = Instance {
        position: vector(0.0, 0.0, 0.0),
        color: vector(1.0, 1.0, 0.5),
        forces: vector(0.0, 0.0, 0.0),
    };
    instance.update_forces(vector(f32::NAN, f32::INFINITY, 0.0), &sum);
    assert!(f32::from_bits(instance.forces.x).is_nan());
    assert!(f32::from_bits(instance.position.x).is_nan());
    assert_eq!(instance.position.y, f32::INFINITY.to_bits());
    assert_eq!(instance.position.z, ZERO);
}
