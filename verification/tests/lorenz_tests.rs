use lorenz_attractor::lorenz::{LorenzState, Position};

#[test]
fn new_keeps_each_coordinate() {
    let state = LorenzState::new(5.0f64.to_bits(), (-3.0f64).to_bits(), 12.0f64.to_bits());
    assert_eq!(f64::from_bits(state.x), 5.0);
    assert_eq!(f64::from_bits(state.y), -3.0);
    assert_eq!(f64::from_bits(state.z), 12.0);
}

#[test]
fn default_state_is_one_one_one() {
    let state = LorenzState::default();
    assert_eq!(f64::from_bits(state.x), 1.0);
    assert_eq!(f64::from_bits(state.y), 1.0);
    assert_eq!(f64::from_bits(state.z), 1.0);
}

#[test]
fn to_vec3_trades_y_and_z() {
    let state = LorenzState::new(1.5f64.to_bits(), 2.5f64.to_bits(), 3.5f64.to_bits());
    let position = state.to_vec3();
    assert_eq!(f64::from_bits(position.x), 1.5);
    assert_eq!(f64::from_bits(position.y), 3.5);
    assert_eq!(f64::from_bits(position.z), 2.5);
    assert_eq!(
        position,
        Position { x: 1.5f64.to_bits(), y: 3.5f64.to_bits(), z: 2.5f64.to_bits() }
    );
}

#[test]
fn to_vec3_leaves_the_state_alone() {
    let state = LorenzState::new(1, 2, 3);
    let _ = state.to_vec3();
    assert_eq!(state, LorenzState { x: 1, y: 2, z: 3 });
}
