use lorenz_attractor::config::{
    IntegrationMethod, ResetEvent, SimulationConfig, SimulationStats, DEFAULT_BETA, DEFAULT_DT,
    DEFAULT_INITIAL, DEFAULT_MAX_TRAIL_POINTS, DEFAULT_RHO, DEFAULT_SIGMA, DEFAULT_STEPS_PER_FRAME,
};
use lorenz_attractor::lorenz::{LorenzParams, LorenzState};

#[test]
fn labels_name_the_order_of_each_method() {
    assert_eq!(IntegrationMethod::Euler.label(), "Euler (1st order)");
    assert_eq!(IntegrationMethod::RungeKutta4.label(), "Runge-Kutta 4 (4th order)");
}

#[test]
fn methods_compare_by_variant() {
    assert_eq!(IntegrationMethod::Euler, IntegrationMethod::Euler);
    assert_ne!(IntegrationMethod::Euler, IntegrationMethod::RungeKutta4);
}

#[test]
fn default_constants_encode_the_documented_values() {
    assert_eq!(f64::from_bits(DEFAULT_SIGMA), 10.0);
    assert_eq!(f64::from_bits(DEFAULT_RHO), 28.0);
    assert_eq!(f64::from_bits(DEFAULT_BETA), 8.0 / 3.0);
    assert_eq!(f64::from_bits(DEFAULT_DT), 0.005);
    assert_eq!(f64::from_bits(DEFAULT_INITIAL), 1.0);
    assert_eq!(DEFAULT_STEPS_PER_FRAME, 8);
    assert_eq!(DEFAULT_MAX_TRAIL_POINTS, 25_000);
}

#[test]
fn default_config_holds_the_documented_values() {
    let config = SimulationConfig::default();
    assert_eq!(f64::from_bits(config.sigma), 10.0);
    assert_eq!(f64::from_bits(config.rho), 28.0);
    assert_eq!(f64::from_bits(config.beta), 8.0 / 3.0);
    assert_eq!(f64::from_bits(config.dt), 0.005);
    assert_eq!(config.method, IntegrationMethod::RungeKutta4);
    assert_eq!(config.steps_per_frame, 8);
    assert!(!config.paused);
    assert_eq!(config.max_trail_points, 25_000);
    assert_eq!(f64::from_bits(config.initial_x), 1.0);
    assert_eq!(f64::from_bits(config.initial_y), 1.0);
    assert_eq!(f64::from_bits(config.initial_z), 1.0);
    assert!(config.show_energy);
    assert!(config.show_divergence);
    assert!(config.show_velocity);
}

#[test]
fn params_copies_the_three_coefficients() {
    let mut config = SimulationConfig::default();
    config.sigma = 3.5f64.to_bits();
    config.rho = 14.25f64.to_bits();
    config.beta = 0.75f64.to_bits();
    assert_eq!(
        config.params(),
        LorenzParams { sigma: 3.5f64.to_bits(), rho: 14.25f64.to_bits(), beta: 0.75f64.to_bits() }
    );
}

#[test]
fn initial_state_is_the_configured_start() {
    let mut config = SimulationConfig::default();
    config.initial_x = (-2.0f64).to_bits();
    config.initial_y = 7.0f64.to_bits();
    config.initial_z = 19.5f64.to_bits();
    assert_eq!(
        config.initial_state(),
        LorenzState { x: (-2.0f64).to_bits(), y: 7.0f64.to_bits(), z: 19.5f64.to_bits() }
    );
}

#[test]
fn default_stats_are_all_zero() {
    let stats = SimulationStats::default();
    assert_eq!(f64::from_bits(stats.integration_time_us), 0.0);
    assert_eq!(f64::from_bits(stats.current_energy), 0.0);
    assert_eq!(f64::from_bits(stats.current_velocity), 0.0);
    assert_eq!(f64::from_bits(stats.divergence), 0.0);
    assert_eq!(stats.point_count, 0);
}

#[test]
fn reset_events_carry_nothing() {
    assert_eq!(ResetEvent, ResetEvent);
    assert_eq!(std::mem::size_of::<ResetEvent>(), 0);
}
