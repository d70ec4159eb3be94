use nucleation::alert::{
    compute_alert_level, AlertLevel, NucleationAlert, TrendDirection, PHI_HIGH_BITS,
    PHI_WARNING_BITS, PHI_WATCH_BITS, TREND_FALLING_BITS, TREND_RISING_BITS, TREND_STEEP_BITS,
};
use nucleation::detector::BASELINE_FLOOR_BITS;
use nucleation::error::{check_dimensions, DivergenceError};
use nucleation::model::{
    ModelConfig, DEFAULT_ALPHA_BITS, DEFAULT_BETA_BITS, DEFAULT_GAMMA_BITS,
    DEFAULT_LEARNING_RATE_BITS,
};
use nucleation::phase::{
    clamp_unit, classify, confidence, is_warming_up, Phase, SmoothingKernel, VarianceConfig,
    CONSERVATIVE_THRESHOLD_BITS, DEFAULT_THRESHOLD_BITS, ONE_BITS, SENSITIVE_THRESHOLD_BITS,
    ZERO_BITS,
};
use nucleation::risk::RiskLevel;
use nucleation::scalar::Scalar;
use nucleation::scheme::SchemeSource;
use nucleation::stream::{
    StreamConfig, DEFAULT_ESCALATION_ALERT_BITS, DEFAULT_JS_ALERT_BITS, DEFAULT_PHI_ALERT_BITS,
};

fn s(x: f64) -> Scalar {
    Scalar::from_bits(x.to_bits())
}

fn f(x: Scalar) -> f64 {
    f64::from_bits(x.to_bits())
}

#[test]
fn constants_are_the_doubles_they_name() {
    assert_eq!(ZERO_BITS, 0.0f64.to_bits());
    assert_eq!(ONE_BITS, 1.0f64.to_bits());
    assert_eq!(DEFAULT_THRESHOLD_BITS, 1.5f64.to_bits());
    assert_eq!(SENSITIVE_THRESHOLD_BITS, 1.0f64.to_bits());
    assert_eq!(CONSERVATIVE_THRESHOLD_BITS, 2.5f64.to_bits());
    assert_eq!(PHI_HIGH_BITS, 1.0f64.to_bits());
    assert_eq!(PHI_WARNING_BITS, 1.5f64.to_bits());
    assert_eq!(PHI_WATCH_BITS, 2.0f64.to_bits());
    assert_eq!(TREND_STEEP_BITS, 0.1f64.to_bits());
    assert_eq!(TREND_RISING_BITS, 0.05f64.to_bits());
    assert_eq!(TREND_FALLING_BITS, (-0.05f64).to_bits());
    assert_eq!(BASELINE_FLOOR_BITS, 1e-10f64.to_bits());
    assert_eq!(DEFAULT_LEARNING_RATE_BITS, 0.1f64.to_bits());
    assert_eq!(DEFAULT_ALPHA_BITS, 0.5f64.to_bits());
    assert_eq!(DEFAULT_BETA_BITS, 0.3f64.to_bits());
    assert_eq!(DEFAULT_GAMMA_BITS, 0.8f64.to_bits());
    assert_eq!(DEFAULT_PHI_ALERT_BITS, 2.0f64.to_bits());
    assert_eq!(DEFAULT_JS_ALERT_BITS, 0.6f64.to_bits());
    assert_eq!(DEFAULT_ESCALATION_ALERT_BITS, 0.7f64.to_bits());
    assert_eq!(nucleation::risk::PHI_MODERATE_BITS, 0.5f64.to_bits());
    assert_eq!(nucleation::risk::PHI_ELEVATED_BITS, 1.0f64.to_bits());
    assert_eq!(nucleation::risk::PHI_HIGH_BITS, 2.0f64.to_bits());
    assert_eq!(nucleation::risk::PHI_CRITICAL_BITS, 4.0f64.to_bits());
    assert_eq!(nucleation::risk::PROBABILITY_MODERATE_BITS, 0.2f64.to_bits());
    assert_eq!(nucleation::risk::PROBABILITY_ELEVATED_BITS, 0.4f64.to_bits());
    assert_eq!(nucleation::risk::PROBABILITY_HIGH_BITS, 0.6f64.to_bits());
    assert_eq!(nucleation::risk::PROBABILITY_CRITICAL_BITS, 0.8f64.to_bits());
}

#[test]
fn defaults_are_as_documented() {
    let v = VarianceConfig::default();
    assert_eq!(v.window_size, 40);
    assert_eq!(v.smoothing_window, 15);
    assert_eq!(f(v.threshold), 1.5);
    assert_eq!(v.min_peak_distance, 20);
    assert_eq!(v.kernel, SmoothingKernel::Uniform);
    let v = VarianceConfig::sensitive();
    assert_eq!(f(v.threshold), 1.0);
    assert_eq!(v.min_peak_distance, 10);
    assert_eq!(v.window_size, 40);
    let v = VarianceConfig::conservative();
    assert_eq!(f(v.threshold), 2.5);
    assert_eq!(v.min_peak_distance, 30);
    let m = ModelConfig::default();
    assert_eq!(m.n_categories, 50);
    assert_eq!(f(m.learning_rate), 0.1);
    assert_eq!(f(m.escalation_alpha), 0.5);
    assert_eq!(f(m.escalation_beta), 0.3);
    assert_eq!(f(m.escalation_gamma), 0.8);
    assert_eq!(m.grievance_window, 30);
    let c = StreamConfig::default();
    assert_eq!(f(c.phi_alert_threshold), 2.0);
    assert_eq!(f(c.js_alert_threshold), 0.6);
    assert_eq!(f(c.escalation_alert_threshold), 0.7);
    assert_eq!(c.alert_cooldown_ms, 300_000);
    assert_eq!(c.batch_size, 100);
    assert!(c.deduplicate);
    assert_eq!(Phase::default(), Phase::Stable);
    assert_eq!(AlertLevel::default(), AlertLevel::Green);
    assert_eq!(SmoothingKernel::default(), SmoothingKernel::Uniform);
    assert_eq!(SchemeSource::default(), SchemeSource::Manual);
}

#[test]
fn risk_from_phi_cut_points() {
    assert_eq!(RiskLevel::from_phi(s(0.0)), RiskLevel::Low);
    assert_eq!(RiskLevel::from_phi(s(0.49)), RiskLevel::Low);
    assert_eq!(RiskLevel::from_phi(s(0.5)), RiskLevel::Moderate);
    assert_eq!(RiskLevel::from_phi(s(0.99)), RiskLevel::Moderate);
    assert_eq!(RiskLevel::from_phi(s(1.0)), RiskLevel::Elevated);
    assert_eq!(RiskLevel::from_phi(s(1.99)), RiskLevel::Elevated);
    assert_eq!(RiskLevel::from_phi(s(2.0)), RiskLevel::High);
    assert_eq!(RiskLevel::from_phi(s(3.99)), RiskLevel::High);
    assert_eq!(RiskLevel::from_phi(s(4.0)), RiskLevel::Critical);
    assert_eq!(RiskLevel::from_phi(s(f64::INFINITY)), RiskLevel::Critical);
    assert_eq!(RiskLevel::from_phi(s(f64::NAN)), RiskLevel::Critical);
    assert_eq!(RiskLevel::from_phi(s(-1.0)), RiskLevel::Low);
}

#[test]
fn risk_from_probability_cut_points() {
    assert_eq!(RiskLevel::from_probability(s(0.0)), RiskLevel::Low);
    assert_eq!(RiskLevel::from_probability(s(0.19)), RiskLevel::Low);
    assert_eq!(RiskLevel::from_probability(s(0.2)), RiskLevel::Moderate);
    assert_eq!(RiskLevel::from_probability(s(0.39)), RiskLevel::Moderate);
    assert_eq!(RiskLevel::from_probability(s(0.4)), RiskLevel::Elevated);
    assert_eq!(RiskLevel::from_probability(s(0.59)), RiskLevel::Elevated);
    assert_eq!(RiskLevel::from_probability(s(0.6)), RiskLevel::High);
    assert_eq!(RiskLevel::from_probability(s(0.79)), RiskLevel::High);
    assert_eq!(RiskLevel::from_probability(s(0.8)), RiskLevel::Critical);
    assert_eq!(RiskLevel::from_probability(s(1.0)), RiskLevel::Critical);
}

#[test]
fn risk_names() {
    assert_eq!(RiskLevel::Low.as_str(), "LOW");
    assert_eq!(RiskLevel::Moderate.as_str(), "MODERATE");
    assert_eq!(RiskLevel::Elevated.as_str(), "ELEVATED");
    assert_eq!(RiskLevel::High.as_str(), "HIGH");
    assert_eq!(RiskLevel::Critical.as_str(), "CRITICAL");
}

#[test]
fn alert_level_table() {
    for phase in [Phase::Critical, Phase::Transitioning] {
        assert_eq!(compute_alert_level(phase, s(1.01), s(0.0)), AlertLevel::Red);
        assert_eq!(compute_alert_level(phase, s(1.0), s(9.0)), AlertLevel::Orange);
        assert_eq!(compute_alert_level(phase, s(0.0), s(0.0)), AlertLevel::Orange);
        assert_eq!(compute_alert_level(phase, s(f64::NAN), s(0.0)), AlertLevel::Orange);
    }
    assert_eq!(compute_alert_level(Phase::Approaching, s(1.51), s(0.0)), AlertLevel::Orange);
    assert_eq!(compute_alert_level(Phase::Approaching, s(0.2), s(0.11)), AlertLevel::Orange);
    assert_eq!(compute_alert_level(Phase::Approaching, s(1.5), s(0.1)), AlertLevel::Yellow);
    assert_eq!(compute_alert_level(Phase::Approaching, s(0.0), s(-1.0)), AlertLevel::Yellow);
    assert_eq!(compute_alert_level(Phase::Stable, s(2.01), s(-5.0)), AlertLevel::Yellow);
    assert_eq!(compute_alert_level(Phase::Stable, s(1.01), s(0.051)), AlertLevel::Yellow);
    assert_eq!(compute_alert_level(Phase::Stable, s(2.0), s(0.05)), AlertLevel::Green);
    assert_eq!(compute_alert_level(Phase::Stable, s(1.0), s(0.5)), AlertLevel::Green);
    assert_eq!(compute_alert_level(Phase::Stable, s(1.5), s(0.05)), AlertLevel::Green);
    assert_eq!(compute_alert_level(Phase::Stable, s(0.3), s(0.0)), AlertLevel::Green);
}

#[test]
fn alert_level_is_a_function_of_its_inputs() {
    let phases = [Phase::Stable, Phase::Approaching, Phase::Critical, Phase::Transitioning];
    let values = [-1.0, 0.0, 0.05, 0.1, 0.5, 1.0, 1.5, 2.0, 2.5, f64::NAN];
    for &phase in phases.iter() {
        for &phi in values.iter() {
            for &trend in values.iter() {
                let first = compute_alert_level(phase, s(phi), s(trend));
                let second = compute_alert_level(phase, s(phi), s(trend));
                assert_eq!(first, second);
            }
        }
    }
    assert_eq!(
        compute_alert_level(Phase::Stable, s(0.0), s(0.0)),
        compute_alert_level(Phase::Stable, s(-0.0), s(-0.0))
    );
}

#[test]
fn alert_levels_are_ordered() {
    assert!(AlertLevel::Green < AlertLevel::Yellow);
    assert!(AlertLevel::Yellow < AlertLevel::Orange);
    assert!(AlertLevel::Orange < AlertLevel::Red);
    assert!(!AlertLevel::Green.is_reportable());
    assert!(AlertLevel::Yellow.is_reportable());
    assert!(!AlertLevel::Yellow.is_actionable());
    assert!(AlertLevel::Orange.is_actionable());
    assert!(AlertLevel::Red.is_actionable());
    let alert = NucleationAlert {
        actor_a: "A".to_string(),
        actor_b: "B".to_string(),
        alert_level: AlertLevel::Orange,
        phase: Phase::Approaching,
        phi: s(1.6),
        phi_trend: s(0.0),
        confidence: s(0.5),
        timestamp: 7,
        message: "m".to_string(),
    };
    assert!(alert.is_actionable());
    let copy = alert.duplicate();
    assert_eq!(copy.actor_a, "A");
    assert_eq!(copy.message, "m");
    assert_eq!(copy.timestamp, 7);
    assert_eq!(copy.alert_level, AlertLevel::Orange);
}

#[test]
fn trend_words() {
    assert_eq!(TrendDirection::from_trend(s(0.051)), TrendDirection::Increasing);
    assert_eq!(TrendDirection::from_trend(s(0.05)), TrendDirection::Stable);
    assert_eq!(TrendDirection::from_trend(s(-0.05)), TrendDirection::Stable);
    assert_eq!(TrendDirection::from_trend(s(-0.051)), TrendDirection::Decreasing);
    assert_eq!(TrendDirection::from_trend(s(f64::NAN)), TrendDirection::Stable);
    assert_eq!(TrendDirection::Increasing.as_str(), "increasing");
    assert_eq!(TrendDirection::Decreasing.as_str(), "decreasing");
    assert_eq!(TrendDirection::Stable.as_str(), "stable");
}

#[test]
fn phase_rule() {
    let thr = s(1.5);
    let crit = s(2.25);
    // warm-up overrides everything
    assert_eq!(classify(79, 40, 5, s(100.0), thr, crit), Phase::Stable);
    assert_eq!(classify(0, 40, 0, s(100.0), thr, crit), Phase::Stable);
    // cooldown next
    assert_eq!(classify(80, 40, 1, s(0.0), thr, crit), Phase::Transitioning);
    // then the score
    assert_eq!(classify(80, 40, 0, s(2.26), thr, crit), Phase::Critical);
    assert_eq!(classify(80, 40, 0, s(2.25), thr, crit), Phase::Approaching);
    assert_eq!(classify(80, 40, 0, s(1.51), thr, crit), Phase::Approaching);
    assert_eq!(classify(80, 40, 0, s(1.5), thr, crit), Phase::Stable);
    assert_eq!(classify(80, 40, 0, s(-3.0), thr, crit), Phase::Stable);
    assert_eq!(classify(80, 40, 0, s(f64::NAN), thr, crit), Phase::Stable);
    // a window of zero has no warm-up
    assert_eq!(classify(0, 0, 0, s(9.0), thr, crit), Phase::Critical);
    // the largest counts do not overflow
    assert_eq!(classify(usize::MAX, usize::MAX, 0, s(9.0), thr, crit), Phase::Stable);
    assert!(is_warming_up(usize::MAX, usize::MAX));
    assert!(!is_warming_up(usize::MAX, usize::MAX / 2));
}

#[test]
fn never_critical_while_warming_up() {
    let shapes = [0.0, 1.0, -1.0, 1e300, f64::INFINITY, f64::NAN];
    for window in [1usize, 2, 40, 1000] {
        for count in 0..(2 * window).min(200) {
            for &z in shapes.iter() {
                for cooldown in [0usize, 3] {
                    let phase = classify(count, window, cooldown, s(z), s(1.5), s(2.25));
                    assert_eq!(phase, Phase::Stable);
                }
            }
        }
    }
}

#[test]
fn confidence_rule() {
    assert_eq!(f(confidence(10, 40, s(0.7))), 0.0);
    assert_eq!(f(confidence(79, 40, s(0.7))), 0.0);
    assert_eq!(f(confidence(80, 40, s(0.7))), 0.7);
    assert_eq!(f(confidence(80, 40, s(1.7))), 1.0);
    assert_eq!(f(confidence(80, 40, s(-0.7))), 0.0);
    assert!(f(confidence(80, 40, s(f64::NAN))).is_nan());
    for x in [-5.0, -0.0, 0.0, 0.3, 1.0, 1.5, f64::INFINITY, f64::NEG_INFINITY] {
        assert_eq!(f(clamp_unit(s(x))).to_bits(), x.clamp(0.0, 1.0).to_bits());
    }
}

#[test]
fn lengths_that_differ_are_reported() {
    assert!(check_dimensions(3, 3).is_ok());
    assert!(check_dimensions(0, 0).is_ok());
    match check_dimensions(3, 4) {
        Err(DivergenceError::DimensionMismatch { expected, got }) => {
            assert_eq!(expected, 3);
            assert_eq!(got, 4);
        }
        _ => panic!("a mismatch was not reported"),
    }
    for a in 0..6usize {
        for b in 0..6usize {
            assert_eq!(check_dimensions(a, b).is_ok(), a == b);
        }
    }
}

#[test]
fn recoverable_errors() {
    assert!(DivergenceError::NumericalError("x".to_string()).is_recoverable());
    assert!(DivergenceError::InvalidDistribution("x".to_string()).is_recoverable());
    assert!(!DivergenceError::DimensionMismatch { expected: 1, got: 2 }.is_recoverable());
    assert!(!DivergenceError::UnknownActor("x".to_string()).is_recoverable());
    assert!(!DivergenceError::ConfigError("x".to_string()).is_recoverable());
    assert!(!DivergenceError::SerializationError("x".to_string()).is_recoverable());
}
