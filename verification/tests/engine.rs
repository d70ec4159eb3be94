//! The core driven by floating-point arithmetic, as an application drives
//! it: the arithmetic stands in this file, every decision in the library.

use nucleation::alert::{compute_alert_level, AlertLevel, NucleationAlert};
use nucleation::detector::{InflectionResult, Score, VarianceInflectionDetector};
use nucleation::error::check_dimensions;
use nucleation::grievance::Grievance;
use nucleation::model::{rising_part, CompressionDynamicsModel, ModelConfig, SchemeUpdate};
use nucleation::phase::{Phase, SmoothingKernel, VarianceConfig};
use nucleation::potential::{ConflictPotential, DivergenceMetrics};
use nucleation::scalar::Scalar;
use nucleation::scheme::CompressionScheme;
use nucleation::shepherd::ShepherdDynamics;

fn s(x: f64) -> Scalar {
    Scalar::from_bits(x.to_bits())
}

fn f(x: Scalar) -> f64 {
    f64::from_bits(x.to_bits())
}

fn ss(xs: &[f64]) -> Vec<Scalar> {
    xs.iter().map(|&x| s(x)).collect()
}

fn fs(xs: &[Scalar]) -> Vec<f64> {
    xs.iter().map(|&x| f(x)).collect()
}

const EPSILON: f64 = 1e-10;

fn normalize(dist: &mut [f64]) {
    let sum: f64 = dist.iter().sum();
    if sum > 0.0 {
        for x in dist.iter_mut() {
            *x /= sum;
        }
    } else {
        let uniform = 1.0 / dist.len() as f64;
        for x in dist.iter_mut() {
            *x = uniform;
        }
    }
}

fn prepare(raw: &[f64]) -> Vec<Scalar> {
    let mut dist = raw.to_vec();
    normalize(&mut dist);
    for x in dist.iter_mut() {
        *x += 1e-8;
    }
    normalize(&mut dist);
    ss(&dist)
}

fn uniform_prior(n: usize) -> Vec<Scalar> {
    prepare(&vec![1.0 / n as f64; n])
}

fn entropy(p: &[f64]) -> f64 {
    p.iter().filter(|&&x| x > EPSILON).map(|&x| -x * x.log2()).sum()
}

fn metrics(p: &[f64], q: &[f64]) -> Option<DivergenceMetrics> {
    check_dimensions(p.len(), q.len()).ok()?;
    let ln2 = std::f64::consts::LN_2;
    let (mut kl_p_q, mut kl_q_p, mut hell, mut bhat) = (0.0, 0.0, 0.0, 0.0);
    let (mut dot, mut np, mut nq, mut js_p, mut js_q) = (0.0, 0.0, 0.0, 0.0, 0.0);
    for i in 0..p.len() {
        let pi = p[i].max(EPSILON);
        let qi = q[i].max(EPSILON);
        let mi = 0.5 * (pi + qi);
        kl_p_q += pi * (pi / qi).ln();
        kl_q_p += qi * (qi / pi).ln();
        let d = pi.sqrt() - qi.sqrt();
        hell += d * d;
        bhat += (pi * qi).sqrt();
        dot += pi * qi;
        np += pi * pi;
        nq += qi * qi;
        js_p += pi * (pi / mi).ln();
        js_q += qi * (qi / mi).ln();
    }
    kl_p_q /= ln2;
    kl_q_p /= ln2;
    Some(DivergenceMetrics {
        kl_p_q: s(kl_p_q),
        kl_q_p: s(kl_q_p),
        symmetric_kl: s(kl_p_q + kl_q_p),
        jensen_shannon: s(0.5 * (js_p + js_q) / ln2),
        hellinger: s((0.5 * hell).sqrt()),
        bhattacharyya: s(bhat),
        cosine: s(if np > EPSILON && nq > EPSILON { dot / (np.sqrt() * nq.sqrt()) } else { 0.0 }),
    })
}

fn scheme_metrics(a: &CompressionScheme, b: &CompressionScheme) -> Option<DivergenceMetrics> {
    metrics(&fs(a.distribution()), &fs(b.distribution()))
}

fn new_scheme(id: &str, raw: Vec<f64>) -> CompressionScheme {
    CompressionScheme::new(id.to_string(), prepare(&raw), None)
}

fn blend(old: &[f64], observation: &[f64], rate: f64) -> Vec<Scalar> {
    let sum: f64 = observation.iter().sum();
    let obs: Vec<f64> = if sum > 0.0 {
        observation.iter().map(|&x| x / sum).collect()
    } else {
        vec![1.0 / observation.len() as f64; observation.len()]
    };
    let blended: Vec<f64> =
        old.iter().zip(obs.iter()).map(|(&p, &o)| (1.0 - rate) * p + rate * o).collect();
    prepare(&blended)
}

fn prepare_update(
    model: &CompressionDynamicsModel,
    prior: &[Scalar],
    id: &str,
    observation: &[f64],
) -> SchemeUpdate {
    let blank = Grievance::new(id.to_string());
    let old = match model.get_scheme(id) {
        Some(scheme) => fs(scheme.distribution()),
        None => fs(prior),
    };
    let grievance = model.get_grievance(id).unwrap_or(&blank);
    if old.len() != observation.len() {
        return SchemeUpdate {
            distribution: ss(&old),
            prediction_error: s(0.0),
            cumulative_error: grievance.cumulative_error,
            window_error: grievance.window_error,
        };
    }
    let error: f64 = old.iter().zip(observation.iter()).map(|(&p, &o)| (o - p).powi(2)).sum();
    let retained = fs(&grievance.window_with(s(error), model.config().grievance_window));
    let mean = if retained.is_empty() {
        f(grievance.window_error)
    } else {
        retained.iter().sum::<f64>() / retained.len() as f64
    };
    SchemeUpdate {
        distribution: blend(&old, observation, f(model.config().learning_rate)),
        prediction_error: s(error),
        cumulative_error: s(f(grievance.cumulative_error) + error),
        window_error: s(mean),
    }
}

fn register(model: &mut CompressionDynamicsModel, id: &str, raw: Option<Vec<f64>>) {
    let distribution = match raw {
        Some(raw) => prepare(&raw),
        None => uniform_prior(model.config().n_categories),
    };
    model.register_actor(id, distribution, None);
}

fn update_scheme(model: &mut CompressionDynamicsModel, id: &str, observation: &[f64], ts: Option<i64>) -> bool {
    let prior = uniform_prior(model.config().n_categories);
    let update = prepare_update(model, &prior, id, observation);
    model.update_scheme(id, observation.len(), prior, update, ts, 0).is_ok()
}

fn potential(model: &mut CompressionDynamicsModel, a: &str, b: &str) -> Option<ConflictPotential> {
    model.check_dyad(a, b).ok()?;
    let m = scheme_metrics(model.get_scheme(a)?, model.get_scheme(b)?)?;
    model.compute_conflict_potential(a, b, m).ok()
}

fn all_potentials(model: &mut CompressionDynamicsModel) -> Vec<ConflictPotential> {
    let mut out = Vec::new();
    for (a, b) in model.pairs() {
        if let Some(p) = potential(model, &a, &b) {
            out.push(p);
        }
    }
    out
}

fn rolling_variance(window: &[Scalar]) -> f64 {
    let values = fs(window);
    let n = values.len() as f64;
    let mean = values.iter().sum::<f64>() / n;
    values.iter().map(|x| (x - mean).powi(2)).sum::<f64>() / n
}

fn smooth_variance(window: &[Scalar], kernel: SmoothingKernel, fallback: f64) -> f64 {
    let values = fs(window);
    let n = values.len();
    if n == 0 {
        return fallback;
    }
    match kernel {
        SmoothingKernel::Uniform => values.iter().sum::<f64>() / n as f64,
        SmoothingKernel::Gaussian => {
            let weights: Vec<f64> = (0..n).map(|i| 1.0 - i as f64 / n as f64).collect();
            let total: f64 = weights.iter().sum();
            values.iter().zip(weights.iter()).map(|(v, w)| v * w).sum::<f64>() / total
        }
    }
}

fn run_stages(det: &mut VarianceInflectionDetector, window: Option<Vec<Scalar>>) {
    let Some(window) = window else {
        return;
    };
    let variance = rolling_variance(&window);
    let kernel = det.config().kernel;
    let to_smooth = det.record_variance(s(variance));
    let smoothed = smooth_variance(&to_smooth, kernel, variance);
    let Some((current, previous)) = det.record_smoothed(s(smoothed)) else {
        return;
    };
    let d1 = f(current) - f(previous);
    let Some((current, previous)) = det.record_trend(s(d1)) else {
        return;
    };
    let d2 = f(current) - f(previous);
    let (mean, std) = det.baseline();
    let new_mean = 0.98 * f(mean) + 0.02 * d2.abs();
    let deviation = (d2.abs() - new_mean).powi(2);
    let raw_std = (0.98 * f(std).powi(2) + 0.02 * deviation).sqrt();
    det.record_inflection(s(d2), s(new_mean), s(raw_std));
}

fn score(det: &VarianceInflectionDetector) -> Score {
    let threshold = f(det.config().threshold);
    let z = match det.score_inputs() {
        Some((magnitude, mean, std)) => (f(magnitude) - f(mean)) / f(std),
        None => 0.0,
    };
    Score { z: s(z), critical_level: s(threshold * 1.5), confidence_ratio: s(z / (threshold * 2.0)) }
}

fn result(det: &VarianceInflectionDetector) -> InflectionResult {
    det.compute_result(score(det))
}

fn update(det: &mut VarianceInflectionDetector, value: f64) -> InflectionResult {
    let window = det.observe(s(value));
    run_stages(det, window);
    result(det)
}

fn shepherd_register(shepherd: &mut ShepherdDynamics, id: &str, raw: Option<Vec<f64>>) {
    let distribution = match raw {
        Some(raw) => prepare(&raw),
        None => uniform_prior(shepherd.model().config().n_categories),
    };
    shepherd.register_actor(id, distribution);
}

fn shepherd_potential(shepherd: &mut ShepherdDynamics, a: &str, b: &str) -> Option<ConflictPotential> {
    shepherd.model().check_dyad(a, b).ok()?;
    let m = scheme_metrics(shepherd.get_scheme(a)?, shepherd.get_scheme(b)?)?;
    shepherd.conflict_potential(a, b, m).ok()
}

fn check_dyad(shepherd: &mut ShepherdDynamics, a: &str, b: &str, ts: i64) -> Option<NucleationAlert> {
    let p = shepherd_potential(shepherd, a, b)?;
    let index = shepherd.ensure_tracker(a, b);
    let window = shepherd.observe(index, p.phi, ts);
    run_stages(shepherd.detector_mut(index), window);
    let tracker = shepherd.tracker(index);
    let trend = match tracker.trend_endpoints() {
        Some((newest, oldest)) => f(newest) - f(oldest),
        None => 0.0,
    };
    let reading = score(tracker.detector());
    let phase = tracker.detector().compute_result(reading).phase;
    let level = compute_alert_level(phase, p.phi, s(trend));
    let message = format!("{}-{} {:?} {:.2}", tracker.actor_a(), tracker.actor_b(), level, f(p.phi));
    shepherd.conclude(index, reading, s(trend), message)
}

fn feed(shepherd: &mut ShepherdDynamics, index: usize, phi: f64, ts: i64) {
    let window = shepherd.observe(index, s(phi), ts);
    run_stages(shepherd.detector_mut(index), window);
}

fn update_actor(shepherd: &mut ShepherdDynamics, id: &str, observation: &[f64], ts: i64) -> Vec<NucleationAlert> {
    let prior = uniform_prior(shepherd.model().config().n_categories);
    let update = prepare_update(shepherd.model(), &prior, id, observation);
    let others = match shepherd.update_actor(id, observation.len(), prior, update, ts) {
        Ok(others) => others,
        Err(_) => return Vec::new(),
    };
    let mut alerts = Vec::new();
    for other in others {
        if let Some(alert) = check_dyad(shepherd, id, &other, ts) {
            alerts.push(alert);
        }
    }
    alerts
}

fn check_all_dyads(shepherd: &mut ShepherdDynamics, ts: i64) -> Vec<NucleationAlert> {
    let mut alerts = Vec::new();
    for (a, b) in shepherd.model().pairs() {
        if let Some(alert) = check_dyad(shepherd, &a, &b, ts) {
            alerts.push(alert);
        }
    }
    alerts
}

// ---- the detector

#[test]
fn variance_test_detector_creation() {
    let detector = VarianceInflectionDetector::with_default_config();
    assert_eq!(detector.count(), 0);
    assert_eq!(result(&detector).phase, Phase::Stable);
}

#[test]
fn test_variance_detector_creation() {
    let detector = VarianceInflectionDetector::with_default_config();
    assert_eq!(detector.count(), 0);
}

#[test]
fn test_warmup_period() {
    let mut detector = VarianceInflectionDetector::with_default_config();
    for i in 0..30 {
        let result = update(&mut detector, i as f64);
        assert_eq!(result.phase, Phase::Stable);
    }
}

#[test]
fn test_constant_input_stable() {
    let mut detector = VarianceInflectionDetector::with_default_config();
    for _ in 0..200 {
        update(&mut detector, 5.0);
    }
    assert_eq!(result(&detector).phase, Phase::Stable);
    assert!(f(detector.current_variance()) < 0.01);
}

#[test]
fn constant_input_stays_stable_at_every_step() {
    for value in [0.0, 5.0, -3.5, 1e6] {
        let mut detector = VarianceInflectionDetector::with_default_config();
        for _ in 0..400 {
            let reading = update(&mut detector, value);
            assert_eq!(reading.phase, Phase::Stable);
            assert!(f(reading.current_variance) < 0.01);
            assert_eq!(detector.cooldown_left(), 0);
        }
    }
}

#[test]
fn test_variance_change_detection() {
    let mut detector = VarianceInflectionDetector::new(VarianceConfig {
        threshold: s(1.0),
        ..VarianceConfig::default()
    });
    for i in 0..100 {
        update(&mut detector, 50.0 + (i as f64 * 0.01).sin() * 0.1);
    }
    for i in 0..50 {
        update(&mut detector, 50.0 + (i as f64).sin() * 10.0);
    }
    let result = result(&detector);
    assert!(f(result.inflection_magnitude) > 0.0);
}

#[test]
fn test_reset() {
    let mut detector = VarianceInflectionDetector::with_default_config();
    for i in 0..100 {
        update(&mut detector, i as f64);
    }
    assert!(detector.count() > 0);
    detector.reset();
    assert_eq!(detector.count(), 0);
    assert_eq!(f(detector.current_variance()), 0.0);
}

#[test]
fn test_batch_update() {
    let mut detector = VarianceInflectionDetector::with_default_config();
    let values: Vec<f64> = (0..100).map(|i| i as f64).collect();
    for &v in values.iter() {
        update(&mut detector, v);
    }
    assert_eq!(detector.count(), 100);
}

#[test]
fn never_critical_in_warm_up_whatever_comes_in() {
    let mut seed: u64 = 99;
    let mut detector = VarianceInflectionDetector::new(VarianceConfig {
        window_size: 10,
        smoothing_window: 3,
        threshold: s(0.0),
        min_peak_distance: 2,
        kernel: SmoothingKernel::Gaussian,
    });
    for _ in 0..19 {
        seed = seed.wrapping_mul(6364136223846793005).wrapping_add(1442695040888963407);
        let value = ((seed >> 20) % 2000) as f64 * if seed % 2 == 0 { 1e9 } else { 1e-9 };
        let reading = update(&mut detector, value);
        assert_eq!(reading.phase, Phase::Stable);
        assert_eq!(f(reading.confidence), 0.0);
        assert!(detector.check_transition(score(&detector)).is_none());
    }
}

// ---- schemes

#[test]
fn test_scheme_creation() {
    let scheme = new_scheme("USA", vec![0.4, 0.3, 0.2, 0.1]);
    assert_eq!(scheme.actor_id, "USA");
    assert_eq!(scheme.n_categories(), 4);
    let sum: f64 = fs(scheme.distribution()).iter().sum();
    assert!((sum - 1.0).abs() < 0.001);
}

#[test]
fn test_compression_scheme_creation() {
    let scheme = new_scheme("USA", vec![0.4, 0.3, 0.2, 0.1]);
    assert_eq!(scheme.n_categories(), 4);
    assert!((fs(scheme.distribution()).iter().sum::<f64>() - 1.0).abs() < 1e-6);
    for raw in [vec![0.0, 0.0, 0.0], vec![1.0, 0.0], vec![5.0, 3.0, 0.0, 2.0], vec![1e-300, 1e300]] {
        let scheme = new_scheme("X", raw);
        assert!(scheme.is_strictly_positive());
        assert!((fs(scheme.distribution()).iter().sum::<f64>() - 1.0).abs() < 1e-6);
    }
    let raw = CompressionScheme::new("Y".to_string(), ss(&[0.5, 0.0, 0.5]), None);
    assert!(!raw.is_strictly_positive());
    let nan = CompressionScheme::new("Z".to_string(), ss(&[0.5, f64::NAN]), None);
    assert!(!nan.is_strictly_positive());
}

#[test]
fn test_uniform_scheme() {
    let scheme = CompressionScheme::new("TEST".to_string(), uniform_prior(10), None);
    assert_eq!(scheme.n_categories(), 10);
    let h = entropy(&fs(scheme.distribution()));
    let max_h = (scheme.n_categories() as f64).log2();
    assert!((h - max_h).abs() < 0.1);
}

#[test]
fn test_divergence_calculations() {
    let a = new_scheme("A", vec![0.7, 0.2, 0.1]);
    let b = new_scheme("B", vec![0.3, 0.4, 0.3]);
    let m = scheme_metrics(&a, &b).unwrap();
    assert!(f(m.symmetric_kl) > 0.0);
    assert!(f(m.jensen_shannon) >= 0.0 && f(m.jensen_shannon) <= 1.0);
    assert!(f(m.hellinger) >= 0.0 && f(m.hellinger) <= 1.0);
}

#[test]
fn test_symmetric_divergence() {
    let a = new_scheme("A", vec![0.7, 0.2, 0.1]);
    let b = new_scheme("B", vec![0.1, 0.2, 0.7]);
    let phi = f(scheme_metrics(&a, &b).unwrap().symmetric_kl);
    assert!(phi > 0.0);
    let phi_rev = f(scheme_metrics(&b, &a).unwrap().symmetric_kl);
    assert!((phi - phi_rev).abs() < 1e-10);
}

#[test]
fn test_identical_schemes_zero_divergence() {
    let a = new_scheme("A", vec![0.5, 0.3, 0.2]);
    let b = new_scheme("B", vec![0.5, 0.3, 0.2]);
    let phi = f(scheme_metrics(&a, &b).unwrap().symmetric_kl);
    assert!(phi < 0.01);
}

#[test]
fn test_update() {
    let mut scheme = CompressionScheme::new("TEST".to_string(), uniform_prior(4), None);
    let obs = vec![1.0, 0.0, 0.0, 0.0];
    scheme.check_observation(obs.len()).unwrap();
    let blended = blend(&fs(scheme.distribution()), &obs, 0.5);
    scheme.update(blended).unwrap();
    assert!(f(scheme.distribution()[0]) > 0.25);
}

#[test]
fn test_scheme_update() {
    let mut scheme = new_scheme("A", vec![0.5, 0.5]);
    let blended = blend(&fs(scheme.distribution()), &[0.9, 0.1], 0.5);
    scheme.update(blended).unwrap();
    assert!(f(scheme.distribution()[0]) > 0.5);
    assert!(f(scheme.distribution()[1]) < 0.5);
}

#[test]
fn scheme_test_conflict_potential() {
    let a = new_scheme("USA", vec![0.5, 0.3, 0.2]);
    let b = new_scheme("RUS", vec![0.2, 0.3, 0.5]);
    let m = scheme_metrics(&a, &b).unwrap();
    let potential = ConflictPotential::compute(&a, &b, m).unwrap();
    assert_eq!(potential.actor_a, "USA");
    assert_eq!(potential.actor_b, "RUS");
    assert!(f(potential.phi) > 0.0);
}

#[test]
fn compression_test_conflict_potential() {
    let a = new_scheme("USA", vec![0.4, 0.3, 0.2, 0.1]);
    let b = new_scheme("RUS", vec![0.1, 0.2, 0.3, 0.4]);
    let m = scheme_metrics(&a, &b).unwrap();
    let potential = ConflictPotential::compute(&a, &b, m).unwrap();
    assert_eq!(potential.actor_a, "USA");
    assert_eq!(potential.actor_b, "RUS");
    assert!(f(potential.phi) > 0.0);
    assert!(f(potential.js) >= 0.0 && f(potential.js) <= 1.0);
}

// ---- the model

#[test]
fn test_compression_model_creation() {
    let model = CompressionDynamicsModel::new(10);
    assert!(model.actors().is_empty());
}

#[test]
fn test_basic_workflow() {
    let mut model = CompressionDynamicsModel::new(10);
    let dist_a = vec![0.4, 0.3, 0.15, 0.1, 0.03, 0.01, 0.005, 0.003, 0.001, 0.001];
    let dist_b = vec![0.15, 0.12, 0.11, 0.10, 0.10, 0.10, 0.10, 0.08, 0.07, 0.07];
    register(&mut model, "USA", Some(dist_a));
    register(&mut model, "RUS", Some(dist_b));
    let potential = potential(&mut model, "USA", "RUS").unwrap();
    assert!(f(potential.phi) > 0.0);
    assert!(f(potential.js) >= 0.0 && f(potential.js) <= 1.0);
    assert!(f(potential.hellinger) >= 0.0 && f(potential.hellinger) <= 1.0);
}

#[test]
fn model_test_model_basic_workflow() {
    let mut model = CompressionDynamicsModel::new(10);
    let dist_a = vec![0.4, 0.3, 0.15, 0.1, 0.03, 0.01, 0.005, 0.003, 0.001, 0.001];
    let dist_b = vec![0.15, 0.12, 0.11, 0.10, 0.10, 0.10, 0.10, 0.08, 0.07, 0.07];
    let dist_c = vec![0.35, 0.28, 0.18, 0.12, 0.04, 0.015, 0.008, 0.004, 0.002, 0.001];
    register(&mut model, "USA", Some(dist_a));
    register(&mut model, "RUS", Some(dist_b));
    register(&mut model, "GBR", Some(dist_c));
    let potentials = all_potentials(&mut model);
    assert_eq!(potentials.len(), 3);
    let usa_rus = potentials.iter().find(|p| {
        (p.actor_a == "USA" && p.actor_b == "RUS") || (p.actor_a == "RUS" && p.actor_b == "USA")
    });
    let usa_gbr = potentials.iter().find(|p| {
        (p.actor_a == "USA" && p.actor_b == "GBR") || (p.actor_a == "GBR" && p.actor_b == "USA")
    });
    assert!(f(usa_rus.unwrap().phi) > f(usa_gbr.unwrap().phi));
}

#[test]
fn compression_test_model_basic_workflow() {
    let mut model = CompressionDynamicsModel::new(10);
    register(&mut model, "USA", Some(vec![0.3, 0.2, 0.15, 0.1, 0.08, 0.07, 0.05, 0.03, 0.01, 0.01]));
    register(&mut model, "RUS", Some(vec![0.1, 0.1, 0.1, 0.1, 0.15, 0.15, 0.1, 0.1, 0.05, 0.05]));
    let potential = potential(&mut model, "USA", "RUS").unwrap();
    assert!(f(potential.phi) > 0.0);
}

#[test]
fn test_escalation_prediction() {
    let mut model = CompressionDynamicsModel::new(5);
    register(&mut model, "A", Some(vec![0.8, 0.1, 0.05, 0.03, 0.02]));
    register(&mut model, "B", Some(vec![0.1, 0.1, 0.3, 0.3, 0.2]));
    let current = potential(&mut model, "A", "B").unwrap();
    let d_phi = match model.phi_step("A", "B") {
        Some((latest, previous)) => f(latest) - f(previous),
        None => 0.0,
    };
    let avg_grievance = match model.grievance_levels("A", "B") {
        (Some(a), Some(b)) => (f(a) + f(b)) / 2.0,
        (Some(a), None) => f(a),
        (None, Some(b)) => f(b),
        (None, None) => 0.0,
    };
    let config = *model.config();
    let logit = f(config.escalation_alpha) * f(current.phi)
        + f(config.escalation_gamma) * f(rising_part(s(d_phi)))
        + 0.5 * avg_grievance
        - f(config.escalation_beta) * 0.5
        + f(config.escalation_gamma) * 0.0;
    let probability = 1.0 / (1.0 + (-logit).exp());
    let pred = model.predict_escalation(&current, "A", "B", s(0.5), s(d_phi), s(avg_grievance), s(probability));
    assert!(f(pred.probability) >= 0.0 && f(pred.probability) <= 1.0);
    assert!(f(pred.current_phi) > 0.0);
}

#[test]
fn test_alignment_path() {
    let mut model = CompressionDynamicsModel::new(5);
    register(&mut model, "X", Some(vec![0.6, 0.2, 0.1, 0.05, 0.05]));
    register(&mut model, "Y", Some(vec![0.1, 0.1, 0.3, 0.3, 0.2]));
    let a = fs(model.get_scheme("X").unwrap().distribution());
    let b = fs(model.get_scheme("Y").unwrap().distribution());
    let current_phi = f(metrics(&a, &b).unwrap().symmetric_kl);
    let shares: Vec<f64> = a
        .iter()
        .zip(b.iter())
        .map(|(&a, &b)| a * (a / (b + 1e-10)).ln().abs() + b * (b / (a + 1e-10)).ln().abs())
        .collect();
    let path = model
        .find_alignment_path("X", "Y", s(0.1), s(current_phi), s(current_phi - 0.1), &ss(&shares))
        .unwrap();
    assert!(f(path.current_phi) > f(path.target_phi));
    assert!(!path.diverging_categories.is_empty());
    assert!(!path.recommendation.is_empty());
    assert_eq!(path.diverging_categories.len(), 5);
    assert_eq!(path.diverging_categories[0].category, "cat_0");
}

#[test]
fn an_update_with_full_weight_takes_the_observation() {
    let mut model = CompressionDynamicsModel::with_config(ModelConfig {
        n_categories: 4,
        learning_rate: s(1.0),
        ..ModelConfig::default()
    });
    register(&mut model, "A", Some(vec![0.7, 0.1, 0.1, 0.1]));
    assert!(update_scheme(&mut model, "A", &[2.0, 2.0, 4.0, 0.0], Some(5)));
    let got = fs(model.get_scheme("A").unwrap().distribution());
    let want = [0.25, 0.25, 0.5, 0.0];
    for i in 0..4 {
        assert!((got[i] - want[i]).abs() < 1e-6);
        assert!(got[i] > 0.0);
    }
    assert!((got.iter().sum::<f64>() - 1.0).abs() < 1e-6);
}

#[test]
fn an_update_creates_what_a_query_reports() {
    let mut model = CompressionDynamicsModel::new(3);
    assert!(potential(&mut model, "A", "B").is_none());
    assert!(model.actors().is_empty());
    assert!(update_scheme(&mut model, "A", &[1.0, 0.0, 0.0], None));
    assert_eq!(model.actors(), vec!["A"]);
    let got = fs(model.get_scheme("A").unwrap().distribution());
    assert!(got[0] > 1.0 / 3.0 && got[1] < 1.0 / 3.0);
    assert!(!update_scheme(&mut model, "B", &[1.0, 0.0], None));
    assert_eq!(model.actors(), vec!["A", "B"]);
}

// ---- the early-warning system

#[test]
fn shepherd_test_shepherd_creation() {
    let shepherd = ShepherdDynamics::new(10);
    assert!(shepherd.actors().is_empty());
}

#[test]
fn lib_test_shepherd_creation() {
    let shepherd = ShepherdDynamics::new(10);
    assert!(shepherd.actors().is_empty());
}

#[test]
fn test_register_actors() {
    let mut shepherd = ShepherdDynamics::new(10);
    shepherd_register(&mut shepherd, "USA", None);
    shepherd_register(&mut shepherd, "RUS", None);
    assert_eq!(shepherd.actors().len(), 2);
}

#[test]
fn test_identical_actors_low_divergence() {
    let mut shepherd = ShepherdDynamics::new(5);
    let dist = vec![0.4, 0.3, 0.15, 0.1, 0.05];
    shepherd_register(&mut shepherd, "A", Some(dist.clone()));
    shepherd_register(&mut shepherd, "B", Some(dist));
    let potential = shepherd_potential(&mut shepherd, "A", "B").unwrap();
    assert!(f(potential.phi) < 0.01);
}

#[test]
fn test_divergent_actors_high_phi() {
    let mut shepherd = ShepherdDynamics::new(5);
    shepherd_register(&mut shepherd, "A", Some(vec![0.8, 0.1, 0.05, 0.03, 0.02]));
    shepherd_register(&mut shepherd, "B", Some(vec![0.02, 0.03, 0.05, 0.1, 0.8]));
    let potential = shepherd_potential(&mut shepherd, "A", "B").unwrap();
    assert!(f(potential.phi) > 1.0);
}

#[test]
fn disjoint_support_gives_a_high_potential() {
    let mut shepherd = ShepherdDynamics::new(4);
    shepherd_register(&mut shepherd, "A", Some(vec![0.5, 0.5, 0.0, 0.0]));
    shepherd_register(&mut shepherd, "B", Some(vec![0.0, 0.0, 0.5, 0.5]));
    let potential = shepherd_potential(&mut shepherd, "A", "B").unwrap();
    assert!(f(potential.phi) > 1.0);
}

#[test]
fn test_update_and_check() {
    let mut shepherd = ShepherdDynamics::new(5);
    shepherd_register(&mut shepherd, "USA", Some(vec![0.4, 0.3, 0.15, 0.1, 0.05]));
    shepherd_register(&mut shepherd, "RUS", Some(vec![0.1, 0.2, 0.3, 0.25, 0.15]));
    for i in 0..100 {
        let obs = vec![0.35 + 0.01 * (i as f64), 0.28, 0.17, 0.12, 0.08];
        update_actor(&mut shepherd, "USA", &obs, i * 100);
    }
    let history = shepherd.phi_history("USA", "RUS");
    assert!(history.is_some());
    assert!(!history.unwrap().is_empty());
    assert_eq!(shepherd.phi_history("RUS", "USA").unwrap().len(), 100);
    assert_eq!(shepherd.tracker_count(), 1);
    assert!(shepherd.last_alert("RUS", "USA").is_some());
}

#[test]
fn test_escalation_detection() {
    let mut shepherd = ShepherdDynamics::new(5).with_variance_config(VarianceConfig::sensitive());
    shepherd_register(&mut shepherd, "A", Some(vec![0.3, 0.25, 0.2, 0.15, 0.1]));
    shepherd_register(&mut shepherd, "B", Some(vec![0.28, 0.24, 0.22, 0.16, 0.1]));
    for i in 0..150 {
        let a_obs = vec![
            0.3 + 0.003 * i as f64,
            0.25 - 0.001 * i as f64,
            0.2 - 0.001 * i as f64,
            0.15 - 0.0005 * i as f64,
            0.1 - 0.0005 * i as f64,
        ];
        update_actor(&mut shepherd, "A", &a_obs, i * 100);
        let b_obs = vec![
            0.28 - 0.001 * i as f64,
            0.24 + 0.0005 * i as f64,
            0.22 + 0.0005 * i as f64,
            0.16 + 0.0005 * i as f64,
            0.1 + 0.0005 * i as f64,
        ];
        update_actor(&mut shepherd, "B", &b_obs, i * 100);
    }
    let potential = shepherd_potential(&mut shepherd, "A", "B").unwrap();
    assert!(f(potential.phi) > 0.5);
    let alerts = shepherd.actionable_alerts();
    println!("Actionable alerts: {}", alerts.len());
    for alert in alerts.iter() {
        assert!(alert.alert_level >= AlertLevel::Orange);
    }
}

#[test]
fn a_divergence_that_grows_is_detected() {
    let mut shepherd = ShepherdDynamics::new(5);
    shepherd_register(&mut shepherd, "A", Some(vec![0.4, 0.3, 0.15, 0.1, 0.05]));
    shepherd_register(&mut shepherd, "B", Some(vec![0.1, 0.2, 0.3, 0.25, 0.15]));
    let initial = f(shepherd_potential(&mut shepherd, "A", "B").unwrap().phi);
    assert!(initial > 0.0);
    let mut handed_out = 0;
    for i in 0..150 {
        let alerts = update_actor(&mut shepherd, "A", &[1.0, 0.0, 0.0, 0.0, 0.0], 1_000 + i);
        assert!(alerts.len() <= 1);
        for alert in alerts.iter() {
            assert!(alert.alert_level >= AlertLevel::Yellow);
            assert_eq!(alert.actor_a, "A");
            assert_eq!(alert.actor_b, "B");
            assert_eq!(alert.timestamp, 1_000 + i);
        }
        handed_out += alerts.len();
        let last = shepherd.last_alert("B", "A").unwrap();
        assert_eq!(last.timestamp, 1_000 + i);
        assert_eq!(alerts.is_empty(), last.alert_level == AlertLevel::Green);
    }
    let last = f(shepherd_potential(&mut shepherd, "A", "B").unwrap().phi);
    assert!(last > initial);
    assert!(last > 1.0);
    let alerts = check_all_dyads(&mut shepherd, 2_000);
    assert!(!alerts.is_empty());
    assert!(alerts.iter().all(|a| a.alert_level >= AlertLevel::Yellow));
    assert_eq!(shepherd.alert_history().len(), handed_out + alerts.len());
    assert!(shepherd.actionable_alerts().len() <= shepherd.alert_history().len());
}

#[test]
fn one_tracker_serves_both_orders() {
    let mut shepherd = ShepherdDynamics::new(2);
    shepherd_register(&mut shepherd, "USA", Some(vec![0.5, 0.5]));
    shepherd_register(&mut shepherd, "RUS", Some(vec![0.9, 0.1]));
    check_dyad(&mut shepherd, "USA", "RUS", 1);
    check_dyad(&mut shepherd, "RUS", "USA", 2);
    assert_eq!(shepherd.tracker_count(), 1);
    assert!(shepherd.is_well_formed());
    assert_eq!(shepherd.find_tracker("USA", "RUS"), Some(0));
    assert_eq!(shepherd.find_tracker("RUS", "USA"), Some(0));
    assert_eq!(shepherd.find_tracker("USA", "GBR"), None);
    let tracker = shepherd.tracker(0);
    assert_eq!(tracker.actor_a(), "RUS");
    assert_eq!(tracker.actor_b(), "USA");
    assert_eq!(tracker.phi_history().len(), 2);
    assert_eq!(tracker.phi_history()[1].timestamp, 2);
    assert_eq!(tracker.detector().count(), 2);
    assert!(shepherd.phi_history("GBR", "USA").is_none());
    assert!(shepherd.last_alert("GBR", "USA").is_none());
}

#[test]
fn the_trend_spans_the_newest_ten() {
    let mut shepherd = ShepherdDynamics::new(2);
    shepherd_register(&mut shepherd, "A", Some(vec![0.5, 0.5]));
    shepherd_register(&mut shepherd, "B", Some(vec![0.5, 0.5]));
    let index = shepherd.ensure_tracker("A", "B");
    assert_eq!(shepherd.tracker(index).trend_endpoints(), None);
    feed(&mut shepherd, index, 1.0, 0);
    assert_eq!(shepherd.tracker(index).trend_endpoints(), None);
    for i in 2..=9 {
        feed(&mut shepherd, index, i as f64, i);
        assert_eq!(shepherd.tracker(index).trend_endpoints(), Some((s(i as f64), s(1.0))));
    }
    for i in 10..=30 {
        feed(&mut shepherd, index, i as f64, i);
        assert_eq!(
            shepherd.tracker(index).trend_endpoints(),
            Some((s(i as f64), s((i - 9) as f64)))
        );
    }
}

#[test]
fn a_tracker_retains_a_thousand_potentials() {
    let mut shepherd = ShepherdDynamics::new(2);
    let index = shepherd.ensure_tracker("A", "B");
    for i in 0..1_005 {
        feed(&mut shepherd, index, i as f64, i);
    }
    let history = shepherd.tracker(index).phi_history();
    assert_eq!(history.len(), 1_000);
    assert_eq!(history[0].timestamp, 5);
    assert_eq!(history[999].timestamp, 1_004);
}

#[test]
fn green_alerts_are_kept_but_not_handed_out() {
    let mut shepherd = ShepherdDynamics::new(2);
    let index = shepherd.ensure_tracker("B", "A");
    let quiet = Score { z: s(0.0), critical_level: s(2.25), confidence_ratio: s(0.0) };
    // nothing was fed: nothing is concluded
    assert!(shepherd.conclude(index, quiet, s(0.0), "none".to_string()).is_none());
    assert!(shepherd.last_alert("A", "B").is_none());
    feed(&mut shepherd, index, 0.3, 11);
    assert!(shepherd.conclude(index, quiet, s(0.0), "calm".to_string()).is_none());
    let last = shepherd.last_alert("A", "B").unwrap();
    assert_eq!(last.alert_level, AlertLevel::Green);
    assert_eq!(last.message, "calm");
    assert_eq!(last.actor_a, "A");
    assert_eq!(last.actor_b, "B");
    assert_eq!(last.timestamp, 11);
    assert_eq!(f(last.phi), 0.3);
    assert!(shepherd.alert_history().is_empty());
    feed(&mut shepherd, index, 2.5, 12);
    let alert = shepherd.conclude(index, quiet, s(2.2), "watch".to_string()).unwrap();
    assert_eq!(alert.alert_level, AlertLevel::Yellow);
    assert_eq!(alert.phase, Phase::Stable);
    assert_eq!(f(alert.phi), 2.5);
    assert_eq!(f(alert.phi_trend), 2.2);
    assert_eq!(alert.timestamp, 12);
    assert_eq!(shepherd.alert_history().len(), 1);
    assert_eq!(shepherd.alert_history()[0].message, "watch");
    assert!(shepherd.actionable_alerts().is_empty());
    assert_eq!(shepherd.last_alert("B", "A").unwrap().message, "watch");
}

#[test]
fn an_update_of_the_wrong_length_checks_no_pair() {
    let mut shepherd = ShepherdDynamics::new(2);
    shepherd_register(&mut shepherd, "A", Some(vec![0.5, 0.5]));
    shepherd_register(&mut shepherd, "B", Some(vec![0.9, 0.1]));
    assert!(update_actor(&mut shepherd, "A", &[1.0, 2.0, 3.0], 5).is_empty());
    assert_eq!(shepherd.tracker_count(), 0);
    assert_eq!(fs(shepherd.get_scheme("A").unwrap().distribution()), fs(&prepare(&[0.5, 0.5])));
    let shepherd = shepherd.with_learning_rate(s(0.5));
    assert_eq!(f(shepherd.model().config().learning_rate), 0.5);
    assert!(shepherd.get_grievance("A").unwrap().error_history.is_empty());
}
