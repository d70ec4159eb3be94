use nucleation::grievance::Grievance;
use nucleation::scalar::Scalar;
use nucleation::signal::{GradientTracker, RollingStats};
use nucleation::window::{newest, newest_pair, push_ring, push_trail, recent};
use std::collections::VecDeque;

fn s(x: f64) -> Scalar {
    Scalar::from_bits(x.to_bits())
}

fn f(x: Scalar) -> f64 {
    f64::from_bits(x.to_bits())
}

#[test]
fn a_ring_evicts_before_it_pushes() {
    let mut ring: VecDeque<u32> = VecDeque::new();
    for i in 0..10u32 {
        push_ring(&mut ring, 2, 3, i);
        let mut model: Vec<u32> = (0..=i).collect();
        while model.len() > 6 {
            model.remove(0);
        }
        assert_eq!(ring.iter().copied().collect::<Vec<_>>(), model);
    }
    assert_eq!(ring.len(), 6);
}

#[test]
fn a_ring_without_capacity_keeps_one() {
    let mut ring: VecDeque<u32> = VecDeque::new();
    push_ring(&mut ring, 0, 3, 1);
    assert_eq!(ring.iter().copied().collect::<Vec<_>>(), vec![1]);
    push_ring(&mut ring, 0, 3, 2);
    assert_eq!(ring.iter().copied().collect::<Vec<_>>(), vec![2]);
}

#[test]
fn a_ring_takes_the_largest_unit() {
    let mut ring: VecDeque<u32> = VecDeque::new();
    push_ring(&mut ring, usize::MAX, 3, 1);
    push_ring(&mut ring, usize::MAX, 3, 2);
    assert_eq!(ring.len(), 2);
}

#[test]
fn a_trail_pushes_then_trims() {
    let mut trail: Vec<u32> = Vec::new();
    for i in 0..7u32 {
        push_trail(&mut trail, 3, i);
    }
    assert_eq!(trail, vec![4, 5, 6]);
    let mut none: Vec<u32> = Vec::new();
    push_trail(&mut none, 0, 9);
    assert!(none.is_empty());
}

#[test]
fn recent_is_newest_first() {
    let ring: VecDeque<u32> = (1..=5).collect();
    assert_eq!(recent(&ring, 3), vec![5, 4, 3]);
    assert_eq!(recent(&ring, 5), vec![5, 4, 3, 2, 1]);
    assert_eq!(recent(&ring, 9), vec![5, 4, 3, 2, 1]);
    assert_eq!(recent(&ring, 0), Vec::<u32>::new());
    assert_eq!(newest(&ring), Some(5));
    assert_eq!(newest_pair(&ring), Some((5, 4)));
    let one: VecDeque<u32> = (1..=1).collect();
    assert_eq!(newest_pair(&one), None);
    assert_eq!(newest(&VecDeque::<u32>::new()), None);
}

#[test]
fn grievance_retains_a_trailing_window() {
    let mut g = Grievance::new("A".to_string());
    assert_eq!(g.actor_id, "A");
    assert_eq!(f(g.cumulative_error), 0.0);
    assert_eq!(f(g.window_error), 0.0);
    assert!(g.error_history.is_empty());
    let mut total = 0.0;
    for i in 1..=5 {
        let e = i as f64;
        let preview = g.window_with(s(e), 3);
        total += e;
        let mean = preview.iter().map(|&x| f(x)).sum::<f64>() / preview.len() as f64;
        g.update(s(e), 3, s(total), s(mean));
        assert_eq!(g.error_history, preview);
    }
    assert_eq!(g.error_history, vec![s(3.0), s(4.0), s(5.0)]);
    assert_eq!(f(g.cumulative_error), 15.0);
    assert_eq!(f(g.window_error), 4.0);
    g.reset();
    assert!(g.error_history.is_empty());
    assert_eq!(f(g.cumulative_error), 0.0);
    assert_eq!(f(g.window_error), 0.0);
    assert_eq!(g.actor_id, "A");
}

#[test]
fn grievance_without_window_keeps_its_mean() {
    let mut g = Grievance::new("A".to_string());
    g.update(s(7.0), 0, s(7.0), s(7.0));
    assert!(g.error_history.is_empty());
    assert_eq!(f(g.window_error), 0.0);
    assert_eq!(f(g.cumulative_error), 7.0);
    let mut h = Grievance::new("B".to_string());
    h.update(s(2.0), 1, s(2.0), s(2.0));
    assert_eq!(f(h.window_error), 2.0);
    h.update(s(4.0), 1, s(6.0), s(4.0));
    assert_eq!(h.error_history, vec![s(4.0)]);
    assert_eq!(f(h.window_error), 4.0);
}

fn push_stats(stats: &mut RollingStats, value: f64) {
    let (sum, sum_sq) = stats.sums();
    let (mut sum, mut sum_sq) = (f(sum), f(sum_sq));
    if let Some(old) = stats.evicts() {
        sum -= f(old);
        sum_sq -= f(old) * f(old);
    }
    sum += value;
    sum_sq += value * value;
    stats.push(s(value), s(sum), s(sum_sq));
}

fn mean(stats: &RollingStats) -> f64 {
    if stats.is_empty() {
        0.0
    } else {
        f(stats.sums().0) / stats.len() as f64
    }
}

#[test]
fn test_rolling_stats_mean() {
    let mut stats = RollingStats::new(5);
    for i in 1..=5 {
        push_stats(&mut stats, i as f64);
    }
    assert!((mean(&stats) - 3.0).abs() < 1e-10);
}

#[test]
fn test_rolling_stats_variance() {
    let mut stats = RollingStats::new(5);
    for i in 1..=5 {
        push_stats(&mut stats, i as f64);
    }
    let n = stats.len() as f64;
    let variance = f(stats.sums().1) / n - mean(&stats) * mean(&stats);
    assert!((variance - 2.0).abs() < 0.01);
}

#[test]
fn rolling_stats_evict_the_oldest() {
    let mut stats = RollingStats::new(3);
    assert!(stats.is_empty());
    assert_eq!(stats.evicts(), None);
    assert_eq!(stats.last(), None);
    for i in 1..=3 {
        push_stats(&mut stats, i as f64);
        assert_eq!(stats.len(), i);
    }
    assert_eq!(stats.evicts(), Some(s(1.0)));
    push_stats(&mut stats, 10.0);
    assert_eq!(stats.len(), 3);
    assert_eq!(stats.last(), Some(s(10.0)));
    assert_eq!(stats.evicts(), Some(s(2.0)));
    assert_eq!(f(stats.sums().0), 15.0);
}

#[test]
fn test_gradient_tracker() {
    let mut tracker = GradientTracker::new(10);
    for i in 0..10 {
        tracker.push(s(2.0 * i as f64), s(i as f64));
    }
    let (values, times) = tracker.series();
    let n = values.len() as f64;
    let mean_t = times.iter().map(|&t| f(t)).sum::<f64>() / n;
    let mean_v = values.iter().map(|&v| f(v)).sum::<f64>() / n;
    let mut cov = 0.0;
    let mut var_t = 0.0;
    for (t, v) in times.iter().zip(values.iter()) {
        cov += (f(*t) - mean_t) * (f(*v) - mean_v);
        var_t += (f(*t) - mean_t) * (f(*t) - mean_t);
    }
    assert!((cov / var_t - 2.0).abs() < 0.01);
}

#[test]
fn gradient_tracker_keeps_values_and_times_paired() {
    let mut tracker = GradientTracker::new(3);
    assert!(tracker.newest_three().is_none());
    for i in 0..5 {
        tracker.push(s(i as f64), s(100.0 + i as f64));
    }
    let (values, times) = tracker.series();
    assert_eq!(values, vec![s(4.0), s(3.0), s(2.0)]);
    assert_eq!(times, vec![s(104.0), s(103.0), s(102.0)]);
    let (v3, t3) = tracker.newest_three().unwrap();
    assert_eq!(v3, values);
    assert_eq!(t3, times);
}
