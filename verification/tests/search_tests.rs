use shapefit::mutate::MutationRanges;
use shapefit::rng::SeededRng;
use shapefit::search::Command;
use shapefit::search::HillClimb;
use shapefit::shape::Point;
use shapefit::shape::Rgba;
use shapefit::shape::Shape;

fn small_ranges() -> MutationRanges {
    MutationRanges { x_min: 0, x_max: 16, y_min: 0, y_max: 16, radius_min: 1, radius_max: 8 }
}

#[test]
fn new_controller_starts_degenerate() {
    let target: Vec<u8> = vec![0; 64];
    let hc = HillClimb::new(target, 5, small_ranges());
    assert_eq!(hc.best_fitness, u64::MAX);
    assert_eq!(hc.frame, 0);
    assert!(hc.running);
    assert_eq!(hc.best.len(), 5);
    for s in hc.best.iter() {
        assert_eq!(
            *s,
            Shape::Circle {
                center: Point { x: -10, y: -10 },
                radius: 1,
                color: Rgba { red: 0, green: 0, blue: 0, alpha: 255 },
            }
        );
    }
}

#[test]
fn accepted_step_takes_the_fresh_score() {
    let target: Vec<u8> = vec![7, 1, 0, 0];
    let mut hc = HillClimb::new(target, 2, small_ranges());
    let candidate = hc.best.clone();
    let rendered: Vec<u8> = vec![0, 0, 0, 0];
    // 7*7 + 1*1 beats the initial maximal threshold.
    let accepted = hc.step(candidate, &rendered);
    assert!(accepted);
    assert_eq!(hc.best_fitness, 50);
    assert_eq!(hc.frame, 1);
    assert_eq!(hc.best.len(), 2);
}

#[test]
fn rejected_step_drifts_the_threshold_upward() {
    let target: Vec<u8> = vec![255, 186, 19, 4, 1, 1];
    let mut hc = HillClimb::new(target, 1, small_ranges());
    let zeros: Vec<u8> = vec![0; 6];
    let candidate = hc.best.clone();
    let accepted = hc.step(candidate, &zeros);
    assert!(accepted);
    assert_eq!(hc.best_fitness, 100_000);
    // The same render scores 100_000 again, which is no strict improvement:
    // rejected, and the threshold drifts up by the factor 100001/100000.
    let best_before = hc.best.clone();
    let candidate = hc.best.clone();
    let accepted = hc.step(candidate, &zeros);
    assert!(!accepted);
    assert_eq!(hc.best_fitness, 100_001);
    assert_eq!(hc.best, best_before);
    assert_eq!(hc.frame, 2);
}

#[test]
fn boost_tolerance_scales_by_three_halves() {
    let target: Vec<u8> = vec![7, 1, 0, 0];
    let mut hc = HillClimb::new(target, 3, small_ranges());
    let candidate = hc.best.clone();
    let rendered: Vec<u8> = vec![0, 0, 0, 0];
    hc.step(candidate, &rendered);
    assert_eq!(hc.best_fitness, 50);
    let population_before = hc.best.clone();
    let frame_before = hc.frame;
    hc.boost_tolerance();
    assert_eq!(hc.best_fitness, 75);
    assert_eq!(hc.best, population_before);
    assert_eq!(hc.frame, frame_before);
    assert!(hc.running);
}

#[test]
fn commands_touch_only_what_they_say() {
    let target: Vec<u8> = vec![3, 0, 0, 0];
    let mut hc = HillClimb::new(target, 2, small_ranges());
    let candidate = hc.best.clone();
    let rendered: Vec<u8> = vec![1, 0, 0, 0];
    hc.step(candidate, &rendered);
    assert_eq!(hc.best_fitness, 4);

    assert_eq!(hc.apply_command(Command::ReportFitness), Some(4));
    assert_eq!(hc.best_fitness, 4);
    assert!(hc.running);

    assert_eq!(hc.apply_command(Command::BoostTolerance), None);
    assert_eq!(hc.best_fitness, 6);
    assert!(hc.running);

    let population_before = hc.best.clone();
    assert_eq!(hc.apply_command(Command::Stop), None);
    assert!(!hc.running);
    assert_eq!(hc.best_fitness, 6);
    assert_eq!(hc.best, population_before);
}

#[test]
fn mutation_selection_is_round_robin_in_the_frame() {
    let target: Vec<u8> = vec![0; 16];
    let mut hc = HillClimb::new(target, 3, small_ranges());
    let mut rng = SeededRng::new(11);
    for frame in 0..9usize {
        hc.frame = frame;
        let (candidate, _draws) = hc.propose(&mut rng);
        assert_eq!(candidate.len(), 3);
        let chosen = frame % 3;
        for j in 0..3 {
            if j != chosen {
                assert_eq!(candidate[j], hc.best[j]);
            }
        }
    }
}

/// A plain test-side renderer: opaque filled circles, painter's order,
/// RGBA8 row-major, black background.
fn render(population: &[Shape], width: i32, height: i32) -> Vec<u8> {
    let mut buf: Vec<u8> = vec![0; (width * height * 4) as usize];
    for shape in population {
        if let Shape::Circle { center, radius, color } = shape {
            for py in 0..height {
                for px in 0..width {
                    let dx = (px - center.x) as i64;
                    let dy = (py - center.y) as i64;
                    let r = *radius as i64;
                    if dx * dx + dy * dy <= r * r {
                        let at = ((py * width + px) * 4) as usize;
                        buf[at] = color.red;
                        buf[at + 1] = color.green;
                        buf[at + 2] = color.blue;
                        buf[at + 3] = color.alpha;
                    }
                }
            }
        }
    }
    buf
}

#[test]
fn single_circle_converges_toward_a_solid_red_target() {
    let width: i32 = 16;
    let height: i32 = 16;
    let mut target: Vec<u8> = Vec::new();
    for _ in 0..(width * height) {
        target.extend_from_slice(&[255, 0, 0, 255]);
    }
    let ranges = MutationRanges {
        x_min: 0,
        x_max: width,
        y_min: 0,
        y_max: height,
        radius_min: 1,
        radius_max: width / 2,
    };
    let mut hc = HillClimb::new(target, 1, ranges);
    let mut rng = SeededRng::new(42);
    let mut first_accept: Option<u64> = None;
    for _ in 0..600 {
        let threshold_before = hc.report_fitness();
        let (candidate, _draws) = hc.propose(&mut rng);
        let rendered = render(&candidate, width, height);
        let accepted = hc.step(candidate, &rendered);
        let threshold_after = hc.report_fitness();
        if accepted {
            // An acceptance never raises the threshold.
            assert!(threshold_after < threshold_before);
            if first_accept.is_none() {
                first_accept = Some(threshold_after);
            }
        } else {
            // Only rejections drift it, and never downward.
            assert!(threshold_after >= threshold_before);
        }
        assert_eq!(hc.best.len(), 1);
    }
    let first = first_accept.expect("some candidate must beat the maximal threshold");
    // The long-run trend is downward: far better than the first acceptance.
    assert!(hc.report_fitness() < first);
    // The surviving member has moved onto the canvas and turned red-ish.
    match &hc.best[0] {
        Shape::Circle { center, radius, color } => {
            assert!(center.x >= 0 && center.x < width);
            assert!(center.y >= 0 && center.y < height);
            assert!(*radius >= 1);
            assert!(color.red > 128);
        }
        Shape::Polygon { .. } => panic!("the population held only circles"),
    }
}

#[test]
fn perfect_match_reaches_zero_and_drift_keeps_it_there() {
    let target: Vec<u8> = vec![9, 8, 7, 6];
    let mut hc = HillClimb::new(target.clone(), 1, small_ranges());
    let candidate = hc.best.clone();
    let accepted = hc.step(candidate, &target);
    assert!(accepted);
    assert_eq!(hc.best_fitness, 0);
    // Nothing beats a zero threshold, and drifting zero leaves zero: the one
    // state the upward drift cannot move.
    let candidate = hc.best.clone();
    let accepted = hc.step(candidate, &target);
    assert!(!accepted);
    assert_eq!(hc.best_fitness, 0);
}
