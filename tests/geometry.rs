use screen_rotator::geometry::{locate_on_window, WindowBoundary};
use screen_rotator::monitor::PlasmaMonitor;
use screen_rotator::rotation::Rotation;
use screen_rotator::stabilizer::RotationPause;
use std::f32::consts::PI;

fn corners(w: f32, h: f32) -> [f32; 4] {
    let a = (w / h).atan();
    let b = (h / w).atan();
    [a, 0.5 * PI + b, PI + a, 1.5 * PI + b]
}

fn bits(c: [f32; 4]) -> [u32; 4] {
    [c[0].to_bits(), c[1].to_bits(), c[2].to_bits(), c[3].to_bits()]
}

#[test]
fn ray_through_each_corner() {
    let c = corners(800.0, 600.0);
    for i in 0..4 {
        assert_eq!(locate_on_window(bits(c), c[i].to_bits()), WindowBoundary::Corner(i));
    }
}

#[test]
fn ray_through_each_edge() {
    let c = corners(800.0, 600.0);
    let b = bits(c);
    assert_eq!(locate_on_window(b, 0.0f32.to_bits()), WindowBoundary::Edge(0));
    assert_eq!(locate_on_window(b, 0.5f32.to_bits()), WindowBoundary::Edge(0));
    assert_eq!(locate_on_window(b, (0.5 * PI).to_bits()), WindowBoundary::Edge(1));
    assert_eq!(locate_on_window(b, PI.to_bits()), WindowBoundary::Edge(2));
    assert_eq!(locate_on_window(b, (1.5 * PI).to_bits()), WindowBoundary::Edge(3));
    assert_eq!(locate_on_window(b, 6.2f32.to_bits()), WindowBoundary::Edge(4));
}

#[test]
fn square_window_corners_at_quarter_turns() {
    let c = corners(500.0, 500.0);
    assert_eq!(c[0], 0.25 * PI);
    assert_eq!(locate_on_window(bits(c), (0.25 * PI).to_bits()), WindowBoundary::Corner(0));
    assert_eq!(locate_on_window(bits(c), (0.3 * PI).to_bits()), WindowBoundary::Edge(1));
}

#[test]
fn monitor_rotation_argument() {
    let m = PlasmaMonitor { name: "DP-1".to_string() };
    assert_eq!(m.rotation_argument(Rotation::Left), "output.DP-1.rotation.left");
    assert_eq!(m.rotation_argument(Rotation::Normal), "output.DP-1.rotation.none");
    assert_eq!(m.rotation_argument(Rotation::Inverted), "output.DP-1.rotation.inverted");
    assert_eq!(m.to_string(), "DP-1");
}

#[test]
fn square_image_in_square_window_meets_corners() {
    // unrotated, both image corner rays pass through window corners, so the
    // limiting length is the window's half-diagonal
    let window = corners(600.0, 600.0);
    let image = corners(300.0, 300.0);
    for i in 0..2 {
        let ray = (0.0f32 + image[i]).rem_euclid(2.0 * PI);
        assert_eq!(locate_on_window(bits(window), ray.to_bits()), WindowBoundary::Corner(i));
    }
}

#[test]
fn rotated_image_meets_edges() {
    // an 800x600 image turned by a quarter of pi no longer reaches the corners
    let window = corners(800.0, 600.0);
    let image = corners(800.0, 600.0);
    let hits: Vec<WindowBoundary> = image[..2]
        .iter()
        .map(|c| locate_on_window(bits(window), (0.25 * PI + c).rem_euclid(2.0 * PI).to_bits()))
        .collect();
    assert_eq!(hits, vec![WindowBoundary::Edge(1), WindowBoundary::Edge(2)]);
}

#[test]
fn pause_toggles_on_space_only() {
    let mut p = RotationPause::new();
    assert!(!p.paused);
    p.on_key('a');
    assert!(!p.paused);
    p.on_key(' ');
    assert!(p.paused);
    assert!(!p.takes_new_angle());
    p.on_key(' ');
    assert!(!p.paused);
    assert!(p.takes_new_angle());
}

#[test]
fn refit_only_on_change() {
    let running = RotationPause::new();
    let paused = RotationPause { paused: true };
    assert!(!running.needs_refit(false, false));
    assert!(running.needs_refit(false, true));
    assert!(running.needs_refit(true, false));
    assert!(!paused.needs_refit(false, true));
    assert!(paused.needs_refit(true, false));
    assert!(paused.needs_refit(true, true));
}
