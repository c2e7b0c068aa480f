use mandelbrot_view::escape::escape_time;
use mandelbrot_view::grid::sweep_grid;
use num::complex::Complex;

fn instability(re: f64, im: f64, max_iterations: u16) -> u16 {
    let c = Complex::new(re, im);
    escape_time(Complex::new(0.0, 0.0), max_iterations, |z: Complex<f64>| {
        let next = z * z + c;
        (next, next.norm() > 2.0)
    })
}

#[test]
fn origin_never_escapes() {
    for budget in [0u16, 1, 2, 50, 1000] {
        assert_eq!(instability(0.0, 0.0, budget), 0);
    }
}

#[test]
fn far_point_escapes_at_first_step() {
    for budget in [1u16, 2, 50, 1000] {
        assert_eq!(instability(2.0, 2.0, budget), 1);
    }
}

#[test]
fn escape_time_counts_steps_from_one() {
    // c = 1: 1, 2, 5 — the third point is the first outside the disc.
    assert_eq!(instability(1.0, 0.0, 50), 3);
    assert_eq!(instability(1.0, 0.0, 3), 3);
    assert_eq!(instability(1.0, 0.0, 2), 0);
    // c = -1 cycles between -1 and 0.
    assert_eq!(instability(-1.0, 0.0, 500), 0);
}

#[test]
fn escape_time_result_within_budget() {
    for budget in [1u16, 5, 20] {
        for k in 0..40 {
            let re = -2.0 + (k as f64) * 0.1;
            let r = instability(re, 0.3, budget);
            assert!(r <= budget);
        }
    }
}

#[test]
fn escape_time_with_counter_state() {
    // A step that leaves the disc at its fifth call.
    assert_eq!(escape_time(0u32, 10, |n: u32| (n + 1, n + 1 == 5)), 5);
    assert_eq!(escape_time(0u32, 4, |n: u32| (n + 1, n + 1 == 5)), 0);
}

#[test]
fn sweep_is_row_major_with_max() {
    let (grid, max_value) = sweep_grid(3, 2, |row: usize, col: usize| (row * 10 + col) as u16);
    assert_eq!(grid, vec![0, 1, 2, 10, 11, 12]);
    assert_eq!(max_value, 12);
}

#[test]
fn sweep_length_and_brute_force_max() {
    for (w, h) in [(1usize, 1usize), (4, 3), (7, 5), (80, 24)] {
        let (grid, max_value) =
            sweep_grid(w, h, |row: usize, col: usize| ((row * 7 + col * 13) % 29) as u16);
        assert_eq!(grid.len(), w * h);
        assert_eq!(max_value, grid.iter().copied().max().unwrap_or(0));
    }
}

#[test]
fn sweep_all_bounded_gives_zero_max() {
    let (grid, max_value) = sweep_grid(5, 4, |_row: usize, _col: usize| 0u16);
    assert_eq!(grid, vec![0u16; 20]);
    assert_eq!(max_value, 0);
}

#[test]
fn sweep_empty_grid() {
    let (grid, max_value) = sweep_grid(0, 5, |_row: usize, _col: usize| 9u16);
    assert!(grid.is_empty());
    assert_eq!(max_value, 0);
    let (grid, max_value) = sweep_grid(5, 0, |_row: usize, _col: usize| 9u16);
    assert!(grid.is_empty());
    assert_eq!(max_value, 0);
}

#[test]
fn sweep_of_escape_times_over_plane() {
    // A 4 by 2 sweep of the square [-2, 2] x [-2, 2], sampled at cell centres.
    let (w, h) = (4usize, 2usize);
    let (x_min, x_max, y_min, y_max) = (-2.0f64, 2.0f64, -2.0f64, 2.0f64);
    let wd = (x_max - x_min) / w as f64;
    let hd = (y_max - y_min) / h as f64;
    let (grid, max_value) = sweep_grid(w, h, |row: usize, col: usize| {
        let x = x_min + wd / 2.0 + col as f64 * wd;
        let y = y_min + hd / 2.0 + row as f64 * hd;
        instability(x, y, 20)
    });
    let expected: Vec<u16> = (0..w * h)
        .map(|i| {
            let (row, col) = (i / w, i % w);
            instability(x_min + wd / 2.0 + col as f64 * wd, y_min + hd / 2.0 + row as f64 * hd, 20)
        })
        .collect();
    assert_eq!(grid, expected);
    assert_eq!(max_value, *expected.iter().max().unwrap());
}
