//! End-to-end tests of the two blur kernels on concrete planes.

use planeblur::{box_blur, get_max_size, stack_blur, Plane, MAX_SIZE};

/// Deterministic pseudo-random byte stream for test planes.
struct Lcg(u64);

impl Lcg {
    fn next_byte(&mut self) -> u8 {
        self.0 = self.0.wrapping_mul(6364136223846793005).wrapping_add(1442695040888963407);
        (self.0 >> 33) as u8
    }
}

fn load(plane: &mut Plane, data: &[u8]) {
    for (i, &v) in data.iter().enumerate() {
        plane.write_pixel(i, v);
    }
}

fn dump(plane: &Plane, n: usize) -> Vec<u8> {
    let mut out = Vec::with_capacity(n);
    for i in 0..n {
        out.push(plane.read_pixel(i));
    }
    out
}

/// Reference box blur: the same two truncating passes, written naively.
fn box_reference(data: &[u8], width: usize, height: usize, radius: usize) -> Vec<u8> {
    let mut mid = vec![0u8; width * height];
    for h in 0..height {
        for w in 0..width {
            let lo = w.saturating_sub(radius);
            let hi = (w + radius).min(width - 1);
            let sum: u32 = (lo..=hi).map(|x| data[h * width + x] as u32).sum();
            mid[h * width + w] = (sum / (hi - lo + 1) as u32) as u8;
        }
    }
    let mut out = vec![0u8; width * height];
    for h in 0..height {
        for w in 0..width {
            let lo = h.saturating_sub(radius);
            let hi = (h + radius).min(height - 1);
            let sum: u32 = (lo..=hi).map(|y| mid[y * width + w] as u32).sum();
            out[h * width + w] = (sum / (hi - lo + 1) as u32) as u8;
        }
    }
    out
}

/// Reference stack blur: direct triangular weighted sums with edge clamping
/// and the table's multiply-shift, for one concrete radius.
fn stack_reference(
    data: &[u8],
    width: usize,
    height: usize,
    radius: usize,
    mul: u64,
    shg: u32,
) -> Vec<u8> {
    let clamp = |i: isize, n: usize| -> usize {
        if i < 0 {
            0
        } else if i as usize > n - 1 {
            n - 1
        } else {
            i as usize
        }
    };
    let r = radius as isize;
    let mut mid = vec![0u8; width * height];
    for h in 0..height {
        for w in 0..width {
            let mut sum: u64 = 0;
            for d in -r..=r {
                let wt = (r + 1 - d.abs()) as u64;
                sum += wt * data[h * width + clamp(w as isize + d, width)] as u64;
            }
            mid[h * width + w] = ((sum * mul) >> shg) as u8;
        }
    }
    let mut out = vec![0u8; width * height];
    for h in 0..height {
        for w in 0..width {
            let mut sum: u64 = 0;
            for d in -r..=r {
                let wt = (r + 1 - d.abs()) as u64;
                sum += wt * mid[clamp(h as isize + d, height) * width + w] as u64;
            }
            out[h * width + w] = ((sum * mul) >> shg) as u8;
        }
    }
    out
}

/// Population variance of the samples, scaled by `n * n` to stay integral:
/// `n * sum(x^2) - sum(x)^2`.
fn scaled_variance(data: &[u8]) -> u128 {
    let n = data.len() as u128;
    let s: u128 = data.iter().map(|&x| x as u128).sum();
    let s2: u128 = data.iter().map(|&x| (x as u128) * (x as u128)).sum();
    n * s2 - s * s
}

#[test]
fn max_size_is_nine_million() {
    assert_eq!(get_max_size(), 9_000_000);
    assert_eq!(MAX_SIZE, 9_000_000);
}

#[test]
fn box_blur_radius_zero_is_identity() {
    let mut plane = Plane::new();
    let mut rng = Lcg(7);
    let data: Vec<u8> = (0..12 * 9).map(|_| rng.next_byte()).collect();
    load(&mut plane, &data);
    box_blur(&mut plane, 12, 9, 0);
    assert_eq!(dump(&plane, 12 * 9), data);
}

#[test]
fn box_blur_five_by_five_center_spike() {
    let mut plane = Plane::new();
    let mut data = vec![0u8; 25];
    data[12] = 100;
    load(&mut plane, &data);
    box_blur(&mut plane, 5, 5, 1);
    let out = dump(&plane, 25);
    // centre: the horizontal pass leaves 100/3 = 33 across the middle row,
    // the vertical pass averages one 33 over three cells: 100/9 = 11
    assert_eq!(out[12], 11);
    // every cell within one step of the centre also averages a single 33
    // over a full three-cell window
    let mut expected = vec![0u8; 25];
    for h in 1..4 {
        for w in 1..4 {
            expected[h * 5 + w] = 11;
        }
    }
    assert_eq!(out, expected);
}

#[test]
fn box_blur_matches_reference() {
    let mut rng = Lcg(99);
    let (width, height) = (13usize, 8usize);
    let data: Vec<u8> = (0..width * height).map(|_| rng.next_byte()).collect();
    for radius in [0u32, 1, 2, 3] {
        let mut plane = Plane::new();
        load(&mut plane, &data);
        box_blur(&mut plane, width as u32, height as u32, radius);
        let expected = box_reference(&data, width, height, radius as usize);
        assert_eq!(dump(&plane, width * height), expected, "radius {radius}");
    }
}

#[test]
fn box_blur_constant_plane_unchanged() {
    for (radius, v) in [(0u32, 77u8), (1, 200), (3, 1), (7, 255), (120, 137)] {
        let (width, height) = (260u32, 250u32);
        let mut plane = Plane::new();
        let n = (width * height) as usize;
        for i in 0..n {
            plane.write_pixel(i, v);
        }
        box_blur(&mut plane, width, height, radius);
        let out = dump(&plane, n);
        assert!(out.iter().all(|&x| x == v), "radius {radius}");
    }
}

#[test]
fn box_blur_interior_exact_on_divisible_rows() {
    // cell (h, w) = 3 * w: every horizontal window sum is a multiple of 3,
    // so the interior output is the exact window mean, 3 * w
    let (width, height) = (7usize, 7usize);
    let data: Vec<u8> = (0..width * height).map(|k| (3 * (k % width)) as u8).collect();
    let mut plane = Plane::new();
    load(&mut plane, &data);
    box_blur(&mut plane, 7, 7, 1);
    let out = dump(&plane, width * height);
    for h in 1..6 {
        for w in 1..6 {
            assert_eq!(out[h * width + w], (3 * w) as u8);
        }
    }
}

#[test]
fn box_blur_leaves_tail_untouched() {
    let mut plane = Plane::new();
    for i in 0..40 {
        plane.write_pixel(i, 9);
    }
    plane.write_pixel(25, 77);
    plane.write_pixel(39, 244);
    box_blur(&mut plane, 5, 5, 1);
    // samples at and past width * height keep their old values
    assert_eq!(plane.read_pixel(25), 77);
    assert_eq!(plane.read_pixel(39), 244);
    assert_eq!(plane.read_pixel(40), 0);
}

#[test]
fn stack_blur_constant_plane_unchanged() {
    for (radius, v) in [(0u32, 77u8), (1, 200), (2, 251), (3, 9), (7, 255), (100, 137), (255, 64)]
    {
        let (width, height) = (260u32, 258u32);
        let mut plane = Plane::new();
        let n = (width * height) as usize;
        for i in 0..n {
            plane.write_pixel(i, v);
        }
        stack_blur(&mut plane, width, height, radius);
        let out = dump(&plane, n);
        assert!(out.iter().all(|&x| x == v), "radius {radius}");
    }
}

#[test]
fn stack_blur_matches_reference_radius_two() {
    // radius 2 uses multiplier 456 and shift 12 from the reciprocal tables
    let mut rng = Lcg(4242);
    let (width, height) = (11usize, 9usize);
    let data: Vec<u8> = (0..width * height).map(|_| rng.next_byte()).collect();
    let mut plane = Plane::new();
    load(&mut plane, &data);
    stack_blur(&mut plane, width as u32, height as u32, 2);
    let expected = stack_reference(&data, width, height, 2, 456, 12);
    assert_eq!(dump(&plane, width * height), expected);
}

#[test]
fn stack_blur_matches_reference_radius_five() {
    // radius 5 uses multiplier 456 and shift 14 from the reciprocal tables
    let mut rng = Lcg(31337);
    let (width, height) = (16usize, 10usize);
    let data: Vec<u8> = (0..width * height).map(|_| rng.next_byte()).collect();
    let mut plane = Plane::new();
    load(&mut plane, &data);
    stack_blur(&mut plane, width as u32, height as u32, 5);
    let expected = stack_reference(&data, width, height, 5, 456, 14);
    assert_eq!(dump(&plane, width * height), expected);
}

#[test]
fn blurring_does_not_increase_variance() {
    for seed in [1u64, 2, 3, 4, 5] {
        let mut rng = Lcg(seed);
        let (width, height) = (24usize, 17usize);
        let data: Vec<u8> = (0..width * height).map(|_| rng.next_byte()).collect();
        let before = scaled_variance(&data);
        for radius in [1u32, 2, 4] {
            let mut plane = Plane::new();
            load(&mut plane, &data);
            box_blur(&mut plane, width as u32, height as u32, radius);
            let after = scaled_variance(&dump(&plane, width * height));
            assert!(after <= before, "box radius {radius} seed {seed}");

            let mut plane = Plane::new();
            load(&mut plane, &data);
            stack_blur(&mut plane, width as u32, height as u32, radius);
            let after = scaled_variance(&dump(&plane, width * height));
            assert!(after <= before, "stack radius {radius} seed {seed}");
        }
    }
}

#[test]
fn blurring_preserves_mirror_symmetry() {
    let mut rng = Lcg(77);
    let (width, height) = (14usize, 11usize);
    // build a horizontally mirror-symmetric plane
    let mut data = vec![0u8; width * height];
    for h in 0..height {
        for w in 0..width / 2 + 1 {
            let v = rng.next_byte();
            data[h * width + w] = v;
            data[h * width + (width - 1 - w)] = v;
        }
    }
    for radius in [1u32, 2] {
        let mut plane = Plane::new();
        load(&mut plane, &data);
        box_blur(&mut plane, width as u32, height as u32, radius);
        let out = dump(&plane, width * height);
        for h in 0..height {
            for w in 0..width {
                assert_eq!(out[h * width + w], out[h * width + (width - 1 - w)]);
            }
        }
        let mut plane = Plane::new();
        load(&mut plane, &data);
        stack_blur(&mut plane, width as u32, height as u32, radius);
        let out = dump(&plane, width * height);
        for h in 0..height {
            for w in 0..width {
                assert_eq!(out[h * width + w], out[h * width + (width - 1 - w)]);
            }
        }
    }
}

#[test]
fn stack_blur_edge_clamp_weights_edges_heavier() {
    // a bright left edge is replicated by the clamp, so the leftmost output
    // exceeds the plain truncated mean the box kernel produces there
    let (width, height) = (8usize, 8usize);
    let mut data = vec![0u8; width * height];
    for h in 0..height {
        data[h * width] = 240;
    }
    let mut plane = Plane::new();
    load(&mut plane, &data);
    stack_blur(&mut plane, width as u32, height as u32, 2);
    let stacked = dump(&plane, width * height);
    let mut plane = Plane::new();
    load(&mut plane, &data);
    box_blur(&mut plane, width as u32, height as u32, 2);
    let boxed = dump(&plane, width * height);
    let mid = 4 * width;
    assert!(stacked[mid] > boxed[mid]);
}

#[test]
fn stack_blur_radius_zero_is_identity() {
    // radius 0 scales a single sample by 512 and shifts by 9, giving it back
    let mut plane = Plane::new();
    let mut rng = Lcg(11);
    let data: Vec<u8> = (0..10 * 7).map(|_| rng.next_byte()).collect();
    load(&mut plane, &data);
    stack_blur(&mut plane, 10, 7, 0);
    assert_eq!(dump(&plane, 10 * 7), data);
}

#[test]
fn stack_blur_leaves_tail_untouched() {
    let mut plane = Plane::new();
    for i in 0..30 {
        plane.write_pixel(i, 50);
    }
    plane.write_pixel(26, 3);
    stack_blur(&mut plane, 5, 5, 2);
    assert_eq!(plane.read_pixel(26), 3);
    assert_eq!(plane.read_pixel(29), 50);
}

#[test]
fn box_blur_full_capacity_plane() {
    // the largest plane the buffers admit: 3000 x 3000 = get_max_size()
    let mut plane = Plane::new();
    let n = 3000usize * 3000;
    assert_eq!(n, get_max_size());
    for i in (0..n).step_by(997) {
        plane.write_pixel(i, 180);
    }
    box_blur(&mut plane, 3000, 3000, 1);
    // a row interior to a run of zeros stays zero; near a seeded pixel the
    // mean is positive
    assert!(plane.read_pixel(1) > 0);
    assert_eq!(plane.read_pixel(500), 0);
}
