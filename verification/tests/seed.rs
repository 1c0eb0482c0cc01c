use reaction_diffusion::seed::init_values;

/// Both fields have length `width * height`, every value is 0 or 1, and at
/// every index the two values sum to 1.
#[test]
fn seed_fields_are_complementary() {
    for (width, height) in [(1u32, 1u32), (3, 7), (10, 10), (16, 4), (512, 2)] {
        let (a, b) = init_values(width, height);
        let size = (width * height) as usize;
        assert_eq!(a.len(), size);
        assert_eq!(b.len(), size);
        for i in 0..size {
            assert!(a[i] == 0 || a[i] == 1);
            assert!(b[i] == 0 || b[i] == 1);
            assert_eq!(a[i] + b[i], 1);
        }
    }
}

/// For a 10 x 10 grid the seeded region is exactly the linear indices
/// strictly between 40 and 60 whose column is strictly between 4 and 6.
#[test]
fn seed_boundary_ten_by_ten() {
    let (a, b) = init_values(10, 10);
    for i in 0..100usize {
        let seeded = 40 < i && i < 60 && 4 < i % 10 && i % 10 < 6;
        if seeded {
            assert_eq!(a[i], 0, "index {i}");
            assert_eq!(b[i], 1, "index {i}");
        } else {
            assert_eq!(a[i], 1, "index {i}");
            assert_eq!(b[i], 0, "index {i}");
        }
    }
    // Spelled out: only columns equal to 5 qualify, on rows 4 and 5.
    let seeded: Vec<usize> = (0..100).filter(|&i| b[i] == 1).collect();
    assert_eq!(seeded, vec![45, 55]);
}

/// On grids too small to carry the rectangle the seeded region is empty;
/// that is accepted behaviour, not an error.
#[test]
fn seed_small_grid_is_all_background() {
    for (width, height) in [(1u32, 1u32), (4, 4), (2, 3)] {
        let (a, b) = init_values(width, height);
        assert!(a.iter().all(|&v| v == 1));
        assert!(b.iter().all(|&v| v == 0));
    }
}

/// The host maps a seed value to a single-precision concentration; the two
/// species cover each cell exactly between them.
#[test]
fn seed_values_as_concentrations() {
    let (a, b) = init_values(10, 10);
    for i in 0..a.len() {
        let a_f = a[i] as f32;
        let b_f = b[i] as f32;
        assert!(a_f == 0.0 || a_f == 1.0);
        assert_eq!(a_f + b_f, 1.0);
    }
}
