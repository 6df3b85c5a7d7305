use micrrou::cell::{Cell, ReactionDiffusionRates, ONE};
use micrrou::mixture::Mixture;
use micrrou::petri_dish::{DishError, PetriDish};
use micrrou::stencil::{laplacian, Cell3x3};

fn background() -> Cell {
    Cell::new(1_000_000, 0)
}

fn perturbed_5x5() -> PetriDish {
    let mut dish = PetriDish::new(5, 5);
    dish.seed_cells(|x, y| {
        if x == 2 && y == 2 {
            Cell::new(500_000, 500_000)
        } else {
            Cell::new(1_000_000, 0)
        }
    })
    .seed_rdks(|_, _| ReactionDiffusionRates::default());
    dish
}

fn on_ring(x: usize, y: usize, w: usize, h: usize) -> bool {
    x == 0 || y == 0 || x == w - 1 || y == h - 1
}

#[test]
fn cell_new_clips_into_unit_range() {
    let c = Cell::new(-5, 2_000_000);
    assert_eq!(c.a(), 0);
    assert_eq!(c.b(), ONE);
    let d = Cell::new(250_000, 750_000);
    assert_eq!((d.a(), d.b()), (250_000, 750_000));
}

#[test]
fn cell_default_is_background() {
    let c = Cell::default();
    assert_eq!((c.a(), c.b()), (1_000_000, 0));
}

#[test]
fn rates_default_is_canonical() {
    let r = ReactionDiffusionRates::default();
    assert_eq!(r.da, 1_000_000);
    assert_eq!(r.db, 500_000);
    assert_eq!(r.feed_rate, 55_000);
    assert_eq!(r.kill_rate, 62_000);
}

#[test]
fn cell_to_u8_maps_share_of_b() {
    assert_eq!(Cell::new(500_000, 500_000).to_u8(), 127);
    assert_eq!(Cell::new(0, 1_000_000).to_u8(), 255);
    assert_eq!(Cell::new(1_000_000, 0).to_u8(), 0);
    assert_eq!(Cell::new(750_000, 250_000).to_u8(), 63);
}

#[test]
fn cell_to_u8_of_empty_cell_is_zero() {
    assert_eq!(Cell::new(0, 0).to_u8(), 0);
}

#[test]
fn cell_map_hands_over_both_values() {
    let c = Cell::new(300_000, 200_000);
    assert_eq!(c.map(|a, b| (a, b)), (300_000, 200_000));
    assert_eq!(c.map(|a, b| a as u64 + b as u64), 500_000);
}

#[test]
fn laplace_of_flat_window_is_zero() {
    let c = Cell::new(400_000, 700_000);
    let n = Cell3x3::from([(c, c, c), (c, c, c), (c, c, c)]);
    assert_eq!(n.laplace(&laplacian()), (0, 0));
}

#[test]
fn laplace_weighs_neighbours() {
    let bg = background();
    let spot = Cell::new(500_000, 500_000);
    let n = Cell3x3::from([(bg, bg, bg), (bg, bg, spot), (bg, bg, bg)]);
    // 0.2 * (0.5 - 1.0) for A and 0.2 * 0.5 for B, in millionths squared.
    assert_eq!(n.laplace(&laplacian()), (-100_000_000_000, 100_000_000_000));
    assert_eq!(n.center(), bg);
}

#[test]
fn react_and_diffuse_exact_values() {
    let bg = background();
    let spot = Cell::new(500_000, 500_000);
    let k = ReactionDiffusionRates::default();
    let beside = Cell3x3::from([(bg, bg, bg), (bg, bg, spot), (bg, bg, bg)]);
    let r = Mixture::react_and_diffuse(&beside, &laplacian(), &k);
    assert_eq!((r.a(), r.b()), (900_000, 50_000));
    let centre = Cell3x3::from([(bg, bg, bg), (bg, spot, bg), (bg, bg, bg)]);
    let r = Mixture::react_and_diffuse(&centre, &laplacian(), &k);
    assert_eq!((r.a(), r.b()), (902_500, 316_500));
}

#[test]
fn react_and_diffuse_clips_results() {
    let empty = Cell::new(0, 0);
    let full = Cell::new(1_000_000, 1_000_000);
    let k = ReactionDiffusionRates { da: 1_000_000, db: 1_000_000, feed_rate: 0, kill_rate: 4_000_000 };
    let n = Cell3x3::from([(empty, empty, empty), (empty, full, empty), (empty, empty, empty)]);
    let r = Mixture::react_and_diffuse(&n, &laplacian(), &k);
    assert_eq!((r.a(), r.b()), (0, 0));
    let k = ReactionDiffusionRates { da: 0, db: 0, feed_rate: 2_000_000, kill_rate: 0 };
    let lone = Cell::new(0, 1_000_000);
    let n = Cell3x3::from([(lone, lone, lone), (lone, lone, lone), (lone, lone, lone)]);
    let r = Mixture::react_and_diffuse(&n, &laplacian(), &k);
    assert_eq!((r.a(), r.b()), (1_000_000, 0));
}

#[test]
fn flat_field_is_unchanged_by_one_update() {
    let mut dish = PetriDish::new(3, 3);
    dish.seed_cells(|_, _| Cell::new(1_000_000, 0))
        .seed_rdks(|_, _| ReactionDiffusionRates::default());
    assert_eq!(dish.update(), Ok(()));
    assert_eq!(dish.get_cell(1, 1), Some(Cell::new(1_000_000, 0)));
    for y in 0..3 {
        for x in 0..3 {
            assert_eq!(dish.get_cell(x, y), Some(background()));
        }
    }
}

#[test]
fn perturbation_spreads_and_ring_stays_frozen() {
    let mut dish = perturbed_5x5();
    for _ in 0..50 {
        assert_eq!(dish.update(), Ok(()));
    }
    for cell in dish.iter() {
        assert!(cell.a() <= ONE && cell.b() <= ONE);
    }
    for y in 0..5 {
        for x in 0..5 {
            let c = dish.get_cell(x, y).unwrap();
            if on_ring(x, y, 5, 5) {
                assert_eq!(c, background());
            } else {
                assert_ne!(c, background());
            }
        }
    }
}

#[test]
fn first_update_gives_exact_neighbourhood_values() {
    let mut dish = perturbed_5x5();
    assert_eq!(dish.update(), Ok(()));
    let left = dish.get_cell(1, 2).unwrap();
    assert_eq!((left.a(), left.b()), (900_000, 50_000));
    let centre = dish.get_cell(2, 2).unwrap();
    assert_eq!((centre.a(), centre.b()), (902_500, 316_500));
    let corner = dish.get_cell(1, 1).unwrap();
    // 0.05 * (0.5 - 1.0) for A and 0.05 * 0.5 * 0.5 for B.
    assert_eq!((corner.a(), corner.b()), (975_000, 12_500));
}

#[test]
fn cells_stay_in_unit_range_under_strong_rates() {
    let mut dish = PetriDish::new(6, 4);
    dish.seed_cells(|x, y| Cell::new(((x * 170_000) % 1_000_001) as i64, ((y * 330_000) % 1_000_001) as i64))
        .seed_rdks(|x, _| ReactionDiffusionRates {
            da: 3_000_000,
            db: 2_500_000,
            feed_rate: 900_000 + x as u32,
            kill_rate: 10_000,
        });
    for _ in 0..20 {
        assert_eq!(dish.update(), Ok(()));
        for cell in dish.iter() {
            assert!(cell.a() <= ONE);
            assert!(cell.b() <= ONE);
        }
    }
}

#[test]
fn border_cells_keep_seeded_values() {
    let seed = |x: usize, y: usize| Cell::new((x * 100_000) as i64, (y * 100_000) as i64);
    let mut dish = PetriDish::new(7, 5);
    dish.seed_cells(seed).seed_rdks(|_, _| ReactionDiffusionRates::default());
    for _ in 0..9 {
        dish.update().unwrap();
    }
    for y in 0..5 {
        for x in 0..7 {
            if on_ring(x, y, 7, 5) {
                assert_eq!(dish.get_cell(x, y), Some(seed(x, y)));
            }
        }
    }
}

#[test]
fn two_updates_restore_parity() {
    let mut dish = perturbed_5x5();
    let start = dish.parity_bit();
    dish.update().unwrap();
    assert_ne!(dish.parity_bit(), start);
    dish.update().unwrap();
    assert_eq!(dish.parity_bit(), start);
}

#[test]
fn get_cell_after_seeding_returns_seed_values() {
    let seed = |x: usize, y: usize| Cell::new((x * 90_000 + y) as i64, (y * 200_000) as i64);
    let mut dish = PetriDish::new(4, 3);
    dish.seed_cells(seed);
    for y in 0..3 {
        for x in 0..4 {
            assert_eq!(dish.get_cell(x, y), Some(seed(x, y)));
        }
    }
}

#[test]
fn iter_twice_yields_same_sequence() {
    let mut dish = perturbed_5x5();
    dish.update().unwrap();
    let first: Vec<Cell> = dish.iter().copied().collect();
    let second: Vec<Cell> = dish.iter().copied().collect();
    assert_eq!(first.len(), 25);
    assert_eq!(first, second);
    assert_eq!(first[2 * 5 + 1], dish.get_cell(1, 2).unwrap());
}

#[test]
fn update_before_seeding_is_refused() {
    let mut dish = PetriDish::new(3, 3);
    assert_eq!(dish.update(), Err(DishError::CellsNotSeeded));
    assert_eq!(dish.parity_bit(), 0);
    assert_eq!(dish.get_cell(0, 0), None);
    dish.seed_cells(|_, _| Cell::new(500_000, 500_000));
    assert_eq!(dish.update(), Err(DishError::RatesNotSeeded));
    assert_eq!(dish.parity_bit(), 0);
    assert_eq!(dish.get_cell(1, 1), Some(Cell::new(500_000, 500_000)));
}

#[test]
fn get_cell_out_of_range_is_none() {
    let mut dish = perturbed_5x5();
    dish.update().unwrap();
    assert_eq!(dish.get_cell(5, 0), None);
    assert_eq!(dish.get_cell(0, 5), None);
    assert_eq!(dish.get_cell(usize::MAX, usize::MAX), None);
    assert!(dish.get_cell(4, 4).is_some());
}

#[test]
fn seeding_twice_overwrites() {
    let mut dish = PetriDish::new(3, 2);
    dish.seed_cells(|_, _| Cell::new(0, 0));
    dish.seed_cells(|x, _| Cell::new(x as i64 * 100, 5));
    assert_eq!(dish.iter().count(), 6);
    assert_eq!(dish.get_cell(2, 1), Some(Cell::new(200, 5)));
}
