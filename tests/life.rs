use game_of_life::model::{OCCUPIED_BELOW, SAMPLE_RANGE};
use game_of_life::render::{Segment, Square};
use game_of_life::{create_simulation, Cell, Simulation};

fn board(size: usize, occupied: &[(usize, usize)]) -> Simulation {
    let mut sim = Simulation::new_with_size(size).unwrap();
    for &(r, c) in occupied {
        sim.set(r, c, Cell::Occupied);
    }
    sim
}

fn occupied_cells(sim: &Simulation) -> Vec<(usize, usize)> {
    let mut out = Vec::new();
    for r in 0..sim.size() {
        for c in 0..sim.size() {
            if sim.get(r, c) == Cell::Occupied {
                out.push((r, c));
            }
        }
    }
    out
}

#[test]
fn new_board_has_requested_size_and_is_empty() {
    for size in [1usize, 2, 3, 7] {
        let sim = Simulation::new_with_size(size).unwrap();
        assert_eq!(sim.size(), size);
        assert_eq!(sim.turn(), 0);
        assert!(occupied_cells(&sim).is_empty());
    }
}

#[test]
fn zero_size_is_rejected() {
    assert!(Simulation::new_with_size(0).is_none());
}

#[test]
fn default_board_has_side_fifteen() {
    let sim = create_simulation();
    assert_eq!(sim.size(), 15);
    assert_eq!(sim.turn(), 0);
    assert!(occupied_cells(&sim).is_empty());
}

#[test]
fn set_changes_only_one_cell() {
    let mut sim = Simulation::new_with_size(3).unwrap();
    sim.set(2, 0, Cell::Occupied);
    assert_eq!(occupied_cells(&sim), vec![(2, 0)]);
    sim.set(2, 0, Cell::Empty);
    assert!(occupied_cells(&sim).is_empty());
}

#[test]
fn neighbor_count_of_full_board() {
    let mut all = Vec::new();
    for r in 0..4 {
        for c in 0..4 {
            all.push((r, c));
        }
    }
    let sim = board(4, &all);
    assert_eq!(sim.count_neighbors(1, 1), 8);
    assert_eq!(sim.count_neighbors(0, 0), 3);
    assert_eq!(sim.count_neighbors(3, 3), 3);
    assert_eq!(sim.count_neighbors(0, 3), 3);
    assert_eq!(sim.count_neighbors(0, 1), 5);
    assert_eq!(sim.count_neighbors(2, 3), 5);
}

#[test]
fn neighbor_count_ignores_the_cell_itself_and_does_not_wrap() {
    let sim = board(3, &[(1, 1), (2, 2)]);
    assert_eq!(sim.count_neighbors(1, 1), 1);
    assert_eq!(sim.count_neighbors(0, 0), 1);
    assert_eq!(sim.count_neighbors(0, 2), 1);
    assert_eq!(sim.count_neighbors(2, 0), 1);
    assert_eq!(sim.count_neighbors(0, 1), 1);
    assert_eq!(sim.count_neighbors(2, 1), 2);
}

#[test]
fn single_cell_board_has_no_neighbors() {
    let sim = board(1, &[(0, 0)]);
    assert_eq!(sim.count_neighbors(0, 0), 0);
}

#[test]
fn isolated_cell_dies() {
    let mut sim = board(5, &[(2, 2)]);
    sim.simulate();
    assert!(occupied_cells(&sim).is_empty());
}

#[test]
fn three_neighbors_give_birth_and_survival() {
    // (1, 1) is empty with three occupied neighbours.
    let mut sim = board(3, &[(0, 0), (0, 2), (2, 1)]);
    sim.simulate();
    assert_eq!(sim.get(1, 1), Cell::Occupied);

    // (1, 1) is occupied with three occupied neighbours.
    let mut sim = board(3, &[(1, 1), (0, 0), (0, 2), (2, 1)]);
    sim.simulate();
    assert_eq!(sim.get(1, 1), Cell::Occupied);
}

#[test]
fn two_neighbors_keep_only_an_occupied_cell() {
    let mut sim = board(3, &[(1, 1), (0, 0), (2, 2)]);
    sim.simulate();
    assert_eq!(sim.get(1, 1), Cell::Occupied);

    let mut sim = board(3, &[(0, 0), (2, 2)]);
    sim.simulate();
    assert_eq!(sim.get(1, 1), Cell::Empty);
}

#[test]
fn crowded_cell_dies() {
    let mut sim = board(3, &[(1, 1), (0, 0), (0, 1), (0, 2), (1, 0)]);
    assert_eq!(sim.count_neighbors(1, 1), 4);
    sim.simulate();
    assert_eq!(sim.get(1, 1), Cell::Empty);
}

#[test]
fn block_is_a_still_life() {
    let cells = [(1, 1), (1, 2), (2, 1), (2, 2)];
    let mut sim = board(4, &cells);
    let before = sim.to_string();
    sim.simulate();
    assert_eq!(sim.to_string(), before);
    assert_eq!(occupied_cells(&sim), cells.to_vec());

    let corner = [(0, 0), (0, 1), (1, 0), (1, 1)];
    let mut sim = board(2, &corner);
    sim.simulate();
    assert_eq!(occupied_cells(&sim), corner.to_vec());
}

#[test]
fn turn_counts_steps_and_not_reseeds() {
    let mut sim = Simulation::new_with_size(3).unwrap();
    sim.simulate();
    assert_eq!(sim.turn(), 1);
    sim.simulate();
    assert_eq!(sim.turn(), 2);
    let samples = vec![vec![0u32; 3]; 3];
    sim.fill_random(&samples);
    assert_eq!(sim.turn(), 2);
    sim.simulate();
    assert_eq!(sim.turn(), 3);
}

#[test]
fn empty_three_by_three_text() {
    let sim = Simulation::new_with_size(3).unwrap();
    assert_eq!(sim.to_string(), "___\n___\n___\n");
}

#[test]
fn text_marks_occupied_cells() {
    let sim = board(2, &[(0, 1), (1, 0)]);
    assert_eq!(sim.to_string(), "_X\nX_\n");
}

#[test]
fn blinker_oscillates() {
    let mut sim = board(3, &[(0, 1), (1, 1), (2, 1)]);
    assert_eq!(sim.to_string(), "_X_\n_X_\n_X_\n");
    sim.simulate();
    assert_eq!(occupied_cells(&sim), vec![(1, 0), (1, 1), (1, 2)]);
    assert_eq!(sim.to_string(), "___\nXXX\n___\n");
    sim.simulate();
    assert_eq!(occupied_cells(&sim), vec![(0, 1), (1, 1), (2, 1)]);
    assert_eq!(sim.turn(), 2);
}

#[test]
fn samples_below_the_bound_seed_occupied_cells() {
    assert_eq!(Cell::from_sample(0), Cell::Occupied);
    assert_eq!(Cell::from_sample(OCCUPIED_BELOW - 1), Cell::Occupied);
    assert_eq!(Cell::from_sample(OCCUPIED_BELOW), Cell::Empty);
    assert_eq!(Cell::from_sample(SAMPLE_RANGE - 1), Cell::Empty);
}

#[test]
fn fill_random_seeds_each_cell_from_its_sample() {
    let mut sim = board(2, &[(0, 0), (1, 1)]);
    let samples = vec![vec![999u32, 0], vec![399, 400]];
    sim.fill_random(&samples);
    assert_eq!(sim.to_string(), "_X\nX_\n");
    assert_eq!(sim.size(), 2);
}

#[test]
fn cell_squares_are_placed_by_index() {
    let sim = board(2, &[(1, 0)]);
    let squares = sim.cell_squares();
    assert_eq!(squares.len(), 2);
    assert_eq!(squares[0][0], Square { x: 2, y: 2, side: 18, occupied: false });
    assert_eq!(squares[0][1], Square { x: 2, y: 22, side: 18, occupied: false });
    assert_eq!(squares[1][0], Square { x: 22, y: 2, side: 18, occupied: true });
    assert_eq!(squares[1][1], Square { x: 22, y: 22, side: 18, occupied: false });
}

#[test]
fn grid_lines_span_the_board() {
    let sim = Simulation::new_with_size(2).unwrap();
    let lines = sim.grid_lines();
    assert_eq!(
        lines,
        vec![
            Segment { x0: 1, y0: 1, x1: 1, y1: 41 },
            Segment { x0: 1, y0: 1, x1: 41, y1: 1 },
            Segment { x0: 21, y0: 1, x1: 21, y1: 41 },
            Segment { x0: 1, y0: 21, x1: 41, y1: 21 },
            Segment { x0: 41, y0: 1, x1: 41, y1: 41 },
            Segment { x0: 1, y0: 41, x1: 41, y1: 41 },
        ]
    );
}
