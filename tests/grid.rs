use game_of_life::config::{
    initialize_grid, pattern_from_choice, terminal_config, window_config, Config, Pattern,
    RenderMode,
};
use game_of_life::game::{advance, Grid};
use game_of_life::patterns::{beacon, blinker, glider, pulsar, toad};

fn live_cells(g: &Grid) -> Vec<(usize, usize)> {
    let mut v = Vec::new();
    for y in 0..g.height {
        for x in 0..g.width {
            if g.get(x, y) {
                v.push((x, y));
            }
        }
    }
    v
}

#[test]
fn new_grid_is_all_dead() {
    let g = Grid::new(7, 4);
    assert_eq!(g.width, 7);
    assert_eq!(g.height, 4);
    assert_eq!(g.cells.len(), 4);
    assert!(g.cells.iter().all(|r| r.len() == 7 && r.iter().all(|c| !c)));
    assert_eq!(g.count_alive(), 0);
}

#[test]
fn zero_sized_grid_is_allowed() {
    let g = Grid::new(0, 3);
    assert_eq!(g.count_alive(), 0);
    assert!(!g.get(0, 0));
    let h = Grid::new(4, 0);
    assert_eq!(h.next_generation(), h);
}

#[test]
fn set_then_get() {
    let mut g = Grid::new(5, 5);
    g.set(2, 3, true);
    assert!(g.get(2, 3));
    assert!(!g.get(3, 2));
    g.set(2, 3, false);
    assert!(!g.get(2, 3));
}

#[test]
fn out_of_range_reads_dead_and_writes_are_ignored() {
    let mut g = Grid::new(4, 3);
    for y in 0..3 {
        for x in 0..4 {
            g.set(x, y, true);
        }
    }
    assert!(!g.get(4, 0));
    assert!(!g.get(0, 3));
    assert!(!g.get(usize::MAX, 0));
    assert!(!g.get(0, usize::MAX));
    let before = g.clone();
    g.set(4, 0, true);
    g.set(0, 3, true);
    g.set(usize::MAX, usize::MAX, true);
    assert_eq!(g, before);
    assert_eq!(g.cells.len(), 3);
}

#[test]
fn corner_has_at_most_three_neighbors() {
    let mut g = Grid::new(3, 3);
    for y in 0..3 {
        for x in 0..3 {
            g.set(x, y, true);
        }
    }
    assert_eq!(g.count_neighbors(0, 0), 3);
    assert_eq!(g.count_neighbors(2, 2), 3);
    assert_eq!(g.count_neighbors(1, 0), 5);
    assert_eq!(g.count_neighbors(1, 1), 8);
}

#[test]
fn neighbors_exclude_the_cell_itself() {
    let mut g = Grid::new(3, 3);
    g.set(1, 1, true);
    assert_eq!(g.count_neighbors(1, 1), 0);
    assert_eq!(g.count_neighbors(0, 0), 1);
    assert_eq!(g.count_neighbors(usize::MAX, usize::MAX), 0);
}

#[test]
fn rule_for_every_neighbor_count() {
    // The centre of a 3x3 grid, with `n` of its eight neighbours alive.
    let ring = [(0, 0), (1, 0), (2, 0), (0, 1), (2, 1), (0, 2), (1, 2), (2, 2)];
    for n in 0..=8 {
        for centre in [false, true] {
            let mut g = Grid::new(3, 3);
            for &(x, y) in ring.iter().take(n) {
                g.set(x, y, true);
            }
            g.set(1, 1, centre);
            assert_eq!(g.count_neighbors(1, 1), n);
            let next = g.next_generation();
            let expected = if centre { n == 2 || n == 3 } else { n == 3 };
            assert_eq!(next.get(1, 1), expected, "centre {} with {} neighbours", centre, n);
        }
    }
}

#[test]
fn next_generation_leaves_receiver_and_repeats() {
    let mut g = Grid::new(10, 10);
    glider(&mut g, 2, 2);
    let before = g.clone();
    let a = g.next_generation();
    let b = g.next_generation();
    assert_eq!(g, before);
    assert_eq!(a, b);
    assert_ne!(a, g);
}

#[test]
fn blank_grid_is_stable() {
    for (w, h) in [(1, 1), (5, 3), (17, 9)] {
        let g = Grid::new(w, h);
        let n = g.next_generation();
        assert_eq!(n, g);
        assert_eq!(n.width, w);
        assert_eq!(n.height, h);
    }
}

#[test]
fn blinker_has_period_two() {
    let mut g = Grid::new(8, 8);
    blinker(&mut g, 3, 4);
    let one = g.next_generation();
    assert_ne!(one, g);
    assert_eq!(live_cells(&one), vec![(4, 3), (4, 4), (4, 5)]);
    let two = one.next_generation();
    assert_eq!(two, g);
}

#[test]
fn glider_moves_one_cell_diagonally_in_four_steps() {
    let mut g = Grid::new(12, 12);
    glider(&mut g, 3, 2);
    let mut h = g.clone();
    for _ in 0..4 {
        h = h.next_generation();
    }
    let mut expected = Grid::new(12, 12);
    glider(&mut expected, 4, 3);
    assert_eq!(h, expected);
    assert_eq!(h.count_alive(), 5);
}

#[test]
fn population_of_fresh_patterns() {
    let mut g = Grid::new(20, 20);
    blinker(&mut g, 5, 5);
    assert_eq!(g.count_alive(), 3);
    let mut g = Grid::new(20, 20);
    glider(&mut g, 5, 5);
    assert_eq!(g.count_alive(), 5);
    let mut g = Grid::new(20, 20);
    pulsar(&mut g, 3, 3);
    assert_eq!(g.count_alive(), 48);
    let mut g = Grid::new(20, 20);
    toad(&mut g, 5, 5);
    assert_eq!(g.count_alive(), 6);
    let mut g = Grid::new(20, 20);
    beacon(&mut g, 5, 5);
    assert_eq!(g.count_alive(), 6);
}

#[test]
fn pattern_offsets() {
    let mut g = Grid::new(10, 10);
    glider(&mut g, 1, 1);
    assert_eq!(live_cells(&g), vec![(2, 1), (3, 2), (1, 3), (2, 3), (3, 3)]);
    let mut g = Grid::new(10, 10);
    toad(&mut g, 1, 1);
    assert_eq!(live_cells(&g), vec![(2, 1), (3, 1), (4, 1), (1, 2), (2, 2), (3, 2)]);
    let mut g = Grid::new(10, 10);
    beacon(&mut g, 1, 1);
    assert_eq!(live_cells(&g), vec![(1, 1), (2, 1), (1, 2), (4, 3), (3, 4), (4, 4)]);
}

#[test]
fn pulsar_layout() {
    let mut g = Grid::new(13, 13);
    pulsar(&mut g, 0, 0);
    let edges = [0usize, 5, 7, 12];
    let bars = [2usize, 3, 4, 8, 9, 10];
    for y in 0..13 {
        for x in 0..13 {
            let expected = (edges.contains(&y) && bars.contains(&x))
                || (bars.contains(&y) && edges.contains(&x));
            assert_eq!(g.get(x, y), expected, "cell ({}, {})", x, y);
        }
    }
}

#[test]
fn pulsar_has_period_three() {
    let mut g = Grid::new(17, 17);
    pulsar(&mut g, 2, 2);
    let one = g.next_generation();
    let two = one.next_generation();
    let three = two.next_generation();
    assert_ne!(one, g);
    assert_ne!(two, g);
    assert_eq!(three, g);
}

#[test]
fn glider_near_edge_is_truncated() {
    let mut g = Grid::new(6, 6);
    g.set(0, 0, true);
    glider(&mut g, 4, 4);
    // Of the offsets only (1, 0) lands inside: (5, 4).
    assert_eq!(live_cells(&g), vec![(0, 0), (5, 4)]);
    assert_eq!(g.width, 6);
    assert_eq!(g.height, 6);
    assert_eq!(g.count_alive(), 2);
}

#[test]
fn seeding_at_the_largest_origin_places_nothing() {
    let mut g = Grid::new(5, 5);
    pulsar(&mut g, usize::MAX, usize::MAX);
    glider(&mut g, usize::MAX - 1, 0);
    assert_eq!(g, Grid::new(5, 5));
}

#[test]
fn random_grid_has_requested_size() {
    for (w, h) in [(0, 0), (1, 1), (30, 7), (7, 30)] {
        let g = Grid::random(w, h);
        assert_eq!(g.width, w);
        assert_eq!(g.height, h);
        assert_eq!(g.cells.len(), h);
        assert!(g.cells.iter().all(|r| r.len() == w));
        assert!(g.count_alive() <= w * h);
    }
}

#[test]
fn random_grid_is_neither_empty_nor_full() {
    // About three cells in ten start alive.
    let g = Grid::random(100, 100);
    let n = g.count_alive();
    assert!(n > 2000 && n < 4000, "{} live cells", n);
}

#[test]
fn equality_is_by_size_and_content() {
    let a = Grid::new(3, 4);
    assert_eq!(a, Grid::new(3, 4));
    assert_ne!(a, Grid::new(4, 3));
    let mut b = Grid::new(3, 4);
    b.set(2, 3, true);
    assert_ne!(a, b);
}

#[test]
fn menu_choices() {
    assert_eq!(pattern_from_choice(1), Pattern::Random);
    assert_eq!(pattern_from_choice(2), Pattern::Gliders);
    assert_eq!(pattern_from_choice(3), Pattern::Oscillators);
    assert_eq!(pattern_from_choice(4), Pattern::Pulsar);
    assert_eq!(pattern_from_choice(0), Pattern::Random);
    assert_eq!(pattern_from_choice(9), Pattern::Random);
}

#[test]
fn terminal_sizes() {
    let c = terminal_config(Pattern::Pulsar, Some((120, 50)));
    assert_eq!(
        c,
        Config {
            render_mode: RenderMode::Terminal,
            pattern: Pattern::Pulsar,
            width: 120,
            height: 47,
            cell_size: 1
        }
    );
    let c = terminal_config(Pattern::Random, Some((10, 2)));
    assert_eq!((c.width, c.height), (10, 0));
    let c = terminal_config(Pattern::Random, None);
    assert_eq!((c.width, c.height), (80, 40));
}

#[test]
fn window_sizes() {
    let c = window_config(Pattern::Gliders, None, None, None);
    assert_eq!(
        c,
        Config {
            render_mode: RenderMode::Window,
            pattern: Pattern::Gliders,
            width: 320,
            height: 180,
            cell_size: 4
        }
    );
    let c = window_config(Pattern::Gliders, Some(800), Some(600), Some(0));
    assert_eq!((c.width, c.height, c.cell_size), (800, 600, 1));
    let c = window_config(Pattern::Gliders, Some(800), Some(600), Some(100));
    assert_eq!((c.width, c.height, c.cell_size), (50, 37, 16));
    let c = window_config(Pattern::Gliders, Some(801), Some(599), Some(10));
    assert_eq!((c.width, c.height, c.cell_size), (80, 59, 10));
}

fn config(pattern: Pattern, width: usize, height: usize) -> Config {
    Config { render_mode: RenderMode::Terminal, pattern, width, height, cell_size: 1 }
}

#[test]
fn starting_scenes() {
    let g = initialize_grid(&config(Pattern::Gliders, 80, 40));
    assert_eq!(g.count_alive(), 15);
    assert!(g.get(6, 5) && g.get(16, 10) && g.get(26, 5));
    let g = initialize_grid(&config(Pattern::Oscillators, 80, 40));
    assert_eq!(g.count_alive(), 15);
    assert!(g.get(10, 10) && g.get(21, 10) && g.get(30, 10) && g.get(33, 13));
    let g = initialize_grid(&config(Pattern::Pulsar, 80, 40));
    assert_eq!(g.count_alive(), 48);
    assert!(g.get(32, 10) && g.get(30, 12) && g.get(40, 22) && !g.get(42, 22));
    let g = initialize_grid(&config(Pattern::Random, 30, 20));
    assert_eq!((g.width, g.height), (30, 20));
}

#[test]
fn starting_scene_on_a_small_grid_is_cut() {
    let g = initialize_grid(&config(Pattern::Pulsar, 35, 12));
    // Rows 10 and 11 of the pulsar's box: offsets with dy 0 and 1, dx below 5.
    assert_eq!(live_cells(&g), vec![(32, 10), (33, 10), (34, 10)]);
}

#[test]
fn advance_reports_stability() {
    let mut g = Grid::new(6, 6);
    blinker(&mut g, 1, 2);
    let (next, stable) = advance(&g);
    assert!(!stable);
    assert_eq!(next, g.next_generation());
    let mut block = Grid::new(6, 6);
    for (x, y) in [(2, 2), (3, 2), (2, 3), (3, 3)] {
        block.set(x, y, true);
    }
    let (next, stable) = advance(&block);
    assert!(stable);
    assert_eq!(next, block);
}

#[test]
fn draws_fill_the_field_row_by_row() {
    let draws = vec![true, false, false, false, true, true];
    let g = Grid::from_draws(3, 2, &draws);
    assert_eq!((g.width, g.height), (3, 2));
    assert_eq!(g.cells, vec![vec![true, false, false], vec![false, true, true]]);
    assert_eq!(live_cells(&g), vec![(0, 0), (1, 1), (2, 1)]);
    let h = Grid::from_draws(2, 3, &draws);
    assert_eq!(live_cells(&h), vec![(0, 0), (0, 2), (1, 2)]);
}

#[test]
fn no_draws_for_an_empty_field() {
    let g = Grid::from_draws(0, 4, &Vec::new());
    assert_eq!(g, Grid::new(0, 4));
    let h = Grid::from_draws(5, 0, &Vec::new());
    assert_eq!(h, Grid::new(5, 0));
}
