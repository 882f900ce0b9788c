use seam_carving::generate_energies;
use seam_carving::generate_seam;
use seam_carving::CarveError;

fn grid(rows: &[&[u8]]) -> Vec<Vec<u8>> {
    rows.iter().map(|r| r.to_vec()).collect()
}

fn costs(rows: &[&[usize]]) -> Vec<Vec<usize>> {
    rows.iter().map(|r| r.to_vec()).collect()
}

#[test]
fn seam_avoids_expensive_center() {
    let signal = grid(&[&[0, 0, 0], &[0, 5, 0], &[0, 0, 0]]);
    let energy_map = generate_energies(&signal).unwrap();
    let seam = generate_seam(&energy_map).unwrap();
    assert_eq!(seam.len(), 3);
    // Entry k belongs to row H - 1 - k; the middle row is entry 1.
    assert_ne!(seam[1], 1, "the minimal path must not pass the costly center");
}

#[test]
fn seam_is_bottom_row_first() {
    // Costs force column 0 in the bottom row and column 1 in the top row.
    let energy_map = costs(&[&[9, 0, 9], &[0, 9, 9]]);
    let seam = generate_seam(&energy_map).unwrap();
    assert_eq!(seam, vec![0, 1]);
}

#[test]
fn seam_entries_connected() {
    let signal = grid(&[
        &[9, 9, 9, 0, 9],
        &[9, 9, 0, 9, 9],
        &[9, 0, 9, 9, 9],
        &[0, 9, 9, 9, 9],
    ]);
    let energy_map = generate_energies(&signal).unwrap();
    let seam = generate_seam(&energy_map).unwrap();
    assert_eq!(seam.len(), 4);
    for k in 1..seam.len() {
        let a = seam[k - 1] as isize;
        let b = seam[k] as isize;
        assert!((a - b).abs() <= 1);
    }
}

#[test]
fn seam_single_row_picks_minimum() {
    let energy_map = costs(&[&[3, 1, 2]]);
    let seam = generate_seam(&energy_map).unwrap();
    assert_eq!(seam, vec![1]);
}

#[test]
fn seam_single_row_tie_picks_leftmost() {
    let energy_map = costs(&[&[2, 1, 1]]);
    let seam = generate_seam(&energy_map).unwrap();
    assert_eq!(seam, vec![1]);
}

#[test]
fn seam_rightmost_column_is_reachable() {
    // The cheapest path hugs the right edge; the window clamp must not
    // cut the last column off.
    let energy_map = costs(&[&[9, 9, 0], &[9, 9, 0], &[9, 9, 0]]);
    let seam = generate_seam(&energy_map).unwrap();
    assert_eq!(seam, vec![2, 2, 2]);
}

#[test]
fn seam_single_column_grid() {
    let energy_map = costs(&[&[1], &[2], &[3]]);
    let seam = generate_seam(&energy_map).unwrap();
    assert_eq!(seam, vec![0, 0, 0]);
}

#[test]
fn seam_empty_grid_rejected() {
    let no_rows: Vec<Vec<usize>> = Vec::new();
    assert_eq!(generate_seam(&no_rows), Err(CarveError::EmptyInput));
}
