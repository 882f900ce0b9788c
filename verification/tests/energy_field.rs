use seam_carving::CarveError;
use seam_carving::generate_energies;

fn grid(rows: &[&[u8]]) -> Vec<Vec<u8>> {
    rows.iter().map(|r| r.to_vec()).collect()
}

#[test]
fn energies_of_hand_computed_grid() {
    let signal = grid(&[&[1, 1, 1], &[1, 9, 1], &[1, 1, 1]]);
    let costs = generate_energies(&signal).unwrap();
    let expected: Vec<Vec<usize>> = vec![vec![1, 1, 1], vec![2, 10, 2], vec![3, 3, 3]];
    assert_eq!(costs, expected);
}

#[test]
fn energies_base_row_equals_signal() {
    let signal = grid(&[&[7, 0, 255, 3], &[1, 2, 3, 4]]);
    let costs = generate_energies(&signal).unwrap();
    assert_eq!(costs[0], vec![7usize, 0, 255, 3]);
}

#[test]
fn energies_shape_preserved() {
    let signal = grid(&[&[5, 4, 3, 2, 1], &[1, 2, 3, 4, 5], &[9, 8, 7, 6, 5], &[0, 0, 0, 0, 0]]);
    let costs = generate_energies(&signal).unwrap();
    assert_eq!(costs.len(), 4);
    for row in &costs {
        assert_eq!(row.len(), 5);
    }
}

#[test]
fn energies_never_below_signal() {
    let signal = grid(&[&[5, 200, 3], &[90, 2, 250], &[9, 180, 7], &[63, 0, 255]]);
    let costs = generate_energies(&signal).unwrap();
    for y in 0..signal.len() {
        for x in 0..signal[0].len() {
            assert!(costs[y][x] >= signal[y][x] as usize);
        }
    }
}

#[test]
fn energies_single_column() {
    let signal = grid(&[&[3], &[4], &[5]]);
    let costs = generate_energies(&signal).unwrap();
    assert_eq!(costs, vec![vec![3usize], vec![7], vec![12]]);
}

#[test]
fn energies_empty_grid_rejected() {
    let no_rows: Vec<Vec<u8>> = Vec::new();
    assert_eq!(generate_energies(&no_rows), Err(CarveError::EmptyInput));
    let no_cols: Vec<Vec<u8>> = vec![Vec::new()];
    assert_eq!(generate_energies(&no_cols), Err(CarveError::EmptyInput));
}
