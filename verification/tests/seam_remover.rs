use seam_carving::CarveError;
use seam_carving::Rgb;
use seam_carving::cut_seam;
use seam_carving::mark_seam;

fn grid(rows: &[&[u8]]) -> Vec<Vec<u8>> {
    rows.iter().map(|r| r.to_vec()).collect()
}

fn rgb(v: u8) -> Rgb {
    Rgb { r: v, g: v, b: v }
}

fn color_grid(rows: &[&[u8]]) -> Vec<Vec<Rgb>> {
    rows.iter().map(|r| r.iter().map(|&v| rgb(v)).collect()).collect()
}

#[test]
fn cut_removes_exactly_one_column() {
    let image = grid(&[&[1, 2, 3], &[4, 5, 6], &[7, 8, 9]]);
    let seam = vec![0usize, 1, 2];
    let out = cut_seam(&image, &seam).unwrap();
    assert_eq!(out.len(), 3);
    for row in &out {
        assert_eq!(row.len(), 2);
    }
    assert_eq!(out, vec![vec![2u8, 3], vec![4, 6], vec![7, 8]]);
}

#[test]
fn cut_preserves_row_values_but_the_seam_cell() {
    let image = grid(&[&[10, 20, 30, 40], &[50, 60, 70, 80]]);
    let seam = vec![2usize, 0];
    let out = cut_seam(&image, &seam).unwrap();
    for y in 0..image.len() {
        let mut expected = image[y].clone();
        expected.remove(seam[y]);
        // Multiset comparison: order-insensitive.
        let mut got = out[y].clone();
        let mut want = expected.clone();
        got.sort();
        want.sort();
        assert_eq!(got, want);
        // And the order of the retained cells is preserved too.
        assert_eq!(out[y], expected);
    }
}

#[test]
fn cut_does_not_touch_its_input() {
    let image = grid(&[&[1, 2], &[3, 4]]);
    let copy = image.clone();
    let seam = vec![1usize, 0];
    let _ = cut_seam(&image, &seam).unwrap();
    assert_eq!(image, copy);
}

#[test]
fn cut_works_on_color_payloads() {
    let image = color_grid(&[&[1, 2], &[3, 4]]);
    let seam = vec![0usize, 1];
    let out = cut_seam(&image, &seam).unwrap();
    assert_eq!(out, vec![vec![rgb(2)], vec![rgb(3)]]);
}

#[test]
fn cut_rejects_empty_grid() {
    let image: Vec<Vec<u8>> = Vec::new();
    assert_eq!(cut_seam(&image, &vec![]), Err(CarveError::EmptyInput));
}

#[test]
fn cut_rejects_seam_of_wrong_length() {
    let image = grid(&[&[1, 2], &[3, 4]]);
    assert_eq!(cut_seam(&image, &vec![0usize]), Err(CarveError::ShapeMismatch));
}

#[test]
fn cut_rejects_seam_out_of_bounds() {
    let image = grid(&[&[1, 2], &[3, 4]]);
    assert_eq!(cut_seam(&image, &vec![0usize, 2]), Err(CarveError::ShapeMismatch));
}

#[test]
fn cut_refuses_to_narrow_below_one_column() {
    let image = grid(&[&[1], &[2]]);
    assert_eq!(cut_seam(&image, &vec![0usize, 0]), Err(CarveError::OutOfRange));
}

#[test]
fn mark_paints_the_seam_without_narrowing() {
    let image = color_grid(&[&[1, 2], &[3, 4]]);
    // Bottom-row-first: entry 0 belongs to row 1, entry 1 to row 0.
    let seam = vec![0usize, 1];
    let out = mark_seam(&image, &seam).unwrap();
    let mark = Rgb { r: 255, g: 0, b: 0 };
    assert_eq!(out, vec![vec![rgb(1), mark], vec![mark, rgb(4)]]);
}

#[test]
fn mark_rejects_seam_of_wrong_length() {
    let image = color_grid(&[&[1, 2], &[3, 4]]);
    assert_eq!(mark_seam(&image, &vec![0usize, 1, 0]), Err(CarveError::ShapeMismatch));
}

#[test]
fn mark_rejects_empty_grid() {
    let image: Vec<Vec<Rgb>> = Vec::new();
    assert_eq!(mark_seam(&image, &vec![]), Err(CarveError::EmptyInput));
}
