use maskedit::color::Rgba;
use maskedit::mesh::{
    brush_colors, brush_indices, mask_colors, mask_indices, BRUSH_INDEX_COUNT, BRUSH_VERTEX_COUNT,
};

#[test]
fn grid_of_two_is_one_cell() {
    assert_eq!(mask_indices(2), vec![0, 2, 1, 2, 3, 1]);
}

#[test]
fn grid_of_one_has_no_cell() {
    assert!(mask_indices(1).is_empty());
}

#[test]
fn grid_of_three_has_four_cells() {
    let idx = mask_indices(3);
    assert_eq!(idx.len(), 24);
    // cell (0,0), cell (0,1), cell (1,0), cell (1,1)
    assert_eq!(&idx[0..6], &[0, 3, 1, 3, 4, 1]);
    assert_eq!(&idx[6..12], &[1, 4, 2, 4, 5, 2]);
    assert_eq!(&idx[12..18], &[3, 6, 4, 6, 7, 4]);
    assert_eq!(&idx[18..24], &[4, 7, 5, 7, 8, 5]);
}

#[test]
fn grid_indices_stay_in_grid() {
    let n = 17usize;
    let idx = mask_indices(n);
    assert_eq!(idx.len(), 6 * (n - 1) * (n - 1));
    assert!(idx.iter().all(|&i| (i as usize) < n * n));
    for t in idx.chunks(3) {
        assert!(t[0] != t[1] && t[0] != t[2] && t[1] != t[2]);
    }
}

#[test]
fn grid_colors_are_white() {
    let c = mask_colors(9);
    assert_eq!(c.len(), 9);
    assert!(c.iter().all(|&c| c == Rgba { r: 255, g: 255, b: 255, a: 255 }));
    assert!(mask_colors(0).is_empty());
}

#[test]
fn brush_index_list() {
    let idx = brush_indices();
    assert_eq!(idx.len(), BRUSH_INDEX_COUNT);
    assert_eq!(&idx[0..3], &[0, 1, 2]);
    // last fan triangle wraps round to the first inner vertex
    assert_eq!(&idx[93..96], &[0, 32, 1]);
    // first step of the outer band
    assert_eq!(&idx[96..105], &[1, 33, 34, 1, 2, 34, 2, 34, 35]);
    // last step of the outer band wraps round both rings
    assert_eq!(&idx[375..384], &[32, 95, 96, 32, 1, 96, 1, 96, 33]);
    assert!(idx.iter().all(|&i| (i as usize) < BRUSH_VERTEX_COUNT));
}

#[test]
fn brush_colour_list() {
    let c = brush_colors();
    assert_eq!(c.len(), BRUSH_VERTEX_COUNT);
    assert!(c[..33].iter().all(|&c| c == Rgba { r: 255, g: 0, b: 0, a: 255 }));
    assert!(c[33..].iter().all(|&c| c == Rgba { r: 255, g: 0, b: 0, a: 0 }));
}
