use maskedit::color::Rgba;
use maskedit::shading::shade_colors;

#[test]
fn rows_are_flipped() {
    let mut colors = vec![Rgba::new(0, 0, 0, 7); 4];
    // mask rows: top row [10, 20], bottom row [30, 40]
    let levels = vec![10u8, 20, 30, 40];
    shade_colors(&mut colors, &levels, 2);
    assert_eq!(colors[0], Rgba::new(30, 30, 30, 7));
    assert_eq!(colors[1], Rgba::new(40, 40, 40, 7));
    assert_eq!(colors[2], Rgba::new(10, 10, 10, 7));
    assert_eq!(colors[3], Rgba::new(20, 20, 20, 7));
}

#[test]
fn alpha_kept_and_tail_untouched() {
    let mut colors: Vec<Rgba> = (0..11).map(|i| Rgba::new(1, 2, 3, i as u8)).collect();
    let levels: Vec<u8> = (0..9).map(|i| 100 + i as u8).collect();
    shade_colors(&mut colors, &levels, 3);
    for y in 0..3 {
        for x in 0..3 {
            let v = levels[(2 - y) * 3 + x];
            assert_eq!(colors[y * 3 + x], Rgba::new(v, v, v, (y * 3 + x) as u8));
        }
    }
    assert_eq!(colors[9], Rgba::new(1, 2, 3, 9));
    assert_eq!(colors[10], Rgba::new(1, 2, 3, 10));
}

#[test]
fn empty_grid_changes_nothing() {
    let mut colors = vec![Rgba::new(5, 6, 7, 8)];
    shade_colors(&mut colors, &vec![], 0);
    assert_eq!(colors, vec![Rgba::new(5, 6, 7, 8)]);
}
