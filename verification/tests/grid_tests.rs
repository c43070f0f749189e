use gridgeom::Grid;
use std::cell::RefCell;

#[test]
fn construction_test() {
    let grid = Grid::from_elem(2, 3, 75_u32);
    assert_eq!(grid.width(), 2);
    assert_eq!(grid.height(), 3);
    assert_eq!(grid.iter().cloned().collect::<Vec<_>>(), vec![75, 75, 75, 75, 75, 75]);
}

#[test]
fn index_test() {
    let mut grid = Grid::from_elem(2, 3, 75_u32);

    *grid.index_mut(0, 0) = 0;
    *grid.index_mut(1, 0) = 10;
    *grid.index_mut(0, 1) = 1;
    *grid.index_mut(1, 1) = 11;
    *grid.index_mut(0, 2) = 2;
    *grid.index_mut(1, 2) = 12;

    assert_eq!(grid.iter().cloned().collect::<Vec<_>>(), vec![0, 10, 1, 11, 2, 12]);
}

#[test]
fn coord_iter_test() {
    let grid = Grid::from_elem(3, 3, 0_u32);
    let mut coords = grid.coordinates();
    let mut collected = Vec::new();
    while let Some(pair) = coords.next() {
        collected.push(pair);
    }
    assert_eq!(collected, vec![
        (0, 0),
        (1, 0),
        (2, 0),
        (0, 1),
        (1, 1),
        (2, 1),
        (0, 2),
        (1, 2),
        (2, 2)
    ]);
}

#[test]
fn from_elem_fills_every_cell() {
    let grid = Grid::from_elem(4, 5, -3_i64);
    assert_eq!(grid.width(), 4);
    assert_eq!(grid.height(), 5);
    let elems: Vec<i64> = grid.iter().cloned().collect();
    assert_eq!(elems.len(), 20);
    for x in 0..4 {
        for y in 0..5 {
            assert_eq!(*grid.index(x, y), -3);
        }
    }
}

#[test]
fn write_then_read_leaves_other_cells_alone() {
    let mut grid = Grid::from_elem(3, 4, 7_u32);
    *grid.index_mut(2, 1) = 99;
    assert_eq!(*grid.index(2, 1), 99);
    for x in 0..3 {
        for y in 0..4 {
            if (x, y) != (2, 1) {
                assert_eq!(*grid.index(x, y), 7);
            }
        }
    }
}

#[test]
fn from_fn_stores_generated_values() {
    let grid = Grid::from_fn(3, 2, |x, y| 100 * y + x);
    assert_eq!(grid.iter().cloned().collect::<Vec<_>>(), vec![0, 1, 2, 100, 101, 102]);
    assert_eq!(*grid.index(2, 1), 102);
}

#[test]
fn from_fn_calls_generator_in_row_major_order() {
    let calls: RefCell<Vec<(usize, usize)>> = RefCell::new(Vec::new());
    let grid = Grid::from_fn(2, 2, |x, y| {
        calls.borrow_mut().push((x, y));
        x + 10 * y
    });
    assert_eq!(*calls.borrow(), vec![(0, 0), (1, 0), (0, 1), (1, 1)]);
    assert_eq!(grid.iter().cloned().collect::<Vec<_>>(), vec![0, 1, 10, 11]);
}

#[test]
fn coordinates_align_with_iter_order() {
    let grid = Grid::from_fn(4, 3, |x, y| (x, y));
    let mut coords = grid.coordinates();
    let mut n = 0;
    for elem in grid.iter() {
        let pair = coords.next().expect("coordinate stream ended early");
        assert_eq!(*elem, pair);
        n += 1;
    }
    assert_eq!(n, 12);
    assert_eq!(coords.next(), None);
}

#[test]
fn size_hint_reports_exact_remaining_count() {
    let grid = Grid::from_elem(2, 3, 0_u8);
    let mut coords = grid.coordinates();
    let mut expected = 6;
    assert_eq!(coords.size_hint(), (expected, Some(expected)));
    while let Some(_) = coords.next() {
        expected -= 1;
        assert_eq!(coords.size_hint(), (expected, Some(expected)));
    }
    assert_eq!(coords.size_hint(), (0, Some(0)));
}

#[test]
fn zero_sized_grids_have_no_cells() {
    let empty_wide = Grid::from_elem(0, 5, 1_u8);
    assert_eq!(empty_wide.width(), 0);
    assert_eq!(empty_wide.height(), 5);
    assert_eq!(empty_wide.iter().count(), 0);
    let mut coords = empty_wide.coordinates();
    assert_eq!(coords.size_hint(), (0, Some(0)));
    assert_eq!(coords.next(), None);

    let empty_tall = Grid::from_elem(5, 0, 1_u8);
    assert_eq!(empty_tall.iter().count(), 0);
    let mut coords_tall = empty_tall.coordinates();
    assert_eq!(coords_tall.next(), None);
}

#[test]
fn iter_mut_replaces_elements_in_place() {
    let mut grid = Grid::from_elem(2, 2, 1_u32);
    for elem in grid.iter_mut().iter_mut() {
        *elem += 4;
    }
    assert_eq!(grid.iter().cloned().collect::<Vec<_>>(), vec![5, 5, 5, 5]);
}
