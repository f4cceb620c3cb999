use trig_lookup::binary64::Binary64;
use trig_lookup::range::{
    clamp_range, normalize_range, order_range, table_rows, TableRow, MAX_SPAN,
};
use trig_lookup::table::LookupTable;

fn table() -> LookupTable {
    let sines: Vec<Binary64> = (0..360u64).map(Binary64::from_bits).collect();
    let cosines: Vec<Binary64> =
        (0..360u64).map(|i| Binary64::from_bits(1.0f64.to_bits() + i)).collect();
    LookupTable::from_values(sines, cosines).unwrap()
}

#[test]
fn reversed_range_is_put_in_order() {
    assert_eq!(order_range(200, 100), (100, 200));
    assert_eq!(order_range(100, 200), (100, 200));
    assert_eq!(order_range(7, 7), (7, 7));
}

#[test]
fn wide_range_is_cut_to_fifty_past_its_start() {
    assert_eq!(MAX_SPAN, 50);
    assert_eq!(clamp_range(100, 200), (100, 150));
    assert_eq!(clamp_range(0, 359), (0, 50));
    assert_eq!(clamp_range(10, 61), (10, 60));
}

#[test]
fn narrow_range_is_left_alone() {
    assert_eq!(clamp_range(10, 60), (10, 60));
    assert_eq!(clamp_range(0, 10), (0, 10));
    assert_eq!(clamp_range(359, 359), (359, 359));
}

#[test]
fn range_is_ordered_and_then_cut() {
    assert_eq!(normalize_range(200, 100), (100, 150));
    assert_eq!(normalize_range(359, 0), (0, 50));
    assert_eq!(normalize_range(0, 10), (0, 10));
    assert_eq!(normalize_range(60, 10), (10, 60));
    assert_eq!(normalize_range(61, 10), (10, 60));
    assert_eq!(normalize_range(usize::MAX, 0), (0, 50));
    assert_eq!(normalize_range(usize::MAX, usize::MAX - 3), (usize::MAX - 3, usize::MAX));
}

#[test]
fn normalizing_twice_changes_nothing() {
    for (start, end) in [(200, 100), (0, 359), (5, 5), (10, 60), (300, 359)] {
        let once = normalize_range(start, end);
        assert_eq!(normalize_range(once.0, once.1), once);
        assert_eq!(normalize_range(end, start), once);
    }
}

#[test]
fn listing_has_a_row_for_each_degree_of_the_range() {
    let table = table();
    let rows = table_rows(&table, 0, 10);
    assert_eq!(rows.len(), 11);
    for (i, row) in rows.iter().enumerate() {
        assert_eq!(*row, TableRow { degree: i, values: table.entry(i).unwrap() });
    }
}

#[test]
fn listing_of_a_wide_range_has_fifty_one_rows() {
    let table = table();
    let rows = table_rows(&table, 359, 0);
    assert_eq!(rows.len(), 51);
    assert_eq!(rows[0].degree, 0);
    assert_eq!(rows[50].degree, 50);
    let rows = table_rows(&table, 200, 100);
    assert_eq!(rows.len(), 51);
    assert_eq!(rows[0], TableRow { degree: 100, values: table.entry(100).unwrap() });
    assert_eq!(rows[50], TableRow { degree: 150, values: table.entry(150).unwrap() });
}

#[test]
fn listing_of_one_degree_has_one_row() {
    let table = table();
    let rows = table_rows(&table, 359, 359);
    assert_eq!(rows, vec![TableRow { degree: 359, values: table.entry(359).unwrap() }]);
}
