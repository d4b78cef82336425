use role_buttons::grid_layout::layout;
use role_buttons::model::RoleOption;
use role_buttons::numerals::{parse_u64, u64_to_decimal};

fn role(id: u64, name: &str) -> RoleOption {
    RoleOption { id, name: name.to_string() }
}

fn roles(n: u64) -> Vec<RoleOption> {
    (1..=n).map(|i| role(i, &format!("role {i}"))).collect()
}

#[test]
fn seven_roles_make_rows_of_five_and_two() {
    let g = layout(&roles(7));
    assert_eq!(g.rows.len(), 2);
    assert_eq!(g.rows[0].len(), 5);
    assert_eq!(g.rows[1].len(), 2);
}

#[test]
fn nine_roles_make_rows_of_five_and_four() {
    let g = layout(&roles(9));
    assert_eq!(g.rows.len(), 2);
    assert_eq!(g.rows[0].len(), 5);
    assert_eq!(g.rows[1].len(), 4);
}

#[test]
fn five_roles_make_one_full_row() {
    let g = layout(&roles(5));
    assert_eq!(g.rows.len(), 1);
    assert_eq!(g.rows[0].len(), 5);
}

#[test]
fn six_roles_make_rows_of_five_and_one() {
    let g = layout(&roles(6));
    assert_eq!(g.rows.len(), 2);
    assert_eq!(g.rows[0].len(), 5);
    assert_eq!(g.rows[1].len(), 1);
}

#[test]
fn every_count_up_to_nine_has_ceiling_shape_and_keeps_order() {
    for n in 1..=9u64 {
        let g = layout(&roles(n));
        let expected_rows = ((n as usize) + 4) / 5;
        assert_eq!(g.rows.len(), expected_rows);
        let flat: Vec<_> = g.rows.iter().flatten().collect();
        assert_eq!(flat.len(), n as usize);
        for row in &g.rows {
            assert!(!row.is_empty());
            assert!(row.len() <= 5);
        }
        for (i, c) in flat.iter().enumerate() {
            assert_eq!(c.custom_id, format!("{}", i + 1));
            assert_eq!(c.label, format!("role {}", i + 1));
        }
    }
}

#[test]
fn permuted_input_keeps_its_own_order() {
    let forward = vec![role(10, "a"), role(20, "b"), role(30, "c")];
    let backward = vec![role(30, "c"), role(20, "b"), role(10, "a")];
    let gf = layout(&forward);
    let gb = layout(&backward);
    let ids_f: Vec<_> = gf.rows.iter().flatten().map(|c| c.custom_id.clone()).collect();
    let ids_b: Vec<_> = gb.rows.iter().flatten().map(|c| c.custom_id.clone()).collect();
    assert_eq!(ids_f, vec!["10", "20", "30"]);
    assert_eq!(ids_b, vec!["30", "20", "10"]);
}

#[test]
fn control_identifier_is_decimal_text_of_handle() {
    let g = layout(&vec![role(0, "zero"), role(1234567890, "big"), role(u64::MAX, "max")]);
    let flat: Vec<_> = g.rows.iter().flatten().collect();
    assert_eq!(flat[0].custom_id, "0");
    assert_eq!(flat[1].custom_id, "1234567890");
    assert_eq!(flat[2].custom_id, "18446744073709551615");
}

#[test]
fn decimal_rendering_round_trips_through_parse() {
    for id in [0u64, 1, 9, 10, 42, 99, 12345, u64::MAX] {
        let text = u64_to_decimal(id);
        assert_eq!(parse_u64(&text), Some(id));
    }
}

#[test]
fn parse_accepts_digit_strings_and_nothing_else() {
    assert_eq!(parse_u64("42"), Some(42));
    assert_eq!(parse_u64("0042"), Some(42));
    assert_eq!(parse_u64("0"), Some(0));
    assert_eq!(parse_u64("18446744073709551615"), Some(u64::MAX));
    assert_eq!(parse_u64("18446744073709551616"), None);
    assert_eq!(parse_u64(""), None);
    assert_eq!(parse_u64("+42"), None);
    assert_eq!(parse_u64("4 2"), None);
    assert_eq!(parse_u64("abc"), None);
    assert_eq!(parse_u64("42x"), None);
}
