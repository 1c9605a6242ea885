use edtui::index::Index2;
use edtui::lines::Lines;
use edtui::selection::Selection;

fn test_data() -> Lines {
    Lines::from("Hello\nWorld")
}

#[test]
fn test_copy_from() {
    let data = test_data();
    let selection = Selection::new(Index2::new(0, 3), Index2::new(1, 1));

    assert_eq!(selection.copy_from(&data), Lines::from("lo\nWo"));
}

#[test]
fn test_copy_from_out_of_bounds() {
    let data = test_data();
    let selection = Selection::new(Index2::new(0, 5), Index2::new(1, 1));

    assert_eq!(selection.copy_from(&data), Lines::from("\nWo"));
}

#[test]
fn test_selection_columns_in_row() {
    // given
    let selection = Selection::new(Index2::new(0, 2), Index2::new(1, 1));

    // when
    let selection_columns = selection.get_selected_columns_in_row(0, 5);

    // then
    assert_eq!(selection_columns, Some((2, 5)));

    // when
    let selection = Selection::new(Index2::new(1, 2), Index2::new(1, 1));
    let selection_columns = selection.get_selected_columns_in_row(0, 5);

    // then
    assert_eq!(selection_columns, None);
}
