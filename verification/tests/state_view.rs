use edtui::view::Offset;
use edtui::view::ViewState;

#[test]
fn scroll_up() {
    // 0      | --<-
    // 1 --<- | ----
    // 2 ---- |
    // given
    let mut view = ViewState::new();
    view.viewport = Offset::new(0, 1);
    view.screen_coordinates = Offset::new(0, 0);
    view.num_rows = 0;
    view.tab_width = 2;

    // when
    let offset = view.update_viewport_vertical(2, 0);

    // then
    assert_eq!(offset, 0);
}

#[test]
fn scroll_down() {
    // 0 ---- |
    // 1 ---- | ----
    // 2 <-   | --<-
    // given
    let mut view = ViewState::new();
    view.viewport = Offset::new(0, 0);
    view.screen_coordinates = Offset::new(0, 0);
    view.num_rows = 0;
    view.tab_width = 2;

    // when
    let offset = view.update_viewport_vertical(2, 2);

    // then
    assert_eq!(offset, 1);
}

#[test]
fn scroll_left() {
    // given
    let mut view = ViewState::new();
    view.viewport = Offset::new(1, 0);
    view.screen_coordinates = Offset::new(0, 0);
    view.num_rows = 0;
    view.tab_width = 2;
    let line: Vec<char> = vec![];

    // when
    let offset = view.update_viewport_horizontal(2, 0, Some(&line));

    // then
    assert_eq!(offset, 0);
}

#[test]
fn scroll_right() {
    // given
    let mut view = ViewState::new();
    view.viewport = Offset::new(0, 0);
    view.screen_coordinates = Offset::new(0, 0);
    view.num_rows = 0;
    view.tab_width = 2;
    let line: Vec<char> = vec![];

    // when
    let offset = view.update_viewport_horizontal(2, 2, Some(&line));

    // then
    assert_eq!(offset, 1);
}
