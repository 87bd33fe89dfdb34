use mnk_game::session::App;
use mnk_game::session::Msg;

#[test]
fn create_gives_nine_free_cells() {
    let app = App::create();
    assert_eq!(app.cellules_width(), 3);
    assert_eq!(app.cellules_height(), 3);
    assert_eq!(app.cells(), &vec![None; 9]);
}

#[test]
fn click_takes_a_free_cell() {
    let mut app = App::create();
    assert!(app.update(Msg::MakeMove(4)));
    let mut expected = vec![None; 9];
    expected[4] = Some(1);
    assert_eq!(app.cells(), &expected);
}

#[test]
fn second_click_frees_the_cell_again() {
    let mut app = App::create();
    assert!(app.update(Msg::MakeMove(0)));
    assert!(app.update(Msg::MakeMove(8)));
    assert!(app.update(Msg::MakeMove(0)));
    let mut expected = vec![None; 9];
    expected[8] = Some(1);
    assert_eq!(app.cells(), &expected);
    assert!(app.update(Msg::MakeMove(0)));
    expected[0] = Some(1);
    assert_eq!(app.cells(), &expected);
}

#[test]
fn tick_changes_nothing() {
    let mut app = App::create();
    assert!(app.update(Msg::MakeMove(2)));
    let before = app.cells().clone();
    assert!(app.update(Msg::Tick));
    assert_eq!(app.cells(), &before);
    assert_eq!(app.cellules_width(), 3);
    assert_eq!(app.cellules_height(), 3);
}
