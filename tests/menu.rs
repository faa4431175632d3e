use rage_platformer::menu::{arrow_button_system, first_page_buttons, ArrowButton, LevelButton, LevelSelectPage};

#[test]
fn first_page_has_one_button_per_level() {
    assert_eq!(first_page_buttons(), vec![LevelButton(0), LevelButton(1)]);
}

#[test]
fn no_page_beyond_the_last_level() {
    let mut page = LevelSelectPage(0);
    let mut buttons = first_page_buttons();
    assert!(!arrow_button_system(&mut page, ArrowButton::Forward, &mut buttons));
    assert!(!arrow_button_system(&mut page, ArrowButton::Backward, &mut buttons));
    assert_eq!(page, LevelSelectPage(0));
    assert_eq!(buttons, vec![LevelButton(0), LevelButton(1)]);
}

#[test]
fn going_back_moves_the_buttons() {
    let mut page = LevelSelectPage(1);
    let mut buttons = vec![LevelButton(9), LevelButton(13)];
    assert!(arrow_button_system(&mut page, ArrowButton::Backward, &mut buttons));
    assert_eq!(page, LevelSelectPage(0));
    assert_eq!(buttons, vec![LevelButton(0), LevelButton(4)]);
}
