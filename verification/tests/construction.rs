use listbox::{Graphics, Length, ListBox, Plain, Renderer, State};

type List<'a> = ListBox<'a, u32, Graphics<Plain>>;

#[test]
fn a_new_state_is_idle() {
    let state = State::new();
    assert!(!state.is_pressed);
    assert!(!state.active);
    assert_eq!(state, State::default());
}

#[test]
fn the_graphics_layer_pads_by_5_and_is_30_high() {
    assert_eq!(<Graphics<Plain> as Renderer>::DEFAULT_PADDING, 5);
    assert_eq!(<Graphics<Plain> as Renderer>::DEFAULT_HEIGHT, 30);
}

#[test]
fn a_new_list_box_has_the_defaults() {
    let mut state = State::new();
    let content = vec![String::from("one"), String::from("two")];
    let list: List<'_> = ListBox::new(&mut state, content.clone());
    assert_eq!(list.on_press, None);
    assert_eq!(list.width, Length::Shrink);
    assert_eq!(list.height, Length::Units(30));
    assert_eq!(list.min_width, 0);
    assert_eq!(list.min_height, 0);
    assert_eq!(list.padding, 5);
    assert_eq!(list.content, content);
    assert_eq!(list.style, Plain);
    assert_eq!(*list.state, State::new());
}

#[test]
fn a_new_list_box_may_be_empty() {
    let mut state = State::new();
    let list: List<'_> = ListBox::new(&mut state, Vec::new());
    assert!(list.content.is_empty());
    assert_eq!(list.padding, 5);
}

#[test]
fn a_new_list_box_keeps_the_state_it_was_lent() {
    let mut state = State { is_pressed: true, active: true };
    let list: List<'_> = ListBox::new(&mut state, Vec::new());
    assert!(list.state.is_pressed);
    assert!(list.state.active);
}

#[test]
fn width_overrides_the_width_alone() {
    let mut state = State::new();
    let list: List<'_> = ListBox::new(&mut state, Vec::new()).width(Length::Fill);
    assert_eq!(list.width, Length::Fill);
    assert_eq!(list.height, Length::Units(30));
    assert_eq!(list.padding, 5);
    assert_eq!(list.on_press, None);
}

#[test]
fn height_overrides_the_default_height() {
    let mut state = State::new();
    let list: List<'_> = ListBox::new(&mut state, Vec::new()).height(Length::Units(120));
    assert_eq!(list.height, Length::Units(120));
    assert_eq!(list.width, Length::Shrink);
    assert_eq!(list.padding, 5);
}

#[test]
fn builders_chain() {
    let mut state = State::new();
    let list: List<'_> = ListBox::new(&mut state, vec![String::from("one")])
        .width(Length::FillPortion(2))
        .on_press(3)
        .style(Plain)
        .height(Length::Shrink);
    assert_eq!(list.width, Length::FillPortion(2));
    assert_eq!(list.height, Length::Shrink);
    assert_eq!(list.on_press, Some(3));
    assert_eq!(list.padding, 5);
    assert_eq!(list.content, vec![String::from("one")]);
}

#[test]
fn on_press_replaces_an_earlier_message() {
    let mut state = State::new();
    let list: List<'_> = ListBox::new(&mut state, Vec::new()).on_press(1).on_press(2);
    assert_eq!(list.on_press, Some(2));
}
