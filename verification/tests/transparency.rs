use my_widget::geometry::{Limits, Size};
use my_widget::protocol::{Cursor, Event, Interaction, Operation, Primitive, Shell};
use my_widget::state::{StateNode, StateTag, StateValue, TextInputState};
use my_widget::widget::{my_text_input_wrapper, Element, FocusMapping, TextInput};

#[derive(Clone, Copy, Debug, PartialEq, Eq)]
enum Note {
    Focus(bool),
}

fn field() -> Element<Note> {
    Element::TextInput(TextInput { width: 200, height: 30, id: None })
}

fn wrapped() -> Element<Note> {
    Element::from(my_text_input_wrapper(
        field(),
        FocusMapping { when_focused: Note::Focus(true), when_blurred: Note::Focus(false) },
    ))
}

fn limits() -> Limits {
    Limits { max_width: 600, max_height: 400 }
}

#[test]
fn scenario_layout_reports_the_child_size() {
    let w = wrapped();
    let layout = w.layout(&limits());

    assert_eq!(layout.size, Size { width: 200, height: 30 });
    assert_eq!(layout.children.len(), 1);
    assert_eq!(layout.children[0].size, Size { width: 200, height: 30 });
}

#[test]
fn reported_width_and_height_are_the_childs() {
    let w = wrapped();
    assert_eq!(w.width(), 200);
    assert_eq!(w.height(), 30);
}

#[test]
fn tight_limits_clip_the_layout_like_the_bare_child() {
    let tight = Limits { max_width: 120, max_height: 20 };
    let w = wrapped();
    let through = w.layout(&tight);
    let direct = field().layout(&tight);

    assert_eq!(through.size, direct.size);
    assert_eq!(through.size, Size { width: 120, height: 20 });
    assert_eq!(through.children[0].size, direct.size);
}

#[test]
fn statuses_pass_through_over_a_whole_event_sequence() {
    let w = wrapped();
    let bare = field();
    let mut state = StateNode::new(&w);
    let mut bare_state = StateNode::new(&bare);
    let layout = w.layout(&limits());
    let bare_layout = bare.layout(&limits());
    let mut shell: Shell<Note> = Shell::new();
    let mut bare_shell: Shell<Note> = Shell::new();

    let dispatches = vec![
        (Event::PointerPressed, Cursor { x: 10, y: 10 }),
        (Event::CharacterTyped('h'), Cursor { x: 10, y: 10 }),
        (Event::PointerPressed, Cursor { x: 500, y: 300 }),
        (Event::CharacterTyped('i'), Cursor { x: 500, y: 300 }),
        (Event::Other, Cursor { x: 0, y: 0 }),
        (Event::PointerPressed, Cursor { x: 199, y: 29 }),
    ];
    for (event, cursor) in dispatches {
        let through = w.on_event(&mut state, &event, &cursor, &layout, &mut shell);
        let direct = bare.on_event(&mut bare_state, &event, &cursor, &bare_layout, &mut bare_shell);
        assert_eq!(through, direct);
    }
}

#[test]
fn draw_through_the_decorator_equals_the_bare_childs() {
    let w = wrapped();
    let bare = field();
    let mut state = StateNode::new(&w);
    let mut bare_state = StateNode::new(&bare);
    let layout = w.layout(&limits());
    let bare_layout = bare.layout(&limits());
    let mut shell: Shell<Note> = Shell::new();
    let mut bare_shell: Shell<Note> = Shell::new();

    assert_eq!(w.draw(&state, &layout), bare.draw(&bare_state, &bare_layout));

    // also after the child gains focus: the drawing reflects the state
    let press = Event::PointerPressed;
    let cursor = Cursor { x: 5, y: 5 };
    w.on_event(&mut state, &press, &cursor, &layout, &mut shell);
    bare.on_event(&mut bare_state, &press, &cursor, &bare_layout, &mut bare_shell);

    let through = w.draw(&state, &layout);
    assert_eq!(through, bare.draw(&bare_state, &bare_layout));
    assert_eq!(through, vec![Primitive::TextInput {
        size: Size { width: 200, height: 30 },
        focused: true,
    }]);
}

#[test]
fn mouse_interaction_passes_through() {
    let w = wrapped();
    let bare = field();
    let state = StateNode::new(&w);
    let bare_state = StateNode::new(&bare);
    let layout = w.layout(&limits());
    let bare_layout = bare.layout(&limits());

    let hover = Cursor { x: 10, y: 10 };
    let away = Cursor { x: 300, y: 10 };
    assert_eq!(
        w.mouse_interaction(&state, &layout, &hover),
        bare.mouse_interaction(&bare_state, &bare_layout, &hover),
    );
    assert_eq!(w.mouse_interaction(&state, &layout, &hover), Interaction::Text);
    assert_eq!(w.mouse_interaction(&state, &layout, &away), Interaction::Idle);
}

#[test]
fn state_protocol_allocates_the_decorator_slot() {
    let w = wrapped();
    assert_eq!(w.tag(), StateTag::Wrapper);
    assert!(matches!(w.state(), StateValue::Wrapper(_)));
    let slots = w.children();
    assert_eq!(slots.len(), 1);
    assert_eq!(slots[0].value, StateValue::TextInput(TextInputState { focused: false }));

    let bare = field();
    assert_eq!(bare.tag(), StateTag::TextInput);
    assert_eq!(bare.children().len(), 0);
}

#[test]
fn conversion_into_the_tree_node_type_wraps() {
    let deco = my_text_input_wrapper(
        field(),
        FocusMapping { when_focused: Note::Focus(true), when_blurred: Note::Focus(false) },
    );
    let element: Element<Note> = Element::from(deco);
    assert!(matches!(element, Element::Wrapper(_)));

    // the focus operation reaches the field inside a nested decorator too
    let nested: Element<Note> = Element::from(my_text_input_wrapper(
        Element::TextInput(TextInput { width: 50, height: 10, id: Some(3) }),
        FocusMapping { when_focused: Note::Focus(true), when_blurred: Note::Focus(false) },
    ));
    let mut state = StateNode::new(&nested);
    let layout = nested.layout(&limits());
    nested.operate(&mut state, &layout, &Operation::Focus(3));
    assert_eq!(state.children[0].value, StateValue::TextInput(TextInputState { focused: true }));
}
