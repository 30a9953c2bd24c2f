use my_widget::geometry::Limits;
use my_widget::protocol::{Cursor, Event, EventStatus, Operation, Shell};
use my_widget::state::{MyState, StateNode, StateValue, TextInputState};
use my_widget::widget::{my_text_input_wrapper, Element, FocusMapping, Text, TextInput};

#[derive(Clone, Copy, Debug, PartialEq, Eq)]
enum Msg {
    FocusChanged(bool),
}

fn field() -> Element<Msg> {
    Element::TextInput(TextInput { width: 200, height: 30, id: Some(7) })
}

fn mapping() -> FocusMapping<Msg> {
    FocusMapping { when_focused: Msg::FocusChanged(true), when_blurred: Msg::FocusChanged(false) }
}

fn wrapped() -> Element<Msg> {
    Element::from(my_text_input_wrapper(field(), mapping()))
}

fn limits() -> Limits {
    Limits { max_width: 600, max_height: 400 }
}

fn inside() -> Cursor {
    Cursor { x: 10, y: 10 }
}

fn outside() -> Cursor {
    Cursor { x: 300, y: 200 }
}

#[test]
fn initial_state_is_unfocused() {
    let w = wrapped();
    let state = StateNode::new(&w);
    assert_eq!(state.value, StateValue::Wrapper(MyState { focused: false }));
    assert_eq!(state.children.len(), 1);
    assert_eq!(state.children[0].value, StateValue::TextInput(TextInputState { focused: false }));
    assert_eq!(MyState::default(), MyState { focused: false });
}

#[test]
fn scenario_press_inside_focuses_and_notifies() {
    let w = wrapped();
    let mut state = StateNode::new(&w);
    let layout = w.layout(&limits());
    let mut shell: Shell<Msg> = Shell::new();

    let status = w.on_event(&mut state, &Event::PointerPressed, &inside(), &layout, &mut shell);

    assert_eq!(status, EventStatus::Captured);
    assert_eq!(shell.messages, vec![Msg::FocusChanged(true)]);
    assert_eq!(state.value, StateValue::Wrapper(MyState { focused: true }));
    assert_eq!(state.children[0].value, StateValue::TextInput(TextInputState { focused: true }));
    match state.children[0].value {
        StateValue::TextInput(s) => assert!(s.is_focused()),
        _ => panic!("the field's state slot must keep the text input kind"),
    }
}

#[test]
fn scenario_press_outside_blurs_and_notifies() {
    let w = wrapped();
    let mut state = StateNode::new(&w);
    let layout = w.layout(&limits());
    let mut shell: Shell<Msg> = Shell::new();

    w.on_event(&mut state, &Event::PointerPressed, &inside(), &layout, &mut shell);
    let status = w.on_event(&mut state, &Event::PointerPressed, &outside(), &layout, &mut shell);

    assert_eq!(status, EventStatus::Ignored);
    assert_eq!(shell.messages, vec![Msg::FocusChanged(true), Msg::FocusChanged(false)]);
    assert_eq!(state.value, StateValue::Wrapper(MyState { focused: false }));
    assert_eq!(state.children[0].value, StateValue::TextInput(TextInputState { focused: false }));
}

#[test]
fn scenario_typing_keeps_focus_and_stays_silent() {
    let w = wrapped();
    let mut state = StateNode::new(&w);
    let layout = w.layout(&limits());
    let mut shell: Shell<Msg> = Shell::new();

    w.on_event(&mut state, &Event::PointerPressed, &inside(), &layout, &mut shell);
    let status = w.on_event(&mut state, &Event::CharacterTyped('x'), &inside(), &layout, &mut shell);

    assert_eq!(status, EventStatus::Captured);
    assert_eq!(shell.messages, vec![Msg::FocusChanged(true)]);
    assert_eq!(state.value, StateValue::Wrapper(MyState { focused: true }));
}

#[test]
fn replaying_a_steady_event_never_renotifies() {
    let w = wrapped();
    let mut state = StateNode::new(&w);
    let layout = w.layout(&limits());
    let mut shell: Shell<Msg> = Shell::new();

    for _ in 0..5 {
        w.on_event(&mut state, &Event::PointerPressed, &inside(), &layout, &mut shell);
    }

    assert_eq!(shell.messages, vec![Msg::FocusChanged(true)]);
}

#[test]
fn typing_while_unfocused_is_ignored_and_silent() {
    let w = wrapped();
    let mut state = StateNode::new(&w);
    let layout = w.layout(&limits());
    let mut shell: Shell<Msg> = Shell::new();

    let status = w.on_event(&mut state, &Event::CharacterTyped('x'), &inside(), &layout, &mut shell);

    assert_eq!(status, EventStatus::Ignored);
    assert_eq!(shell.messages, Vec::<Msg>::new());
}

#[test]
fn other_events_are_ignored_and_silent() {
    let w = wrapped();
    let mut state = StateNode::new(&w);
    let layout = w.layout(&limits());
    let mut shell: Shell<Msg> = Shell::new();

    let status = w.on_event(&mut state, &Event::Other, &inside(), &layout, &mut shell);

    assert_eq!(status, EventStatus::Ignored);
    assert_eq!(shell.messages, Vec::<Msg>::new());
}

#[test]
fn focus_operation_passes_through_the_decorator() {
    let w = wrapped();
    let mut state = StateNode::new(&w);
    let layout = w.layout(&limits());

    w.operate(&mut state, &layout, &Operation::Focus(7));

    assert_eq!(state.children[0].value, StateValue::TextInput(TextInputState { focused: true }));
    // the decorator's own slot is untouched by operations
    assert_eq!(state.value, StateValue::Wrapper(MyState { focused: false }));
}

#[test]
fn focus_operation_with_another_id_leaves_the_field_blurred() {
    let w = wrapped();
    let mut state = StateNode::new(&w);
    let layout = w.layout(&limits());

    w.operate(&mut state, &layout, &Operation::Focus(9));

    assert_eq!(state.children[0].value, StateValue::TextInput(TextInputState { focused: false }));
}

#[test]
fn focus_gained_through_an_operation_is_noticed_on_the_next_event() {
    // the change test is a pure inequality between remembered and observed:
    // a focus grabbed by a tree operation is reported on the next dispatch,
    // even though that dispatch itself changed nothing
    let w = wrapped();
    let mut state = StateNode::new(&w);
    let layout = w.layout(&limits());
    let mut shell: Shell<Msg> = Shell::new();

    w.operate(&mut state, &layout, &Operation::Focus(7));
    let status = w.on_event(&mut state, &Event::CharacterTyped('x'), &inside(), &layout, &mut shell);

    assert_eq!(status, EventStatus::Captured);
    assert_eq!(shell.messages, vec![Msg::FocusChanged(true)]);
    assert_eq!(state.value, StateValue::Wrapper(MyState { focused: true }));
}

#[test]
fn a_child_without_the_focus_capability_never_notifies() {
    let w: Element<Msg> = Element::from(my_text_input_wrapper(
        Element::Text(Text { width: 120, height: 20 }),
        mapping(),
    ));
    let mut state = StateNode::new(&w);
    let layout = w.layout(&limits());
    let mut shell: Shell<Msg> = Shell::new();

    let status = w.on_event(&mut state, &Event::PointerPressed, &inside(), &layout, &mut shell);

    assert_eq!(status, EventStatus::Ignored);
    assert_eq!(shell.messages, Vec::<Msg>::new());
    assert_eq!(state.value, StateValue::Wrapper(MyState { focused: false }));
}

#[test]
fn observe_reports_exactly_the_flips() {
    let mut s = MyState::default();
    assert_eq!(s.observe(false), None);
    assert_eq!(s.observe(true), Some(true));
    assert_eq!(s.focused, true);
    assert_eq!(s.observe(true), None);
    assert_eq!(s.observe(false), Some(false));
    assert_eq!(s.focused, false);
}
