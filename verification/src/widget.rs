use vstd::prelude::*;

use crate::geometry::{spec_min, LayoutNode, LayoutTree, Limits, Size};
use crate::protocol::{
    cursor_inside, spec_cursor_inside, Cursor, Event, EventStatus, Interaction, Operation,
    Primitive, Shell,
};
use crate::state::{MyState, StateNode, StateTag, StateTree, StateValue, TextInputState};

verus! {

/// The plain text leaf widget. It keeps no state and never takes focus.
#[derive(Clone, Copy, Debug, PartialEq, Eq, Structural)]
pub struct Text {
    pub width: u64,
    pub height: u64,
}

/// The focus-aware text-entry leaf widget: the widget kind whose state
/// exposes the focus capability the decorator relies on. A press inside its
/// bounds focuses it, a press outside blurs it, and it consumes typed
/// characters while focused. It may carry an identifier so that a tree-wide
/// focus operation can single it out.
#[derive(Clone, Copy, Debug, PartialEq, Eq, Structural)]
pub struct TextInput {
    pub width: u64,
    pub height: u64,
    pub id: Option<u64>,
}

/// The mapping from an observed focus boolean to the application message the
/// decorator publishes. A pure total function out of a two-element domain,
/// given by its two values.
#[derive(Clone, Copy, Debug, PartialEq, Eq, Structural)]
pub struct FocusMapping<M> {
    pub when_focused: M,
    pub when_blurred: M,
}

impl<M> FocusMapping<M> {
    /// The message this mapping yields for an observed focus boolean.
    pub open spec fn spec_map(self, focused: bool) -> M {
        if focused {
            self.when_focused
        } else {
            self.when_blurred
        }
    }
}

impl<M: Copy> FocusMapping<M> {
    pub fn map(&self, focused: bool) -> (r: M)
        ensures
            r == self.spec_map(focused),
    {
        if focused {
            self.when_focused
        } else {
            self.when_blurred
        }
    }
}

/// The decorator: one wrapped child widget plus the notification mapping
/// captured at construction time.
pub struct MyTextInputWrapper<M> {
    pub content: Box<Element<M>>,
    pub on_focus_changed: FocusMapping<M>,
}

impl<M> MyTextInputWrapper<M> {
    /// The wrapped child widget.
    pub open spec fn spec_content(self) -> Element<M> {
        *self.content
    }
}

/// A widget-tree node: the closed set of widget kinds this library composes.
pub enum Element<M> {
    Text(Text),
    TextInput(TextInput),
    Wrapper(MyTextInputWrapper<M>),
}

/// Wrap a child widget. The decorator forwards the whole widget protocol to
/// `content` unchanged and publishes `on_focus_changed`'s value for the new
/// boolean on every observed flip of the child's focus state.
pub fn my_text_input_wrapper<M>(
    content: Element<M>,
    on_focus_changed: FocusMapping<M>,
) -> (r: MyTextInputWrapper<M>)
    ensures
        r.spec_content() == content,
        r.on_focus_changed == on_focus_changed,
{
    MyTextInputWrapper { content: Box::new(content), on_focus_changed }
}

impl<M> From<MyTextInputWrapper<M>> for Element<M> {
    /// A decorator composes anywhere a widget is accepted.
    fn from(value: MyTextInputWrapper<M>) -> (r: Element<M>) {
        Element::Wrapper(value)
    }
}

impl<M> vstd::std_specs::convert::FromSpecImpl<MyTextInputWrapper<M>> for Element<M> {
    open spec fn obeys_from_spec() -> bool {
        true
    }

    open spec fn from_spec(value: MyTextInputWrapper<M>) -> Self {
        Element::Wrapper(value)
    }
}

impl<M> Element<M> {
    /// The widget's intrinsic width: a decorator never imposes its own size.
    pub open spec fn spec_width(self) -> u64
        decreases self,
    {
        match self {
            Element::Text(t) => t.width,
            Element::TextInput(t) => t.width,
            Element::Wrapper(w) => w.spec_content().spec_width(),
        }
    }

    /// The widget's intrinsic height: a decorator never imposes its own size.
    pub open spec fn spec_height(self) -> u64
        decreases self,
    {
        match self {
            Element::Text(t) => t.height,
            Element::TextInput(t) => t.height,
            Element::Wrapper(w) => w.spec_content().spec_height(),
        }
    }

    /// The tag of the state kind this widget allocates for its slot.
    pub open spec fn spec_tag(self) -> StateTag {
        match self {
            Element::Text(_) => StateTag::Empty,
            Element::TextInput(_) => StateTag::TextInput,
            Element::Wrapper(_) => StateTag::Wrapper,
        }
    }

    /// The default-initialized state value allocated the first time this
    /// widget's position in the tree is visited.
    pub open spec fn spec_default_state(self) -> StateValue {
        match self {
            Element::Text(_) => StateValue::Empty,
            Element::TextInput(_) => StateValue::TextInput(TextInputState { focused: false }),
            Element::Wrapper(_) => StateValue::Wrapper(MyState { focused: false }),
        }
    }

    /// The fresh state tree for this widget: default values everywhere, one
    /// child slot per structural child.
    pub open spec fn spec_default_tree(self) -> StateTree
        decreases self,
    {
        match self {
            Element::Wrapper(w) => StateTree {
                value: self.spec_default_state(),
                children: seq![w.spec_content().spec_default_tree()],
            },
            _ => StateTree { value: self.spec_default_state(), children: Seq::empty() },
        }
    }

    /// Whether a state node mirrors this widget's shape: the right state
    /// kind at every position and exactly one child slot per child widget.
    pub open spec fn wf_state(self, s: StateNode) -> bool
        decreases self,
    {
        match self {
            Element::Text(_) => s.value is Empty && s.children@.len() == 0,
            Element::TextInput(_) => s.value is TextInput && s.children@.len() == 0,
            Element::Wrapper(w) => s.value is Wrapper && s.children@.len() == 1
                && w.spec_content().wf_state(s.children@[0]),
        }
    }

    /// The same shape condition over the mathematical state tree.
    pub open spec fn wf_tree(self, t: StateTree) -> bool
        decreases self,
    {
        match self {
            Element::Text(_) => t.value is Empty && t.children.len() == 0,
            Element::TextInput(_) => t.value is TextInput && t.children.len() == 0,
            Element::Wrapper(w) => t.value is Wrapper && t.children.len() == 1
                && w.spec_content().wf_tree(t.children[0]),
        }
    }

    /// The mathematical tree a state node stands for, read along this
    /// widget's shape.
    pub open spec fn state_view(self, s: StateNode) -> StateTree
        decreases self,
    {
        match self {
            Element::Wrapper(w) => StateTree {
                value: s.value,
                children: seq![w.spec_content().state_view(s.children@[0])],
            },
            _ => StateTree { value: s.value, children: Seq::empty() },
        }
    }

    /// Whether a layout node mirrors this widget's shape.
    pub open spec fn wf_layout(self, l: LayoutNode) -> bool
        decreases self,
    {
        match self {
            Element::Wrapper(w) => l.children@.len() == 1
                && w.spec_content().wf_layout(l.children@[0]),
            _ => l.children@.len() == 0,
        }
    }

    /// The same shape condition over the mathematical layout tree.
    pub open spec fn wf_layout_tree(self, l: LayoutTree) -> bool
        decreases self,
    {
        match self {
            Element::Wrapper(w) => l.children.len() == 1
                && w.spec_content().wf_layout_tree(l.children[0]),
            _ => l.children.len() == 0,
        }
    }

    /// The mathematical tree a layout node stands for, read along this
    /// widget's shape.
    pub open spec fn layout_view(self, l: LayoutNode) -> LayoutTree
        decreases self,
    {
        match self {
            Element::Wrapper(w) => LayoutTree {
                size: l.size,
                children: seq![w.spec_content().layout_view(l.children@[0])],
            },
            _ => LayoutTree { size: l.size, children: Seq::empty() },
        }
    }

    /// The layout this widget produces under the given constraints. A leaf
    /// resolves its intrinsic size against the limits; the decorator first
    /// constrains the limits to its own (that is, its child's) intrinsic
    /// size, lays the child out, and reports the child's size with the
    /// child's layout as its single entry.
    pub open spec fn spec_layout(self, limits: Limits) -> LayoutTree
        decreases self,
    {
        match self {
            Element::Text(t) => LayoutTree {
                size: limits.spec_resolve(t.width, t.height),
                children: Seq::empty(),
            },
            Element::TextInput(t) => LayoutTree {
                size: limits.spec_resolve(t.width, t.height),
                children: Seq::empty(),
            },
            Element::Wrapper(w) => {
                let constrained = limits.spec_constrain(
                    w.spec_content().spec_width(),
                    w.spec_content().spec_height(),
                );
                let content_layout = w.spec_content().spec_layout(constrained);
                LayoutTree { size: content_layout.size, children: seq![content_layout] }
            },
        }
    }
    /// What one event dispatch does, bottom-up: the new state subtree, the
    /// messages published (in order), and the status handed back. The
    /// decorator first lets the child handle the event on the child's own
    /// state and layout region, then queries the child's post-event focus
    /// capability: on `Some(observed)` with `observed` different from the
    /// remembered boolean it remembers `observed` and appends exactly one
    /// notification; otherwise it changes nothing. The child's status is
    /// returned unchanged either way.
    pub open spec fn spec_on_event(
        self,
        t: StateTree,
        event: Event,
        cursor: Cursor,
        layout: LayoutTree,
    ) -> (StateTree, Seq<M>, EventStatus)
        decreases self,
    {
        match self {
            Element::Text(_) => (t, Seq::empty(), EventStatus::Ignored),
            Element::TextInput(_) => {
                let r = TextInput::spec_state_after(t, event, cursor, layout);
                (r.0, Seq::empty(), r.1)
            },
            Element::Wrapper(w) => {
                let inner = w.spec_content().spec_on_event(
                    t.children[0],
                    event,
                    cursor,
                    layout.children[0],
                );
                let child_after = inner.0;
                let remembered = t.value->Wrapper_0.focused;
                match child_after.value.spec_focus_flag() {
                    Some(observed) => if observed != remembered {
                        (
                            StateTree {
                                value: StateValue::Wrapper(MyState { focused: observed }),
                                children: seq![child_after],
                            },
                            inner.1.push(w.on_focus_changed.spec_map(observed)),
                            inner.2,
                        )
                    } else {
                        (
                            StateTree { value: t.value, children: seq![child_after] },
                            inner.1,
                            inner.2,
                        )
                    },
                    None => (
                        StateTree { value: t.value, children: seq![child_after] },
                        inner.1,
                        inner.2,
                    ),
                }
            },
        }
    }

    /// What a tree operation does to the state: the decorator is a
    /// transparent, unlabeled grouping and forwards it to its single child.
    pub open spec fn spec_operate(self, t: StateTree, operation: Operation) -> StateTree
        decreases self,
    {
        match self {
            Element::Text(_) => t,
            Element::TextInput(ti) => match operation {
                Operation::Focus(id) => StateTree {
                    value: StateValue::TextInput(TextInputState { focused: ti.id == Some(id) }),
                    children: t.children,
                },
            },
            Element::Wrapper(w) => StateTree {
                value: t.value,
                children: seq![w.spec_content().spec_operate(t.children[0], operation)],
            },
        }
    }

    /// The primitives a draw pass produces: the decorator draws nothing of
    /// its own and forwards to the child at the child's layout region.
    pub open spec fn spec_draw(self, t: StateTree, layout: LayoutTree) -> Seq<Primitive>
        decreases self,
    {
        match self {
            Element::Text(_) => seq![Primitive::Text { size: layout.size }],
            Element::TextInput(_) => seq![
                Primitive::TextInput {
                    size: layout.size,
                    focused: t.value->TextInput_0.focused,
                },
            ],
            Element::Wrapper(w) => w.spec_content().spec_draw(t.children[0], layout.children[0]),
        }
    }

    /// The interaction hint under the given cursor: the decorator
    /// contributes none of its own.
    pub open spec fn spec_mouse_interaction(self, layout: LayoutTree, cursor: Cursor) -> Interaction
        decreases self,
    {
        match self {
            Element::Text(_) => Interaction::Idle,
            Element::TextInput(_) => if spec_cursor_inside(cursor, layout.size) {
                Interaction::Text
            } else {
                Interaction::Idle
            },
            Element::Wrapper(w) => w.spec_content().spec_mouse_interaction(
                layout.children[0],
                cursor,
            ),
        }
    }
}

impl TextInput {
    /// How the text-entry field reacts to one event: a press inside its
    /// bounds grabs focus, a press outside releases it, a typed character is
    /// consumed exactly while focused, and anything else is ignored.
    pub open spec fn spec_state_after(
        t: StateTree,
        event: Event,
        cursor: Cursor,
        layout: LayoutTree,
    ) -> (StateTree, EventStatus) {
        match event {
            Event::PointerPressed => if spec_cursor_inside(cursor, layout.size) {
                (
                    StateTree {
                        value: StateValue::TextInput(TextInputState { focused: true }),
                        children: t.children,
                    },
                    EventStatus::Captured,
                )
            } else {
                (
                    StateTree {
                        value: StateValue::TextInput(TextInputState { focused: false }),
                        children: t.children,
                    },
                    EventStatus::Ignored,
                )
            },
            Event::CharacterTyped(_) => (
                t,
                if t.value matches StateValue::TextInput(s) && s.focused {
                    EventStatus::Captured
                } else {
                    EventStatus::Ignored
                },
            ),
            Event::Other => (t, EventStatus::Ignored),
        }
    }
}

/// The state a view of any widget leaves in place: its value component is
/// the node's own value.
pub proof fn lemma_state_view_value<M>(w: Element<M>, s: StateNode)
    ensures
        w.state_view(s).value == s.value,
{
    match w {
        Element::Text(_) => {},
        Element::TextInput(_) => {},
        Element::Wrapper(_) => {},
    }
}

/// The size component of a layout view is the node's own size.
pub proof fn lemma_layout_view_size<M>(w: Element<M>, l: LayoutNode)
    ensures
        w.layout_view(l).size == l.size,
{
    match w {
        Element::Text(_) => {},
        Element::TextInput(_) => {},
        Element::Wrapper(_) => {},
    }
}

impl<M: Copy> Element<M> {
    /// Report the intrinsic width; the decorator delegates verbatim.
    pub fn width(&self) -> (r: u64)
        ensures
            r == self.spec_width(),
        decreases self,
    {
        match self {
            Element::Text(t) => t.width,
            Element::TextInput(t) => t.width,
            Element::Wrapper(w) => w.content.width(),
        }
    }

    /// Report the intrinsic height; the decorator delegates verbatim.
    pub fn height(&self) -> (r: u64)
        ensures
            r == self.spec_height(),
        decreases self,
    {
        match self {
            Element::Text(t) => t.height,
            Element::TextInput(t) => t.height,
            Element::Wrapper(w) => w.content.height(),
        }
    }

    /// The stable type tag the state tree uses to know which default value
    /// to allocate for this node.
    pub fn tag(&self) -> (r: StateTag)
        ensures
            r == self.spec_tag(),
    {
        match self {
            Element::Text(_) => StateTag::Empty,
            Element::TextInput(_) => StateTag::TextInput,
            Element::Wrapper(_) => StateTag::Wrapper,
        }
    }

    /// A fresh, default-initialized state value for this widget alone.
    pub fn state(&self) -> (r: StateValue)
        ensures
            r == self.spec_default_state(),
            r.spec_tag() == self.spec_tag(),
    {
        match self {
            Element::Text(_) => StateValue::Empty,
            Element::TextInput(_) => StateValue::TextInput(TextInputState { focused: false }),
            Element::Wrapper(_) => StateValue::Wrapper(MyState { focused: false }),
        }
    }

    /// Fresh state nodes for this widget's structural children: the
    /// decorator always contributes exactly one child slot, holding a fully
    /// initialized subtree for the wrapped child.
    pub fn children(&self) -> (r: Vec<StateNode>)
        ensures
            r@.len() == (if self is Wrapper { 1int } else { 0int }),
            self matches Element::Wrapper(w) ==> w.spec_content().wf_state(r@[0])
                && w.spec_content().state_view(r@[0]) == w.spec_content().spec_default_tree(),
        decreases self, 0int,
    {
        match self {
            Element::Wrapper(w) => {
                let mut v: Vec<StateNode> = Vec::new();
                v.push(StateNode::new(&w.content));
                v
            },
            _ => Vec::new(),
        }
    }

    /// Produce this widget's layout under the given constraints.
    pub fn layout(&self, limits: &Limits) -> (r: LayoutNode)
        ensures
            self.wf_layout(r),
            self.layout_view(r) == self.spec_layout(*limits),
            r.size == self.spec_layout(*limits).size,
        decreases self,
    {
        match self {
            Element::Text(t) => LayoutNode { size: limits.resolve(t.width, t.height), children: Vec::new() },
            Element::TextInput(t) => LayoutNode { size: limits.resolve(t.width, t.height), children: Vec::new() },
            Element::Wrapper(w) => {
                let constrained = limits.constrain(w.content.width(), w.content.height());
                let content_layout = w.content.layout(&constrained);
                proof {
                    lemma_layout_view_size(w.spec_content(), content_layout);
                }
                let size = content_layout.size;
                let mut children: Vec<LayoutNode> = Vec::new();
                children.push(content_layout);
                let r = LayoutNode { size, children };
                proof {
                    assert(self.layout_view(r) =~= self.spec_layout(*limits));
                }
                r
            },
        }
    }

    /// Handle one input event: relay it to the child on the child's state
    /// slot and layout region, then compare the child's post-event focus
    /// capability against the remembered boolean and publish the mapped
    /// notification exactly on a flip. The child's status is returned
    /// unchanged.
    pub fn on_event(
        &self,
        state: &mut StateNode,
        event: &Event,
        cursor: &Cursor,
        layout: &LayoutNode,
        shell: &mut Shell<M>,
    ) -> (r: EventStatus)
        requires
            self.wf_state(*old(state)),
            self.wf_layout(*layout),
        ensures
            self.wf_state(*final(state)),
            ({
                let s = self.spec_on_event(
                    self.state_view(*old(state)),
                    *event,
                    *cursor,
                    self.layout_view(*layout),
                );
                &&& self.state_view(*final(state)) == s.0
                &&& final(shell).messages@ == old(shell).messages@ + s.1
                &&& r == s.2
            }),
        decreases self,
    {
        match self {
            Element::Text(_) => {
                proof {
                    assert(old(shell).messages@ + Seq::<M>::empty() =~= old(shell).messages@);
                }
                EventStatus::Ignored
            },
            Element::TextInput(_) => {
                proof {
                    assert(old(shell).messages@ + Seq::<M>::empty() =~= old(shell).messages@);
                }
                match event {
                    Event::PointerPressed => {
                        if cursor_inside(cursor, &layout.size) {
                            state.value = StateValue::TextInput(TextInputState { focused: true });
                            EventStatus::Captured
                        } else {
                            state.value = StateValue::TextInput(TextInputState { focused: false });
                            EventStatus::Ignored
                        }
                    },
                    Event::CharacterTyped(_) => {
                        let focused = match &state.value {
                            StateValue::TextInput(s) => s.focused,
                            _ => false,
                        };
                        if focused {
                            EventStatus::Captured
                        } else {
                            EventStatus::Ignored
                        }
                    },
                    Event::Other => EventStatus::Ignored,
                }
            },
            Element::Wrapper(w) => {
                let status = w.content.on_event(
                    &mut state.children[0],
                    event,
                    cursor,
                    &layout.children[0],
                    shell,
                );
                proof {
                    lemma_state_view_value(
                        w.spec_content(),
                        state.children@[0],
                    );
                }
                let observed = state.children[0].value.focus_flag();
                match observed {
                    Some(b) => {
                        let mut ms = state.value.wrapper_state();
                        if let Some(edge) = ms.observe(b) {
                            shell.publish(w.on_focus_changed.map(edge));
                        }
                        state.value = StateValue::Wrapper(ms);
                    },
                    None => {},
                }
                proof {
                    let s = self.spec_on_event(
                        self.state_view(*old(state)),
                        *event,
                        *cursor,
                        self.layout_view(*layout),
                    );
                    assert(self.state_view(*final(state)) =~= s.0);
                    assert(final(shell).messages@ =~= old(shell).messages@ + s.1);
                }
                status
            },
        }
    }

    /// Walk a generic tree operation through this widget: the decorator is a
    /// transparent grouping and hands it to the child on the child's state
    /// slot and layout region.
    pub fn operate(&self, state: &mut StateNode, layout: &LayoutNode, operation: &Operation)
        requires
            self.wf_state(*old(state)),
            self.wf_layout(*layout),
        ensures
            self.wf_state(*final(state)),
            self.state_view(*final(state)) == self.spec_operate(
                self.state_view(*old(state)),
                *operation,
            ),
        decreases self,
    {
        match self {
            Element::Text(_) => {},
            Element::TextInput(ti) => match operation {
                Operation::Focus(id) => {
                    let matches_id = match ti.id {
                        Some(own) => own == *id,
                        None => false,
                    };
                    state.value = StateValue::TextInput(TextInputState { focused: matches_id });
                },
            },
            Element::Wrapper(w) => {
                w.content.operate(&mut state.children[0], &layout.children[0], operation);
                proof {
                    assert(self.state_view(*final(state)) =~= self.spec_operate(
                        self.state_view(*old(state)),
                        *operation,
                    ));
                }
            },
        }
    }

    /// Render this widget: the decorator draws nothing of its own and
    /// forwards verbatim to the child at the child's state and layout.
    pub fn draw(&self, state: &StateNode, layout: &LayoutNode) -> (r: Vec<Primitive>)
        requires
            self.wf_state(*state),
            self.wf_layout(*layout),
        ensures
            r@ == self.spec_draw(self.state_view(*state), self.layout_view(*layout)),
        decreases self,
    {
        match self {
            Element::Text(_) => {
                let mut v: Vec<Primitive> = Vec::new();
                v.push(Primitive::Text { size: layout.size });
                proof {
                    assert(v@ =~= self.spec_draw(self.state_view(*state), self.layout_view(*layout)));
                }
                v
            },
            Element::TextInput(_) => {
                let focused = match &state.value {
                    StateValue::TextInput(s) => s.focused,
                    _ => false,
                };
                let mut v: Vec<Primitive> = Vec::new();
                v.push(Primitive::TextInput { size: layout.size, focused });
                proof {
                    assert(v@ =~= self.spec_draw(self.state_view(*state), self.layout_view(*layout)));
                }
                v
            },
            Element::Wrapper(w) => w.content.draw(&state.children[0], &layout.children[0]),
        }
    }

    /// Report the pointer interaction hint: the decorator contributes none
    /// of its own and forwards verbatim to the child.
    pub fn mouse_interaction(
        &self,
        state: &StateNode,
        layout: &LayoutNode,
        cursor: &Cursor,
    ) -> (r: Interaction)
        requires
            self.wf_state(*state),
            self.wf_layout(*layout),
        ensures
            r == self.spec_mouse_interaction(self.layout_view(*layout), *cursor),
        decreases self,
    {
        match self {
            Element::Text(_) => Interaction::Idle,
            Element::TextInput(_) => {
                if cursor_inside(cursor, &layout.size) {
                    Interaction::Text
                } else {
                    Interaction::Idle
                }
            },
            Element::Wrapper(w) => w.content.mouse_interaction(
                &state.children[0],
                &layout.children[0],
                cursor,
            ),
        }
    }
}

impl StateNode {
    /// A fully initialized fresh state tree for a widget: the node the state
    /// tree allocates the first time this widget's position is visited.
    pub fn new<M: Copy>(widget: &Element<M>) -> (r: StateNode)
        ensures
            widget.wf_state(r),
            widget.state_view(r) == widget.spec_default_tree(),
        decreases widget, 1int,
    {
        StateNode { value: widget.state(), children: widget.children() }
    }
}

} // verus!
