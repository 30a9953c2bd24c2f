use vstd::prelude::*;

verus! {

/// The decorator's own persisted state value: the child focus boolean
/// remembered from the previous event dispatch. It is mutated only inside
/// the decorator's event handling, never anywhere else.
#[derive(Clone, Copy, Debug, PartialEq, Eq, Structural)]
pub struct MyState {
    pub focused: bool,
}

impl Default for MyState {
    /// A fresh decorator state starts out unfocused.
    fn default() -> (r: Self)
        ensures
            r.focused == false,
    {
        MyState { focused: false }
    }
}

impl MyState {
    /// The focus-edge detector: compare a freshly observed focus boolean
    /// against the remembered one, remember the new value, and report
    /// `Some(observed)` exactly when the two differed (a transition), `None`
    /// when they were equal (steady state).
    pub fn observe(&mut self, observed: bool) -> (r: Option<bool>)
        ensures
            final(self).focused == observed,
            r == (if old(self).focused != observed {
                Some(observed)
            } else {
                None::<bool>
            }),
    {
        if self.focused != observed {
            self.focused = !self.focused;
            Some(observed)
        } else {
            None
        }
    }
}

/// The focus-bearing state of the text-entry leaf widget.
#[derive(Clone, Copy, Debug, PartialEq, Eq, Structural)]
pub struct TextInputState {
    pub focused: bool,
}

impl TextInputState {
    /// Whether the widget owning this state currently holds input focus.
    pub fn is_focused(&self) -> (r: bool)
        ensures
            r == self.focused,
    {
        self.focused
    }
}

/// A stable type tag: which kind of state value a widget allocates in its
/// slot of the state tree.
#[derive(Clone, Copy, Debug, PartialEq, Eq, Structural)]
pub enum StateTag {
    /// The widget keeps no state of its own.
    Empty,
    TextInput,
    Wrapper,
}

/// One widget's kind-tagged state value, persisted across frames in the
/// state tree.
#[derive(Clone, Copy, Debug, PartialEq, Eq, Structural)]
pub enum StateValue {
    /// For widgets that keep no state of their own.
    Empty,
    TextInput(TextInputState),
    Wrapper(MyState),
}

impl StateValue {
    /// The tag of this value's kind.
    pub open spec fn spec_tag(self) -> StateTag {
        match self {
            StateValue::Empty => StateTag::Empty,
            StateValue::TextInput(_) => StateTag::TextInput,
            StateValue::Wrapper(_) => StateTag::Wrapper,
        }
    }

    /// The focus capability query: `Some(flag)` for state kinds that can say
    /// whether their widget holds input focus, `None` for the rest. The
    /// decorator degrades to a pure pass-through when it observes `None`.
    pub open spec fn spec_focus_flag(self) -> Option<bool> {
        match self {
            StateValue::TextInput(s) => Some(s.focused),
            _ => None,
        }
    }

    pub fn focus_flag(&self) -> (r: Option<bool>)
        ensures
            r == self.spec_focus_flag(),
    {
        match self {
            StateValue::TextInput(s) => Some(s.focused),
            _ => None,
        }
    }

    /// Read this value as the decorator's own state kind.
    pub fn wrapper_state(&self) -> (r: MyState)
        requires
            self is Wrapper,
        ensures
            *self == StateValue::Wrapper(r),
    {
        match self {
            StateValue::Wrapper(m) => *m,
            _ => MyState { focused: false },
        }
    }
}

/// A node of the persisted state tree, mirroring the widget tree's shape:
/// one kind-tagged state value plus one child node per structural child
/// widget, in child order.
pub struct StateNode {
    pub value: StateValue,
    pub children: Vec<StateNode>,
}

/// The mathematical shape of a state (sub)tree; contracts speak of state
/// through this type.
#[verifier::ext_equal]
pub struct StateTree {
    pub value: StateValue,
    pub children: Seq<StateTree>,
}

} // verus!
