use vstd::prelude::*;

use crate::geometry::{LayoutTree, Limits};
use crate::protocol::{Cursor, Event, EventStatus};
use crate::state::{MyState, StateNode, StateTree, StateValue};
use crate::widget::Element;

verus! {

impl<M> Element<M> {
    /// Dispatch a whole sequence of (event, cursor) pairs, one at a time and
    /// in arrival order, against one layout: the final state, everything
    /// published, and the status of every dispatch, in order.
    pub open spec fn spec_run_events(
        self,
        t: StateTree,
        dispatches: Seq<(Event, Cursor)>,
        layout: LayoutTree,
    ) -> (StateTree, Seq<M>, Seq<EventStatus>)
        decreases dispatches.len(),
    {
        if dispatches.len() == 0 {
            (t, Seq::empty(), Seq::empty())
        } else {
            let first = self.spec_on_event(t, dispatches[0].0, dispatches[0].1, layout);
            let rest = self.spec_run_events(first.0, dispatches.drop_first(), layout);
            (rest.0, first.1 + rest.1, seq![first.2] + rest.2)
        }
    }
}

/// Initial condition: in a fresh state tree, before any event is dispatched,
/// the decorator's remembered boolean is `false`.
pub proof fn lemma_initially_unfocused<M>(w: Element<M>)
    requires
        w is Wrapper,
    ensures
        w.spec_default_tree().value == StateValue::Wrapper(MyState { focused: false }),
{
}

/// The view of a well-formed state node is a well-formed state tree: the
/// bridge that lets every law here be applied to state trees built and
/// evolved by the executable protocol functions.
pub proof fn lemma_wf_state_view<M>(w: Element<M>, s: StateNode)
    requires
        w.wf_state(s),
    ensures
        w.wf_tree(w.state_view(s)),
    decreases w,
{
    match w {
        Element::Text(_) => {},
        Element::TextInput(_) => {},
        Element::Wrapper(wr) => {
            lemma_wf_state_view(wr.spec_content(), s.children@[0]);
        },
    }
}

/// Event handling preserves the shape of the state tree.
pub proof fn lemma_on_event_preserves_wf<M>(
    w: Element<M>,
    t: StateTree,
    event: Event,
    cursor: Cursor,
    layout: LayoutTree,
)
    requires
        w.wf_tree(t),
    ensures
        w.wf_tree(w.spec_on_event(t, event, cursor, layout).0),
    decreases w,
{
    match w {
        Element::Text(_) => {},
        Element::TextInput(_) => {},
        Element::Wrapper(wr) => {
            lemma_on_event_preserves_wf(
                wr.spec_content(),
                t.children[0],
                event,
                cursor,
                layout.children[0],
            );
        },
    }
}

/// Pass-through status: over any event sequence, the decorator hands back
/// exactly the statuses the wrapped child yields when driven directly, and
/// the child's state subtree evolves exactly as if driven directly.
pub proof fn lemma_status_pass_through<M>(
    w: Element<M>,
    t: StateTree,
    dispatches: Seq<(Event, Cursor)>,
    layout: LayoutTree,
)
    requires
        w is Wrapper,
    ensures
        ({
            let child = w->Wrapper_0.spec_content();
            let through = w.spec_run_events(t, dispatches, layout);
            let direct = child.spec_run_events(t.children[0], dispatches, layout.children[0]);
            through.2 == direct.2 && through.0.children[0] == direct.0
        }),
    decreases dispatches.len(),
{
    let child = w->Wrapper_0.spec_content();
    let through = w.spec_run_events(t, dispatches, layout);
    let direct = child.spec_run_events(t.children[0], dispatches, layout.children[0]);
    if dispatches.len() == 0 {
        assert(through.2 =~= direct.2);
    } else {
        let first = w.spec_on_event(t, dispatches[0].0, dispatches[0].1, layout);
        let inner = child.spec_on_event(
            t.children[0],
            dispatches[0].0,
            dispatches[0].1,
            layout.children[0],
        );
        assert(first.0.children[0] == inner.0);
        assert(first.2 == inner.2);
        lemma_status_pass_through(w, first.0, dispatches.drop_first(), layout);
        assert(through.2 =~= direct.2);
    }
}

/// Visual transparency: what the decorator draws is exactly what the bare
/// child draws from the child's own state at the child's own layout.
pub proof fn lemma_draw_transparent<M>(w: Element<M>, t: StateTree, layout: LayoutTree)
    requires
        w is Wrapper,
    ensures
        w.spec_draw(t, layout) == w->Wrapper_0.spec_content().spec_draw(
            t.children[0],
            layout.children[0],
        ),
{
}

/// Constraining limits to a widget's own intrinsic size never changes its
/// layout: every widget already clamps itself to that size.
pub proof fn lemma_layout_self_constrain<M>(w: Element<M>, limits: Limits)
    ensures
        w.spec_layout(limits.spec_constrain(w.spec_width(), w.spec_height()))
            == w.spec_layout(limits),
{
    let constrained = limits.spec_constrain(w.spec_width(), w.spec_height());
    match w {
        Element::Text(_) => {
            assert(w.spec_layout(constrained) =~= w.spec_layout(limits));
        },
        Element::TextInput(_) => {
            assert(w.spec_layout(constrained) =~= w.spec_layout(limits));
        },
        Element::Wrapper(wr) => {
            let child = wr.spec_content();
            assert(constrained.spec_constrain(child.spec_width(), child.spec_height())
                == limits.spec_constrain(child.spec_width(), child.spec_height()));
            assert(w.spec_layout(constrained) =~= w.spec_layout(limits));
        },
    }
}

/// Sizing transparency: the decorator reports the child's intrinsic width
/// and height, and for every constraint input its layout carries the child's
/// size, with the child's own layout under the same constraints as its
/// single child entry.
pub proof fn lemma_sizing_transparent<M>(w: Element<M>, limits: Limits)
    requires
        w is Wrapper,
    ensures
        ({
            let child = w->Wrapper_0.spec_content();
            &&& w.spec_width() == child.spec_width()
            &&& w.spec_height() == child.spec_height()
            &&& w.spec_layout(limits).size == child.spec_layout(limits).size
            &&& w.spec_layout(limits).children == seq![child.spec_layout(limits)]
        }),
{
    let child = w->Wrapper_0.spec_content();
    lemma_layout_self_constrain(child, limits);
    assert(w.spec_layout(limits).children =~= seq![child.spec_layout(limits)]);
}

/// After any dispatch, the remembered boolean agrees with the child's focus
/// capability whenever the child exposes one: one event suffices to put the
/// decorator in sync, whatever it remembered before.
pub proof fn lemma_remembered_tracks_child<M>(
    w: Element<M>,
    t: StateTree,
    event: Event,
    cursor: Cursor,
    layout: LayoutTree,
)
    requires
        w is Wrapper,
        w.wf_tree(t),
    ensures
        ({
            let r = w.spec_on_event(t, event, cursor, layout);
            r.0.children[0].value.spec_focus_flag() matches Some(b)
                ==> r.0.value == StateValue::Wrapper(MyState { focused: b })
        }),
{
}

/// Edge-trigger law: with the remembered boolean in sync with the child's
/// focus boolean before the event, the decorator publishes the mapping's
/// value for `true` iff the child's focus boolean flips from `false` to
/// `true` across the event, the value for `false` iff it flips the other
/// way, and nothing iff it is unchanged. The notification, when there is
/// one, is appended exactly once, after anything the child itself published,
/// and the child's status comes back unchanged.
pub proof fn lemma_edge_trigger<M>(
    w: Element<M>,
    t: StateTree,
    event: Event,
    cursor: Cursor,
    layout: LayoutTree,
    pre: bool,
)
    requires
        w is Wrapper,
        w.wf_tree(t),
        t.children[0].value.spec_focus_flag() == Some(pre),
        t.value == StateValue::Wrapper(MyState { focused: pre }),
    ensures
        ({
            let child = w->Wrapper_0.spec_content();
            let mapping = w->Wrapper_0.on_focus_changed;
            let inner = child.spec_on_event(t.children[0], event, cursor, layout.children[0]);
            let post = inner.0.value.spec_focus_flag();
            let r = w.spec_on_event(t, event, cursor, layout);
            &&& post is Some
            &&& r.1 == (if post == Some(pre) {
                inner.1
            } else {
                inner.1.push(mapping.spec_map(!pre))
            })
            &&& r.2 == inner.2
            &&& r.0.children[0] == inner.0
        }),
{
    let child = w->Wrapper_0.spec_content();
    assert(child.wf_tree(t.children[0]));
    match child {
        Element::Text(_) => {
            assert(t.children[0].value is Empty);
            assert(false);
        },
        Element::TextInput(_) => {},
        Element::Wrapper(_) => {
            assert(t.children[0].value is Wrapper);
            assert(false);
        },
    }
}

/// A dispatch that leaves the state tree untouched published nothing: every
/// notification in this library accompanies a state change.
pub proof fn lemma_quiescent<M>(
    w: Element<M>,
    t: StateTree,
    event: Event,
    cursor: Cursor,
    layout: LayoutTree,
)
    requires
        w.spec_on_event(t, event, cursor, layout).0 == t,
    ensures
        w.spec_on_event(t, event, cursor, layout).1 == Seq::<M>::empty(),
    decreases w,
{
    match w {
        Element::Text(_) => {},
        Element::TextInput(_) => {},
        Element::Wrapper(wr) => {
            let child = wr.spec_content();
            let inner = child.spec_on_event(t.children[0], event, cursor, layout.children[0]);
            let r = w.spec_on_event(t, event, cursor, layout);
            assert(t.children == seq![inner.0]);
            assert(inner.0 == t.children[0]);
            lemma_quiescent(child, t.children[0], event, cursor, layout.children[0]);
            match inner.0.value.spec_focus_flag() {
                Some(observed) => {
                    if observed != t.value->Wrapper_0.focused {
                        assert(r.0.value == StateValue::Wrapper(MyState { focused: observed }));
                        assert(false);
                    }
                },
                None => {},
            }
        },
    }
}

/// Idempotence, general form: replaying a dispatch that leaves the state
/// tree unchanged any number of times in a row changes nothing and never
/// publishes.
pub proof fn lemma_replay_idempotent<M>(
    w: Element<M>,
    t: StateTree,
    event: Event,
    cursor: Cursor,
    layout: LayoutTree,
    n: nat,
)
    requires
        w.spec_on_event(t, event, cursor, layout).0 == t,
    ensures
        ({
            let run = w.spec_run_events(t, Seq::new(n, |i: int| (event, cursor)), layout);
            run.0 == t && run.1 == Seq::<M>::empty()
        }),
    decreases n,
{
    let dispatches = Seq::new(n, |i: int| (event, cursor));
    if n == 0 {
    } else {
        lemma_quiescent(w, t, event, cursor, layout);
        lemma_replay_idempotent(w, t, event, cursor, layout, (n - 1) as nat);
        assert(dispatches.drop_first() =~= Seq::new((n - 1) as nat, |i: int| (event, cursor)));
        assert(w.spec_run_events(t, dispatches, layout).1 =~= Seq::<M>::empty());
    }
}

/// Idempotence at the decorator: with the remembered boolean in sync, a
/// dispatch that does not change the wrapped text field's focus boolean,
/// replayed any number of times in a row, publishes nothing each time. (In
/// this library a widget's state is exactly its focus booleans, so an event
/// that preserves the field's focus boolean preserves its whole state.)
pub proof fn lemma_steady_replay<M>(
    w: Element<M>,
    t: StateTree,
    event: Event,
    cursor: Cursor,
    layout: LayoutTree,
    n: nat,
)
    requires
        w is Wrapper,
        w->Wrapper_0.spec_content() is TextInput,
        w.wf_tree(t),
        t.value == StateValue::Wrapper(
            MyState { focused: t.children[0].value->TextInput_0.focused },
        ),
        ({
            let child = w->Wrapper_0.spec_content();
            let inner = child.spec_on_event(t.children[0], event, cursor, layout.children[0]);
            inner.0.value.spec_focus_flag() == t.children[0].value.spec_focus_flag()
        }),
    ensures
        ({
            let run = w.spec_run_events(t, Seq::new(n, |i: int| (event, cursor)), layout);
            run.0 == t && run.1 == Seq::<M>::empty()
        }),
{
    let child = w->Wrapper_0.spec_content();
    let inner = child.spec_on_event(t.children[0], event, cursor, layout.children[0]);
    assert(inner.0 =~= t.children[0]);
    let r = w.spec_on_event(t, event, cursor, layout);
    assert(r.0.children =~= t.children);
    assert(r.0 =~= t);
    lemma_replay_idempotent(w, t, event, cursor, layout, n);
}

} // verus!
