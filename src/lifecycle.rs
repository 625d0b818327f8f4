//! Facts about whole runs of the event loop, proved from its model.
use vstd::prelude::*;

use crate::event_loop::{actions, after, ends_loop, is_exit_key, next, Action, Input, Session, SurfaceError, WindowEvent};

verus! {

/// The loop asks for one action per input.
pub proof fn actions_len<F>(s: Session<F>, inputs: Seq<Input>)
    ensures
        actions(s, inputs).len() == inputs.len(),
    decreases inputs.len(),
{
    if inputs.len() > 0 {
        actions_len(next(s, inputs[0]).0, inputs.drop_first());
    }
}

/// Whenever the loop asks to exit or to abort, it has ended.
pub proof fn exit_ends<F>(s: Session<F>, i: Input)
    ensures
        ends_loop(next(s, i).1) ==> next(s, i).0.exited,
        s.exited ==> next(s, i).0.exited,
{
}

/// An ended loop asks for nothing more and stays as it is, whatever it is told.
pub proof fn ended_loop_ignores_inputs<F>(s: Session<F>, inputs: Seq<Input>)
    requires
        s.exited,
    ensures
        actions(s, inputs).len() == inputs.len(),
        forall|k: int| 0 <= k < inputs.len() ==> actions(s, inputs)[k] == Action::Nothing,
        after(s, inputs) == s,
    decreases inputs.len(),
{
    actions_len(s, inputs);
    if inputs.len() > 0 {
        ended_loop_ignores_inputs(s, inputs.drop_first());
        assert forall|k: int| 0 <= k < inputs.len() implies actions(s, inputs)[k] == Action::Nothing by {
            if k > 0 {
                assert(actions(s, inputs)[k] == actions(s, inputs.drop_first())[k - 1]);
            }
        }
    }
}

/// Whatever the loop is told, once it has asked to exit or to abort it asks
/// for nothing more: it ends at most once, and no event is acted on after that.
pub proof fn exits_at_most_once<F>(s: Session<F>, inputs: Seq<Input>)
    ensures
        forall|i: int, j: int|
            0 <= i < j < inputs.len() && ends_loop(#[trigger] actions(s, inputs)[i])
                ==> #[trigger] actions(s, inputs)[j] == Action::Nothing,
    decreases inputs.len(),
{
    actions_len(s, inputs);
    if inputs.len() > 0 {
        let (t, a) = next(s, inputs[0]);
        let rest = inputs.drop_first();
        exit_ends(s, inputs[0]);
        exits_at_most_once(t, rest);
        if ends_loop(a) {
            ended_loop_ignores_inputs(t, rest);
        }
        assert forall|i: int, j: int|
            0 <= i < j < inputs.len() && ends_loop(#[trigger] actions(s, inputs)[i])
                implies #[trigger] actions(s, inputs)[j] == Action::Nothing by {
            assert(actions(s, inputs)[j] == actions(t, rest)[j - 1]);
            if i > 0 {
                assert(actions(s, inputs)[i] == actions(t, rest)[i - 1]);
            }
        }
    }
}

/// An input on which a running loop ends is acted on, and every input after it
/// is ignored.
pub proof fn ending_step_is_last<F>(s: Session<F>, i: Input, later: Seq<Input>)
    requires
        next(s, i).0.exited,
    ensures
        actions(s, seq![i] + later).len() == later.len() + 1,
        actions(s, seq![i] + later)[0] == next(s, i).1,
        forall|k: int| 1 <= k <= later.len() ==> actions(s, seq![i] + later)[k] == Action::Nothing,
{
    let inputs = seq![i] + later;
    let t = next(s, i).0;
    first_step(s, i, later);
    ended_loop_ignores_inputs(t, later);
    actions_len(s, inputs);
    assert forall|k: int| 1 <= k <= later.len() implies actions(s, inputs)[k] == Action::Nothing by {
        assert(actions(s, inputs)[k] == actions(t, later)[k - 1]);
    }
}

/// A close request, or the escape key pressed, ends a running loop: the loop
/// asks to exit normally, once, and for nothing after that, whatever follows.
pub proof fn close_or_escape_ends_loop<F>(s: Session<F>, e: WindowEvent, later: Seq<Input>)
    requires
        !s.exited,
        e == WindowEvent::CloseRequested || (e matches WindowEvent::KeyboardInput(k) && is_exit_key(k)),
    ensures
        actions(s, seq![Input::Window(e)] + later).len() == later.len() + 1,
        actions(s, seq![Input::Window(e)] + later)[0] == Action::Exit,
        forall|k: int|
            1 <= k <= later.len() ==> actions(s, seq![Input::Window(e)] + later)[k] == Action::Nothing,
{
    ending_step_is_last(s, Input::Window(e), later);
}

/// A frame that fails for want of memory ends a running loop: the loop asks
/// for the program to be aborted for that error, and no further frame is
/// drawn, whatever follows.
pub proof fn out_of_memory_aborts<F>(s: Session<F>, later: Seq<Input>)
    requires
        !s.exited,
    ensures
        actions(s, seq![Input::Frame(Err(SurfaceError::OutOfMemory))] + later).len() == later.len() + 1,
        actions(s, seq![Input::Frame(Err(SurfaceError::OutOfMemory))] + later)[0]
            == Action::Abort(SurfaceError::OutOfMemory),
        forall|k: int|
            1 <= k <= later.len() ==> actions(s, seq![Input::Frame(Err(SurfaceError::OutOfMemory))]
                + later)[k] == Action::Nothing,
{
    ending_step_is_last(s, Input::Frame(Err(SurfaceError::OutOfMemory)), later);
}

/// Telling the loop one input and then `rest` is taking the first step and
/// going on from the session it leads to.
pub proof fn first_step<F>(s: Session<F>, i: Input, rest: Seq<Input>)
    ensures
        actions(s, seq![i] + rest) == seq![next(s, i).1] + actions(next(s, i).0, rest),
        after(s, seq![i] + rest) == after(next(s, i).0, rest),
{
    assert((seq![i] + rest).drop_first() =~= rest);
}

/// A lost surface in a running loop is configured again, once, for the size
/// recorded before the error; the loop goes on, and the next redraw request
/// draws a frame.
pub proof fn lost_surface_is_reconfigured<F>(s: Session<F>)
    requires
        !s.exited,
    ensures
        actions(s, seq![Input::Frame(Err(SurfaceError::Lost))]) == seq![Action::Reconfigure(s.render.size)],
        ({
            let t = after(s, seq![Input::Frame(Err(SurfaceError::Lost))]);
            &&& !t.exited
            &&& t.render.size == s.render.size
            &&& t.render.wf()
            &&& t.render.config.format == s.render.config.format
            &&& actions(t, seq![Input::Window(WindowEvent::RedrawRequested)]) == seq![Action::Render]
        }),
{
    let empty = Seq::<Input>::empty();
    let lost = Input::Frame(Err(SurfaceError::Lost));
    let redraw = Input::Window(WindowEvent::RedrawRequested);
    first_step(s, lost, empty);
    assert(seq![lost] + empty =~= seq![lost]);
    let t = next(s, lost).0;
    first_step(t, redraw, empty);
    assert(seq![redraw] + empty =~= seq![redraw]);
    assert(actions(t, seq![redraw]) =~= seq![Action::Render]);
    assert(actions(s, seq![lost]) =~= seq![Action::Reconfigure(s.render.size)]);
}

/// A redraw request to a running loop asks for exactly one frame; when that
/// frame is presented, the loop asks for nothing more and is as it was.
pub proof fn redraw_draws_one_frame<F>(s: Session<F>)
    requires
        !s.exited,
    ensures
        actions(s, seq![Input::Window(WindowEvent::RedrawRequested), Input::Frame(Ok(()))])
            == seq![Action::Render, Action::Nothing],
        after(s, seq![Input::Window(WindowEvent::RedrawRequested), Input::Frame(Ok(()))]) == s,
{
    let empty = Seq::<Input>::empty();
    let redraw = Input::Window(WindowEvent::RedrawRequested);
    let presented = Input::Frame(Ok(()));
    first_step(s, presented, empty);
    assert(seq![presented] + empty =~= seq![presented]);
    first_step(s, redraw, seq![presented]);
    assert(seq![redraw] + seq![presented] =~= seq![redraw, presented]);
    assert(actions(s, seq![redraw, presented]) =~= seq![Action::Render, Action::Nothing]);
}

} // verus!
