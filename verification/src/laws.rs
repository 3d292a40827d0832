//! What holds of every list box, whatever it is sent.

use crate::event::{Button, Event, Status};
use crate::geometry::rectangle_contains;
use crate::listbox::{answers, ListBoxView};
use iced_native::{Point, Rectangle};
use vstd::prelude::*;

verus! {

/// A button that goes down while the cursor is outside the bounds changes
/// nothing: the widget stays as it was, so one that was not pressed is not
/// pressed afterwards; no message is published and the event passes through.
pub proof fn lemma_press_outside_changes_nothing<Message: Clone, S>(
    before: ListBoxView<Message, S>,
    button: Button,
    bounds: Rectangle,
    cursor_position: Point,
    after: ListBoxView<Message, S>,
    status: Status,
    sent: Seq<Message>,
    sent_after: Seq<Message>,
)
    requires
        !rectangle_contains(bounds, cursor_position),
        answers(
            before,
            Event::ButtonPressed(button),
            rectangle_contains(bounds, cursor_position),
            after,
            status,
            sent,
            sent_after,
        ),
    ensures
        after == before,
        !before.state.is_pressed ==> !after.state.is_pressed,
        sent_after == sent,
        status == Status::Ignored,
{
}

/// A click publishes once: when the left button goes down and comes up
/// again, both with the cursor inside the bounds, on a widget with a message,
/// the messages grow by one clone of that message and by nothing else. Both
/// events are captured, and the widget is not pressed afterwards.
pub proof fn lemma_click_publishes_once<Message: Clone, S>(
    before: ListBoxView<Message, S>,
    bounds: Rectangle,
    pressed_at: Point,
    released_at: Point,
    between: ListBoxView<Message, S>,
    after: ListBoxView<Message, S>,
    status_down: Status,
    status_up: Status,
    sent: Seq<Message>,
    sent_between: Seq<Message>,
    sent_after: Seq<Message>,
)
    requires
        before.on_press is Some,
        rectangle_contains(bounds, pressed_at),
        rectangle_contains(bounds, released_at),
        answers(
            before,
            Event::ButtonPressed(Button::Left),
            rectangle_contains(bounds, pressed_at),
            between,
            status_down,
            sent,
            sent_between,
        ),
        answers(
            between,
            Event::ButtonReleased(Button::Left),
            rectangle_contains(bounds, released_at),
            after,
            status_up,
            sent_between,
            sent_after,
        ),
    ensures
        sent_after.len() == sent.len() + 1,
        sent_after.drop_last() == sent,
        cloned(before.on_press->0, sent_after.last()),
        !after.state.is_pressed,
        between.state.is_pressed,
        status_down == Status::Captured,
        status_up == Status::Captured,
{
}

/// A click that ends outside is dropped: when the left button goes down with
/// the cursor inside the bounds and comes up with the cursor outside, the
/// widget is not pressed afterwards and no message is published. This is
/// said of a widget that has a message, or was not pressed to begin with:
/// one without a message stays as it is, pressed or not.
pub proof fn lemma_release_outside_publishes_nothing<Message: Clone, S>(
    before: ListBoxView<Message, S>,
    bounds: Rectangle,
    pressed_at: Point,
    released_at: Point,
    between: ListBoxView<Message, S>,
    after: ListBoxView<Message, S>,
    status_down: Status,
    status_up: Status,
    sent: Seq<Message>,
    sent_between: Seq<Message>,
    sent_after: Seq<Message>,
)
    requires
        before.on_press is Some || !before.state.is_pressed,
        rectangle_contains(bounds, pressed_at),
        !rectangle_contains(bounds, released_at),
        answers(
            before,
            Event::ButtonPressed(Button::Left),
            rectangle_contains(bounds, pressed_at),
            between,
            status_down,
            sent,
            sent_between,
        ),
        answers(
            between,
            Event::ButtonReleased(Button::Left),
            rectangle_contains(bounds, released_at),
            after,
            status_up,
            sent_between,
            sent_after,
        ),
    ensures
        !after.state.is_pressed,
        sent_after == sent,
        status_up == Status::Ignored,
{
}

/// A widget without a message is inert: whatever the event and wherever the
/// cursor, it stays as it was, publishes nothing and lets the event pass.
pub proof fn lemma_without_message_ignores<Message: Clone, S>(
    before: ListBoxView<Message, S>,
    event: Event,
    inside: bool,
    after: ListBoxView<Message, S>,
    status: Status,
    sent: Seq<Message>,
    sent_after: Seq<Message>,
)
    requires
        before.on_press is None,
        answers(before, event, inside, after, status, sent, sent_after),
    ensures
        after == before,
        sent_after == sent,
        status == Status::Ignored,
{
}

} // verus!
