//! The widget.

use crate::event::{decide, transition, Event, Status};
use crate::geometry::{contains, rectangle_contains};
use crate::length::Length;
use crate::renderer::Renderer;
use crate::state::State;
use iced_native::{Point, Rectangle};
use vstd::prelude::*;

verus! {

/// A box that shows a list of lines and answers a click with a message.
///
/// A list box is built anew for every frame, over the [`State`] that the
/// application keeps between frames.
pub struct ListBox<'a, Message, R: Renderer> {
    /// The interaction state, lent by the application for this frame.
    pub state: &'a mut State,
    /// The message that a click publishes, if one is configured.
    pub on_press: Option<Message>,
    /// How the widget fills space across.
    pub width: Length,
    /// How the widget fills space down.
    pub height: Length,
    /// The least width of the widget.
    pub min_width: u32,
    /// The least height of the widget.
    pub min_height: u32,
    /// The room left free around the content.
    pub padding: u16,
    /// The lines shown, first to last.
    pub content: Vec<String>,
    /// The style that the renderer draws the widget in.
    pub style: R::Style,
}

/// What a [`ListBox`] holds, the lent state by its value.
pub struct ListBoxView<Message, Style> {
    pub state: State,
    pub on_press: Option<Message>,
    pub width: Length,
    pub height: Length,
    pub min_width: u32,
    pub min_height: u32,
    pub padding: u16,
    pub content: Seq<String>,
    pub style: Style,
}

impl<'a, Message, R: Renderer> View for ListBox<'a, Message, R> {
    type V = ListBoxView<Message, R::Style>;

    open spec fn view(&self) -> Self::V {
        ListBoxView {
            state: *self.state,
            on_press: self.on_press,
            width: self.width,
            height: self.height,
            min_width: self.min_width,
            min_height: self.min_height,
            padding: self.padding,
            content: self.content@,
            style: self.style,
        }
    }
}

/// Whether the messages `after` are the messages `before` with what the
/// widget publishes: a clone of the message of `on_press` at the end where
/// it `emits`, and nothing where it does not.
pub open spec fn delivers<Message: Clone>(
    emits: bool,
    on_press: Option<Message>,
    before: Seq<Message>,
    after: Seq<Message>,
) -> bool {
    if emits {
        &&& on_press is Some
        &&& after.len() == before.len() + 1
        &&& after.drop_last() == before
        &&& cloned(on_press->0, after.last())
    } else {
        after == before
    }
}

/// Whether a list box that was `before` answers `event` rightly, with the
/// cursor `inside` its bounds or not, by becoming `after`, reporting
/// `status` and turning the messages `sent` into `sent_after`.
///
/// The pressed flag, the status and the publishing follow [`transition`];
/// nothing else of the widget changes.
pub open spec fn answers<Message: Clone, S>(
    before: ListBoxView<Message, S>,
    event: Event,
    inside: bool,
    after: ListBoxView<Message, S>,
    status: Status,
    sent: Seq<Message>,
    sent_after: Seq<Message>,
) -> bool {
    let outcome = transition(before.state.is_pressed, before.on_press is Some, event, inside);
    &&& status == outcome.status
    &&& after == ListBoxView {
        state: State { is_pressed: outcome.pressed, ..before.state },
        ..before
    }
    &&& delivers(outcome.emits, before.on_press, sent, sent_after)
}

impl<'a, Message, R: Renderer> ListBox<'a, Message, R> {
    /// Creates a new [`ListBox`] over the given state, showing `content`.
    ///
    /// It shrinks to its content across, has the default height and the
    /// default padding of its renderer, the default style, and no message.
    pub fn new(state: &'a mut State, content: Vec<String>) -> (list_box: Self)
        ensures
            list_box@.state == *old(state),
            *final(list_box.state) == *final(state),
            list_box@.on_press is None,
            list_box@.width == Length::Shrink,
            list_box@.height == Length::Units(R::DEFAULT_HEIGHT),
            list_box@.min_width == 0,
            list_box@.min_height == 0,
            list_box@.padding == R::DEFAULT_PADDING,
            list_box@.content == content@,
            call_ensures(R::Style::default, (), list_box@.style),
    {
        ListBox {
            state,
            on_press: None,
            width: Length::Shrink,
            height: Length::Units(R::DEFAULT_HEIGHT),
            min_width: 0,
            min_height: 0,
            padding: R::DEFAULT_PADDING,
            content,
            style: R::Style::default(),
        }
    }

    /// Sets the width of the [`ListBox`].
    pub fn width(self, width: Length) -> (list_box: Self)
        ensures
            list_box@ == (ListBoxView { width, ..self@ }),
            *final(list_box.state) == *final(self.state),
    {
        let mut list_box = self;
        list_box.width = width;
        list_box
    }

    /// Sets the height of the [`ListBox`], in place of the default height
    /// of its renderer.
    pub fn height(self, height: Length) -> (list_box: Self)
        ensures
            list_box@ == (ListBoxView { height, ..self@ }),
            *final(list_box.state) == *final(self.state),
    {
        let mut list_box = self;
        list_box.height = height;
        list_box
    }

    /// Sets the style of the [`ListBox`]: what `style` converts into.
    pub fn style<S: Into<R::Style>>(self, style: S) -> (list_box: Self)
        ensures
            call_ensures(S::into, (style,), list_box@.style),
            list_box@ == (ListBoxView { style: list_box@.style, ..self@ }),
            *final(list_box.state) == *final(self.state),
    {
        let mut list_box = self;
        list_box.style = style.into();
        list_box
    }

    /// Sets the message that a click on the [`ListBox`] publishes.
    pub fn on_press(self, message: Message) -> (list_box: Self)
        ensures
            list_box@ == (ListBoxView { on_press: Some(message), ..self@ }),
            *final(list_box.state) == *final(self.state),
    {
        let mut list_box = self;
        list_box.on_press = Some(message);
        list_box
    }

    /// Draws the [`ListBox`] with the given renderer.
    ///
    /// The widget hands on its bounds and the position of the cursor as they
    /// came, with its style, its lines and the bounds laid out for them. It
    /// is drawn disabled where no message is configured, and pressed where
    /// its state is active.
    ///
    /// The output is what [`Renderer::draw`] yields on that request, for a
    /// borrow of the renderer that finds it as it was and leaves it as it is
    /// afterwards.
    pub fn draw(
        &self,
        renderer: &mut R,
        defaults: &R::Defaults,
        bounds: Rectangle,
        cursor_position: Point,
        content_bounds: Rectangle,
        _viewport: &Rectangle,
    ) -> (output: R::Output)
        ensures
            (exists|borrow: &mut R|
                {
                    &&& *borrow == *old(renderer)
                    &&& *final(borrow) == *final(renderer)
                    &&& #[trigger] call_ensures(
                        R::draw,
                        (
                            borrow,
                            defaults,
                            bounds,
                            cursor_position,
                            self.on_press is None,
                            self@.state.active,
                            &self.style,
                            &self.content,
                            content_bounds,
                        ),
                        output,
                    )
                }),
    {
        let is_disabled = self.on_press.is_none();
        let is_pressed = self.state.active;
        assert(is_pressed == self@.state.active);
        renderer.draw(
            defaults,
            bounds,
            cursor_position,
            is_disabled,
            is_pressed,
            &self.style,
            &self.content,
            content_bounds,
        )
    }
}

impl<'a, Message: Clone, R: Renderer> ListBox<'a, Message, R> {
    /// Answers one event, given whether the cursor is inside the bounds of
    /// the widget.
    ///
    /// Where the widget publishes, a clone of its message is pushed onto
    /// `messages`. The state stays the one that the application lent.
    pub fn handle(&mut self, event: Event, inside: bool, messages: &mut Vec<Message>) -> (status:
        Status)
        ensures
            answers(
                old(self)@,
                event,
                inside,
                final(self)@,
                status,
                old(messages)@,
                final(messages)@,
            ),
            *final(final(self).state) == *final(old(self).state),
    {
        let outcome = decide(self.state.is_pressed, self.on_press.is_some(), event, inside);
        self.state.is_pressed = outcome.pressed;
        if outcome.emits {
            if let Some(on_press) = &self.on_press {
                messages.push(on_press.clone());
                assert(messages@.drop_last() == old(messages)@);
            }
        }
        outcome.status
    }

    /// Answers one event of the user interface.
    ///
    /// `bounds` are the bounds laid out for the widget and `cursor_position`
    /// is where the cursor is. The widget answers as [`ListBox::handle`]
    /// does, the cursor being inside where the bounds contain its position.
    pub fn on_event(
        &mut self,
        event: Event,
        bounds: Rectangle,
        cursor_position: Point,
        messages: &mut Vec<Message>,
        _renderer: &R,
    ) -> (status: Status)
        ensures
            answers(
                old(self)@,
                event,
                rectangle_contains(bounds, cursor_position),
                final(self)@,
                status,
                old(messages)@,
                final(messages)@,
            ),
            *final(final(self).state) == *final(old(self).state),
    {
        let inside = contains(&bounds, cursor_position);
        self.handle(event, inside, messages)
    }
}

} // verus!
