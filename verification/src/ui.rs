//! What a button on the surface decides for itself.
//!
//! A button does not know where it is drawn: whether a position lies over
//! it is for the host to measure. So a button answers an event with the
//! question it needs answered, and is told the answer.

use vstd::prelude::*;

use crate::event::Event;
use crate::event::MouseButton;

verus! {

/// What a button needs to know before an event is dealt with.
#[derive(Debug, Clone, Copy)]
pub enum Probe<P> {
    /// Nothing: the event does not concern the button.
    Idle,
    /// Whether the pointer, now at this position, is over the button. The
    /// answer goes to [`ButtonState::hover`].
    Hover(P),
    /// Whether this position is over the button. If it is, the button was
    /// pressed.
    Press(P),
}

/// The part of a button that events change.
#[derive(Debug)]
pub struct ButtonState<P> {
    pub enabled: bool,
    color: &'static str,
    hover_color: &'static str,
    disabled_color: &'static str,
    hovered: bool,
    last_touch: Option<P>,
}

/// The first of `touches`, if there is one.
pub open spec fn first_touch<P>(touches: Seq<P>) -> Option<P> {
    if touches.len() > 0 {
        Some(touches[0])
    } else {
        None
    }
}

impl<P: Copy> ButtonState<P> {
    pub closed spec fn is_enabled(&self) -> bool {
        self.enabled
    }

    /// Whether the pointer was over the button when it last moved.
    pub closed spec fn is_hovered(&self) -> bool {
        self.hovered
    }

    /// Where the first finger was when the touches last began or moved.
    pub closed spec fn touch(&self) -> Option<P> {
        self.last_touch
    }

    pub closed spec fn plain_color(&self) -> Seq<char> {
        self.color@
    }

    pub closed spec fn hovered_color(&self) -> Seq<char> {
        self.hover_color@
    }

    pub closed spec fn disabled_color(&self) -> Seq<char> {
        self.disabled_color@
    }

    /// The question that `event` raises, see [`ButtonState::on_event`].
    pub open spec fn probe_for(&self, event: Event<P>) -> Probe<P> {
        if !self.is_enabled() {
            Probe::Idle
        } else {
            match event {
                Event::MouseMove { pos, .. } => Probe::Hover(pos),
                Event::MouseUp { pos, button: MouseButton::Left } => Probe::Press(pos),
                Event::TouchEnd { touches } if touches@.len() <= 1 => {
                    match first_touch(touches@) {
                        Some(pos) => Probe::Press(pos),
                        None => match self.touch() {
                            Some(pos) => Probe::Press(pos),
                            None => Probe::Idle,
                        },
                    }
                },
                _ => Probe::Idle,
            }
        }
    }

    /// An enabled button in one colour, with no pointer over it and no
    /// finger seen.
    pub fn new(color: &'static str) -> (r: Self)
        ensures
            r.is_enabled(),
            !r.is_hovered(),
            r.touch() is None,
            r.plain_color() == color@,
            r.hovered_color() == color@,
            r.disabled_color() == color@,
    {
        ButtonState {
            enabled: true,
            color,
            hover_color: color,
            disabled_color: color,
            hovered: false,
            last_touch: None,
        }
    }

    pub fn with_hover_color(self, hover_color: &'static str) -> (r: Self)
        ensures
            r.hovered_color() == hover_color@,
            r.plain_color() == self.plain_color(),
            r.disabled_color() == self.disabled_color(),
            r.is_enabled() == self.is_enabled(),
            r.is_hovered() == self.is_hovered(),
            r.touch() == self.touch(),
    {
        let mut button = self;
        button.hover_color = hover_color;
        button
    }

    pub fn with_disabled_color(self, disabled_color: &'static str) -> (r: Self)
        ensures
            r.disabled_color() == disabled_color@,
            r.plain_color() == self.plain_color(),
            r.hovered_color() == self.hovered_color(),
            r.is_enabled() == self.is_enabled(),
            r.is_hovered() == self.is_hovered(),
            r.touch() == self.touch(),
    {
        let mut button = self;
        button.disabled_color = disabled_color;
        button
    }

    /// Takes note of `event` and says what has to be found out.
    ///
    /// A disabled button takes no note of anything. An enabled one asks
    /// whether a moved pointer is over it, and whether a release of the left
    /// button or the end of a touch hit it. It remembers the first finger of
    /// touches that begin or move, to have a position when the last finger
    /// is lifted; the end of a touch with at most one finger left also ends
    /// any hovering.
    pub fn on_event(&mut self, event: &Event<P>) -> (r: Probe<P>)
        ensures
            r == old(self).probe_for(*event),
            final(self).is_enabled() == old(self).is_enabled(),
            final(self).plain_color() == old(self).plain_color(),
            final(self).hovered_color() == old(self).hovered_color(),
            final(self).disabled_color() == old(self).disabled_color(),
            final(self).is_hovered() == (old(self).is_hovered() && !(old(self).is_enabled() && (
            event matches Event::TouchEnd { touches } && touches@.len() <= 1))),
            final(self).touch() == if old(self).is_enabled() && (event is TouchStart
                || event is TouchMove) {
                match *event {
                    Event::TouchStart { touches } => first_touch(touches@),
                    Event::TouchMove { touches } => first_touch(touches@),
                    _ => None,
                }
            } else {
                old(self).touch()
            },
    {
        if !self.enabled {
            return Probe::Idle;
        }
        match event {
            Event::MouseMove { pos, .. } => Probe::Hover(*pos),
            Event::MouseUp { pos, button: MouseButton::Left } => Probe::Press(*pos),
            Event::TouchStart { touches } => {
                self.last_touch = first_of(touches);
                Probe::Idle
            },
            Event::TouchMove { touches } => {
                self.last_touch = first_of(touches);
                Probe::Idle
            },
            Event::TouchEnd { touches } => {
                if touches.len() <= 1 {
                    self.hovered = false;
                    match first_of(touches) {
                        Some(pos) => Probe::Press(pos),
                        None => match self.last_touch {
                            Some(pos) => Probe::Press(pos),
                            None => Probe::Idle,
                        },
                    }
                } else {
                    Probe::Idle
                }
            },
            _ => Probe::Idle,
        }
    }

    /// Records whether the pointer is over the button, and returns whether
    /// it has just come over it.
    pub fn hover(&mut self, over: bool) -> (entered: bool)
        ensures
            entered == (over && !old(self).is_hovered()),
            final(self).is_hovered() == over,
            final(self).is_enabled() == old(self).is_enabled(),
            final(self).touch() == old(self).touch(),
            final(self).plain_color() == old(self).plain_color(),
            final(self).hovered_color() == old(self).hovered_color(),
            final(self).disabled_color() == old(self).disabled_color(),
    {
        let entered = over && !self.hovered;
        self.hovered = over;
        entered
    }

    /// The colour to draw the button in: that of a disabled button, else
    /// that of a hovered one, else its plain one.
    pub fn current_color(&self) -> (r: &'static str)
        ensures
            r@ == if !self.is_enabled() {
                self.disabled_color()
            } else if self.is_hovered() {
                self.hovered_color()
            } else {
                self.plain_color()
            },
    {
        if !self.enabled {
            self.disabled_color
        } else if self.hovered {
            self.hover_color
        } else {
            self.color
        }
    }
}

/// The first of `touches`, if there is one.
fn first_of<P: Copy>(touches: &Vec<P>) -> (r: Option<P>)
    ensures
        r == first_touch(touches@),
{
    if touches.len() > 0 {
        Some(touches[0])
    } else {
        None
    }
}

} // verus!
