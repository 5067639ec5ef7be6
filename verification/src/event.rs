//! Input events and the queue that carries them from capture to the frame.

use vstd::prelude::*;

verus! {

/// A button of a pointing device.
#[derive(Debug, Clone, Copy, PartialEq, Eq, Structural)]
pub enum MouseButton {
    Left,
    Middle,
    Right,
    Back,
    Forward,
}

impl MouseButton {
    /// The button that a host reports under `code` on a press or release.
    pub open spec fn of_code(code: int) -> Option<MouseButton> {
        if code == 0 {
            Some(MouseButton::Left)
        } else if code == 1 {
            Some(MouseButton::Middle)
        } else if code == 2 {
            Some(MouseButton::Right)
        } else if code == 3 {
            Some(MouseButton::Back)
        } else if code == 4 {
            Some(MouseButton::Forward)
        } else {
            None
        }
    }

    /// The bit that stands for this button in a held-buttons bitmap.
    pub open spec fn mask(self) -> u16 {
        match self {
            MouseButton::Left => 1,
            MouseButton::Right => 2,
            MouseButton::Middle => 4,
            MouseButton::Back => 8,
            MouseButton::Forward => 16,
        }
    }

    /// Whether `bits` reports this button as held.
    pub open spec fn held(self, bits: u16) -> bool {
        bits & self.mask() != 0
    }

    /// All buttons, in the order in which a bitmap lists them.
    pub open spec fn bitmap_order() -> Seq<MouseButton> {
        seq![
            MouseButton::Left,
            MouseButton::Right,
            MouseButton::Middle,
            MouseButton::Back,
            MouseButton::Forward,
        ]
    }

    /// The buttons that `bits` reports as held, in bitmap order.
    pub open spec fn of_bitmap(bits: u16) -> Seq<MouseButton> {
        Self::bitmap_order().filter(|b: MouseButton| b.held(bits))
    }

    /// Decodes the button of a press or release; `None` for a code that names
    /// no known button.
    pub fn from_code(code: i16) -> (r: Option<MouseButton>)
        ensures
            r == Self::of_code(code as int),
    {
        match code {
            0 => Some(MouseButton::Left),
            1 => Some(MouseButton::Middle),
            2 => Some(MouseButton::Right),
            3 => Some(MouseButton::Back),
            4 => Some(MouseButton::Forward),
            _ => None,
        }
    }

    /// Decodes a held-buttons bitmap.
    pub fn from_bitmap(bits: u16) -> (r: Vec<MouseButton>)
        ensures
            r@ == Self::of_bitmap(bits),
    {
        let ghost held = |b: MouseButton| b.held(bits);
        let ghost order = Self::bitmap_order();
        let mut buttons: Vec<MouseButton> = Vec::new();
        proof {
            reveal(Seq::filter);
            assert(order.take(0).filter(held) =~= Seq::<MouseButton>::empty());
        }
        if bits & 1 != 0 {
            buttons.push(MouseButton::Left);
        }
        proof {
            lemma_filter_next(order, held, 0);
        }
        if bits & 2 != 0 {
            buttons.push(MouseButton::Right);
        }
        proof {
            lemma_filter_next(order, held, 1);
        }
        if bits & 4 != 0 {
            buttons.push(MouseButton::Middle);
        }
        proof {
            lemma_filter_next(order, held, 2);
        }
        if bits & 8 != 0 {
            buttons.push(MouseButton::Back);
        }
        proof {
            lemma_filter_next(order, held, 3);
        }
        if bits & 16 != 0 {
            buttons.push(MouseButton::Forward);
        }
        proof {
            lemma_filter_next(order, held, 4);
            assert(order.take(5) =~= order);
        }
        buttons
    }
}

/// A bitmap lists a button exactly when the button's bit is set in it.
pub proof fn lemma_bitmap_lists_held(bits: u16, button: MouseButton)
    ensures
        MouseButton::of_bitmap(bits).contains(button) <==> button.held(bits),
{
    let order = MouseButton::bitmap_order();
    let held = |b: MouseButton| b.held(bits);
    let listed = order.filter(held);
    if listed.contains(button) {
        let i = choose|i: int| 0 <= i < listed.len() && listed[i] == button;
        order.lemma_filter_pred(held, i);
    }
    if button.held(bits) {
        let at: int = match button {
            MouseButton::Left => 0,
            MouseButton::Right => 1,
            MouseButton::Middle => 2,
            MouseButton::Back => 3,
            MouseButton::Forward => 4,
        };
        assert(order[at] == button);
        order.lemma_filter_contains(held, at);
    }
}

/// Filtering one element more of a sequence appends that element if it
/// passes and changes nothing otherwise.
proof fn lemma_filter_next<A>(s: Seq<A>, pred: spec_fn(A) -> bool, i: int)
    requires
        0 <= i < s.len(),
    ensures
        s.take(i + 1).filter(pred) == if pred(s[i]) {
            s.take(i).filter(pred).push(s[i])
        } else {
            s.take(i).filter(pred)
        },
{
    reveal(Seq::filter);
    assert(s.take(i + 1).drop_last() =~= s.take(i));
}


/// The modifier state that accompanies a key press or release.
#[derive(Debug, Clone, Copy)]
pub struct KeyMeta {
    pub repeat: bool,
    pub alt: bool,
    pub shift: bool,
    pub ctrl: bool,
    pub meta: bool,
}

/// One input occurrence. `P` is how the host writes a position or a
/// two-dimensional amount.
#[derive(Debug, Clone)]
pub enum Event<P> {
    MouseDown { pos: P, button: MouseButton },
    MouseUp { pos: P, button: MouseButton },
    MouseMove { pos: P, buttons: Vec<MouseButton> },
    MouseWheel { pos: P, buttons: Vec<MouseButton>, delta: P },
    TouchStart { touches: Vec<P> },
    TouchMove { touches: Vec<P> },
    TouchEnd { touches: Vec<P> },
    KeyDown { code: u32, key: String, meta: KeyMeta },
    KeyUp { code: u32, key: String, meta: KeyMeta },
}

impl<P> Event<P> {
    pub fn is_mouse(&self) -> (r: bool)
        ensures
            r == (self is MouseDown || self is MouseUp || self is MouseMove || self is MouseWheel),
    {
        matches!(
            self,
            Event::MouseDown { .. } | Event::MouseUp { .. } | Event::MouseMove { .. }
                | Event::MouseWheel { .. }
        )
    }

    pub fn is_key(&self) -> (r: bool)
        ensures
            r == (self is KeyDown || self is KeyUp),
    {
        matches!(self, Event::KeyDown { .. } | Event::KeyUp { .. })
    }

    pub fn is_touch(&self) -> (r: bool)
        ensures
            r == (self is TouchStart || self is TouchMove || self is TouchEnd),
    {
        matches!(self, Event::TouchStart { .. } | Event::TouchMove { .. } | Event::TouchEnd { .. })
    }

    /// The event for a button pressed at `pos`, or nothing where `code` names
    /// no known button: such a press is dropped.
    pub fn mouse_down(pos: P, code: i16) -> (r: Option<Event<P>>)
        ensures
            r == match MouseButton::of_code(code as int) {
                Some(button) => Some(Event::MouseDown { pos, button }),
                None => None,
            },
    {
        match MouseButton::from_code(code) {
            Some(button) => Some(Event::MouseDown { pos, button }),
            None => None,
        }
    }

    /// The event for a button released at `pos`, or nothing where `code`
    /// names no known button: such a release is dropped.
    pub fn mouse_up(pos: P, code: i16) -> (r: Option<Event<P>>)
        ensures
            r == match MouseButton::of_code(code as int) {
                Some(button) => Some(Event::MouseUp { pos, button }),
                None => None,
            },
    {
        match MouseButton::from_code(code) {
            Some(button) => Some(Event::MouseUp { pos, button }),
            None => None,
        }
    }

    /// The event for a pointer that moved to `pos` while the buttons in
    /// `held` were down.
    pub fn mouse_move(pos: P, held: u16) -> (r: Event<P>)
        ensures
            r matches Event::MouseMove { pos: p, buttons } && p == pos && buttons@
                == MouseButton::of_bitmap(held),
    {
        Event::MouseMove { pos, buttons: MouseButton::from_bitmap(held) }
    }

    /// The event for a wheel turned by `delta` at `pos` while the buttons in
    /// `held` were down.
    pub fn mouse_wheel(pos: P, held: u16, delta: P) -> (r: Event<P>)
        ensures
            r matches Event::MouseWheel { pos: p, buttons, delta: d } && p == pos && d == delta
                && buttons@ == MouseButton::of_bitmap(held),
    {
        Event::MouseWheel { pos, buttons: MouseButton::from_bitmap(held), delta }
    }
}

/// The events that `count` removals take from `queue`, in the order in which
/// they are handed out; fewer where the queue runs empty before.
pub open spec fn handed_out<E>(queue: Seq<E>, count: nat) -> Seq<E>
    decreases count,
{
    if count == 0 || queue.len() == 0 {
        Seq::empty()
    } else {
        seq![queue.last()] + handed_out(queue.drop_last(), (count - 1) as nat)
    }
}

/// The events that `count` removals leave in `queue`.
pub open spec fn left_after<E>(queue: Seq<E>, count: nat) -> Seq<E> {
    if count >= queue.len() {
        Seq::empty()
    } else {
        queue.take(queue.len() - count)
    }
}

/// Events come out in the reverse of the order in which they went in: as
/// many removals as there were pushes hand out the pushed events, the last
/// one first, and leave what was queued before them.
pub proof fn lemma_newest_first<E>(queue: Seq<E>, pushed: Seq<E>)
    ensures
        handed_out(queue + pushed, pushed.len()) == pushed.reverse(),
        left_after(queue + pushed, pushed.len()) == queue,
    decreases pushed.len(),
{
    assert(left_after(queue + pushed, pushed.len()) =~= queue);
    if pushed.len() > 0 {
        let all = queue + pushed;
        let earlier = pushed.drop_last();
        assert(all.last() == pushed.last());
        assert(all.drop_last() =~= queue + earlier);
        lemma_newest_first(queue, earlier);
        assert(pushed.reverse() =~= seq![pushed.last()] + earlier.reverse());
    } else {
        assert(pushed.reverse() =~= Seq::<E>::empty());
    }
}

/// The events captured since they were last drained, oldest first.
///
/// Capture appends; the frame removes, newest first.
pub struct EventQueue<E> {
    events: Vec<E>,
}

impl<E> View for EventQueue<E> {
    type V = Seq<E>;

    closed spec fn view(&self) -> Seq<E> {
        self.events@
    }
}

impl<E> EventQueue<E> {
    pub fn new() -> (r: Self)
        ensures
            r@ == Seq::<E>::empty(),
    {
        EventQueue { events: Vec::new() }
    }

    pub fn len(&self) -> (r: usize)
        ensures
            r == self@.len(),
    {
        self.events.len()
    }

    pub fn is_empty(&self) -> (r: bool)
        ensures
            r == (self@.len() == 0),
    {
        self.events.len() == 0
    }

    /// Appends `event`; nothing that waits is dropped or reordered.
    pub fn push(&mut self, event: E)
        ensures
            final(self)@ == old(self)@.push(event),
    {
        self.events.push(event);
    }

    /// Removes the event pushed last and returns it; `None` on an empty
    /// queue, which stays empty.
    pub fn pop_newest(&mut self) -> (r: Option<E>)
        ensures
            old(self)@.len() == 0 ==> r is None && final(self)@ == old(self)@,
            old(self)@.len() > 0 ==> r == Some(old(self)@.last()) && final(self)@ == old(
                self,
            )@.drop_last(),
    {
        self.events.pop()
    }
}

} // verus!
