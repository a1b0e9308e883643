use vstd::prelude::*;

verus! {

/// A point on the screen, or a move, in pixels.
#[derive(Debug, Copy, Clone, PartialEq, Eq, Structural)]
pub struct MousePos(pub i32, pub i32);

impl std::ops::Sub for MousePos {
    type Output = MousePos;

    /// Component-wise difference.
    fn sub(self, rhs: MousePos) -> MousePos {
        MousePos(self.0 - rhs.0, self.1 - rhs.1)
    }
}

impl vstd::std_specs::ops::SubSpecImpl for MousePos {
    open spec fn obeys_sub_spec() -> bool {
        true
    }

    open spec fn sub_req(self, rhs: MousePos) -> bool {
        &&& i32::MIN <= self.0 - rhs.0 <= i32::MAX
        &&& i32::MIN <= self.1 - rhs.1 <= i32::MAX
    }

    open spec fn sub_spec(self, rhs: MousePos) -> MousePos {
        MousePos((self.0 - rhs.0) as i32, (self.1 - rhs.1) as i32)
    }
}

/// One input event for the host's pointer.
#[derive(Debug, Copy, Clone, PartialEq, Eq, Structural)]
pub enum MouseEvent {
    /// Put the pointer at an absolute screen point.
    MoveTo(MousePos),
    /// Move the pointer by a relative amount.
    MoveBy(MousePos),
    LeftDown,
    LeftUp,
}

/// Something that drives the pointer; `sent` is the sequence of events it
/// has been asked for so far.
pub trait Robot {
    spec fn sent(&self) -> Seq<MouseEvent>;

    fn mouse_to(&mut self, pos: MousePos)
        ensures
            final(self).sent() == old(self).sent().push(MouseEvent::MoveTo(pos)),
    ;

    fn mouse_relative(&mut self, pos: MousePos)
        ensures
            final(self).sent() == old(self).sent().push(MouseEvent::MoveBy(pos)),
    ;

    /// Moves to `pos`, then presses and releases the left button.
    fn click_on(&mut self, pos: MousePos)
        ensures
            final(self).sent() == old(self).sent().push(MouseEvent::MoveTo(pos)).push(
                MouseEvent::LeftDown,
            ).push(MouseEvent::LeftUp),
    ;
}

/// The pointer of a Windows desktop. It queues the events asked of it; the
/// host takes them with `take_events` and injects them in that order.
pub struct WinRobot {
    pending: Vec<MouseEvent>,
}

impl WinRobot {
    pub fn new() -> (r: Self)
        ensures
            r.sent() == Seq::<MouseEvent>::empty(),
    {
        WinRobot { pending: Vec::new() }
    }

    /// Hands out the queued events, oldest first, and empties the queue.
    pub fn take_events(&mut self) -> (r: Vec<MouseEvent>)
        ensures
            r@ == old(self).sent(),
            final(self).sent() == Seq::<MouseEvent>::empty(),
    {
        let mut taken = Vec::new();
        std::mem::swap(&mut taken, &mut self.pending);
        taken
    }
}

impl Robot for WinRobot {
    closed spec fn sent(&self) -> Seq<MouseEvent> {
        self.pending@
    }

    fn mouse_to(&mut self, pos: MousePos) {
        self.pending.push(MouseEvent::MoveTo(pos));
    }

    fn mouse_relative(&mut self, pos: MousePos) {
        self.pending.push(MouseEvent::MoveBy(pos));
    }

    fn click_on(&mut self, pos: MousePos) {
        self.mouse_to(pos);
        self.pending.push(MouseEvent::LeftDown);
        self.pending.push(MouseEvent::LeftUp);
    }
}

} // verus!
