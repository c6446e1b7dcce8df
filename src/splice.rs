use vstd::prelude::*;

verus! {

/// The two directions of a splice between endpoints `A` and `B`.
#[derive(Clone, Copy, Debug, PartialEq, Eq, Structural)]
pub enum Direction {
    AToB,
    BToA,
}

/// What one copy direction, or the ambient cancellation, reported.
pub enum SpliceEvent {
    /// The source of `Direction` yielded these bytes.
    Data(Direction, Vec<u8>),
    /// The source of `Direction` reached its end.
    Ended(Direction),
    /// Reading or writing in `Direction` failed.
    Failed(Direction),
    /// Either cancellation scope fired.
    Cancelled,
}

/// What the driver of a splice does next.
pub enum SpliceAction {
    /// Write these bytes to the sink of `Direction`.
    Write(Direction, Vec<u8>),
    /// Stop both directions and close both endpoints.
    Terminate,
}

/// A bidirectional relay. It forwards each chunk unchanged while it runs,
/// and stops as a whole as soon as either direction ends or fails, or a
/// cancellation fires.
pub struct Splice {
    running: bool,
    /// Every byte forwarded from `A` to `B`, in order.
    a_to_b: Ghost<Seq<u8>>,
    /// Every byte forwarded from `B` to `A`, in order.
    b_to_a: Ghost<Seq<u8>>,
}

impl Splice {
    pub closed spec fn is_running(&self) -> bool {
        self.running
    }

    /// The bytes forwarded so far in direction `d`.
    pub closed spec fn forwarded(&self, d: Direction) -> Seq<u8> {
        match d {
            Direction::AToB => self.a_to_b@,
            Direction::BToA => self.b_to_a@,
        }
    }

    pub fn new() -> (r: Splice)
        ensures
            r.is_running(),
            r.forwarded(Direction::AToB) == Seq::<u8>::empty(),
            r.forwarded(Direction::BToA) == Seq::<u8>::empty(),
    {
        Splice { running: true, a_to_b: Ghost(Seq::empty()), b_to_a: Ghost(Seq::empty()) }
    }

    pub fn running(&self) -> (r: bool)
        ensures
            r == self.is_running(),
    {
        self.running
    }

    /// Decides what to do with one event. Data is handed on unchanged to the
    /// other side while the splice runs; any end, failure or cancellation
    /// terminates the whole splice, and bytes that arrive after that are
    /// dropped.
    pub fn on_event(&mut self, event: SpliceEvent) -> (r: SpliceAction)
        ensures
            match event {
                SpliceEvent::Data(d, bytes) => if old(self).is_running() {
                    &&& r matches SpliceAction::Write(wd, out) && wd == d && out@ == bytes@
                    &&& final(self).is_running()
                    &&& final(self).forwarded(d) == old(self).forwarded(d) + bytes@
                    &&& forall|o: Direction| o != d ==> final(self).forwarded(o) == old(self).forwarded(o)
                } else {
                    &&& r is Terminate
                    &&& !final(self).is_running()
                    &&& forall|o: Direction| final(self).forwarded(o) == old(self).forwarded(o)
                },
                _ => {
                    &&& r is Terminate
                    &&& !final(self).is_running()
                    &&& forall|o: Direction| final(self).forwarded(o) == old(self).forwarded(o)
                },
            },
    {
        match event {
            SpliceEvent::Data(d, bytes) => {
                if self.running {
                    match d {
                        Direction::AToB => {
                            self.a_to_b = Ghost(self.a_to_b@ + bytes@);
                        },
                        Direction::BToA => {
                            self.b_to_a = Ghost(self.b_to_a@ + bytes@);
                        },
                    }
                    SpliceAction::Write(d, bytes)
                } else {
                    SpliceAction::Terminate
                }
            },
            _ => {
                self.running = false;
                SpliceAction::Terminate
            },
        }
    }
}

} // verus!
