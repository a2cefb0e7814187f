//! The bounded batch of keyboard and mouse events that one report produces.

use vstd::prelude::*;
use vstd::slice::slice_subrange;

verus! {

/// How a key edge is injected.
#[derive(Clone, Copy, Debug, PartialEq, Eq, Structural)]
pub enum KeyKind {
    /// By hardware scancode, which games accept.
    ScanCode,
    /// By virtual-key code.
    Virtual,
}

/// A mouse button.
#[derive(Clone, Copy, Debug, PartialEq, Eq, Structural)]
pub enum MouseButton {
    Left,
    Right,
    Middle,
    /// First extra button (back).
    X1,
    /// Second extra button (forward).
    X2,
}

/// One keyboard or mouse event.
///
/// Keys and buttons come as edges: a held key is one `down` event and nothing more until it is
/// released.
#[derive(Clone, Copy, Debug, PartialEq, Eq, Structural)]
pub enum KbmEvent {
    /// A key edge; `vk` is the virtual-key code.
    Key { vk: u16, down: bool, kind: KeyKind },
    /// A mouse-button edge.
    MouseButton { btn: MouseButton, down: bool },
    /// A relative mouse move.
    MouseMove { dx: i32, dy: i32 },
    /// A wheel turn; one notch is 120.
    Wheel { vertical: i32, horizontal: i32 },
    /// A macro starts or stops.
    Macro { id: u16, start: bool },
    /// A special action, for the control plane.
    Special { id: u16 },
}

/// Most events that one batch holds.
pub const KBM_BATCH_CAP: usize = 24;

/// The events of one report, in the order in which they were queued.
///
/// A full batch refuses further events instead of growing.
#[derive(Clone, Copy, Debug)]
pub struct KbmBatch {
    buf: [KbmEvent; 24],
    len: u8,
}

impl View for KbmBatch {
    type V = Seq<KbmEvent>;

    closed spec fn view(&self) -> Seq<KbmEvent> {
        self.buf@.subrange(0, self.len as int)
    }
}

impl KbmBatch {
    #[verifier::type_invariant]
    spec fn within_cap(self) -> bool {
        self.len <= KBM_BATCH_CAP
    }

    /// An empty batch.
    pub fn new() -> (r: KbmBatch)
        ensures
            r@ == Seq::<KbmEvent>::empty(),
    {
        KbmBatch { buf: [KbmEvent::MouseMove { dx: 0, dy: 0 }; 24], len: 0 }
    }

    /// Empties the batch.
    pub fn clear(&mut self)
        ensures
            final(self)@ == Seq::<KbmEvent>::empty(),
    {
        self.len = 0;
    }

    /// Appends an event; a full batch drops it and returns `false`.
    pub fn push(&mut self, e: KbmEvent) -> (r: bool)
        ensures
            r == (old(self)@.len() < KBM_BATCH_CAP),
            final(self)@ == (if r {
                old(self)@.push(e)
            } else {
                old(self)@
            }),
    {
        proof {
            use_type_invariant(&*self);
        }
        let i: usize = self.len as usize;
        if i >= KBM_BATCH_CAP {
            return false;
        }
        self.buf[i] = e;
        self.len = self.len + 1;
        assert(self@ =~= old(self)@.push(e));
        true
    }

    /// The queued events, in queueing order.
    pub fn as_slice(&self) -> (r: &[KbmEvent])
        ensures
            r@ == self@,
            r@.len() <= KBM_BATCH_CAP,
    {
        proof {
            use_type_invariant(self);
        }
        slice_subrange(self.buf.as_slice(), 0, self.len as usize)
    }

    /// Number of queued events.
    pub fn len(&self) -> (r: usize)
        ensures
            r == self@.len(),
            r <= KBM_BATCH_CAP,
    {
        proof {
            use_type_invariant(self);
        }
        self.len as usize
    }

    /// Whether nothing is queued.
    pub fn is_empty(&self) -> (r: bool)
        ensures
            r == (self@.len() == 0),
    {
        proof {
            use_type_invariant(self);
        }
        self.len == 0
    }
}

impl Default for KbmBatch {
    fn default() -> (r: KbmBatch)
        ensures
            r@ == Seq::<KbmEvent>::empty(),
    {
        KbmBatch::new()
    }
}

} // verus!
