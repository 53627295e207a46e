use vstd::prelude::*;

verus! {

/// Size of the line buffer of the serial console.
pub const LINE_BUFFER_SIZE: usize = 256;

/// What a received byte does to the line being read.
#[derive(Debug, Clone, Copy, PartialEq, Eq, Structural)]
pub enum LineEvent {
    /// The byte was stored and is to be echoed back.
    Echo(u8),
    /// A line break ended the line; it holds this many bytes (the break is not
    /// part of it) and can be taken with `take_line`.
    Complete(usize),
    /// The byte was echoed and filled the buffer before a line break: the line
    /// of this many bytes is dropped as missing its break.
    MissingBreak(u8, usize),
}

/// Reads a line byte by byte, echoing each byte, until a carriage return or a
/// line feed, into a buffer of fixed size.
pub struct LineReader {
    buffer: Vec<u8>,
    capacity: usize,
    complete: bool,
}

pub open spec fn is_line_break(b: u8) -> bool {
    b == 10 || b == 13
}

impl LineReader {
    pub closed spec fn pending(&self) -> Seq<u8> {
        self.buffer@
    }

    pub closed spec fn capacity(&self) -> nat {
        self.capacity as nat
    }

    pub closed spec fn is_complete(&self) -> bool {
        self.complete
    }

    /// The line being read fits the buffer and holds no line break.
    pub closed spec fn wf(&self) -> bool {
        &&& self.capacity > 0
        &&& self.buffer@.len() < self.capacity
        &&& forall|i: int| 0 <= i < self.buffer@.len() ==> !is_line_break(#[trigger] self.buffer@[i])
    }

    /// A reader with room for `capacity` bytes per line (at least one).
    pub fn new(capacity: usize) -> (r: Self)
        requires
            capacity > 0,
        ensures
            r.wf(),
            r.pending() == Seq::<u8>::empty(),
            r.capacity() == capacity,
            !r.is_complete(),
    {
        LineReader { buffer: Vec::new(), capacity, complete: false }
    }

    /// Handles one received byte. A line break completes the line; any other
    /// byte is stored and echoed, and when that fills the buffer the line is
    /// dropped as missing its break.
    pub fn on_byte(&mut self, byte: u8) -> (r: LineEvent)
        requires
            old(self).wf(),
            !old(self).is_complete(),
        ensures
            final(self).wf(),
            final(self).capacity() == old(self).capacity(),
            is_line_break(byte) ==> r == LineEvent::Complete(old(self).pending().len() as usize)
                && final(self).pending() == old(self).pending() && final(self).is_complete(),
            !is_line_break(byte) && old(self).pending().len() + 1 < old(self).capacity() ==> r
                == LineEvent::Echo(byte) && final(self).pending() == old(self).pending().push(byte)
                && !final(self).is_complete(),
            !is_line_break(byte) && old(self).pending().len() + 1 == old(self).capacity() ==> r
                == LineEvent::MissingBreak(byte, old(self).capacity() as usize) && final(self).pending()
                == Seq::<u8>::empty() && !final(self).is_complete(),
    {
        if byte == 10 || byte == 13 {
            self.complete = true;
            LineEvent::Complete(self.buffer.len())
        } else if self.buffer.len() + 1 < self.capacity {
            self.buffer.push(byte);
            LineEvent::Echo(byte)
        } else {
            self.buffer = Vec::new();
            LineEvent::MissingBreak(byte, self.capacity)
        }
    }

    /// Takes the completed line and starts a new one.
    pub fn take_line(&mut self) -> (r: Vec<u8>)
        requires
            old(self).wf(),
        ensures
            r@ == old(self).pending(),
            r@.len() < old(self).capacity(),
            forall|i: int| 0 <= i < r@.len() ==> !is_line_break(#[trigger] r@[i]),
            final(self).wf(),
            final(self).pending() == Seq::<u8>::empty(),
            final(self).capacity() == old(self).capacity(),
            !final(self).is_complete(),
    {
        let mut line: Vec<u8> = Vec::new();
        core::mem::swap(&mut line, &mut self.buffer);
        self.complete = false;
        line
    }
}

} // verus!
