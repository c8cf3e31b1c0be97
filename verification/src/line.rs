use vstd::prelude::*;

verus! {

/// The byte value of `\n`, the line terminator of the wire protocol.
pub const NEWLINE: u8 = 10;

/// What one attempt to read a byte from the serial connection produced.
/// A timeout carries no byte and is not an error; any other read failure
/// is fatal to the channel.
#[derive(Clone, Copy, Debug, PartialEq, Eq, Structural)]
pub enum ReadEvent {
    Byte(u8),
    Timeout,
    Failure,
}

/// The channel's answer to one read event. `Pending` asks the driver to
/// read again at once; `NoLine` hands control back so the caller can poll;
/// `Failed` reports the fatal serial read error.
#[derive(Debug)]
pub enum LineStep {
    Line(Vec<u8>),
    Pending,
    NoLine,
    Failed,
}

/// Accumulates serial bytes into newline-terminated lines. The buffer holds
/// the bytes of the line under construction, never a newline itself.
pub struct LineChannel {
    buf: Vec<u8>,
}

/// Whether `s` holds a newline byte.
pub open spec fn has_newline(s: Seq<u8>) -> bool {
    exists|k: int| 0 <= k < s.len() && s[k] == NEWLINE
}

/// The index of the first newline byte of `s` (meaningful only when one exists).
pub open spec fn first_newline(s: Seq<u8>) -> int
    decreases s.len(),
{
    if s.len() == 0 {
        0
    } else if s[0] == NEWLINE {
        0
    } else {
        1 + first_newline(s.skip(1))
    }
}

/// `first_newline` returns the position of a newline that nothing precedes.
pub proof fn lemma_first_newline(s: Seq<u8>, k: int)
    requires
        0 <= k < s.len(),
        s[k] == NEWLINE,
        forall|j: int| 0 <= j < k ==> s[j] != NEWLINE,
    ensures
        first_newline(s) == k,
    decreases k,
{
    if k > 0 {
        lemma_first_newline(s.skip(1), k - 1);
    }
}

impl View for LineChannel {
    type V = Seq<u8>;

    closed spec fn view(&self) -> Seq<u8> {
        self.buf@
    }
}

impl LineChannel {
    /// The buffer never stores a line terminator.
    pub open spec fn wf(&self) -> bool {
        forall|j: int| 0 <= j < self@.len() ==> self@[j] != NEWLINE
    }

    /// A fresh channel with nothing accumulated.
    pub fn new() -> (c: LineChannel)
        ensures
            c@ == Seq::<u8>::empty(),
            c.wf(),
    {
        LineChannel { buf: Vec::new() }
    }

    /// Feeds one read event into the channel. A newline byte completes the
    /// accumulated line and empties the buffer; any other byte is appended;
    /// a timeout yields `NoLine` with the buffer kept, so the caller can
    /// poll again; a non-timeout read failure is fatal and reported as
    /// `Failed`, the channel's serial read error.
    pub fn on_event(&mut self, ev: ReadEvent) -> (r: LineStep)
        requires
            old(self).wf(),
        ensures
            final(self).wf(),
            ev matches ReadEvent::Byte(b) ==> (if b == NEWLINE {
                &&& r matches LineStep::Line(l)
                &&& l@ == old(self)@
                &&& final(self)@ == Seq::<u8>::empty()
            } else {
                r is Pending && final(self)@ == old(self)@.push(b)
            }),
            ev is Timeout ==> r is NoLine && final(self)@ == old(self)@,
            ev is Failure ==> r is Failed && final(self)@ == old(self)@,
    {
        match ev {
            ReadEvent::Byte(b) => {
                if b == NEWLINE {
                    let mut out: Vec<u8> = Vec::new();
                    core::mem::swap(&mut out, &mut self.buf);
                    LineStep::Line(out)
                } else {
                    self.buf.push(b);
                    proof {
                        assert forall|j: int| 0 <= j < self@.len() implies self@[j] != NEWLINE by {
                            if j < old(self)@.len() {
                                assert(self@[j] == old(self)@[j]);
                            }
                        }
                    }
                    LineStep::Pending
                }
            },
            ReadEvent::Timeout => LineStep::NoLine,
            ReadEvent::Failure => LineStep::Failed,
        }
    }

    /// Feeds a whole byte sequence, stopping at the first completed line:
    /// for any input whose concatenation with the pending bytes holds a
    /// newline, the returned line is exactly the bytes preceding the first
    /// one, verbatim, carriage returns included.
    pub fn read_line_from(&mut self, bytes: &Vec<u8>) -> (r: Option<Vec<u8>>)
        requires
            old(self).wf(),
        ensures
            final(self).wf(),
            has_newline(old(self)@ + bytes@) ==> ({
                &&& r matches Some(l)
                &&& l@ == (old(self)@ + bytes@).take(first_newline(old(self)@ + bytes@))
                &&& final(self)@ == Seq::<u8>::empty()
            }),
            !has_newline(old(self)@ + bytes@) ==> r is None && final(self)@ == old(self)@ + bytes@,
    {
        let ghost full = old(self)@ + bytes@;
        let ghost olen = old(self)@.len() as int;
        let mut i: usize = 0;
        while i < bytes.len()
            invariant
                i <= bytes.len(),
                self.wf(),
                self@ == full.take(olen + i),
                full == old(self)@ + bytes@,
                olen == old(self)@.len(),
            decreases bytes.len() - i,
        {
            let b = bytes[i];
            assert(full[olen + i] == b);
            let ghost pre = self@;
            let step = self.on_event(ReadEvent::Byte(b));
            match step {
                LineStep::Line(l) => {
                    proof {
                        assert forall|j: int| 0 <= j < olen + i implies full[j] != NEWLINE by {
                            assert(pre[j] == full[j]);
                        }
                        lemma_first_newline(full, olen + i);
                    }
                    return Some(l);
                },
                _ => {},
            }
            i = i + 1;
        }
        proof {
            assert(full.take(olen + bytes@.len() as int) =~= full);
        }
        None
    }
}

} // verus!
