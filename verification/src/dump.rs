//! The dump channel: draining a blocking diagnostic dump.
//!
//! A dump callback writes human-readable diagnostics to a byte sink on a
//! native thread and blocks until the sink accepts them. The caller that
//! wants the output as one value therefore pairs the sink with a drain
//! running concurrently, and joins the drain once the callback has
//! returned. [`DumpChannel`] is that pair's shared state: bytes written
//! so far and whether the write end has been closed. End-of-stream is
//! exactly the closed state, so the drain result is complete — it is every
//! byte the callback wrote — precisely because the channel is closed only
//! after the callback has returned. On a failure the write end must still
//! be closed, or the drain would wait forever; [`DumpChannel::finish`]
//! closes it on every path.

use crate::status::BinderStatus;
use vstd::prelude::*;

verus! {

/// The state shared between a dump callback (the writer) and the drain
/// that collects its output (the reader).
#[derive(Debug)]
pub struct DumpChannel {
    buf: Vec<u8>,
    closed: bool,
}

impl DumpChannel {
    /// Every byte written into the channel so far, in order.
    pub closed spec fn contents(&self) -> Seq<u8> {
        self.buf@
    }

    /// Whether the write end has been closed (end-of-stream for the drain).
    pub closed spec fn is_closed(&self) -> bool {
        self.closed
    }

    /// An open, empty channel.
    pub fn new() -> (r: DumpChannel)
        ensures
            r.contents() == Seq::<u8>::empty(),
            !r.is_closed(),
    {
        DumpChannel { buf: Vec::new(), closed: false }
    }

    /// Writes one chunk from the dump callback into the channel.
    pub fn write_chunk(&mut self, chunk: &Vec<u8>)
        requires
            !old(self).is_closed(),
        ensures
            final(self).contents() == old(self).contents() + chunk@,
            !final(self).is_closed(),
    {
        let ghost orig: Seq<u8> = self.buf@;
        let n = chunk.len();
        let mut i: usize = 0;
        proof {
            assert(orig + chunk@.subrange(0, 0) =~= orig);
        }
        while i < n
            invariant
                i <= n,
                n == chunk@.len(),
                self.buf@ == orig + chunk@.subrange(0, i as int),
                !self.closed,
            decreases n - i,
        {
            self.buf.push(chunk[i]);
            i = i + 1;
            proof {
                assert(self.buf@ =~= orig + chunk@.subrange(0, i as int));
            }
        }
        proof {
            assert(orig + chunk@.subrange(0, n as int) =~= orig + chunk@);
        }
    }

    /// Closes the write end. The drain observes end-of-stream once this
    /// has happened; the contents are frozen.
    pub fn close(&mut self)
        ensures
            final(self).is_closed(),
            final(self).contents() == old(self).contents(),
    {
        self.closed = true;
    }

    /// Completes a dump whose callback has returned `status`: closes the
    /// write end — on the failure path just as on the success path, so the
    /// drain is never left waiting — and surfaces the callback's failure,
    /// if any, to the caller.
    pub fn finish(&mut self, status: BinderStatus) -> (r: Result<(), BinderStatus>)
        ensures
            final(self).is_closed(),
            final(self).contents() == old(self).contents(),
            status == BinderStatus::Success ==> r == Ok::<(), BinderStatus>(()),
            status != BinderStatus::Success ==> r == Err::<(), BinderStatus>(status),
    {
        self.close();
        if status.is_success() {
            Ok(())
        } else {
            Err(status)
        }
    }

    /// Joins the drain: hands over everything the callback wrote. Only
    /// meaningful once the write end is closed — before that the drain
    /// would still be blocked waiting for more bytes.
    pub fn drain(self) -> (r: Vec<u8>)
        requires
            self.is_closed(),
        ensures
            r@ == self.contents(),
    {
        self.buf
    }
}

/// Whether `s` may be passed as one dump argument: argument strings cross
/// the boundary null-terminated, so an interior zero byte is not
/// representable.
pub open spec fn is_valid_dump_arg(s: Seq<u8>) -> bool {
    forall|j: int| 0 <= j < s.len() ==> s[j] != 0
}

/// Whether every element of `args` may be passed as a dump argument.
pub open spec fn are_valid_dump_args(args: Seq<Seq<u8>>) -> bool {
    forall|k: int| 0 <= k < args.len() ==> is_valid_dump_arg(#[trigger] args[k])
}

/// Decides [`are_valid_dump_args`].
pub fn check_dump_args(args: &Vec<Vec<u8>>) -> (r: bool)
    ensures
        r == are_valid_dump_args(args@.map_values(|a: Vec<u8>| a@)),
{
    let ghost view_args: Seq<Seq<u8>> = args@.map_values(|a: Vec<u8>| a@);
    let n = args.len();
    let mut k: usize = 0;
    while k < n
        invariant
            k <= n,
            n == args@.len(),
            view_args == args@.map_values(|a: Vec<u8>| a@),
            forall|t: int| 0 <= t < k ==> is_valid_dump_arg(#[trigger] view_args[t]),
        decreases n - k,
    {
        let arg = &args[k];
        let m = arg.len();
        let mut j: usize = 0;
        while j < m
            invariant
                j <= m,
                k < n,
                n == args@.len(),
                m == arg@.len(),
                arg@ == args@[k as int]@,
                view_args == args@.map_values(|a: Vec<u8>| a@),
                forall|t: int| 0 <= t < j ==> arg@[t] != 0,
            decreases m - j,
        {
            if arg[j] == 0 {
                proof {
                    assert(view_args[k as int] == arg@);
                    assert(!is_valid_dump_arg(view_args[k as int]));
                }
                return false;
            }
            j = j + 1;
        }
        proof {
            assert(view_args[k as int] == arg@);
            assert(is_valid_dump_arg(view_args[k as int]));
        }
        k = k + 1;
    }
    true
}

} // verus!
