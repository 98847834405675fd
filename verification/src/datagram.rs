//! Fixed-size datagram framing: each datagram must carry exactly
//! `frame_size` raw bytes. Datagrams are atomic, so a short read is a real
//! framing mismatch and always an error, unlike the stream path's
//! stall-tolerance. A burst read collects up to `n` frames, stopping early
//! without error at the first timeout and failing at once on anything else.
//! The embedding program owns the socket and feeds each receive outcome in
//! as an event.

use vstd::prelude::*;

verus! {

/// Errors of the datagram frame reader.
#[derive(Debug, PartialEq)]
pub enum UDPError {
    /// An underlying socket failure other than a read timeout, described by
    /// its message.
    SocketError(String),
    /// The socket timed out before a datagram arrived.
    Timeout,
    /// A datagram carried `received` bytes where exactly `expected` were
    /// owed.
    IncompleteFrame { expected: usize, received: usize },
}

/// The outcome of one datagram receive, as the embedding program saw it.
pub enum RecvEvent {
    /// A datagram arrived with these bytes.
    Data(Vec<u8>),
    /// The read timed out before a datagram arrived.
    TimedOut,
    /// The socket failed, with this message.
    Failed(String),
}

/// Accept a received datagram if and only if it carries exactly
/// `frame_size` bytes; any other count is an `IncompleteFrame` mismatch,
/// never a padded or truncated result.
pub fn accept_frame(frame_size: usize, data: Vec<u8>) -> (r: Result<Vec<u8>, UDPError>)
    ensures
        (data@.len() == frame_size ==> (r matches Ok(v) && v == data)),
        (data@.len() != frame_size ==> (r matches Err(e)
            && e matches UDPError::IncompleteFrame { expected: ex, received: rc } && ex
            == frame_size && rc == data@.len())),
{
    if data.len() == frame_size {
        Ok(data)
    } else {
        Err(UDPError::IncompleteFrame { expected: frame_size, received: data.len() })
    }
}

/// The result of a single-frame read, for every receive outcome: exactly
/// `frame_size` bytes are the frame; a timeout and a socket failure are
/// errors; any other byte count is an `IncompleteFrame` mismatch.
pub fn frame_result(frame_size: usize, ev: RecvEvent) -> (r: Result<Vec<u8>, UDPError>)
    ensures
        (match ev {
            RecvEvent::Data(d) => {
                &&& (d@.len() == frame_size ==> (r matches Ok(v) && v == d))
                &&& (d@.len() != frame_size ==> (r matches Err(e)
                    && e matches UDPError::IncompleteFrame { expected: ex, received: rc } && ex
                    == frame_size && rc == d@.len()))
            },
            RecvEvent::TimedOut => (r matches Err(e) && e matches UDPError::Timeout),
            RecvEvent::Failed(m) => (r matches Err(e) && e matches UDPError::SocketError(m2) && m2@
                == m@),
        }),
{
    match ev {
        RecvEvent::Data(d) => accept_frame(frame_size, d),
        RecvEvent::TimedOut => Err(UDPError::Timeout),
        RecvEvent::Failed(m) => Err(UDPError::SocketError(m)),
    }
}

/// A burst read in progress: up to `want` frames of exactly `frame_size`
/// bytes each.
pub struct FrameCollector {
    /// The byte count every frame must carry.
    pub frame_size: usize,
    /// How many frames the burst asked for.
    pub want: usize,
    /// The frames collected so far.
    pub frames: Vec<Vec<u8>>,
}

/// Every collected frame carries exactly `frame_size` bytes, and no more
/// than `want` are held.
pub open spec fn collector_wf(c: FrameCollector) -> bool {
    &&& c.frames@.len() <= c.want
    &&& forall|i: int| 0 <= i < c.frames@.len() ==> #[trigger] c.frames@[i]@.len() == c.frame_size
}

/// What a burst read should do next.
pub enum CollectStep {
    /// Issue another receive and feed its outcome back in.
    Recv,
    /// The burst is over; take the frames collected so far.
    Finished,
    /// A non-timeout error: the whole burst fails with it at once.
    Fail(UDPError),
}

impl FrameCollector {
    /// Begin a burst read of up to `want` frames of `frame_size` bytes.
    pub fn new(frame_size: usize, want: usize) -> (r: FrameCollector)
        ensures
            collector_wf(r),
            r.frame_size == frame_size,
            r.want == want,
            r.frames@ == Seq::<Vec<u8>>::empty(),
    {
        FrameCollector { frame_size, want, frames: Vec::new() }
    }

    /// Whether the burst still wants another frame.
    pub fn need_more(&self) -> (r: bool)
        ensures
            r == (self.frames@.len() < self.want),
    {
        self.frames.len() < self.want
    }

    /// Feed the outcome of one receive. A full frame is kept, and the burst
    /// goes on until `want` frames are held; a timeout finishes the burst
    /// early, without error; a size mismatch or a socket failure fails it.
    pub fn on_event(&mut self, ev: RecvEvent) -> (r: CollectStep)
        requires
            collector_wf(*old(self)),
            old(self).frames@.len() < old(self).want,
        ensures
            collector_wf(*final(self)),
            final(self).frame_size == old(self).frame_size,
            final(self).want == old(self).want,
            (match ev {
                RecvEvent::Data(d) => {
                    &&& (d@.len() == old(self).frame_size ==> {
                        &&& final(self).frames@ == old(self).frames@.push(d)
                        &&& (final(self).frames@.len() == final(self).want ==> (
                        r matches CollectStep::Finished))
                        &&& (final(self).frames@.len() < final(self).want ==> (
                        r matches CollectStep::Recv))
                    })
                    &&& (d@.len() != old(self).frame_size ==> (r matches CollectStep::Fail(e)
                        && e matches UDPError::IncompleteFrame { expected: ex, received: rc } && ex
                        == old(self).frame_size && rc == d@.len()) && final(self).frames@ == old(
                        self,
                    ).frames@)
                },
                RecvEvent::TimedOut => (r matches CollectStep::Finished) && final(self).frames@
                    == old(self).frames@,
                RecvEvent::Failed(m) => (r matches CollectStep::Fail(e)
                    && e matches UDPError::SocketError(m2) && m2@ == m@) && final(self).frames@
                    == old(self).frames@,
            }),
    {
        match ev {
            RecvEvent::Data(d) => {
                match accept_frame(self.frame_size, d) {
                    Ok(f) => {
                        self.frames.push(f);
                        if self.frames.len() == self.want {
                            CollectStep::Finished
                        } else {
                            CollectStep::Recv
                        }
                    },
                    Err(e) => CollectStep::Fail(e),
                }
            },
            RecvEvent::TimedOut => CollectStep::Finished,
            RecvEvent::Failed(m) => CollectStep::Fail(UDPError::SocketError(m)),
        }
    }

    /// Take the frames collected so far.
    pub fn into_frames(self) -> (r: Vec<Vec<u8>>)
        ensures
            r == self.frames,
    {
        self.frames
    }
}

} // verus!
