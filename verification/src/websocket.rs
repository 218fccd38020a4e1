//! The client's end of the transport, as far as sending goes: a bounded
//! queue of frames that wait for the transport. A frame leaves the queue
//! only when the transport is open, in the order in which it came; a frame
//! that finds the queue full is handed back to its sender and never
//! dropped.

use vstd::prelude::*;
use std::collections::VecDeque;
use crate::messages::{Frame, Messages};

verus! {

/// The sending side of a client's connection to the server.
#[derive(Debug)]
pub struct ServerSignalWebSocket {
    open: bool,
    capacity: usize,
    delayed_msgs: VecDeque<Messages>,
}

/// What a [`ServerSignalWebSocket`] holds.
pub struct TransportView {
    /// Whether the transport is open.
    pub open: bool,
    /// How many frames may wait at once.
    pub capacity: nat,
    /// The frames that wait, oldest first.
    pub delayed: Seq<Frame>,
}

/// A run of frames, each by what it says.
pub open spec fn frames_view(frames: Seq<Messages>) -> Seq<Frame> {
    frames.map_values(|frame: Messages| frame@)
}

impl View for ServerSignalWebSocket {
    type V = TransportView;

    closed spec fn view(&self) -> TransportView {
        TransportView {
            open: self.open,
            capacity: self.capacity as nat,
            delayed: frames_view(self.delayed_msgs@),
        }
    }
}

impl ServerSignalWebSocket {
    /// A transport that is not open yet, with nothing waiting and room for
    /// `capacity` frames.
    pub fn new(capacity: usize) -> (socket: ServerSignalWebSocket)
        ensures
            socket@ == (TransportView {
                open: false,
                capacity: capacity as nat,
                delayed: Seq::<Frame>::empty(),
            }),
    {
        let socket = ServerSignalWebSocket { open: false, capacity, delayed_msgs: VecDeque::new() };
        proof {
            assert(socket@.delayed =~= Seq::<Frame>::empty());
        }
        socket
    }

    /// Whether the transport is open.
    pub fn is_open(&self) -> (open: bool)
        ensures
            open == self@.open,
    {
        self.open
    }

    /// How many frames wait.
    pub fn len(&self) -> (waiting: usize)
        ensures
            waiting == self@.delayed.len(),
    {
        self.delayed_msgs.len()
    }

    /// Sends a frame: it joins the end of the queue, whether or not the
    /// transport is open. Where the queue is full the frame is handed back
    /// and nothing changes: the sender has to wait for room and send again.
    pub fn send(&mut self, msg: Messages) -> (res: Result<(), Messages>)
        ensures
            res is Ok <==> old(self)@.delayed.len() < old(self)@.capacity,
            res is Ok ==> final(self)@ == (TransportView {
                delayed: old(self)@.delayed.push(msg@),
                ..old(self)@
            }),
            res is Err ==> res->Err_0@ == msg@ && final(self)@ == old(self)@,
    {
        if self.delayed_msgs.len() < self.capacity {
            let ghost frame = msg@;
            self.delayed_msgs.push_back(msg);
            proof {
                assert(self@.delayed =~= old(self)@.delayed.push(frame));
            }
            Ok(())
        } else {
            Err(msg)
        }
    }

    /// The frame that the transport writes next: the oldest one that waits,
    /// which leaves the queue. Nothing where the transport is not open or
    /// no frame waits.
    pub fn next(&mut self) -> (frame: Option<Messages>)
        ensures
            frame is Some <==> old(self)@.open && old(self)@.delayed.len() > 0,
            frame is Some ==> frame->0@ == old(self)@.delayed.first() && final(self)@ == (
            TransportView { delayed: old(self)@.delayed.drop_first(), ..old(self)@ }),
            frame is None ==> final(self)@ == old(self)@,
    {
        if !self.open {
            return None;
        }
        let frame = self.delayed_msgs.pop_front();
        proof {
            if frame is Some {
                assert(self@.delayed =~= old(self)@.delayed.drop_first());
            }
        }
        frame
    }

    /// The transport has opened: frames may leave from now on.
    pub fn open(&mut self)
        ensures
            final(self)@ == (TransportView { open: true, ..old(self)@ }),
    {
        self.open = true;
    }

    /// The transport has dropped: frames wait again from now on. What was
    /// waiting already keeps its place.
    pub fn close(&mut self)
        ensures
            final(self)@ == (TransportView { open: false, ..old(self)@ }),
    {
        self.open = false;
    }
}

} // verus!
