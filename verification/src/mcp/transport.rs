//! What both transports share: how a message is framed as a line, and the
//! queue in which outgoing lines wait for the writer.
//!
//! The subprocess transport carries one JSON document per line. Senders put
//! their lines in a bounded queue, so that they are not held up by a slow
//! child process; one writer takes the lines out in the order in which they
//! were put in. Before the process is torn down the queue is drained, so
//! that no accepted line is lost.
use crate::json::json_text;
use crate::mcp::types::{JsonRpcNotification, JsonRpcRequest};
use crate::mcp::wire::{notification_text, request_text};
use crate::text::join;
use std::collections::VecDeque;
use vstd::prelude::*;

verus! {

/// How many lines the queue of a subprocess transport holds.
pub const OUTBOUND_QUEUE_CAPACITY: usize = 100;

/// A text as one line: the text and a line feed.
pub open spec fn framed(text: Seq<char>) -> Seq<char> {
    text + "\n"@
}

/// Frames a text as one line.
pub fn frame_line(text: &str) -> (r: String)
    ensures
        r@ == framed(text@),
{
    join(text, "\n")
}

/// One request as a line: its JSON text, framed. There is always a line.
pub fn request_line(request: &JsonRpcRequest) -> (r: Option<String>)
    ensures
        r matches Some(line) && line@ == framed(json_text(request.encoding())),
{
    match request_text(request) {
        Some(text) => Some(frame_line(text.as_str())),
        None => None,
    }
}

/// One notification as a line: its JSON text, framed. There is always a line.
pub fn notification_line(notification: &JsonRpcNotification) -> (r: Option<String>)
    ensures
        r matches Some(line) && line@ == framed(json_text(notification.encoding())),
{
    match notification_text(notification) {
        Some(text) => Some(frame_line(text.as_str())),
        None => None,
    }
}

/// The queue of the lines that wait to be written, oldest first.
pub struct OutboundQueue {
    capacity: usize,
    lines: VecDeque<String>,
}

impl OutboundQueue {
    /// The lines that wait, oldest first.
    pub closed spec fn lines(&self) -> Seq<String> {
        self.lines@
    }

    /// How many lines the queue holds at most.
    pub closed spec fn capacity(&self) -> usize {
        self.capacity
    }

    /// What holds of every queue: it holds no more lines than its capacity.
    pub open spec fn wf(&self) -> bool {
        self.lines().len() <= self.capacity()
    }

    /// An empty queue of a capacity.
    pub fn new(capacity: usize) -> (r: Self)
        ensures
            r.wf(),
            r.capacity() == capacity,
            r.lines().len() == 0,
    {
        Self { capacity, lines: VecDeque::new() }
    }

    pub fn len(&self) -> (r: usize)
        ensures
            r == self.lines().len(),
    {
        self.lines.len()
    }

    pub fn is_full(&self) -> (r: bool)
        ensures
            r == (self.lines().len() >= self.capacity()),
    {
        self.lines.len() >= self.capacity
    }

    /// Puts a line at the end of the queue. A full queue takes nothing and
    /// hands the line back: the sender has to wait.
    pub fn push(&mut self, line: String) -> (r: Result<(), String>)
        requires
            old(self).wf(),
        ensures
            final(self).wf(),
            final(self).capacity() == old(self).capacity(),
            match r {
                Ok(_) => old(self).lines().len() < old(self).capacity() && final(self).lines()
                    == old(self).lines().push(line),
                Err(back) => old(self).lines().len() >= old(self).capacity() && back == line
                    && final(self).lines() == old(self).lines(),
            },
    {
        if self.lines.len() >= self.capacity {
            return Err(line);
        }
        self.lines.push_back(line);
        Ok(())
    }

    /// Takes the oldest line out of the queue.
    pub fn pop(&mut self) -> (r: Option<String>)
        requires
            old(self).wf(),
        ensures
            final(self).wf(),
            final(self).capacity() == old(self).capacity(),
            match r {
                Some(line) => old(self).lines().len() > 0 && line == old(self).lines()[0]
                    && final(self).lines() == old(self).lines().subrange(
                    1,
                    old(self).lines().len() as int,
                ),
                None => old(self).lines().len() == 0 && final(self).lines().len() == 0,
            },
    {
        self.lines.pop_front()
    }

    /// Empties the queue and hands out its lines, oldest first, to be
    /// written before the transport is torn down.
    pub fn drain(&mut self) -> (r: Vec<String>)
        requires
            old(self).wf(),
        ensures
            final(self).wf(),
            final(self).capacity() == old(self).capacity(),
            final(self).lines().len() == 0,
            r@ == old(self).lines(),
    {
        let mut taken: Vec<String> = Vec::new();
        let ghost before = self.lines@;
        while self.lines.len() > 0
            invariant
                self.capacity == old(self).capacity,
                taken@ + self.lines@ == before,
                before == old(self).lines@,
            decreases self.lines.len(),
        {
            let ghost rest = self.lines@;
            match self.lines.pop_front() {
                Some(line) => {
                    taken.push(line);
                    assert(taken@ + self.lines@ =~= before) by {
                        assert(rest =~= seq![line] + self.lines@);
                    }
                },
                None => {},
            }
        }
        assert(taken@ =~= before);
        taken
    }
}

} // verus!
