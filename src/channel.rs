//! The command channel from the foreground to the I/O loop: an ordered queue
//! that never blocks its sender and says so when the loop has stopped.
use vstd::prelude::*;

use std::collections::VecDeque;

verus! {

/// What the foreground asks of the I/O loop.
pub enum Command {
    /// Bytes to write to the process, such as keystrokes.
    Input(Vec<u8>),
    /// A new grid and terminal size.
    Resize { columns: u16, rows: u16 },
    /// Stop writing, flush what was read, then stop.
    Shutdown,
}

/// Why a command was not queued.
#[derive(Clone, Copy, Debug, PartialEq, Eq, Structural)]
pub enum ChannelError {
    /// A shutdown was queued or the I/O loop has stopped: nothing more
    /// will be written to the process.
    Closed,
    /// A resize below the engine's minimum of two columns and one row.
    TooSmall,
}

/// The commands of `q` that are not input, in their order.
pub open spec fn without_input(q: Seq<Command>) -> Seq<Command>
    decreases q.len(),
{
    if q.len() == 0 {
        Seq::empty()
    } else if q.last() is Input {
        without_input(q.drop_last())
    } else {
        without_input(q.drop_last()).push(q.last())
    }
}

/// The queue `q` once `cmd` is queued: a shutdown drops the input still
/// waiting, so that nothing is written once it was sent; any other command
/// goes behind the rest.
pub open spec fn queued_after(q: Seq<Command>, cmd: Command) -> Seq<Command> {
    if cmd is Shutdown {
        without_input(q).push(cmd)
    } else {
        q.push(cmd)
    }
}

/// Once a shutdown was queued, no input waits in the queue: whatever was
/// queued before, the loop is handed no more bytes to write.
pub proof fn lemma_shutdown_leaves_no_input(q: Seq<Command>)
    ensures
        forall|i: int|
            0 <= i < queued_after(q, Command::Shutdown).len() ==> !(
            #[trigger] queued_after(q, Command::Shutdown)[i] is Input),
{
    lemma_without_input_has_none(q);
}

proof fn lemma_without_input_has_none(q: Seq<Command>)
    ensures
        forall|i: int| 0 <= i < without_input(q).len() ==> !(#[trigger] without_input(q)[i] is Input),
    decreases q.len(),
{
    if q.len() > 0 {
        lemma_without_input_has_none(q.drop_last());
    }
}

/// A first-in first-out queue of commands. Sending only appends, so it
/// returns at once in every state. A shutdown is the last command taken:
/// queuing it drops the input still waiting, and once one is queued, or the
/// loop has stopped, every command is refused.
pub struct CommandChannel {
    queue: VecDeque<Command>,
    closed: bool,
}

impl CommandChannel {
    /// The commands waiting, oldest first.
    pub closed spec fn pending(&self) -> Seq<Command> {
        self.queue@
    }

    /// Whether the channel refuses new commands.
    pub closed spec fn is_closed_spec(&self) -> bool {
        self.closed
    }

    /// An open channel with nothing waiting.
    pub fn new() -> (r: CommandChannel)
        ensures
            r.pending() == Seq::<Command>::empty(),
            !r.is_closed_spec(),
    {
        CommandChannel { queue: VecDeque::new(), closed: false }
    }

    /// Queues `cmd` behind every command sent before it, or reports that
    /// the channel is closed and leaves it as it was. Queuing a shutdown
    /// drops the waiting input and closes the channel.
    pub fn send(&mut self, cmd: Command) -> (r: Result<(), ChannelError>)
        ensures
            final(self).is_closed_spec() == (old(self).is_closed_spec() || cmd is Shutdown),
            old(self).is_closed_spec() ==> r == Err::<(), ChannelError>(ChannelError::Closed)
                && final(self).pending() == old(self).pending(),
            !old(self).is_closed_spec() ==> r == Ok::<(), ChannelError>(())
                && final(self).pending() == queued_after(old(self).pending(), cmd),
    {
        if self.closed {
            Err(ChannelError::Closed)
        } else {
            let shutdown = match &cmd {
                Command::Shutdown => true,
                _ => false,
            };
            if shutdown {
                self.drop_input();
            }
            self.queue.push_back(cmd);
            self.closed = shutdown;
            Ok(())
        }
    }

    fn drop_input(&mut self)
        ensures
            final(self).pending() == without_input(old(self).pending()),
            final(self).is_closed_spec() == old(self).is_closed_spec(),
    {
        let ghost q = self.queue@;
        let ghost was_closed = self.closed;
        let n = self.queue.len();
        let mut kept: VecDeque<Command> = VecDeque::new();
        let mut i: usize = 0;
        while i < n
            invariant
                q.len() == n,
                self.closed == was_closed,
                0 <= i <= n,
                self.queue@ == q.subrange(i as int, n as int),
                kept@ == without_input(q.take(i as int)),
            decreases n - i,
        {
            let c = self.queue.pop_front().unwrap();
            proof {
                assert(c == q[i as int]);
                assert(q.take(i as int + 1).drop_last() =~= q.take(i as int));
                assert(q.take(i as int + 1).last() == c);
            }
            let input = match &c {
                Command::Input(_) => true,
                _ => false,
            };
            if !input {
                kept.push_back(c);
            }
            i = i + 1;
        }
        assert(q.take(n as int) =~= q);
        self.queue = kept;
    }

    /// Takes the oldest waiting command, if any.
    pub fn recv(&mut self) -> (r: Option<Command>)
        ensures
            final(self).is_closed_spec() == old(self).is_closed_spec(),
            old(self).pending().len() == 0 ==> r.is_none() && final(self).pending()
                == old(self).pending(),
            old(self).pending().len() > 0 ==> r == Some(old(self).pending()[0])
                && final(self).pending() == old(self).pending().drop_first(),
    {
        self.queue.pop_front()
    }

    /// Closes the channel once the loop has stopped: what waits is dropped
    /// and later sends fail.
    pub fn close(&mut self)
        ensures
            final(self).is_closed_spec(),
            final(self).pending() == Seq::<Command>::empty(),
    {
        self.queue.clear();
        self.closed = true;
    }

    /// Whether the channel is closed.
    pub fn is_closed(&self) -> (r: bool)
        ensures
            r == self.is_closed_spec(),
    {
        self.closed
    }

    /// Number of commands waiting.
    pub fn len(&self) -> (r: usize)
        ensures
            r == self.pending().len(),
    {
        self.queue.len()
    }
}

} // verus!
