//! The command channel between the host and the monitor.
//!
//! A transaction is one privileged call: five words go out, five come back.
//! The first outgoing word is always [`Code::RequestComplete`]; the other four
//! are the reply to the previous request, drained from the [`Sender`]. The
//! first incoming word is the opcode of the next request, the other four its
//! arguments.

use crate::communication::{Error, ErrorKind};
use crate::rmi::code::{Code, RMM_REQ_COMPLETE};
use vstd::prelude::*;

verus! {

/// The argument words of one request.
pub type Argument = [usize; 4];

/// One reply word.
pub type Return = usize;

/// One message of the privileged call, in either direction.
pub type Message = [usize; 5];

/// How many reply words one transaction carries.
pub const CAPACITY: usize = 4;

/// Whether a queue of reply words has room for one more.
pub open spec fn accepts(queue: Seq<Return>) -> bool {
    queue.len() < CAPACITY
}

/// The queue after an attempt to append `value`: a full queue stays as it is.
pub open spec fn pushed(queue: Seq<Return>, value: Return) -> Seq<Return> {
    if accepts(queue) {
        queue.push(value)
    } else {
        queue
    }
}

/// The four words that draining a queue hands out: the queued words in the
/// order they were pushed, then zeros.
pub open spec fn flushed(queue: Seq<Return>) -> Seq<Return> {
    Seq::new(
        CAPACITY as nat,
        |i: int|
            if i < queue.len() {
                queue[i]
            } else {
                0
            },
    )
}

/// The message that goes out when `queue` holds the pending reply.
pub open spec fn outgoing_message(queue: Seq<Return>) -> Seq<usize> {
    seq![RMM_REQ_COMPLETE] + flushed(queue)
}

/// The bounded queue of reply words for the transaction in progress. It has
/// one owner at a time, so a push and a pop never overlap.
#[derive(Debug)]
pub struct Sender {
    count: usize,
    data: [Return; 4],
}

impl View for Sender {
    type V = Seq<Return>;

    /// The queued words, oldest first.
    closed spec fn view(&self) -> Seq<Return> {
        self.data@.subrange(0, self.count as int)
    }
}

impl Sender {
    #[verifier::type_invariant]
    spec fn inv(self) -> bool {
        &&& self.count <= CAPACITY
        &&& forall|i: int| self.count <= i < CAPACITY ==> self.data[i] == 0
    }

    /// An empty queue.
    pub fn new() -> (sender: Sender)
        ensures
            sender@ == Seq::<Return>::empty(),
    {
        Sender { count: 0, data: [0, 0, 0, 0] }
    }

    /// How many words are queued: never more than [`CAPACITY`].
    pub fn len(&self) -> (n: usize)
        ensures
            n == self@.len(),
            n <= CAPACITY,
    {
        proof {
            use_type_invariant(self);
        }
        self.count
    }

    /// Drains the queue: hands out four words, the queued ones in push order
    /// and zeros after them, and leaves the queue empty.
    pub fn pop(&mut self) -> (words: [Return; 4])
        ensures
            words@ == flushed(old(self)@),
            final(self)@ == Seq::<Return>::empty(),
    {
        proof {
            use_type_invariant(&*self);
        }
        let words = self.data;
        *self = Sender { count: 0, data: [0, 0, 0, 0] };
        words
    }

    /// Appends one word if fewer than four are queued. A full queue refuses
    /// the word with [`ErrorKind::StorageFull`] and stays as it was.
    pub fn push(&mut self, data: Return) -> (r: Result<(), Error>)
        ensures
            r is Ok <==> accepts(old(self)@),
            r matches Err(e) ==> e.kind() == ErrorKind::StorageFull,
            final(self)@ == pushed(old(self)@, data),
    {
        proof {
            use_type_invariant(&*self);
        }
        let pos = self.count;
        if pos < 4 {
            let mut words = self.data;
            words[pos] = data;
            *self = Sender { count: pos + 1, data: words };
            Ok(())
        } else {
            Err(Error::new(ErrorKind::StorageFull))
        }
    }

    /// Queues one reply word; the same as [`Sender::push`].
    pub fn send(&mut self, event: Return) -> (r: Result<(), Error>)
        ensures
            r is Ok <==> accepts(old(self)@),
            r matches Err(e) ==> e.kind() == ErrorKind::StorageFull,
            final(self)@ == pushed(old(self)@, event),
    {
        self.push(event)
    }
}

/// One request of the host: its opcode and its four argument words.
#[derive(Debug)]
pub struct Call {
    code: Code,
    argument: Argument,
}

impl Call {
    pub closed spec fn spec_code(&self) -> &Code {
        &self.code
    }

    pub closed spec fn spec_argument(&self) -> &Argument {
        &self.argument
    }

    pub fn new(code: Code, argument: Argument) -> (call: Call)
        ensures
            *call.code() == code,
            *call.argument() == argument,
    {
        Call { code, argument }
    }

    /// The opcode of the request.
    #[verifier::when_used_as_spec(spec_code)]
    pub fn code(&self) -> (code: &Code)
        ensures
            code == self.spec_code(),
    {
        &self.code
    }

    /// The argument words of the request.
    #[verifier::when_used_as_spec(spec_argument)]
    pub fn argument(&self) -> (argument: &Argument)
        ensures
            argument == self.spec_argument(),
    {
        &self.argument
    }

    /// Queues one word of the reply to this request on `sink`, the sender of
    /// the receiver that handed the request out. The word goes out with the
    /// next transaction.
    pub fn reply(&self, sink: &mut Sender, result: Return) -> (r: Result<(), Error>)
        ensures
            r is Ok <==> accepts(old(sink)@),
            r matches Err(e) ==> e.kind() == ErrorKind::StorageFull,
            final(sink)@ == pushed(old(sink)@, result),
    {
        sink.send(result)
    }
}

/// The request that a response of the host stands for.
pub open spec fn decoded(response: Seq<usize>, call: Call) -> bool {
    &&& *call.code() == Code::of_word(response[0])
    &&& call.argument()@ == response.subrange(1, 5)
}

/// The receiving side of the channel. It owns the [`Sender`] on which the
/// reply to the request in progress is queued.
#[derive(Debug)]
pub struct Receiver {
    pub sender: Sender,
}

impl Receiver {
    /// A receiver with nothing queued.
    pub fn new() -> (receiver: Receiver)
        ensures
            receiver.sender@ == Seq::<Return>::empty(),
    {
        Receiver { sender: Sender::new() }
    }

    /// Builds the message of the next transaction and drains the sender:
    /// the request-complete word, then the queued reply words, then zeros.
    pub fn outgoing(&mut self) -> (message: Message)
        ensures
            message@ == outgoing_message(old(self).sender@),
            final(self).sender@ == Seq::<Return>::empty(),
    {
        let words = self.sender.pop();
        let message = [usize::from(Code::RequestComplete), words[0], words[1], words[2], words[3]];
        message
    }

    /// Reads the host's response as the next request.
    pub fn decode(response: Message) -> (call: Call)
        ensures
            decoded(response@, call),
    {
        let argument = [response[1], response[2], response[3], response[4]];
        assert(argument@ =~= response@.subrange(1, 5));
        Call::new(Code::from(response[0]), argument)
    }

    /// One transaction: sends what [`Receiver::outgoing`] builds through
    /// `transport`, which performs the privileged call, and decodes what
    /// comes back. Words queued before this call go out with it; the sender
    /// is empty afterwards, so words queued later go out with the next one.
    pub fn recv<F: FnOnce(Message) -> Message>(&mut self, transport: F) -> (r: Result<Call, Error>)
        requires
            forall|message: Message|
                message@ == outgoing_message(old(self).sender@) ==> call_requires(
                    transport,
                    (message,),
                ),
        ensures
            final(self).sender@ == Seq::<Return>::empty(),
            r matches Ok(call) && exists|message: Message, response: Message|
                {
                    &&& message@ == outgoing_message(old(self).sender@)
                    &&& call_ensures(transport, (message,), response)
                    &&& decoded(response@, call)
                },
    {
        let message = self.outgoing();
        let response = transport(message);
        Ok(Receiver::decode(response))
    }
}

/// A transaction carries exactly what was queued before it, in push order
/// and zero-filled; with nothing queued it carries zeros.
pub proof fn lemma_hand_off(queue: Seq<Return>)
    requires
        queue.len() <= CAPACITY,
    ensures
        outgoing_message(queue).len() == 5,
        outgoing_message(queue)[0] == RMM_REQ_COMPLETE,
        forall|i: int|
            1 <= i <= queue.len() ==> #[trigger] outgoing_message(queue)[i] == queue[i - 1],
        forall|i: int| queue.len() < i <= CAPACITY ==> #[trigger] outgoing_message(queue)[i] == 0,
        outgoing_message(Seq::empty()) == seq![RMM_REQ_COMPLETE, 0, 0, 0, 0],
{
}

/// Starting from an empty queue, four pushes are accepted and queue their
/// words in order; the fifth is refused and changes nothing; draining then
/// hands out the four words in push order. Draining an empty queue hands out
/// four zeros.
pub proof fn lemma_sender_bounds(a: Return, b: Return, c: Return, d: Return, e: Return)
    ensures
        ({
            let q0 = Seq::<Return>::empty();
            let q1 = pushed(q0, a);
            let q2 = pushed(q1, b);
            let q3 = pushed(q2, c);
            let q4 = pushed(q3, d);
            &&& accepts(q0) && accepts(q1) && accepts(q2) && accepts(q3)
            &&& q4 == seq![a, b, c, d]
            &&& !accepts(q4)
            &&& pushed(q4, e) == q4
            &&& flushed(q4) == seq![a, b, c, d]
            &&& flushed(q0) == seq![0usize, 0, 0, 0]
        }),
{
}

} // verus!
