//! 0MQ messages: single parts, and multipart messages, with how a multipart message is
//! sent part by part and put together again when received.
use vstd::prelude::*;
use vstd::std_specs::convert::FromSpec;
use vstd::string::{StrSliceExecFns, StringSliceAdditionalSpecFns};
use std::collections::VecDeque;

use crate::error::{error_of_errno, ZmqError, ZmqResult};
use crate::socket::SendFlags;

verus! {

/// The longest group name the runtime accepts (`ZMQ_GROUP_MAX_LENGTH`).
pub const GROUP_MAX_LENGTH: usize = 255;

/// One part of a message: its bytes, whether more parts follow it, and, for the draft
/// socket kinds, the routing id and group it travels with.
#[derive(Debug)]
pub struct Message {
    data: Vec<u8>,
    more: bool,
    routing_id: Option<u32>,
    group: Option<String>,
}

/// The mathematical value of a message part.
pub ghost struct MessageView {
    pub data: Seq<u8>,
    pub more: bool,
    pub routing_id: Option<u32>,
    pub group: Option<Seq<char>>,
}

/// The mathematical value of an optional group name.
pub open spec fn group_view(group: Option<String>) -> Option<Seq<char>> {
    match group {
        Some(g) => Some(g@),
        None => None,
    }
}

impl View for Message {
    type V = MessageView;

    closed spec fn view(&self) -> MessageView {
        MessageView {
            data: self.data@,
            more: self.more,
            routing_id: self.routing_id,
            group: group_view(self.group),
        }
    }
}

impl Message {
    /// An empty message part.
    pub fn new() -> (m: Message)
        ensures
            m@ == (MessageView { data: Seq::empty(), more: false, routing_id: None, group: None }),
    {
        Message { data: Vec::new(), more: false, routing_id: None, group: None }
    }

    /// A message part of `len` zero bytes.
    pub fn with_size(len: usize) -> (r: ZmqResult<Message>)
        ensures
            r matches Ok(m) && m@ == (MessageView {
                data: Seq::new(len as nat, |i: int| 0u8),
                more: false,
                routing_id: None,
                group: None,
            }),
    {
        let mut data: Vec<u8> = Vec::new();
        let mut i: usize = 0;
        while i < len
            invariant
                i <= len,
                data@ == Seq::new(i as nat, |j: int| 0u8),
            decreases len - i,
        {
            data.push(0u8);
            i = i + 1;
            assert(data@ =~= Seq::new(i as nat, |j: int| 0u8));
        }
        Ok(Message { data, more: false, routing_id: None, group: None })
    }

    /// A message part with every property given, as it comes from the runtime.
    pub fn from_parts(data: Vec<u8>, more: bool, routing_id: Option<u32>, group: Option<String>) -> (m: Message)
        ensures
            m@ == (MessageView { data: data@, more, routing_id, group: group_view(group) }),
    {
        Message { data, more, routing_id, group }
    }

    /// The bytes of the message part.
    pub fn bytes(&self) -> (b: Vec<u8>)
        ensures
            b@ == self@.data,
    {
        self.data.clone()
    }

    /// The bytes of the message part, without copying them.
    pub fn as_bytes(&self) -> (b: &[u8])
        ensures
            b@ == self@.data,
    {
        self.data.as_slice()
    }

    /// The length of the message part, in bytes.
    pub fn len(&self) -> (n: usize)
        ensures
            n == self@.data.len(),
    {
        self.data.len()
    }

    /// Whether the message part has no bytes.
    pub fn is_empty(&self) -> (b: bool)
        ensures
            b == (self@.data.len() == 0),
    {
        self.len() == 0
    }

    /// Whether more parts follow this one.
    pub fn get_more(&self) -> (b: bool)
        ensures
            b == self@.more,
    {
        self.more
    }

    /// Sets the routing id, used on server and peer sockets; zero is no routing id and is
    /// an invalid argument.
    pub fn set_routing_id(&mut self, value: u32) -> (r: ZmqResult<()>)
        ensures
            value == 0 ==> r == Err::<(), ZmqError>(ZmqError::InvalidArgument) && final(self)@ == old(self)@,
            value != 0 ==> r == Ok::<(), ZmqError>(()) && final(self)@ == (MessageView { routing_id: Some(value), ..old(self)@ }),
    {
        if value == 0 {
            return Err(ZmqError::InvalidArgument);
        }
        self.routing_id = Some(value);
        Ok(())
    }

    /// The routing id, if the message part has one.
    pub fn routing_id(&self) -> (r: Option<u32>)
        ensures
            r == self@.routing_id,
    {
        self.routing_id
    }

    /// Sets the group, used on radio sockets; a group longer than
    /// [`GROUP_MAX_LENGTH`] bytes, or that holds a zero byte, is an invalid argument.
    pub fn set_group(&mut self, value: &str) -> (r: ZmqResult<()>)
        ensures
            (value.spec_bytes().len() > GROUP_MAX_LENGTH || crate::socket::has_nul(value.spec_bytes()))
                ==> r == Err::<(), ZmqError>(ZmqError::InvalidArgument) && final(self)@ == old(self)@,
            !(value.spec_bytes().len() > GROUP_MAX_LENGTH || crate::socket::has_nul(value.spec_bytes()))
                ==> r == Ok::<(), ZmqError>(()) && final(self)@ == (MessageView { group: Some(value@), ..old(self)@ }),
    {
        let bytes = match crate::socket::c_text(value) {
            Ok(b) => b,
            Err(e) => return Err(e),
        };
        if bytes.len() > GROUP_MAX_LENGTH {
            return Err(ZmqError::InvalidArgument);
        }
        self.group = Some(value.to_owned());
        Ok(())
    }

    /// The group, if the message part has one.
    pub fn group(&self) -> (r: Option<String>)
        ensures
            group_view(r) == self@.group,
    {
        match &self.group {
            Some(g) => Some(g.clone()),
            None => None,
        }
    }
}

impl Default for Message {
    /// An empty message part.
    fn default() -> (m: Message)
        ensures
            m@ == (MessageView { data: Seq::empty(), more: false, routing_id: None, group: None }),
    {
        Message::new()
    }
}

impl Clone for Message {
    /// A copy of the message part.
    fn clone(&self) -> (m: Message)
        ensures
            m@ == self@,
    {
        Message { data: self.data.clone(), more: self.more, routing_id: self.routing_id, group: self.group() }
    }
}

impl From<Vec<u8>> for Message {
    /// A message part with the given bytes.
    fn from(data: Vec<u8>) -> (m: Message) {
        Message { data, more: false, routing_id: None, group: None }
    }
}

impl vstd::std_specs::convert::FromSpecImpl<Vec<u8>> for Message {
    open spec fn obeys_from_spec() -> bool {
        true
    }

    closed spec fn from_spec(data: Vec<u8>) -> Message {
        Message { data, more: false, routing_id: None, group: None }
    }
}

/// A message part made from bytes (`Message::from`) holds exactly those bytes, and has no
/// parts following it, no routing id and no group.
pub proof fn lemma_message_from_bytes(data: Vec<u8>)
    ensures
        <Message as FromSpec<Vec<u8>>>::from_spec(data)@ == (MessageView { data: data@, more: false, routing_id: None, group: None }),
{
}

impl Message {
    /// A message part with the UTF-8 bytes of a text.
    pub fn from_text(text: &str) -> (m: Message)
        ensures
            m@ == (MessageView { data: text.spec_bytes(), more: false, routing_id: None, group: None }),
    {
        Message { data: text.as_bytes_vec(), more: false, routing_id: None, group: None }
    }
}

/// A message of one or more parts.
#[derive(Debug, Default)]
pub struct MultipartMessage {
    inner: VecDeque<Message>,
}

impl View for MultipartMessage {
    type V = Seq<Message>;

    closed spec fn view(&self) -> Seq<Message> {
        self.inner@
    }
}

impl MultipartMessage {
    /// A message without parts.
    pub fn new() -> (m: MultipartMessage)
        ensures
            m@ == Seq::<Message>::empty(),
    {
        MultipartMessage { inner: VecDeque::new() }
    }

    /// The parts, in order.
    pub fn into_inner(self) -> (parts: VecDeque<Message>)
        ensures
            parts@ == self@,
    {
        self.inner
    }

    /// The part at `index`, if there is one.
    pub fn get(&self, index: usize) -> (r: Option<&Message>)
        ensures
            index < self@.len() ==> r == Some(&self@[index as int]),
            index >= self@.len() ==> r is None,
    {
        if index < self.inner.len() {
            Some(&self.inner[index])
        } else {
            None
        }
    }

    /// Removes the first part and gives it back.
    pub fn pop_front(&mut self) -> (r: Option<Message>)
        ensures
            old(self)@.len() == 0 ==> r is None && final(self)@ == old(self)@,
            old(self)@.len() > 0 ==> r == Some(old(self)@[0]) && final(self)@ == old(self)@.drop_first(),
    {
        self.inner.pop_front()
    }

    /// Removes the last part and gives it back.
    pub fn pop_back(&mut self) -> (r: Option<Message>)
        ensures
            old(self)@.len() == 0 ==> r is None && final(self)@ == old(self)@,
            old(self)@.len() > 0 ==> r == Some(old(self)@.last()) && final(self)@ == old(self)@.drop_last(),
    {
        self.inner.pop_back()
    }

    /// Puts a part in front of the others.
    pub fn push_front(&mut self, msg: Message)
        ensures
            final(self)@ == seq![msg] + old(self)@,
    {
        self.inner.push_front(msg);
    }

    /// Puts a part after the others.
    pub fn push_back(&mut self, msg: Message)
        ensures
            final(self)@ == old(self)@.push(msg),
    {
        self.inner.push_back(msg);
    }

    /// Whether the message has no parts.
    pub fn is_empty(&self) -> (b: bool)
        ensures
            b == (self@.len() == 0),
    {
        self.inner.len() == 0
    }

    /// The number of parts.
    pub fn len(&self) -> (n: usize)
        ensures
            n == self@.len(),
    {
        self.inner.len()
    }

    /// Adds a received part after the others, and tells whether the message is complete:
    /// it is when the part has no more parts following it.
    pub fn push_received(&mut self, msg: Message) -> (complete: bool)
        ensures
            final(self)@ == old(self)@.push(msg),
            complete == !msg@.more,
    {
        let complete = !msg.get_more();
        self.inner.push_back(msg);
        complete
    }
}

impl MultipartMessage {
    /// The message of the single part `msg`.
    pub fn from_message(msg: Message) -> (m: MultipartMessage)
        ensures
            m@ == seq![msg],
    {
        let mut multipart = MultipartMessage::new();
        multipart.push_back(msg);
        multipart
    }

    /// The message of the given parts, in order.
    pub fn from_parts(parts: Vec<Message>) -> (m: MultipartMessage)
        ensures
            m@ == parts@,
    {
        let mut multipart = MultipartMessage::new();
        let mut parts = parts;
        let ghost all = parts@;
        let mut rest: Vec<Message> = Vec::new();
        while parts.len() > 0
            invariant
                rest@ + parts@.reverse() =~= all.reverse(),
            decreases parts.len(),
        {
            let p = parts.pop().unwrap();
            rest.push(p);
        }
        while rest.len() > 0
            invariant
                multipart@ + rest@.reverse() =~= all,
            decreases rest.len(),
        {
            let p = rest.pop().unwrap();
            multipart.push_back(p);
        }
        multipart
    }
}

/// The flags with which part `i` of a message of `n` parts is sent: every part but the
/// last carries `SEND_MORE` besides the given flags.
pub open spec fn part_send_flags(flags: i32, i: int, n: int) -> i32 {
    if i < n - 1 {
        flags | 2i32
    } else {
        flags
    }
}

/// The sends that deliver a message part by part, in order: each part with the given
/// flags, and every part but the last with `SEND_MORE` too. A message without parts sends
/// nothing. The sends are made in order, and the run stops at the first that fails (see
/// [`crate::outcome::next_call`]).
pub fn multipart_sends(parts: MultipartMessage, flags: SendFlags) -> (sends: Vec<(Message, SendFlags)>)
    ensures
        sends@.len() == parts@.len(),
        forall|i: int| 0 <= i < sends@.len() ==> #[trigger] sends@[i].0 == parts@[i]
            && sends@[i].1.0 == part_send_flags(flags.0, i, parts@.len() as int),
{
    let ghost all = parts@;
    let n = parts.len();
    let mut inner = parts.into_inner();
    let mut sends: Vec<(Message, SendFlags)> = Vec::new();
    let mut i: usize = 0;
    while i < n
        invariant
            n == all.len(),
            i <= n,
            inner@ == all.subrange(i as int, n as int),
            sends@.len() == i,
            forall|j: int| 0 <= j < i ==> #[trigger] sends@[j].0 == all[j]
                && sends@[j].1.0 == part_send_flags(flags.0, j, n as int),
        decreases n - i,
    {
        let part = inner.pop_front().unwrap();
        let part_flags = if i + 1 < n { flags.union(SendFlags::SEND_MORE()) } else { flags };
        sends.push((part, part_flags));
        i = i + 1;
        assert(inner@ =~= all.subrange(i as int, n as int));
    }
    sends
}

/// Whether a receiver that puts parts together with
/// [`push_received`](MultipartMessage::push_received), given parts whose "more" marks are
/// `mores`, stops after exactly `k` parts: the `k`-th is the first without more.
pub open spec fn receiver_collects(mores: Seq<bool>, k: int) -> bool {
    &&& 0 < k <= mores.len()
    &&& !mores[k - 1]
    &&& forall|j: int| 0 <= j < k - 1 ==> #[trigger] mores[j]
}

/// The "more" marks that a peer sees on the parts of a message of `n` parts sent with
/// `flags`: a part is marked where its send carried `SEND_MORE`.
pub open spec fn sent_mores(flags: i32, n: int) -> Seq<bool> {
    Seq::new(n as nat, |i: int| part_send_flags(flags, i, n) & 2i32 != 0)
}

/// A message of one or more parts, sent with flags that do not themselves ask for
/// `SEND_MORE`, is put together again whole on the receiving side: the receiver stops at
/// its last part and at no earlier one.
pub proof fn lemma_multipart_round_trip(flags: i32, n: int)
    requires
        n > 0,
        flags & 2i32 == 0,
    ensures
        receiver_collects(sent_mores(flags, n), n),
{
    let mores = sent_mores(flags, n);
    assert forall|j: int| 0 <= j < n - 1 implies #[trigger] mores[j] by {
        assert((flags | 2i32) & 2i32 != 0) by (bit_vector);
    }
}

/// The state of receiving a message part by part: the parts received so far, or the
/// outcome.
#[derive(Debug)]
pub enum ReceiveProgress {
    /// more parts are to be received after these
    Receiving(MultipartMessage),
    /// the message, or the error of the receive that failed
    Done(ZmqResult<MultipartMessage>),
}

/// The mathematical value of the state of receiving a message.
pub ghost enum ReceiveView {
    Receiving(Seq<Message>),
    Done(Result<Seq<Message>, ZmqError>),
}

impl View for ReceiveProgress {
    type V = ReceiveView;

    open spec fn view(&self) -> ReceiveView {
        match self {
            ReceiveProgress::Receiving(parts) => ReceiveView::Receiving(parts@),
            ReceiveProgress::Done(Ok(parts)) => ReceiveView::Done(Ok(parts@)),
            ReceiveProgress::Done(Err(e)) => ReceiveView::Done(Err(*e)),
        }
    }
}

/// Receiving after the runtime's answer `reply` to one more receive: a failed receive ends
/// with its error; a received part is added, and ends the message when no more parts
/// follow it. Once over, receiving stays over.
pub open spec fn receive_next(progress: ReceiveView, reply: Result<Message, i32>) -> ReceiveView {
    match progress {
        ReceiveView::Done(r) => ReceiveView::Done(r),
        ReceiveView::Receiving(parts) => match reply {
            Err(code) => ReceiveView::Done(Err(error_of_errno(code))),
            Ok(m) => if m@.more {
                ReceiveView::Receiving(parts.push(m))
            } else {
                ReceiveView::Done(Ok(parts.push(m)))
            },
        },
    }
}

/// The state of receiving a message after the answers `replies`, from no parts.
pub open spec fn receive_spec(replies: Seq<Result<Message, i32>>) -> ReceiveView
    decreases replies.len(),
{
    if replies.len() == 0 {
        ReceiveView::Receiving(Seq::empty())
    } else {
        receive_next(receive_spec(replies.drop_last()), replies.last())
    }
}

/// The state of receiving a message after one more answer (see [`receive_next`]).
pub fn receive_step(progress: ReceiveProgress, reply: Result<Message, i32>) -> (next: ReceiveProgress)
    ensures
        next@ == receive_next(progress@, reply),
{
    match progress {
        ReceiveProgress::Done(r) => ReceiveProgress::Done(r),
        ReceiveProgress::Receiving(mut parts) => match reply {
            Err(code) => ReceiveProgress::Done(Err(ZmqError::from(code))),
            Ok(m) => {
                if parts.push_received(m) {
                    ReceiveProgress::Done(Ok(parts))
                } else {
                    ReceiveProgress::Receiving(parts)
                }
            },
        },
    }
}

/// The parts of the first `n` answers, which are all received parts.
pub open spec fn received_parts(replies: Seq<Result<Message, i32>>, n: int) -> Seq<Message> {
    Seq::new(n as nat, |i: int| replies[i]->Ok_0)
}

proof fn lemma_receiving_prefix(replies: Seq<Result<Message, i32>>, j: int)
    requires
        0 <= j <= replies.len(),
        forall|i: int| 0 <= i < j ==> (#[trigger] replies[i] is Ok) && replies[i]->Ok_0@.more,
    ensures
        receive_spec(replies.take(j)) == ReceiveView::Receiving(received_parts(replies, j)),
    decreases j,
{
    if j > 0 {
        lemma_receiving_prefix(replies, j - 1);
        assert(replies.take(j).drop_last() =~= replies.take(j - 1));
        assert(replies[j - 1] is Ok);
        assert(received_parts(replies, j - 1).push(replies[j - 1]->Ok_0) =~= received_parts(replies, j));
    } else {
        assert(replies.take(0) =~= Seq::<Result<Message, i32>>::empty());
        assert(received_parts(replies, 0) =~= Seq::<Message>::empty());
    }
}

/// Receiving a message part by part, from answers of which the first `k - 1` are parts
/// with more parts following and the `k`-th is a failure or a last part: receiving goes on
/// through the first `k - 1` answers and no further than the `k`-th, and ends with the
/// error of that failure, or with exactly the `k` parts received, in order.
pub proof fn lemma_receive_outcome(replies: Seq<Result<Message, i32>>, k: int)
    requires
        0 < k <= replies.len(),
        forall|i: int| 0 <= i < k - 1 ==> (#[trigger] replies[i] is Ok) && replies[i]->Ok_0@.more,
        replies[k - 1] is Err || !replies[k - 1]->Ok_0@.more,
    ensures
        forall|j: int| 0 <= j < k ==> #[trigger] receive_spec(replies.take(j)) == ReceiveView::Receiving(received_parts(replies, j)),
        receive_spec(replies.take(k)) == (match replies[k - 1] {
            Err(code) => ReceiveView::Done(Err(error_of_errno(code))),
            Ok(_) => ReceiveView::Done(Ok(received_parts(replies, k))),
        }),
{
    assert forall|j: int| 0 <= j < k implies #[trigger] receive_spec(replies.take(j)) == ReceiveView::Receiving(received_parts(replies, j)) by {
        lemma_receiving_prefix(replies, j);
    }
    lemma_receiving_prefix(replies, k - 1);
    assert(replies.take(k).drop_last() =~= replies.take(k - 1));
    assert(received_parts(replies, k - 1).push(replies[k - 1]->Ok_0) =~= received_parts(replies, k));
}

} // verus!
