//! A point-to-point message relay: ground stations post identity-addressed
//! messages into a shared mailbox, and satellite endpoints pull them back out
//! by presenting their id. Delivery is strictly first-in-first-out per id and
//! removes at most one message per request, never reordering the rest.

use vstd::prelude::*;

verus! {

/// An addressable endpoint: a freely copiable identity token. Every copy is
/// an independent value carrying the same id; no mutable state is shared.
#[derive(Debug, Clone, Copy, PartialEq, Eq, Structural)]
pub struct CubeSat {
    pub id: u64,
}

/// A routable record: a destination id plus a payload, immutable once made.
#[derive(Debug)]
pub struct Message {
    pub to: u64,
    pub content: String,
}

/// Result of a status probe; in this simulation every endpoint is healthy.
#[derive(Debug, Clone, Copy, PartialEq, Eq, Structural)]
pub enum StatusMessage {
    Nominal,
}

/// Some pending message in `s` is addressed to `id`.
pub open spec fn has_match(s: Seq<Message>, id: u64) -> bool {
    exists|i: int| 0 <= i < s.len() && #[trigger] s[i].to == id
}

/// `i` is the position of the earliest pending message addressed to `id`.
pub open spec fn is_first_match(s: Seq<Message>, id: u64, i: int) -> bool {
    &&& 0 <= i < s.len()
    &&& s[i].to == id
    &&& forall|j: int| 0 <= j < i ==> #[trigger] s[j].to != id
}

/// A shared, unordered-in-meaning store of pending messages. Insertion order
/// is preserved and used only as the tie-break: delivery per id is
/// first-in-first-out.
#[derive(Debug)]
pub struct Mailbox {
    messages: Vec<Message>,
}

impl View for Mailbox {
    type V = Seq<Message>;

    closed spec fn view(&self) -> Seq<Message> {
        self.messages@
    }
}

impl Mailbox {
    /// A mailbox with no pending messages.
    pub fn new() -> (m: Mailbox)
        ensures
            m@ == Seq::<Message>::empty(),
    {
        Mailbox { messages: Vec::new() }
    }

    /// The number of pending messages.
    pub fn len(&self) -> (n: usize)
        ensures
            n == self@.len(),
    {
        self.messages.len()
    }

    /// Appends `msg` to the pending sequence; the mailbox now owns it.
    /// Never fails: capacity is unbounded.
    pub fn post(&mut self, msg: Message)
        ensures
            final(self)@ == old(self)@.push(msg),
    {
        self.messages.push(msg);
    }

    /// Removes and returns the earliest pending message addressed to
    /// `recipient`, handing ownership to the caller; the remaining messages
    /// keep their order. When nothing matches, returns `None` (a normal
    /// outcome, not a fault) and leaves the mailbox untouched.
    pub fn deliver(&mut self, recipient: &CubeSat) -> (r: Option<Message>)
        ensures
            !has_match(old(self)@, recipient.id) ==> r is None && final(self)@ == old(self)@,
            match r {
                Some(msg) => exists|i: int|
                    #[trigger] is_first_match(old(self)@, recipient.id, i)
                        && msg == old(self)@[i]
                        && final(self)@ == old(self)@.remove(i),
                None => !has_match(old(self)@, recipient.id) && final(self)@ == old(self)@,
            },
    {
        let mut i: usize = 0;
        while i < self.messages.len()
            invariant
                i <= self.messages@.len(),
                self@ == old(self)@,
                forall|j: int| 0 <= j < i ==> #[trigger] self.messages@[j].to != recipient.id,
            decreases self.messages@.len() - i,
        {
            if self.messages[i].to == recipient.id {
                proof {
                    assert(is_first_match(self@, recipient.id, i as int));
                }
                let msg = self.messages.remove(i);
                return Some(msg);
            }
            i += 1;
        }
        None
    }
}

impl CubeSat {
    /// Asks the mailbox for this endpoint's earliest pending message. The
    /// endpoint itself is never mutated; all mutation is on the mailbox.
    pub fn recv(&self, mailbox: &mut Mailbox) -> (r: Option<Message>)
        ensures
            !has_match(old(mailbox)@, self.id) ==> r is None && final(mailbox)@ == old(mailbox)@,
            match r {
                Some(msg) => exists|i: int|
                    #[trigger] is_first_match(old(mailbox)@, self.id, i)
                        && msg == old(mailbox)@[i]
                        && final(mailbox)@ == old(mailbox)@.remove(i),
                None => !has_match(old(mailbox)@, self.id) && final(mailbox)@ == old(mailbox)@,
            },
    {
        mailbox.deliver(self)
    }
}

/// A message producer. Its radio frequency is its own private concern,
/// kept in hundredths of a megahertz so it stays an exact integer.
#[derive(Debug, Clone, Copy, PartialEq, Eq, Structural)]
pub struct GroundStation {
    pub radio_freq_centimhz: u64,
}

impl GroundStation {
    /// Pure factory: a fresh endpoint value carrying `sat_id`. No mailbox
    /// interaction, no failure.
    pub fn connect(&self, sat_id: u64) -> (sat: CubeSat)
        ensures
            sat.id == sat_id,
    {
        CubeSat { id: sat_id }
    }

    /// Posts `msg` into `mailbox`; the station itself is not mutated.
    pub fn send(&self, mailbox: &mut Mailbox, msg: Message)
        ensures
            final(mailbox)@ == old(mailbox)@.push(msg),
    {
        mailbox.post(msg);
    }
}

/// Probes an endpoint for its status.
pub fn check_status(_sat_id: CubeSat) -> (r: StatusMessage)
    ensures
        r == StatusMessage::Nominal,
{
    StatusMessage::Nominal
}

/// The fixed, deterministic id source that drives the simulation.
pub fn fetch_sat_ids() -> (r: Vec<u64>)
    ensures
        r@ == seq![1u64, 2u64, 3u64],
{
    let mut v: Vec<u64> = Vec::new();
    v.push(1);
    v.push(2);
    v.push(3);
    proof {
        assert(v@ =~= seq![1u64, 2u64, 3u64]);
    }
    v
}

/// The position of the earliest match is unique: two positions that both
/// satisfy `is_first_match` for the same sequence and id are equal, so
/// `deliver`'s result is pinned down exactly.
pub proof fn lemma_first_match_unique(s: Seq<Message>, id: u64, i: int, j: int)
    requires
        is_first_match(s, id, i),
        is_first_match(s, id, j),
    ensures
        i == j,
{
    if i < j {
        assert(s[i].to != id);
    } else if j < i {
        assert(s[j].to != id);
    }
}

/// First-in-first-out delivery: starting from a pending sequence with no
/// message for `id`, posting `m1` then `m2` (both addressed to `id`) means
/// the first delivery for `id` yields `m1` and leaves `m2` pending, the
/// second yields `m2` and restores the original sequence, and a third finds
/// nothing.
pub proof fn lemma_fifo_order(s0: Seq<Message>, m1: Message, m2: Message, id: u64)
    requires
        !has_match(s0, id),
        m1.to == id,
        m2.to == id,
    ensures
        is_first_match(s0.push(m1).push(m2), id, s0.len() as int),
        s0.push(m1).push(m2)[s0.len() as int] == m1,
        s0.push(m1).push(m2).remove(s0.len() as int) == s0.push(m2),
        is_first_match(s0.push(m2), id, s0.len() as int),
        s0.push(m2)[s0.len() as int] == m2,
        s0.push(m2).remove(s0.len() as int) == s0,
        !has_match(s0, id),
{
    let s2 = s0.push(m1).push(m2);
    let l = s0.len() as int;
    assert forall|j: int| 0 <= j < l implies #[trigger] s2[j].to != id by {
        assert(s2[j] == s0[j]);
    }
    assert(s2.remove(l) =~= s0.push(m2));
    assert forall|j: int| 0 <= j < l implies #[trigger] s0.push(m2)[j].to != id by {
        assert(s0.push(m2)[j] == s0[j]);
    }
    assert(s0.push(m2).remove(l) =~= s0);
}

/// Posting a message and immediately delivering for its destination is a
/// cancelling pair: when nothing for that id was already pending, delivery
/// finds exactly the posted message and the pending sequence returns to what
/// it was before the post.
pub proof fn lemma_post_then_deliver_cancels(s: Seq<Message>, m: Message)
    requires
        !has_match(s, m.to),
    ensures
        is_first_match(s.push(m), m.to, s.len() as int),
        s.push(m)[s.len() as int] == m,
        s.push(m).remove(s.len() as int) == s,
{
    let l = s.len() as int;
    assert forall|j: int| 0 <= j < l implies #[trigger] s.push(m)[j].to != m.to by {
        assert(s.push(m)[j] == s[j]);
    }
    assert(s.push(m).remove(l) =~= s);
}

/// Whatever was already pending, posting a message and immediately
/// delivering for its destination succeeds and brings the pending sequence
/// back to its prior length.
pub proof fn lemma_post_then_deliver_length(s: Seq<Message>, m: Message)
    ensures
        has_match(s.push(m), m.to),
        forall|i: int| #[trigger] is_first_match(s.push(m), m.to, i)
            ==> s.push(m).remove(i).len() == s.len(),
{
    assert(s.push(m)[s.len() as int].to == m.to);
}

} // verus!
