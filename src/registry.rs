//! The set of live connections, with broadcast and reaping.

use vstd::prelude::*;

use crate::message::{convert_message, translate, Conn, FrontendMessage, LiveActivityMessage};

verus! {

/// How a write to one connection's socket ended.
#[derive(Debug, Clone, Copy, PartialEq, Eq)]
pub enum SendOutcome {
    /// The message was sent or queued.
    Delivered,
    /// The bounded send queue was full; this message was dropped.
    QueueFull,
    /// Any other write failure: the connection is dead.
    Failed,
}

/// Whether a connection whose write ended with `o` stays registered.
pub open spec fn keeps(o: SendOutcome) -> bool {
    !(o is Failed)
}

/// The connections of `conns` whose outcome in `outcomes` keeps them, in order.
pub open spec fn retained<C>(conns: Seq<Conn<C>>, outcomes: Seq<SendOutcome>) -> Seq<Conn<C>>
    decreases conns.len(),
{
    if conns.len() == 0 || outcomes.len() == 0 {
        Seq::empty()
    } else {
        let rest = retained(conns.drop_last(), outcomes.drop_last());
        if keeps(outcomes.last()) {
            rest.push(conns.last())
        } else {
            rest
        }
    }
}

/// Reaping removes exactly the connections whose write failed: every
/// connection whose outcome keeps it is still registered, and every
/// registered connection is one whose outcome keeps it.
pub proof fn lemma_reap_removes_only_failed<C>(conns: Seq<Conn<C>>, outcomes: Seq<SendOutcome>)
    requires
        conns.len() == outcomes.len(),
    ensures
        forall|i: int|
            0 <= i < conns.len() && keeps(outcomes[i]) ==> retained(conns, outcomes).contains(
                #[trigger] conns[i],
            ),
        forall|x: Conn<C>|
            retained(conns, outcomes).contains(x) ==> exists|i: int|
                0 <= i < conns.len() && #[trigger] conns[i] == x && keeps(outcomes[i]),
    decreases conns.len(),
{
    if conns.len() > 0 {
        let cs = conns.drop_last();
        let os = outcomes.drop_last();
        lemma_reap_removes_only_failed(cs, os);
        let rest = retained(cs, os);
        let r = retained(conns, outcomes);
        assert forall|i: int|
            0 <= i < conns.len() && keeps(outcomes[i]) implies r.contains(#[trigger] conns[i]) by {
            if i < conns.len() - 1 {
                assert(cs[i] == conns[i]);
                assert(os[i] == outcomes[i]);
                let k = choose|k: int| 0 <= k < rest.len() && rest[k] == cs[i];
                assert(r[k] == conns[i]);
            } else {
                assert(r[r.len() - 1] == conns[i]);
            }
        }
        assert forall|x: Conn<C>| r.contains(x) implies exists|i: int|
            0 <= i < conns.len() && #[trigger] conns[i] == x && keeps(outcomes[i]) by {
            let k = choose|k: int| 0 <= k < r.len() && r[k] == x;
            if k < rest.len() {
                assert(rest[k] == x);
                assert(rest.contains(x));
                let i = choose|i: int| 0 <= i < cs.len() && #[trigger] cs[i] == x && keeps(os[i]);
                assert(conns[i] == x);
            } else {
                assert(conns[conns.len() - 1] == x);
            }
        }
    }
}

/// A connection whose send queue was full is not removed by reaping.
pub proof fn lemma_backpressure_retains<C>(
    conns: Seq<Conn<C>>,
    outcomes: Seq<SendOutcome>,
    i: int,
)
    requires
        conns.len() == outcomes.len(),
        0 <= i < conns.len(),
        outcomes[i] is QueueFull,
    ensures
        retained(conns, outcomes).contains(conns[i]),
{
    lemma_reap_removes_only_failed(conns, outcomes);
}

/// When no write failed, reaping leaves every connection in place, in order.
pub proof fn lemma_reap_keeps_all_live<C>(conns: Seq<Conn<C>>, outcomes: Seq<SendOutcome>)
    requires
        conns.len() == outcomes.len(),
        forall|i: int| 0 <= i < outcomes.len() ==> keeps(#[trigger] outcomes[i]),
    ensures
        retained(conns, outcomes) == conns,
    decreases conns.len(),
{
    if conns.len() > 0 {
        let cs = conns.drop_last();
        let os = outcomes.drop_last();
        assert forall|i: int| 0 <= i < os.len() implies keeps(#[trigger] os[i]) by {
            assert(os[i] == outcomes[i]);
        }
        lemma_reap_keeps_all_live(cs, os);
        assert(keeps(outcomes[outcomes.len() - 1]));
        assert(cs.push(conns.last()) =~= conns);
    }
}

/// A broadcast reaches every connection that stays: each connection left
/// after reaping is one whose write did not fail, and the message offered to
/// it was the event translated under its own salt.
pub proof fn lemma_broadcast_reaches_live<C>(
    conns: Seq<Conn<C>>,
    msgs: Seq<FrontendMessage>,
    outcomes: Seq<SendOutcome>,
    msg: LiveActivityMessage,
)
    requires
        conns.len() == outcomes.len(),
        msgs.len() == conns.len(),
        forall|i: int| 0 <= i < msgs.len() ==> msgs[i] == translate(msg, #[trigger] conns[i].salt),
    ensures
        forall|x: Conn<C>|
            retained(conns, outcomes).contains(x) ==> exists|i: int|
                0 <= i < conns.len() && #[trigger] conns[i] == x && keeps(outcomes[i])
                    && msgs[i] == translate(msg, x.salt),
{
    lemma_reap_removes_only_failed(conns, outcomes);
}

/// The live connections.
pub struct Registry<C> {
    pub conns: Vec<Conn<C>>,
}

impl<C> Registry<C> {
    /// An empty registry.
    pub fn new() -> (r: Self)
        ensures
            r.conns@ == Seq::<Conn<C>>::empty(),
    {
        Registry { conns: Vec::new() }
    }

    /// Registers a newly accepted connection with its salt.
    pub fn insert(&mut self, web: C, salt: u64)
        ensures
            final(self).conns@ == old(self).conns@.push(Conn { web, salt }),
    {
        self.conns.push(Conn { web, salt });
    }

    /// The number of live connections.
    pub fn len(&self) -> (r: usize)
        ensures
            r == self.conns@.len(),
    {
        self.conns.len()
    }

    /// The salts of the live connections, in registration order.
    pub fn salts(&self) -> (r: Vec<u64>)
        ensures
            r@.len() == self.conns@.len(),
            forall|i: int| 0 <= i < r@.len() ==> r@[i] == self.conns@[i].salt,
    {
        let mut r: Vec<u64> = Vec::new();
        let mut i: usize = 0;
        while i < self.conns.len()
            invariant
                i <= self.conns@.len(),
                r@.len() == i,
                forall|j: int| 0 <= j < i ==> r@[j] == self.conns@[j].salt,
            decreases self.conns@.len() - i,
        {
            r.push(self.conns[i].salt);
            i += 1;
        }
        r
    }

    /// For each live connection, in order, the message it is to receive for `msg`.
    pub fn messages_for(&self, msg: &LiveActivityMessage) -> (r: Vec<FrontendMessage>)
        ensures
            r@.len() == self.conns@.len(),
            forall|i: int|
                0 <= i < r@.len() ==> r@[i] == translate(*msg, self.conns@[i].salt),
    {
        let mut r: Vec<FrontendMessage> = Vec::new();
        let mut i: usize = 0;
        while i < self.conns.len()
            invariant
                i <= self.conns@.len(),
                r@.len() == i,
                forall|j: int| 0 <= j < i ==> r@[j] == translate(*msg, self.conns@[j].salt),
            decreases self.conns@.len() - i,
        {
            r.push(convert_message(&self.conns[i], msg));
            i += 1;
        }
        r
    }

    /// The messages to send for one broker delivery: nothing when its payload
    /// could not be decoded, else one per live connection, in order.
    pub fn consume_single(&self, decoded: &Option<LiveActivityMessage>) -> (r: Vec<FrontendMessage>)
        ensures
            decoded is None ==> r@.len() == 0,
            decoded is Some ==> r@.len() == self.conns@.len() && forall|i: int|
                0 <= i < r@.len() ==> r@[i] == translate(decoded->0, self.conns@[i].salt),
    {
        match decoded {
            Some(msg) => self.messages_for(msg),
            None => Vec::new(),
        }
    }

    /// Removes every connection whose write failed, keeping the others in
    /// order; `outcomes[i]` is how the write to the `i`-th connection ended.
    pub fn reap(&mut self, outcomes: &Vec<SendOutcome>)
        requires
            outcomes@.len() == old(self).conns@.len(),
        ensures
            final(self).conns@ == retained(old(self).conns@, outcomes@),
    {
        let ghost orig = self.conns@;
        let n = self.conns.len();
        let mut rest: Vec<Conn<C>> = Vec::new();
        std::mem::swap(&mut self.conns, &mut rest);
        // Reverse the connections so that popping yields them front first.
        let mut rev: Vec<Conn<C>> = Vec::new();
        while rest.len() > 0
            invariant
                rest@.len() + rev@.len() == n,
                n == orig.len(),
                rest@ == orig.subrange(0, rest@.len() as int),
                forall|j: int| 0 <= j < rev@.len() ==> rev@[j] == orig[n - 1 - j],
            decreases rest@.len(),
        {
            let c = rest.pop().unwrap();
            rev.push(c);
            assert(rest@ =~= orig.subrange(0, rest@.len() as int));
        }
        let mut kept: Vec<Conn<C>> = Vec::new();
        let mut i: usize = 0;
        while i < n
            invariant
                i <= n,
                n == orig.len(),
                n == outcomes@.len(),
                rev@.len() == n - i,
                forall|j: int| 0 <= j < rev@.len() ==> rev@[j] == orig[n - 1 - j],
                kept@ == retained(orig.subrange(0, i as int), outcomes@.subrange(0, i as int)),
            decreases n - i,
        {
            let c = rev.pop().unwrap();
            assert(c == orig[i as int]);
            proof {
                let s = orig.subrange(0, i as int + 1);
                let o = outcomes@.subrange(0, i as int + 1);
                assert(s.drop_last() =~= orig.subrange(0, i as int));
                assert(o.drop_last() =~= outcomes@.subrange(0, i as int));
            }
            match outcomes[i] {
                SendOutcome::Failed => {},
                _ => kept.push(c),
            }
            i += 1;
        }
        assert(orig.subrange(0, n as int) =~= orig);
        assert(outcomes@.subrange(0, n as int) =~= outcomes@);
        self.conns = kept;
    }
}

} // verus!
