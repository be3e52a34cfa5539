//! Taking captured audio packets off the capture threads' channels, a
//! bounded number per tick.
use vstd::prelude::*;

verus! {

#[verifier::external_type_specification]
#[verifier::external_body]
#[verifier::reject_recursive_types(T)]
pub struct ExReceiver<T>(crossbeam_channel::Receiver<T>);

/// What one attempt to receive found.
pub enum Received<T> {
    Item(T),
    Empty,
    Disconnected,
}

/// `crossbeam_channel::Receiver::try_recv`: the next value, or whether the
/// channel was empty or has no sender left. The capture threads send and
/// hang up at any time, so nothing is claimed of which comes back.
#[verifier::external_body]
fn try_receive<T>(receiver: &crossbeam_channel::Receiver<T>) -> (r: Received<T>) {
    match receiver.try_recv() {
        Ok(value) => Received::Item(value),
        Err(crossbeam_channel::TryRecvError::Empty) => Received::Empty,
        Err(crossbeam_channel::TryRecvError::Disconnected) => Received::Disconnected,
    }
}

/// Packets taken off a channel in one tick, at most.
pub const MAX_PACKETS_PER_TICK: usize = 64;

/// The packets and the flag of a drain whose attempts found `outcomes`, in
/// order, with `budget` packets still allowed; `None` when `outcomes` is not
/// a whole drain. A drain takes packets until it finds the channel empty
/// (flag true), finds no sender left (flag false), or has taken `budget`
/// packets (flag true).
pub open spec fn drained<T>(outcomes: Seq<Received<T>>, budget: nat) -> Option<(Seq<T>, bool)>
    decreases outcomes.len(),
{
    if budget == 0 {
        if outcomes.len() == 0 {
            Some((seq![], true))
        } else {
            None
        }
    } else if outcomes.len() == 0 {
        None
    } else {
        match outcomes[0] {
            Received::Item(p) => match drained(outcomes.drop_first(), (budget - 1) as nat) {
                Some((rest, flag)) => Some((seq![p] + rest, flag)),
                None => None,
            },
            Received::Empty => if outcomes.len() == 1 {
                Some((seq![], true))
            } else {
                None
            },
            Received::Disconnected => if outcomes.len() == 1 {
                Some((seq![], false))
            } else {
                None
            },
        }
    }
}

/// One attempt of a drain: a packet is kept and the drain goes on; an empty
/// channel stops it with the flag true, a channel without senders with the
/// flag false.
pub fn drain_step<T>(out: &mut Vec<T>, outcome: Received<T>) -> (stop: Option<bool>)
    ensures
        match outcome {
            Received::Item(p) => final(out)@ == old(out)@.push(p) && stop is None,
            Received::Empty => final(out)@ == old(out)@ && stop == Some(true),
            Received::Disconnected => final(out)@ == old(out)@ && stop == Some(false),
        },
{
    match outcome {
        Received::Item(packet) => {
            out.push(packet);
            None
        },
        Received::Empty => Some(true),
        Received::Disconnected => Some(false),
    }
}

pub open spec fn items<T>(values: Seq<T>) -> Seq<Received<T>> {
    values.map_values(|v: T| Received::Item(v))
}

/// Packets `values` followed by the attempt `last` that ended the drain.
proof fn lemma_drained_items<T>(values: Seq<T>, last: Seq<Received<T>>, budget: nat, flag: bool)
    requires
        (last == seq![Received::<T>::Empty] && values.len() < budget && flag)
            || (last == seq![Received::<T>::Disconnected] && values.len() < budget && !flag)
            || (last.len() == 0 && values.len() == budget && flag),
    ensures
        drained(items(values) + last, budget) == Some((values, flag)),
    decreases values.len(),
{
    let o = items(values) + last;
    if values.len() == 0 {
        assert(o =~= last);
    } else {
        lemma_drained_items(values.drop_first(), last, (budget - 1) as nat, flag);
        assert(o.drop_first() =~= items(values.drop_first()) + last);
        assert(o[0] == Received::Item(values[0]));
        assert(seq![values[0]] + values.drop_first() =~= values);
    }
}

/// The packets waiting on `receiver`, up to the tick's budget, in the order
/// they were sent; the flag is false when the channel turned out to have no
/// sender left. Which attempts find what is up to the capture threads: the
/// result is the drain of what the attempts found.
pub fn drain_packets<T>(receiver: &crossbeam_channel::Receiver<T>) -> (r: (Vec<T>, bool))
    ensures
        r.0@.len() <= MAX_PACKETS_PER_TICK,
        !r.1 ==> r.0@.len() < MAX_PACKETS_PER_TICK,
        exists|outcomes: Seq<Received<T>>| #[trigger]
            drained(outcomes, MAX_PACKETS_PER_TICK as nat) == Some((r.0@, r.1)),
{
    let mut out: Vec<T> = Vec::new();
    let mut k: usize = 0;
    while k < MAX_PACKETS_PER_TICK
        invariant
            k <= MAX_PACKETS_PER_TICK,
            out@.len() == k,
        decreases MAX_PACKETS_PER_TICK - k,
    {
        let outcome = try_receive(receiver);
        let ghost seen = outcome;
        match drain_step(&mut out, outcome) {
            Some(flag) => {
                proof {
                    let last = if flag {
                        seq![Received::<T>::Empty]
                    } else {
                        seq![Received::<T>::Disconnected]
                    };
                    assert(seen == last[0]);
                    lemma_drained_items(out@, last, MAX_PACKETS_PER_TICK as nat, flag);
                }
                return (out, flag);
            },
            None => {},
        }
        k = k + 1;
    }
    proof {
        lemma_drained_items(out@, seq![], MAX_PACKETS_PER_TICK as nat, true);
    }
    (out, true)
}

/// A packet with the capture session that produced it.
#[derive(Debug, Clone)]
pub struct EpochPacket<T> {
    pub source_epoch: u64,
    pub packet: T,
}

/// The packets of session `source_epoch` among `packets`, in order.
pub open spec fn session_packets<T>(packets: Seq<EpochPacket<T>>, source_epoch: u64) -> Seq<T>
    decreases packets.len(),
{
    if packets.len() == 0 {
        seq![]
    } else {
        let prev = session_packets(packets.drop_last(), source_epoch);
        if packets.last().source_epoch == source_epoch {
            prev.push(packets.last().packet)
        } else {
            prev
        }
    }
}

/// The packets of the current capture session, in order; packets of an
/// earlier session are dropped.
pub fn keep_session_packets<T>(packets: Vec<EpochPacket<T>>, source_epoch: u64) -> (r: Vec<T>)
    ensures
        r@ == session_packets(packets@, source_epoch),
{
    let mut out: Vec<T> = Vec::new();
    let mut rest = packets;
    let ghost all = rest@;
    let n = rest.len();
    let mut i: usize = 0;
    assert(all.skip(0) =~= all);
    assert(all.take(0) =~= seq![]);
    while rest.len() > 0
        invariant
            i + rest@.len() == n,
            all.len() == n,
            rest@ == all.skip(i as int),
            out@ == session_packets(all.take(i as int), source_epoch),
        decreases rest@.len(),
    {
        let ghost before = rest@;
        let item = rest.remove(0);
        assert(all.skip(i as int)[0] == item);
        assert(all.take(i + 1).drop_last() =~= all.take(i as int));
        if item.source_epoch == source_epoch {
            out.push(item.packet);
        }
        assert(all.skip(i + 1) =~= all.skip(i as int).drop_first());
        assert(rest@ =~= before.drop_first());
        i = i + 1;
    }
    assert(all.take(n as int) =~= all);
    out
}

/// The packets of the current capture session among those drained this
/// tick; the flag is false when the channel has no sender left.
pub fn drain_current_source_packets<T>(
    receiver: &crossbeam_channel::Receiver<EpochPacket<T>>,
    source_epoch: u64,
) -> (r: (Vec<T>, bool))
    ensures
        exists|outcomes: Seq<Received<EpochPacket<T>>>, packets: Seq<EpochPacket<T>>|
            #![trigger drained(outcomes, MAX_PACKETS_PER_TICK as nat), session_packets(packets, source_epoch)]
            drained(outcomes, MAX_PACKETS_PER_TICK as nat) == Some((packets, r.1)) && r.0@
                == session_packets(packets, source_epoch),
{
    let (packets, connected) = drain_packets(receiver);
    let ghost d = packets@;
    let kept = keep_session_packets(packets, source_epoch);
    proof {
        let o = choose|o: Seq<Received<EpochPacket<T>>>| #[trigger]
            drained(o, MAX_PACKETS_PER_TICK as nat) == Some((d, connected));
        assert(drained(o, MAX_PACKETS_PER_TICK as nat) == Some((d, connected)) && kept@ == session_packets(
            d,
            source_epoch,
        ));
    }
    (kept, connected)
}

} // verus!
