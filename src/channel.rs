//! Handing metrics to the dispatcher through the shared bounded channel.
use crate::metric::{metric_views, Metric, MetricValue};
use vstd::prelude::*;

verus! {

#[verifier::external_type_specification]
#[verifier::external_body]
#[verifier::reject_recursive_types(T)]
pub struct ExSender<T>(async_channel::Sender<T>);

/// A producer's end of the channel, with a ghost record of every metric
/// that the channel has accepted from it, in order.
pub struct Outbox {
    pub tx: async_channel::Sender<Metric>,
    pub accepted: Ghost<Seq<(Seq<char>, MetricValue)>>,
}

impl Outbox {
    /// A producer's end that has sent nothing yet.
    pub fn new(tx: async_channel::Sender<Metric>) -> (r: Outbox)
        ensures
            r.tx == tx,
            r.accepted@ == Seq::<(Seq<char>, MetricValue)>::empty(),
    {
        Outbox { tx, accepted: Ghost(Seq::empty()) }
    }
}

/// Relies on `async_channel::Sender::send_blocking`: it waits while the
/// channel is full; `Ok` means the channel took the message, and on a
/// closed channel it hands the message back inside `SendError`.
#[verifier::external_body]
fn send_blocking(out: &mut Outbox, metric: Metric) -> (r: Result<(), Metric>)
    ensures
        final(out).tx == old(out).tx,
        r is Ok ==> final(out).accepted@ == old(out).accepted@.push(metric@),
        r matches Err(back) ==> back == metric && final(out).accepted@ == old(out).accepted@,
{
    out.tx.send_blocking(metric).map_err(|e| e.0)
}

/// Sends `metrics` in order, waiting for room whenever the channel is
/// full, so that none is dropped: every metric that is not handed back was
/// accepted by the channel, in order. What is handed back is empty when
/// every send went through; otherwise the channel had closed, and it is
/// the metric the channel refused with all that follow it.
pub fn send_all(out: &mut Outbox, metrics: Vec<Metric>) -> (r: Vec<Metric>)
    ensures
        final(out).tx == old(out).tx,
        r@.len() <= metrics@.len(),
        r@ == metrics@.subrange(metrics@.len() - r@.len(), metrics@.len() as int),
        final(out).accepted@ == old(out).accepted@ + metric_views(
            metrics@.take(metrics@.len() - r@.len()),
        ),
{
    let ghost all = metrics@;
    let ghost n = all.len() as int;
    let ghost start = out.accepted@;
    let mut pending = metrics;
    while pending.len() > 0
        invariant
            all == metrics@,
            n == all.len(),
            pending@.len() <= n,
            pending@ == all.subrange(n - pending@.len(), n),
            out.tx == old(out).tx,
            start == old(out).accepted@,
            out.accepted@ == start + metric_views(all.take(n - pending@.len())),
        decreases pending.len(),
    {
        let ghost before = pending@;
        let metric = pending.remove(0);
        assert(pending@ =~= before.subrange(1, before.len() as int));
        assert(metric == all[n - before.len()]);
        match send_blocking(out, metric) {
            Ok(()) => {
                assert(pending@ =~= all.subrange(n - pending@.len(), n));
                assert(all.take(n - pending@.len()) =~= all.take(n - before.len()).push(
                    all[n - before.len()],
                ));
                assert(metric_views(all.take(n - pending@.len())) =~= metric_views(
                    all.take(n - before.len()),
                ).push(all[n - before.len()]@));
            },
            Err(back) => {
                pending.insert(0, back);
                assert(pending@ =~= before);
                assert(pending@ =~= all.subrange(n - pending@.len(), n));
                return pending;
            },
        }
    }
    assert(all.take(n) =~= all);
    pending
}

} // verus!
