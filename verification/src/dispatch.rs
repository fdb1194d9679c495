use vstd::prelude::*;

use crate::service::spec_dv_status;
use crate::time::timestamp_or_now;
use crate::value::DataValue;
use crate::value::NodeData;
use crate::value::STATUS_GOOD;
use crate::value::WriteRequest;

verus! {

/// One changed monitored item as the protocol delivers it: the monitored
/// node's id and the reported sample.
#[derive(Debug, PartialEq)]
pub struct NotificationItem {
    pub node_id: String,
    pub data: DataValue,
}

/// The items of a batch that carry a value, in delivery order.
pub open spec fn spec_kept_items(items: Seq<NotificationItem>) -> Seq<NotificationItem>
    decreases items.len(),
{
    if items.len() == 0 {
        Seq::empty()
    } else {
        spec_kept_items(items.drop_last()) + (if items.last().data.value is Some {
            seq![items.last()]
        } else {
            Seq::empty()
        })
    }
}

/// How a delivered reading relates to the notification item it came from:
/// node id and value verbatim, quality as reported (good when absent), and
/// the reported timestamp whenever one was present.
pub open spec fn spec_reading_matches(item: NotificationItem, nd: NodeData) -> bool {
    &&& nd.node_id == item.node_id
    &&& item.data.value == Some(nd.value)
    &&& nd.quality == spec_dv_status(item.data)
    &&& (item.data.timestamp matches Some(t) ==> nd.timestamp == t)
}

/// Converts a notification batch into readings: exactly one reading per
/// item that carries a value, in delivery order, each taken verbatim from
/// its item. The caller hands each reading to the registered callback on an
/// independent task, off the delivery path, so the callback runs once per
/// changed item and a slow callback cannot stall delivery.
pub fn dispatch_notifications(items: Vec<NotificationItem>) -> (out: Vec<NodeData>)
    ensures
        out@.len() == spec_kept_items(items@).len(),
        forall|i: int|
            0 <= i < out@.len() ==> spec_reading_matches(
                spec_kept_items(items@)[i],
                #[trigger] out@[i],
            ),
{
    let ghost orig = items@;
    let mut items = items;
    let total = items.len();
    let mut out: Vec<NodeData> = Vec::new();
    let mut k: usize = 0;
    while items.len() > 0
        invariant
            total as int == orig.len(),
            k as int + items@.len() == orig.len(),
            items@ == orig.skip(k as int),
            out@.len() == spec_kept_items(orig.take(k as int)).len(),
            forall|i: int|
                0 <= i < out@.len() ==> spec_reading_matches(
                    spec_kept_items(orig.take(k as int))[i],
                    #[trigger] out@[i],
                ),
        decreases items@.len(),
    {
        let item = items.remove(0);
        proof {
            assert(item == orig[k as int]);
            assert(items@ =~= orig.skip(k as int + 1));
            assert(orig.take(k as int + 1).drop_last() =~= orig.take(k as int));
            assert(orig.take(k as int + 1).last() == orig[k as int]);
        }
        let NotificationItem { node_id, data } = item;
        let DataValue { value, status, timestamp } = data;
        match value {
            Some(v) => {
                let quality: u32 = match status {
                    Some(c) => c,
                    None => STATUS_GOOD,
                };
                out.push(
                    NodeData { node_id, value: v, timestamp: timestamp_or_now(timestamp), quality },
                );
                proof {
                    assert(spec_kept_items(orig.take(k as int + 1)) =~= spec_kept_items(
                        orig.take(k as int),
                    ).push(orig[k as int]));
                }
            },
            None => {
                proof {
                    assert(spec_kept_items(orig.take(k as int + 1)) =~= spec_kept_items(
                        orig.take(k as int),
                    ));
                }
            },
        }
        k += 1;
    }
    proof {
        assert(orig.take(k as int) =~= orig);
    }
    out
}

/// Round trip of a value through the write path and back: when a
/// notification reports exactly the value some write request carried, the
/// reading handed to the callback holds that value unchanged.
pub proof fn lemma_value_round_trip(req: WriteRequest, item: NotificationItem, nd: NodeData)
    requires
        item.data.value == Some(req.value),
        spec_reading_matches(item, nd),
    ensures
        nd.value == req.value,
{
}

} // verus!
