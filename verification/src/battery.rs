//! The devices of the battery service that can be recharged.

use vstd::prelude::*;

verus! {

/// The devices that were found rechargeable, in the order in which they were
/// asked: `probed` pairs each device with the answer it gave.
pub open spec fn rechargeable_of<T>(probed: Seq<(T, bool)>) -> Seq<T> {
    probed.filter_map(
        |pair: (T, bool)|
            if pair.1 {
                Some(pair.0)
            } else {
                None
            },
    )
}

/// Keeps, of the devices that the battery service lists, those that said
/// they can be recharged, in the order of the list. The caller asks each
/// device and pairs it with its answer.
pub fn get_devices_battery<T>(probed: Vec<(T, bool)>) -> (devices: Vec<T>)
    ensures
        devices@ == rechargeable_of(probed@),
{
    let mut devices: Vec<T> = Vec::new();
    for pair in it: probed
        invariant
            devices@ == rechargeable_of(it.seq().take(it.index() as int)),
    {
        assert(it.seq().take(it.index() + 1).drop_last() =~= it.seq().take(it.index() as int));
        if pair.1 {
            devices.push(pair.0);
        }
    }
    assert(probed@.take(probed@.len() as int) =~= probed@);
    devices
}

/// A device is kept exactly if it said that it can be recharged, and the
/// devices that are kept stand in the order in which they were asked: the
/// device kept from position `i` comes before the one kept from a later
/// position `j`.
pub proof fn lemma_rechargeable_keeps_order<T>(probed: Seq<(T, bool)>, i: int, j: int)
    requires
        0 <= i < j < probed.len(),
        probed[i].1,
        probed[j].1,
    ensures
        rechargeable_of(probed.take(i)).len() < rechargeable_of(probed.take(j)).len(),
        rechargeable_of(probed.take(j)).len() < rechargeable_of(probed).len(),
        rechargeable_of(probed)[rechargeable_of(probed.take(i)).len() as int] == probed[i].0,
        rechargeable_of(probed)[rechargeable_of(probed.take(j)).len() as int] == probed[j].0,
{
    lemma_kept_position(probed, i);
    lemma_kept_position(probed, j);
    lemma_kept_position(probed.take(j), i);
    assert(probed.take(j).take(i) =~= probed.take(i));
}

/// A device that said it can be recharged stands, among the kept ones, right
/// after those kept from the devices before it.
pub proof fn lemma_kept_position<T>(probed: Seq<(T, bool)>, i: int)
    requires
        0 <= i < probed.len(),
        probed[i].1,
    ensures
        rechargeable_of(probed.take(i)).len() < rechargeable_of(probed).len(),
        rechargeable_of(probed)[rechargeable_of(probed.take(i)).len() as int] == probed[i].0,
        rechargeable_of(probed.take(i)) =~= rechargeable_of(probed).take(
            rechargeable_of(probed.take(i)).len() as int,
        ),
    decreases probed.len(),
{
    let front = probed.drop_last();
    if i == probed.len() - 1 {
        assert(probed.take(i) =~= front);
    } else {
        lemma_kept_position(front, i);
        assert(front.take(i) =~= probed.take(i));
    }
}

/// The number of devices kept is the number of devices that said they can be
/// recharged.
pub proof fn lemma_rechargeable_count<T>(probed: Seq<(T, bool)>)
    ensures
        rechargeable_of(probed).len() == probed.filter(|pair: (T, bool)| pair.1).len(),
    decreases probed.len(),
{
    reveal(Seq::filter);
    if probed.len() > 0 {
        lemma_rechargeable_count(probed.drop_last());
    }
}

} // verus!
