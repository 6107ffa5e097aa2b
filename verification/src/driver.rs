//! The poll/compare/notify decisions of the driver loop.
//!
//! The driver owns the single "last observed" status of the process. Each
//! cycle the surrounding loop fetches a status, hands it to `observe`, and
//! sends a notification exactly when `observe` asks for one. The update of
//! the held status is optimistic: it happens when the change is detected,
//! before the delivery is confirmed, so a failed delivery is never
//! retried — the loop just proceeds to its sleep either way.

use vstd::prelude::*;

use crate::status::{check, RoomStatus};

verus! {

/// The driver's state: the one mutable slot of the process, holding the
/// status observed by the previous successful fetch.
pub struct Driver {
    pub last_observed: RoomStatus,
}

/// The statuses notified when the observations `observed` are fed, in
/// order, to a driver that starts out holding `initial`: each observation
/// that differs from the one held before it, and no other.
pub open spec fn spec_notifications(initial: RoomStatus, observed: Seq<RoomStatus>) -> Seq<
    RoomStatus,
>
    decreases observed.len(),
{
    if observed.len() == 0 {
        Seq::<RoomStatus>::empty()
    } else if observed[0] == initial {
        spec_notifications(initial, observed.drop_first())
    } else {
        seq![observed[0]] + spec_notifications(observed[0], observed.drop_first())
    }
}

impl Driver {
    /// A driver that has observed nothing yet and assumes the baseline
    /// `initial`. The very first comparison runs against this baseline, so
    /// a restart can yield one spurious or missed notification.
    pub fn new(initial: RoomStatus) -> (r: Self)
        ensures
            r.last_observed == initial,
    {
        Driver { last_observed: initial }
    }

    /// One comparison step: detects whether `current` is a transition
    /// away from the held status. On a transition the held status is
    /// updated at once and the status to notify is returned; otherwise
    /// nothing changes and nothing is to be sent. A fetch that failed
    /// never reaches this step, so the held status survives failed
    /// cycles unchanged.
    pub fn observe(&mut self, current: RoomStatus) -> (r: Option<RoomStatus>)
        ensures
            old(self).last_observed == current ==> final(self).last_observed == old(
                self,
            ).last_observed && r is None,
            old(self).last_observed != current ==> final(self).last_observed == current && r
                == Some(current),
    {
        if check(self.last_observed, current) {
            self.last_observed = current;
            Some(current)
        } else {
            None
        }
    }
}

/// Feeds a whole sequence of fetched statuses through a fresh driver and
/// returns the statuses that would be notified, in order: exactly one per
/// transition, none when nothing changed.
pub fn replay_observations(initial: RoomStatus, observed: &Vec<RoomStatus>) -> (r: Vec<RoomStatus>)
    ensures
        r@ == spec_notifications(initial, observed@),
{
    let mut driver = Driver::new(initial);
    let mut out: Vec<RoomStatus> = Vec::new();
    let mut i: usize = 0;
    proof {
        assert(observed@.skip(0) =~= observed@);
        assert(out@ + spec_notifications(initial, observed@) =~= spec_notifications(
            initial,
            observed@,
        ));
    }
    while i < observed.len()
        invariant
            i <= observed.len(),
            spec_notifications(initial, observed@) == out@ + spec_notifications(
                driver.last_observed,
                observed@.skip(i as int),
            ),
        decreases observed.len() - i,
    {
        let ghost pre = driver.last_observed;
        let ghost tail = observed@.skip(i as int);
        proof {
            assert(tail[0] == observed@[i as int]);
            assert(tail.drop_first() =~= observed@.skip(i as int + 1));
        }
        let current = observed[i];
        match driver.observe(current) {
            Some(status) => {
                out.push(status);
                proof {
                    assert(out@ =~= out@.drop_last() + seq![status]);
                    assert(spec_notifications(pre, tail) == seq![status] + spec_notifications(
                        status,
                        tail.drop_first(),
                    ));
                    assert(out@.drop_last() + (seq![status] + spec_notifications(
                        status,
                        tail.drop_first(),
                    )) =~= out@ + spec_notifications(status, tail.drop_first()));
                }
            },
            None => {
                proof {
                    assert(spec_notifications(pre, tail) == spec_notifications(
                        pre,
                        tail.drop_first(),
                    ));
                }
            },
        }
        i = i + 1;
    }
    proof {
        assert(observed@.skip(observed@.len() as int) =~= Seq::<RoomStatus>::empty());
        assert(out@ + Seq::<RoomStatus>::empty() =~= out@);
    }
    out
}

/// No observation, no notification — and a run of observations equal to
/// the baseline stays silent.
pub proof fn lemma_constant_observations_silent(initial: RoomStatus, observed: Seq<RoomStatus>)
    requires
        forall|i: int| 0 <= i < observed.len() ==> observed[i] == initial,
    ensures
        spec_notifications(initial, observed) == Seq::<RoomStatus>::empty(),
    decreases observed.len(),
{
    if observed.len() > 0 {
        assert(forall|i: int|
            0 <= i < observed.drop_first().len() ==> observed.drop_first()[i] == initial);
        lemma_constant_observations_silent(initial, observed.drop_first());
    }
}

/// Notifications are never duplicated: the first one differs from the
/// baseline, and each later one differs from the one before it.
pub proof fn lemma_notifications_alternate(initial: RoomStatus, observed: Seq<RoomStatus>)
    ensures
        spec_notifications(initial, observed).len() > 0 ==> spec_notifications(initial, observed)[0]
            != initial,
        forall|i: int|
            1 <= i < spec_notifications(initial, observed).len() ==> #[trigger] spec_notifications(
                initial,
                observed,
            )[i] != spec_notifications(initial, observed)[i - 1],
    decreases observed.len(),
{
    if observed.len() == 0 {
    } else if observed[0] == initial {
        lemma_notifications_alternate(initial, observed.drop_first());
    } else {
        let first = observed[0];
        let rest = spec_notifications(first, observed.drop_first());
        lemma_notifications_alternate(first, observed.drop_first());
        let whole = spec_notifications(initial, observed);
        assert(whole == seq![first] + rest);
        assert(whole[0] == first);
        assert forall|i: int| 1 <= i < whole.len() implies #[trigger] whole[i] != whole[i - 1] by {
            assert(whole[i] == rest[i - 1]);
            if i == 1 {
                assert(rest[0] != first);
            } else {
                assert(whole[i - 1] == rest[i - 2]);
            }
        }
    }
}

} // verus!
