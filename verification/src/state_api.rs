//! The parts of the node's state API that decide on values read from the
//! chain: which miner faults are recent enough to report, and what a message
//! lookup returns.
use vstd::prelude::*;

verus! {

/// A chain epoch (block height).
pub type ChainEpoch = u64;

/// Receipt of an executed message and the tipset it was executed in.
pub struct MessageLookup<R, T> {
    pub receipt: R,
    pub tipset: T,
}

/// Text of the error when waiting for a message found nothing.
pub open spec fn empty_lookup_text() -> Seq<char> {
    "wait for msg returned empty tuple"@
}

/// The lookup of a waited-for message, from the tipset and receipt that the
/// wait found; an error if it found none.
pub fn state_wait_msg<R, T>(found: Option<(T, R)>) -> (res: Result<MessageLookup<R, T>, String>)
    ensures
        match found {
            Some((tipset, receipt)) => res matches Ok(l) && l.receipt == receipt && l.tipset == tipset,
            None => res is Err && res->Err_0@ == empty_lookup_text(),
        },
{
    match found {
        Some((tipset, receipt)) => Ok(MessageLookup { receipt, tipset }),
        None => Err("wait for msg returned empty tuple".to_owned()),
    }
}

/// A fault of a miner, at the epoch where it started.
pub struct Fault<A> {
    pub miner: A,
    pub fault: ChainEpoch,
}

/// The first epoch whose faults are reported when looking `look_back`
/// epochs back from `epoch`.
pub fn fault_cutoff(epoch: ChainEpoch, look_back: ChainEpoch) -> (cut_off: ChainEpoch)
    requires
        look_back <= epoch,
    ensures
        cut_off == epoch - look_back,
{
    epoch - look_back
}

/// The faults of `miner` that started at `cut_off` or later, in the order of
/// `epochs`.
pub open spec fn faults_since<A>(miner: A, epochs: Seq<ChainEpoch>, cut_off: ChainEpoch) -> Seq<
    Fault<A>,
>
    decreases epochs.len(),
{
    if epochs.len() == 0 {
        Seq::empty()
    } else {
        let earlier = faults_since(miner, epochs.drop_last(), cut_off);
        if epochs.last() >= cut_off {
            earlier.push(Fault { miner, fault: epochs.last() })
        } else {
            earlier
        }
    }
}

/// The recent faults of all `miners` in turn, each given with the fault
/// epochs read for it or the error that reading them gave; the first error
/// is the result if there is one.
pub open spec fn all_faults_since<A>(
    miners: Seq<(A, Result<Vec<ChainEpoch>, String>)>,
    cut_off: ChainEpoch,
) -> Result<Seq<Fault<A>>, String>
    decreases miners.len(),
{
    if miners.len() == 0 {
        Ok(Seq::empty())
    } else {
        match all_faults_since(miners.drop_last(), cut_off) {
            Err(e) => Err(e),
            Ok(earlier) => match miners.last().1 {
                Err(e) => Err(e),
                Ok(epochs) => Ok(earlier + faults_since(miners.last().0, epochs@, cut_off)),
            },
        }
    }
}

/// A fault of `miner` is reported exactly when one of its fault epochs is at
/// or after the cut-off.
pub proof fn law_recent_faults_are_the_late_ones<A>(
    miner: A,
    epochs: Seq<ChainEpoch>,
    cut_off: ChainEpoch,
    f: Fault<A>,
)
    ensures
        faults_since(miner, epochs, cut_off).contains(f) <==> (f.miner == miner && f.fault
            >= cut_off && epochs.contains(f.fault)),
    decreases epochs.len(),
{
    if epochs.len() > 0 {
        let rest = epochs.drop_last();
        law_recent_faults_are_the_late_ones(miner, rest, cut_off, f);
        assert(epochs =~= rest.push(epochs.last()));
        let earlier = faults_since(miner, rest, cut_off);
        if rest.contains(f.fault) {
            let k = choose|k: int| 0 <= k < rest.len() && rest[k] == f.fault;
            assert(epochs[k] == f.fault);
        }
        if epochs.last() >= cut_off {
            let pushed = earlier.push(Fault { miner, fault: epochs.last() });
            if f.miner == miner && f.fault == epochs.last() {
                assert(pushed[earlier.len() as int] == f);
            }
            if pushed.contains(f) {
                let k = choose|k: int| 0 <= k < pushed.len() && pushed[k] == f;
                if k < earlier.len() {
                    assert(earlier[k] == f);
                }
            }
        }
        if epochs.contains(f.fault) {
            let k = choose|k: int| 0 <= k < epochs.len() && epochs[k] == f.fault;
            if k < rest.len() {
                assert(rest[k] == f.fault);
            }
        }
        if earlier.contains(f) && epochs.last() >= cut_off {
            let k = choose|k: int| 0 <= k < earlier.len() && earlier[k] == f;
            assert(earlier.push(Fault { miner, fault: epochs.last() })[k] == f);
        }
    }
}

/// Listing the faults of all miners fails exactly when reading the fault
/// epochs of some miner failed, and then with the first such miner's error.
pub proof fn law_faults_fail_on_first_error<A>(
    miners: Seq<(A, Result<Vec<ChainEpoch>, String>)>,
    cut_off: ChainEpoch,
)
    ensures
        all_faults_since(miners, cut_off) is Ok <==> forall|i: int|
            0 <= i < miners.len() ==> (#[trigger] miners[i]).1 is Ok,
        all_faults_since(miners, cut_off) is Err ==> exists|i: int|
            0 <= i < miners.len() && (forall|j: int| 0 <= j < i ==> (#[trigger] miners[j]).1 is Ok)
                && (#[trigger] miners[i]).1 == Err::<Vec<ChainEpoch>, String>(
                all_faults_since(miners, cut_off)->Err_0,
            ),
    decreases miners.len(),
{
    if miners.len() > 0 {
        let rest = miners.drop_last();
        law_faults_fail_on_first_error(rest, cut_off);
        assert forall|i: int| 0 <= i < rest.len() implies rest[i] == miners[i] by {}
        if all_faults_since(rest, cut_off) is Err {
            let i = choose|i: int|
                0 <= i < rest.len() && (forall|j: int| 0 <= j < i ==> (#[trigger] rest[j]).1 is Ok)
                    && (#[trigger] rest[i]).1 == Err::<Vec<ChainEpoch>, String>(
                    all_faults_since(rest, cut_off)->Err_0,
                );
            assert(miners[i] == rest[i]);
        } else {
            assert(miners[miners.len() - 1] == miners.last());
        }
    }
}

/// Whether a fault started at `cut_off` or later.
pub open spec fn started_since<A>(cut_off: int) -> spec_fn(Fault<A>) -> bool {
    |f: Fault<A>| f.fault >= cut_off
}

/// One miner's faults since a later cut-off are its faults since an earlier
/// cut-off, filtered to the later one.
proof fn lemma_faults_since_later_cutoff<A>(
    miner: A,
    epochs: Seq<ChainEpoch>,
    later: ChainEpoch,
    earlier: ChainEpoch,
)
    requires
        earlier <= later,
    ensures
        faults_since(miner, epochs, later) == faults_since(miner, epochs, earlier).filter(
            started_since::<A>(later as int),
        ),
    decreases epochs.len(),
{
    reveal(Seq::filter);
    if epochs.len() > 0 {
        lemma_faults_since_later_cutoff(miner, epochs.drop_last(), later, earlier);
        let before = faults_since(miner, epochs.drop_last(), earlier);
        let f = Fault { miner, fault: epochs.last() };
        if epochs.last() >= earlier {
            assert(before.push(f).drop_last() =~= before);
        }
    }
}

/// With a longer look-back the fault listing only gains older faults: the
/// listing for look-back `lb1` is the listing for the longer `lb2` filtered
/// to the faults at or after `epoch - lb1`, and both fail alike.
pub proof fn law_longer_look_back_adds_older_faults<A>(
    miners: Seq<(A, Result<Vec<ChainEpoch>, String>)>,
    epoch: ChainEpoch,
    lb1: ChainEpoch,
    lb2: ChainEpoch,
)
    requires
        lb1 <= lb2 <= epoch,
    ensures
        match (
            all_faults_since(miners, (epoch - lb1) as ChainEpoch),
            all_faults_since(miners, (epoch - lb2) as ChainEpoch),
        ) {
            (Ok(v1), Ok(v2)) => v1 == v2.filter(started_since::<A>(epoch - lb1)),
            (Err(e1), Err(e2)) => e1 == e2,
            _ => false,
        },
    decreases miners.len(),
{
    let c1 = (epoch - lb1) as ChainEpoch;
    let c2 = (epoch - lb2) as ChainEpoch;
    if miners.len() == 0 {
        reveal(Seq::filter);
    } else {
        law_longer_look_back_adds_older_faults(miners.drop_last(), epoch, lb1, lb2);
        match (all_faults_since(miners.drop_last(), c1), all_faults_since(miners.drop_last(), c2)) {
            (Ok(p1), Ok(p2)) => {
                match miners.last().1 {
                    Ok(epochs) => {
                        lemma_faults_since_later_cutoff(miners.last().0, epochs@, c1, c2);
                        Seq::filter_distributes_over_add(
                            p2,
                            faults_since(miners.last().0, epochs@, c2),
                            started_since::<A>(epoch - lb1),
                        );
                    },
                    Err(_) => {},
                }
            },
            _ => {},
        }
    }
}

/// Every fault in a successful listing belongs to one of the listed miners,
/// is one of that miner's fault epochs, and lies at or after the cut-off
/// `epoch - look_back`.
pub proof fn law_reported_faults_are_listed_and_recent<A>(
    miners: Seq<(A, Result<Vec<ChainEpoch>, String>)>,
    epoch: ChainEpoch,
    look_back: ChainEpoch,
)
    requires
        look_back <= epoch,
    ensures
        all_faults_since(miners, (epoch - look_back) as ChainEpoch) matches Ok(v) ==> forall|k: int|
            0 <= k < v.len() ==> {
                &&& (#[trigger] v[k]).fault >= epoch - look_back
                &&& exists|i: int|
                    0 <= i < miners.len() && (#[trigger] miners[i]).0 == v[k].miner && (
                    miners[i].1 matches Ok(epochs) && epochs@.contains(v[k].fault))
            },
    decreases miners.len(),
{
    let c = (epoch - look_back) as ChainEpoch;
    if miners.len() > 0 {
        let rest = miners.drop_last();
        law_reported_faults_are_listed_and_recent(rest, epoch, look_back);
        if let Ok(v) = all_faults_since(miners, c) {
            let p = all_faults_since(rest, c)->Ok_0;
            let last = miners.last();
            let epochs = last.1->Ok_0;
            let own = faults_since(last.0, epochs@, c);
            assert(v == p + own);
            assert forall|k: int| 0 <= k < v.len() implies {
                &&& (#[trigger] v[k]).fault >= epoch - look_back
                &&& exists|i: int|
                    0 <= i < miners.len() && (#[trigger] miners[i]).0 == v[k].miner && (
                    miners[i].1 matches Ok(epochs) && epochs@.contains(v[k].fault))
            } by {
                if k < p.len() {
                    assert(v[k] == p[k]);
                    let i = choose|i: int|
                        0 <= i < rest.len() && (#[trigger] rest[i]).0 == p[k].miner && (
                        rest[i].1 matches Ok(epochs) && epochs@.contains(p[k].fault));
                    assert(miners[i] == rest[i]);
                } else {
                    let f = own[k - p.len()];
                    assert(v[k] == f);
                    assert(own.contains(f));
                    law_recent_faults_are_the_late_ones(last.0, epochs@, c, f);
                    assert(miners[miners.len() - 1] == last);
                }
            }
        }
    }
}

/// A miner's recent faults are its fault epochs at or after the cut-off, in
/// their order, each taken as a fault of that miner.
pub proof fn law_recent_faults_are_filtered_epochs<A>(
    miner: A,
    epochs: Seq<ChainEpoch>,
    cut_off: ChainEpoch,
)
    ensures
        faults_since(miner, epochs, cut_off) == epochs.filter(|e: ChainEpoch| e >= cut_off).map_values(
            |e: ChainEpoch| Fault { miner, fault: e },
        ),
    decreases epochs.len(),
{
    reveal(Seq::filter);
    if epochs.len() > 0 {
        law_recent_faults_are_filtered_epochs(miner, epochs.drop_last(), cut_off);
        let kept = epochs.drop_last().filter(|e: ChainEpoch| e >= cut_off);
        let to_fault = |e: ChainEpoch| Fault { miner, fault: e };
        assert(kept.push(epochs.last()).map_values(to_fault) =~= kept.map_values(to_fault).push(
            to_fault(epochs.last()),
        ));
    }
}

/// When every miner's fault epochs were read, the listing is the
/// concatenation, miner after miner in list order, of each miner's fault
/// epochs at or after the cut-off `epoch - look_back`, as faults of that miner.
pub proof fn law_fault_listing_is_the_filtered_concatenation<A>(
    miners: Seq<(A, Result<Vec<ChainEpoch>, String>)>,
    epoch: ChainEpoch,
    look_back: ChainEpoch,
)
    requires
        look_back <= epoch,
        forall|i: int| 0 <= i < miners.len() ==> (#[trigger] miners[i]).1 is Ok,
    ensures
        all_faults_since(miners, (epoch - look_back) as ChainEpoch) == Ok::<
            Seq<Fault<A>>,
            String,
        >(
            miners.map_values(
                |m: (A, Result<Vec<ChainEpoch>, String>)|
                    m.1->Ok_0@.filter(|e: ChainEpoch| e >= epoch - look_back).map_values(
                        |e: ChainEpoch| Fault { miner: m.0, fault: e },
                    ),
            ).flatten(),
        ),
    decreases miners.len(),
{
    let c = (epoch - look_back) as ChainEpoch;
    let per_miner = |m: (A, Result<Vec<ChainEpoch>, String>)|
        m.1->Ok_0@.filter(|e: ChainEpoch| e >= epoch - look_back).map_values(
            |e: ChainEpoch| Fault { miner: m.0, fault: e },
        );
    if miners.len() > 0 {
        let rest = miners.drop_last();
        assert forall|i: int| 0 <= i < rest.len() implies (#[trigger] rest[i]).1 is Ok by {
            assert(rest[i] == miners[i]);
        }
        law_fault_listing_is_the_filtered_concatenation(rest, epoch, look_back);
        let last = miners.last();
        assert(miners[miners.len() - 1] == last);
        law_recent_faults_are_filtered_epochs(last.0, last.1->Ok_0@, c);
        assert(last.1->Ok_0@.filter(|e: ChainEpoch| e >= c) =~= last.1->Ok_0@.filter(
            |e: ChainEpoch| e >= epoch - look_back,
        ));
        assert(miners.map_values(per_miner) =~= rest.map_values(per_miner).push(per_miner(last)));
        rest.map_values(per_miner).lemma_flatten_push(per_miner(last));
    } else {
        assert(miners.map_values(per_miner) =~= Seq::<Seq<Fault<A>>>::empty());
    }
}

/// Every recent fault of every listed miner whose fault epochs were read is
/// in a successful listing: no miner and no fault at or after the cut-off
/// is left out.
pub proof fn law_fault_listing_is_complete<A>(
    miners: Seq<(A, Result<Vec<ChainEpoch>, String>)>,
    epoch: ChainEpoch,
    look_back: ChainEpoch,
    i: int,
    j: int,
)
    requires
        look_back <= epoch,
        0 <= i < miners.len(),
        miners[i].1 is Ok,
        0 <= j < miners[i].1->Ok_0@.len(),
        miners[i].1->Ok_0@[j] >= epoch - look_back,
    ensures
        all_faults_since(miners, (epoch - look_back) as ChainEpoch) matches Ok(v) ==> v.contains(
            Fault { miner: miners[i].0, fault: miners[i].1->Ok_0@[j] },
        ),
    decreases miners.len(),
{
    let c = (epoch - look_back) as ChainEpoch;
    if let Ok(v) = all_faults_since(miners, c) {
        let rest = miners.drop_last();
        let p = all_faults_since(rest, c)->Ok_0;
        let last = miners.last();
        let own = faults_since(last.0, last.1->Ok_0@, c);
        assert(v == p + own);
        let f = Fault { miner: miners[i].0, fault: miners[i].1->Ok_0@[j] };
        if i < miners.len() - 1 {
            assert(rest[i] == miners[i]);
            law_fault_listing_is_complete(rest, epoch, look_back, i, j);
            let k = choose|k: int| 0 <= k < p.len() && p[k] == f;
            assert(v[k] == f);
        } else {
            assert(miners[i] == last);
            assert(last.1->Ok_0@.contains(f.fault));
            law_recent_faults_are_the_late_ones(last.0, last.1->Ok_0@, c, f);
            let k = choose|k: int| 0 <= k < own.len() && own[k] == f;
            assert(v[p.len() + k] == f);
        }
    }
}

/// Appends to `all` the faults of `miner` that started at `cut_off` or later.
pub fn push_recent_faults<A: Copy>(
    all: &mut Vec<Fault<A>>,
    miner: A,
    epochs: &Vec<ChainEpoch>,
    cut_off: ChainEpoch,
)
    ensures
        final(all)@ == old(all)@ + faults_since(miner, epochs@, cut_off),
{
    let n = epochs.len();
    let mut i: usize = 0;
    while i < n
        invariant
            n == epochs@.len(),
            i <= n,
            all@ == old(all)@ + faults_since(miner, epochs@.take(i as int), cut_off),
        decreases n - i,
    {
        let fault_start = epochs[i];
        assert(epochs@.take(i as int + 1).drop_last() =~= epochs@.take(i as int));
        if fault_start >= cut_off {
            all.push(Fault { miner, fault: fault_start });
        }
        i = i + 1;
    }
    assert(epochs@.take(n as int) =~= epochs@);
}

/// Once the faults of a prefix of the miners fail, the whole list fails with
/// the same error.
proof fn lemma_first_error_stays<A>(
    miners: Seq<(A, Result<Vec<ChainEpoch>, String>)>,
    k: int,
    cut_off: ChainEpoch,
)
    requires
        0 <= k <= miners.len(),
        all_faults_since(miners.take(k), cut_off) is Err,
    ensures
        all_faults_since(miners, cut_off) == all_faults_since(miners.take(k), cut_off),
    decreases miners.len() - k,
{
    if k < miners.len() {
        assert(miners.take(k + 1).drop_last() =~= miners.take(k));
        lemma_first_error_stays(miners, k + 1, cut_off);
    } else {
        assert(miners.take(k) =~= miners);
    }
}

/// All miners' faults from `look_back` epochs before `epoch` on, each miner
/// given with its fault epochs or the error that reading them gave.
pub fn state_all_miner_faults<A: Copy>(
    epoch: ChainEpoch,
    look_back: ChainEpoch,
    miners: &Vec<(A, Result<Vec<ChainEpoch>, String>)>,
) -> (res: Result<Vec<Fault<A>>, String>)
    requires
        look_back <= epoch,
    ensures
        match (res, all_faults_since(miners@, (epoch - look_back) as ChainEpoch)) {
            (Ok(faults), Ok(expected)) => faults@ == expected,
            (Err(e), Err(expected)) => e == expected,
            _ => false,
        },
{
    let cut_off = fault_cutoff(epoch, look_back);
    let mut all_faults: Vec<Fault<A>> = Vec::new();
    let n = miners.len();
    let mut i: usize = 0;
    while i < n
        invariant
            n == miners@.len(),
            i <= n,
            cut_off == epoch - look_back,
            all_faults_since(miners@.take(i as int), cut_off) == Ok::<Seq<Fault<A>>, String>(
                all_faults@,
            ),
        decreases n - i,
    {
        assert(miners@.take(i as int + 1).drop_last() =~= miners@.take(i as int));
        let entry = &miners[i];
        match &entry.1 {
            Ok(epochs) => {
                assert(miners@.take(i as int + 1).last() == miners@[i as int]);
                push_recent_faults(&mut all_faults, entry.0, epochs, cut_off);
            },
            Err(e) => {
                proof {
                    assert(miners@.take(i as int + 1).last() == miners@[i as int]);
                    assert(all_faults_since(miners@.take(i as int + 1), cut_off) == Err::<
                        Seq<Fault<A>>,
                        String,
                    >(*e));
                    lemma_first_error_stays(miners@, i as int + 1, cut_off);
                }
                return Err(e.clone());
            },
        }
        i = i + 1;
    }
    assert(miners@.take(n as int) =~= miners@);
    Ok(all_faults)
}

} // verus!
