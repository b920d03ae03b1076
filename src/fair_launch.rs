//! Fair-launch escrow: receipts that record a net contribution, and the
//! pro-rata claim of escrowed tokens that redeems them.

use crate::decimal::{dec_div, dec_div_spec, dec_mul, dec_mul_spec, dec_opt, fits_dec, Dec};
use crate::error::CurveError;
use vstd::prelude::*;

verus! {

/// A claim on the fair-launch escrow, worth the net payment behind it.
#[derive(Clone, Copy, Debug, PartialEq, Eq, Structural)]
pub struct FairLaunchReceipt {
    pub id: u64,
    pub xrd_amount: Dec,
}

/// The sum of the contributions behind a list of receipts.
pub open spec fn total_contributed(s: Seq<FairLaunchReceipt>) -> int
    decreases s.len(),
{
    if s.len() == 0 {
        0
    } else {
        total_contributed(s.drop_last()) + s.last().xrd_amount@
    }
}

/// No two receipts of the list share an id.
pub open spec fn ids_distinct(s: Seq<FairLaunchReceipt>) -> bool {
    forall|i: int, j: int| 0 <= i < j < s.len() ==> s[i].id != s[j].id
}

/// Whether a receipt with this id is in the list.
pub open spec fn holds_id(s: Seq<FairLaunchReceipt>, id: u64) -> bool {
    exists|k: int| 0 <= k < s.len() && #[trigger] s[k].id == id
}

/// The position of the receipt with this id.
pub open spec fn index_of_id(s: Seq<FairLaunchReceipt>, id: u64) -> int {
    choose|k: int| 0 <= k < s.len() && #[trigger] s[k].id == id
}

/// Appending a receipt adds its contribution.
pub proof fn lemma_total_push(s: Seq<FairLaunchReceipt>, r: FairLaunchReceipt)
    ensures
        total_contributed(s.push(r)) == total_contributed(s) + r.xrd_amount@,
{
    assert(s.push(r).drop_last() =~= s);
}

/// Removing a receipt takes away its contribution.
pub proof fn lemma_total_remove(s: Seq<FairLaunchReceipt>, k: int)
    requires
        0 <= k < s.len(),
    ensures
        total_contributed(s.remove(k)) == total_contributed(s) - s[k].xrd_amount@,
    decreases s.len(),
{
    if k == s.len() - 1 {
        assert(s.remove(k) =~= s.drop_last());
    } else {
        lemma_total_remove(s.drop_last(), k);
        assert(s.remove(k).drop_last() =~= s.drop_last().remove(k));
        assert(s.remove(k).last() == s.last());
    }
}

/// The share of the escrow owed to a contribution:
/// `escrow * contributed / outstanding`, capped at the escrow. The
/// contribution that is all that is outstanding claims the whole escrow, so
/// the last redemption leaves nothing behind.
pub open spec fn claim_spec(escrow: int, contributed: int, outstanding: int) -> Option<int> {
    if contributed == outstanding {
        Some(escrow)
    } else {
        match dec_mul_spec(escrow, contributed) {
            Some(p) => match dec_div_spec(p, outstanding) {
                Some(c) => Some(if c > escrow { escrow } else { c }),
                None => None,
            },
            None => None,
        }
    }
}

/// The tokens that a receipt worth `contributed` claims from `escrow`, when
/// receipts worth `outstanding` in all share it.
pub fn claim_amount(escrow: Dec, contributed: Dec, outstanding: Dec) -> (r: Option<Dec>)
    ensures
        dec_opt(r) == claim_spec(escrow@, contributed@, outstanding@),
{
    if contributed == outstanding {
        return Some(escrow);
    }
    match dec_mul(escrow, contributed) {
        Some(p) => match dec_div(p, outstanding) {
            Some(c) => Some(c.min(escrow)),
            None => None,
        },
        None => None,
    }
}

/// A claim never exceeds the escrow it is taken from.
pub proof fn lemma_claim_within_escrow(escrow: int, contributed: int, outstanding: int)
    requires
        claim_spec(escrow, contributed, outstanding) is Some,
    ensures
        claim_spec(escrow, contributed, outstanding).unwrap() <= escrow,
{
}

/// Where in the list the receipt with this id stands, if it is there.
pub fn find_receipt(receipts: &Vec<FairLaunchReceipt>, id: u64) -> (r: Option<usize>)
    ensures
        r matches Some(k) ==> k < receipts@.len() && receipts@[k as int].id == id,
        r is None <==> !holds_id(receipts@, id),
{
    let mut i: usize = 0;
    while i < receipts.len()
        invariant
            i <= receipts@.len(),
            forall|j: int| 0 <= j < i ==> receipts@[j].id != id,
        decreases receipts@.len() - i,
    {
        if receipts[i].id == id {
            return Some(i);
        }
        i = i + 1;
    }
    None
}

/// An element-by-element copy of a list of receipts.
pub fn copy_receipts(receipts: &Vec<FairLaunchReceipt>) -> (r: Vec<FairLaunchReceipt>)
    ensures
        r@ == receipts@,
{
    let mut out: Vec<FairLaunchReceipt> = Vec::new();
    let mut i: usize = 0;
    while i < receipts.len()
        invariant
            i <= receipts@.len(),
            out@ =~= receipts@.take(i as int),
        decreases receipts@.len() - i,
    {
        out.push(receipts[i]);
        i = i + 1;
        assert(out@ =~= receipts@.take(i as int));
    }
    assert(receipts@.take(receipts@.len() as int) =~= receipts@);
    out
}


/// Removing a receipt keeps the ids of the others distinct.
pub proof fn lemma_distinct_remove(s: Seq<FairLaunchReceipt>, k: int)
    requires
        ids_distinct(s),
        0 <= k < s.len(),
    ensures
        ids_distinct(s.remove(k)),
{
    let t = s.remove(k);
    assert forall|i: int, j: int| 0 <= i < j < t.len() implies t[i].id != t[j].id by {
        let si = if i < k { i } else { i + 1 };
        let sj = if j < k { j } else { j + 1 };
        assert(t[i] == s[si]);
        assert(t[j] == s[sj]);
    }
}

/// Redeeming the receipt `id` when `t` tokens are claimed so far, `e` are
/// left in escrow, `o` is outstanding and `rs` is the registry: the receipt
/// must be in the registry, claims its share, and leaves it.
pub open spec fn redeem_step_spec(
    t: int,
    e: int,
    o: int,
    rs: Seq<FairLaunchReceipt>,
    id: u64,
) -> Result<(int, int, int, Seq<FairLaunchReceipt>), CurveError> {
    if !holds_id(rs, id) {
        Err(CurveError::UnknownOrForeignReceipt)
    } else {
        let k = index_of_id(rs, id);
        let c = rs[k].xrd_amount@;
        match claim_spec(e, c, o) {
            Some(x) => if fits_dec(t + x) && fits_dec(e - x) && fits_dec(o - c) {
                Ok((t + x, e - x, o - c, rs.remove(k)))
            } else {
                Err(CurveError::Overflow)
            },
            None => Err(CurveError::Overflow),
        }
    }
}

/// Redeeming the receipts named by `ids`, one after the other, out of the
/// registry `receipts`, an escrow and the outstanding contributions: the
/// tokens claimed in all, the escrow and outstanding amount left, and the
/// registry left.
pub open spec fn redeem_spec(
    receipts: Seq<FairLaunchReceipt>,
    escrow: int,
    outstanding: int,
    ids: Seq<u64>,
) -> Result<(int, int, int, Seq<FairLaunchReceipt>), CurveError>
    decreases ids.len(),
{
    if ids.len() == 0 {
        Ok((0, escrow, outstanding, receipts))
    } else {
        match redeem_spec(receipts, escrow, outstanding, ids.drop_last()) {
            Ok((t, e, o, rs)) => redeem_step_spec(t, e, o, rs, ids.last()),
            Err(err) => Err(err),
        }
    }
}

/// Redeems the receipt `id` out of `local`: one step of `redeem_spec`.
fn redeem_one(local: &mut Vec<FairLaunchReceipt>, t: Dec, e: Dec, o: Dec, id: u64) -> (r: Result<
    (Dec, Dec, Dec),
    CurveError,
>)
    requires
        ids_distinct(old(local)@),
    ensures
        match r {
            Ok((t2, e2, o2)) => redeem_step_spec(t@, e@, o@, old(local)@, id) == Ok::<
                (int, int, int, Seq<FairLaunchReceipt>),
                CurveError,
            >((t2@, e2@, o2@, final(local)@)),
            Err(err) => redeem_step_spec(t@, e@, o@, old(local)@, id) == Err::<
                (int, int, int, Seq<FairLaunchReceipt>),
                CurveError,
            >(err),
        },
        ids_distinct(final(local)@),
{
    let k = match find_receipt(local, id) {
        Some(k) => k,
        None => return Err(CurveError::UnknownOrForeignReceipt),
    };
    proof {
        let kk = index_of_id(local@, id);
        assert(holds_id(local@, id));
        assert(local@[kk].id == id);
    }
    let c = local[k].xrd_amount;
    let x = match claim_amount(e, c, o) {
        Some(x) => x,
        None => return Err(CurveError::Overflow),
    };
    let (nt, ne, no) = match (t.checked_add(x), e.checked_sub(x), o.checked_sub(c)) {
        (Some(nt), Some(ne), Some(no)) => (nt, ne, no),
        _ => return Err(CurveError::Overflow),
    };
    proof {
        lemma_distinct_remove(local@, k as int);
    }
    local.remove(k);
    Ok((nt, ne, no))
}

/// Once a prefix of the ids is refused, the whole list is refused alike.
proof fn lemma_redeem_err_extends(
    receipts: Seq<FairLaunchReceipt>,
    escrow: int,
    outstanding: int,
    ids: Seq<u64>,
    j: int,
)
    requires
        0 <= j <= ids.len(),
        redeem_spec(receipts, escrow, outstanding, ids.take(j)) is Err,
    ensures
        redeem_spec(receipts, escrow, outstanding, ids) == redeem_spec(
            receipts,
            escrow,
            outstanding,
            ids.take(j),
        ),
    decreases ids.len() - j,
{
    if j < ids.len() {
        assert(ids.take(j + 1).drop_last() =~= ids.take(j));
        lemma_redeem_err_extends(receipts, escrow, outstanding, ids, j + 1);
    } else {
        assert(ids.take(j) =~= ids);
    }
}

/// Redeems the receipts named by `ids` in order. On success `receipts` loses
/// them and the claimed total, the escrow left and the outstanding
/// contribution left come back; on failure `receipts` is unchanged.
pub fn redeem_receipts(
    receipts: &mut Vec<FairLaunchReceipt>,
    escrow: Dec,
    outstanding: Dec,
    ids: &Vec<u64>,
) -> (r: Result<(Dec, Dec, Dec), CurveError>)
    requires
        ids_distinct(old(receipts)@),
        fits_dec(escrow@),
    ensures
        match r {
            Ok((t, e, o)) => redeem_spec(old(receipts)@, escrow@, outstanding@, ids@) == Ok::<
                (int, int, int, Seq<FairLaunchReceipt>),
                CurveError,
            >((t@, e@, o@, final(receipts)@)),
            Err(err) => redeem_spec(old(receipts)@, escrow@, outstanding@, ids@) == Err::<
                (int, int, int, Seq<FairLaunchReceipt>),
                CurveError,
            >(err) && final(receipts)@ == old(receipts)@,
        },
        ids_distinct(final(receipts)@),
{
    let mut local = copy_receipts(receipts);
    let mut total = Dec::zero();
    let mut e = escrow;
    let mut o = outstanding;
    let mut i: usize = 0;
    assert(ids@.take(0) =~= Seq::<u64>::empty());
    while i < ids.len()
        invariant
            i <= ids@.len(),
            ids_distinct(local@),
            ids_distinct(receipts@),
            receipts@ == old(receipts)@,
            redeem_spec(old(receipts)@, escrow@, outstanding@, ids@.take(i as int)) == Ok::<
                (int, int, int, Seq<FairLaunchReceipt>),
                CurveError,
            >((total@, e@, o@, local@)),
        decreases ids@.len() - i,
    {
        let id = ids[i];
        assert(ids@.take(i + 1).drop_last() =~= ids@.take(i as int));
        assert(ids@.take(i + 1).last() == id);
        match redeem_one(&mut local, total, e, o, id) {
            Ok((nt, ne, no)) => {
                total = nt;
                e = ne;
                o = no;
            },
            Err(err) => {
                proof {
                    lemma_redeem_err_extends(old(receipts)@, escrow@, outstanding@, ids@, i + 1);
                }
                return Err(err);
            },
        }
        i = i + 1;
    }
    assert(ids@.take(ids@.len() as int) =~= ids@);
    *receipts = local;
    Ok((total, e, o))
}

/// Every id in the list is below `bound`.
pub open spec fn ids_below(s: Seq<FairLaunchReceipt>, bound: u64) -> bool {
    forall|i: int| 0 <= i < s.len() ==> #[trigger] s[i].id < bound
}

/// A redemption hands out exactly what leaves the escrow, keeps the escrow
/// non-negative, keeps the outstanding amount equal to what the receipts
/// left are worth, and leaves only receipts that were there.
pub proof fn lemma_redeem_keeps(
    receipts: Seq<FairLaunchReceipt>,
    escrow: int,
    outstanding: int,
    ids: Seq<u64>,
    bound: u64,
)
    requires
        redeem_spec(receipts, escrow, outstanding, ids) is Ok,
        escrow >= 0,
        ids_below(receipts, bound),
    ensures
        ({
            let (t, e, o, rs) = redeem_spec(receipts, escrow, outstanding, ids).unwrap();
            &&& o - total_contributed(rs) == outstanding - total_contributed(receipts)
            &&& t + e == escrow
            &&& e >= 0
            &&& outstanding == total_contributed(receipts) && receipts.len() > 0 && rs.len() == 0
                ==> e == 0
            &&& ids_below(rs, bound)
            &&& rs.len() + ids.len() == receipts.len()
        }),
    decreases ids.len(),
{
    if ids.len() > 0 {
        lemma_redeem_keeps(receipts, escrow, outstanding, ids.drop_last(), bound);
        let (t, e, o, rs) = redeem_spec(receipts, escrow, outstanding, ids.drop_last()).unwrap();
        let k = index_of_id(rs, ids.last());
        lemma_total_remove(rs, k);
        let c = rs[k].xrd_amount@;
        lemma_claim_within_escrow(e, c, o);
        let t2 = rs.remove(k);
        if rs.len() == 1 {
            assert(rs.drop_last().len() == 0);
            assert(total_contributed(rs.drop_last()) == 0);
            assert(k == 0);
        }
        assert forall|i: int| 0 <= i < t2.len() implies #[trigger] t2[i].id < bound by {
            let si = if i < k { i } else { i + 1 };
            assert(t2[i] == rs[si]);
        }
    }
}

} // verus!
