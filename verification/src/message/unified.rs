//! Searching the messages of every account for one correspondent: which
//! stored address records qualify, and the order in which the messages come.
use vstd::prelude::*;
use crate::message::RequestError;

verus! {

/// Request for the messages exchanged with one address.
#[derive(Clone, Debug, PartialEq, Eq)]
pub struct UnifiedSearchRequest {
    /// The accounts to search; all of them when absent.
    pub accounts: Option<Vec<u64>>,
    /// The address, as sender or recipient.
    pub email: String,
    /// Only messages from this moment on (milliseconds since the Unix epoch).
    pub after: Option<i64>,
    /// Only messages up to this moment (milliseconds since the Unix epoch).
    pub before: Option<i64>,
}

/// One stored occurrence of the address in a message.
#[derive(Clone, Copy, Debug, PartialEq, Eq, Structural)]
pub struct AddressHit {
    /// Identifies the message.
    pub envelope_hash: u64,
    pub account_id: u64,
    /// Milliseconds since the Unix epoch.
    pub internal_date: Option<i64>,
}

/// The time of a hit; a message without a date counts as of the epoch.
pub open spec fn hit_time(h: AddressHit) -> i64 {
    match h.internal_date {
        Some(t) => t,
        None => 0,
    }
}

/// A hit falls in the time window and in the accounts asked for.
pub open spec fn hit_qualifies(r: UnifiedSearchRequest, h: AddressHit) -> bool {
    &&& (r.after matches Some(a) ==> hit_time(h) >= a)
    &&& (r.before matches Some(b) ==> hit_time(h) <= b)
    &&& (r.accounts matches Some(v) ==> v@.contains(h.account_id))
}

/// The messages found so far: account and time, by message.
pub type HitMap = ahash::AHashMap<u64, (u64, i64)>;

/// What a map of found messages holds.
pub uninterp spec fn found(m: HitMap) -> Map<u64, (u64, i64)>;

/// Calls `ahash::AHashMap::new`. Claimed: the map is empty.
#[verifier::external_body]
fn new_hit_map() -> (r: HitMap)
    ensures
        found(r) == no_hits(),
{
    ahash::AHashMap::new()
}

/// Calls `entry(..).or_insert(..)` of `ahash::AHashMap` (a
/// `std::collections::HashMap`). Claimed: a message already present keeps
/// what it had; a new one gets the value.
#[verifier::external_body]
fn keep_first(m: &mut HitMap, hash: u64, value: (u64, i64))
    ensures
        found(*final(m)) == (if found(*old(m)).dom().contains(hash) {
            found(*old(m))
        } else {
            found(*old(m)).insert(hash, value)
        }),
{
    m.entry(hash).or_insert(value);
}

/// Calls `IntoIterator::into_iter` of `ahash::AHashMap`. Claimed: every entry
/// comes out once, in an order that the map's random hasher decides and that
/// is not stated.
#[verifier::external_body]
fn drain_hits(m: HitMap) -> (r: Vec<(u64, u64, i64)>)
    ensures
        forall|i: int|
            0 <= i < r@.len() ==> found(m).dom().contains((#[trigger] r@[i]).0) && found(m)[r@[i].0]
                == (r@[i].1, r@[i].2),
        forall|k: u64| #[trigger] found(m).dom().contains(k) ==> exists|i: int| 0 <= i < r@.len() && r@[i].0 == k,
        forall|i: int, j: int| 0 <= i < j < r@.len() ==> r@[i].0 != r@[j].0,
{
    m.into_iter().map(|(h, (a, t))| (h, a, t)).collect()
}

pub open spec fn no_hits() -> Map<u64, (u64, i64)> {
    Map::empty()
}

/// The first hit of each message among the qualifying hits of `hits`, taken
/// in order, added to `m`.
pub open spec fn first_hits(m: Map<u64, (u64, i64)>, r: UnifiedSearchRequest, hits: Seq<AddressHit>) -> Map<
    u64,
    (u64, i64),
>
    decreases hits.len(),
{
    if hits.len() == 0 {
        m
    } else {
        let prev = first_hits(m, r, hits.drop_last());
        let h = hits.last();
        if hit_qualifies(r, h) && !prev.dom().contains(h.envelope_hash) {
            prev.insert(h.envelope_hash, (h.account_id, hit_time(h)))
        } else {
            prev
        }
    }
}

/// The messages of the search: the first qualifying hit of each, among the
/// senders, then the recipients, then the copies.
pub open spec fn unified_found(
    r: UnifiedSearchRequest,
    from: Seq<AddressHit>,
    to: Seq<AddressHit>,
    cc: Seq<AddressHit>,
) -> Map<u64, (u64, i64)> {
    first_hits(first_hits(first_hits(no_hits(), r, from), r, to), r, cc)
}

/// `list` holds each message of `found` once, with its account and time, and
/// no other; newest first (`desc`) or oldest first.
pub open spec fn unified_listing(found: Map<u64, (u64, i64)>, desc: bool, list: Seq<(u64, u64, i64)>) -> bool {
    &&& forall|i: int|
        0 <= i < list.len() ==> found.dom().contains((#[trigger] list[i]).0) && found[list[i].0] == (
            list[i].1,
            list[i].2,
        )
    &&& forall|k: u64| #[trigger] found.dom().contains(k) ==> exists|i: int| 0 <= i < list.len() && list[i].0 == k
    &&& forall|i: int, j: int| 0 <= i < j < list.len() ==> list[i].0 != list[j].0
    &&& forall|i: int, j: int|
        0 <= i < j < list.len() ==> if desc {
            list[i].2 >= list[j].2
        } else {
            list[i].2 <= list[j].2
        }
}

/// Page `page` (counted from one) of `all`, `page_size` to a page: empty past
/// the end, shorter at the end.
pub open spec fn page_items<T>(all: Seq<T>, page: nat, page_size: nat) -> Seq<T>
    recommends
        page >= 1,
{
    let start = (page - 1) * page_size;
    if start >= all.len() {
        Seq::empty()
    } else if start + page_size >= all.len() {
        all.subrange(start, all.len() as int)
    } else {
        all.subrange(start, start + page_size)
    }
}

/// Page `page` of a list of found messages; both the page number and the page
/// size must be positive.
pub fn page_slice(all: &Vec<(u64, u64, i64)>, page: u64, page_size: u64) -> (r: Result<
    Vec<(u64, u64, i64)>,
    RequestError,
>)
    ensures
        page == 0 || page_size == 0 ==> r == Err::<Vec<(u64, u64, i64)>, RequestError>(
            RequestError::PageParamsZero,
        ),
        page > 0 && page_size > 0 ==> (r matches Ok(v) && v@ == page_items(
            all@,
            page as nat,
            page_size as nat,
        )),
{
    if page == 0 || page_size == 0 {
        return Err(RequestError::PageParamsZero);
    }
    let p: u128 = (page - 1) as u128;
    let z: u128 = page_size as u128;
    assert(p * z <= 0xffff_ffff_ffff_ffffu128 * 0xffff_ffff_ffff_ffffu128) by (nonlinear_arith)
        requires
            p <= 0xffff_ffff_ffff_ffffu128,
            z <= 0xffff_ffff_ffff_ffffu128,
    ;
    let start: u128 = p * z;
    let len = all.len();
    let mut out: Vec<(u64, u64, i64)> = Vec::new();
    if start >= len as u128 {
        assert(out@ =~= page_items(all@, page as nat, page_size as nat));
        return Ok(out);
    }
    let from = start as usize;
    let end: usize = if start + page_size as u128 >= len as u128 {
        len
    } else {
        (start + page_size as u128) as usize
    };
    let mut i = from;
    while i < end
        invariant
            from <= i <= end <= all@.len(),
            out@ == all@.subrange(from as int, i as int),
        decreases end - i,
    {
        out.push(all[i]);
        i = i + 1;
        assert(out@ =~= all@.subrange(from as int, i as int));
    }
    assert(out@ =~= page_items(all@, page as nat, page_size as nat));
    Ok(out)
}

impl UnifiedSearchRequest {
    /// Page `page` of the messages exchanged with the address, given the
    /// stored occurrences of the address as sender, recipient and copy: page
    /// and page size must be positive; the page is cut from the messages in
    /// time order, each message once.
    pub fn search_page(
        &self,
        from: &Vec<AddressHit>,
        to: &Vec<AddressHit>,
        cc: &Vec<AddressHit>,
        page: u64,
        page_size: u64,
        desc: bool,
    ) -> (r: Result<Vec<(u64, u64, i64)>, RequestError>)
        ensures
            page == 0 || page_size == 0 ==> r == Err::<Vec<(u64, u64, i64)>, RequestError>(
                RequestError::PageParamsZero,
            ),
            page > 0 && page_size > 0 ==> (r matches Ok(v) && exists|all: Seq<(u64, u64, i64)>|
                unified_listing(unified_found(*self, from@, to@, cc@), desc, all) && v@
                    == page_items(all, page as nat, page_size as nat)),
    {
        if page == 0 || page_size == 0 {
            return Err(RequestError::PageParamsZero);
        }
        let all = self.matching_messages(from, to, cc, desc);
        let r = page_slice(&all, page, page_size);
        assert(unified_listing(unified_found(*self, from@, to@, cc@), desc, all@));
        r
    }

    #[verifier::loop_isolation(false)]
    pub fn qualifies(&self, h: &AddressHit) -> (r: bool)
        ensures
            r == hit_qualifies(*self, *h),
    {
        let t = match h.internal_date {
            Some(t) => t,
            None => 0,
        };
        if let Some(a) = self.after {
            if t < a {
                return false;
            }
        }
        if let Some(b) = self.before {
            if t > b {
                return false;
            }
        }
        match &self.accounts {
            Some(v) => {
                let mut i: usize = 0;
                while i < v.len()
                    invariant
                        i <= v@.len(),
                        forall|j: int| 0 <= j < i ==> v@[j] != h.account_id,
                    decreases v.len() - i,
                {
                    if v[i] == h.account_id {
                        assert(v@[i as int] == h.account_id);
                        return true;
                    }
                    i = i + 1;
                }
                false
            },
            None => true,
        }
    }

    fn collect(&self, m: &mut HitMap, hits: &Vec<AddressHit>)
        ensures
            found(*final(m)) == first_hits(found(*old(m)), *self, hits@),
    {
        let ghost start = found(*m);
        let mut i: usize = 0;
        while i < hits.len()
            invariant
                i <= hits@.len(),
                found(*m) == first_hits(start, *self, hits@.take(i as int)),
            decreases hits.len() - i,
        {
            let h = hits[i];
            assert(hits@.take(i + 1).drop_last() =~= hits@.take(i as int));
            assert(hits@.take(i + 1).last() == h);
            if self.qualifies(&h) {
                let t = match h.internal_date {
                    Some(t) => t,
                    None => 0,
                };
                keep_first(m, h.envelope_hash, (h.account_id, t));
            }
            i = i + 1;
        }
        assert(hits@.take(i as int) =~= hits@);
    }

    /// The messages exchanged with the address: message, account and time of
    /// each, once per message, newest first (`desc`) or oldest first.
    pub fn matching_messages(
        &self,
        from: &Vec<AddressHit>,
        to: &Vec<AddressHit>,
        cc: &Vec<AddressHit>,
        desc: bool,
    ) -> (r: Vec<(u64, u64, i64)>)
        ensures
            unified_listing(unified_found(*self, from@, to@, cc@), desc, r@),
    {
        let mut m = new_hit_map();
        self.collect(&mut m, from);
        self.collect(&mut m, to);
        self.collect(&mut m, cc);
        let ghost table = found(m);
        let entries = drain_hits(m);
        let sorted = newest_first(&entries);
        proof {
            reveal(rearranges);
            assert forall|i: int| 0 <= i < sorted@.len() implies table.dom().contains(
                (#[trigger] sorted@[i]).0,
            ) && table[sorted@[i].0] == (sorted@[i].1, sorted@[i].2) by {
                let j = choose|j: int| 0 <= j < entries@.len() && sorted@[i] == entries@[j];
            }
            assert forall|k: u64| #[trigger] table.dom().contains(k) implies exists|i: int|
                0 <= i < sorted@.len() && sorted@[i].0 == k by {
                let j = choose|j: int| 0 <= j < entries@.len() && entries@[j].0 == k;
                let a = choose|a: int| 0 <= a < sorted@.len() && sorted@[a] == entries@[j];
            }
        }
        if desc {
            sorted
        } else {
            let r = reversed(&sorted);
            proof {
                assert forall|k: u64| #[trigger] table.dom().contains(k) implies exists|i: int|
                    0 <= i < r@.len() && r@[i].0 == k by {
                    let a = choose|a: int| 0 <= a < sorted@.len() && sorted@[a].0 == k;
                    assert(r@[sorted@.len() - 1 - a] == sorted@[a]);
                }
                assert forall|i: int| 0 <= i < r@.len() implies table.dom().contains(
                    (#[trigger] r@[i]).0,
                ) && table[r@[i].0] == (r@[i].1, r@[i].2) by {
                    assert(r@[i] == sorted@[sorted@.len() - 1 - i]);
                }
                assert forall|i: int, j: int| 0 <= i < j < r@.len() implies r@[i].0 != r@[j].0
                    && r@[i].2 <= r@[j].2 by {
                    assert(r@[i] == sorted@[sorted@.len() - 1 - i]);
                    assert(r@[j] == sorted@[sorted@.len() - 1 - j]);
                }
            }
            r
        }
    }
}

/// The entries are a rearrangement of `v` with distinct messages.
#[verifier::opaque]
pub open spec fn rearranges(r: Seq<(u64, u64, i64)>, v: Seq<(u64, u64, i64)>) -> bool {
    &&& r.len() == v.len()
    &&& forall|a: int| 0 <= a < r.len() ==> exists|j: int| 0 <= j < v.len() && #[trigger] r[a] == v[j]
    &&& forall|j: int| 0 <= j < v.len() ==> exists|a: int| 0 <= a < r.len() && r[a] == #[trigger] v[j]
    &&& forall|a: int, b: int| 0 <= a < b < r.len() ==> r[a].0 != r[b].0
}

proof fn lemma_insert_newest_first(before: Seq<(u64, u64, i64)>, pos: int, e: (u64, u64, i64))
    requires
        0 <= pos <= before.len(),
        forall|a: int, b: int| 0 <= a < b < before.len() ==> before[a].2 >= before[b].2,
        forall|k: int| 0 <= k < pos ==> (#[trigger] before[k]).2 >= e.2,
        forall|k: int| pos <= k < before.len() ==> (#[trigger] before[k]).2 < e.2,
    ensures
        forall|a: int, b: int|
            0 <= a < b < before.insert(pos, e).len() ==> before.insert(pos, e)[a].2 >= before.insert(
                pos,
                e,
            )[b].2,
{
    before.insert_ensures(pos, e);
    let out = before.insert(pos, e);
    assert forall|a: int, b: int| 0 <= a < b < out.len() implies out[a].2 >= out[b].2 by {
        if b < pos {
        } else if b == pos {
            assert(out[a] == before[a]);
        } else if a < pos {
            assert(out[a] == before[a]);
            assert(out[b] == before[b - 1]);
            if a < b - 1 {
            }
        } else if a == pos {
            assert(out[b] == before[b - 1]);
        } else {
            assert(out[a] == before[a - 1]);
            assert(out[b] == before[b - 1]);
        }
    }
}

#[verifier::rlimit(60)]
#[verifier::spinoff_prover]
proof fn lemma_insert_rearranges(
    before: Seq<(u64, u64, i64)>,
    prefix: Seq<(u64, u64, i64)>,
    pos: int,
    e: (u64, u64, i64),
)
    requires
        0 <= pos <= before.len(),
        rearranges(before, prefix),
        forall|j: int| 0 <= j < prefix.len() ==> (#[trigger] prefix[j]).0 != e.0,
    ensures
        rearranges(before.insert(pos, e), prefix.push(e)),
{
    reveal(rearranges);
    before.insert_ensures(pos, e);
    let out = before.insert(pos, e);
    let next = prefix.push(e);
    assert forall|a: int| 0 <= a < out.len() implies exists|j: int|
        0 <= j < next.len() && #[trigger] out[a] == next[j] by {
        if a < pos {
            let j = choose|j: int| 0 <= j < prefix.len() && before[a] == prefix[j];
            assert(out[a] == next[j]);
        } else if a == pos {
            assert(out[a] == next[prefix.len() as int]);
        } else {
            let j = choose|j: int| 0 <= j < prefix.len() && before[a - 1] == prefix[j];
            assert(out[a] == next[j]);
        }
    }
    assert forall|j: int| 0 <= j < next.len() implies exists|a: int|
        0 <= a < out.len() && out[a] == #[trigger] next[j] by {
        if j < prefix.len() {
            assert(next[j] == prefix[j]);
            let a = choose|a: int| 0 <= a < before.len() && before[a] == prefix[j];
            if a < pos {
                assert(out[a] == next[j]);
            } else {
                assert(out[a + 1] == next[j]);
            }
        } else {
            assert(out[pos] == next[j]);
        }
    }
    assert forall|a: int| 0 <= a < before.len() implies (#[trigger] before[a]).0 != e.0 by {
        let j = choose|j: int| 0 <= j < prefix.len() && before[a] == prefix[j];
    }
    assert forall|a: int, b: int| 0 <= a < b < out.len() implies out[a].0 != out[b].0 by {
        if b < pos {
        } else if b == pos {
            assert(out[a] == before[a]);
        } else if a < pos {
            assert(out[a] == before[a]);
            assert(out[b] == before[b - 1]);
        } else if a == pos {
            assert(out[b] == before[b - 1]);
        } else {
            assert(out[a] == before[a - 1]);
            assert(out[b] == before[b - 1]);
        }
    }
}

/// The entries ordered by time, newest first.
fn newest_first(v: &Vec<(u64, u64, i64)>) -> (r: Vec<(u64, u64, i64)>)
    requires
        forall|a: int, b: int| 0 <= a < b < v@.len() ==> v@[a].0 != v@[b].0,
    ensures
        rearranges(r@, v@),
        forall|i: int, j: int| 0 <= i < j < r@.len() ==> r@[i].2 >= r@[j].2,
{
    let mut out: Vec<(u64, u64, i64)> = Vec::new();
    let mut i: usize = 0;
    assert(rearranges(out@, v@.take(0))) by {
        reveal(rearranges);
    }
    while i < v.len()
        invariant
            i <= v@.len(),
            forall|a: int, b: int| 0 <= a < b < v@.len() ==> v@[a].0 != v@[b].0,
            rearranges(out@, v@.take(i as int)),
            forall|a: int, b: int| 0 <= a < b < out@.len() ==> out@[a].2 >= out@[b].2,
        decreases v.len() - i,
    {
        let e = v[i];
        let mut pos: usize = 0;
        while pos < out.len() && out[pos].2 >= e.2
            invariant
                pos <= out@.len(),
                forall|a: int, b: int| 0 <= a < b < out@.len() ==> out@[a].2 >= out@[b].2,
                forall|k: int| 0 <= k < pos ==> (#[trigger] out@[k]).2 >= e.2,
            decreases out.len() - pos,
        {
            pos = pos + 1;
        }
        let ghost before = out@;
        let ghost prefix = v@.take(i as int);
        proof {
            assert forall|k: int| pos <= k < before.len() implies (#[trigger] before[k]).2 < e.2 by {
                assert(before[pos as int].2 < e.2);
            }
            lemma_insert_newest_first(before, pos as int, e);
            assert forall|j: int| 0 <= j < prefix.len() implies (#[trigger] prefix[j]).0 != e.0 by {
                assert(prefix[j] == v@[j]);
                assert(e == v@[i as int]);
            }
            lemma_insert_rearranges(before, prefix, pos as int, e);
            assert(v@.take(i + 1) =~= prefix.push(e));
        }
        out.insert(pos, e);
        i = i + 1;
    }
    assert(v@.take(i as int) =~= v@);
    out
}

/// The entries in the opposite order.
fn reversed(v: &Vec<(u64, u64, i64)>) -> (r: Vec<(u64, u64, i64)>)
    ensures
        r@.len() == v@.len(),
        forall|i: int| 0 <= i < r@.len() ==> r@[i] == v@[v@.len() - 1 - i],
{
    let mut r: Vec<(u64, u64, i64)> = Vec::new();
    let mut i: usize = v.len();
    while i > 0
        invariant
            i <= v@.len(),
            r@.len() == v@.len() - i,
            forall|k: int| 0 <= k < r@.len() ==> r@[k] == v@[v@.len() - 1 - k],
        decreases i,
    {
        i = i - 1;
        r.push(v[i]);
    }
    r
}

} // verus!
