//! Service discovery: the endpoint list published by the discovery
//! service is a comma-separated list of addresses.

use vstd::prelude::*;

verus! {

/// The byte that separates endpoints in the published list (`,`).
pub const ENDPOINTS_SPLIT_TAG: u8 = 44;

/// The text that `bytes` encode in UTF-8, as `std::str::from_utf8`
/// decodes it: `None` when they are no valid UTF-8.
#[verifier::external_body]
fn utf8_string(bytes: &[u8]) -> (res: Option<String>)
    ensures
        res is Some <==> vstd::utf8::valid_utf8(bytes@),
        res matches Some(s) ==> s@ == vstd::utf8::decode_utf8(bytes@),
{
    match std::str::from_utf8(bytes) {
        Ok(s) => Some(s.to_owned()),
        Err(_) => None,
    }
}

/// The pieces of `s` between occurrences of `sep`, as std's `split`
/// gives them: empty pieces included, one piece when `sep` is absent.
pub open spec fn split_on(s: Seq<u8>, sep: u8) -> Seq<Seq<u8>>
    decreases s.len(),
{
    if s.len() == 0 {
        seq![Seq::empty()]
    } else if s.last() == sep {
        split_on(s.drop_last(), sep).push(Seq::empty())
    } else {
        let p = split_on(s.drop_last(), sep);
        p.update(p.len() - 1, p.last().push(s.last()))
    }
}

/// The pieces that are valid UTF-8, decoded, in order.
pub open spec fn utf8_pieces(ps: Seq<Seq<u8>>) -> Seq<Seq<char>>
    decreases ps.len(),
{
    if ps.len() == 0 {
        Seq::empty()
    } else if vstd::utf8::valid_utf8(ps.last()) {
        utf8_pieces(ps.drop_last()).push(vstd::utf8::decode_utf8(ps.last()))
    } else {
        utf8_pieces(ps.drop_last())
    }
}

proof fn lemma_split_on_nonempty(s: Seq<u8>, sep: u8)
    ensures
        split_on(s, sep).len() >= 1,
    decreases s.len(),
{
    if s.len() > 0 {
        lemma_split_on_nonempty(s.drop_last(), sep);
    }
}

/// The endpoints of a published list: the comma-separated pieces that
/// are valid UTF-8, in order.
pub fn split_endpoints(val: &[u8]) -> (res: Vec<String>)
    ensures
        res@.map_values(|s: String| s@) == utf8_pieces(split_on(val@, ENDPOINTS_SPLIT_TAG)),
{
    let mut pieces: Vec<Vec<u8>> = Vec::new();
    let mut cur: Vec<u8> = Vec::new();
    let mut k: usize = 0;
    while k < val.len()
        invariant
            k <= val@.len(),
            split_on(val@.take(k as int), ENDPOINTS_SPLIT_TAG) == pieces@.map_values(|p: Vec<u8>| p@).push(cur@),
        decreases val@.len() - k,
    {
        let b = val[k];
        let ghost prefix = val@.take(k as int);
        assert(val@.take(k + 1).drop_last() =~= prefix);
        assert(val@.take(k + 1).last() == b);
        proof { lemma_split_on_nonempty(prefix, ENDPOINTS_SPLIT_TAG); }
        if b == ENDPOINTS_SPLIT_TAG {
            let mut done: Vec<u8> = Vec::new();
            std::mem::swap(&mut done, &mut cur);
            let ghost prev = pieces@;
            pieces.push(done);
            assert(pieces@.map_values(|p: Vec<u8>| p@) =~= prev.map_values(|p: Vec<u8>| p@).push(done@));
            assert(split_on(val@.take(k + 1), ENDPOINTS_SPLIT_TAG) =~= pieces@.map_values(
                |p: Vec<u8>| p@,
            ).push(cur@));
        } else {
            let ghost before = cur@;
            cur.push(b);
            assert(split_on(val@.take(k + 1), ENDPOINTS_SPLIT_TAG) =~= pieces@.map_values(
                |p: Vec<u8>| p@,
            ).push(cur@));
        }
        k = k + 1;
    }
    assert(val@.take(k as int) =~= val@);
    let ghost last_piece = cur@;
    pieces.push(cur);
    let ghost all = pieces@.map_values(|p: Vec<u8>| p@);
    assert(all =~= split_on(val@, ENDPOINTS_SPLIT_TAG));
    let mut out: Vec<String> = Vec::new();
    let mut j: usize = 0;
    while j < pieces.len()
        invariant
            j <= pieces@.len(),
            all == pieces@.map_values(|p: Vec<u8>| p@),
            out@.map_values(|s: String| s@) == utf8_pieces(all.take(j as int)),
        decreases pieces@.len() - j,
    {
        assert(all.take(j + 1).drop_last() =~= all.take(j as int));
        assert(all.take(j + 1).last() == pieces@[j as int]@);
        let ghost prev = out@;
        match utf8_string(pieces[j].as_slice()) {
            Some(s) => {
                out.push(s);
                assert(out@.map_values(|s: String| s@) =~= prev.map_values(|s: String| s@).push(s@));
            },
            None => {},
        }
        j = j + 1;
    }
    assert(all.take(j as int) =~= all);
    out
}

/// What one read of the published endpoint list gave.
pub enum Fetched {
    /// The list, as stored.
    Value(Vec<u8>),
    /// Nothing is published under the key.
    Missing,
    /// The read failed.
    Failed,
}

/// One round of the discovery loop: the endpoints to hand to the
/// callback, if the read gave a list with at least one valid endpoint.
/// Whatever the outcome, the loop then waits for the next update notice.
pub fn endpoints_to_apply(fetched: Fetched) -> (res: Option<Vec<String>>)
    ensures
        match fetched {
            Fetched::Value(v) => match res {
                Some(e) => e@.map_values(|s: String| s@) == utf8_pieces(split_on(v@, ENDPOINTS_SPLIT_TAG))
                    && e@.len() > 0,
                None => utf8_pieces(split_on(v@, ENDPOINTS_SPLIT_TAG)).len() == 0,
            },
            _ => res is None,
        },
{
    match fetched {
        Fetched::Value(v) => {
            let endpoints = split_endpoints(v.as_slice());
            if endpoints.len() > 0 {
                Some(endpoints)
            } else {
                None
            }
        },
        _ => None,
    }
}

/// Where to reach the discovery service.
pub struct DiscoverParam {
    pub discover_uri: Option<String>,
}

} // verus!

verus! {

/// The pieces `ps` written one after the other, `sep` between each two.
pub open spec fn join_on(ps: Seq<Seq<u8>>, sep: u8) -> Seq<u8>
    decreases ps.len(),
{
    if ps.len() == 0 {
        Seq::empty()
    } else if ps.len() == 1 {
        ps[0]
    } else {
        join_on(ps.drop_last(), sep) + seq![sep] + ps.last()
    }
}

/// Splitting text that ends in a run without `sep` extends the last
/// piece by that run.
proof fn lemma_split_extend(x: Seq<u8>, y: Seq<u8>, sep: u8)
    requires
        !y.contains(sep),
    ensures
        split_on(x + y, sep).len() == split_on(x, sep).len(),
        split_on(x + y, sep) == split_on(x, sep).update(
            split_on(x, sep).len() - 1,
            split_on(x, sep).last() + y,
        ),
    decreases y.len(),
{
    lemma_split_on_nonempty(x, sep);
    if y.len() == 0 {
        assert(x + y =~= x);
        assert(split_on(x, sep).last() + y =~= split_on(x, sep).last());
        assert(split_on(x, sep).update(split_on(x, sep).len() - 1, split_on(x, sep).last())
            =~= split_on(x, sep));
    } else {
        let y0 = y.drop_last();
        assert(!y0.contains(sep)) by {
            if y0.contains(sep) {
                let k = choose|k: int| 0 <= k < y0.len() && y0[k] == sep;
                assert(y[k] == sep);
            }
        }
        assert(y.last() != sep) by {
            assert(y[y.len() - 1] == y.last());
        }
        lemma_split_extend(x, y0, sep);
        let s = x + y;
        assert(s.drop_last() =~= x + y0);
        assert(s.last() == y.last());
        lemma_split_on_nonempty(x + y0, sep);
        let p = split_on(x + y0, sep);
        assert(split_on(s, sep) == p.update(p.len() - 1, p.last().push(y.last())));
        assert(p.last().push(y.last()) =~= split_on(x, sep).last() + y);
        assert(split_on(s, sep) =~= split_on(x, sep).update(
            split_on(x, sep).len() - 1,
            split_on(x, sep).last() + y,
        ));
    }
}

/// A list written with `sep` between its pieces splits back into those
/// pieces, when no piece holds `sep`.
pub proof fn lemma_split_join(ps: Seq<Seq<u8>>, sep: u8)
    requires
        ps.len() >= 1,
        forall|i: int| 0 <= i < ps.len() ==> !(#[trigger] ps[i]).contains(sep),
    ensures
        split_on(join_on(ps, sep), sep) == ps,
    decreases ps.len(),
{
    if ps.len() == 1 {
        lemma_split_extend(Seq::empty(), ps[0], sep);
        assert(Seq::<u8>::empty() + ps[0] =~= ps[0]);
        assert(split_on(Seq::<u8>::empty(), sep) == seq![Seq::<u8>::empty()]);
        assert(Seq::<u8>::empty() + ps[0] =~= ps[0]);
        assert(split_on(ps[0], sep) =~= ps);
    } else {
        let init = ps.drop_last();
        assert forall|i: int| 0 <= i < init.len() implies !(#[trigger] init[i]).contains(sep) by {
            assert(init[i] == ps[i]);
        }
        lemma_split_join(init, sep);
        let head = join_on(init, sep) + seq![sep];
        assert(head.drop_last() =~= join_on(init, sep));
        assert(head.last() == sep);
        assert(split_on(head, sep) == init.push(Seq::empty()));
        assert(!ps.last().contains(sep)) by {
            assert(ps.last() == ps[ps.len() - 1]);
        }
        lemma_split_extend(head, ps.last(), sep);
        assert(Seq::<u8>::empty() + ps.last() =~= ps.last());
        assert(join_on(ps, sep) == head + ps.last());
        assert(init.push(Seq::empty()).update(init.len() as int, ps.last()) =~= ps);
    }
}

/// A published list of valid UTF-8 endpoints, written with commas
/// between them and none holding a comma, is read back as those
/// endpoints, in order.
pub proof fn lemma_endpoints_roundtrip(eps: Seq<Seq<u8>>)
    requires
        eps.len() >= 1,
        forall|i: int|
            0 <= i < eps.len() ==> !(#[trigger] eps[i]).contains(ENDPOINTS_SPLIT_TAG) && vstd::utf8::valid_utf8(
                eps[i],
            ),
    ensures
        utf8_pieces(split_on(join_on(eps, ENDPOINTS_SPLIT_TAG), ENDPOINTS_SPLIT_TAG)) == eps.map_values(
            |e: Seq<u8>| vstd::utf8::decode_utf8(e),
        ),
{
    lemma_split_join(eps, ENDPOINTS_SPLIT_TAG);
    lemma_all_valid_pieces(eps);
}

proof fn lemma_all_valid_pieces(ps: Seq<Seq<u8>>)
    requires
        forall|i: int| 0 <= i < ps.len() ==> vstd::utf8::valid_utf8(#[trigger] ps[i]),
    ensures
        utf8_pieces(ps) == ps.map_values(|e: Seq<u8>| vstd::utf8::decode_utf8(e)),
    decreases ps.len(),
{
    if ps.len() > 0 {
        let init = ps.drop_last();
        assert forall|i: int| 0 <= i < init.len() implies vstd::utf8::valid_utf8(#[trigger] init[i]) by {
            assert(init[i] == ps[i]);
        }
        lemma_all_valid_pieces(init);
        assert(vstd::utf8::valid_utf8(ps.last())) by {
            assert(ps.last() == ps[ps.len() - 1]);
        }
        assert(ps.map_values(|e: Seq<u8>| vstd::utf8::decode_utf8(e)) =~= init.map_values(
            |e: Seq<u8>| vstd::utf8::decode_utf8(e),
        ).push(vstd::utf8::decode_utf8(ps.last())));
    } else {
        assert(ps.map_values(|e: Seq<u8>| vstd::utf8::decode_utf8(e)) =~= Seq::<Seq<char>>::empty());
    }
}

} // verus!
