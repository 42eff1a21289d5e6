//! The laws the codec keeps, proved once and for all inputs.
//!
//! The central one is the round trip: a descriptor rendered to URI text and
//! parsed back comes out unchanged, for every host of the usual
//! `scheme://authority` shape, every account id free of the path and query
//! separators, and every query whose cursor is free of the parameter
//! separator.

use vstd::prelude::*;

use crate::codec::{
    host_shape, path_part, path_string, query_of, render_uri, segments_of, split_query,
    valid_host,
};
use crate::endpoint::{account_collection, spec_decode3, spec_match3};
use crate::query::{
    decode_query, direction_str, empty_query, parse_direction, query_pieces, query_string,
    spec_has_query, QuerySpecV,
};
use crate::text::{
    dec_str, drop_empty, find_char, has_char, is_digit, join_char, lemma_dec_str,
    lemma_find_char, lemma_find_char_absent, lemma_find_char_append, lemma_parse_dec_str,
    lemma_split_join, lookup, pair_of, params_of, parse_u32, split_char,
};
use crate::asset::{
    spec_asset_code, spec_asset_issuer, spec_asset_json, spec_asset_type, spec_new_identifier,
    AssetIdentifierV,
};

verus! {

/// Splitting one `key=value` piece gives the key and the value back, for
/// any key free of `=`.
proof fn lemma_pair_of_piece(key: Seq<char>, value: Seq<char>)
    requires
        !has_char(key, '='),
    ensures
        pair_of(key + seq!['='] + value) == (key, value),
{
    lemma_find_char_append(key, value, '=');
    let p = key + seq!['='] + value;
    assert(p.subrange(0, key.len() as int) =~= key);
    assert(p.subrange(key.len() as int + 1, p.len() as int) =~= value);
}

/// No character of a decimal spelling is anything but a digit.
proof fn lemma_dec_str_free(n: nat, c: char)
    requires
        !is_digit(c),
    ensures
        !has_char(dec_str(n), c),
{
    lemma_dec_str(n);
    if has_char(dec_str(n), c) {
        let i = choose|i: int| 0 <= i < dec_str(n).len() && dec_str(n)[i] == c;
        assert(is_digit(dec_str(n)[i]));
    }
}

/// A key that no pair carries looks up to nothing.
proof fn lemma_lookup_absent(ps: Seq<(Seq<char>, Seq<char>)>, key: Seq<char>)
    requires
        forall|i: int| 0 <= i < ps.len() ==> (#[trigger] ps[i]).0 != key,
    ensures
        lookup(ps, key) is None,
    decreases ps.len(),
{
    if ps.len() > 0 {
        assert(ps.drop_first() =~= ps.skip(1));
        assert(forall|i: int|
            0 <= i < ps.drop_first().len() ==> (#[trigger] ps.drop_first()[i]).0 != key);
        lemma_lookup_absent(ps.drop_first(), key);
    }
}

/// A prefix of pairs that never carries the key drops out of the lookup.
proof fn lemma_lookup_skip(a: Seq<(Seq<char>, Seq<char>)>, b: Seq<(Seq<char>, Seq<char>)>, key: Seq<
    char,
>)
    requires
        forall|i: int| 0 <= i < a.len() ==> (#[trigger] a[i]).0 != key,
    ensures
        lookup(a + b, key) == lookup(b, key),
    decreases a.len(),
{
    if a.len() == 0 {
        assert(a + b =~= b);
    } else {
        assert((a + b)[0] == a[0]);
        assert((a + b).drop_first() =~= a.drop_first() + b);
        assert(forall|i: int| 0 <= i < a.drop_first().len() ==> (#[trigger] a.drop_first()[i]).0
            != key);
        lemma_lookup_skip(a.drop_first(), b, key);
    }
}

/// A query string splits back into exactly the pieces it was joined from,
/// and each known key looks up to the parameter it encodes. The one demand
/// is that the cursor is free of the separator `&`.
proof fn lemma_query_roundtrip(q: QuerySpecV)
    requires
        spec_has_query(q),
        q.cursor matches Some(c) ==> !has_char(c, '&'),
    ensures
        decode_query(Some(query_string(q))) == q,
{
    reveal_strlit("cursor");
    reveal_strlit("order");
    reveal_strlit("limit");
    reveal_strlit("cursor=");
    reveal_strlit("order=");
    reveal_strlit("limit=");
    reveal_strlit("asc");
    reveal_strlit("desc");
    let pieces = query_pieces(q);
    let cursor_key = "cursor"@;
    let order_key = "order"@;
    let limit_key = "limit"@;
    assert(("cursor=")@.len() == 7 && ("order=")@.len() == 6 && ("limit=")@.len() == 6);
    assert(("cursor=")@ =~= cursor_key + seq!['=']);
    assert(("order=")@ =~= order_key + seq!['=']);
    assert(("limit=")@ =~= limit_key + seq!['=']);

    // The three option pieces and their parameter pairs.
    let pc = match q.cursor {
        Some(c) => seq![("cursor=")@ + c],
        None => Seq::<Seq<char>>::empty(),
    };
    let po = match q.order {
        Some(d) => seq![("order=")@ + direction_str(d)],
        None => Seq::<Seq<char>>::empty(),
    };
    let pl = match q.limit {
        Some(l) => seq![("limit=")@ + dec_str(l as nat)],
        None => Seq::<Seq<char>>::empty(),
    };
    assert(pieces == pc + po + pl);
    let kc = match q.cursor {
        Some(c) => seq![(cursor_key, c)],
        None => Seq::<(Seq<char>, Seq<char>)>::empty(),
    };
    let ko = match q.order {
        Some(d) => seq![(order_key, direction_str(d))],
        None => Seq::<(Seq<char>, Seq<char>)>::empty(),
    };
    let kl = match q.limit {
        Some(l) => seq![(limit_key, dec_str(l as nat))],
        None => Seq::<(Seq<char>, Seq<char>)>::empty(),
    };

    // Every piece is free of the separator.
    if q.cursor is Some {
        let c = q.cursor.unwrap();
        assert(!has_char(pc[0], '&')) by {
            if has_char(pc[0], '&') {
                let j = choose|j: int| 0 <= j < pc[0].len() && pc[0][j] == '&';
                if j >= 7 {
                    assert(c[j - 7] == '&');
                }
            }
        }
    }
    if q.order is Some {
        let d = direction_str(q.order.unwrap());
        assert(d.len() <= 4);
        assert(!has_char(po[0], '&')) by {
            if has_char(po[0], '&') {
                let j = choose|j: int| 0 <= j < po[0].len() && po[0][j] == '&';
                if j >= 6 {
                    assert(d[j - 6] == '&');
                }
            }
        }
    }
    if q.limit is Some {
        let d = dec_str(q.limit.unwrap() as nat);
        lemma_dec_str_free(q.limit.unwrap() as nat, '&');
        assert(!has_char(pl[0], '&')) by {
            if has_char(pl[0], '&') {
                let j = choose|j: int| 0 <= j < pl[0].len() && pl[0][j] == '&';
                if j >= 6 {
                    assert(d[j - 6] == '&');
                }
            }
        }
    }
    assert forall|i: int| 0 <= i < pieces.len() implies !has_char(#[trigger] pieces[i], '&') by {
        if i < pc.len() {
            assert(pieces[i] == pc[0]);
        } else if i < pc.len() + po.len() {
            assert(pieces[i] == po[0]);
        } else {
            assert(pieces[i] == pl[0]);
        }
    }
    assert(pieces.len() >= 1);
    lemma_split_join(pieces, '&');
    assert(split_char(query_string(q), '&') == pieces);

    // The parameter pairs are the keyed singletons, in order.
    let f = |p: Seq<char>| pair_of(p);
    let ps = params_of(query_string(q));
    if q.cursor is Some {
        assert(pc[0] =~= cursor_key + seq!['='] + q.cursor.unwrap());
        lemma_pair_of_piece(cursor_key, q.cursor.unwrap());
        assert(f(pc[0]) == kc[0]);
    }
    if q.order is Some {
        assert(po[0] =~= order_key + seq!['='] + direction_str(q.order.unwrap()));
        lemma_pair_of_piece(order_key, direction_str(q.order.unwrap()));
        assert(f(po[0]) == ko[0]);
    }
    if q.limit is Some {
        assert(pl[0] =~= limit_key + seq!['='] + dec_str(q.limit.unwrap() as nat));
        lemma_pair_of_piece(limit_key, dec_str(q.limit.unwrap() as nat));
        assert(f(pl[0]) == kl[0]);
    }
    assert(ps =~= kc + ko + kl) by {
        assert(ps.len() == pieces.len());
        assert(forall|i: int| 0 <= i < ps.len() ==> ps[i] == f(pieces[i]));
    }

    // The three keys are distinct, so each lookup finds its own pair.
    assert(cursor_key.len() == 6 && order_key.len() == 5 && limit_key.len() == 5);
    assert(order_key != limit_key) by {
        assert(order_key[0] == 'o' && limit_key[0] == 'l');
    }
    assert(lookup(ps, cursor_key) == q.cursor) by {
        match q.cursor {
            Some(c) => {
                assert(ps[0] == (cursor_key, c));
            },
            None => {
                assert(ps =~= ko + kl);
                lemma_lookup_absent(ps, cursor_key);
            },
        }
    }
    assert(lookup(ps, order_key) == match q.order {
        Some(d) => Some(direction_str(d)),
        None => None,
    }) by {
        lemma_lookup_skip(kc, ko + kl, order_key);
        assert(ps == kc + (ko + kl)) by {
            assert(kc + (ko + kl) =~= kc + ko + kl);
        }
        match q.order {
            Some(d) => {
                assert((ko + kl)[0] == (order_key, direction_str(d)));
            },
            None => {
                assert(ko + kl =~= kl);
                lemma_lookup_absent(ko + kl, order_key);
            },
        }
    }
    assert(lookup(ps, limit_key) == match q.limit {
        Some(l) => Some(dec_str(l as nat)),
        None => None,
    }) by {
        lemma_lookup_skip(kc + ko, kl, limit_key);
        assert(ps == (kc + ko) + kl) by {
            assert((kc + ko) + kl =~= kc + ko + kl);
        }
        match q.limit {
            Some(l) => {
                assert(kl[0] == (limit_key, dec_str(l as nat)));
            },
            None => {
                lemma_lookup_absent(kl, limit_key);
            },
        }
    }

    if q.order is Some {
        assert(("asc")@.len() == 3 && ("desc")@.len() == 4);
        assert(parse_direction(direction_str(q.order.unwrap())) == q.order);
    }
    if q.limit is Some {
        lemma_parse_dec_str(q.limit.unwrap());
    }
}

/// A path built from `?`-free segments holds no `?`.
proof fn lemma_path_free(segs: Seq<Seq<char>>, c: char)
    requires
        c != '/',
        forall|i: int| 0 <= i < segs.len() ==> !has_char(#[trigger] segs[i], c),
    ensures
        !has_char(path_string(segs), c),
    decreases segs.len(),
{
    if segs.len() > 0 {
        lemma_path_free(segs.drop_first(), c);
        let p = path_string(segs);
        assert(p =~= seq!['/'] + segs[0] + path_string(segs.drop_first()));
        if has_char(p, c) {
            let j = choose|j: int| 0 <= j < p.len() && p[j] == c;
            if 1 <= j < 1 + segs[0].len() {
                assert(segs[0][j - 1] == c);
            } else if j >= 1 + segs[0].len() {
                assert(path_string(segs.drop_first())[j - 1 - segs[0].len()] == c);
            }
        }
    }
}

/// The path is the join of its segments behind a leading empty piece.
proof fn lemma_path_as_join(segs: Seq<Seq<char>>)
    ensures
        path_string(segs) == join_char(seq![Seq::<char>::empty()] + segs, '/'),
    decreases segs.len(),
{
    let xs = seq![Seq::<char>::empty()] + segs;
    if segs.len() == 0 {
        assert(xs.len() == 1);
        assert(xs[0] =~= Seq::<char>::empty());
        assert(join_char(xs, '/') =~= path_string(segs));
    } else if segs.len() == 1 {
        assert(xs.len() == 2);
        assert(xs.drop_first() =~= seq![segs[0]]);
        assert(join_char(seq![segs[0]], '/') == segs[0]);
        assert(join_char(xs, '/') =~= seq!['/'] + segs[0]);
        assert(path_string(segs.drop_first()) =~= Seq::<char>::empty());
        assert(path_string(segs) =~= seq!['/'] + segs[0]);
    } else {
        lemma_path_as_join(segs.drop_first());
        let ys = seq![Seq::<char>::empty()] + segs.drop_first();
        assert(xs.drop_first() =~= segs);
        assert(join_char(xs, '/') == xs[0] + seq!['/'] + join_char(segs, '/'));
        assert(join_char(segs, '/') == segs[0] + seq!['/'] + join_char(segs.drop_first(), '/'));
        assert(ys.drop_first() =~= segs.drop_first());
        assert(join_char(ys, '/') == ys[0] + seq!['/'] + join_char(segs.drop_first(), '/'));
        assert(path_string(segs.drop_first()) =~= seq!['/'] + join_char(segs.drop_first(), '/'));
        assert(path_string(segs) =~= join_char(xs, '/'));
    }
}

/// Dropping empty pieces from all-nonempty pieces changes nothing.
proof fn lemma_drop_empty_id(xs: Seq<Seq<char>>)
    requires
        forall|i: int| 0 <= i < xs.len() ==> (#[trigger] xs[i]).len() > 0,
    ensures
        drop_empty(xs) == xs,
    decreases xs.len(),
{
    if xs.len() > 0 {
        lemma_drop_empty_id(xs.drop_first());
        assert(drop_empty(xs) =~= seq![xs[0]] + xs.drop_first());
        assert(seq![xs[0]] + xs.drop_first() =~= xs);
    }
}

/// Well-formed segments for a URI: at least one, each nonempty and free of
/// the path and query separators.
pub open spec fn wf_segments(segs: Seq<Seq<char>>) -> bool {
    &&& segs.len() >= 1
    &&& forall|i: int|
        0 <= i < segs.len() ==> (#[trigger] segs[i]).len() > 0 && !has_char(segs[i], '/')
            && !has_char(segs[i], '?')
}

/// THE ROUND TRIP, path side: rendered URI text parses back into exactly
/// the segments it was rendered from.
proof fn lemma_segments_roundtrip(host: Seq<char>, segs: Seq<Seq<char>>, q: QuerySpecV)
    requires
        valid_host(host),
        wf_segments(segs),
        q.cursor matches Some(c) ==> !has_char(c, '&'),
    ensures
        segments_of(render_uri(host, segs, q)) == segs,
        split_query(render_uri(host, segs, q)).1 == if spec_has_query(q) {
            Some(query_string(q))
        } else {
            None
        },
{
    let k = choose|k: int| host_shape(host, k);
    let pre = host + path_string(segs);
    let s = render_uri(host, segs, q);

    // The pre-query text holds no `?`.
    lemma_path_free(segs, '?');
    assert(!has_char(pre, '?')) by {
        if has_char(pre, '?') {
            let j = choose|j: int| 0 <= j < pre.len() && pre[j] == '?';
            if j < host.len() {
                assert(host[j] == '?');
                assert(j < k || k + 3 <= j || k <= j < k + 3);
            } else {
                assert(path_string(segs)[j - host.len()] == '?');
            }
        }
    }

    // Splitting at `?` recovers the pre-query text and the query string.
    if spec_has_query(q) {
        assert(s == pre + seq!['?'] + query_string(q));
        lemma_find_char_append(pre, query_string(q), '?');
        assert(split_query(s).0 =~= pre);
        assert(match split_query(s).1 {
            Some(t) => t =~= query_string(q),
            None => false,
        });
    } else {
        assert(s == pre);
        lemma_find_char_absent(s, '?');
    }
    assert(split_query(s).0 == pre);

    // The authority strips off: the first `:` is the host's marker, and the
    // first `/` after it starts the path.
    assert(pre[0] == host[0]);
    assert(host[0] != '/');
    assert(find_char(pre, ':') == k) by {
        lemma_find_char(pre, ':');
        let f = find_char(pre, ':');
        assert(pre[k] == host[k]);
        if f < k {
            assert(pre[f] == host[f]);
        }
    }
    let auth = host.subrange(k + 3, host.len() as int);
    let rest = pre.subrange(k + 3, pre.len() as int);
    let tail = segs[0] + path_string(segs.drop_first());
    assert(path_string(segs) == seq!['/'] + segs[0] + path_string(segs.drop_first()));
    assert(rest =~= auth + seq!['/'] + tail);
    assert(!has_char(auth, '/')) by {
        if has_char(auth, '/') {
            let j = choose|j: int| 0 <= j < auth.len() && auth[j] == '/';
            assert(host[k + 3 + j] == '/');
        }
    }
    lemma_find_char_append(auth, tail, '/');
    let p = find_char(rest, '/');
    assert(p == auth.len());
    assert(rest.subrange(p, rest.len() as int) =~= path_string(segs));
    assert(path_part(pre) == path_string(segs));

    // The path splits back into its segments.
    lemma_path_as_join(segs);
    let xs = seq![Seq::<char>::empty()] + segs;
    assert forall|i: int| 0 <= i < xs.len() implies !has_char(#[trigger] xs[i], '/') by {
        if i == 0 {
            assert(xs[0] =~= Seq::<char>::empty());
        } else {
            assert(xs[i] == segs[i - 1]);
        }
    }
    lemma_split_join(xs, '/');
    assert(split_char(path_string(segs), '/') == xs);
    crate::text::lemma_drop_empty_add(seq![Seq::<char>::empty()], segs);
    assert(drop_empty(seq![Seq::<char>::empty()]) =~= Seq::<Seq<char>>::empty()) by {
        assert(seq![Seq::<char>::empty()].drop_first() =~= Seq::<Seq<char>>::empty());
        assert(drop_empty(Seq::<Seq<char>>::empty()) == Seq::<Seq<char>>::empty());
    }
    lemma_drop_empty_id(segs);
    assert(drop_empty(xs) =~= segs);
    assert(segments_of(s) == segs);
}

/// THE ROUND TRIP: URI text rendered from a host, well-formed segments and
/// a query parses back into exactly those segments and that query. The
/// demands: a `scheme://authority` host, nonempty segments free of `/` and
/// `?`, and a cursor free of `&`.
pub proof fn lemma_render_parse_roundtrip(host: Seq<char>, segs: Seq<Seq<char>>, q: QuerySpecV)
    requires
        valid_host(host),
        wf_segments(segs),
        q.cursor matches Some(c) ==> !has_char(c, '&'),
    ensures
        segments_of(render_uri(host, segs, q)) == segs,
        query_of(render_uri(host, segs, q)) == q,
{
    lemma_segments_roundtrip(host, segs, q);
    if spec_has_query(q) {
        lemma_query_roundtrip(q);
    }
}

/// A revealed literal of known length is free of a character no index
/// holds; discharges the separator-freedom of the fixed segment names.
proof fn lemma_literal_free(s: Seq<char>, c: char)
    requires
        forall|j: int| 0 <= j < s.len() ==> s[j] != c,
    ensures
        !has_char(s, c),
{
}

/// The round trip for one account collection `accounts/{id}/{coll}`: what
/// the endpoint renders, its parser reconstructs, id and query unchanged.
/// The demands are only on the caller's inputs: a `scheme://authority`
/// host, a nonempty id free of `/` and `?`, a collection name of the same
/// shape, and a cursor free of `&`.
pub proof fn lemma_account_roundtrip(host: Seq<char>, id: Seq<char>, coll: Seq<char>, q: QuerySpecV)
    requires
        valid_host(host),
        id.len() > 0,
        !has_char(id, '/'),
        !has_char(id, '?'),
        coll.len() > 0,
        !has_char(coll, '/'),
        !has_char(coll, '?'),
        q.cursor matches Some(c) ==> !has_char(c, '&'),
    ensures
        spec_decode3(render_uri(host, account_collection(id, coll), q), "accounts"@, coll) == Some(
            (id, q),
        ),
{
    reveal_strlit("accounts");
    assert(("accounts")@.len() == 8);
    lemma_literal_free("accounts"@, '/');
    lemma_literal_free("accounts"@, '?');
    let segs = account_collection(id, coll);
    assert(wf_segments(segs)) by {
        assert(segs[0] == "accounts"@ && segs[1] == id && segs[2] == coll);
    }
    lemma_render_parse_roundtrip(host, segs, q);
    let s = render_uri(host, segs, q);
    assert(spec_match3(segments_of(s), "accounts"@, coll) == Some(id));
}

/// The round trip for the transactions collection: rendering and parsing give
/// the descriptor back, id and query unchanged.
pub proof fn lemma_transactions_roundtrip(host: Seq<char>, id: Seq<char>, q: QuerySpecV)
    requires
        valid_host(host),
        id.len() > 0,
        !has_char(id, '/'),
        !has_char(id, '?'),
        q.cursor matches Some(c) ==> !has_char(c, '&'),
    ensures
        spec_decode3(
            render_uri(host, account_collection(id, "transactions"@), q),
            "accounts"@,
            "transactions"@,
        ) == Some((id, q)),
{
    reveal_strlit("transactions");
    assert(("transactions")@.len() == 12);
    lemma_literal_free("transactions"@, '/');
    lemma_literal_free("transactions"@, '?');
    lemma_account_roundtrip(host, id, "transactions"@, q);
}

/// The round trip for the effects collection: rendering and parsing give
/// the descriptor back, id and query unchanged.
pub proof fn lemma_effects_roundtrip(host: Seq<char>, id: Seq<char>, q: QuerySpecV)
    requires
        valid_host(host),
        id.len() > 0,
        !has_char(id, '/'),
        !has_char(id, '?'),
        q.cursor matches Some(c) ==> !has_char(c, '&'),
    ensures
        spec_decode3(
            render_uri(host, account_collection(id, "effects"@), q),
            "accounts"@,
            "effects"@,
        ) == Some((id, q)),
{
    reveal_strlit("effects");
    assert(("effects")@.len() == 7);
    lemma_literal_free("effects"@, '/');
    lemma_literal_free("effects"@, '?');
    lemma_account_roundtrip(host, id, "effects"@, q);
}

/// The round trip for the operations collection: rendering and parsing give
/// the descriptor back, id and query unchanged.
pub proof fn lemma_operations_roundtrip(host: Seq<char>, id: Seq<char>, q: QuerySpecV)
    requires
        valid_host(host),
        id.len() > 0,
        !has_char(id, '/'),
        !has_char(id, '?'),
        q.cursor matches Some(c) ==> !has_char(c, '&'),
    ensures
        spec_decode3(
            render_uri(host, account_collection(id, "operations"@), q),
            "accounts"@,
            "operations"@,
        ) == Some((id, q)),
{
    reveal_strlit("operations");
    assert(("operations")@.len() == 10);
    lemma_literal_free("operations"@, '/');
    lemma_literal_free("operations"@, '?');
    lemma_account_roundtrip(host, id, "operations"@, q);
}

/// The round trip for the payments collection: rendering and parsing give
/// the descriptor back, id and query unchanged.
pub proof fn lemma_payments_roundtrip(host: Seq<char>, id: Seq<char>, q: QuerySpecV)
    requires
        valid_host(host),
        id.len() > 0,
        !has_char(id, '/'),
        !has_char(id, '?'),
        q.cursor matches Some(c) ==> !has_char(c, '&'),
    ensures
        spec_decode3(
            render_uri(host, account_collection(id, "payments"@), q),
            "accounts"@,
            "payments"@,
        ) == Some((id, q)),
{
    reveal_strlit("payments");
    assert(("payments")@.len() == 8);
    lemma_literal_free("payments"@, '/');
    lemma_literal_free("payments"@, '?');
    lemma_account_roundtrip(host, id, "payments"@, q);
}

/// The round trip for the offers collection: rendering and parsing give
/// the descriptor back, id and query unchanged.
pub proof fn lemma_offers_roundtrip(host: Seq<char>, id: Seq<char>, q: QuerySpecV)
    requires
        valid_host(host),
        id.len() > 0,
        !has_char(id, '/'),
        !has_char(id, '?'),
        q.cursor matches Some(c) ==> !has_char(c, '&'),
    ensures
        spec_decode3(
            render_uri(host, account_collection(id, "offers"@), q),
            "accounts"@,
            "offers"@,
        ) == Some((id, q)),
{
    reveal_strlit("offers");
    assert(("offers")@.len() == 6);
    lemma_literal_free("offers"@, '/');
    lemma_literal_free("offers"@, '?');
    lemma_account_roundtrip(host, id, "offers"@, q);
}

/// A descriptor with no cursor, order or limit set renders with no query
/// string at all: the text is exactly the host and the path, and — for a
/// clean host and clean segments — holds no `?` anywhere.
pub proof fn lemma_no_query_omitted(host: Seq<char>, segs: Seq<Seq<char>>)
    requires
        valid_host(host),
        wf_segments(segs),
    ensures
        render_uri(host, segs, empty_query()) == host + path_string(segs),
        !has_char(render_uri(host, segs, empty_query()), '?'),
{
    let k = choose|k: int| host_shape(host, k);
    let s = render_uri(host, segs, empty_query());
    lemma_path_free(segs, '?');
    if has_char(s, '?') {
        let j = choose|j: int| 0 <= j < s.len() && s[j] == '?';
        if j < host.len() {
            assert(host[j] == '?');
            assert(j < k || k + 3 <= j || k <= j < k + 3);
        } else {
            assert(path_string(segs)[j - host.len()] == '?');
        }
    }
}

/// A `limit` value that does not read as a number leaves the limit absent
/// rather than failing the parse: the lenient reading is total.
pub proof fn lemma_lenient_limit(qs: Seq<char>)
    ensures
        match lookup(params_of(qs), "limit"@) {
            Some(v) => decode_query(Some(qs)).limit == parse_u32(v),
            None => decode_query(Some(qs)).limit is None,
        },
{
}

/// An asset identifier's wire triple reads back as the same identifier:
/// the tagged encoding loses nothing, for every code and issuer.
pub proof fn lemma_asset_wire_roundtrip(a: AssetIdentifierV)
    ensures
        spec_new_identifier(spec_asset_type(a), spec_asset_code(a), spec_asset_issuer(a)) == Ok::<
            AssetIdentifierV,
            Seq<char>,
        >(a),
{
    reveal_strlit("native");
    reveal_strlit("credit_alphanum4");
    reveal_strlit("credit_alphanum12");
    assert(("native")@.len() == 6);
    assert(("credit_alphanum4")@.len() == 16);
    assert(("credit_alphanum12")@.len() == 17);
}

/// A native asset's JSON text is exactly the bare tag object, with no code
/// or issuer fields in it.
pub proof fn lemma_native_asset_json()
    ensures
        spec_asset_json(AssetIdentifierV::Native) == "{\"asset_type\":\"native\"}"@,
{
}

} // verus!
