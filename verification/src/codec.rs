//! Rendering a descriptor's path segments and query into URI text, and
//! parsing URI text back into segments and query. The two directions are
//! exact inverses on well-formed inputs; see the round-trip lemmas in
//! `laws`.

use vstd::prelude::*;

use crate::query::{query_string, spec_has_query, QuerySpec, QuerySpecV};
use crate::text::{drop_empty, find_char, split_char, views};
use crate::text;
use vstd::assert_seqs_equal;

verus! {

/// The path text for the segments: `/a/b/c`, empty for no segments.
pub open spec fn path_string(segs: Seq<Seq<char>>) -> Seq<char>
    decreases segs.len(),
{
    if segs.len() == 0 {
        Seq::empty()
    } else {
        seq!['/'] + segs[0] + path_string(segs.drop_first())
    }
}

/// Appending one more segment extends the path by a slash and the segment.
pub proof fn lemma_path_push(xs: Seq<Seq<char>>, x: Seq<char>)
    ensures
        path_string(xs.push(x)) == path_string(xs) + seq!['/'] + x,
    decreases xs.len(),
{
    let p = xs.push(x);
    if xs.len() == 0 {
        assert(p[0] == x);
        assert(p.drop_first() =~= Seq::<Seq<char>>::empty());
        assert(path_string(Seq::<Seq<char>>::empty()) == Seq::<char>::empty());
        assert(path_string(p) =~= path_string(xs) + seq!['/'] + x);
    } else {
        assert(p[0] == xs[0]);
        assert(p.drop_first() =~= xs.drop_first().push(x));
        lemma_path_push(xs.drop_first(), x);
        assert(seq!['/'] + xs[0] + (path_string(xs.drop_first()) + seq!['/'] + x) =~= (seq!['/']
            + xs[0] + path_string(xs.drop_first())) + seq!['/'] + x);
    }
}

/// The full URI text: host, path, and — when any parameter is present — a
/// `?` and the query string.
pub open spec fn render_uri(host: Seq<char>, segs: Seq<Seq<char>>, q: QuerySpecV) -> Seq<char> {
    if spec_has_query(q) {
        host + path_string(segs) + seq!['?'] + query_string(q)
    } else {
        host + path_string(segs)
    }
}

/// The text before the first `?`, and the text after it when there is one.
pub open spec fn split_query(s: Seq<char>) -> (Seq<char>, Option<Seq<char>>) {
    let f = find_char(s, '?');
    if f < s.len() {
        (s.subrange(0, f), Some(s.subrange(f + 1, s.len() as int)))
    } else {
        (s, None)
    }
}

/// The path of the pre-query text: the text itself when it already starts
/// with a slash, otherwise everything from the first slash after the
/// authority marker `://` on; with a marker but no later slash the path is
/// empty, and with no marker the whole text is taken as the path.
pub open spec fn path_part(pre: Seq<char>) -> Seq<char> {
    if pre.len() > 0 && pre[0] == '/' {
        pre
    } else {
        let k = find_char(pre, ':');
        if k + 3 <= pre.len() && pre[k + 1] == '/' && pre[k + 2] == '/' {
            let rest = pre.subrange(k + 3, pre.len() as int);
            let p = find_char(rest, '/');
            if p < rest.len() {
                rest.subrange(p, rest.len() as int)
            } else {
                Seq::empty()
            }
        } else {
            pre
        }
    }
}

/// Whether `k` marks the authority of `h`: `h` is a scheme with no `:`,
/// `/` or `?`, then `://` at `k`, then a nonempty authority with no `/`
/// or `?`.
pub open spec fn host_shape(h: Seq<char>, k: int) -> bool {
    &&& 1 <= k
    &&& k + 3 <= h.len()
    &&& h[k] == ':'
    &&& h[k + 1] == '/'
    &&& h[k + 2] == '/'
    &&& forall|j: int| 0 <= j < k ==> h[j] != ':' && h[j] != '/' && h[j] != '?'
    &&& forall|j: int| k + 3 <= j < h.len() ==> h[j] != '/' && h[j] != '?'
}

/// Whether `h` has the shape `scheme://authority`, with no path, query or
/// stray separators of its own.
pub open spec fn valid_host(h: Seq<char>) -> bool {
    exists|k: int| host_shape(h, k)
}

/// The nonempty path segments of the URI text.
pub open spec fn segments_of(s: Seq<char>) -> Seq<Seq<char>> {
    drop_empty(split_char(path_part(split_query(s).0), '/'))
}

/// The query parameters of the URI text, read leniently.
pub open spec fn query_of(s: Seq<char>) -> QuerySpecV {
    crate::query::decode_query(split_query(s).1)
}

/// A parsed URI: its nonempty path segments and its query parameters.
pub struct UriParts {
    /// The nonempty path segments, in order.
    pub segments: Vec<String>,
    /// The query parameters, read leniently.
    pub query: QuerySpec,
}

/// Renders `host`, the path segments and the query as one URI string.
pub fn render_uri_str(host: &str, segments: &Vec<String>, q: &QuerySpec) -> (r: String)
    ensures
        r@ == render_uri(host@, views(segments@), q@),
{
    proof {
        reveal_strlit("/");
        reveal_strlit("?");
        assert(("/")@ =~= seq!['/']);
        assert(("?")@ =~= seq!['?']);
    }
    let mut out = host.to_owned();
    proof {
        assert(out@ =~= host@ + path_string(views(segments@).take(0)));
    }
    let mut i: usize = 0;
    while i < segments.len()
        invariant
            i <= segments.len(),
            out@ == host@ + path_string(views(segments@).take(i as int)),
        decreases segments.len() - i,
    {
        out.append("/");
        out.append(segments[i].as_str());
        proof {
            reveal_strlit("/");
            assert(("/")@ =~= seq!['/']);
            let vs = views(segments@);
            assert(vs[i as int] == segments@[i as int]@);
            assert(vs.take(i + 1) =~= vs.take(i as int).push(vs[i as int]));
            lemma_path_push(vs.take(i as int), vs[i as int]);
            assert(path_string(vs.take(i + 1)) == path_string(vs.take(i as int)) + seq!['/']
                + vs[i as int]);
            assert(out@ == host@ + path_string(vs.take(i as int)) + ("/")@ + segments@[i as int]@);
            assert_seqs_equal!(out@ == host@ + path_string(vs.take(i + 1)));
        }
        i = i + 1;
    }
    proof {
        assert(views(segments@).take(segments@.len() as int) =~= views(segments@));
    }
    if q.has_query() {
        out.append("?");
        let qs = q.render();
        out.append(qs.as_str());
        proof {
            assert(out@ =~= render_uri(host@, views(segments@), q@));
        }
    }
    out
}

/// Parses URI text into its nonempty path segments and query parameters.
pub fn parse_uri_text(s: &str) -> (r: UriParts)
    ensures
        views(r.segments@) == segments_of(s@),
        r.query@ == query_of(s@),
{
    proof {
        reveal_strlit("");
    }
    let n = s.unicode_len();
    let fq = text::find_char_str(s, '?');
    let pre = s.substring_char(0, if fq < n { fq } else { n });
    let query_text: Option<&str> = if fq < n {
        Some(s.substring_char(fq + 1, n))
    } else {
        None
    };
    proof {
        assert(pre@ =~= split_query(s@).0);
        match split_query(s@).1 {
            Some(q) => assert(query_text matches Some(t) && t@ =~= q),
            None => assert(query_text is None),
        }
    }
    let query = QuerySpec::parse(query_text);

    let plen = pre.unicode_len();
    let path: &str = if plen > 0 && pre.get_char(0) == '/' {
        pre
    } else {
        let k = text::find_char_str(pre, ':');
        if plen >= 3 && k <= plen - 3 && pre.get_char(k + 1) == '/' && pre.get_char(k + 2) == '/' {
            let rest = pre.substring_char(k + 3, plen);
            let rlen = rest.unicode_len();
            let p = text::find_char_str(rest, '/');
            proof {
                assert(rest@ =~= pre@.subrange(k + 3, pre@.len() as int));
            }
            if p < rlen {
                rest.substring_char(p, rlen)
            } else {
                ""
            }
        } else {
            pre
        }
    };
    proof {
        assert(path@ =~= path_part(pre@));
    }

    let raw = text::split_str(path, '/');
    let mut segments: Vec<String> = Vec::new();
    let mut i: usize = 0;
    proof {
        assert(views(segments@) =~= drop_empty(views(raw@).take(0)));
    }
    while i < raw.len()
        invariant
            i <= raw.len(),
            views(raw@) == split_char(path@, '/'),
            views(segments@) == drop_empty(views(raw@).take(i as int)),
        decreases raw.len() - i,
    {
        let keep = !raw[i].as_str().is_empty();
        if keep {
            segments.push(raw[i].clone());
        }
        proof {
            let vs = views(raw@);
            let x = vs[i as int];
            assert(vs.take(i + 1) =~= vs.take(i as int) + seq![x]);
            crate::text::lemma_drop_empty_add(vs.take(i as int), seq![x]);
            assert(seq![x].drop_first() =~= Seq::<Seq<char>>::empty());
            assert(drop_empty(Seq::<Seq<char>>::empty()) == Seq::<Seq<char>>::empty());
            if x.len() > 0 {
                assert(drop_empty(seq![x]) =~= seq![x]);
                assert(views(segments@) =~= drop_empty(vs.take(i as int)) + seq![x]);
            } else {
                assert(drop_empty(seq![x]) =~= Seq::<Seq<char>>::empty());
                assert(drop_empty(vs.take(i as int)) + Seq::<Seq<char>>::empty() =~= drop_empty(
                    vs.take(i as int),
                ));
            }
        }
        i = i + 1;
    }
    proof {
        assert(views(raw@).take(raw@.len() as int) =~= views(raw@));
    }
    UriParts { segments, query }
}

} // verus!
