//! The generic endpoint pattern: one parametrized template that, given a
//! resource kind's fixed lowercase-hyphenated path segment, yields the URL
//! of every operation the API offers for that kind — the default index
//! page, an explicit page, a lookup by id or name, and sub-resources scoped
//! under a parent — together with the two-call protocol that fetches a full
//! index.
//!
//! Construction is bit-exact concatenation onto a separator-terminated
//! base: `{base}{kind}/{id}` for numeric lookups, `{base}{kind}/{name}` for
//! name lookups, `{base}{kind}/{id-or-name}/{sub}` for sub-resources.

use vstd::prelude::*;

use crate::model::resource::NamedApiResource;
use crate::model::resource::NamedApiResourceList;
use crate::model::resource::RefView;
use crate::text::dec_int;
use crate::text::i64_to_dec;
use crate::text::lemma_dec_int_injective;
use crate::text::slash_terminated;

verus! {

/// The URL requesting the default index page of `kind`: `{base}{kind}`.
pub fn index_url(base: &str, kind: &str) -> (r: String)
    requires
        slash_terminated(base@),
    ensures
        r@ == base@ + kind@,
{
    let mut s = base.to_owned();
    s.append(kind);
    s
}

/// The URL requesting one explicit page of `kind`:
/// `{base}{kind}?limit={limit}&offset={offset}`.
pub fn page_url(base: &str, kind: &str, limit: i64, offset: i64) -> (r: String)
    requires
        slash_terminated(base@),
    ensures
        r@ == base@ + kind@ + "?limit="@ + dec_int(limit as int) + "&offset="@ + dec_int(
            offset as int,
        ),
{
    let mut s = base.to_owned();
    s.append(kind);
    s.append("?limit=");
    let l = i64_to_dec(limit);
    s.append(l.as_str());
    s.append("&offset=");
    let o = i64_to_dec(offset);
    s.append(o.as_str());
    proof {
        assert(s@ =~= base@ + kind@ + "?limit="@ + dec_int(limit as int) + "&offset="@ + dec_int(
            offset as int,
        ));
    }
    s
}

/// The URL requesting the resource of `kind` with the given id:
/// `{base}{kind}/{id}`.
pub fn by_id_url(base: &str, kind: &str, id: i64) -> (r: String)
    requires
        slash_terminated(base@),
    ensures
        r@ == base@ + kind@ + "/"@ + dec_int(id as int),
{
    let mut s = base.to_owned();
    s.append(kind);
    s.append("/");
    let d = i64_to_dec(id);
    s.append(d.as_str());
    proof {
        assert(s@ =~= base@ + kind@ + "/"@ + dec_int(id as int));
    }
    s
}

/// The URL requesting the resource of `kind` with the given name:
/// `{base}{kind}/{name}`.
pub fn by_name_url(base: &str, kind: &str, name: &str) -> (r: String)
    requires
        slash_terminated(base@),
    ensures
        r@ == base@ + kind@ + "/"@ + name@,
{
    let mut s = base.to_owned();
    s.append(kind);
    s.append("/");
    s.append(name);
    proof {
        assert(s@ =~= base@ + kind@ + "/"@ + name@);
    }
    s
}

/// The URL requesting the sub-resource `sub` of the resource of `kind` with
/// the given id: `{base}{kind}/{id}/{sub}`.
pub fn sub_by_id_url(base: &str, kind: &str, id: i64, sub: &str) -> (r: String)
    requires
        slash_terminated(base@),
    ensures
        r@ == base@ + kind@ + "/"@ + dec_int(id as int) + "/"@ + sub@,
{
    let mut s = base.to_owned();
    s.append(kind);
    s.append("/");
    let d = i64_to_dec(id);
    s.append(d.as_str());
    s.append("/");
    s.append(sub);
    proof {
        assert(s@ =~= base@ + kind@ + "/"@ + dec_int(id as int) + "/"@ + sub@);
    }
    s
}

/// The URL requesting the sub-resource `sub` of the resource of `kind` with
/// the given name: `{base}{kind}/{name}/{sub}`.
pub fn sub_by_name_url(base: &str, kind: &str, name: &str, sub: &str) -> (r: String)
    requires
        slash_terminated(base@),
    ensures
        r@ == base@ + kind@ + "/"@ + name@ + "/"@ + sub@,
{
    let mut s = base.to_owned();
    s.append(kind);
    s.append("/");
    s.append(name);
    s.append("/");
    s.append(sub);
    proof {
        assert(s@ =~= base@ + kind@ + "/"@ + name@ + "/"@ + sub@);
    }
    s
}

/// Numeric lookups never alias: two different ids are requested at two
/// different URLs, whatever the base and the kind, so an HTTP-level cache
/// keyed by URL can never serve one resource for another.
pub proof fn lemma_by_id_urls_distinct(base: Seq<char>, kind: Seq<char>, id1: int, id2: int)
    requires
        id1 != id2,
    ensures
        base + kind + "/"@ + dec_int(id1) != base + kind + "/"@ + dec_int(id2),
{
    let p = base + kind + "/"@;
    if p + dec_int(id1) == p + dec_int(id2) {
        assert((p + dec_int(id1)).len() == (p + dec_int(id2)).len());
        assert forall|i: int| 0 <= i < dec_int(id1).len() implies #[trigger] dec_int(id1)[i]
            == dec_int(id2)[i] by {
            assert((p + dec_int(id1))[p.len() + i] == dec_int(id1)[i]);
            assert((p + dec_int(id2))[p.len() + i] == dec_int(id2)[i]);
        }
        assert(dec_int(id1) =~= dec_int(id2));
        lemma_dec_int_injective(id1, id2);
    }
}

/// The offset and limit of the single remainder request that follows the
/// first index page when fetching every entry: the remaining
/// `count - len(results)` entries, starting right after the first page.
///
/// This is a deliberate two-call protocol — first page, then one big
/// remainder page — not a page-by-page loop; the second call must not be
/// issued before the first completed, since it needs the first's count.
pub fn remainder_params(first: &NamedApiResourceList) -> (r: (i64, i64))
    requires
        first.results@.len() <= i64::MAX,
        first.count as int - first.results@.len() as int >= i64::MIN,
    ensures
        r.0 == first.results@.len(),
        r.1 == first.count as int - first.results@.len() as int,
{
    let n = first.results.len() as i64;
    (n, first.count - n)
}

/// Concatenates the first page's entries with the remainder page's,
/// preserving order: the first page's entries come first, unchanged, then
/// the remainder's. No partial result survives a failed remainder call, so
/// this runs only once both pages are there.
pub fn combine_pages(first: NamedApiResourceList, second: NamedApiResourceList) -> (r: Vec<
    NamedApiResource,
>)
    ensures
        r@ == first.results@ + second.results@,
{
    let mut all = first.results;
    let mut rest = second.results;
    all.append(&mut rest);
    all
}

/// Fetching every entry through the two-call protocol yields exactly
/// `count` entries whenever the remainder call answers with exactly the
/// entries that were asked of it: the first page's entries in their
/// original order, followed immediately by the remainder's.
pub proof fn lemma_all_entries_exact(first: NamedApiResourceList, second: NamedApiResourceList)
    requires
        second.results@.len() == first.count as int - first.results@.len() as int,
    ensures
        (first.results@ + second.results@).len() == first.count as int,
        forall|i: int|
            0 <= i < first.results@.len() ==> (first.results@ + second.results@)[i]
                == first.results@[i],
        forall|i: int|
            first.results@.len() <= i < first.count as int ==> (first.results@
                + second.results@)[i] == second.results@[i - first.results@.len()],
{
}

/// Two pages requested back to back — offsets 0 and n, limits n and m —
/// address disjoint, order-contiguous slices of one stable collection:
/// their concatenation is exactly the collection's first n + m entries,
/// with no gap and no duplicate.
pub proof fn lemma_pages_contiguous(collection: Seq<RefView>, n: int, m: int)
    requires
        0 <= n,
        0 <= m,
        n + m <= collection.len(),
    ensures
        collection.subrange(0, n) + collection.subrange(n, n + m) == collection.subrange(0, n + m),
{
    assert(collection.subrange(0, n) + collection.subrange(n, n + m) =~= collection.subrange(
        0,
        n + m,
    ));
}

} // verus!
