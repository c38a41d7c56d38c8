//! Stored cookies: their identity, their renewal and their expiry.
use crate::clock::{clock_shows, now_seconds};
use crate::text::{opt_eq, opt_text, str_eq};
use vstd::prelude::*;

verus! {

/// A cookie that a session keeps.
#[derive(Debug)]
pub struct StoredCookie {
    pub name: String,
    pub value: String,
    pub domain: Option<String>,
    pub path: Option<String>,
    /// Seconds since the Unix epoch; `None` for a session cookie.
    pub expires: Option<i64>,
    pub http_only: bool,
    pub secure: bool,
    pub same_site: Option<String>,
}

/// What a cookie says.
pub ghost struct CookieView {
    pub name: Seq<char>,
    pub value: Seq<char>,
    pub domain: Option<Seq<char>>,
    pub path: Option<Seq<char>>,
    pub expires: Option<i64>,
    pub http_only: bool,
    pub secure: bool,
    pub same_site: Option<Seq<char>>,
}

impl View for StoredCookie {
    type V = CookieView;

    open spec fn view(&self) -> CookieView {
        CookieView {
            name: self.name@,
            value: self.value@,
            domain: opt_text(self.domain),
            path: opt_text(self.path),
            expires: self.expires,
            http_only: self.http_only,
            secure: self.secure,
            same_site: opt_text(self.same_site),
        }
    }
}

impl Clone for StoredCookie {
    fn clone(&self) -> (r: StoredCookie)
        ensures
            r@ == self@,
    {
        StoredCookie {
            name: self.name.clone(),
            value: self.value.clone(),
            domain: self.domain.clone(),
            path: self.path.clone(),
            expires: self.expires,
            http_only: self.http_only,
            secure: self.secure,
            same_site: self.same_site.clone(),
        }
    }
}

/// What the cookies of a list say.
pub open spec fn cookie_views(cookies: Seq<StoredCookie>) -> Seq<CookieView> {
    cookies.map_values(|c: StoredCookie| c@)
}

/// Copies a list of cookies.
pub fn clone_cookies(cookies: &Vec<StoredCookie>) -> (r: Vec<StoredCookie>)
    ensures
        cookie_views(r@) == cookie_views(cookies@),
{
    let mut r: Vec<StoredCookie> = Vec::new();
    let mut i: usize = 0;
    while i < cookies.len()
        invariant
            i <= cookies@.len(),
            cookie_views(r@) == cookie_views(cookies@).take(i as int),
        decreases cookies@.len() - i,
    {
        let ghost before = r@;
        let c = cookies[i].clone();
        r.push(c);
        assert(cookie_views(r@) =~= cookie_views(before).push(c@));
        assert(cookie_views(r@) =~= cookie_views(cookies@).take(i + 1));
        i += 1;
    }
    assert(cookie_views(cookies@).take(i as int) =~= cookie_views(cookies@));
    r
}

/// Whether two cookies are the same one to a browser: same name, domain and path.
pub open spec fn same_cookie(a: CookieView, b: CookieView) -> bool {
    &&& a.name == b.name
    &&& a.domain == b.domain
    &&& a.path == b.path
}

/// The position of the first cookie of that identity; the length of the list if there is none.
pub open spec fn cookie_index(cookies: Seq<CookieView>, c: CookieView) -> int
    decreases cookies.len(),
{
    if cookies.len() == 0 || same_cookie(cookies[0], c) {
        0
    } else {
        1 + cookie_index(cookies.skip(1), c)
    }
}

/// The first cookie of that identity.
pub open spec fn cookie_like(cookies: Seq<CookieView>, c: CookieView) -> Option<CookieView> {
    let i = cookie_index(cookies, c);
    if i < cookies.len() {
        Some(cookies[i])
    } else {
        None
    }
}

/// The cookies with a newer one in the place of the first of its identity, or at the end.
pub open spec fn upserted(cookies: Seq<CookieView>, c: CookieView) -> Seq<CookieView> {
    let i = cookie_index(cookies, c);
    if i < cookies.len() {
        cookies.update(i, c)
    } else {
        cookies.push(c)
    }
}

/// The cookies with each of a list of newer ones taken in, in order.
pub open spec fn upserted_all(cookies: Seq<CookieView>, newer: Seq<CookieView>) -> Seq<CookieView>
    decreases newer.len(),
{
    if newer.len() == 0 {
        cookies
    } else {
        upserted(upserted_all(cookies, newer.drop_last()), newer.last())
    }
}

/// No two cookies of the list have the same identity.
pub open spec fn distinct(cookies: Seq<CookieView>) -> bool {
    forall|i: int, j: int|
        0 <= i < j < cookies.len() ==> !same_cookie(#[trigger] cookies[i], #[trigger] cookies[j])
}

/// Whether a cookie is still good at a time, in seconds since the Unix epoch.
pub open spec fn is_live(c: CookieView, now: i64) -> bool {
    match c.expires {
        Some(e) => e > now,
        None => true,
    }
}

/// The cookies that are still good at a time, in their order.
pub open spec fn live(cookies: Seq<CookieView>, now: i64) -> Seq<CookieView> {
    cookies.filter(|c: CookieView| is_live(c, now))
}

proof fn lemma_cookie_index(cookies: Seq<CookieView>, c: CookieView, i: int)
    requires
        0 <= i <= cookies.len(),
        forall|j: int| 0 <= j < i ==> !same_cookie(#[trigger] cookies[j], c),
        i < cookies.len() ==> same_cookie(cookies[i], c),
    ensures
        cookie_index(cookies, c) == i,
    decreases i,
{
    if i > 0 {
        assert(!same_cookie(cookies[0], c));
        let rest = cookies.skip(1);
        assert forall|j: int| 0 <= j < i - 1 implies !same_cookie(#[trigger] rest[j], c) by {
            assert(rest[j] == cookies[j + 1]);
        }
        lemma_cookie_index(rest, c, i - 1);
    }
}

proof fn lemma_cookie_index_bounds(cookies: Seq<CookieView>, c: CookieView)
    ensures
        0 <= cookie_index(cookies, c) <= cookies.len(),
        cookie_index(cookies, c) < cookies.len() ==> same_cookie(
            cookies[cookie_index(cookies, c)],
            c,
        ),
        forall|j: int|
            0 <= j < cookie_index(cookies, c) ==> !same_cookie(#[trigger] cookies[j], c),
    decreases cookies.len(),
{
    if cookies.len() > 0 && !same_cookie(cookies[0], c) {
        let rest = cookies.skip(1);
        lemma_cookie_index_bounds(rest, c);
        assert forall|j: int| 0 <= j < cookie_index(cookies, c) implies !same_cookie(
            #[trigger] cookies[j],
            c,
        ) by {
            if j > 0 {
                assert(cookies[j] == rest[j - 1]);
            }
        }
    }
}

/// Takes a cookie in on its name, domain and path, as a browser does: a newer cookie replaces
/// an existing one instead of standing beside it.
pub fn upsert_cookie(cookies: &mut Vec<StoredCookie>, incoming: StoredCookie)
    ensures
        cookie_views(final(cookies)@) == upserted(cookie_views(old(cookies)@), incoming@),
        ({
            let before = old(cookies)@;
            ||| exists|k: int|
                {
                    &&& 0 <= k < before.len()
                    &&& (#[trigger] before[k]).name@ == incoming.name@
                    &&& opt_text(before[k].domain) == opt_text(incoming.domain)
                    &&& opt_text(before[k].path) == opt_text(incoming.path)
                    &&& forall|j: int|
                        0 <= j < k ==> {
                            ||| (#[trigger] before[j]).name@ != incoming.name@
                            ||| opt_text(before[j].domain) != opt_text(incoming.domain)
                            ||| opt_text(before[j].path) != opt_text(incoming.path)
                        }
                    &&& final(cookies)@ == before.update(k, incoming)
                }
            ||| {
                &&& forall|j: int|
                    0 <= j < before.len() ==> {
                        ||| (#[trigger] before[j]).name@ != incoming.name@
                        ||| opt_text(before[j].domain) != opt_text(incoming.domain)
                        ||| opt_text(before[j].path) != opt_text(incoming.path)
                    }
                &&& final(cookies)@ == before.push(incoming)
            }
        }),
{
    let ghost views = cookie_views(cookies@);
    let ghost before = cookies@;
    let mut i: usize = 0;
    while i < cookies.len()
        invariant
            cookies@ == before,
            before == old(cookies)@,
            views == cookie_views(before),
            i <= cookies@.len(),
            forall|j: int| 0 <= j < i ==> !same_cookie(#[trigger] views[j], incoming@),
            forall|j: int|
                0 <= j < i ==> {
                    ||| (#[trigger] before[j]).name@ != incoming.name@
                    ||| opt_text(before[j].domain) != opt_text(incoming.domain)
                    ||| opt_text(before[j].path) != opt_text(incoming.path)
                },
        decreases cookies@.len() - i,
    {
        if str_eq(cookies[i].name.as_str(), incoming.name.as_str()) && opt_eq(
            &cookies[i].domain,
            &incoming.domain,
        ) && opt_eq(&cookies[i].path, &incoming.path) {
            proof {
                lemma_cookie_index(views, incoming@, i as int);
            }
            assert(before[i as int].name@ == incoming.name@);
            cookies.set(i, incoming);
            assert(cookies@ == before.update(i as int, incoming));
            assert(cookie_views(cookies@) =~= views.update(i as int, incoming@));
            return;
        }
        i += 1;
    }
    proof {
        lemma_cookie_index(views, incoming@, i as int);
    }
    cookies.push(incoming);
    assert(cookie_views(cookies@) =~= views.push(incoming@));
}

/// Drops the cookies that are no longer good at a time; the others keep their order.
pub fn purge_expired_at(cookies: &mut Vec<StoredCookie>, now: i64)
    ensures
        cookie_views(final(cookies)@) == live(cookie_views(old(cookies)@), now),
        final(cookies)@ == old(cookies)@.filter(
            |c: StoredCookie| c.expires is None || c.expires->0 > now,
        ),
{
    let ghost stored = cookies@;
    let ghost fit = |c: StoredCookie| c.expires is None || c.expires->0 > now;
    let ghost all = cookie_views(cookies@);
    let ghost good = |c: CookieView| is_live(c, now);
    let ghost mut seen: int = 0;
    let mut i: usize = 0;
    assert(all.take(0).filter(good) =~= Seq::<CookieView>::empty()) by {
        reveal(Seq::filter);
    }
    assert(stored.take(0).filter(fit) =~= Seq::<StoredCookie>::empty()) by {
        reveal(Seq::filter);
    }
    assert(stored.skip(0) =~= stored);
    assert(Seq::<StoredCookie>::empty() + stored =~= stored);
    assert(all.skip(0) =~= all);
    assert(Seq::<CookieView>::empty() + all =~= all);
    while i < cookies.len()
        invariant
            good == (|c: CookieView| is_live(c, now)),
            fit == (|c: StoredCookie| c.expires is None || c.expires->0 > now),
            all == cookie_views(stored),
            i == stored.take(seen).filter(fit).len(),
            cookies@ == stored.take(seen).filter(fit) + stored.skip(seen),
            0 <= seen <= all.len(),
            i == all.take(seen).filter(good).len(),
            cookie_views(cookies@) == all.take(seen).filter(good) + all.skip(seen),
        decreases cookies@.len() - i,
    {
        let ghost views = cookie_views(cookies@);
        let ghost kept = all.take(seen).filter(good);
        let ghost held = stored.take(seen).filter(fit);
        let ghost current = cookies@;
        assert(cookies@[i as int] == stored.skip(seen)[0]);
        assert(views[i as int] == all.skip(seen)[0]);
        assert(cookies@[i as int]@ == all[seen]);
        let keep = match cookies[i].expires {
            Some(e) => e > now,
            None => true,
        };
        proof {
            reveal(Seq::filter);
            assert(all.take(seen + 1).drop_last() =~= all.take(seen));
            assert(all.take(seen + 1).last() == all[seen]);
            assert(keep == good(all[seen]));
            assert(stored.take(seen + 1).drop_last() =~= stored.take(seen));
            assert(stored.take(seen + 1).last() == stored[seen]);
            assert(keep == fit(stored[seen]));
        }
        if keep {
            assert(all.take(seen + 1).filter(good) =~= kept.push(all[seen]));
            i += 1;
            assert(kept + all.skip(seen) =~= kept.push(all[seen]) + all.skip(seen + 1));
            assert(stored.take(seen + 1).filter(fit) =~= held.push(stored[seen]));
            assert(held + stored.skip(seen) =~= held.push(stored[seen]) + stored.skip(seen + 1));
        } else {
            assert(all.take(seen + 1).filter(good) =~= kept);
            let _dropped = cookies.remove(i);
            assert(cookie_views(cookies@) =~= views.remove(i as int));
            assert(views.remove(i as int) =~= kept + all.skip(seen + 1));
            assert(stored.take(seen + 1).filter(fit) =~= held);
            assert(current.remove(i as int) =~= held + stored.skip(seen + 1));
        }
        proof {
            seen = seen + 1;
        }
    }
    assert(all.skip(seen).len() == 0);
    assert(all.take(seen) =~= all);
    assert(all.take(seen).filter(good) + all.skip(seen) =~= all.filter(good));
    assert(stored.take(seen) =~= stored);
    assert(stored.take(seen).filter(fit) + stored.skip(seen) =~= stored.filter(fit));
}

/// Drops the cookies that are no longer good now.
pub fn purge_expired(cookies: &mut Vec<StoredCookie>)
    ensures
        exists|now: i64|
            clock_shows(now) && cookie_views(final(cookies)@) == #[trigger] live(
                cookie_views(old(cookies)@),
                now,
            ) && final(cookies)@ == old(cookies)@.filter(
                |c: StoredCookie| c.expires is None || c.expires->0 > now,
            ),
{
    let now = now_seconds();
    purge_expired_at(cookies, now);
}

/// After a cookie is taken in, it is the one that stands for its identity.
pub proof fn law_upsert_gives_back(cookies: Seq<CookieView>, c: CookieView)
    ensures
        cookie_like(upserted(cookies, c), c) == Some(c),
{
    lemma_cookie_index_bounds(cookies, c);
    let after = upserted(cookies, c);
    let i = cookie_index(cookies, c);
    assert forall|j: int| 0 <= j < i implies !same_cookie(#[trigger] after[j], c) by {
        assert(after[j] == cookies[j]);
    }
    lemma_cookie_index(after, c, i);
}

/// Taking a cookie in leaves every cookie of another identity as it was.
pub proof fn law_upsert_leaves_others(cookies: Seq<CookieView>, c: CookieView, other: CookieView)
    requires
        !same_cookie(other, c),
    ensures
        cookie_like(upserted(cookies, c), other) == cookie_like(cookies, other),
{
    lemma_cookie_index_bounds(cookies, c);
    lemma_cookie_index_bounds(cookies, other);
    let after = upserted(cookies, c);
    let i = cookie_index(cookies, c);
    let k = cookie_index(cookies, other);
    assert forall|j: int| 0 <= j < k implies !same_cookie(#[trigger] after[j], other) by {
        if j != i {
            assert(after[j] == cookies[j]);
        }
    }
    if k < cookies.len() {
        assert(k != i);
        assert(after[k] == cookies[k]);
        lemma_cookie_index(after, other, k);
    } else if i == cookies.len() {
        assert(!same_cookie(after[i], other));
        lemma_cookie_index(after, other, k + 1);
    } else {
        lemma_cookie_index(after, other, k);
    }
}

/// Taking a cookie in never makes a second one of the same identity.
pub proof fn law_upsert_keeps_distinct(cookies: Seq<CookieView>, c: CookieView)
    requires
        distinct(cookies),
    ensures
        distinct(upserted(cookies, c)),
{
    lemma_cookie_index_bounds(cookies, c);
    let after = upserted(cookies, c);
    let i = cookie_index(cookies, c);
    assert forall|a: int, b: int| 0 <= a < b < after.len() implies !same_cookie(
        #[trigger] after[a],
        #[trigger] after[b],
    ) by {
        if a != i && b != i {
            assert(!same_cookie(cookies[a], cookies[b]));
        } else if b == i {
            assert(!same_cookie(cookies[a], c));
        } else if i < cookies.len() {
            assert(!same_cookie(cookies[i], cookies[b]));
        }
    }
}

/// Taking a list of cookies in never makes two of the same identity.
pub proof fn law_upsert_all_keeps_distinct(cookies: Seq<CookieView>, newer: Seq<CookieView>)
    requires
        distinct(cookies),
    ensures
        distinct(upserted_all(cookies, newer)),
    decreases newer.len(),
{
    if newer.len() > 0 {
        law_upsert_all_keeps_distinct(cookies, newer.drop_last());
        law_upsert_keeps_distinct(upserted_all(cookies, newer.drop_last()), newer.last());
    }
}

/// After a list of cookies is taken in, each of them stands for its identity, unless a later one
/// of the list has the same.
pub proof fn law_upsert_all_gives_back(
    cookies: Seq<CookieView>,
    newer: Seq<CookieView>,
    k: int,
)
    requires
        0 <= k < newer.len(),
        forall|j: int| k < j < newer.len() ==> !same_cookie(#[trigger] newer[j], newer[k]),
    ensures
        cookie_like(upserted_all(cookies, newer), newer[k]) == Some(newer[k]),
    decreases newer.len(),
{
    let rest = newer.drop_last();
    if k == newer.len() - 1 {
        law_upsert_gives_back(upserted_all(cookies, rest), newer[k]);
    } else {
        assert forall|j: int| k < j < rest.len() implies !same_cookie(
            #[trigger] rest[j],
            rest[k],
        ) by {
            assert(!same_cookie(newer[j], newer[k]));
        }
        law_upsert_all_gives_back(cookies, rest, k);
        assert(!same_cookie(newer[newer.len() - 1], newer[k]));
        law_upsert_leaves_others(upserted_all(cookies, rest), newer.last(), newer[k]);
    }
}

/// Taking a list of cookies in leaves every cookie of another identity as it was.
pub proof fn law_upsert_all_leaves_others(
    cookies: Seq<CookieView>,
    newer: Seq<CookieView>,
    other: CookieView,
)
    requires
        forall|j: int| 0 <= j < newer.len() ==> !same_cookie(other, #[trigger] newer[j]),
    ensures
        cookie_like(upserted_all(cookies, newer), other) == cookie_like(cookies, other),
    decreases newer.len(),
{
    if newer.len() > 0 {
        let rest = newer.drop_last();
        assert forall|j: int| 0 <= j < rest.len() implies !same_cookie(
            other,
            #[trigger] rest[j],
        ) by {
            assert(!same_cookie(other, newer[j]));
        }
        law_upsert_all_leaves_others(cookies, rest, other);
        law_upsert_leaves_others(upserted_all(cookies, rest), newer.last(), other);
    }
}

/// Taking the same cookie in twice is the same as once.
pub proof fn law_upsert_is_idempotent(cookies: Seq<CookieView>, c: CookieView)
    ensures
        upserted(upserted(cookies, c), c) == upserted(cookies, c),
{
    law_upsert_gives_back(cookies, c);
    lemma_cookie_index_bounds(upserted(cookies, c), c);
    assert(upserted(upserted(cookies, c), c) =~= upserted(cookies, c));
}

/// A purge leaves only live cookies, and leaves every live one.
pub proof fn law_purge_keeps_exactly_the_live(cookies: Seq<CookieView>, now: i64, c: CookieView)
    ensures
        live(cookies, now).contains(c) <==> cookies.contains(c) && is_live(c, now),
    decreases cookies.len(),
{
    reveal(Seq::filter);
    let good = |c: CookieView| is_live(c, now);
    if cookies.len() > 0 {
        let rest = cookies.drop_last();
        let last = cookies.last();
        law_purge_keeps_exactly_the_live(rest, now, c);
        assert(cookies =~= rest.push(last));
        assert(cookies.contains(c) <==> rest.contains(c) || c == last) by {
            if rest.contains(c) {
                let i = choose|i: int| 0 <= i < rest.len() && rest[i] == c;
                assert(cookies[i] == c);
            }
            if c == last {
                assert(cookies[cookies.len() - 1] == c);
            }
            if cookies.contains(c) && c != last {
                let i = choose|i: int| 0 <= i < cookies.len() && cookies[i] == c;
                assert(rest[i] == c);
            }
        }
        if good(last) {
            let kept = live(rest, now);
            let after = live(cookies, now);
            assert(after =~= kept.push(last));
            assert(after.contains(c) <==> kept.contains(c) || c == last) by {
                if kept.contains(c) {
                    let i = choose|i: int| 0 <= i < kept.len() && kept[i] == c;
                    assert(after[i] == c);
                }
                if c == last {
                    assert(after[after.len() - 1] == c);
                }
                if after.contains(c) && c != last {
                    let i = choose|i: int| 0 <= i < after.len() && after[i] == c;
                    assert(kept[i] == c);
                }
            }
        }
    }
}

/// A purge after an earlier one leaves what the later one alone would leave; at the same time
/// it changes nothing.
pub proof fn law_purge_again(cookies: Seq<CookieView>, earlier: i64, later: i64)
    requires
        earlier <= later,
    ensures
        live(live(cookies, earlier), later) == live(cookies, later),
    decreases cookies.len(),
{
    reveal(Seq::filter);
    if cookies.len() > 0 {
        let rest = cookies.drop_last();
        let last = cookies.last();
        law_purge_again(rest, earlier, later);
        if is_live(last, earlier) {
            let kept = live(rest, earlier);
            assert(live(cookies, earlier) =~= kept.push(last));
            assert(kept.push(last).drop_last() =~= kept);
        }
    }
}

proof fn lemma_live_from(cookies: Seq<CookieView>, now: i64)
    ensures
        forall|i: int|
            0 <= i < live(cookies, now).len() ==> cookies.contains(#[trigger] live(cookies, now)[i]),
{
    assert forall|i: int| 0 <= i < live(cookies, now).len() implies cookies.contains(
        #[trigger] live(cookies, now)[i],
    ) by {
        let c = live(cookies, now)[i];
        law_purge_keeps_exactly_the_live(cookies, now, c);
        assert(live(cookies, now).contains(c));
    }
}

/// A purge keeps the identities distinct.
pub proof fn law_purge_keeps_distinct(cookies: Seq<CookieView>, now: i64)
    requires
        distinct(cookies),
    ensures
        distinct(live(cookies, now)),
    decreases cookies.len(),
{
    reveal(Seq::filter);
    if cookies.len() > 0 {
        let rest = cookies.drop_last();
        let last = cookies.last();
        assert(distinct(rest)) by {
            assert forall|i: int, j: int| 0 <= i < j < rest.len() implies !same_cookie(
                #[trigger] rest[i],
                #[trigger] rest[j],
            ) by {
                assert(!same_cookie(cookies[i], cookies[j]));
            }
        }
        law_purge_keeps_distinct(rest, now);
        if is_live(last, now) {
            let kept = live(rest, now);
            assert(live(cookies, now) =~= kept.push(last));
            lemma_live_from(rest, now);
            assert forall|i: int, j: int| 0 <= i < j < kept.push(last).len() implies !same_cookie(
                #[trigger] kept.push(last)[i],
                #[trigger] kept.push(last)[j],
            ) by {
                if j == kept.len() {
                    assert(rest.contains(live(rest, now)[i]));
                    let k = choose|k: int| 0 <= k < rest.len() && rest[k] == kept[i];
                    assert(!same_cookie(cookies[k], cookies[cookies.len() - 1]));
                } else {
                    assert(!same_cookie(kept[i], kept[j]));
                }
            }
        }
    }
}

/// What a stored cookie says is what its fields hold.
pub proof fn law_view_tells_the_fields(c: StoredCookie)
    ensures
        c@.name == c.name@,
        c@.value == c.value@,
        c@.domain == (match c.domain {
            Some(d) => Some(d@),
            None => None,
        }),
        c@.path == (match c.path {
            Some(p) => Some(p@),
            None => None,
        }),
        c@.expires == c.expires,
        c@.http_only == c.http_only,
        c@.secure == c.secure,
        c@.same_site == (match c.same_site {
            Some(s) => Some(s@),
            None => None,
        }),
{
}

/// A list of cookies says what each of them says, in their order.
pub proof fn law_views_are_in_order(cookies: Seq<StoredCookie>)
    ensures
        cookie_views(cookies).len() == cookies.len(),
        forall|i: int| 0 <= i < cookies.len() ==> #[trigger] cookie_views(cookies)[i] == cookies[i]@,
{
}

/// Two cookies are the same one exactly if their names, domains and paths are the same; no other
/// attribute counts.
pub proof fn law_identity_is_name_domain_path(a: CookieView, b: CookieView)
    ensures
        same_cookie(a, b) <==> a.name == b.name && a.domain == b.domain && a.path == b.path,
{
}

/// A cookie that is taken in takes the place of the first one with its name, domain and path;
/// where there is none, it stands at the end. Everything else stays where it is.
pub proof fn law_upsert_replaces_or_appends(cookies: Seq<CookieView>, c: CookieView, k: int)
    requires
        0 <= k <= cookies.len(),
        forall|j: int|
            0 <= j < k ==> (#[trigger] cookies[j]).name != c.name || cookies[j].domain != c.domain
                || cookies[j].path != c.path,
        k < cookies.len() ==> cookies[k].name == c.name && cookies[k].domain == c.domain
            && cookies[k].path == c.path,
    ensures
        k < cookies.len() ==> upserted(cookies, c) == cookies.update(k, c),
        k == cookies.len() ==> upserted(cookies, c) == cookies.push(c),
{
    lemma_cookie_index(cookies, c, k);
}

/// Taking in nothing changes nothing, and taking in a list is taking in its cookies one after the
/// other.
pub proof fn law_upsert_all_goes_in_order(
    cookies: Seq<CookieView>,
    newer: Seq<CookieView>,
    c: CookieView,
)
    ensures
        upserted_all(cookies, Seq::empty()) == cookies,
        upserted_all(cookies, newer.push(c)) == upserted(upserted_all(cookies, newer), c),
{
    assert(newer.push(c).drop_last() =~= newer);
}

/// After a purge a cookie is still there exactly if it was there before and has no expiry, or one
/// after the time of the purge. No other attribute counts.
pub proof fn law_purge_goes_by_the_expiry(cookies: Seq<CookieView>, now: i64, c: CookieView)
    ensures
        live(cookies, now).contains(c) <==> cookies.contains(c) && match c.expires {
            Some(e) => e > now,
            None => true,
        },
{
    law_purge_keeps_exactly_the_live(cookies, now, c);
}

/// A purge goes through the cookies one by one, in their order: of one cookie it leaves that
/// cookie or nothing by its expiry alone, and of two lists what it leaves of each.
pub proof fn law_purge_goes_one_by_one(
    first: Seq<CookieView>,
    second: Seq<CookieView>,
    c: CookieView,
    now: i64,
)
    ensures
        live(first + second, now) == live(first, now) + live(second, now),
        c.expires is None ==> live(seq![c], now) == seq![c],
        c.expires is Some && c.expires->0 > now ==> live(seq![c], now) == seq![c],
        c.expires is Some && c.expires->0 <= now ==> live(seq![c], now) == Seq::<
            CookieView,
        >::empty(),
    decreases second.len(),
{
    reveal(Seq::filter);
    assert(seq![c].drop_last() =~= Seq::<CookieView>::empty());
    assert(live(Seq::<CookieView>::empty(), now) =~= Seq::<CookieView>::empty());
    if second.len() == 0 {
        assert(first + second =~= first);
        assert(live(first, now) + live(second, now) =~= live(first, now));
    } else {
        let rest = second.drop_last();
        law_purge_goes_one_by_one(first, rest, c, now);
        assert((first + second).drop_last() =~= first + rest);
        assert((first + second).last() == second.last());
        if is_live(second.last(), now) {
            assert(live(first + second, now) =~= (live(first, now) + live(rest, now)).push(
                second.last(),
            ));
            assert(live(first, now) + live(second, now) =~= (live(first, now) + live(
                rest,
                now,
            )).push(second.last()));
        }
    }
}

/// Whether two cookies have the same attributes, each of them.
pub open spec fn same_attributes(a: StoredCookie, b: StoredCookie) -> bool {
    &&& a.name@ == b.name@
    &&& a.value@ == b.value@
    &&& a.domain is Some <==> b.domain is Some
    &&& a.domain is Some ==> a.domain->0@ == b.domain->0@
    &&& a.path is Some <==> b.path is Some
    &&& a.path is Some ==> a.path->0@ == b.path->0@
    &&& a.expires == b.expires
    &&& a.http_only == b.http_only
    &&& a.secure == b.secure
    &&& a.same_site is Some <==> b.same_site is Some
    &&& a.same_site is Some ==> a.same_site->0@ == b.same_site->0@
}

/// Lists of cookies that say the same are equally long, and their cookies have the same
/// attributes, one by one.
pub proof fn law_equal_views_have_equal_attributes(a: Seq<StoredCookie>, b: Seq<StoredCookie>)
    requires
        cookie_views(a) == cookie_views(b),
    ensures
        a.len() == b.len(),
        forall|i: int| 0 <= i < a.len() ==> same_attributes(#[trigger] a[i], b[i]),
{
    assert(cookie_views(a).len() == a.len());
    assert(cookie_views(b).len() == b.len());
    assert forall|i: int| 0 <= i < a.len() implies same_attributes(#[trigger] a[i], b[i]) by {
        assert(cookie_views(a)[i] == a[i]@);
        assert(cookie_views(b)[i] == b[i]@);
    }
}

} // verus!
