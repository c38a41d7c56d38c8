//! Sessions: what they keep, how long they live, and the register of them.
use crate::clock::{clock_shows, now_seconds, Timestamp};
use crate::config::{BrowserConfig, ProxyConfig, SessionConfig};
use crate::cookies::{
    cookie_views, is_live, law_purge_keeps_exactly_the_live, live, purge_expired_at,
    same_attributes, CookieView, StoredCookie,
};
use crate::fetcher::{url_host, FetchOp, FetchRun, FetchStep};
use crate::text::{concat, concat3, opt_text, str_eq, texts};
use vstd::prelude::*;

verus! {

/// What a session keeps across requests and restarts.
#[derive(Debug, Clone)]
pub struct SessionData {
    pub user_agent: String,
    pub cookies: Vec<StoredCookie>,
    /// When a clearance was last fetched, in seconds since the Unix epoch; `None` for never.
    pub clearance_fetched_at: Option<i64>,
    /// The host that the clearance is for. A clearance is of no use on another host.
    pub clearance_host: Option<String>,
}

/// What the data of a session says.
pub ghost struct SessionView {
    pub user_agent: Seq<char>,
    pub cookies: Seq<CookieView>,
    pub clearance_fetched_at: Option<i64>,
    pub clearance_host: Option<Seq<char>>,
}

impl View for SessionData {
    type V = SessionView;

    open spec fn view(&self) -> SessionView {
        SessionView {
            user_agent: self.user_agent@,
            cookies: cookie_views(self.cookies@),
            clearance_fetched_at: self.clearance_fetched_at,
            clearance_host: opt_text(self.clearance_host),
        }
    }
}

/// `ua_generator::ua::spoof_ua`: some user agent out of the list that the crate ships, picked by
/// chance. None of that list is empty.
#[verifier::external_body]
fn random_user_agent() -> (r: String)
    ensures
        r@.len() > 0,
{
    ua_generator::ua::spoof_ua().to_string()
}

/// Whether a user agent was drawn by chance out of the list.
pub closed spec fn is_drawn_user_agent(user_agent: String) -> bool {
    call_ensures(random_user_agent, (), user_agent)
}

impl SessionData {
    /// A session that has fetched nothing yet, under a user agent.
    pub fn fresh(user_agent: String) -> (r: SessionData)
        ensures
            r.user_agent == user_agent,
            r.cookies@ == Seq::<StoredCookie>::empty(),
            r.clearance_fetched_at is None,
            r.clearance_host is None,
    {
        SessionData {
            user_agent,
            cookies: Vec::new(),
            clearance_fetched_at: None,
            clearance_host: None,
        }
    }
}

impl Default for SessionData {
    /// A session that has fetched nothing yet, under some user agent.
    fn default() -> (r: SessionData)
        ensures
            is_drawn_user_agent(r.user_agent),
            r.user_agent@.len() > 0,
            r.cookies@ == Seq::<StoredCookie>::empty(),
            r.clearance_fetched_at is None,
            r.clearance_host is None,
    {
        SessionData::fresh(random_user_agent())
    }
}

/// The session that requests use when they name none.
pub const DEFAULT_SESSION_ID: &'static str = "default";

/// Whether a character is a lower-case hexadecimal digit.
pub open spec fn is_hex(c: char) -> bool {
    ('0' <= c && c <= '9') || ('a' <= c && c <= 'f')
}

/// Whether a text is a random UUID in its hyphenated form: thirty-six characters, hyphens in
/// four places and hexadecimal digits elsewhere, two of which tell the version and the variant.
pub open spec fn is_uuid(s: Seq<char>) -> bool {
    &&& s.len() == 36
    &&& forall|i: int|
        0 <= i < 36 ==> if i == 8 || i == 13 || i == 18 || i == 23 {
            #[trigger] s[i] == '-'
        } else {
            is_hex(s[i])
        }
    &&& s[14] == '4'
    &&& s[19] == '8' || s[19] == '9' || s[19] == 'a' || s[19] == 'b'
}

/// `uuid::Uuid::new_v4` in its `Display` form, the hyphenated lower-case one. Which digits it
/// has is chance.
#[verifier::external_body]
fn random_uuid() -> (r: String)
    ensures
        is_uuid(r@),
{
    uuid::Uuid::new_v4().to_string()
}

/// Whether an id was drawn by chance.
pub closed spec fn is_drawn_id(id: String) -> bool {
    call_ensures(random_uuid, (), id)
}

/// The id of a session: the given one, or a fresh one.
pub fn session_id(given: Option<&str>) -> (r: String)
    ensures
        match given {
            Some(id) => r@ == id@,
            None => is_drawn_id(r) && is_uuid(r@) && r@ != "default"@,
        },
{
    match given {
        Some(id) => id.to_owned(),
        None => {
            proof {
                reveal_strlit("default");
            }
            random_uuid()
        },
    }
}

/// The name of the file that a session's data is kept in.
pub open spec fn file_name_of(id: Seq<char>) -> Seq<char> {
    "session_"@ + id + ".json"@
}

/// The name of the file that a session's data is kept in.
pub fn session_file_name(id: &str) -> (r: String)
    ensures
        r@ == file_name_of(id@),
        r@ == "session_"@ + id@ + ".json"@,
{
    concat3("session_", id, ".json")
}

/// Different sessions are kept in different files.
pub proof fn law_files_are_not_shared(a: Seq<char>, b: Seq<char>)
    requires
        file_name_of(a) == file_name_of(b),
    ensures
        a == b,
{
    let n = "session_"@.len();
    assert(file_name_of(a).len() == n + a.len() + ".json"@.len());
    assert(file_name_of(b).len() == n + b.len() + ".json"@.len());
    assert forall|i: int| 0 <= i < a.len() implies a[i] == b[i] by {
        assert(file_name_of(a)[n + i] == a[i]);
        assert(file_name_of(b)[n + i] == b[i]);
    }
    assert(a =~= b);
}

/// The file of a fresh session lies in the directory of the sessions: its name holds no
/// separator of paths.
pub proof fn law_fresh_file_names_hold_no_separator(id: Seq<char>, i: int)
    requires
        is_uuid(id),
        0 <= i < file_name_of(id).len(),
    ensures
        file_name_of(id)[i] != '/',
        file_name_of(id)[i] != '\\',
{
    reveal_strlit("session_");
    reveal_strlit(".json");
    if 8 <= i < 44 {
        assert(file_name_of(id)[i] == id[i - 8]);
    }
}

/// A session, with the shared browser handle `C`.
pub struct Session<C> {
    pub id: String,
    pub data: SessionData,
    pub last_used: Timestamp,
    pub ttl_minutes: Option<u32>,
    pub chaser: C,
    pub proxy: Option<ProxyConfig>,
    pub session_cfg: SessionConfig,
    pub file_name: String,
}

/// The data of a session without the cookies that are no longer good at a time.
pub open spec fn purged(state: SessionView, now: i64) -> SessionView {
    SessionView { cookies: live(state.cookies, now), ..state }
}

/// The data of a session once it was looked for again: what was found, or its own where nothing
/// was or where it could not be read.
pub open spec fn reloaded(
    own: SessionView,
    found: Result<Option<SessionData>, String>,
) -> SessionView {
    match found {
        Ok(Some(data)) => data@,
        _ => own,
    }
}

/// Whether a session that was last used at a time is past its idle time.
pub open spec fn idle_too_long(last_used: Timestamp, ttl_minutes: Option<u32>, now: Timestamp) -> bool {
    match ttl_minutes {
        Some(ttl) => now.since_epoch() > last_used.since_epoch() + ttl * 60 * 1_000_000_000,
        None => false,
    }
}

impl<C> Session<C> {
    /// Whether this is the session of that id, under that configuration, with the data that was
    /// found for it; without any it has fetched nothing yet and has some user agent. The time of
    /// its last use is left open.
    pub open spec fn is_opened(
        self,
        config: BrowserConfig<C>,
        ttl_minutes: Option<u32>,
        id: String,
        found: Option<SessionData>,
    ) -> bool {
        &&& self.id == id
        &&& match found {
            Some(data) => self.data == data,
            None => {
                &&& is_drawn_user_agent(self.data.user_agent)
                &&& self.data.user_agent@.len() > 0
                &&& self.data.cookies@ == Seq::<StoredCookie>::empty()
                &&& self.data.clearance_fetched_at is None
                &&& self.data.clearance_host is None
            },
        }
        &&& self.ttl_minutes == ttl_minutes
        &&& self.chaser == config.chaser
        &&& self.proxy == config.proxy
        &&& self.session_cfg == config.session
        &&& self.file_name@ == file_name_of(id@)
    }

    /// A session of that id, used at a time, with the data that was found for it, if any.
    pub fn new_at(
        config: BrowserConfig<C>,
        ttl_minutes: Option<u32>,
        id: String,
        found: Option<SessionData>,
        now: Timestamp,
    ) -> (r: Session<C>)
        ensures
            r.is_opened(config, ttl_minutes, id, found),
            r.last_used == now,
            r.id == id,
            r.ttl_minutes == ttl_minutes,
            r.chaser == config.chaser,
            r.proxy == config.proxy,
            r.session_cfg == config.session,
            r.file_name@ == "session_"@ + id@ + ".json"@,
            found is Some ==> r.data == found->0,
            found is None ==> {
                &&& r.data.user_agent@.len() > 0
                &&& r.data.cookies@.len() == 0
                &&& r.data.clearance_fetched_at is None
                &&& r.data.clearance_host is None
            },
    {
        let file_name = session_file_name(id.as_str());
        let data = match found {
            Some(data) => data,
            None => SessionData::default(),
        };
        Session {
            id,
            data,
            last_used: now,
            ttl_minutes,
            chaser: config.chaser,
            proxy: config.proxy,
            session_cfg: config.session,
            file_name,
        }
    }

    /// A session of that id, used just now, with the data that was found for it, if any.
    pub fn new(
        config: BrowserConfig<C>,
        ttl_minutes: Option<u32>,
        id: String,
        found: Option<SessionData>,
    ) -> (r: Session<C>)
        ensures
            r.is_opened(config, ttl_minutes, id, found),
            r.last_used.is_reading(),
    {
        Session::new_at(config, ttl_minutes, id, found, Timestamp::now())
    }

    /// Notes that the session was used at a time.
    pub fn touch_at(&mut self, now: Timestamp)
        ensures
            *final(self) == (Session { last_used: now, ..*old(self) }),
    {
        self.last_used = now;
    }

    /// Notes that the session is used now: a reading of the clock takes the place of the last
    /// use, whatever stood there, and nothing else changes.
    pub fn touch(&mut self)
        ensures
            final(self).last_used.is_reading(),
            *final(self) == (Session { last_used: final(self).last_used, ..*old(self) }),
    {
        self.touch_at(Timestamp::now());
    }

    /// Whether the session is past its idle time at a time. A session without one never is,
    /// and one that is used again and again stays alive.
    pub fn is_expired_at(&self, now: &Timestamp) -> (r: bool)
        ensures
            r == idle_too_long(self.last_used, self.ttl_minutes, *now),
            self.ttl_minutes is None ==> !r,
            self.ttl_minutes is Some ==> r == (now.secs * 1_000_000_000 + now.nanos > (
            self.last_used.secs + self.ttl_minutes->0 * 60) * 1_000_000_000 + self.last_used.nanos),
    {
        match self.ttl_minutes {
            Some(ttl) => now.is_past(&self.last_used, ttl),
            None => false,
        }
    }

    /// Whether the session is past its idle time now.
    pub fn is_expired(&self) -> (r: bool)
        ensures
            exists|now: Timestamp|
                now.is_reading() && r == #[trigger] idle_too_long(
                    self.last_used,
                    self.ttl_minutes,
                    now,
                ),
    {
        let now = Timestamp::now();
        self.is_expired_at(&now)
    }

    /// Readies the data for being written out at a time: expired cookies go.
    pub fn save_at(&mut self, now: i64)
        ensures
            final(self).data@ == purged(old(self).data@, now),
            final(self).data.cookies@ == old(self).data.cookies@.filter(
                |c: StoredCookie| c.expires is None || c.expires->0 > now,
            ),
            final(self).data == (SessionData {
                cookies: final(self).data.cookies,
                ..old(self).data
            }),
            *final(self) == (Session { data: final(self).data, ..*old(self) }),
    {
        purge_expired_at(&mut self.data.cookies, now);
    }

    /// Readies the data for being written out now: expired cookies go.
    pub fn save(&mut self)
        ensures
            exists|now: i64|
                {
                    &&& clock_shows(now)
                    &&& final(self).data@ == #[trigger] purged(old(self).data@, now)
                    &&& final(self).data.cookies@ == old(self).data.cookies@.filter(
                        |c: StoredCookie| c.expires is None || c.expires->0 > now,
                    )
                },
            final(self).data == (SessionData {
                cookies: final(self).data.cookies,
                ..old(self).data
            }),
            *final(self) == (Session { data: final(self).data, ..*old(self) }),
    {
        let now = now_seconds();
        self.save_at(now);
    }

    /// Takes over the data that was found for the session. Without any it keeps its own, and so
    /// it does, with the error handed on, where what was found could not be read.
    pub fn reload(&mut self, found: Result<Option<SessionData>, String>) -> (r: Result<(), String>)
        ensures
            final(self).data@ == reloaded(old(self).data@, found),
            found matches Ok(Some(data)) ==> final(self).data == data,
            !(found matches Ok(Some(_))) ==> final(self).data == old(self).data,
            *final(self) == (Session { data: final(self).data, ..*old(self) }),
            found is Ok <==> r is Ok,
            found is Err ==> r->Err_0 == found->Err_0,
    {
        match found {
            Ok(Some(data)) => {
                self.data = data;
                Ok(())
            },
            Ok(None) => Ok(()),
            Err(e) => Err(e),
        }
    }

    /// Starts a GET fetch for the session.
    pub fn fetch(&self, url: &str, return_only_cookies: bool) -> (r: (FetchRun, FetchStep))
        ensures
            r.0.url@ == url@,
            opt_text(r.0.host) == url_host(url@),
            r.0.op == (FetchOp::Get { return_only_cookies }),
            exists|now: i64|
                clock_shows(now) && #[trigger] r.0.starts(
                    self.data@,
                    self.session_cfg.clearance_ttl_seconds,
                    now,
                    r.1,
                ),
    {
        crate::fetcher::fetch(&self.session_cfg, &self.data, url, return_only_cookies)
    }

    /// Starts a POST fetch for the session.
    pub fn fetch_post(&self, url: &str, post_data: &str) -> (r: (FetchRun, FetchStep))
        ensures
            r.0.url@ == url@,
            opt_text(r.0.host) == url_host(url@),
            r.0.op is Post,
            r.0.op->post_data@ == post_data@,
            exists|now: i64|
                clock_shows(now) && #[trigger] r.0.starts(
                    self.data@,
                    self.session_cfg.clearance_ttl_seconds,
                    now,
                    r.1,
                ),
    {
        crate::fetcher::fetch_post(&self.session_cfg, &self.data, url, post_data)
    }
}

/// What was saved comes back: a session that reads in again what was written out at a time, by
/// itself or by another, then holds exactly the data of that time without the cookies that had
/// expired. Its own data does not matter. Where nothing is found, or nothing that can be read, it
/// keeps its own.
pub proof fn law_saved_data_comes_back(
    saved: SessionView,
    now: i64,
    written: SessionData,
    own: SessionView,
    unreadable: String,
)
    requires
        written@ == purged(saved, now),
    ensures
        ({
            let back = reloaded(own, Ok(Some(written)));
            &&& back.user_agent == saved.user_agent
            &&& back.clearance_fetched_at == saved.clearance_fetched_at
            &&& back.clearance_host == saved.clearance_host
            &&& back.cookies == live(saved.cookies, now)
            &&& forall|c: CookieView| #[trigger]
                back.cookies.contains(c) <==> saved.cookies.contains(c) && is_live(c, now)
        }),
        reloaded(own, Ok(None)) == own,
        reloaded(own, Err(unreadable)) == own,
{
    assert forall|c: CookieView| #[trigger]
        live(saved.cookies, now).contains(c) <==> saved.cookies.contains(c) && is_live(c, now) by {
        law_purge_keeps_exactly_the_live(saved.cookies, now, c);
    }
}

/// A session that was used within its idle time is alive, so one that keeps being used stays
/// alive as long as no pause exceeds that time.
pub proof fn law_used_session_is_alive(
    used: Timestamp,
    ttl_minutes: Option<u32>,
    now: Timestamp,
)
    requires
        ttl_minutes is Some ==> now.since_epoch() - used.since_epoch() <= ttl_minutes->0 * 60
            * 1_000_000_000,
    ensures
        !idle_too_long(used, ttl_minutes, now),
{
}

/// A session without an idle time never expires.
pub proof fn law_no_ttl_never_expires(last_used: Timestamp, now: Timestamp)
    ensures
        !idle_too_long(last_used, None, now),
{
}

/// Once past its idle time, a session that is not used stays past it.
pub proof fn law_expiry_is_final(
    last_used: Timestamp,
    ttl_minutes: Option<u32>,
    earlier: Timestamp,
    later: Timestamp,
)
    requires
        earlier.since_epoch() <= later.since_epoch(),
        idle_too_long(last_used, ttl_minutes, earlier),
    ensures
        idle_too_long(last_used, ttl_minutes, later),
{
}

/// The position of the entry of that id; the length of the list if there is none.
pub open spec fn entry_index<H>(entries: Seq<(String, H)>, id: Seq<char>) -> int
    decreases entries.len(),
{
    if entries.len() == 0 || entries[0].0@ == id {
        0
    } else {
        1 + entry_index(entries.skip(1), id)
    }
}

/// No two entries have the same id.
pub open spec fn unique_ids<H>(entries: Seq<(String, H)>) -> bool {
    forall|i: int, j: int|
        0 <= i < j < entries.len() ==> (#[trigger] entries[i]).0@ != (#[trigger] entries[j]).0@
}

proof fn lemma_entry_index<H>(entries: Seq<(String, H)>, id: Seq<char>)
    ensures
        0 <= entry_index(entries, id) <= entries.len(),
        entry_index(entries, id) < entries.len() ==> entries[entry_index(entries, id)].0@ == id,
        forall|j: int| 0 <= j < entry_index(entries, id) ==> (#[trigger] entries[j]).0@ != id,
    decreases entries.len(),
{
    if entries.len() > 0 && entries[0].0@ != id {
        let rest = entries.skip(1);
        lemma_entry_index(rest, id);
        assert forall|j: int| 0 <= j < entry_index(entries, id) implies (#[trigger] entries[j]).0@
            != id by {
            if j > 0 {
                assert(entries[j] == rest[j - 1]);
            }
        }
    }
}

/// The register of sessions, by id; `H` is what stands for a session.
pub struct SessionManager<H> {
    entries: Vec<(String, H)>,
}

/// What a register holds: the handle of each session by its id.
pub open spec fn register_of<H>(entries: Seq<(String, H)>) -> Map<Seq<char>, H> {
    Map::new(
        |id: Seq<char>| entry_index(entries, id) < entries.len(),
        |id: Seq<char>| entries[entry_index(entries, id)].1,
    )
}

impl<H> View for SessionManager<H> {
    type V = Map<Seq<char>, H>;

    closed spec fn view(&self) -> Map<Seq<char>, H> {
        register_of(self.entries@)
    }
}

proof fn lemma_found<H>(entries: Seq<(String, H)>, id: Seq<char>, i: int)
    requires
        unique_ids(entries),
        0 <= i < entries.len(),
        entries[i].0@ == id,
    ensures
        entry_index(entries, id) == i,
{
    lemma_entry_index(entries, id);
    let k = entry_index(entries, id);
    if k < i {
        assert(entries[k].0@ != entries[i].0@);
    }
}

proof fn lemma_absent<H>(entries: Seq<(String, H)>, id: Seq<char>)
    requires
        forall|j: int| 0 <= j < entries.len() ==> (#[trigger] entries[j]).0@ != id,
    ensures
        entry_index(entries, id) == entries.len(),
{
    lemma_entry_index(entries, id);
}

proof fn lemma_replaced<H>(entries: Seq<(String, H)>, i: int, entry: (String, H))
    requires
        unique_ids(entries),
        0 <= i < entries.len(),
        entries[i].0@ == entry.0@,
    ensures
        unique_ids(entries.update(i, entry)),
        register_of(entries.update(i, entry)) == register_of(entries).insert(entry.0@, entry.1),
{
    let after = entries.update(i, entry);
    assert(unique_ids(after)) by {
        assert forall|a: int, b: int| 0 <= a < b < after.len() implies (#[trigger] after[a]).0@ != (
        #[trigger] after[b]).0@ by {
            assert(entries[a].0@ != entries[b].0@);
        }
    }
    assert forall|id: Seq<char>| #[trigger] entry_index(after, id) == entry_index(entries, id) by {
        lemma_entry_index(entries, id);
        let k = entry_index(entries, id);
        if k < entries.len() {
            assert(after[k].0@ == id);
            lemma_found(after, id, k);
        } else {
            assert forall|j: int| 0 <= j < after.len() implies (#[trigger] after[j]).0@ != id by {
                assert(entries[j].0@ != id);
            }
            lemma_absent(after, id);
        }
    }
    lemma_found(entries, entry.0@, i);
    assert forall|id: Seq<char>| id != entry.0@ && entry_index(entries, id) < entries.len() implies
        after[#[trigger] entry_index(entries, id)] == entries[entry_index(entries, id)] by {
        lemma_entry_index(entries, id);
    }
    assert(register_of(after) =~= register_of(entries).insert(entry.0@, entry.1));
}

proof fn lemma_added<H>(entries: Seq<(String, H)>, entry: (String, H))
    requires
        unique_ids(entries),
        entry_index(entries, entry.0@) == entries.len(),
    ensures
        unique_ids(entries.push(entry)),
        register_of(entries.push(entry)) == register_of(entries).insert(entry.0@, entry.1),
{
    let after = entries.push(entry);
    lemma_entry_index(entries, entry.0@);
    assert(unique_ids(after)) by {
        assert forall|a: int, b: int| 0 <= a < b < after.len() implies (#[trigger] after[a]).0@ != (
        #[trigger] after[b]).0@ by {
            if b < entries.len() {
                assert(entries[a].0@ != entries[b].0@);
            } else {
                assert(entries[a].0@ != entry.0@);
            }
        }
    }
    assert forall|id: Seq<char>| #[trigger]
        register_of(after).dom().contains(id) == register_of(entries).insert(
            entry.0@,
            entry.1,
        ).dom().contains(id) && (register_of(after).dom().contains(id) ==> register_of(after)[id]
            == register_of(entries).insert(entry.0@, entry.1)[id]) by {
        lemma_entry_index(entries, id);
        let k = entry_index(entries, id);
        if k < entries.len() {
            assert(after[k].0@ == id);
            lemma_found(after, id, k);
        } else if id == entry.0@ {
            assert(after[entries.len() as int].0@ == id);
            lemma_found(after, id, entries.len() as int);
        } else {
            assert forall|j: int| 0 <= j < after.len() implies (#[trigger] after[j]).0@ != id by {
                if j < entries.len() {
                    assert(entries[j].0@ != id);
                }
            }
            lemma_absent(after, id);
        }
    }
    assert(register_of(after) =~= register_of(entries).insert(entry.0@, entry.1));
}

proof fn lemma_removed<H>(entries: Seq<(String, H)>, i: int)
    requires
        unique_ids(entries),
        0 <= i < entries.len(),
    ensures
        unique_ids(entries.remove(i)),
        register_of(entries.remove(i)) == register_of(entries).remove(entries[i].0@),
        register_of(entries).dom().contains(entries[i].0@),
        register_of(entries)[entries[i].0@] == entries[i].1,
{
    let after = entries.remove(i);
    let gone = entries[i].0@;
    lemma_found(entries, gone, i);
    assert(forall|j: int| 0 <= j < after.len() ==> after[j] == entries[if j < i { j } else { j + 1 }]);
    assert(unique_ids(after)) by {
        assert forall|a: int, b: int| 0 <= a < b < after.len() implies (#[trigger] after[a]).0@ != (
        #[trigger] after[b]).0@ by {
            let x = if a < i { a } else { a + 1 };
            let y = if b < i { b } else { b + 1 };
            assert(entries[x].0@ != entries[y].0@);
        }
    }
    assert forall|id: Seq<char>| #[trigger]
        register_of(after).dom().contains(id) == register_of(entries).remove(gone).dom().contains(
            id,
        ) && (register_of(after).dom().contains(id) ==> register_of(after)[id] == register_of(
            entries,
        ).remove(gone)[id]) by {
        lemma_entry_index(entries, id);
        let k = entry_index(entries, id);
        if id != gone && k < entries.len() {
            assert(k != i);
            let m = if k < i { k } else { k - 1 };
            assert(after[m] == entries[k]);
            lemma_found(after, id, m);
        } else {
            assert forall|j: int| 0 <= j < after.len() implies (#[trigger] after[j]).0@ != id by {
                let x = if j < i { j } else { j + 1 };
                assert(after[j] == entries[x]);
                if id == gone {
                    if x < i {
                        assert(entries[x].0@ != entries[i].0@);
                    } else {
                        assert(entries[i].0@ != entries[x].0@);
                    }
                } else {
                    assert(entries[x].0@ != id);
                }
            }
            lemma_absent(after, id);
        }
    }
    assert(register_of(after) =~= register_of(entries).remove(gone));
}

/// Why a session is not destroyed.
#[derive(Debug)]
pub enum DestroyError {
    /// The default session stays.
    DefaultSession,
    /// There is no session of that id.
    NotFound(String),
}

impl DestroyError {
    /// The sentence that tells a person why.
    pub open spec fn text(self) -> Seq<char> {
        match self {
            DestroyError::DefaultSession => "Cannot destroy the default session"@,
            DestroyError::NotFound(id) => "Session not found: "@ + id@,
        }
    }

    /// The sentence that tells a person why.
    pub fn message(&self) -> (r: String)
        ensures
            r@ == self.text(),
    {
        match self {
            DestroyError::DefaultSession => "Cannot destroy the default session".to_owned(),
            DestroyError::NotFound(id) => concat("Session not found: ", id.as_str()),
        }
    }
}

/// The ids that a sweep takes away at a time: those of the locked sessions that are past their
/// idle time, but never the default one.
pub open spec fn swept<C>(locked: Seq<(String, &Session<C>)>, now: Timestamp) -> Set<Seq<char>> {
    Set::new(
        |id: Seq<char>|
            id != "default"@ && exists|i: int|
                {
                    &&& 0 <= i < locked.len()
                    &&& (#[trigger] locked[i]).0@ == id
                    &&& idle_too_long(locked[i].1.last_used, locked[i].1.ttl_minutes, now)
                },
    )
}

impl<H> SessionManager<H> {
    /// The ids in the order of the register.
    pub closed spec fn ids(self) -> Seq<Seq<char>> {
        self.entries@.map_values(|e: (String, H)| e.0@)
    }

    /// No id stands twice.
    pub closed spec fn unique(self) -> bool {
        unique_ids(self.entries@)
    }

    /// Each id stands once, and the default session is there.
    pub open spec fn wf(self) -> bool {
        self.unique() && self@.dom().contains("default"@)
    }

    /// A register of the default session alone.
    pub fn new(default_session: H) -> (r: SessionManager<H>)
        ensures
            r.wf(),
            r@ == Map::<Seq<char>, H>::empty().insert("default"@, default_session),
    {
        let mut entries: Vec<(String, H)> = Vec::new();
        let ghost none = entries@;
        assert(register_of(none) =~= Map::<Seq<char>, H>::empty());
        entries.push((DEFAULT_SESSION_ID.to_owned(), default_session));
        proof {
            lemma_added(none, entries@[0]);
            assert(entries@ =~= none.push(entries@[0]));
        }
        SessionManager { entries }
    }

    fn position(&self, id: &str) -> (r: Option<usize>)
        ensures
            match r {
                Some(i) => i < self.entries@.len() && i == entry_index(self.entries@, id@),
                None => entry_index(self.entries@, id@) == self.entries@.len(),
            },
    {
        let mut i: usize = 0;
        while i < self.entries.len()
            invariant
                i <= self.entries@.len(),
                forall|j: int| 0 <= j < i ==> (#[trigger] self.entries@[j]).0@ != id@,
            decreases self.entries@.len() - i,
        {
            if str_eq(self.entries[i].0.as_str(), id) {
                proof {
                    lemma_entry_index(self.entries@, id@);
                }
                return Some(i);
            }
            i += 1;
        }
        proof {
            lemma_absent(self.entries@, id@);
        }
        None
    }

    /// The id that a request means: the one it names, or the default one.
    pub fn resolve_session_id(&self, session: Option<&str>) -> (r: String)
        ensures
            r@ == (match session {
                Some(id) => id@,
                None => "default"@,
            }),
    {
        match session {
            Some(id) => id.to_owned(),
            None => DEFAULT_SESSION_ID.to_owned(),
        }
    }

    /// Enters a session under its id.
    pub fn create_session(&mut self, id: String, session: H)
        requires
            old(self).wf(),
        ensures
            final(self).wf(),
            final(self)@ == old(self)@.insert(id@, session),
    {
        match self.position(id.as_str()) {
            Some(i) => {
                proof {
                    lemma_entry_index(self.entries@, id@);
                    lemma_replaced(self.entries@, i as int, (id, session));
                }
                self.entries.set(i, (id, session));
            },
            None => {
                proof {
                    lemma_added(self.entries@, (id, session));
                }
                self.entries.push((id, session));
            },
        }
    }

    /// The session of that id.
    pub fn get_session(&self, id: &str) -> (r: Option<&H>)
        ensures
            match r {
                Some(h) => self@.dom().contains(id@) && *h == self@[id@],
                None => !self@.dom().contains(id@),
            },
    {
        match self.position(id) {
            Some(i) => Some(&self.entries[i].1),
            None => None,
        }
    }

    /// The ids of all sessions, each once.
    pub fn list_sessions(&self) -> (r: Vec<String>)
        requires
            self.wf(),
        ensures
            texts(r@) == self.ids(),
            texts(r@).no_duplicates(),
            forall|id: Seq<char>| #[trigger]
                texts(r@).contains(id) <==> self@.dom().contains(id),
    {
        let mut r: Vec<String> = Vec::new();
        let mut i: usize = 0;
        while i < self.entries.len()
            invariant
                i <= self.entries@.len(),
                texts(r@) == self.ids().take(i as int),
            decreases self.entries@.len() - i,
        {
            let ghost before = r@;
            let id = self.entries[i].0.clone();
            r.push(id);
            assert(texts(r@) =~= texts(before).push(id@));
            assert(texts(r@) =~= self.ids().take(i + 1));
            i += 1;
        }
        assert(self.ids().take(i as int) =~= self.ids());
        assert forall|id: Seq<char>| #[trigger]
            texts(r@).contains(id) <==> self@.dom().contains(id) by {
            lemma_entry_index(self.entries@, id);
            let k = entry_index(self.entries@, id);
            if k < self.entries@.len() {
                assert(self.ids()[k] == id);
            }
            if self.ids().contains(id) {
                let j = choose|j: int| 0 <= j < self.ids().len() && self.ids()[j] == id;
                assert(self.entries@[j].0@ == id);
            }
        }
        assert(texts(r@).no_duplicates()) by {
            assert forall|a: int, b: int|
                0 <= a < texts(r@).len() && 0 <= b < texts(r@).len() && a != b implies texts(r@)[a]
                != texts(r@)[b] by {
                assert(self.ids()[a] == self.entries@[a].0@);
                assert(self.ids()[b] == self.entries@[b].0@);
                if a < b {
                    assert(self.entries@[a].0@ != self.entries@[b].0@);
                } else {
                    assert(self.entries@[b].0@ != self.entries@[a].0@);
                }
            }
        }
        r
    }

    fn take_session(&mut self, id: &str) -> (r: Option<(String, H)>)
        requires
            old(self).unique(),
        ensures
            final(self).unique(),
            match r {
                Some(e) => {
                    &&& old(self)@.dom().contains(id@)
                    &&& e.0@ == id@
                    &&& e.1 == old(self)@[id@]
                    &&& final(self)@ == old(self)@.remove(id@)
                },
                None => !old(self)@.dom().contains(id@) && *final(self) == *old(self),
            },
    {
        match self.position(id) {
            Some(i) => {
                proof {
                    lemma_entry_index(self.entries@, id@);
                    lemma_removed(self.entries@, i as int);
                }
                Some(self.entries.remove(i))
            },
            None => None,
        }
    }

    /// Takes a session out of the register, for its data to be removed. The default session
    /// cannot be taken out.
    pub fn destroy_session(&mut self, id: &str) -> (r: Result<H, DestroyError>)
        requires
            old(self).wf(),
        ensures
            final(self).wf(),
            match r {
                Ok(h) => {
                    &&& id@ != "default"@
                    &&& old(self)@.dom().contains(id@)
                    &&& h == old(self)@[id@]
                    &&& final(self)@ == old(self)@.remove(id@)
                },
                Err(DestroyError::DefaultSession) => id@ == "default"@ && *final(self) == *old(self),
                Err(DestroyError::NotFound(missing)) => {
                    &&& id@ != "default"@
                    &&& !old(self)@.dom().contains(id@)
                    &&& missing@ == id@
                    &&& *final(self) == *old(self)
                },
            },
    {
        if str_eq(id, DEFAULT_SESSION_ID) {
            return Err(DestroyError::DefaultSession);
        }
        match self.take_session(id) {
            Some((_, h)) => Ok(h),
            None => Err(DestroyError::NotFound(id.to_owned())),
        }
    }

    /// The sessions that a sweep has to look at: all but the default one.
    pub fn cleanup_candidates(&self) -> (r: Vec<String>)
        requires
            self.wf(),
        ensures
            forall|id: Seq<char>| #[trigger]
                texts(r@).contains(id) <==> self@.dom().contains(id) && id != "default"@,
            texts(r@) == self.ids().filter(|id: Seq<char>| id != "default"@),
    {
        let ids = self.list_sessions();
        let ghost all = texts(ids@);
        let ghost other = |id: Seq<char>| id != "default"@;
        let mut r: Vec<String> = Vec::new();
        let mut i: usize = 0;
        assert(texts(r@) =~= all.take(0).filter(other)) by {
            reveal(Seq::filter);
        }
        while i < ids.len()
            invariant
                i <= ids@.len(),
                all == texts(ids@),
                other == (|id: Seq<char>| id != "default"@),
                texts(r@) == all.take(i as int).filter(other),
            decreases ids@.len() - i,
        {
            let ghost before = texts(r@);
            proof {
                reveal(Seq::filter);
                assert(all.take(i + 1).drop_last() =~= all.take(i as int));
                assert(all.take(i + 1).last() == ids@[i as int]@);
            }
            if !str_eq(ids[i].as_str(), DEFAULT_SESSION_ID) {
                let id = ids[i].clone();
                r.push(id);
                assert(texts(r@) =~= before.push(id@));
            }
            i += 1;
        }
        assert(all.take(i as int) =~= all);
        assert forall|id: Seq<char>| #[trigger]
            texts(r@).contains(id) <==> self@.dom().contains(id) && id != "default"@ by {
            lemma_filter_contains(all, id);
            assert(all.contains(id) <==> self@.dom().contains(id));
        }
        r
    }

    /// Takes the sessions that are past their idle time at a time out of the register, for their
    /// data to be removed. The sessions are given locked, so that none is used between the look
    /// at it and its removal; one that is in use cannot be locked and is left alone, and so is
    /// the default one.
    pub fn cleanup_expired<C>(
        &mut self,
        locked: &Vec<(String, &Session<C>)>,
        now: &Timestamp,
    ) -> (r: Vec<(String, H)>)
        requires
            old(self).wf(),
        ensures
            final(self).wf(),
            final(self)@ == old(self)@.remove_keys(swept(locked@, *now)),
            unique_ids(r@),
            forall|k: int|
                0 <= k < r@.len() ==> {
                    let id = (#[trigger] r@[k]).0@;
                    &&& swept(locked@, *now).contains(id)
                    &&& old(self)@.dom().contains(id)
                    &&& r@[k].1 == old(self)@[id]
                },
            forall|id: Seq<char>| #[trigger]
                swept(locked@, *now).contains(id) && old(self)@.dom().contains(id) ==> exists|k: int|
                    0 <= k < r@.len() && (#[trigger] r@[k]).0@ == id,
    {
        let mut r: Vec<(String, H)> = Vec::new();
        let mut i: usize = 0;
        let ghost before = self@;
        assert(swept(locked@.take(0), *now) =~= Set::empty());
        assert(self@ =~= before.remove_keys(swept(locked@.take(0), *now)));
        while i < locked.len()
            invariant
                i <= locked@.len(),
                before == old(self)@,
                before.dom().contains("default"@),
                self.unique(),
                self@ == before.remove_keys(swept(locked@.take(i as int), *now)),
                unique_ids(r@),
                forall|k: int|
                    0 <= k < r@.len() ==> {
                        let id = (#[trigger] r@[k]).0@;
                        &&& swept(locked@.take(i as int), *now).contains(id)
                        &&& before.dom().contains(id)
                        &&& r@[k].1 == before[id]
                    },
                forall|id: Seq<char>| #[trigger]
                    swept(locked@.take(i as int), *now).contains(id) && before.dom().contains(id)
                        ==> exists|k: int| 0 <= k < r@.len() && (#[trigger] r@[k]).0@ == id,
            decreases locked@.len() - i,
        {
            let ghost entry = locked@[i as int];
            let ghost done = swept(locked@.take(i as int), *now);
            let ghost next = swept(locked@.take(i + 1), *now);
            let ghost kept = r@;
            let expired = locked[i].1.is_expired_at(now);
            let takes = expired && !str_eq(locked[i].0.as_str(), DEFAULT_SESSION_ID);
            proof {
                lemma_swept_next(locked@, *now, i as int);
            }
            if takes {
                assert(next =~= done.insert(entry.0@));
                match self.take_session(locked[i].0.as_str()) {
                    Some(e) => {
                        assert(!done.contains(entry.0@));
                        r.push(e);
                        assert(self@ =~= before.remove_keys(next));
                        assert(r@[kept.len() as int].0@ == entry.0@);
                        assert forall|id: Seq<char>| #[trigger]
                            next.contains(id) && before.dom().contains(id) implies exists|k: int|
                            0 <= k < r@.len() && (#[trigger] r@[k]).0@ == id by {
                            if id == entry.0@ {
                                assert(r@[kept.len() as int].0@ == id);
                            } else {
                                assert(done.contains(id));
                                let k = choose|k: int|
                                    0 <= k < kept.len() && (#[trigger] kept[k]).0@ == id;
                                assert(r@[k].0@ == id);
                            }
                        }
                        assert(unique_ids(r@)) by {
                            assert forall|a: int, b: int| 0 <= a < b < r@.len() implies (
                            #[trigger] r@[a]).0@ != (#[trigger] r@[b]).0@ by {
                                assert(r@[a] == kept[a]);
                                if b < kept.len() {
                                    assert(kept[a].0@ != kept[b].0@);
                                } else {
                                    assert(done.contains(kept[a].0@));
                                }
                            }
                        }
                        assert forall|k: int| 0 <= k < r@.len() implies {
                            let id = (#[trigger] r@[k]).0@;
                            &&& next.contains(id)
                            &&& before.dom().contains(id)
                            &&& r@[k].1 == before[id]
                        } by {
                            if k < kept.len() {
                                assert(r@[k] == kept[k]);
                            }
                        }
                    },
                    None => {
                        assert(self@ =~= before.remove_keys(next));
                    },
                }
            } else {
                assert(next =~= done);
            }
            i += 1;
        }
        assert(locked@.take(i as int) =~= locked@);
        assert(!swept(locked@, *now).contains("default"@));
        r
    }
}

proof fn lemma_swept_next<C>(locked: Seq<(String, &Session<C>)>, now: Timestamp, i: int)
    requires
        0 <= i < locked.len(),
    ensures
        forall|id: Seq<char>| #[trigger]
            swept(locked.take(i + 1), now).contains(id) <==> swept(locked.take(i), now).contains(id)
                || (idle_too_long(locked[i].1.last_used, locked[i].1.ttl_minutes, now)
                && locked[i].0@ == id && id != "default"@),
{
    assert forall|id: Seq<char>| #[trigger]
        swept(locked.take(i + 1), now).contains(id) <==> swept(locked.take(i), now).contains(id)
            || (idle_too_long(locked[i].1.last_used, locked[i].1.ttl_minutes, now)
            && locked[i].0@ == id && id != "default"@) by {
        let a = locked.take(i);
        let b = locked.take(i + 1);
        if swept(a, now).contains(id) {
            let k = choose|k: int|
                {
                    &&& 0 <= k < a.len()
                    &&& (#[trigger] a[k]).0@ == id
                    &&& idle_too_long(a[k].1.last_used, a[k].1.ttl_minutes, now)
                };
            assert(b[k] == a[k]);
        }
        assert(b[i] == locked[i]);
        if swept(b, now).contains(id) {
            let k = choose|k: int|
                {
                    &&& 0 <= k < b.len()
                    &&& (#[trigger] b[k]).0@ == id
                    &&& idle_too_long(b[k].1.last_used, b[k].1.ttl_minutes, now)
                };
            if k < i {
                assert(a[k] == b[k]);
            }
        }
    }
}

proof fn lemma_filter_contains(ids: Seq<Seq<char>>, id: Seq<char>)
    ensures
        ids.filter(|id: Seq<char>| id != "default"@).contains(id) <==> ids.contains(id) && id
            != "default"@,
    decreases ids.len(),
{
    reveal(Seq::filter);
    let other = |id: Seq<char>| id != "default"@;
    if ids.len() > 0 {
        let rest = ids.drop_last();
        let last = ids.last();
        lemma_filter_contains(rest, id);
        assert(ids =~= rest.push(last));
        lemma_push_contains(rest, last, id);
        lemma_push_contains(rest.filter(other), last, id);
    }
}

proof fn lemma_push_contains<A>(s: Seq<A>, last: A, x: A)
    ensures
        s.push(last).contains(x) <==> s.contains(x) || x == last,
{
    if s.contains(x) {
        let i = choose|i: int| 0 <= i < s.len() && s[i] == x;
        assert(s.push(last)[i] == x);
    }
    assert(s.push(last)[s.len() as int] == last);
    if s.push(last).contains(x) && x != last {
        let i = choose|i: int| 0 <= i < s.push(last).len() && s.push(last)[i] == x;
        assert(s[i] == x);
    }
}

/// Whatever is entered under a fresh id, destroyed or swept, the default session stays in the
/// register, and stays the same one.
pub proof fn law_default_session_stays<H, C>(
    register: Map<Seq<char>, H>,
    id: Seq<char>,
    session: H,
    locked: Seq<(String, &Session<C>)>,
    now: Timestamp,
)
    requires
        register.dom().contains("default"@),
        id != "default"@,
    ensures
        register.insert(id, session).dom().contains("default"@),
        register.insert(id, session)["default"@] == register["default"@],
        register.remove(id).dom().contains("default"@),
        register.remove(id)["default"@] == register["default"@],
        register.remove_keys(swept(locked, now)).dom().contains("default"@),
        register.remove_keys(swept(locked, now))["default"@] == register["default"@],
{
}

/// A sweep leaves every session alone that is in use, and so not among the locked ones, or that
/// was used within its idle time, or that has none.
pub proof fn law_sweep_spares_the_living<H, C>(
    register: Map<Seq<char>, H>,
    locked: Seq<(String, &Session<C>)>,
    now: Timestamp,
    id: Seq<char>,
)
    requires
        register.dom().contains(id),
        forall|i: int|
            0 <= i < locked.len() && (#[trigger] locked[i]).0@ == id ==> !idle_too_long(
                locked[i].1.last_used,
                locked[i].1.ttl_minutes,
                now,
            ),
    ensures
        register.remove_keys(swept(locked, now)).dom().contains(id),
        register.remove_keys(swept(locked, now))[id] == register[id],
{
}

/// A destroyed session is not found again, and one that was entered is.
pub proof fn law_register_remembers<H>(register: Map<Seq<char>, H>, id: Seq<char>, session: H)
    ensures
        register.insert(id, session).dom().contains(id),
        register.insert(id, session)[id] == session,
        !register.remove(id).dom().contains(id),
{
}

/// The data of a session says what its fields say.
pub proof fn law_session_view_tells_the_fields(state: SessionData)
    ensures
        state@.user_agent == state.user_agent@,
        state@.cookies.len() == state.cookies@.len(),
        forall|i: int|
            0 <= i < state.cookies@.len() ==> #[trigger] state@.cookies[i] == state.cookies@[i]@,
        state@.clearance_fetched_at == state.clearance_fetched_at,
        state.clearance_host is Some ==> state@.clearance_host == Some(state.clearance_host->0@),
        state.clearance_host is None ==> state@.clearance_host is None,
{
}

/// After a save at a time, a cookie of the session is still there exactly if it has no expiry or
/// one after that time, whatever its other attributes are. Nothing else is there, and nothing
/// else of the session changes.
pub proof fn law_save_goes_by_the_expiry(state: SessionView, now: i64, c: CookieView)
    ensures
        state.cookies.contains(c) ==> (purged(state, now).cookies.contains(c) <==> c.expires is None
            || c.expires->0 > now),
        !state.cookies.contains(c) ==> !purged(state, now).cookies.contains(c),
        purged(state, now).user_agent == state.user_agent,
        purged(state, now).clearance_fetched_at == state.clearance_fetched_at,
        purged(state, now).clearance_host == state.clearance_host,
{
    law_purge_keeps_exactly_the_live(state.cookies, now, c);
}

/// The same of the data itself: for each of its cookies, one with the same attributes is in what
/// was saved exactly if the cookie has no expiry or one after the time of the save.
pub proof fn law_saved_cookies_go_by_their_expiry(
    state: SessionData,
    now: i64,
    saved: SessionData,
    i: int,
)
    requires
        saved@ == purged(state@, now),
        0 <= i < state.cookies@.len(),
    ensures
        state.cookies@[i].expires is None || state.cookies@[i].expires->0 > now <==> exists|k: int|
            0 <= k < saved.cookies@.len() && same_attributes(
                #[trigger] saved.cookies@[k],
                state.cookies@[i],
            ),
{
    let c = state.cookies@[i];
    assert(state@.cookies[i] == c@);
    law_save_goes_by_the_expiry(state@, now, c@);
    if saved@.cookies.contains(c@) {
        let k = choose|k: int| 0 <= k < saved@.cookies.len() && saved@.cookies[k] == c@;
        assert(saved.cookies@[k]@ == c@);
        assert(same_attributes(saved.cookies@[k], c));
    }
    assert forall|k: int|
        0 <= k < saved.cookies@.len() && same_attributes(
            #[trigger] saved.cookies@[k],
            c,
        ) implies saved@.cookies.contains(c@) by {
        assert(saved@.cookies[k] == saved.cookies@[k]@);
        assert(saved.cookies@[k]@ == c@);
    }
}

/// What is found for a session takes the place of its own data, all of it; where nothing is found
/// or nothing can be read, its own stays.
pub proof fn law_found_data_takes_the_place(
    own: SessionView,
    data: SessionData,
    unreadable: String,
)
    ensures
        reloaded(own, Ok(Some(data))).user_agent == data.user_agent@,
        reloaded(own, Ok(Some(data))).cookies == cookie_views(data.cookies@),
        reloaded(own, Ok(Some(data))).clearance_fetched_at == data.clearance_fetched_at,
        reloaded(own, Ok(Some(data))).clearance_host == opt_text(data.clearance_host),
        reloaded(own, Ok(None)) == own,
        reloaded(own, Err(unreadable)) == own,
{
}

/// A session is past its idle time exactly once more than that many minutes have gone by since
/// its last use.
pub proof fn law_idle_time_is_minutes(last_used: Timestamp, ttl: u32, now: Timestamp)
    ensures
        idle_too_long(last_used, Some(ttl), now) <==> now.secs * 1_000_000_000 + now.nanos > (
        last_used.secs + ttl * 60) * 1_000_000_000 + last_used.nanos,
{
}

/// A sweep takes away exactly the sessions that are locked and past their idle time, the default
/// one excepted; every other session stays as it is.
pub proof fn law_sweep_takes_the_idle<H, C>(
    register: Map<Seq<char>, H>,
    locked: Seq<(String, &Session<C>)>,
    now: Timestamp,
    i: int,
)
    requires
        0 <= i < locked.len(),
        register.dom().contains(locked[i].0@),
        forall|j: int|
            0 <= j < locked.len() && (#[trigger] locked[j]).0@ == locked[i].0@ ==> j == i,
    ensures
        ({
            let s = locked[i].1;
            let left = register.remove_keys(swept(locked, now));
            let idle = s.ttl_minutes is Some && now.secs * 1_000_000_000 + now.nanos > (
            s.last_used.secs + s.ttl_minutes->0 * 60) * 1_000_000_000 + s.last_used.nanos;
            &&& left.dom().contains(locked[i].0@) <==> !idle || locked[i].0@ == "default"@
            &&& left.dom().contains(locked[i].0@) ==> left[locked[i].0@] == register[locked[i].0@]
        }),
{
}

/// A session opens with the id, the idle time, the browser, the proxy and the settings that it is
/// given, with the data that was found for it, and with a file of its own.
pub proof fn law_session_opens_as_told<C>(
    s: Session<C>,
    config: BrowserConfig<C>,
    ttl_minutes: Option<u32>,
    id: String,
    found: Option<SessionData>,
)
    requires
        s.is_opened(config, ttl_minutes, id, found),
    ensures
        s.id == id,
        s.ttl_minutes == ttl_minutes,
        s.chaser == config.chaser,
        s.proxy == config.proxy,
        s.session_cfg == config.session,
        s.file_name@ == "session_"@ + id@ + ".json"@,
        found is Some ==> s.data == found->0,
        found is None ==> {
            &&& s.data.user_agent@.len() > 0
            &&& s.data.cookies@.len() == 0
            &&& s.data.clearance_fetched_at is None
            &&& s.data.clearance_host is None
        },
{
}

/// A register holds exactly the ids that were entered, each with its own session.
pub proof fn law_register_holds_its_entries<H>(entries: Seq<(String, H)>, i: int, id: Seq<char>)
    requires
        unique_ids(entries),
        0 <= i < entries.len(),
    ensures
        register_of(entries).dom().contains(entries[i].0@),
        register_of(entries)[entries[i].0@] == entries[i].1,
        register_of(entries).dom().contains(id) ==> exists|k: int|
            0 <= k < entries.len() && (#[trigger] entries[k]).0@ == id,
{
    lemma_found(entries, entries[i].0@, i);
    lemma_entry_index(entries, id);
}

/// A session that is not destroyed tells why.
pub proof fn law_refused_destruction_is_told(id: String)
    ensures
        DestroyError::DefaultSession.text() == "Cannot destroy the default session"@,
        DestroyError::NotFound(id).text() == "Session not found: "@ + id@,
{
}

/// A user agent counts as drawn exactly if the draw can give it.
proof fn law_drawn_user_agents_are_given_by_the_draw(user_agent: String)
    ensures
        is_drawn_user_agent(user_agent) <==> call_ensures(random_user_agent, (), user_agent),
{
}

/// An id counts as drawn exactly if the draw can give it.
proof fn law_drawn_ids_are_given_by_the_draw(id: String)
    ensures
        is_drawn_id(id) <==> call_ensures(random_uuid, (), id),
{
}

} // verus!
