//! Short-lived download tokens for files that belong to no stored record.
//!
//! A registry maps an opaque token to a file path and an expiry instant.
//! Entries are only ever dropped when they are read at or after their
//! expiry: nothing sweeps the registry in the background, and no entry is
//! removed early or updated in place.

use vstd::prelude::*;
use crate::paths::opt_text;
use vstd::hash_map::StringHashMap;

verus! {

/// How long a token stays readable, in seconds.
pub const TTL_SECS: u64 = 120;

/// What a registry entry means: the file it points at and the instant, in
/// seconds since the Unix epoch, from which it is no longer served.
pub struct TempFileView {
    pub path: Seq<char>,
    pub expiry: int,
}

/// A file path together with the instant at which access to it lapses.
pub struct TempFile {
    path: String,
    expiry: u128,
}

impl View for TempFile {
    type V = TempFileView;

    closed spec fn view(&self) -> TempFileView {
        TempFileView { path: self.path@, expiry: self.expiry as int }
    }
}

/// The textual form of a token: 36 characters, lower-case hexadecimal
/// digits in groups of 8, 4, 4, 4 and 12 with a hyphen between groups.
pub open spec fn is_token_text(s: Seq<char>) -> bool {
    &&& s.len() == 36
    &&& forall|i: int|
        0 <= i < 36 ==> if i == 8 || i == 13 || i == 18 || i == 23 {
            #[trigger] s[i] == '-'
        } else {
            ('0' <= s[i] <= '9') || ('a' <= s[i] <= 'f')
        }
}

/// The registry after `token` was issued for `path` at time `now`.
pub open spec fn added(
    m: Map<Seq<char>, TempFileView>,
    token: Seq<char>,
    path: Seq<char>,
    now: int,
) -> Map<Seq<char>, TempFileView> {
    m.insert(token, TempFileView { path, expiry: now + TTL_SECS })
}

/// Whether `token` names an entry of `m` that has not expired at time `now`.
pub open spec fn is_live(m: Map<Seq<char>, TempFileView>, token: Seq<char>, now: int) -> bool {
    m.dom().contains(token) && now < m[token].expiry
}

/// What a read of `token` at time `now` answers.
pub open spec fn lookup(m: Map<Seq<char>, TempFileView>, token: Seq<char>, now: int) -> Option<
    Seq<char>,
> {
    if is_live(m, token, now) {
        Some(m[token].path)
    } else {
        None
    }
}

/// The registry after a read of `token` at time `now`: a live entry stays,
/// an expired one is dropped.
pub open spec fn after_lookup(
    m: Map<Seq<char>, TempFileView>,
    token: Seq<char>,
    now: int,
) -> Map<Seq<char>, TempFileView> {
    if is_live(m, token, now) {
        m
    } else {
        m.remove(token)
    }
}

/// Reads the system clock through `SystemTime::now` and
/// `SystemTime::duration_since`: the whole seconds since `UNIX_EPOCH` and
/// the nanoseconds beyond them. Nothing is claimed of the values. `None`
/// stands for a clock that is set before the epoch.
#[verifier::external_body]
pub(crate) fn unix_clock() -> (now: Option<(u64, u32)>) {
    match std::time::SystemTime::now().duration_since(std::time::UNIX_EPOCH) {
        Ok(elapsed) => Some((elapsed.as_secs(), elapsed.subsec_nanos())),
        Err(_) => None,
    }
}

/// Draws a random identifier with `uuid::Uuid::new_v4` and renders it with
/// its `Display` impl. The identifier itself is random, so only its textual
/// shape is claimed: the hyphenated lower-case form.
#[verifier::external_body]
fn fresh_token() -> (token: String)
    ensures
        is_token_text(token@),
{
    uuid::Uuid::new_v4().to_string()
}

/// The current time in seconds since the Unix epoch; a clock set before the
/// epoch reads as the epoch itself.
pub fn current_time() -> (now: u64) {
    // The clock decides the value, so nothing is promised of it here.
    let seconds = match unix_clock() {
        Some(reading) => Some(reading.0),
        None => None,
    };
    time_from(seconds)
}

impl TempFile {
    /// An entry for `path` that lapses `TTL_SECS` seconds after the present
    /// moment.
    pub fn new(path: String) -> (file: Self)
        ensures
            file@.path == path@,
            TTL_SECS <= file@.expiry <= u64::MAX + TTL_SECS,
    {
        let now = current_time();
        TempFile::starting_at(path, now)
    }

    /// An entry for `path` that lapses `TTL_SECS` seconds after `now`.
    pub fn starting_at(path: String, now: u64) -> (file: Self)
        ensures
            file@ == (TempFileView { path: path@, expiry: now + TTL_SECS }),
    {
        TempFile { path, expiry: now as u128 + TTL_SECS as u128 }
    }

    /// The file that the entry points at.
    pub fn path(&self) -> (path: &String)
        ensures
            path@ == self@.path,
    {
        &self.path
    }

    /// The first instant, in seconds since the Unix epoch, at which the
    /// entry is no longer served.
    pub fn expiry(&self) -> (expiry: u128)
        ensures
            expiry == self@.expiry,
    {
        self.expiry
    }

    /// Whether the entry is still served at time `now`.
    pub fn is_live_at(&self, now: u64) -> (live: bool)
        ensures
            live == (now < self@.expiry),
    {
        (now as u128) < self.expiry
    }
}

/// The registry of issued tokens: a hash map from the text of a token to
/// its entry.
pub struct TempFileService {
    files: StringHashMap<TempFile>,
}

impl View for TempFileService {
    type V = Map<Seq<char>, TempFileView>;

    closed spec fn view(&self) -> Map<Seq<char>, TempFileView> {
        self.files@.map_values(|file: TempFile| file@)
    }
}

impl TempFileService {
    /// An empty registry.
    pub fn new() -> (service: Self)
        ensures
            service@ == Map::<Seq<char>, TempFileView>::empty(),
    {
        let service = TempFileService { files: StringHashMap::new() };
        assert(service@ =~= Map::<Seq<char>, TempFileView>::empty());
        service
    }

    /// Issues a fresh random token for `path`, valid for `TTL_SECS` seconds
    /// from the present moment, and returns it.
    pub fn add_file(&mut self, path: String) -> (id: String)
        ensures
            is_token_text(id@),
            exists|now: u64| final(self)@ == added(old(self)@, id@, path@, now as int),
    {
        let id = fresh_token();
        let now = current_time();
        self.add_file_with(id.clone(), path, now);
        id
    }

    /// Stores `path` under `token` with an expiry of `now + TTL_SECS`. An
    /// entry already stored under `token` is replaced.
    pub fn add_file_with(&mut self, token: String, path: String, now: u64)
        ensures
            final(self)@ == added(old(self)@, token@, path@, now as int),
    {
        let file = TempFile::starting_at(path, now);
        let ghost before = self.files@;
        let ghost key = token@;
        self.files.insert(token, file);
        assert(self@ =~= before.map_values(|file: TempFile| file@).insert(key, file@));
    }

    /// Reads `id` at the present moment: the stored path while the entry is
    /// live; otherwise nothing, and an expired entry is dropped.
    pub fn get_file(&mut self, id: &str) -> (path: Option<String>)
        ensures
            exists|now: u64|
                opt_text(path) == lookup(old(self)@, id@, now as int) && final(self)@
                    == after_lookup(old(self)@, id@, now as int),
    {
        let now = current_time();
        self.get_file_at(id, now)
    }

    /// Reads `id` at time `now`: the stored path if an entry exists and
    /// `now` is before its expiry, and the registry is left as it was;
    /// otherwise nothing, and the entry, if there was one, is dropped.
    pub fn get_file_at(&mut self, id: &str, now: u64) -> (path: Option<String>)
        ensures
            opt_text(path) == lookup(old(self)@, id@, now as int),
            final(self)@ == after_lookup(old(self)@, id@, now as int),
    {
        let ghost before = self.files@;
        let live = match self.files.get(id) {
            Some(file) => {
                if file.is_live_at(now) {
                    Some(file.path.clone())
                } else {
                    None
                }
            },
            None => None,
        };
        match live {
            Some(path) => Some(path),
            None => {
                self.files.remove(id);
                assert(self@ =~= before.map_values(|file: TempFile| file@).remove(id@));
                None
            },
        }
    }

    /// The number of entries that the registry holds, expired ones included.
    pub fn len(&self) -> (n: usize)
        ensures
            n == self@.dom().len(),
    {
        assert(self@.dom() =~= self.files@.dom());
        self.files.len()
    }
}

/// The time that a reading of the clock stands for, in seconds since the
/// Unix epoch: the reading itself, and the epoch where the clock is set
/// before it and so gives no reading.
pub open spec fn time_of(reading: Option<u64>) -> u64 {
    match reading {
        Some(seconds) => seconds,
        None => 0,
    }
}

/// The time that `reading` stands for: a clock set before the epoch reads
/// as the epoch itself.
pub fn time_from(reading: Option<u64>) -> (now: u64)
    ensures
        now == time_of(reading),
{
    match reading {
        Some(seconds) => seconds,
        None => 0,
    }
}

/// One call on a registry, as the laws below speak of it.
pub enum Request {
    /// `token` is issued for `path` at time `now`.
    Add { token: Seq<char>, path: Seq<char>, now: int },
    /// `token` is read at time `now`.
    Get { token: Seq<char>, now: int },
}

impl Request {
    /// The time at which the call is made.
    pub open spec fn time(self) -> int {
        match self {
            Request::Add { now, .. } => now,
            Request::Get { now, .. } => now,
        }
    }

    /// Whether the call issues `token`.
    pub open spec fn issues(self, token: Seq<char>) -> bool {
        match self {
            Request::Add { token: t, .. } => t == token,
            Request::Get { .. } => false,
        }
    }
}

/// The registry after one call.
pub open spec fn step(m: Map<Seq<char>, TempFileView>, r: Request) -> Map<Seq<char>, TempFileView> {
    match r {
        Request::Add { token, path, now } => added(m, token, path, now),
        Request::Get { token, now } => after_lookup(m, token, now),
    }
}

/// The registry after the calls of `rs`, made in order.
pub open spec fn run(m: Map<Seq<char>, TempFileView>, rs: Seq<Request>) -> Map<
    Seq<char>,
    TempFileView,
>
    decreases rs.len(),
{
    if rs.len() == 0 {
        m
    } else {
        step(run(m, rs.drop_last()), rs.last())
    }
}

/// As long as `token` is not issued again, calls on the registry leave its
/// entry as it is or drop it, and never bring it back once it is gone.
pub proof fn entry_only_leaves(m: Map<Seq<char>, TempFileView>, token: Seq<char>, rs: Seq<Request>)
    requires
        forall|i: int| 0 <= i < rs.len() ==> !(#[trigger] rs[i]).issues(token),
    ensures
        run(m, rs).dom().contains(token) ==> m.dom().contains(token) && run(m, rs)[token]
            == m[token],
    decreases rs.len(),
{
    if rs.len() > 0 {
        entry_only_leaves(m, token, rs.drop_last());
        assert(!rs[rs.len() - 1].issues(token));
    }
}

/// A live entry survives every sequence of calls that does not issue its
/// token again and in which no call is made at or after its expiry.
pub proof fn entry_stays_while_live(
    m: Map<Seq<char>, TempFileView>,
    token: Seq<char>,
    rs: Seq<Request>,
)
    requires
        m.dom().contains(token),
        forall|i: int| 0 <= i < rs.len() ==> !(#[trigger] rs[i]).issues(token),
        forall|i: int| 0 <= i < rs.len() ==> (#[trigger] rs[i]).time() < m[token].expiry,
    ensures
        run(m, rs).dom().contains(token),
        run(m, rs)[token] == m[token],
    decreases rs.len(),
{
    if rs.len() > 0 {
        entry_stays_while_live(m, token, rs.drop_last());
        assert(!rs[rs.len() - 1].issues(token));
        assert(rs[rs.len() - 1].time() < m[token].expiry);
    }
}

/// The time to live is exact. Let `token` be issued for `path` at time
/// `issued_at`, and let any calls follow that do not issue `token` again,
/// none of them made after time `t`. Then a read of `token` at time `t`
/// answers `path` if `t` is before `issued_at + TTL_SECS`, and nothing if
/// `t` is at or after that instant.
pub proof fn ttl_is_exact(
    m: Map<Seq<char>, TempFileView>,
    token: Seq<char>,
    path: Seq<char>,
    issued_at: int,
    later: Seq<Request>,
    t: int,
)
    requires
        forall|i: int| 0 <= i < later.len() ==> !(#[trigger] later[i]).issues(token),
        forall|i: int| 0 <= i < later.len() ==> (#[trigger] later[i]).time() <= t,
    ensures
        lookup(run(added(m, token, path, issued_at), later), token, t) == if t < issued_at
            + TTL_SECS {
            Some(path)
        } else {
            None
        },
{
    let start = added(m, token, path, issued_at);
    if t < issued_at + TTL_SECS {
        entry_stays_while_live(start, token, later);
    } else {
        entry_only_leaves(start, token, later);
    }
}

/// A read before the expiry leaves the registry exactly as it was, so the
/// same read can be repeated.
pub proof fn live_read_changes_nothing(m: Map<Seq<char>, TempFileView>, token: Seq<char>, t: int)
    requires
        is_live(m, token, t),
    ensures
        after_lookup(m, token, t) == m,
        lookup(after_lookup(m, token, t), token, t) == lookup(m, token, t),
{
}

/// An evicted entry does not come back. Once a read of `token` at time `t`
/// has answered nothing, every later read of it answers nothing too,
/// whatever calls are made in between and at whatever time, as long as
/// `token` is not issued again.
pub proof fn eviction_is_final(
    m: Map<Seq<char>, TempFileView>,
    token: Seq<char>,
    t: int,
    later: Seq<Request>,
    t_next: int,
)
    requires
        lookup(m, token, t) is None,
        forall|i: int| 0 <= i < later.len() ==> !(#[trigger] later[i]).issues(token),
    ensures
        !after_lookup(m, token, t).dom().contains(token),
        lookup(run(after_lookup(m, token, t), later), token, t_next) is None,
{
    entry_only_leaves(after_lookup(m, token, t), token, later);
}

/// Where a token stands in its life at a given time.
pub enum TokenState {
    /// Stored, and not yet past its expiry: reads answer its path.
    Active,
    /// Stored, but past its expiry and not read since: the next read drops
    /// it.
    Expired,
    /// Not stored: never issued, or dropped by a read.
    Evicted,
}

/// The state of `token` in the registry `m` at time `now`.
pub open spec fn state_of(m: Map<Seq<char>, TempFileView>, token: Seq<char>, now: int) -> TokenState {
    if !m.dom().contains(token) {
        TokenState::Evicted
    } else if now < m[token].expiry {
        TokenState::Active
    } else {
        TokenState::Expired
    }
}

/// A read moves a token along its life and never back: an active token
/// stays active and is answered, an expired one is evicted, an evicted one
/// stays evicted, and in both of these cases the read answers nothing.
pub proof fn read_moves_forward(m: Map<Seq<char>, TempFileView>, token: Seq<char>, t: int)
    ensures
        state_of(m, token, t) is Active ==> state_of(after_lookup(m, token, t), token, t)
            is Active && lookup(m, token, t) == Some(m[token].path),
        !(state_of(m, token, t) is Active) ==> state_of(after_lookup(m, token, t), token, t)
            is Evicted && lookup(m, token, t) is None,
{
}

/// A token that is no longer active never becomes active again: as time
/// goes on, and whatever calls are made, it stays expired or evicted as
/// long as it is not issued again.
pub proof fn never_active_again(
    m: Map<Seq<char>, TempFileView>,
    token: Seq<char>,
    t: int,
    later: Seq<Request>,
    t_next: int,
)
    requires
        !(state_of(m, token, t) is Active),
        forall|i: int| 0 <= i < later.len() ==> !(#[trigger] later[i]).issues(token),
        t <= t_next,
    ensures
        !(state_of(run(m, later), token, t_next) is Active),
{
    entry_only_leaves(m, token, later);
}

/// Reads never grow the registry, and a read of one token leaves the
/// entries of all other tokens untouched.
pub proof fn read_touches_one_entry(
    m: Map<Seq<char>, TempFileView>,
    token: Seq<char>,
    t: int,
    other: Seq<char>,
)
    requires
        other != token,
    ensures
        after_lookup(m, token, t).dom().contains(other) == m.dom().contains(other),
        m.dom().contains(other) ==> after_lookup(m, token, t)[other] == m[other],
        after_lookup(m, token, t).dom().subset_of(m.dom()),
{
}

} // verus!
