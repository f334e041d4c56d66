//! Management of the user's personal API keys: listing (active keys first),
//! creation with an expiry date, rotation and deletion confirmed in two steps.

use vstd::prelude::*;
use crate::common::{current_timestamp, max_timestamp, Timestamp, nanos_of};

verus! {

/// One API key as the server lists it; times as chrono holds them (UTC).
pub struct ApiKeyData {
    pub id: i64,
    pub name: String,
    pub is_active: bool,
    pub expires_at: Timestamp,
    pub last_used_at: Option<Timestamp>,
    pub created_at: Timestamp,
}

impl ApiKeyData {
    /// A copy of the key.
    pub fn duplicate(&self) -> (r: Self)
        ensures
            r == *self,
    {
        ApiKeyData {
            id: self.id,
            name: self.name.clone(),
            is_active: self.is_active,
            expires_at: self.expires_at,
            last_used_at: self.last_used_at,
            created_at: self.created_at,
        }
    }
}

/// Query: the keys of the signed-in user.
pub struct GetApiKeys;

/// Mutation: a new key with a name and an optional expiry.
pub struct CreateApiKey {
    pub name: String,
    pub expires_at: Option<Timestamp>,
}

/// Mutation: delete the key with this id.
pub struct DeleteApiKey {
    pub key_id: i64,
}

/// Mutation: replace the secret of the key with this id.
pub struct RotateApiKey {
    pub key_id: i64,
}

/// A request that the key manager sends to the server.
pub enum ApiKeyRequest {
    List(GetApiKeys),
    Create(CreateApiKey),
    Delete(DeleteApiKey),
    Rotate(RotateApiKey),
}

/// The notice shown above the key table.
pub enum Notice {
    KeyDeleted,
}

/// What the key manager reacts to. Server replies arrive already decoded:
/// `Err` holds the message of a failed reply.
pub enum Msg {
    FetchApiKeys,
    ApiKeysLoaded(Result<Vec<ApiKeyData>, String>),
    ShowCreateModal,
    HideCreateModal,
    UpdateKeyName(String),
    UpdateExpiry(String),
    CreateKey,
    KeyCreated(Result<String, String>),
    ConfirmDelete(i64, bool),
    DeleteKey(i64),
    KeyDeleted(Result<bool, String>),
    RotateKey(i64),
    KeyRotated(Result<String, String>),
    HideNewKeyModal,
    ResponseError(String),
    ClearError,
}

/// What a transition asks of its surroundings: a request to send, or a
/// message to handle next.
pub enum Action {
    Query(ApiKeyRequest),
    Send(Msg),
}

/// The state of the key manager.
pub struct ApiKeyManager {
    pub api_keys: Vec<ApiKeyData>,
    pub show_create_modal: bool,
    pub show_new_key_modal: bool,
    pub new_key_name: String,
    pub new_key_expiry: Option<Timestamp>,
    pub new_key_token: String,
    pub delete_confirm_id: i64,
    pub loading: bool,
    pub error: Option<String>,
    pub notification: Option<Notice>,
}

/// Seconds in one year of 365 days.
pub open spec fn year_secs() -> int {
    31_536_000int
}

/// The keys in the order the page lists them: the active keys, then the
/// inactive ones, each group in the order the server gave.
pub open spec fn active_first(keys: Seq<ApiKeyData>) -> Seq<ApiKeyData> {
    keys.filter(|k: ApiKeyData| k.is_active) + keys.filter(|k: ApiKeyData| !k.is_active)
}

/// The unix time of midnight (UTC) of the date that `chrono` reads from a
/// text in the form `%Y-%m-%d`, or `None` where it reads no date.
pub uninterp spec fn ymd_midnight_utc(text: Seq<char>) -> Option<i64>;

/// `chrono::NaiveDate::parse_from_str(text, "%Y-%m-%d")`, taken to the start
/// of that day in UTC as unix seconds (`and_hms_opt(0, 0, 0)` then
/// `and_utc().timestamp()`, which is how the page stores an expiry date).
/// The result is a function of the text alone; which texts chrono accepts
/// is its own grammar and is left to the name.
#[verifier::external_body]
fn parse_expiry_date(text: &str) -> (r: Option<i64>)
    ensures
        r == ymd_midnight_utc(text@),
{
    match chrono::NaiveDate::parse_from_str(text, "%Y-%m-%d") {
        Ok(date) => match date.and_hms_opt(0, 0, 0) {
            Some(start) => Some(start.and_utc().timestamp()),
            None => None,
        },
        Err(_) => None,
    }
}

/// The transition of the key manager: from state `s`, message `m` leads to
/// state `t` and asks for `acts`. Only the opening of the creation window
/// reads the clock, so there `t` is fixed up to the reading `now`.
pub open spec fn next(s: ApiKeyManager, m: Msg, t: ApiKeyManager, acts: Seq<Action>) -> bool {
    match m {
        Msg::FetchApiKeys => t == (ApiKeyManager { loading: true, ..s })
            && acts == seq![Action::Query(ApiKeyRequest::List(GetApiKeys))],
        Msg::ApiKeysLoaded(Ok(keys)) => t.api_keys@ == active_first(keys@)
            && t == (ApiKeyManager { api_keys: t.api_keys, loading: false, ..s })
            && acts == Seq::<Action>::empty(),
        Msg::ApiKeysLoaded(Err(e)) => t == (ApiKeyManager { loading: false, ..s })
            && acts == seq![Action::Send(Msg::ResponseError(e))],
        Msg::ShowCreateModal => t.new_key_name@ == Seq::<char>::empty()
            && (t.new_key_expiry matches Some(at) && year_secs() <= at.secs <= max_timestamp() + year_secs()
                && at.nanos < 1_000_000_000)
            && t == (ApiKeyManager {
                show_create_modal: true,
                new_key_name: t.new_key_name,
                new_key_expiry: t.new_key_expiry,
                error: None,
                ..s
            })
            && acts == Seq::<Action>::empty(),
        Msg::HideCreateModal => t.new_key_name@ == Seq::<char>::empty()
            && t == (ApiKeyManager { show_create_modal: false, new_key_name: t.new_key_name, ..s })
            && acts == Seq::<Action>::empty(),
        Msg::UpdateKeyName(name) => t == (ApiKeyManager { new_key_name: name, ..s })
            && acts == Seq::<Action>::empty(),
        Msg::UpdateExpiry(value) => t == (ApiKeyManager {
                new_key_expiry: if value@.len() == 0 {
                    None
                } else {
                    match ymd_midnight_utc(value@) {
                        Some(at) => Some(Timestamp { secs: at, nanos: 0 }),
                        None => s.new_key_expiry,
                    }
                },
                ..s
            })
            && acts == Seq::<Action>::empty(),
        Msg::CreateKey => if s.new_key_name@.len() == 0 || s.loading {
                t == s && acts == Seq::<Action>::empty()
            } else {
                t == (ApiKeyManager { loading: true, ..s })
                    && acts == seq![Action::Query(ApiKeyRequest::Create(CreateApiKey {
                        name: s.new_key_name,
                        expires_at: s.new_key_expiry,
                    }))]
            },
        Msg::KeyCreated(Ok(token)) => t == (ApiKeyManager {
                new_key_token: token,
                show_create_modal: false,
                show_new_key_modal: true,
                loading: false,
                ..s
            })
            && acts == seq![Action::Send(Msg::FetchApiKeys)],
        Msg::KeyCreated(Err(e)) => t == (ApiKeyManager { loading: false, ..s })
            && acts == seq![Action::Send(Msg::ResponseError(e))],
        Msg::HideNewKeyModal => t.new_key_token@ == Seq::<char>::empty()
            && t == (ApiKeyManager { show_new_key_modal: false, new_key_token: t.new_key_token, ..s })
            && acts == Seq::<Action>::empty(),
        Msg::ConfirmDelete(key_id, confirm) => if s.delete_confirm_id == key_id {
                t == (ApiKeyManager { delete_confirm_id: 0, ..s })
                    && acts == (if confirm {
                        seq![Action::Send(Msg::DeleteKey(key_id))]
                    } else {
                        Seq::<Action>::empty()
                    })
            } else {
                t == (ApiKeyManager { delete_confirm_id: key_id, ..s })
                    && acts == Seq::<Action>::empty()
            },
        Msg::DeleteKey(key_id) => t == (ApiKeyManager { loading: true, ..s })
            && acts == seq![Action::Query(ApiKeyRequest::Delete(DeleteApiKey { key_id }))],
        Msg::KeyDeleted(Ok(deleted)) => t == (ApiKeyManager {
                loading: false,
                delete_confirm_id: 0,
                notification: if deleted { Some(Notice::KeyDeleted) } else { s.notification },
                ..s
            })
            && acts == seq![Action::Send(Msg::FetchApiKeys)],
        Msg::KeyDeleted(Err(e)) => t == (ApiKeyManager { loading: false, ..s })
            && acts == seq![Action::Send(Msg::ResponseError(e))],
        Msg::RotateKey(key_id) => t == (ApiKeyManager { loading: true, ..s })
            && acts == seq![Action::Query(ApiKeyRequest::Rotate(RotateApiKey { key_id }))],
        Msg::KeyRotated(Ok(token)) => t == (ApiKeyManager {
                new_key_token: token,
                show_new_key_modal: true,
                loading: false,
                ..s
            })
            && acts == seq![Action::Send(Msg::FetchApiKeys)],
        Msg::KeyRotated(Err(e)) => t == (ApiKeyManager { loading: false, ..s })
            && acts == seq![Action::Send(Msg::ResponseError(e))],
        Msg::ResponseError(e) => t == (ApiKeyManager { error: Some(e), loading: false, ..s })
            && acts == Seq::<Action>::empty(),
        Msg::ClearError => t == (ApiKeyManager { error: None, notification: None, ..s })
            && acts == Seq::<Action>::empty(),
    }
}

/// The keys in page order; see `active_first`.
pub fn order_active_first(keys: &Vec<ApiKeyData>) -> (r: Vec<ApiKeyData>)
    ensures
        r@ == active_first(keys@),
{
    let mut active: Vec<ApiKeyData> = Vec::new();
    let mut inactive: Vec<ApiKeyData> = Vec::new();
    let n = keys.len();
    let mut i: usize = 0;
    while i < n
        invariant
            n == keys@.len(),
            i <= n,
            active@ == keys@.subrange(0, i as int).filter(|k: ApiKeyData| k.is_active),
            inactive@ == keys@.subrange(0, i as int).filter(|k: ApiKeyData| !k.is_active),
        decreases n - i,
    {
        let k = keys[i].duplicate();
        proof {
            let pre = keys@.subrange(0, i as int);
            let post = keys@.subrange(0, i + 1);
            assert(post.drop_last() == pre);
            assert(post.last() == keys@[i as int]);
            reveal(Seq::filter);

        }
        if k.is_active {
            active.push(k);
        } else {
            inactive.push(k);
        }
        i = i + 1;
    }
    assert(keys@.subrange(0, n as int) == keys@);
    let mut r = active;
    let mut j: usize = 0;
    let m = inactive.len();
    let ghost first = r@;
    while j < m
        invariant
            m == inactive@.len(),
            j <= m,
            r@ == first + inactive@.subrange(0, j as int),
        decreases m - j,
    {
        let k = inactive[j].duplicate();
        r.push(k);
        proof {
            assert(inactive@.subrange(0, j + 1) == inactive@.subrange(0, j as int).push(inactive@[j as int]));
        }
        j = j + 1;
    }
    assert(inactive@.subrange(0, m as int) == inactive@);
    r
}

/// `a / b` rounded toward zero (for `b > 0`), as Rust's integer division.
pub open spec fn div_toward_zero(a: int, b: int) -> int {
    if a >= 0 {
        a / b
    } else {
        -((-a) / b)
    }
}

/// Whole days from `from` to `to`, as chrono's
/// `to.signed_duration_since(from).num_days()` counts them: the duration's
/// whole seconds, rounded toward zero, then whole days of them, rounded
/// toward zero.
pub open spec fn whole_days(to: Timestamp, from: Timestamp) -> int {
    div_toward_zero(div_toward_zero(nanos_of(to) - nanos_of(from), 1_000_000_000), 86400)
}

/// A row of the key table warns that an active key expires within a week.
pub open spec fn warns_expiry(key: ApiKeyData, now: Timestamp) -> bool {
    whole_days(key.expires_at, now) < 7 && key.is_active
}

/// Whether the row of `key` shows the "expires soon" tag at time `now`.
pub fn expires_soon(key: &ApiKeyData, now: Timestamp) -> (r: bool)
    ensures
        r == warns_expiry(*key, now),
{
    let d: i128 = (key.expires_at.secs as i128 - now.secs as i128) * 1_000_000_000
        + (key.expires_at.nanos as i128 - now.nanos as i128);
    let secs: i128 = if d >= 0 {
        d / 1_000_000_000
    } else {
        -((-d) / 1_000_000_000)
    };
    let days: i128 = if secs >= 0 {
        secs / 86400
    } else {
        -((-secs) / 86400)
    };
    days < 7 && key.is_active
}

/// What a row of the key table shows of a key at time `now`.
pub struct KeyRow {
    /// The status tag reads "active" (else "inactive", and the row is greyed).
    pub active: bool,
    /// The "expires soon" tag shows.
    pub expires_soon: bool,
    /// The rotate button shows (for an active key only).
    pub show_rotate: bool,
    /// The delete button waits for its confirming click.
    pub confirm_delete: bool,
    /// The row's buttons are disabled while a request is under way.
    pub buttons_disabled: bool,
}

/// Listing law: the page shows exactly the keys the server gave (as a
/// multiset), and no inactive key comes before an active one.
pub proof fn lemma_listing_keeps_keys_active_first(keys: Seq<ApiKeyData>)
    ensures
        active_first(keys).len() == keys.len(),
        active_first(keys).to_multiset() == keys.to_multiset(),
        forall|i: int, j: int|
            0 <= i < j < keys.len() && (#[trigger] active_first(keys)[j]).is_active
                ==> (#[trigger] active_first(keys)[i]).is_active,
    decreases keys.len(),
{
    broadcast use vstd::seq_lib::group_seq_properties;
    broadcast use vstd::multiset::group_multiset_axioms;
    let act = |k: ApiKeyData| k.is_active;
    let ina = |k: ApiKeyData| !k.is_active;
    let a = keys.filter(act);
    let b = keys.filter(ina);
    reveal(Seq::filter);
    if keys.len() == 0 {
        assert(active_first(keys) =~= keys);
    } else {
        let rest = keys.drop_last();
        let x = keys.last();
        lemma_listing_keeps_keys_active_first(rest);
        assert(keys =~= rest.push(x));
        let ra = rest.filter(act);
        let rb = rest.filter(ina);
        vstd::seq_lib::lemma_multiset_commutative(ra, rb);
        vstd::seq_lib::lemma_multiset_commutative(a, b);
        if x.is_active {
            assert(a == ra.push(x));
            assert(b == rb);
            assert(ra.push(x).to_multiset() =~= ra.to_multiset().insert(x));
        } else {
            assert(a == ra);
            assert(b == rb.push(x));
            assert(rb.push(x).to_multiset() =~= rb.to_multiset().insert(x));
        }
        assert(rest.push(x).to_multiset() =~= rest.to_multiset().insert(x));
        assert(active_first(keys).to_multiset() =~= keys.to_multiset());
        assert forall|i: int, j: int|
            0 <= i < j < keys.len() && (#[trigger] active_first(keys)[j]).is_active
                implies (#[trigger] active_first(keys)[i]).is_active by {
            if j < a.len() {
                assert(active_first(keys)[i] == a[i]);
                keys.lemma_filter_pred(act, i);
            } else {
                assert(active_first(keys)[j] == b[j - a.len()]);
                keys.lemma_filter_pred(ina, j - a.len());
            }
        }
    }
}

/// Deletion law: a delete request goes out only for a key that an earlier
/// click armed, and a second confirming click on an armed key sends it.
pub proof fn lemma_delete_takes_two_clicks(
    s: ApiKeyManager,
    key_id: i64,
    t: ApiKeyManager,
    a1: Seq<Action>,
    u: ApiKeyManager,
    a2: Seq<Action>,
)
    requires
        s.delete_confirm_id != key_id,
        next(s, Msg::ConfirmDelete(key_id, true), t, a1),
        next(t, Msg::ConfirmDelete(key_id, true), u, a2),
    ensures
        a1 == Seq::<Action>::empty(),
        t.delete_confirm_id == key_id,
        a2 == seq![Action::Send(Msg::DeleteKey(key_id))],
        u.delete_confirm_id == 0,
{
}

/// Creation law: a key is asked for only with a name and while no request
/// is under way, and then with the name and expiry of the form.
pub proof fn lemma_key_needs_name(s: ApiKeyManager, t: ApiKeyManager, acts: Seq<Action>)
    requires
        next(s, Msg::CreateKey, t, acts),
    ensures
        acts.len() > 0 <==> (s.new_key_name@.len() > 0 && !s.loading),
        acts.len() > 0 ==> acts[0] == Action::Query(ApiKeyRequest::Create(CreateApiKey {
            name: s.new_key_name,
            expires_at: s.new_key_expiry,
        })),
{
}

/// Token law: the secret of a new or rotated key is shown once: closing
/// its window forgets it.
pub proof fn lemma_new_key_token_forgotten(s: ApiKeyManager, t: ApiKeyManager, acts: Seq<Action>)
    requires
        next(s, Msg::HideNewKeyModal, t, acts),
    ensures
        t.new_key_token@.len() == 0,
        !t.show_new_key_modal,
{
}

/// Rotation law: clicking the rotate button of a key asks for exactly one
/// request, the rotation of that key, and nothing else (in particular no
/// deletion); the manager then waits for the answer.
pub proof fn lemma_rotate_rotates(s: ApiKeyManager, key_id: i64, t: ApiKeyManager, acts: Seq<Action>)
    requires
        next(s, Msg::RotateKey(key_id), t, acts),
    ensures
        acts.len() == 1,
        acts[0] matches Action::Query(ApiKeyRequest::Rotate(r)) && r.key_id == key_id,
        !(acts[0] matches Action::Query(ApiKeyRequest::Delete(_))),
        t.loading,
{
}

/// Request law: of all messages, only `RotateKey(k)` asks to rotate a key,
/// and then the key `k`; only `DeleteKey(k)` asks to delete one, and then
/// the key `k`.
pub proof fn lemma_requests_come_from_their_messages(s: ApiKeyManager, m: Msg, t: ApiKeyManager, acts: Seq<Action>, i: int)
    requires
        next(s, m, t, acts),
        0 <= i < acts.len(),
    ensures
        acts[i] matches Action::Query(ApiKeyRequest::Rotate(r)) ==> m == Msg::RotateKey(r.key_id),
        acts[i] matches Action::Query(ApiKeyRequest::Delete(d)) ==> m == Msg::DeleteKey(d.key_id),
{
}

/// Confirmation law: a deletion is asked for (`DeleteKey(k)` sent) only by a
/// confirming click on the key `k` that an earlier click armed; so a key is
/// deleted only after the two confirming clicks.
pub proof fn lemma_delete_only_after_confirmation(s: ApiKeyManager, m: Msg, t: ApiKeyManager, acts: Seq<Action>, i: int)
    requires
        next(s, m, t, acts),
        0 <= i < acts.len(),
    ensures
        acts[i] matches Action::Send(Msg::DeleteKey(k)) ==> m == Msg::ConfirmDelete(k, true) && s.delete_confirm_id == k,
{
}

/// The plaintext of a new or rotated key is held only while its window is
/// shown.
pub open spec fn token_only_while_shown(s: ApiKeyManager) -> bool {
    s.new_key_token@.len() > 0 ==> s.show_new_key_modal
}

/// Token law: every transition keeps `token_only_while_shown`, which holds
/// of the manager as the page first shows it (see `new_at` and `new`).
pub proof fn lemma_token_only_while_shown(s: ApiKeyManager, m: Msg, t: ApiKeyManager, acts: Seq<Action>)
    requires
        token_only_while_shown(s),
        next(s, m, t, acts),
    ensures
        token_only_while_shown(t),
{
}

impl ApiKeyManager {
    /// The manager as the page first shows it, with `now` the clock reading:
    /// no keys, both windows closed, an expiry one year ahead.
    pub fn new_at(now: Timestamp) -> (s: Self)
        requires
            0 <= now.secs <= max_timestamp(),
        ensures
            s.api_keys@ == Seq::<ApiKeyData>::empty(),
            !s.show_create_modal,
            !s.show_new_key_modal,
            s.new_key_name@ == Seq::<char>::empty(),
            s.new_key_expiry == Some(Timestamp { secs: (now.secs + year_secs()) as i64, nanos: now.nanos }),
            token_only_while_shown(s),
            s.new_key_token@ == Seq::<char>::empty(),
            s.delete_confirm_id == 0,
            !s.loading,
            s.error.is_none(),
            s.notification.is_none(),
    {
        ApiKeyManager {
            api_keys: Vec::new(),
            show_create_modal: false,
            show_new_key_modal: false,
            new_key_name: String::new(),
            new_key_expiry: Some(Timestamp { secs: now.secs + 365 * 86400, nanos: now.nanos }),
            new_key_token: String::new(),
            delete_confirm_id: 0,
            loading: false,
            error: None,
            notification: None,
        }
    }

    /// The manager as the page first shows it, reading the clock.
    pub fn new() -> (s: Self)
        ensures
            s.api_keys@ == Seq::<ApiKeyData>::empty(),
            !s.show_create_modal,
            !s.show_new_key_modal,
            s.new_key_name@ == Seq::<char>::empty(),
            s.new_key_expiry matches Some(at) && year_secs() <= at.secs <= max_timestamp() + year_secs()
                && at.nanos < 1_000_000_000,
            token_only_while_shown(s),
            s.new_key_token@ == Seq::<char>::empty(),
            s.delete_confirm_id == 0,
            !s.loading,
            s.error.is_none(),
            s.notification.is_none(),
    {
        let now = current_timestamp();
        Self::new_at(now)
    }

    /// Opens the window that creates a key, with `now` the clock reading.
    pub fn open_create_modal(&mut self, now: Timestamp)
        requires
            0 <= now.secs <= max_timestamp(),
        ensures
            final(self).new_key_name@ == Seq::<char>::empty(),
            *final(self) == (ApiKeyManager {
                show_create_modal: true,
                new_key_name: final(self).new_key_name,
                new_key_expiry: Some(Timestamp { secs: (now.secs + year_secs()) as i64, nanos: now.nanos }),
                error: None,
                ..*old(self)
            }),
    {
        self.show_create_modal = true;
        self.new_key_name = String::new();
        self.new_key_expiry = Some(Timestamp { secs: now.secs + 365 * 86400, nanos: now.nanos });
        self.error = None;
    }

    /// What the row of `key` shows at time `now`.
    pub fn key_row(&self, key: &ApiKeyData, now: Timestamp) -> (r: KeyRow)
        ensures
            r.active == key.is_active,
            r.expires_soon == warns_expiry(*key, now),
            r.show_rotate == key.is_active,
            r.confirm_delete == (self.delete_confirm_id == key.id),
            r.buttons_disabled == self.loading,
    {
        KeyRow {
            active: key.is_active,
            expires_soon: expires_soon(key, now),
            show_rotate: key.is_active,
            confirm_delete: self.delete_confirm_id == key.id,
            buttons_disabled: self.loading,
        }
    }

    /// Whether the button that creates a key is disabled: without a name, or
    /// while a request is under way (then asking does nothing; see `next`).
    pub fn create_disabled(&self) -> (r: bool)
        ensures
            r == (self.new_key_name@.len() == 0 || self.loading),
    {
        self.new_key_name.as_str().unicode_len() == 0 || self.loading
    }

    /// Takes the expiry field: an empty field means no expiry, a date read
    /// from it (`parsed`, the unix seconds of its midnight in UTC) replaces
    /// the expiry, and a text that
    /// reads as no date leaves the expiry as it was.
    pub fn apply_expiry(&mut self, empty_input: bool, parsed: Option<i64>)
        ensures
            *final(self) == (ApiKeyManager {
                new_key_expiry: if empty_input {
                    None
                } else {
                    match parsed {
                        Some(at) => Some(Timestamp { secs: at, nanos: 0 }),
                        None => old(self).new_key_expiry,
                    }
                },
                ..*old(self)
            }),
    {
        if empty_input {
            self.new_key_expiry = None;
        } else {
            match parsed {
                Some(at) => {
                    self.new_key_expiry = Some(Timestamp { secs: at, nanos: 0 });
                },
                None => {},
            }
        }
    }

    /// Handles one message; see `next`.
    pub fn update(&mut self, msg: Msg) -> (acts: Vec<Action>)
        ensures
            next(*old(self), msg, *final(self), acts@),
    {
        let mut acts: Vec<Action> = Vec::new();
        match msg {
            Msg::FetchApiKeys => {
                self.loading = true;
                acts.push(Action::Query(ApiKeyRequest::List(GetApiKeys)));
            },
            Msg::ApiKeysLoaded(res) => {
                self.loading = false;
                match res {
                    Ok(keys) => {
                        self.api_keys = order_active_first(&keys);
                    },
                    Err(e) => {
                        acts.push(Action::Send(Msg::ResponseError(e)));
                    },
                }
            },
            Msg::ShowCreateModal => {
                let now = current_timestamp();
                self.open_create_modal(now);
            },
            Msg::HideCreateModal => {
                self.show_create_modal = false;
                self.new_key_name = String::new();
            },
            Msg::UpdateKeyName(name) => {
                self.new_key_name = name;
            },
            Msg::UpdateExpiry(value) => {
                if value.as_str().is_empty() {
                    self.apply_expiry(true, None);
                } else {
                    let parsed = parse_expiry_date(value.as_str());
                    self.apply_expiry(false, parsed);
                }
            },
            Msg::CreateKey => {
                if self.new_key_name.as_str().is_empty() || self.loading {
                    return acts;
                }
                self.loading = true;
                let name = self.new_key_name.clone();
                let expires_at = self.new_key_expiry;
                acts.push(Action::Query(ApiKeyRequest::Create(CreateApiKey { name, expires_at })));
            },
            Msg::KeyCreated(res) => {
                self.loading = false;
                match res {
                    Ok(token) => {
                        self.new_key_token = token;
                        self.show_create_modal = false;
                        self.show_new_key_modal = true;
                        acts.push(Action::Send(Msg::FetchApiKeys));
                    },
                    Err(e) => {
                        acts.push(Action::Send(Msg::ResponseError(e)));
                    },
                }
            },
            Msg::HideNewKeyModal => {
                self.show_new_key_modal = false;
                self.new_key_token = String::new();
            },
            Msg::ConfirmDelete(key_id, confirm) => {
                if self.delete_confirm_id == key_id {
                    if confirm {
                        acts.push(Action::Send(Msg::DeleteKey(key_id)));
                    }
                    self.delete_confirm_id = 0;
                } else {
                    self.delete_confirm_id = key_id;
                }
            },
            Msg::DeleteKey(key_id) => {
                self.loading = true;
                acts.push(Action::Query(ApiKeyRequest::Delete(DeleteApiKey { key_id })));
            },
            Msg::KeyDeleted(res) => {
                self.loading = false;
                match res {
                    Ok(deleted) => {
                        self.delete_confirm_id = 0;
                        if deleted {
                            self.notification = Some(Notice::KeyDeleted);
                        }
                        acts.push(Action::Send(Msg::FetchApiKeys));
                    },
                    Err(e) => {
                        acts.push(Action::Send(Msg::ResponseError(e)));
                    },
                }
            },
            Msg::RotateKey(key_id) => {
                self.loading = true;
                acts.push(Action::Query(ApiKeyRequest::Rotate(RotateApiKey { key_id })));
            },
            Msg::KeyRotated(res) => {
                self.loading = false;
                match res {
                    Ok(token) => {
                        self.new_key_token = token;
                        self.show_new_key_modal = true;
                        acts.push(Action::Send(Msg::FetchApiKeys));
                    },
                    Err(e) => {
                        acts.push(Action::Send(Msg::ResponseError(e)));
                    },
                }
            },
            Msg::ResponseError(e) => {
                self.error = Some(e);
                self.loading = false;
            },
            Msg::ClearError => {
                self.error = None;
                self.notification = None;
            },
        }
        acts
    }
}

} // verus!
