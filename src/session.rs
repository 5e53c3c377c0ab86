use vstd::prelude::*;
use vstd::string::*;

verus! {

/// A session token: the value sent with each privileged command, the key
/// material derived during the handshake, and the instant (milliseconds since
/// the Unix epoch) at which it stops being valid.
#[derive(Debug)]
pub struct Token {
    pub value: String,
    pub secret: String,
    pub expires_at: i64,
}

impl Token {
    /// The token can still be used at instant `now`.
    pub open spec fn valid_at(&self, now: i64) -> bool {
        self.expires_at > now
    }

    /// A copy of the token.
    pub fn duplicate(&self) -> (r: Token)
        ensures
            r == *self,
    {
        Token { value: self.value.clone(), secret: self.secret.clone(), expires_at: self.expires_at }
    }
}

/// Relies on `chrono::Utc::now` and `DateTime::timestamp_millis`: the current
/// instant in milliseconds since the Unix epoch. Nothing is promised of it.
#[verifier::external_body]
pub(crate) fn now_millis() -> (r: i64) {
    chrono::Utc::now().timestamp_millis()
}

/// The process-wide store of session tokens, keyed by host, shared by every
/// handle that talks to the same host.
pub struct TokenStore {
    entries: Vec<(String, Token)>,
    tokens: Ghost<Map<Seq<char>, Token>>,
}

/// `entries` names each host at most once, and holds exactly the tokens of `m`.
spec fn entries_match(entries: Seq<(String, Token)>, m: Map<Seq<char>, Token>) -> bool {
    &&& forall|i: int, j: int|
        0 <= i < j < entries.len() ==> #[trigger] entries[i].0@ != #[trigger] entries[j].0@
    &&& forall|i: int|
        0 <= i < entries.len() ==> m.contains_key(#[trigger] entries[i].0@) && m[entries[i].0@]
            == entries[i].1
    &&& forall|h: Seq<char>|
        #[trigger] m.contains_key(h) ==> exists|i: int| 0 <= i < entries.len() && #[trigger] entries[i].0@ == h
}

impl View for TokenStore {
    type V = Map<Seq<char>, Token>;

    closed spec fn view(&self) -> Map<Seq<char>, Token> {
        self.tokens@
    }
}

impl TokenStore {
    /// Each host has at most one entry, and the entries are exactly the map.
    #[verifier::type_invariant]
    spec fn wf(&self) -> bool {
        entries_match(self.entries@, self.tokens@)
    }

    /// An empty store.
    pub fn new() -> (r: Self)
        ensures
            r@ == Map::<Seq<char>, Token>::empty(),
    {
        TokenStore { entries: Vec::new(), tokens: Ghost(Map::empty()) }
    }

    fn position(&self, host: &String) -> (r: Option<usize>)
        ensures
            match r {
                Some(i) => i < self.entries@.len() && self.entries@[i as int].0@ == host@,
                None => !self@.contains_key(host@),
            },
    {
        proof {
            use_type_invariant(self);
        }
        let mut i: usize = 0;
        while i < self.entries.len()
            invariant
                self.wf(),
                i <= self.entries@.len(),
                forall|k: int| 0 <= k < i ==> self.entries@[k].0@ != host@,
            decreases self.entries@.len() - i,
        {
            if self.entries[i].0 == *host {
                return Some(i);
            }
            i = i + 1;
        }
        None
    }

    /// The token stored for `host`, unless it has expired at `now`. An
    /// expired token is never handed out.
    pub fn lookup(&self, host: &str, now: i64) -> (r: Option<Token>)
        ensures
            match r {
                Some(t) => self@.contains_key(host@) && t == self@[host@] && t.valid_at(now),
                None => !self@.contains_key(host@) || !self@[host@].valid_at(now),
            },
    {
        proof {
            use_type_invariant(self);
        }
        match self.position(&String::from_str(host)) {
            None => None,
            Some(i) => {
                let t = &self.entries[i].1;
                if t.expires_at > now {
                    Some(t.duplicate())
                } else {
                    None
                }
            },
        }
    }

    fn copied_entries(&self) -> (r: Vec<(String, Token)>)
        ensures
            r@ == self.entries@,
    {
        let mut r: Vec<(String, Token)> = Vec::new();
        let mut j: usize = 0;
        while j < self.entries.len()
            invariant
                j <= self.entries@.len(),
                r@ == self.entries@.subrange(0, j as int),
            decreases self.entries@.len() - j,
        {
            let e = &self.entries[j];
            r.push((e.0.clone(), e.1.duplicate()));
            j = j + 1;
        }
        assert(self.entries@.subrange(0, self.entries@.len() as int) =~= self.entries@);
        r
    }

    /// Stores `token` for `host`, replacing what was there.
    pub fn put(&mut self, host: &str, token: Token)
        ensures
            final(self)@ == old(self)@.insert(host@, token),
    {
        proof {
            use_type_invariant(&*self);
        }
        let key = String::from_str(host);
        let ghost m = self.tokens@.insert(host@, token);
        let ghost old_entries = self.entries@;
        let mut entries = self.copied_entries();
        match self.position(&key) {
            Some(i) => {
                entries.set(i, (key, token));
                assert forall|j: int| 0 <= j < entries@.len() && j != i implies old_entries[j].0@ != host@ by {
                    if j < i {
                        assert(old_entries[j].0@ != old_entries[i as int].0@);
                    } else {
                        assert(old_entries[i as int].0@ != old_entries[j].0@);
                    }
                }
                assert forall|a: int, b: int| 0 <= a < b < entries@.len() implies #[trigger] entries@[a].0@
                    != #[trigger] entries@[b].0@ by {
                    if a != i && b != i {
                        assert(old_entries[a].0@ != old_entries[b].0@);
                    }
                }
                assert forall|j: int| 0 <= j < entries@.len() implies m.contains_key(#[trigger] entries@[j].0@)
                    && m[entries@[j].0@] == entries@[j].1 by {
                    if j != i {
                        assert(self.tokens@.contains_key(old_entries[j].0@));
                    }
                }
                assert forall|h: Seq<char>| #[trigger] m.contains_key(h) implies exists|j: int|
                    0 <= j < entries@.len() && #[trigger] entries@[j].0@ == h by {
                    if h != host@ {
                        let j = choose|j: int| 0 <= j < old_entries.len() && #[trigger] old_entries[j].0@ == h;
                        assert(entries@[j].0@ == h);
                    } else {
                        assert(entries@[i as int].0@ == h);
                    }
                }
            },
            None => {
                entries.push((key, token));
                assert forall|j: int| 0 <= j < old_entries.len() implies old_entries[j].0@ != host@ by {
                    assert(self.tokens@.contains_key(old_entries[j].0@));
                }
                assert forall|a: int, b: int| 0 <= a < b < entries@.len() implies #[trigger] entries@[a].0@
                    != #[trigger] entries@[b].0@ by {
                    if b < old_entries.len() {
                        assert(old_entries[a].0@ != old_entries[b].0@);
                    } else {
                        assert(old_entries[a].0@ != host@);
                    }
                }
                assert forall|j: int| 0 <= j < entries@.len() implies m.contains_key(#[trigger] entries@[j].0@)
                    && m[entries@[j].0@] == entries@[j].1 by {
                    if j < old_entries.len() {
                        assert(self.tokens@.contains_key(old_entries[j].0@));
                        assert(old_entries[j].0@ != host@);
                    }
                }
                assert forall|h: Seq<char>| #[trigger] m.contains_key(h) implies exists|j: int|
                    0 <= j < entries@.len() && #[trigger] entries@[j].0@ == h by {
                    if h != host@ {
                        let j = choose|j: int| 0 <= j < old_entries.len() && #[trigger] old_entries[j].0@ == h;
                        assert(entries@[j].0@ == h);
                    } else {
                        assert(entries@[old_entries.len() as int].0@ == h);
                    }
                }
            },
        }
        assert(entries_match(entries@, m));
        *self = TokenStore { entries, tokens: Ghost(m) };
    }
}

/// What must happen before a privileged (encrypted) command is sent.
#[derive(Debug)]
pub enum CallPlan {
    /// Send with this token; no handshake.
    Send(Token),
    /// The token has expired: run the handshake first, then send.
    Handshake,
    /// No usable credentials.
    Unauthorized,
}

/// What authenticating a session requires.
#[derive(Debug, PartialEq, Eq, Structural)]
pub enum AuthPlan {
    /// An unexpired token from the store was adopted; no handshake.
    Adopted,
    /// A handshake must be run.
    Handshake,
    /// No password is known.
    Unauthorized,
}

/// The plan for a privileged command at instant `now`, for a session that
/// holds `token` and knows a password when `has_password`.
pub open spec fn plan_for(token: Option<Token>, has_password: bool, now: i64) -> CallPlan {
    match token {
        None => CallPlan::Unauthorized,
        Some(t) => if t.valid_at(now) {
            CallPlan::Send(t)
        } else if has_password {
            CallPlan::Handshake
        } else {
            CallPlan::Unauthorized
        },
    }
}

/// Number of handshake round trips made before a privileged command.
pub open spec fn handshakes_before_call(token: Option<Token>, has_password: bool, now: i64) -> nat {
    if plan_for(token, has_password, now) is Handshake {
        1
    } else {
        0
    }
}

/// The session state of one handle talking to a vendor's encrypted protocol.
pub struct Session {
    pub host: String,
    pub password: Option<String>,
    pub token: Option<Token>,
}

impl Session {
    pub open spec fn spec_password(&self) -> Option<Seq<char>> {
        match self.password {
            Some(p) => Some(p@),
            None => None,
        }
    }

    pub open spec fn spec_token(&self) -> Option<Token> {
        self.token
    }

    /// A session without credentials.
    pub fn new(host: &str) -> (r: Session)
        ensures
            r.host@ == host@,
            r.spec_password() is None,
            r.spec_token() is None,
    {
        Session { host: String::from_str(host), password: None, token: None }
    }

    /// Records the account password used by handshakes.
    pub fn set_password(&mut self, password: &str)
        ensures
            final(self).host == old(self).host,
            final(self).spec_token() == old(self).spec_token(),
            final(self).spec_password() == Some(password@),
    {
        self.password = Some(String::from_str(password));
    }

    /// The account password, if known.
    pub fn password(&self) -> (r: Option<String>)
        ensures
            match r {
                Some(p) => self.spec_password() == Some(p@),
                None => self.spec_password() is None,
            },
    {
        match &self.password {
            Some(p) => Some(p.clone()),
            None => None,
        }
    }

    /// The token held by the session, if any.
    pub fn token(&self) -> (r: Option<Token>)
        ensures
            r == self.spec_token(),
    {
        match &self.token {
            Some(t) => Some(t.duplicate()),
            None => None,
        }
    }

    /// Decides, at instant `now`, how a privileged command proceeds: an
    /// unexpired token is reused as it is, an expired one is refreshed by one
    /// handshake when the password is known.
    pub fn plan_call(&self, now: i64) -> (r: CallPlan)
        ensures
            r == plan_for(self.spec_token(), self.spec_password() is Some, now),
    {
        match &self.token {
            None => CallPlan::Unauthorized,
            Some(t) => if t.expires_at > now {
                CallPlan::Send(t.duplicate())
            } else if self.password.is_some() {
                CallPlan::Handshake
            } else {
                CallPlan::Unauthorized
            },
        }
    }

    /// `plan_call` at the current instant, which is returned beside the plan.
    pub fn plan_call_now(&self) -> (r: (CallPlan, i64))
        ensures
            r.0 == plan_for(self.spec_token(), self.spec_password() is Some, r.1),
    {
        let now = now_millis();
        (self.plan_call(now), now)
    }

    /// Starts authentication at instant `now`: a session without a token
    /// adopts an unexpired token that the store holds for its host; otherwise
    /// a handshake is needed, which takes the password.
    pub fn begin_auth(&mut self, store: &TokenStore, now: i64) -> (r: AuthPlan)
        ensures
            final(self).host == old(self).host,
            final(self).spec_password() == old(self).spec_password(),
            ({
                let adopt = old(self).spec_token() is None && store@.contains_key(old(self).host@)
                    && store@[old(self).host@].valid_at(now);
                if adopt {
                    r == AuthPlan::Adopted && final(self).spec_token() == Some(
                        store@[old(self).host@],
                    )
                } else {
                    final(self).spec_token() == old(self).spec_token() && r == (if old(
                        self,
                    ).spec_password() is Some {
                        AuthPlan::Handshake
                    } else {
                        AuthPlan::Unauthorized
                    })
                }
            }),
    {
        if self.token.is_none() {
            match store.lookup(self.host.as_str(), now) {
                Some(t) => {
                    self.token = Some(t);
                    return AuthPlan::Adopted;
                },
                None => {},
            }
        }
        if self.password.is_some() {
            AuthPlan::Handshake
        } else {
            AuthPlan::Unauthorized
        }
    }

    /// `begin_auth` at the current instant, which is returned beside the plan.
    pub fn begin_auth_now(&mut self, store: &TokenStore) -> (r: (AuthPlan, i64))
        ensures
            final(self).host == old(self).host,
            final(self).spec_password() == old(self).spec_password(),
            ({
                let now = r.1;
                let adopt = old(self).spec_token() is None && store@.contains_key(old(self).host@)
                    && store@[old(self).host@].valid_at(now);
                if adopt {
                    r.0 == AuthPlan::Adopted && final(self).spec_token() == Some(
                        store@[old(self).host@],
                    )
                } else {
                    final(self).spec_token() == old(self).spec_token() && r.0 == (if old(
                        self,
                    ).spec_password() is Some {
                        AuthPlan::Handshake
                    } else {
                        AuthPlan::Unauthorized
                    })
                }
            }),
    {
        let now = now_millis();
        (self.begin_auth(store, now), now)
    }

    /// Takes the token that a handshake produced: the session holds it and
    /// the store records it for the session's host.
    pub fn accept_token(&mut self, token: Token, store: &mut TokenStore)
        ensures
            final(self).host == old(self).host,
            final(self).spec_password() == old(self).spec_password(),
            final(self).spec_token() == Some(token),
            final(store)@ == old(store)@.insert(old(self).host@, token),
    {
        let copy = token.duplicate();
        store.put(self.host.as_str(), copy);
        self.token = Some(token);
    }
}

/// Token reuse and refresh: a token still valid at the time of a privileged
/// command is reused with no handshake; an expired one costs exactly one
/// handshake, after which the session sends with the refreshed token and
/// no further handshake (the store's copy is `accept_token`'s part).
pub proof fn lemma_token_reuse_and_refresh(
    held: Token,
    fresh: Token,
    now: i64,
    has_password: bool,
)
    ensures
        held.valid_at(now) ==> handshakes_before_call(Some(held), has_password, now) == 0
            && plan_for(Some(held), has_password, now) == CallPlan::Send(held),
        !held.valid_at(now) && has_password ==> handshakes_before_call(
            Some(held),
            has_password,
            now,
        ) == 1,
        fresh.valid_at(now) ==> plan_for(Some(fresh), has_password, now) == CallPlan::Send(fresh)
            && handshakes_before_call(Some(fresh), has_password, now) == 0,
{
}

} // verus!
