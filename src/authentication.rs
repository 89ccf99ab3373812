use crate::error::Error;
use std::path::PathBuf;
use vstd::prelude::*;
use vstd::string::*;

verus! {

#[verifier::external_type_specification]
#[verifier::external_body]
pub struct ExPathBuf(PathBuf);

/// Relies on `PathBuf::clone`, which copies the path; used by the derived
/// `Clone` of [`AuthenticationType`].
pub assume_specification[ <PathBuf as Clone>::clone ](p: &PathBuf) -> PathBuf;

/// The strategy used to authenticate a user on an SSH session.
#[derive(Clone, Debug, Eq, PartialEq)]
pub enum AuthenticationType {
    /// Keyboard-interactive prompting; no exchange is implemented for it.
    Interactive,
    /// Signing by the authentication agent running on this host.
    Agent,
    /// Public-key authentication with a private key stored at this path.
    KeyFile(PathBuf),
    /// Public-key authentication with this PEM-encoded private key.
    KeyMemory(String),
    /// Password authentication with this password.
    Password(String),
}

/// Where an attempt stands: what it waits to hear from the session.
#[derive(Clone, Copy, Debug, PartialEq, Eq, Structural)]
pub enum Phase {
    /// Whether the session was authenticated before any exchange.
    Before,
    /// The methods that the server accepts for the user.
    Methods,
    /// The outcome of the strategy's exchange.
    Exchange,
    /// Whether the session is authenticated after the exchange.
    After,
    /// Nothing: the attempt has finished.
    Done,
}

/// What the session reports back after performing an [`Action`].
#[derive(Debug, PartialEq, Eq)]
pub enum Event<E> {
    /// The session's authenticated state.
    Authenticated(bool),
    /// The comma-separated list of methods the server accepts, or the error
    /// that asking for it raised.
    Methods(Result<String, E>),
    /// The outcome of an exchange.
    Exchanged(Result<(), E>),
}

/// What the session must do next for an attempt.
#[derive(Debug, PartialEq, Eq)]
pub enum Action<'a, E> {
    /// Report whether the session is authenticated.
    CheckAuthenticated,
    /// Ask the server which methods it accepts for the user.
    ListMethods,
    /// Run a keyboard-interactive exchange (which has no implementation).
    Interactive,
    /// Authenticate through the host's agent.
    Agent,
    /// Authenticate with the private key stored at this path.
    PubkeyFile(&'a PathBuf),
    /// Authenticate with this in-memory private key.
    PubkeyMemory(&'a String),
    /// Authenticate with this password.
    Password(&'a String),
    /// The attempt is over, with this result.
    Finish(Result<(), Error<E>>),
}

/// One attempt to authenticate `username` with the strategy `kind`.
pub struct Attempt<'a> {
    pub kind: &'a AuthenticationType,
    pub username: &'a str,
    pub phase: Phase,
}

/// `[a, b)` is one of the comma-separated entries of `m`.
pub open spec fn is_entry(m: Seq<char>, a: int, b: int) -> bool {
    &&& 0 <= a <= b <= m.len()
    &&& a == 0 || m[a - 1] == ','
    &&& b == m.len() || m[b] == ','
    &&& forall|k: int| a <= k < b ==> m[k] != ','
}

/// `name` is one of the comma-separated entries of `methods`.
pub open spec fn lists_method(methods: Seq<char>, name: Seq<char>) -> bool {
    exists|a: int, b: int| is_entry(methods, a, b) && methods.subrange(a, b) == name
}

/// The message of the error for a user that could not be authenticated.
pub open spec fn failure_message(username: Seq<char>) -> Seq<char> {
    "Could not authenticate user: "@ + username + "."@
}

/// `action` finishes the attempt with the authentication error for `username`.
pub open spec fn is_failure<E>(action: Action<E>, username: Seq<char>) -> bool {
    match action {
        Action::Finish(Err(Error::AuthenticationError(m))) => m@ == failure_message(username),
        _ => false,
    }
}

impl<'a> Attempt<'a> {
    /// The phase of the attempt expects this kind of event.
    pub open spec fn accepts_spec<E>(&self, event: &Event<E>) -> bool {
        match self.phase {
            Phase::Before | Phase::After => event is Authenticated,
            Phase::Methods => event is Methods,
            Phase::Exchange => event is Exchanged,
            Phase::Done => false,
        }
    }

    /// The exchange that the attempt's strategy makes.
    pub open spec fn exchange_spec<E>(&self) -> Action<'a, E> {
        match *self.kind {
            AuthenticationType::Interactive => Action::Interactive,
            AuthenticationType::Agent => Action::Agent,
            AuthenticationType::KeyFile(p) => Action::PubkeyFile(&p),
            AuthenticationType::KeyMemory(k) => Action::PubkeyMemory(&k),
            AuthenticationType::Password(p) => Action::Password(&p),
        }
    }

    /// On `event`, the attempt moves to `next` and asks for `action`.
    pub open spec fn step_spec<E>(self, event: Event<E>, next: Attempt<'a>, action: Action<'a, E>) -> bool {
        &&& next.kind == self.kind
        &&& next.username == self.username
        &&& match (self.phase, event) {
            (Phase::Before, Event::Authenticated(true)) | (Phase::After, Event::Authenticated(true)) => {
                next.phase == Phase::Done && action == Action::<'a, E>::Finish(Ok(()))
            },
            (Phase::Before, Event::Authenticated(false)) => if self.kind is Password {
                next.phase == Phase::Methods && action == Action::<'a, E>::ListMethods
            } else {
                next.phase == Phase::Exchange && action == self.exchange_spec::<E>()
            },
            (Phase::Methods, Event::Methods(Ok(m))) => if lists_method(m@, "password"@) {
                next.phase == Phase::Exchange && action == self.exchange_spec::<E>()
            } else {
                next.phase == Phase::After && action == Action::<'a, E>::CheckAuthenticated
            },
            (Phase::Exchange, Event::Exchanged(Ok(()))) => {
                next.phase == Phase::After && action == Action::<'a, E>::CheckAuthenticated
            },
            (Phase::Methods, Event::Methods(Err(e))) | (Phase::Exchange, Event::Exchanged(Err(e))) => {
                next.phase == Phase::Done && action == Action::<'a, E>::Finish(Err(Error::Session(e)))
            },
            (Phase::After, Event::Authenticated(false)) => {
                next.phase == Phase::Done && is_failure(action, self.username@)
            },
            _ => false,
        }
    }

    /// Whether the attempt expects `event` now.
    pub fn accepts<E>(&self, event: &Event<E>) -> (r: bool)
        ensures
            r == self.accepts_spec(event),
    {
        match self.phase {
            Phase::Before | Phase::After => matches!(event, Event::Authenticated(_)),
            Phase::Methods => matches!(event, Event::Methods(_)),
            Phase::Exchange => matches!(event, Event::Exchanged(_)),
            Phase::Done => false,
        }
    }

    fn exchange<E>(&self) -> (r: Action<'a, E>)
        ensures
            r == self.exchange_spec::<E>(),
    {
        let kind: &'a AuthenticationType = self.kind;
        match kind {
            AuthenticationType::Interactive => Action::Interactive,
            AuthenticationType::Agent => Action::Agent,
            AuthenticationType::KeyFile(p) => Action::PubkeyFile(p),
            AuthenticationType::KeyMemory(k) => Action::PubkeyMemory(k),
            AuthenticationType::Password(p) => Action::Password(p),
        }
    }

    /// Takes in what the session reported and says what it must do next.
    pub fn step<E>(&mut self, event: Event<E>) -> (action: Action<'a, E>)
        requires
            old(self).accepts_spec(&event),
        ensures
            (*old(self)).step_spec(event, *final(self), action),
    {
        match event {
            Event::Authenticated(authenticated) => {
                if authenticated {
                    self.phase = Phase::Done;
                    Action::Finish(Ok(()))
                } else if self.phase == Phase::After {
                    self.phase = Phase::Done;
                    Action::Finish(Err(Error::AuthenticationError(failure_message_of(self.username))))
                } else if let AuthenticationType::Password(_) = self.kind {
                    self.phase = Phase::Methods;
                    Action::ListMethods
                } else {
                    self.phase = Phase::Exchange;
                    self.exchange()
                }
            },
            Event::Methods(Ok(methods)) => {
                if lists_method_of(methods.as_str(), "password") {
                    self.phase = Phase::Exchange;
                    self.exchange()
                } else {
                    self.phase = Phase::After;
                    Action::CheckAuthenticated
                }
            },
            Event::Exchanged(Ok(())) => {
                self.phase = Phase::After;
                Action::CheckAuthenticated
            },
            Event::Methods(Err(e)) | Event::Exchanged(Err(e)) => {
                self.phase = Phase::Done;
                Action::Finish(Err(Error::Session(e)))
            },
        }
    }
}

impl AuthenticationType {
    /// Starts an attempt to authenticate `username` with this strategy; the
    /// first thing the session must do is report whether it is already
    /// authenticated.
    pub fn attempt<'a, E>(&'a self, username: &'a str) -> (r: (Attempt<'a>, Action<'a, E>))
        ensures
            r.0.kind == self,
            r.0.username == username,
            r.0.phase == Phase::Before,
            r.1 == Action::<'a, E>::CheckAuthenticated,
    {
        (Attempt { kind: self, username, phase: Phase::Before }, Action::CheckAuthenticated)
    }
}

fn failure_message_of(username: &str) -> (r: String)
    ensures
        r@ == failure_message(username@),
{
    let mut message = String::from_str("Could not authenticate user: ");
    message.append(username);
    message.append(".");
    message
}

/// Whether `m[a..b]` and `name` hold the same characters.
fn same_chars(m: &str, a: usize, b: usize, name: &str) -> (r: bool)
    requires
        a <= b <= m@.len(),
    ensures
        r == (m@.subrange(a as int, b as int) == name@),
{
    let n = name.unicode_len();
    if b - a != n {
        return false;
    }
    let mut k: usize = 0;
    while k < n
        invariant
            n == name@.len(),
            b - a == n,
            a <= b <= m@.len(),
            k <= n,
            forall|j: int| 0 <= j < k ==> m@[a + j] == name@[j],
        decreases n - k,
    {
        if m.get_char(a + k) != name.get_char(k) {
            assert(m@.subrange(a as int, b as int)[k as int] != name@[k as int]);
            return false;
        }
        k += 1;
    }
    assert(m@.subrange(a as int, b as int) =~= name@);
    true
}

proof fn lemma_entry_end(m: Seq<char>, a: int, b: int, c: int)
    requires
        is_entry(m, a, b),
        is_entry(m, a, c),
    ensures
        b == c,
{
    if b < c {
        assert(m[b] != ',');
    } else if c < b {
        assert(m[c] != ',');
    }
}

/// Whether `name` is one of the comma-separated entries of `methods`.
pub fn lists_method_of(methods: &str, name: &str) -> (r: bool)
    ensures
        r == lists_method(methods@, name@),
{
    let n = methods.unicode_len();
    let mut start: usize = 0;
    let mut i: usize = 0;
    while i < n
        invariant
            n == methods@.len(),
            start <= i <= n,
            start == 0 || methods@[start - 1] == ',',
            forall|k: int| start <= k < i ==> methods@[k] != ',',
            forall|a: int, b: int|
                #![trigger is_entry(methods@, a, b)]
                is_entry(methods@, a, b) && a < start ==> methods@.subrange(a, b) != name@,
        decreases n - i,
    {
        if methods.get_char(i) == ',' {
            let found = same_chars(methods, start, i, name);
            assert(is_entry(methods@, start as int, i as int));
            if found {
                return true;
            }
            assert forall|a: int, b: int|
                #![trigger is_entry(methods@, a, b)]
                is_entry(methods@, a, b) && a < i + 1 implies methods@.subrange(a, b) != name@ by {
                if a == start {
                    lemma_entry_end(methods@, a, b, i as int);
                } else if a > start {
                    assert(methods@[a - 1] != ',');
                }
            }
            start = i + 1;
        }
        i += 1;
    }
    let found = same_chars(methods, start, n, name);
    assert(is_entry(methods@, start as int, n as int));
    assert forall|a: int, b: int|
        #![trigger is_entry(methods@, a, b)]
        is_entry(methods@, a, b) && !found implies methods@.subrange(a, b) != name@ by {
        if a == start {
            lemma_entry_end(methods@, a, b, n as int);
        } else if a > start {
            assert(methods@[a - 1] != ',');
        }
    }
    found
}

/// A session that is already authenticated ends the attempt at once with
/// success, whatever the strategy: no exchange is asked for, and the attempt
/// expects nothing more.
pub proof fn lemma_already_authenticated<'a, E>(a: Attempt<'a>, next: Attempt<'a>, action: Action<'a, E>)
    requires
        a.phase == Phase::Before,
        a.step_spec(Event::Authenticated(true), next, action),
    ensures
        action == Action::<'a, E>::Finish(Ok(())),
        forall|event: Event<E>| !next.accepts_spec(&event),
{
}

/// With the password strategy, when the server does not list `password` among
/// the methods it accepts, no password is sent: the attempt goes on to check
/// the session, and that check alone decides the result.
pub proof fn lemma_password_not_offered<'a, E>(
    a0: Attempt<'a>,
    a1: Attempt<'a>,
    act0: Action<'a, E>,
    methods: String,
    a2: Attempt<'a>,
    act1: Action<'a, E>,
    authenticated: bool,
    a3: Attempt<'a>,
    act2: Action<'a, E>,
)
    requires
        a0.kind is Password,
        a0.phase == Phase::Before,
        !lists_method(methods@, "password"@),
        a0.step_spec(Event::Authenticated(false), a1, act0),
        a1.step_spec(Event::Methods(Ok(methods)), a2, act1),
        a2.step_spec(Event::Authenticated(authenticated), a3, act2),
    ensures
        act0 == Action::<'a, E>::ListMethods,
        act1 == Action::<'a, E>::CheckAuthenticated,
        a3.phase == Phase::Done,
        authenticated ==> act2 == Action::<'a, E>::Finish(Ok(())),
        !authenticated ==> is_failure(act2, a0.username@),
{
}

/// With the agent or a private key, an exchange that succeeds is followed by a
/// check of the session: success if it is authenticated, else the
/// authentication error naming the user.
pub proof fn lemma_key_exchange_outcome<'a, E>(
    a0: Attempt<'a>,
    a1: Attempt<'a>,
    act0: Action<'a, E>,
    a2: Attempt<'a>,
    act1: Action<'a, E>,
    authenticated: bool,
    a3: Attempt<'a>,
    act2: Action<'a, E>,
)
    requires
        a0.kind is Agent || a0.kind is KeyFile || a0.kind is KeyMemory,
        a0.phase == Phase::Before,
        a0.step_spec(Event::Authenticated(false), a1, act0),
        a1.step_spec(Event::Exchanged(Ok(())), a2, act1),
        a2.step_spec(Event::Authenticated(authenticated), a3, act2),
    ensures
        act0 == a0.exchange_spec::<E>(),
        act1 == Action::<'a, E>::CheckAuthenticated,
        a3.phase == Phase::Done,
        authenticated ==> act2 == Action::<'a, E>::Finish(Ok(())),
        !authenticated ==> is_failure(act2, a0.username@),
{
}

/// An error that the session raises while listing methods or exchanging ends
/// the attempt with that very error, not with the authentication error.
pub proof fn lemma_session_error_unchanged<'a, E>(
    a: Attempt<'a>,
    event: Event<E>,
    e: E,
    next: Attempt<'a>,
    action: Action<'a, E>,
)
    requires
        event == Event::<E>::Methods(Err(e)) || event == Event::<E>::Exchanged(Err(e)),
        a.accepts_spec(&event),
        a.step_spec(event, next, action),
    ensures
        next.phase == Phase::Done,
        action == Action::<'a, E>::Finish(Err(Error::Session(e))),
{
}

/// On a session that is not yet authenticated, the interactive strategy asks
/// for the keyboard-interactive exchange, which has no implementation.
pub proof fn lemma_interactive_unimplemented<'a, E>(a0: Attempt<'a>, a1: Attempt<'a>, act0: Action<'a, E>)
    requires
        a0.kind is Interactive,
        a0.phase == Phase::Before,
        a0.step_spec(Event::Authenticated(false), a1, act0),
    ensures
        act0 == Action::<'a, E>::Interactive,
        a1.phase == Phase::Exchange,
{
}

} // verus!
