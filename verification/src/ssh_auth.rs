//! The order in which an SSH session tries to authenticate: the account's key
//! file (when it has one), then the SSH agent, then the account's password
//! (when it has one). The first success ends the search; when every method
//! has failed the session is refused.

use vstd::prelude::*;
use crate::text::{concat4, owned};

verus! {

/// A way to authenticate.
pub enum AuthMethod {
    PublicKey { key_path: String },
    Agent,
    Password { password: String },
}

/// What to do next.
pub enum AuthStep {
    /// Try this method and report whether the session is now authenticated.
    Attempt { method: AuthMethod },
    /// The session is authenticated.
    Authenticated,
    /// Every method failed; `message` says so.
    Refused { message: String },
}

/// How far the search has come.
pub enum AuthStage {
    KeyTried,
    AgentTried,
    PasswordTried,
    Over,
}

/// The search for a way to log in as `user` on `host`.
pub struct AuthPlan {
    host: String,
    user: String,
    key_path: Option<String>,
    password: Option<String>,
    stage: AuthStage,
}

/// The kinds of step, without their data.
pub enum StepKind {
    TryKey,
    TryAgent,
    TryPassword,
    Done,
    Refuse,
}

/// The kind of a step.
pub open spec fn kind(s: AuthStep) -> StepKind {
    match s {
        AuthStep::Attempt { method: AuthMethod::PublicKey { .. } } => StepKind::TryKey,
        AuthStep::Attempt { method: AuthMethod::Agent } => StepKind::TryAgent,
        AuthStep::Attempt { method: AuthMethod::Password { .. } } => StepKind::TryPassword,
        AuthStep::Authenticated => StepKind::Done,
        AuthStep::Refused { .. } => StepKind::Refuse,
    }
}

/// The first step: the key file when there is one, the agent otherwise.
pub open spec fn first_move(has_key: bool) -> (AuthStage, StepKind) {
    if has_key {
        (AuthStage::KeyTried, StepKind::TryKey)
    } else {
        (AuthStage::AgentTried, StepKind::TryAgent)
    }
}

/// The step after an attempt at `stage` that did (`succeeded`) or did not
/// authenticate the session.
pub open spec fn next_move(stage: AuthStage, has_password: bool, succeeded: bool) -> (AuthStage, StepKind) {
    if succeeded {
        (AuthStage::Over, StepKind::Done)
    } else {
        match stage {
            AuthStage::KeyTried => (AuthStage::AgentTried, StepKind::TryAgent),
            AuthStage::AgentTried => if has_password {
                (AuthStage::PasswordTried, StepKind::TryPassword)
            } else {
                (AuthStage::Over, StepKind::Refuse)
            },
            _ => (AuthStage::Over, StepKind::Refuse),
        }
    }
}

/// The message of a refused session.
pub open spec fn refusal_message(user: Seq<char>, host: Seq<char>) -> Seq<char> {
    "Authentication failed for "@ + user + "@"@ + host
}

impl AuthPlan {
    pub closed spec fn stage(&self) -> AuthStage {
        self.stage
    }

    pub closed spec fn has_key(&self) -> bool {
        self.key_path is Some
    }

    pub closed spec fn has_password(&self) -> bool {
        self.password is Some
    }

    pub closed spec fn key_text(&self) -> Seq<char> {
        self.key_path->0@
    }

    pub closed spec fn password_text(&self) -> Seq<char> {
        self.password->0@
    }

    pub closed spec fn user(&self) -> Seq<char> {
        self.user@
    }

    pub closed spec fn host(&self) -> Seq<char> {
        self.host@
    }

    /// Whether the search waits for the result of an attempt.
    pub open spec fn awaiting(&self) -> bool {
        !(self.stage() is Over)
    }

    /// The step data fit the plan: the key file and password are the plan's,
    /// and a refusal names the user and host.
    pub open spec fn step_data(&self, s: AuthStep) -> bool {
        &&& s matches AuthStep::Attempt { method: AuthMethod::PublicKey { key_path } } ==> key_path@
            == self.key_text()
        &&& s matches AuthStep::Attempt { method: AuthMethod::Password { password } } ==> password@
            == self.password_text()
        &&& s matches AuthStep::Refused { message } ==> message@ == refusal_message(
            self.user(),
            self.host(),
        )
    }

    /// Starts the search for a login as `user` on `host`, with an optional key
    /// file and password.
    pub fn start(host: String, user: String, key_path: Option<String>, password: Option<String>) -> (r: (AuthPlan, AuthStep))
        ensures
            r.0.host() == host@,
            r.0.user() == user@,
            r.0.has_key() == key_path is Some,
            r.0.has_password() == password is Some,
            key_path matches Some(k) ==> r.0.key_text() == k@,
            password matches Some(p) ==> r.0.password_text() == p@,
            (r.0.stage(), kind(r.1)) == first_move(key_path is Some),
            r.0.step_data(r.1),
    {
        let step = match &key_path {
            Some(k) => AuthStep::Attempt { method: AuthMethod::PublicKey { key_path: owned(k.as_str()) } },
            None => AuthStep::Attempt { method: AuthMethod::Agent },
        };
        let stage = if key_path.is_some() {
            AuthStage::KeyTried
        } else {
            AuthStage::AgentTried
        };
        (AuthPlan { host, user, key_path, password, stage }, step)
    }

    /// Whether the search waits for the result of an attempt.
    pub fn is_awaiting(&self) -> (b: bool)
        ensures
            b == self.awaiting(),
    {
        match self.stage {
            AuthStage::Over => false,
            _ => true,
        }
    }

    /// The next step, given whether the last attempt authenticated the session.
    pub fn step(self, succeeded: bool) -> (r: (AuthPlan, AuthStep))
        requires
            self.awaiting(),
        ensures
            (r.0.stage(), kind(r.1)) == next_move(self.stage(), self.has_password(), succeeded),
            r.0.host() == self.host() && r.0.user() == self.user(),
            r.0.has_key() == self.has_key() && r.0.has_password() == self.has_password(),
            r.0.key_text() == self.key_text() && r.0.password_text() == self.password_text(),
            r.0.step_data(r.1),
    {
        let AuthPlan { host, user, key_path, password, stage } = self;
        if succeeded {
            return (AuthPlan { host, user, key_path, password, stage: AuthStage::Over }, AuthStep::Authenticated);
        }
        match stage {
            AuthStage::KeyTried => (
                AuthPlan { host, user, key_path, password, stage: AuthStage::AgentTried },
                AuthStep::Attempt { method: AuthMethod::Agent },
            ),
            AuthStage::AgentTried => {
                match &password {
                    Some(p) => {
                        let method = AuthMethod::Password { password: owned(p.as_str()) };
                        (
                            AuthPlan { host, user, key_path, password, stage: AuthStage::PasswordTried },
                            AuthStep::Attempt { method },
                        )
                    },
                    None => {
                        let message = concat4("Authentication failed for ", user.as_str(), "@", host.as_str());
                        (
                            AuthPlan { host, user, key_path, password, stage: AuthStage::Over },
                            AuthStep::Refused { message },
                        )
                    },
                }
            },
            _ => {
                let message = concat4("Authentication failed for ", user.as_str(), "@", host.as_str());
                (AuthPlan { host, user, key_path, password, stage: AuthStage::Over }, AuthStep::Refused { message })
            },
        }
    }
}

// ---------------------------------------------------------------------------
// Laws
// ---------------------------------------------------------------------------

/// The attempts made, from `stage` on, when every attempt fails, up to the
/// refusal.
pub open spec fn failing_attempts(stage: AuthStage, has_password: bool) -> Seq<StepKind>
    decreases (match stage {
        AuthStage::KeyTried => 3int,
        AuthStage::AgentTried => 2int,
        AuthStage::PasswordTried => 1int,
        AuthStage::Over => 0int,
    }),
{
    match stage {
        AuthStage::Over => Seq::empty(),
        _ => {
            let next = next_move(stage, has_password, false);
            if next.1 is Refuse {
                Seq::empty()
            } else {
                seq![next.1] + failing_attempts(next.0, has_password)
            }
        },
    }
}

/// The order of the fallback: when nothing succeeds, the session tries the
/// key file (if any), then the agent, then the password (if any), each once,
/// and then is refused.
pub proof fn law_fallback_order(has_key: bool, has_password: bool)
    ensures
        seq![first_move(has_key).1] + failing_attempts(first_move(has_key).0, has_password) == (if has_key {
            seq![StepKind::TryKey]
        } else {
            Seq::<StepKind>::empty()
        }) + seq![StepKind::TryAgent] + (if has_password {
            seq![StepKind::TryPassword]
        } else {
            Seq::<StepKind>::empty()
        }),
        next_move(AuthStage::AgentTried, false, false).1 is Refuse,
        next_move(AuthStage::PasswordTried, has_password, false).1 is Refuse,
{
    reveal_with_fuel(failing_attempts, 4);
    assert(failing_attempts(AuthStage::Over, has_password) =~= Seq::<StepKind>::empty());
    if has_password {
        assert(failing_attempts(AuthStage::PasswordTried, true) =~= Seq::<StepKind>::empty());
        assert(failing_attempts(AuthStage::AgentTried, true) =~= seq![StepKind::TryPassword]);
    } else {
        assert(failing_attempts(AuthStage::AgentTried, false) =~= Seq::<StepKind>::empty());
    }
    if has_key {
        assert(failing_attempts(AuthStage::KeyTried, has_password) =~= seq![StepKind::TryAgent]
            + failing_attempts(AuthStage::AgentTried, has_password));
    }
    assert(seq![first_move(has_key).1] + failing_attempts(first_move(has_key).0, has_password)
        =~= (if has_key {
        seq![StepKind::TryKey]
    } else {
        Seq::<StepKind>::empty()
    }) + seq![StepKind::TryAgent] + (if has_password {
        seq![StepKind::TryPassword]
    } else {
        Seq::<StepKind>::empty()
    }));
}

/// A success ends the search at once, whatever was being tried.
pub proof fn law_success_ends_search(stage: AuthStage, has_password: bool)
    ensures
        next_move(stage, has_password, true) == (AuthStage::Over, StepKind::Done),
{
}

/// The password is tried only after the agent failed.
pub proof fn law_password_after_agent(stage: AuthStage, has_password: bool, succeeded: bool)
    requires
        next_move(stage, has_password, succeeded).1 is TryPassword,
    ensures
        stage is AgentTried,
        !succeeded,
        has_password,
{
}

} // verus!
