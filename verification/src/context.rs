//! The authorization-context store: a concurrent map from hex session
//! identifier to the context consulted for allow/deny decisions. The map
//! itself is `dashmap::DashMap`, trusted through small wrappers; the
//! decision rule on a looked-up context is verified.

use vstd::prelude::*;
use crate::strutil::str_eq;

verus! {

/// What is known of a session for authorization decisions.
#[derive(Clone)]
pub struct AuthorizationContext {
    pub user_id: String,
    pub allowed_resources: Vec<String>,
    pub risk_score: u8,
}

/// The mathematical content of an authorization context.
pub ghost struct ContextView {
    pub user_id: Seq<char>,
    pub allowed_resources: Seq<Seq<char>>,
    pub risk_score: u8,
}

impl View for AuthorizationContext {
    type V = ContextView;

    open spec fn view(&self) -> ContextView {
        ContextView {
            user_id: self.user_id@,
            allowed_resources: self.allowed_resources.deep_view(),
            risk_score: self.risk_score,
        }
    }
}

/// An action on `resource` is allowed exactly when the resource is among
/// the allowed resources and the risk score is below 50.
pub open spec fn spec_action_allowed(c: ContextView, resource: Seq<char>) -> bool {
    c.allowed_resources.contains(resource) && c.risk_score < 50
}

impl AuthorizationContext {
    /// Whether this context allows an action on `resource`.
    pub fn is_action_allowed(&self, resource: &str) -> (r: bool)
        ensures
            r == spec_action_allowed(self@, resource@),
    {
        if self.risk_score >= 50 {
            return false;
        }
        let n = self.allowed_resources.len();
        let mut i: usize = 0;
        while i < n
            invariant
                i <= n,
                n == self.allowed_resources@.len(),
                self@.risk_score < 50,
                forall|j: int| 0 <= j < i ==> self@.allowed_resources[j] != resource@,
        decreases n - i,
        {
            if str_eq(self.allowed_resources[i].as_str(), resource) {
                proof {
                    assert(self@.allowed_resources[i as int] == resource@);
                    assert(self@.allowed_resources.contains(resource@));
                }
                return true;
            }
            i += 1;
        }
        false
    }
}

#[verifier::external_type_specification]
#[verifier::external_body]
#[verifier::reject_recursive_types(K)]
#[verifier::reject_recursive_types(V)]
#[verifier::reject_recursive_types(S)]
pub struct ExDashMap<K, V, S>(dashmap::DashMap<K, V, S>);

/// What the context map holds: the contexts by hex session identifier.
pub uninterp spec fn dashmap_view(m: dashmap::DashMap<String, AuthorizationContext>) -> Map<
    Seq<char>,
    ContextView,
>;

/// The empty contents: no session has a context.
pub open spec fn empty_contexts() -> Map<Seq<char>, ContextView> {
    Map::empty()
}

/// Relies on `dashmap::DashMap::new`: the new map is empty.
#[verifier::external_body]
fn dashmap_new() -> (r: dashmap::DashMap<String, AuthorizationContext>)
    ensures
        dashmap_view(r) == empty_contexts(),
{
    dashmap::DashMap::new()
}

/// The session-to-context store.
pub struct ContextManager {
    pub contexts: dashmap::DashMap<String, AuthorizationContext>,
}

impl ContextManager {
    /// The contexts held, by hex session identifier.
    pub open spec fn contents(&self) -> Map<Seq<char>, ContextView> {
        dashmap_view(self.contexts)
    }

    /// An empty store.
    pub fn new() -> (r: ContextManager)
        ensures
            r.contents() == Map::<Seq<char>, ContextView>::empty(),
    {
        ContextManager { contexts: dashmap_new() }
    }

    /// Relies on `dashmap::DashMap::insert`: the entry for the key is
    /// created or replaced.
    #[verifier::external_body]
    pub fn insert(&mut self, session_id_hex: String, context: AuthorizationContext)
        ensures
            dashmap_view(final (self).contexts) == dashmap_view(old(self).contexts).insert(
                session_id_hex@,
                context@,
            ),
    {
        self.contexts.insert(session_id_hex, context);
    }

    /// Relies on `dashmap::DashMap::get`: the entry for the key, if any,
    /// cloned out of the map.
    #[verifier::external_body]
    pub fn get(&self, session_id_hex: &String) -> (r: Option<AuthorizationContext>)
        ensures
            match r {
                Some(c) => dashmap_view(self.contexts).contains_key(session_id_hex@) && c@
                    == dashmap_view(self.contexts)[session_id_hex@],
                None => !dashmap_view(self.contexts).contains_key(session_id_hex@),
            },
    {
        match self.contexts.get(session_id_hex) {
            Some(entry) => Some(entry.value().clone()),
            None => None,
        }
    }
}

#[derive(Clone, Copy, Debug, PartialEq, Eq, Structural)]
pub enum AuthzError {
    /// No context authorizes the action: the session is unknown or its
    /// context disallows the resource.
    Unauthorized,
}

/// The authorization decision: ok exactly when a context exists for the
/// session and that context allows the resource.
pub open spec fn spec_validate_action(
    contexts: Map<Seq<char>, ContextView>,
    session_id_hex: Seq<char>,
    resource: Seq<char>,
) -> Result<(), AuthzError> {
    if contexts.contains_key(session_id_hex) && spec_action_allowed(
        contexts[session_id_hex],
        resource,
    ) {
        Ok(())
    } else {
        Err(AuthzError::Unauthorized)
    }
}

impl ContextManager {
    /// Decide whether the session may act on `resource`.
    pub fn validate_action(&self, session_id_hex: &String, resource: &str) -> (r: Result<
        (),
        AuthzError,
    >)
        ensures
            r == spec_validate_action(self.contents(), session_id_hex@, resource@),
    {
        match self.get(session_id_hex) {
            Some(ctx) => if ctx.is_action_allowed(resource) {
                Ok(())
            } else {
                Err(AuthzError::Unauthorized)
            },
            None => Err(AuthzError::Unauthorized),
        }
    }
}

} // verus!
