//! The query context: the run's catalog of logical-table-name bindings.
//!
//! A context owns one SQL engine session and the list of table names that have
//! been registered in it. Registration is append-only and a name may be bound
//! at most once; re-registration under the same name is refused. The engine
//! normalizes SQL identifiers (it lower-cases unquoted ones and splits them on
//! dots), so the context accepts only plain names — lower-case ASCII letters,
//! digits and underscores, starting with a letter — which the engine keeps
//! verbatim; anything else is refused before it reaches the engine.

use vstd::prelude::*;
use datafusion::catalog::TableProvider;
use datafusion::prelude::SessionContext;
use std::sync::Arc;

verus! {

#[verifier::external_type_specification]
#[verifier::external_body]
pub struct ExSessionContext(SessionContext);

/// The set of table names registered in the default schema of the session's
/// default catalog.
pub uninterp spec fn registered_of(ctx: SessionContext) -> Set<Seq<char>>;

/// A character a plain table name may start with: a lower-case ASCII letter.
pub open spec fn is_lower_alpha(c: char) -> bool {
    97 <= c as u32 <= 122
}

/// A character a plain table name may continue with: a lower-case ASCII
/// letter, a digit, or an underscore.
pub open spec fn is_name_char(c: char) -> bool {
    is_lower_alpha(c) || (48 <= c as u32 <= 57) || c as u32 == 95
}

/// A plain table name: nonempty, starts with a lower-case ASCII letter, and
/// continues with lower-case ASCII letters, digits or underscores. The SQL
/// engine keeps such a name exactly as written when it parses an identifier.
pub open spec fn is_plain_name(s: Seq<char>) -> bool {
    &&& s.len() > 0
    &&& is_lower_alpha(s[0])
    &&& forall|i: int| 0 <= i < s.len() ==> is_name_char(#[trigger] s[i])
}

/// Relies on datafusion's `SessionContext::new`: a fresh session whose default
/// schema holds no registered tables.
#[verifier::external_body]
fn new_session() -> (ctx: SessionContext)
    ensures
        registered_of(ctx) == Set::<Seq<char>>::empty(),
{
    SessionContext::new()
}

/// Relies on datafusion's `SessionContext::register_table`: for a plain table
/// name it resolves the default schema, fails exactly when the name is already
/// registered there, and otherwise inserts the provider under that name.
#[verifier::external_body]
fn engine_register<P: TableProvider + 'static>(
    ctx: &mut SessionContext,
    name: &str,
    provider: P,
) -> (ok: bool)
    requires
        is_plain_name(name@),
    ensures
        ok == !registered_of(*old(ctx)).contains(name@),
        ok ==> registered_of(*final(ctx)) == registered_of(*old(ctx)).insert(name@),
        !ok ==> registered_of(*final(ctx)) == registered_of(*old(ctx)),
{
    ctx.register_table(name, Arc::new(provider)).is_ok()
}

/// Why a registration was refused.
#[derive(Debug, Clone, Copy, PartialEq, Eq)]
pub enum RegisterError {
    /// The name is already bound in this context.
    DuplicateName,
    /// The name is not a plain table name, so the engine would rewrite it.
    InvalidName,
}

/// The outcome that registering `name` against the already-bound `prior`
/// names must have.
pub open spec fn register_outcome(prior: Seq<Seq<char>>, name: Seq<char>) -> Result<(), RegisterError> {
    if !is_plain_name(name) {
        Err(RegisterError::InvalidName)
    } else if prior.contains(name) {
        Err(RegisterError::DuplicateName)
    } else {
        Ok(())
    }
}

/// The run's catalog: one engine session plus the names bound in it, in
/// registration order.
pub struct QueryContext {
    session: SessionContext,
    names: Vec<String>,
}

impl QueryContext {
    /// The bound table names, in registration order.
    pub closed spec fn names_seq(&self) -> Seq<Seq<char>> {
        self.names@.map(|i: int, n: String| n@)
    }

    /// Whether `name` is bound in this context.
    pub open spec fn is_registered(&self, name: Seq<char>) -> bool {
        self.names_seq().contains(name)
    }

    /// Well-formed: the bound names are plain and pairwise distinct, and they
    /// are exactly the names registered in the engine session.
    pub closed spec fn wf(&self) -> bool {
        &&& forall|i: int| 0 <= i < self.names_seq().len() ==> is_plain_name(#[trigger] self.names_seq()[i])
        &&& forall|i: int, j: int|
            0 <= i < j < self.names_seq().len() ==> self.names_seq()[i] != self.names_seq()[j]
        &&& registered_of(self.session) == self.names_seq().to_set()
    }

    /// A fresh context with no bindings.
    pub fn new() -> (c: QueryContext)
        ensures
            c.wf(),
            c.names_seq() == Seq::<Seq<char>>::empty(),
    {
        let c = QueryContext { session: new_session(), names: Vec::new() };
        proof {
            assert(c.names_seq() =~= Seq::<Seq<char>>::empty());
            assert(c.names_seq().to_set() =~= Set::<Seq<char>>::empty());
        }
        c
    }

    /// Bind `name` to a relation `provider`. Append-only: a name already bound
    /// stays bound to what it was, and the attempt is refused.
    pub fn register<P: TableProvider + 'static>(
        &mut self,
        name: String,
        provider: P,
    ) -> (r: Result<(), RegisterError>)
        requires
            old(self).wf(),
        ensures
            final(self).wf(),
            r == register_outcome(old(self).names_seq(), name@),
            r is Ok ==> final(self).names_seq() == old(self).names_seq().push(name@),
            r is Err ==> final(self).names_seq() == old(self).names_seq(),
    {
        if !check_plain_name(name.as_str()) {
            return Err(RegisterError::InvalidName);
        }
        let n = self.names.len();
        for i in 0..n
            invariant
                *self == *old(self),
                old(self).wf(),
                n == self.names.len(),
                forall|k: int| 0 <= k < i ==> self.names_seq()[k] != name@,
        {
            if self.names[i] == name {
                proof {
                    assert(self.names_seq()[i as int] == name@);
                    assert(self.names_seq().contains(name@));
                }
                return Err(RegisterError::DuplicateName);
            }
        }
        proof {
            assert(!self.names_seq().contains(name@));
            assert(!registered_of(self.session).contains(name@)) by {
                assert(registered_of(self.session) == self.names_seq().to_set());
            }
        }
        let ghost prior = self.names_seq();
        let ok = engine_register(&mut self.session, name.as_str(), provider);
        if ok {
            self.names.push(name);
            proof {
                let pushed = self.names_seq();
                assert(pushed =~= prior.push(name@));
                assert forall|a: Seq<char>|
                    pushed.contains(a) <==> (prior.contains(a) || a == name@) by {
                    if pushed.contains(a) {
                        let k = choose|k: int| 0 <= k < pushed.len() && pushed[k] == a;
                        if k < prior.len() {
                            assert(prior[k] == a);
                        }
                    }
                    if prior.contains(a) {
                        let k = choose|k: int| 0 <= k < prior.len() && prior[k] == a;
                        assert(pushed[k] == a);
                    }
                    assert(pushed[prior.len() as int] == name@);
                }
                assert(pushed.to_set() =~= prior.to_set().insert(name@));
            }
            Ok(())
        } else {
            Err(RegisterError::DuplicateName)
        }
    }

    /// The engine session the bound names resolve in; SQL text is submitted
    /// against it.
    pub fn session(&self) -> (s: &SessionContext)
        requires
            self.wf(),
        ensures
            registered_of(*s) == self.names_seq().to_set(),
    {
        &self.session
    }

    /// How many names are bound.
    pub fn len(&self) -> (n: usize)
        ensures
            n == self.names_seq().len(),
    {
        self.names.len()
    }
}

/// Whether `s` is a plain table name.
pub fn check_plain_name(s: &str) -> (r: bool)
    ensures
        r == is_plain_name(s@),
{
    let len = s.unicode_len();
    if len == 0 {
        return false;
    }
    let first = s.get_char(0);
    let fu = first as u32;
    if !(97 <= fu && fu <= 122) {
        return false;
    }
    for i in 0..len
        invariant
            len == s@.len(),
            forall|k: int| 0 <= k < i ==> is_name_char(#[trigger] s@[k]),
    {
        let c = s.get_char(i);
        let u = c as u32;
        if !((97 <= u && u <= 122) || (48 <= u && u <= 57) || u == 95) {
            return false;
        }
    }
    true
}

/// Registration uniqueness: against any prior bindings, registering a plain,
/// fresh name succeeds; registering it a second time is refused as a
/// duplicate whatever relation it is now bound to; and two distinct fresh
/// plain names both succeed, each remaining bound afterwards.
pub proof fn lemma_registration_uniqueness(
    prior: Seq<Seq<char>>,
    n1: Seq<char>,
    n2: Seq<char>,
)
    requires
        is_plain_name(n1),
        is_plain_name(n2),
        n1 != n2,
        !prior.contains(n1),
        !prior.contains(n2),
    ensures
        register_outcome(prior, n1) == Ok::<(), RegisterError>(()),
        register_outcome(prior.push(n1), n1) == Err::<(), RegisterError>(RegisterError::DuplicateName),
        register_outcome(prior.push(n1), n2) == Ok::<(), RegisterError>(()),
        prior.push(n1).push(n2).contains(n1),
        prior.push(n1).push(n2).contains(n2),
{
    assert(prior.push(n1).contains(n1)) by {
        assert(prior.push(n1)[prior.len() as int] == n1);
    }
    assert(!prior.push(n1).contains(n2)) by {
        if prior.push(n1).contains(n2) {
            let k = choose|k: int| 0 <= k < prior.push(n1).len() && prior.push(n1)[k] == n2;
            assert(k < prior.len() ==> prior[k] == n2);
        }
    }
    assert(prior.push(n1).push(n2).contains(n1)) by {
        assert(prior.push(n1).push(n2)[prior.len() as int] == n1);
    }
    assert(prior.push(n1).push(n2).contains(n2)) by {
        assert(prior.push(n1).push(n2)[prior.len() as int + 1] == n2);
    }
}

} // verus!
