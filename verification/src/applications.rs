//! The application registry: each registered backend tenant carries a
//! name, a backend endpoint, and the sub-paths exempt from authorization.

use vstd::prelude::*;
use crate::text::string_eq_str;

verus! {

/// What `str::to_lowercase` returns for a given sequence of characters;
/// the mapping depends on the characters alone.
pub uninterp spec fn lower_of(s: Seq<char>) -> Seq<char>;

/// Relies on `str::to_lowercase`: the lowercase equivalent of the slice,
/// depending on its characters alone.
#[verifier::external_body]
fn lowercase(s: &str) -> (r: String)
    ensures
        r@ == lower_of(s@),
        s@.len() == 0 ==> r@.len() == 0,
{
    s.to_lowercase()
}

/// Holds when one of `routes` is exactly `path`: exemption from the guard
/// is exact sub-path equality, never a prefix match.
pub open spec fn contains_route(routes: Seq<String>, path: Seq<char>) -> bool {
    exists|i: int| 0 <= i < routes.len() && (#[trigger] routes[i])@ == path
}

/// A registered backend tenant, immutable after construction.
#[derive(Clone)]
pub struct Application {
    pub name: String,
    pub url: String,
    pub unauthenticated_routes: Vec<String>,
}

impl Application {
    pub fn new(name: String, url: String, unauthenticated_routes: Vec<String>) -> (r: Self)
        ensures
            r.name == name,
            r.url == url,
            r.unauthenticated_routes == unauthenticated_routes,
    {
        Application { name, url, unauthenticated_routes }
    }

    /// The path segment this application is routed under: its lowercased
    /// name.
    pub fn domain(&self) -> (r: String)
        ensures
            r@ == lower_of(self.name@),
    {
        lowercase(self.name.as_str())
    }

    pub fn endpoint(&self) -> (r: &str)
        ensures
            r@ == self.url@,
    {
        self.url.as_str()
    }

    /// Whether `route` is exempt from authorization, by exact match.
    pub fn is_unauthenticaded(&self, route: &String) -> (r: bool)
        ensures
            r == contains_route(self.unauthenticated_routes@, route@),
    {
        let n = self.unauthenticated_routes.len();
        let mut i: usize = 0;
        while i < n
            invariant
                n == self.unauthenticated_routes.len(),
                0 <= i <= n,
                forall|j: int|
                    0 <= j < i ==> (#[trigger] self.unauthenticated_routes@[j])@ != route@,
            decreases n - i,
        {
            if string_eq_str(route, self.unauthenticated_routes[i].as_str()) {
                return true;
            }
            i += 1;
        }
        false
    }
}

/// The ordered registry of applications, fixed at startup.
#[derive(Clone)]
pub struct Applications(pub Vec<Application>);

/// The application a domain segment resolves to: the earliest
/// registration whose lowercased name is the domain. Registration order
/// is the one explicit precedence rule for duplicate domains.
pub open spec fn resolve_spec(apps: Seq<Application>, domain: Seq<char>) -> Option<Application>
    decreases apps.len(),
{
    if apps.len() == 0 {
        None
    } else if lower_of(apps[0].name@) == domain {
        Some(apps[0])
    } else {
        resolve_spec(apps.drop_first(), domain)
    }
}

proof fn lemma_resolve_skip(apps: Seq<Application>, domain: Seq<char>, i: int)
    requires
        0 <= i <= apps.len(),
        forall|j: int| 0 <= j < i ==> lower_of((#[trigger] apps[j]).name@) != domain,
    ensures
        resolve_spec(apps, domain) == resolve_spec(apps.skip(i), domain),
    decreases i,
{
    if i > 0 {
        assert(apps.skip(0) =~= apps);
        lemma_resolve_skip(apps.drop_first(), domain, i - 1);
        assert(apps.drop_first().skip(i - 1) =~= apps.skip(i));
    } else {
        assert(apps.skip(0) =~= apps);
    }
}

impl Applications {
    /// The registered applications, in registration order.
    pub fn iter(&self) -> (r: &Vec<Application>)
        ensures
            r == &self.0,
    {
        &self.0
    }

    /// Resolves a matched domain segment to its application, in
    /// registration order.
    pub fn find_by_domain(&self, domain: &str) -> (r: Option<&Application>)
        ensures
            match resolve_spec(self.0@, domain@) {
                Some(a) => r matches Some(found) && *found == a,
                None => r is None,
            },
    {
        let n = self.0.len();
        let mut i: usize = 0;
        while i < n
            invariant
                n == self.0.len(),
                0 <= i <= n,
                forall|j: int| 0 <= j < i ==> lower_of((#[trigger] self.0@[j]).name@) != domain@,
            decreases n - i,
        {
            let candidate = self.0[i].domain();
            if string_eq_str(&candidate, domain) {
                proof {
                    lemma_resolve_skip(self.0@, domain@, i as int);
                    assert(self.0@.skip(i as int)[0] == self.0@[i as int]);
                }
                return Some(&self.0[i]);
            }
            i += 1;
        }
        proof {
            lemma_resolve_skip(self.0@, domain@, n as int);
            assert(self.0@.skip(n as int) =~= Seq::<Application>::empty());
        }
        None
    }
}

} // verus!
