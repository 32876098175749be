//! The cache of the roles of each tenant.
//!
//! The roles of a tenant are loaded from the user service and kept with
//! the time of loading. A background task reloads the roles of every cached
//! tenant at a fixed interval. A lookup reloads the roles of its tenant
//! first if they are missing, empty, or older than two intervals, which
//! they are only if the background task has been failing.
//!
//! The cache and the decisions are here. Loading, the clock, the lock
//! around the cache and the background task belong to the caller.

use crate::prune::{well_formed};
use vstd::prelude::*;
use vstd::string::*;

verus! {

/// The interval of the background reload, in milliseconds.
pub const POLLING_INTERVAL_MS: u64 = 15000;

/// A role: its name and the names of the roles granted to it.
#[derive(Debug, PartialEq, Eq)]
pub struct RoleInfo {
    pub name: String,
    pub grants: Vec<String>,
}

/// The roles of one tenant, and when they were loaded, in milliseconds.
#[derive(Debug, PartialEq, Eq)]
pub struct CachedRoles {
    pub roles: Vec<RoleInfo>,
    pub cached_at: u64,
}

/// The cache: for each tenant its roles, and the reload interval.
#[derive(Debug, PartialEq, Eq)]
pub struct RoleCacheManager {
    pub tenants: Vec<String>,
    pub cached: Vec<CachedRoles>,
    pub polling_interval: u64,
}

/// The position of the first of the first `n` names that is `name`.
pub open spec fn position(names: Seq<String>, name: Seq<char>, n: nat) -> Option<nat>
    decreases n,
{
    if n == 0 {
        None
    } else {
        match position(names, name, (n - 1) as nat) {
            Some(i) => Some(i),
            None => if names[n - 1]@ == name {
                Some((n - 1) as nat)
            } else {
                None
            },
        }
    }
}

/// The first position of a name among the first `n` is the first among
/// any longer prefix, and it holds the name.
pub proof fn position_stays(names: Seq<String>, name: Seq<char>, n: nat, m: nat)
    requires
        n <= m,
        position(names, name, n) is Some,
    ensures
        position(names, name, m) == position(names, name, n),
        position(names, name, n)->Some_0 < n,
    decreases m,
{
    if n < m {
        position_stays(names, name, n, (m - 1) as nat);
    } else {
        position_bound(names, name, n);
    }
}

/// A position found among the first `n` names is below `n` and holds the
/// name; no earlier position does.
pub proof fn position_bound(names: Seq<String>, name: Seq<char>, n: nat)
    ensures
        position(names, name, n) is Some ==> position(names, name, n)->Some_0 < n && names[position(
            names,
            name,
            n,
        )->Some_0 as int]@ == name,
        position(names, name, n) is None ==> forall|i: int| 0 <= i < n ==> names[i]@ != name,
    decreases n,
{
    if n > 0 {
        position_bound(names, name, (n - 1) as nat);
    }
}

/// Whether the roles of a tenant have to be reloaded before they are
/// used: they are missing, or empty, or at least two reload intervals old.
pub open spec fn needs_reload(cached: Option<(nat, nat)>, now: nat, interval: nat) -> bool {
    match cached {
        None => true,
        Some((cached_at, roles)) => roles == 0 || (now >= cached_at && now - cached_at >= 2
            * interval),
    }
}

/// The position of the first string of `names` that equals `name`.
pub fn find_name(names: &Vec<String>, name: &str) -> (r: Option<usize>)
    ensures
        match position(names@, name@, names.len() as nat) {
            Some(i) => r == Some(i as usize) && i < names.len() && names[i as int]@ == name@,
            None => r is None,
        },
{
    let mut i: usize = 0;
    while i < names.len()
        invariant
            i <= names.len(),
            position(names@, name@, i as nat) is None,
        decreases names.len() - i,
    {
        if crate::text::same_text(names[i].as_str(), name) {
            proof {
                position_stays(names@, name@, (i + 1) as nat, names.len() as nat);
            }
            return Some(i);
        }
        i = i + 1;
    }
    None
}

impl RoleCacheManager {
    /// The tenants and their roles are kept side by side, and no tenant is
    /// kept twice.
    pub open spec fn well_formed(&self) -> bool {
        &&& self.tenants.len() == self.cached.len()
        &&& forall|i: int, j: int|
            0 <= i < j < self.tenants.len() ==> self.tenants[i]@ != self.tenants[j]@
    }

    /// Whether the cache holds roles of the tenant.
    pub open spec fn has(&self, tenant: Seq<char>) -> bool {
        position(self.tenants@, tenant, self.tenants.len() as nat) is Some
    }

    /// The roles that the cache holds of the tenant.
    pub open spec fn roles_of(&self, tenant: Seq<char>) -> CachedRoles {
        self.cached[position(self.tenants@, tenant, self.tenants.len() as nat)->Some_0 as int]
    }

    /// An empty cache with the standard reload interval.
    pub fn try_create() -> (m: RoleCacheManager)
        ensures
            m.well_formed(),
            m.polling_interval == POLLING_INTERVAL_MS,
            forall|t: Seq<char>| !m.has(t),
    {
        RoleCacheManager {
            tenants: Vec::new(),
            cached: Vec::new(),
            polling_interval: POLLING_INTERVAL_MS,
        }
    }

    /// The tenants whose roles the background task has to reload: all
    /// that are cached.
    pub fn background_polling(&self) -> (tenants: Vec<String>)
        requires
            self.well_formed(),
        ensures
            tenants.len() == self.tenants.len(),
            forall|i: int| 0 <= i < tenants.len() ==> tenants[i]@ == self.tenants[i]@,
    {
        let mut out: Vec<String> = Vec::new();
        let mut i: usize = 0;
        while i < self.tenants.len()
            invariant
                i <= self.tenants.len(),
                out.len() == i,
                forall|k: int| 0 <= k < i ==> out[k]@ == self.tenants[k]@,
            decreases self.tenants.len() - i,
        {
            out.push(self.tenants[i].clone());
            i = i + 1;
        }
        out
    }

    /// Forgets the roles of `tenant`. The other tenants stay cached, with
    /// the roles they had.
    pub fn invalidate_cache(&mut self, tenant: &str)
        requires
            old(self).well_formed(),
        ensures
            final(self).well_formed(),
            final(self).polling_interval == old(self).polling_interval,
            !final(self).has(tenant@),
            forall|t: Seq<char>|
                t != tenant@ ==> final(self).has(t) == old(self).has(t) && (old(self).has(t)
                    ==> final(self).roles_of(t) == old(self).roles_of(t)),
    {
        match find_name(&self.tenants, tenant) {
            None => {},
            Some(at) => {
                let ghost tenants0 = self.tenants@;
                let ghost cached0 = self.cached@;
                self.tenants.remove(at);
                self.cached.remove(at);
                proof {
                    let tenants1 = self.tenants@;
                    let n0 = tenants0.len();
                    let n1 = tenants1.len();
                    assert forall|i: int, j: int| 0 <= i < j < n1 implies tenants1[i]@
                        != tenants1[j]@ by {
                        let a = if i < at {
                            i
                        } else {
                            i + 1
                        };
                        let b = if j < at {
                            j
                        } else {
                            j + 1
                        };
                        assert(tenants0[a]@ != tenants0[b]@);
                    }
                    position_bound(tenants1, tenant@, n1);
                    if position(tenants1, tenant@, n1) is Some {
                        let p = position(tenants1, tenant@, n1)->Some_0 as int;
                        let q = if p < at {
                            p
                        } else {
                            p + 1
                        };
                        assert(tenants0[q]@ == tenant@);
                        assert(tenants0[at as int]@ == tenant@);
                    }
                    assert forall|t: Seq<char>| t != tenant@ implies self.has(t) == old(
                        self,
                    ).has(t) && (old(self).has(t) ==> self.roles_of(t) == old(self).roles_of(
                        t,
                    )) by {
                        position_bound(tenants0, t, n0);
                        position_bound(tenants1, t, n1);
                        if position(tenants0, t, n0) is Some {
                            let p0 = position(tenants0, t, n0)->Some_0 as int;
                            let shifted = if p0 < at {
                                p0
                            } else {
                                p0 - 1
                            };
                            assert(tenants1[shifted]@ == t);
                            let p1 = position(tenants1, t, n1)->Some_0 as int;
                            if p1 != shifted {
                                assert(tenants1[p1]@ == tenants1[shifted]@);
                            }
                        }
                        if position(tenants1, t, n1) is Some {
                            let p1 = position(tenants1, t, n1)->Some_0 as int;
                            let back = if p1 < at {
                                p1
                            } else {
                                p1 + 1
                            };
                            assert(tenants0[back]@ == t);
                        }
                    }
                }
            },
        }
    }

    /// Whether the roles of `tenant` have to be reloaded before they are
    /// used, at the time `now`, in milliseconds.
    pub fn maybe_reload(&self, tenant: &str, now: u64) -> (need_reload: bool)
        requires
            self.well_formed(),
        ensures
            need_reload == needs_reload(
                if self.has(tenant@) {
                    Some(
                        (
                            self.roles_of(tenant@).cached_at as nat,
                            self.roles_of(tenant@).roles.len() as nat,
                        ),
                    )
                } else {
                    None
                },
                now as nat,
                self.polling_interval as nat,
            ),
    {
        match find_name(&self.tenants, tenant) {
            None => true,
            Some(at) => {
                let cached_roles = &self.cached[at];
                if cached_roles.roles.len() == 0 {
                    true
                } else if now >= cached_roles.cached_at {
                    // The elapsed time is compared in wider numbers, so
                    // that doubling the interval cannot overflow.
                    (now - cached_roles.cached_at) as u128 >= 2 * (self.polling_interval as u128)
                } else {
                    false
                }
            },
        }
    }

    /// Stores roles that were loaded for `tenant` at the time `now`. The
    /// other tenants stay cached, with the roles they had.
    pub fn force_reload(&mut self, tenant: &str, roles: Vec<RoleInfo>, now: u64)
        requires
            old(self).well_formed(),
        ensures
            final(self).well_formed(),
            final(self).polling_interval == old(self).polling_interval,
            final(self).has(tenant@),
            final(self).roles_of(tenant@).roles == roles,
            final(self).roles_of(tenant@).cached_at == now,
            forall|t: Seq<char>|
                t != tenant@ ==> final(self).has(t) == old(self).has(t) && (old(self).has(t)
                    ==> final(self).roles_of(t) == old(self).roles_of(t)),
    {
        let ghost tenants0 = self.tenants@;
        let ghost n0 = tenants0.len();
        match find_name(&self.tenants, tenant) {
            Some(at) => {
                self.cached.set(at, CachedRoles { roles, cached_at: now });
                proof {
                    assert forall|t: Seq<char>| t != tenant@ implies self.has(t) == old(
                        self,
                    ).has(t) && (old(self).has(t) ==> self.roles_of(t) == old(self).roles_of(
                        t,
                    )) by {
                        position_bound(tenants0, t, n0);
                    }
                }
            },
            None => {
                self.tenants.push(String::from_str(tenant));
                self.cached.push(CachedRoles { roles, cached_at: now });
                proof {
                    let tenants1 = self.tenants@;
                    let n1 = tenants1.len();
                    position_bound(tenants0, tenant@, n0);
                    assert forall|i: int, j: int| 0 <= i < j < n1 implies tenants1[i]@
                        != tenants1[j]@ by {
                        if j < n0 {
                            assert(tenants0[i]@ != tenants0[j]@);
                        }
                    }
                    position_extends(tenants0, tenants1, tenant@, n0);
                    assert forall|t: Seq<char>| t != tenant@ implies self.has(t) == old(
                        self,
                    ).has(t) && (old(self).has(t) ==> self.roles_of(t) == old(self).roles_of(
                        t,
                    )) by {
                        position_extends(tenants0, tenants1, t, n0);
                        position_bound(tenants0, t, n0);
                    }
                }
            },
        }
    }

    /// The role `role` of `tenant`, if the cache holds it.
    pub fn find_role(&self, tenant: &str, role: &str) -> (r: Option<&RoleInfo>)
        requires
            self.well_formed(),
        ensures
            !self.has(tenant@) ==> r is None,
            self.has(tenant@) ==> match role_position(
                self.roles_of(tenant@).roles@,
                role@,
                self.roles_of(tenant@).roles.len() as nat,
            ) {
                Some(i) => r is Some && *r->Some_0 == self.roles_of(tenant@).roles[i as int],
                None => r is None,
            },
    {
        match find_name(&self.tenants, tenant) {
            None => None,
            Some(at) => find_role_in(&self.cached[at].roles, role),
        }
    }
}

/// A name is found at the same place in a list and in the list with one
/// more name at its end, unless it is found nowhere in the shorter list.
pub proof fn position_extends(shorter: Seq<String>, longer: Seq<String>, name: Seq<char>, n: nat)
    requires
        n <= shorter.len(),
        longer.len() == shorter.len() + 1,
        forall|i: int| 0 <= i < shorter.len() ==> longer[i] == shorter[i],
    ensures
        position(longer, name, n) == position(shorter, name, n),
        n == shorter.len() ==> position(longer, name, longer.len()) == (match position(
            shorter,
            name,
            n,
        ) {
            Some(i) => Some(i),
            None => if longer[shorter.len() as int]@ == name {
                Some(shorter.len())
            } else {
                None
            },
        }),
    decreases n,
{
    if n > 0 {
        position_extends(shorter, longer, name, (n - 1) as nat);
    }
}

/// The position of the first of the first `n` roles with the name.
pub open spec fn role_position(roles: Seq<RoleInfo>, name: Seq<char>, n: nat) -> Option<nat>
    decreases n,
{
    if n == 0 {
        None
    } else {
        match role_position(roles, name, (n - 1) as nat) {
            Some(i) => Some(i),
            None => if roles[n - 1].name@ == name {
                Some((n - 1) as nat)
            } else {
                None
            },
        }
    }
}

/// The first role of a name among the first `n` is the first among any
/// longer prefix.
pub proof fn role_position_stays(roles: Seq<RoleInfo>, name: Seq<char>, n: nat, m: nat)
    requires
        n <= m,
        role_position(roles, name, n) is Some,
    ensures
        role_position(roles, name, m) == role_position(roles, name, n),
    decreases m,
{
    if n < m {
        role_position_stays(roles, name, n, (m - 1) as nat);
    }
}

/// The first role of `roles` that is called `name`.
pub fn find_role_in<'a>(roles: &'a Vec<RoleInfo>, name: &str) -> (r: Option<&'a RoleInfo>)
    ensures
        match role_position(roles@, name@, roles.len() as nat) {
            Some(i) => r is Some && i < roles.len() && *r->Some_0 == roles[i as int],
            None => r is None,
        },
{
    let mut i: usize = 0;
    while i < roles.len()
        invariant
            i <= roles.len(),
            role_position(roles@, name@, i as nat) is None,
        decreases roles.len() - i,
    {
        if crate::text::same_text(roles[i].name.as_str(), name) {
            proof {
                role_position_stays(roles@, name@, (i + 1) as nat, roles.len() as nat);
            }
            return Some(&roles[i]);
        }
        i = i + 1;
    }
    None
}

/// A cache that holds nothing of a tenant reloads; so does one that holds
/// no role of it; and one whose roles are fresh and present does not.
pub proof fn reload_rule(cached_at: nat, roles: nat, now: nat, interval: nat)
    ensures
        needs_reload(None, now, interval),
        needs_reload(Some((cached_at, 0)), now, interval),
        roles > 0 && cached_at <= now && now - cached_at < 2 * interval ==> !needs_reload(
            Some((cached_at, roles)),
            now,
            interval,
        ),
        roles > 0 && cached_at <= now && now - cached_at >= 2 * interval ==> needs_reload(
            Some((cached_at, roles)),
            now,
            interval,
        ),
{
}

/// The position of the role called `name`, if `roles` has one.
pub open spec fn role_at(roles: Seq<RoleInfo>, name: Seq<char>) -> Option<nat> {
    role_position(roles, name, roles.len())
}

/// Whether the position `p` is that of a role that `names` asks for.
pub open spec fn is_requested(roles: Seq<RoleInfo>, names: Seq<String>, p: usize) -> bool {
    exists|k: int| 0 <= k < names.len() && role_at(roles, #[trigger] names[k]@) == Some(p as nat)
}

/// Whether the role at position `parent` grants the role at position `p`.
pub open spec fn grants(roles: Seq<RoleInfo>, parent: usize, p: usize) -> bool {
    &&& parent < roles.len()
    &&& exists|g: int|
        0 <= g < roles[parent as int].grants.len() && role_at(
            roles,
            #[trigger] roles[parent as int].grants[g]@,
        ) == Some(p as nat)
}

/// Whether `found` lists the roles related to `names`: the roles that
/// `names` asks for, and the roles granted to any role of the list. No
/// role is listed twice, and every role of the list is asked for or granted
/// to a role that stands before it.
pub open spec fn lists_related(roles: Seq<RoleInfo>, names: Seq<String>, found: Seq<usize>) -> bool {
    &&& found.no_duplicates()
    &&& forall|i: int| 0 <= i < found.len() ==> (#[trigger] found[i]) < roles.len()
    &&& forall|p: usize| is_requested(roles, names, p) ==> found.contains(p)
    &&& forall|i: int, p: usize|
        0 <= i < found.len() && grants(roles, #[trigger] found[i], p) ==> #[trigger] found.contains(
            p,
        )
    &&& forall|i: int|
        0 <= i < found.len() ==> is_requested(roles, names, #[trigger] found[i]) || exists|j: int|
            0 <= j < i && grants(roles, found[j], found[i])
}

/// Whether `x` is among the entries of `v`.
fn contains_position(v: &Vec<usize>, x: usize) -> (b: bool)
    ensures
        b == v@.contains(x),
{
    let mut i: usize = 0;
    while i < v.len()
        invariant
            i <= v.len(),
            forall|k: int| 0 <= k < i ==> v[k] != x,
        decreases v.len() - i,
    {
        if v[i] == x {
            return true;
        }
        i = i + 1;
    }
    false
}

/// A list of distinct positions below `n` has at most `n` entries.
pub proof fn distinct_positions_bound(found: Seq<usize>, n: nat)
    requires
        found.no_duplicates(),
        forall|i: int| 0 <= i < found.len() ==> (#[trigger] found[i]) < n,
    ensures
        found.len() <= n,
{
    let widen = |x: usize| x as int;
    let wide = found.map_values(widen);
    assert(vstd::relations::injective(widen));
    found.lemma_no_duplicates_injective(widen);
    wide.unique_seq_to_set();
    vstd::set_lib::lemma_int_range(0, n as int);
    assert forall|x: int| wide.to_set().contains(x) implies vstd::set_lib::set_int_range(
        0,
        n as int,
    ).contains(x) by {
        let k = choose|k: int| 0 <= k < wide.len() && wide[k] == x;
        assert(found[k] < n);
    }
    vstd::set_lib::lemma_len_subset(wide.to_set(), vstd::set_lib::set_int_range(0, n as int));
}

/// The positions in `roles` of the roles related to `role_identities`:
/// the roles asked for, and all roles granted to them, directly or through
/// other roles. The roles asked for come first, in the order asked; the
/// roles granted to a role follow in the order of its grants.
pub fn find_all_related_roles(roles: &Vec<RoleInfo>, role_identities: &Vec<String>) -> (found: Vec<
    usize,
>)
    ensures
        lists_related(roles@, role_identities@, found@),
{
    let mut found: Vec<usize> = Vec::new();
    let mut k: usize = 0;
    while k < role_identities.len()
        invariant
            k <= role_identities.len(),
            found@.no_duplicates(),
            forall|i: int| 0 <= i < found.len() ==> (#[trigger] found[i]) < roles.len(),
            forall|j: int|
                0 <= j < k && role_at(roles@, #[trigger] role_identities[j]@) is Some
                    ==> found@.contains(role_at(roles@, role_identities[j]@)->Some_0 as usize),
            forall|i: int|
                0 <= i < found.len() ==> is_requested(roles@, role_identities@, #[trigger] found[i]),
        decreases role_identities.len() - k,
    {
        let ghost before = found@;
        match find_role_position(roles, role_identities[k].as_str()) {
            Some(p) => {
                if !contains_position(&found, p) {
                    found.push(p);
                }
                proof {
                    assert(role_at(roles@, role_identities[k as int]@) == Some(p as nat));
                    assert(is_requested(roles@, role_identities@, p));
                    assert(found@.contains(p)) by {
                        if before.contains(p) {
                            let at = choose|at: int| 0 <= at < before.len() && before[at] == p;
                            assert(found[at] == p);
                        } else {
                            assert(found[found.len() - 1] == p);
                        }
                    }
                    assert forall|j: int|
                        0 <= j < k + 1 && role_at(
                            roles@,
                            #[trigger] role_identities[j]@,
                        ) is Some implies found@.contains(
                        role_at(roles@, role_identities[j]@)->Some_0 as usize,
                    ) by {
                        if j < k {
                            let q = role_at(roles@, role_identities[j]@)->Some_0 as usize;
                            assert(before.contains(q));
                            let at = choose|at: int| 0 <= at < before.len() && before[at] == q;
                            assert(found[at] == q);
                        }
                    }
                }
            },
            None => {},
        }
        k = k + 1;
    }
    proof {
        assert forall|p: usize| is_requested(roles@, role_identities@, p) implies found@.contains(
            p,
        ) by {
            let j = choose|j: int|
                0 <= j < role_identities.len() && role_at(roles@, #[trigger] role_identities[j]@)
                    == Some(p as nat);
            assert(role_at(roles@, role_identities[j]@) is Some);
        }
    }
    let mut next: usize = 0;
    while next < found.len()
        invariant
            next <= found.len(),
            found@.no_duplicates(),
            forall|i: int| 0 <= i < found.len() ==> (#[trigger] found[i]) < roles.len(),
            forall|p: usize| is_requested(roles@, role_identities@, p) ==> found@.contains(p),
            forall|i: int, p: usize|
                0 <= i < next && grants(roles@, #[trigger] found[i], p) ==> #[trigger] found@.contains(
                    p,
                ),
            forall|i: int|
                0 <= i < found.len() ==> is_requested(roles@, role_identities@, #[trigger] found[i])
                    || exists|j: int| 0 <= j < i && grants(roles@, found[j], found[i]),
        decreases roles.len() - next,
    {
        proof {
            distinct_positions_bound(found@, roles.len() as nat);
        }
        let parent = found[next];
        let granted = &roles[parent].grants;
        let mut g: usize = 0;
        while g < granted.len()
            invariant
                g <= granted.len(),
                next < found.len(),
                parent == found[next as int],
                parent < roles.len(),
                granted == &roles[parent as int].grants,
                found@.no_duplicates(),
                forall|i: int| 0 <= i < found.len() ==> (#[trigger] found[i]) < roles.len(),
                forall|p: usize| is_requested(roles@, role_identities@, p) ==> found@.contains(p),
                forall|i: int, p: usize|
                    0 <= i < next && grants(roles@, #[trigger] found[i], p)
                        ==> #[trigger] found@.contains(p),
                forall|j: int|
                    0 <= j < g && role_at(roles@, #[trigger] granted[j]@) is Some
                        ==> found@.contains(role_at(roles@, granted[j]@)->Some_0 as usize),
                forall|i: int|
                    0 <= i < found.len() ==> is_requested(
                        roles@,
                        role_identities@,
                        #[trigger] found[i],
                    ) || exists|j: int| 0 <= j < i && grants(roles@, found[j], found[i]),
            decreases granted.len() - g,
        {
            let ghost before = found@;
            match find_role_position(roles, granted[g].as_str()) {
                Some(p) => {
                    if !contains_position(&found, p) {
                        found.push(p);
                        proof {
                            assert(grants(roles@, parent, p));
                            assert(grants(roles@, found[next as int], found[found.len() - 1]));
                        }
                    }
                    proof {
                        assert(found@.contains(p)) by {
                            if before.contains(p) {
                                let at = choose|at: int| 0 <= at < before.len() && before[at] == p;
                                assert(found[at] == p);
                            } else {
                                assert(found[found.len() - 1] == p);
                            }
                        }
                    }
                },
                None => {},
            }
            proof {
                assert forall|q: usize| #[trigger] before.contains(q) implies found@.contains(
                    q,
                ) by {
                    let at = choose|at: int| 0 <= at < before.len() && before[at] == q;
                    assert(found[at] == q);
                }
                assert forall|p: usize|
                    is_requested(roles@, role_identities@, p) implies found@.contains(p) by {
                    assert(before.contains(p));
                }
                assert forall|i: int, p: usize|
                    0 <= i < next && grants(roles@, #[trigger] found[i], p) implies #[trigger] found@.contains(
                    p,
                ) by {
                    assert(found[i] == before[i]);
                    assert(grants(roles@, before[i], p));
                    assert(before.contains(p));
                }
                assert forall|j: int|
                    0 <= j < g + 1 && role_at(roles@, #[trigger] granted[j]@) is Some implies found@.contains(
                    role_at(roles@, granted[j]@)->Some_0 as usize,
                ) by {
                    if j < g {
                        assert(before.contains(role_at(roles@, granted[j]@)->Some_0 as usize));
                    }
                }
                assert forall|i: int|
                    0 <= i < found.len() implies is_requested(
                    roles@,
                    role_identities@,
                    #[trigger] found[i],
                ) || exists|j: int| 0 <= j < i && grants(roles@, found[j], found[i]) by {
                    if i < before.len() {
                        assert(found[i] == before[i]);
                        if !is_requested(roles@, role_identities@, before[i]) {
                            let j = choose|j: int|
                                0 <= j < i && grants(roles@, before[j], before[i]);
                            assert(found[j] == before[j]);
                        }
                    } else {
                        assert(grants(roles@, found[next as int], found[i]));
                    }
                }
            }
            g = g + 1;
        }
        proof {
            assert forall|p: usize| grants(roles@, found[next as int], p) implies found@.contains(
                p,
            ) by {
                let j = choose|j: int|
                    0 <= j < roles[parent as int].grants.len() && role_at(
                        roles@,
                        #[trigger] roles[parent as int].grants[j]@,
                    ) == Some(p as nat);
                assert(role_at(roles@, granted[j]@) is Some);
            }
        }
        next = next + 1;
    }
    found
}

/// The position in `roles` of the first role called `name`.
pub fn find_role_position(roles: &Vec<RoleInfo>, name: &str) -> (r: Option<usize>)
    ensures
        match role_at(roles@, name@) {
            Some(i) => r == Some(i as usize) && i < roles.len(),
            None => r is None,
        },
{
    let mut i: usize = 0;
    while i < roles.len()
        invariant
            i <= roles.len(),
            role_position(roles@, name@, i as nat) is None,
        decreases roles.len() - i,
    {
        if crate::text::same_text(roles[i].name.as_str(), name) {
            proof {
                role_position_stays(roles@, name@, (i + 1) as nat, roles.len() as nat);
            }
            return Some(i);
        }
        i = i + 1;
    }
    None
}

impl RoleCacheManager {
    /// The roles of `tenant` that are related to `roles`, as far as the
    /// cache holds them; none where it holds nothing of the tenant.
    pub fn find_related_roles(&self, tenant: &str, roles: &Vec<String>) -> (r: Vec<&RoleInfo>)
        requires
            self.well_formed(),
        ensures
            !self.has(tenant@) ==> r.len() == 0,
            self.has(tenant@) ==> exists|found: Seq<usize>|
                lists_related(self.roles_of(tenant@).roles@, roles@, found) && r.len()
                    == found.len() && forall|i: int|
                    0 <= i < found.len() ==> *(#[trigger] r[i]) == self.roles_of(
                        tenant@,
                    ).roles[found[i] as int],
    {
        let mut out: Vec<&RoleInfo> = Vec::new();
        match find_name(&self.tenants, tenant) {
            None => out,
            Some(at) => {
                let cached = &self.cached[at].roles;
                let found = find_all_related_roles(cached, roles);
                let mut i: usize = 0;
                while i < found.len()
                    invariant
                        i <= found.len(),
                        out.len() == i,
                        lists_related(cached@, roles@, found@),
                        forall|k: int| 0 <= k < i ==> *(#[trigger] out[k]) == cached[found[k] as int],
                    decreases found.len() - i,
                {
                    let p = found[i];
                    out.push(&cached[p]);
                    i = i + 1;
                }
                out
            },
        }
    }
}

} // verus!
