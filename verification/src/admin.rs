//! The admin directory's view of one client.
//!
//! For every live connection the process keeps one `AdminSpaceClient`:
//! the client's identity, where it connected from, and which entities it
//! currently has declared, by id and key expression. The record is mutated
//! on every successful declare and undeclare and snapshot for read-only
//! replies to admin queries; matching listeners are not reported.

use vstd::prelude::*;
use vstd::slice::{slice_subrange, slice_to_vec};
use vstd::string::StringSliceAdditionalSpecFns;

use crate::table::EntityTable;

verus! {

/// Which admin document a query asks for.
#[derive(Clone, PartialEq, Eq, Debug)]
pub enum AdminQuery {
    /// The build version string.
    Version,
    /// The running configuration.
    Config,
    /// The live client records: all of them, or the one with this identity.
    Clients { uuid: Option<Vec<u8>> },
}

pub enum AdminQueryV {
    Version,
    Config,
    Clients { uuid: Option<Seq<u8>> },
}

impl View for AdminQuery {
    type V = AdminQueryV;

    open spec fn view(&self) -> AdminQueryV {
        match self {
            AdminQuery::Version => AdminQueryV::Version,
            AdminQuery::Config => AdminQueryV::Config,
            AdminQuery::Clients { uuid } => AdminQueryV::Clients {
                uuid: match uuid {
                    Option::Some(u) => Some(u@),
                    Option::None => None,
                },
            },
        }
    }
}

pub open spec fn match_at(s: Seq<u8>, pat: Seq<u8>, i: int) -> bool {
    &&& 0 <= i
    &&& i + pat.len() <= s.len()
    &&& s.subrange(i, i + pat.len()) == pat
}

pub open spec fn bytes_contain(s: Seq<u8>, pat: Seq<u8>) -> bool {
    exists|i: int| match_at(s, pat, i)
}

/// The key chunk after the last separator; the whole key when it has none.
pub open spec fn last_chunk(s: Seq<u8>) -> Seq<u8>
    decreases s.len(),
{
    if s.len() == 0 {
        s
    } else if s.last() == 47 {
        Seq::empty()
    } else {
        last_chunk(s.drop_last()).push(s.last())
    }
}

/// Which admin document a selector under the admin prefix asks for:
/// the version, the configuration, or client records — the one whose
/// identity stands in the last chunk, or all of them when the last chunk
/// is the `clients` segment itself or a wildcard.
pub open spec fn spec_classify_admin_selector(s: Seq<u8>) -> Option<AdminQueryV> {
    if bytes_contain(s, "version".spec_bytes()) {
        Some(AdminQueryV::Version)
    } else if bytes_contain(s, "config".spec_bytes()) {
        Some(AdminQueryV::Config)
    } else if bytes_contain(s, "clients".spec_bytes()) {
        let c = last_chunk(s);
        Some(
            AdminQueryV::Clients {
                uuid: if c == "clients".spec_bytes() || c == "**".spec_bytes() {
                    None
                } else {
                    Some(c)
                },
            },
        )
    } else {
        None
    }
}

fn matches_at(s: &[u8], pat: &[u8], i: usize) -> (r: bool)
    requires
        i + pat@.len() <= s@.len(),
    ensures
        r == match_at(s@, pat@, i as int),
{
    let n = s.len();
    let m = pat.len();
    let mut j: usize = 0;
    while j < m
        invariant
            j <= m,
            n == s@.len(),
            m == pat@.len(),
            i + m <= n,
            forall|k: int| 0 <= k < j ==> s@[i + k] == pat@[k],
        decreases m - j,
    {
        if s[i + j] != pat[j] {
            proof {
                assert(s@.subrange(i as int, i + m)[j as int] == s@[i + j]);
            }
            return false;
        }
        j = j + 1;
    }
    proof {
        assert(s@.subrange(i as int, i + m) =~= pat@);
    }
    true
}

fn contains_bytes(s: &[u8], pat: &[u8]) -> (r: bool)
    ensures
        r == bytes_contain(s@, pat@),
{
    let n = s.len();
    let m = pat.len();
    if m == 0 {
        proof {
            assert(s@.subrange(0, 0) =~= pat@);
            assert(match_at(s@, pat@, 0));
        }
        return true;
    }
    if m > n {
        proof {
            assert forall|i: int| !match_at(s@, pat@, i) by {}
        }
        return false;
    }
    let mut i: usize = 0;
    while i <= n - m
        invariant
            1 <= m <= n,
            i <= n - m + 1,
            n == s@.len(),
            m == pat@.len(),
            forall|k: int| 0 <= k < i ==> !match_at(s@, pat@, k),
        decreases n - i,
    {
        if matches_at(s, pat, i) {
            return true;
        }
        i = i + 1;
    }
    proof {
        assert forall|k: int| !match_at(s@, pat@, k) by {
            if 0 <= k && k + pat@.len() <= s@.len() {
                assert(k < i);
            }
        }
    }
    false
}

proof fn lemma_last_chunk(s: Seq<u8>, cut: int)
    requires
        0 <= cut <= s.len(),
        forall|j: int| cut <= j < s.len() ==> s[j] != 47,
        cut > 0 ==> s[cut - 1] == 47,
    ensures
        last_chunk(s) == s.skip(cut),
    decreases s.len(),
{
    if s.len() == cut {
        assert(s.skip(cut) =~= Seq::<u8>::empty());
        if cut == 0 {
            assert(s =~= Seq::<u8>::empty());
        } else {
            assert(s.last() == s[cut - 1]);
        }
    } else {
        assert(s.last() != 47);
        lemma_last_chunk(s.drop_last(), cut);
        assert(s.skip(cut) =~= s.drop_last().skip(cut).push(s.last()));
    }
}

fn last_chunk_of(s: &[u8]) -> (r: Vec<u8>)
    ensures
        r@ == last_chunk(s@),
{
    let n = s.len();
    let mut cut: usize = 0;
    let mut i: usize = 0;
    while i < n
        invariant
            cut <= i <= n,
            n == s@.len(),
            cut > 0 ==> s@[cut - 1] == 47,
            forall|j: int| cut <= j < i ==> s@[j] != 47,
        decreases n - i,
    {
        if s[i] == 47 {
            cut = i + 1;
        }
        i = i + 1;
    }
    let out = slice_to_vec(slice_subrange(s, cut, n));
    proof {
        lemma_last_chunk(s@, cut as int);
        assert(out@ =~= s@.skip(cut as int));
    }
    out
}

fn eq_bytes(a: &[u8], b: &[u8]) -> (r: bool)
    ensures
        r == (a@ == b@),
{
    let n = a.len();
    if n != b.len() {
        return false;
    }
    let mut i: usize = 0;
    while i < n
        invariant
            i <= n,
            n == a@.len(),
            n == b@.len(),
            forall|j: int| 0 <= j < i ==> a@[j] == b@[j],
        decreases n - i,
    {
        if a[i] != b[i] {
            return false;
        }
        i = i + 1;
    }
    proof {
        assert(a@ =~= b@);
    }
    true
}

/// Classifies an admin selector: the version document, the configuration,
/// or client records with an optional identity taken from the last chunk.
pub fn classify_admin_selector(selector: &[u8]) -> (r: Option<AdminQuery>)
    ensures
        match r {
            Some(q) => spec_classify_admin_selector(selector@) == Some(q@),
            None => spec_classify_admin_selector(selector@) is None,
        },
{
    if contains_bytes(selector, "version".as_bytes()) {
        return Some(AdminQuery::Version);
    }
    if contains_bytes(selector, "config".as_bytes()) {
        return Some(AdminQuery::Config);
    }
    if contains_bytes(selector, "clients".as_bytes()) {
        let chunk = last_chunk_of(selector);
        let plain = eq_bytes(chunk.as_slice(), "clients".as_bytes()) || eq_bytes(
            chunk.as_slice(),
            "**".as_bytes(),
        );
        if plain {
            Some(AdminQuery::Clients { uuid: None })
        } else {
            Some(AdminQuery::Clients { uuid: Some(chunk) })
        }
    } else {
        None
    }
}

pub struct AdminSpaceClient {
    uuid: Vec<u8>,
    remote_address: Vec<u8>,
    publishers: EntityTable,
    subscribers: EntityTable,
    queryables: EntityTable,
    queriers: EntityTable,
    liveliness_tokens: EntityTable,
}

impl AdminSpaceClient {
    pub closed spec fn uuid_bytes(self) -> Seq<u8> {
        self.uuid@
    }

    pub closed spec fn remote_address_bytes(self) -> Seq<u8> {
        self.remote_address@
    }

    pub closed spec fn publishers_map(self) -> Map<u32, Seq<u8>> {
        self.publishers@
    }

    pub closed spec fn subscribers_map(self) -> Map<u32, Seq<u8>> {
        self.subscribers@
    }

    pub closed spec fn queryables_map(self) -> Map<u32, Seq<u8>> {
        self.queryables@
    }

    pub closed spec fn queriers_map(self) -> Map<u32, Seq<u8>> {
        self.queriers@
    }

    pub closed spec fn liveliness_tokens_map(self) -> Map<u32, Seq<u8>> {
        self.liveliness_tokens@
    }

    pub closed spec fn wf(self) -> bool {
        &&& self.publishers.wf()
        &&& self.subscribers.wf()
        &&& self.queryables.wf()
        &&& self.queriers.wf()
        &&& self.liveliness_tokens.wf()
    }

    pub fn new(uuid: Vec<u8>, remote_address: Vec<u8>) -> (c: AdminSpaceClient)
        ensures
            c.wf(),
            c.uuid_bytes() == uuid@,
            c.remote_address_bytes() == remote_address@,
            c.publishers_map() == Map::<u32, Seq<u8>>::empty(),
            c.subscribers_map() == Map::<u32, Seq<u8>>::empty(),
            c.queryables_map() == Map::<u32, Seq<u8>>::empty(),
            c.queriers_map() == Map::<u32, Seq<u8>>::empty(),
            c.liveliness_tokens_map() == Map::<u32, Seq<u8>>::empty(),
    {
        AdminSpaceClient {
            uuid,
            remote_address,
            publishers: EntityTable::new(),
            subscribers: EntityTable::new(),
            queryables: EntityTable::new(),
            queriers: EntityTable::new(),
            liveliness_tokens: EntityTable::new(),
        }
    }

    /// The client's identity, as reported under the admin key space.
    pub fn id(&self) -> (r: &Vec<u8>)
        ensures
            r@ == self.uuid_bytes(),
    {
        &self.uuid
    }

    pub fn remote_address(&self) -> (r: &Vec<u8>)
        ensures
            r@ == self.remote_address_bytes(),
    {
        &self.remote_address
    }

    pub fn register_publisher(&mut self, id: u32, key_expr: Vec<u8>)
        requires
            old(self).wf(),
        ensures
            final(self).wf(),
            final(self).publishers_map() == old(self).publishers_map().insert(id, key_expr@),
            same_except(*final(self), *old(self), AdminEntity::Publisher),
    {
        self.publishers.remove(id);
        self.publishers.insert(id, key_expr);
        proof {
            assert(self.publishers_map() =~= old(self).publishers_map().insert(
                id,
                self.publishers_map()[id],
            ));
        }
    }

    pub fn register_subscriber(&mut self, id: u32, key_expr: Vec<u8>)
        requires
            old(self).wf(),
        ensures
            final(self).wf(),
            final(self).subscribers_map() == old(self).subscribers_map().insert(id, key_expr@),
            same_except(*final(self), *old(self), AdminEntity::Subscriber),
    {
        self.subscribers.remove(id);
        self.subscribers.insert(id, key_expr);
        proof {
            assert(self.subscribers_map() =~= old(self).subscribers_map().insert(
                id,
                self.subscribers_map()[id],
            ));
        }
    }

    pub fn register_queryable(&mut self, id: u32, key_expr: Vec<u8>)
        requires
            old(self).wf(),
        ensures
            final(self).wf(),
            final(self).queryables_map() == old(self).queryables_map().insert(id, key_expr@),
            same_except(*final(self), *old(self), AdminEntity::Queryable),
    {
        self.queryables.remove(id);
        self.queryables.insert(id, key_expr);
        proof {
            assert(self.queryables_map() =~= old(self).queryables_map().insert(
                id,
                self.queryables_map()[id],
            ));
        }
    }

    pub fn register_querier(&mut self, id: u32, key_expr: Vec<u8>)
        requires
            old(self).wf(),
        ensures
            final(self).wf(),
            final(self).queriers_map() == old(self).queriers_map().insert(id, key_expr@),
            same_except(*final(self), *old(self), AdminEntity::Querier),
    {
        self.queriers.remove(id);
        self.queriers.insert(id, key_expr);
        proof {
            assert(self.queriers_map() =~= old(self).queriers_map().insert(
                id,
                self.queriers_map()[id],
            ));
        }
    }

    pub fn register_liveliness_token(&mut self, id: u32, key_expr: Vec<u8>)
        requires
            old(self).wf(),
        ensures
            final(self).wf(),
            final(self).liveliness_tokens_map() == old(self).liveliness_tokens_map().insert(
                id,
                key_expr@,
            ),
            same_except(*final(self), *old(self), AdminEntity::LivelinessToken),
    {
        self.liveliness_tokens.remove(id);
        self.liveliness_tokens.insert(id, key_expr);
        proof {
            assert(self.liveliness_tokens_map() =~= old(self).liveliness_tokens_map().insert(
                id,
                self.liveliness_tokens_map()[id],
            ));
        }
    }

    pub fn unregister_publisher(&mut self, id: u32)
        requires
            old(self).wf(),
        ensures
            final(self).wf(),
            final(self).publishers_map() == old(self).publishers_map().remove(id),
            same_except(*final(self), *old(self), AdminEntity::Publisher),
    {
        self.publishers.remove(id);
    }

    pub fn unregister_subscriber(&mut self, id: u32)
        requires
            old(self).wf(),
        ensures
            final(self).wf(),
            final(self).subscribers_map() == old(self).subscribers_map().remove(id),
            same_except(*final(self), *old(self), AdminEntity::Subscriber),
    {
        self.subscribers.remove(id);
    }

    pub fn unregister_queryable(&mut self, id: u32)
        requires
            old(self).wf(),
        ensures
            final(self).wf(),
            final(self).queryables_map() == old(self).queryables_map().remove(id),
            same_except(*final(self), *old(self), AdminEntity::Queryable),
    {
        self.queryables.remove(id);
    }

    pub fn unregister_querier(&mut self, id: u32)
        requires
            old(self).wf(),
        ensures
            final(self).wf(),
            final(self).queriers_map() == old(self).queriers_map().remove(id),
            same_except(*final(self), *old(self), AdminEntity::Querier),
    {
        self.queriers.remove(id);
    }

    pub fn unregister_liveliness_token(&mut self, id: u32)
        requires
            old(self).wf(),
        ensures
            final(self).wf(),
            final(self).liveliness_tokens_map() == old(self).liveliness_tokens_map().remove(id),
            same_except(*final(self), *old(self), AdminEntity::LivelinessToken),
    {
        self.liveliness_tokens.remove(id);
    }

    /// The declared publishers, by id and key expression, for snapshots.
    pub fn publishers(&self) -> (r: &Vec<(u32, Vec<u8>)>)
        requires
            self.wf(),
        ensures
            forall|j: int|
                0 <= j < r@.len() ==> self.publishers_map().contains_pair(
                    (#[trigger] r@[j]).0,
                    r@[j].1@,
                ),
    {
        self.publishers.items()
    }

    pub fn subscribers(&self) -> (r: &Vec<(u32, Vec<u8>)>)
        requires
            self.wf(),
        ensures
            forall|j: int|
                0 <= j < r@.len() ==> self.subscribers_map().contains_pair(
                    (#[trigger] r@[j]).0,
                    r@[j].1@,
                ),
    {
        self.subscribers.items()
    }

    pub fn queryables(&self) -> (r: &Vec<(u32, Vec<u8>)>)
        requires
            self.wf(),
        ensures
            forall|j: int|
                0 <= j < r@.len() ==> self.queryables_map().contains_pair(
                    (#[trigger] r@[j]).0,
                    r@[j].1@,
                ),
    {
        self.queryables.items()
    }

    pub fn queriers(&self) -> (r: &Vec<(u32, Vec<u8>)>)
        requires
            self.wf(),
        ensures
            forall|j: int|
                0 <= j < r@.len() ==> self.queriers_map().contains_pair(
                    (#[trigger] r@[j]).0,
                    r@[j].1@,
                ),
    {
        self.queriers.items()
    }

    pub fn liveliness_tokens(&self) -> (r: &Vec<(u32, Vec<u8>)>)
        requires
            self.wf(),
        ensures
            forall|j: int|
                0 <= j < r@.len() ==> self.liveliness_tokens_map().contains_pair(
                    (#[trigger] r@[j]).0,
                    r@[j].1@,
                ),
    {
        self.liveliness_tokens.items()
    }
}

/// The entity kinds the admin record reports.
#[derive(Clone, Copy, PartialEq, Eq, Structural, Debug)]
pub enum AdminEntity {
    Publisher,
    Subscriber,
    Queryable,
    Querier,
    LivelinessToken,
}

/// All parts of the record equal except the table of the given kind.
pub open spec fn same_except(a: AdminSpaceClient, b: AdminSpaceClient, kind: AdminEntity) -> bool {
    &&& a.uuid_bytes() == b.uuid_bytes()
    &&& a.remote_address_bytes() == b.remote_address_bytes()
    &&& (kind != AdminEntity::Publisher ==> a.publishers_map() == b.publishers_map())
    &&& (kind != AdminEntity::Subscriber ==> a.subscribers_map() == b.subscribers_map())
    &&& (kind != AdminEntity::Queryable ==> a.queryables_map() == b.queryables_map())
    &&& (kind != AdminEntity::Querier ==> a.queriers_map() == b.queriers_map())
    &&& (kind != AdminEntity::LivelinessToken ==> a.liveliness_tokens_map()
        == b.liveliness_tokens_map())
}

} // verus!
