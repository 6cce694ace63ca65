use crate::http::error::HttpError;
use crate::http::method::Method;
use crate::http::request::Request;
use crate::http::response::{Body, Response};
use std::collections::HashMap;
use vstd::prelude::*;
use vstd::string::*;
use vstd::utf8::*;

verus! {

/// What handles the requests for one method and path.
pub trait RequestHandler: Send + Sync {
    /// True when `outcome` is an answer that this handler may give to
    /// `request`. A handler that says nothing of its answers admits them all.
    open spec fn admits(
        &self,
        request: Request,
        outcome: Result<Response<Box<dyn Body>>, HttpError>,
    ) -> bool {
        true
    }

    /// Handles a request: produces the response, or the error that is to be
    /// reported in its place.
    fn handle(&self, request: Request) -> (outcome: Result<Response<Box<dyn Body>>, HttpError>)
        ensures
            self.admits(request, outcome),
    ;
}

impl RequestHandler for Box<dyn RequestHandler> {
    /// A boxed handler admits the answers of the handler in the box.
    open spec fn admits(
        &self,
        request: Request,
        outcome: Result<Response<Box<dyn Body>>, HttpError>,
    ) -> bool {
        (**self).admits(request, outcome)
    }

    /// Hands the request to the handler in the box and returns its answer.
    fn handle(&self, request: Request) -> (outcome: Result<Response<Box<dyn Body>>, HttpError>) {
        (**self).handle(request)
    }
}

/// The key by which requests are routed: a method and a path. Paths are
/// compared as they stand, character by character.
#[derive(Debug, PartialEq, Eq, Hash)]
pub struct RequestIdentifier {
    /// The method of the request.
    pub method: Method,
    /// The path of the request.
    pub path: String,
}

/// The model of a [`RequestIdentifier`].
pub struct RouteKey {
    pub method: Method,
    pub path: Seq<char>,
}

impl View for RequestIdentifier {
    type V = RouteKey;

    open spec fn view(&self) -> RouteKey {
        RouteKey { method: self.method, path: self.path@ }
    }
}

impl Clone for RequestIdentifier {
    fn clone(&self) -> (r: RequestIdentifier)
        ensures
            r@ == self@,
    {
        RequestIdentifier { method: self.method, path: self.path.clone() }
    }
}

/// One step of the FNV-1a hash: the byte is mixed into the state.
pub open spec fn mix(state: u64, byte: u8) -> u64 {
    (state ^ (byte as u64)).wrapping_mul(0x0000_0100_0000_01b3)
}

/// The state after the bytes were mixed in, one by one.
pub open spec fn mix_all(state: u64, bytes: Seq<u8>) -> u64
    decreases bytes.len(),
{
    if bytes.len() == 0 {
        state
    } else {
        mix(mix_all(state, bytes.drop_last()), bytes.last())
    }
}

/// The number that stands for a method in the hash of a key.
pub open spec fn method_code(method: Method) -> u8 {
    match method {
        Method::Get => 0,
        Method::Head => 1,
        Method::Post => 2,
        Method::Put => 3,
        Method::Delete => 4,
        Method::Connect => 5,
        Method::Options => 6,
        Method::Trace => 7,
        Method::Patch => 8,
    }
}

/// The hash of a key: the FNV-1a hash of the method's code followed by the
/// bytes of the path.
pub open spec fn hash_of(key: RouteKey) -> u64 {
    mix_all(mix(0xcbf2_9ce4_8422_2325, method_code(key.method)), encode_utf8(key.path))
}

impl RequestIdentifier {
    /// Tells whether two identifiers name the same method and path.
    pub fn same(&self, other: &RequestIdentifier) -> (r: bool)
        ensures
            r == (self@ == other@),
    {
        self.method == other.method && self.path == other.path
    }

    /// Computes the hash under which the identifier is filed.
    pub fn hash_code(&self) -> (h: u64)
        ensures
            h == hash_of(self@),
    {
        let code: u8 = match self.method {
            Method::Get => 0,
            Method::Head => 1,
            Method::Post => 2,
            Method::Put => 3,
            Method::Delete => 4,
            Method::Connect => 5,
            Method::Options => 6,
            Method::Trace => 7,
            Method::Patch => 8,
        };
        let bytes = self.path.as_str().as_bytes();
        let mut h: u64 = (0xcbf2_9ce4_8422_2325u64 ^ (code as u64)).wrapping_mul(
            0x0000_0100_0000_01b3,
        );
        let mut i: usize = 0;
        proof {
            assert(bytes@.take(0) =~= Seq::<u8>::empty());
        }
        while i < bytes.len()
            invariant
                i <= bytes.len(),
                h == mix_all(mix(0xcbf2_9ce4_8422_2325, code), bytes@.take(i as int)),
            decreases bytes.len() - i,
        {
            proof {
                assert(bytes@.take(i + 1).drop_last() =~= bytes@.take(i as int));
            }
            h = (h ^ (bytes[i] as u64)).wrapping_mul(0x0000_0100_0000_01b3);
            i += 1;
        }
        proof {
            assert(bytes@.take(i as int) =~= bytes@);
        }
        h
    }
}

/// The table that a list of routes amounts to. A route that comes later in
/// the list takes the place of an earlier one for the same method and path.
pub open spec fn table_of<H>(routes: Seq<(RequestIdentifier, H)>) -> Map<RouteKey, H>
    decreases routes.len(),
{
    if routes.len() == 0 {
        Map::empty()
    } else {
        table_of(routes.drop_last()).insert(routes.last().0@, routes.last().1)
    }
}

/// The table holds a key exactly when some route was registered for it.
proof fn lemma_table_holds<H>(routes: Seq<(RequestIdentifier, H)>, key: RouteKey)
    ensures
        table_of(routes).contains_key(key) <==> exists|i: int|
            0 <= i < routes.len() && (#[trigger] routes[i]).0@ == key,
    decreases routes.len(),
{
    if routes.len() > 0 {
        let earlier = routes.drop_last();
        let n = routes.len() - 1;
        lemma_table_holds(earlier, key);
        if routes[n].0@ == key {
        } else if table_of(earlier).contains_key(key) {
            let i = choose|i: int| 0 <= i < earlier.len() && (#[trigger] earlier[i]).0@ == key;
            assert(routes[i] == earlier[i]);
        } else {
            assert forall|i: int| 0 <= i < routes.len() implies (#[trigger] routes[i]).0@
                != key by {
                if i < n {
                    assert(earlier[i] == routes[i]);
                }
            }
        }
    }
}

/// The handler of a key is that of the last route registered for it.
proof fn lemma_table_last<H>(routes: Seq<(RequestIdentifier, H)>, key: RouteKey, i: int)
    requires
        0 <= i < routes.len(),
        routes[i].0@ == key,
        forall|j: int| i < j < routes.len() ==> (#[trigger] routes[j]).0@ != key,
    ensures
        table_of(routes).contains_key(key),
        table_of(routes)[key] == routes[i].1,
    decreases routes.len(),
{
    let earlier = routes.drop_last();
    let n = routes.len() - 1;
    if i < n {
        assert(routes[n].0@ != key);
        assert(earlier[i] == routes[i]);
        assert forall|j: int| i < j < earlier.len() implies (#[trigger] earlier[j]).0@ != key by {
            assert(earlier[j] == routes[j]);
        }
        lemma_table_last(earlier, key, i);
    }
}

/// Exact routing. The table holds a handler for a key exactly when that very
/// key was registered: the same method and the same path, character for
/// character. The handler is that of the last registration for the key.
pub proof fn law_exact_routing<H>(routes: Seq<(RequestIdentifier, H)>, key: RouteKey)
    ensures
        table_of(routes).contains_key(key) <==> exists|i: int|
            0 <= i < routes.len() && (#[trigger] routes[i]).0@ == key,
        forall|i: int|
            0 <= i < routes.len() && (#[trigger] routes[i]).0@ == key && (forall|j: int|
                i < j < routes.len() ==> (#[trigger] routes[j]).0@ != key) ==> table_of(routes)[key]
                == routes[i].1,
{
    lemma_table_holds(routes, key);
    assert forall|i: int|
        0 <= i < routes.len() && (#[trigger] routes[i]).0@ == key && (forall|j: int|
            i < j < routes.len() ==> (#[trigger] routes[j]).0@ != key) implies table_of(
        routes,
    )[key] == routes[i].1 by {
        lemma_table_last(routes, key, i);
    }
}

/// True when `index` files the first `upto` routes by the hash of their keys:
/// each bucket holds, in rising order, the places of the routes with that
/// hash, and every route is in its bucket.
spec fn indexed<H>(
    routes: Seq<(RequestIdentifier, H)>,
    index: Map<u64, Vec<usize>>,
    upto: int,
) -> bool {
    &&& forall|h: u64, j: int|
        #![trigger index[h]@[j]]
        index.contains_key(h) && 0 <= j < index[h]@.len() ==> index[h]@[j] < upto && hash_of(
            routes[index[h]@[j] as int].0@,
        ) == h
    &&& forall|h: u64, j: int, k: int|
        #![trigger index[h]@[j], index[h]@[k]]
        index.contains_key(h) && 0 <= j < k < index[h]@.len() ==> index[h]@[j] < index[h]@[k]
    &&& forall|p: int|
        #![trigger routes[p]]
        0 <= p < upto ==> index.contains_key(hash_of(routes[p].0@)) && exists|j: int|
            0 <= j < index[hash_of(routes[p].0@)]@.len() && #[trigger] index[hash_of(
                routes[p].0@,
            )]@[j] == p
}

/// The routing table: which handler serves which method and path. It is built
/// once and only read afterwards. Where the same method and path were
/// registered more than once, the last registration is the one that counts.
///
/// The routes are filed by the hash of their key, so that a lookup looks only
/// at the routes whose key has the hash of the key that is asked for.
pub struct Router<H = Box<dyn RequestHandler>> {
    inner: Vec<(RequestIdentifier, H)>,
    index: HashMap<u64, Vec<usize>>,
}

impl<H> Router<H> {
    #[verifier::type_invariant]
    spec fn well_formed(self) -> bool {
        indexed(self.inner@, self.index@, self.inner@.len() as int)
    }

    /// The table: the handler of each method and path that has one.
    pub closed spec fn routes(&self) -> Map<RouteKey, H> {
        table_of(self.inner@)
    }

    /// Builds the routing table from a list of routes.
    pub fn from_routes(routes: Vec<(RequestIdentifier, H)>) -> (router: Self)
        ensures
            router.routes() == table_of(routes@),
    {
        broadcast use vstd::std_specs::hash::group_hash_axioms;

        let mut index: HashMap<u64, Vec<usize>> = HashMap::new();
        let mut p: usize = 0;
        while p < routes.len()
            invariant
                p <= routes.len(),
                indexed(routes@, index@, p as int),
            decreases routes.len() - p,
        {
            let h = routes[p].0.hash_code();
            let ghost before = index@;
            let mut bucket = match index.remove(&h) {
                Some(bucket) => bucket,
                None => Vec::new(),
            };
            let ghost old_bucket = bucket@;
            bucket.push(p);
            let ghost new_bucket = bucket@;
            index.insert(h, bucket);
            proof {
                assert forall|g: u64, j: int|
                    #![trigger index@[g]@[j]]
                    index@.contains_key(g) && 0 <= j < index@[g]@.len() implies index@[g]@[j] < p
                    + 1 && hash_of(routes@[index@[g]@[j] as int].0@) == g by {
                    if g == h {
                        if j < old_bucket.len() {
                            assert(before[h]@[j] == new_bucket[j]);
                        }
                    } else {
                        assert(before[g]@[j] == index@[g]@[j]);
                    }
                }
                assert forall|g: u64, j: int, k: int|
                    #![trigger index@[g]@[j], index@[g]@[k]]
                    index@.contains_key(g) && 0 <= j < k < index@[g]@.len() implies index@[g]@[j]
                    < index@[g]@[k] by {
                    if g == h {
                        if k < old_bucket.len() {
                            assert(before[h]@[j] < before[h]@[k]);
                        } else {
                            assert(before[h]@[j] == new_bucket[j]);
                        }
                    } else {
                        assert(before[g]@[j] < before[g]@[k]);
                    }
                }
                assert forall|q: int| #![trigger routes@[q]] 0 <= q < p + 1 implies index@.contains_key(
                    hash_of(routes@[q].0@),
                ) && exists|j: int|
                    0 <= j < index@[hash_of(routes@[q].0@)]@.len() && #[trigger] index@[hash_of(
                        routes@[q].0@,
                    )]@[j] == q by {
                    let g = hash_of(routes@[q].0@);
                    if q == p {
                        assert(index@[g]@[old_bucket.len() as int] == p);
                    } else {
                        let j = choose|j: int|
                            0 <= j < before[g]@.len() && #[trigger] before[g]@[j] == q;
                        if g == h {
                            assert(new_bucket[j] == before[h]@[j]);
                            assert(index@[g]@[j] == q);
                        } else {
                            assert(index@[g]@[j] == q);
                        }
                    }
                }
            }
            p += 1;
        }
        Router { inner: routes, index }
    }

    /// Returns the handler registered for `identifier`, if there is one. Only
    /// an exact match of method and path counts.
    #[must_use]
    pub fn select(&self, identifier: &RequestIdentifier) -> (r: Option<&H>)
        ensures
            match r {
                Some(handler) => self.routes().contains_key(identifier@) && *handler
                    == self.routes()[identifier@],
                None => !self.routes().contains_key(identifier@),
            },
    {
        broadcast use vstd::std_specs::hash::group_hash_axioms;

        proof {
            use_type_invariant(self);
        }
        let h = identifier.hash_code();
        match self.index.get(&h) {
            None => {
                proof {
                    lemma_bucket_misses(self.inner@, self.index@, identifier@);
                }
                None
            },
            Some(bucket) => {
                let mut j: usize = bucket.len();
                while j > 0
                    invariant
                        j <= bucket.len(),
                        h == hash_of(identifier@),
                        self.index@.contains_key(h),
                        bucket == self.index@[h],
                        indexed(self.inner@, self.index@, self.inner@.len() as int),
                        forall|k: int|
                            j <= k < bucket@.len() ==> self.inner@[(#[trigger] bucket@[k]) as int].0@
                                != identifier@,
                    decreases j,
                {
                    j -= 1;
                    let p = bucket[j];
                    assert(self.index@[h]@[j as int] == p);
                    if self.inner[p].0.same(identifier) {
                        proof {
                            lemma_bucket_decides(self.inner@, self.index@, identifier@, j as int);
                        }
                        return Some(&self.inner[p].1);
                    }
                }
                proof {
                    lemma_bucket_misses(self.inner@, self.index@, identifier@);
                }
                None
            },
        }
    }
}

/// A key that matches no route in the bucket of its hash has no route at all.
proof fn lemma_bucket_misses<H>(
    routes: Seq<(RequestIdentifier, H)>,
    index: Map<u64, Vec<usize>>,
    key: RouteKey,
)
    requires
        indexed(routes, index, routes.len() as int),
        index.contains_key(hash_of(key)) ==> forall|k: int|
            0 <= k < index[hash_of(key)]@.len() ==> routes[(#[trigger] index[hash_of(
                key,
            )]@[k]) as int].0@ != key,
    ensures
        !table_of(routes).contains_key(key),
{
    law_exact_routing(routes, key);
    if table_of(routes).contains_key(key) {
        let i = choose|i: int| 0 <= i < routes.len() && (#[trigger] routes[i]).0@ == key;
        let h = hash_of(routes[i].0@);
        assert(index.contains_key(h));
        let k = choose|k: int| 0 <= k < index[h]@.len() && #[trigger] index[h]@[k] == i;
        assert(routes[index[h]@[k] as int].0@ != key);
    }
}

/// The last route in the bucket that matches a key is the route of the key.
proof fn lemma_bucket_decides<H>(
    routes: Seq<(RequestIdentifier, H)>,
    index: Map<u64, Vec<usize>>,
    key: RouteKey,
    j: int,
)
    requires
        indexed(routes, index, routes.len() as int),
        index.contains_key(hash_of(key)),
        0 <= j < index[hash_of(key)]@.len(),
        routes[index[hash_of(key)]@[j] as int].0@ == key,
        forall|k: int|
            j < k < index[hash_of(key)]@.len() ==> routes[(#[trigger] index[hash_of(
                key,
            )]@[k]) as int].0@ != key,
    ensures
        table_of(routes).contains_key(key),
        table_of(routes)[key] == routes[index[hash_of(key)]@[j] as int].1,
{
    let h = hash_of(key);
    let bucket = index[h]@;
    let p = bucket[j] as int;
    assert(index[h]@[j] < routes.len());
    assert forall|i: int| p < i < routes.len() implies (#[trigger] routes[i]).0@ != key by {
        if routes[i].0@ == key {
            let k = choose|k: int| 0 <= k < index[h]@.len() && #[trigger] index[h]@[k] == i;
            if k < j {
                assert(index[h]@[k] < index[h]@[j]);
            } else if k > j {
                assert(routes[index[h]@[k] as int].0@ != key);
            }
        }
    }
    assert(routes[p].0@ == key);
    law_exact_routing(routes, key);
}

} // verus!
