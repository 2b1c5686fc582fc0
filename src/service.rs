use vstd::prelude::*;
use vstd::string::StrSliceExecFns;

verus! {

/// The path of the one fixed endpoint.
pub const HELLO_PATH: &'static str = "/api/hello";

/// The method that the fixed endpoint answers.
pub const HELLO_METHOD: &'static str = "GET";

/// The directory, relative to the service's working directory, that every
/// other request is served from. The build hook's frontend build writes it.
pub const STATIC_DIR: &'static str = "./dist";

/// The listen address used when none is given on the command line.
pub const DEFAULT_BIND_ADDRESS: &'static str = "127.0.0.1:3000";

/// Where a request goes.
#[derive(Clone, Copy, Debug, PartialEq, Eq, Structural)]
pub enum Route {
    /// The fixed hello handler.
    Hello,
    /// A file of the static output directory, or not found.
    Static,
}

/// The routing table: `GET /api/hello` reaches the hello handler, every
/// other method and path the static output directory.
pub open spec fn route_of(method: Seq<char>, path: Seq<char>) -> Route {
    if method == "GET"@ && path == "/api/hello"@ {
        Route::Hello
    } else {
        Route::Static
    }
}

/// Whether two strings hold the same characters.
pub fn same_text(a: &str, b: &str) -> (r: bool)
    ensures
        r == (a@ == b@),
{
    let n = a.unicode_len();
    if n != b.unicode_len() {
        return false;
    }
    let mut i: usize = 0;
    while i < n
        invariant
            n == a@.len(),
            n == b@.len(),
            i <= n,
            a@.subrange(0, i as int) == b@.subrange(0, i as int),
        decreases n - i,
    {
        if a.get_char(i) != b.get_char(i) {
            assert(a@[i as int] != b@[i as int]);
            return false;
        }
        assert(a@.subrange(0, i + 1) == a@.subrange(0, i as int).push(a@[i as int]));
        assert(b@.subrange(0, i + 1) == b@.subrange(0, i as int).push(b@[i as int]));
        i = i + 1;
    }
    assert(a@ == a@.subrange(0, n as int));
    assert(b@ == b@.subrange(0, n as int));
    true
}

/// Picks the route of a request from its method and path; nothing else of
/// the request is consulted.
pub fn route(method: &str, path: &str) -> (r: Route)
    ensures
        r == route_of(method@, path@),
{
    if same_text(method, HELLO_METHOD) && same_text(path, HELLO_PATH) {
        Route::Hello
    } else {
        Route::Static
    }
}

/// Every path other than the hello endpoint's is served from the static
/// output directory, whatever the method.
pub proof fn lemma_other_paths_are_static(method: Seq<char>, path: Seq<char>)
    requires
        path != "/api/hello"@,
    ensures
        route_of(method, path) == Route::Static,
{
}

} // verus!
