//! The route table: which method and path reach which handler. Item routes
//! carry one non-empty path segment, the user identifier text, after the
//! collection prefix.

use vstd::prelude::*;
use vstd::string::StrSliceExecFns;

verus! {

broadcast use vstd::string::group_string_axioms;

/// A resolved route; item routes carry the extracted identifier text.
pub enum Route {
    HealthLive,
    HealthReady,
    CreateUser,
    ListUsers,
    GetUser(String),
    UpdateUser(String),
    DeleteUser(String),
}

/// Mathematical model of a resolved route.
pub enum RouteView {
    HealthLive,
    HealthReady,
    CreateUser,
    ListUsers,
    GetUser(Seq<char>),
    UpdateUser(Seq<char>),
    DeleteUser(Seq<char>),
}

impl DeepView for Route {
    type V = RouteView;

    open spec fn deep_view(&self) -> RouteView {
        match self {
            Route::HealthLive => RouteView::HealthLive,
            Route::HealthReady => RouteView::HealthReady,
            Route::CreateUser => RouteView::CreateUser,
            Route::ListUsers => RouteView::ListUsers,
            Route::GetUser(id) => RouteView::GetUser(id@),
            Route::UpdateUser(id) => RouteView::UpdateUser(id@),
            Route::DeleteUser(id) => RouteView::DeleteUser(id@),
        }
    }
}

/// A path addressing one user: the collection prefix followed by one
/// non-empty segment, which holds no further separator.
pub open spec fn is_user_item_path(p: Seq<char>) -> bool {
    &&& p.len() > 7
    &&& p.subrange(0, 7) == "/users/"@
    &&& forall|i: int| 7 <= i < p.len() ==> p[i] != '/'
}

/// The identifier text an item path carries.
pub open spec fn user_item_id(p: Seq<char>) -> Seq<char> {
    p.subrange(7, p.len() as int)
}

/// The route table. Liveness and readiness under the health prefix; the
/// collection route for creation and listing; the item routes for fetch,
/// update and removal. Anything else resolves to nothing.
pub open spec fn spec_route(m: Seq<char>, p: Seq<char>) -> Option<RouteView> {
    if m == "GET"@ && p == "/health/live"@ {
        Some(RouteView::HealthLive)
    } else if m == "GET"@ && p == "/health/ready"@ {
        Some(RouteView::HealthReady)
    } else if m == "POST"@ && p == "/users"@ {
        Some(RouteView::CreateUser)
    } else if m == "GET"@ && p == "/users"@ {
        Some(RouteView::ListUsers)
    } else if m == "GET"@ && is_user_item_path(p) {
        Some(RouteView::GetUser(user_item_id(p)))
    } else if m == "PUT"@ && is_user_item_path(p) {
        Some(RouteView::UpdateUser(user_item_id(p)))
    } else if m == "DELETE"@ && is_user_item_path(p) {
        Some(RouteView::DeleteUser(user_item_id(p)))
    } else {
        None
    }
}

/// Text equality of two string slices.
fn str_eq(a: &str, b: &str) -> (r: bool)
    ensures
        r == (a@ == b@),
{
    let a_owned: String = a.to_owned();
    let b_owned: String = b.to_owned();
    a_owned == b_owned
}

/// The identifier text when the path addresses one user, nothing otherwise.
fn parse_user_item(path: &str) -> (r: Option<String>)
    ensures
        match r {
            Some(s) => is_user_item_path(path@) && s@ == user_item_id(path@),
            None => !is_user_item_path(path@),
        },
{
    let n = path.unicode_len();
    if n <= 7 {
        return None;
    }
    let head = path.substring_char(0, 7);
    if !str_eq(head, "/users/") {
        return None;
    }
    let mut i: usize = 7;
    while i < n
        invariant
            n == path@.len(),
            7 < n,
            7 <= i <= n,
            forall|j: int| 7 <= j < i ==> path@[j] != '/',
        decreases n - i,
    {
        let c = path.get_char(i);
        if c == '/' {
            return None;
        }
        i = i + 1;
    }
    let tail = path.substring_char(7, n);
    Some(tail.to_owned())
}

/// Facts that tell an item path apart from every fixed path of the table.
proof fn lemma_item_path_is_no_fixed_path(p: Seq<char>)
    requires
        is_user_item_path(p),
    ensures
        p != "/health/live"@,
        p != "/health/ready"@,
        p != "/users"@,
{
    reveal_strlit("/users/");
    reveal_strlit("/health/live");
    reveal_strlit("/health/ready");
    reveal_strlit("/users");
    assert(p.subrange(0, 7)[1] == p[1]);
    assert(p[1] == 'u');
    assert(("/health/live"@)[1] == 'h');
    assert(("/health/ready"@)[1] == 'h');
}

/// Resolve a request line against the route table.
pub fn resolve_route(method: &str, path: &str) -> (r: Option<Route>)
    ensures
        r.deep_view() == spec_route(method@, path@),
{
    proof {
        reveal_strlit("GET");
        reveal_strlit("POST");
        reveal_strlit("PUT");
        reveal_strlit("DELETE");
        reveal_strlit("/health/live");
        reveal_strlit("/health/ready");
        reveal_strlit("/users");
        assert("GET"@.len() == 3);
        assert("POST"@.len() == 4);
        assert("DELETE"@.len() == 6);
        assert("GET"@[0] == 'G');
        assert("PUT"@[0] == 'P');
        assert("GET"@ != "POST"@ && "GET"@ != "PUT"@ && "GET"@ != "DELETE"@);
        assert("POST"@ != "PUT"@ && "POST"@ != "DELETE"@ && "PUT"@ != "DELETE"@);
    }
    let item = parse_user_item(path);
    if str_eq(method, "GET") {
        if str_eq(path, "/health/live") {
            return Some(Route::HealthLive);
        }
        if str_eq(path, "/health/ready") {
            return Some(Route::HealthReady);
        }
        if str_eq(path, "/users") {
            return Some(Route::ListUsers);
        }
        match item {
            Some(id) => {
                proof {
                    lemma_item_path_is_no_fixed_path(path@);
                }
                return Some(Route::GetUser(id));
            },
            None => {
                return None;
            },
        }
    }
    if str_eq(method, "POST") {
        if str_eq(path, "/users") {
            return Some(Route::CreateUser);
        }
        return None;
    }
    if str_eq(method, "PUT") {
        match item {
            Some(id) => {
                return Some(Route::UpdateUser(id));
            },
            None => {
                return None;
            },
        }
    }
    if str_eq(method, "DELETE") {
        match item {
            Some(id) => {
                return Some(Route::DeleteUser(id));
            },
            None => {
                return None;
            },
        }
    }
    None
}

} // verus!
