//! One request-by-request walk through the service: create a user, fetch it,
//! remove it, fetch it again, with every step going through the route table,
//! the repository and the reply mapping.

use user_service::health::readiness;
use user_service::model::{CreateUserRequest, User};
use user_service::router::{resolve_route, Route};
use user_service::user_repository::UserRepository;
use user_service::user_routes::{create_user, delete_user, get_user, Body};

fn reply_user(body: Body) -> User {
    match body {
        Body::UserJson(u) => u,
        _ => panic!("expected a user body"),
    }
}

#[test]
fn create_fetch_delete_fetch() {
    let mut repo = UserRepository::new();

    // POST /users {"name":"Ada","email":"ada@example.com"}
    assert!(matches!(resolve_route("POST", "/users"), Some(Route::CreateUser)));
    let outcome = repo.create(CreateUserRequest {
        name: "Ada".to_owned(),
        email: "ada@example.com".to_owned(),
    });
    let reply = create_user(outcome);
    assert_eq!(reply.status, 200);
    let created = reply_user(reply.body);
    let id = created.id.clone().expect("the response carries a generated id");
    assert_eq!(created.name, "Ada");
    assert_eq!(created.email, "ada@example.com");
    assert!(created.created_at.is_some());

    // GET /users/{id} returns the identical document.
    let path = format!("/users/{}", id);
    let fetched_id = match resolve_route("GET", &path) {
        Some(Route::GetUser(route_id)) => route_id,
        _ => panic!("the item path must route to the fetch handler"),
    };
    assert_eq!(fetched_id, id);
    let reply = get_user(repo.find_by_id(&fetched_id));
    assert_eq!(reply.status, 200);
    let fetched = reply_user(reply.body);
    assert_eq!(fetched.id, created.id);
    assert_eq!(fetched.name, created.name);
    assert_eq!(fetched.email, created.email);
    assert_eq!(fetched.created_at, created.created_at);

    // DELETE /users/{id} answers with the fixed status object.
    let deleted_id = match resolve_route("DELETE", &path) {
        Some(Route::DeleteUser(route_id)) => route_id,
        _ => panic!("the item path must route to the removal handler"),
    };
    let reply = delete_user(repo.delete(&deleted_id));
    assert_eq!(reply.status, 200);
    match reply.body {
        Body::StatusMessage(m) => assert_eq!(m, "deleted"),
        _ => panic!("expected a status body"),
    }

    // GET /users/{id} now yields the fixed not-found error object.
    let reply = get_user(repo.find_by_id(&id));
    assert_eq!(reply.status, 200);
    match reply.body {
        Body::ErrorMessage(m) => assert_eq!(m, "User not found"),
        _ => panic!("expected an error body"),
    }

    // The health probes around the scenario.
    assert_eq!(readiness(true).status, 200);
    assert_eq!(readiness(false).status, 503);
}
