use hello_api::{dispatch, hello_with_name, hello_world, lookup, routes, Handler, MyQueryParams, Response, Status};

fn ok(body: &str) -> Response {
    Response { status: Status::Success, body: body.to_string() }
}

#[test]
fn greets_ada() {
    let response = dispatch("/hello-with-name", Some("name=Ada"));
    assert_eq!(response.status.code(), 200);
    assert_eq!(response.body, "Hello, Ada!");
}

#[test]
fn missing_query_is_a_bad_request() {
    let response = dispatch("/hello-with-name", None);
    assert_eq!(response.status, Status::BadRequest);
    assert_eq!(response.status.code(), 400);
    assert!(!response.body.starts_with("Hello, "));
    assert_eq!(response.body, "Failed to deserialize query string: missing field `name`");
}

#[test]
fn unknown_path_is_not_found() {
    let response = dispatch("/does-not-exist", None);
    assert_eq!(response.status, Status::NotFound);
    assert_eq!(response.status.code(), 404);
    assert_eq!(response.body, "");
}

#[test]
fn hello_world_is_fixed() {
    assert_eq!(hello_world(), "Hello world");
    assert_eq!(dispatch("/hello-world", None), ok("Hello world"));
}

#[test]
fn hello_world_ignores_the_query() {
    assert_eq!(dispatch("/hello-world", Some("name=Ada")), ok("Hello world"));
    assert_eq!(dispatch("/hello-world", Some("a=1&b=2&a=3")), ok("Hello world"));
    assert_eq!(dispatch("/hello-world", Some("")), ok("Hello world"));
    assert_eq!(dispatch("/hello-world", Some("name=a&name=b")), ok("Hello world"));
}

#[test]
fn handler_greets_any_text_verbatim() {
    let names = ["Ada", "", " ", "<b>Ada</b>", "a&b=c", "Zoë", "名前", "Hello, x!", "%41"];
    for name in names {
        let body = hello_with_name(MyQueryParams { name: name.to_string() });
        assert_eq!(body, format!("Hello, {}!", name));
    }
}

#[test]
fn empty_name_is_greeted() {
    assert_eq!(dispatch("/hello-with-name", Some("name=")), ok("Hello, !"));
    assert_eq!(dispatch("/hello-with-name", Some("name")), ok("Hello, !"));
}

#[test]
fn name_is_percent_decoded() {
    assert_eq!(
        dispatch("/hello-with-name", Some("name=Ada%20Lovelace")),
        ok("Hello, Ada Lovelace!")
    );
    assert_eq!(dispatch("/hello-with-name", Some("name=Ada+Lovelace")), ok("Hello, Ada Lovelace!"));
    assert_eq!(dispatch("/hello-with-name", Some("name=Zo%C3%AB")), ok("Hello, Zoë!"));
    assert_eq!(dispatch("/hello-with-name", Some("name=a%26b%3Dc")), ok("Hello, a&b=c!"));
    assert_eq!(dispatch("/hello-with-name", Some("%6Eame=Ada")), ok("Hello, Ada!"));
}

#[test]
fn name_is_not_escaped() {
    assert_eq!(
        dispatch("/hello-with-name", Some("name=%3Cb%3EAda%3C%2Fb%3E")),
        ok("Hello, <b>Ada</b>!")
    );
}

#[test]
fn other_keys_are_ignored() {
    assert_eq!(dispatch("/hello-with-name", Some("x=1&name=Bo&y=2")), ok("Hello, Bo!"));
    assert_eq!(dispatch("/hello-with-name", Some("&&name=Bo&")), ok("Hello, Bo!"));
}

#[test]
fn query_without_name_is_a_bad_request() {
    for query in ["", "x=1", "Name=Ada", "nam=Ada", "names=Ada", "=Ada", "x=name"] {
        let response = dispatch("/hello-with-name", Some(query));
        assert_eq!(response.status, Status::BadRequest);
        assert_eq!(response.body, "Failed to deserialize query string: missing field `name`");
    }
}

#[test]
fn repeated_name_is_a_bad_request() {
    for query in ["name=a&name=b", "name=a&x=1&name=a", "name&name", "name=a&name=b&name=c"] {
        let response = dispatch("/hello-with-name", Some(query));
        assert_eq!(response.status.code(), 400);
        assert_eq!(response.body, "Failed to deserialize query string: duplicate field `name`");
    }
}

#[test]
fn paths_match_exactly() {
    for path in ["", "/", "/hello-world/", "/hello-World", "hello-world", "/hello-with-name/x", "/hello", "/hello-world?x", "/api-docs/openapi.json", "/swagger-ui"] {
        assert_eq!(lookup(path), None);
        assert_eq!(dispatch(path, Some("name=Ada")).status, Status::NotFound);
    }
    assert_eq!(lookup("/hello-world"), Some(Handler::HelloWorld));
    assert_eq!(lookup("/hello-with-name"), Some(Handler::HelloWithName));
}

#[test]
fn registry_lists_both_routes_in_order() {
    let table = routes();
    assert_eq!(table.len(), 2);
    assert_eq!(table[0].path, "/hello-world");
    assert_eq!(table[0].handler, Handler::HelloWorld);
    assert_eq!(table[1].path, "/hello-with-name");
    assert_eq!(table[1].handler, Handler::HelloWithName);
    for route in table {
        assert_eq!(route.handler.path(), route.path);
        assert_eq!(lookup(route.path), Some(route.handler));
    }
}

#[test]
fn handlers_respond_as_dispatch_does() {
    assert_eq!(Handler::HelloWorld.respond(Some("name=Ada")), ok("Hello world"));
    assert_eq!(Handler::HelloWithName.respond(Some("name=Ada")), ok("Hello, Ada!"));
    assert_eq!(Handler::HelloWithName.respond(None).status, Status::BadRequest);
}

#[test]
fn status_codes() {
    assert_eq!(Status::Success.code(), 200);
    assert_eq!(Status::BadRequest.code(), 400);
    assert_eq!(Status::NotFound.code(), 404);
}

#[test]
fn handler_declarations() {
    assert_eq!(Handler::HelloWorld.operation_id(), "hello_world");
    assert_eq!(Handler::HelloWithName.operation_id(), "hello_with_name");
    assert_eq!(Handler::HelloWorld.parameters(), Vec::<&str>::new());
    assert_eq!(Handler::HelloWithName.parameters(), vec!["name"]);
}
