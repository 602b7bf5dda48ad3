use std::sync::{Arc, Mutex};
use warv::handler::{Handler, HandlerType, Next, Stateful, Stateless};
use warv::http::{Method, Request, Response, StatusCode};
use warv::middleware::Middleware;
use warv::middlewares::LoggingMiddleware;
use warv::router::{resolve_static, RouteError, Router, Routing, StaticFile};
use warv::state::State;

fn request(method: Method, target: &str) -> Request {
    let mut req = Request::new(method);
    req.set_uri(target);
    req
}

fn response_of(out: Routing) -> Response {
    match out {
        Routing::Response(r) => r,
        other => panic!("no response: {:?}", other),
    }
}

fn text(body: &str) -> Response {
    let mut resp = Response::ok();
    resp.body(body.as_bytes().to_vec());
    resp
}

fn body_of(resp: &Response) -> String {
    String::from_utf8(resp.content().clone()).unwrap()
}

struct Tracer {
    name: &'static str,
    log: Arc<Mutex<Vec<String>>>,
    short_circuit: bool,
}

impl Middleware for Tracer {
    fn handle(&self, req: Request, state: State, next: Next) -> Response {
        self.log.lock().unwrap().push(format!("{}-before", self.name));
        let mut resp = if self.short_circuit {
            Response::no_content()
        } else {
            next.handle(req, state)
        };
        self.log.lock().unwrap().push(format!("{}-after", self.name));
        resp.insert_header(format!("X-{}", self.name), "seen".to_string());
        resp
    }
}

struct Fixed(&'static str);

impl Handler for Fixed {
    fn handle(&self, _req: Request, _state: State) -> Response {
        text(self.0)
    }
}

fn traced_router(log: &Arc<Mutex<Vec<String>>>, second_short_circuits: bool) -> Router {
    let mut router = Router::new();
    let handler_log = log.clone();
    router
        .add_stateless_route(Method::GET, "/", move |_req| {
            handler_log.lock().unwrap().push("H".to_string());
            Response::ok()
        })
        .unwrap();
    router.add_middleware(Tracer { name: "M1", log: log.clone(), short_circuit: false });
    router.add_middleware(Tracer {
        name: "M2",
        log: log.clone(),
        short_circuit: second_short_circuits,
    });
    router
}

#[test]
fn middlewares_wrap_in_registration_order() {
    let log = Arc::new(Mutex::new(Vec::new()));
    let router = traced_router(&log, false);
    let resp = response_of(router.handle_request(request(Method::GET, "/")));
    assert_eq!(*resp.status(), StatusCode::OK);
    assert_eq!(
        *log.lock().unwrap(),
        vec!["M1-before", "M2-before", "H", "M2-after", "M1-after"]
    );
    assert_eq!(resp.headers().name(0), "X-M2");
    assert_eq!(resp.headers().name(1), "X-M1");
}

#[test]
fn a_short_circuit_skips_the_handler_not_the_outer_middleware() {
    let log = Arc::new(Mutex::new(Vec::new()));
    let router = traced_router(&log, true);
    let resp = response_of(router.handle_request(request(Method::GET, "/")));
    assert_eq!(*resp.status(), StatusCode::NoContent);
    assert_eq!(*log.lock().unwrap(), vec!["M1-before", "M2-before", "M2-after", "M1-after"]);
    assert_eq!(resp.headers().get("X-M1"), Some(&"seen".to_string()));
    assert_eq!(resp.headers().get("X-M2"), Some(&"seen".to_string()));
}

#[test]
fn the_chain_is_built_for_every_request() {
    let log = Arc::new(Mutex::new(Vec::new()));
    let router = traced_router(&log, false);
    response_of(router.handle_request(request(Method::GET, "/")));
    response_of(router.handle_request(request(Method::GET, "/")));
    assert_eq!(log.lock().unwrap().len(), 10);
}

#[test]
fn a_matching_request_reaches_its_handler_with_the_parameters() {
    let mut router = Router::new();
    router
        .add_stateless_route(Method::GET, "/u/{user}/p/{post}", |req| {
            text(&format!(
                "{}|{}|{:?}|{:?}",
                req.uri().param("user").unwrap(),
                req.uri().param("post").unwrap(),
                req.uri().param("other"),
                req.uri().query("q"),
            ))
        })
        .unwrap();
    let resp = response_of(router.handle_request(request(Method::GET, "/u/ann/p/42?q=1")));
    assert_eq!(body_of(&resp), "ann|42|None|Some(\"1\")");
}

#[test]
fn the_first_registered_match_wins() {
    let mut router = Router::new();
    router.add_stateless_route(Method::GET, "/a/{id}", |_| text("first")).unwrap();
    router.add_stateless_route(Method::GET, "/a/b", |_| text("second")).unwrap();
    router.add_stateless_route(Method::GET, "/c", |_| text("third")).unwrap();
    assert_eq!(body_of(&response_of(router.handle_request(request(Method::GET, "/a/b")))), "first");
    assert_eq!(body_of(&response_of(router.handle_request(request(Method::GET, "/c")))), "third");
}

#[test]
fn routes_are_kept_by_method() {
    let mut router = Router::new();
    router.add_stateless_route(Method::GET, "/x", |_| text("get")).unwrap();
    router.add_stateless_route(Method::POST, "/x", |_| text("post")).unwrap();
    assert_eq!(body_of(&response_of(router.handle_request(request(Method::POST, "/x")))), "post");
    assert_eq!(body_of(&response_of(router.handle_request(request(Method::GET, "/x")))), "get");
    assert!(matches!(router.handle_request(request(Method::PUT, "/x")), Routing::Unhandled(_)));
}

#[test]
fn template_anchoring() {
    let mut router = Router::new();
    router.add_stateless_route(Method::GET, "/a/{id}", |_| text("hit")).unwrap();
    assert!(matches!(router.handle_request(request(Method::GET, "/a/1/b")), Routing::Unhandled(_)));
    assert!(matches!(router.handle_request(request(Method::GET, "/a")), Routing::Unhandled(_)));
    assert!(matches!(router.handle_request(request(Method::GET, "/a/1")), Routing::Response(_)));
}

#[test]
fn the_query_takes_no_part_in_the_match() {
    let mut router = Router::new();
    router.add_stateless_route(Method::GET, "/a", |_| text("hit")).unwrap();
    assert!(matches!(router.handle_request(request(Method::GET, "/a?x=/b")), Routing::Response(_)));
}

#[test]
fn an_invalid_template_fails_at_registration() {
    let mut router = Router::new();
    let err = router.add_stateless_route(Method::GET, "/a/(", |_| text("x")).unwrap_err();
    assert!(matches!(err, RouteError::InvalidPattern(ref t) if t == "/a/("));
    let err = router.add_stateful_route(Method::GET, "/{a}/{a}", |_, _| text("x")).unwrap_err();
    assert!(matches!(err, RouteError::InvalidPattern(ref t) if t == "/{a}/{a}"));
    let err = router.add_route(Method::GET, "[", Fixed("x")).unwrap_err();
    assert!(matches!(err, RouteError::InvalidPattern(ref t) if t == "["));
    assert!(matches!(router.handle_request(request(Method::GET, "/a/(")), Routing::Unhandled(_)));
}

#[test]
fn a_handler_of_any_type_can_be_registered() {
    let mut router = Router::new();
    router.add_route(Method::DELETE, "/thing/{id}", Fixed("gone")).unwrap();
    let resp = response_of(router.handle_request(request(Method::DELETE, "/thing/3")));
    assert_eq!(body_of(&resp), "gone");
}

#[test]
fn a_stateful_route_sees_the_shared_state() {
    let mut router = Router::new();
    router.set_state(Mutex::new(41u32));
    router
        .add_stateful_route(Method::POST, "/count", |_req, state: State| {
            let counter = state.inner::<Mutex<u32>>().unwrap();
            let mut n = counter.lock().unwrap();
            *n += 1;
            text(&n.to_string())
        })
        .unwrap();
    assert_eq!(body_of(&response_of(router.handle_request(request(Method::POST, "/count")))), "42");
    assert_eq!(body_of(&response_of(router.handle_request(request(Method::POST, "/count")))), "43");
}

#[test]
fn an_unrouted_request_comes_back_unchanged() {
    let router = Router::new();
    let mut req = request(Method::GET, "/nothing?x=1");
    req.insert_header("A", "b");
    req.body(b"payload".to_vec());
    match router.handle_request(req) {
        Routing::Unhandled(back) => {
            assert_eq!(back.uri().path(), "/nothing");
            assert_eq!(back.uri().query("x"), Some("1".to_string()));
            assert!(back.uri().pattern_params.is_none());
            assert_eq!(back.headers().get("A"), Some(&"b".to_string()));
            assert_eq!(back.body, b"payload".to_vec());
        },
        other => panic!("handled: {:?}", other),
    }
}

#[test]
fn the_default_handler_is_not_wrapped() {
    let log = Arc::new(Mutex::new(Vec::new()));
    let mut router = traced_router(&log, false);
    router.set_default_handler(Fixed("fallback"));
    let resp = response_of(router.handle_request(request(Method::GET, "/elsewhere")));
    assert_eq!(body_of(&resp), "fallback");
    assert_eq!(resp.headers().len(), 0);
    assert!(log.lock().unwrap().is_empty());
}

#[test]
fn the_static_root_is_tried_before_the_default_handler() {
    let mut router = Router::new();
    router.add_stateless_route(Method::GET, "/api", |_| text("api")).unwrap();
    router.set_static_dir("public".to_string());
    router.set_default_handler(Fixed("fallback"));
    assert_eq!(body_of(&response_of(router.handle_request(request(Method::GET, "/api")))), "api");
    match router.handle_request(request(Method::GET, "/css/site.css?v=2")) {
        Routing::NeedFile { path, request } => {
            assert_eq!(path, "public/css/site.css");
            assert_eq!(request.uri().path(), "/css/site.css");
            let served = response_of(router.serve_file(request, StaticFile::Content(b"body{}".to_vec())));
            assert_eq!(*served.status(), StatusCode::OK);
            assert_eq!(body_of(&served), "body{}");
            assert_eq!(served.headers().len(), 0);
        },
        other => panic!("no lookup: {:?}", other),
    }
}

#[test]
fn a_file_that_cannot_be_read_gives_500() {
    let mut router = Router::new();
    router.set_static_dir("public".to_string());
    router.set_default_handler(Fixed("fallback"));
    let resp = response_of(router.serve_file(request(Method::GET, "/x"), StaticFile::Unreadable));
    assert_eq!(*resp.status(), StatusCode::InternalServerError);
    assert!(resp.content().is_empty());
}

#[test]
fn a_missing_file_falls_to_the_default_handler() {
    let mut router = Router::new();
    router.set_static_dir("public".to_string());
    let out = router.serve_file(request(Method::GET, "/x"), StaticFile::Missing);
    assert!(matches!(out, Routing::Unhandled(ref back) if back.uri().path() == "/x"));
    router.set_default_handler(Fixed("fallback"));
    let resp = response_of(router.serve_file(request(Method::GET, "/x"), StaticFile::Missing));
    assert_eq!(body_of(&resp), "fallback");
}

#[test]
fn static_paths_resolve_under_the_root() {
    assert_eq!(resolve_static("public", "/a/b.txt"), Some("public/a/b.txt".to_string()));
    assert_eq!(resolve_static("public/", "/a/b.txt"), Some("public/a/b.txt".to_string()));
    assert_eq!(resolve_static("public", "///a"), Some("public/a".to_string()));
    assert_eq!(resolve_static("public", "a"), Some("public/a".to_string()));
    assert_eq!(resolve_static("public", "/"), Some("public/".to_string()));
    assert_eq!(resolve_static("public", ""), Some("public/".to_string()));
    assert_eq!(resolve_static("", "/a"), Some("a".to_string()));
    assert_eq!(resolve_static("/srv/www", "/a/./b"), Some("/srv/www/a/./b".to_string()));
    assert_eq!(resolve_static("public", "/a..b/..c/d.."), Some("public/a..b/..c/d..".to_string()));
}

#[test]
fn static_paths_cannot_climb() {
    assert_eq!(resolve_static("public", "/../secret"), None);
    assert_eq!(resolve_static("public", "/a/../../secret"), None);
    assert_eq!(resolve_static("public", "/a/.."), None);
    assert_eq!(resolve_static("public", ".."), None);
    assert_eq!(resolve_static("public", "//../x"), None);
    let mut router = Router::new();
    router.set_static_dir("public".to_string());
    assert!(matches!(
        router.handle_request(request(Method::GET, "/../etc/passwd")),
        Routing::Unhandled(_)
    ));
    router.set_default_handler(Fixed("fallback"));
    let resp = response_of(router.handle_request(request(Method::GET, "/../etc/passwd")));
    assert_eq!(body_of(&resp), "fallback");
}

#[test]
fn the_logging_middleware_passes_everything_through() {
    let mut router = Router::new();
    router
        .add_stateless_route(Method::PUT, "/echo/{word}", |req| {
            let mut resp = text(&req.uri().param("word").unwrap());
            resp.insert_header("Seen".to_string(), req.headers().get("H").unwrap().clone());
            resp
        })
        .unwrap();
    router.add_middleware(LoggingMiddleware::new());
    router.add_middleware(LoggingMiddleware {});
    let mut req = request(Method::PUT, "/echo/hey");
    req.insert_header("H", "v");
    let resp = response_of(router.handle_request(req));
    assert_eq!(body_of(&resp), "hey");
    assert_eq!(resp.headers().get("Seen"), Some(&"v".to_string()));
    assert_eq!(resp.headers().len(), 1);
}

#[test]
fn handler_types_wrap_functions_of_either_shape() {
    let mut state = State::new();
    state.set(5u8);
    let plain = HandlerType::stateless(|req: Request| text(req.uri().path()));
    let with_state = HandlerType::stateful(|_req: Request, state: State| {
        text(&state.inner::<u8>().unwrap().to_string())
    });
    let other = HandlerType::new(Fixed("fixed"));
    assert_eq!(body_of(&plain.handle(request(Method::GET, "/p"), state.clone())), "/p");
    assert_eq!(body_of(&with_state.handle(request(Method::GET, "/p"), state.clone())), "5");
    assert_eq!(body_of(&other.handle(request(Method::GET, "/p"), state.clone())), "fixed");
    let mut router = Router::new();
    router.set_state(6u8);
    router.add_route(Method::GET, "/a", plain).unwrap();
    router.add_route(Method::GET, "/b", with_state).unwrap();
    assert_eq!(body_of(&response_of(router.handle_request(request(Method::GET, "/a")))), "/a");
    assert_eq!(body_of(&response_of(router.handle_request(request(Method::GET, "/b")))), "6");
}

#[test]
fn adapters_call_their_function() {
    let stateless = Stateless::new(|req: Request| text(&format!("{:?}", req.method())));
    let stateful = Stateful::new(|req: Request, state: State| {
        text(&format!("{:?} {}", req.method(), state.inner::<()>().is_some()))
    });
    assert_eq!(body_of(&stateless.handle(request(Method::PUT, "/"), State::new())), "PUT");
    assert_eq!(body_of(&stateful.handle(request(Method::PUT, "/"), State::new())), "PUT true");
}
