use ruquest::executor::HttpMethod;
use ruquest::model::{ApiRequest, ApiResponse, RequestGroup};
use ruquest::persist::{load_groups, restore_groups, save_form, SavedGroup, SavedRequest};
use ruquest::session::ApiTester;

fn s(x: &str) -> String {
    x.to_string()
}

fn response(status: u16, body: &str) -> ApiResponse {
    ApiResponse { status, headers: vec![(s("server"), s("test"))], body: s(body), time_taken_ms: 5 }
}

fn demo_tester() -> ApiTester {
    let mut app = ApiTester::new(Vec::new());
    app.open_new_group_dialog();
    app.new_group_dialog.name = s("Demo");
    assert!(app.create_group());
    app.begin_add_request(0);
    app.current_request.url = s("https://example.com");
    app.current_request.method = s("GET");
    app.new_request_dialog.name = s("ping");
    assert!(app.create_request());
    app
}

#[test]
fn create_demo_group_save_and_restart() {
    let app = demo_tester();
    let saved = save_form(&app.groups);
    let loaded = load_groups(Some(saved));
    assert_eq!(loaded.len(), 1);
    assert_eq!(loaded[0].name, "Demo");
    assert!(!loaded[0].is_expanded);
    assert_eq!(loaded[0].requests.len(), 1);
    let r = &loaded[0].requests[0];
    assert_eq!(r.name, "ping");
    assert_eq!(r.url, "https://example.com");
    assert_eq!(r.method, "GET");
    assert!(r.headers.is_empty());
    assert_eq!(r.body, "");
    assert!(r.response.is_none());
}

#[test]
fn invalid_method_send_is_answered_locally() {
    let mut app = demo_tester();
    app.select_request(0, 0);
    app.current_request.method = s("FOO");
    match app.send_request() {
        Err(resp) => {
            assert!(app.is_loading);
            assert_eq!(resp.status, 0);
            assert_eq!(resp.body, "Error: Invalid HTTP method 'FOO'");
            app.receive_response(resp);
        }
        _ => panic!("an invalid method must be answered without a call"),
    }
    assert!(!app.is_loading);
    let got = app.current_request.response.as_ref().unwrap();
    assert_eq!(got.status, 0);
    assert!(got.body.contains("Invalid HTTP method 'FOO'"));
}

#[test]
fn send_marks_busy_until_response_arrives() {
    let mut app = demo_tester();
    app.select_request(0, 0);
    match app.send_request() {
        Ok(p) => {
            assert_eq!(p.method, HttpMethod::Get);
            assert_eq!(p.url, "https://example.com");
        }
        Err(_) => panic!("GET is supported"),
    }
    assert!(app.is_loading);
    app.receive_response(response(200, "ok"));
    assert!(!app.is_loading);
    assert_eq!(app.current_request.response.as_ref().unwrap().status, 200);
}

#[test]
fn saved_request_keeps_its_response() {
    let mut app = demo_tester();
    app.select_request(0, 0);
    app.receive_response(response(204, ""));
    assert!(app.save_current());
    assert_eq!(app.groups[0].requests[0].response.as_ref().unwrap().status, 204);
    app.begin_add_request(0);
    app.receive_response(response(418, "teapot"));
    app.new_request_dialog.name = s("brew");
    assert!(app.create_request());
    assert_eq!(app.groups[0].requests.len(), 2);
    assert_eq!(app.groups[0].requests[0].name, "ping");
    assert_eq!(app.groups[0].requests[1].name, "brew");
    assert_eq!(app.groups[0].requests[1].response.as_ref().unwrap().body, "teapot");
}

#[test]
fn new_tester_lists_methods_in_order() {
    let app = ApiTester::new(Vec::new());
    assert_eq!(app.methods, vec![s("GET"), s("POST"), s("PUT"), s("DELETE"), s("PATCH")]);
    assert!(!app.is_loading);
    assert!(!app.new_group_dialog.show);
    assert!(!app.new_request_dialog.show);
}

#[test]
fn loading_a_missing_file_twice_gives_nothing() {
    let first = load_groups(None);
    let second = load_groups(None);
    assert!(first.is_empty());
    assert!(second.is_empty());
}

#[test]
fn saved_groups_round_trip_with_unicode() {
    let mut req = ApiRequest::new();
    req.name = s("héllo ✓");
    req.url = s("https://例え.jp/パス?q=ü");
    req.method = s("PATCH");
    req.headers = vec![(s("X-Émoji"), s("😀")), (s(""), s(""))];
    req.body = s("{\"ключ\": \"значение\"}");
    req.response = Some(response(201, "created"));
    let groups = vec![
        RequestGroup { name: s("Grüße"), requests: vec![req], is_expanded: true },
        RequestGroup { name: s("空"), requests: vec![], is_expanded: false },
    ];
    let loaded = load_groups(Some(save_form(&groups)));
    assert_eq!(loaded.len(), 2);
    for (a, b) in groups.iter().zip(loaded.iter()) {
        assert_eq!(a.name, b.name);
        assert!(!b.is_expanded);
        assert_eq!(a.requests.len(), b.requests.len());
        for (x, y) in a.requests.iter().zip(b.requests.iter()) {
            assert_eq!(x.name, y.name);
            assert_eq!(x.url, y.url);
            assert_eq!(x.method, y.method);
            assert_eq!(x.headers, y.headers);
            assert_eq!(x.body, y.body);
            assert!(y.response.is_none());
        }
    }
}

#[test]
fn restore_resets_transient_state() {
    let saved = vec![SavedGroup {
        name: s("G"),
        requests: vec![SavedRequest {
            name: s("r"),
            url: s("u"),
            method: s("GET"),
            headers: vec![],
            body: s(""),
        }],
    }];
    let groups = restore_groups(&saved);
    assert_eq!(groups.len(), 1);
    assert!(!groups[0].is_expanded);
    assert!(groups[0].requests[0].response.is_none());
}

#[test]
fn empty_group_name_is_not_created() {
    let mut app = ApiTester::new(Vec::new());
    app.open_new_group_dialog();
    assert!(!app.create_group());
    assert!(app.groups.is_empty());
    assert!(app.new_group_dialog.show);
    app.cancel_new_group();
    assert!(!app.new_group_dialog.show);
}

#[test]
fn new_group_is_expanded_and_dialog_cleared() {
    let mut app = ApiTester::new(Vec::new());
    app.open_new_group_dialog();
    app.new_group_dialog.name = s("A");
    assert!(app.create_group());
    assert_eq!(app.groups.len(), 1);
    assert!(app.groups[0].is_expanded);
    assert!(!app.new_group_dialog.show);
    assert_eq!(app.new_group_dialog.name, "");
    app.toggle_group(0);
    assert!(!app.groups[0].is_expanded);
    app.toggle_group(7);
    assert!(!app.groups[0].is_expanded);
}

#[test]
fn request_creation_needs_a_name() {
    let mut app = demo_tester();
    app.begin_add_request(0);
    assert!(!app.create_request());
    assert!(app.new_request_dialog.show);
    assert_eq!(app.groups[0].requests.len(), 1);
    app.cancel_new_request();
    assert!(!app.new_request_dialog.show);
    assert_eq!(app.new_request_dialog.group_index, None);
}

#[test]
fn save_current_overwrites_request_by_name() {
    let mut app = demo_tester();
    app.select_request(0, 0);
    app.current_request.url = s("https://example.org");
    app.add_header();
    assert!(app.save_current());
    assert_eq!(app.groups[0].requests[0].url, "https://example.org");
    assert_eq!(app.groups[0].requests[0].headers, vec![(s(""), s(""))]);
    app.current_request.name = s("renamed");
    assert!(!app.save_current());
    assert_eq!(app.groups[0].requests[0].name, "ping");
}

#[test]
fn headers_are_added_and_removed() {
    let mut app = ApiTester::new(Vec::new());
    app.add_header();
    app.add_header();
    app.current_request.headers[0] = (s("A"), s("1"));
    app.remove_header(1);
    assert_eq!(app.current_request.headers, vec![(s("A"), s("1"))]);
    app.remove_header(3);
    assert_eq!(app.current_request.headers.len(), 1);
}

#[test]
fn requests_and_groups_are_deleted() {
    let mut app = demo_tester();
    assert!(!app.delete_request(0, 4));
    assert!(app.delete_request(0, 0));
    assert!(app.groups[0].requests.is_empty());
    assert!(!app.delete_group(2));
    assert!(app.delete_group(0));
    assert!(app.groups.is_empty());
}

#[test]
fn body_editor_hidden_for_get() {
    let mut app = ApiTester::new(Vec::new());
    app.current_request.method = s("GET");
    assert!(!app.shows_body_editor());
    app.current_request.method = s("POST");
    assert!(app.shows_body_editor());
}
