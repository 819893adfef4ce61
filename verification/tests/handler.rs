use hello_server::handler::{connection_log_line, handle, request_log_line, HttpRequest};

fn request(method: &str, target: &str) -> HttpRequest {
    HttpRequest { method: method.to_string(), target: target.to_string() }
}

#[test]
fn get_root_gets_fixed_reply() {
    let resp = handle(&request("GET", "/"));
    assert_eq!(resp.status, 200);
    assert_eq!(resp.body, "Hello, World!\n");
}

#[test]
fn reply_ignores_method_and_target() {
    let cases = vec![
        ("GET", "/"),
        ("POST", "/submit"),
        ("DELETE", "/anything/else"),
        ("PUT", "/a?query=1"),
        ("HEAD", "/index.html"),
    ];
    for (method, target) in cases {
        let resp = handle(&request(method, target));
        assert_eq!(resp.status, 200);
        assert_eq!(resp.body, "Hello, World!\n");
    }
}

#[test]
fn request_log_line_names_method_and_target() {
    let line = request_log_line(&request("GET", "/"));
    assert_eq!(line, "Received GET request to /");
    let line = request_log_line(&request("POST", "/submit"));
    assert_eq!(line, "Received POST request to /submit");
}

#[test]
fn connection_log_line_names_peer() {
    let line = connection_log_line("127.0.0.1:54321");
    assert_eq!(line, "New connection from: 127.0.0.1:54321");
}
