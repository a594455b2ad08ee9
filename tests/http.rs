use multithreaded::http::{route, Page};

#[test]
fn index_request_gets_index_page() {
    let page = route("GET / HTTP/1.1");
    assert_eq!(page, Page::Index);
    assert_eq!(page.status_line(), "HTTP/1.1 200 OK");
    assert_eq!(page.file_path(), "../pages/index.html");
    assert!(!page.is_delayed());
}

#[test]
fn sleep_request_is_delayed() {
    let page = route("GET /sleep HTTP/1.1");
    assert_eq!(page, Page::Sleep);
    assert_eq!(page.status_line(), "HTTP/1.1 200 OK");
    assert_eq!(page.file_path(), "../pages/sleep.html");
    assert!(page.is_delayed());
}

#[test]
fn other_requests_are_not_found() {
    for line in ["GET /x HTTP/1.1", "", "GET / HTTP/1.0", "get / HTTP/1.1", "GET /  HTTP/1.1"] {
        let page = route(line);
        assert_eq!(page, Page::NotFound);
        assert_eq!(page.status_line(), "HTTP/1.1 404 NOT FOUND");
        assert_eq!(page.file_path(), "../pages/404.html");
        assert!(!page.is_delayed());
    }
}
