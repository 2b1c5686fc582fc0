use rust_webservice::{route, Route, DEFAULT_BIND_ADDRESS, HELLO_METHOD, HELLO_PATH, STATIC_DIR};

#[test]
fn get_hello_path_goes_to_hello_handler() {
    assert_eq!(route("GET", "/api/hello"), Route::Hello);
    assert_eq!(route(HELLO_METHOD, HELLO_PATH), Route::Hello);
}

#[test]
fn other_methods_on_hello_path_go_to_static_files() {
    assert_eq!(route("POST", "/api/hello"), Route::Static);
    assert_eq!(route("PUT", "/api/hello"), Route::Static);
    assert_eq!(route("get", "/api/hello"), Route::Static);
}

#[test]
fn other_paths_go_to_static_files() {
    assert_eq!(route("GET", "/"), Route::Static);
    assert_eq!(route("GET", "/index.html"), Route::Static);
    assert_eq!(route("GET", "/api/hello/"), Route::Static);
    assert_eq!(route("GET", "/api/hell"), Route::Static);
    assert_eq!(route("GET", "/api/hellp"), Route::Static);
    assert_eq!(route("GET", "/api/nope"), Route::Static);
    assert_eq!(route("GET", ""), Route::Static);
    assert_eq!(route("", ""), Route::Static);
}

#[test]
fn service_constants() {
    assert_eq!(STATIC_DIR, "./dist");
    assert_eq!(DEFAULT_BIND_ADDRESS, "127.0.0.1:3000");
    assert_eq!(HELLO_PATH, "/api/hello");
}
