use static_server::response::{NOT_FOUND_HEADER, OK_HEADER, SERVER_ERR_HEADER};
use static_server::{respond, ResolveError, ServeError, Server, ServerBuilder};

fn images() -> Server {
    Server::builder().allow_ext(&["jpg"]).prefix("/prefix").root("/root").build()
}

fn local() -> Server {
    Server::builder().prefix("/local").root("/").build()
}

#[test]
fn routes_a_whitelisted_path() {
    let file = images().route("GET /prefix/some/url.jpg HTTP/1.1\r\n");
    assert_eq!(file, Ok(String::from("/root/some/url.jpg")));
}

#[test]
fn rejects_an_extension_off_the_whitelist() {
    let file = images().route("GET /prefix/some/url.png HTTP/1.1\r\n");
    assert_eq!(file, Err(ServeError::ExtensionMismatch));
}

#[test]
fn rejects_a_path_outside_the_prefix() {
    let file = images().route("GET /not-prefix/some/url.jpg HTTP/1.1\r\n");
    assert_eq!(file, Err(ServeError::PrefixMismatch));
}

#[test]
fn existing_file_is_served_with_its_bytes() {
    let file = local().route("GET /local/etc/hosts HTTP/1.1\r\n");
    assert_eq!(file, Ok(String::from("/etc/hosts")));

    let reply = respond(Ok(())).unwrap();
    assert_eq!(reply.header, "HTTP/1.1 200 OK\r\n\r\n");
    assert!(reply.body);
}

#[test]
fn missing_file_gets_a_404_without_body() {
    let file = local().route("GET /local/etc/does-not-exist HTTP/1.1\r\n");
    assert_eq!(file, Ok(String::from("/etc/does-not-exist")));

    let reply = respond(Err(ServeError::FileNotFound)).unwrap();
    assert_eq!(reply.header, "HTTP/1.1 404 ServerError\r\n\r\n");
    assert!(!reply.body);
}

#[test]
fn other_open_failure_gets_a_400_without_body() {
    let reply = respond(Err(ServeError::OtherIoError)).unwrap();
    assert_eq!(reply.header, "HTTP/1.1 400 ServerError\r\n\r\n");
    assert!(!reply.body);
}

#[test]
fn unrouted_request_gets_no_reply() {
    assert!(respond(Err(ServeError::MalformedRequest)).is_none());
    assert!(respond(Err(ServeError::PrefixMismatch)).is_none());
    assert!(respond(Err(ServeError::ExtensionMismatch)).is_none());

    for line in ["POST /local/x\r\n", "GET\r\n", "GET /elsewhere/x\r\n"] {
        let failure = local().route(line).unwrap_err();
        assert!(respond(Err(failure)).is_none());
    }
    let failure = images().route("GET /prefix/x.png\r\n").unwrap_err();
    assert!(respond(Err(failure)).is_none());
}

#[test]
fn resolver_failures_keep_their_kind() {
    assert_eq!(ServeError::from(ResolveError::PrefixMismatch), ServeError::PrefixMismatch);
    assert_eq!(ServeError::from(ResolveError::ExtensionMismatch), ServeError::ExtensionMismatch);
}

#[test]
fn headers_are_a_status_line_and_a_blank_line() {
    assert_eq!(OK_HEADER, "HTTP/1.1 200 OK\r\n\r\n");
    assert_eq!(NOT_FOUND_HEADER, "HTTP/1.1 404 ServerError\r\n\r\n");
    assert_eq!(SERVER_ERR_HEADER, "HTTP/1.1 400 ServerError\r\n\r\n");
}

#[test]
fn only_get_is_served() {
    for line in [
        "POST /local/etc/hosts HTTP/1.1\r\n",
        "HEAD /local/etc/hosts HTTP/1.1\r\n",
        "get /local/etc/hosts HTTP/1.1\r\n",
        "GETS /local/etc/hosts HTTP/1.1\r\n",
        "GE /local/etc/hosts HTTP/1.1\r\n",
        " GET /local/etc/hosts HTTP/1.1\r\n",
    ] {
        assert_eq!(local().route(line), Err(ServeError::MalformedRequest));
    }
}

#[test]
fn line_without_a_path_is_malformed() {
    for line in ["", "\r\n", "GET", "GET\r\n", "GET\t/local/etc/hosts\r\n"] {
        assert_eq!(local().route(line), Err(ServeError::MalformedRequest));
    }
}

#[test]
fn malformed_comes_before_prefix_mismatch() {
    assert_eq!(local().route("PUT /elsewhere\r\n"), Err(ServeError::MalformedRequest));
    assert_eq!(
        local().route("GET /elsewhere\r\n"),
        Err(ServeError::PrefixMismatch)
    );
}

#[test]
fn empty_path_token_is_outside_the_prefix() {
    assert_eq!(
        local().route("GET  /local/etc/hosts\r\n"),
        Err(ServeError::PrefixMismatch)
    );
}

#[test]
fn version_is_optional() {
    assert_eq!(local().route("GET /local/etc/hosts\r\n"), Ok(String::from("/etc/hosts")));
    assert_eq!(local().route("GET /local/etc/hosts"), Ok(String::from("/etc/hosts")));
}

#[test]
fn builder_starts_empty() {
    let builder = Server::builder();
    assert!(!builder.has_prefix());
    assert!(!builder.has_root());

    let builder = ServerBuilder::default();
    assert!(!builder.has_prefix());
    assert!(!builder.has_root());
}

#[test]
fn builder_records_prefix_and_root() {
    let builder = Server::builder().prefix("/local");
    assert!(builder.has_prefix());
    assert!(!builder.has_root());

    let builder = Server::builder().root("/");
    assert!(!builder.has_prefix());
    assert!(builder.has_root());

    let builder = Server::builder().root("/").allow_ext(&["jpg"]).prefix("/local");
    assert!(builder.has_prefix());
    assert!(builder.has_root());
}

#[test]
fn later_settings_replace_earlier_ones() {
    let server = Server::builder()
        .allow_ext(&["png"])
        .prefix("/old")
        .root("/gone")
        .allow_ext(&["jpg", "svg"])
        .prefix("/prefix")
        .root("/root")
        .build();
    assert_eq!(server.route("GET /prefix/a.jpg\r\n"), Ok(String::from("/root/a.jpg")));
    assert_eq!(server.route("GET /prefix/a.svg\r\n"), Ok(String::from("/root/a.svg")));
    assert_eq!(
        server.route("GET /prefix/a.png\r\n"),
        Err(ServeError::ExtensionMismatch)
    );
    assert_eq!(
        server.route("GET /old/a.jpg\r\n"),
        Err(ServeError::PrefixMismatch)
    );
}

#[test]
fn without_allow_ext_nothing_is_restricted() {
    let server = Server::builder().prefix("/prefix").root("/root").build();
    assert_eq!(server.route("GET /prefix/a.png\r\n"), Ok(String::from("/root/a.png")));
    assert_eq!(server.route("GET /prefix/a\r\n"), Ok(String::from("/root/a")));
}

#[test]
fn copies_route_alike() {
    let server = images();
    let copy = server.clone();
    for line in [
        "GET /prefix/some/url.jpg HTTP/1.1\r\n",
        "GET /prefix/some/url.png HTTP/1.1\r\n",
        "GET /not-prefix/some/url.jpg HTTP/1.1\r\n",
        "POST /prefix/some/url.jpg HTTP/1.1\r\n",
    ] {
        assert_eq!(server.route(line), copy.route(line));
    }
}

#[test]
fn routing_twice_gives_the_same_result() {
    let server = images();
    let line = "GET /prefix/some/url.jpg HTTP/1.1\r\n";
    assert_eq!(server.route(line), server.route(line));
}
