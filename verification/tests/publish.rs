use subgraph_publish::Publish;

#[test]
fn test_confirm_invalid_url_publish() {
    let mut input = "y".as_bytes();
    let mut output: Vec<u8> = Vec::new();
    let result = Publish::handle_maybe_invalid_routing_url(
        &Some("invalid-url".to_string()),
        &mut output,
        &mut input,
        true,
    );

    assert!(result.is_ok());
    assert!(input.is_empty());
    assert!(std::str::from_utf8(&output).unwrap().contains("is not a valid routing URL. Continuing the publish will make this subgraph unreachable by your supergraph. Would you still like to publish?"));
}

#[test]
fn test_deny_invalid_url_publish() {
    let mut input = "n".as_bytes();
    let mut output: Vec<u8> = Vec::new();
    let result = Publish::handle_maybe_invalid_routing_url(
        &Some("invalid-url".to_string()),
        &mut output,
        &mut input,
        true,
    );

    assert!(result.is_err());
    assert!(result
        .unwrap_err()
        .to_string()
        .contains("You cancelled a subgraph publish due to an invalid routing url."));
    assert!(input.is_empty());
    assert!(std::str::from_utf8(&output).unwrap().contains("is not a valid routing URL. Continuing the publish will make this subgraph unreachable by your supergraph. Would you still like to publish?"));
}

#[test]
fn test_invalid_scheme() {
    let mut input = "y".as_bytes();
    let mut output: Vec<u8> = Vec::new();
    let result = Publish::handle_maybe_invalid_routing_url(
        &Some("ftp://invalid-scheme".to_string()),
        &mut output,
        &mut input,
        true,
    );

    assert!(result.is_ok());
    assert!(input.is_empty());
    assert!(std::str::from_utf8(&output).unwrap().contains(
        "is not a valid routing URL. The `ftp` protocol is not supported by the router. Valid protocols are `http` and `https`."
    ));
}

#[test]
fn test_localhost_tty() {
    let mut input = "y".as_bytes();
    let mut output: Vec<u8> = Vec::new();
    let result = Publish::handle_maybe_invalid_routing_url(
        &Some("http://localhost:8000".to_string()),
        &mut output,
        &mut input,
        true,
    );

    assert!(result.is_ok());
    assert!(input.is_empty());
    assert!(std::str::from_utf8(&output).unwrap().contains(
        "The host `localhost` is not routable via the public internet. Continuing the publish will make this subgraph reachable in local environments only."
    ));
}

#[test]
fn test_localhost_no_tty() {
    let mut input: &[u8] = &[];
    let mut output: Vec<u8> = Vec::new();
    let result = Publish::handle_maybe_invalid_routing_url(
        &Some("http://localhost:8000".to_string()),
        &mut output,
        &mut input,
        false,
    );

    assert!(result.is_ok());
    assert!(input.is_empty());
    assert!(std::str::from_utf8(&output).unwrap().contains(
        "The host `localhost` is not routable via the public internet. Continuing the publish will make this subgraph reachable in local environments only."
    ));
}

#[test]
fn test_invalid_url_no_tty() {
    let mut input: &[u8] = &[];
    let mut output: Vec<u8> = Vec::new();
    let result = Publish::handle_maybe_invalid_routing_url(
        &Some("invalid-url".to_string()),
        &mut output,
        &mut input,
        false,
    );

    assert!(result.is_err());
    assert!(input.is_empty());
    assert!(result
        .unwrap_err()
        .to_string()
        .contains("is not a valid routing URL."));
}
