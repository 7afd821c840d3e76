use obws::create_auth_response;

#[test]
fn auth_response_matches_protocol_example() {
    let token = create_auth_response(
        "+IxH4CnCiqpX1rM9scsNynZzbOe4KhDeYcTNS3PDaeY=",
        "lM1GncleQOaCu9lT1yeUZhFYnqhsLLP1G5lAGo3ixaI=",
        "supersecretpassword",
    );
    assert_eq!(token, "1Ct943GAT+6YQUUX47Ia/ncufilbe6+oD6lY+5kaCu4=");
}

#[test]
fn auth_response_short_inputs() {
    assert_eq!(
        create_auth_response("c", "s", "p"),
        "LEfh2WVBWpa8M06P7MehLXlToA1PtH2lNSNPjUZVYls="
    );
}

#[test]
fn auth_response_is_deterministic() {
    let first = create_auth_response("challenge", "salt", "password");
    let second = create_auth_response("challenge", "salt", "password");
    assert_eq!(first, second);
    assert_eq!(first.len(), 44);
}

#[test]
fn auth_response_depends_on_every_input() {
    let base = create_auth_response("c", "s", "p");
    assert_ne!(base, create_auth_response("d", "s", "p"));
    assert_ne!(base, create_auth_response("c", "t", "p"));
    assert_ne!(base, create_auth_response("c", "s", "q"));
    assert_ne!(create_auth_response("ab", "", "p"), create_auth_response("a", "b", "p"));
}
