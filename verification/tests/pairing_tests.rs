use open_accountability::pairing::{login, rocket};

#[test]
fn login_hands_over_the_credentials_and_greets() {
    let (creds, greeting) = login("secret-token".to_string(), "desk machine".to_string());
    assert_eq!(creds.refresh_token, "secret-token".to_string());
    assert_eq!(creds.device_name, "desk machine".to_string());
    assert_eq!(greeting, "Welcome, secret-token!".to_string());
}

#[test]
fn pairing_server_mounts_its_three_routes_at_the_root() {
    let (mount_point, routes) = rocket();
    assert_eq!(mount_point, "/".to_string());
    assert_eq!(
        routes,
        vec!["/".to_string(), "/login".to_string(), "/static/<file..>".to_string()]
    );
}
