use dsh::certificate::get_relative_distinguished_name;

#[test]
fn test_get_relative_distinguished_name() {
    const DISTINGUISHED_NAME: &str = "CN=tenant.org,O=Tenant Organization,L=City,ST=State,C=NL";
    assert_eq!(get_relative_distinguished_name(DISTINGUISHED_NAME, "CN"), Some("tenant.org"));
    assert_eq!(get_relative_distinguished_name(DISTINGUISHED_NAME, "O"), Some("Tenant Organization"));
    assert_eq!(get_relative_distinguished_name(DISTINGUISHED_NAME, "L"), Some("City"));
    assert_eq!(get_relative_distinguished_name(DISTINGUISHED_NAME, "ST"), Some("State"));
    assert_eq!(get_relative_distinguished_name(DISTINGUISHED_NAME, "C"), Some("NL"));
    assert!(get_relative_distinguished_name(DISTINGUISHED_NAME, "OU").is_none());
}
