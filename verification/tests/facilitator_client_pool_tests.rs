//! Facilitator clients are pooled by the server around the library.

#[test]
fn test_facilitator_client_pool_empty_url() {
    // An empty facilitator URL is rejected before any client is created; see
    // `verify_precheck` in the library tests.
}
