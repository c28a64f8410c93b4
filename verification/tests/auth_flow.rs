use session_auth::auth::{authenticate_user, login, remove_active_user, AuthContext};
use session_auth::errors::AuthError;
use session_auth::models::{NewUser, RequestUser};
use session_auth::store::UserStore;

const NOW: u64 = 1_700_000_000;
const DAY: u64 = 86_400;

fn store_with(email: &str, password: &str) -> UserStore {
    let mut store = UserStore::new();
    let created = store.create_user(&NewUser {
        username: "ann".to_owned(),
        user_email: email.to_owned(),
        user_password: password.to_owned(),
    });
    assert!(created.is_ok());
    store
}

fn context() -> AuthContext {
    AuthContext::init(Some(b"a process-wide signing secret".to_vec())).unwrap()
}

fn request(email: &str, password: &str) -> RequestUser {
    RequestUser { user_email: email.to_owned(), user_password: password.to_owned() }
}

#[test]
fn login_scenario() {
    let store = store_with("a@b.com", "secret");
    let identity = store.find_user_by_email("a@b.com").unwrap().user_id.clone();
    let mut ctx = context();

    let token = login(&mut ctx, &store, &request("a@b.com", "secret"), NOW).unwrap();
    assert_eq!(authenticate_user(&ctx, &token, NOW).unwrap(), identity);
    assert!(remove_active_user(&mut ctx, &token).is_ok());
    assert_eq!(authenticate_user(&ctx, &token, NOW), Err(AuthError::SessionNotFound));
}

#[test]
fn wrong_password_is_rejected_and_registry_untouched() {
    let store = store_with("a@b.com", "secret");
    let mut ctx = context();

    let r = login(&mut ctx, &store, &request("a@b.com", "not the password"), NOW);
    assert_eq!(r, Err(AuthError::InvalidCredentials));
    assert_eq!(ctx.session_count(), 0);
}

#[test]
fn unknown_email_is_rejected() {
    let store = store_with("a@b.com", "secret");
    let mut ctx = context();

    let r = login(&mut ctx, &store, &request("nobody@b.com", "secret"), NOW);
    assert_eq!(r, Err(AuthError::UserNotFound));
    assert_eq!(ctx.session_count(), 0);
}

#[test]
fn fresh_token_validates_and_authenticates() {
    let secret = b"a process-wide signing secret".to_vec();
    let store = store_with("a@b.com", "secret");
    let identity = store.find_user_by_email("a@b.com").unwrap().user_id.clone();
    let mut ctx = AuthContext::init(Some(secret.clone())).unwrap();

    let token = login(&mut ctx, &store, &request("a@b.com", "secret"), NOW).unwrap();
    assert_eq!(session_auth::jwt::is_valid(&secret, &token, NOW), Ok(()));
    assert_eq!(authenticate_user(&ctx, &token, NOW).unwrap(), identity);
}

#[test]
fn expired_token_fails_even_while_registered() {
    let store = store_with("a@b.com", "secret");
    let mut ctx = context();

    let token = login(&mut ctx, &store, &request("a@b.com", "secret"), NOW).unwrap();
    assert_eq!(authenticate_user(&ctx, &token, NOW + DAY + 1), Err(AuthError::TokenExpired));
    // The entry outlives the expiry: only logout removes it.
    assert_eq!(ctx.session_count(), 1);
}

#[test]
fn token_still_valid_at_exact_expiry() {
    let store = store_with("a@b.com", "secret");
    let mut ctx = context();

    let token = login(&mut ctx, &store, &request("a@b.com", "secret"), NOW).unwrap();
    assert!(authenticate_user(&ctx, &token, NOW + DAY).is_ok());
}

#[test]
fn logout_of_unknown_token_reports_session_not_found() {
    let mut ctx = context();
    assert_eq!(remove_active_user(&mut ctx, "never-issued"), Err(AuthError::SessionNotFound));
}

#[test]
fn second_logout_reports_session_not_found() {
    let store = store_with("a@b.com", "secret");
    let mut ctx = context();

    let token = login(&mut ctx, &store, &request("a@b.com", "secret"), NOW).unwrap();
    assert!(remove_active_user(&mut ctx, &token).is_ok());
    assert_eq!(remove_active_user(&mut ctx, &token), Err(AuthError::SessionNotFound));
}

#[test]
fn garbage_token_is_malformed() {
    let ctx = context();
    assert_eq!(
        authenticate_user(&ctx, "not.a.token", NOW),
        Err(AuthError::TokenMalformed)
    );
    assert_eq!(authenticate_user(&ctx, "", NOW), Err(AuthError::TokenMalformed));
}

#[test]
fn token_signed_under_another_secret_is_malformed() {
    let store = store_with("a@b.com", "secret");
    let mut other_ctx = AuthContext::init(Some(b"a different secret".to_vec())).unwrap();
    let token = login(&mut other_ctx, &store, &request("a@b.com", "secret"), NOW).unwrap();

    // Malformed (bad signature), not merely an unknown session.
    let ctx = context();
    assert_eq!(authenticate_user(&ctx, &token, NOW), Err(AuthError::TokenMalformed));
}

#[test]
fn missing_secret_is_a_configuration_error() {
    let r = AuthContext::init(None);
    assert_eq!(r.err().unwrap(), AuthError::ConfigurationError);
}

#[test]
fn interleaved_logins_and_logouts_keep_net_size() {
    let mut store = UserStore::new();
    for (name, email) in [("ann", "a@b.com"), ("bob", "b@b.com"), ("cay", "c@b.com")] {
        let created = store.create_user(&NewUser {
            username: name.to_owned(),
            user_email: email.to_owned(),
            user_password: "secret".to_owned(),
        });
        assert!(created.is_ok());
    }
    let mut ctx = context();

    // Distinct issue times give disjoint tokens (the claims differ).
    let t1 = login(&mut ctx, &store, &request("a@b.com", "secret"), NOW).unwrap();
    let t2 = login(&mut ctx, &store, &request("b@b.com", "secret"), NOW + 1).unwrap();
    let t3 = login(&mut ctx, &store, &request("c@b.com", "secret"), NOW + 2).unwrap();
    assert_ne!(t1, t2);
    assert_ne!(t2, t3);
    assert_eq!(ctx.session_count(), 3);

    assert!(remove_active_user(&mut ctx, &t2).is_ok());
    assert_eq!(ctx.session_count(), 2);
    assert!(authenticate_user(&ctx, &t1, NOW + 3).is_ok());
    assert!(authenticate_user(&ctx, &t3, NOW + 3).is_ok());
    assert_eq!(authenticate_user(&ctx, &t2, NOW + 3), Err(AuthError::SessionNotFound));

    assert!(remove_active_user(&mut ctx, &t1).is_ok());
    assert!(remove_active_user(&mut ctx, &t3).is_ok());
    assert_eq!(ctx.session_count(), 0);
}

#[test]
fn concurrent_disjoint_sessions_keep_registry_consistent() {
    let runtime = tokio::runtime::Builder::new_multi_thread().worker_threads(4).build().unwrap();
    runtime.block_on(async {
        let mut store = UserStore::new();
        for i in 0..8u64 {
            let created = store.create_user(&NewUser {
                username: format!("user{}", i),
                user_email: format!("user{}@b.com", i),
                user_password: "secret".to_owned(),
            });
            assert!(created.is_ok());
        }
        let store = std::sync::Arc::new(store);
        let ctx = std::sync::Arc::new(tokio::sync::Mutex::new(context()));

        let mut handles = Vec::new();
        for i in 0..8u64 {
            let store = store.clone();
            let ctx = ctx.clone();
            handles.push(tokio::spawn(async move {
                // Distinct issue times give each task its own token.
                let req = request(&format!("user{}@b.com", i), "secret");
                let token = {
                    let mut ctx = ctx.lock().await;
                    login(&mut ctx, &store, &req, NOW + i).unwrap()
                };
                {
                    let ctx = ctx.lock().await;
                    authenticate_user(&ctx, &token, NOW + 8).unwrap();
                }
                if i % 2 == 0 {
                    let mut ctx = ctx.lock().await;
                    remove_active_user(&mut ctx, &token).unwrap();
                }
            }));
        }
        for handle in handles {
            handle.await.unwrap();
        }

        // Net size: 8 logins minus 4 logouts.
        assert_eq!(ctx.lock().await.session_count(), 4);
    });
}
