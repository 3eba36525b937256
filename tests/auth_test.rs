use uxrp::auth::{
    AuthService, LoginRequest, RegisterRequest, Service, TestRequest, VerifyRequest,
};
use uxrp::error::Error;
use uxrp::session::{HttpPrincipalResolver, UserPrincipal};
use uxrp::user::UserStoreConfig;

fn service(skip_email_verification: bool) -> AuthService {
    AuthService::new(UserStoreConfig {
        randomise_id_prefix: true,
        skip_email_verification,
    })
}

fn register(svc: &mut AuthService, email: &str, password: &str) -> Result<(), Error> {
    svc.register(&RegisterRequest { email: email.to_owned(), password: password.to_owned() })
        .map(|_| ())
}

fn login(svc: &mut AuthService, email: &str, password: &str) -> Result<String, Error> {
    svc.login(&LoginRequest { email: email.to_owned(), password: password.to_owned() })
        .map(|r| r.token)
}

fn bearer(token: &str) -> String {
    format!("Bearer {}", token)
}

#[test]
fn registration_flow() {
    let mut svc = service(true);

    let email = "test@test.com".to_owned();
    let password = "supersecure".to_owned();

    register(&mut svc, &email, &password).expect("register failed");
    let token = login(&mut svc, &email, &password).expect("login failed");

    let header = bearer(&token);
    let caller = svc.session_store.resolve(Some(header.as_str())).expect("resolve failed");
    let test_res = svc.test(&TestRequest {}, &caller).expect("test failed");
    assert_eq!(test_res.principal_id.len(), 36);
}

#[test]
fn second_registration_of_an_email_is_refused() {
    let mut svc = service(true);
    assert!(register(&mut svc, "a@x.com", "pw").is_ok());
    assert!(matches!(register(&mut svc, "a@x.com", "other"), Err(Error::UserExists)));
    assert!(matches!(register(&mut svc, "a@x.com", "pw"), Err(Error::UserExists)));
    // the first password still works, the second never took
    assert!(login(&mut svc, "a@x.com", "pw").is_ok());
    assert!(matches!(login(&mut svc, "a@x.com", "other"), Err(Error::InvalidCredentials)));
    assert!(register(&mut svc, "b@x.com", "pw").is_ok());
}

#[test]
fn authenticate_needs_account_verification_and_password() {
    let mut svc = service(false);
    let id = svc.user_store.create("u@x.com", "secret").expect("create failed");
    assert!(matches!(
        svc.user_store.authenticate("nobody@x.com", "secret"),
        Err(Error::InvalidCredentials)
    ));
    assert!(matches!(svc.user_store.authenticate("u@x.com", "secret"), Err(Error::UserUnverified)));
    let messages = svc.user_store.take_messages();
    assert_eq!(messages.len(), 1);
    svc.user_store.verify(&messages[0].token).expect("verify failed");
    assert!(matches!(
        svc.user_store.authenticate("u@x.com", "wrong"),
        Err(Error::InvalidCredentials)
    ));
    assert_eq!(svc.user_store.authenticate("u@x.com", "secret").expect("authenticate failed"), id);
}

#[test]
fn created_session_resolves_to_its_principal() {
    let mut svc = service(true);
    let token = svc.session_store.create(UserPrincipal { id: "user-1".to_owned() });
    assert_eq!(token.len(), 36);
    let header = bearer(&token);
    let p = svc.session_store.resolve_header(Some(header.as_str())).expect("resolve failed");
    assert_eq!(p.id, "user-1");
    let other = svc.session_store.create(UserPrincipal { id: "user-2".to_owned() });
    assert_ne!(other, token);
    assert_eq!(svc.session_store.resolve_header(Some(header.as_str())).expect("resolve failed").id, "user-1");
    assert_eq!(
        svc.session_store.resolve_header(Some(bearer(&other).as_str())).expect("resolve failed").id,
        "user-2"
    );
}

#[test]
fn unknown_or_removed_token_is_refused() {
    let mut svc = service(true);
    let never = bearer("00000000-0000-0000-0000-000000000000");
    assert!(matches!(svc.session_store.resolve_header(Some(never.as_str())), Err(Error::InvalidCredentials)));
    let token = svc.session_store.create(UserPrincipal { id: "u".to_owned() });
    svc.session_store.remove(&token);
    assert!(matches!(
        svc.session_store.resolve_header(Some(bearer(&token).as_str())),
        Err(Error::InvalidCredentials)
    ));
}

#[test]
fn missing_or_malformed_header_is_refused() {
    let mut svc = service(true);
    let token = svc.session_store.create(UserPrincipal { id: "u".to_owned() });
    assert!(matches!(svc.session_store.resolve_header(None), Err(Error::InvalidCredentials)));
    assert!(matches!(svc.session_store.resolve_header(Some(token.as_str())), Err(Error::InvalidCredentials)));
    let basic = format!("Basic {}", token);
    assert!(matches!(svc.session_store.resolve_header(Some(basic.as_str())), Err(Error::InvalidCredentials)));
    let lower = format!("bearer {}", token);
    assert!(matches!(svc.session_store.resolve_header(Some(lower.as_str())), Err(Error::InvalidCredentials)));
    assert!(matches!(svc.session_store.resolve_header(Some("Bearer ")), Err(Error::InvalidCredentials)));
    assert!(matches!(svc.session_store.resolve_header(Some("Bear")), Err(Error::InvalidCredentials)));
}

#[test]
fn verification_token_works_once() {
    let mut svc = service(false);
    register(&mut svc, "v@x.com", "pw").expect("register failed");
    let messages = svc.user_store.take_messages();
    assert_eq!(messages.len(), 1);
    assert_eq!(messages[0].email, "v@x.com");
    assert_eq!(messages[0].token.len(), 36);
    assert!(svc.user_store.take_messages().is_empty());
    let req = VerifyRequest { token: messages[0].token.clone() };
    assert!(svc.verify(&req).is_ok());
    assert!(login(&mut svc, "v@x.com", "pw").is_ok());
    assert!(matches!(svc.verify(&req), Err(Error::InvalidCredentials)));
    assert!(login(&mut svc, "v@x.com", "pw").is_ok());
}

#[test]
fn unknown_verification_token_is_refused() {
    let mut svc = service(false);
    let req = VerifyRequest { token: "no-such-token".to_owned() };
    assert!(matches!(svc.verify(&req), Err(Error::InvalidCredentials)));
}

#[test]
fn end_to_end_with_verification() {
    let mut svc = service(false);
    let user_id = svc.user_store.create("a@x.com", "pw").expect("register failed");
    let messages = svc.user_store.take_messages();
    svc.verify(&VerifyRequest { token: messages[0].token.clone() }).expect("verify failed");
    let token = login(&mut svc, "a@x.com", "pw").expect("login failed");
    let header = bearer(&token);
    let caller = svc.session_store.resolve(Some(header.as_str())).expect("resolve failed");
    let res = svc.test(&TestRequest {}, &caller).expect("test failed");
    assert_eq!(res.principal_id, user_id);
}

#[test]
fn login_unknown_and_unverified() {
    let mut svc = service(false);
    assert!(matches!(login(&mut svc, "a@x.com", "pw"), Err(Error::InvalidCredentials)));
    register(&mut svc, "a@x.com", "pw").expect("register failed");
    assert!(matches!(login(&mut svc, "a@x.com", "pw"), Err(Error::UserUnverified)));
    assert!(matches!(login(&mut svc, "a@x.com", "wrong"), Err(Error::UserUnverified)));
}

#[test]
fn test_echoes_caller() {
    let svc = service(true);
    let caller = UserPrincipal { id: "abc".to_owned() };
    assert_eq!(svc.test(&TestRequest {}, &caller).expect("test failed").principal_id, "abc");
}

fn run_flow<S: Service, R: HttpPrincipalResolver<UserPrincipal>>(
    svc: &mut S,
    resolver: impl Fn(&S) -> &R,
) -> String {
    svc.register(&RegisterRequest { email: "t@x.com".to_owned(), password: "pw".to_owned() })
        .expect("register failed");
    let token = svc
        .login(&LoginRequest { email: "t@x.com".to_owned(), password: "pw".to_owned() })
        .expect("login failed")
        .token;
    let header = bearer(&token);
    let caller = resolver(svc).resolve(Some(header.as_str())).expect("resolve failed");
    svc.test(&TestRequest {}, &caller).expect("test failed").principal_id
}

#[test]
fn flow_through_service_trait() {
    let mut svc = service(true);
    let id = run_flow(&mut svc, |s: &AuthService| &s.session_store);
    assert_eq!(id.len(), 36);
    assert_eq!(svc.user_store.authenticate("t@x.com", "pw").expect("authenticate failed"), id);
}
