use factorioops::auth::{authenticate, login, AuthLoginRequest, LoginRejection};
use factorioops::error::FactorioopsError;
use factorioops::models::{DbUser, PasswordHashString};

fn request(password: &str) -> AuthLoginRequest {
    AuthLoginRequest { username: "alice".to_string(), password: password.to_string() }
}

fn token() -> String {
    "eyJhbGciOiJIUzI1NiJ9.eyJzdWIiOiJhbGljZSJ9.c2ln".to_string()
}

fn alice() -> DbUser {
    DbUser::new("alice".to_string(), PasswordHashString("h".to_string()), "a@e.com".to_string())
}

#[test]
fn found_user_with_matching_password_gets_a_token_for_an_hour() {
    let res = login(Ok(Some(alice())), true, "eyJ.a.b".to_string()).unwrap();
    assert_eq!(res.access_token, "eyJ.a.b");
    assert_eq!(res.expires_in, 3600);
}

#[test]
fn wrong_password_is_unauthorized() {
    match login(Ok(Some(alice())), false, token()) {
        Err(r) => {
            assert_eq!(r, LoginRejection::Unauthorized);
            assert_eq!(r.status_code(), 401);
        }
        Ok(_) => panic!("expected a refusal"),
    }
}

#[test]
fn unknown_user_is_unauthorized() {
    assert!(matches!(login(Ok(None), true, token()), Err(LoginRejection::Unauthorized)));
    assert!(matches!(authenticate(&request("password"), Ok(None), token()), Err(LoginRejection::Unauthorized)));
}

#[test]
fn failed_lookup_is_an_internal_error() {
    let res = login(Err(FactorioopsError::Other("down".to_string())), true, token());
    match res {
        Err(r) => {
            assert_eq!(r, LoginRejection::InternalServerError);
            assert_eq!(r.status_code(), 500);
        }
        Ok(_) => panic!("expected a refusal"),
    }
}

#[test]
fn created_user_logs_in_with_its_password_only() {
    let user = DbUser::create("alice".to_string(), "correct horse".to_string(), "a@e.com".to_string()).unwrap();
    let copy = user.clone();
    let ok = authenticate(&request("correct horse"), Ok(Some(user)), token()).unwrap();
    assert_eq!(ok.access_token, token());
    assert_eq!(ok.expires_in, 3600);
    assert!(matches!(
        authenticate(&request("password"), Ok(Some(copy)), token()),
        Err(LoginRejection::Unauthorized)
    ));
}

#[test]
fn unparsable_stored_hash_is_unauthorized() {
    assert!(matches!(
        authenticate(&request("password"), Ok(Some(alice())), token()),
        Err(LoginRejection::Unauthorized)
    ));
}
