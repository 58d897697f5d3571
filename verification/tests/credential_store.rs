use keyring::credential::{Credential, CredentialApi, CredentialBuilderApi};
use keyring::{set_default_credential_builder, Entry, Error};
use secure_store::{
    delete_response, entry_name, retrieve_response, store_response, Failure, SecureStoreResponse,
    ACCOUNT,
};
use std::any::Any;
use std::collections::HashMap;
use std::sync::{Arc, Mutex, OnceLock};

type Secrets = Arc<Mutex<HashMap<(String, String), String>>>;

static SECRETS: OnceLock<Secrets> = OnceLock::new();

#[derive(Debug)]
struct KeptCredential {
    service: String,
    user: String,
    secrets: Secrets,
}

impl CredentialApi for KeptCredential {
    fn set_password(&self, password: &str) -> Result<(), Error> {
        if password.chars().count() > 64 {
            return Err(Error::TooLong("password".to_string(), 64));
        }
        let mut secrets = self.secrets.lock().unwrap();
        secrets.insert((self.service.clone(), self.user.clone()), password.to_string());
        Ok(())
    }

    fn get_password(&self) -> Result<String, Error> {
        let secrets = self.secrets.lock().unwrap();
        match secrets.get(&(self.service.clone(), self.user.clone())) {
            Some(password) => Ok(password.clone()),
            None => Err(Error::NoEntry),
        }
    }

    fn delete_password(&self) -> Result<(), Error> {
        let mut secrets = self.secrets.lock().unwrap();
        match secrets.remove(&(self.service.clone(), self.user.clone())) {
            Some(_) => Ok(()),
            None => Err(Error::NoEntry),
        }
    }

    fn as_any(&self) -> &dyn Any {
        self
    }
}

#[derive(Debug)]
struct KeptBuilder {
    secrets: Secrets,
}

impl CredentialBuilderApi for KeptBuilder {
    fn build(
        &self,
        _target: Option<&str>,
        service: &str,
        user: &str,
    ) -> Result<Box<Credential>, Error> {
        if service.starts_with("refused") {
            return Err(Error::Invalid("service".to_string(), "is refused".to_string()));
        }
        Ok(Box::new(KeptCredential {
            service: service.to_string(),
            user: user.to_string(),
            secrets: self.secrets.clone(),
        }))
    }

    fn as_any(&self) -> &dyn Any {
        self
    }
}

fn open_entry(service: &str, key: &str) -> Result<Entry, Failure> {
    Entry::new(&entry_name(service, key), ACCOUNT)
        .map_err(|error| Failure::Entry(error.to_string()))
}

fn failed_call(error: Error) -> Failure {
    Failure::Call(error.to_string())
}

fn set_secret(service: &str, key: &str, value: &str) -> SecureStoreResponse {
    let outcome = open_entry(service, key)
        .and_then(|entry| entry.set_password(value).map_err(failed_call));
    store_response(outcome)
}

fn get_secret(service: &str, key: &str) -> SecureStoreResponse {
    let outcome =
        open_entry(service, key).and_then(|entry| entry.get_password().map_err(failed_call));
    retrieve_response(outcome)
}

fn delete_secret(service: &str, key: &str) -> SecureStoreResponse {
    let outcome =
        open_entry(service, key).and_then(|entry| entry.delete_password().map_err(failed_call));
    delete_response(outcome)
}

fn kept_store() -> Secrets {
    let secrets = SECRETS.get_or_init(|| Arc::new(Mutex::new(HashMap::new()))).clone();
    set_default_credential_builder(Box::new(KeptBuilder { secrets: secrets.clone() }));
    secrets
}

fn found(value: &str) -> SecureStoreResponse {
    SecureStoreResponse { success: true, data: Some(value.to_string()), error: None }
}

fn plain_success() -> SecureStoreResponse {
    SecureStoreResponse { success: true, data: None, error: None }
}

fn failure(text: &str) -> SecureStoreResponse {
    SecureStoreResponse { success: false, data: None, error: Some(text.to_string()) }
}

#[test]
fn store_then_retrieve_returns_the_value() {
    kept_store();
    assert_eq!(set_secret("round trip", "password", "hunter2"), plain_success());
    assert_eq!(get_secret("round trip", "password"), found("hunter2"));
}

#[test]
fn store_then_retrieve_keeps_the_value_as_it_is() {
    kept_store();
    let value = " spaces, a colon: and ☂\nover two lines ";
    assert_eq!(set_secret("verbatim", "password", value), plain_success());
    assert_eq!(get_secret("verbatim", "password"), found(value));
}

#[test]
fn retrieve_of_a_pair_never_stored_fails() {
    kept_store();
    assert_eq!(set_secret("never stored", "other key", "hunter2"), plain_success());
    assert_eq!(
        get_secret("never stored", "password"),
        failure("failed to get secret: No matching entry found in secure storage")
    );
}

#[test]
fn second_store_overwrites_the_first() {
    kept_store();
    assert_eq!(set_secret("overwrite", "password", "first"), plain_success());
    assert_eq!(set_secret("overwrite", "password", "second"), plain_success());
    assert_eq!(get_secret("overwrite", "password"), found("second"));
}

#[test]
fn delete_after_store_succeeds_and_retrieve_then_fails() {
    kept_store();
    assert_eq!(set_secret("delete", "password", "hunter2"), plain_success());
    assert_eq!(delete_secret("delete", "password"), plain_success());
    let response = get_secret("delete", "password");
    assert!(!response.success);
    assert_eq!(response.data, None);
    assert_eq!(
        response.error.as_deref(),
        Some("failed to get secret: No matching entry found in secure storage")
    );
}

#[test]
fn delete_of_a_pair_never_stored_fails() {
    kept_store();
    assert_eq!(
        delete_secret("never deleted", "password"),
        failure("failed to delete secret: No matching entry found in secure storage")
    );
}

#[test]
fn delete_twice_fails_the_second_time() {
    kept_store();
    assert_eq!(set_secret("delete twice", "password", "hunter2"), plain_success());
    assert!(delete_secret("delete twice", "password").success);
    assert!(!delete_secret("delete twice", "password").success);
}

#[test]
fn two_services_with_one_key_keep_their_own_value() {
    kept_store();
    assert_eq!(set_secret("A", "k", "v1"), plain_success());
    assert_eq!(set_secret("B", "k", "v2"), plain_success());
    assert_eq!(get_secret("A", "k"), found("v1"));
    assert_eq!(get_secret("B", "k"), found("v2"));
}

#[test]
fn two_keys_of_one_service_keep_their_own_value() {
    kept_store();
    assert_eq!(set_secret("two keys", "first", "v1"), plain_success());
    assert_eq!(set_secret("two keys", "second", "v2"), plain_success());
    assert_eq!(delete_secret("two keys", "first"), plain_success());
    assert_eq!(get_secret("two keys", "second"), found("v2"));
    assert!(!get_secret("two keys", "first").success);
}

#[test]
fn pairs_that_share_an_entry_name_share_the_secret() {
    kept_store();
    assert_eq!(set_secret("shared:a", "b", "v1"), plain_success());
    assert_eq!(get_secret("shared", "a:b"), found("v1"));
    assert_eq!(set_secret("shared", "a:b", "v2"), plain_success());
    assert_eq!(get_secret("shared:a", "b"), found("v2"));
}

#[test]
fn the_entry_is_kept_under_the_entry_name_and_the_fixed_account() {
    let secrets = kept_store();
    assert_eq!(set_secret("handed over", "token", "v"), plain_success());
    let secrets = secrets.lock().unwrap();
    let entry = ("handed over:token".to_string(), "epitelos_user".to_string());
    assert_eq!(secrets.get(&entry), Some(&"v".to_string()));
}

#[test]
fn an_empty_service_and_key_are_passed_through() {
    let secrets = kept_store();
    assert_eq!(set_secret("", "", "v"), plain_success());
    assert_eq!(get_secret("", ""), found("v"));
    let entry = (":".to_string(), "epitelos_user".to_string());
    assert_eq!(secrets.lock().unwrap().get(&entry), Some(&"v".to_string()));
}

#[test]
fn a_refused_entry_fails_every_operation_with_the_same_phrase() {
    kept_store();
    let text = "failed to create keyring entry: Attribute service is invalid: is refused";
    assert_eq!(set_secret("refused", "password", "hunter2"), failure(text));
    assert_eq!(get_secret("refused", "password"), failure(text));
    assert_eq!(delete_secret("refused", "password"), failure(text));
}

#[test]
fn a_failed_write_is_reported_and_nothing_is_stored() {
    kept_store();
    let long = "x".repeat(65);
    assert_eq!(
        set_secret("too long", "password", &long),
        failure(
            "failed to set secret: Attribute 'password' is longer than platform limit of 64 chars"
        )
    );
    assert!(!get_secret("too long", "password").success);
}

#[test]
fn a_failed_write_leaves_the_earlier_value() {
    kept_store();
    let long = "x".repeat(65);
    assert_eq!(set_secret("kept", "password", "short"), plain_success());
    assert!(!set_secret("kept", "password", &long).success);
    assert_eq!(get_secret("kept", "password"), found("short"));
}
