use std::cell::{Cell, RefCell};
use std::rc::Rc;

use investec::client::{
    api_path, error_status, CacheAction, Client, ClientBuilder, Host, TokenStore,
};
use investec::time::Timestamp;
use investec::token::{AccessToken, AccessTokenResponse, Scope};
use investec::Error;

/// What a test store holds, shared with the test that inspects it.
#[derive(Default)]
struct Slot {
    token: RefCell<Option<AccessToken>>,
    malformed: Cell<bool>,
    refuse_writes: Cell<bool>,
    reads: Cell<u32>,
    writes: Cell<u32>,
}

struct MemoryStore(Rc<Slot>);

impl TokenStore for MemoryStore {
    fn read(&self) -> Result<AccessToken, Error> {
        self.0.reads.set(self.0.reads.get() + 1);
        if self.0.malformed.get() {
            return Err(Error::TokenIo("expected value at line 1 column 1".to_string()));
        }
        match &*self.0.token.borrow() {
            Some(t) => Ok(t.clone()),
            None => Err(Error::TokenIo("no such file".to_string())),
        }
    }

    fn write(&self, token: &AccessToken) -> Result<(), Error> {
        self.0.writes.set(self.0.writes.get() + 1);
        if self.0.refuse_writes.get() {
            return Err(Error::TokenIo("read-only".to_string()));
        }
        *self.0.token.borrow_mut() = Some(token.clone());
        Ok(())
    }
}

const NOW: Timestamp = Timestamp { secs: 1_700_000_000, nanos: 0 };

fn token(credential: &str, expires_at: Timestamp) -> AccessToken {
    AccessToken {
        access_token: credential.to_string(),
        token_type: "Bearer".to_string(),
        scope: vec![Scope::Accounts],
        expires_at,
    }
}

fn response(credential: &str) -> AccessTokenResponse {
    AccessTokenResponse::decode(credential.to_string(), "Bearer".to_string(), 1799, "accounts")
        .unwrap()
}

fn client_with_store(slot: &Rc<Slot>) -> Client {
    ClientBuilder::new()
        .id("id".to_string())
        .secret("secret".to_string())
        .key("key".to_string())
        .token_store(MemoryStore(slot.clone()))
        .build()
        .unwrap()
}

/// Runs authentication at `now` the way a caller does: the cache step, then
/// one exchange (simulated by `issue`) if the cache step is not ready.
/// Returns the number of exchanges made.
fn authenticate(client: &mut Client, now: Timestamp, issue: &str) -> u32 {
    if client.resolve_cached(now) {
        0
    } else {
        client.accept_fetched(response(issue), now);
        1
    }
}

#[test]
fn build_names_the_missing_field() {
    let r = ClientBuilder::new().build();
    assert!(matches!(r, Err(Error::ClientFieldUndefined { field }) if field == "id"));
    let r = ClientBuilder::new().id("i".to_string()).build();
    assert!(matches!(r, Err(Error::ClientFieldUndefined { field }) if field == "secret"));
    let r = ClientBuilder::new().id("i".to_string()).secret("s".to_string()).build();
    assert!(matches!(r, Err(Error::ClientFieldUndefined { field }) if field == "key"));
    let r = ClientBuilder::new().secret("s".to_string()).key("k".to_string()).build();
    assert!(matches!(r, Err(Error::ClientFieldUndefined { field }) if field == "id"));
}

#[test]
fn build_defaults() {
    let c = ClientBuilder::new()
        .id("i".to_string())
        .secret("s".to_string())
        .key("k".to_string())
        .build()
        .unwrap();
    assert_eq!(c.id, "i");
    assert_eq!(c.secret, "s");
    assert_eq!(c.key, "k");
    assert_eq!(c.host, Host::Live);
    assert!(!c.refresh_auth);
    assert!(c.access_token.is_none());
    assert!(c.token_store.is_none());
}

#[test]
fn build_keeps_choices() {
    let c = ClientBuilder::new()
        .id("i".to_string())
        .secret("s".to_string())
        .key("k".to_string())
        .sandbox()
        .refresh_auth()
        .build()
        .unwrap();
    assert_eq!(c.host, Host::Sandbox);
    assert!(c.refresh_auth);
}

#[test]
fn sandbox_client_uses_demo_credentials() {
    let slot = Rc::new(Slot::default());
    let c = Client::sandbox(MemoryStore(slot));
    assert_eq!(c.id, "yAxzQRFX97vOcyQAwluEU6H6ePxMA5eY");
    assert_eq!(c.secret, "4dY0PjEYqoBrZ99r");
    assert_eq!(c.host, Host::Sandbox);
    assert!(c.refresh_auth);
    assert!(c.token_store.is_some());
}

#[test]
fn host_urls() {
    assert_eq!(Host::Live.url(), "https://openapi.investec.com");
    assert_eq!(Host::Sandbox.url(), "https://openapisandbox.investec.com");
}

#[test]
fn token_request_targets_the_token_endpoint() {
    let slot = Rc::new(Slot::default());
    let c = Client::sandbox(MemoryStore(slot));
    let r = c.token_request();
    assert_eq!(r.url, "https://openapisandbox.investec.com/identity/v2/oauth2/token");
    assert_eq!(r.username, "yAxzQRFX97vOcyQAwluEU6H6ePxMA5eY");
    assert_eq!(r.password, "4dY0PjEYqoBrZ99r");
    assert_eq!(r.api_key, c.key);
    assert_eq!(r.grant_type, "client_credentials");
    assert_eq!(c.endpoint("/za/pb/v1/accounts"), "https://openapisandbox.investec.com/za/pb/v1/accounts");
}

#[test]
fn error_statuses() {
    assert!(!error_status(200));
    assert!(!error_status(399));
    assert!(error_status(400));
    assert!(error_status(404));
    assert!(error_status(599));
    assert!(!error_status(600));
}

#[test]
fn no_token_is_an_explicit_error() {
    let slot = Rc::new(Slot::default());
    let c = client_with_store(&slot);
    assert!(matches!(c.bearer_credential(NOW), Err(Error::NoAccessToken)));
}

#[test]
fn expired_token_is_never_presented() {
    let slot = Rc::new(Slot::default());
    let mut c = client_with_store(&slot);
    c.access_token = Some(token("stale", NOW));
    assert!(matches!(c.bearer_credential(NOW), Err(Error::NoAccessToken)));
    let before = Timestamp { secs: NOW.secs - 1, nanos: 999_999_999 };
    assert_eq!(c.bearer_credential(before).unwrap(), "stale");
}

#[test]
fn store_empty_fetches_once_and_writes_once() {
    let slot = Rc::new(Slot::default());
    let mut c = client_with_store(&slot);
    let exchanges = authenticate(&mut c, NOW, "fresh");
    assert_eq!(exchanges, 1);
    assert_eq!(slot.reads.get(), 1);
    assert_eq!(slot.writes.get(), 1);
    let t = c.access_token.as_ref().unwrap();
    assert!(!t.expired_at(NOW));
    assert_eq!(t.access_token, "fresh");
    assert_eq!(c.bearer_credential(NOW).unwrap(), "fresh");
    assert!(c.persist_failure.is_none());
    assert_eq!(slot.token.borrow().as_ref().unwrap().access_token, "fresh");
}

#[test]
fn usable_token_is_reused_without_exchange() {
    let slot = Rc::new(Slot::default());
    let mut c = client_with_store(&slot);
    assert_eq!(authenticate(&mut c, NOW, "first"), 1);
    assert_eq!(authenticate(&mut c, NOW, "second"), 0);
    assert_eq!(authenticate(&mut c, NOW, "third"), 0);
    assert_eq!(c.access_token.as_ref().unwrap().access_token, "first");
    // The token in memory is never checked against the store again.
    assert_eq!(slot.reads.get(), 1);
    assert_eq!(slot.writes.get(), 1);
}

#[test]
fn cold_client_adopts_stored_token() {
    let slot = Rc::new(Slot::default());
    *slot.token.borrow_mut() = Some(token("cached", Timestamp { secs: NOW.secs + 60, nanos: 0 }));
    let mut c = client_with_store(&slot);
    assert_eq!(authenticate(&mut c, NOW, "fresh"), 0);
    assert_eq!(slot.reads.get(), 1);
    assert_eq!(slot.writes.get(), 0);
    let t = c.access_token.as_ref().unwrap();
    assert_eq!(t.access_token, "cached");
    assert_eq!(t.expires_at, Timestamp { secs: NOW.secs + 60, nanos: 0 });
}

#[test]
fn expired_token_in_memory_forces_one_exchange() {
    let slot = Rc::new(Slot::default());
    let mut c = client_with_store(&slot);
    c.access_token = Some(token("stale", Timestamp { secs: NOW.secs - 1, nanos: 0 }));
    assert_eq!(authenticate(&mut c, NOW, "fresh"), 1);
    assert_eq!(slot.reads.get(), 0);
    assert_eq!(slot.writes.get(), 1);
    let t = c.access_token.as_ref().unwrap();
    assert_ne!(t.access_token, "stale");
    assert!(!t.expired_at(NOW));
}

#[test]
fn token_expiring_now_counts_as_expired() {
    let mut c = ClientBuilder::new()
        .id("i".to_string())
        .secret("s".to_string())
        .key("k".to_string())
        .build()
        .unwrap();
    c.access_token = Some(token("edge", NOW));
    assert!(!c.resolve_cached(NOW));
    assert_eq!(c.access_token.as_ref().unwrap().access_token, "edge");
}

#[test]
fn expired_stored_token_forces_one_exchange() {
    let slot = Rc::new(Slot::default());
    *slot.token.borrow_mut() = Some(token("stale", Timestamp { secs: NOW.secs - 1, nanos: 0 }));
    let mut c = client_with_store(&slot);
    assert_eq!(authenticate(&mut c, NOW, "fresh"), 1);
    assert_eq!(c.access_token.as_ref().unwrap().access_token, "fresh");
    assert_eq!(slot.token.borrow().as_ref().unwrap().access_token, "fresh");
}

#[test]
fn malformed_store_falls_through_to_one_exchange() {
    let slot = Rc::new(Slot::default());
    slot.malformed.set(true);
    let mut c = client_with_store(&slot);
    assert_eq!(authenticate(&mut c, NOW, "fresh"), 1);
    assert_eq!(slot.reads.get(), 1);
    assert_eq!(c.access_token.as_ref().unwrap().access_token, "fresh");
}

#[test]
fn failed_write_keeps_the_fresh_token() {
    let slot = Rc::new(Slot::default());
    slot.refuse_writes.set(true);
    let mut c = client_with_store(&slot);
    assert_eq!(authenticate(&mut c, NOW, "fresh"), 1);
    assert_eq!(c.access_token.as_ref().unwrap().access_token, "fresh");
    assert!(matches!(c.persist_failure, Some(Error::TokenIo(_))));
}

#[test]
fn client_without_store_fetches() {
    let mut c = ClientBuilder::new()
        .id("i".to_string())
        .secret("s".to_string())
        .key("k".to_string())
        .build()
        .unwrap();
    assert_eq!(authenticate(&mut c, NOW, "fresh"), 1);
    assert_eq!(authenticate(&mut c, NOW, "again"), 0);
    assert!(c.persist_failure.is_none());
}

#[test]
fn adopting_a_failed_read_keeps_client_cold() {
    let mut c = ClientBuilder::new()
        .id("i".to_string())
        .secret("s".to_string())
        .key("k".to_string())
        .build()
        .unwrap();
    assert!(!c.adopt_stored(Err(Error::TokenIo("gone".to_string())), NOW));
    assert!(c.access_token.is_none());
    assert!(!c.adopt_stored(Ok(token("old", NOW)), NOW));
    assert!(c.access_token.is_none());
    assert!(c.adopt_stored(Ok(token("good", Timestamp { secs: NOW.secs, nanos: 1 })), NOW));
    assert_eq!(c.access_token.as_ref().unwrap().access_token, "good");
}

#[test]
fn api_paths() {
    assert_eq!(api_path(&[]), "/za/pb/v1");
    assert_eq!(api_path(&["accounts"]), "/za/pb/v1/accounts");
    assert_eq!(
        api_path(&["accounts", "3353431574710163189587446", "balance"]),
        "/za/pb/v1/accounts/3353431574710163189587446/balance"
    );
    assert_eq!(
        api_path(&["profiles", "10163189587444", "accounts", "33", "authorisationsetupdetails"]),
        "/za/pb/v1/profiles/10163189587444/accounts/33/authorisationsetupdetails"
    );
}

#[test]
fn first_action_of_authentication() {
    let slot = Rc::new(Slot::default());
    let mut c = client_with_store(&slot);
    assert_eq!(c.cache_action(NOW), CacheAction::ReadStore);
    c.access_token = Some(token("t", Timestamp { secs: NOW.secs + 1, nanos: 0 }));
    assert_eq!(c.cache_action(NOW), CacheAction::UseMemory);
    c.access_token = Some(token("t", NOW));
    assert_eq!(c.cache_action(NOW), CacheAction::Fetch);
    let c = ClientBuilder::new()
        .id("i".to_string())
        .secret("s".to_string())
        .key("k".to_string())
        .build()
        .unwrap();
    assert_eq!(c.cache_action(NOW), CacheAction::Fetch);
    assert_eq!(slot.reads.get(), 0);
}
