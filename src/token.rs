//! Access tokens: scopes, the issuance response, expiry, and the cached form.
use vstd::prelude::*;

use crate::time::Timestamp;
use crate::Error;

verus! {

/// A permission granted to a token.
#[derive(Clone, Copy, Debug, PartialEq, Eq, Structural)]
pub enum Scope {
    Accounts,
    Balances,
    Transactions,
    Transfers,
    Beneficiarypayments,
    Statements,
    Taxcertificates,
    Cards,
}

/// `a` and `b` hold the same characters.
pub(crate) fn same_text(a: &str, b: &str) -> (r: bool)
    ensures
        r == (a@ == b@),
{
    let n = a.unicode_len();
    if n != b.unicode_len() {
        return false;
    }
    let mut i: usize = 0;
    while i < n
        invariant
            n == a@.len(),
            n == b@.len(),
            i <= n,
            a@.subrange(0, i as int) == b@.subrange(0, i as int),
        decreases n - i,
    {
        if a.get_char(i) != b.get_char(i) {
            assert(a@[i as int] != b@[i as int]);
            return false;
        }
        assert(a@.subrange(0, i + 1) == a@.subrange(0, i as int).push(a@[i as int]));
        assert(b@.subrange(0, i + 1) == b@.subrange(0, i as int).push(b@[i as int]));
        i = i + 1;
    }
    assert(a@ == a@.subrange(0, n as int));
    assert(b@ == b@.subrange(0, n as int));
    true
}

impl Scope {
    /// The tag by which the token endpoint names the scope.
    pub open spec fn wire_name(self) -> Seq<char> {
        match self {
            Scope::Accounts => "accounts"@,
            Scope::Balances => "balances"@,
            Scope::Transactions => "transactions"@,
            Scope::Transfers => "transfers"@,
            Scope::Beneficiarypayments => "beneficiarypayments"@,
            Scope::Statements => "statements"@,
            Scope::Taxcertificates => "taxcertificates"@,
            Scope::Cards => "cards"@,
        }
    }

    /// The scope whose wire tag is `w`, if any.
    pub open spec fn from_wire(w: Seq<char>) -> Option<Scope> {
        if w == "accounts"@ {
            Some(Scope::Accounts)
        } else if w == "balances"@ {
            Some(Scope::Balances)
        } else if w == "transactions"@ {
            Some(Scope::Transactions)
        } else if w == "transfers"@ {
            Some(Scope::Transfers)
        } else if w == "beneficiarypayments"@ {
            Some(Scope::Beneficiarypayments)
        } else if w == "statements"@ {
            Some(Scope::Statements)
        } else if w == "taxcertificates"@ {
            Some(Scope::Taxcertificates)
        } else if w == "cards"@ {
            Some(Scope::Cards)
        } else {
            None
        }
    }

    /// Every scope is found again from its wire tag.
    pub proof fn lemma_wire_name_round_trip(self)
        ensures
            Scope::from_wire(self.wire_name()) == Some(self),
    {
        reveal_strlit("accounts");
        reveal_strlit("balances");
        reveal_strlit("transactions");
        reveal_strlit("transfers");
        reveal_strlit("beneficiarypayments");
        reveal_strlit("statements");
        reveal_strlit("taxcertificates");
        reveal_strlit("cards");
        match self {
            Scope::Accounts => {},
            Scope::Balances => {
                assert("balances"@[0] != "accounts"@[0]);
            },
            Scope::Transactions => {
                assert("transactions"@.len() != "accounts"@.len());
                assert("transactions"@.len() != "balances"@.len());
            },
            Scope::Transfers => {
                assert("transfers"@.len() != "accounts"@.len());
                assert("transfers"@.len() != "balances"@.len());
                assert("transfers"@.len() != "transactions"@.len());
            },
            Scope::Beneficiarypayments => {
                assert("beneficiarypayments"@.len() != "accounts"@.len());
                assert("beneficiarypayments"@.len() != "balances"@.len());
                assert("beneficiarypayments"@.len() != "transactions"@.len());
                assert("beneficiarypayments"@.len() != "transfers"@.len());
            },
            Scope::Statements => {
                assert("statements"@.len() != "accounts"@.len());
                assert("statements"@.len() != "balances"@.len());
                assert("statements"@.len() != "transactions"@.len());
                assert("statements"@.len() != "transfers"@.len());
                assert("statements"@.len() != "beneficiarypayments"@.len());
            },
            Scope::Taxcertificates => {
                assert("taxcertificates"@.len() != "accounts"@.len());
                assert("taxcertificates"@.len() != "balances"@.len());
                assert("taxcertificates"@.len() != "transactions"@.len());
                assert("taxcertificates"@.len() != "transfers"@.len());
                assert("taxcertificates"@.len() != "beneficiarypayments"@.len());
                assert("taxcertificates"@.len() != "statements"@.len());
            },
            Scope::Cards => {
                assert("cards"@.len() != "accounts"@.len());
                assert("cards"@.len() != "balances"@.len());
                assert("cards"@.len() != "transactions"@.len());
                assert("cards"@.len() != "transfers"@.len());
                assert("cards"@.len() != "beneficiarypayments"@.len());
                assert("cards"@.len() != "statements"@.len());
                assert("cards"@.len() != "taxcertificates"@.len());
            },
        }
    }

    /// Looks a wire tag up in the closed set of scopes.
    pub fn from_str(s: &str) -> (r: Result<Scope, ()>)
        ensures
            r matches Ok(v) ==> Scope::from_wire(s@) == Some(v),
            r is Err ==> Scope::from_wire(s@) is None,
    {
        if same_text(s, "accounts") {
            Ok(Scope::Accounts)
        } else if same_text(s, "balances") {
            Ok(Scope::Balances)
        } else if same_text(s, "transactions") {
            Ok(Scope::Transactions)
        } else if same_text(s, "transfers") {
            Ok(Scope::Transfers)
        } else if same_text(s, "beneficiarypayments") {
            Ok(Scope::Beneficiarypayments)
        } else if same_text(s, "statements") {
            Ok(Scope::Statements)
        } else if same_text(s, "taxcertificates") {
            Ok(Scope::Taxcertificates)
        } else if same_text(s, "cards") {
            Ok(Scope::Cards)
        } else {
            Err(())
        }
    }
}

/// Unicode White_Space, the set `char::is_whitespace` tests for.
pub open spec fn is_white(c: char) -> bool {
    let u = c as u32;
    (0x9 <= u && u <= 0xd) || u == 0x20 || u == 0x85 || u == 0xa0 || u == 0x1680 || (0x2000 <= u
        && u <= 0x200a) || u == 0x2028 || u == 0x2029 || u == 0x202f || u == 0x205f || u == 0x3000
}

/// Tests a character for Unicode white space.
fn char_is_white(c: char) -> (r: bool)
    ensures
        r == is_white(c),
{
    let u = c as u32;
    (0x9 <= u && u <= 0xd) || u == 0x20 || u == 0x85 || u == 0xa0 || u == 0x1680 || (0x2000 <= u
        && u <= 0x200a) || u == 0x2028 || u == 0x2029 || u == 0x202f || u == 0x205f || u == 0x3000
}

/// The maximal runs of non-white characters of `s`, in order, where `cur` is
/// a run already begun before `s`.
pub open spec fn words_from(s: Seq<char>, cur: Seq<char>) -> Seq<Seq<char>>
    decreases s.len(),
{
    if s.len() == 0 {
        if cur.len() == 0 {
            seq![]
        } else {
            seq![cur]
        }
    } else if is_white(s[0]) {
        if cur.len() == 0 {
            words_from(s.drop_first(), seq![])
        } else {
            seq![cur] + words_from(s.drop_first(), seq![])
        }
    } else {
        words_from(s.drop_first(), cur.push(s[0]))
    }
}

/// The white-space separated words of `s`.
pub open spec fn words(s: Seq<char>) -> Seq<Seq<char>> {
    words_from(s, seq![])
}

/// Every word of `ws` names a scope.
pub open spec fn all_known(ws: Seq<Seq<char>>) -> bool {
    forall|k: int| 0 <= k < ws.len() ==> (#[trigger] Scope::from_wire(ws[k])) is Some
}

/// The scopes that the words `ws` name, in order.
pub open spec fn scopes_named(ws: Seq<Seq<char>>) -> Seq<Scope> {
    ws.map_values(|w: Seq<char>| Scope::from_wire(w)->0)
}

/// Splits a space-separated scope string and maps each tag to its scope;
/// the first tag outside the known set fails the whole parse.
pub fn parse_scopes(s: &str) -> (r: Result<Vec<Scope>, Error>)
    ensures
        r is Ok <==> all_known(words(s@)),
        r matches Ok(v) ==> v@ == scopes_named(words(s@)),
        r matches Err(e) ==> e matches Error::UnknownScope { scope } && Scope::from_wire(scope@)
            is None && words(s@).contains(scope@),
{
    let n = s.unicode_len();
    let mut out: Vec<Scope> = Vec::new();
    let ghost mut acc: Seq<Seq<char>> = seq![];
    let mut start: usize = 0;
    let mut in_word = false;
    let mut i: usize = 0;
    assert(s@.skip(0) =~= s@);
    assert(acc + words(s@) =~= words(s@));
    while i < n
        invariant
            n == s@.len(),
            i <= n,
            start <= i,
            in_word ==> start < i,
            words(s@) == acc + words_from(
                s@.skip(i as int),
                if in_word {
                    s@.subrange(start as int, i as int)
                } else {
                    seq![]
                },
            ),
            all_known(acc),
            out@ == scopes_named(acc),
        decreases n - i,
    {
        let c = s.get_char(i);
        let ghost cur = if in_word {
            s@.subrange(start as int, i as int)
        } else {
            seq![]
        };
        assert(s@.skip(i as int).drop_first() =~= s@.skip(i + 1));
        assert(s@.skip(i as int)[0] == c);
        if char_is_white(c) {
            if in_word {
                let word = s.substring_char(start, i);
                assert(acc.push(cur) + words_from(s@.skip(i + 1), seq![]) =~= acc + (seq![cur]
                    + words_from(s@.skip(i + 1), seq![])));
                match Scope::from_str(word) {
                    Ok(sc) => {
                        out.push(sc);
                        proof {
                            acc = acc.push(cur);
                        }
                        assert(scopes_named(acc) =~= out@);
                    },
                    Err(()) => {
                        assert(words(s@)[acc.len() as int] == cur);
                        return Err(Error::UnknownScope { scope: word.to_string() });
                    },
                }
                in_word = false;
            }
        } else {
            if in_word {
                assert(s@.subrange(start as int, i + 1) =~= cur.push(c));
            } else {
                assert(s@.subrange(i as int, i + 1) =~= cur.push(c));
                start = i;
                in_word = true;
            }
        }
        i = i + 1;
    }
    if in_word {
        let word = s.substring_char(start, n);
        let ghost cur = s@.subrange(start as int, n as int);
        assert(words(s@) == acc.push(cur));
        match Scope::from_str(word) {
            Ok(sc) => {
                out.push(sc);
                proof {
                    acc = acc.push(cur);
                }
                assert(scopes_named(acc) =~= out@);
            },
            Err(()) => {
                assert(words(s@)[acc.len() as int] == cur);
                return Err(Error::UnknownScope { scope: word.to_string() });
            },
        }
    } else {
        assert(words(s@) =~= acc);
    }
    Ok(out)
}

impl Scope {
    /// The name under which a cached token lists the scope.
    pub open spec fn stored_name(self) -> Seq<char> {
        match self {
            Scope::Accounts => "Accounts"@,
            Scope::Balances => "Balances"@,
            Scope::Transactions => "Transactions"@,
            Scope::Transfers => "Transfers"@,
            Scope::Beneficiarypayments => "Beneficiarypayments"@,
            Scope::Statements => "Statements"@,
            Scope::Taxcertificates => "Taxcertificates"@,
            Scope::Cards => "Cards"@,
        }
    }

    /// The scope listed under `w` in a cached token, if any.
    pub open spec fn from_stored_name(w: Seq<char>) -> Option<Scope> {
        if w == "Accounts"@ {
            Some(Scope::Accounts)
        } else if w == "Balances"@ {
            Some(Scope::Balances)
        } else if w == "Transactions"@ {
            Some(Scope::Transactions)
        } else if w == "Transfers"@ {
            Some(Scope::Transfers)
        } else if w == "Beneficiarypayments"@ {
            Some(Scope::Beneficiarypayments)
        } else if w == "Statements"@ {
            Some(Scope::Statements)
        } else if w == "Taxcertificates"@ {
            Some(Scope::Taxcertificates)
        } else if w == "Cards"@ {
            Some(Scope::Cards)
        } else {
            None
        }
    }

    /// The name under which a cached token lists the scope.
    pub fn name(&self) -> (r: String)
        ensures
            r@ == self.stored_name(),
    {
        match self {
            Scope::Accounts => "Accounts".to_string(),
            Scope::Balances => "Balances".to_string(),
            Scope::Transactions => "Transactions".to_string(),
            Scope::Transfers => "Transfers".to_string(),
            Scope::Beneficiarypayments => "Beneficiarypayments".to_string(),
            Scope::Statements => "Statements".to_string(),
            Scope::Taxcertificates => "Taxcertificates".to_string(),
            Scope::Cards => "Cards".to_string(),
        }
    }

    /// Reads a scope name of a cached token.
    pub fn from_name(s: &str) -> (r: Option<Scope>)
        ensures
            r == Scope::from_stored_name(s@),
    {
        if same_text(s, "Accounts") {
            Some(Scope::Accounts)
        } else if same_text(s, "Balances") {
            Some(Scope::Balances)
        } else if same_text(s, "Transactions") {
            Some(Scope::Transactions)
        } else if same_text(s, "Transfers") {
            Some(Scope::Transfers)
        } else if same_text(s, "Beneficiarypayments") {
            Some(Scope::Beneficiarypayments)
        } else if same_text(s, "Statements") {
            Some(Scope::Statements)
        } else if same_text(s, "Taxcertificates") {
            Some(Scope::Taxcertificates)
        } else if same_text(s, "Cards") {
            Some(Scope::Cards)
        } else {
            None
        }
    }

    /// Every scope is read back from its stored name.
    pub proof fn lemma_stored_name_round_trip(self)
        ensures
            Scope::from_stored_name(self.stored_name()) == Some(self),
    {
        reveal_strlit("Accounts");
        reveal_strlit("Balances");
        reveal_strlit("Transactions");
        reveal_strlit("Transfers");
        reveal_strlit("Beneficiarypayments");
        reveal_strlit("Statements");
        reveal_strlit("Taxcertificates");
        reveal_strlit("Cards");
        match self {
            Scope::Accounts => {},
            Scope::Balances => {
                assert("Balances"@[0] != "Accounts"@[0]);
            },
            Scope::Transactions => {
                assert("Transactions"@.len() != "Accounts"@.len());
                assert("Transactions"@.len() != "Balances"@.len());
            },
            Scope::Transfers => {
                assert("Transfers"@.len() != "Accounts"@.len());
                assert("Transfers"@.len() != "Balances"@.len());
                assert("Transfers"@.len() != "Transactions"@.len());
            },
            Scope::Beneficiarypayments => {
                assert("Beneficiarypayments"@.len() != "Accounts"@.len());
                assert("Beneficiarypayments"@.len() != "Balances"@.len());
                assert("Beneficiarypayments"@.len() != "Transactions"@.len());
                assert("Beneficiarypayments"@.len() != "Transfers"@.len());
            },
            Scope::Statements => {
                assert("Statements"@.len() != "Accounts"@.len());
                assert("Statements"@.len() != "Balances"@.len());
                assert("Statements"@.len() != "Transactions"@.len());
                assert("Statements"@.len() != "Transfers"@.len());
                assert("Statements"@.len() != "Beneficiarypayments"@.len());
            },
            Scope::Taxcertificates => {
                assert("Taxcertificates"@.len() != "Accounts"@.len());
                assert("Taxcertificates"@.len() != "Balances"@.len());
                assert("Taxcertificates"@.len() != "Transactions"@.len());
                assert("Taxcertificates"@.len() != "Transfers"@.len());
                assert("Taxcertificates"@.len() != "Beneficiarypayments"@.len());
                assert("Taxcertificates"@.len() != "Statements"@.len());
            },
            Scope::Cards => {
                assert("Cards"@.len() != "Accounts"@.len());
                assert("Cards"@.len() != "Balances"@.len());
                assert("Cards"@.len() != "Transactions"@.len());
                assert("Cards"@.len() != "Transfers"@.len());
                assert("Cards"@.len() != "Beneficiarypayments"@.len());
                assert("Cards"@.len() != "Statements"@.len());
                assert("Cards"@.len() != "Taxcertificates"@.len());
            },
        }
    }
}

/// A token as the token endpoint issues it.
#[derive(Debug)]
pub struct AccessTokenResponse {
    pub access_token: String,
    pub token_type: String,
    /// Seconds from issuance until the token must no longer be used.
    pub expires_in: u32,
    pub scope: Vec<Scope>,
}

impl AccessTokenResponse {
    /// Builds the response from the fields of the endpoint's answer, whose
    /// scope field is one space-separated string of tags.
    pub fn decode(access_token: String, token_type: String, expires_in: u32, scope: &str) -> (r:
        Result<AccessTokenResponse, Error>)
        ensures
            r is Ok <==> all_known(words(scope@)),
            r matches Ok(v) ==> v.access_token == access_token && v.token_type == token_type
                && v.expires_in == expires_in && v.scope@ == scopes_named(words(scope@)),
            r matches Err(e) ==> e matches Error::UnknownScope { scope: tag }
                && Scope::from_wire(tag@) is None && words(scope@).contains(tag@),
    {
        let scope = parse_scopes(scope)?;
        Ok(AccessTokenResponse { access_token, token_type, expires_in, scope })
    }
}

/// What the client holds of a token: the credential, its scopes, and the
/// absolute instant at which it stops being usable.
#[derive(Clone, Debug)]
pub struct AccessToken {
    pub access_token: String,
    pub token_type: String,
    pub scope: Vec<Scope>,
    pub expires_at: Timestamp,
}

/// The content of an [`AccessToken`].
pub struct AccessTokenView {
    pub access_token: Seq<char>,
    pub token_type: Seq<char>,
    pub scope: Seq<Scope>,
    pub expires_at: Timestamp,
}

impl View for AccessToken {
    type V = AccessTokenView;

    open spec fn view(&self) -> AccessTokenView {
        AccessTokenView {
            access_token: self.access_token@,
            token_type: self.token_type@,
            scope: self.scope@,
            expires_at: self.expires_at,
        }
    }
}

impl AccessTokenView {
    /// At instant `now` the token is no longer usable.
    pub open spec fn expired_at(self, now: Timestamp) -> bool {
        now.at_or_after(self.expires_at)
    }
}

impl AccessToken {
    /// The token that `response` describes, issued at `now`: it expires
    /// `expires_in` seconds later.
    pub open spec fn issued_spec(response: AccessTokenResponse, now: Timestamp) -> AccessTokenView {
        AccessTokenView {
            access_token: response.access_token@,
            token_type: response.token_type@,
            scope: response.scope@,
            expires_at: now.plus_secs(response.expires_in as int),
        }
    }

    /// Turns an issuance response received at `now` into a token.
    pub fn issued(response: AccessTokenResponse, now: Timestamp) -> (r: AccessToken)
        requires
            now.secs + response.expires_in <= i64::MAX,
        ensures
            r@ == AccessToken::issued_spec(response, now),
    {
        let expires_at = now.add_secs(response.expires_in);
        AccessToken {
            access_token: response.access_token,
            token_type: response.token_type,
            scope: response.scope,
            expires_at,
        }
    }

    /// Whether the token is expired at instant `now`.
    pub fn expired_at(&self, now: Timestamp) -> (r: bool)
        ensures
            r == self@.expired_at(now),
    {
        now.is_at_or_after(&self.expires_at)
    }

    /// Whether the token is expired now, by the system clock.
    pub fn expired(&self) -> (r: bool)
        ensures
            exists|now: Timestamp| 0 <= now.secs && r == #[trigger] self@.expired_at(now),
    {
        let now = Timestamp::now();
        self.expired_at(now)
    }
}

/// Expiry depends on the instant alone and holds from `expires_at` on: a
/// token expired at `a` is expired at every instant `b` at or after `a`.
pub proof fn lemma_expiry_monotonic(t: AccessTokenView, a: Timestamp, b: Timestamp)
    requires
        t.expired_at(a),
        b.at_or_after(a),
    ensures
        t.expired_at(b),
{
}

/// A token issued with a positive lifetime is not expired at the instant of
/// issuance.
pub proof fn lemma_fresh_token_usable(response: AccessTokenResponse, now: Timestamp)
    requires
        response.expires_in > 0,
        now.secs + response.expires_in <= i64::MAX,
    ensures
        !AccessToken::issued_spec(response, now).expired_at(now),
{
}

/// A token as a token store keeps it, with each scope under its name.
#[derive(Clone, Debug)]
pub struct StoredToken {
    pub access_token: String,
    pub token_type: String,
    pub scope: Vec<String>,
    pub expires_at: Timestamp,
}

/// The content of a [`StoredToken`].
pub struct StoredTokenView {
    pub access_token: Seq<char>,
    pub token_type: Seq<char>,
    pub scope: Seq<Seq<char>>,
    pub expires_at: Timestamp,
}

impl View for StoredToken {
    type V = StoredTokenView;

    open spec fn view(&self) -> StoredTokenView {
        StoredTokenView {
            access_token: self.access_token@,
            token_type: self.token_type@,
            scope: self.scope@.map_values(|n: String| n@),
            expires_at: self.expires_at,
        }
    }
}

impl AccessTokenView {
    /// The stored form of the token.
    pub open spec fn stored(self) -> StoredTokenView {
        StoredTokenView {
            access_token: self.access_token,
            token_type: self.token_type,
            scope: self.scope.map_values(|c: Scope| c.stored_name()),
            expires_at: self.expires_at,
        }
    }
}

impl StoredTokenView {
    /// Every scope name is known.
    pub open spec fn names_known(self) -> bool {
        forall|k: int|
            0 <= k < self.scope.len() ==> (#[trigger] Scope::from_stored_name(self.scope[k])) is Some
    }

    /// The token that the stored form describes, if all its scope names are
    /// known.
    pub open spec fn token(self) -> Option<AccessTokenView> {
        if self.names_known() {
            Some(
                AccessTokenView {
                    access_token: self.access_token,
                    token_type: self.token_type,
                    scope: self.scope.map_values(|n: Seq<char>| Scope::from_stored_name(n)->0),
                    expires_at: self.expires_at,
                },
            )
        } else {
            None
        }
    }
}

impl AccessToken {
    /// Encodes the token for a token store.
    pub fn to_stored(&self) -> (r: StoredToken)
        ensures
            r@ == self@.stored(),
    {
        let mut names: Vec<String> = Vec::new();
        let mut i: usize = 0;
        while i < self.scope.len()
            invariant
                i <= self.scope@.len(),
                names@.len() == i,
                forall|k: int| 0 <= k < i ==> #[trigger] names@[k]@ == self.scope@[k].stored_name(),
            decreases self.scope@.len() - i,
        {
            names.push(self.scope[i].name());
            i = i + 1;
        }
        assert(names@.map_values(|n: String| n@) =~= self.scope@.map_values(
            |c: Scope| c.stored_name(),
        ));
        StoredToken {
            access_token: self.access_token.clone(),
            token_type: self.token_type.clone(),
            scope: names,
            expires_at: self.expires_at,
        }
    }
}

impl StoredToken {
    /// Decodes a token read from a token store; a scope name outside the
    /// known set fails the decoding.
    pub fn to_token(&self) -> (r: Result<AccessToken, Error>)
        ensures
            r is Ok <==> self@.token() is Some,
            r matches Ok(t) ==> self@.token() == Some(t@),
            r matches Err(e) ==> e matches Error::UnknownScope { scope }
                && Scope::from_stored_name(scope@) is None && self@.scope.contains(scope@),
    {
        let ghost names = self@.scope;
        let mut scope: Vec<Scope> = Vec::new();
        let mut i: usize = 0;
        while i < self.scope.len()
            invariant
                i <= names.len(),
                names == self@.scope,
                forall|k: int| 0 <= k < i ==> (#[trigger] Scope::from_stored_name(names[k])) is Some,
                scope@.len() == i,
                forall|k: int|
                    0 <= k < i ==> #[trigger] scope@[k] == Scope::from_stored_name(names[k])->0,
            decreases names.len() - i,
        {
            assert(names[i as int] == self.scope@[i as int]@);
            match Scope::from_name(self.scope[i].as_str()) {
                Some(c) => {
                    scope.push(c);
                },
                None => {
                    return Err(Error::UnknownScope { scope: self.scope[i].clone() });
                },
            }
            i = i + 1;
        }
        assert(scope@ =~= names.map_values(|n: Seq<char>| Scope::from_stored_name(n)->0));
        Ok(
            AccessToken {
                access_token: self.access_token.clone(),
                token_type: self.token_type.clone(),
                scope,
                expires_at: self.expires_at,
            },
        )
    }
}

/// A token written to a store and read back is the token that was written:
/// same credential, type, scopes in order, and expiry instant.
pub proof fn lemma_store_round_trip(t: AccessTokenView)
    ensures
        t.stored().token() == Some(t),
{
    let s = t.stored();
    assert forall|k: int| 0 <= k < s.scope.len() implies (#[trigger] Scope::from_stored_name(
        s.scope[k],
    )) is Some by {
        t.scope[k].lemma_stored_name_round_trip();
    }
    let back = s.scope.map_values(|n: Seq<char>| Scope::from_stored_name(n)->0);
    assert forall|k: int| 0 <= k < t.scope.len() implies back[k] == t.scope[k] by {
        t.scope[k].lemma_stored_name_round_trip();
    }
    assert(back =~= t.scope);
}

} // verus!
