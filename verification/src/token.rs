//! Signing and verifying bearer tokens with one shared secret.
//!
//! A token is a JSON Web Token signed with HMAC-SHA256. Making and checking
//! it is the work of the `jwt` and `hmac` crates; this module names what they
//! return and says what the service does with it.

use vstd::prelude::*;
use crate::error::MyError;
use crate::text::same_text;
use hmac::{Hmac, Mac};
use jwt::{SignWithKey, VerifyWithKey};
use sha2::Sha256;
use std::collections::BTreeMap;

verus! {

/// The claim that every token of this service carries.
pub open spec fn audience_claims() -> Map<Seq<char>, Seq<char>> {
    Map::empty().insert("audiance"@, "127.0.0.1"@)
}

/// The values of a list of entries, in the same order.
pub open spec fn entries_view(entries: Seq<(String, String)>) -> Seq<(Seq<char>, Seq<char>)> {
    entries.map_values(|entry: (String, String)| (entry.0@, entry.1@))
}

/// No two entries share a key.
pub open spec fn distinct_keys(entries: Seq<(Seq<char>, Seq<char>)>) -> bool {
    forall|i: int, j: int|
        0 <= i < j < entries.len() ==> (#[trigger] entries[i]).0 != (#[trigger] entries[j]).0
}

/// The mapping that a list of entries writes out.
pub open spec fn map_of(entries: Seq<(Seq<char>, Seq<char>)>) -> Map<Seq<char>, Seq<char>>
    decreases entries.len(),
{
    if entries.len() == 0 {
        Map::empty()
    } else {
        map_of(entries.drop_last()).insert(entries.last().0, entries.last().1)
    }
}

/// Some entry has this key.
pub open spec fn has_key(entries: Seq<(Seq<char>, Seq<char>)>, key: Seq<char>) -> bool {
    exists|i: int| 0 <= i < entries.len() && (#[trigger] entries[i]).0 == key
}

/// A key is in the mapping exactly when an entry has it, and with distinct
/// keys the mapping gives each entry's key the entry's value.
proof fn lemma_map_of(entries: Seq<(Seq<char>, Seq<char>)>)
    requires
        distinct_keys(entries),
    ensures
        forall|k: Seq<char>| #[trigger] map_of(entries).contains_key(k) <==> has_key(entries, k),
        forall|i: int|
            0 <= i < entries.len() ==> map_of(entries).contains_key((#[trigger] entries[i]).0)
                && map_of(entries)[entries[i].0] == entries[i].1,
    decreases entries.len(),
{
    if entries.len() > 0 {
        let front = entries.drop_last();
        let last = entries.last();
        assert forall|i: int, j: int| 0 <= i < j < front.len() implies (#[trigger] front[i]).0 != (
        #[trigger] front[j]).0 by {
            assert(entries[i].0 != entries[j].0);
        }
        lemma_map_of(front);
        assert forall|k: Seq<char>| #[trigger]
            map_of(entries).contains_key(k) <==> has_key(entries, k) by {
            if map_of(entries).contains_key(k) {
                if k == last.0 {
                    assert(entries[entries.len() - 1].0 == k);
                } else {
                    assert(map_of(front).contains_key(k));
                    assert(has_key(front, k));
                    let i = choose|i: int| 0 <= i < front.len() && (#[trigger] front[i]).0 == k;
                    assert(entries[i].0 == k);
                }
            }
            if has_key(entries, k) {
                let i = choose|i: int| 0 <= i < entries.len() && (#[trigger] entries[i]).0 == k;
                if i < front.len() {
                    assert(front[i].0 == k);
                    assert(has_key(front, k));
                    assert(map_of(front).contains_key(k));
                }
            }
        }
        assert forall|i: int| 0 <= i < entries.len() implies map_of(entries).contains_key(
            (#[trigger] entries[i]).0,
        ) && map_of(entries)[entries[i].0] == entries[i].1 by {
            if i < front.len() {
                assert(front[i] == entries[i]);
                assert(entries[i].0 != entries[entries.len() - 1].0);
            }
        }
    }
}

/// Giving the entry at `at` a new value gives its key that value in the
/// mapping.
proof fn lemma_map_of_update(entries: Seq<(Seq<char>, Seq<char>)>, at: int, value: Seq<char>)
    requires
        distinct_keys(entries),
        0 <= at < entries.len(),
    ensures
        distinct_keys(entries.update(at, (entries[at].0, value))),
        map_of(entries.update(at, (entries[at].0, value))) == map_of(entries).insert(
            entries[at].0,
            value,
        ),
{
    let key = entries[at].0;
    let after = entries.update(at, (key, value));
    assert forall|i: int, j: int| 0 <= i < j < after.len() implies (#[trigger] after[i]).0 != (
    #[trigger] after[j]).0 by {
        assert(entries[i].0 != entries[j].0);
    }
    lemma_map_of(entries);
    lemma_map_of(after);
    let want = map_of(entries).insert(key, value);
    assert forall|k: Seq<char>| map_of(after).contains_key(k) <==> want.contains_key(k) by {
        if map_of(after).contains_key(k) {
            assert(has_key(after, k));
            let i = choose|i: int| 0 <= i < after.len() && (#[trigger] after[i]).0 == k;
            assert(entries[i].0 == k);
            assert(has_key(entries, k));
        }
        if want.contains_key(k) && k != key {
            assert(map_of(entries).contains_key(k));
            assert(has_key(entries, k));
            let i = choose|i: int| 0 <= i < entries.len() && (#[trigger] entries[i]).0 == k;
            assert(after[i].0 == k);
            assert(has_key(after, k));
        }
        if k == key {
            assert(after[at].0 == k);
            assert(has_key(after, k));
        }
    }
    assert forall|k: Seq<char>| map_of(after).contains_key(k) implies map_of(after)[k]
        == want[k] by {
        assert(has_key(after, k));
        let i = choose|i: int| 0 <= i < after.len() && (#[trigger] after[i]).0 == k;
        assert(map_of(after)[after[i].0] == after[i].1);
        if i != at {
            assert(entries[i] == after[i]);
            assert(map_of(entries)[entries[i].0] == entries[i].1);
            if i < at {
                assert(entries[i].0 != entries[at].0);
            } else {
                assert(entries[at].0 != entries[i].0);
            }
        }
    }
    assert(map_of(after) =~= want);
}

/// The claims inside a token: a mapping from string keys to string values.
#[derive(Debug)]
pub struct Claims {
    entries: Vec<(String, String)>,
}

impl View for Claims {
    type V = Map<Seq<char>, Seq<char>>;

    closed spec fn view(&self) -> Map<Seq<char>, Seq<char>> {
        map_of(entries_view(self.entries@))
    }
}

impl Claims {
    /// Each key stands once among the entries.
    #[verifier::type_invariant]
    closed spec fn wf(&self) -> bool {
        distinct_keys(entries_view(self.entries@))
    }

    /// Claims without an entry.
    pub fn new() -> (claims: Claims)
        ensures
            claims@ == Map::<Seq<char>, Seq<char>>::empty(),
    {
        Claims { entries: Vec::new() }
    }

    /// The place of the entry with this key.
    fn position(&self, key: &str) -> (at: Option<usize>)
        ensures
            match at {
                Some(i) => i < self.entries.len() && self.entries[i as int].0@ == key@,
                None => forall|k: int|
                    0 <= k < self.entries.len() ==> (#[trigger] self.entries[k]).0@ != key@,
            },
    {
        let mut i: usize = 0;
        while i < self.entries.len()
            invariant
                i <= self.entries.len(),
                forall|k: int| 0 <= k < i ==> (#[trigger] self.entries[k]).0@ != key@,
            decreases self.entries.len() - i,
        {
            if same_text(self.entries[i].0.as_str(), key) {
                return Some(i);
            }
            i = i + 1;
        }
        None
    }

    /// Gives `key` the value `value`, whether or not it had one.
    pub fn insert(&mut self, key: String, value: String)
        ensures
            final(self)@ == old(self)@.insert(key@, value@),
    {
        proof {
            use_type_invariant(&*self);
        }
        let found = self.position(key.as_str());
        let ghost before = entries_view(self.entries@);
        let mut entries: Vec<(String, String)> = Vec::new();
        std::mem::swap(&mut entries, &mut self.entries);
        match found {
            Some(at) => {
                entries.set(at, (key, value));
                proof {
                    lemma_map_of_update(before, at as int, value@);
                    assert(entries_view(entries@) =~= before.update(at as int, (key@, value@)));
                }
            },
            None => {
                entries.push((key, value));
                proof {
                    let after = entries_view(entries@);
                    assert(after =~= before.push((key@, value@)));
                    assert(after.drop_last() =~= before);
                    assert forall|i: int, j: int| 0 <= i < j < after.len() implies (
                    #[trigger] after[i]).0 != (#[trigger] after[j]).0 by {
                        if j < before.len() {
                            assert(before[i].0 != before[j].0);
                        } else {
                            assert(before[i].0 != key@);
                        }
                    }
                }
            },
        }
        self.entries = entries;
    }

    /// The value of `key`, if it has one.
    pub fn get(&self, key: &str) -> (value: Option<String>)
        ensures
            match value {
                Some(v) => self@.contains_key(key@) && self@[key@] == v@,
                None => !self@.contains_key(key@),
            },
    {
        proof {
            use_type_invariant(self);
            lemma_map_of(entries_view(self.entries@));
        }
        match self.position(key) {
            Some(at) => {
                assert(entries_view(self.entries@)[at as int].0 == key@);
                Some(self.entries[at].1.clone())
            },
            None => {
                assert forall|i: int| 0 <= i < self.entries.len() implies (#[trigger] entries_view(
                    self.entries@,
                )[i]).0 != key@ by {
                    assert(self.entries[i].0@ != key@);
                }
                assert(!has_key(entries_view(self.entries@), key@));
                None
            },
        }
    }
}

/// The value of a text that may be missing.
pub open spec fn text_view(text: Option<String>) -> Option<Seq<char>> {
    match text {
        Some(t) => Some(t@),
        None => None,
    }
}

/// The value of claims that may be missing.
pub open spec fn claims_view(claims: Option<Claims>) -> Option<Map<Seq<char>, Seq<char>>> {
    match claims {
        Some(c) => Some(c@),
        None => None,
    }
}

/// The token that signing `claims` under `secret` gives, or `None` where the
/// signing fails.
pub uninterp spec fn signed_token(secret: Seq<char>, claims: Map<Seq<char>, Seq<char>>) -> Option<
    Seq<char>,
>;

/// The claims that `token` holds if it verifies under `secret`, or `None`
/// where it does not.
pub uninterp spec fn verified_claims(secret: Seq<char>, token: Seq<char>) -> Option<
    Map<Seq<char>, Seq<char>>,
>;

/// Builds the HMAC-SHA256 key of `secret` with `Hmac::new_from_slice` and
/// signs the claims, as a map, with `jwt::SignWithKey::sign_with_key`. The
/// entries of claims have distinct keys, so the map holds just these entries.
///
/// Believed, not proved: the outcome depends on the secret and the claims
/// alone, and a token that comes out verifies under the same secret, with
/// the claims that were signed.
#[verifier::external_body]
fn jwt_sign(secret: &str, claims: &Claims) -> (token: Option<String>)
    ensures
        text_view(token) == signed_token(secret@, claims@),
        token matches Some(t) ==> verified_claims(secret@, t@) == Some(claims@),
{
    let key: Hmac<Sha256> = Hmac::new_from_slice(secret.as_bytes()).ok()?;
    let map: BTreeMap<String, String> = claims.entries.iter().cloned().collect();
    map.sign_with_key(&key).ok()
}

/// Builds the HMAC-SHA256 key of `secret` with `Hmac::new_from_slice` and
/// checks the token with `jwt::VerifyWithKey::verify_with_key`, reading its
/// claims as a map from strings to strings.
///
/// Believed, not proved: the outcome depends on the secret and the token
/// alone.
#[verifier::external_body]
fn jwt_verify(secret: &str, token: &str) -> (claims: Option<Claims>)
    ensures
        claims_view(claims) == verified_claims(secret@, token@),
{
    let key: Hmac<Sha256> = Hmac::new_from_slice(secret.as_bytes()).ok()?;
    let map: BTreeMap<String, String> = token.verify_with_key(&key).ok()?;
    Some(Claims { entries: map.into_iter().collect() })
}

/// What signing answers for each outcome of the signing itself: the token, or
/// `InternalError` where none came out.
pub open spec fn sign_result(signed: Option<Seq<char>>) -> Result<Seq<char>, MyError> {
    match signed {
        Some(token) => Ok(token),
        None => Err(MyError::InternalError),
    }
}

/// What verifying answers for each outcome of the check itself: the claims,
/// or `Unauthorized` where the token did not verify.
pub open spec fn verify_result(verified: Option<Map<Seq<char>, Seq<char>>>) -> Result<
    Map<Seq<char>, Seq<char>>,
    MyError,
> {
    match verified {
        Some(claims) => Ok(claims),
        None => Err(MyError::Unauthorized),
    }
}

/// The value of the answer of [`TokenCodec::sign`].
pub open spec fn signed_view(answer: Result<String, MyError>) -> Result<Seq<char>, MyError> {
    match answer {
        Ok(token) => Ok(token@),
        Err(error) => Err(error),
    }
}

/// The value of the answer of [`TokenCodec::verify`].
pub open spec fn verified_view(answer: Result<Claims, MyError>) -> Result<
    Map<Seq<char>, Seq<char>>,
    MyError,
> {
    match answer {
        Ok(claims) => Ok(claims@),
        Err(error) => Err(error),
    }
}

/// Turns the outcome of a signing into the answer of [`TokenCodec::sign`].
pub fn signing_answer(signed: Option<String>) -> (answer: Result<String, MyError>)
    ensures
        signed_view(answer) == sign_result(text_view(signed)),
{
    match signed {
        Some(token) => Ok(token),
        None => Err(MyError::InternalError),
    }
}

/// Turns the outcome of a check into the answer of [`TokenCodec::verify`].
pub fn verifying_answer(verified: Option<Claims>) -> (answer: Result<Claims, MyError>)
    ensures
        verified_view(answer) == verify_result(claims_view(verified)),
{
    match verified {
        Some(claims) => Ok(claims),
        None => Err(MyError::Unauthorized),
    }
}

/// Signs and verifies tokens with the secret it was made with. The secret
/// can be neither read out of a codec nor printed with it.
pub struct TokenCodec {
    secret: String,
}

impl TokenCodec {
    /// The secret of this codec.
    pub closed spec fn secret(&self) -> Seq<char> {
        self.secret@
    }

    /// `token` verifies under this codec's secret.
    pub open spec fn accepts(&self, token: Seq<char>) -> bool {
        verified_claims(self.secret(), token) is Some
    }

    /// A codec for `secret`. The secret is handed in by whoever builds the
    /// codec and stays what it is for as long as the codec lives.
    pub fn new(secret: String) -> (codec: TokenCodec)
        ensures
            codec.secret() == secret@,
    {
        TokenCodec { secret }
    }

    /// Signs `claims`. The same claims always give the same token, and every
    /// token that comes out is one that this codec accepts and reads the same
    /// claims from.
    pub fn sign(&self, claims: &Claims) -> (answer: Result<String, MyError>)
        ensures
            signed_view(answer) == sign_result(signed_token(self.secret(), claims@)),
            answer matches Ok(token) ==> self.accepts(token@) && verified_claims(
                self.secret(),
                token@,
            ) == Some(claims@),
    {
        signing_answer(jwt_sign(self.secret.as_str(), claims))
    }

    /// Checks `token` and gives its claims, or `Unauthorized` where the token
    /// is malformed, its signature does not match or its claims do not
    /// decode.
    pub fn verify(&self, token: &str) -> (answer: Result<Claims, MyError>)
        ensures
            verified_view(answer) == verify_result(verified_claims(self.secret(), token@)),
            answer is Ok <==> self.accepts(token@),
    {
        verifying_answer(jwt_verify(self.secret.as_str(), token))
    }
}

/// The token this service hands to its clients: the audience claim, signed.
/// The codec accepts the token and reads just that claim from it.
pub fn create_jwt(codec: &TokenCodec) -> (answer: Result<String, MyError>)
    ensures
        signed_view(answer) == sign_result(signed_token(codec.secret(), audience_claims())),
        answer matches Ok(token) ==> codec.accepts(token@) && verified_claims(
            codec.secret(),
            token@,
        ) == Some(audience_claims()),
{
    let mut claims = Claims::new();
    claims.insert("audiance".to_owned(), "127.0.0.1".to_owned());
    codec.sign(&claims)
}

} // verus!
