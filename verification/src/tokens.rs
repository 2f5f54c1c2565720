//! API token store: records hold only the SHA-256 of each token; the
//! plaintext is handed out once, when the token is created.
use vstd::prelude::*;

use crate::digest::{
    hash_hex, random_bytes_32, random_uuid_text, secret_from_bytes, text_hash, unix_now_secs,
    hex_lower, uuid_text,
};
use crate::error::CoreError;
use crate::text::{append_str, eq_ignore_ascii_case, eq_ignore_ascii_case_chars, str_chars, str_eq,
    string_from_chars};

verus! {

/// A stored token record (no plaintext).
#[derive(Debug, Clone)]
pub struct TokenRecord {
    /// Stable token id.
    pub token_id: String,
    /// Display name.
    pub name: String,
    /// Plaintext prefix (for recognition), e.g. `ask_ab12cdef`.
    pub prefix: String,
    /// SHA-256 of the plaintext, hex.
    pub hash_hex: String,
    /// Creation time, Unix seconds.
    pub created_at_unix: i64,
    /// Expiry, Unix seconds; `None` never expires.
    pub expires_at_unix: Option<i64>,
    /// Whether the token was revoked.
    pub revoked: bool,
}

impl TokenRecord {
    /// A field-by-field copy.
    pub fn copy(&self) -> (r: TokenRecord)
        ensures
            r == *self,
    {
        TokenRecord {
            token_id: self.token_id.clone(),
            name: self.name.clone(),
            prefix: self.prefix.clone(),
            hash_hex: self.hash_hex.clone(),
            created_at_unix: self.created_at_unix,
            expires_at_unix: self.expires_at_unix,
            revoked: self.revoked,
        }
    }
}

/// The token has an expiry and it is not after `now`.
pub open spec fn expired(t: TokenRecord, now: int) -> bool {
    t.expires_at_unix matches Some(e) && e <= now
}

/// The token counts as valid at `now`: not revoked and not expired.
pub open spec fn active(t: TokenRecord, now: int) -> bool {
    !t.revoked && !expired(t, now)
}

/// Number of tokens of `s` valid at `now`.
pub open spec fn count_active(s: Seq<TokenRecord>, now: int) -> nat
    decreases s.len(),
{
    if s.len() == 0 {
        0
    } else {
        count_active(s.drop_last(), now) + if active(s.last(), now) {
            1nat
        } else {
            0nat
        }
    }
}

/// Some token of `s` valid at `now` has the hash of `plain`.
pub open spec fn token_verifies(s: Seq<TokenRecord>, plain: Seq<char>, now: int) -> bool {
    exists|i: int|
        0 <= i < s.len() && active(#[trigger] s[i], now) && eq_ignore_ascii_case(
            s[i].hash_hex@,
            text_hash(plain),
        )
}

/// The records listed: all of them, or those not revoked.
pub open spec fn listed(s: Seq<TokenRecord>, include_revoked: bool) -> Seq<TokenRecord>
    decreases s.len(),
{
    if s.len() == 0 {
        Seq::empty()
    } else if include_revoked || !s.last().revoked {
        listed(s.drop_last(), include_revoked).push(s.last())
    } else {
        listed(s.drop_last(), include_revoked)
    }
}

/// `i` is the first position of a record with id `id`.
pub open spec fn first_with_id(s: Seq<TokenRecord>, id: Seq<char>, i: int) -> bool {
    &&& 0 <= i < s.len()
    &&& s[i].token_id@ == id
    &&& forall|m: int| 0 <= m < i ==> (#[trigger] s[m]).token_id@ != id
}

/// The first `n` characters of `s` (all of it when shorter).
pub open spec fn take_chars(s: Seq<char>, n: int) -> Seq<char> {
    if s.len() <= n {
        s
    } else {
        s.subrange(0, n)
    }
}

/// The record made for a new token.
pub open spec fn new_record(
    token_id: Seq<char>,
    name: Seq<char>,
    plain: Seq<char>,
    expires: Option<i64>,
    now: i64,
    r: TokenRecord,
) -> bool {
    &&& r.token_id@ == token_id
    &&& r.name@ == name
    &&& r.prefix@ == take_chars(plain, 12)
    &&& r.hash_hex@ == text_hash(plain)
    &&& r.created_at_unix == now
    &&& r.expires_at_unix == expires
    &&& !r.revoked
}

/// Token plaintexts are `ask_` followed by 64 lower-case hex digits.
pub open spec fn is_token_plaintext(p: Seq<char>) -> bool {
    exists|b: Seq<u8>| b.len() == 32 && p == "ask_"@ + hex_lower(b)
}

/// Message refused revocation carries.
pub open spec fn last_token_message() -> Seq<char> {
    "禁止吊销最后一把有效 API Token（LAST_TOKEN_REVOKE_FORBIDDEN）"@
}

/// What revoking the token with id `id` at `now` does: `before` and
/// `after` are the records around the call, `res` its result.
pub open spec fn revoke_outcome(
    before: Seq<TokenRecord>,
    after: Seq<TokenRecord>,
    id: Seq<char>,
    now: int,
    res: Result<(), CoreError>,
) -> bool {
    &&& (forall|i: int| 0 <= i < before.len() ==> (#[trigger] before[i]).token_id@ != id) ==> {
        &&& res matches Err(CoreError::NotFound(m)) && m@ == "token_id="@ + id
        &&& after == before
    }
    &&& forall|i: int|
        first_with_id(before, id, i) ==> {
            let rec = #[trigger] before[i];
            if rec.revoked {
                res is Ok && after == before
            } else if !expired(rec, now) && count_active(before, now) <= 1 {
                &&& res matches Err(CoreError::FailedPrecondition(m)) && m@ == last_token_message()
                &&& after == before
            } else {
                &&& res is Ok
                &&& after == before.update(i, TokenRecord { revoked: true, ..rec })
            }
        }
}

/// Revocation refuses only the last valid token: a refusal comes only
/// when the record is valid at `now` and is the one valid record; a
/// record that is revoked or expired is always revoked without refusal;
/// a valid record beside another valid one is revoked.
pub proof fn revoke_refuses_only_the_last_valid(before: Seq<TokenRecord>, id: Seq<char>, now: int)
    ensures
        forall|after: Seq<TokenRecord>, res: Result<(), CoreError>|
            #[trigger] revoke_outcome(before, after, id, now, res) ==> {
                &&& res matches Err(CoreError::FailedPrecondition(_)) ==> exists|i: int|
                    first_with_id(before, id, i) && active(#[trigger] before[i], now)
                        && count_active(before, now) == 1
                &&& forall|i: int|
                    first_with_id(before, id, i) && !active(#[trigger] before[i], now)
                        ==> res is Ok
                &&& forall|i: int|
                    first_with_id(before, id, i) && active(#[trigger] before[i], now)
                        && count_active(before, now) > 1 ==> res is Ok && !active(
                        after[i],
                        now,
                    )
            },
{
    assert forall|after: Seq<TokenRecord>, res: Result<(), CoreError>|
        #[trigger] revoke_outcome(before, after, id, now, res) implies {
        &&& res matches Err(CoreError::FailedPrecondition(_)) ==> exists|i: int|
            first_with_id(before, id, i) && active(#[trigger] before[i], now) && count_active(
                before,
                now,
            ) == 1
        &&& forall|i: int|
            first_with_id(before, id, i) && !active(#[trigger] before[i], now) ==> res is Ok
        &&& forall|i: int|
            first_with_id(before, id, i) && active(#[trigger] before[i], now) && count_active(
                before,
                now,
            ) > 1 ==> res is Ok && !active(after[i], now)
    } by {
        if res matches Err(CoreError::FailedPrecondition(_)) {
            if forall|i: int| 0 <= i < before.len() ==> (#[trigger] before[i]).token_id@ != id {
            } else {
                let j = choose|j: int| 0 <= j < before.len() && (#[trigger] before[j]).token_id@ == id;
                let i = first_index_with_id(before, id, j);
                assert(first_with_id(before, id, i));
                lemma_count_positive(before, i, now);
            }
        }
    }
}

/// The first position of a record with id `id`, when position `j` has it.
proof fn first_index_with_id(s: Seq<TokenRecord>, id: Seq<char>, j: int) -> (i: int)
    requires
        0 <= j < s.len(),
        s[j].token_id@ == id,
    ensures
        first_with_id(s, id, i),
    decreases j,
{
    if exists|m: int| 0 <= m < j && (#[trigger] s[m]).token_id@ == id {
        let m = choose|m: int| 0 <= m < j && (#[trigger] s[m]).token_id@ == id;
        first_index_with_id(s, id, m)
    } else {
        j
    }
}

/// The token repository: where it persists and its records.
#[derive(Debug)]
pub struct TokenStore {
    path: String,
    tokens: Vec<TokenRecord>,
}

/// The first `n` characters of `s`.
fn prefix_of(s: &str, n: usize) -> (r: String)
    ensures
        r@ == take_chars(s@, n as int),
{
    let cs = str_chars(s);
    if cs.len() <= n {
        return string_from_chars(cs.as_slice());
    }
    let mut v: Vec<char> = Vec::new();
    let mut k: usize = 0;
    while k < n
        invariant
            k <= n < cs@.len(),
            v@ == cs@.subrange(0, k as int),
        decreases n - k,
    {
        v.push(cs[k]);
        assert(v@ =~= cs@.subrange(0, k + 1));
        k = k + 1;
    }
    string_from_chars(v.as_slice())
}

/// Removing the validity of one record lowers the count by one.
proof fn lemma_count_update(s: Seq<TokenRecord>, i: int, r: TokenRecord, now: int)
    requires
        0 <= i < s.len(),
    ensures
        count_active(s.update(i, r), now) + (if active(s[i], now) { 1int } else { 0int })
            == count_active(s, now) + (if active(r, now) { 1int } else { 0int }),
    decreases s.len(),
{
    if i == s.len() - 1 {
        assert(s.update(i, r).drop_last() =~= s.drop_last());
    } else {
        assert(s.update(i, r).drop_last() =~= s.drop_last().update(i, r));
        lemma_count_update(s.drop_last(), i, r, now);
    }
}

/// A valid record is counted.
proof fn lemma_count_positive(s: Seq<TokenRecord>, i: int, now: int)
    requires
        0 <= i < s.len(),
        active(s[i], now),
    ensures
        count_active(s, now) >= 1,
    decreases s.len(),
{
    if i < s.len() - 1 {
        lemma_count_positive(s.drop_last(), i, now);
    }
}

impl TokenStore {
    /// A store persisted at `path` holding `tokens`.
    pub fn from_records(path: String, tokens: Vec<TokenRecord>) -> (s: TokenStore)
        ensures
            s.path() == path@,
            s.records() == tokens@,
    {
        TokenStore { path, tokens }
    }

    /// Where the store persists.
    pub closed spec fn path(&self) -> Seq<char> {
        self.path@
    }

    /// The records, in insertion order.
    pub closed spec fn records(&self) -> Seq<TokenRecord> {
        self.tokens@
    }

    /// Where the store persists.
    pub fn path_str(&self) -> (p: &str)
        ensures
            p@ == self.path(),
    {
        self.path.as_str()
    }

    /// All records (for persisting).
    pub fn record_list(&self) -> (v: &Vec<TokenRecord>)
        ensures
            v@ == self.records(),
    {
        &self.tokens
    }

    /// Number of tokens valid at `now` (not revoked, not expired).
    pub fn active_count_at(&self, now: i64) -> (n: usize)
        ensures
            n == count_active(self.records(), now as int),
    {
        let mut n: usize = 0;
        let mut i: usize = 0;
        while i < self.tokens.len()
            invariant
                i <= self.tokens@.len(),
                n == count_active(self.tokens@.take(i as int), now as int),
                n <= i,
            decreases self.tokens@.len() - i,
        {
            let t = &self.tokens[i];
            assert(self.tokens@.take(i + 1).drop_last() =~= self.tokens@.take(i as int));
            let is_expired = match t.expires_at_unix {
                Some(e) => e <= now,
                None => false,
            };
            if !t.revoked && !is_expired {
                n = n + 1;
            }
            i = i + 1;
        }
        assert(self.tokens@.take(i as int) =~= self.tokens@);
        n
    }

    /// Number of tokens valid now.
    pub fn active_count(&self) -> (n: usize)
        ensures
            exists|now: i64| n == count_active(self.records(), now as int),
    {
        let now = unix_now_secs();
        self.active_count_at(now)
    }

    /// Whether `token` is the plaintext of some token valid at `now`
    /// (hashes compared ignoring ASCII case).
    pub fn verify_plaintext_at(&self, token: &str, now: i64) -> (ok: bool)
        ensures
            ok == token_verifies(self.records(), token@, now as int),
    {
        let h = hash_hex(token);
        let hv = str_chars(h.as_str());
        let mut i: usize = 0;
        while i < self.tokens.len()
            invariant
                i <= self.tokens@.len(),
                hv@ == text_hash(token@),
                forall|m: int|
                    0 <= m < i ==> !(active(#[trigger] self.tokens@[m], now as int)
                        && eq_ignore_ascii_case(self.tokens@[m].hash_hex@, text_hash(token@))),
            decreases self.tokens@.len() - i,
        {
            let t = &self.tokens[i];
            let is_expired = match t.expires_at_unix {
                Some(e) => e <= now,
                None => false,
            };
            if !t.revoked && !is_expired && eq_ignore_ascii_case_chars(
                &str_chars(t.hash_hex.as_str()),
                &hv,
            ) {
                return true;
            }
            i = i + 1;
        }
        false
    }

    /// Whether `token` is the plaintext of some token valid now.
    pub fn verify_plaintext(&self, token: &str) -> (ok: bool)
        ensures
            exists|now: i64| ok == token_verifies(self.records(), token@, now as int),
    {
        let now = unix_now_secs();
        self.verify_plaintext_at(token, now)
    }

    /// Adds the record of a new token with the given id, plaintext and
    /// creation time; returns the record and the plaintext.
    pub fn insert_new(
        &mut self,
        token_id: String,
        name: String,
        plaintext: String,
        expires_at_unix: Option<i64>,
        now: i64,
    ) -> (res: (TokenRecord, String))
        ensures
            new_record(token_id@, name@, plaintext@, expires_at_unix, now, res.0),
            res.0.hash_hex@.len() == 64,
            res.1@ == plaintext@,
            final(self).records() == old(self).records().push(res.0),
            final(self).path() == old(self).path(),
    {
        let prefix = prefix_of(plaintext.as_str(), 12);
        let hash = hash_hex(plaintext.as_str());
        let record = TokenRecord {
            token_id,
            name,
            prefix,
            hash_hex: hash,
            created_at_unix: now,
            expires_at_unix,
            revoked: false,
        };
        self.tokens.push(record.copy());
        (record, plaintext)
    }

    /// Creates a token named `name`: a random id, a random plaintext
    /// `ask_<64 hex>` and the current time. The plaintext is returned only
    /// here.
    pub fn create(&mut self, name: String, expires_at_unix: Option<i64>) -> (res: (
        TokenRecord,
        String,
    ))
        ensures
            exists|id: Seq<char>, now: i64|
                new_record(id, name@, res.1@, expires_at_unix, now, res.0),
            is_token_plaintext(res.1@),
            res.1@.len() == 68,
            res.0.hash_hex@.len() == 64,
            res.0.prefix@.len() == 12,
            exists|u: u128| res.0.token_id@ == uuid_text(u),
            final(self).records() == old(self).records().push(res.0),
            final(self).path() == old(self).path(),
    {
        let bytes = random_bytes_32();
        let plaintext = secret_from_bytes("ask_", bytes.as_slice());
        proof {
            reveal_strlit("ask_");
        }
        let token_id = random_uuid_text();
        let now = unix_now_secs();
        self.insert_new(token_id, name, plaintext, expires_at_unix, now)
    }

    /// The records, all of them or only those not revoked.
    pub fn list(&self, include_revoked: bool) -> (v: Vec<TokenRecord>)
        ensures
            v@ == listed(self.records(), include_revoked),
    {
        let mut v: Vec<TokenRecord> = Vec::new();
        let mut i: usize = 0;
        while i < self.tokens.len()
            invariant
                i <= self.tokens@.len(),
                v@ == listed(self.tokens@.take(i as int), include_revoked),
            decreases self.tokens@.len() - i,
        {
            assert(self.tokens@.take(i + 1).drop_last() =~= self.tokens@.take(i as int));
            if include_revoked || !self.tokens[i].revoked {
                v.push(self.tokens[i].copy());
            }
            i = i + 1;
        }
        assert(self.tokens@.take(i as int) =~= self.tokens@);
        v
    }

    /// Revokes the token with id `token_id` at time `now`. Unknown id:
    /// `NotFound`. Already revoked: nothing changes. Revoking the last
    /// valid token is refused with `FailedPrecondition`.
    pub fn revoke_at(&mut self, token_id: &str, now: i64) -> (res: Result<(), CoreError>)
        ensures
            final(self).path() == old(self).path(),
            revoke_outcome(old(self).records(), final(self).records(), token_id@, now as int, res),
            res matches Err(CoreError::FailedPrecondition(_)) ==> exists|i: int|
                first_with_id(old(self).records(), token_id@, i) && active(
                    #[trigger] old(self).records()[i],
                    now as int,
                ) && count_active(old(self).records(), now as int) == 1,
            forall|i: int|
                first_with_id(old(self).records(), token_id@, i) && !active(
                    #[trigger] old(self).records()[i],
                    now as int,
                ) ==> res is Ok,
    {
        proof {
            revoke_refuses_only_the_last_valid(
                old(self).tokens@,
                token_id@,
                now as int,
            );
        }
        let active_before = self.active_count_at(now);
        let idv = str_chars(token_id);
        let mut i: usize = 0;
        while i < self.tokens.len()
            invariant
                i <= self.tokens@.len(),
                self.tokens@ == old(self).tokens@,
                self.path == old(self).path,
                idv@ == token_id@,
                forall|m: int| 0 <= m < i ==> (#[trigger] self.tokens@[m]).token_id@ != token_id@,
            ensures
                i <= self.tokens@.len(),
                self.tokens@ == old(self).tokens@,
                self.path == old(self).path,
                forall|m: int| 0 <= m < i ==> (#[trigger] self.tokens@[m]).token_id@ != token_id@,
                i < self.tokens@.len() ==> self.tokens@[i as int].token_id@ == token_id@,
            decreases self.tokens@.len() - i,
        {
            if str_eq(self.tokens[i].token_id.as_str(), token_id) {
                break;
            }
            i = i + 1;
        }
        if i == self.tokens.len() {
            let mut msg: Vec<char> = Vec::new();
            append_str(&mut msg, "token_id=");
            append_str(&mut msg, token_id);
            return Err(CoreError::NotFound(string_from_chars(msg.as_slice())));
        }
        assert(first_with_id(self.tokens@, token_id@, i as int));
        proof {
            assert forall|j: int| first_with_id(self.tokens@, token_id@, j) implies j == i by {
                if j < i {
                    assert(self.tokens@[j].token_id@ != token_id@);
                } else if j > i {
                    assert(self.tokens@[i as int].token_id@ != token_id@);
                }
            }
        }
        if self.tokens[i].revoked {
            return Ok(());
        }
        let was_active = match self.tokens[i].expires_at_unix {
            Some(e) => !(e <= now),
            None => true,
        };
        if was_active && active_before <= 1 {
            return Err(
                CoreError::FailedPrecondition(
                    "禁止吊销最后一把有效 API Token（LAST_TOKEN_REVOKE_FORBIDDEN）".to_string(),
                ),
            );
        }
        let mut rec = self.tokens[i].copy();
        rec.revoked = true;
        self.tokens.set(i, rec);
        Ok(())
    }

    /// Revokes the token with id `token_id` at the current time (see
    /// [`Self::revoke_at`]).
    pub fn revoke(&mut self, token_id: &str) -> (res: Result<(), CoreError>)
        ensures
            final(self).path() == old(self).path(),
            exists|now: i64|
                revoke_outcome(old(self).records(), final(self).records(), token_id@, now as int, res),
    {
        let now = unix_now_secs();
        self.revoke_at(token_id, now)
    }

    /// When no token is valid at `now`, creates the `bootstrap` token with
    /// the given id and plaintext and returns it; otherwise changes nothing.
    pub fn ensure_bootstrap_at(&mut self, now: i64, token_id: String, plaintext: String) -> (res:
        Option<(TokenRecord, String)>)
        ensures
            final(self).path() == old(self).path(),
            count_active(old(self).records(), now as int) > 0 ==> res is None
                && final(self).records() == old(self).records(),
            count_active(old(self).records(), now as int) == 0 ==> {
                &&& res matches Some((r, p)) && {
                    &&& new_record(token_id@, "bootstrap"@, plaintext@, None, now, r)
                    &&& p@ == plaintext@
                    &&& final(self).records() == old(self).records().push(r)
                }
            },
    {
        if self.active_count_at(now) > 0 {
            return None;
        }
        Some(self.insert_new(token_id, "bootstrap".to_string(), plaintext, None, now))
    }

    /// When no token is valid now, creates the `bootstrap` token (random id
    /// and plaintext) and returns it with its plaintext.
    pub fn ensure_bootstrap(&mut self) -> (res: Option<(TokenRecord, String)>)
        ensures
            final(self).path() == old(self).path(),
            res is None ==> final(self).records() == old(self).records(),
            res matches Some((r, p)) ==> {
                &&& r.name@ == "bootstrap"@
                &&& r.hash_hex@ == text_hash(p@)
                &&& r.expires_at_unix is None
                &&& !r.revoked
                &&& is_token_plaintext(p@)
                &&& final(self).records() == old(self).records().push(r)
            },
            exists|now: i64|
                {
                    &&& #[trigger] count_active(old(self).records(), now as int) > 0 ==> res is None
                    &&& count_active(old(self).records(), now as int) == 0 ==> (res matches Some(
                        (r, p),
                    ) && {
                        &&& new_record(r.token_id@, "bootstrap"@, p@, None, now, r)
                        &&& exists|u: u128| r.token_id@ == uuid_text(u)
                    })
                },
    {
        let now = unix_now_secs();
        let bytes = random_bytes_32();
        let plaintext = secret_from_bytes("ask_", bytes.as_slice());
        let token_id = random_uuid_text();
        let ghost id = token_id@;
        let res = self.ensure_bootstrap_at(now, token_id, plaintext);
        proof {
            if count_active(old(self).records(), now as int) == 0 {
                let u = choose|u: u128| id == uuid_text(u);
                assert(res->Some_0.0.token_id@ == uuid_text(u));
            }
            assert(count_active(old(self).records(), now as int) > 0 ==> res is None);
        }
        res
    }
}

/// A token just created verifies at any time before its expiry.
pub proof fn created_token_verifies(
    before: Seq<TokenRecord>,
    after: Seq<TokenRecord>,
    rec: TokenRecord,
    plain: Seq<char>,
    now: int,
)
    requires
        after == before.push(rec),
        rec.hash_hex@ == text_hash(plain),
        !rec.revoked,
        !expired(rec, now),
    ensures
        token_verifies(after, plain, now),
{
    let i = before.len() as int;
    assert(after[i] == rec);
    assert(eq_ignore_ascii_case(after[i].hash_hex@, text_hash(plain)));
}

/// Revocation never leaves the store without a valid token when it had one.
pub proof fn revoke_keeps_a_valid_token(
    before: Seq<TokenRecord>,
    after: Seq<TokenRecord>,
    i: int,
    now: int,
)
    requires
        0 <= i < before.len(),
        count_active(before, now) >= 1,
        before[i].revoked || expired(before[i], now) || count_active(before, now) > 1,
        after == before.update(i, TokenRecord { revoked: true, ..before[i] }),
    ensures
        count_active(after, now) >= 1,
        !active(after[i], now),
{
    lemma_count_update(before, i, TokenRecord { revoked: true, ..before[i] }, now);
}

/// A revoked record no longer counts as valid, and the count drops by one
/// exactly when it was valid.
pub proof fn revoke_count(before: Seq<TokenRecord>, i: int, now: int)
    requires
        0 <= i < before.len(),
    ensures
        count_active(before.update(i, TokenRecord { revoked: true, ..before[i] }), now) + (if active(
            before[i],
            now,
        ) {
            1int
        } else {
            0int
        }) == count_active(before, now),
{
    lemma_count_update(before, i, TokenRecord { revoked: true, ..before[i] }, now);
}

/// Once its record is revoked, a token no longer verifies, unless another
/// record carries the same hash.
pub proof fn revoked_token_stops_verifying(
    before: Seq<TokenRecord>,
    i: int,
    plain: Seq<char>,
    now: int,
)
    requires
        0 <= i < before.len(),
        forall|j: int|
            0 <= j < before.len() && j != i ==> !eq_ignore_ascii_case(
                (#[trigger] before[j]).hash_hex@,
                text_hash(plain),
            ),
    ensures
        !token_verifies(
            before.update(i, TokenRecord { revoked: true, ..before[i] }),
            plain,
            now,
        ),
{
    let after = before.update(i, TokenRecord { revoked: true, ..before[i] });
    assert forall|j: int| 0 <= j < after.len() implies !(active(#[trigger] after[j], now)
        && eq_ignore_ascii_case(after[j].hash_hex@, text_hash(plain))) by {
        if j != i {
            assert(after[j] == before[j]);
        }
    }
}

} // verus!
