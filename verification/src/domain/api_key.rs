use vstd::prelude::*;

use crate::crypto::{
    base64_url_encode, base64_url_unpadded, hex_encode, hex_lower, os_random_32, sha256,
    sha256_digest,
};
use crate::text::{chars_of, decimal, str_eq, string_from_range};

verus! {

broadcast use vstd::string::group_string_axioms;

/// Number of random bytes used to mint a new API key.
pub const KEY_BYTES: usize = 32;

/// Length of the visible key prefix stored alongside the hash.
pub const PREFIX_LEN: usize = 8;

/// Microseconds in a day.
pub const DAY_MICROS: i64 = 86_400_000_000;

/// Latest instant the store's date-time type can hold (31 December 262142,
/// 23:59:59.999999 UTC), in microseconds since the Unix epoch.
pub const MAX_INSTANT_MICROS: i64 = 8_210_266_876_799_999_999;

/// Earliest instant the store's date-time type can hold (1 January -262143,
/// 00:00 UTC), in microseconds since the Unix epoch.
pub const MIN_INSTANT_MICROS: i64 = -8_334_601_315_200_000_000;

/// Whether `t` lies in the range of the store's date-time type.
pub open spec fn representable(t: i64) -> bool {
    MIN_INSTANT_MICROS <= t <= MAX_INSTANT_MICROS
}

/// User-selectable expiration windows for a newly created or edited key.
#[derive(Debug, Clone, Copy, PartialEq, Eq, Structural)]
pub enum ExpiryChoice {
    Days30,
    Days90,
    Days180,
    Year1,
    Never,
}

/// The form-value identifier of a choice.
pub open spec fn expiry_name(c: ExpiryChoice) -> Seq<char> {
    match c {
        ExpiryChoice::Days30 => "30"@,
        ExpiryChoice::Days90 => "90"@,
        ExpiryChoice::Days180 => "180"@,
        ExpiryChoice::Year1 => "365"@,
        ExpiryChoice::Never => "never"@,
    }
}

/// The choice whose identifier is `s`, if any.
pub open spec fn parse_expiry(s: Seq<char>) -> Option<ExpiryChoice> {
    if s == "30"@ {
        Some(ExpiryChoice::Days30)
    } else if s == "90"@ {
        Some(ExpiryChoice::Days90)
    } else if s == "180"@ {
        Some(ExpiryChoice::Days180)
    } else if s == "365"@ {
        Some(ExpiryChoice::Year1)
    } else if s == "never"@ {
        Some(ExpiryChoice::Never)
    } else {
        None
    }
}

/// Length of the window in days; `None` for a key that never expires.
pub open spec fn expiry_days(c: ExpiryChoice) -> Option<int> {
    match c {
        ExpiryChoice::Days30 => Some(30),
        ExpiryChoice::Days90 => Some(90),
        ExpiryChoice::Days180 => Some(180),
        ExpiryChoice::Year1 => Some(365),
        ExpiryChoice::Never => None,
    }
}

/// The expiry instant of a window that starts at `now`.
pub open spec fn expiry_instant(c: ExpiryChoice, now: int) -> Option<int> {
    match expiry_days(c) {
        Some(d) => Some(now + d * DAY_MICROS),
        None => None,
    }
}

/// A string that names no expiry choice.
#[derive(Debug, Clone)]
pub struct InvalidExpiry {
    pub value: String,
}

impl ExpiryChoice {
    /// Return the form-value identifier for this choice.
    pub fn as_str(self) -> (r: &'static str)
        ensures
            r@ == expiry_name(self),
    {
        match self {
            ExpiryChoice::Days30 => "30",
            ExpiryChoice::Days90 => "90",
            ExpiryChoice::Days180 => "180",
            ExpiryChoice::Year1 => "365",
            ExpiryChoice::Never => "never",
        }
    }

    /// Parse a string identifier into an [`ExpiryChoice`].
    pub fn parse(value: &str) -> (r: Result<ExpiryChoice, InvalidExpiry>)
        ensures
            r matches Ok(c) ==> parse_expiry(value@) == Some(c),
            r matches Err(e) ==> parse_expiry(value@) is None && e.value@ == value@,
    {
        if str_eq(value, "30") {
            Ok(ExpiryChoice::Days30)
        } else if str_eq(value, "90") {
            Ok(ExpiryChoice::Days90)
        } else if str_eq(value, "180") {
            Ok(ExpiryChoice::Days180)
        } else if str_eq(value, "365") {
            Ok(ExpiryChoice::Year1)
        } else if str_eq(value, "never") {
            Ok(ExpiryChoice::Never)
        } else {
            Err(InvalidExpiry { value: value.to_owned() })
        }
    }

    /// Resolve this choice into an absolute `expires_at` value, in
    /// microseconds; `None` when the key never expires.
    pub fn to_expires_at(self, now: i64) -> (r: Option<i64>)
        requires
            expiry_days(self) matches Some(d) ==> now + d * DAY_MICROS <= MAX_INSTANT_MICROS,
        ensures
            r == (match expiry_instant(self, now as int) {
                Some(t) => Some(t as i64),
                None => None,
            }),
    {
        match self {
            ExpiryChoice::Days30 => Some(now + 30 * DAY_MICROS),
            ExpiryChoice::Days90 => Some(now + 90 * DAY_MICROS),
            ExpiryChoice::Days180 => Some(now + 180 * DAY_MICROS),
            ExpiryChoice::Year1 => Some(now + 365 * DAY_MICROS),
            ExpiryChoice::Never => None,
        }
    }
}

/// Each choice is recovered from its identifier.
pub proof fn expiry_round_trip(c: ExpiryChoice)
    ensures
        parse_expiry(expiry_name(c)) == Some(c),
{
    reveal_strlit("30");
    reveal_strlit("90");
    reveal_strlit("180");
    reveal_strlit("365");
    reveal_strlit("never");
    assert("30"@[0] != "90"@[0]);
    assert("30"@[0] != "180"@[0]);
    assert("30"@.len() != "365"@.len());
    assert("30"@[0] != "never"@[0]);
    assert("90"@[0] != "180"@[0]);
    assert("90"@[0] != "365"@[0]);
    assert("90"@[0] != "never"@[0]);
    assert("180"@[0] != "365"@[0]);
    assert("180"@[0] != "never"@[0]);
    assert("365"@[0] != "never"@[0]);
}

/// The stored hash of a key: lowercase hex of the SHA-256 digest of its UTF-8 bytes.
pub open spec fn key_hash(plaintext: Seq<char>) -> Seq<char> {
    hex_lower(sha256_digest(vstd::utf8::encode_utf8(plaintext)))
}

/// Compute the SHA-256 hash of a plaintext key, hex-encoded.
pub fn hash(plaintext: &str) -> (r: String)
    ensures
        r@ == key_hash(plaintext@),
        r@.len() == 64,
        forall|i: int| 0 <= i < 64 ==> crate::crypto::is_lower_hex_digit(#[trigger] r@[i]),
{
    let digest = sha256(plaintext.as_bytes());
    proof {
        crate::crypto::hex_lower_shape(digest@);
    }
    hex_encode(digest.as_slice())
}

/// The first `PREFIX_LEN` characters of a key (all of it when shorter).
pub open spec fn key_prefix_of(plaintext: Seq<char>) -> Seq<char> {
    if plaintext.len() <= PREFIX_LEN {
        plaintext
    } else {
        plaintext.take(PREFIX_LEN as int)
    }
}

/// The visible prefix of a key.
pub fn key_prefix(plaintext: &str) -> (r: String)
    ensures
        r@ == key_prefix_of(plaintext@),
{
    let v = chars_of(plaintext);
    let n = if v.len() < PREFIX_LEN { v.len() } else { PREFIX_LEN };
    let r = string_from_range(&v, 0, n);
    assert(r@ =~= key_prefix_of(plaintext@));
    r
}

/// A minted key: the URL-safe base64 encoding of random bytes.
pub open spec fn is_minted_key(plaintext: Seq<char>) -> bool {
    exists|bytes: Seq<u8>| bytes.len() == KEY_BYTES && plaintext == base64_url_unpadded(bytes)
}

/// Generate 32 random bytes and encode them as base64url without padding.
pub fn mint_plaintext() -> (r: String)
    ensures
        is_minted_key(r@),
        r@.len() == 43,
        forall|i: int| 0 <= i < r@.len() ==> crate::crypto::is_url_safe_base64_char(#[trigger] r@[i]),
{
    let bytes = os_random_32();
    base64_url_encode(bytes.as_slice())
}

/// A persisted API key row. The plaintext value is never stored.
/// Instants are microseconds since the Unix epoch, UTC.
#[derive(Debug, Clone)]
pub struct ApiKey {
    pub id: i64,
    pub key_prefix: String,
    pub key_hash: String,
    pub description: Option<String>,
    pub expires_at: Option<i64>,
    pub last_used_at: Option<i64>,
    pub created_at: i64,
}

/// A key has expired once its expiry instant is reached.
pub open spec fn expired(expires_at: Option<i64>, now: i64) -> bool {
    match expires_at {
        Some(t) => t <= now,
        None => false,
    }
}

impl ApiKey {
    /// Every instant of the row lies in the range of the store's date-time type.
    pub open spec fn instants_representable(&self) -> bool {
        &&& self.expires_at matches Some(t) ==> representable(t)
        &&& self.last_used_at matches Some(t) ==> representable(t)
        &&& representable(self.created_at)
    }

    /// Whether the key has expired at `now`.
    pub fn is_expired(&self, now: i64) -> (b: bool)
        ensures
            b == expired(self.expires_at, now),
    {
        match self.expires_at {
            Some(t) => t <= now,
            None => false,
        }
    }
}

/// The values written when a new key is created.
#[derive(Debug, Clone)]
pub struct NewKey {
    pub plaintext: String,
    pub key_prefix: String,
    pub key_hash: String,
    pub description: Option<String>,
    pub expires_at: Option<i64>,
    pub created_at: i64,
}

/// Mint a key and compute everything the store keeps of it.
pub fn prepare(now: i64, description: Option<String>, expiry: ExpiryChoice) -> (k: NewKey)
    requires
        expiry_days(expiry) matches Some(d) ==> now + d * DAY_MICROS <= MAX_INSTANT_MICROS,
    ensures
        is_minted_key(k.plaintext@),
        k.plaintext@.len() == 43,
        forall|i: int|
            0 <= i < k.plaintext@.len() ==> crate::crypto::is_url_safe_base64_char(
                #[trigger] k.plaintext@[i],
            ),
        k.key_hash@ == key_hash(k.plaintext@),
        k.key_prefix@ == key_prefix_of(k.plaintext@),
        k.description == description,
        k.expires_at == (match expiry_instant(expiry, now as int) {
            Some(t) => Some(t as i64),
            None => None,
        }),
        k.created_at == now,
{
    let plaintext = mint_plaintext();
    let key_hash = hash(plaintext.as_str());
    let key_prefix = key_prefix(plaintext.as_str());
    let expires_at = expiry.to_expires_at(now);
    NewKey { plaintext, key_prefix, key_hash, description, expires_at, created_at: now }
}

/// Outcome of key creation: the persisted row plus the one-time plaintext token.
#[derive(Debug, Clone)]
pub struct CreatedKey {
    pub record: ApiKey,
    pub plaintext: String,
}

/// The row after its expiry is renewed at `now` with `expiry`: the window
/// `to_expires_at` gives, every other column unchanged.
pub open spec fn with_expiry(key: ApiKey, expiry: ExpiryChoice, now: i64) -> ApiKey {
    ApiKey {
        expires_at: match expiry_instant(expiry, now as int) {
            Some(t) => Some(t as i64),
            None => None,
        },
        ..key
    }
}

/// Renewing a key's expiry changes nothing but `expires_at`: it is cleared
/// exactly for `never`, and otherwise the key stays live until the window
/// that starts at `now` ends.
pub proof fn expiry_update_changes_only_expiry(key: ApiKey, expiry: ExpiryChoice, now: i64)
    requires
        expiry_days(expiry) matches Some(d) ==> now + d * DAY_MICROS <= MAX_INSTANT_MICROS,
    ensures
        ({
            let after = with_expiry(key, expiry, now);
            &&& after.id == key.id
            &&& after.key_prefix == key.key_prefix
            &&& after.key_hash == key.key_hash
            &&& after.description == key.description
            &&& after.last_used_at == key.last_used_at
            &&& after.created_at == key.created_at
            &&& after.expires_at is None <==> expiry == ExpiryChoice::Never
            &&& forall|t: i64|
                #[trigger] expired(after.expires_at, t) <==> (expiry_days(expiry) matches Some(d) && t
                    >= now + d * DAY_MICROS)
        }),
{
}

/// The window of each bounded choice is the number of days its form value
/// names: the choice written `d` expires `d` days after `now`; `never` sets
/// no expiry.
pub proof fn expiry_window_is_named_days(c: ExpiryChoice, now: int)
    ensures
        c != ExpiryChoice::Never ==> exists|d: nat|
            #[trigger] decimal(d) == expiry_name(c) && expiry_instant(c, now) == Some(
                now + d * DAY_MICROS,
            ),
        c == ExpiryChoice::Never ==> expiry_instant(c, now) is None,
{
    reveal_strlit("30");
    reveal_strlit("90");
    reveal_strlit("180");
    reveal_strlit("365");
    reveal_with_fuel(decimal, 4);
    match c {
        ExpiryChoice::Days30 => {
            assert(decimal(30) =~= "30"@);
        },
        ExpiryChoice::Days90 => {
            assert(decimal(90) =~= "90"@);
        },
        ExpiryChoice::Days180 => {
            assert(decimal(180) =~= "180"@);
        },
        ExpiryChoice::Year1 => {
            assert(decimal(365) =~= "365"@);
        },
        ExpiryChoice::Never => {},
    }
}

} // verus!
