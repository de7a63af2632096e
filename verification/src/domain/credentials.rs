use vstd::prelude::*;

use crate::auth::password::{self, hashable, is_hash_of, verification, PasswordError};
use crate::config::Config;
use crate::text::str_eq;

verus! {

broadcast use vstd::string::group_string_axioms;

/// Single-row credentials record. `last_login_at` is in microseconds since
/// the Unix epoch, UTC.
#[derive(Debug, Clone)]
pub struct Credentials {
    pub username: String,
    pub password_hash: String,
    pub timezone: String,
    pub last_login_at: Option<i64>,
}

/// Whether `name` is an IANA time-zone name known to the time-zone database.
pub uninterp spec fn iana_zone(name: Seq<char>) -> bool;

/// `FromStr` of chrono-tz's `Tz`: whether the name is in its compiled-in table
/// (a lookup that depends on the name alone).
#[verifier::external_body]
fn timezone_known(name: &str) -> (b: bool)
    ensures
        b == iana_zone(name@),
{
    name.parse::<chrono_tz::Tz>().is_ok()
}

/// Time zone used when none is configured at first boot.
pub const DEFAULT_TIMEZONE: &'static str = "UTC";

/// A change to the stored credentials row.
#[derive(Debug, Clone)]
pub enum CredentialWrite {
    /// Create the row on first boot.
    Insert { username: String, password_hash: String, timezone: String },
    SetUsername(String),
    SetPasswordHash(String),
    SetTimezone(String),
}

/// Why reconciliation failed.
#[derive(Debug, Clone)]
pub enum ReconcileError {
    /// First boot without `USERNAME`.
    MissingUsername,
    /// First boot without `PASSWORD`.
    MissingPassword,
    /// `TIMEZONE` names no known time zone.
    InvalidTimezone { value: String },
    /// The password could not be hashed.
    Hashing(PasswordError),
}

/// Writes to apply in order, then the failure to report, if any. Writes
/// listed before a failure are applied before it is reported.
#[derive(Debug, Clone)]
pub struct ReconcilePlan {
    pub writes: Vec<CredentialWrite>,
    pub failure: Option<ReconcileError>,
}

/// The time zone a first boot stores.
pub open spec fn bootstrap_timezone(cfg: Config) -> Seq<char> {
    match cfg.timezone {
        Some(t) => t@,
        None => DEFAULT_TIMEZONE@,
    }
}

/// The username change that reconciliation writes, if any.
pub open spec fn username_change(current: Credentials, cfg: Config) -> Seq<CredentialWrite> {
    match cfg.username {
        Some(u) => if u@ != current.username@ {
            seq![CredentialWrite::SetUsername(u)]
        } else {
            seq![]
        },
        None => seq![],
    }
}

/// A configured password that the stored hash does not accept must be rehashed.
pub open spec fn needs_rehash(current: Credentials, cfg: Config) -> bool {
    match cfg.password {
        Some(p) => verification(p@, current.password_hash@) != Ok::<bool, PasswordError>(true),
        None => false,
    }
}

/// The configured time zone when it differs from the stored one.
pub open spec fn timezone_change(current: Credentials, cfg: Config) -> Option<String> {
    match cfg.timezone {
        Some(t) => if t@ != current.timezone@ {
            Some(t)
        } else {
            None
        },
        None => None,
    }
}

/// Whether the time zone a plan would store is known to the time-zone
/// database: the first-boot zone, or the changed zone of an update (an
/// unchanged zone needs no lookup).
pub open spec fn zone_known_for(current: Option<Credentials>, cfg: Config) -> bool {
    match current {
        None => iana_zone(bootstrap_timezone(cfg)),
        Some(c) => match timezone_change(c, cfg) {
            Some(t) => iana_zone(t@),
            None => true,
        },
    }
}

/// Time-zone write of an update: only for a zone found known.
pub open spec fn timezone_write(current: Credentials, cfg: Config, known: bool) -> Seq<
    CredentialWrite,
> {
    match timezone_change(current, cfg) {
        Some(t) => if known {
            seq![CredentialWrite::SetTimezone(t)]
        } else {
            seq![]
        },
        None => seq![],
    }
}

/// Failure of an update's time-zone step: a zone found unknown.
pub open spec fn timezone_failure(current: Credentials, cfg: Config, known: bool) -> Option<
    ReconcileError,
> {
    match timezone_change(current, cfg) {
        Some(t) => if known {
            None
        } else {
            Some(ReconcileError::InvalidTimezone { value: t })
        },
        None => None,
    }
}

/// `plan` is what updating the existing row `current` against `cfg` yields,
/// when the lookup of the changed time zone answered `known`.
///
/// Username, password and time zone are compared independently; unset
/// values mean "no change". A password is compared through the stored hash,
/// since hashes are salted, and rehashed when the hash does not accept it.
/// Only a password too long for Argon2 fails to hash; then the username
/// change already listed still applies and the time zone is not looked at.
pub open spec fn update_plan_given(
    current: Credentials,
    cfg: Config,
    known: bool,
    plan: ReconcilePlan,
) -> bool {
    let u = username_change(current, cfg);
    let w = plan.writes@;
    if needs_rehash(current, cfg) && !hashable(cfg.password->Some_0@) {
        &&& w == u
        &&& plan.failure == Some(ReconcileError::Hashing(PasswordError::HashingFailed))
    } else {
        let k: int = if needs_rehash(current, cfg) {
            1
        } else {
            0
        };
        &&& w.len() == u.len() + k + timezone_write(current, cfg, known).len()
        &&& w.subrange(0, u.len() as int) == u
        &&& needs_rehash(current, cfg) ==> (w[u.len() as int] matches CredentialWrite::SetPasswordHash(
            h,
        ) && is_hash_of(h@, cfg.password->Some_0@))
        &&& w.subrange(u.len() + k, w.len() as int) == timezone_write(current, cfg, known)
        &&& plan.failure == timezone_failure(current, cfg, known)
    }
}

/// `plan` is what updating the existing row `current` against `cfg` yields.
pub open spec fn update_plan(current: Credentials, cfg: Config, plan: ReconcilePlan) -> bool {
    update_plan_given(current, cfg, zone_known_for(Some(current), cfg), plan)
}

/// `plan` is what creating the row on first boot from `cfg` yields, when
/// the lookup of its time zone answered `known`.
///
/// Both `USERNAME` and `PASSWORD` are required; `TIMEZONE` defaults to `UTC`
/// and must name a known zone; the password must be short enough for
/// Argon2. Then the row is inserted; otherwise nothing is written.
pub open spec fn bootstrap_plan_given(cfg: Config, known: bool, plan: ReconcilePlan) -> bool {
    if cfg.username is None {
        plan.writes@.len() == 0 && plan.failure == Some(ReconcileError::MissingUsername)
    } else if cfg.password is None {
        plan.writes@.len() == 0 && plan.failure == Some(ReconcileError::MissingPassword)
    } else if !known {
        &&& plan.writes@.len() == 0
        &&& plan.failure matches Some(ReconcileError::InvalidTimezone { value })
        &&& value@ == bootstrap_timezone(cfg)
    } else if !hashable(cfg.password->Some_0@) {
        &&& plan.writes@.len() == 0
        &&& plan.failure == Some(ReconcileError::Hashing(PasswordError::HashingFailed))
    } else {
        &&& plan.failure is None
        &&& plan.writes@.len() == 1
        &&& plan.writes@[0] matches CredentialWrite::Insert { username, password_hash, timezone }
        &&& username == cfg.username->Some_0
        &&& is_hash_of(password_hash@, cfg.password->Some_0@)
        &&& timezone@ == bootstrap_timezone(cfg)
    }
}

/// `plan` is what creating the row on first boot from `cfg` yields.
pub open spec fn bootstrap_plan(cfg: Config, plan: ReconcilePlan) -> bool {
    bootstrap_plan_given(cfg, zone_known_for(None, cfg), plan)
}

/// Plan the creation of the credentials row on first boot.
fn bootstrap(cfg: &Config, zone_known: bool) -> (plan: ReconcilePlan)
    ensures
        bootstrap_plan_given(*cfg, zone_known, plan),
{
    let failed = |e: ReconcileError| -> (p: ReconcilePlan)
        ensures
            p.writes@.len() == 0 && p.failure == Some(e),
        { ReconcilePlan { writes: Vec::new(), failure: Some(e) } };
    let username = match &cfg.username {
        Some(u) => u.clone(),
        None => return failed(ReconcileError::MissingUsername),
    };
    let password = match &cfg.password {
        Some(p) => p,
        None => return failed(ReconcileError::MissingPassword),
    };
    let timezone: &str = match &cfg.timezone {
        Some(t) => t.as_str(),
        None => DEFAULT_TIMEZONE,
    };
    if !zone_known {
        return failed(ReconcileError::InvalidTimezone { value: timezone.to_owned() });
    }
    let password_hash = match password::hash(password.as_str()) {
        Ok(h) => h,
        Err(e) => return failed(ReconcileError::Hashing(e)),
    };
    let mut writes = Vec::new();
    writes.push(
        CredentialWrite::Insert { username, password_hash, timezone: timezone.to_owned() },
    );
    ReconcilePlan { writes, failure: None }
}

/// Plan the per-field updates of the existing row.
fn update_in_place(cfg: &Config, current: &Credentials, zone_known: bool) -> (plan: ReconcilePlan)
    ensures
        update_plan_given(*current, *cfg, zone_known, plan),
{
    let mut writes: Vec<CredentialWrite> = Vec::new();
    if let Some(username) = &cfg.username {
        if !str_eq(username.as_str(), current.username.as_str()) {
            writes.push(CredentialWrite::SetUsername(username.clone()));
        }
    }
    assert(writes@ =~= username_change(*current, *cfg));
    let ghost u = writes@;
    if let Some(password_plain) = &cfg.password {
        let matches = match password::verify(password_plain.as_str(), current.password_hash.as_str()) {
            Ok(b) => b,
            Err(_) => false,
        };
        if !matches {
            match password::hash(password_plain.as_str()) {
                Ok(h) => writes.push(CredentialWrite::SetPasswordHash(h)),
                Err(e) => return ReconcilePlan { writes, failure: Some(ReconcileError::Hashing(e)) },
            }
        }
    }
    let ghost before_tz = writes@;
    let mut failure: Option<ReconcileError> = None;
    if let Some(timezone) = &cfg.timezone {
        if !str_eq(timezone.as_str(), current.timezone.as_str()) {
            if zone_known {
                writes.push(CredentialWrite::SetTimezone(timezone.clone()));
            } else {
                failure = Some(ReconcileError::InvalidTimezone { value: timezone.clone() });
            }
        }
    }
    proof {
        assert(writes@.subrange(0, u.len() as int) =~= u);
        assert(writes@.subrange(before_tz.len() as int, writes@.len() as int) =~= timezone_write(
            *current,
            *cfg,
            zone_known,
        ));
    }
    ReconcilePlan { writes, failure }
}

/// Plan the reconciliation of the stored row `current` (`None` on first
/// boot) against `cfg`, given whether the time zone it would store is known
/// (`zone_known`, the answer of the time-zone lookup).
pub fn plan_reconcile(current: Option<&Credentials>, cfg: &Config, zone_known: bool) -> (plan:
    ReconcilePlan)
    ensures
        current is None ==> bootstrap_plan_given(*cfg, zone_known, plan),
        current matches Some(c) ==> update_plan_given(*c, *cfg, zone_known, plan),
{
    match current {
        None => bootstrap(cfg, zone_known),
        Some(c) => update_in_place(cfg, c, zone_known),
    }
}

/// Reconcile the stored credentials row against the configured `USERNAME`,
/// `PASSWORD` and `TIMEZONE`: create it on first boot, else update the
/// fields that differ.
pub fn reconcile(current: Option<&Credentials>, cfg: &Config) -> (plan: ReconcilePlan)
    ensures
        current is None ==> bootstrap_plan(*cfg, plan),
        current matches Some(c) ==> update_plan(*c, *cfg, plan),
{
    let zone_known = match current {
        None => timezone_known(
            match &cfg.timezone {
                Some(t) => t.as_str(),
                None => DEFAULT_TIMEZONE,
            },
        ),
        Some(c) => match &cfg.timezone {
            Some(t) => if str_eq(t.as_str(), c.timezone.as_str()) {
                true
            } else {
                timezone_known(t.as_str())
            },
            None => true,
        },
    };
    plan_reconcile(current, cfg, zone_known)
}

} // verus!

verus! {

/// The row after one write. Updates of a missing row change nothing.
pub open spec fn apply_write(row: Option<Credentials>, w: CredentialWrite) -> Option<Credentials> {
    match w {
        CredentialWrite::Insert { username, password_hash, timezone } => Some(
            Credentials { username, password_hash, timezone, last_login_at: None },
        ),
        CredentialWrite::SetUsername(u) => match row {
            Some(c) => Some(Credentials { username: u, ..c }),
            None => None,
        },
        CredentialWrite::SetPasswordHash(h) => match row {
            Some(c) => Some(Credentials { password_hash: h, ..c }),
            None => None,
        },
        CredentialWrite::SetTimezone(t) => match row {
            Some(c) => Some(Credentials { timezone: t, ..c }),
            None => None,
        },
    }
}

/// The row after the writes, applied in order.
pub open spec fn apply_writes(row: Option<Credentials>, ws: Seq<CredentialWrite>) -> Option<Credentials>
    decreases ws.len(),
{
    if ws.len() == 0 {
        row
    } else {
        apply_writes(apply_write(row, ws[0]), ws.drop_first())
    }
}

/// When reconciliation succeeds, the row it leaves matches the configuration:
/// each configured field holds the configured value (the password is one the
/// stored hash accepts), and each unset field keeps its stored value (the
/// time zone is `UTC` on a first boot without one).
pub proof fn reconcile_matches_config(
    current: Option<Credentials>,
    cfg: Config,
    plan: ReconcilePlan,
)
    requires
        current is None ==> bootstrap_plan(cfg, plan),
        current matches Some(c) ==> update_plan(c, cfg, plan),
        plan.failure is None,
    ensures
        apply_writes(current, plan.writes@) matches Some(r) && {
            &&& cfg.username matches Some(u) ==> r.username@ == u@
            &&& cfg.password matches Some(p) ==> verification(p@, r.password_hash@) == Ok::<
                bool,
                PasswordError,
            >(true)
            &&& cfg.timezone matches Some(t) ==> r.timezone@ == t@
            &&& current matches Some(c) ==> {
                &&& cfg.username is None ==> r.username == c.username
                &&& cfg.password is None ==> r.password_hash == c.password_hash
                &&& cfg.timezone is None ==> r.timezone == c.timezone
            }
            &&& current is None && cfg.timezone is None ==> r.timezone@ == DEFAULT_TIMEZONE@
        },
{
    reveal_with_fuel(apply_writes, 4);
    let w = plan.writes@;
    match current {
        None => {
            assert(w.drop_first() =~= Seq::<CredentialWrite>::empty());
        },
        Some(c) => {
            let u = username_change(c, cfg);
            let k: int = if needs_rehash(c, cfg) {
                1
            } else {
                0
            };
            let tz = timezone_write(c, cfg, zone_known_for(Some(c), cfg));
            assert(w.subrange(0, u.len() as int) == u);
            assert(w.subrange(u.len() + k, w.len() as int) == tz);
            let r0 = Some(c);
            let r1 = apply_writes(r0, w.subrange(0, u.len() as int));
            assert(apply_writes(r0, w) == apply_writes(r1, w.subrange(u.len() as int, w.len() as int)))
                by {
                if u.len() == 1 {
                    assert(w.subrange(0, 1).drop_first() =~= Seq::<CredentialWrite>::empty());
                    assert(w.drop_first() =~= w.subrange(1, w.len() as int));
                } else {
                    assert(w.subrange(0, 0) =~= Seq::<CredentialWrite>::empty());
                    assert(w =~= w.subrange(0, w.len() as int));
                }
            }
            let rest = w.subrange(u.len() as int, w.len() as int);
            let r2 = apply_writes(r1, rest.subrange(0, k));
            assert(apply_writes(r1, rest) == apply_writes(r2, rest.subrange(k, rest.len() as int))) by {
                if k == 1 {
                    assert(rest.subrange(0, 1).drop_first() =~= Seq::<CredentialWrite>::empty());
                    assert(rest.drop_first() =~= rest.subrange(1, rest.len() as int));
                } else {
                    assert(rest.subrange(0, 0) =~= Seq::<CredentialWrite>::empty());
                    assert(rest =~= rest.subrange(0, rest.len() as int));
                }
            }
            assert(rest.subrange(k, rest.len() as int) =~= tz);
            if k == 1 {
                assert(rest[0] == w[u.len() as int]);
            }
        },
    }
}

/// With a known time zone and a password Argon2 can hash, reconciliation
/// succeeds: a first boot with both credentials inserts the row, and on
/// later starts every changed value is written, so the row then holds the
/// configured username and time zone and accepts the configured password.
pub proof fn valid_config_reconciles(current: Option<Credentials>, cfg: Config, plan: ReconcilePlan)
    requires
        current is None ==> bootstrap_plan(cfg, plan),
        current matches Some(c) ==> update_plan(c, cfg, plan),
        current is None ==> cfg.username is Some && cfg.password is Some,
        zone_known_for(current, cfg),
        cfg.password matches Some(p) ==> hashable(p@),
    ensures
        plan.failure is None,
        current is None ==> plan.writes@.len() == 1 && plan.writes@[0] is Insert,
        apply_writes(current, plan.writes@) matches Some(r) && {
            &&& cfg.username matches Some(u) ==> r.username@ == u@
            &&& cfg.password matches Some(p) ==> verification(p@, r.password_hash@) == Ok::<
                bool,
                PasswordError,
            >(true)
            &&& cfg.timezone matches Some(t) ==> r.timezone@ == t@
        },
{
    reconcile_matches_config(current, cfg, plan);
}

/// A row that already matches the configuration is left alone: nothing is
/// written and nothing fails.
pub proof fn reconcile_is_idempotent(current: Credentials, cfg: Config, plan: ReconcilePlan)
    requires
        update_plan(current, cfg, plan),
        cfg.username matches Some(u) ==> u@ == current.username@,
        cfg.password matches Some(p) ==> verification(p@, current.password_hash@) == Ok::<
            bool,
            PasswordError,
        >(true),
        cfg.timezone matches Some(t) ==> t@ == current.timezone@,
    ensures
        plan.writes@.len() == 0,
        plan.failure is None,
{
}

/// A first boot without both `USERNAME` and `PASSWORD` writes nothing and fails.
pub proof fn bootstrap_requires_credentials(cfg: Config, plan: ReconcilePlan)
    requires
        bootstrap_plan(cfg, plan),
        cfg.username is None || cfg.password is None,
    ensures
        plan.writes@.len() == 0,
        plan.failure is Some,
{
}

} // verus!
