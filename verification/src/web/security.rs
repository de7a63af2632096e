use vstd::prelude::*;

verus! {

/// Content-Security-Policy applied to every response. Inline styles are
/// allowed because Alpine sets the `style` attribute at runtime for
/// `x-show`, `x-transition`, and `x-cloak`; scripts come from the origin only.
pub const CSP: &'static str = "default-src 'self'; script-src 'self'; style-src 'self' 'unsafe-inline'; img-src 'self' data:; font-src 'self'; connect-src 'self'; form-action 'self'; base-uri 'self'; frame-ancestors 'none'; object-src 'none'";

/// `X-Content-Type-Options` value.
pub const NOSNIFF: &'static str = "nosniff";

/// `X-Frame-Options` value.
pub const FRAME_OPTIONS: &'static str = "DENY";

/// `Referrer-Policy` value.
pub const REFERRER_POLICY: &'static str = "same-origin";

/// Name of the `Permissions-Policy` header.
pub const PERMISSIONS_POLICY_HEADER: &'static str = "permissions-policy";

/// `Permissions-Policy` value: every listed feature disabled.
pub const PERMISSIONS_POLICY: &'static str = "accelerometer=(), camera=(), geolocation=(), gyroscope=(), magnetometer=(), microphone=(), payment=(), usb=(), interest-cohort=()";

/// `Strict-Transport-Security` value: one year, subdomains included.
pub const HSTS: &'static str = "max-age=31536000; includeSubDomains";

/// The `Strict-Transport-Security` value to send: only for HTTPS
/// deployments, never on plain HTTP origins.
pub fn hsts_header(cookies_secure: bool) -> (r: Option<&'static str>)
    ensures
        cookies_secure ==> (r matches Some(v) && v@ == HSTS@),
        !cookies_secure ==> r is None,
{
    if cookies_secure {
        Some(HSTS)
    } else {
        None
    }
}

} // verus!
