//! A small certificate authority: it issues a self-signed CA certificate
//! and key as PEM text and reports whether one is installed. The proxy
//! itself never consults it.

use vstd::prelude::*;
use crate::events::{clock_at, ClockTime};
use crate::text::{two_digit_string, two_digits};

verus! {

/// What is shown of the CA certificate.
#[derive(Clone, Debug)]
pub struct CaInfo {
    pub id: String,
    pub domain: String,
    pub type_: String,
    pub issuer: String,
    pub validity: String,
}

/// `info` describes this library's root CA, with `validity` as its validity text.
pub open spec fn is_root_ca_info(info: CaInfo, validity: Seq<char>) -> bool {
    &&& info.id@ == "ca-root"@
    &&& info.domain@ == "Oriv Root CA"@
    &&& info.type_@ == "自签名"@
    &&& info.issuer@ == "Oriv Proxy"@
    &&& info.validity@ == validity
}

/// A calendar date, as the `time` crate gives it.
#[derive(Clone, Copy, Debug, PartialEq, Eq, Structural)]
pub struct CivilDate {
    pub year: i32,
    pub month: u8,
    pub day: u8,
}

impl CivilDate {
    /// The fields name a date that the `time` crate can hold.
    pub open spec fn wf(self) -> bool {
        &&& -9999 <= self.year <= 9999
        &&& 1 <= self.month <= 12
        &&& 1 <= self.day <= 31
    }
}

/// `n` written with exactly four digits.
pub open spec fn four_digits(n: nat) -> Seq<char> {
    two_digits(n / 100) + two_digits(n % 100)
}

/// `YYYY-MM-DD`, with a leading `-` for years before year zero.
pub open spec fn date_text(d: CivilDate) -> Seq<char> {
    let sign = if d.year < 0 { "-"@ } else { Seq::<char>::empty() };
    let y: nat = if d.year < 0 { (-d.year) as nat } else { d.year as nat };
    sign + four_digits(y) + "-"@ + two_digits(d.month as nat) + "-"@ + two_digits(d.day as nat)
}

/// The validity text of a certificate valid from `from` to `to`.
pub open spec fn validity_text(from: CivilDate, to: CivilDate) -> Seq<char> {
    date_text(from) + " 至 "@ + date_text(to)
}

/// The directory that holds the CA files, under `home` (the working
/// directory where there is no home directory). Paths are kept as text and
/// joined with `/`, which every supported platform accepts as a separator.
pub open spec fn cert_dir_under(home: Option<Seq<char>>) -> Seq<char> {
    let base = match home {
        Some(h) => h,
        None => "."@,
    };
    base + "/.gemini/antigravity/certs"@
}

/// How long an issued CA certificate is valid, in days.
pub const VALIDITY_DAYS: i64 = 365;

#[verifier::external_type_specification]
#[verifier::external_body]
pub struct ExKeyPair(rcgen::KeyPair);

#[verifier::external_type_specification]
#[verifier::external_body]
pub struct ExRcgenError(rcgen::Error);

/// Relies on `time::OffsetDateTime::to_calendar_date`: year, month and day
/// of the instant; with the crate's `large-dates` feature off (as it is
/// built here) years run from -9999 to 9999, months from 1 to 12 (the
/// `Month` enum's values), days from 1 to 31.
#[verifier::external_body]
fn calendar_date(t: time::OffsetDateTime) -> (r: CivilDate)
    ensures
        r.wf(),
{
    let (year, month, day) = t.to_calendar_date();
    CivilDate { year, month: u8::from(month), day }
}

/// How deep a chain below a CA certificate may go.
#[derive(Clone, Copy, Debug, PartialEq, Eq, Structural)]
pub enum CaConstraint {
    /// Any number of intermediate CAs.
    Unconstrained,
    /// At most this many intermediate CAs.
    PathLength(u8),
}

/// What a certificate's key may be used for.
#[derive(Clone, Copy, Debug, PartialEq, Eq, Structural)]
pub enum KeyUsage {
    /// Signing certificates.
    CertSign,
    /// Signing certificate revocation lists.
    CrlSign,
}

/// An instant in UTC, to the second.
#[derive(Clone, Copy, Debug, PartialEq, Eq, Structural)]
pub struct UtcStamp {
    pub date: CivilDate,
    pub time: ClockTime,
}

impl UtcStamp {
    /// The fields are in range, and the year is one that a certificate's
    /// validity can be written with (0 to 9999).
    pub open spec fn certifiable(self) -> bool {
        self.date.wf() && self.time.wf() && 0 <= self.date.year
    }
}

#[verifier::external_type_specification]
#[verifier::external_body]
pub struct ExCertificateParams(rcgen::CertificateParams);

#[verifier::external_type_specification]
#[verifier::external_body]
pub struct ExComponentRange(time::error::ComponentRange);

/// What a CA certificate is issued for: its subject, its constraint as a
/// CA, what its key may be used for, and its validity period.
pub struct CaRequest {
    pub common_name: String,
    pub organization: String,
    pub constraint: CaConstraint,
    pub usages: Vec<KeyUsage>,
    pub not_before: UtcStamp,
    pub not_after: UtcStamp,
}

/// `req` asks for this library's root CA, valid from `from` to `to`: it may
/// sign certificates and revocation lists, below it any chain length.
pub open spec fn is_root_ca_request(req: CaRequest, from: UtcStamp, to: UtcStamp) -> bool {
    &&& req.common_name@ == "Oriv Self-Signed CA"@
    &&& req.organization@ == "Oriv Proxy"@
    &&& req.constraint == CaConstraint::Unconstrained
    &&& req.usages@ == seq![KeyUsage::CertSign, KeyUsage::CrlSign]
    &&& req.not_before == from
    &&& req.not_after == to
}

/// The instant `days` days after `t`, if `t` names a real instant and the
/// result lies within the dates the `time` crate holds.
pub uninterp spec fn days_later_of(t: UtcStamp, days: i64) -> Option<UtcStamp>;

/// Relies on `time::Date::from_calendar_date`, `Date::with_hms`,
/// `PrimitiveDateTime::assume_utc`, `OffsetDateTime::checked_add` with
/// `time::Duration::days`, and `to_calendar_date`/`to_hms` to read the
/// result back: UTC calendar arithmetic, which depends on the arguments
/// alone. `Duration::days` panics unless the number of seconds fits an
/// `i64`, which `requires` rules out; the fields read back lie in the
/// ranges of `CivilDate::wf` and `ClockTime::wf` (bounded integers in the
/// crate, built without `large-dates`).
#[verifier::external_body]
fn days_later(t: UtcStamp, days: i64) -> (r: Option<UtcStamp>)
    requires
        i64::MIN <= days * 86400 <= i64::MAX,
    ensures
        r == days_later_of(t, days),
        r matches Some(u) ==> u.date.wf() && u.time.wf(),
{
    let (d, c) = (t.date, t.time);
    let start = time::Date::from_calendar_date(d.year, time::Month::try_from(d.month).ok()?, d.day).ok()?;
    let later = start.with_hms(c.hour, c.minute, c.second).ok()?.assume_utc().checked_add(time::Duration::days(days))?;
    let (year, month, day) = later.to_calendar_date();
    let (hour, minute, second) = later.to_hms();
    Some(UtcStamp { date: CivilDate { year, month: u8::from(month), day }, time: ClockTime { hour, minute, second } })
}

/// Relies on `rcgen::KeyPair::generate` and `KeyPair::serialize_pem`: a
/// fresh random key pair with its private key as PEM text, or an error from
/// the crypto backend. The pair is local, so serialising it does not panic.
/// Nothing is known of the key.
#[verifier::external_body]
fn generate_key() -> (r: Result<(rcgen::KeyPair, String), rcgen::Error>) {
    let key = rcgen::KeyPair::generate()?;
    let pem = key.serialize_pem();
    Ok((key, pem))
}

/// Relies on `rcgen::CertificateParams` (its `default`, then
/// `DistinguishedName::push`, which replaces the placeholder common name,
/// and the `is_ca` and `key_usages` fields): the subject, CA constraint and
/// key usages of `req`, converted one for one. The validity fields keep
/// rcgen's defaults until `sign_ca_pem` sets them.
#[verifier::external_body]
fn ca_params(req: &CaRequest) -> (r: rcgen::CertificateParams) {
    let mut p = rcgen::CertificateParams::default();
    p.distinguished_name.push(rcgen::DnType::CommonName, req.common_name.as_str());
    p.distinguished_name.push(rcgen::DnType::OrganizationName, req.organization.as_str());
    p.is_ca = rcgen::IsCa::Ca(match req.constraint {
        CaConstraint::Unconstrained => rcgen::BasicConstraints::Unconstrained,
        CaConstraint::PathLength(n) => rcgen::BasicConstraints::Constrained(n),
    });
    p.key_usages = req.usages.iter().map(|u| match u {
        KeyUsage::CertSign => rcgen::KeyUsagePurpose::KeyCertSign,
        KeyUsage::CrlSign => rcgen::KeyUsagePurpose::CrlSign,
    }).collect();
    p
}

/// Relies on `time::Date::from_calendar_date`, `Date::with_hms` and
/// `PrimitiveDateTime::assume_utc` to make the two validity instants (the
/// outer error where the fields name no real date), and on
/// `rcgen::CertificateParams::self_signed` with `Certificate::pem` for a
/// certificate signed by `key`, as PEM text (the inner error). rcgen panics
/// when a validity year lies outside 0 to 9999 (yasna's `GeneralizedTime`),
/// which `requires` rules out. The signature is randomised, so nothing is
/// known of the text.
#[verifier::external_body]
fn sign_ca_pem(
    mut params: rcgen::CertificateParams,
    key: &rcgen::KeyPair,
    from: UtcStamp,
    to: UtcStamp,
) -> (r: Result<Result<String, rcgen::Error>, time::error::ComponentRange>)
    requires
        from.certifiable(),
        to.certifiable(),
{
    let (d, t) = (from.date, from.time);
    params.not_before = time::Date::from_calendar_date(d.year, time::Month::try_from(d.month)?, d.day)?
        .with_hms(t.hour, t.minute, t.second)?
        .assume_utc();
    let (d, t) = (to.date, to.time);
    params.not_after = time::Date::from_calendar_date(d.year, time::Month::try_from(d.month)?, d.day)?
        .with_hms(t.hour, t.minute, t.second)?
        .assume_utc();
    Ok(params.self_signed(key).map(|cert| cert.pem()))
}

/// Relies on `dirs::home_dir`: the user's home directory, if one is known,
/// as text (bytes that are not UTF-8 become U+FFFD, as
/// `Path::to_string_lossy` does). Nothing is known of which directory that is.
#[verifier::external_body]
fn home_directory() -> (r: Option<String>) {
    dirs::home_dir().map(|p| p.to_string_lossy().into_owned())
}

/// Relies on `std::path::Path::exists`: whether something is at `path` on
/// disk now. Nothing is known of the answer.
#[verifier::external_body]
fn path_exists(path: &str) -> (r: bool) {
    std::path::Path::new(path).exists()
}

/// The date written as `YYYY-MM-DD`.
pub fn format_date(d: CivilDate) -> (r: String)
    requires
        d.wf(),
    ensures
        r@ == date_text(d),
{
    let y: u32 = if d.year < 0 { (-d.year) as u32 } else { d.year as u32 };
    let sign = if d.year < 0 { String::from_str("-") } else { String::new() };
    let hi = two_digit_string((y / 100) as u64);
    let lo = two_digit_string((y % 100) as u64);
    let month = two_digit_string(d.month as u64);
    let day = two_digit_string(d.day as u64);
    sign.concat(hi.as_str()).concat(lo.as_str()).concat("-").concat(month.as_str()).concat("-").concat(
        day.as_str(),
    )
}

/// The description of the root CA, with the validity text given.
fn root_ca_info(validity: String) -> (r: CaInfo)
    ensures
        is_root_ca_info(r, validity@),
{
    CaInfo {
        id: String::from_str("ca-root"),
        domain: String::from_str("Oriv Root CA"),
        type_: String::from_str("自签名"),
        issuer: String::from_str("Oriv Proxy"),
        validity,
    }
}

/// The description of an installed CA certificate where `present` says
/// one is on disk, and nothing where it is not.
pub fn installed_info(present: bool) -> (r: Option<CaInfo>)
    ensures
        present ==> (r matches Some(i) && is_root_ca_info(i, "已安装"@)),
        !present ==> r is None,
{
    if present {
        Some(root_ca_info(String::from_str("已安装")))
    } else {
        None
    }
}

/// The description of a CA certificate issued on `from` and valid until `to`.
pub fn issued_info(from: CivilDate, to: CivilDate) -> (r: CaInfo)
    requires
        from.wf(),
        to.wf(),
    ensures
        is_root_ca_info(r, validity_text(from, to)),
{
    let validity = format_date(from).concat(" 至 ").concat(format_date(to).as_str());
    root_ca_info(validity)
}

/// The time now, in UTC, to the second.
fn now_stamp() -> (r: UtcStamp)
    ensures
        r.date.wf(),
        r.time.wf(),
{
    let now = time::OffsetDateTime::now_utc();
    UtcStamp { date: calendar_date(now), time: clock_at(now) }
}

/// The validity period of a certificate issued at `now` whose end is
/// `later`: refused where there is no end, or where either year lies before
/// year 0, which a certificate cannot express.
pub fn validity_window(now: UtcStamp, later: Option<UtcStamp>) -> (r: Result<(UtcStamp, UtcStamp), CaError>)
    requires
        now.date.wf(),
        now.time.wf(),
        later matches Some(l) ==> l.date.wf() && l.time.wf(),
    ensures
        r is Ok <==> (later matches Some(l) && 0 <= now.date.year && 0 <= l.date.year),
        r matches Ok(w) ==> w.0 == now && later == Some(w.1) && w.0.certifiable() && w.1.certifiable(),
        r matches Err(e) ==> e is ValidityOutOfRange,
{
    match later {
        Some(l) => {
            if now.date.year < 0 || l.date.year < 0 {
                Err(CaError::ValidityOutOfRange)
            } else {
                Ok((now, l))
            }
        },
        None => Err(CaError::ValidityOutOfRange),
    }
}

/// The request for this library's root CA, valid from `from` to `to`.
pub fn ca_request(from: UtcStamp, to: UtcStamp) -> (r: CaRequest)
    ensures
        is_root_ca_request(r, from, to),
{
    let mut usages: Vec<KeyUsage> = Vec::new();
    usages.push(KeyUsage::CertSign);
    usages.push(KeyUsage::CrlSign);
    assert(usages@ =~= seq![KeyUsage::CertSign, KeyUsage::CrlSign]);
    CaRequest {
        common_name: String::from_str("Oriv Self-Signed CA"),
        organization: String::from_str("Oriv Proxy"),
        constraint: CaConstraint::Unconstrained,
        usages,
        not_before: from,
        not_after: to,
    }
}

/// Why issuing a CA certificate failed.
#[derive(Debug)]
pub enum CaError {
    /// The key could not be generated, or the certificate not signed.
    Crypto(rcgen::Error),
    /// The validity period cannot be written in a certificate: it reaches
    /// outside the years 0 to 9999, or past the dates the clock can hold.
    ValidityOutOfRange,
}

/// A freshly issued CA: where its files belong, their PEM contents, and its
/// description.
pub struct IssuedCa {
    pub cert_path: String,
    pub key_path: String,
    pub cert_pem: String,
    pub key_pem: String,
    pub request: CaRequest,
    pub info: CaInfo,
}

/// Issues and locates the self-signed CA certificate. Its view is the
/// directory that holds the files.
pub struct CertificateAuthority {
    cert_dir: String,
}

impl View for CertificateAuthority {
    type V = Seq<char>;

    closed spec fn view(&self) -> Seq<char> {
        self.cert_dir@
    }
}

impl CertificateAuthority {
    /// The authority whose files live under `home` (see `cert_dir_under`).
    pub fn with_home(home: Option<String>) -> (r: CertificateAuthority)
        ensures
            r@ == cert_dir_under(
                match home {
                    Some(h) => Some(h@),
                    None => None,
                },
            ),
    {
        let base = match home {
            Some(h) => h,
            None => String::from_str("."),
        };
        CertificateAuthority { cert_dir: base.concat("/.gemini/antigravity/certs") }
    }

    /// The authority whose files live under the user's home directory.
    pub fn new() -> (r: CertificateAuthority)
        ensures
            exists|home: Option<Seq<char>>| r@ == cert_dir_under(home),
    {
        let home = home_directory();
        CertificateAuthority::with_home(home)
    }

    /// The directory that holds the CA files.
    pub fn get_cert_dir(&self) -> (r: String)
        ensures
            r@ == self@,
    {
        self.cert_dir.clone()
    }

    /// Where the certificate is stored.
    pub fn cert_path(&self) -> (r: String)
        ensures
            r@ == self@ + "/ca.crt"@,
    {
        self.cert_dir.clone().concat("/ca.crt")
    }

    /// Where the private key is stored.
    pub fn key_path(&self) -> (r: String)
        ensures
            r@ == self@ + "/ca.key"@,
    {
        self.cert_dir.clone().concat("/ca.key")
    }

    /// The description of the installed CA certificate, if its file exists.
    /// The file is not parsed.
    pub fn load_ca_info(&self) -> (r: Option<CaInfo>)
        ensures
            r matches Some(i) ==> is_root_ca_info(i, "已安装"@),
    {
        let path = self.cert_path();
        installed_info(path_exists(path.as_str()))
    }

    /// What an issue comes to once `signed`, the outcome of signing
    /// `request` with a key whose PEM text is `key_pem`, is known: the
    /// certificate and its description on success, the signing error
    /// otherwise, and the out-of-range error where the validity instants
    /// could not be formed.
    pub fn finish_issue(
        &self,
        request: CaRequest,
        key_pem: String,
        signed: Result<Result<String, rcgen::Error>, time::error::ComponentRange>,
    ) -> (r: Result<IssuedCa, CaError>)
        requires
            request.not_before.certifiable(),
            request.not_after.certifiable(),
        ensures
            signed matches Ok(Ok(pem)) ==> (r matches Ok(ca) && {
                &&& ca.cert_path@ == self@ + "/ca.crt"@
                &&& ca.key_path@ == self@ + "/ca.key"@
                &&& ca.cert_pem@ == pem@
                &&& ca.key_pem@ == key_pem@
                &&& ca.request == request
                &&& is_root_ca_info(ca.info, validity_text(request.not_before.date, request.not_after.date))
            }),
            signed matches Ok(Err(e)) ==> (r matches Err(CaError::Crypto(e2)) && e2 == e),
            signed is Err ==> (r matches Err(e) && e is ValidityOutOfRange),
    {
        match signed {
            Ok(Ok(cert_pem)) => {
                let info = issued_info(request.not_before.date, request.not_after.date);
                Ok(IssuedCa { cert_path: self.cert_path(), key_path: self.key_path(), cert_pem, key_pem, request, info })
            },
            Ok(Err(e)) => Err(CaError::Crypto(e)),
            Err(_) => Err(CaError::ValidityOutOfRange),
        }
    }

    /// Issues a new self-signed CA certificate, valid for a year from now,
    /// and hands back its files' places and contents with its description.
    /// Writing the files is left to the caller.
    pub fn generate_ca_cert(&self) -> (r: Result<IssuedCa, CaError>)
        ensures
            r matches Ok(ca) ==> {
                &&& ca.cert_path@ == self@ + "/ca.crt"@
                &&& ca.key_path@ == self@ + "/ca.key"@
                &&& ca.request.not_before.certifiable()
                &&& ca.request.not_after.certifiable()
                &&& days_later_of(ca.request.not_before, VALIDITY_DAYS) == Some(ca.request.not_after)
                &&& is_root_ca_request(ca.request, ca.request.not_before, ca.request.not_after)
                &&& is_root_ca_info(ca.info, validity_text(ca.request.not_before.date, ca.request.not_after.date))
            },
    {
        let now = now_stamp();
        let later = days_later(now, VALIDITY_DAYS);
        let (from, to) = match validity_window(now, later) {
            Ok(w) => w,
            Err(e) => return Err(e),
        };
        let (key, key_pem) = match generate_key() {
            Ok(k) => k,
            Err(e) => return Err(CaError::Crypto(e)),
        };
        let request = ca_request(from, to);
        let params = ca_params(&request);
        let signed = sign_ca_pem(params, &key, request.not_before, request.not_after);
        self.finish_issue(request, key_pem, signed)
    }
}

} // verus!
