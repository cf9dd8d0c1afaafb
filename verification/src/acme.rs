//! The certificate's configuration and metadata: where they are stored, when a
//! certificate is due for renewal, and which command obtains a new one.

use vstd::prelude::*;
use vstd::string::*;

use crate::clock::{clock_reading, given_by_clock, UtcTime, MIN_SECS};
use crate::paths;
use crate::text;

verus! {

/// How many days before its expiry a certificate is renewed.
pub const RENEWAL_DAYS: u32 = 30;

/// The name of the metadata file in the certificate directory.
pub const METADATA_FILE: &'static str = "cert_metadata.json";

/// The name of the certificate in the certificate directory.
pub const CERT_FILE: &'static str = "cert.pem";

/// The name of the private key in the certificate directory.
pub const KEY_FILE: &'static str = "key.pem";

/// The name of a certificate that is about to replace the one in the
/// certificate directory.
pub const NEXT_CERT_FILE: &'static str = "cert.pem.new";

/// The name of a private key that is about to replace the one in the
/// certificate directory.
pub const NEXT_KEY_FILE: &'static str = "key.pem.new";

/// Where certbot keeps the current certificate of each domain.
pub const LIVE_DIR: &'static str = "/etc/letsencrypt/live";

/// The name under which certbot keeps a certificate.
pub const LIVE_CERT_FILE: &'static str = "fullchain.pem";

/// The name under which certbot keeps a private key.
pub const LIVE_KEY_FILE: &'static str = "privkey.pem";

/// The command that obtains a certificate, where no other is configured.
pub const DEFAULT_TEMPLATE: &'static str =
    "certbot certonly --webroot -w {cert_dir} -d {domain} --email {email} --agree-tos --non-interactive {staging_flag}";

/// What is known of a certificate that was obtained.
#[derive(Debug)]
pub struct CertificateMetadata {
    pub domain: String,
    pub issued_at: UtcTime,
    pub expires_at: UtcTime,
    pub cert_path: String,
    pub key_path: String,
}

/// The mathematical content of [`CertificateMetadata`].
pub struct MetadataView {
    pub domain: Seq<char>,
    pub issued_at: UtcTime,
    pub expires_at: UtcTime,
    pub cert_path: Seq<char>,
    pub key_path: Seq<char>,
}

impl View for CertificateMetadata {
    type V = MetadataView;

    open spec fn view(&self) -> MetadataView {
        MetadataView {
            domain: self.domain@,
            issued_at: self.issued_at,
            expires_at: self.expires_at,
            cert_path: self.cert_path@,
            key_path: self.key_path@,
        }
    }
}

impl MetadataView {
    /// Whether both dates are instants of the calendar.
    pub open spec fn wf(self) -> bool {
        self.issued_at.wf() && self.expires_at.wf()
    }

    /// Whether the instant at which renewal begins lies within the calendar.
    pub open spec fn has_renewal_threshold(self) -> bool {
        MIN_SECS <= self.expires_at.secs_days_before(RENEWAL_DAYS as int)
    }

    /// The instant at which renewal begins.
    pub open spec fn renewal_threshold(self) -> UtcTime {
        self.expires_at.days_before(RENEWAL_DAYS as int)
    }

    /// Whether the certificate is due for renewal at an instant.
    pub open spec fn renewal_due(self, now: UtcTime) -> bool {
        now.after(self.renewal_threshold())
    }
}

impl Clone for CertificateMetadata {
    fn clone(&self) -> (copy: Self)
        ensures
            copy@ == self@,
    {
        CertificateMetadata {
            domain: self.domain.clone(),
            issued_at: self.issued_at,
            expires_at: self.expires_at,
            cert_path: self.cert_path.clone(),
            key_path: self.key_path.clone(),
        }
    }
}

impl CertificateMetadata {
    /// Whether the instant at which renewal begins lies within the calendar.
    pub fn has_renewal_threshold(&self) -> (exists_threshold: bool)
        requires
            self@.wf(),
        ensures
            exists_threshold == self@.has_renewal_threshold(),
    {
        let first: i64 = MIN_SECS + 86_400 * RENEWAL_DAYS as i64;
        self.expires_at.secs >= first || (self.expires_at.secs == first - 1
            && self.expires_at.nanos >= crate::clock::NANOS_PER_SEC)
    }
}

/// What was found where the metadata is stored.
#[derive(Debug)]
pub enum StoredMetadata {
    /// There is no such file.
    Missing,
    /// The file could not be read; the text says why.
    Unreadable(String),
    /// The file does not hold metadata; the text says why.
    Malformed(String),
    /// The file holds this metadata.
    Found(CertificateMetadata),
}

/// What it takes to store metadata: the directory that must exist, the file to
/// write, and what to write to it.
#[derive(Debug)]
pub struct SavePlan {
    pub dir: String,
    pub path: String,
    pub metadata: CertificateMetadata,
}

/// For whom certificates are obtained, and where they are kept.
#[derive(Debug)]
pub struct LetsEncryptConfig {
    pub domain: String,
    pub email: String,
    pub cert_dir: String,
    pub use_staging: bool,
}

/// The mathematical content of [`LetsEncryptConfig`].
pub struct LetsEncryptView {
    pub domain: Seq<char>,
    pub email: Seq<char>,
    pub cert_dir: Seq<char>,
    pub use_staging: bool,
}

impl View for LetsEncryptConfig {
    type V = LetsEncryptView;

    open spec fn view(&self) -> LetsEncryptView {
        LetsEncryptView {
            domain: self.domain@,
            email: self.email@,
            cert_dir: self.cert_dir@,
            use_staging: self.use_staging,
        }
    }
}

impl Clone for LetsEncryptConfig {
    fn clone(&self) -> (copy: Self)
        ensures
            copy@ == self@,
    {
        LetsEncryptConfig {
            domain: self.domain.clone(),
            email: self.email.clone(),
            cert_dir: self.cert_dir.clone(),
            use_staging: self.use_staging,
        }
    }
}

impl LetsEncryptView {
    /// Where the metadata is stored.
    pub open spec fn metadata_path(self) -> Seq<char> {
        paths::joined(self.cert_dir, METADATA_FILE@)
    }

    /// Where the server's certificate is kept.
    pub open spec fn local_cert(self) -> Seq<char> {
        paths::joined(self.cert_dir, CERT_FILE@)
    }

    /// Where the server's private key is kept.
    pub open spec fn local_key(self) -> Seq<char> {
        paths::joined(self.cert_dir, KEY_FILE@)
    }

    /// Where a certificate stands that is about to replace the server's.
    pub open spec fn next_cert(self) -> Seq<char> {
        paths::joined(self.cert_dir, NEXT_CERT_FILE@)
    }

    /// Where a private key stands that is about to replace the server's.
    pub open spec fn next_key(self) -> Seq<char> {
        paths::joined(self.cert_dir, NEXT_KEY_FILE@)
    }

    /// Where certbot keeps the domain's certificate.
    pub open spec fn live_cert(self) -> Seq<char> {
        paths::joined(paths::joined(LIVE_DIR@, self.domain), LIVE_CERT_FILE@)
    }

    /// Where certbot keeps the domain's private key.
    pub open spec fn live_key(self) -> Seq<char> {
        paths::joined(paths::joined(LIVE_DIR@, self.domain), LIVE_KEY_FILE@)
    }

    /// What stands for `{staging_flag}`.
    pub open spec fn staging_flag(self) -> Seq<char> {
        if self.use_staging {
            "--staging"@
        } else {
            ""@
        }
    }

    /// A template with its placeholders filled in, one kind after the other.
    pub open spec fn expanded(self, template: Seq<char>) -> Seq<char> {
        let with_domain = text::replaced(template, "{domain}"@, self.domain);
        let with_email = text::replaced(with_domain, "{email}"@, self.email);
        let with_dir = text::replaced(with_email, "{cert_dir}"@, self.cert_dir);
        text::replaced(with_dir, "{staging_flag}"@, self.staging_flag())
    }

    /// The command that obtains a certificate, by the configured template or
    /// by the default one.
    pub open spec fn acme_command(self, template: Option<Seq<char>>) -> Seq<char> {
        match template {
            Some(t) => self.expanded(t),
            None => self.expanded(DEFAULT_TEMPLATE@),
        }
    }
}

/// The characters of a text, if there is one.
pub open spec fn opt_view(s: Option<String>) -> Option<Seq<char>> {
    match s {
        Some(t) => Some(t@),
        None => None,
    }
}

impl LetsEncryptConfig {
    /// A configuration with these parts.
    pub fn new(domain: String, email: String, cert_dir: &str, use_staging: bool) -> (config: Self)
        ensures
            config@ == (LetsEncryptView {
                domain: domain@,
                email: email@,
                cert_dir: cert_dir@,
                use_staging,
            }),
    {
        LetsEncryptConfig { domain, email, cert_dir: cert_dir.to_string(), use_staging }
    }

    /// Where the metadata is stored.
    pub fn metadata_path(&self) -> (path: String)
        ensures
            path@ == self@.metadata_path(),
    {
        paths::join(self.cert_dir.as_str(), METADATA_FILE)
    }

    /// The stored metadata, if there is any that can be read.
    pub fn load_metadata(&self, stored: StoredMetadata) -> (metadata: Option<CertificateMetadata>)
        ensures
            match stored {
                StoredMetadata::Found(m) => metadata == Some(m),
                _ => metadata is None,
            },
    {
        match stored {
            StoredMetadata::Found(m) => Some(m),
            _ => None,
        }
    }

    /// How metadata is to be stored: in the file that it is loaded from, in the
    /// certificate directory.
    pub fn save_metadata(&self, metadata: &CertificateMetadata) -> (plan: SavePlan)
        ensures
            plan.dir@ == self@.cert_dir,
            plan.path@ == self@.metadata_path(),
            plan.metadata@ == metadata@,
    {
        SavePlan {
            dir: self.cert_dir.clone(),
            path: self.metadata_path(),
            metadata: metadata.clone(),
        }
    }

    /// Whether a certificate needs renewal at an instant.
    pub fn needs_renewal_at(&self, metadata: &CertificateMetadata, now: &UtcTime) -> (due: bool)
        requires
            metadata@.wf(),
            metadata@.has_renewal_threshold(),
        ensures
            due == metadata@.renewal_due(*now),
    {
        let threshold: UtcTime = crate::clock::minus_days(&metadata.expires_at, RENEWAL_DAYS);
        now.is_after(&threshold)
    }

    /// Whether a certificate needs renewal now, by the clock. One whose renewal
    /// begins before the first reading that the clock can give is always due.
    pub fn needs_renewal(&self, metadata: &CertificateMetadata) -> (due: bool)
        requires
            metadata@.wf(),
            metadata@.has_renewal_threshold(),
        ensures
            exists|now: UtcTime| #[trigger]
                given_by_clock(now) && clock_reading(now) && due == metadata@.renewal_due(now),
            metadata@.renewal_threshold().secs < 0 ==> due,
    {
        let now: UtcTime = crate::clock::utc_now();
        assert(given_by_clock(now));
        self.needs_renewal_at(metadata, &now)
    }

    /// Where the server's certificate is kept.
    pub fn local_cert(&self) -> (path: String)
        ensures
            path@ == self@.local_cert(),
    {
        paths::join(self.cert_dir.as_str(), CERT_FILE)
    }

    /// Where the server's private key is kept.
    pub fn local_key(&self) -> (path: String)
        ensures
            path@ == self@.local_key(),
    {
        paths::join(self.cert_dir.as_str(), KEY_FILE)
    }

    /// Where a certificate stands that is about to replace the server's.
    pub fn next_cert(&self) -> (path: String)
        ensures
            path@ == self@.next_cert(),
    {
        paths::join(self.cert_dir.as_str(), NEXT_CERT_FILE)
    }

    /// Where a private key stands that is about to replace the server's.
    pub fn next_key(&self) -> (path: String)
        ensures
            path@ == self@.next_key(),
    {
        paths::join(self.cert_dir.as_str(), NEXT_KEY_FILE)
    }

    /// Where certbot keeps the domain's certificate.
    pub fn live_cert(&self) -> (path: String)
        ensures
            path@ == self@.live_cert(),
    {
        let dir: String = paths::join(LIVE_DIR, self.domain.as_str());
        paths::join(dir.as_str(), LIVE_CERT_FILE)
    }

    /// Where certbot keeps the domain's private key.
    pub fn live_key(&self) -> (path: String)
        ensures
            path@ == self@.live_key(),
    {
        let dir: String = paths::join(LIVE_DIR, self.domain.as_str());
        paths::join(dir.as_str(), LIVE_KEY_FILE)
    }

    /// The command that obtains a certificate. A template may hold the
    /// placeholders `{domain}`, `{email}`, `{cert_dir}` and `{staging_flag}`.
    pub fn acme_command(&self, template: Option<String>) -> (command: String)
        ensures
            command@ == self@.acme_command(opt_view(template)),
    {
        let template: String = match template {
            Some(t) => t,
            None => DEFAULT_TEMPLATE.to_string(),
        };
        let staging_flag: &str = if self.use_staging {
            "--staging"
        } else {
            ""
        };
        proof {
            reveal_strlit("{domain}");
            reveal_strlit("{email}");
            reveal_strlit("{cert_dir}");
            reveal_strlit("{staging_flag}");
        }
        let with_domain: String = text::replace_all(
            template.as_str(),
            "{domain}",
            self.domain.as_str(),
        );
        let with_email: String = text::replace_all(
            with_domain.as_str(),
            "{email}",
            self.email.as_str(),
        );
        let with_dir: String = text::replace_all(
            with_email.as_str(),
            "{cert_dir}",
            self.cert_dir.as_str(),
        );
        text::replace_all(with_dir.as_str(), "{staging_flag}", staging_flag)
    }
}

} // verus!
