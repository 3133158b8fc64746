//! The application's configuration, built from the values of its settings.

use vstd::prelude::*;
use vstd::string::StringExecFns;

verus! {

/// The reason a setting could not be read, `dotenv::Error`. It is carried
/// along and never looked into.
#[verifier::external_type_specification]
#[verifier::external_body]
pub struct ExSettingError(dotenv::Error);

/// Configuration for the application.
#[derive(Debug, PartialEq)]
pub struct AppConfig {
    /// Connection string of the document store.
    pub mongo_db_uri: String,
    /// Database to use.
    pub db_name: String,
    /// TLS settings, where TLS is switched on.
    pub ssl_conf: Option<SSLConf>,
}

/// The key and certificate to serve TLS with.
#[derive(Debug, PartialEq)]
pub struct SSLConf {
    pub lets_encrypt: Option<LetsEncryptConf>,
    pub key_pem: String,
    pub cert_pem: String,
}

/// The account to request certificates with.
#[derive(Debug, PartialEq)]
pub struct LetsEncryptConf {
    pub email: String,
    pub domain: String,
}

/// Where the settings are read from.
pub enum AppEnv<'a> {
    /// The process environment and the default settings file.
    Default,
    /// The settings file with this name.
    FromFile(&'a str),
}

/// A setting that is needed and was not found.
#[derive(Debug, Clone, Copy, PartialEq, Eq, Structural)]
pub enum MissingSetting {
    MongoDbUri,
    DbName,
    KeyPem,
    CertPem,
    LeEmail,
    LeDomain,
}

/// The text with every letter in lower case, as `str::to_lowercase` returns
/// it.
pub uninterp spec fn lowercase_of(text: Seq<char>) -> Seq<char>;

/// `str::to_lowercase`: the lower-case form of the text. Nothing more is
/// claimed of it than that the same text always gives the same form.
#[verifier::external_body]
fn lowercase(text: &str) -> (lowered: String)
    ensures
        lowered@ == lowercase_of(text@),
{
    text.to_lowercase()
}

/// Whether a switch's value, already in lower case, switches it on.
pub open spec fn is_on(lowered: Seq<char>) -> bool {
    lowered == "true"@ || lowered == "1"@
}

/// Whether a switch is set: its value is found and, in lower case, is
/// `true` or `1`.
pub open spec fn switched_on(value: Result<String, dotenv::Error>) -> bool {
    match value {
        Ok(v) => is_on(lowercase_of(v@)),
        Err(_) => false,
    }
}

/// The setting that is needed and missing, the first in the order in which
/// the settings are read; none where the configuration can be built.
pub open spec fn first_missing(
    mongo_db: Result<String, dotenv::Error>,
    db_name: Result<String, dotenv::Error>,
    use_ssl: Result<String, dotenv::Error>,
    use_le: Result<String, dotenv::Error>,
    le_email: Result<String, dotenv::Error>,
    le_doman: Result<String, dotenv::Error>,
    key_pem: Result<String, dotenv::Error>,
    cert_pem: Result<String, dotenv::Error>,
) -> Option<MissingSetting> {
    if mongo_db is Err {
        Some(MissingSetting::MongoDbUri)
    } else if db_name is Err {
        Some(MissingSetting::DbName)
    } else if !switched_on(use_ssl) {
        None
    } else if key_pem is Err {
        Some(MissingSetting::KeyPem)
    } else if cert_pem is Err {
        Some(MissingSetting::CertPem)
    } else if !switched_on(use_le) {
        None
    } else if le_email is Err {
        Some(MissingSetting::LeEmail)
    } else if le_doman is Err {
        Some(MissingSetting::LeDomain)
    } else {
        None
    }
}

/// The configuration that the settings describe: the store's address and
/// database; TLS only where its switch is set; the certificate account only
/// where TLS and its own switch are set.
pub open spec fn config_of(
    mongo_db: Result<String, dotenv::Error>,
    db_name: Result<String, dotenv::Error>,
    use_ssl: Result<String, dotenv::Error>,
    use_le: Result<String, dotenv::Error>,
    le_email: Result<String, dotenv::Error>,
    le_doman: Result<String, dotenv::Error>,
    key_pem: Result<String, dotenv::Error>,
    cert_pem: Result<String, dotenv::Error>,
) -> AppConfig {
    AppConfig {
        mongo_db_uri: mongo_db->Ok_0,
        db_name: db_name->Ok_0,
        ssl_conf: if switched_on(use_ssl) {
            Some(
                SSLConf {
                    lets_encrypt: if switched_on(use_le) {
                        Some(LetsEncryptConf { email: le_email->Ok_0, domain: le_doman->Ok_0 })
                    } else {
                        None
                    },
                    key_pem: key_pem->Ok_0,
                    cert_pem: cert_pem->Ok_0,
                },
            )
        } else {
            None
        },
    }
}

/// Whether a switch's value, already in lower case, is `true` or `1`.
pub fn is_enabled(lowered: &str) -> (on: bool)
    ensures
        on == is_on(lowered@),
{
    let text = String::from_str(lowered);
    text == String::from_str("true") || text == String::from_str("1")
}

/// Whether a switch is set.
pub fn is_switched_on(value: &Result<String, dotenv::Error>) -> (on: bool)
    ensures
        on == switched_on(*value),
{
    match value {
        Ok(v) => {
            let lowered = lowercase(v.as_str());
            is_enabled(lowered.as_str())
        },
        Err(_) => false,
    }
}

/// The value of a setting that was found.
fn found(value: Result<String, dotenv::Error>) -> (text: String)
    requires
        value is Ok,
    ensures
        text == value->Ok_0,
{
    match value {
        Ok(v) => v,
        Err(_) => vstd::pervasive::unreached(),
    }
}

impl AppConfig {
    /// Builds the configuration from the values of the settings. Every
    /// setting that is needed must have been found.
    pub fn create(
        mongo_db: Result<String, dotenv::Error>,
        db_name: Result<String, dotenv::Error>,
        use_ssl: Result<String, dotenv::Error>,
        use_le: Result<String, dotenv::Error>,
        le_email: Result<String, dotenv::Error>,
        le_doman: Result<String, dotenv::Error>,
        key_pem: Result<String, dotenv::Error>,
        cert_pem: Result<String, dotenv::Error>,
    ) -> (config: AppConfig)
        requires
            first_missing(
                mongo_db,
                db_name,
                use_ssl,
                use_le,
                le_email,
                le_doman,
                key_pem,
                cert_pem,
            ) is None,
        ensures
            config == config_of(
                mongo_db,
                db_name,
                use_ssl,
                use_le,
                le_email,
                le_doman,
                key_pem,
                cert_pem,
            ),
    {
        let mut config = AppConfig {
            mongo_db_uri: found(mongo_db),
            db_name: found(db_name),
            ssl_conf: None,
        };
        if is_switched_on(&use_ssl) {
            let mut ssl_conf = SSLConf {
                lets_encrypt: None,
                key_pem: found(key_pem),
                cert_pem: found(cert_pem),
            };
            if is_switched_on(&use_le) {
                ssl_conf.lets_encrypt = Some(
                    LetsEncryptConf { email: found(le_email), domain: found(le_doman) },
                );
            }
            config.ssl_conf = Some(ssl_conf);
        }
        config
    }

    /// Builds the configuration where every needed setting was found, and
    /// otherwise names the first that is missing.
    pub fn try_create(
        mongo_db: Result<String, dotenv::Error>,
        db_name: Result<String, dotenv::Error>,
        use_ssl: Result<String, dotenv::Error>,
        use_le: Result<String, dotenv::Error>,
        le_email: Result<String, dotenv::Error>,
        le_doman: Result<String, dotenv::Error>,
        key_pem: Result<String, dotenv::Error>,
        cert_pem: Result<String, dotenv::Error>,
    ) -> (r: Result<AppConfig, MissingSetting>)
        ensures
            match first_missing(
                mongo_db,
                db_name,
                use_ssl,
                use_le,
                le_email,
                le_doman,
                key_pem,
                cert_pem,
            ) {
                Some(missing) => r == Err::<AppConfig, MissingSetting>(missing),
                None => r == Ok::<AppConfig, MissingSetting>(
                    config_of(
                        mongo_db,
                        db_name,
                        use_ssl,
                        use_le,
                        le_email,
                        le_doman,
                        key_pem,
                        cert_pem,
                    ),
                ),
            },
    {
        if mongo_db.is_err() {
            return Err(MissingSetting::MongoDbUri);
        }
        if db_name.is_err() {
            return Err(MissingSetting::DbName);
        }
        if is_switched_on(&use_ssl) {
            if key_pem.is_err() {
                return Err(MissingSetting::KeyPem);
            }
            if cert_pem.is_err() {
                return Err(MissingSetting::CertPem);
            }
            if is_switched_on(&use_le) {
                if le_email.is_err() {
                    return Err(MissingSetting::LeEmail);
                }
                if le_doman.is_err() {
                    return Err(MissingSetting::LeDomain);
                }
            }
        }
        Ok(
            AppConfig::create(
                mongo_db,
                db_name,
                use_ssl,
                use_le,
                le_email,
                le_doman,
                key_pem,
                cert_pem,
            ),
        )
    }
}

} // verus!
