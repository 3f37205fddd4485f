//! Settings of the object store that uploads can be kept in.

use vstd::prelude::*;

verus! {

/// A setting as configured, or its default when it is not.
pub open spec fn setting_or(value: Option<String>, default: Seq<char>) -> Seq<char> {
    match value {
        Some(v) => v@,
        None => default,
    }
}

/// Where the object store is and how to reach it.
#[derive(Clone, Debug, PartialEq, Eq)]
pub struct MinioSettings {
    pub endpoint: String,
    pub access_key: String,
    pub secret_key: String,
    pub bucket_name: String,
}

fn or_default(value: Option<String>, default: &str) -> (r: String)
    ensures
        r@ == setting_or(value, default@),
{
    match value {
        Some(v) => v,
        None => String::from_str(default),
    }
}

impl MinioSettings {
    /// The settings from the configured values (`MINIO_URL`, `MINIO_ACCESS_KEY`,
    /// `MINIO_SECRET_KEY`, `MINIO_BUCKET_NAME`), each falling back to the
    /// local test store's value when it is not configured.
    pub fn from_env_values(
        url: Option<String>,
        access_key: Option<String>,
        secret_key: Option<String>,
        bucket_name: Option<String>,
    ) -> (r: Self)
        ensures
            r.endpoint@ == setting_or(url, "localhost:9022"@),
            r.access_key@ == setting_or(access_key, "minio-access-key-test"@),
            r.secret_key@ == setting_or(secret_key, "secret-key-test"@),
            r.bucket_name@ == setting_or(bucket_name, "test"@),
    {
        MinioSettings {
            endpoint: or_default(url, "localhost:9022"),
            access_key: or_default(access_key, "minio-access-key-test"),
            secret_key: or_default(secret_key, "secret-key-test"),
            bucket_name: or_default(bucket_name, "test"),
        }
    }
}

} // verus!
