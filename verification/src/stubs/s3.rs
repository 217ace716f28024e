//! Object-storage upload in builds without it.

use vstd::prelude::*;

verus! {

/// Static credentials for object storage.
pub struct S3StaticCredentials {
    pub access_key_id: String,
    pub secret_access_key: String,
}

} // verus!
