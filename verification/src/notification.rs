//! Notification decoding: the trigger payload lists one or more
//! storage-write records; exactly the first one is processed, and it must
//! carry a non-empty bucket name and object key.

use vstd::prelude::*;

use crate::types::PipelineError;
use crate::types::StorageObjectReference;

verus! {

/// One storage-write record of the trigger payload. Either field may be
/// absent in the raw event, which is a fatal input error.
#[derive(Clone, Debug)]
pub struct NotificationRecord {
    pub bucket: Option<String>,
    pub key: Option<String>,
}

impl NotificationRecord {
    /// The record names an object: both fields present and non-empty.
    pub open spec fn names_object(self) -> bool {
        &&& self.bucket matches Some(b) && b@.len() > 0
        &&& self.key matches Some(k) && k@.len() > 0
    }

    /// The bucket name (meaningful when the field is present).
    pub open spec fn bucket_chars(self) -> Seq<char> {
        self.bucket->Some_0@
    }

    /// The object key (meaningful when the field is present).
    pub open spec fn key_chars(self) -> Seq<char> {
        self.key->Some_0@
    }
}

/// A trigger payload: the storage-write records it describes, in order.
#[derive(Clone, Debug)]
pub struct Notification {
    pub records: Vec<NotificationRecord>,
}

/// Extracts the object named by the first record of the payload. Succeeds
/// exactly when a first record exists and carries a non-empty bucket name and
/// a non-empty key; records after the first are ignored.
pub fn decode_notification(n: Notification) -> (r: Result<StorageObjectReference, PipelineError>)
    ensures
        r is Ok <==> n.records@.len() >= 1 && n.records@[0].names_object(),
        r matches Ok(obj) ==> {
            &&& obj.wf()
            &&& obj.bucket@ == n.records@[0].bucket_chars()
            &&& obj.key@ == n.records@[0].key_chars()
        },
        r matches Err(e) ==> e is Input,
{
    let mut records = n.records;
    if records.len() == 0 {
        return Err(PipelineError::Input);
    }
    let first = records.remove(0);
    match (first.bucket, first.key) {
        (Some(bucket), Some(key)) => {
            if bucket.as_str().is_empty() || key.as_str().is_empty() {
                Err(PipelineError::Input)
            } else {
                Ok(StorageObjectReference { bucket, key })
            }
        },
        _ => Err(PipelineError::Input),
    }
}

} // verus!
