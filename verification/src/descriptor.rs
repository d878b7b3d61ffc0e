//! Copy descriptors: the assembled request for one copy operation.
//!
//! A descriptor combines the target key, the optionally preserved per-object
//! properties, the translated grant directives and the ACL policy.  The
//! builders here pin every field: what is carried forward from the object's
//! head, what is never re-sent (customer-supplied encryption keys), and which
//! metadata directive the copy uses.

use vstd::prelude::*;
use crate::acl::{acl_label, CannedACL};
use crate::grants::GrantLists;
use crate::strutil::{clone_opt_string, copy_source_path, join_grants, spec_join};

verus! {

/// The properties of an object as its head reports them, every one a plain
/// optional string; customer-supplied encryption keys are not among them and
/// are never re-sent.
#[derive(Debug)]
pub struct HeadProperties {
    pub cache_control: Option<String>,
    pub content_disposition: Option<String>,
    pub content_encoding: Option<String>,
    pub content_language: Option<String>,
    pub content_type: Option<String>,
    pub expires: Option<String>,
    pub metadata: Option<Vec<(String, String)>>,
    pub object_lock_legal_hold_status: Option<String>,
    pub object_lock_mode: Option<String>,
    pub object_lock_retain_until_date: Option<String>,
    pub request_charged: Option<String>,
    pub server_side_encryption: Option<String>,
    pub sse_customer_algorithm: Option<String>,
    pub sse_customer_key_md5: Option<String>,
    pub ssekms_key_id: Option<String>,
    pub website_redirect_location: Option<String>,
}

/// One copy request, fully assembled: the driver turns it into the store
/// call without adding or changing a field.
#[derive(Debug)]
pub struct CopyDescriptor {
    pub acl: Option<String>,
    pub bucket: String,
    pub cache_control: Option<String>,
    pub content_disposition: Option<String>,
    pub content_encoding: Option<String>,
    pub content_language: Option<String>,
    pub content_type: Option<String>,
    pub copy_source: String,
    pub copy_source_sse_customer_algorithm: Option<String>,
    pub copy_source_sse_customer_key: Option<String>,
    pub copy_source_sse_customer_key_md5: Option<String>,
    pub expires: Option<String>,
    pub grant_full_control: Option<String>,
    pub grant_read: Option<String>,
    pub grant_read_acp: Option<String>,
    pub grant_write_acp: Option<String>,
    pub key: String,
    pub metadata: Option<Vec<(String, String)>>,
    pub metadata_directive: Option<String>,
    pub object_lock_legal_hold_status: Option<String>,
    pub object_lock_mode: Option<String>,
    pub object_lock_retain_until_date: Option<String>,
    pub request_payer: Option<String>,
    pub server_side_encryption: Option<String>,
    pub sse_customer_algorithm: Option<String>,
    pub sse_customer_key: Option<String>,
    pub sse_customer_key_md5: Option<String>,
    pub ssekms_encryption_context: Option<String>,
    pub ssekms_key_id: Option<String>,
    pub storage_class: Option<String>,
    pub tagging: Option<String>,
    pub tagging_directive: Option<String>,
    pub website_redirect_location: Option<String>,
}

/// The ACL directive of a copy: the canned override when one is configured;
/// the private default when grants are not preserved; otherwise absent, since
/// preserved grants take its place.
pub open spec fn acl_directive_matches(
    acl: Option<String>,
    canned: Option<CannedACL>,
    no_preserve_acl: bool,
) -> bool {
    match canned {
        Some(c) => acl is Some && acl->0@ == acl_label(c),
        None => if no_preserve_acl {
            acl is Some && acl->0@ == "private"@
        } else {
            acl is None
        },
    }
}

/// A grant directive: the comma-joined renderings when any exist, absent for
/// an empty list.
pub open spec fn grant_directive_matches(dir: Option<String>, list: Seq<Seq<char>>) -> bool {
    if list.len() == 0 {
        dir is None
    } else {
        dir is Some && dir->0@ == spec_join(list, ", "@)
    }
}

/// The fields every copy shares, whatever the property mode: source path,
/// target key, storage class, ACL policy, grant directives, and the fields
/// that are never sent.
pub open spec fn common_descriptor_matches(
    d: CopyDescriptor,
    bucket: Seq<char>,
    src_name: Seq<char>,
    storage_class: Option<String>,
    target: String,
    canned: Option<CannedACL>,
    no_preserve_acl: bool,
    grants: GrantLists,
) -> bool {
    &&& d.bucket@ == bucket
    &&& d.copy_source@ == bucket + "/"@ + src_name
    &&& d.key == target
    &&& d.storage_class == storage_class
    &&& acl_directive_matches(d.acl, canned, no_preserve_acl)
    &&& grant_directive_matches(d.grant_read, grants.read.deep_view())
    &&& grant_directive_matches(d.grant_read_acp, grants.read_acp.deep_view())
    &&& grant_directive_matches(d.grant_write_acp, grants.write_acp.deep_view())
    &&& grant_directive_matches(d.grant_full_control, grants.full_control.deep_view())
    &&& d.tagging is None
    &&& d.tagging_directive is Some && d.tagging_directive->0@ == "COPY"@
    &&& d.copy_source_sse_customer_key is None
    &&& d.sse_customer_key is None
    &&& d.ssekms_encryption_context is None
}

/// The property-preserving mode: every head field is carried forward and the
/// metadata directive is the replacing one, which multi-part copies need to
/// keep custom metadata.
pub open spec fn preserved_properties_match(d: CopyDescriptor, head: HeadProperties) -> bool {
    &&& d.cache_control == head.cache_control
    &&& d.content_disposition == head.content_disposition
    &&& d.content_encoding == head.content_encoding
    &&& d.content_language == head.content_language
    &&& d.content_type == head.content_type
    &&& d.copy_source_sse_customer_algorithm == head.sse_customer_algorithm
    &&& d.copy_source_sse_customer_key_md5 == head.sse_customer_key_md5
    &&& d.expires == head.expires
    &&& d.metadata == head.metadata
    &&& d.metadata_directive is Some && d.metadata_directive->0@ == "REPLACE"@
    &&& d.object_lock_legal_hold_status == head.object_lock_legal_hold_status
    &&& d.object_lock_mode == head.object_lock_mode
    &&& d.object_lock_retain_until_date == head.object_lock_retain_until_date
    &&& d.request_payer == head.request_charged
    &&& d.server_side_encryption == head.server_side_encryption
    &&& d.sse_customer_algorithm == head.sse_customer_algorithm
    &&& d.sse_customer_key_md5 == head.sse_customer_key_md5
    &&& d.ssekms_key_id == head.ssekms_key_id
    &&& d.website_redirect_location == head.website_redirect_location
}

/// The bare mode: no property is carried forward, the metadata directive is
/// the plain copying one, and nothing encrypted is re-sent.
pub open spec fn bare_properties_match(d: CopyDescriptor) -> bool {
    &&& d.cache_control is None
    &&& d.content_disposition is None
    &&& d.content_encoding is None
    &&& d.content_language is None
    &&& d.content_type is None
    &&& d.copy_source_sse_customer_algorithm is None
    &&& d.copy_source_sse_customer_key_md5 is None
    &&& d.expires is None
    &&& d.metadata is None
    &&& d.metadata_directive is Some && d.metadata_directive->0@ == "COPY"@
    &&& d.object_lock_legal_hold_status is None
    &&& d.object_lock_mode is None
    &&& d.object_lock_retain_until_date is None
    &&& d.request_payer is None
    &&& d.server_side_encryption is None
    &&& d.sse_customer_algorithm is None
    &&& d.sse_customer_key_md5 is None
    &&& d.ssekms_key_id is None
    &&& d.website_redirect_location is None
}

/// The ACL directive for a copy.
fn build_acl_directive(canned: Option<CannedACL>, no_preserve_acl: bool) -> (r: Option<String>)
    ensures
        acl_directive_matches(r, canned, no_preserve_acl),
{
    match canned {
        Some(c) => Some(c.to_string()),
        None => if no_preserve_acl {
            Some("private".to_owned())
        } else {
            None
        },
    }
}

/// Assembles the copy request that preserves the object's properties: head
/// fields carried forward, metadata replaced so that multi-part copies keep
/// it, grants joined into directives.
pub fn build_copy_descriptor_preserving(
    bucket: &str,
    src_name: &str,
    storage_class: Option<String>,
    target: String,
    canned: Option<CannedACL>,
    no_preserve_acl: bool,
    head: HeadProperties,
    grants: &GrantLists,
) -> (d: CopyDescriptor)
    ensures
        common_descriptor_matches(
            d,
            bucket@,
            src_name@,
            storage_class,
            target,
            canned,
            no_preserve_acl,
            *grants,
        ),
        preserved_properties_match(d, head),
{
    let copy_source_sse_customer_algorithm = clone_opt_string(&head.sse_customer_algorithm);
    let copy_source_sse_customer_key_md5 = clone_opt_string(&head.sse_customer_key_md5);
    CopyDescriptor {
        acl: build_acl_directive(canned, no_preserve_acl),
        bucket: bucket.to_owned(),
        cache_control: head.cache_control,
        content_disposition: head.content_disposition,
        content_encoding: head.content_encoding,
        content_language: head.content_language,
        content_type: head.content_type,
        copy_source: copy_source_path(bucket, src_name),
        copy_source_sse_customer_algorithm,
        copy_source_sse_customer_key: None,
        copy_source_sse_customer_key_md5,
        expires: head.expires,
        grant_full_control: join_grants(&grants.full_control),
        grant_read: join_grants(&grants.read),
        grant_read_acp: join_grants(&grants.read_acp),
        grant_write_acp: join_grants(&grants.write_acp),
        key: target,
        metadata: head.metadata,
        metadata_directive: Some("REPLACE".to_owned()),
        object_lock_legal_hold_status: head.object_lock_legal_hold_status,
        object_lock_mode: head.object_lock_mode,
        object_lock_retain_until_date: head.object_lock_retain_until_date,
        request_payer: head.request_charged,
        server_side_encryption: head.server_side_encryption,
        sse_customer_algorithm: head.sse_customer_algorithm,
        sse_customer_key: None,
        sse_customer_key_md5: head.sse_customer_key_md5,
        ssekms_encryption_context: None,
        ssekms_key_id: head.ssekms_key_id,
        storage_class,
        tagging: None,
        tagging_directive: Some("COPY".to_owned()),
        website_redirect_location: head.website_redirect_location,
    }
}

/// Assembles the copy request that preserves nothing: no head call was made,
/// so no property is carried forward; grants and the ACL policy still apply.
pub fn build_copy_descriptor_bare(
    bucket: &str,
    src_name: &str,
    storage_class: Option<String>,
    target: String,
    canned: Option<CannedACL>,
    no_preserve_acl: bool,
    grants: &GrantLists,
) -> (d: CopyDescriptor)
    ensures
        common_descriptor_matches(
            d,
            bucket@,
            src_name@,
            storage_class,
            target,
            canned,
            no_preserve_acl,
            *grants,
        ),
        bare_properties_match(d),
{
    CopyDescriptor {
        acl: build_acl_directive(canned, no_preserve_acl),
        bucket: bucket.to_owned(),
        cache_control: None,
        content_disposition: None,
        content_encoding: None,
        content_language: None,
        content_type: None,
        copy_source: copy_source_path(bucket, src_name),
        copy_source_sse_customer_algorithm: None,
        copy_source_sse_customer_key: None,
        copy_source_sse_customer_key_md5: None,
        expires: None,
        grant_full_control: join_grants(&grants.full_control),
        grant_read: join_grants(&grants.read),
        grant_read_acp: join_grants(&grants.read_acp),
        grant_write_acp: join_grants(&grants.write_acp),
        key: target,
        metadata: None,
        metadata_directive: Some("COPY".to_owned()),
        object_lock_legal_hold_status: None,
        object_lock_mode: None,
        object_lock_retain_until_date: None,
        request_payer: None,
        server_side_encryption: None,
        sse_customer_algorithm: None,
        sse_customer_key: None,
        sse_customer_key_md5: None,
        ssekms_encryption_context: None,
        ssekms_key_id: None,
        storage_class,
        tagging: None,
        tagging_directive: Some("COPY".to_owned()),
        website_redirect_location: None,
    }
}

} // verus!
