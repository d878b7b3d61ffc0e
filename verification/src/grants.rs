//! Access-control grants and their translation into copy-request directives.
//!
//! The store reports an object's access grants as records binding a permission
//! kind to a grantee identity.  The copy operation instead takes one directive
//! string per permission kind, each a comma-joined list of grantee renderings.
//! This module translates record lists into those renderings: read, read-acp,
//! write-acp and full-control grants are kept, write grants are dropped (the
//! copy operation has no equivalent), anything else is an error.

use vstd::prelude::*;
use vstd::string::StringExecFns;
use crate::errors::GranteeParseError;
use crate::strutil::{clone_opt_string, str_eq};

verus! {

/// A grantee identity as the store reports it: at most one of uri, id and
/// email address identifies it, first present wins.
#[derive(Debug, PartialEq, Eq)]
pub struct Grantee {
    pub display_name: Option<String>,
    pub email_address: Option<String>,
    pub id: Option<String>,
    pub grantee_type: String,
    pub uri: Option<String>,
}

/// One access grant: a grantee and the permission granted to it.
#[derive(Debug, PartialEq, Eq)]
pub struct GrantRecord {
    pub grantee: Grantee,
    pub permission: Option<String>,
}

impl Grantee {
    /// An exact copy of this grantee.
    pub fn duplicate(&self) -> (g: Grantee)
        ensures
            g == *self,
    {
        Grantee {
            display_name: clone_opt_string(&self.display_name),
            email_address: clone_opt_string(&self.email_address),
            id: clone_opt_string(&self.id),
            grantee_type: self.grantee_type.clone(),
            uri: clone_opt_string(&self.uri),
        }
    }
}

/// The rendering of a grantee as a copy-request grant: `kind="value"` over
/// whichever of uri, id and email address is present, in that order; a
/// grantee with none of the three has no rendering.
pub open spec fn spec_grant_value(g: Grantee) -> Option<Seq<char>> {
    if g.uri is Some {
        Some("uri=\""@ + g.uri->0@ + "\""@)
    } else if g.id is Some {
        Some("id=\""@ + g.id->0@ + "\""@)
    } else if g.email_address is Some {
        Some("emailAddress=\""@ + g.email_address->0@ + "\""@)
    } else {
        None
    }
}

/// Converts a grantee into the grant string used by the copy request, erring
/// when no identifying field is present.
pub fn generate_permission_grant(grantee: Grantee) -> (r: Result<String, GranteeParseError>)
    ensures
        match spec_grant_value(grantee) {
            Some(v) => r matches Ok(s) && s@ == v,
            None => r matches Err(GranteeParseError::NoValidID { grantee: g }) && g == grantee,
        },
{
    if let Some(uri) = &grantee.uri {
        let mut s = "uri=\"".to_owned();
        s.append(uri.as_str());
        s.append("\"");
        return Ok(s);
    }
    if let Some(id) = &grantee.id {
        let mut s = "id=\"".to_owned();
        s.append(id.as_str());
        s.append("\"");
        return Ok(s);
    }
    if let Some(email) = &grantee.email_address {
        let mut s = "emailAddress=\"".to_owned();
        s.append(email.as_str());
        s.append("\"");
        return Ok(s);
    }
    Err(GranteeParseError::NoValidID { grantee })
}

/// Whether a record carries exactly the given permission kind.
pub open spec fn has_permission(r: GrantRecord, kind: Seq<char>) -> bool {
    r.permission is Some && r.permission->0@ == kind
}

/// A permission kind that translates into a copy-request grant list.
pub open spec fn kept_permission(p: Seq<char>) -> bool {
    ||| p == "READ"@
    ||| p == "READ_ACP"@
    ||| p == "WRITE_ACP"@
    ||| p == "FULL_CONTROL"@
}

/// Whether translation accepts a record: a kept permission with an
/// identifiable grantee, or a write permission, which is dropped.
pub open spec fn record_ok(r: GrantRecord) -> bool {
    &&& r.permission is Some
    &&& (if r.permission->0@ == "WRITE"@ {
        true
    } else {
        kept_permission(r.permission->0@) && spec_grant_value(r.grantee) is Some
    })
}

/// The error that a rejected record produces.
pub open spec fn record_error_matches(r: GrantRecord, e: GranteeParseError) -> bool {
    if r.permission is None {
        e matches GranteeParseError::MissingPermission { grantee } && grantee == r.grantee
    } else if !kept_permission(r.permission->0@) && r.permission->0@ != "WRITE"@ {
        e matches GranteeParseError::InvalidPermission { permission, grantee } && permission@
            == r.permission->0@ && grantee == r.grantee
    } else {
        e matches GranteeParseError::NoValidID { grantee } && grantee == r.grantee
    }
}

/// The renderings of every record of the given permission kind, in record
/// order.
pub open spec fn rendered_grants(recs: Seq<GrantRecord>, kind: Seq<char>) -> Seq<Seq<char>>
    decreases recs.len(),
{
    if recs.len() == 0 {
        Seq::empty()
    } else {
        let rest = rendered_grants(recs.drop_last(), kind);
        let last = recs.last();
        if has_permission(last, kind) && spec_grant_value(last.grantee) is Some {
            rest.push(spec_grant_value(last.grantee)->0)
        } else {
            rest
        }
    }
}

/// The four grant lists of a copy request, one per kept permission kind.
pub struct GrantLists {
    pub read: Vec<String>,
    pub read_acp: Vec<String>,
    pub write_acp: Vec<String>,
    pub full_control: Vec<String>,
}

impl GrantLists {
    /// Four empty lists: the state before any grant lookup, and the state
    /// kept when grants are not preserved.
    pub fn empty() -> (r: GrantLists)
        ensures
            r.read.deep_view() == Seq::<Seq<char>>::empty(),
            r.read_acp.deep_view() == Seq::<Seq<char>>::empty(),
            r.write_acp.deep_view() == Seq::<Seq<char>>::empty(),
            r.full_control.deep_view() == Seq::<Seq<char>>::empty(),
    {
        let r = GrantLists {
            read: Vec::new(),
            read_acp: Vec::new(),
            write_acp: Vec::new(),
            full_control: Vec::new(),
        };
        proof {
            assert(r.read.deep_view() =~= Seq::<Seq<char>>::empty());
            assert(r.read_acp.deep_view() =~= Seq::<Seq<char>>::empty());
            assert(r.write_acp.deep_view() =~= Seq::<Seq<char>>::empty());
            assert(r.full_control.deep_view() =~= Seq::<Seq<char>>::empty());
        }
        r
    }
}

/// Whether every record of the list translates.
pub open spec fn all_records_ok(recs: Seq<GrantRecord>) -> bool {
    forall|i: int| 0 <= i < recs.len() ==> record_ok(#[trigger] recs[i])
}

/// Translates the store's grant records into the copy request's four grant
/// lists, in record order; a write grant is dropped; the first record with an
/// unknown or missing permission, or with an unidentifiable grantee on a kept
/// permission, fails the translation with its own error.
pub fn translate_grants(records: &Vec<GrantRecord>) -> (r: Result<
    GrantLists,
    GranteeParseError,
>)
    ensures
        r is Ok <==> all_records_ok(records@),
        r matches Ok(g) ==> {
            &&& g.read.deep_view() == rendered_grants(records@, "READ"@)
            &&& g.read_acp.deep_view() == rendered_grants(records@, "READ_ACP"@)
            &&& g.write_acp.deep_view() == rendered_grants(records@, "WRITE_ACP"@)
            &&& g.full_control.deep_view() == rendered_grants(records@, "FULL_CONTROL"@)
        },
        r matches Err(e) ==> exists|j: int|
            {
                &&& 0 <= j < records@.len()
                &&& !record_ok(#[trigger] records@[j])
                &&& (forall|k: int| 0 <= k < j ==> record_ok(#[trigger] records@[k]))
                &&& record_error_matches(records@[j], e)
            },
{
    let mut lists = GrantLists::empty();
    let mut i: usize = 0;
    proof {
        assert(records@.subrange(0, 0) =~= Seq::<GrantRecord>::empty());
    }
    while i < records.len()
        invariant
            i <= records@.len(),
            forall|k: int| 0 <= k < i ==> record_ok(#[trigger] records@[k]),
            lists.read.deep_view() == rendered_grants(records@.subrange(0, i as int), "READ"@),
            lists.read_acp.deep_view() == rendered_grants(
                records@.subrange(0, i as int),
                "READ_ACP"@,
            ),
            lists.write_acp.deep_view() == rendered_grants(
                records@.subrange(0, i as int),
                "WRITE_ACP"@,
            ),
            lists.full_control.deep_view() == rendered_grants(
                records@.subrange(0, i as int),
                "FULL_CONTROL"@,
            ),
        decreases records@.len() - i,
    {
        let ghost prefix = records@.subrange(0, i as int);
        let ghost prefix1 = records@.subrange(0, i + 1);
        proof {
            assert(prefix1.drop_last() =~= prefix);
            assert(prefix1.last() == records@[i as int]);
            reveal_strlit("READ");
            reveal_strlit("WRITE");
            reveal_strlit("READ_ACP");
            reveal_strlit("WRITE_ACP");
            reveal_strlit("FULL_CONTROL");
            assert("READ"@.len() == 4);
            assert("WRITE"@.len() == 5);
            assert("READ_ACP"@.len() == 8);
            assert("WRITE_ACP"@.len() == 9);
            assert("FULL_CONTROL"@.len() == 12);
        }
        let rec = &records[i];
        match &rec.permission {
            Some(p) => {
                if str_eq(p.as_str(), "READ") {
                    match generate_permission_grant(rec.grantee.duplicate()) {
                        Ok(s) => {
                            lists.read.push(s);
                            proof {
                                assert(lists.read.deep_view() =~= rendered_grants(
                                    prefix1,
                                    "READ"@,
                                ));
                            }
                        },
                        Err(e) => {
                            proof {
                                assert(!record_ok(records@[i as int]));
                                assert(record_error_matches(records@[i as int], e));
                            }
                            return Err(e);
                        },
                    }
                } else if str_eq(p.as_str(), "WRITE") {
                    // The copy operation has no write grant: dropped.
                } else if str_eq(p.as_str(), "READ_ACP") {
                    match generate_permission_grant(rec.grantee.duplicate()) {
                        Ok(s) => {
                            lists.read_acp.push(s);
                            proof {
                                assert(lists.read_acp.deep_view() =~= rendered_grants(
                                    prefix1,
                                    "READ_ACP"@,
                                ));
                            }
                        },
                        Err(e) => {
                            proof {
                                assert(!record_ok(records@[i as int]));
                                assert(record_error_matches(records@[i as int], e));
                            }
                            return Err(e);
                        },
                    }
                } else if str_eq(p.as_str(), "WRITE_ACP") {
                    match generate_permission_grant(rec.grantee.duplicate()) {
                        Ok(s) => {
                            lists.write_acp.push(s);
                            proof {
                                assert(lists.write_acp.deep_view() =~= rendered_grants(
                                    prefix1,
                                    "WRITE_ACP"@,
                                ));
                            }
                        },
                        Err(e) => {
                            proof {
                                assert(!record_ok(records@[i as int]));
                                assert(record_error_matches(records@[i as int], e));
                            }
                            return Err(e);
                        },
                    }
                } else if str_eq(p.as_str(), "FULL_CONTROL") {
                    match generate_permission_grant(rec.grantee.duplicate()) {
                        Ok(s) => {
                            lists.full_control.push(s);
                            proof {
                                assert(lists.full_control.deep_view() =~= rendered_grants(
                                    prefix1,
                                    "FULL_CONTROL"@,
                                ));
                            }
                        },
                        Err(e) => {
                            proof {
                                assert(!record_ok(records@[i as int]));
                                assert(record_error_matches(records@[i as int], e));
                            }
                            return Err(e);
                        },
                    }
                } else {
                    let e = GranteeParseError::InvalidPermission {
                        permission: p.clone(),
                        grantee: rec.grantee.duplicate(),
                    };
                    proof {
                        assert(!record_ok(records@[i as int]));
                        assert(record_error_matches(records@[i as int], e));
                    }
                    return Err(e);
                }
            },
            None => {
                let e = GranteeParseError::MissingPermission { grantee: rec.grantee.duplicate() };
                proof {
                    assert(!record_ok(records@[i as int]));
                    assert(record_error_matches(records@[i as int], e));
                }
                return Err(e);
            },
        }
        i = i + 1;
    }
    proof {
        assert(records@.subrange(0, records@.len() as int) =~= records@);
    }
    Ok(lists)
}

/// A record whose permission is `WRITE` never contributes to any grant list:
/// appending such a record leaves all four renderings unchanged.
pub proof fn lemma_write_grants_dropped(recs: Seq<GrantRecord>, rec: GrantRecord)
    requires
        rec.permission is Some,
        rec.permission->0@ == "WRITE"@,
    ensures
        rendered_grants(recs.push(rec), "READ"@) == rendered_grants(recs, "READ"@),
        rendered_grants(recs.push(rec), "READ_ACP"@) == rendered_grants(recs, "READ_ACP"@),
        rendered_grants(recs.push(rec), "WRITE_ACP"@) == rendered_grants(recs, "WRITE_ACP"@),
        rendered_grants(recs.push(rec), "FULL_CONTROL"@) == rendered_grants(
            recs,
            "FULL_CONTROL"@,
        ),
{
    reveal_strlit("READ");
    reveal_strlit("WRITE");
    reveal_strlit("READ_ACP");
    reveal_strlit("WRITE_ACP");
    reveal_strlit("FULL_CONTROL");
    assert("READ"@.len() == 4);
    assert("WRITE"@.len() == 5);
    assert("READ_ACP"@.len() == 8);
    assert("WRITE_ACP"@.len() == 9);
    assert("FULL_CONTROL"@.len() == 12);
    let pushed = recs.push(rec);
    assert(pushed.drop_last() =~= recs);
    assert(pushed.last() == rec);
    assert(!has_permission(rec, "READ"@));
    assert(!has_permission(rec, "READ_ACP"@));
    assert(!has_permission(rec, "WRITE_ACP"@));
    assert(!has_permission(rec, "FULL_CONTROL"@));
    assert(rendered_grants(pushed, "READ"@) == rendered_grants(pushed.drop_last(), "READ"@));
    assert(rendered_grants(pushed, "READ_ACP"@) == rendered_grants(
        pushed.drop_last(),
        "READ_ACP"@,
    ));
    assert(rendered_grants(pushed, "WRITE_ACP"@) == rendered_grants(
        pushed.drop_last(),
        "WRITE_ACP"@,
    ));
    assert(rendered_grants(pushed, "FULL_CONTROL"@) == rendered_grants(
        pushed.drop_last(),
        "FULL_CONTROL"@,
    ));
}

} // verus!
