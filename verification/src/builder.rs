//! The desired-state builder: normalizes the user-authored records and, when
//! the zone asks for it, appends the restrictive-email policy bundle,
//! skipping any policy record whose identity the user already authored.

use vstd::prelude::*;

use crate::config::Config;
use crate::error::Error;
use crate::name::{valid_name_char, valid_raw_name};
use crate::record::{
    dkim_view, dmarc_view, same_identity, spf_view, Record, RecordView,
};

verus! {

/// Does the list hold a record with the same identity key as `v`?
pub open spec fn contains_identity(rs: Seq<RecordView>, v: RecordView) -> bool {
    exists|i: int| 0 <= i < rs.len() && rs[i].identity() == v.identity()
}

/// Appends `v` unless a record with its identity is already present.
pub open spec fn add_policy(rs: Seq<RecordView>, v: RecordView) -> Seq<RecordView> {
    if contains_identity(rs, v) {
        rs
    } else {
        rs.push(v)
    }
}

/// The list after injection of the three restrictive-email policy records,
/// each normalized against apex `z` and appended only when no record with
/// its identity is already present.
pub open spec fn spec_add_restrictive_email(rs: Seq<RecordView>, z: Seq<char>) -> Seq<RecordView> {
    add_policy(
        add_policy(add_policy(rs, spf_view().normalized(z)), dkim_view().normalized(z)),
        dmarc_view().normalized(z),
    )
}

/// Every record's raw name passes validation.
pub open spec fn all_names_valid(rs: Seq<RecordView>) -> bool {
    forall|i: int| 0 <= i < rs.len() ==> valid_raw_name(#[trigger] rs[i].common.name)
}

/// Every record with its name rewritten to fully-qualified form under `z`.
pub open spec fn normalize_views(rs: Seq<RecordView>, z: Seq<char>) -> Seq<RecordView> {
    rs.map_values(|v: RecordView| v.normalized(z))
}

/// What the builder produces from raw records `rs` under apex `z`: the
/// normalized records, with the policy bundle appended when the toggle is
/// on.
pub open spec fn spec_build_desired(rs: Seq<RecordView>, z: Seq<char>, restrictive: bool) -> Seq<
    RecordView,
> {
    if restrictive {
        spec_add_restrictive_email(normalize_views(rs, z), z)
    } else {
        normalize_views(rs, z)
    }
}

/// Every record of the list carries its own fully-qualified form under `z`.
pub open spec fn all_normalized(rs: Seq<RecordView>, z: Seq<char>) -> bool {
    forall|i: int| 0 <= i < rs.len() ==> (#[trigger] rs[i]) == rs[i].normalized(z)
}

/// Normalizing a record twice yields the record normalized once.
pub proof fn lemma_normalized_idempotent(v: RecordView, z: Seq<char>)
    ensures
        v.normalized(z).normalized(z) == v.normalized(z),
{
    crate::name::lemma_norm_name_idempotent(v.common.name, z);
}

/// An identity already present survives an append.
proof fn lemma_contains_identity_push(rs: Seq<RecordView>, v: RecordView, w: RecordView)
    requires
        contains_identity(rs, v),
    ensures
        contains_identity(rs.push(w), v),
{
    let i = choose|i: int| 0 <= i < rs.len() && rs[i].identity() == v.identity();
    assert(rs.push(w)[i] == rs[i]);
}

/// After `add_policy(rs, v)` the list holds `v`'s identity.
proof fn lemma_add_policy_contains(rs: Seq<RecordView>, v: RecordView)
    ensures
        contains_identity(add_policy(rs, v), v),
{
    if !contains_identity(rs, v) {
        assert(rs.push(v)[rs.len() as int] == v);
    }
}

/// An identity already present survives `add_policy`.
proof fn lemma_add_policy_preserves(rs: Seq<RecordView>, w: RecordView, v: RecordView)
    requires
        contains_identity(rs, v),
    ensures
        contains_identity(add_policy(rs, w), v),
{
    if !contains_identity(rs, w) {
        lemma_contains_identity_push(rs, v, w);
    }
}

/// Injecting the policy bundle twice changes nothing beyond injecting it
/// once: every policy identity is present after the first pass, so the
/// second appends nothing.
pub proof fn lemma_add_restrictive_email_idempotent(rs: Seq<RecordView>, z: Seq<char>)
    ensures
        spec_add_restrictive_email(spec_add_restrictive_email(rs, z), z)
            == spec_add_restrictive_email(rs, z),
{
    let spf = spf_view().normalized(z);
    let dkim = dkim_view().normalized(z);
    let dmarc = dmarc_view().normalized(z);
    let s1 = add_policy(rs, spf);
    let s2 = add_policy(s1, dkim);
    let s3 = add_policy(s2, dmarc);
    lemma_add_policy_contains(rs, spf);
    lemma_add_policy_preserves(s1, dkim, spf);
    lemma_add_policy_preserves(s2, dmarc, spf);
    lemma_add_policy_contains(s1, dkim);
    lemma_add_policy_preserves(s2, dmarc, dkim);
    lemma_add_policy_contains(s2, dmarc);
    assert(add_policy(s3, spf) == s3);
    assert(add_policy(s3, dkim) == s3);
    assert(add_policy(s3, dmarc) == s3);
}

/// A list in which every record is already fully qualified passes through
/// normalization unchanged.
pub proof fn lemma_normalize_views_noop(rs: Seq<RecordView>, z: Seq<char>)
    requires
        all_normalized(rs, z),
    ensures
        normalize_views(rs, z) == rs,
{
    assert forall|i: int| 0 <= i < rs.len() implies normalize_views(rs, z)[i] == rs[i] by {
        lemma_normalized_idempotent(rs[i], z);
        assert(rs[i] == rs[i].normalized(z));
    }
    assert(normalize_views(rs, z) =~= rs);
}

/// What the builder produces is already fully qualified.
pub proof fn lemma_build_desired_normalized(rs: Seq<RecordView>, z: Seq<char>, restrictive: bool)
    ensures
        all_normalized(spec_build_desired(rs, z, restrictive), z),
{
    let nd = normalize_views(rs, z);
    assert forall|i: int| 0 <= i < nd.len() implies (#[trigger] nd[i]) == nd[i].normalized(z) by {
        lemma_normalized_idempotent(rs[i], z);
    }
    if restrictive {
        let spf = spf_view().normalized(z);
        let dkim = dkim_view().normalized(z);
        let dmarc = dmarc_view().normalized(z);
        lemma_normalized_idempotent(spf_view(), z);
        lemma_normalized_idempotent(dkim_view(), z);
        lemma_normalized_idempotent(dmarc_view(), z);
        let s1 = add_policy(nd, spf);
        let s2 = add_policy(s1, dkim);
        let s3 = add_policy(s2, dmarc);
        assert forall|i: int| 0 <= i < s1.len() implies (#[trigger] s1[i]) == s1[i].normalized(z) by {
            if i < nd.len() {
                assert(s1[i] == nd[i]);
            }
        }
        assert forall|i: int| 0 <= i < s2.len() implies (#[trigger] s2[i]) == s2[i].normalized(z) by {
            if i < s1.len() {
                assert(s2[i] == s1[i]);
            }
        }
        assert forall|i: int| 0 <= i < s3.len() implies (#[trigger] s3[i]) == s3[i].normalized(z) by {
            if i < s2.len() {
                assert(s3[i] == s2[i]);
            }
        }
    }
}

/// Building from what the builder already built changes nothing: the
/// records are already fully qualified and every policy identity is already
/// present, so a second pass appends no duplicate.
pub proof fn lemma_build_desired_idempotent(rs: Seq<RecordView>, z: Seq<char>, restrictive: bool)
    ensures
        spec_build_desired(spec_build_desired(rs, z, restrictive), z, restrictive)
            == spec_build_desired(rs, z, restrictive),
{
    let d1 = spec_build_desired(rs, z, restrictive);
    lemma_build_desired_normalized(rs, z, restrictive);
    lemma_normalize_views_noop(d1, z);
    if restrictive {
        let spf = spf_view().normalized(z);
        let dkim = dkim_view().normalized(z);
        let dmarc = dmarc_view().normalized(z);
        let nd = normalize_views(rs, z);
        let s1 = add_policy(nd, spf);
        let s2 = add_policy(s1, dkim);
        lemma_add_policy_contains(nd, spf);
        lemma_add_policy_preserves(s1, dkim, spf);
        lemma_add_policy_preserves(s2, dmarc, spf);
        lemma_add_policy_contains(s1, dkim);
        lemma_add_policy_preserves(s2, dmarc, dkim);
        lemma_add_policy_contains(s2, dmarc);
        assert(add_policy(d1, spf) == d1);
        assert(add_policy(d1, dkim) == d1);
        assert(add_policy(d1, dmarc) == d1);
    }
}

/// The three policy record names pass raw-name validation.
proof fn policy_names_valid()
    ensures
        valid_raw_name(spf_view().common.name),
        valid_raw_name(dkim_view().common.name),
        valid_raw_name(dmarc_view().common.name),
{
    reveal_strlit("@");
    assert("@"@ =~= seq!['@']);
    reveal_strlit("*._domainkey");
    let d = "*._domainkey"@;
    assert(d.len() == 12);
    assert forall|i: int| 0 <= i < d.len() implies valid_name_char(#[trigger] d[i]) by {
        if i == 0 {
            assert(d[0] == '*');
        } else if i == 1 {
            assert(d[1] == '.');
        } else if i == 2 {
            assert(d[2] == '_');
        } else if i == 3 {
            assert(d[3] == 'd');
        } else if i == 4 {
            assert(d[4] == 'o');
        } else if i == 5 {
            assert(d[5] == 'm');
        } else if i == 6 {
            assert(d[6] == 'a');
        } else if i == 7 {
            assert(d[7] == 'i');
        } else if i == 8 {
            assert(d[8] == 'n');
        } else if i == 9 {
            assert(d[9] == 'k');
        } else if i == 10 {
            assert(d[10] == 'e');
        } else {
            assert(d[11] == 'y');
        }
    }
    reveal_strlit("_dmarc");
    let m = "_dmarc"@;
    assert(m.len() == 6);
    assert forall|i: int| 0 <= i < m.len() implies valid_name_char(#[trigger] m[i]) by {
        if i == 0 {
            assert(m[0] == '_');
        } else if i == 1 {
            assert(m[1] == 'd');
        } else if i == 2 {
            assert(m[2] == 'm');
        } else if i == 3 {
            assert(m[3] == 'a');
        } else if i == 4 {
            assert(m[4] == 'r');
        } else {
            assert(m[5] == 'c');
        }
    }
}

/// Does the list hold a record with the same identity key as `r`?
pub fn has_identity(records: &Vec<Record>, r: &Record) -> (b: bool)
    ensures
        b == contains_identity(records.deep_view(), r@),
{
    let n = records.len();
    let mut i: usize = 0;
    while i < n
        invariant
            0 <= i <= n,
            n == records@.len(),
            forall|k: int|
                0 <= k < i ==> (#[trigger] records.deep_view()[k]).identity() != r@.identity(),
        decreases n - i,
    {
        if same_identity(&records[i], r) {
            proof {
                assert(records.deep_view()[i as int].identity() == r@.identity());
            }
            return true;
        }
        i += 1;
    }
    false
}

/// Appends the three restrictive-email policy records, each normalized
/// against `zone_apex`, skipping any whose identity key is already present
/// in the list. Appending is idempotent: a second call changes nothing.
pub fn add_restrictive_email(records: &mut Vec<Record>, zone_apex: &str)
    ensures
        final(records).deep_view() == spec_add_restrictive_email(
            old(records).deep_view(),
            zone_apex@,
        ),
{
    proof {
        policy_names_valid();
    }
    let ghost s0 = records.deep_view();
    let spf = match Record::restrictive_spf().normalize_name(zone_apex) {
        Ok(r) => r,
        Err(_) => {
            proof {
                assert(false);
            }
            return ;
        },
    };
    if !has_identity(records, &spf) {
        records.push(spf);
    }
    let ghost s1 = records.deep_view();
    proof {
        assert(s1 =~= add_policy(s0, spf_view().normalized(zone_apex@)));
    }
    let dkim = match Record::restrictive_dkim().normalize_name(zone_apex) {
        Ok(r) => r,
        Err(_) => {
            proof {
                assert(false);
            }
            return ;
        },
    };
    if !has_identity(records, &dkim) {
        records.push(dkim);
    }
    let ghost s2 = records.deep_view();
    proof {
        assert(s2 =~= add_policy(s1, dkim_view().normalized(zone_apex@)));
    }
    let dmarc = match Record::restrictive_dmarc().normalize_name(zone_apex) {
        Ok(r) => r,
        Err(_) => {
            proof {
                assert(false);
            }
            return ;
        },
    };
    if !has_identity(records, &dmarc) {
        records.push(dmarc);
    }
    proof {
        assert(records.deep_view() =~= add_policy(s2, dmarc_view().normalized(zone_apex@)));
    }
}

/// Rewrites every record's name to fully-qualified form under `apex`, or
/// reports the first record whose raw name fails validation.
pub fn normalize_all(records: &Vec<Record>, apex: &str) -> (r: Result<Vec<Record>, Error>)
    ensures
        r is Ok <==> all_names_valid(records.deep_view()),
        r matches Ok(v) ==> v.deep_view() == normalize_views(records.deep_view(), apex@),
        r matches Err(e) ==> exists|i: int|
            {
                &&& 0 <= i < records.deep_view().len()
                &&& !valid_raw_name((#[trigger] records.deep_view()[i]).common.name)
                &&& e matches Error::InvalidName { name } && name@ == records.deep_view()[
                    i
                ].common.name
            },
{
    let n = records.len();
    let mut out: Vec<Record> = Vec::new();
    let mut i: usize = 0;
    while i < n
        invariant
            0 <= i <= n,
            n == records@.len(),
            out.deep_view().len() == i,
            forall|k: int|
                0 <= k < i ==> valid_raw_name((#[trigger] records.deep_view()[k]).common.name),
            forall|k: int|
                0 <= k < i ==> out.deep_view()[k] == (#[trigger] records.deep_view()[
                    k
                ]).normalized(apex@),
        decreases n - i,
    {
        match records[i].duplicate().normalize_name(apex) {
            Ok(rec) => {
                out.push(rec);
            },
            Err(e) => {
                proof {
                    assert(records.deep_view()[i as int] == records@[i as int].deep_view());
                    assert(!valid_raw_name(records.deep_view()[i as int].common.name));
                    assert(!all_names_valid(records.deep_view()));
                }
                return Err(e);
            },
        }
        i += 1;
    }
    proof {
        assert(out.deep_view() =~= normalize_views(records.deep_view(), apex@));
    }
    Ok(out)
}

/// Builds the desired record list from a configuration: normalizes the
/// user-authored records against the zone apex and, when the zone asks for
/// restrictive email, appends the policy bundle without duplicating any
/// identity the user already authored. Pure: fails only when a record's raw
/// name fails validation.
pub fn build_desired(config: &Config) -> (r: Result<Vec<Record>, Error>)
    ensures
        r is Ok <==> all_names_valid(config.records.deep_view()),
        r matches Ok(v) ==> v.deep_view() == spec_build_desired(
            config.records.deep_view(),
            config.zone.name@,
            config.zone.restrictive_email,
        ),
        r matches Err(e) ==> exists|i: int|
            {
                &&& 0 <= i < config.records.deep_view().len()
                &&& !valid_raw_name((#[trigger] config.records.deep_view()[i]).common.name)
                &&& e matches Error::InvalidName { name } && name@ == config.records.deep_view()[
                    i
                ].common.name
            },
{
    let mut desired = match normalize_all(&config.records, config.zone.name.as_str()) {
        Ok(v) => v,
        Err(e) => {
            return Err(e);
        },
    };
    if config.zone.restrictive_email {
        add_restrictive_email(&mut desired, config.zone.name.as_str());
    }
    Ok(desired)
}

} // verus!
