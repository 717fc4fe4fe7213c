//! The reconciler: compares desired records against remote records by
//! identity key and produces the ordered operation plan that makes the
//! remote zone match the desired state.
//!
//! The plan is strictly additive-and-updating: a desired record with no
//! remote counterpart becomes a create, one whose remote counterpart differs
//! in a mutable attribute becomes an update, and remote records absent from
//! the desired list are left untouched — no delete is ever emitted.

use vstd::prelude::*;

use crate::builder::{all_names_valid, normalize_views};
use crate::error::Error;
use crate::name::valid_raw_name;
use crate::record::{same_attrs, same_identity, Record, RecordView};

verus! {

/// A record as the remote zone holds it: the record fields plus the
/// provider-assigned identifier that updates must reference.
#[derive(Clone, Debug)]
pub struct RemoteRecord {
    pub id: String,
    pub record: Record,
}

/// Mathematical image of a remote record.
#[verifier::ext_equal]
pub struct RemoteRecordView {
    pub id: Seq<char>,
    pub record: RecordView,
}

impl View for RemoteRecord {
    type V = RemoteRecordView;

    open spec fn view(&self) -> RemoteRecordView {
        RemoteRecordView { id: self.id@, record: self.record@ }
    }
}

impl DeepView for RemoteRecord {
    type V = RemoteRecordView;

    open spec fn deep_view(&self) -> RemoteRecordView {
        self.view()
    }
}

/// One remote mutation the plan asks for. There is no delete variant:
/// records absent from the desired list are never touched.
#[derive(Clone, Debug)]
pub enum Operation {
    /// Create this record remotely.
    Create(Record),
    /// Rewrite the mutable attributes of the remote record with identifier
    /// `id` to those of `record`.
    Update { id: String, record: Record },
}

/// Mathematical image of an operation.
#[verifier::ext_equal]
pub enum OperationView {
    Create(RecordView),
    Update { id: Seq<char>, record: RecordView },
}

impl View for Operation {
    type V = OperationView;

    open spec fn view(&self) -> OperationView {
        match self {
            Operation::Create(rec) => OperationView::Create(rec@),
            Operation::Update { id, record } => OperationView::Update {
                id: id@,
                record: record@,
            },
        }
    }
}

impl DeepView for Operation {
    type V = OperationView;

    open spec fn deep_view(&self) -> OperationView {
        self.view()
    }
}

/// The remote record a desired record `d` is matched against: the *last*
/// remote record sharing its identity key. When the remote zone
/// inconsistently holds two records with one identity, the later one wins
/// and the earlier is left alone.
pub open spec fn find_match(remote: Seq<RemoteRecordView>, d: RecordView) -> Option<
    RemoteRecordView,
>
    decreases remote.len(),
{
    if remote.len() == 0 {
        None
    } else if remote.last().record.identity() == d.identity() {
        Some(remote.last())
    } else {
        find_match(remote.drop_last(), d)
    }
}

/// Do two records of the list share one identity key?
pub open spec fn has_duplicate_identity(rs: Seq<RecordView>) -> bool {
    exists|i: int, j: int| 0 <= i < j < rs.len() && rs[i].identity() == rs[j].identity()
}

/// The earliest duplicated pair: `j` is the first position that repeats an
/// earlier identity, and `i` the first earlier position it repeats.
pub open spec fn is_first_duplicate(rs: Seq<RecordView>, i: int, j: int) -> bool {
    &&& 0 <= i < j < rs.len()
    &&& rs[i].identity() == rs[j].identity()
    &&& forall|a: int, b: int| 0 <= a < b < j ==> rs[a].identity() != rs[b].identity()
    &&& forall|a: int| 0 <= a < i ==> rs[a].identity() != rs[j].identity()
}

/// The operation plan over already-normalized records: for each desired
/// record in input order, a create when no remote record shares its
/// identity, an update (referencing the matched remote record's identifier)
/// when one does but differs in a mutable attribute, and nothing when the
/// match already agrees on every mutable attribute.
pub open spec fn plan_ops(nd: Seq<RecordView>, remote: Seq<RemoteRecordView>) -> Seq<OperationView>
    decreases nd.len(),
{
    if nd.len() == 0 {
        seq![]
    } else {
        let prev = plan_ops(nd.drop_last(), remote);
        let d = nd.last();
        match find_match(remote, d) {
            Option::None => prev.push(OperationView::Create(d)),
            Option::Some(rr) => if d.attrs() == rr.record.attrs() {
                prev
            } else {
                prev.push(OperationView::Update { id: rr.id, record: d })
            },
        }
    }
}

/// Every remote record's name passes validation.
pub open spec fn remote_names_valid(rs: Seq<RemoteRecordView>) -> bool {
    forall|i: int| 0 <= i < rs.len() ==> valid_raw_name((#[trigger] rs[i]).record.common.name)
}

/// Every remote record with its name rewritten to fully-qualified form.
pub open spec fn normalize_remote_views(rs: Seq<RemoteRecordView>, z: Seq<char>) -> Seq<
    RemoteRecordView,
> {
    rs.map_values(|r: RemoteRecordView| RemoteRecordView { id: r.id, record: r.record.normalized(z) })
}

/// What a successful match means: the matched record is an element of the
/// remote list and shares the desired record's identity key.
pub proof fn lemma_find_match_some(remote: Seq<RemoteRecordView>, d: RecordView)
    requires
        find_match(remote, d) is Some,
    ensures
        ({
            let rr = find_match(remote, d)->Some_0;
            &&& exists|j: int| 0 <= j < remote.len() && remote[j] == rr
            &&& rr.record.identity() == d.identity()
        }),
    decreases remote.len(),
{
    if remote.len() == 0 {
    } else if remote.last().record.identity() == d.identity() {
        assert(remote[remote.len() - 1] == remote.last());
    } else {
        lemma_find_match_some(remote.drop_last(), d);
        let rr = find_match(remote.drop_last(), d)->Some_0;
        let j = choose|j: int| 0 <= j < remote.drop_last().len() && remote.drop_last()[j] == rr;
        assert(remote[j] == rr);
    }
}

/// When some remote record shares the desired record's identity key, the
/// match is found.
pub proof fn lemma_find_match_exists(remote: Seq<RemoteRecordView>, d: RecordView)
    requires
        exists|j: int| 0 <= j < remote.len() && (#[trigger] remote[j]).record.identity()
            == d.identity(),
    ensures
        find_match(remote, d) is Some,
    decreases remote.len(),
{
    if remote.last().record.identity() == d.identity() {
    } else {
        let j = choose|j: int|
            0 <= j < remote.len() && (#[trigger] remote[j]).record.identity() == d.identity();
        assert(remote.drop_last()[j] == remote[j]);
        lemma_find_match_exists(remote.drop_last(), d);
    }
}

/// No-op convergence: when every desired record has a remote record with its
/// identity key, and every remote record sharing a desired record's identity
/// key already agrees with it on every mutable attribute, the plan is empty.
pub proof fn lemma_noop_convergence(nd: Seq<RecordView>, remote: Seq<RemoteRecordView>)
    requires
        forall|i: int| 0 <= i < nd.len() ==> exists|j: int|
            0 <= j < remote.len() && (#[trigger] remote[j]).record.identity() == (
            #[trigger] nd[i]).identity(),
        forall|i: int, j: int|
            0 <= i < nd.len() && 0 <= j < remote.len() && (#[trigger] remote[j]).record.identity()
                == (#[trigger] nd[i]).identity() ==> remote[j].record.attrs() == nd[i].attrs(),
    ensures
        plan_ops(nd, remote) == Seq::<OperationView>::empty(),
    decreases nd.len(),
{
    if nd.len() == 0 {
        assert(plan_ops(nd, remote) =~= Seq::<OperationView>::empty());
    } else {
        let d = nd.last();
        assert(nd[nd.len() - 1] == d);
        lemma_find_match_exists(remote, d);
        lemma_find_match_some(remote, d);
        let rr = find_match(remote, d)->Some_0;
        let j = choose|j: int| 0 <= j < remote.len() && remote[j] == rr;
        assert(remote[j].record.attrs() == d.attrs());
        assert(forall|i: int| 0 <= i < nd.drop_last().len() ==> nd.drop_last()[i] == nd[i]);
        lemma_noop_convergence(nd.drop_last(), remote);
    }
}

/// The plan holds creates and updates only: no delete ever appears, so
/// remote records absent from the desired list are never touched.
pub proof fn lemma_plan_only_creates_and_updates(nd: Seq<RecordView>, remote: Seq<RemoteRecordView>)
    ensures
        forall|k: int| 0 <= k < plan_ops(nd, remote).len() ==> ((#[trigger] plan_ops(nd, remote)[k])
            is Create || plan_ops(nd, remote)[k] is Update),
    decreases nd.len(),
{
    if nd.len() == 0 {
    } else {
        lemma_plan_only_creates_and_updates(nd.drop_last(), remote);
        let prev = plan_ops(nd.drop_last(), remote);
        let ops = plan_ops(nd, remote);
        assert(forall|k: int| 0 <= k < prev.len() ==> ops[k] == prev[k]);
    }
}

/// Finds the index of the last remote record sharing `d`'s identity key.
fn find_remote_match(remote: &Vec<RemoteRecord>, d: &Record) -> (r: Option<usize>)
    ensures
        r matches Some(j) ==> j < remote@.len() && find_match(remote.deep_view(), d@)
            == Some(remote.deep_view()[j as int]),
        r is None ==> find_match(remote.deep_view(), d@) is None,
{
    let ghost full = remote.deep_view();
    let mut j: usize = remote.len();
    proof {
        assert(full.take(j as int) =~= full);
    }
    while j > 0
        invariant
            j <= remote@.len(),
            full == remote.deep_view(),
            find_match(full, d@) == find_match(full.take(j as int), d@),
        decreases j,
    {
        let jj = j - 1;
        proof {
            let t = full.take(j as int);
            assert(t.last() == full[jj as int]);
            assert(t.drop_last() =~= full.take(jj as int));
        }
        if same_identity(&remote[jj].record, d) {
            proof {
                assert(full[jj as int].record.identity() == d@.identity());
                assert(find_match(full.take(j as int), d@) == Some(full[jj as int]));
            }
            return Some(jj);
        }
        j = jj;
    }
    proof {
        assert(full.take(0).len() == 0);
    }
    None
}

/// Finds the earliest pair of records sharing one identity key, scanning
/// each position against all earlier ones.
fn find_duplicate(records: &Vec<Record>) -> (r: Option<(usize, usize)>)
    ensures
        r matches Some(p) ==> is_first_duplicate(records.deep_view(), p.0 as int, p.1 as int),
        r is None ==> !has_duplicate_identity(records.deep_view()),
{
    let ghost rs = records.deep_view();
    let n = records.len();
    let mut j: usize = 1;
    while j < n
        invariant
            1 <= j,
            n == records@.len(),
            rs == records.deep_view(),
            forall|a: int, b: int| 0 <= a < b < j && b < rs.len() ==> (#[trigger] rs[a].identity())
                != (#[trigger] rs[b].identity()),
        decreases n - j,
    {
        let mut i: usize = 0;
        while i < j
            invariant
                0 <= i <= j < n,
                n == records@.len(),
                rs == records.deep_view(),
                forall|a: int, b: int| 0 <= a < b < j && b < rs.len() ==> (
                #[trigger] rs[a].identity()) != (#[trigger] rs[b].identity()),
                forall|a: int| 0 <= a < i ==> (#[trigger] rs[a].identity()) != rs[j as int].identity(),
            decreases j - i,
        {
            if same_identity(&records[i], &records[j]) {
                proof {
                    assert(rs[i as int].identity() == rs[j as int].identity());
                }
                return Some((i, j));
            }
            i += 1;
        }
        j += 1;
    }
    proof {
        assert(!has_duplicate_identity(rs)) by {
            if has_duplicate_identity(rs) {
                let (a, b) = choose|a: int, b: int|
                    0 <= a < b < rs.len() && rs[a].identity() == rs[b].identity();
                assert(rs[a].identity() != rs[b].identity());
            }
        }
    }
    None
}

/// Computes the operation plan over already-normalized desired and remote
/// lists. Fails fast, before considering any operation, when two desired
/// records share one identity key.
pub fn plan_core(desired: &Vec<Record>, remote: &Vec<RemoteRecord>) -> (r: Result<
    Vec<Operation>,
    Error,
>)
    ensures
        r is Ok <==> !has_duplicate_identity(desired.deep_view()),
        r matches Ok(ops) ==> ops.deep_view() == plan_ops(desired.deep_view(), remote.deep_view()),
        r matches Err(e) ==> e matches Error::DuplicateIdentity { name, first, second }
            && is_first_duplicate(desired.deep_view(), first as int, second as int) && name@
            == desired.deep_view()[second as int].common.name,
{
    let ghost nd = desired.deep_view();
    match find_duplicate(desired) {
        Some(p) => {
            let (i, j) = p;
            proof {
                assert(0 <= i < j < nd.len());
                assert(nd[i as int].identity() == nd[j as int].identity());
                assert(has_duplicate_identity(nd));
            }
            return Err(
                Error::DuplicateIdentity {
                    name: desired[j].common_fields().name.clone(),
                    first: i,
                    second: j,
                },
            );
        },
        None => {},
    }
    let n = desired.len();
    let mut ops: Vec<Operation> = Vec::new();
    let mut i: usize = 0;
    proof {
        assert(nd.take(0).len() == 0);
        assert(ops.deep_view() =~= plan_ops(nd.take(0), remote.deep_view()));
    }
    while i < n
        invariant
            0 <= i <= n,
            n == desired@.len(),
            nd == desired.deep_view(),
            ops.deep_view() == plan_ops(nd.take(i as int), remote.deep_view()),
        decreases n - i,
    {
        proof {
            assert(nd.take(i + 1).last() == nd[i as int]);
            assert(nd.take(i + 1).drop_last() =~= nd.take(i as int));
        }
        let d = &desired[i];
        match find_remote_match(remote, d) {
            Option::None => {
                ops.push(Operation::Create(d.duplicate()));
            },
            Option::Some(j) => {
                let rr = &remote[j];
                if !same_attrs(d, &rr.record) {
                    ops.push(Operation::Update { id: rr.id.clone(), record: d.duplicate() });
                }
            },
        }
        proof {
            assert(ops.deep_view() =~= plan_ops(nd.take(i + 1), remote.deep_view()));
        }
        i += 1;
    }
    proof {
        assert(nd.take(n as int) =~= nd);
    }
    Ok(ops)
}

/// Computes the operation plan: normalizes every desired and remote record's
/// name against the zone apex, refuses a desired list in which two records
/// share one identity key, and emits creates and updates in desired order —
/// never a delete. Deterministic: the result is a function of the inputs
/// alone.
pub fn plan(desired: &Vec<Record>, remote: &Vec<RemoteRecord>, zone_apex: &str) -> (r: Result<
    Vec<Operation>,
    Error,
>)
    ensures
        r is Ok <==> {
            &&& all_names_valid(desired.deep_view())
            &&& remote_names_valid(remote.deep_view())
            &&& !has_duplicate_identity(normalize_views(desired.deep_view(), zone_apex@))
        },
        r matches Ok(ops) ==> ops.deep_view() == plan_ops(
            normalize_views(desired.deep_view(), zone_apex@),
            normalize_remote_views(remote.deep_view(), zone_apex@),
        ),
        r matches Err(e) ==> (all_names_valid(desired.deep_view()) && remote_names_valid(
            remote.deep_view(),
        )) ==> ({
            &&& e matches Error::DuplicateIdentity { name, first, second }
            &&& is_first_duplicate(
                normalize_views(desired.deep_view(), zone_apex@),
                first as int,
                second as int,
            )
            &&& name@ == normalize_views(desired.deep_view(), zone_apex@)[
                second as int
            ].common.name
        }),
        r matches Err(e) ==> !all_names_valid(desired.deep_view()) ==> ({
            &&& e matches Error::InvalidName { name }
            &&& exists|i: int|
                {
                    &&& 0 <= i < desired.deep_view().len()
                    &&& !valid_raw_name((#[trigger] desired.deep_view()[i]).common.name)
                    &&& name@ == desired.deep_view()[i].common.name
                }
        }),
{
    let nd = match crate::builder::normalize_all(desired, zone_apex) {
        Ok(v) => v,
        Err(e) => {
            return Err(e);
        },
    };
    let nr = match normalize_remote(remote, zone_apex) {
        Ok(v) => v,
        Err(e) => {
            return Err(e);
        },
    };
    plan_core(&nd, &nr)
}

/// Rewrites every remote record's name to fully-qualified form (remote names
/// arrive fully qualified in practice; normalization is still applied for
/// safety), or reports the first remote record whose name fails validation.
fn normalize_remote(remote: &Vec<RemoteRecord>, apex: &str) -> (r: Result<Vec<RemoteRecord>, Error>)
    ensures
        r is Ok <==> remote_names_valid(remote.deep_view()),
        r matches Ok(v) ==> v.deep_view() == normalize_remote_views(remote.deep_view(), apex@),
        r matches Err(e) ==> e matches Error::InvalidName { name } && exists|i: int|
            {
                &&& 0 <= i < remote.deep_view().len()
                &&& !valid_raw_name((#[trigger] remote.deep_view()[i]).record.common.name)
                &&& name@ == remote.deep_view()[i].record.common.name
            },
{
    let n = remote.len();
    let mut out: Vec<RemoteRecord> = Vec::new();
    let mut i: usize = 0;
    while i < n
        invariant
            0 <= i <= n,
            n == remote@.len(),
            out.deep_view().len() == i,
            forall|k: int|
                0 <= k < i ==> valid_raw_name(
                    (#[trigger] remote.deep_view()[k]).record.common.name,
                ),
            forall|k: int|
                0 <= k < i ==> out.deep_view()[k] == (RemoteRecordView {
                    id: remote.deep_view()[k].id,
                    record: (#[trigger] remote.deep_view()[k]).record.normalized(apex@),
                }),
        decreases n - i,
    {
        let rr = &remote[i];
        match rr.record.duplicate().normalize_name(apex) {
            Ok(rec) => {
                out.push(RemoteRecord { id: rr.id.clone(), record: rec });
            },
            Err(e) => {
                proof {
                    assert(!valid_raw_name(remote.deep_view()[i as int].record.common.name));
                }
                return Err(e);
            },
        }
        i += 1;
    }
    proof {
        assert(out.deep_view() =~= normalize_remote_views(remote.deep_view(), apex@));
    }
    Ok(out)
}

} // verus!
