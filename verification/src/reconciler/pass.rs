//! A whole reconcile pass. Admission comes first: a refused resource is
//! answered with its error before any request is made, and otherwise says
//! where the encryption key comes from. With the key resolved, the pass is the
//! writes of the resource's children, then (unless a write ends the pass) an
//! `Applied` event and the status.
use vstd::prelude::*;
use crate::error::{Error, ErrorView};
use crate::objects::OwnerRef;
use crate::reconciler::cluster::{
    BundlePlan, MainPlan, WebhookPlan, WorkerPlan, bundle_plan_is, cluster_bundle, cluster_status, cluster_status_is,
    main_plan, main_plan_is, webhook_plan, webhook_plan_is, worker_plan, worker_plan_is,
};
use crate::reconciler::encryption::{KeySource, encryption_key_source, key_source_is};
use crate::reconciler::ops::{
    Op, OpView, accepted_single_writes_do_not_fail, cluster_ops, cluster_ops_of, fail_is_last, no_fail, op_views,
    push_op, single_ops, single_ops_of,
};
use crate::reconciler::single::{SinglePlan, single_children_plan, single_plan_is, single_status, single_status_is};
use crate::spec::{Cluster, SecretKeyRef, Single};
use crate::spec::meta::name_any_of;
use crate::text::{concat3, owned};
use crate::validate::{cluster_check, single_check, validate_cluster, validate_single};

verus! {

/// The verdict of admission: the refusal, or where the encryption key comes from.
#[derive(Debug)]
pub enum Admission {
    Refused(Error),
    Admitted(KeySource),
}

/// Admits a `Single`: refused exactly when validation refuses it, with that
/// error; otherwise the source of its encryption key.
pub fn admit_single(s: &Single) -> (r: Admission)
    ensures
        match r {
            Admission::Refused(e) => single_check(*s) == Err::<(), ErrorView>(e@),
            Admission::Admitted(k) => single_check(*s) is Ok && key_source_is(
                k,
                name_any_of(s.metadata),
                s.spec.encryption_key,
            ),
        },
{
    match validate_single(s) {
        Err(e) => Admission::Refused(e),
        Ok(()) => {
            let name = s.metadata.name_any();
            Admission::Admitted(encryption_key_source(name.as_str(), s.spec.encryption_key.as_ref()))
        },
    }
}

/// Admits a `Cluster`: refused exactly when validation refuses it, with that
/// error; otherwise the source of its encryption key.
pub fn admit_cluster(c: &Cluster) -> (r: Admission)
    ensures
        match r {
            Admission::Refused(e) => cluster_check(*c) == Err::<(), ErrorView>(e@),
            Admission::Admitted(k) => cluster_check(*c) is Ok && key_source_is(
                k,
                name_any_of(c.metadata),
                c.spec.encryption_key,
            ),
        },
{
    match validate_cluster(c) {
        Err(e) => Admission::Refused(e),
        Ok(()) => {
            let name = c.metadata.name_any();
            Admission::Admitted(encryption_key_source(name.as_str(), c.spec.encryption_key.as_ref()))
        },
    }
}

/// The event recorded once a pass has written everything.
pub open spec fn applied_event(note: Seq<char>) -> OpView {
    OpView::Publish("Applied"@, note, "Reconciling"@)
}

/// A pass whose writes are `w`: when no write ends it, the `Applied` event with
/// `note` and then a status that `status_ok` accepts follow the writes.
pub open spec fn finished_with(
    ops: Seq<OpView>,
    w: Seq<OpView>,
    note: Seq<char>,
    status_ok: spec_fn(OpView) -> bool,
) -> bool {
    if no_fail(w) {
        &&& ops.len() == w.len() + 2
        &&& ops.subrange(0, w.len() as int) == w
        &&& ops[w.len() as int] == applied_event(note)
        &&& status_ok(ops[w.len() + 1int])
    } else {
        ops == w
    }
}

/// The pass of a refused resource: only its error.
pub open spec fn refused_with(ops: Seq<OpView>, e: ErrorView) -> bool {
    &&& ops.len() == 1
    &&& (ops[0] matches OpView::Fail(x) && x@ == e)
}

/// The status patch of a reconciled `Single`.
pub open spec fn single_status_op(s: Single, key_name: Seq<char>) -> spec_fn(OpView) -> bool {
    |o: OpView| o matches OpView::PatchSingleStatus(st) && single_status_is(st, s, key_name)
}

/// The status patch of a reconciled `Cluster`.
pub open spec fn cluster_status_op(c: Cluster, key_name: Seq<char>) -> spec_fn(OpView) -> bool {
    |o: OpView| o matches OpView::PatchClusterStatus(st) && cluster_status_is(st, c, key_name)
}

/// A pass of `Single` `s` with its key resolved: refused ones write nothing;
/// accepted ones write the planned children and then report.
pub open spec fn single_pass_is(ops: Seq<OpView>, s: Single, key_secret: SecretKeyRef, owner: OwnerRef, gateway_served: bool) -> bool {
    let name = name_any_of(s.metadata);
    match single_check(s) {
        Err(e) => refused_with(ops, e),
        Ok(_) => exists|p: SinglePlan|
            #![trigger single_plan_is(p, s, key_secret, owner)]
            single_plan_is(p, s, key_secret, owner) && finished_with(
                ops,
                single_ops_of(p, name, gateway_served),
                "Applied child resources for `"@ + name + "`"@,
                single_status_op(s, key_secret.name@),
            ),
    }
}

/// A pass of `Cluster` `c` in namespace `ns` with its key resolved: refused
/// ones write nothing; accepted ones write the planned children and then report.
pub open spec fn cluster_pass_is(
    ops: Seq<OpView>,
    c: Cluster,
    ns: Seq<char>,
    key_secret: SecretKeyRef,
    owner: OwnerRef,
    istio_served: bool,
    gateway_served: bool,
) -> bool {
    let name = name_any_of(c.metadata);
    match cluster_check(c) {
        Err(e) => refused_with(ops, e),
        Ok(_) => exists|bp: BundlePlan, m: MainPlan, w: WorkerPlan, h: Option<WebhookPlan>|
            #![trigger bundle_plan_is(bp, c, name, key_secret, owner), main_plan_is(m, c, name, ns, bp.bundle, owner), worker_plan_is(w, c, name, bp.bundle, owner), webhook_plan_is(h, c, name, bp.bundle, owner)]
            {
                &&& bundle_plan_is(bp, c, name, key_secret, owner)
                &&& main_plan_is(m, c, name, ns, bp.bundle, owner)
                &&& worker_plan_is(w, c, name, bp.bundle, owner)
                &&& webhook_plan_is(h, c, name, bp.bundle, owner)
                &&& finished_with(
                    ops,
                    cluster_ops_of(bp.nodes_pvc, bp.binary_data_pvc, m, w, h, name, istio_served, gateway_served),
                    "Applied cluster children for `"@ + name + "`"@,
                    cluster_status_op(c, key_secret.name@),
                )
            },
    }
}

/// Whether the last write ends the pass.
fn ends_in_fail(ops: &Vec<Op>) -> (r: bool)
    requires
        fail_is_last(op_views(ops@)),
    ensures
        r == !no_fail(op_views(ops@)),
{
    let n = ops.len();
    if n == 0 {
        return false;
    }
    let last = matches!(&ops[n - 1], Op::Fail(_));
    assert(op_views(ops@)[n - 1] == ops@[n - 1]@);
    last
}

/// Appends the `Applied` event and the status unless a write ends the pass.
fn finish(ops: &mut Vec<Op>, note: String, status: Op, Ghost(status_ok): Ghost<spec_fn(OpView) -> bool>)
    requires
        fail_is_last(op_views(old(ops)@)),
        status_ok(status@),
        !(status@ is Fail),
    ensures
        finished_with(op_views(final(ops)@), op_views(old(ops)@), note@, status_ok),
        fail_is_last(op_views(final(ops)@)),
{
    let ghost w = op_views(ops@);
    if !ends_in_fail(ops) {
        push_op(ops, Op::Publish { reason: owned("Applied"), note, action: owned("Reconciling") });
        push_op(ops, status);
        proof {
            reveal_strlit("Applied");
            let v = op_views(ops@);
            assert(v.subrange(0, w.len() as int) =~= w);
            assert forall|i: int| 0 <= i < v.len() - 1 implies !(#[trigger] v[i] is Fail) by {
                if i < w.len() {
                    assert(v[i] == w[i]);
                }
            }
        }
    }
}

/// The pass of a `Single` whose key reference is `key_secret`, owned through `owner`.
pub fn single_pass(s: &Single, key_secret: &SecretKeyRef, owner: &OwnerRef, gateway_served: bool) -> (ops: Vec<Op>)
    ensures
        single_pass_is(op_views(ops@), *s, *key_secret, *owner, gateway_served),
        fail_is_last(op_views(ops@)),
{
    match validate_single(s) {
        Err(e) => {
            let mut ops: Vec<Op> = Vec::new();
            push_op(&mut ops, Op::Fail(e));
            ops
        },
        Ok(()) => {
            let name = s.metadata.name_any();
            let plan = single_children_plan(s, key_secret, owner);
            let ghost p0 = plan;
            let mut ops = single_ops(plan, name.as_str(), gateway_served);
            let ghost w = op_views(ops@);
            let note = concat3("Applied child resources for `", name.as_str(), "`");
            let st = single_status(s, key_secret.name.as_str());
            finish(&mut ops, note, Op::PatchSingleStatus(st), Ghost(single_status_op(*s, key_secret.name@)));
            assert(single_plan_is(p0, *s, *key_secret, *owner));
            ops
        },
    }
}

/// The pass of a `Cluster` in namespace `ns` whose key reference is
/// `key_secret`, owned through `owner`.
pub fn cluster_pass(
    c: &Cluster,
    ns: &str,
    key_secret: &SecretKeyRef,
    owner: &OwnerRef,
    istio_served: bool,
    gateway_served: bool,
) -> (ops: Vec<Op>)
    ensures
        cluster_pass_is(op_views(ops@), *c, ns@, *key_secret, *owner, istio_served, gateway_served),
        fail_is_last(op_views(ops@)),
{
    match validate_cluster(c) {
        Err(e) => {
            let mut ops: Vec<Op> = Vec::new();
            push_op(&mut ops, Op::Fail(e));
            ops
        },
        Ok(()) => {
            let name = c.metadata.name_any();
            let bp = cluster_bundle(c, name.as_str(), key_secret, owner);
            let ghost bp0 = bp;
            let BundlePlan { nodes_pvc, binary_data_pvc, bundle } = bp;
            let main = main_plan(c, name.as_str(), ns, &bundle, owner);
            let worker = worker_plan(c, name.as_str(), &bundle, owner);
            let webhook = webhook_plan(c, name.as_str(), &bundle, owner);
            let ghost (m0, w0, h0) = (main, worker, webhook);
            let mut ops = cluster_ops(
                nodes_pvc,
                binary_data_pvc,
                main,
                worker,
                webhook,
                name.as_str(),
                istio_served,
                gateway_served,
            );
            let note = concat3("Applied cluster children for `", name.as_str(), "`");
            let st = cluster_status(c, key_secret.name.as_str());
            finish(&mut ops, note, Op::PatchClusterStatus(st), Ghost(cluster_status_op(*c, key_secret.name@)));
            assert(bundle_plan_is(bp0, *c, name@, *key_secret, *owner));
            assert(main_plan_is(m0, *c, name@, ns@, bp0.bundle, *owner));
            assert(worker_plan_is(w0, *c, name@, bp0.bundle, *owner));
            assert(webhook_plan_is(h0, *c, name@, bp0.bundle, *owner));
            ops
        },
    }
}

/// A refused `Single` is answered with its validation error and nothing else;
/// an accepted one is never cut short: its pass ends with the `Applied` event
/// naming it and a ready status with its replica count, its `https://` URL when
/// it has a host, and the Secret its key is read from.
pub proof fn single_pass_answers(
    ops: Seq<OpView>,
    s: Single,
    key_secret: SecretKeyRef,
    owner: OwnerRef,
    gateway_served: bool,
)
    requires
        single_pass_is(ops, s, key_secret, owner, gateway_served),
    ensures
        single_check(s) matches Err(e) ==> (ops.len() == 1 && (ops[0] matches OpView::Fail(x) && x@ == e)),
        single_check(s) is Ok ==> {
            let n = name_any_of(s.metadata);
            &&& ops.len() >= 2
            &&& forall|i: int| 0 <= i < ops.len() ==> !(#[trigger] ops[i] is Fail)
            &&& ops[ops.len() - 2] == OpView::Publish(
                "Applied"@,
                "Applied child resources for `"@ + n + "`"@,
                "Reconciling"@,
            )
            &&& (ops[ops.len() - 1] matches OpView::PatchSingleStatus(st) && {
                &&& st.ready
                &&& st.replicas == s.spec.replicas
                &&& (s.spec.host matches Some(h) ==> (st.url matches Some(u) && u@ == "https://"@ + h@))
                &&& (s.spec.host is None ==> st.url is None)
                &&& (st.encryption_key_secret matches Some(k) && k@ == key_secret.name@)
            })
        },
{
    if single_check(s) is Ok {
        let n = name_any_of(s.metadata);
        let p = choose|p: SinglePlan| #[trigger] single_plan_is(p, s, key_secret, owner) && finished_with(
            ops,
            single_ops_of(p, n, gateway_served),
            "Applied child resources for `"@ + n + "`"@,
            single_status_op(s, key_secret.name@),
        );
        accepted_single_writes_do_not_fail(s, p, key_secret, owner, gateway_served);
        let w = single_ops_of(p, n, gateway_served);
        assert forall|i: int| 0 <= i < ops.len() implies !(#[trigger] ops[i] is Fail) by {
            if i < w.len() {
                assert(ops[i] == ops.subrange(0, w.len() as int)[i]);
            }
        }
    }
}

/// A refused `Cluster` is answered with its validation error and nothing else;
/// an accepted one whose writes all go through ends with the `Applied` event
/// naming it and a ready status with the replica counts of its roles (0 for
/// webhooks when it has none) and the Secret its key is read from.
pub proof fn cluster_pass_answers(
    ops: Seq<OpView>,
    c: Cluster,
    ns: Seq<char>,
    key_secret: SecretKeyRef,
    owner: OwnerRef,
    istio_served: bool,
    gateway_served: bool,
)
    requires
        cluster_pass_is(ops, c, ns, key_secret, owner, istio_served, gateway_served),
    ensures
        cluster_check(c) matches Err(e) ==> (ops.len() == 1 && (ops[0] matches OpView::Fail(x) && x@ == e)),
        (cluster_check(c) is Ok && no_fail(ops)) ==> {
            let n = name_any_of(c.metadata);
            &&& ops.len() >= 2
            &&& ops[ops.len() - 2] == OpView::Publish(
                "Applied"@,
                "Applied cluster children for `"@ + n + "`"@,
                "Reconciling"@,
            )
            &&& (ops[ops.len() - 1] matches OpView::PatchClusterStatus(st) && {
                &&& st.ready
                &&& st.main_replicas == c.spec.main.replicas
                &&& st.worker_replicas == c.spec.workers.replicas
                &&& (c.spec.webhooks matches Some(wh) ==> st.webhook_replicas == wh.replicas)
                &&& (c.spec.webhooks is None ==> st.webhook_replicas == 0)
                &&& (st.encryption_key_secret matches Some(k) && k@ == key_secret.name@)
            })
        },
{
    if cluster_check(c) is Ok && no_fail(ops) {
        let n = name_any_of(c.metadata);
        let (bp, m, w, h) = choose|bp: BundlePlan, m: MainPlan, w: WorkerPlan, h: Option<WebhookPlan>|
            #![trigger bundle_plan_is(bp, c, n, key_secret, owner), main_plan_is(m, c, n, ns, bp.bundle, owner), worker_plan_is(w, c, n, bp.bundle, owner), webhook_plan_is(h, c, n, bp.bundle, owner)]
            {
                &&& bundle_plan_is(bp, c, n, key_secret, owner)
                &&& main_plan_is(m, c, n, ns, bp.bundle, owner)
                &&& worker_plan_is(w, c, n, bp.bundle, owner)
                &&& webhook_plan_is(h, c, n, bp.bundle, owner)
                &&& finished_with(
                    ops,
                    cluster_ops_of(bp.nodes_pvc, bp.binary_data_pvc, m, w, h, n, istio_served, gateway_served),
                    "Applied cluster children for `"@ + n + "`"@,
                    cluster_status_op(c, key_secret.name@),
                )
            };
        let wr = cluster_ops_of(bp.nodes_pvc, bp.binary_data_pvc, m, w, h, n, istio_served, gateway_served);
        if !no_fail(wr) {
            let i = choose|i: int| 0 <= i < wr.len() && #[trigger] wr[i] is Fail;
            assert(ops[i] is Fail);
        }
    }
}

} // verus!
