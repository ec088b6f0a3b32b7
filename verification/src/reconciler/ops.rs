//! The order in which a reconcile pass writes to the cluster: each planned
//! object applied or removed, and how a failure of each write is treated.
//! The caller performs the operations one by one and stops at the first
//! failure that is not ignored, or at a `Fail`.
use vstd::prelude::*;
use crate::builders::http_route::{RoutePlan, redirect_name};
use crate::error::Error;
use crate::objects::{
    DeploymentModel, DestinationRuleModel, HpaModel, HttpRouteModel, IngressModel, PvcModel, ServiceModel,
};
use crate::reconciler::cluster::{MainPlan, WebhookPlan, WorkerPlan, webhook_name};
use crate::reconciler::networking::NetworkingPlan;
use crate::reconciler::single::{SinglePlan, accepted_single_has_networking_plan, single_plan_is};
use crate::objects::OwnerRef;
use crate::spec::{ClusterStatus, SecretKeyRef, Single, SingleStatus};
use crate::spec::meta::name_any_of;
use crate::validate::single_check;
use crate::text::{concat2, owned};

verus! {

/// Seconds until a resource is reconciled again, after success and after failure alike.
pub const REQUEUE_SECS: u64 = 300;

/// A kind of object that a pass may remove.
#[derive(Debug)]
pub enum ObjectKind {
    Deployment,
    Service,
    Ingress,
    HttpRoute,
    DestinationRule,
    HorizontalPodAutoscaler,
}

/// How a removal treats failures.
#[derive(Debug)]
pub enum Removal {
    /// Look the object up and delete it when present; a failed lookup or
    /// delete fails the pass.
    Strict,
    /// Delete the object when a lookup finds it; a failed lookup counts as
    /// absent, a failed delete fails the pass.
    Lenient,
    /// Delete without a lookup; every failure is ignored.
    Quiet,
}

/// One write of a reconcile pass. An apply is a forced server-side apply whose
/// failure fails the pass.
#[derive(Debug)]
pub enum Op {
    ApplyPvc(PvcModel),
    ApplyDeployment(DeploymentModel),
    ApplyService(ServiceModel),
    ApplyIngress(IngressModel),
    ApplyHttpRoute(HttpRouteModel),
    ApplyDestinationRule(DestinationRuleModel),
    ApplyHpa(HpaModel),
    Remove { kind: ObjectKind, name: String, removal: Removal },
    /// Remove each named HTTPRoute that a lookup finds, in order; a failed
    /// lookup counts as absent, and a failed delete ends this operation
    /// quietly.
    RemoveRoutes(Vec<String>),
    /// Record an event on the resource; a failure fails the pass.
    Publish { reason: String, note: String, action: String },
    /// Apply the status of a `Single`; a failure fails the pass.
    PatchSingleStatus(SingleStatus),
    /// Apply the status of a `Cluster`; a failure fails the pass.
    PatchClusterStatus(ClusterStatus),
    /// End the pass with this error.
    Fail(Error),
}

/// An `Op` with its names as character sequences.
pub enum OpView {
    ApplyPvc(PvcModel),
    ApplyDeployment(DeploymentModel),
    ApplyService(ServiceModel),
    ApplyIngress(IngressModel),
    ApplyHttpRoute(HttpRouteModel),
    ApplyDestinationRule(DestinationRuleModel),
    ApplyHpa(HpaModel),
    Remove(ObjectKind, Seq<char>, Removal),
    RemoveRoutes(Seq<Seq<char>>),
    Publish(Seq<char>, Seq<char>, Seq<char>),
    PatchSingleStatus(SingleStatus),
    PatchClusterStatus(ClusterStatus),
    Fail(Error),
}

impl View for Op {
    type V = OpView;

    open spec fn view(&self) -> OpView {
        match *self {
            Op::ApplyPvc(m) => OpView::ApplyPvc(m),
            Op::ApplyDeployment(m) => OpView::ApplyDeployment(m),
            Op::ApplyService(m) => OpView::ApplyService(m),
            Op::ApplyIngress(m) => OpView::ApplyIngress(m),
            Op::ApplyHttpRoute(m) => OpView::ApplyHttpRoute(m),
            Op::ApplyDestinationRule(m) => OpView::ApplyDestinationRule(m),
            Op::ApplyHpa(m) => OpView::ApplyHpa(m),
            Op::Remove { kind, name, removal } => OpView::Remove(kind, name@, removal),
            Op::RemoveRoutes(v) => OpView::RemoveRoutes(v@.map_values(|s: String| s@)),
            Op::Publish { reason, note, action } => OpView::Publish(reason@, note@, action@),
            Op::PatchSingleStatus(st) => OpView::PatchSingleStatus(st),
            Op::PatchClusterStatus(st) => OpView::PatchClusterStatus(st),
            Op::Fail(e) => OpView::Fail(e),
        }
    }
}

/// The views of a list of operations.
pub open spec fn op_views(s: Seq<Op>) -> Seq<OpView> {
    s.map_values(|o: Op| o@)
}

/// The writes of a role's networking: the conflict ends the pass; otherwise
/// the Ingress is applied or a stale one removed, then the primary route and
/// the redirect route are applied (a stale redirect route removed), or, when
/// the role has no route and the Gateway API is served, both of its routes
/// are removed.
pub open spec fn networking_ops_of(r: Result<NetworkingPlan, Error>, name: Seq<char>, gateway_served: bool) -> Seq<OpView> {
    match r {
        Err(e) => seq![OpView::Fail(e)],
        Ok(p) => (match p.ingress {
            Some(i) => seq![OpView::ApplyIngress(i)],
            None => seq![OpView::Remove(ObjectKind::Ingress, name, Removal::Strict)],
        }) + match p.route {
            Some(rp) => seq![OpView::ApplyHttpRoute(rp.primary)] + match rp.redirect {
                Some(rr) => seq![OpView::ApplyHttpRoute(rr)],
                None => seq![OpView::Remove(ObjectKind::HttpRoute, rp.redirect_name@, Removal::Lenient)],
            },
            None => if gateway_served {
                seq![OpView::RemoveRoutes(seq![name, name + "-redirect"@])]
            } else {
                Seq::empty()
            },
        },
    }
}

pub(crate) fn push_op(ops: &mut Vec<Op>, o: Op)
    ensures
        final(ops)@ == old(ops)@.push(o),
        op_views(final(ops)@) == op_views(old(ops)@).push(o@),
{
    ops.push(o);
    assert(op_views(ops@) =~= op_views(old(ops)@).push(o@));
}

fn route_names(name: &str) -> (r: Vec<String>)
    ensures
        r@.map_values(|s: String| s@) == seq![name@, name@ + "-redirect"@],
{
    let mut v: Vec<String> = Vec::new();
    v.push(owned(name));
    v.push(redirect_name(name));
    assert(v@.map_values(|s: String| s@) =~= seq![name@, name@ + "-redirect"@]);
    v
}

/// Appends the writes of a role's networking.
fn networking_ops(ops: &mut Vec<Op>, r: Result<NetworkingPlan, Error>, name: &str, gateway_served: bool)
    ensures
        op_views(final(ops)@) == op_views(old(ops)@) + networking_ops_of(r, name@, gateway_served),
{
    let ghost start = op_views(ops@);
    let ghost r0 = r;
    match r {
        Err(e) => {
            push_op(ops, Op::Fail(e));
        },
        Ok(p) => {
            let NetworkingPlan { ingress, route } = p;
            match ingress {
                Some(i) => push_op(ops, Op::ApplyIngress(i)),
                None => push_op(ops, Op::Remove { kind: ObjectKind::Ingress, name: owned(name), removal: Removal::Strict }),
            }
            match route {
                Some(rp) => {
                    let RoutePlan { primary, redirect_name: rname, redirect } = rp;
                    push_op(ops, Op::ApplyHttpRoute(primary));
                    match redirect {
                        Some(rr) => push_op(ops, Op::ApplyHttpRoute(rr)),
                        None => push_op(ops, Op::Remove { kind: ObjectKind::HttpRoute, name: rname, removal: Removal::Lenient }),
                    }
                },
                None => {
                    if gateway_served {
                        push_op(ops, Op::RemoveRoutes(route_names(name)));
                    }
                },
            }
        },
    }
    assert(op_views(ops@) =~= start + networking_ops_of(r0, name@, gateway_served));
}

/// No write follows a `Fail`.
pub open spec fn fail_is_last(s: Seq<OpView>) -> bool {
    forall|i: int| 0 <= i < s.len() - 1 ==> !(#[trigger] s[i] is Fail)
}

proof fn lemma_networking_fail(r: Result<NetworkingPlan, Error>, name: Seq<char>, gateway_served: bool)
    ensures
        fail_is_last(networking_ops_of(r, name, gateway_served)),
        r is Ok ==> forall|i: int|
            0 <= i < networking_ops_of(r, name, gateway_served).len() ==> !(#[trigger] networking_ops_of(
                r,
                name,
                gateway_served,
            )[i] is Fail),
{
}

proof fn lemma_fail_concat(a: Seq<OpView>, b: Seq<OpView>)
    requires
        forall|i: int| 0 <= i < a.len() ==> !(#[trigger] a[i] is Fail),
        fail_is_last(b),
    ensures
        fail_is_last(a + b),
{
    assert forall|i: int| 0 <= i < (a + b).len() - 1 implies !(#[trigger] (a + b)[i] is Fail) by {
        if i >= a.len() {
            assert((a + b)[i] == b[i - a.len()]);
        }
    }
}

/// The writes of a `Single` named `name`: its data claim when it has one, its
/// Deployment and Service, then its networking.
pub open spec fn single_ops_of(p: SinglePlan, name: Seq<char>, gateway_served: bool) -> Seq<OpView> {
    (match p.pvc {
        Some(v) => seq![OpView::ApplyPvc(v)],
        None => Seq::empty(),
    }) + seq![OpView::ApplyDeployment(p.deployment), OpView::ApplyService(p.service)] + networking_ops_of(
        p.networking,
        name,
        gateway_served,
    )
}

/// The writes that reconcile the children of a `Single` named `name`, in order.
pub fn single_ops(p: SinglePlan, name: &str, gateway_served: bool) -> (ops: Vec<Op>)
    ensures
        op_views(ops@) == single_ops_of(p, name@, gateway_served),
        fail_is_last(op_views(ops@)),
{
    let ghost p0 = p;
    let SinglePlan { pvc, deployment, service, networking } = p;
    let mut ops: Vec<Op> = Vec::new();
    if let Some(v) = pvc {
        push_op(&mut ops, Op::ApplyPvc(v));
    }
    push_op(&mut ops, Op::ApplyDeployment(deployment));
    push_op(&mut ops, Op::ApplyService(service));
    let ghost head = op_views(ops@);
    networking_ops(&mut ops, networking, name, gateway_served);
    assert(op_views(ops@) =~= single_ops_of(p0, name@, gateway_served));
    proof {
        lemma_networking_fail(p0.networking, name@, gateway_served);
        lemma_fail_concat(head, networking_ops_of(p0.networking, name@, gateway_served));
    }
    ops
}

/// The writes of the main role: its data claim when it has one, its Deployment
/// and Service, the sticky-session DestinationRule applied (multi-main) or
/// removed when Istio is served, then its networking.
pub open spec fn main_ops_of(p: MainPlan, istio_served: bool, gateway_served: bool) -> Seq<OpView> {
    main_apply_ops_of(p, istio_served) + networking_ops_of(p.networking, p.name@, gateway_served)
}

/// The main role's writes before its networking.
pub open spec fn main_apply_ops_of(p: MainPlan, istio_served: bool) -> Seq<OpView> {
    (match p.pvc {
        Some(v) => seq![OpView::ApplyPvc(v)],
        None => Seq::empty(),
    }) + seq![OpView::ApplyDeployment(p.deployment), OpView::ApplyService(p.service)] + (if istio_served {
        match p.destination_rule {
            Some(d) => seq![OpView::ApplyDestinationRule(d)],
            None => seq![OpView::Remove(ObjectKind::DestinationRule, p.name@, Removal::Lenient)],
        }
    } else {
        Seq::empty()
    })
}

/// The writes of the worker role: its Deployment, then its HPA applied, or a
/// stale one removed.
pub open spec fn worker_ops_of(p: WorkerPlan) -> Seq<OpView> {
    seq![OpView::ApplyDeployment(p.deployment)] + match p.hpa {
        Some(h) => seq![OpView::ApplyHpa(h)],
        None => seq![OpView::Remove(ObjectKind::HorizontalPodAutoscaler, p.name@, Removal::Strict)],
    }
}

/// The writes of the webhook role of cluster `cluster_name`: its Deployment,
/// Service and networking; without a webhook role, the quiet removal of the
/// Deployment, Service and Ingress of that name, and of its routes when the
/// Gateway API is served.
pub open spec fn webhook_ops_of(p: Option<WebhookPlan>, cluster_name: Seq<char>, gateway_served: bool) -> Seq<OpView> {
    match p {
        Some(w) => seq![OpView::ApplyDeployment(w.deployment), OpView::ApplyService(w.service)]
            + networking_ops_of(w.networking, w.name@, gateway_served),
        None => {
            let n = cluster_name + "-webhook"@;
            seq![
                OpView::Remove(ObjectKind::Deployment, n, Removal::Quiet),
                OpView::Remove(ObjectKind::Service, n, Removal::Quiet),
                OpView::Remove(ObjectKind::Ingress, n, Removal::Quiet),
            ] + if gateway_served {
                seq![OpView::RemoveRoutes(seq![n, n + "-redirect"@])]
            } else {
                Seq::empty()
            }
        },
    }
}

/// The writes of a cluster: the shared claims (community nodes, then binary
/// data), the main role, and, unless the main role's networking ended the
/// pass, the worker and webhook roles.
pub open spec fn cluster_ops_of(
    nodes_pvc: Option<PvcModel>,
    binary_data_pvc: Option<PvcModel>,
    main: MainPlan,
    worker: WorkerPlan,
    webhook: Option<WebhookPlan>,
    cluster_name: Seq<char>,
    istio_served: bool,
    gateway_served: bool,
) -> Seq<OpView> {
    (match nodes_pvc {
        Some(v) => seq![OpView::ApplyPvc(v)],
        None => Seq::empty(),
    }) + (match binary_data_pvc {
        Some(v) => seq![OpView::ApplyPvc(v)],
        None => Seq::empty(),
    }) + main_ops_of(main, istio_served, gateway_served) + if main.networking is Ok {
        worker_ops_of(worker) + webhook_ops_of(webhook, cluster_name, gateway_served)
    } else {
        Seq::empty()
    }
}

/// Appends the writes of the main role; says whether its networking was planned.
fn main_ops(ops: &mut Vec<Op>, main: MainPlan, istio_served: bool, gateway_served: bool) -> (ok: bool)
    ensures
        op_views(final(ops)@) == op_views(old(ops)@) + main_ops_of(main, istio_served, gateway_served),
        ok == main.networking is Ok,
        no_fail(op_views(old(ops)@)) ==> if ok {
            no_fail(op_views(final(ops)@))
        } else {
            fail_is_last(op_views(final(ops)@))
        },
{
    let ghost m0 = main;
    let ghost start = op_views(ops@);
    let MainPlan { name, pvc, deployment, service, multi_main, destination_rule, networking } = main;
    if let Some(v) = pvc {
        push_op(ops, Op::ApplyPvc(v));
    }
    push_op(ops, Op::ApplyDeployment(deployment));
    push_op(ops, Op::ApplyService(service));
    if istio_served {
        match destination_rule {
            Some(d) => push_op(ops, Op::ApplyDestinationRule(d)),
            None => push_op(
                ops,
                Op::Remove { kind: ObjectKind::DestinationRule, name: owned(name.as_str()), removal: Removal::Lenient },
            ),
        }
    }
    let ok = networking.is_ok();
    networking_ops(ops, networking, name.as_str(), gateway_served);
    assert(op_views(ops@) =~= start + main_ops_of(m0, istio_served, gateway_served));
    proof {
        if no_fail(start) {
            let ma = main_apply_ops_of(m0, istio_served);
            let net = networking_ops_of(m0.networking, m0.name@, gateway_served);
            lemma_main_apply_no_fail(m0, istio_served);
            lemma_networking_fail(m0.networking, m0.name@, gateway_served);
            lemma_no_fail_concat(start, ma);
            lemma_append_ops(start + ma, net);
            assert(op_views(ops@) =~= (start + ma) + net);
        }
    }
    ok
}

/// Appends the writes of the worker role.
fn worker_ops(ops: &mut Vec<Op>, worker: WorkerPlan)
    ensures
        op_views(final(ops)@) == op_views(old(ops)@) + worker_ops_of(worker),
        no_fail(op_views(old(ops)@)) ==> no_fail(op_views(final(ops)@)),
{
    let ghost w0 = worker;
    let ghost start = op_views(ops@);
    let WorkerPlan { name, deployment, hpa } = worker;
    push_op(ops, Op::ApplyDeployment(deployment));
    match hpa {
        Some(h) => push_op(ops, Op::ApplyHpa(h)),
        None => push_op(
            ops,
            Op::Remove { kind: ObjectKind::HorizontalPodAutoscaler, name: owned(name.as_str()), removal: Removal::Strict },
        ),
    }
    assert(op_views(ops@) =~= start + worker_ops_of(w0));
    proof {
        if no_fail(start) {
            assert(no_fail(worker_ops_of(w0)));
            lemma_no_fail_concat(start, worker_ops_of(w0));
        }
    }
}

/// Appends the writes of the webhook role.
fn webhook_ops(ops: &mut Vec<Op>, webhook: Option<WebhookPlan>, cluster_name: &str, gateway_served: bool)
    ensures
        op_views(final(ops)@) == op_views(old(ops)@) + webhook_ops_of(webhook, cluster_name@, gateway_served),
        no_fail(op_views(old(ops)@)) ==> fail_is_last(op_views(final(ops)@)),
{
    let ghost h0 = webhook;
    let ghost start = op_views(ops@);
    match webhook {
        Some(wp) => {
            let WebhookPlan { name, deployment, service, networking } = wp;
            push_op(ops, Op::ApplyDeployment(deployment));
            push_op(ops, Op::ApplyService(service));
            networking_ops(ops, networking, name.as_str(), gateway_served);
        },
        None => {
            let n = webhook_name(cluster_name);
            push_op(ops, Op::Remove { kind: ObjectKind::Deployment, name: owned(n.as_str()), removal: Removal::Quiet });
            push_op(ops, Op::Remove { kind: ObjectKind::Service, name: owned(n.as_str()), removal: Removal::Quiet });
            push_op(ops, Op::Remove { kind: ObjectKind::Ingress, name: owned(n.as_str()), removal: Removal::Quiet });
            if gateway_served {
                push_op(ops, Op::RemoveRoutes(route_names(n.as_str())));
            }
        },
    }
    assert(op_views(ops@) =~= start + webhook_ops_of(h0, cluster_name@, gateway_served));
    proof {
        if no_fail(start) {
            let ho = webhook_ops_of(h0, cluster_name@, gateway_served);
            match h0 {
                Some(w) => {
                    let hhead = seq![OpView::ApplyDeployment(w.deployment), OpView::ApplyService(w.service)];
                    let hnet = networking_ops_of(w.networking, w.name@, gateway_served);
                    lemma_networking_fail(w.networking, w.name@, gateway_served);
                    assert(no_fail(hhead));
                    lemma_no_fail_concat(start, hhead);
                    lemma_fail_concat(start + hhead, hnet);
                    assert(op_views(ops@) =~= (start + hhead) + hnet);
                },
                None => {
                    assert(no_fail(ho));
                    lemma_no_fail_concat(start, ho);
                },
            }
        }
    }
}

/// No write is a `Fail`.
pub open spec fn no_fail(s: Seq<OpView>) -> bool {
    forall|i: int| 0 <= i < s.len() ==> !(#[trigger] s[i] is Fail)
}

proof fn lemma_no_fail_concat(a: Seq<OpView>, b: Seq<OpView>)
    requires
        no_fail(a),
        no_fail(b),
    ensures
        no_fail(a + b),
{
    assert forall|i: int| 0 <= i < (a + b).len() implies !(#[trigger] (a + b)[i] is Fail) by {
        if i >= a.len() {
            assert((a + b)[i] == b[i - a.len()]);
        } else {
            assert((a + b)[i] == a[i]);
        }
    }
}

proof fn lemma_main_apply_no_fail(p: MainPlan, istio_served: bool)
    ensures
        no_fail(main_apply_ops_of(p, istio_served)),
{
    let a = match p.pvc {
        Some(v) => seq![OpView::ApplyPvc(v)],
        None => Seq::<OpView>::empty(),
    };
    let b = seq![OpView::ApplyDeployment(p.deployment), OpView::ApplyService(p.service)];
    let c = if istio_served {
        match p.destination_rule {
            Some(d) => seq![OpView::ApplyDestinationRule(d)],
            None => seq![OpView::Remove(ObjectKind::DestinationRule, p.name@, Removal::Lenient)],
        }
    } else {
        Seq::<OpView>::empty()
    };
    assert(no_fail(a));
    assert(no_fail(b));
    assert(no_fail(c));
    lemma_no_fail_concat(a, b);
    lemma_no_fail_concat(a + b, c);
}

/// Appending `b` keeps "nothing follows a `Fail`" after a prefix without one,
/// and "no `Fail` at all" when `b` has none.
proof fn lemma_append_ops(a: Seq<OpView>, b: Seq<OpView>)
    requires
        no_fail(a),
    ensures
        fail_is_last(b) ==> fail_is_last(a + b),
        no_fail(b) ==> no_fail(a + b),
{
    if fail_is_last(b) {
        lemma_fail_concat(a, b);
    }
    if no_fail(b) {
        lemma_no_fail_concat(a, b);
    }
}

/// The writes that reconcile the children of a cluster named `cluster_name`, in order.
pub fn cluster_ops(
    nodes_pvc: Option<PvcModel>,
    binary_data_pvc: Option<PvcModel>,
    main: MainPlan,
    worker: WorkerPlan,
    webhook: Option<WebhookPlan>,
    cluster_name: &str,
    istio_served: bool,
    gateway_served: bool,
) -> (ops: Vec<Op>)
    ensures
        op_views(ops@) == cluster_ops_of(
            nodes_pvc,
            binary_data_pvc,
            main,
            worker,
            webhook,
            cluster_name@,
            istio_served,
            gateway_served,
        ),
        fail_is_last(op_views(ops@)),
{
    let ghost (m0, w0, h0) = (main, worker, webhook);
    let mut ops: Vec<Op> = Vec::new();
    if let Some(v) = nodes_pvc {
        push_op(&mut ops, Op::ApplyPvc(v));
    }
    if let Some(v) = binary_data_pvc {
        push_op(&mut ops, Op::ApplyPvc(v));
    }
    assert(no_fail(op_views(ops@)));
    let main_ok = main_ops(&mut ops, main, istio_served, gateway_served);
    if main_ok {
        worker_ops(&mut ops, worker);
        webhook_ops(&mut ops, webhook, cluster_name, gateway_served);
    }
    assert(op_views(ops@) =~= cluster_ops_of(
        nodes_pvc,
        binary_data_pvc,
        m0,
        w0,
        h0,
        cluster_name@,
        istio_served,
        gateway_served,
    ));
    ops
}

/// The writes planned for an accepted `Single` never end the pass on their own:
/// none of them is a `Fail`.
pub proof fn accepted_single_writes_do_not_fail(
    s: Single,
    p: SinglePlan,
    key_secret: SecretKeyRef,
    owner: OwnerRef,
    gateway_served: bool,
)
    requires
        single_check(s) is Ok,
        single_plan_is(p, s, key_secret, owner),
    ensures
        no_fail(single_ops_of(p, name_any_of(s.metadata), gateway_served)),
{
    accepted_single_has_networking_plan(s, p, key_secret, owner);
    lemma_networking_fail(p.networking, name_any_of(s.metadata), gateway_served);
    let head = (match p.pvc {
        Some(v) => seq![OpView::ApplyPvc(v)],
        None => Seq::<OpView>::empty(),
    }) + seq![OpView::ApplyDeployment(p.deployment), OpView::ApplyService(p.service)];
    assert(no_fail(head));
    lemma_no_fail_concat(head, networking_ops_of(p.networking, name_any_of(s.metadata), gateway_served));
}

/// Whether `o` is written at a position before `later` in `s`.
pub open spec fn written_before(s: Seq<OpView>, o: OpView, later: OpView) -> bool {
    exists|i: int, j: int| 0 <= i < j < s.len() && s[i] == o && s[j] == later
}

/// Every object planned for a `Single` is applied: its data claim (before the
/// Deployment that mounts it), its Deployment, its Service, and the Ingress and
/// HTTPRoutes of its networking; an Ingress or redirect route that is no longer
/// planned is removed, and so are both routes when the Gateway API is served but
/// no route is planned. A networking error ends the writes.
pub proof fn single_writes_apply_the_plan(p: SinglePlan, name: Seq<char>, gateway_served: bool)
    ensures
        ({
            let w = single_ops_of(p, name, gateway_served);
            &&& w.contains(OpView::ApplyDeployment(p.deployment))
            &&& w.contains(OpView::ApplyService(p.service))
            &&& (p.pvc matches Some(v) ==> written_before(
                w,
                OpView::ApplyPvc(v),
                OpView::ApplyDeployment(p.deployment),
            ))
            &&& (p.networking matches Ok(np) ==> {
                &&& (np.ingress matches Some(i) ==> w.contains(OpView::ApplyIngress(i)))
                &&& (np.ingress is None ==> w.contains(OpView::Remove(ObjectKind::Ingress, name, Removal::Strict)))
                &&& (np.route matches Some(rp) ==> {
                    &&& w.contains(OpView::ApplyHttpRoute(rp.primary))
                    &&& (rp.redirect matches Some(rr) ==> w.contains(OpView::ApplyHttpRoute(rr)))
                    &&& (rp.redirect is None ==> w.contains(
                        OpView::Remove(ObjectKind::HttpRoute, rp.redirect_name@, Removal::Lenient),
                    ))
                })
                &&& ((np.route is None && gateway_served) ==> w.contains(
                    OpView::RemoveRoutes(seq![name, name + "-redirect"@]),
                ))
            })
            &&& (p.networking matches Err(e) ==> w.last() == OpView::Fail(e))
        }),
{
    let w = single_ops_of(p, name, gateway_served);
    let k: int = if p.pvc is Some { 1 } else { 0 };
    let d = OpView::ApplyDeployment(p.deployment);
    assert(w[k] == d);
    assert(w[k + 1] == OpView::ApplyService(p.service));
    if let Some(v) = p.pvc {
        assert(w[0] == OpView::ApplyPvc(v));
        assert(0 < k && w[k] == d);
    }
    if let Ok(np) = p.networking {
        let n = networking_ops_of(p.networking, name, gateway_served);
        assert(w == (match p.pvc {
            Some(v) => seq![OpView::ApplyPvc(v)],
            None => Seq::<OpView>::empty(),
        }) + seq![OpView::ApplyDeployment(p.deployment), OpView::ApplyService(p.service)] + n);
        assert(w[k + 2] == n[0]);
        if let Some(i) = np.ingress {
            assert(n[0] == OpView::ApplyIngress(i));
        }
        if np.route is None && gateway_served {
            assert(w[k + 3] == n[1]);
        }
        if let Some(rp) = np.route {
            assert(n[1] == OpView::ApplyHttpRoute(rp.primary));
            assert(w[k + 3] == n[1]);
            assert(w[k + 4] == n[2]);
            if let Some(rr) = rp.redirect {
                assert(n[2] == OpView::ApplyHttpRoute(rr));
            }
        }
    }
    if let Err(e) = p.networking {
        let n = networking_ops_of(p.networking, name, gateway_served);
        assert(w == (match p.pvc {
            Some(v) => seq![OpView::ApplyPvc(v)],
            None => Seq::<OpView>::empty(),
        }) + seq![OpView::ApplyDeployment(p.deployment), OpView::ApplyService(p.service)] + n);
    }
}

/// Every object planned for the main role is applied: its data claim before its
/// Deployment, its Service, its DestinationRule when Istio is served, and the
/// Ingress and primary HTTPRoute of its networking.
pub proof fn main_writes_apply_the_plan(p: MainPlan, istio_served: bool, gateway_served: bool)
    ensures
        ({
            let w = main_ops_of(p, istio_served, gateway_served);
            &&& w.contains(OpView::ApplyDeployment(p.deployment))
            &&& w.contains(OpView::ApplyService(p.service))
            &&& (p.pvc matches Some(v) ==> written_before(
                w,
                OpView::ApplyPvc(v),
                OpView::ApplyDeployment(p.deployment),
            ))
            &&& (istio_served ==> (p.destination_rule matches Some(d) ==> w.contains(
                OpView::ApplyDestinationRule(d),
            )))
            &&& (p.networking matches Ok(np) ==> {
                &&& (np.ingress matches Some(i) ==> w.contains(OpView::ApplyIngress(i)))
                &&& (np.route matches Some(rp) ==> w.contains(OpView::ApplyHttpRoute(rp.primary)))
            })
        }),
{
    let w = main_ops_of(p, istio_served, gateway_served);
    let ma = main_apply_ops_of(p, istio_served);
    let n = networking_ops_of(p.networking, p.name@, gateway_served);
    let k: int = if p.pvc is Some { 1 } else { 0 };
    let d = OpView::ApplyDeployment(p.deployment);
    assert(w[k] == d);
    assert(w[k + 1] == OpView::ApplyService(p.service));
    if let Some(v) = p.pvc {
        assert(w[0] == OpView::ApplyPvc(v));
    }
    if istio_served {
        if let Some(dr) = p.destination_rule {
            assert(w[k + 2] == OpView::ApplyDestinationRule(dr));
        }
    }
    if let Ok(np) = p.networking {
        assert(w == ma + n);
        if let Some(i) = np.ingress {
            assert(n[0] == OpView::ApplyIngress(i));
            assert(w[ma.len() as int] == n[0]);
        }
        if let Some(rp) = np.route {
            assert(n[1] == OpView::ApplyHttpRoute(rp.primary));
            assert(w[ma.len() as int + 1] == n[1]);
        }
    }
}

/// Unless the main role's networking ends the pass, the worker Deployment and
/// its HPA (when planned) and the webhook role's Deployment and Service (when it
/// has one) are applied after the main role's writes, and so are the shared
/// claims, first of all. What is no longer planned is removed: a stale worker
/// HPA, the webhook role's Deployment, Service and Ingress when there is no
/// webhook role, and (where Istio is served) the DestinationRule of a single
/// main. A networking error of the main role ends the writes.
#[verifier::rlimit(60)]
pub proof fn cluster_writes_apply_the_plan(
    nodes_pvc: Option<PvcModel>,
    binary_data_pvc: Option<PvcModel>,
    main: MainPlan,
    worker: WorkerPlan,
    webhook: Option<WebhookPlan>,
    cluster_name: Seq<char>,
    istio_served: bool,
    gateway_served: bool,
)
    ensures
        ({
            let w = cluster_ops_of(nodes_pvc, binary_data_pvc, main, worker, webhook, cluster_name, istio_served, gateway_served);
            let n1: int = if nodes_pvc is Some { 1 } else { 0 };
            &&& (nodes_pvc matches Some(v) ==> w[0] == OpView::ApplyPvc(v))
            &&& (binary_data_pvc matches Some(v) ==> w[n1] == OpView::ApplyPvc(v))
            &&& w.contains(OpView::ApplyDeployment(main.deployment))
            &&& (main.networking is Ok ==> {
                &&& w.contains(OpView::ApplyDeployment(worker.deployment))
                &&& (worker.hpa matches Some(h) ==> w.contains(OpView::ApplyHpa(h)))
                &&& (worker.hpa is None ==> w.contains(
                    OpView::Remove(ObjectKind::HorizontalPodAutoscaler, worker.name@, Removal::Strict),
                ))
                &&& (webhook matches Some(hp) ==> {
                    &&& w.contains(OpView::ApplyDeployment(hp.deployment))
                    &&& w.contains(OpView::ApplyService(hp.service))
                })
                &&& (webhook is None ==> {
                    let hn = cluster_name + "-webhook"@;
                    &&& w.contains(OpView::Remove(ObjectKind::Deployment, hn, Removal::Quiet))
                    &&& w.contains(OpView::Remove(ObjectKind::Service, hn, Removal::Quiet))
                    &&& w.contains(OpView::Remove(ObjectKind::Ingress, hn, Removal::Quiet))
                })
            })
            &&& ((istio_served && main.destination_rule is None) ==> w.contains(
                OpView::Remove(ObjectKind::DestinationRule, main.name@, Removal::Lenient),
            ))
            &&& (main.networking matches Err(e) ==> w.last() == OpView::Fail(e))
        }),
{
    let n1: int = if nodes_pvc is Some { 1 } else { 0 };
    let n2: int = if binary_data_pvc is Some { 1 } else { 0 };
    let pv = (match nodes_pvc {
        Some(v) => seq![OpView::ApplyPvc(v)],
        None => Seq::<OpView>::empty(),
    }) + (match binary_data_pvc {
        Some(v) => seq![OpView::ApplyPvc(v)],
        None => Seq::<OpView>::empty(),
    });
    let mo = main_ops_of(main, istio_served, gateway_served);
    let w = cluster_ops_of(nodes_pvc, binary_data_pvc, main, worker, webhook, cluster_name, istio_served, gateway_served);
    main_writes_apply_the_plan(main, istio_served, gateway_served);
    let jm = choose|j: int| 0 <= j < mo.len() && mo[j] == OpView::ApplyDeployment(main.deployment);
    if main.networking is Ok {
        let wo = worker_ops_of(worker);
        let ho = webhook_ops_of(webhook, cluster_name, gateway_served);
        assert(w == pv + mo + (wo + ho));
        assert(w[pv.len() as int + jm] == mo[jm]);
        let base: int = (pv.len() + mo.len()) as int;
        let wl: int = wo.len() as int;
        assert(w[base] == OpView::ApplyDeployment(worker.deployment));
        if let Some(h) = worker.hpa {
            assert(w[base + 1] == OpView::ApplyHpa(h));
        }
        if worker.hpa is None {
            assert(w[base + 1] == OpView::Remove(ObjectKind::HorizontalPodAutoscaler, worker.name@, Removal::Strict));
        }
        if let Some(hp) = webhook {
            assert(w[base + wl] == OpView::ApplyDeployment(hp.deployment));
            assert(w[base + wl + 1] == OpView::ApplyService(hp.service));
        } else {
            let hn = cluster_name + "-webhook"@;
            assert(w[base + wl] == OpView::Remove(ObjectKind::Deployment, hn, Removal::Quiet));
            assert(w[base + wl + 1] == OpView::Remove(ObjectKind::Service, hn, Removal::Quiet));
            assert(w[base + wl + 2] == OpView::Remove(ObjectKind::Ingress, hn, Removal::Quiet));
        }
    } else {
        assert(w == pv + mo);
        assert(w[pv.len() as int + jm] == mo[jm]);
    }
    if istio_served && main.destination_rule is None {
        let ma = main_apply_ops_of(main, istio_served);
        let k: int = if main.pvc is Some { 1 } else { 0 };
        assert(mo[k + 2] == ma[k + 2]);
        assert(w[pv.len() as int + k + 2] == mo[k + 2]);
    }
    if let Err(e) = main.networking {
        assert(w == pv + mo);
        assert(mo.last() == OpView::Fail(e));
    }
    assert(pv.len() == n1 + n2);
}

} // verus!
