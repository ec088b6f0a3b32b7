//! Every object a reconcile pass applies is owned by its custom resource, so
//! that deleting the resource collects it, and labelled as managed by the
//! operator.
use vstd::prelude::*;
use crate::labels::common_labels_map;
use crate::objects::{ObjectMetaModel, OwnerRef};
use crate::reconciler::cluster::{
    BundlePlan, MainPlan, WebhookPlan, WorkerPlan, bundle_plan_is, main_plan_is, webhook_plan_is, worker_plan_is,
};
use crate::reconciler::networking::{NetworkingPlan, networking_plan_is};
use crate::reconciler::ops::{
    OpView, cluster_ops_of, main_apply_ops_of, main_ops_of, networking_ops_of, single_ops_of, webhook_ops_of,
    worker_ops_of,
};
use crate::reconciler::single::{SinglePlan, single_plan_is};
use crate::error::Error;
use crate::spec::{Cluster, NetworkingSpec, SecretKeyRef, Single};
use crate::spec::meta::name_any_of;

verus! {

/// The label key that names an object's manager.
pub open spec fn managed_by_key() -> Seq<char> {
    "app.kubernetes.io/managed-by"@
}

/// The full label set of any object names the operator as its manager.
pub proof fn common_labels_name_the_operator(name: Seq<char>, image: Seq<char>, component: Seq<char>)
    ensures
        common_labels_map(name, image, component).contains_key(managed_by_key()),
        common_labels_map(name, image, component)[managed_by_key()] == "n8n-rustful-operator"@,
{
    reveal_strlit("app.kubernetes.io/managed-by");
    reveal_strlit("app.kubernetes.io/part-of");
    reveal_strlit("app.kubernetes.io/component");
    reveal_strlit("app.kubernetes.io/version");
    assert(managed_by_key().len() == 28);
    assert("app.kubernetes.io/part-of"@.len() == 25);
    assert("app.kubernetes.io/component"@.len() == 27);
    assert("app.kubernetes.io/version"@.len() == 25);
}

/// The metadata of the object an operation applies; none for a removal or a `Fail`.
pub open spec fn applied_meta(o: OpView) -> Option<ObjectMetaModel> {
    match o {
        OpView::ApplyPvc(m) => Some(m.meta),
        OpView::ApplyDeployment(m) => Some(m.meta),
        OpView::ApplyService(m) => Some(m.meta),
        OpView::ApplyIngress(m) => Some(m.meta),
        OpView::ApplyHttpRoute(m) => Some(m.meta),
        OpView::ApplyDestinationRule(m) => Some(m.meta),
        OpView::ApplyHpa(m) => Some(m.meta),
        _ => None,
    }
}

/// Owned by `owner` and labelled as managed by the operator.
pub open spec fn owned_by(m: ObjectMetaModel, owner: OwnerRef) -> bool {
    &&& m.owner == owner
    &&& m.labels@.contains_key(managed_by_key())
    &&& m.labels@[managed_by_key()] == "n8n-rustful-operator"@
}

/// Every object the operations apply is owned by `owner` and managed by the operator.
pub open spec fn all_owned(s: Seq<OpView>, owner: OwnerRef) -> bool {
    forall|i: int|
        0 <= i < s.len() ==> match applied_meta(#[trigger] s[i]) {
            Some(m) => owned_by(m, owner),
            None => true,
        }
}

proof fn lemma_concat(a: Seq<OpView>, b: Seq<OpView>, owner: OwnerRef)
    requires
        all_owned(a, owner),
        all_owned(b, owner),
    ensures
        all_owned(a + b, owner),
{
    assert forall|i: int| 0 <= i < (a + b).len() implies match applied_meta(#[trigger] (a + b)[i]) {
        Some(m) => owned_by(m, owner),
        None => true,
    } by {
        if i < a.len() {
            assert((a + b)[i] == a[i]);
        } else {
            assert((a + b)[i] == b[i - a.len()]);
        }
    }
}

proof fn lemma_meta(m: ObjectMetaModel, name: Seq<char>, image: Seq<char>, component: Seq<char>, owner: OwnerRef)
    requires
        m.owner == owner,
        m.labels@ == common_labels_map(name, image, component),
    ensures
        owned_by(m, owner),
{
    common_labels_name_the_operator(name, image, component);
}

proof fn lemma_networking(
    r: Result<NetworkingPlan, Error>,
    name: Seq<char>,
    image: Seq<char>,
    component: Seq<char>,
    host: Option<Seq<char>>,
    net: Option<NetworkingSpec>,
    owner: OwnerRef,
    op_name: Seq<char>,
    gateway_served: bool,
)
    requires
        networking_plan_is(r, name, image, component, host, net, owner),
    ensures
        all_owned(networking_ops_of(r, op_name, gateway_served), owner),
{
    if let Ok(p) = r {
        let n = net->0;
        if let Some(i) = p.ingress {
            lemma_meta(i.meta, name, image, component + "-ingress"@, owner);
        }
        if let Some(rp) = p.route {
            lemma_meta(rp.primary.meta, name, image, "http-route"@, owner);
            if let Some(rr) = rp.redirect {
                lemma_meta(rr.meta, name + "-redirect"@, image, "http-redirect"@, owner);
            }
        }
    }
}

/// Every object a pass applies for a `Single` is owned by it and labelled as
/// managed by the operator.
pub proof fn single_writes_are_owned(
    s: Single,
    p: SinglePlan,
    key_secret: SecretKeyRef,
    owner: OwnerRef,
    gateway_served: bool,
)
    requires
        single_plan_is(p, s, key_secret, owner),
    ensures
        all_owned(single_ops_of(p, name_any_of(s.metadata), gateway_served), owner),
{
    let name = name_any_of(s.metadata);
    let spec = s.spec;
    let a = match p.pvc {
        Some(v) => seq![OpView::ApplyPvc(v)],
        None => Seq::<OpView>::empty(),
    };
    if let Some(v) = p.pvc {
        lemma_meta(v.meta, name, spec.image@, "data"@, owner);
    }
    let b = seq![OpView::ApplyDeployment(p.deployment), OpView::ApplyService(p.service)];
    lemma_meta(p.deployment.meta, name, spec.image@, "workflow-engine"@, owner);
    lemma_meta(p.service.meta, name, spec.image@, "workflow-engine"@, owner);
    assert(all_owned(b, owner));
    lemma_networking(
        p.networking,
        name,
        spec.image@,
        "workflow-engine"@,
        match spec.host {
            Some(h) => Some(h@),
            None => None,
        },
        spec.networking,
        owner,
        name,
        gateway_served,
    );
    lemma_concat(a, b, owner);
    lemma_concat(a + b, networking_ops_of(p.networking, name, gateway_served), owner);
}

proof fn lemma_main(
    c: Cluster,
    cluster_name: Seq<char>,
    ns: Seq<char>,
    bp: BundlePlan,
    main: MainPlan,
    owner: OwnerRef,
    istio_served: bool,
    gateway_served: bool,
)
    requires
        main_plan_is(main, c, cluster_name, ns, bp.bundle, owner),
    ensures
        all_owned(main_ops_of(main, istio_served, gateway_served), owner),
{
    let m = c.spec.main;
    let name = cluster_name + "-main"@;
    let image = crate::reconciler::cluster::role_image(m.image, c);
    if let Some(v) = main.pvc {
        lemma_meta(v.meta, name, image, "data"@, owner);
    }
    lemma_meta(main.deployment.meta, name, image, "main"@, owner);
    lemma_meta(main.service.meta, name, image, "main"@, owner);
    if let Some(d) = main.destination_rule {
        lemma_meta(d.meta, name, image, "main"@, owner);
    }
    let ma = main_apply_ops_of(main, istio_served);
    let a = match main.pvc {
        Some(v) => seq![OpView::ApplyPvc(v)],
        None => Seq::<OpView>::empty(),
    };
    let b = seq![OpView::ApplyDeployment(main.deployment), OpView::ApplyService(main.service)];
    let d = if istio_served {
        match main.destination_rule {
            Some(d) => seq![OpView::ApplyDestinationRule(d)],
            None => seq![
                OpView::Remove(crate::reconciler::ops::ObjectKind::DestinationRule, main.name@, crate::reconciler::ops::Removal::Lenient),
            ],
        }
    } else {
        Seq::<OpView>::empty()
    };
    assert(all_owned(a, owner));
    assert(all_owned(b, owner));
    assert(all_owned(d, owner));
    lemma_concat(a, b, owner);
    lemma_concat(a + b, d, owner);
    assert(ma == a + b + d);
    lemma_networking(
        main.networking,
        name,
        image,
        "main"@,
        match m.host {
            Some(h) => Some(h@),
            None => None,
        },
        m.networking,
        owner,
        main.name@,
        gateway_served,
    );
    lemma_concat(ma, networking_ops_of(main.networking, main.name@, gateway_served), owner);
}

proof fn lemma_webhook(
    c: Cluster,
    cluster_name: Seq<char>,
    bp: BundlePlan,
    webhook: Option<WebhookPlan>,
    owner: OwnerRef,
    gateway_served: bool,
)
    requires
        webhook_plan_is(webhook, c, cluster_name, bp.bundle, owner),
    ensures
        all_owned(webhook_ops_of(webhook, cluster_name, gateway_served), owner),
{
    if let Some(wp) = webhook {
        let w = c.spec.webhooks->0;
        let name = cluster_name + "-webhook"@;
        let image = crate::reconciler::cluster::role_image(w.image, c);
        lemma_meta(wp.deployment.meta, name, image, "webhook"@, owner);
        lemma_meta(wp.service.meta, name, image, "webhook"@, owner);
        let b = seq![OpView::ApplyDeployment(wp.deployment), OpView::ApplyService(wp.service)];
        assert(all_owned(b, owner));
        lemma_networking(
            wp.networking,
            name,
            image,
            "webhook"@,
            match w.host {
                Some(h) => Some(h@),
                None => None,
            },
            w.networking,
            owner,
            wp.name@,
            gateway_served,
        );
        lemma_concat(b, networking_ops_of(wp.networking, wp.name@, gateway_served), owner);
    }
}

/// Every object a pass applies for a `Cluster` (its shared claims and the
/// objects of its main, worker and webhook roles) is owned by it and labelled
/// as managed by the operator.
pub proof fn cluster_writes_are_owned(
    c: Cluster,
    cluster_name: Seq<char>,
    ns: Seq<char>,
    key_secret: SecretKeyRef,
    owner: OwnerRef,
    bp: BundlePlan,
    main: MainPlan,
    worker: WorkerPlan,
    webhook: Option<WebhookPlan>,
    istio_served: bool,
    gateway_served: bool,
)
    requires
        bundle_plan_is(bp, c, cluster_name, key_secret, owner),
        main_plan_is(main, c, cluster_name, ns, bp.bundle, owner),
        worker_plan_is(worker, c, cluster_name, bp.bundle, owner),
        webhook_plan_is(webhook, c, cluster_name, bp.bundle, owner),
    ensures
        all_owned(
            cluster_ops_of(
                bp.nodes_pvc,
                bp.binary_data_pvc,
                main,
                worker,
                webhook,
                cluster_name,
                istio_served,
                gateway_served,
            ),
            owner,
        ),
{
    let n1 = match bp.nodes_pvc {
        Some(v) => seq![OpView::ApplyPvc(v)],
        None => Seq::<OpView>::empty(),
    };
    let n2 = match bp.binary_data_pvc {
        Some(v) => seq![OpView::ApplyPvc(v)],
        None => Seq::<OpView>::empty(),
    };
    if let Some(v) = bp.nodes_pvc {
        lemma_meta(v.meta, cluster_name, c.spec.image@, "nodes"@, owner);
    }
    if let Some(v) = bp.binary_data_pvc {
        lemma_meta(v.meta, cluster_name, c.spec.image@, "nodes"@, owner);
    }
    assert(all_owned(n1, owner));
    assert(all_owned(n2, owner));
    lemma_concat(n1, n2, owner);
    lemma_main(c, cluster_name, ns, bp, main, owner, istio_served, gateway_served);
    let mo = main_ops_of(main, istio_served, gateway_served);
    lemma_concat(n1 + n2, mo, owner);
    if main.networking is Ok {
        let w = c.spec.workers;
        let wname = cluster_name + "-worker"@;
        let wimage = crate::reconciler::cluster::role_image(w.image, c);
        lemma_meta(worker.deployment.meta, wname, wimage, "worker"@, owner);
        if let Some(h) = worker.hpa {
            lemma_meta(h.meta, wname, wimage, "worker"@, owner);
        }
        let wo = worker_ops_of(worker);
        assert(all_owned(wo, owner));
        lemma_webhook(c, cluster_name, bp, webhook, owner, gateway_served);
        let ho = webhook_ops_of(webhook, cluster_name, gateway_served);
        lemma_concat(wo, ho, owner);
        lemma_concat(n1 + n2 + mo, wo + ho, owner);
    } else {
        assert(n1 + n2 + mo + Seq::<OpView>::empty() =~= n1 + n2 + mo);
    }
}

} // verus!
