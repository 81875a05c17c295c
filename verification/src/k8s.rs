//! The managed service record, its sanitization for recreation, the
//! selection of managed records, and the classification of a delete
//! response.
//!
//! The cluster store itself lives outside this crate; callers read the
//! records, hand them in as plain values, and carry the sanitized copy
//! back to the store's create call.

use vstd::prelude::*;

verus! {

/// One port entry of a service record. `node_port` is cluster-assigned
/// and stays provisionally reserved for a grace period after deletion,
/// so a recreation must not replay it.
pub struct PortRecord {
    pub name: Option<String>,
    pub port: i32,
    pub node_port: Option<i32>,
}

/// The cluster-assigned network identifiers of a service record.
pub struct ServiceSpecRecord {
    pub cluster_ip: Option<String>,
    pub cluster_ips: Option<Vec<String>>,
    pub external_ips: Option<Vec<String>>,
    pub external_name: Option<String>,
    pub ip_families: Option<Vec<String>>,
    pub ports: Option<Vec<PortRecord>>,
}

/// One load-balancer service record under management, as read from the
/// cluster store. `annotations` carries the full annotation set; an
/// absent set is represented as an empty one. `creation_timestamp` and
/// `status` are opaque here: the reconciler only ever clears them.
pub struct ServiceRecord {
    pub name: Option<String>,
    pub namespace: Option<String>,
    pub uid: Option<String>,
    pub resource_version: Option<String>,
    pub creation_timestamp: Option<String>,
    pub annotations: Vec<(String, String)>,
    pub spec: Option<ServiceSpecRecord>,
    pub status: Option<String>,
}

/// Annotation keys holding provider-assigned bookkeeping state that must
/// not be replayed on recreation.
pub open spec fn denied_key(k: Seq<char>) -> bool {
    k == "kube-vip.io/requestedIP"@ || k == "kube-vip.io/hwaddr"@
}

/// Whether `k` is one of the deny-listed bookkeeping annotation keys.
pub fn is_denied_key(k: &String) -> (r: bool)
    ensures
        r == denied_key(k@),
{
    let requested: String = String::from_str("kube-vip.io/requestedIP");
    let hwaddr: String = String::from_str("kube-vip.io/hwaddr");
    k.eq(&requested) || k.eq(&hwaddr)
}

/// The annotation set with every deny-listed key removed and everything
/// else kept, order and values untouched.
pub open spec fn kept_annotations(anns: Seq<(String, String)>) -> Seq<(String, String)> {
    anns.filter(|kv: (String, String)| !denied_key(kv.0@))
}

/// A port entry sanitized for recreation: the cluster-assigned node
/// port is cleared, the rest preserved.
pub open spec fn port_sanitized(before: PortRecord, after: PortRecord) -> bool {
    &&& after.name == before.name
    &&& after.port == before.port
    &&& after.node_port is None
}

/// A spec block sanitized for recreation: every cluster-assigned
/// network identifier is cleared, and each port entry keeps its place
/// with its node port cleared.
pub open spec fn spec_sanitized(before: ServiceSpecRecord, after: ServiceSpecRecord) -> bool {
    &&& after.cluster_ip is None
    &&& after.cluster_ips is None
    &&& after.external_ips is None
    &&& after.external_name is None
    &&& after.ip_families is None
    &&& (before.ports is None <==> after.ports is None)
    &&& (before.ports matches Some(bp) ==> after.ports matches Some(ap) && ap@.len() == bp@.len()
        && (forall|i: int| 0 <= i < bp@.len() ==> port_sanitized(bp@[i], #[trigger] ap@[i])))
}

/// A record sanitized for recreation: identity is preserved, every
/// cluster-assigned field is cleared, deny-listed annotations are gone
/// and all others are untouched.
pub open spec fn record_sanitized(before: ServiceRecord, after: ServiceRecord) -> bool {
    &&& after.name == before.name
    &&& after.namespace == before.namespace
    &&& after.uid is None
    &&& after.resource_version is None
    &&& after.creation_timestamp is None
    &&& after.status is None
    &&& after.annotations@ == kept_annotations(before.annotations@)
    &&& (before.spec is None <==> after.spec is None)
    &&& (before.spec matches Some(bs) ==> after.spec matches Some(a) && spec_sanitized(bs, a))
}

/// Prepare a previously existing load-balancer service record for
/// recreation: clear the uid, creation timestamp, optimistic-concurrency
/// token and status, clear every cluster-assigned network identifier and
/// node port, drop the deny-listed bookkeeping annotations, and preserve
/// the name, namespace and every other annotation byte for byte. The
/// token is cleared because recreation is delete-then-create: the
/// submitted object is new.
pub fn reset(service: ServiceRecord) -> (r: ServiceRecord)
    ensures
        record_sanitized(service, r),
{
    let ServiceRecord {
        name,
        namespace,
        uid: _,
        resource_version: _,
        creation_timestamp: _,
        annotations,
        spec,
        status: _,
    } = service;

    let mut kept: Vec<(String, String)> = Vec::new();
    let mut j: usize = 0;
    while j < annotations.len()
        invariant
            j <= annotations@.len(),
            kept@ == kept_annotations(annotations@.take(j as int)),
        decreases annotations@.len() - j,
    {
        let pair = &annotations[j];
        let denied = is_denied_key(&pair.0);
        if !denied {
            kept.push((pair.0.clone(), pair.1.clone()));
        }
        proof {
            assert(annotations@.take(j as int + 1) =~= annotations@.take(j as int).push(
                annotations@[j as int],
            ));
            annotations@.take(j as int).lemma_filter_push(
                annotations@[j as int],
                |kv: (String, String)| !denied_key(kv.0@),
            );
        }
        j += 1;
    }
    proof {
        assert(annotations@.take(annotations@.len() as int) =~= annotations@);
    }

    let new_spec: Option<ServiceSpecRecord> = match spec {
        None => None,
        Some(s) => {
            let new_ports: Option<Vec<PortRecord>> = match s.ports {
                None => None,
                Some(ports) => {
                    let ghost old_ports = ports@;
                    let mut cleared: Vec<PortRecord> = Vec::new();
                    let mut remaining = ports;
                    while remaining.len() > 0
                        invariant
                            cleared@.len() + remaining@.len() == old_ports.len(),
                            remaining@ =~= old_ports.skip(cleared@.len() as int),
                            forall|i: int|
                                0 <= i < cleared@.len() ==> port_sanitized(
                                    old_ports[i],
                                    #[trigger] cleared@[i],
                                ),
                        decreases remaining@.len(),
                    {
                        let ghost before = remaining@;
                        proof {
                            assert(before[0] == old_ports[cleared@.len() as int]);
                        }
                        let p = remaining.remove(0);
                        proof {
                            assert(remaining@ =~= before.drop_first());
                        }
                        cleared.push(PortRecord { name: p.name, port: p.port, node_port: None });
                        proof {
                            assert(remaining@ =~= old_ports.skip(cleared@.len() as int));
                        }
                    }
                    Some(cleared)
                },
            };
            Some(
                ServiceSpecRecord {
                    cluster_ip: None,
                    cluster_ips: None,
                    external_ips: None,
                    external_name: None,
                    ip_families: None,
                    ports: new_ports,
                },
            )
        },
    };

    ServiceRecord {
        name,
        namespace,
        uid: None,
        resource_version: None,
        creation_timestamp: None,
        annotations: kept,
        spec: new_spec,
        status: None,
    }
}

/// Whether the annotation set holds an entry under `key`.
pub open spec fn has_annotation_key(anns: Seq<(String, String)>, key: Seq<char>) -> bool {
    exists|i: int| 0 <= i < anns.len() && anns[i].0@ == key
}

/// Whether an entry under `key` is present.
pub fn has_annotation(anns: &Vec<(String, String)>, key: &String) -> (r: bool)
    ensures
        r == has_annotation_key(anns@, key@),
{
    let mut j: usize = 0;
    while j < anns.len()
        invariant
            j <= anns@.len(),
            forall|i: int| 0 <= i < j ==> anns@[i].0@ != key@,
        decreases anns@.len() - j,
    {
        if anns[j].0.eq(key) {
            return true;
        }
        j += 1;
    }
    false
}

/// The value stored under `key`, if any; with several entries under the
/// same key, the first one counts.
pub fn annotation_value(anns: &Vec<(String, String)>, key: &String) -> (r: Option<String>)
    ensures
        r is Some <==> has_annotation_key(anns@, key@),
        r matches Some(v) ==> exists|i: int|
            0 <= i < anns@.len() && anns@[i].0@ == key@ && v@ == anns@[i].1@,
{
    let mut j: usize = 0;
    while j < anns.len()
        invariant
            j <= anns@.len(),
            forall|i: int| 0 <= i < j ==> anns@[i].0@ != key@,
        decreases anns@.len() - j,
    {
        if anns[j].0.eq(key) {
            return Some(anns[j].1.clone());
        }
        j += 1;
    }
    None
}

/// Retain exactly the records whose annotation set contains the
/// designated health-check key, in their listed order.
pub fn get_vip_services(services: Vec<ServiceRecord>, annotation: &String) -> (r: Vec<
    ServiceRecord,
>)
    ensures
        r@ == services@.filter(
            |s: ServiceRecord| has_annotation_key(s.annotations@, annotation@),
        ),
{
    let ghost orig = services@;
    let ghost pred = |s: ServiceRecord| has_annotation_key(s.annotations@, annotation@);
    let mut selected: Vec<ServiceRecord> = Vec::new();
    let mut remaining = services;
    while remaining.len() > 0
        invariant
            remaining@.len() <= orig.len(),
            remaining@ =~= orig.skip(orig.len() - remaining@.len()),
            selected@ == orig.take(orig.len() - remaining@.len()).filter(pred),
            pred == (|s: ServiceRecord| has_annotation_key(s.annotations@, annotation@)),
        decreases remaining@.len(),
    {
        let ghost taken = orig.len() - remaining@.len();
        let ghost before = remaining@;
        proof {
            assert(before[0] == orig[taken]);
        }
        let svc = remaining.remove(0);
        proof {
            assert(remaining@ =~= before.drop_first());
            assert(remaining@ =~= orig.skip(taken + 1));
        }
        let keep = has_annotation(&svc.annotations, annotation);
        if keep {
            selected.push(svc);
        }
        proof {
            assert(orig.take(taken + 1) =~= orig.take(taken).push(orig[taken]));
            orig.take(taken).lemma_filter_push(orig[taken], pred);
        }
    }
    proof {
        assert(orig.take(orig.len() as int) =~= orig);
    }
    selected
}

/// A record that the selection retained carries the health-check
/// hostname: looking its key up cannot come back empty.
pub proof fn lemma_selected_have_hostname(
    services: Seq<ServiceRecord>,
    key: Seq<char>,
    i: int,
)
    requires
        0 <= i < services.filter(|s: ServiceRecord| has_annotation_key(s.annotations@, key)).len(),
    ensures
        has_annotation_key(
            services.filter(|s: ServiceRecord| has_annotation_key(s.annotations@, key))[i]
                .annotations@,
            key,
        ),
{
    services.lemma_filter_pred(|s: ServiceRecord| has_annotation_key(s.annotations@, key), i);
}

/// The store's immediate answer to a foreground delete request.
pub enum DeleteResponse {
    /// The delete was accepted; the object's last-known state came back,
    /// with its uid when it carried one.
    Accepted { uid: Option<String> },
    /// The delete completed synchronously with a status outcome.
    Completed { failure: bool, reason: Option<String> },
}

/// What the deletion waiter must do next with a delete response.
pub enum DeleteStep {
    /// Block until the object with exactly this uid is gone from the
    /// store.
    AwaitGone { uid: String },
    /// The object is already gone; nothing to wait for.
    Finished,
    /// Fatal: the object may be in an inconsistent state and an operator
    /// must intervene.
    Fatal { reason: Option<String> },
}

/// Classify the store's answer to a foreground delete: an accepted
/// delete with a uid means waiting until that exact instance is gone
/// (guarding against a racing same-named recreation); an accepted
/// delete without a uid cannot be waited on safely and is fatal; a
/// synchronously completed delete is done if it succeeded and fatal if
/// it failed, never silently retried.
pub fn classify_delete_response(response: DeleteResponse) -> (r: DeleteStep)
    ensures
        response matches DeleteResponse::Accepted { uid: Some(u) } ==> r
            matches DeleteStep::AwaitGone { uid } && uid@ == u@,
        response matches DeleteResponse::Accepted { uid: None } ==> r
            matches DeleteStep::Fatal { reason } && reason is None,
        response matches DeleteResponse::Completed { failure: false, .. } ==> r is Finished,
        response matches DeleteResponse::Completed { failure: true, reason } ==> r
            matches DeleteStep::Fatal { reason: s } && s == reason,
{
    match response {
        DeleteResponse::Accepted { uid: Some(u) } => DeleteStep::AwaitGone { uid: u },
        DeleteResponse::Accepted { uid: None } => DeleteStep::Fatal { reason: None },
        DeleteResponse::Completed { failure, reason } => {
            if failure {
                DeleteStep::Fatal { reason }
            } else {
                DeleteStep::Finished
            }
        },
    }
}

} // verus!
