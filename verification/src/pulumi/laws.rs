//! What holds of every synthesis run.

use crate::pattern::first_captures;
use crate::pulumi::{
    conversion, resolved_image, ResolvedModel, REFERENCE_PATTERN,
    all_services, application_services, container_services, services_of_containers,
    sidecar_enabled, sidecar_name, synthesized,
};
use crate::serializer::{document_bytes, Language, ApplicationModel, ContainerModel, DaprModel, ImageModel, IngressModel, ServiceModel};
use vstd::prelude::*;

verus! {

/// The number of services that a container gives rise to.
pub open spec fn fan_out(dapr: Option<DaprModel>) -> int {
    if sidecar_enabled(dapr) {
        2
    } else {
        1
    }
}

/// Each container of an application gives rise to `fan_out` services, which
/// stand in the order of the containers; the first of them is the
/// container's own, under the container's name. Where the sidecar is
/// enabled the second is the sidecar's: it is named after the container,
/// with `_dapr` behind, and joins the container's network.
pub proof fn law_sidecar_fan_out(
    images: Seq<ImageModel>,
    containers: Seq<ContainerModel>,
    dapr: Option<DaprModel>,
    ingress: Option<IngressModel>,
)
    ensures
        services_of_containers(images, containers, dapr, ingress).len() == fan_out(dapr)
            * containers.len(),
        forall|i: int|
            0 <= i < containers.len() ==> (#[trigger] services_of_containers(
                images,
                containers,
                dapr,
                ingress,
            )[fan_out(dapr) * i]).name == containers[i].name,
        sidecar_enabled(dapr) ==> forall|i: int|
            0 <= i < containers.len() ==> {
                let sidecar = #[trigger] services_of_containers(images, containers, dapr, ingress)[2
                    * i + 1];
                &&& sidecar.name == sidecar_name(containers[i].name)
                &&& sidecar.network_mode == Some("service:"@ + containers[i].name)
            },
    decreases containers.len(),
{
    if containers.len() > 0 {
        let before = containers.drop_last();
        law_sidecar_fan_out(images, before, dapr, ingress);
        let head = services_of_containers(images, before, dapr, ingress);
        let tail = container_services(images, containers.last(), dapr, ingress);
        let whole = services_of_containers(images, containers, dapr, ingress);
        assert(whole == head + tail);
        assert(tail.len() == fan_out(dapr));
        assert forall|i: int| 0 <= i < containers.len() implies (#[trigger] whole[fan_out(dapr)
            * i]).name == containers[i].name by {
            if i < before.len() {
                assert(whole[fan_out(dapr) * i] == head[fan_out(dapr) * i]);
                assert(before[i] == containers[i]);
            } else {
                assert(whole[fan_out(dapr) * i] == tail[0]);
            }
        }
        if sidecar_enabled(dapr) {
            assert forall|i: int| 0 <= i < containers.len() implies {
                let sidecar = #[trigger] whole[2 * i + 1];
                &&& sidecar.name == sidecar_name(containers[i].name)
                &&& sidecar.network_mode == Some("service:"@ + containers[i].name)
            } by {
                if i < before.len() {
                    assert(whole[2 * i + 1] == head[2 * i + 1]);
                    assert(before[i] == containers[i]);
                } else {
                    assert(whole[2 * i + 1] == tail[1]);
                }
            }
        }
    }
}

/// The number of services that a list of applications gives rise to.
pub open spec fn service_count(apps: Seq<ApplicationModel>) -> int
    decreases apps.len(),
{
    if apps.len() == 0 {
        0
    } else {
        service_count(apps.drop_last()) + fan_out(apps.last().dapr()) * apps.last().containers().len()
    }
}

/// A run emits two services for each container of an application with the
/// sidecar enabled and one for each container of any other, and nothing
/// else.
pub proof fn law_service_count(images: Seq<ImageModel>, apps: Seq<ApplicationModel>)
    ensures
        all_services(images, apps).len() == service_count(apps),
        synthesized(apps, images) matches Some(services) ==> services.len() == service_count(apps),
    decreases apps.len(),
{
    if apps.len() > 0 {
        law_service_count(images, apps.drop_last());
        law_sidecar_fan_out(
            images,
            apps.last().containers(),
            apps.last().dapr(),
            apps.last().ingress(),
        );
    }
}

/// The names of a list of services, in order.
pub open spec fn service_names(services: Seq<ServiceModel>) -> Seq<Seq<char>> {
    services.map_values(|service: ServiceModel| service.name)
}

/// The containers of one application, each with whether its sidecar is
/// enabled.
pub open spec fn tagged(containers: Seq<ContainerModel>, dapr: Option<DaprModel>) -> Seq<
    (Seq<char>, bool),
> {
    containers.map_values(|container: ContainerModel| (container.name, sidecar_enabled(dapr)))
}

/// The containers of a list of applications, in order, each with whether
/// its sidecar is enabled.
pub open spec fn tagged_containers(apps: Seq<ApplicationModel>) -> Seq<(Seq<char>, bool)>
    decreases apps.len(),
{
    if apps.len() == 0 {
        Seq::empty()
    } else {
        tagged_containers(apps.drop_last()) + tagged(apps.last().containers(), apps.last().dapr())
    }
}

/// The names that one container claims: its own and, with a sidecar, the
/// sidecar's.
pub open spec fn claimed(container: (Seq<char>, bool)) -> Seq<Seq<char>> {
    if container.1 {
        seq![container.0, sidecar_name(container.0)]
    } else {
        seq![container.0]
    }
}

/// The names that a list of containers claims, in order.
pub open spec fn names_of(containers: Seq<(Seq<char>, bool)>) -> Seq<Seq<char>>
    decreases containers.len(),
{
    if containers.len() == 0 {
        Seq::empty()
    } else {
        names_of(containers.drop_last()) + claimed(containers.last())
    }
}

/// No two containers share a name, and no container bears the name of the
/// sidecar of a container.
pub open spec fn names_are_free(containers: Seq<(Seq<char>, bool)>) -> bool {
    &&& forall|i: int, j: int|
        0 <= i < j < containers.len() ==> (#[trigger] containers[i]).0 != (
        #[trigger] containers[j]).0
    &&& forall|i: int, j: int|
        0 <= i < containers.len() && 0 <= j < containers.len() && (#[trigger] containers[i]).1
            ==> (#[trigger] containers[j]).0 != sidecar_name(containers[i].0)
}

/// Whether `container` claims the name `name`.
pub open spec fn claims(container: (Seq<char>, bool), name: Seq<char>) -> bool {
    container.0 == name || (container.1 && sidecar_name(container.0) == name)
}

proof fn lemma_sidecar_name_differs(name: Seq<char>)
    ensures
        sidecar_name(name) != name,
{
    reveal_strlit("_dapr");
    assert(sidecar_name(name).len() == name.len() + 5);
}

proof fn lemma_sidecar_name_injective(a: Seq<char>, b: Seq<char>)
    requires
        sidecar_name(a) == sidecar_name(b),
    ensures
        a == b,
{
    reveal_strlit("_dapr");
    assert(sidecar_name(a).len() == a.len() + 5);
    assert(sidecar_name(b).len() == b.len() + 5);
    assert(a =~= sidecar_name(a).take(a.len() as int));
    assert(b =~= sidecar_name(b).take(b.len() as int));
}

proof fn lemma_names_of_concat(a: Seq<(Seq<char>, bool)>, b: Seq<(Seq<char>, bool)>)
    ensures
        names_of(a + b) == names_of(a) + names_of(b),
    decreases b.len(),
{
    if b.len() == 0 {
        assert(a + b =~= a);
        assert(names_of(a) + names_of(b) =~= names_of(a));
    } else {
        lemma_names_of_concat(a, b.drop_last());
        assert((a + b).drop_last() =~= a + b.drop_last());
        assert((a + b).last() == b.last());
        assert(names_of(a + b) =~= names_of(a) + names_of(b));
    }
}

/// The names of the services of one application are the names that its
/// containers claim.
proof fn lemma_container_names(
    images: Seq<ImageModel>,
    containers: Seq<ContainerModel>,
    dapr: Option<DaprModel>,
    ingress: Option<IngressModel>,
)
    ensures
        service_names(services_of_containers(images, containers, dapr, ingress)) == names_of(
            tagged(containers, dapr),
        ),
    decreases containers.len(),
{
    if containers.len() == 0 {
        assert(service_names(services_of_containers(images, containers, dapr, ingress))
            =~= names_of(tagged(containers, dapr)));
    } else {
        lemma_container_names(images, containers.drop_last(), dapr, ingress);
        let head = services_of_containers(images, containers.drop_last(), dapr, ingress);
        let tail = container_services(images, containers.last(), dapr, ingress);
        assert(tagged(containers, dapr).drop_last() =~= tagged(containers.drop_last(), dapr));
        assert(service_names(tail) =~= claimed(tagged(containers, dapr).last()));
        assert(service_names(head + tail) =~= service_names(head) + service_names(tail));
    }
}

/// The names of the services of a run are the names that the containers of
/// its applications claim, in order: which images there are has no part in
/// it.
pub proof fn law_service_names(images: Seq<ImageModel>, apps: Seq<ApplicationModel>)
    ensures
        service_names(all_services(images, apps)) == names_of(tagged_containers(apps)),
    decreases apps.len(),
{
    if apps.len() == 0 {
        assert(service_names(all_services(images, apps)) =~= names_of(tagged_containers(apps)));
    } else {
        law_service_names(images, apps.drop_last());
        let head = all_services(images, apps.drop_last());
        let tail = application_services(images, apps.last());
        lemma_container_names(
            images,
            apps.last().containers(),
            apps.last().dapr(),
            apps.last().ingress(),
        );
        lemma_names_of_concat(
            tagged_containers(apps.drop_last()),
            tagged(apps.last().containers(), apps.last().dapr()),
        );
        assert(service_names(head + tail) =~= service_names(head) + service_names(tail));
    }
}

/// A name is among those claimed exactly if some container claims it.
proof fn lemma_claimed_names(containers: Seq<(Seq<char>, bool)>, name: Seq<char>)
    ensures
        names_of(containers).contains(name) <==> exists|k: int|
            0 <= k < containers.len() && claims(#[trigger] containers[k], name),
    decreases containers.len(),
{
    if containers.len() > 0 {
        let before = containers.drop_last();
        let last = containers.last();
        lemma_claimed_names(before, name);
        let head = names_of(before);
        let tail = claimed(last);
        let whole = names_of(containers);
        assert(whole == head + tail);
        if whole.contains(name) {
            let p = choose|p: int| 0 <= p < whole.len() && whole[p] == name;
            if p < head.len() {
                assert(head[p] == name);
                assert(head.contains(name));
                let k = choose|k: int| 0 <= k < before.len() && claims(#[trigger] before[k], name);
                assert(claims(containers[k], name));
            } else {
                assert(tail[p - head.len()] == name);
                assert(claims(containers[containers.len() - 1], name));
            }
        }
        if exists|k: int| 0 <= k < containers.len() && claims(#[trigger] containers[k], name) {
            let k = choose|k: int| 0 <= k < containers.len() && claims(#[trigger] containers[k], name);
            if k < before.len() {
                assert(claims(before[k], name));
                assert(head.contains(name));
                let p = choose|p: int| 0 <= p < head.len() && head[p] == name;
                assert(whole[p] == name);
            } else {
                if last.0 == name {
                    assert(whole[head.len() as int] == tail[0]);
                } else {
                    assert(whole[(head.len() + 1) as int] == tail[1]);
                }
            }
        }
    }
}

/// The names claimed by a list of containers are all different exactly if
/// the names of the containers are free.
proof fn lemma_free_names(containers: Seq<(Seq<char>, bool)>)
    ensures
        names_of(containers).no_duplicates() <==> names_are_free(containers),
    decreases containers.len(),
{
    if containers.len() > 0 {
        let before = containers.drop_last();
        let last = containers.last();
        let end = containers.len() - 1;
        lemma_free_names(before);
        let head = names_of(before);
        let tail = claimed(last);
        let whole = names_of(containers);
        assert(whole == head + tail);
        lemma_sidecar_name_differs(last.0);
        assert forall|k: int| 0 <= k < before.len() implies before[k] == containers[k] by {}
        if names_are_free(containers) {
            assert(names_are_free(before)) by {
                assert forall|i: int, j: int| 0 <= i < j < before.len() implies (
                #[trigger] before[i]).0 != (#[trigger] before[j]).0 by {
                    assert(containers[i].0 != containers[j].0);
                }
                assert forall|i: int, j: int|
                    0 <= i < before.len() && 0 <= j < before.len() && (
                    #[trigger] before[i]).1 implies (#[trigger] before[j]).0 != sidecar_name(
                    before[i].0,
                ) by {
                    assert(containers[i].1);
                    assert(containers[j].0 != sidecar_name(containers[i].0));
                }
            }
            assert forall|p: int, q: int|
                0 <= p < whole.len() && 0 <= q < whole.len() && p != q implies whole[p]
                != whole[q] by {
                let (low, high) = if p < q {
                    (p, q)
                } else {
                    (q, p)
                };
                if high < head.len() {
                    assert(head[low] != head[high]);
                } else if low < head.len() {
                    let name = head[low];
                    assert(head.contains(name));
                    lemma_claimed_names(before, name);
                    let k = choose|k: int|
                        0 <= k < before.len() && claims(#[trigger] before[k], name);
                    assert(containers[k] == before[k]);
                    assert(containers[end] == last);
                    if high == head.len() {
                        if before[k].0 == name {
                            assert(containers[k].0 != containers[end].0);
                        } else {
                            assert(containers[k].1);
                            assert(containers[end].0 != sidecar_name(containers[k].0));
                        }
                    } else {
                        assert(last.1);
                        assert(whole[high] == sidecar_name(last.0));
                        if before[k].0 == name {
                            assert(containers[end].1);
                            assert(containers[k].0 != sidecar_name(containers[end].0));
                        } else {
                            assert(containers[k].0 != containers[end].0);
                            if sidecar_name(before[k].0) == sidecar_name(last.0) {
                                lemma_sidecar_name_injective(before[k].0, last.0);
                            }
                        }
                    }
                } else {
                    assert(whole[low] == tail[low - head.len()]);
                    assert(whole[high] == tail[high - head.len()]);
                }
            }
        }
        if whole.no_duplicates() {
            assert(head.no_duplicates()) by {
                assert forall|p: int, q: int|
                    0 <= p < head.len() && 0 <= q < head.len() && p != q implies head[p]
                    != head[q] by {
                    assert(whole[p] != whole[q]);
                }
            }
            assert(names_are_free(before));
            assert(whole[head.len() as int] == last.0);
            assert forall|i: int, j: int| 0 <= i < j < containers.len() implies (
            #[trigger] containers[i]).0 != (#[trigger] containers[j]).0 by {
                if j < end {
                    assert(before[i].0 != before[j].0);
                } else {
                    let name = containers[i].0;
                    assert(claims(before[i], name));
                    lemma_claimed_names(before, name);
                    let p = choose|p: int| 0 <= p < head.len() && head[p] == name;
                    assert(whole[p] != whole[head.len() as int]);
                }
            }
            assert forall|i: int, j: int|
                0 <= i < containers.len() && 0 <= j < containers.len() && (
                #[trigger] containers[i]).1 implies (#[trigger] containers[j]).0 != sidecar_name(
                containers[i].0,
            ) by {
                if i < end && j < end {
                    assert(before[i].1);
                    assert(before[j].0 != sidecar_name(before[i].0));
                } else if i == end && j < end {
                    let name = containers[j].0;
                    assert(claims(before[j], name));
                    lemma_claimed_names(before, name);
                    let p = choose|p: int| 0 <= p < head.len() && head[p] == name;
                    assert(whole[(head.len() + 1) as int] == sidecar_name(last.0));
                    assert(whole[p] != whole[(head.len() + 1) as int]);
                } else if i < end && j == end {
                    let name = sidecar_name(containers[i].0);
                    assert(claims(before[i], name));
                    lemma_claimed_names(before, name);
                    let p = choose|p: int| 0 <= p < head.len() && head[p] == name;
                    assert(whole[p] != whole[head.len() as int]);
                } else {
                }
            }
        }
    } else {
        assert(names_of(containers).no_duplicates());
    }
}

/// No two services of a run share a name, provided that no two containers
/// share a name and that no container bears the name of a sidecar; and on
/// every other input two services do share one.
pub proof fn law_unique_service_names(images: Seq<ImageModel>, apps: Seq<ApplicationModel>)
    ensures
        service_names(all_services(images, apps)).no_duplicates() <==> names_are_free(
            tagged_containers(apps),
        ),
{
    law_service_names(images, apps);
    lemma_free_names(tagged_containers(apps));
}

/// Converting the same input again gives the same: two outcomes that the
/// conversion of one input in one language can have are the same services,
/// written as the same bytes, or the same message.
pub proof fn law_conversion_repeats(
    language: Language,
    input: Seq<char>,
    first: Result<Seq<ServiceModel>, Seq<char>>,
    second: Result<Seq<ServiceModel>, Seq<char>>,
)
    requires
        first == conversion(language, input),
        second == conversion(language, input),
    ensures
        first == second,
        first matches Ok(services) ==> document_bytes(services) == document_bytes(second->Ok_0),
{
}

/// An image expression that is no reference is the name of the image,
/// whatever images there are and whatever they are read from.
pub proof fn law_literal_image(images: Seq<ImageModel>, expression: Seq<char>)
    requires
        first_captures(REFERENCE_PATTERN@, expression) is None,
    ensures
        resolved_image(images, expression) == ResolvedModel::literal(expression),
{
}

} // verus!
