//! Reading blueprints out of structured data.
//!
//! A blueprint is read from a table. A key that the blueprint does not know
//! is passed over; an optional field may be missing or null; a field that is
//! there must be of the kind the blueprint expects, or the table does not
//! match the blueprint.

use crate::document::{lemma_list_view, Node, Tree};
use crate::serializer::{
    ApplicationModel, BuildContextBluePrint, ConfigurationBluePrint, ConfigurationModel,
    ContainerAppBluePrint, ContainerBluePrint, ContainerImageBluePrint, ContainerModel,
    DaprBluePrint, DaprModel, ImageModel, IngressBluePrint, IngressModel, TemplateBluePrint,
    TemplateModel,
};
use vstd::prelude::*;

verus! {

/// The optional text under `key`: `None` where something other than a text
/// stands there.
pub open spec fn optional_text(tree: Tree, key: Seq<char>) -> Option<Option<Seq<char>>> {
    match tree.given(key) {
        None => Some(None),
        Some(value) => match value.as_text() {
            Some(text) => Some(Some(text)),
            None => None,
        },
    }
}

/// The optional truth value under `key`: `None` where something other than
/// a truth value stands there.
pub open spec fn optional_flag(tree: Tree, key: Seq<char>) -> Option<Option<bool>> {
    match tree.given(key) {
        None => Some(None),
        Some(value) => match value.as_flag() {
            Some(flag) => Some(Some(flag)),
            None => None,
        },
    }
}

/// The optional port under `key`: `None` where something other than a
/// whole number from 0 up to 2^32 - 1 stands there.
pub open spec fn optional_port(tree: Tree, key: Seq<char>) -> Option<Option<u32>> {
    match tree.given(key) {
        None => Some(None),
        Some(value) => match value.as_port() {
            Some(port) => Some(Some(port)),
            None => None,
        },
    }
}

/// The text under `key`, which must be there.
pub open spec fn required_text(tree: Tree, key: Seq<char>) -> Option<Seq<char>> {
    match tree.given(key) {
        None => None,
        Some(value) => value.as_text(),
    }
}

/// Reads the optional text under `key`.
pub fn read_optional_text(node: &Node, key: &str) -> (read: Option<Option<String>>)
    ensures
        read.deep_view() == optional_text(node@, key@),
{
    match node.given(key) {
        None => Some(None),
        Some(value) => match value {
            Node::Text(text) => Some(Some(text.clone())),
            _ => None,
        },
    }
}

/// Reads the optional truth value under `key`.
pub fn read_optional_flag(node: &Node, key: &str) -> (read: Option<Option<bool>>)
    ensures
        read == optional_flag(node@, key@),
{
    match node.given(key) {
        None => Some(None),
        Some(value) => match value {
            Node::Bool(flag) => Some(Some(*flag)),
            _ => None,
        },
    }
}

/// Reads the optional port under `key`.
pub fn read_optional_port(node: &Node, key: &str) -> (read: Option<Option<u32>>)
    ensures
        read == optional_port(node@, key@),
{
    match node.given(key) {
        None => Some(None),
        Some(value) => match value {
            Node::Number(Some(number)) => {
                if *number <= 0xffff_ffff {
                    Some(Some(*number as u32))
                } else {
                    None
                }
            },
            _ => None,
        },
    }
}

/// Reads the text under `key`, which must be there.
pub fn read_required_text(node: &Node, key: &str) -> (read: Option<String>)
    ensures
        read.deep_view() == required_text(node@, key@),
{
    match node.given(key) {
        None => None,
        Some(value) => match value {
            Node::Text(text) => Some(text.clone()),
            _ => None,
        },
    }
}

/// The sidecar settings that a tree holds, if it matches their blueprint:
/// a table with an optional port `appPort`, an optional truth value
/// `enabled` and an optional text `appId`.
pub open spec fn decoded_dapr(tree: Tree) -> Option<DaprModel> {
    if tree is Table && optional_port(tree, "appPort"@) is Some && optional_flag(
        tree,
        "enabled"@,
    ) is Some && optional_text(tree, "appId"@) is Some {
        Some(
            DaprModel {
                app_port: optional_port(tree, "appPort"@)->0,
                enabled: optional_flag(tree, "enabled"@)->0,
                app_id: optional_text(tree, "appId"@)->0,
            },
        )
    } else {
        None
    }
}

/// Reads sidecar settings.
pub fn decode_dapr(node: &Node) -> (read: Option<DaprBluePrint>)
    ensures
        read.deep_view() == decoded_dapr(node@),
{
    match node {
        Node::Table(_) => {
            let app_port = read_optional_port(node, "appPort");
            let enabled = read_optional_flag(node, "enabled");
            let app_id = read_optional_text(node, "appId");
            match (app_port, enabled, app_id) {
                (Some(app_port), Some(enabled), Some(app_id)) => Some(
                    DaprBluePrint { app_port, enabled, app_id },
                ),
                _ => None,
            }
        },
        _ => None,
    }
}

/// The ingress settings that a tree holds, if it matches their blueprint:
/// a table with an optional truth value `external` and an optional port
/// `targetPort`.
pub open spec fn decoded_ingress(tree: Tree) -> Option<IngressModel> {
    if tree is Table && optional_flag(tree, "external"@) is Some && optional_port(
        tree,
        "targetPort"@,
    ) is Some {
        Some(
            IngressModel {
                external: optional_flag(tree, "external"@)->0,
                target_port: optional_port(tree, "targetPort"@)->0,
            },
        )
    } else {
        None
    }
}

/// Reads ingress settings.
pub fn decode_ingress(node: &Node) -> (read: Option<IngressBluePrint>)
    ensures
        read.deep_view() == decoded_ingress(node@),
{
    match node {
        Node::Table(_) => {
            let external = read_optional_flag(node, "external");
            let target_port = read_optional_port(node, "targetPort");
            match (external, target_port) {
                (Some(external), Some(target_port)) => Some(
                    IngressBluePrint { external, target_port },
                ),
                _ => None,
            }
        },
        _ => None,
    }
}

/// The optional ingress settings under `key`.
pub open spec fn optional_ingress(tree: Tree, key: Seq<char>) -> Option<Option<IngressModel>> {
    match tree.given(key) {
        None => Some(None),
        Some(value) => match decoded_ingress(value) {
            Some(ingress) => Some(Some(ingress)),
            None => None,
        },
    }
}

/// The optional sidecar settings under `key`.
pub open spec fn optional_dapr(tree: Tree, key: Seq<char>) -> Option<Option<DaprModel>> {
    match tree.given(key) {
        None => Some(None),
        Some(value) => match decoded_dapr(value) {
            Some(dapr) => Some(Some(dapr)),
            None => None,
        },
    }
}

/// The configuration that a tree holds, if it matches its blueprint: a
/// table with optional ingress settings `ingress` and optional sidecar
/// settings `dapr`.
pub open spec fn decoded_configuration(tree: Tree) -> Option<ConfigurationModel> {
    if tree is Table && optional_ingress(tree, "ingress"@) is Some && optional_dapr(
        tree,
        "dapr"@,
    ) is Some {
        Some(
            ConfigurationModel {
                ingress: optional_ingress(tree, "ingress"@)->0,
                dapr: optional_dapr(tree, "dapr"@)->0,
            },
        )
    } else {
        None
    }
}

/// Reads a configuration.
pub fn decode_configuration(node: &Node) -> (read: Option<ConfigurationBluePrint>)
    ensures
        read.deep_view() == decoded_configuration(node@),
{
    match node {
        Node::Table(_) => {
            let ingress = match node.given("ingress") {
                None => Some(None),
                Some(value) => match decode_ingress(value) {
                    Some(ingress) => Some(Some(ingress)),
                    None => None,
                },
            };
            let dapr = match node.given("dapr") {
                None => Some(None),
                Some(value) => match decode_dapr(value) {
                    Some(dapr) => Some(Some(dapr)),
                    None => None,
                },
            };
            match (ingress, dapr) {
                (Some(ingress), Some(dapr)) => Some(ConfigurationBluePrint { ingress, dapr }),
                _ => None,
            }
        },
        _ => None,
    }
}

/// The container that a tree holds, if it matches its blueprint: a table
/// with a text `image` and a text `name`.
pub open spec fn decoded_container(tree: Tree) -> Option<ContainerModel> {
    if tree is Table && required_text(tree, "image"@) is Some && required_text(
        tree,
        "name"@,
    ) is Some {
        Some(
            ContainerModel {
                image: required_text(tree, "image"@)->0,
                name: required_text(tree, "name"@)->0,
            },
        )
    } else {
        None
    }
}

/// Reads a container.
pub fn decode_container(node: &Node) -> (read: Option<ContainerBluePrint>)
    ensures
        read.deep_view() == decoded_container(node@),
{
    match node {
        Node::Table(_) => {
            let image = read_required_text(node, "image");
            let name = read_required_text(node, "name");
            match (image, name) {
                (Some(image), Some(name)) => Some(ContainerBluePrint { image, name }),
                _ => None,
            }
        },
        _ => None,
    }
}

/// The containers that a list of trees holds, in order, if each of them
/// matches the blueprint.
pub open spec fn decoded_containers(items: Seq<Tree>) -> Option<Seq<ContainerModel>>
    decreases items.len(),
{
    if items.len() == 0 {
        Some(Seq::empty())
    } else {
        match (decoded_containers(items.drop_last()), decoded_container(items.last())) {
            (Some(before), Some(last)) => Some(before.push(last)),
            _ => None,
        }
    }
}

/// Once some item does not match, the list does not either.
proof fn lemma_containers_mismatch(items: Seq<Tree>, upto: int)
    requires
        0 <= upto <= items.len(),
        decoded_containers(items.take(upto)) is None,
    ensures
        decoded_containers(items) is None,
    decreases items.len() - upto,
{
    if upto < items.len() {
        assert(items.take(upto + 1).drop_last() =~= items.take(upto));
        lemma_containers_mismatch(items, upto + 1);
    } else {
        assert(items.take(upto) =~= items);
    }
}

/// The optional list of containers under `key`.
pub open spec fn optional_containers(tree: Tree, key: Seq<char>) -> Option<
    Option<Seq<ContainerModel>>,
> {
    match tree.given(key) {
        None => Some(None),
        Some(Tree::List(items)) => match decoded_containers(items) {
            Some(containers) => Some(Some(containers)),
            None => None,
        },
        Some(_) => None,
    }
}

/// Reads a list of containers.
pub fn decode_containers(items: &Vec<Node>) -> (read: Option<Vec<ContainerBluePrint>>)
    ensures
        read.deep_view() == decoded_containers(items.deep_view()),
{
    let ghost all = items.deep_view();
    let mut containers: Vec<ContainerBluePrint> = Vec::new();
    let mut i: usize = 0;
    assert(all.take(0) =~= Seq::<Tree>::empty());
    assert(containers.deep_view() =~= Seq::<ContainerModel>::empty());
    while i < items.len()
        invariant
            i <= items.len(),
            all == items.deep_view(),
            decoded_containers(all.take(i as int)) == Some(containers.deep_view()),
        decreases items.len() - i,
    {
        let ghost before = containers.deep_view();
        assert(all.take(i + 1).drop_last() =~= all.take(i as int));
        assert(all.take(i + 1).last() == items@[i as int]@);
        match decode_container(&items[i]) {
            Some(container) => {
                containers.push(container);
                assert(containers.deep_view() =~= before.push(container.deep_view()));
            },
            None => {
                proof {
                    lemma_containers_mismatch(all, i + 1);
                }
                return None;
            },
        }
        i += 1;
    }
    assert(all.take(all.len() as int) =~= all);
    Some(containers)
}

/// The template that a tree holds, if it matches its blueprint: a table
/// with an optional list of containers `containers`.
pub open spec fn decoded_template(tree: Tree) -> Option<TemplateModel> {
    if tree is Table && optional_containers(tree, "containers"@) is Some {
        Some(TemplateModel { containers: optional_containers(tree, "containers"@)->0 })
    } else {
        None
    }
}

/// Reads a template.
pub fn decode_template(node: &Node) -> (read: Option<TemplateBluePrint>)
    ensures
        read.deep_view() == decoded_template(node@),
{
    match node {
        Node::Table(_) => match node.given("containers") {
            None => Some(TemplateBluePrint { containers: None }),
            Some(value) => match value {
                Node::List(items) => {
                    proof {
                        lemma_list_view(*items);
                        assert(value@->List_0 =~= items.deep_view());
                    }
                    match decode_containers(items) {
                        Some(containers) => Some(
                            TemplateBluePrint { containers: Some(containers) },
                        ),
                        None => None,
                    }
                },
                _ => None,
            },
        },
        _ => None,
    }
}

/// The optional configuration under `key`.
pub open spec fn optional_configuration(tree: Tree, key: Seq<char>) -> Option<
    Option<ConfigurationModel>,
> {
    match tree.given(key) {
        None => Some(None),
        Some(value) => match decoded_configuration(value) {
            Some(configuration) => Some(Some(configuration)),
            None => None,
        },
    }
}

/// The optional template under `key`.
pub open spec fn optional_template(tree: Tree, key: Seq<char>) -> Option<Option<TemplateModel>> {
    match tree.given(key) {
        None => Some(None),
        Some(value) => match decoded_template(value) {
            Some(template) => Some(Some(template)),
            None => None,
        },
    }
}

/// Whether a template is there and lists its containers.
pub open spec fn lists_containers(template: Option<Option<TemplateModel>>) -> bool {
    template matches Some(Some(given)) && given.containers is Some
}

/// The application that a tree holds, if it matches its blueprint: a table
/// with an optional configuration `configuration` and a template `template`
/// that lists its containers. An application without a template, or with a
/// template without a list of containers, does not match.
pub open spec fn decoded_application(tree: Tree) -> Option<ApplicationModel> {
    if tree is Table && optional_configuration(tree, "configuration"@) is Some
        && lists_containers(optional_template(tree, "template"@)) {
        Some(
            ApplicationModel {
                configuration: optional_configuration(tree, "configuration"@)->0,
                template: optional_template(tree, "template"@)->0,
            },
        )
    } else {
        None
    }
}

/// An application that was read has a template that lists its containers.
pub proof fn law_application_lists_containers(tree: Tree)
    ensures
        decoded_application(tree) matches Some(app) ==> app.template matches Some(template)
            && template.containers is Some,
{
}

/// Reads an application.
pub fn decode_application(node: &Node) -> (read: Option<ContainerAppBluePrint>)
    ensures
        read.deep_view() == decoded_application(node@),
{
    match node {
        Node::Table(_) => {
            let configuration = match node.given("configuration") {
                None => Some(None),
                Some(value) => match decode_configuration(value) {
                    Some(configuration) => Some(Some(configuration)),
                    None => None,
                },
            };
            let template = match node.given("template") {
                None => Some(None),
                Some(value) => match decode_template(value) {
                    Some(template) => Some(Some(template)),
                    None => None,
                },
            };
            match (configuration, template) {
                (Some(configuration), Some(Some(template))) => {
                    if template.containers.is_some() {
                        Some(ContainerAppBluePrint { configuration, template: Some(template) })
                    } else {
                        None
                    }
                },
                _ => None,
            }
        },
        _ => None,
    }
}

/// The build context that a tree holds, if it matches its blueprint: a
/// table with a text `context`.
pub open spec fn decoded_build(tree: Tree) -> Option<Seq<char>> {
    if tree is Table {
        required_text(tree, "context"@)
    } else {
        None
    }
}

/// The optional build context under `key`.
pub open spec fn optional_build(tree: Tree, key: Seq<char>) -> Option<Option<Seq<char>>> {
    match tree.given(key) {
        None => Some(None),
        Some(value) => match decoded_build(value) {
            Some(context) => Some(Some(context)),
            None => None,
        },
    }
}

/// The image that a tree holds, if it matches its blueprint: a table with
/// an optional text `name`, an optional build context `build` and an
/// optional text `reference_name`.
pub open spec fn decoded_image(tree: Tree) -> Option<ImageModel> {
    if tree is Table && optional_text(tree, "name"@) is Some && optional_build(
        tree,
        "build"@,
    ) is Some && optional_text(tree, "reference_name"@) is Some {
        Some(
            ImageModel {
                name: optional_text(tree, "name"@)->0,
                build: optional_build(tree, "build"@)->0,
                reference_name: optional_text(tree, "reference_name"@)->0,
            },
        )
    } else {
        None
    }
}

/// Reads a build context.
pub fn decode_build(node: &Node) -> (read: Option<BuildContextBluePrint>)
    ensures
        read.deep_view() == decoded_build(node@),
{
    match node {
        Node::Table(_) => match read_required_text(node, "context") {
            Some(context) => Some(BuildContextBluePrint { context }),
            None => None,
        },
        _ => None,
    }
}

/// Reads an image.
pub fn decode_image(node: &Node) -> (read: Option<ContainerImageBluePrint>)
    ensures
        read.deep_view() == decoded_image(node@),
{
    match node {
        Node::Table(_) => {
            let name = read_optional_text(node, "name");
            let build = match node.given("build") {
                None => Some(None),
                Some(value) => match decode_build(value) {
                    Some(build) => Some(Some(build)),
                    None => None,
                },
            };
            let reference_name = read_optional_text(node, "reference_name");
            match (name, build, reference_name) {
                (Some(name), Some(build), Some(reference_name)) => Some(
                    ContainerImageBluePrint { name, build, reference_name },
                ),
                _ => None,
            }
        },
        _ => None,
    }
}

} // verus!
