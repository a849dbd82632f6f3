//! Service synthesis: from the blueprints of a resource graph to the
//! services of a local multi-container description.
//!
//! A container names its image either literally or by a reference to an
//! image resource, `${name.property}`. [`build_image_for_serialization`]
//! follows the reference, [`build_ports_mapping_for_serialization`] decides
//! which ports are published, and [`parse_app_configuration`] emits the
//! service of a container and, where the sidecar is enabled, the service of
//! its sidecar. [`build_configuration`] does so for every container of every
//! application, in order.

use crate::pattern::{find_first, first_captures, group, group_text};
use crate::serializer::{
    ApplicationModel, BuildContext, Language, Serializer, ContainerAppBluePrint, ContainerAppConfiguration,
    ContainerBluePrint, ContainerImageBluePrint, ContainerModel, DaprBluePrint, DaprModel,
    ImageModel, IngressBluePrint, IngressModel, ServiceModel,
};
use crate::text::{decimal, decimal_of, joined, replace_text, replaced, same_text};
use vstd::prelude::*;

pub mod js;
pub mod laws;
pub mod yaml;

verus! {

/// The pattern of a reference to a resource's property.
pub const REFERENCE_PATTERN: &'static str = r"\$\{(.+)\.(.+)\}";

/// The pattern of a build context: a reference, a slash, an image directory.
pub const BUILD_CONTEXT_PATTERN: &'static str = r"(\$\{.+\})(/)(.+)";

/// The placeholder for the directory of the project.
pub const WORKING_DIRECTORY: &'static str = "${pulumi.cwd}";

/// The image that runs a sidecar.
pub const SIDECAR_IMAGE: &'static str = "daprio/daprd:edge";

/// A resource as a container names it: the resource's name and, where the
/// expression was a reference, the property referred to.
#[derive(Debug, PartialEq)]
pub struct Resource {
    pub name: String,
    pub property: Option<String>,
}

/// What a [`Resource`] stands for.
pub struct ResourceModel {
    pub name: Seq<char>,
    pub property: Option<Seq<char>>,
}

impl View for Resource {
    type V = ResourceModel;

    open spec fn view(&self) -> ResourceModel {
        ResourceModel { name: self.name@, property: self.property.deep_view() }
    }
}

/// An image as a service uses it: either the name of an image to pull, or
/// the directory to build one from.
#[derive(Debug, PartialEq)]
pub struct DockerImageForPulumi {
    pub name: Option<String>,
    pub path: Option<String>,
    pub is_context: bool,
}

/// What a [`DockerImageForPulumi`] stands for.
pub struct ResolvedModel {
    pub name: Option<Seq<char>>,
    pub path: Option<Seq<char>>,
    pub is_context: bool,
}

impl ResolvedModel {
    /// Exactly one of the name and the path is set, and the path is set
    /// where the image is built.
    pub open spec fn well_formed(self) -> bool {
        &&& self.is_context <==> self.path is Some
        &&& self.name is Some <==> self.path is None
    }

    /// The image with a literal name.
    pub open spec fn literal(name: Seq<char>) -> ResolvedModel {
        ResolvedModel { name: Some(name), path: None, is_context: false }
    }

    /// The image built from a directory.
    pub open spec fn built_from(path: Seq<char>) -> ResolvedModel {
        ResolvedModel { name: None, path: Some(path), is_context: true }
    }
}

impl View for DockerImageForPulumi {
    type V = ResolvedModel;

    open spec fn view(&self) -> ResolvedModel {
        ResolvedModel {
            name: self.name.deep_view(),
            path: self.path.deep_view(),
            is_context: self.is_context,
        }
    }
}

impl DeepView for DockerImageForPulumi {
    type V = ResolvedModel;

    open spec fn deep_view(&self) -> ResolvedModel {
        self.view()
    }
}

/// The resource that an image expression names, given the match of
/// [`REFERENCE_PATTERN`] in it: the first group is the name and the second
/// the property; without a match the expression itself is the name.
pub open spec fn resource_of(
    expression: Seq<char>,
    found: Option<Seq<Option<Seq<char>>>>,
) -> ResourceModel {
    match found {
        Some(groups) => ResourceModel {
            name: group_text(groups, 1),
            property: Some(group_text(groups, 2)),
        },
        None => ResourceModel { name: expression, property: None },
    }
}

/// Reads the resource out of the match of [`REFERENCE_PATTERN`] in `s`.
pub fn resource_from_captures(s: String, found: Option<Vec<Option<String>>>) -> (resource:
    Resource)
    ensures
        resource@ == resource_of(s@, found.deep_view()),
{
    match found {
        Some(groups) => {
            let name = group(&groups, 1);
            let property = group(&groups, 2);
            Resource { name, property: Some(property) }
        },
        None => Resource { name: s, property: None },
    }
}

/// Reads the resource that an image expression names.
pub fn extract_and_parse_resource_name(s: String) -> (resource: Result<Resource, ()>)
    ensures
        resource is Ok,
        resource->Ok_0@ == resource_of(s@, first_captures(REFERENCE_PATTERN@, s@)),
{
    let found = find_first(REFERENCE_PATTERN, s.as_str());
    Ok(resource_from_captures(s, found))
}

/// The first image whose reference name is `reference`.
pub open spec fn image_named(images: Seq<ImageModel>, reference: Seq<char>) -> Option<ImageModel>
    decreases images.len(),
{
    if images.len() == 0 {
        None
    } else if images[0].reference_name == Some(reference) {
        Some(images[0])
    } else {
        image_named(images.skip(1), reference)
    }
}

/// Finds the first image whose reference name is `reference`.
pub fn find_image<'a>(images: &'a Vec<ContainerImageBluePrint>, reference: &str) -> (found: Option<
    &'a ContainerImageBluePrint,
>)
    ensures
        found.deep_view() == image_named(images.deep_view(), reference@),
{
    let ghost all = images.deep_view();
    let mut i: usize = 0;
    assert(all.skip(0) == all);
    while i < images.len()
        invariant
            i <= images.len(),
            all == images.deep_view(),
            image_named(all.skip(i as int), reference@) == image_named(all, reference@),
        decreases images.len() - i,
    {
        assert(all.skip(i as int).skip(1) == all.skip(i + 1));
        assert(all.skip(i as int)[0] == images@[i as int].deep_view());
        let same = match &images[i].reference_name {
            Some(name) => same_text(name.as_str(), reference),
            None => false,
        };
        if same {
            return Some(&images[i]);
        }
        i += 1;
    }
    None
}

/// The directory to build from, given the match of
/// [`BUILD_CONTEXT_PATTERN`] in a build context: the first group with the
/// project's directory written as `.`, a slash, and the third group. There is
/// none without a match, or where either group is empty.
pub open spec fn context_path(found: Option<Seq<Option<Seq<char>>>>) -> Option<Seq<char>> {
    match found {
        Some(groups) => if group_text(groups, 1).len() == 0 || group_text(groups, 3).len() == 0 {
            None
        } else {
            Some(
                replaced(group_text(groups, 1), WORKING_DIRECTORY@, "."@) + "/"@ + group_text(
                    groups,
                    3,
                ),
            )
        },
        None => None,
    }
}

/// Builds the directory to build from out of the match of
/// [`BUILD_CONTEXT_PATTERN`] in a build context.
pub fn context_from_captures(found: Option<Vec<Option<String>>>) -> (path: Option<String>)
    ensures
        path.deep_view() == context_path(found.deep_view()),
{
    match found {
        Some(groups) => {
            let directory = group(&groups, 1);
            let image = group(&groups, 3);
            if directory.as_str().is_empty() || image.as_str().is_empty() {
                None
            } else {
                let resolved = replace_text(directory.as_str(), WORKING_DIRECTORY, ".");
                let with_slash = joined(resolved.as_str(), "/");
                Some(joined(with_slash.as_str(), image.as_str()))
            }
        },
        None => None,
    }
}

/// What a reference to the resource `reference` resolves to, where an image
/// of that name is known: the directory its build context gives, or without
/// a build context the image's own name (the reference itself where it has
/// none). An image whose build context is not of the expected shape resolves
/// to nothing.
pub open spec fn matched_reference(images: Seq<ImageModel>, reference: Seq<char>) -> Option<
    ResolvedModel,
> {
    match image_named(images, reference) {
        Some(image) => match image.build {
            Some(context) => match context_path(first_captures(BUILD_CONTEXT_PATTERN@, context)) {
                Some(path) => Some(ResolvedModel::built_from(path)),
                None => None,
            },
            None => Some(
                ResolvedModel::literal(
                    match image.name {
                        Some(name) => name,
                        None => reference,
                    },
                ),
            ),
        },
        None => None,
    }
}

/// Resolves a reference against the images of the resource graph.
pub fn check_and_match_reference(images: &Vec<ContainerImageBluePrint>, reference: &str) -> (found:
    Option<DockerImageForPulumi>)
    ensures
        found.deep_view() == matched_reference(images.deep_view(), reference@),
{
    match find_image(images, reference) {
        Some(image) => match &image.build {
            Some(build) => {
                let captures = find_first(BUILD_CONTEXT_PATTERN, build.context.as_str());
                match context_from_captures(captures) {
                    Some(path) => Some(
                        DockerImageForPulumi { name: None, path: Some(path), is_context: true },
                    ),
                    None => None,
                }
            },
            None => {
                let name = match &image.name {
                    Some(name) => name.clone(),
                    None => String::from_str(reference),
                };
                Some(DockerImageForPulumi { name: Some(name), path: None, is_context: false })
            },
        },
        None => None,
    }
}

/// The image that a resource stands for, as a container names it. Where
/// the container's expression was no reference, its text is the name of the
/// image and nothing is looked up. Where it was a reference, the image is what
/// the reference resolves to, or else the name referred to, taken literally.
pub open spec fn referred_image(images: Seq<ImageModel>, resource: ResourceModel) -> ResolvedModel {
    match resource.property {
        None => ResolvedModel::literal(resource.name),
        Some(_) => match matched_reference(images, resource.name) {
            Some(image) => image,
            None => ResolvedModel::literal(resource.name),
        },
    }
}

/// The image of a container whose image expression is `expression`.
pub open spec fn resolved_image(images: Seq<ImageModel>, expression: Seq<char>) -> ResolvedModel {
    referred_image(
        images,
        resource_of(expression, first_captures(REFERENCE_PATTERN@, expression)),
    )
}

/// Resolving always gives either a name or a directory, never both.
pub proof fn law_resolved_image_well_formed(images: Seq<ImageModel>, expression: Seq<char>)
    ensures
        resolved_image(images, expression).well_formed(),
{
}

/// Resolves the resource that a container names.
pub fn resolve_resource(images: &Vec<ContainerImageBluePrint>, resource: Resource) -> (image:
    DockerImageForPulumi)
    ensures
        image@ == referred_image(images.deep_view(), resource@),
        image@.well_formed(),
{
    if resource.property.is_none() {
        return DockerImageForPulumi { name: Some(resource.name), path: None, is_context: false };
    }
    match check_and_match_reference(images, resource.name.as_str()) {
        Some(image) => image,
        None => DockerImageForPulumi { name: Some(resource.name), path: None, is_context: false },
    }
}

/// Resolves the image of a container.
pub fn build_image_for_serialization(
    images: &Vec<ContainerImageBluePrint>,
    container: &ContainerBluePrint,
) -> (image: DockerImageForPulumi)
    ensures
        image@ == resolved_image(images.deep_view(), container@.image),
        image@.well_formed(),
{
    let parsed = extract_and_parse_resource_name(container.image.clone());
    let resource = match parsed {
        Ok(resource) => resource,
        Err(_) => Resource { name: container.image.clone(), property: None },
    };
    resolve_resource(images, resource)
}

/// One container with the settings of its application.
pub struct AppConfiguration<'a> {
    pub container: &'a ContainerBluePrint,
    pub dapr_configuration: Option<&'a DaprBluePrint>,
    pub ingress_configuration: Option<&'a IngressBluePrint>,
}

/// Whether the sidecar is enabled.
pub open spec fn sidecar_enabled(dapr: Option<DaprModel>) -> bool {
    dapr is Some && dapr->0.enabled == Some(true)
}

/// Whether the application is exposed to the outside.
pub open spec fn ingress_exposed(ingress: Option<IngressModel>) -> bool {
    ingress is Some && ingress->0.external == Some(true)
}

/// The port that the sidecar talks to, if one is configured.
pub open spec fn sidecar_port(dapr: Option<DaprModel>) -> Option<u32> {
    match dapr {
        Some(dapr) => dapr.app_port,
        None => None,
    }
}

/// The port that ingress targets, if one is configured.
pub open spec fn target_port(ingress: Option<IngressModel>) -> Option<u32> {
    match ingress {
        Some(ingress) => ingress.target_port,
        None => None,
    }
}

/// A port as it is written: in decimal, 0 where none is configured.
pub open spec fn port_text(port: Option<u32>) -> Seq<char> {
    match port {
        Some(port) => decimal_of(port as nat),
        None => decimal_of(0),
    }
}

/// The published ports of a container. Only an exposed application
/// publishes any. With the sidecar enabled, the ingress port is mapped to the
/// sidecar's port, and only for the container that the sidecar is declared
/// for; without it, the ingress port is mapped to itself.
pub open spec fn port_mapping(
    container_name: Seq<char>,
    dapr: Option<DaprModel>,
    ingress: Option<IngressModel>,
) -> Option<Seq<Seq<char>>> {
    if !ingress_exposed(ingress) {
        None
    } else if sidecar_enabled(dapr) {
        if dapr->0.app_id == Some(container_name) {
            Some(seq![port_text(target_port(ingress)) + ":"@ + port_text(sidecar_port(dapr))])
        } else {
            None
        }
    } else {
        Some(seq![port_text(target_port(ingress)) + ":"@ + port_text(target_port(ingress))])
    }
}

/// Writes a port in decimal, 0 where none is configured.
pub fn format_port(port: Option<u32>) -> (text: String)
    ensures
        text@ == port_text(port),
{
    match port {
        Some(port) => decimal(port),
        None => decimal(0),
    }
}

/// The list that holds the one text `only`.
pub fn single_text(only: String) -> (list: Vec<String>)
    ensures
        list.deep_view() == seq![only@],
{
    let mut list: Vec<String> = Vec::new();
    list.push(only);
    assert(list.deep_view() =~= seq![only@]);
    list
}

/// Writes the mapping of the port `outer` to the port `inner`.
pub fn format_mapping(outer: Option<u32>, inner: Option<u32>) -> (text: String)
    ensures
        text@ == port_text(outer) + ":"@ + port_text(inner),
{
    let left = format_port(outer);
    let with_colon = joined(left.as_str(), ":");
    let right = format_port(inner);
    joined(with_colon.as_str(), right.as_str())
}

/// Decides the published ports of a container, and hands back the port
/// that the sidecar talks to.
pub fn build_ports_mapping_for_serialization(configuration: AppConfiguration) -> (result: (
    Option<u32>,
    Option<Vec<String>>,
))
    ensures
        result.0 == sidecar_port(configuration.dapr_configuration.deep_view()),
        result.1.deep_view() == port_mapping(
            configuration.container@.name,
            configuration.dapr_configuration.deep_view(),
            configuration.ingress_configuration.deep_view(),
        ),
{
    let dapr_app_port = match configuration.dapr_configuration {
        Some(dapr) => dapr.app_port,
        None => None,
    };
    let ingress_app_port = match configuration.ingress_configuration {
        Some(ingress) => ingress.target_port,
        None => None,
    };
    let has_dapr_enabled = match configuration.dapr_configuration {
        Some(dapr) => match dapr.enabled {
            Some(enabled) => enabled,
            None => false,
        },
        None => false,
    };
    let has_ingress_exposed = match configuration.ingress_configuration {
        Some(ingress) => match ingress.external {
            Some(external) => external,
            None => false,
        },
        None => false,
    };
    if !has_ingress_exposed {
        return (dapr_app_port, None);
    }
    if has_dapr_enabled {
        let has_right_target = match configuration.dapr_configuration {
            Some(dapr) => match &dapr.app_id {
                Some(app_id) => same_text(app_id.as_str(), configuration.container.name.as_str()),
                None => false,
            },
            None => false,
        };
        if has_right_target {
            let mapping = format_mapping(ingress_app_port, dapr_app_port);
            (dapr_app_port, Some(single_text(mapping)))
        } else {
            (dapr_app_port, None)
        }
    } else {
        let mapping = format_mapping(ingress_app_port, ingress_app_port);
        (dapr_app_port, Some(single_text(mapping)))
    }
}

/// The name of the sidecar of the container `container_name`.
pub open spec fn sidecar_name(container_name: Seq<char>) -> Seq<char> {
    container_name + "_dapr"@
}

/// The service of a container. Beside a sidecar it waits for the placement
/// service and joins the sidecar network.
pub open spec fn container_service(
    container_name: Seq<char>,
    image: ResolvedModel,
    ports: Option<Seq<Seq<char>>>,
    with_sidecar: bool,
) -> ServiceModel {
    ServiceModel {
        name: container_name,
        depends_on: if with_sidecar {
            Some(seq!["placement"@])
        } else {
            None
        },
        networks: if with_sidecar {
            Some(seq!["dapr-network"@])
        } else {
            None
        },
        image: image.name,
        environment: None,
        ports,
        command: None,
        network_mode: None,
        build: if image.is_context {
            image.path
        } else {
            None
        },
    }
}

/// The command line of the sidecar of a container.
pub open spec fn sidecar_command(container_name: Seq<char>, port: Option<u32>) -> Seq<Seq<char>> {
    seq![
        "./daprd"@,
        "-app-id"@,
        container_name,
        "-app-port"@,
        port_text(port),
        "-placement-host-address"@,
        "placement:50006"@,
        "air"@,
    ]
}

/// The service of the sidecar of a container: it waits for the container,
/// shares its network, and publishes no port of its own.
pub open spec fn sidecar_service(container_name: Seq<char>, port: Option<u32>) -> ServiceModel {
    ServiceModel {
        name: sidecar_name(container_name),
        depends_on: Some(seq![container_name]),
        networks: None,
        image: Some(SIDECAR_IMAGE@),
        environment: None,
        ports: None,
        command: Some(sidecar_command(container_name, port)),
        network_mode: Some("service:"@ + container_name),
        build: None,
    }
}

/// The services of one container, given its image: its own and, where the
/// sidecar is enabled, that of the sidecar after it.
pub open spec fn services_with_image(
    container_name: Seq<char>,
    image: ResolvedModel,
    dapr: Option<DaprModel>,
    ingress: Option<IngressModel>,
) -> Seq<ServiceModel> {
    let ports = port_mapping(container_name, dapr, ingress);
    if sidecar_enabled(dapr) {
        seq![
            container_service(container_name, image, ports, true),
            sidecar_service(container_name, sidecar_port(dapr)),
        ]
    } else {
        seq![container_service(container_name, image, ports, false)]
    }
}

/// The services of one container of an application.
pub open spec fn container_services(
    images: Seq<ImageModel>,
    container: ContainerModel,
    dapr: Option<DaprModel>,
    ingress: Option<IngressModel>,
) -> Seq<ServiceModel> {
    services_with_image(container.name, resolved_image(images, container.image), dapr, ingress)
}

/// Builds the command line of a sidecar.
pub fn build_sidecar_command(container_name: &str, port: Option<u32>) -> (command: Vec<String>)
    ensures
        command.deep_view() == sidecar_command(container_name@, port),
{
    let mut command: Vec<String> = Vec::new();
    command.push(String::from_str("./daprd"));
    command.push(String::from_str("-app-id"));
    command.push(String::from_str(container_name));
    command.push(String::from_str("-app-port"));
    command.push(format_port(port));
    command.push(String::from_str("-placement-host-address"));
    command.push(String::from_str("placement:50006"));
    command.push(String::from_str("air"));
    assert(command.deep_view() =~= sidecar_command(container_name@, port));
    command
}

/// Emits the services of one container, given its image.
pub fn synthesize_services(image: DockerImageForPulumi, configuration: AppConfiguration) -> (services:
    Vec<ContainerAppConfiguration>)
    ensures
        services.deep_view() == services_with_image(
            configuration.container@.name,
            image@,
            configuration.dapr_configuration.deep_view(),
            configuration.ingress_configuration.deep_view(),
        ),
{
    let name = configuration.container.name.clone();
    let with_sidecar = match configuration.dapr_configuration {
        Some(dapr) => match dapr.enabled {
            Some(enabled) => enabled,
            None => false,
        },
        None => false,
    };
    let (dapr_app_port, ports) = build_ports_mapping_for_serialization(configuration);
    let build = if image.is_context {
        match image.path {
            Some(path) => Some(BuildContext { context: path }),
            None => None,
        }
    } else {
        None
    };
    let mut services: Vec<ContainerAppConfiguration> = Vec::new();
    if with_sidecar {
        let own = ContainerAppConfiguration {
            image: image.name,
            build,
            name: name.clone(),
            depends_on: Some(single_text(String::from_str("placement"))),
            networks: Some(single_text(String::from_str("dapr-network"))),
            network_mode: None,
            environment: None,
            ports,
            command: None,
        };
        let sidecar = ContainerAppConfiguration {
            image: Some(String::from_str(SIDECAR_IMAGE)),
            name: joined(name.as_str(), "_dapr"),
            depends_on: Some(single_text(name.clone())),
            network_mode: Some(joined("service:", name.as_str())),
            environment: None,
            ports: None,
            networks: None,
            build: None,
            command: Some(build_sidecar_command(name.as_str(), dapr_app_port)),
        };
        services.push(own);
        services.push(sidecar);
        assert(services.deep_view() =~= seq![own.deep_view(), sidecar.deep_view()]);
    } else {
        let own = ContainerAppConfiguration {
            image: image.name,
            build,
            name,
            depends_on: None,
            networks: None,
            environment: None,
            network_mode: None,
            ports,
            command: None,
        };
        services.push(own);
        assert(services.deep_view() =~= seq![own.deep_view()]);
    }
    services
}

/// Emits the services of one container of an application.
pub fn parse_app_configuration(
    images: &Vec<ContainerImageBluePrint>,
    configuration: AppConfiguration,
) -> (services: Vec<ContainerAppConfiguration>)
    ensures
        services.deep_view() == container_services(
            images.deep_view(),
            configuration.container@,
            configuration.dapr_configuration.deep_view(),
            configuration.ingress_configuration.deep_view(),
        ),
{
    let image = build_image_for_serialization(images, configuration.container);
    synthesize_services(image, configuration)
}

/// The services of a list of containers that share the settings of one
/// application, in the order of the containers.
pub open spec fn services_of_containers(
    images: Seq<ImageModel>,
    containers: Seq<ContainerModel>,
    dapr: Option<DaprModel>,
    ingress: Option<IngressModel>,
) -> Seq<ServiceModel>
    decreases containers.len(),
{
    if containers.len() == 0 {
        Seq::empty()
    } else {
        services_of_containers(images, containers.drop_last(), dapr, ingress) + container_services(
            images,
            containers.last(),
            dapr,
            ingress,
        )
    }
}

/// The services of one application.
pub open spec fn application_services(images: Seq<ImageModel>, app: ApplicationModel) -> Seq<
    ServiceModel,
> {
    services_of_containers(images, app.containers(), app.dapr(), app.ingress())
}

/// The services of a list of applications, in the order of the applications.
pub open spec fn all_services(images: Seq<ImageModel>, apps: Seq<ApplicationModel>) -> Seq<
    ServiceModel,
>
    decreases apps.len(),
{
    if apps.len() == 0 {
        Seq::empty()
    } else {
        all_services(images, apps.drop_last()) + application_services(images, apps.last())
    }
}

/// The services of a resource graph. A graph without applications has
/// nothing to convert.
pub open spec fn synthesized(apps: Seq<ApplicationModel>, images: Seq<ImageModel>) -> Option<
    Seq<ServiceModel>,
> {
    if apps.len() == 0 {
        None
    } else {
        Some(all_services(images, apps))
    }
}

/// Emits the services of one application.
pub fn synthesize_application(images: &Vec<ContainerImageBluePrint>, app: &ContainerAppBluePrint) -> (services:
    Vec<ContainerAppConfiguration>)
    ensures
        services.deep_view() == application_services(images.deep_view(), app@),
{
    let mut services: Vec<ContainerAppConfiguration> = Vec::new();
    let dapr_configuration = match &app.configuration {
        Some(configuration) => configuration.dapr.as_ref(),
        None => None,
    };
    let ingress_configuration = match &app.configuration {
        Some(configuration) => configuration.ingress.as_ref(),
        None => None,
    };
    assert(services.deep_view() =~= Seq::<ServiceModel>::empty());
    match &app.template {
        Some(template) => match &template.containers {
            Some(containers) => {
                let ghost all = containers.deep_view();
                let mut j: usize = 0;
                assert(all.take(0) =~= Seq::<ContainerModel>::empty());
                while j < containers.len()
                    invariant
                        j <= containers.len(),
                        all == containers.deep_view(),
                        all == app@.containers(),
                        dapr_configuration.deep_view() == app@.dapr(),
                        ingress_configuration.deep_view() == app@.ingress(),
                        services.deep_view() == services_of_containers(
                            images.deep_view(),
                            all.take(j as int),
                            app@.dapr(),
                            app@.ingress(),
                        ),
                    decreases containers.len() - j,
                {
                    let ghost before = services.deep_view();
                    let mut next = parse_app_configuration(
                        images,
                        AppConfiguration {
                            container: &containers[j],
                            dapr_configuration,
                            ingress_configuration,
                        },
                    );
                    let ghost added = next.deep_view();
                    services.append(&mut next);
                    proof {
                        assert(all.take(j + 1).drop_last() =~= all.take(j as int));
                        assert(all.take(j + 1).last() == containers@[j as int].deep_view());
                        assert(services.deep_view() =~= before + added);
                    }
                    j += 1;
                }
                assert(all.take(all.len() as int) =~= all);
            },
            None => {},
        },
        None => {},
    }
    services
}

/// Emits the services of a resource graph: those of each application in
/// turn. Without an application there is nothing to convert.
pub fn build_configuration(
    apps: Vec<ContainerAppBluePrint>,
    images: Vec<ContainerImageBluePrint>,
) -> (services: Option<Vec<ContainerAppConfiguration>>)
    ensures
        services.deep_view() == synthesized(apps.deep_view(), images.deep_view()),
{
    if apps.len() == 0 {
        assert(apps.deep_view().len() == 0);
        return None;
    }
    let mut services: Vec<ContainerAppConfiguration> = Vec::new();
    let ghost all = apps.deep_view();
    let mut i: usize = 0;
    assert(all.take(0) =~= Seq::<ApplicationModel>::empty());
    assert(services.deep_view() =~= Seq::<ServiceModel>::empty());
    while i < apps.len()
        invariant
            i <= apps.len(),
            all == apps.deep_view(),
            services.deep_view() == all_services(images.deep_view(), all.take(i as int)),
        decreases apps.len() - i,
    {
        let ghost before = services.deep_view();
        let mut next = synthesize_application(&images, &apps[i]);
        let ghost added = next.deep_view();
        services.append(&mut next);
        proof {
            assert(all.take(i + 1).drop_last() =~= all.take(i as int));
            assert(all.take(i + 1).last() == apps@[i as int].deep_view());
            assert(services.deep_view() =~= before + added);
        }
        i += 1;
    }
    assert(all.take(all.len() as int) =~= all);
    assert(all.len() == apps.len());
    Some(services)
}

/// The message of a run that found a resource that does not match its
/// blueprint.
pub const MALFORMED_RESOURCE: &'static str = "A resource does not match its blueprint";

/// The message of a run that found no application.
pub const NOTHING_TO_CONVERT: &'static str = "No container to deserialize";

/// What a run gives: the services, or the message of its failure.
pub open spec fn outcome_view(outcome: Result<Vec<ContainerAppConfiguration>, String>) -> Result<
    Seq<ServiceModel>,
    Seq<char>,
> {
    match outcome {
        Ok(services) => Ok(services.deep_view()),
        Err(message) => Err(message@),
    }
}

/// What reading the images gives: the images, or the message of the
/// failure.
pub open spec fn images_view(outcome: Result<Vec<ContainerImageBluePrint>, String>) -> Result<
    Seq<ImageModel>,
    Seq<char>,
> {
    match outcome {
        Ok(images) => Ok(images.deep_view()),
        Err(message) => Err(message@),
    }
}

/// What reading the applications gives: the applications, or the message of
/// the failure.
pub open spec fn apps_view(outcome: Result<Vec<ContainerAppBluePrint>, String>) -> Result<
    Seq<ApplicationModel>,
    Seq<char>,
> {
    match outcome {
        Ok(apps) => Ok(apps.deep_view()),
        Err(message) => Err(message@),
    }
}

/// The services of a resource graph that was read, or the message of the
/// failure: that of reading the images, else that of reading the
/// applications, else that there is nothing to convert.
pub open spec fn converted(
    images: Result<Seq<ImageModel>, Seq<char>>,
    apps: Result<Seq<ApplicationModel>, Seq<char>>,
) -> Result<Seq<ServiceModel>, Seq<char>> {
    match images {
        Err(message) => Err(message),
        Ok(images) => match apps {
            Err(message) => Err(message),
            Ok(apps) => match synthesized(apps, images) {
                Some(services) => Ok(services),
                None => Err(NOTHING_TO_CONVERT@),
            },
        },
    }
}

/// The message of a run in a language that has no front end.
pub const UNSUPPORTED_LANGUAGE: &'static str = "Language not supported";

/// The services that an input in the given language gives rise to, or the
/// message of the failure.
pub open spec fn conversion(language: Language, input: Seq<char>) -> Result<
    Seq<ServiceModel>,
    Seq<char>,
> {
    match language {
        Language::Yaml => yaml::yaml_conversion(input),
        Language::Typescript | Language::Javascript => js::script_conversion(input),
        _ => Err(UNSUPPORTED_LANGUAGE@),
    }
}

/// The converter of resource graphs written for Pulumi, with the services
/// of the input that it has read last.
pub struct Pulumi {
    pub language: Language,
    pub resources: Option<Vec<ContainerAppConfiguration>>,
}

impl Pulumi {
    /// Whether there is a front end for the language.
    pub open spec fn supports(language: Language) -> bool {
        language is Yaml || language is Typescript || language is Javascript
    }

    /// The services that the converter keeps.
    pub open spec fn services(&self) -> Option<Seq<ServiceModel>> {
        self.resources.deep_view()
    }

    /// What the converter is after it has read `input`: it keeps the
    /// services of the input where reading went well, and is as it was where
    /// it did not; its language stays.
    pub open spec fn after(&self, before: Pulumi, input: Seq<char>) -> bool {
        &&& self.language == before.language
        &&& match conversion(before.language, input) {
            Ok(services) => self.services() == Some(services),
            Err(_) => self.resources == before.resources,
        }
    }

    /// Makes a converter for the language, if there is a front end for it.
    pub fn new(language: Language) -> (made: Option<Pulumi>)
        ensures
            made is Some <==> Self::supports(language),
            made matches Some(pulumi) ==> pulumi.language == language && pulumi.resources is None,
    {
        match language {
            Language::Yaml | Language::Typescript | Language::Javascript => Some(
                Pulumi { language, resources: None },
            ),
            _ => None,
        }
    }

    /// Reads the input in the converter's language and, where that goes
    /// well, keeps its services; else the converter stays as it was.
    pub fn convert(&mut self, input: &str) -> (outcome: Result<(), String>)
        ensures
            final(self).after(*old(self), input@),
            match conversion(old(self).language, input@) {
                Ok(_) => outcome is Ok,
                Err(message) => outcome matches Err(told) && told@ == message,
            },
    {
        let read = match self.language {
            Language::Yaml => yaml::deserialize(input),
            Language::Typescript | Language::Javascript => js::deserialize(input),
            _ => Err(String::from_str(UNSUPPORTED_LANGUAGE)),
        };
        match read {
            Ok(services) => {
                self.resources = Some(services);
                Ok(())
            },
            Err(message) => Err(message),
        }
    }
}

impl Serializer for Pulumi {
    type Output = Pulumi;

    /// Reads the input in the converter's language. Where that goes well
    /// the converter keeps the services and is handed back; else it stays as
    /// it was and the message of the failure comes back.
    fn deserialize_value(&mut self, input: &str) -> (outcome: Result<&Pulumi, String>)
        ensures
            final(self).after(*old(self), input@),
            match conversion(old(self).language, input@) {
                Ok(_) => outcome matches Ok(kept) && *kept == *final(self),
                Err(message) => outcome matches Err(told) && told@ == message,
            },
    {
        match self.convert(input) {
            Ok(_) => Ok(self),
            Err(message) => Err(message),
        }
    }
}

/// Converts a YAML document; `None` where that fails.
pub fn deserialize_yaml(input: &str) -> (services: Option<Vec<ContainerAppConfiguration>>)
    ensures
        services.deep_view() == match yaml::yaml_conversion(input@) {
            Ok(services) => Some(services),
            Err(_) => None,
        },
{
    match yaml::deserialize(input) {
        Ok(services) => Some(services),
        Err(_) => None,
    }
}

} // verus!
