//! The structured front end: blueprints out of a YAML document that maps
//! the names of resources to their types and properties.

use crate::codec::{parse_yaml, yaml_document};
use crate::decode::{decode_application, decode_image, decoded_application, decoded_image};
use crate::document::{entries_view, lemma_table_view, Node, Tree};
use crate::pulumi::{
    apps_view, build_configuration, converted, images_view, outcome_view, MALFORMED_RESOURCE,
    NOTHING_TO_CONVERT,
};
use crate::serializer::{
    ApplicationModel, ContainerAppBluePrint, ContainerAppConfiguration, ContainerImageBluePrint,
    ImageModel, ServiceModel,
};
use crate::text::same_text;
use vstd::prelude::*;

verus! {

/// The type of an image resource.
pub const IMAGE_TYPE: &'static str = "docker:RegistryImage";

/// The type of an application resource.
pub const APPLICATION_TYPE: &'static str = "azure-native:app:ContainerApp";

/// The message of a run whose input is no YAML.
pub const MALFORMED_DOCUMENT: &'static str = "An error occured";

/// The message of a run whose input has no resources.
pub const MISSING_RESOURCES: &'static str = "Resources need to be defined";

/// The message of a run whose resources are no mapping.
pub const RESOURCES_NOT_A_MAPPING: &'static str = "A mapping need to be generated";

/// Whether a resource is of the given type: whether the text under its key
/// `type` is that type.
pub open spec fn has_type(resource: Tree, resource_type: Seq<char>) -> bool {
    resource.field("type"@) == Some(Tree::Text(resource_type))
}

/// Tests whether a resource is of the given type.
pub fn filter_by_type(val: &Node, resource_type: &str) -> (same: bool)
    ensures
        same == has_type(val@, resource_type@),
{
    match val.field("type") {
        Some(Node::Text(found)) => same_text(found.as_str(), resource_type),
        _ => false,
    }
}

/// The image that a resource declares under the name `key`: what its
/// properties read as, referred to by its key. There is none where the key is
/// no text, or the resource has no properties, or they do not match the
/// blueprint.
pub open spec fn image_of_resource(key: Tree, resource: Tree) -> Option<ImageModel> {
    match (key, resource.field("properties"@)) {
        (Tree::Text(name), Some(properties)) => match decoded_image(properties) {
            Some(image) => Some(
                ImageModel { name: image.name, build: image.build, reference_name: Some(name) },
            ),
            None => None,
        },
        _ => None,
    }
}

/// The images among the given resources, in order; the first that cannot
/// be read fails them all. A resource of another type is passed over.
pub open spec fn images_of_resources(resources: Seq<(Tree, Tree)>) -> Result<
    Seq<ImageModel>,
    Seq<char>,
>
    decreases resources.len(),
{
    if resources.len() == 0 {
        Ok(Seq::empty())
    } else {
        match images_of_resources(resources.drop_last()) {
            Ok(before) => if has_type(resources.last().1, IMAGE_TYPE@) {
                match image_of_resource(resources.last().0, resources.last().1) {
                    Some(image) => Ok(before.push(image)),
                    None => Err(MALFORMED_RESOURCE@),
                }
            } else {
                Ok(before)
            },
            Err(_) => Err(MALFORMED_RESOURCE@),
        }
    }
}

proof fn lemma_images_fail(resources: Seq<(Tree, Tree)>, upto: int)
    requires
        0 <= upto <= resources.len(),
        images_of_resources(resources.take(upto)) is Err,
    ensures
        images_of_resources(resources) == Err::<Seq<ImageModel>, Seq<char>>(MALFORMED_RESOURCE@),
    decreases resources.len() - upto,
{
    if upto < resources.len() {
        assert(resources.take(upto + 1).drop_last() =~= resources.take(upto));
        lemma_images_fail(resources, upto + 1);
    } else {
        assert(resources.take(upto) =~= resources);
    }
}

/// Reads the image that a resource declares under the name `key`.
pub fn image_from_resource(key: &Node, resource: &Node) -> (image: Option<ContainerImageBluePrint>)
    ensures
        image.deep_view() == image_of_resource(key@, resource@),
{
    match (key, resource.field("properties")) {
        (Node::Text(name), Some(properties)) => match decode_image(properties) {
            Some(read) => Some(
                ContainerImageBluePrint {
                    name: read.name,
                    build: read.build,
                    reference_name: Some(name.clone()),
                },
            ),
            None => None,
        },
        _ => None,
    }
}

/// Reads the images among the given resources.
pub fn get_images(mapping: &Vec<(Node, Node)>) -> (images: Result<
    Vec<ContainerImageBluePrint>,
    String,
>)
    ensures
        images_view(images) == images_of_resources(entries_view(mapping@)),
{
    let ghost all = entries_view(mapping@);
    let mut images: Vec<ContainerImageBluePrint> = Vec::new();
    let mut i: usize = 0;
    assert(all.take(0) =~= Seq::<(Tree, Tree)>::empty());
    assert(images.deep_view() =~= Seq::<ImageModel>::empty());
    while i < mapping.len()
        invariant
            i <= mapping.len(),
            all == entries_view(mapping@),
            images_of_resources(all.take(i as int)) == Ok::<Seq<ImageModel>, Seq<char>>(
                images.deep_view(),
            ),
        decreases mapping.len() - i,
    {
        let ghost before = images.deep_view();
        proof {
            assert(all.take(i + 1).drop_last() =~= all.take(i as int));
            assert(all.take(i + 1).last() == (mapping@[i as int].0@, mapping@[i as int].1@));
        }
        if filter_by_type(&mapping[i].1, IMAGE_TYPE) {
            match image_from_resource(&mapping[i].0, &mapping[i].1) {
                Some(image) => {
                    images.push(image);
                    assert(images.deep_view() =~= before.push(image.deep_view()));
                },
                None => {
                    proof {
                        lemma_images_fail(all, i + 1);
                    }
                    return Err(String::from_str(MALFORMED_RESOURCE));
                },
            }
        }
        i += 1;
    }
    assert(all.take(all.len() as int) =~= all);
    Ok(images)
}

/// The application that a resource declares: what its properties read as.
/// There is none where the resource has no properties, or they do not match
/// the blueprint.
pub open spec fn app_of_resource(resource: Tree) -> Option<ApplicationModel> {
    match resource.field("properties"@) {
        Some(properties) => decoded_application(properties),
        None => None,
    }
}

/// The applications among the given resources, in order; the first that
/// cannot be read fails them all. A resource of another type is passed over.
pub open spec fn apps_of_resources(resources: Seq<(Tree, Tree)>) -> Result<
    Seq<ApplicationModel>,
    Seq<char>,
>
    decreases resources.len(),
{
    if resources.len() == 0 {
        Ok(Seq::empty())
    } else {
        match apps_of_resources(resources.drop_last()) {
            Ok(before) => if has_type(resources.last().1, APPLICATION_TYPE@) {
                match app_of_resource(resources.last().1) {
                    Some(app) => Ok(before.push(app)),
                    None => Err(MALFORMED_RESOURCE@),
                }
            } else {
                Ok(before)
            },
            Err(_) => Err(MALFORMED_RESOURCE@),
        }
    }
}

proof fn lemma_apps_fail(resources: Seq<(Tree, Tree)>, upto: int)
    requires
        0 <= upto <= resources.len(),
        apps_of_resources(resources.take(upto)) is Err,
    ensures
        apps_of_resources(resources) == Err::<Seq<ApplicationModel>, Seq<char>>(
            MALFORMED_RESOURCE@,
        ),
    decreases resources.len() - upto,
{
    if upto < resources.len() {
        assert(resources.take(upto + 1).drop_last() =~= resources.take(upto));
        lemma_apps_fail(resources, upto + 1);
    } else {
        assert(resources.take(upto) =~= resources);
    }
}

/// Reads the application that a resource declares.
pub fn app_from_resource(resource: &Node) -> (app: Option<ContainerAppBluePrint>)
    ensures
        app.deep_view() == app_of_resource(resource@),
{
    match resource.field("properties") {
        Some(properties) => decode_application(properties),
        None => None,
    }
}

/// Reads the applications among the given resources.
pub fn get_apps(mapping: &Vec<(Node, Node)>) -> (apps: Result<Vec<ContainerAppBluePrint>, String>)
    ensures
        apps_view(apps) == apps_of_resources(entries_view(mapping@)),
{
    let ghost all = entries_view(mapping@);
    let mut apps: Vec<ContainerAppBluePrint> = Vec::new();
    let mut i: usize = 0;
    assert(all.take(0) =~= Seq::<(Tree, Tree)>::empty());
    assert(apps.deep_view() =~= Seq::<ApplicationModel>::empty());
    while i < mapping.len()
        invariant
            i <= mapping.len(),
            all == entries_view(mapping@),
            apps_of_resources(all.take(i as int)) == Ok::<Seq<ApplicationModel>, Seq<char>>(
                apps.deep_view(),
            ),
        decreases mapping.len() - i,
    {
        let ghost before = apps.deep_view();
        proof {
            assert(all.take(i + 1).drop_last() =~= all.take(i as int));
            assert(all.take(i + 1).last() == (mapping@[i as int].0@, mapping@[i as int].1@));
        }
        if filter_by_type(&mapping[i].1, APPLICATION_TYPE) {
            match app_from_resource(&mapping[i].1) {
                Some(app) => {
                    apps.push(app);
                    assert(apps.deep_view() =~= before.push(app.deep_view()));
                },
                None => {
                    proof {
                        lemma_apps_fail(all, i + 1);
                    }
                    return Err(String::from_str(MALFORMED_RESOURCE));
                },
            }
        }
        i += 1;
    }
    assert(all.take(all.len() as int) =~= all);
    Ok(apps)
}

/// The services that a document gives rise to, or the message of the
/// failure: that it is no YAML, that it has no resources, that they are no
/// mapping, or what reading them and converting them gives.
pub open spec fn document_conversion(document: Option<Tree>) -> Result<
    Seq<ServiceModel>,
    Seq<char>,
> {
    match document {
        None => Err(MALFORMED_DOCUMENT@),
        Some(tree) => match tree.field("resources"@) {
            None => Err(MISSING_RESOURCES@),
            Some(Tree::Table(resources)) => converted(
                images_of_resources(resources),
                apps_of_resources(resources),
            ),
            Some(_) => Err(RESOURCES_NOT_A_MAPPING@),
        },
    }
}

/// Converts a document that was read.
pub fn deserialize_document(document: Option<Node>) -> (services: Result<
    Vec<ContainerAppConfiguration>,
    String,
>)
    ensures
        outcome_view(services) == document_conversion(document.deep_view()),
{
    let node = match document {
        Some(node) => node,
        None => {
            return Err(String::from_str(MALFORMED_DOCUMENT));
        },
    };
    match node.field("resources") {
        None => Err(String::from_str(MISSING_RESOURCES)),
        Some(Node::Table(mapping)) => {
            proof {
                lemma_table_view(*mapping);
                assert(Node::Table(*mapping)@->Table_0 =~= entries_view(mapping@));
            }
            let images = match get_images(mapping) {
                Ok(images) => images,
                Err(message) => {
                    return Err(message);
                },
            };
            let apps = match get_apps(mapping) {
                Ok(apps) => apps,
                Err(message) => {
                    return Err(message);
                },
            };
            match build_configuration(apps, images) {
                Some(services) => Ok(services),
                None => Err(String::from_str(NOTHING_TO_CONVERT)),
            }
        },
        Some(_) => Err(String::from_str(RESOURCES_NOT_A_MAPPING)),
    }
}

/// The services that a YAML text gives rise to.
pub open spec fn yaml_conversion(input: Seq<char>) -> Result<Seq<ServiceModel>, Seq<char>> {
    document_conversion(yaml_document(input))
}

/// Converts a YAML document: reads the images and the applications among
/// its resources and emits their services.
pub fn deserialize(input: &str) -> (services: Result<Vec<ContainerAppConfiguration>, String>)
    ensures
        outcome_view(services) == yaml_conversion(input@),
{
    deserialize_document(parse_yaml(input))
}

} // verus!
