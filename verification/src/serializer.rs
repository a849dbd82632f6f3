//! The blueprint model that the extractors produce, the service definitions
//! that synthesis emits, and the assembly of the final document.

use crate::codec::{emit_yaml, yaml_text};
use crate::document::{
    entries_view, entry_under, insert_entry, inserted, keys_distinct, lemma_inserted_keys, list_of,
    nodes_view, table_of, Node, Tree,
};
use crate::text::{chars_of, same_chars};
use vstd::prelude::*;

verus! {

/// The language an input document is written in.
#[derive(Debug, Clone, Copy, PartialEq, Eq, Structural)]
pub enum Language {
    Yaml,
    Typescript,
    Javascript,
    Json,
    Bicep,
    NotSupported,
}

/// The directory a service is built from.
#[derive(Debug, Clone, PartialEq)]
pub struct BuildContext {
    pub context: String,
}

impl View for BuildContext {
    type V = Seq<char>;

    open spec fn view(&self) -> Seq<char> {
        self.context@
    }
}

impl DeepView for BuildContext {
    type V = Seq<char>;

    open spec fn deep_view(&self) -> Seq<char> {
        self.view()
    }
}

/// The sidecar settings of an application.
#[derive(Debug, Clone, PartialEq)]
pub struct DaprBluePrint {
    pub app_port: Option<u32>,
    pub enabled: Option<bool>,
    pub app_id: Option<String>,
}

/// What a [`DaprBluePrint`] stands for.
pub struct DaprModel {
    pub app_port: Option<u32>,
    pub enabled: Option<bool>,
    pub app_id: Option<Seq<char>>,
}

impl View for DaprBluePrint {
    type V = DaprModel;

    open spec fn view(&self) -> DaprModel {
        DaprModel {
            app_port: self.app_port,
            enabled: self.enabled,
            app_id: self.app_id.deep_view(),
        }
    }
}

impl DeepView for DaprBluePrint {
    type V = DaprModel;

    open spec fn deep_view(&self) -> DaprModel {
        self.view()
    }
}

/// The ingress settings of an application.
#[derive(Debug, Clone, PartialEq)]
pub struct IngressBluePrint {
    pub external: Option<bool>,
    pub target_port: Option<u32>,
}

/// What an [`IngressBluePrint`] stands for.
pub struct IngressModel {
    pub external: Option<bool>,
    pub target_port: Option<u32>,
}

impl View for IngressBluePrint {
    type V = IngressModel;

    open spec fn view(&self) -> IngressModel {
        IngressModel { external: self.external, target_port: self.target_port }
    }
}

impl DeepView for IngressBluePrint {
    type V = IngressModel;

    open spec fn deep_view(&self) -> IngressModel {
        self.view()
    }
}

/// The configuration section of an application.
#[derive(Debug, Clone, PartialEq)]
pub struct ConfigurationBluePrint {
    pub ingress: Option<IngressBluePrint>,
    pub dapr: Option<DaprBluePrint>,
}

/// What a [`ConfigurationBluePrint`] stands for.
pub struct ConfigurationModel {
    pub ingress: Option<IngressModel>,
    pub dapr: Option<DaprModel>,
}

impl View for ConfigurationBluePrint {
    type V = ConfigurationModel;

    open spec fn view(&self) -> ConfigurationModel {
        ConfigurationModel { ingress: self.ingress.deep_view(), dapr: self.dapr.deep_view() }
    }
}

impl DeepView for ConfigurationBluePrint {
    type V = ConfigurationModel;

    open spec fn deep_view(&self) -> ConfigurationModel {
        self.view()
    }
}

/// One container of an application.
#[derive(Debug, Clone, PartialEq)]
pub struct ContainerBluePrint {
    pub image: String,
    pub name: String,
}

/// What a [`ContainerBluePrint`] stands for.
pub struct ContainerModel {
    pub image: Seq<char>,
    pub name: Seq<char>,
}

impl View for ContainerBluePrint {
    type V = ContainerModel;

    open spec fn view(&self) -> ContainerModel {
        ContainerModel { image: self.image@, name: self.name@ }
    }
}

impl DeepView for ContainerBluePrint {
    type V = ContainerModel;

    open spec fn deep_view(&self) -> ContainerModel {
        self.view()
    }
}

/// The template section of an application.
#[derive(Debug, Clone, PartialEq)]
pub struct TemplateBluePrint {
    pub containers: Option<Vec<ContainerBluePrint>>,
}

/// What a [`TemplateBluePrint`] stands for.
pub struct TemplateModel {
    pub containers: Option<Seq<ContainerModel>>,
}

impl View for TemplateBluePrint {
    type V = TemplateModel;

    open spec fn view(&self) -> TemplateModel {
        TemplateModel { containers: self.containers.deep_view() }
    }
}

impl DeepView for TemplateBluePrint {
    type V = TemplateModel;

    open spec fn deep_view(&self) -> TemplateModel {
        self.view()
    }
}

/// An application resource.
#[derive(Debug, Clone, PartialEq)]
pub struct ContainerAppBluePrint {
    pub configuration: Option<ConfigurationBluePrint>,
    pub template: Option<TemplateBluePrint>,
}

/// What a [`ContainerAppBluePrint`] stands for.
pub struct ApplicationModel {
    pub configuration: Option<ConfigurationModel>,
    pub template: Option<TemplateModel>,
}

impl ApplicationModel {
    /// The sidecar settings, where the application has any.
    pub open spec fn dapr(self) -> Option<DaprModel> {
        match self.configuration {
            Some(configuration) => configuration.dapr,
            None => None,
        }
    }

    /// The ingress settings, where the application has any.
    pub open spec fn ingress(self) -> Option<IngressModel> {
        match self.configuration {
            Some(configuration) => configuration.ingress,
            None => None,
        }
    }

    /// The containers, in order; none where no list is given.
    pub open spec fn containers(self) -> Seq<ContainerModel> {
        match self.template {
            Some(TemplateModel { containers: Some(containers) }) => containers,
            _ => Seq::empty(),
        }
    }
}

impl View for ContainerAppBluePrint {
    type V = ApplicationModel;

    open spec fn view(&self) -> ApplicationModel {
        ApplicationModel {
            configuration: self.configuration.deep_view(),
            template: self.template.deep_view(),
        }
    }
}

impl DeepView for ContainerAppBluePrint {
    type V = ApplicationModel;

    open spec fn deep_view(&self) -> ApplicationModel {
        self.view()
    }
}

/// The build settings of an image resource.
#[derive(Debug, Clone, PartialEq)]
pub struct BuildContextBluePrint {
    pub context: String,
}

impl View for BuildContextBluePrint {
    type V = Seq<char>;

    open spec fn view(&self) -> Seq<char> {
        self.context@
    }
}

impl DeepView for BuildContextBluePrint {
    type V = Seq<char>;

    open spec fn deep_view(&self) -> Seq<char> {
        self.view()
    }
}

/// An image resource. `reference_name` is the name under which containers
/// refer to it.
#[derive(Debug, Clone, PartialEq)]
pub struct ContainerImageBluePrint {
    pub name: Option<String>,
    pub build: Option<BuildContextBluePrint>,
    pub reference_name: Option<String>,
}

/// What a [`ContainerImageBluePrint`] stands for.
pub struct ImageModel {
    pub name: Option<Seq<char>>,
    pub build: Option<Seq<char>>,
    pub reference_name: Option<Seq<char>>,
}

impl View for ContainerImageBluePrint {
    type V = ImageModel;

    open spec fn view(&self) -> ImageModel {
        ImageModel {
            name: self.name.deep_view(),
            build: self.build.deep_view(),
            reference_name: self.reference_name.deep_view(),
        }
    }
}

impl DeepView for ContainerImageBluePrint {
    type V = ImageModel;

    open spec fn deep_view(&self) -> ImageModel {
        self.view()
    }
}

/// One service of the output document.
#[derive(Debug, Clone, PartialEq)]
pub struct ContainerAppConfiguration {
    pub name: String,
    pub depends_on: Option<Vec<String>>,
    pub networks: Option<Vec<String>>,
    pub image: Option<String>,
    pub environment: Option<Vec<String>>,
    pub ports: Option<Vec<String>>,
    pub command: Option<Vec<String>>,
    pub network_mode: Option<String>,
    pub build: Option<BuildContext>,
}

/// What a [`ContainerAppConfiguration`] stands for.
pub struct ServiceModel {
    pub name: Seq<char>,
    pub depends_on: Option<Seq<Seq<char>>>,
    pub networks: Option<Seq<Seq<char>>>,
    pub image: Option<Seq<char>>,
    pub environment: Option<Seq<Seq<char>>>,
    pub ports: Option<Seq<Seq<char>>>,
    pub command: Option<Seq<Seq<char>>>,
    pub network_mode: Option<Seq<char>>,
    pub build: Option<Seq<char>>,
}

impl View for ContainerAppConfiguration {
    type V = ServiceModel;

    open spec fn view(&self) -> ServiceModel {
        ServiceModel {
            name: self.name@,
            depends_on: self.depends_on.deep_view(),
            networks: self.networks.deep_view(),
            image: self.image.deep_view(),
            environment: self.environment.deep_view(),
            ports: self.ports.deep_view(),
            command: self.command.deep_view(),
            network_mode: self.network_mode.deep_view(),
            build: self.build.deep_view(),
        }
    }
}

impl DeepView for ContainerAppConfiguration {
    type V = ServiceModel;

    open spec fn deep_view(&self) -> ServiceModel {
        self.view()
    }
}

/// The service that coordinates the sidecars. Every document has it.
pub open spec fn placement_service() -> ServiceModel {
    ServiceModel {
        name: "placement"@,
        depends_on: None,
        networks: Some(seq!["dapr-network"@]),
        image: Some("daprio/dapr"@),
        environment: None,
        ports: Some(seq!["50006:50006"@]),
        command: Some(seq!["./placement"@, "-port"@, "50006"@]),
        network_mode: None,
        build: None,
    }
}

/// Makes the service that coordinates the sidecars.
pub fn default_configuration() -> (service: ContainerAppConfiguration)
    ensures
        service@ == placement_service(),
{
    let mut ports: Vec<String> = Vec::new();
    ports.push(String::from_str("50006:50006"));
    let mut networks: Vec<String> = Vec::new();
    networks.push(String::from_str("dapr-network"));
    let mut command: Vec<String> = Vec::new();
    command.push(String::from_str("./placement"));
    command.push(String::from_str("-port"));
    command.push(String::from_str("50006"));
    assert(ports.deep_view() =~= seq!["50006:50006"@]);
    assert(networks.deep_view() =~= seq!["dapr-network"@]);
    assert(command.deep_view() =~= seq!["./placement"@, "-port"@, "50006"@]);
    ContainerAppConfiguration {
        name: String::from_str("placement"),
        ports: Some(ports),
        networks: Some(networks),
        image: Some(String::from_str("daprio/dapr")),
        command: Some(command),
        depends_on: None,
        environment: None,
        network_mode: None,
        build: None,
    }
}

/// A list of texts as a tree.
pub open spec fn text_list(texts: Seq<Seq<char>>) -> Tree {
    Tree::List(Seq::new(texts.len(), |i: int| Tree::Text(texts[i])))
}

/// The entry of a field of a service: none where the field is not set.
pub open spec fn field_entry(key: Seq<char>, value: Option<Tree>) -> Seq<(Tree, Tree)> {
    match value {
        Some(value) => seq![(Tree::Text(key), value)],
        None => Seq::empty(),
    }
}

/// A field that holds a list of texts, as a tree.
pub open spec fn list_field(texts: Option<Seq<Seq<char>>>) -> Option<Tree> {
    match texts {
        Some(texts) => Some(text_list(texts)),
        None => None,
    }
}

/// A field that holds a text, as a tree.
pub open spec fn text_field(text: Option<Seq<char>>) -> Option<Tree> {
    match text {
        Some(text) => Some(Tree::Text(text)),
        None => None,
    }
}

/// A field that holds a build context, as a tree.
pub open spec fn build_field(context: Option<Seq<char>>) -> Option<Tree> {
    match context {
        Some(context) => Some(Tree::Table(seq![(Tree::Text("context"@), Tree::Text(context))])),
        None => None,
    }
}

/// A service as it stands in a document: a table of the fields that are
/// set, in a fixed order, without the name.
pub open spec fn service_tree(service: ServiceModel) -> Tree {
    Tree::Table(
        field_entry("depends_on"@, list_field(service.depends_on)) + field_entry(
            "networks"@,
            list_field(service.networks),
        ) + field_entry("image"@, text_field(service.image)) + field_entry(
            "environment"@,
            list_field(service.environment),
        ) + field_entry("ports"@, list_field(service.ports)) + field_entry(
            "command"@,
            list_field(service.command),
        ) + field_entry("network_mode"@, text_field(service.network_mode)) + field_entry(
            "build"@,
            build_field(service.build),
        ),
    )
}

/// Makes the list of the given texts.
pub fn text_list_node(texts: &Vec<String>) -> (list: Node)
    ensures
        list@ == text_list(texts.deep_view()),
{
    let mut items: Vec<Node> = Vec::new();
    let mut i: usize = 0;
    while i < texts.len()
        invariant
            i <= texts.len(),
            items@.len() == i,
            forall|k: int| 0 <= k < i ==> (#[trigger] items@[k])@ == Tree::Text(texts@[k]@),
        decreases texts.len() - i,
    {
        items.push(Node::Text(texts[i].clone()));
        i += 1;
    }
    assert(nodes_view(items@) =~= text_list(texts.deep_view())->List_0);
    list_of(items)
}

/// Appends the entry of a field that holds a list of texts.
fn push_list_field(entries: &mut Vec<(Node, Node)>, key: &str, texts: &Option<Vec<String>>)
    ensures
        entries_view(final(entries)@) == entries_view(old(entries)@) + field_entry(
            key@,
            list_field(texts.deep_view()),
        ),
{
    match texts {
        Some(texts) => {
            let value = text_list_node(texts);
            entries.push((Node::Text(String::from_str(key)), value));
            assert(entries_view(entries@) =~= entries_view(old(entries)@) + field_entry(
                key@,
                list_field(Some(texts.deep_view())),
            ));
        },
        None => {
            assert(entries_view(entries@) =~= entries_view(old(entries)@) + Seq::<
                (Tree, Tree),
            >::empty());
        },
    }
}

/// Appends the entry of a field that holds a text.
fn push_text_field(entries: &mut Vec<(Node, Node)>, key: &str, text: &Option<String>)
    ensures
        entries_view(final(entries)@) == entries_view(old(entries)@) + field_entry(
            key@,
            text_field(text.deep_view()),
        ),
{
    match text {
        Some(text) => {
            entries.push((Node::Text(String::from_str(key)), Node::Text(text.clone())));
            assert(entries_view(entries@) =~= entries_view(old(entries)@) + field_entry(
                key@,
                text_field(Some(text@)),
            ));
        },
        None => {
            assert(entries_view(entries@) =~= entries_view(old(entries)@) + Seq::<
                (Tree, Tree),
            >::empty());
        },
    }
}

/// Makes the table of the fields of a service.
pub fn service_node(service: &ContainerAppConfiguration) -> (node: Node)
    ensures
        node@ == service_tree(service@),
{
    let mut entries: Vec<(Node, Node)> = Vec::new();
    assert(entries_view(entries@) =~= Seq::<(Tree, Tree)>::empty());
    push_list_field(&mut entries, "depends_on", &service.depends_on);
    push_list_field(&mut entries, "networks", &service.networks);
    push_text_field(&mut entries, "image", &service.image);
    push_list_field(&mut entries, "environment", &service.environment);
    push_list_field(&mut entries, "ports", &service.ports);
    push_list_field(&mut entries, "command", &service.command);
    push_text_field(&mut entries, "network_mode", &service.network_mode);
    match &service.build {
        Some(build) => {
            let ghost before = entries_view(entries@);
            let mut inner: Vec<(Node, Node)> = Vec::new();
            inner.push((Node::Text(String::from_str("context")), Node::Text(build.context.clone())));
            assert(entries_view(inner@) =~= seq![
                (Tree::Text("context"@), Tree::Text(build.context@)),
            ]);
            let value = table_of(inner);
            entries.push((Node::Text(String::from_str("build")), value));
            assert(entries_view(entries@) =~= before + field_entry(
                "build"@,
                build_field(Some(build.context@)),
            ));
        },
        None => {
            assert(entries_view(entries@) =~= entries_view(entries@) + Seq::<
                (Tree, Tree),
            >::empty());
        },
    }
    assert(Seq::<(Tree, Tree)>::empty() + field_entry(
        "depends_on"@,
        list_field(service@.depends_on),
    ) =~= field_entry("depends_on"@, list_field(service@.depends_on)));
    table_of(entries)
}

/// The services of a document with one more: each service stands under its
/// name, and a later service takes the place of an earlier one of the same
/// name.
pub open spec fn with_service(services: Seq<(Tree, Tree)>, service: ServiceModel) -> Seq<
    (Tree, Tree),
> {
    inserted(services, service.name, service_tree(service))
}

/// Puts a service under its name among the services of a document.
pub fn cast_struct_as_value(acc: Vec<(Node, Node)>, service: &ContainerAppConfiguration) -> (out:
    Vec<(Node, Node)>)
    ensures
        entries_view(out@) == with_service(entries_view(acc@), service@),
{
    let mut out = acc;
    insert_entry(&mut out, service.name.clone(), service_node(service));
    out
}

/// The networks of a document: the sidecar network, with nothing set.
pub open spec fn networks_tree() -> Tree {
    Tree::Table(seq![(Tree::Text("dapr-network"@), Tree::Table(Seq::empty()))])
}

/// A document: the given configuration with the version `3.9`, the given
/// services and the networks.
pub open spec fn merged(configuration: Seq<(Tree, Tree)>, services: Seq<(Tree, Tree)>) -> Seq<
    (Tree, Tree),
> {
    inserted(
        inserted(
            inserted(configuration, "version"@, Tree::Text("3.9"@)),
            "services"@,
            Tree::Table(services),
        ),
        "networks"@,
        networks_tree(),
    )
}

/// Puts the version, the services and the networks into a document.
pub fn merge_configuration_with_networks(
    configuration: Vec<(Node, Node)>,
    services: Vec<(Node, Node)>,
) -> (out: Vec<(Node, Node)>)
    ensures
        entries_view(out@) == merged(entries_view(configuration@), entries_view(services@)),
{
    let mut out = configuration;
    insert_entry(&mut out, String::from_str("version"), Node::Text(String::from_str("3.9")));
    insert_entry(&mut out, String::from_str("services"), table_of(services));
    let dapr_network: Vec<(Node, Node)> = Vec::new();
    assert(entries_view(dapr_network@) =~= Seq::<(Tree, Tree)>::empty());
    let mut networks: Vec<(Node, Node)> = Vec::new();
    networks.push((Node::Text(String::from_str("dapr-network")), table_of(dapr_network)));
    assert(entries_view(networks@) =~= networks_tree()->Table_0);
    insert_entry(&mut out, String::from_str("networks"), table_of(networks));
    out
}

/// The table of the given services, each under its name, in the order in
/// which the names first occur.
pub open spec fn services_table(services: Seq<ServiceModel>) -> Seq<(Tree, Tree)>
    decreases services.len(),
{
    if services.len() == 0 {
        Seq::empty()
    } else {
        with_service(services_table(services.drop_last()), services.last())
    }
}

/// In the table of services no two stand under the same name, whatever
/// the names of the services are; and the service that came last under a
/// name is the one that stands under it.
pub proof fn law_services_keyed_by_name(services: Seq<ServiceModel>)
    ensures
        keys_distinct(services_table(services)),
        services.len() > 0 ==> entry_under(services_table(services), services.last().name) == Some(
            service_tree(services.last()),
        ),
    decreases services.len(),
{
    if services.len() > 0 {
        law_services_keyed_by_name(services.drop_last());
        lemma_inserted_keys(
            services_table(services.drop_last()),
            services.last().name,
            service_tree(services.last()),
        );
    }
}

/// The document of the given services: they and the placement service
/// behind them, with the version and the networks.
pub open spec fn document_tree(services: Seq<ServiceModel>) -> Tree {
    Tree::Table(merged(Seq::empty(), services_table(services.push(placement_service()))))
}

/// Makes the document of the given services.
pub fn compose_document(services: &Vec<ContainerAppConfiguration>) -> (document: Node)
    ensures
        document@ == document_tree(services.deep_view()),
{
    let ghost all = services.deep_view();
    let mut table: Vec<(Node, Node)> = Vec::new();
    let mut i: usize = 0;
    assert(all.take(0) =~= Seq::<ServiceModel>::empty());
    assert(entries_view(table@) =~= Seq::<(Tree, Tree)>::empty());
    while i < services.len()
        invariant
            i <= services.len(),
            all == services.deep_view(),
            entries_view(table@) == services_table(all.take(i as int)),
        decreases services.len() - i,
    {
        proof {
            assert(all.take(i + 1).drop_last() =~= all.take(i as int));
            assert(all.take(i + 1).last() == services@[i as int]@);
        }
        table = cast_struct_as_value(table, &services[i]);
        i += 1;
    }
    proof {
        assert(all.take(all.len() as int) =~= all);
        assert(all.push(placement_service()).drop_last() =~= all);
    }
    let placement = default_configuration();
    table = cast_struct_as_value(table, &placement);
    let empty: Vec<(Node, Node)> = Vec::new();
    assert(entries_view(empty@) =~= Seq::<(Tree, Tree)>::empty());
    table_of(merge_configuration_with_networks(empty, table))
}

/// The bytes of the document of the given services, where it can be
/// written.
pub open spec fn document_bytes(services: Seq<ServiceModel>) -> Option<Seq<u8>> {
    match yaml_text(document_tree(services)) {
        Some(text) => Some(vstd::utf8::encode_utf8(text)),
        None => None,
    }
}

/// Writes the document of the given services as YAML.
pub fn write_document(services: &Vec<ContainerAppConfiguration>) -> (written: Result<
    Vec<u8>,
    serde_yaml::Error,
>)
    ensures
        match written {
            Ok(bytes) => document_bytes(services.deep_view()) == Some(bytes@),
            Err(_) => document_bytes(services.deep_view()) is None,
        },
{
    let document = compose_document(services);
    match emit_yaml(&document) {
        Ok(text) => Ok(text.as_str().as_bytes_vec()),
        Err(error) => Err(error),
    }
}

/// Writes the document of the given services as YAML, without saying why
/// where it cannot be written.
pub fn serialize_to_compose(services: Vec<ContainerAppConfiguration>) -> (written: Result<
    Vec<u8>,
    (),
>)
    ensures
        match written {
            Ok(bytes) => document_bytes(services.deep_view()) == Some(bytes@),
            Err(_) => document_bytes(services.deep_view()) is None,
        },
{
    match write_document(&services) {
        Ok(bytes) => Ok(bytes),
        Err(_) => Err(()),
    }
}

/// A converter from the text of an input document to the bytes of the
/// output document.
pub trait Serializer {
    type Output;

    /// Reads the input and keeps what it gives rise to.
    fn deserialize_value(&mut self, input: &str) -> Result<&Self::Output, String>;

    /// Writes the document of the given services as YAML.
    fn serialize_value(&self, services: &Vec<ContainerAppConfiguration>) -> (written: Result<
        Vec<u8>,
        serde_yaml::Error,
    >)
        ensures
            match written {
                Ok(bytes) => document_bytes(services.deep_view()) == Some(bytes@),
                Err(_) => document_bytes(services.deep_view()) is None,
            },
    {
        write_document(services)
    }
}

/// The position of the last `c` in `s`.
pub open spec fn last_position(s: Seq<char>, c: char) -> Option<int>
    decreases s.len(),
{
    if s.len() == 0 {
        None
    } else if s.last() == c {
        Some(s.len() - 1)
    } else {
        last_position(s.drop_last(), c)
    }
}

/// `path` without the slashes at its end.
pub open spec fn without_trailing_slashes(path: Seq<char>) -> Seq<char>
    decreases path.len(),
{
    if path.len() > 0 && path.last() == '/' {
        without_trailing_slashes(path.drop_last())
    } else {
        path
    }
}

/// The name of the file that a path leads to: its last component that is
/// not empty, the components being what the slashes part. It is empty only
/// where the path holds nothing but slashes.
pub open spec fn file_name(path: Seq<char>) -> Seq<char> {
    let trimmed = without_trailing_slashes(path);
    match last_position(trimmed, '/') {
        Some(at) => trimmed.skip(at + 1),
        None => trimmed,
    }
}

/// The extension of the file that a path leads to: what follows the last
/// dot of the file's name, unless the name starts with that dot.
pub open spec fn extension(path: Seq<char>) -> Option<Seq<char>> {
    match last_position(file_name(path), '.') {
        Some(at) => if at == 0 {
            None
        } else {
            Some(file_name(path).skip(at + 1))
        },
        None => None,
    }
}

/// The language that a file of the given extension is written in.
pub open spec fn language_of(extension: Option<Seq<char>>) -> Language {
    match extension {
        Some(extension) => if extension == "yml"@ || extension == "yaml"@ {
            Language::Yaml
        } else if extension == "ts"@ {
            Language::Typescript
        } else if extension == "bicep"@ {
            Language::Bicep
        } else if extension == "json"@ {
            Language::Json
        } else {
            Language::NotSupported
        },
        None => Language::NotSupported,
    }
}

/// Finds the last `c` in the first `upto` characters of `s`.
fn find_last(s: &Vec<char>, upto: usize, c: char) -> (found: Option<usize>)
    requires
        upto <= s.len(),
    ensures
        match found {
            Some(at) => last_position(s@.take(upto as int), c) == Some(at as int) && at < upto,
            None => last_position(s@.take(upto as int), c) is None,
        },
{
    let mut i: usize = upto;
    while i > 0
        invariant
            i <= upto <= s.len(),
            last_position(s@.take(i as int), c) == last_position(s@.take(upto as int), c),
        decreases i,
    {
        if s[i - 1] == c {
            return Some(i - 1);
        }
        assert(s@.take(i as int).drop_last() =~= s@.take(i - 1));
        i -= 1;
    }
    None
}

/// The characters of `s` from position `from` up to position `to`.
fn part_of(s: &Vec<char>, from: usize, to: usize) -> (tail: Vec<char>)
    requires
        from <= to <= s.len(),
    ensures
        tail@ == s@.subrange(from as int, to as int),
{
    let mut tail: Vec<char> = Vec::new();
    let mut i: usize = from;
    assert(s@.subrange(from as int, from as int) =~= Seq::<char>::empty());
    while i < to
        invariant
            from <= i <= to <= s.len(),
            tail@ == s@.subrange(from as int, i as int),
        decreases to - i,
    {
        tail.push(s[i]);
        assert(s@.subrange(from as int, i + 1) =~= s@.subrange(from as int, i as int).push(
            s@[i as int],
        ));
        i += 1;
    }
    tail
}

/// Tells the language of a file by the extension of its name.
pub fn parse_language(filename: &str) -> (language: Language)
    ensures
        language == language_of(extension(filename@)),
{
    let path = chars_of(filename);
    let mut end: usize = path.len();
    assert(path@.take(path@.len() as int) =~= path@);
    while end > 0 && path[end - 1] == '/'
        invariant
            end <= path.len(),
            without_trailing_slashes(path@.take(end as int)) == without_trailing_slashes(path@),
        decreases end,
    {
        assert(path@.take(end as int).drop_last() =~= path@.take(end - 1));
        end -= 1;
    }
    let ghost trimmed = path@.take(end as int);
    assert(trimmed == without_trailing_slashes(path@));
    let name = match find_last(&path, end, '/') {
        Some(at) => part_of(&path, at + 1, end),
        None => part_of(&path, 0, end),
    };
    proof {
        assert(path@.subrange(0, end as int) =~= trimmed);
        match last_position(trimmed, '/') {
            Some(at) => {
                assert(trimmed.skip(at + 1) =~= path@.subrange(at + 1, end as int));
            },
            None => {},
        }
    }
    assert(name@ == file_name(filename@));
    assert(name@.take(name@.len() as int) =~= name@);
    let found = match find_last(&name, name.len(), '.') {
        Some(at) => if at == 0 {
            None
        } else {
            proof {
                assert(name@.skip(at + 1) =~= name@.subrange(at + 1, name@.len() as int));
            }
            Some(part_of(&name, at + 1, name.len()))
        },
        None => None,
    };
    match found {
        Some(ending) => {
            if same_chars(&ending, &chars_of("yml")) || same_chars(&ending, &chars_of("yaml")) {
                Language::Yaml
            } else if same_chars(&ending, &chars_of("ts")) {
                Language::Typescript
            } else if same_chars(&ending, &chars_of("bicep")) {
                Language::Bicep
            } else if same_chars(&ending, &chars_of("json")) {
                Language::Json
            } else {
                Language::NotSupported
            }
        },
        None => Language::NotSupported,
    }
}

} // verus!
