use compose_blueprint::document::Node;
use compose_blueprint::serializer::{
    cast_struct_as_value, compose_document, default_configuration,
    merge_configuration_with_networks, parse_language, serialize_to_compose, service_node,
    BuildContext,
    ContainerAppConfiguration, Language, Serializer,
};

struct TestSerializer {}

impl Serializer for TestSerializer {
    type Output = TestSerializer;
    fn deserialize_value(&mut self, _input: &str) -> Result<&Self, String> {
        Ok(self)
    }
}

fn text(s: &str) -> Node {
    Node::Text(s.to_string())
}

fn bare(name: &str) -> ContainerAppConfiguration {
    ContainerAppConfiguration {
        name: name.to_string(),
        depends_on: None,
        networks: None,
        image: None,
        environment: None,
        ports: None,
        command: None,
        network_mode: None,
        build: None,
    }
}

#[test]
fn it_works() {
    assert_eq!(4, 4);
}

#[test]
fn test_default_configuration() {
    let expected = ContainerAppConfiguration {
        name: String::from("placement"),
        ports: Some(vec!["50006:50006".to_string()]),
        networks: Some(vec!["dapr-network".to_string()]),
        image: Some("daprio/dapr".to_string()),
        command: Some(vec![
            "./placement".to_string(),
            "-port".to_string(),
            "50006".to_string(),
        ]),
        depends_on: None,
        environment: None,
        network_mode: None,
        build: None,
    };

    let output = default_configuration();

    assert_eq!(expected, output)
}

#[test]
fn test_merge_configuration_with_networks() {
    let expected = vec![
        (text("version"), text("3.9")),
        (text("services"), Node::Table(vec![])),
        (
            text("networks"),
            Node::Table(vec![(text("dapr-network"), Node::Table(vec![]))]),
        ),
    ];
    let output = merge_configuration_with_networks(Vec::new(), Vec::new());

    assert_eq!(expected, output)
}

#[test]
fn test_serializer() {
    let serializer = TestSerializer {};

    let input = vec![
        ContainerAppConfiguration {
            image: None,
            build: Some(BuildContext {
                context: "./node-app".to_string(),
            }),
            name: "myapp".to_string(),
            depends_on: Some(vec!["placement".to_string()]),
            networks: Some(vec![String::from("dapr-network")]),
            network_mode: None,
            environment: None,
            ports: None,
            command: None,
        },
        ContainerAppConfiguration {
            image: Some(String::from("daprio/daprd:edge")),
            name: format!("myapp_dapr"),
            depends_on: Some(vec![String::from("myapp")]),
            network_mode: Some(format!("service:{}", String::from("myapp"))),
            environment: None,
            ports: None,
            networks: None,
            build: None,
            command: Some(vec![
                "./daprd".to_string(),
                "-app-id".to_string(),
                String::from("myapp"),
                "-app-port".to_string(),
                "3000".to_string(),
                "-placement-host-address".to_string(),
                "placement:50006".to_string(),
                "air".to_string(),
            ]),
        },
    ];

    let expected = r#"version: '3.9'
services:
  myapp:
    depends_on:
    - placement
    networks:
    - dapr-network
    build:
      context: ./node-app
  myapp_dapr:
    depends_on:
    - myapp
    image: daprio/daprd:edge
    command:
    - ./daprd
    - -app-id
    - myapp
    - -app-port
    - '3000'
    - -placement-host-address
    - placement:50006
    - air
    network_mode: service:myapp
  placement:
    networks:
    - dapr-network
    image: daprio/dapr
    ports:
    - 50006:50006
    command:
    - ./placement
    - -port
    - '50006'
networks:
  dapr-network: {}
"#
    .as_bytes()
    .to_vec();

    let output = serializer.serialize_value(&input).unwrap();

    assert_eq!(expected, output);
    assert_eq!(serialize_to_compose(input), Ok(expected));
}

#[test]
fn service_node_keeps_set_fields_in_order() {
    let mut service = bare("web");
    service.image = Some("node:18".to_string());
    service.ports = Some(vec!["80:80".to_string()]);
    service.environment = Some(vec!["A=1".to_string(), "B=2".to_string()]);
    let expected = Node::Table(vec![
        (text("image"), text("node:18")),
        (
            text("environment"),
            Node::List(vec![text("A=1"), text("B=2")]),
        ),
        (text("ports"), Node::List(vec![text("80:80")])),
    ]);
    assert_eq!(service_node(&service), expected);
    assert_eq!(service_node(&bare("empty")), Node::Table(vec![]));
}

#[test]
fn later_service_replaces_earlier_of_same_name() {
    let mut first = bare("web");
    first.image = Some("one".to_string());
    let other = bare("db");
    let mut second = bare("web");
    second.image = Some("two".to_string());
    let table = cast_struct_as_value(Vec::new(), &first);
    let table = cast_struct_as_value(table, &other);
    let table = cast_struct_as_value(table, &second);
    assert_eq!(
        table,
        vec![
            (text("web"), Node::Table(vec![(text("image"), text("two"))])),
            (text("db"), Node::Table(vec![])),
        ]
    );
}

#[test]
fn document_always_holds_placement() {
    let document = compose_document(&Vec::new());
    let services = match document.field("services") {
        Some(Node::Table(entries)) => entries,
        _ => panic!("no services"),
    };
    assert_eq!(services.len(), 1);
    assert_eq!(services[0].0, text("placement"));
    assert_eq!(services[0].1, service_node(&default_configuration()));
    assert_eq!(document.field("version"), Some(&text("3.9")));
}

#[test]
fn merge_replaces_what_is_there() {
    let given = vec![(text("services"), text("old")), (text("extra"), text("kept"))];
    let output = merge_configuration_with_networks(given, Vec::new());
    assert_eq!(
        output,
        vec![
            (text("services"), Node::Table(vec![])),
            (text("extra"), text("kept")),
            (text("version"), text("3.9")),
            (
                text("networks"),
                Node::Table(vec![(text("dapr-network"), Node::Table(vec![]))]),
            ),
        ]
    );
}

#[test]
fn language_by_extension() {
    assert_eq!(parse_language("Pulumi.yml"), Language::Yaml);
    assert_eq!(parse_language("dir.d/Pulumi.yaml"), Language::Yaml);
    assert_eq!(parse_language("index.ts"), Language::Typescript);
    assert_eq!(parse_language("main.bicep"), Language::Bicep);
    assert_eq!(parse_language("a.b.json"), Language::Json);
    assert_eq!(parse_language("index.js"), Language::NotSupported);
    assert_eq!(parse_language("dir.yml/Makefile"), Language::NotSupported);
    assert_eq!(parse_language(".yml"), Language::NotSupported);
    assert_eq!(parse_language(""), Language::NotSupported);
    assert_eq!(parse_language("a.yml/"), Language::Yaml);
    assert_eq!(parse_language("dir/a.ts///"), Language::Typescript);
    assert_eq!(parse_language("/"), Language::NotSupported);
    assert_eq!(parse_language("dir/.json/"), Language::NotSupported);
}
