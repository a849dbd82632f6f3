use compose_blueprint::codec::{emit_yaml, parse_json, parse_yaml};
use compose_blueprint::decode::{decode_application, decode_dapr, decode_image, decode_ingress};
use compose_blueprint::document::{insert_entry, Node};
use compose_blueprint::pulumi::deserialize_yaml;
use compose_blueprint::pulumi::yaml::{
    deserialize, deserialize_document, filter_by_type, get_apps, get_images,
};
use compose_blueprint::serializer::{
    BuildContext, BuildContextBluePrint, ConfigurationBluePrint, ContainerAppBluePrint,
    ContainerAppConfiguration, ContainerBluePrint, ContainerImageBluePrint, DaprBluePrint,
    IngressBluePrint, TemplateBluePrint,
};

fn text(s: &str) -> Node {
    Node::Text(s.to_string())
}

fn table(entries: Vec<(&str, Node)>) -> Node {
    Node::Table(entries.into_iter().map(|(k, v)| (text(k), v)).collect())
}

fn resources_of(document: &str) -> Vec<(Node, Node)> {
    let value = parse_yaml(document).unwrap();
    match value {
        Node::Table(mut entries) => match entries.remove(0).1 {
            Node::Table(resources) => resources,
            _ => panic!("A mapping need to be generated"),
        },
        _ => panic!("Resources need to be defined"),
    }
}

#[test]
fn yaml_test_get_images() {
    let images = r#"
      resources:
        myImage:
          type: docker:RegistryImage
          properties:
            name: ${registry.loginServer}/node-app:v1.0.0
            build:
              context: ${pulumi.cwd}/node-app
          options:
            provider: ${provider}
        myImageNotWorking:
          type: docker:RegistryImageNotWorking
          properties:
            name: ${registry.loginServer}/node-app:v1.0.0
            build:
              context: ${pulumi.cwd}/node-app
          options:
            provider: ${provider}
      "#;
    let as_mapping = resources_of(images);

    let output = get_images(&as_mapping).unwrap();

    let expected = vec![ContainerImageBluePrint {
        reference_name: Some("myImage".to_string()),
        name: Some("${registry.loginServer}/node-app:v1.0.0".to_string()),
        build: Some(BuildContextBluePrint {
            context: "${pulumi.cwd}/node-app".to_string(),
        }),
    }];

    assert_eq!(expected, output);
}

#[test]
fn yaml_test_get_apps() {
    let apps = r#"
      resources:
        containerapp:
          type: azure-native:app:ContainerApp
          properties:
            configuration:
              ingress:
                external: true
                targetPort: 80
              dapr:
                appPort: 3000
                enabled: true
                appId: myapp
            template:
              containers:
                - image: ${myImage.name}
                  name: myapp
        containerappnotworking:
          type: azure-native:app:ContainerAppNotWorking
          properties:
            configuration:
              ingress:
                external: true
                targetPort: 80
              dapr:
                appPort: 3000
                enabled: true
                appId: myapp
            template:
              containers:
                - image: ${myImage.name}
                  name: myapp
      "#;

    let as_mapping = resources_of(apps);

    let output = get_apps(&as_mapping).unwrap();

    let expected = vec![ContainerAppBluePrint {
        configuration: Some(ConfigurationBluePrint {
            ingress: Some(IngressBluePrint {
                external: Some(true),
                target_port: Some(80),
            }),
            dapr: Some(DaprBluePrint {
                app_id: Some("myapp".to_string()),
                app_port: Some(3000),
                enabled: Some(true),
            }),
        }),
        template: Some(TemplateBluePrint {
            containers: Some(vec![ContainerBluePrint {
                name: "myapp".to_string(),
                image: "${myImage.name}".to_string(),
            }]),
        }),
    }];

    assert_eq!(expected, output);
}

#[test]
fn test_deserialize() {
    let wrong_format = r#"
          resources:
               containerapp:
              type: azure-native:app:ContainerApp
              properties:
                configuration:
                  ingress:
                    external: true
                    target_port: 80
                  dapr:
                    app_port: 8000
                    enabled: true
                    app_id: myapp
                template:
                  containers:
                    - image: ${myImage.name}
                      name: myapp
          "#;

    let output = deserialize(wrong_format);

    assert_eq!(Err("An error occured".to_string()), output);
}

#[test]
fn end_to_end() {
    let input = r#"
resources:
  myImage:
    type: docker:RegistryImage
    properties:
      name: ${registry.loginServer}/node-app:v1.0.0
      build:
        context: ${pulumi.cwd}/node-app
  myapp:
    type: azure-native:app:ContainerApp
    properties:
      configuration:
        ingress:
          external: false
        dapr:
          appPort: 3000
          enabled: true
          appId: myapp
      template:
        containers:
          - name: myapp
            image: ${myImage.name}
"#;
    let expected = vec![
        ContainerAppConfiguration {
            name: "myapp".to_string(),
            depends_on: Some(vec!["placement".to_string()]),
            networks: Some(vec!["dapr-network".to_string()]),
            image: None,
            environment: None,
            ports: None,
            command: None,
            network_mode: None,
            build: Some(BuildContext {
                context: "./node-app".to_string(),
            }),
        },
        ContainerAppConfiguration {
            name: "myapp_dapr".to_string(),
            depends_on: Some(vec!["myapp".to_string()]),
            networks: None,
            image: Some("daprio/daprd:edge".to_string()),
            environment: None,
            ports: None,
            command: Some(vec![
                "./daprd".to_string(),
                "-app-id".to_string(),
                "myapp".to_string(),
                "-app-port".to_string(),
                "3000".to_string(),
                "-placement-host-address".to_string(),
                "placement:50006".to_string(),
                "air".to_string(),
            ]),
            network_mode: Some("service:myapp".to_string()),
            build: None,
        },
    ];
    assert_eq!(deserialize(input), Ok(expected));
    assert_eq!(deserialize(input), deserialize(input));
}

#[test]
fn run_fails_on_what_is_missing() {
    assert_eq!(
        deserialize("other: 1"),
        Err("Resources need to be defined".to_string())
    );
    assert_eq!(
        deserialize("just a text"),
        Err("Resources need to be defined".to_string())
    );
    assert_eq!(
        deserialize("resources: [a, b]"),
        Err("A mapping need to be generated".to_string())
    );
    assert_eq!(
        deserialize("resources: {}"),
        Err("No container to deserialize".to_string())
    );
    assert_eq!(
        deserialize("resources:\n  other:\n    type: storage\n"),
        Err("No container to deserialize".to_string())
    );
    assert_eq!(
        deserialize_document(None),
        Err("An error occured".to_string())
    );
    assert_eq!(
        deserialize_document(Some(table(vec![("resources", Node::Null)]))),
        Err("A mapping need to be generated".to_string())
    );
}

#[test]
fn malformed_resource_fails_the_run() {
    let malformed = "A resource does not match its blueprint".to_string();
    let no_properties = "resources:\n  app:\n    type: azure-native:app:ContainerApp\n";
    assert_eq!(deserialize(no_properties), Err(malformed.clone()));
    let bad_port = r#"
resources:
  app:
    type: azure-native:app:ContainerApp
    properties:
      configuration:
        ingress:
          targetPort: eighty
"#;
    assert_eq!(deserialize(bad_port), Err(malformed.clone()));
    let bad_image = r#"
resources:
  image:
    type: docker:RegistryImage
    properties:
      build: ./here
  app:
    type: azure-native:app:ContainerApp
    properties: {}
"#;
    assert_eq!(deserialize(bad_image), Err(malformed.clone()));
    let key_is_no_text = vec![(
        Node::Number(Some(1)),
        table(vec![
            ("type", text("docker:RegistryImage")),
            ("properties", table(vec![])),
        ]),
    )];
    assert_eq!(get_images(&key_is_no_text), Err(malformed.clone()));
    assert_eq!(get_apps(&key_is_no_text), Ok(vec![]));
}

#[test]
fn application_without_containers_fails_the_run() {
    let input = "{resources: {a: {type: 'azure-native:app:ContainerApp', properties: {configuration: {}, template: {containers: [{name: a, image: x}]}}}, b: {type: 'azure-native:app:ContainerApp', properties: {configuration: {}}}}}";
    assert_eq!(
        deserialize(input),
        Err("A resource does not match its blueprint".to_string())
    );
    assert_eq!(deserialize_yaml(input), None);
    let no_list = "{resources: {b: {type: 'azure-native:app:ContainerApp', properties: {template: {}}}}}";
    assert_eq!(deserialize_yaml(no_list), None);
    let only_a = "{resources: {a: {type: 'azure-native:app:ContainerApp', properties: {template: {containers: [{name: a, image: 'node:18'}]}}}}}";
    let services = deserialize_yaml(only_a).unwrap();
    assert_eq!(services.len(), 1);
    assert_eq!(services[0].name, "a");
    assert_eq!(services[0].image, Some("node:18".to_string()));
    assert_eq!(services[0].build, None);
}

#[test]
fn resources_are_told_apart_by_type() {
    let image = table(vec![("type", text("docker:RegistryImage"))]);
    assert!(filter_by_type(&image, "docker:RegistryImage"));
    assert!(!filter_by_type(&image, "azure-native:app:ContainerApp"));
    assert!(!filter_by_type(&table(vec![("type", Node::Bool(true))]), "true"));
    assert!(!filter_by_type(&table(vec![]), ""));
    assert!(!filter_by_type(&text("docker:RegistryImage"), "docker:RegistryImage"));
}

#[test]
fn blueprints_are_read_from_tables() {
    assert_eq!(
        decode_dapr(&table(vec![])),
        Some(DaprBluePrint {
            app_port: None,
            enabled: None,
            app_id: None
        })
    );
    assert_eq!(
        decode_dapr(&table(vec![
            ("appPort", Node::Number(Some(4294967295))),
            ("enabled", Node::Null),
            ("appId", text("a")),
            ("unknown", Node::List(vec![])),
        ])),
        Some(DaprBluePrint {
            app_port: Some(4294967295),
            enabled: None,
            app_id: Some("a".to_string())
        })
    );
    assert_eq!(
        decode_dapr(&table(vec![("appPort", Node::Number(Some(4294967296)))])),
        None
    );
    assert_eq!(decode_dapr(&table(vec![("appPort", Node::Number(None))])), None);
    assert_eq!(decode_dapr(&table(vec![("enabled", text("true"))])), None);
    assert_eq!(decode_dapr(&Node::List(vec![])), None);
    assert_eq!(decode_ingress(&Node::Null), None);
    assert_eq!(
        decode_ingress(&table(vec![("external", Node::Bool(false))])),
        Some(IngressBluePrint {
            external: Some(false),
            target_port: None
        })
    );
    assert_eq!(
        decode_image(&table(vec![("reference_name", text("given"))])),
        Some(ContainerImageBluePrint {
            name: None,
            build: None,
            reference_name: Some("given".to_string())
        })
    );
    assert_eq!(decode_image(&table(vec![("build", table(vec![]))])), None);
    assert_eq!(decode_application(&table(vec![("template", table(vec![]))])), None);
    assert_eq!(decode_application(&table(vec![("configuration", table(vec![]))])), None);
    assert_eq!(decode_application(&table(vec![])), None);
    assert_eq!(
        decode_application(&table(vec![(
            "template",
            table(vec![("containers", Node::List(vec![]))])
        )])),
        Some(ContainerAppBluePrint {
            configuration: None,
            template: Some(TemplateBluePrint {
                containers: Some(vec![])
            })
        })
    );
    assert_eq!(
        decode_application(&table(vec![(
            "template",
            table(vec![(
                "containers",
                Node::List(vec![table(vec![("name", text("only a name"))])])
            )])
        )])),
        None
    );
}

#[test]
fn texts_are_read_as_trees() {
    let expected = table(vec![
        ("a", Node::Number(Some(1))),
        ("b", Node::List(vec![Node::Bool(true), Node::Null, text("x")])),
        ("c", table(vec![("d", Node::Number(None))])),
    ]);
    assert_eq!(parse_yaml("a: 1\nb: [true, null, x]\nc:\n  d: -1\n"), Some(expected));
    assert_eq!(parse_yaml("a: [1"), None);
    assert_eq!(
        parse_json("{\"a\": 1, \"b\": [true, null, \"x\"]}"),
        Some(table(vec![
            ("a", Node::Number(Some(1))),
            ("b", Node::List(vec![Node::Bool(true), Node::Null, text("x")])),
        ]))
    );
    assert_eq!(parse_json("{\"a\": 1,}"), None);
    assert_eq!(parse_yaml("!tagged value"), Some(text("value")));
}

#[test]
fn trees_are_written_as_texts() {
    let tree = table(vec![
        ("version", text("3.9")),
        ("ports", Node::List(vec![text("80:80"), Node::Number(Some(7))])),
        ("none", Node::Table(vec![])),
    ]);
    assert_eq!(
        emit_yaml(&tree).unwrap(),
        "version: '3.9'\nports:\n- 80:80\n- 7\nnone: {}\n"
    );
    assert_eq!(parse_yaml(&emit_yaml(&tree).unwrap()), Some(tree));
}

#[test]
fn entries_are_looked_up_and_replaced() {
    let mut entries = vec![
        (text("a"), text("1")),
        (Node::Number(Some(2)), text("two")),
        (text("a"), text("3")),
    ];
    let before = Node::Table(vec![
        (text("a"), text("1")),
        (Node::Number(Some(2)), text("two")),
        (text("a"), text("3")),
    ]);
    assert_eq!(before.field("a"), Some(&text("1")));
    assert_eq!(before.field("2"), None);
    assert_eq!(text("a").field("a"), None);
    assert_eq!(table(vec![("n", Node::Null)]).given("n"), None);
    assert_eq!(table(vec![("n", Node::Null)]).field("n"), Some(&Node::Null));
    insert_entry(&mut entries, "a".to_string(), text("new"));
    insert_entry(&mut entries, "b".to_string(), text("last"));
    assert_eq!(
        entries,
        vec![
            (text("a"), text("new")),
            (Node::Number(Some(2)), text("two")),
            (text("a"), text("3")),
            (text("b"), text("last")),
        ]
    );
}
