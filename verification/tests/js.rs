use compose_blueprint::document::Node;
use compose_blueprint::pulumi::js::{
    app_from_match, deserialize, get_apps, get_images, image_from_document, normalize_block,
    parse_line, prune_output, render_line, render_value,
};
use compose_blueprint::serializer::{
    BuildContextBluePrint, ConfigurationBluePrint, ContainerAppBluePrint, ContainerBluePrint,
    ContainerImageBluePrint, DaprBluePrint, IngressBluePrint, TemplateBluePrint,
};

const SCRIPT: &str = r####"
const remixImage = new docker.Image("remix", {
    imageName: "node-18",
    build: {
        context: "../frontend",
    },
});

const frontendApp = new app.ContainerApp("frontend", {
    configuration: {
        dapr: {
            enabled: true,
            appPort: 8000,
            appId: "remix",
        },
        ingress: {
            external: true,
            targetPort: 80,
        },
    },
    template: {
        containers: [{
            name: "remix",
            image: remixImage.imageName,
        }],
    },
});"####;

#[test]
fn test_parse_line() {
    let output = parse_line("key: ");
    assert_eq!("\"key\":", output);

    let output = parse_line("key: value");
    assert_eq!("\"key\":\"value\",", output);

    let output = parse_line("\"key\":\"value\"");
    assert_eq!("\"key\":\"value\",", output);

    let output = parse_line("key:\"value\"");
    assert_eq!("\"key\":\"value\",", output);

    let output = parse_line("\"key\":value");
    assert_eq!("\"key\":\"value\",", output);

    let output = parse_line("\"key\":value,");
    assert_eq!("\"key\":\"value\",", output);

    let output = parse_line("\"key\":'value',");
    assert_eq!("\"key\":\"value\",", output);

    let output = parse_line("\"key\":`value`,");
    assert_eq!("\"key\":\"value\",", output);

    let output = parse_line("\"key\":\"node-12\",");
    assert_eq!("\"key\":\"node-12\",", output);

    let output = parse_line("\"key\":\"node:12\",");
    assert_eq!("\"key\":\"node:12\",", output);

    let output = parse_line("\"key\":\"node:12.4\",");
    assert_eq!("\"key\":\"node:12.4\",", output);
}

#[test]
fn js_test_get_images() {
    // No valid resource
    let data = r####"
        const test = new NoResource() {}
        "####;
    let output = get_images(data).unwrap();
    let expected: Vec<ContainerImageBluePrint> = vec![];
    assert_eq!(expected, output);

    // Valid resource name and context with reference
    let data = r####"
        const remixImage = new docker.Image("remix", {
            imageName: pulumi.interpolate`${registry.loginServer}/remix:v1`,
            build: { 
                context: "../frontend",
            },
        });"####;

    let output = get_images(data).unwrap();
    let expected = vec![ContainerImageBluePrint {
        name: Some("remixImage".to_string()),
        build: Some(BuildContextBluePrint {
            context: "../frontend".to_string(),
        }),
        reference_name: Some("remixImage.imageName".to_string()),
    }];

    assert_eq!(expected, output);

    // Valid resource name and context without reference
    let data = r####"
        const remixImage = new docker.Image("remix", {
            imageName: "node-18",
            build: { 
                context: "../frontend",
            },
        });"####;

    let output = get_images(data).unwrap();
    let expected = vec![ContainerImageBluePrint {
        name: Some("remixImage".to_string()),
        build: Some(BuildContextBluePrint {
            context: "../frontend".to_string(),
        }),
        reference_name: Some("remixImage.imageName".to_string()),
    }];

    assert_eq!(expected, output);
}

#[test]
fn js_test_get_apps() {
    // No valid resource
    let data = r####"
                const test = new NoResource() {}
                "####;
    let output = get_apps(data).unwrap();
    let expected: Vec<ContainerAppBluePrint> = vec![];
    assert_eq!(expected, output);
}

#[test]
fn lines_are_normalized() {
    assert_eq!(parse_line("\tkey :\t value \r"), "\"key\":\"value\",");
    assert_eq!(parse_line("port: 8000,"), "\"port\":8000,");
    assert_eq!(parse_line("enabled: true,"), "\"enabled\":true,");
    assert_eq!(parse_line("enabled: false"), "\"enabled\":false,");
    assert_eq!(parse_line("build: {"), "\"build\":{");
    assert_eq!(parse_line("containers: [{"), "\"containers\":[{");
    assert_eq!(parse_line("  }],"), "}],");
    assert_eq!(parse_line("});"), "});");
    assert_eq!(parse_line(""), "");
    assert_eq!(parse_line("   "), "");
    assert_eq!(parse_line("image: 9front"), "\"image\":9front,");
    assert_eq!(parse_line("tag: 1`2"), "\"tag\":1`2,");
    assert_eq!(parse_line("key: a\"'\"b"), "\"key\":\"a\"b\",");
}

#[test]
fn values_and_lines_from_given_captures() {
    assert_eq!(render_value("{", false), "{");
    assert_eq!(render_value("[{", true), "[{");
    assert_eq!(render_value("12", true), "12,");
    assert_eq!(render_value("true", false), "true,");
    assert_eq!(render_value("false", false), "false,");
    assert_eq!(render_value("True", false), "\"True\",");
    assert_eq!(render_value("`a'b`", false), "\"ab\",");
    assert_eq!(render_value("", false), "\"\",");

    let groups = |key: &str, value: Option<&str>| {
        Some(vec![
            None,
            Some(key.to_string()),
            Some(":".to_string()),
            value.map(|v| v.to_string()),
        ])
    };
    assert_eq!(render_line("x", &groups("key", None), false), "\"key\":");
    assert_eq!(
        render_line("x", &groups("\"key\"", Some("\"v\"")), false),
        "\"key\":\"v\","
    );
    assert_eq!(render_line("x", &groups("k", Some("7")), true), "\"k\":7,");
    assert_eq!(render_line("as it is", &None, true), "as it is");
    assert_eq!(render_line("x", &Some(vec![]), false), "\":");
}

#[test]
fn blocks_are_repaired() {
    assert_eq!(prune_output("{\"a\":1,})".to_string()), "{\"a\":1}");
    assert_eq!(prune_output("{\"a\":{\"b\":\"c\",},}".to_string()), "{\"a\":{\"b\":\"c\"}}");
    assert_eq!(prune_output(",})".to_string()), "}");
    assert_eq!(prune_output("plain".to_string()), "plain");
    assert_eq!(
        normalize_block("{\n  name: \"remix\",\n  build: {\n    context: \"../frontend\",\n  },\n})"),
        "{\"name\":\"remix\",\"build\":{\"context\":\"../frontend\"}}"
    );
    assert_eq!(normalize_block("{\r\n a: 1,\r\n}\n\n"), "{\"a\":1}");
}

#[test]
fn image_takes_the_name_of_its_binding() {
    let document = || {
        Some(Node::Table(vec![
            (Node::Text("name".to_string()), Node::Text("node-18".to_string())),
            (
                Node::Text("build".to_string()),
                Node::Table(vec![(
                    Node::Text("context".to_string()),
                    Node::Text("../frontend".to_string()),
                )]),
            ),
        ]))
    };
    assert_eq!(
        image_from_document(document(), Some("remixImage".to_string())),
        Some(ContainerImageBluePrint {
            name: Some("remixImage".to_string()),
            build: Some(BuildContextBluePrint {
                context: "../frontend".to_string()
            }),
            reference_name: Some("remixImage.imageName".to_string()),
        })
    );
    assert_eq!(
        image_from_document(document(), None),
        Some(ContainerImageBluePrint {
            name: Some("node-18".to_string()),
            build: Some(BuildContextBluePrint {
                context: "../frontend".to_string()
            }),
            reference_name: None,
        })
    );
    assert_eq!(image_from_document(None, Some("x".to_string())), None);
    assert_eq!(
        image_from_document(Some(Node::Text("x".to_string())), None),
        None
    );
}

#[test]
fn image_without_build_context_is_read() {
    let data = r####"
                const remixImage = new docker.Image("remix", {
                    imageName: "node-18",
                    
                });"####;
    assert_eq!(
        get_images(data),
        Ok(vec![ContainerImageBluePrint {
            name: Some("remixImage".to_string()),
            build: None,
            reference_name: Some("remixImage.imageName".to_string()),
        }])
    );
}

#[test]
fn malformed_block_fails_the_run() {
    let data = r####"
        const remixImage = new docker.Image("remix", {
            imageName: "node-18",
            build: "../frontend",
        });"####;
    assert_eq!(
        get_images(data),
        Err("A resource does not match its blueprint".to_string())
    );
    assert_eq!(
        deserialize(data),
        Err("A resource does not match its blueprint".to_string())
    );
    let data = r####"
        new app.ContainerApp("frontend", {
            template: {
                containers: [{
                    name: remix
                    image: [{
        });"####;
    assert_eq!(
        get_apps(data),
        Err("A resource does not match its blueprint".to_string())
    );
    assert_eq!(app_from_match(&vec![]), None);
}

#[test]
fn script_is_converted() {
    let apps = get_apps(SCRIPT).unwrap();
    assert_eq!(
        apps,
        vec![ContainerAppBluePrint {
            configuration: Some(ConfigurationBluePrint {
                dapr: Some(DaprBluePrint {
                    app_id: Some("remix".to_string()),
                    app_port: Some(8000),
                    enabled: Some(true),
                }),
                ingress: Some(IngressBluePrint {
                    external: Some(true),
                    target_port: Some(80),
                }),
            }),
            template: Some(TemplateBluePrint {
                containers: Some(vec![ContainerBluePrint {
                    image: "remixImage.imageName".to_string(),
                    name: "remix".to_string(),
                }]),
            }),
        }]
    );
    let services = deserialize(SCRIPT).unwrap();
    assert_eq!(services.len(), 2);
    assert_eq!(services[0].name, "remix");
    assert_eq!(services[0].image, Some("remixImage.imageName".to_string()));
    assert_eq!(services[0].build, None);
    assert_eq!(services[0].ports, Some(vec!["80:8000".to_string()]));
    assert_eq!(services[1].name, "remix_dapr");
    assert_eq!(deserialize(SCRIPT), deserialize(SCRIPT));
}

#[test]
fn script_without_applications_has_nothing_to_convert() {
    assert_eq!(
        deserialize("const x = 1;"),
        Err("No container to deserialize".to_string())
    );
    assert_eq!(
        deserialize(""),
        Err("No container to deserialize".to_string())
    );
}
