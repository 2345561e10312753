use oscavmgr::oscjson::{
    convert_vrchat_to_oscquery, osc_type, put_entry, OscJsonEntry, OscJsonNode, VRChatAvatarConfig,
    VRChatParameter, VRChatParameterIO,
};

fn leaf_at(path: &str) -> OscJsonNode {
    OscJsonNode::leaf(path.to_string(), 1, Some("f".to_string()))
}

fn node_with(path: &str, children: Vec<(&str, OscJsonNode)>) -> OscJsonNode {
    OscJsonNode {
        full_path: path.to_string(),
        access: 0,
        data_type: None,
        contents: Some(
            children
                .into_iter()
                .map(|(name, node)| OscJsonEntry { name: name.to_string(), node })
                .collect(),
        ),
    }
}

fn sample_tree() -> OscJsonNode {
    node_with(
        "/avatar",
        vec![
            ("name", leaf_at("/avatar/name")),
            (
                "parameters",
                node_with(
                    "/avatar/parameters",
                    vec![
                        ("VSync", leaf_at("/avatar/parameters/VSync")),
                        (
                            "FT",
                            node_with(
                                "/avatar/parameters/FT",
                                vec![("v2", node_with("/avatar/parameters/FT/v2", vec![("JawOpen", leaf_at("/avatar/parameters/FT/v2/JawOpen"))]))],
                            ),
                        ),
                        ("", leaf_at("/avatar/parameters/")),
                    ],
                ),
            ),
        ],
    )
}

fn io(address: &str, param_type: &str) -> Option<VRChatParameterIO> {
    Some(VRChatParameterIO { address: address.to_string(), param_type: param_type.to_string() })
}

#[test]
fn get_follows_the_parts_of_a_path() {
    let tree = sample_tree();
    assert_eq!(tree.get("parameters").unwrap().full_path, "/avatar/parameters");
    assert_eq!(tree.get("parameters/VSync").unwrap().full_path, "/avatar/parameters/VSync");
    assert_eq!(
        tree.get("parameters/FT/v2/JawOpen").unwrap().full_path,
        "/avatar/parameters/FT/v2/JawOpen"
    );
    assert_eq!(tree.get("name").unwrap().full_path, "/avatar/name");
}

#[test]
fn get_fails_on_a_missing_part() {
    let tree = sample_tree();
    assert!(tree.get("missing").is_none());
    assert!(tree.get("parameters/FT/v3").is_none());
    assert!(tree.get("name/more").is_none());
    assert!(tree.get("").is_none());
    assert!(tree.get("/parameters").is_none());
    assert!(tree.get("Parameters").is_none());
}

#[test]
fn get_takes_an_empty_part_as_a_name() {
    let tree = sample_tree();
    assert_eq!(tree.get("parameters/").unwrap().full_path, "/avatar/parameters/");
    assert!(tree.get("parameters//x").is_none());
}

#[test]
fn child_finds_the_first_entry_of_a_name() {
    let tree = node_with("/a", vec![("x", leaf_at("/a/first")), ("x", leaf_at("/a/second"))]);
    assert_eq!(tree.child("x").unwrap().full_path, "/a/first");
    assert!(tree.child("y").is_none());
    assert!(leaf_at("/a").child("x").is_none());
}

#[test]
fn has_vsync_looks_below_parameters() {
    assert!(sample_tree().has_vsync());
    let without = node_with("/avatar", vec![("parameters", node_with("/avatar/parameters", vec![("Other", leaf_at("/avatar/parameters/Other"))]))]);
    assert!(!without.has_vsync());
    let elsewhere = node_with("/avatar", vec![("VSync", leaf_at("/avatar/VSync"))]);
    assert!(!elsewhere.has_vsync());
    assert!(!leaf_at("/avatar").has_vsync());
}

#[test]
fn type_names_become_type_tags() {
    assert_eq!(osc_type("Float"), "f");
    assert_eq!(osc_type("Int"), "i");
    assert_eq!(osc_type("Bool"), "b");
    assert_eq!(osc_type("Anything"), "f");
    assert_eq!(osc_type("int"), "f");
}

#[test]
fn put_entry_replaces_or_appends() {
    let mut entries = vec![
        OscJsonEntry { name: "a".to_string(), node: leaf_at("/1") },
        OscJsonEntry { name: "b".to_string(), node: leaf_at("/2") },
    ];
    put_entry(&mut entries, "a".to_string(), leaf_at("/3"));
    put_entry(&mut entries, "c".to_string(), leaf_at("/4"));
    let seen: Vec<(&str, &str)> =
        entries.iter().map(|e| (e.name.as_str(), e.node.full_path.as_str())).collect();
    assert_eq!(seen, vec![("a", "/3"), ("b", "/2"), ("c", "/4")]);
}

#[test]
fn avatar_description_becomes_a_tree() {
    let config = VRChatAvatarConfig {
        id: "avtr_1".to_string(),
        name: "Test".to_string(),
        parameters: vec![
            VRChatParameter {
                name: "JawOpen".to_string(),
                input: io("/avatar/parameters/FT/v2/JawOpen", "Float"),
                output: io("/avatar/parameters/FT/v2/JawOpen", "Float"),
            },
            VRChatParameter { name: "ReadOnly".to_string(), input: None, output: io("/avatar/parameters/ReadOnly", "Bool") },
            VRChatParameter { name: "Odd".to_string(), input: io("/elsewhere/Odd", "Int"), output: None },
            VRChatParameter { name: "VSync".to_string(), input: io("/avatar/parameters/VSync", "Bool"), output: None },
        ],
    };
    let root = convert_vrchat_to_oscquery(config);
    assert_eq!(root.full_path, "/avatar");
    assert_eq!(root.access, 0);
    assert_eq!(root.data_type, None);
    assert_eq!(root.contents.as_ref().unwrap().len(), 1);
    let parameters = root.get("parameters").unwrap();
    assert_eq!(parameters.full_path, "/avatar/parameters");
    let entries = parameters.contents.as_ref().unwrap();
    let names: Vec<&str> = entries.iter().map(|e| e.name.as_str()).collect();
    assert_eq!(names, vec!["FT/v2/JawOpen", "Odd", "VSync"]);
    assert_eq!(entries[0].node, OscJsonNode::leaf("/avatar/parameters/FT/v2/JawOpen".to_string(), 2, Some("f".to_string())));
    assert_eq!(entries[1].node, OscJsonNode::leaf("/elsewhere/Odd".to_string(), 2, Some("i".to_string())));
    assert_eq!(entries[2].node, OscJsonNode::leaf("/avatar/parameters/VSync".to_string(), 2, Some("b".to_string())));
    assert!(root.has_vsync());
}

#[test]
fn a_later_parameter_replaces_one_of_the_same_name() {
    let config = VRChatAvatarConfig {
        id: String::new(),
        name: String::new(),
        parameters: vec![
            VRChatParameter { name: "A".to_string(), input: io("/avatar/parameters/X", "Float"), output: None },
            VRChatParameter { name: "B".to_string(), input: io("/avatar/parameters/Y", "Float"), output: None },
            VRChatParameter { name: "X".to_string(), input: io("/other/X", "Bool"), output: None },
        ],
    };
    let root = convert_vrchat_to_oscquery(config);
    let entries = root.get("parameters").unwrap().contents.as_ref().unwrap();
    assert_eq!(entries.len(), 2);
    assert_eq!(entries[0].name, "X");
    assert_eq!(entries[0].node.full_path, "/other/X");
    assert_eq!(entries[0].node.data_type.as_deref(), Some("b"));
    assert_eq!(entries[1].name, "Y");
}

#[test]
fn an_empty_description_gives_empty_parameters() {
    let root = convert_vrchat_to_oscquery(VRChatAvatarConfig {
        id: String::new(),
        name: String::new(),
        parameters: vec![],
    });
    assert_eq!(root.get("parameters").unwrap().contents, Some(vec![]));
    assert!(!root.has_vsync());
}
