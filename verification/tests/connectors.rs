use connect_util::config_map::ConfigMap;
use connect_util::types::{ConfigField, ConnectorDefinition, ConnectorType};

fn map(pairs: &[(&str, &str)]) -> ConfigMap {
    let mut map = ConfigMap::new();
    for (key, value) in pairs {
        map.insert(key.to_string(), value.to_string());
    }
    map
}

fn field(name: &str, values: Option<&[&str]>) -> ConfigField {
    ConfigField {
        name: name.to_string(),
        display_name: name.to_string(),
        description: String::new(),
        field_type: "string".to_string(),
        required: false,
        default_value: None,
        valid_values: values.map(|v| v.iter().map(|s| s.to_string()).collect()),
    }
}

fn definition() -> ConnectorDefinition {
    ConnectorDefinition {
        name: "Test".to_string(),
        display_name: "Test".to_string(),
        connector_class: "Test".to_string(),
        connector_type: ConnectorType::Source,
        description: String::new(),
        required_configs: vec![field("host", None), field("mode", Some(&["a", "b"]))],
        optional_configs: vec![
            field("level", Some(&["low", "high"])),
            field("mode", Some(&["c"])),
            field("free", None),
        ],
        sensitive_configs: vec!["password".to_string(), "token".to_string()],
    }
}

#[test]
fn the_catalog_has_its_sources_before_its_sinks() {
    let all = ConnectorDefinition::get_all_connectors();
    assert_eq!(all.len(), 59);
    assert_eq!(all[0].name, "ActiveMQSource");
    assert_eq!(all[43].name, "ZendeskSource");
    assert_eq!(all[44].name, "AlloyDbSink");
    assert_eq!(all[58].name, "ClickHouseSink");
    assert!(all[..44].iter().all(|c| c.connector_type == ConnectorType::Source));
    assert!(all[44..].iter().all(|c| c.connector_type == ConnectorType::Sink));
}

#[test]
fn the_names_of_the_catalog_are_pairwise_distinct() {
    let all = ConnectorDefinition::get_all_connectors();
    for (i, a) in all.iter().enumerate() {
        for b in &all[i + 1..] {
            assert_ne!(a.name, b.name);
        }
    }
}

#[test]
fn every_entry_is_found_by_its_name() {
    for entry in ConnectorDefinition::get_all_connectors() {
        let found = ConnectorDefinition::get_connector_by_name(&entry.name).unwrap();
        assert_eq!(format!("{:?}", found), format!("{:?}", entry));
    }
}

#[test]
fn an_entry_is_found_by_its_name_and_by_nothing_else() {
    let found = ConnectorDefinition::get_connector_by_name("PostgresCdcSourceV2").unwrap();
    assert_eq!(found.display_name, "PostgreSQL CDC Source V2 (Debezium)");
    assert!(ConnectorDefinition::get_connector_by_name("PostgreSQL CDC Source V2 (Debezium)")
        .is_none());
    assert!(ConnectorDefinition::get_connector_by_name("postgrescdcsourcev2").is_none());
    assert!(ConnectorDefinition::get_connector_by_name("").is_none());
    assert!(ConnectorDefinition::get_connector_by_name("PostgresCdcSourceV2 ").is_none());
}

#[test]
fn connectors_of_a_type_keep_the_order_of_the_catalog() {
    let all = ConnectorDefinition::get_all_connectors();
    for connector_type in [ConnectorType::Source, ConnectorType::Sink] {
        let some = ConnectorDefinition::get_connectors_by_type(&connector_type);
        let expected: Vec<&str> = all
            .iter()
            .filter(|c| c.connector_type == connector_type)
            .map(|c| c.name.as_str())
            .collect();
        let names: Vec<&str> = some.iter().map(|c| c.name.as_str()).collect();
        assert_eq!(names, expected);
    }
    assert_eq!(ConnectorDefinition::get_connectors_by_type(&ConnectorType::Source).len(), 44);
    assert_eq!(ConnectorDefinition::get_connectors_by_type(&ConnectorType::Sink).len(), 15);
}

#[test]
fn the_entry_of_a_source_holds_what_the_catalog_says() {
    let entry = ConnectorDefinition::get_connector_by_name("ActiveMQSource").unwrap();
    assert_eq!(entry.display_name, "ActiveMQ Source");
    assert_eq!(entry.connector_class, "ActiveMQSource");
    assert_eq!(entry.description, "Read messages from ActiveMQ queues");
    let required: Vec<&str> = entry.required_configs.iter().map(|f| f.name.as_str()).collect();
    assert_eq!(required, vec!["activemq.broker.url", "activemq.queue.name"]);
    assert!(entry.required_configs.iter().all(|f| f.required && f.default_value.is_none()));
    assert_eq!(entry.optional_configs.len(), 7);
    let mode = &entry.optional_configs[5];
    assert_eq!(mode.name, "activemq.session.acknowledge.mode");
    assert_eq!(mode.display_name, "activemq.session.acknowledge.mode");
    assert_eq!(mode.description, "ActiveMQ session acknowledge mode");
    assert_eq!(mode.field_type, "string");
    assert!(!mode.required);
    assert_eq!(
        mode.valid_values,
        Some(vec![
            "AUTO_ACKNOWLEDGE".to_string(),
            "CLIENT_ACKNOWLEDGE".to_string(),
            "DUPS_OK_ACKNOWLEDGE".to_string()
        ])
    );
    assert_eq!(entry.sensitive_configs, vec!["activemq.password".to_string()]);
}

#[test]
fn the_change_data_capture_source_requires_a_topic_prefix_and_the_sink_does_not() {
    let source = ConnectorDefinition::get_connector_by_name("PostgresCdcSourceV2").unwrap();
    assert!(source.required_configs.iter().any(|f| f.name == "topic.prefix"));
    let sink = ConnectorDefinition::get_connector_by_name("PostgresSink").unwrap();
    assert_eq!(sink.connector_type, ConnectorType::Sink);
    assert!(!sink.required_configs.iter().any(|f| f.name == "topic.prefix"));
}

#[test]
fn a_field_is_looked_up_among_the_required_fields_first() {
    let definition = definition();
    assert_eq!(
        definition.field_for("mode").unwrap().valid_values,
        Some(vec!["a".to_string(), "b".to_string()])
    );
    assert_eq!(definition.field_for("free").unwrap().valid_values, None);
    assert!(definition.field_for("password").is_none());
    assert!(definition.field_for("").is_none());
}

#[test]
fn a_configuration_with_every_required_field_is_valid() {
    let definition = definition();
    assert_eq!(
        definition.validate_config(&map(&[("host", "h"), ("mode", "a")]), &map(&[])),
        Ok(())
    );
    assert_eq!(
        definition.validate_config(&map(&[("host", "h")]), &map(&[("mode", "b")])),
        Ok(())
    );
    assert_eq!(
        definition.validate_config(&map(&[]), &map(&[("mode", "b"), ("host", "")])),
        Ok(())
    );
}

#[test]
fn fields_that_the_definition_does_not_know_do_no_harm() {
    let definition = definition();
    assert_eq!(
        definition.validate_config(
            &map(&[("host", "h"), ("unknown", "x"), ("mode", "a"), ("", "")]),
            &map(&[("another", "y")])
        ),
        Ok(())
    );
}

#[test]
fn the_first_required_field_that_is_not_set_is_reported() {
    let definition = definition();
    assert_eq!(
        definition.validate_config(&map(&[]), &map(&[])),
        Err("Missing required configuration: host".to_string())
    );
    assert_eq!(
        definition.validate_config(&map(&[("host", "h")]), &map(&[])),
        Err("Missing required configuration: mode".to_string())
    );
    assert_eq!(
        definition.validate_config(&map(&[("password", "p"), ("mode", "z")]), &map(&[])),
        Err("Missing required configuration: host".to_string())
    );
}

#[test]
fn a_sensitive_setting_among_the_others_is_reported_unless_it_is_empty() {
    let definition = definition();
    assert_eq!(
        definition.validate_config(
            &map(&[("host", "h"), ("mode", "z"), ("token", "t"), ("password", "p")]),
            &map(&[])
        ),
        Err("Sensitive configuration 'password' should be in config_sensitive block".to_string())
    );
    assert_eq!(
        definition.validate_config(
            &map(&[("host", "h"), ("mode", "a"), ("token", "t"), ("password", "")]),
            &map(&[("token", "t")])
        ),
        Err("Sensitive configuration 'token' should be in config_sensitive block".to_string())
    );
    assert_eq!(
        definition.validate_config(
            &map(&[("host", "h"), ("mode", "a"), ("token", ""), ("password", "")]),
            &map(&[("password", "p")])
        ),
        Ok(())
    );
}

#[test]
fn the_first_setting_with_a_value_that_is_not_valid_is_reported() {
    let definition = definition();
    assert_eq!(
        definition.validate_config(
            &map(&[("host", "h"), ("level", "mid"), ("mode", "c")]),
            &map(&[])
        ),
        Err("Invalid value 'mid' for field 'level'. Valid values: [\"low\", \"high\"]".to_string())
    );
    assert_eq!(
        definition.validate_config(
            &map(&[("host", "h"), ("mode", "c"), ("level", "mid")]),
            &map(&[])
        ),
        Err("Invalid value 'c' for field 'mode'. Valid values: [\"a\", \"b\"]".to_string())
    );
    assert_eq!(
        definition.validate_config(&map(&[("host", "h"), ("mode", "")]), &map(&[])),
        Err("Invalid value '' for field 'mode'. Valid values: [\"a\", \"b\"]".to_string())
    );
}

#[test]
fn the_valid_values_are_listed_as_debug_formatting_writes_them() {
    let mut definition = definition();
    definition.optional_configs[0].valid_values =
        Some(vec!["with \"quotes\"".to_string(), "back\\slash".to_string(), "tab\t".to_string()]);
    assert_eq!(
        definition.validate_config(
            &map(&[("host", "h"), ("mode", "a"), ("level", "x")]),
            &map(&[])
        ),
        Err("Invalid value 'x' for field 'level'. Valid values: [\"with \\\"quotes\\\"\", \"back\\\\slash\", \"tab\\t\"]".to_string())
    );
    definition.optional_configs[0].valid_values = Some(vec![]);
    assert_eq!(
        definition.validate_config(
            &map(&[("host", "h"), ("mode", "a"), ("level", "x")]),
            &map(&[])
        ),
        Err("Invalid value 'x' for field 'level'. Valid values: []".to_string())
    );
}

#[test]
fn a_sensitive_setting_lies_over_the_same_setting_among_the_others() {
    // The sensitive block wins where both blocks set a key: this is how the
    // two blocks are merged, whether or not it was ever meant.
    let definition = definition();
    assert_eq!(
        definition.validate_config(&map(&[("host", "h"), ("mode", "z")]), &map(&[("mode", "a")])),
        Ok(())
    );
    assert_eq!(
        definition.validate_config(&map(&[("host", "h"), ("mode", "a")]), &map(&[("mode", "z")])),
        Err("Invalid value 'z' for field 'mode'. Valid values: [\"a\", \"b\"]".to_string())
    );
    // The merged settings keep the place of the key in the first block.
    assert_eq!(
        definition.validate_config(
            &map(&[("mode", "a"), ("level", "mid"), ("host", "h")]),
            &map(&[("mode", "z")])
        ),
        Err("Invalid value 'z' for field 'mode'. Valid values: [\"a\", \"b\"]".to_string())
    );
}

#[test]
fn the_rules_are_applied_in_their_order() {
    let definition = definition();
    assert_eq!(
        definition.validate_config(&map(&[("password", "p"), ("level", "mid")]), &map(&[])),
        Err("Missing required configuration: host".to_string())
    );
    assert_eq!(
        definition.validate_config(
            &map(&[("host", "h"), ("mode", "z"), ("password", "p")]),
            &map(&[])
        ),
        Err("Sensitive configuration 'password' should be in config_sensitive block".to_string())
    );
}

#[test]
fn a_definition_without_fields_accepts_everything_that_is_well_placed() {
    let definition = ConnectorDefinition {
        name: "Empty".to_string(),
        display_name: "Empty".to_string(),
        connector_class: "Empty".to_string(),
        connector_type: ConnectorType::Sink,
        description: String::new(),
        required_configs: vec![],
        optional_configs: vec![],
        sensitive_configs: vec![],
    };
    assert_eq!(definition.validate_config(&map(&[]), &map(&[])), Ok(()));
    assert_eq!(definition.validate_config(&map(&[("a", "b")]), &map(&[("c", "d")])), Ok(()));
}
