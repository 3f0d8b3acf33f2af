use connect_util::document::{TfBody, TfExpression, TfKey, TfObject, TfStructure};
use connect_util::terraform::TerraformGenerator;
use connect_util::types::{
    ConfigField, ConnectorDefinition, ConnectorType, DataFormat, TerraformConfigOptions,
};
use connect_util::ConnectUtilError;

fn create_test_connector() -> ConnectorDefinition {
    ConnectorDefinition {
        name: "PostgresSink".to_string(),
        display_name: "PostgreSQL Sink".to_string(),
        description: "PostgreSQL Sink Connector".to_string(),
        connector_class: "io.confluent.connect.jdbc.JdbcSinkConnector".to_string(),
        connector_type: ConnectorType::Sink,
        required_configs: vec![],
        optional_configs: vec![],
        sensitive_configs: vec!["password".to_string()],
    }
}

fn bare_connector(name: &str, connector_type: ConnectorType) -> ConnectorDefinition {
    ConnectorDefinition {
        name: name.to_string(),
        display_name: name.to_string(),
        description: name.to_string(),
        connector_class: name.to_string(),
        connector_type,
        required_configs: vec![],
        optional_configs: vec![],
        sensitive_configs: vec![],
    }
}

fn options_for(connector: ConnectorDefinition, name: &str, topics: &[&str]) -> TerraformConfigOptions {
    TerraformConfigOptions {
        connector_name: name.to_string(),
        connector,
        topics: topics.iter().map(|t| t.to_string()).collect(),
        input_data_format: None,
        output_data_format: None,
    }
}

fn entry<'a>(object: &'a TfObject, key: &str) -> Option<&'a TfExpression> {
    object.entries.iter().find(|(k, _)| k.text() == key).map(|(_, v)| v)
}

fn text_of(e: &TfExpression) -> &str {
    match e {
        TfExpression::String(s) => s,
        other => panic!("no string: {:?}", other),
    }
}

fn reference_of(e: &TfExpression) -> (String, Vec<String>) {
    match e {
        TfExpression::Traversal { root, attrs } => match &**root {
            TfExpression::Variable(name) => (name.clone(), attrs.clone()),
            other => panic!("no variable: {:?}", other),
        },
        other => panic!("no reference: {:?}", other),
    }
}

#[test]
fn test_generate_connector_config() {
    let generator = TerraformGenerator;
    let connector = create_test_connector();

    let options = TerraformConfigOptions {
        connector_name: "test-connector".to_string(),
        connector,
        topics: vec!["test-topic".to_string()],
        input_data_format: None,
        output_data_format: None,
    };

    let result = generator.generate_connector_config(options);
    assert!(result.is_ok());

    let terraform = result.unwrap();
    assert!(terraform.contains("resource \"confluent_connector\" \"test_connector\""));
    assert!(terraform.contains("status = var.status"));
    assert!(terraform.contains("environment {"));
    assert!(terraform.contains("id = var.environment_id"));
    assert!(terraform.contains("kafka_cluster {"));
    assert!(terraform.contains("id = var.kafka_cluster.id"));
    assert!(terraform.contains("config_sensitive = {"));
    assert!(terraform.contains("config_nonsensitive = {"));
    assert!(terraform.contains("connector.class\" = \"io.confluent.connect.jdbc.JdbcSinkConnector\""));
    assert!(terraform.contains("lifecycle {"));
    assert!(terraform.contains("ignore_changes = ["));
}

#[test]
fn test_generate_connector_config_production() {
    let generator = TerraformGenerator;
    let connector = create_test_connector();

    let options = TerraformConfigOptions {
        connector_name: "test-connector".to_string(),
        connector,
        topics: vec![],
        input_data_format: None,
        output_data_format: None,
    };

    let result = generator.generate_connector_config(options);
    assert!(result.is_ok());

    let terraform = result.unwrap();
    assert!(terraform.contains("resource \"confluent_connector\""));
    assert!(terraform.contains("status = var.status"));
    assert!(terraform.contains("environment {"));
    assert!(terraform.contains("kafka_cluster {"));
    assert!(terraform.contains("lifecycle {"));
}

#[test]
fn test_add_connector_specific_config_postgres() {
    let mut config_obj = TfObject::new();
    let connector = ConnectorDefinition {
        name: "PostgresCdcSourceV2".to_string(),
        display_name: "PostgreSQL CDC Source V2".to_string(),
        description: "PostgreSQL CDC Source V2 Connector".to_string(),
        connector_class: "io.debezium.connector.postgresql.PostgresConnector".to_string(),
        connector_type: ConnectorType::Source,
        required_configs: vec![],
        optional_configs: vec![],
        sensitive_configs: vec![],
    };

    let options = TerraformConfigOptions {
        connector_name: "test".to_string(),
        connector: connector.clone(),
        topics: vec![],
        input_data_format: None,
        output_data_format: None,
    };
    let result = TerraformGenerator::add_connector_specific_config_to_object(
        &mut config_obj,
        &connector,
        &options,
    );
    assert!(result.is_ok());
    assert!(config_obj.contains_key(&TerraformGenerator::make_object_key("database.hostname")));
    assert!(config_obj.contains_key(&TerraformGenerator::make_object_key("database.port")));
    assert!(config_obj.contains_key(&TerraformGenerator::make_object_key("plugin.name")));
}

#[test]
fn test_add_connector_specific_config_mysql() {
    let mut config_obj = TfObject::new();
    let connector = ConnectorDefinition {
        name: "MySqlCdcSourceV2".to_string(),
        display_name: "MySQL CDC Source V2".to_string(),
        description: "MySQL CDC Source V2 Connector".to_string(),
        connector_class: "io.debezium.connector.mysql.MySqlConnector".to_string(),
        connector_type: ConnectorType::Source,
        required_configs: vec![],
        optional_configs: vec![],
        sensitive_configs: vec![],
    };

    let options = TerraformConfigOptions {
        connector_name: "test".to_string(),
        connector: connector.clone(),
        topics: vec![],
        input_data_format: None,
        output_data_format: None,
    };
    let result = TerraformGenerator::add_connector_specific_config_to_object(
        &mut config_obj,
        &connector,
        &options,
    );
    assert!(result.is_ok());
    assert!(config_obj.contains_key(&TerraformGenerator::make_object_key("database.server.name")));
    assert!(config_obj.contains_key(&TerraformGenerator::make_object_key("snapshot.mode")));
    assert!(config_obj.contains_key(&TerraformGenerator::make_object_key("binlog.buffer.size")));
}

#[test]
fn test_add_connector_specific_config_s3() {
    let mut config_obj = TfObject::new();
    let connector = ConnectorDefinition {
        name: "S3_SINK".to_string(),
        display_name: "S3 Sink".to_string(),
        description: "S3 Sink Connector".to_string(),
        connector_class: "io.confluent.connect.s3.S3SinkConnector".to_string(),
        connector_type: ConnectorType::Sink,
        required_configs: vec![],
        optional_configs: vec![],
        sensitive_configs: vec![],
    };

    let options = TerraformConfigOptions {
        connector_name: "test".to_string(),
        connector: connector.clone(),
        topics: vec![],
        input_data_format: None,
        output_data_format: None,
    };
    let result = TerraformGenerator::add_connector_specific_config_to_object(
        &mut config_obj,
        &connector,
        &options,
    );
    assert!(result.is_ok());
    assert!(config_obj.contains_key(&TerraformGenerator::make_object_key("s3.bucket.name")));
    assert!(config_obj.contains_key(&TerraformGenerator::make_object_key("s3.wan.mode")));
    assert!(config_obj.contains_key(&TerraformGenerator::make_object_key("input.data.format")));
}

#[test]
fn test_add_connector_specific_config_unknown() {
    let mut config_obj = TfObject::new();
    let connector = ConnectorDefinition {
        name: "UnknownConnector".to_string(),
        display_name: "Unknown Connector".to_string(),
        description: "Unknown Connector".to_string(),
        connector_class: "com.example.UnknownConnector".to_string(),
        connector_type: ConnectorType::Source,
        required_configs: vec![],
        optional_configs: vec![],
        sensitive_configs: vec![],
    };

    let options = TerraformConfigOptions {
        connector_name: "test".to_string(),
        connector: connector.clone(),
        topics: vec![],
        input_data_format: None,
        output_data_format: None,
    };
    let result = TerraformGenerator::add_connector_specific_config_to_object(
        &mut config_obj,
        &connector,
        &options,
    );
    assert!(result.is_ok());
    // Unknown connectors should not add any config
    assert!(config_obj.is_empty());
}

#[test]
fn a_key_is_quoted_exactly_where_its_text_holds_a_dot() {
    match TerraformGenerator::make_object_key("connector.class") {
        TfKey::Quoted(text) => assert_eq!(text, "connector.class"),
        other => panic!("expected a quoted key, got {:?}", other),
    }
    match TerraformGenerator::make_object_key("topics") {
        TfKey::Identifier(text) => assert_eq!(text, "topics"),
        other => panic!("expected a bare key, got {:?}", other),
    }
    match TerraformGenerator::make_object_key("") {
        TfKey::Identifier(text) => assert_eq!(text, ""),
        other => panic!("expected a bare key, got {:?}", other),
    }
    match TerraformGenerator::make_object_key(".") {
        TfKey::Quoted(text) => assert_eq!(text, "."),
        other => panic!("expected a quoted key, got {:?}", other),
    }
}

#[test]
fn a_format_is_a_reference_into_the_formats_table() {
    let cases = [
        (DataFormat::Avro, "avro"),
        (DataFormat::Json, "json"),
        (DataFormat::JsonSr, "json_sr"),
        (DataFormat::Protobuf, "protobuf"),
        (DataFormat::Parquet, "parquet"),
    ];
    for (format, key) in cases {
        let (root, attrs) = reference_of(&TerraformGenerator::data_format_to_expression(&format));
        assert_eq!(root, "local");
        assert_eq!(attrs, vec!["schema_formats".to_string(), key.to_string()]);
    }
}

#[test]
fn a_format_is_printed_as_a_reference() {
    let mut options = options_for(bare_connector("Plain", ConnectorType::Source), "c", &[]);
    options.output_data_format = Some(DataFormat::JsonSr);
    let text = TerraformGenerator.generate_connector_config(options).unwrap();
    assert!(text.contains("\"output.data.format\" = local.schema_formats.json_sr"));
}

#[test]
fn the_sensitive_object_has_one_placeholder_per_name_in_order() {
    let names = vec!["password".to_string(), "aws.secret".to_string(), "password".to_string()];
    let object = TerraformGenerator::sensitive_config_object(&names);
    assert_eq!(object.len(), 2);
    match &object.entries[0].0 {
        TfKey::Identifier(text) => assert_eq!(text, "password"),
        other => panic!("{:?}", other),
    }
    match &object.entries[1].0 {
        TfKey::Quoted(text) => assert_eq!(text, "aws.secret"),
        other => panic!("{:?}", other),
    }
    assert_eq!(text_of(&object.entries[0].1), "<REPLACE_WITH_ACTUAL_VALUE>");
    assert_eq!(text_of(&object.entries[1].1), "<REPLACE_WITH_ACTUAL_VALUE>");
    assert!(TerraformGenerator::sensitive_config_object(&vec![]).is_empty());
}

#[test]
fn the_settings_come_in_their_fixed_order() {
    let options = options_for(bare_connector("Plain", ConnectorType::Source), "my-connector", &[]);
    let object = TerraformGenerator::nonsensitive_config_object(&options);
    let keys: Vec<&str> = object.entries.iter().map(|(k, _)| k.text().as_str()).collect();
    assert_eq!(
        keys,
        vec![
            "connector.class",
            "name",
            "kafka.auth.mode",
            "kafka.deployment.type",
            "topic.prefix",
            "output.data.format",
            "tasks.max"
        ]
    );
    assert_eq!(text_of(entry(&object, "connector.class").unwrap()), "Plain");
    assert_eq!(text_of(entry(&object, "name").unwrap()), "my-connector");
    assert_eq!(text_of(entry(&object, "kafka.auth.mode").unwrap()), "SERVICE_ACCOUNT");
    assert_eq!(text_of(entry(&object, "kafka.deployment.type").unwrap()), "DEDICATED");
    assert_eq!(text_of(entry(&object, "topic.prefix").unwrap()), "<REPLACE_WITH_TOPIC_PREFIX>");
    assert_eq!(text_of(entry(&object, "tasks.max").unwrap()), "1");
    let (root, attrs) = reference_of(entry(&object, "output.data.format").unwrap());
    assert_eq!(root, "local");
    assert_eq!(attrs, vec!["schema_formats".to_string(), "avro".to_string()]);
}

#[test]
fn a_sink_without_topics_gets_a_topics_placeholder_and_no_prefix() {
    let options = options_for(bare_connector("Plain", ConnectorType::Sink), "c", &[]);
    let object = TerraformGenerator::nonsensitive_config_object(&options);
    assert_eq!(text_of(entry(&object, "topics").unwrap()), "<REPLACE_WITH_TOPIC_NAME>");
    assert!(entry(&object, "topic.prefix").is_none());
}

#[test]
fn topics_are_joined_and_a_prefix_comes_only_where_it_is_required() {
    let mut with_prefix = bare_connector("Plain", ConnectorType::Source);
    with_prefix.required_configs.push(ConfigField {
        name: "topic.prefix".to_string(),
        display_name: "topic.prefix".to_string(),
        description: String::new(),
        field_type: "string".to_string(),
        required: true,
        default_value: None,
        valid_values: None,
    });
    assert!(TerraformGenerator::requires_topic_prefix(&with_prefix));
    let object =
        TerraformGenerator::nonsensitive_config_object(&options_for(with_prefix, "c", &["a", "b"]));
    let keys: Vec<&str> = object.entries.iter().map(|(k, _)| k.text().as_str()).collect();
    assert_eq!(&keys[4..6], &["topic.prefix", "topics"]);
    match entry(&object, "topics").unwrap() {
        TfExpression::FuncCall { name, args, expand_final } => {
            assert_eq!(name, "join");
            assert!(!*expand_final);
            assert_eq!(args.len(), 2);
            assert_eq!(text_of(&args[0]), ",");
            match &args[1] {
                TfExpression::Array(items) => {
                    assert_eq!(items.len(), 2);
                    assert_eq!(text_of(&items[0]), "a");
                    assert_eq!(text_of(&items[1]), "b");
                }
                other => panic!("{:?}", other),
            }
        }
        other => panic!("{:?}", other),
    }

    let without_prefix = bare_connector("Plain", ConnectorType::Source);
    assert!(!TerraformGenerator::requires_topic_prefix(&without_prefix));
    let object = TerraformGenerator::nonsensitive_config_object(&options_for(
        without_prefix,
        "c",
        &["a"],
    ));
    assert!(entry(&object, "topic.prefix").is_none());
    assert!(entry(&object, "topics").is_some());
}

#[test]
fn an_optional_topic_prefix_field_asks_for_no_prefix() {
    let mut connector = bare_connector("Plain", ConnectorType::Source);
    connector.optional_configs.push(ConfigField {
        name: "topic.prefix".to_string(),
        display_name: "topic.prefix".to_string(),
        description: String::new(),
        field_type: "string".to_string(),
        required: false,
        default_value: None,
        valid_values: None,
    });
    assert!(!TerraformGenerator::requires_topic_prefix(&connector));
}

#[test]
fn the_s3_sink_reads_avro_and_writes_parquet_where_nothing_is_chosen() {
    let connector = bare_connector("S3_SINK", ConnectorType::Sink);
    let mut object = TfObject::new();
    let options = options_for(connector.clone(), "c", &[]);
    TerraformGenerator::add_connector_specific_config_to_object(&mut object, &connector, &options)
        .unwrap();
    assert_eq!(object.len(), 14);
    assert_eq!(
        reference_of(entry(&object, "input.data.format").unwrap()).1[1],
        "avro"
    );
    assert_eq!(
        reference_of(entry(&object, "output.data.format").unwrap()).1[1],
        "parquet"
    );
    assert_eq!(text_of(entry(&object, "flush.size").unwrap()), "100000");

    let whole = TerraformGenerator::nonsensitive_config_object(&options);
    assert_eq!(
        reference_of(entry(&whole, "output.data.format").unwrap()).1[1],
        "parquet"
    );
    assert_eq!(
        whole.entries.iter().filter(|(k, _)| k.text() == "output.data.format").count(),
        1
    );

    let mut chosen = options_for(connector.clone(), "c", &[]);
    chosen.input_data_format = Some(DataFormat::Protobuf);
    chosen.output_data_format = Some(DataFormat::Json);
    let mut object = TfObject::new();
    TerraformGenerator::add_connector_specific_config_to_object(&mut object, &connector, &chosen)
        .unwrap();
    assert_eq!(
        reference_of(entry(&object, "input.data.format").unwrap()).1[1],
        "protobuf"
    );
    assert_eq!(
        reference_of(entry(&object, "output.data.format").unwrap()).1[1],
        "json"
    );
}

#[test]
fn each_known_connector_adds_its_own_settings() {
    let cases = [
        ("PostgresCdcSourceV2", 25, "database.port", "5432"),
        ("MySqlCdcSourceV2", 19, "binlog.buffer.size", "8192"),
        ("PostgreSQLSource", 10, "ssl.mode", "prefer"),
        ("PostgresSink", 15, "pk.mode", "record_value"),
        ("MySQLSource", 10, "connection.port", "3306"),
        ("MySQLSink", 15, "ssl.mode", "preferred"),
    ];
    for (name, count, key, value) in cases {
        let connector = bare_connector(name, ConnectorType::Source);
        let options = options_for(connector.clone(), "c", &[]);
        let mut object = TfObject::new();
        TerraformGenerator::add_connector_specific_config_to_object(
            &mut object,
            &connector,
            &options,
        )
        .unwrap();
        assert_eq!(object.len(), count, "{}", name);
        assert_eq!(text_of(entry(&object, key).unwrap()), value, "{}", name);
    }
}

#[test]
fn settings_that_are_there_keep_their_place_and_take_the_new_value() {
    let connector = bare_connector("PostgresSink", ConnectorType::Sink);
    let options = options_for(connector.clone(), "c", &[]);
    let mut object = TfObject::new();
    object.insert(
        TerraformGenerator::make_object_key("ssl.mode"),
        TfExpression::text("off"),
    );
    object.insert(
        TerraformGenerator::make_object_key("mine"),
        TfExpression::text("kept"),
    );
    TerraformGenerator::add_connector_specific_config_to_object(&mut object, &connector, &options)
        .unwrap();
    assert_eq!(object.len(), 16);
    assert_eq!(object.entries[0].0.text(), "ssl.mode");
    assert_eq!(text_of(&object.entries[0].1), "prefer");
    assert_eq!(text_of(&object.entries[1].1), "kept");
}

#[test]
fn the_document_is_one_resource_block_with_six_parts() {
    let options = options_for(create_test_connector(), "my-first-connector", &[]);
    let document: TfBody = TerraformGenerator::build_document(&options);
    assert_eq!(document.structures.len(), 1);
    let block = match &document.structures[0] {
        TfStructure::Block(block) => block,
        other => panic!("{:?}", other),
    };
    assert_eq!(block.identifier, "resource");
    assert_eq!(
        block.labels,
        vec!["confluent_connector".to_string(), "my_first_connector".to_string()]
    );
    let parts: Vec<String> = block
        .body
        .structures
        .iter()
        .map(|s| match s {
            TfStructure::Attribute(a) => format!("attribute {}", a.key),
            TfStructure::Block(b) => format!("block {}", b.identifier),
        })
        .collect();
    assert_eq!(
        parts,
        vec![
            "attribute status",
            "block environment",
            "block kafka_cluster",
            "attribute config_sensitive",
            "attribute config_nonsensitive",
            "block lifecycle"
        ]
    );
    match &block.body.structures[0] {
        TfStructure::Attribute(a) => {
            assert_eq!(reference_of(&a.expr), ("var".to_string(), vec!["status".to_string()]))
        }
        other => panic!("{:?}", other),
    }
}

#[test]
fn the_printed_document_has_this_exact_text() {
    let mut connector = bare_connector("Plain", ConnectorType::Sink);
    connector.connector_class = "PlainClass".to_string();
    connector.sensitive_configs = vec!["password".to_string(), "api.key".to_string()];
    let options = options_for(connector, "a-b", &["t1", "t2"]);
    let text = TerraformGenerator.generate_connector_config(options).unwrap();
    let expected = r#"resource "confluent_connector" "a_b" {
  status = var.status

  environment {
    id = var.environment_id
  }

  kafka_cluster {
    id = var.kafka_cluster.id
  }

  config_sensitive = {
    password = "<REPLACE_WITH_ACTUAL_VALUE>"
    "api.key" = "<REPLACE_WITH_ACTUAL_VALUE>"
  }
  config_nonsensitive = {
    "connector.class" = "PlainClass"
    name = "a-b"
    "kafka.auth.mode" = "SERVICE_ACCOUNT"
    "kafka.deployment.type" = "DEDICATED"
    topics = join(",", ["t1", "t2"])
    "output.data.format" = local.schema_formats.avro
    "tasks.max" = "1"
  }

  lifecycle {
    ignore_changes = [
      "config_nonsensitive[\"kafka.deployment.type\"]",
      "config_nonsensitive[\"kafka.max.partition.validation.disable\"]",
      "config_nonsensitive[\"kafka.max.partition.validation.enable\"]",
      "config_nonsensitive[\"kafka.max.partition.validation\"]"
    ]
  }
}
"#;
    assert_eq!(text, expected);
}

#[test]
fn generation_twice_gives_the_same_text() {
    let connector = ConnectorDefinition::get_connector_by_name("MySqlCdcSourceV2").unwrap();
    let first = TerraformGenerator
        .generate_connector_config(options_for(connector.clone(), "twice", &["a", "b"]))
        .unwrap();
    let second = TerraformGenerator
        .generate_connector_config(options_for(connector, "twice", &["a", "b"]))
        .unwrap();
    assert_eq!(first, second);
    assert!(!first.is_empty());
}

#[test]
fn a_sensitive_name_that_is_no_identifier_is_an_error_that_names_it() {
    let mut connector = bare_connector("Plain", ConnectorType::Source);
    connector.sensitive_configs =
        vec!["fine".to_string(), "with.dot and space".to_string(), "not fine".to_string(), "1x".to_string()];
    let result = TerraformGenerator.generate_connector_config(options_for(connector, "c", &[]));
    match result {
        Err(ConnectUtilError::Terraform(message)) => {
            assert_eq!(message, "Invalid identifier 'not fine': invalid identifier `not fine`");
        }
        other => panic!("expected a generation error, got {:?}", other),
    }
}

#[test]
fn an_empty_sensitive_name_is_an_error() {
    let mut connector = bare_connector("Plain", ConnectorType::Source);
    connector.sensitive_configs = vec![String::new()];
    let result = TerraformGenerator.generate_connector_config(options_for(connector, "c", &[]));
    match result {
        Err(ConnectUtilError::Terraform(message)) => {
            assert_eq!(message, "Invalid identifier '': invalid identifier ``");
        }
        other => panic!("expected a generation error, got {:?}", other),
    }
}

#[test]
fn a_postgres_sink_without_topics_has_a_topics_placeholder_and_no_prefix() {
    let connector = ConnectorDefinition::get_connector_by_name("PostgresSink").unwrap();
    assert_eq!(connector.connector_type, ConnectorType::Sink);
    let text = TerraformGenerator
        .generate_connector_config(options_for(connector, "sink-1", &[]))
        .unwrap();
    assert!(text.contains("topics = \"<REPLACE_WITH_TOPIC_NAME>\""));
    assert!(!text.contains("topic.prefix"));
}

#[test]
fn a_postgres_cdc_source_with_topics_has_a_prefix_and_the_joined_topics() {
    let connector = ConnectorDefinition::get_connector_by_name("PostgresCdcSourceV2").unwrap();
    let text = TerraformGenerator
        .generate_connector_config(options_for(connector, "cdc-1", &["t1", "t2"]))
        .unwrap();
    assert!(text.contains("\"topic.prefix\" = \"<REPLACE_WITH_TOPIC_PREFIX>\""));
    assert!(text.contains("join(\",\", [\"t1\", \"t2\"])"));
    let prefix = text.find("\"topic.prefix\"").unwrap();
    let topics = text.find("topics = join").unwrap();
    assert!(prefix < topics);
}

#[test]
fn a_document_of_every_printable_kind_is_printed() {
    let mut nested = TfObject::new();
    nested.insert(TfKey::Identifier("flag".to_string()), TfExpression::Bool(true));
    nested.insert(TfKey::Quoted("a.b".to_string()), TfExpression::Null);
    let mut object = TfObject::new();
    object.insert(TfKey::Identifier("inner".to_string()), TfExpression::object(nested));
    object.insert(
        TfKey::Identifier("list".to_string()),
        TfExpression::array(vec![TfExpression::Bool(false), TfExpression::variable("x")]),
    );
    let body = TfBody::new(vec![
        TfStructure::attribute("plain", TfExpression::text("v")),
        TfStructure::attribute("reference", TfExpression::variable("other")),
        TfStructure::attribute(
            "deep",
            TfExpression::traversal(
                TfExpression::variable("var"),
                vec!["a".to_string(), "b".to_string()],
            ),
        ),
        TfStructure::attribute(
            "called",
            TfExpression::call("upper", vec![TfExpression::text("a")]),
        ),
        TfStructure::attribute("settings", TfExpression::object(object)),
        TfStructure::block(
            "outer",
            vec!["one".to_string(), "two".to_string()],
            TfBody::new(vec![TfStructure::block(
                "inner",
                vec![],
                TfBody::new(vec![TfStructure::attribute("empty", TfExpression::array(vec![]))]),
            )]),
        ),
    ]);
    assert!(body.is_printable());
    let text = TerraformGenerator::print_document(&body).unwrap();
    let expected = r#"plain = "v"
reference = other
deep = var.a.b
called = upper("a")
settings = {
  inner = {
    flag = true
    "a.b" = null
  }
  list = [
    false,
    x
  ]
}

outer "one" "two" {
  inner {
    empty = []
  }
}
"#;
    assert_eq!(text, expected);
}

#[test]
fn a_document_with_an_unsupported_expression_or_a_text_that_is_no_number_is_not_printed() {
    let unprintable = [
        TfExpression::Number("one".to_string()),
        TfExpression::Number(String::new()),
        TfExpression::Number("1e999".to_string()),
        TfExpression::Number("0x10".to_string()),
        TfExpression::Number("true".to_string()),
        TfExpression::Unsupported,
        TfExpression::array(vec![TfExpression::text("a"), TfExpression::Unsupported]),
        TfExpression::call("f", vec![TfExpression::Number("2 3".to_string())]),
        TfExpression::traversal(TfExpression::Unsupported, vec!["a".to_string()]),
        {
            let mut object = TfObject::new();
            object.insert(TfKey::Identifier("a".to_string()), TfExpression::Unsupported);
            TfExpression::object(object)
        },
    ];
    for expression in unprintable {
        assert!(!expression.is_printable());
        let inside = TfBody::new(vec![TfStructure::block(
            "b",
            vec![],
            TfBody::new(vec![
                TfStructure::attribute("fine", TfExpression::text("v")),
                TfStructure::attribute("x", expression),
            ]),
        )]);
        assert!(!inside.is_printable());
        match TerraformGenerator::print_document(&inside) {
            Err(ConnectUtilError::Terraform(message)) => {
                assert_eq!(message, "Document holds an expression that cannot be printed")
            }
            other => panic!("{:?}", other),
        }
    }
    assert!(TfBody::new(vec![]).is_printable());
    assert_eq!(TerraformGenerator::print_document(&TfBody::new(vec![])).unwrap(), "");
}

#[test]
fn numbers_are_printed_as_their_decimal_text() {
    let numbers = ["0", "42", "-7", "18446744073709551615", "-9223372036854775808", "1.5", "2.5e-7"];
    let structures = numbers
        .iter()
        .enumerate()
        .map(|(i, n)| {
            let number = TfExpression::Number(n.to_string());
            assert!(number.is_printable(), "{}", n);
            TfStructure::attribute(&format!("n{}", i), number)
        })
        .collect();
    let text = TerraformGenerator::print_document(&TfBody::new(structures)).unwrap();
    assert_eq!(
        text,
        "n0 = 0\nn1 = 42\nn2 = -7\nn3 = 18446744073709551615\nn4 = -9223372036854775808\nn5 = 1.5\nn6 = 2.5e-7\n"
    );
}

#[test]
fn the_output_format_is_the_chosen_one_or_the_default_of_the_connector() {
    let s3 = ConnectorDefinition::get_connector_by_name("S3_SINK").unwrap();
    assert_eq!(TerraformGenerator::default_output_format(&s3), DataFormat::Parquet);
    let text = TerraformGenerator
        .generate_connector_config(options_for(s3.clone(), "s3", &["t"]))
        .unwrap();
    assert!(text.contains("\"output.data.format\" = local.schema_formats.parquet"));
    assert!(!text.contains("\"output.data.format\" = local.schema_formats.avro"));
    assert!(text.contains("\"input.data.format\" = local.schema_formats.avro"));
    assert_eq!(text.matches("\"output.data.format\"").count(), 1);

    for format in [DataFormat::Avro, DataFormat::Json, DataFormat::JsonSr, DataFormat::Protobuf] {
        let mut options = options_for(s3.clone(), "s3", &[]);
        options.output_data_format = Some(format);
        let object = TerraformGenerator::nonsensitive_config_object(&options);
        assert_eq!(
            reference_of(entry(&object, "output.data.format").unwrap()).1[1],
            format.table_key()
        );
    }

    for name in ["PostgresSink", "PostgresCdcSourceV2", "s3_sink", "S3_SINK ", ""] {
        let connector = bare_connector(name, ConnectorType::Sink);
        assert_eq!(TerraformGenerator::default_output_format(&connector), DataFormat::Avro);
        let object = TerraformGenerator::nonsensitive_config_object(&options_for(connector, "c", &[]));
        assert_eq!(reference_of(entry(&object, "output.data.format").unwrap()).1[1], "avro");
    }
}

#[test]
fn a_name_is_an_identifier_or_is_printed_as_one() {
    for name in ["a", "_a", "a-b", "a1", "status", "é"] {
        assert!(TerraformGenerator::is_identifier(name), "{}", name);
    }
    for name in ["", "1a", "a b", "a.b", "-a", "a\"b"] {
        assert!(!TerraformGenerator::is_identifier(name), "{}", name);
    }
    let mut object = TfObject::new();
    object.insert(TfKey::Identifier("with space".to_string()), TfExpression::text("v"));
    let body = TfBody::new(vec![
        TfStructure::attribute("1two3", TfExpression::object(object)),
        TfStructure::block("a block", vec!["a label".to_string()], TfBody::new(vec![])),
    ]);
    let text = TerraformGenerator::print_document(&body).unwrap();
    assert_eq!(text, "_1two3 = {\n  with_space = \"v\"\n}\n\na_block \"a label\" {}\n");
}
