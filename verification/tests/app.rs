use connect_util::app::{ConnectUtilApp, ConnectorReport, ValidationFailure, ValidationSummary};
use connect_util::config_map::ConfigMap;
use connect_util::document::{TfBlock, TfBody, TfExpression, TfKey, TfObject, TfStructure};
use connect_util::terraform::TerraformGenerator;
use connect_util::types::{
    ConnectorConfig, ConnectorDefinition, ConnectorOptions, ConnectorType, TerraformConfigOptions,
};
use connect_util::ConnectUtilError;

fn connector_resource(body: &TfBody) -> &TfBlock {
    body.structures
        .iter()
        .find_map(|s| match s {
            TfStructure::Block(b)
                if b.identifier == "resource"
                    && b.labels.len() >= 2
                    && b.labels[0] == "confluent_connector" =>
            {
                Some(b)
            }
            _ => None,
        })
        .unwrap()
}

#[test]
fn test_parse_terraform_config_success() {
    let app = ConnectUtilApp::new().unwrap();
    let terraform_content = r#"
    module "test_connector" {
      config_sensitive = {
        "connection.password" = "secret_password"
      }
      config_nonsensitive = {
        "connector.class" = "PostgresSink"
        "connection.host" = "localhost"
        "connection.port" = "5432"
        "connection.user" = "test_user"
        "db.name" = "test_db"
      }
    }
    "#;

    let result = app.parse_terraform_configs(terraform_content);
    assert!(result.is_ok(), "Should parse valid Terraform config");

    let configs = result.unwrap();
    assert!(!configs.is_empty(), "Should have at least one config");
    let config = &configs[0];
    assert_eq!(config.connector_class, "PostgresSink");
    assert_eq!(
        config.config.get("connection.host"),
        Some(&"localhost".to_string())
    );
    assert_eq!(
        config.config.get("connection.port"),
        Some(&"5432".to_string())
    );
    assert_eq!(
        config.sensitive_config.get("connection.password"),
        Some(&"secret_password".to_string())
    );
}

#[test]
fn test_parse_terraform_config_with_comments() {
    let app = ConnectUtilApp::new().unwrap();
    let terraform_content = r#"
    module "test_connector" {
      config_sensitive = {
        "connection.password" = "secret_password"
      }
      config_nonsensitive = {
        "connector.class" = "PostgresSink"
        # This is a comment
        "connection.host" = "localhost"
        "connection.port" = "5432"
        # Another comment
        "connection.user" = "test_user"
        "db.name" = "test_db"
      }
    }
    "#;

    let result = app.parse_terraform_configs(terraform_content);
    assert!(
        result.is_ok(),
        "Should parse Terraform config with comments"
    );

    let configs = result.unwrap();
    assert!(!configs.is_empty(), "Should have at least one config");
    let config = &configs[0];
    assert_eq!(config.connector_class, "PostgresSink");
    assert_eq!(
        config.config.get("connection.host"),
        Some(&"localhost".to_string())
    );
    assert_eq!(
        config.config.get("connection.port"),
        Some(&"5432".to_string())
    );
    assert_eq!(
        config.sensitive_config.get("connection.password"),
        Some(&"secret_password".to_string())
    );
}

#[test]
fn test_parse_terraform_config_missing_connector_class() {
    let app = ConnectUtilApp::new().unwrap();
    let terraform_content = r#"
    module "test_connector" {
      config_sensitive = {
        "connection.password" = "secret_password"
      }
      config_nonsensitive = {
        "connection.host" = "localhost"
        "connection.port" = "5432"
        "connection.user" = "test_user"
        "db.name" = "test_db"
      }
    }
    "#;

    let result = app.parse_terraform_configs(terraform_content);
    assert!(
        result.is_ok(),
        "Should parse even without connector.class (returns empty list)"
    );
    let configs = result.unwrap();
    assert!(
        configs.is_empty(),
        "Should return empty list when connector.class is missing"
    );
}

#[test]
fn test_parse_terraform_config_entirely_commented() {
    let app = ConnectUtilApp::new().unwrap();
    let terraform_content = r#"
    # module "test_connector" {
    #   config_sensitive = {
    #     "connection.password" = "secret_password"
    #   }
    #   config_nonsensitive = {
    #     "connector.class" = "PostgresSink"
    #     "connection.host" = "localhost"
    #     "connection.port" = "5432"
    #     "connection.user" = "test_user"
    #     "db.name" = "test_db"
    #   }
    # }
    "#;

    let result = app.parse_terraform_configs(terraform_content);
    assert!(
        result.is_ok(),
        "Should parse even when entire file is commented (returns empty list)"
    );
    let configs = result.unwrap();
    assert!(
        configs.is_empty(),
        "Should return empty list when entire file is commented"
    );
}

#[test]
fn test_add_connector_specific_config_postgres_cdc() {
    let _app = ConnectUtilApp::new().unwrap();
    let mut config_obj = TfObject::new();
    let connector_def =
        ConnectorDefinition::get_connector_by_name("PostgresCdcSourceV2").unwrap();

    let options = TerraformConfigOptions {
        connector_name: "test".to_string(),
        connector: connector_def.clone(),
        topics: vec![],
        input_data_format: None,
        output_data_format: None,
    };
    let result = TerraformGenerator::add_connector_specific_config_to_object(
        &mut config_obj,
        &connector_def,
        &options,
    );
    assert!(result.is_ok(), "Should successfully add connector config");

    // Check that configuration was added to config object
    assert!(config_obj.contains_key(&TerraformGenerator::make_object_key("database.sslmode")));
    assert!(config_obj.contains_key(&TerraformGenerator::make_object_key("publication.name")));
    assert!(config_obj.contains_key(&TerraformGenerator::make_object_key("snapshot.mode")));
}

#[test]
fn test_add_connector_specific_config_s3_sink() {
    let _app = ConnectUtilApp::new().unwrap();
    let mut config_obj = TfObject::new();
    let connector_def = ConnectorDefinition::get_connector_by_name("S3_SINK").unwrap();

    let options = TerraformConfigOptions {
        connector_name: "test".to_string(),
        connector: connector_def.clone(),
        topics: vec![],
        input_data_format: None,
        output_data_format: None,
    };
    let result = TerraformGenerator::add_connector_specific_config_to_object(
        &mut config_obj,
        &connector_def,
        &options,
    );
    assert!(result.is_ok(), "Should successfully add connector config");

    // Check that configuration was added to config object
    assert!(config_obj.contains_key(&TerraformGenerator::make_object_key("s3.bucket.name")));
    assert!(config_obj.contains_key(&TerraformGenerator::make_object_key("topics.dir")));
    assert!(config_obj.contains_key(&TerraformGenerator::make_object_key("input.data.format")));
}

#[test]
fn test_add_connector_specific_config_unknown_connector() {
    let _app = ConnectUtilApp::new().unwrap();
    let mut config_obj = TfObject::new();
    let connector_def = ConnectorDefinition {
        name: "UnknownConnector".to_string(),
        display_name: "Unknown Connector".to_string(),
        connector_class: "UnknownConnector".to_string(),
        connector_type: ConnectorType::Source,
        description: "Unknown connector".to_string(),
        required_configs: vec![],
        optional_configs: vec![],
        sensitive_configs: vec![],
    };

    let options = TerraformConfigOptions {
        connector_name: "test".to_string(),
        connector: connector_def.clone(),
        topics: vec![],
        input_data_format: None,
        output_data_format: None,
    };
    let result = TerraformGenerator::add_connector_specific_config_to_object(
        &mut config_obj,
        &connector_def,
        &options,
    );
    assert!(result.is_ok(), "Should not panic for unknown connector");
    // Unknown connectors should not add any config
    assert!(
        config_obj.is_empty(),
        "Unknown connector should not add any config"
    );
}

#[test]
fn test_environment_specific_terraform_generation() {
    let _app = ConnectUtilApp::new().unwrap();
    let connector = ConnectorDefinition::get_connector_by_name("PostgresSink").unwrap();

    // Test production environment
    let prod_options = TerraformConfigOptions {
        connector_name: "test-connector".to_string(),
        connector: connector.clone(),
        topics: vec!["test-topic".to_string()],
        input_data_format: None,
        output_data_format: None,
    };

    let generator = TerraformGenerator;
    let prod_result = generator.generate_connector_config(prod_options);
    assert!(prod_result.is_ok());
    let prod_terraform = prod_result.unwrap();

    // Check that terraform is generated with resource format
    assert!(prod_terraform.contains("resource \"confluent_connector\""));
    assert!(prod_terraform.contains("status = var.status"));
    assert!(prod_terraform.contains("environment {"));
    assert!(prod_terraform.contains("kafka_cluster {"));

    // Test dev environment
    let dev_options = TerraformConfigOptions {
        connector_name: "test-connector".to_string(),
        connector: connector.clone(),
        topics: vec!["test-topic".to_string()],
        input_data_format: None,
        output_data_format: None,
    };

    let dev_result = generator.generate_connector_config(dev_options);
    assert!(dev_result.is_ok());
    let dev_terraform = dev_result.unwrap();

    // Check dev-specific values
    assert!(dev_terraform.contains("resource \"confluent_connector\""));
    assert!(dev_terraform.contains("status = var.status"));
    assert!(dev_terraform.contains("environment {"));
    assert!(dev_terraform.contains("kafka_cluster {"));
}

#[test]
fn test_terraform_structure_validation() {
    let app = ConnectUtilApp::new().unwrap();

    // Test resource-based Terraform validation
    let terraform = r#"
resource "confluent_connector" "test_connector" {
  status = "RUNNING"

  environment {
id = var.environment_id
  }

  kafka_cluster {
id = var.kafka_cluster.id
  }

  config_sensitive = {
"connection.password" = "secret"
  }

  config_nonsensitive = {
"connector.class" = "PostgresSink"
"name" = "test-connector"
  }

  lifecycle {
ignore_changes = [
  config_nonsensitive["kafka.deployment.type"],
]
  }
}
"#;

    let result = app.validate_terraform_structure(terraform);
    assert!(
        result.is_ok(),
        "Resource-based Terraform structure should be valid"
    );

    // Test invalid Terraform (missing required blocks)
    let invalid_terraform = r#"
resource "confluent_connector" "test_connector" {
  status = "RUNNING"
  # Missing environment and kafka_cluster blocks
  config_sensitive = {
"connection.password" = "secret"
  }
  config_nonsensitive = {
"connector.class" = "PostgresSink"
"name" = "test-connector"
  }
}
"#;

    let result = app.validate_terraform_structure(invalid_terraform);
    assert!(
        result.is_err(),
        "Invalid Terraform structure should fail validation"
    );
}

#[test]
fn test_validate_resource_block_missing_status() {
    let app = ConnectUtilApp::new().unwrap();
    let terraform = r#"
resource "confluent_connector" "test" {
  environment {
id = var.environment_id
  }
  kafka_cluster {
id = var.kafka_cluster.id
  }
  config_sensitive = {}
  config_nonsensitive = {
"connector.class" = "PostgresSink"
  }
}
"#;
    let body = app.read_document(terraform).unwrap();
    let resource_block = connector_resource(&body);

    let result = app.validate_resource_block(&resource_block.body, "test");
    assert!(result.is_err());
    assert!(result
        .unwrap_err()
        .to_string()
        .contains("missing 'status' field"));
}

#[test]
fn test_validate_resource_block_missing_environment() {
    let app = ConnectUtilApp::new().unwrap();
    let terraform = r#"
resource "confluent_connector" "test" {
  status = "RUNNING"
  kafka_cluster {
id = var.kafka_cluster.id
  }
  config_sensitive = {}
  config_nonsensitive = {
"connector.class" = "PostgresSink"
  }
}
"#;
    let body = app.read_document(terraform).unwrap();
    let resource_block = connector_resource(&body);

    let result = app.validate_resource_block(&resource_block.body, "test");
    assert!(result.is_err());
    assert!(result
        .unwrap_err()
        .to_string()
        .contains("missing 'environment"));
}

#[test]
fn test_validate_resource_block_environment_wrong_attribute() {
    let app = ConnectUtilApp::new().unwrap();
    let terraform = r#"
resource "confluent_connector" "test" {
  status = "RUNNING"
  environment {
exo = var.environment_id
  }
  kafka_cluster {
id = var.kafka_cluster.id
  }
  config_sensitive = {}
  config_nonsensitive = {
"connector.class" = "PostgresSink"
  }
}
"#;
    let body = app.read_document(terraform).unwrap();
    let resource_block = connector_resource(&body);

    let result = app.validate_resource_block(&resource_block.body, "test");
    assert!(result.is_err());
    assert!(result
        .unwrap_err()
        .to_string()
        .contains("environment block must have 'id' attribute"));
}

#[test]
fn test_validate_resource_block_missing_kafka_cluster() {
    let app = ConnectUtilApp::new().unwrap();
    let terraform = r#"
resource "confluent_connector" "test" {
  status = "RUNNING"
  environment {
id = var.environment_id
  }
  config_sensitive = {}
  config_nonsensitive = {
"connector.class" = "PostgresSink"
  }
}
"#;
    let body = app.read_document(terraform).unwrap();
    let resource_block = connector_resource(&body);

    let result = app.validate_resource_block(&resource_block.body, "test");
    assert!(result.is_err());
    assert!(result
        .unwrap_err()
        .to_string()
        .contains("missing 'kafka_cluster"));
}

#[test]
fn test_validate_resource_block_kafka_cluster_wrong_attribute() {
    let app = ConnectUtilApp::new().unwrap();
    let terraform = r#"
resource "confluent_connector" "test" {
  status = "RUNNING"
  environment {
id = var.environment_id
  }
  kafka_cluster {
name = var.kafka_cluster.name
  }
  config_sensitive = {}
  config_nonsensitive = {
"connector.class" = "PostgresSink"
  }
}
"#;
    let body = app.read_document(terraform).unwrap();
    let resource_block = connector_resource(&body);

    let result = app.validate_resource_block(&resource_block.body, "test");
    assert!(result.is_err());
    assert!(result
        .unwrap_err()
        .to_string()
        .contains("kafka_cluster block must have 'id' attribute"));
}

#[test]
fn test_validate_resource_block_missing_config_sensitive() {
    let app = ConnectUtilApp::new().unwrap();
    let terraform = r#"
resource "confluent_connector" "test" {
  status = "RUNNING"
  environment {
id = var.environment_id
  }
  kafka_cluster {
id = var.kafka_cluster.id
  }
  config_nonsensitive = {
"connector.class" = "PostgresSink"
  }
}
"#;
    let body = app.read_document(terraform).unwrap();
    let resource_block = connector_resource(&body);

    let result = app.validate_resource_block(&resource_block.body, "test");
    assert!(result.is_err());
    assert!(result
        .unwrap_err()
        .to_string()
        .contains("missing 'config_sensitive'"));
}

#[test]
fn test_validate_resource_block_missing_config_nonsensitive() {
    let app = ConnectUtilApp::new().unwrap();
    let terraform = r#"
resource "confluent_connector" "test" {
  status = "RUNNING"
  environment {
id = var.environment_id
  }
  kafka_cluster {
id = var.kafka_cluster.id
  }
  config_sensitive = {}
}
"#;
    let body = app.read_document(terraform).unwrap();
    let resource_block = connector_resource(&body);

    let result = app.validate_resource_block(&resource_block.body, "test");
    assert!(result.is_err());
    assert!(result
        .unwrap_err()
        .to_string()
        .contains("missing 'config_nonsensitive'"));
}

#[test]
fn test_validate_terraform_structure_no_resources() {
    let app = ConnectUtilApp::new().unwrap();
    let terraform = r#"
variable "test" {
  default = "value"
}
"#;
    let result = app.validate_terraform_structure(terraform);
    assert!(result.is_err());
    assert!(result
        .unwrap_err()
        .to_string()
        .contains("No 'confluent_connector' resources found"));
}

#[test]
fn test_validate_terraform_structure_invalid_hcl() {
    let app = ConnectUtilApp::new().unwrap();
    let terraform = r#"
resource "confluent_connector" "test" {
  status = "RUNNING"
  # Missing closing brace
"#;
    let result = app.validate_terraform_structure(terraform);
    assert!(result.is_err());
    assert!(result
        .unwrap_err()
        .to_string()
        .contains("Failed to parse Terraform file"));
}

#[test]
fn test_generate_terraform_non_interactive() {
    let app = ConnectUtilApp::new().unwrap();
    let options = ConnectorOptions {
        name: Some("test-connector".to_string()),
        output: Some("test-output.tf".to_string()),
    };

    // This test uses the non-interactive function
    let result = app.generate_terraform_non_interactive(options);
    assert!(result.is_ok());

    let terraform = result.unwrap();
    assert!(terraform.contains("test-connector"));
    assert!(terraform.contains("var.environment"));
}

#[test]
fn test_generate_terraform_non_interactive_missing_required() {
    let app = ConnectUtilApp::new().unwrap();
    let options = ConnectorOptions {
        name: None, // Missing required field
        output: Some("test-output.tf".to_string()),
    };

    // This should fail because required fields are missing
    let result = app.generate_terraform_non_interactive(options);
    assert!(result.is_err());
    assert!(result
        .unwrap_err()
        .to_string()
        .contains("Connector name is required"));
}

#[test]
fn test_add_connector_specific_config_mysql_cdc() {
    let _app = ConnectUtilApp::new().unwrap();
    let connector = ConnectorDefinition {
        name: "MySqlCdcSourceV2".to_string(),
        display_name: "MySQL CDC Source V2".to_string(),
        connector_class: "MySqlCdcSourceV2".to_string(),
        description: "MySQL CDC Source V2".to_string(),
        connector_type: ConnectorType::Source,
        required_configs: vec![],
        optional_configs: vec![],
        sensitive_configs: vec![],
    };

    let mut config_obj = TfObject::new();
    let options = TerraformConfigOptions {
        connector_name: "test".to_string(),
        connector: connector.clone(),
        topics: vec![],
        input_data_format: None,
        output_data_format: None,
    };
    let result = TerraformGenerator::add_connector_specific_config_to_object(
        &mut config_obj,
        &connector,
        &options,
    );

    assert!(result.is_ok());
    assert!(
        config_obj.contains_key(&TerraformGenerator::make_object_key("database.server.name"))
    );
    assert!(config_obj.contains_key(&TerraformGenerator::make_object_key("database.ssl.mode")));
    assert!(config_obj.contains_key(&TerraformGenerator::make_object_key("snapshot.mode")));
    assert!(config_obj.contains_key(&TerraformGenerator::make_object_key("binlog.buffer.size")));
}

#[test]
fn test_generate_terraform_config_with_topics() {
    let _app = ConnectUtilApp::new().unwrap();
    let connector = ConnectorDefinition::get_connector_by_name("PostgresSink").unwrap();

    let options = TerraformConfigOptions {
        connector_name: "test-connector".to_string(),
        connector: connector.clone(),
        topics: vec!["topic1".to_string(), "topic2".to_string()],
        input_data_format: None,
        output_data_format: None,
    };

    let generator = TerraformGenerator;
    let result = generator.generate_connector_config(options);
    assert!(result.is_ok());
    let terraform = result.unwrap();

    // Check that topics are properly formatted with join() to flatten array
    assert!(terraform.contains("join(\",\", ["));
    assert!(terraform.contains("\"topic1\""));
    assert!(terraform.contains("\"topic2\""));
}

#[test]
fn test_generate_terraform_config_with_topic_prefix() {
    let _app = ConnectUtilApp::new().unwrap();
    let connector = ConnectorDefinition::get_connector_by_name("PostgresCdcSourceV2").unwrap();

    let options = TerraformConfigOptions {
        connector_name: "test-connector".to_string(),
        connector: connector.clone(),
        topics: vec!["topic1".to_string(), "topic2".to_string()],
        input_data_format: None,
        output_data_format: None,
    };

    let generator = TerraformGenerator;
    let result = generator.generate_connector_config(options);
    assert!(result.is_ok());
    let terraform = result.unwrap();

    // Check that topic.prefix is used for CDC connectors
    assert!(terraform.contains("\"topic.prefix\" = \"<REPLACE_WITH_TOPIC_PREFIX>\""));
    assert!(terraform.contains("join(\",\", ["));
    assert!(terraform.contains("\"topic1\""));
    assert!(terraform.contains("\"topic2\""));
}

#[test]
fn test_generate_terraform_config_without_topics_sink() {
    let _app = ConnectUtilApp::new().unwrap();
    let connector = ConnectorDefinition::get_connector_by_name("PostgresSink").unwrap();

    let options = TerraformConfigOptions {
        connector_name: "test-connector".to_string(),
        connector: connector.clone(),
        topics: vec![],
        input_data_format: None,
        output_data_format: None,
    };

    let generator = TerraformGenerator;
    let result = generator.generate_connector_config(options);
    assert!(result.is_ok());
    let terraform = result.unwrap();

    // Check that placeholder is used for sink connectors
    assert!(terraform.contains("topics = \"<REPLACE_WITH_TOPIC_NAME>\""));
}

#[test]
fn test_generate_terraform_config_without_topics_source() {
    let _app = ConnectUtilApp::new().unwrap();
    let connector = ConnectorDefinition::get_connector_by_name("PostgresCdcSourceV2").unwrap();

    let options = TerraformConfigOptions {
        connector_name: "test-connector".to_string(),
        connector: connector.clone(),
        topics: vec![],
        input_data_format: None,
        output_data_format: None,
    };

    let generator = TerraformGenerator;
    let result = generator.generate_connector_config(options);
    assert!(result.is_ok());
    let terraform = result.unwrap();

    // Check that topic.prefix placeholder is used for source connectors
    assert!(terraform.contains("\"topic.prefix\" = \"<REPLACE_WITH_TOPIC_PREFIX>\""));
}

#[test]
fn test_generate_terraform_config_qa_environment() {
    let _app = ConnectUtilApp::new().unwrap();
    let connector = ConnectorDefinition::get_connector_by_name("PostgresSink").unwrap();

    let options = TerraformConfigOptions {
        connector_name: "test-connector".to_string(),
        connector: connector.clone(),
        topics: vec![],
        input_data_format: None,
        output_data_format: None,
    };

    let generator = TerraformGenerator;
    let result = generator.generate_connector_config(options);
    assert!(result.is_ok());
    let terraform = result.unwrap();

    // Check QA-specific values
    assert!(terraform.contains("resource \"confluent_connector\""));
    assert!(terraform.contains("status = var.status"));
    assert!(terraform.contains("environment {"));
    assert!(terraform.contains("kafka_cluster {"));
}

#[test]
fn test_generate_terraform_config_unknown_environment() {
    let _app = ConnectUtilApp::new().unwrap();
    let connector = ConnectorDefinition::get_connector_by_name("PostgresSink").unwrap();

    let options = TerraformConfigOptions {
        connector_name: "test-connector".to_string(),
        connector: connector.clone(),
        topics: vec![],
        input_data_format: None,
        output_data_format: None,
    };

    let generator = TerraformGenerator;
    let result = generator.generate_connector_config(options);
    assert!(result.is_ok());
    let terraform = result.unwrap();

    // Check that terraform is generated with resource format
    assert!(terraform.contains("resource \"confluent_connector\""));
    assert!(terraform.contains("status = var.status"));
    assert!(terraform.contains("environment {"));
    assert!(terraform.contains("kafka_cluster {"));
}

#[test]
fn test_add_connector_specific_config_postgres_source() {
    let _app = ConnectUtilApp::new().unwrap();
    let connector = ConnectorDefinition {
        name: "PostgreSQLSource".to_string(),
        display_name: "PostgreSQL Source".to_string(),
        connector_class: "PostgreSQLSource".to_string(),
        description: "PostgreSQL Source".to_string(),
        connector_type: ConnectorType::Source,
        required_configs: vec![],
        optional_configs: vec![],
        sensitive_configs: vec![],
    };

    let mut config_obj = TfObject::new();
    let options = TerraformConfigOptions {
        connector_name: "test".to_string(),
        connector: connector.clone(),
        topics: vec![],
        input_data_format: None,
        output_data_format: None,
    };
    let result = TerraformGenerator::add_connector_specific_config_to_object(
        &mut config_obj,
        &connector,
        &options,
    );

    assert!(result.is_ok());
    assert!(config_obj.contains_key(&TerraformGenerator::make_object_key("connection.host")));
    assert!(config_obj.contains_key(&TerraformGenerator::make_object_key("connection.port")));
    assert!(config_obj.contains_key(&TerraformGenerator::make_object_key("ssl.mode")));
    assert!(config_obj.contains_key(&TerraformGenerator::make_object_key("mode")));
}

#[test]
fn test_add_connector_specific_config_postgres_sink() {
    let _app = ConnectUtilApp::new().unwrap();
    let connector = ConnectorDefinition {
        name: "PostgresSink".to_string(),
        display_name: "PostgreSQL Sink".to_string(),
        connector_class: "PostgresSink".to_string(),
        description: "PostgreSQL Sink".to_string(),
        connector_type: ConnectorType::Sink,
        required_configs: vec![],
        optional_configs: vec![],
        sensitive_configs: vec![],
    };

    let mut config_obj = TfObject::new();
    let options = TerraformConfigOptions {
        connector_name: "test".to_string(),
        connector: connector.clone(),
        topics: vec![],
        input_data_format: None,
        output_data_format: None,
    };
    let result = TerraformGenerator::add_connector_specific_config_to_object(
        &mut config_obj,
        &connector,
        &options,
    );

    assert!(result.is_ok());
    assert!(config_obj.contains_key(&TerraformGenerator::make_object_key("connection.host")));
    assert!(config_obj.contains_key(&TerraformGenerator::make_object_key("connection.port")));
    assert!(config_obj.contains_key(&TerraformGenerator::make_object_key("ssl.mode")));
    assert!(config_obj.contains_key(&TerraformGenerator::make_object_key("insert.mode")));
    assert!(config_obj.contains_key(&TerraformGenerator::make_object_key("pk.mode")));
}

#[test]
fn test_add_connector_specific_config_mysql_source() {
    let connector = ConnectorDefinition {
        name: "MySQLSource".to_string(),
        display_name: "MySQL Source".to_string(),
        connector_class: "MySQLSource".to_string(),
        description: "MySQL Source".to_string(),
        connector_type: ConnectorType::Source,
        required_configs: vec![],
        optional_configs: vec![],
        sensitive_configs: vec![],
    };

    let mut config_obj = TfObject::new();
    let options = TerraformConfigOptions {
        connector_name: "test".to_string(),
        connector: connector.clone(),
        topics: vec![],
        input_data_format: None,
        output_data_format: None,
    };
    let result = TerraformGenerator::add_connector_specific_config_to_object(
        &mut config_obj,
        &connector,
        &options,
    );

    assert!(result.is_ok());
    assert!(config_obj.contains_key(&TerraformGenerator::make_object_key("connection.host")));
    assert!(config_obj.contains_key(&TerraformGenerator::make_object_key("connection.port")));
    assert!(config_obj.contains_key(&TerraformGenerator::make_object_key("ssl.mode")));
    assert!(config_obj.contains_key(&TerraformGenerator::make_object_key("mode")));
}

#[test]
fn test_add_connector_specific_config_mysql_sink() {
    let connector = ConnectorDefinition {
        name: "MySQLSink".to_string(),
        display_name: "MySQL Sink".to_string(),
        connector_class: "MySQLSink".to_string(),
        description: "MySQL Sink".to_string(),
        connector_type: ConnectorType::Sink,
        required_configs: vec![],
        optional_configs: vec![],
        sensitive_configs: vec![],
    };

    let mut config_obj = TfObject::new();
    let options = TerraformConfigOptions {
        connector_name: "test".to_string(),
        connector: connector.clone(),
        topics: vec![],
        input_data_format: None,
        output_data_format: None,
    };
    let result = TerraformGenerator::add_connector_specific_config_to_object(
        &mut config_obj,
        &connector,
        &options,
    );

    assert!(result.is_ok());
    assert!(config_obj.contains_key(&TerraformGenerator::make_object_key("connection.host")));
    assert!(config_obj.contains_key(&TerraformGenerator::make_object_key("connection.port")));
    assert!(config_obj.contains_key(&TerraformGenerator::make_object_key("ssl.mode")));
    assert!(config_obj.contains_key(&TerraformGenerator::make_object_key("insert.mode")));
    assert!(config_obj.contains_key(&TerraformGenerator::make_object_key("pk.mode")));
}

#[test]
fn test_generate_terraform_config_sensitive_configs() {
    let _app = ConnectUtilApp::new().unwrap();
    let connector = ConnectorDefinition {
        name: "TestConnector".to_string(),
        display_name: "Test Connector".to_string(),
        connector_class: "TestConnector".to_string(),
        description: "Test Connector".to_string(),
        connector_type: ConnectorType::Source,
        required_configs: vec![],
        optional_configs: vec![],
        sensitive_configs: vec!["password".to_string(), "secret".to_string()],
    };

    let options = TerraformConfigOptions {
        connector_name: "test-connector".to_string(),
        connector: connector.clone(),
        topics: vec![],
        input_data_format: None,
        output_data_format: None,
    };

    let generator = TerraformGenerator;
    let result = generator.generate_connector_config(options);
    assert!(result.is_ok());
    let terraform = result.unwrap();

    // Check that sensitive configs are properly formatted
    assert!(terraform.contains("config_sensitive = {"));
    assert!(terraform.contains("password = \"<REPLACE_WITH_ACTUAL_VALUE>\""));
    assert!(terraform.contains("secret = \"<REPLACE_WITH_ACTUAL_VALUE>\""));
}

#[test]
fn test_new() {
    let result = ConnectUtilApp::new();
    assert!(result.is_ok());
    let app = result.unwrap();
    // Just verify we can create the app
    assert!(matches!(app, ConnectUtilApp { .. }));
}

#[test]
fn test_validate_connector_commented_file() {
    let app = ConnectUtilApp::new().unwrap();
    let content = r#"
        # module "test_connector" {
        #   config_sensitive = {
        #     "connection.password" = "secret_password"
        #   }
        #   config_nonsensitive = {
        #     "connector.class" = "PostgresSink"
        #     "connection.host" = "localhost"
        #   }
        # }
        "#;

    let result = app.validate_connector_content(content);
    assert!(result.is_ok());
    assert!(matches!(result.unwrap(), ValidationSummary::CommentedOut));
}

#[test]
fn test_validate_connector_unknown_connector() {
    let app = ConnectUtilApp::new().unwrap();
    let content = r#"
        module "test_connector" {
          config_sensitive = {
            "connection.password" = "secret_password"
          }
          config_nonsensitive = {
            "connector.class" = "UnknownConnector"
            "connection.host" = "localhost"
          }
        }
        "#;

    let result = app.validate_connector_content(content);
    assert!(result.is_err());
    let failure: ValidationFailure = result.unwrap_err();
    assert!(failure.error.to_string().contains("Unknown connector"));
    assert_eq!(failure.found, 1);
    assert!(failure.reports.is_empty());
}

#[test]
fn test_validate_connector_invalid_config() {
    let app = ConnectUtilApp::new().unwrap();
    let content = r#"
resource "confluent_connector" "test_connector" {
  status = "RUNNING"

  environment {
    id = var.environment_id
  }

  kafka_cluster {
    id = var.kafka_cluster.id
  }

  config_sensitive = {
    "connection.password" = "secret_password"
  }

  config_nonsensitive = {
    "connector.class" = "PostgresSink"
    "connection.host" = "localhost"
    # Missing required fields
  }

  lifecycle {
    ignore_changes = [
      config_nonsensitive["kafka.deployment.type"],
    ]
  }
}
        "#;

    let result = app.validate_connector_content(content);
    // This should succeed because the validation flow works even if config is invalid
    assert!(result.is_ok());
    match result.unwrap() {
        ValidationSummary::Checked { reports, resources } => {
            assert_eq!(resources, 1);
            assert_eq!(reports.len(), 1);
            let report: &ConnectorReport = &reports[0];
            assert_eq!(report.name, "test_connector");
            assert_eq!(report.connector, "PostgreSQL Sink");
            assert_eq!(
                report.outcome,
                Err("Missing required configuration: connection.port".to_string())
            );
            assert_eq!(report.config_count, 2);
            assert_eq!(report.sensitive_count, 1);
        }
        other => panic!("expected reports, got {:?}", other),
    }
}

fn parsed(text: &str) -> Vec<ConnectorConfig> {
    ConnectUtilApp::new().unwrap().parse_terraform_configs(text).unwrap()
}

fn pairs(map: &ConfigMap) -> Vec<(String, String)> {
    (0..map.len()).map(|i| (map.key_at(i).clone(), map.value_at(i).clone())).collect()
}

fn value_of(text: &str) -> Option<String> {
    let app = ConnectUtilApp::new().unwrap();
    let body = app.read_document(&format!("x = {}\n", text)).unwrap();
    match &body.structures[0] {
        TfStructure::Attribute(a) => app.extract_string_from_expression(&a.expr),
        other => panic!("{:?}", other),
    }
}

#[test]
fn every_connector_of_the_catalog_comes_back_from_its_generated_text() {
    let app = ConnectUtilApp::new().unwrap();
    for connector in ConnectorDefinition::get_all_connectors() {
        for topics in [vec![], vec!["t1".to_string(), "t2".to_string()]] {
            let options = TerraformConfigOptions {
                connector_name: "my-connector-1".to_string(),
                connector: connector.clone(),
                topics,
                input_data_format: None,
                output_data_format: None,
            };
            let text = TerraformGenerator.generate_connector_config(options).unwrap();
            let configs = app.parse_terraform_configs(&text).unwrap();
            assert_eq!(configs.len(), 1, "{}", connector.name);
            assert_eq!(configs[0].connector_class, connector.connector_class);
            assert_eq!(configs[0].name, "my_connector_1");
            assert_eq!(configs[0].config.get("name"), Some(&"my-connector-1".to_string()));
            assert_eq!(
                configs[0].config.get("connector.class"),
                Some(&connector.connector_class)
            );
            assert_eq!(configs[0].sensitive_config.len(), {
                let mut names = connector.sensitive_configs.clone();
                names.sort();
                names.dedup();
                names.len()
            });
            assert!(app.validate_terraform_structure(&text).is_ok(), "{}", connector.name);
        }
    }
}

#[test]
fn the_parsed_document_of_a_generated_text_is_the_generated_document() {
    let app = ConnectUtilApp::new().unwrap();
    let connector = ConnectorDefinition::get_connector_by_name("PostgresSink").unwrap();
    let options = TerraformConfigOptions {
        connector_name: "round-trip".to_string(),
        connector,
        topics: vec!["a".to_string()],
        input_data_format: None,
        output_data_format: None,
    };
    let built = TerraformGenerator::build_document(&options);
    let text = TerraformGenerator.generate_connector_config(options).unwrap();
    let read = app.read_document(&text).unwrap();
    assert_eq!(format!("{:?}", read), format!("{:?}", built));
}

#[test]
fn a_string_a_number_and_a_boolean_are_their_texts() {
    assert_eq!(value_of("\"plain\""), Some("plain".to_string()));
    assert_eq!(value_of("\"\""), Some(String::new()));
    assert_eq!(value_of("42"), Some("42".to_string()));
    assert_eq!(value_of("-7"), Some("-7".to_string()));
    assert_eq!(value_of("1.5"), Some("1.5".to_string()));
    assert_eq!(value_of("true"), Some("true".to_string()));
    assert_eq!(value_of("false"), Some("false".to_string()));
}

#[test]
fn a_variable_is_written_as_a_reference() {
    assert_eq!(value_of("topic"), Some("var.topic".to_string()));
}

#[test]
fn an_array_is_bracketed_and_skips_what_has_no_string() {
    assert_eq!(value_of("[]"), Some("[]".to_string()));
    assert_eq!(value_of("[\"a\"]"), Some("[a]".to_string()));
    assert_eq!(value_of("[\"a\", 2, true, x]"), Some("[a, 2, true, var.x]".to_string()));
    assert_eq!(value_of("[\"a\", null, {}, \"b\", var.c]"), Some("[a, b]".to_string()));
    assert_eq!(value_of("[[\"a\", \"b\"], [\"c\"]]"), Some("[[a, b], [c]]".to_string()));
}

#[test]
fn join_on_an_array_lists_its_items_and_any_other_call_is_a_placeholder() {
    assert_eq!(value_of("join([\"a\", \"b\"], \",\")"), Some("a, b".to_string()));
    assert_eq!(value_of("join([\"a\", null, 3])"), Some("a, 3".to_string()));
    assert_eq!(value_of("join([])"), Some(String::new()));
    assert_eq!(value_of("join(\",\", [\"a\", \"b\"])"), Some("join(...)".to_string()));
    assert_eq!(value_of("join()"), Some("join(...)".to_string()));
    assert_eq!(value_of("upper(\"a\")"), Some("upper(...)".to_string()));
    assert_eq!(value_of("concat([\"a\"], [\"b\"])"), Some("concat(...)".to_string()));
}

#[test]
fn an_object_a_traversal_and_the_rest_have_no_string() {
    assert_eq!(value_of("{ a = 1 }"), None);
    assert_eq!(value_of("var.status"), None);
    assert_eq!(value_of("local.list[0]"), None);
    assert_eq!(value_of("null"), None);
    assert_eq!(value_of("\"a-${var.b}\""), None);
    assert_eq!(value_of("1 + 2"), None);
    assert_eq!(value_of("(\"a\")"), None);
    assert_eq!(value_of("a ? b : c"), None);
}

#[test]
fn an_object_gives_its_keys_with_the_strings_of_their_values() {
    let app = ConnectUtilApp::new().unwrap();
    let body = app
        .read_document("x = {\n bare = \"1\"\n \"quoted.key\" = 2\n skipped = var.a\n bare = \"3\"\n \"bare\" = \"4\"\n}\n")
        .unwrap();
    let map = match &body.structures[0] {
        TfStructure::Attribute(a) => app.extract_map_from_expression(&a.expr).unwrap(),
        other => panic!("{:?}", other),
    };
    assert_eq!(
        pairs(&map),
        vec![
            ("bare".to_string(), "4".to_string()),
            ("quoted.key".to_string(), "2".to_string())
        ]
    );
    assert!(app.extract_map_from_expression(&TfExpression::text("no object")).is_none());
    assert!(app
        .extract_map_from_expression(&TfExpression::array(vec![]))
        .is_none());
    let empty = app.extract_map_from_expression(&TfExpression::object(TfObject::new())).unwrap();
    assert!(empty.is_empty());
}

#[test]
fn a_key_that_is_an_expression_is_taken_by_its_text() {
    let mut object = TfObject::new();
    object.insert(TfKey::Quoted("a.b".to_string()), TfExpression::text("1"));
    object.insert(TfKey::Identifier("a.b".to_string()), TfExpression::text("2"));
    let app = ConnectUtilApp::new().unwrap();
    let map = app.extract_map_from_expression(&TfExpression::object(object)).unwrap();
    assert_eq!(pairs(&map), vec![("a.b".to_string(), "2".to_string())]);
}

#[test]
fn resources_and_modules_are_read_in_their_order_and_the_rest_is_passed_over() {
    let configs = parsed(
        r#"
variable "x" {
  default = "v"
}
resource "confluent_connector" "first" {
  config_nonsensitive = {
    "connector.class" = "A"
  }
}
resource "aws_s3_bucket" "other" {
  config_nonsensitive = {
    "connector.class" = "B"
  }
}
resource "confluent_connector" {
  config_nonsensitive = {
    "connector.class" = "C"
  }
}
module "second" {
  config_nonsensitive = {
    "connector.class" = "D"
  }
  config_sensitive = {
    secret = "s"
  }
}
output "y" {
  value = "w"
}
resource "confluent_connector" "third" "more" {
  config_nonsensitive = {
    "connector.class" = ""
    tasks = 3
  }
}
"#,
    );
    let found: Vec<(&str, &str)> = configs
        .iter()
        .map(|c| (c.name.as_str(), c.connector_class.as_str()))
        .collect();
    assert_eq!(found, vec![("first", "A"), ("second", "D"), ("third", "")]);
    assert_eq!(pairs(&configs[1].sensitive_config), vec![("secret".to_string(), "s".to_string())]);
    assert_eq!(
        pairs(&configs[2].config),
        vec![
            ("connector.class".to_string(), String::new()),
            ("tasks".to_string(), "3".to_string())
        ]
    );
}

#[test]
fn a_module_without_a_label_has_the_empty_name() {
    let mut object = TfObject::new();
    object.insert(TfKey::Quoted("connector.class".to_string()), TfExpression::text("A"));
    let body = TfBody::new(vec![TfStructure::block(
        "module",
        vec![],
        TfBody::new(vec![TfStructure::attribute(
            "config_nonsensitive",
            TfExpression::object(object),
        )]),
    )]);
    let configs = ConnectUtilApp::new().unwrap().connector_configs_in(&body);
    assert_eq!(configs.len(), 1);
    assert_eq!(configs[0].name, "");
    assert_eq!(configs[0].connector_class, "A");
}

#[test]
fn settings_that_are_no_object_or_have_no_string_are_passed_over() {
    let configs = parsed(
        r#"
module "m" {
  config_sensitive = "not an object"
  config_nonsensitive = {
    "connector.class" = "A"
    nested = { a = 1 }
    reference = var.x.y
    kept = "v"
  }
}
module "dropped" {
  config_nonsensitive = {
    "connector.class" = var.a.b
  }
}
"#,
    );
    assert_eq!(configs.len(), 1);
    assert_eq!(
        pairs(&configs[0].config),
        vec![
            ("connector.class".to_string(), "A".to_string()),
            ("kept".to_string(), "v".to_string())
        ]
    );
    assert!(configs[0].sensitive_config.is_empty());
}

#[test]
fn an_empty_text_and_a_text_of_comments_declare_nothing() {
    assert!(parsed("").is_empty());
    assert!(parsed("# one\n// two\n/* three */\n").is_empty());
}

#[test]
fn a_text_that_is_no_document_is_a_parse_error() {
    let app = ConnectUtilApp::new().unwrap();
    for text in ["resource \"a\" {", "= 1", "a = "] {
        match app.parse_terraform_configs(text) {
            Err(ConnectUtilError::Config(message)) => {
                assert!(message.starts_with("Failed to parse Terraform file: "), "{}", message);
                assert!(message.len() > "Failed to parse Terraform file: ".len());
            }
            other => panic!("expected a parse error, got {:?}", other),
        }
        assert!(app.read_document(text).is_err());
        assert!(app.validate_connector_content(text).is_err());
    }
}

fn resource_with(parts: &[&str]) -> String {
    format!("resource \"confluent_connector\" \"r-1\" {{\n{}\n}}\n", parts.join("\n"))
}

const STATUS: &str = "status = \"RUNNING\"";
const ENVIRONMENT: &str = "environment {\n id = var.environment_id\n}";
const CLUSTER: &str = "kafka_cluster {\n id = var.kafka_cluster.id\n}";
const SENSITIVE: &str = "config_sensitive = {}";
const NONSENSITIVE: &str = "config_nonsensitive = {\n \"connector.class\" = \"PostgresSink\"\n}";

fn violation(text: &str) -> Option<String> {
    match ConnectUtilApp::new().unwrap().validate_terraform_structure(text) {
        Ok(()) => None,
        Err(ConnectUtilError::Config(message)) => Some(message),
        Err(other) => panic!("{:?}", other),
    }
}

#[test]
fn a_resource_with_every_part_has_the_right_shape() {
    assert_eq!(violation(&resource_with(&[STATUS, ENVIRONMENT, CLUSTER, SENSITIVE, NONSENSITIVE])), None);
    assert_eq!(violation(&resource_with(&[NONSENSITIVE, SENSITIVE, CLUSTER, ENVIRONMENT, STATUS])), None);
}

#[test]
fn each_missing_part_has_its_own_message() {
    assert_eq!(
        violation(&resource_with(&[ENVIRONMENT, CLUSTER, SENSITIVE, NONSENSITIVE])),
        Some("❌ Resource 'r-1' missing 'status' field".to_string())
    );
    assert_eq!(
        violation(&resource_with(&[STATUS, CLUSTER, SENSITIVE, NONSENSITIVE])),
        Some("❌ Resource 'r-1' missing 'environment { id = ... }' block".to_string())
    );
    assert_eq!(
        violation(&resource_with(&[STATUS, "environment {}", CLUSTER, SENSITIVE, NONSENSITIVE])),
        Some(
            "❌ Resource 'r-1' environment block must have 'id' attribute (found: none)"
                .to_string()
        )
    );
    assert_eq!(
        violation(&resource_with(&[
            STATUS,
            "environment {\n exo = 1\n nested {}\n name = 2\n}",
            CLUSTER,
            SENSITIVE,
            NONSENSITIVE
        ])),
        Some(
            "❌ Resource 'r-1' environment block must have 'id' attribute (found: exo, name)"
                .to_string()
        )
    );
    assert_eq!(
        violation(&resource_with(&[STATUS, ENVIRONMENT, SENSITIVE, NONSENSITIVE])),
        Some("❌ Resource 'r-1' missing 'kafka_cluster { id = ... }' block".to_string())
    );
    assert_eq!(
        violation(&resource_with(&[
            STATUS,
            ENVIRONMENT,
            "kafka_cluster {\n name = 1\n}",
            SENSITIVE,
            NONSENSITIVE
        ])),
        Some("❌ Resource 'r-1' kafka_cluster block must have 'id' attribute".to_string())
    );
    assert_eq!(
        violation(&resource_with(&[STATUS, ENVIRONMENT, CLUSTER, NONSENSITIVE])),
        Some("❌ Resource 'r-1' missing 'config_sensitive' attribute".to_string())
    );
    assert_eq!(
        violation(&resource_with(&[STATUS, ENVIRONMENT, CLUSTER, SENSITIVE])),
        Some("❌ Resource 'r-1' missing 'config_nonsensitive' attribute".to_string())
    );
}

#[test]
fn the_parts_are_checked_in_their_fixed_order() {
    assert_eq!(
        violation(&resource_with(&[])),
        Some("❌ Resource 'r-1' missing 'status' field".to_string())
    );
    assert_eq!(
        violation(&resource_with(&[STATUS, "kafka_cluster {}"])),
        Some("❌ Resource 'r-1' missing 'environment { id = ... }' block".to_string())
    );
    assert_eq!(
        violation(&resource_with(&[STATUS, ENVIRONMENT, "kafka_cluster {}"])),
        Some("❌ Resource 'r-1' kafka_cluster block must have 'id' attribute".to_string())
    );
}

#[test]
fn only_the_first_block_of_a_name_is_looked_at() {
    assert_eq!(
        violation(&resource_with(&[
            STATUS,
            "environment {}",
            ENVIRONMENT,
            CLUSTER,
            SENSITIVE,
            NONSENSITIVE
        ])),
        Some(
            "❌ Resource 'r-1' environment block must have 'id' attribute (found: none)"
                .to_string()
        )
    );
}

#[test]
fn a_block_is_no_attribute_and_an_attribute_is_no_block() {
    assert_eq!(
        violation(&resource_with(&["status {}", ENVIRONMENT, CLUSTER, SENSITIVE, NONSENSITIVE])),
        Some("❌ Resource 'r-1' missing 'status' field".to_string())
    );
    assert_eq!(
        violation(&resource_with(&[STATUS, "environment = 1", CLUSTER, SENSITIVE, NONSENSITIVE])),
        Some("❌ Resource 'r-1' missing 'environment { id = ... }' block".to_string())
    );
}

#[test]
fn the_first_resource_of_the_wrong_shape_is_reported() {
    let good = resource_with(&[STATUS, ENVIRONMENT, CLUSTER, SENSITIVE, NONSENSITIVE]);
    let second = "resource \"confluent_connector\" \"second\" {\n status = 1\n}\n";
    let third = "resource \"confluent_connector\" \"third\" {\n}\n";
    assert_eq!(
        violation(&format!("{}{}{}", good, second, third)),
        Some("❌ Resource 'second' missing 'environment { id = ... }' block".to_string())
    );
    assert_eq!(violation(&format!("{}{}", good, good)), None);
}

#[test]
fn a_document_without_connector_resources_is_an_error_of_its_own() {
    let expected = Some("❌ No 'confluent_connector' resources found in file".to_string());
    assert_eq!(violation(""), expected);
    assert_eq!(violation("module \"m\" {\n}\n"), expected);
    assert_eq!(violation("resource \"confluent_connector\" {\n}\n"), expected);
    assert_eq!(violation("resource \"other\" \"name\" {\n}\n"), expected);
    assert_eq!(violation("confluent_connector = 1\n"), expected);
}

#[test]
fn adding_the_cluster_block_makes_the_resource_pass() {
    let app = ConnectUtilApp::new().unwrap();
    let without = app
        .read_document(&resource_with(&[STATUS, ENVIRONMENT, SENSITIVE, NONSENSITIVE]))
        .unwrap();
    let result = app.validate_resource_block(&connector_resource(&without).body, "named");
    match result {
        Err(ConnectUtilError::Config(message)) => {
            assert_eq!(message, "❌ Resource 'named' missing 'kafka_cluster { id = ... }' block")
        }
        other => panic!("{:?}", other),
    }
    let with = app
        .read_document(&resource_with(&[STATUS, ENVIRONMENT, SENSITIVE, NONSENSITIVE, CLUSTER]))
        .unwrap();
    assert!(app.validate_resource_block(&connector_resource(&with).body, "named").is_ok());
    assert!(app.validate_document_structure(&with).is_ok());
    assert!(app.validate_document_structure(&without).is_err());
}

#[test]
fn the_helpers_on_a_body_find_attributes_and_blocks() {
    let app = ConnectUtilApp::new().unwrap();
    let body = app
        .read_document("a = 1\nb {\n c = 2\n}\nb {\n d = 3\n}\ne = 4\n")
        .unwrap();
    assert!(ConnectUtilApp::body_has_attribute(&body, "a"));
    assert!(ConnectUtilApp::body_has_attribute(&body, "e"));
    assert!(!ConnectUtilApp::body_has_attribute(&body, "b"));
    assert!(!ConnectUtilApp::body_has_attribute(&body, "c"));
    assert_eq!(ConnectUtilApp::body_attribute_list(&body), "a, e");
    let inner = ConnectUtilApp::body_first_block(&body, "b").unwrap();
    assert_eq!(ConnectUtilApp::body_attribute_list(inner), "c");
    assert!(ConnectUtilApp::body_first_block(&body, "a").is_none());
    assert_eq!(ConnectUtilApp::body_attribute_list(&TfBody::new(vec![])), "none");
}

#[test]
fn generation_without_questions_takes_the_first_source_connector() {
    let app = ConnectUtilApp::new().unwrap();
    let text = app
        .generate_terraform_non_interactive(ConnectorOptions {
            name: Some("n".to_string()),
            output: None,
        })
        .unwrap();
    let first = &ConnectorDefinition::get_connectors_by_type(&ConnectorType::Source)[0];
    assert_eq!(first.name, "ActiveMQSource");
    let expected = app.generate_for_connector("n".to_string(), first).unwrap();
    assert_eq!(text, expected);
    assert!(text.contains("\"connector.class\" = \"ActiveMQSource\""));
    assert!(text.contains("\"topic.prefix\" = \"<REPLACE_WITH_TOPIC_PREFIX>\""));
    match app.generate_terraform_non_interactive(ConnectorOptions::default()) {
        Err(ConnectUtilError::Config(message)) => {
            assert_eq!(message, "Connector name is required for non-interactive mode")
        }
        other => panic!("{:?}", other),
    }
}

#[test]
fn the_answer_to_source_or_sink_is_zero_or_one() {
    assert_eq!(ConnectUtilApp::connector_type_for_choice(0).unwrap(), ConnectorType::Source);
    assert_eq!(ConnectUtilApp::connector_type_for_choice(1).unwrap(), ConnectorType::Sink);
    for choice in [2, 3, usize::MAX] {
        match ConnectUtilApp::connector_type_for_choice(choice) {
            Err(ConnectUtilError::Config(message)) => {
                assert_eq!(message, "Invalid connector type selection")
            }
            other => panic!("{:?}", other),
        }
    }
}

#[test]
fn a_listing_shows_all_connectors_or_those_of_one_type() {
    let app = ConnectUtilApp::new().unwrap();
    assert_eq!(app.plugins(None).unwrap().len(), 59);
    let sources = app.plugins(Some("source".to_string())).unwrap();
    assert_eq!(sources.len(), 44);
    assert!(sources.iter().all(|c| c.connector_type == ConnectorType::Source));
    let sinks = app.plugins(Some("SiNk".to_string())).unwrap();
    assert_eq!(sinks.len(), 15);
    assert!(sinks.iter().all(|c| c.connector_type == ConnectorType::Sink));
    assert_eq!(app.plugins(Some("SOURCE".to_string())).unwrap().len(), 44);
    assert!(app.plugins(Some("invalid".to_string())).is_none());
    assert!(app.plugins(Some(String::new())).is_none());
    assert!(app.plugins(Some("sources".to_string())).is_none());
}

#[test]
fn a_file_of_comments_and_blank_lines_is_not_checked() {
    let app = ConnectUtilApp::new().unwrap();
    for content in ["", "\n\n", "   \n\t\n", "# a\n  # b\r\n\r\n#c", "#"] {
        assert!(
            matches!(app.validate_connector_content(content), Ok(ValidationSummary::CommentedOut)),
            "{:?}",
            content
        );
    }
}

#[test]
fn a_file_without_connectors_is_an_error() {
    let app = ConnectUtilApp::new().unwrap();
    for content in ["a = 1\n", "// a comment of another kind\n", "# a\nvariable \"x\" {}\n"] {
        match app.validate_connector_content(content) {
            Err(ValidationFailure { found: 0, reports, error: ConnectUtilError::Config(message) }) => {
                assert_eq!(message, "No connector configurations found in the file.");
                assert!(reports.is_empty());
            }
            other => panic!("{:?}", other),
        }
    }
}

#[test]
fn the_first_connector_that_the_catalog_lacks_is_an_error() {
    let app = ConnectUtilApp::new().unwrap();
    let content = r#"
module "a" {
  config_nonsensitive = {
    "connector.class" = "PostgresSink"
  }
}
module "b" {
  config_nonsensitive = {
    "connector.class" = "PostgreSQL Sink"
  }
}
module "c" {
  config_nonsensitive = {
    "connector.class" = "Nothing"
  }
}
"#;
    match app.validate_connector_content(content) {
        Err(failure) => {
            assert_eq!(failure.error.to_string(), "Configuration error: Unknown connector: PostgreSQL Sink");
            assert_eq!(failure.found, 3);
            assert_eq!(failure.reports.len(), 1);
            assert_eq!(failure.reports[0].name, "a");
            assert_eq!(failure.reports[0].connector, "PostgreSQL Sink");
            assert_eq!(
                failure.reports[0].outcome,
                Err("Missing required configuration: connection.host".to_string())
            );
        }
        other => panic!("{:?}", other),
    }
}

#[test]
fn connectors_that_are_known_are_checked_before_the_shape_of_the_document() {
    let app = ConnectUtilApp::new().unwrap();
    let content = r#"
module "a" {
  config_nonsensitive = {
    "connector.class" = "PostgresSink"
  }
}
"#;
    match app.validate_connector_content(content) {
        Err(failure) => {
            assert_eq!(
                failure.error.to_string(),
                "Configuration error: ❌ No 'confluent_connector' resources found in file"
            );
            assert_eq!(failure.found, 1);
            assert_eq!(failure.reports.len(), 1);
            assert_eq!(failure.reports[0].name, "a");
        }
        other => panic!("{:?}", other),
    }
}

#[test]
fn a_valid_connector_has_a_report_that_says_so() {
    let app = ConnectUtilApp::new().unwrap();
    let content = r#"
resource "confluent_connector" "good" {
  status = var.status
  environment {
    id = var.environment_id
  }
  kafka_cluster {
    id = var.kafka_cluster.id
  }
  config_sensitive = {
    "connection.password" = "secret"
  }
  config_nonsensitive = {
    "connector.class" = "PostgreSQLSource"
    "connection.host" = "h"
    "connection.port" = "5432"
    "connection.user" = "u"
    "db.name" = "d"
    "ssl.mode" = "require"
    "connection.password" = ""
  }
}
resource "confluent_connector" "bad" {
  status = var.status
  environment {
    id = var.environment_id
  }
  kafka_cluster {
    id = var.kafka_cluster.id
  }
  config_sensitive = {}
  config_nonsensitive = {
    "connector.class" = "PostgreSQLSource"
    "connection.host" = "h"
    "connection.port" = "5432"
    "connection.user" = "u"
    "db.name" = "d"
    "ssl.mode" = "sometimes"
  }
}
"#;
    match app.validate_connector_content(content).unwrap() {
        ValidationSummary::Checked { reports, resources } => {
            assert_eq!(resources, 2);
            assert_eq!(reports.len(), 2);
            assert_eq!(reports[0].name, "good");
            assert_eq!(reports[0].connector, "PostgreSQL Source (JDBC)");
            assert_eq!(reports[0].outcome, Ok(()));
            assert_eq!(reports[0].config_count, 7);
            assert_eq!(reports[0].sensitive_count, 1);
            assert_eq!(reports[1].name, "bad");
            assert_eq!(
                reports[1].outcome,
                Err("Invalid value 'sometimes' for field 'ssl.mode'. Valid values: [\"disable\", \"prefer\", \"require\", \"verify-ca\", \"verify-full\"]".to_string())
            );
            assert_eq!(reports[1].sensitive_count, 0);
        }
        other => panic!("{:?}", other),
    }
}

#[test]
fn test_list_plugins_all() {
    let app = ConnectUtilApp::new().unwrap();
    let result = app.list_plugins(None);
    assert!(result.is_ok());
}

#[test]
fn test_list_plugins_filtered_source() {
    let app = ConnectUtilApp::new().unwrap();
    let result = app.list_plugins(Some("source".to_string()));
    assert!(result.is_ok());
}

#[test]
fn test_list_plugins_filtered_sink() {
    let app = ConnectUtilApp::new().unwrap();
    let result = app.list_plugins(Some("sink".to_string()));
    assert!(result.is_ok());
}

#[test]
fn test_list_plugins_invalid_filter() {
    let app = ConnectUtilApp::new().unwrap();
    let result = app.list_plugins(Some("invalid".to_string()));
    assert!(result.is_ok());
}

#[test]
fn a_listing_has_a_heading_and_three_lines_for_each_connector() {
    let app = ConnectUtilApp::new().unwrap();
    let lines = app.list_plugins(Some("Sink".to_string())).unwrap();
    assert_eq!(lines.len(), 1 + 3 * 15);
    assert_eq!(lines[0], "Available connector plugins:");
    assert_eq!(lines[1], "  - AlloyDB Sink (sink)");
    assert_eq!(lines[2], "    Class: AlloyDbSink");
    assert_eq!(lines[3], "    Description: Write data to Google AlloyDB for PostgreSQL");
    let all = app.list_plugins(None).unwrap();
    assert_eq!(all.len(), 1 + 3 * 59);
    assert_eq!(all[1], "  - ActiveMQ Source (source)");
    assert_eq!(all[2], "    Class: ActiveMQSource");
    assert_eq!(all[3], "    Description: Read messages from ActiveMQ queues");
    assert_eq!(
        app.list_plugins(Some("neither".to_string())).unwrap(),
        vec!["❌ Invalid filter type. Use 'source' or 'sink'".to_string()]
    );
}

fn read_value(text: &str) -> TfExpression {
    let app = ConnectUtilApp::new().unwrap();
    let mut body = app.read_document(&format!("x = {}\n", text)).unwrap();
    match body.structures.remove(0) {
        TfStructure::Attribute(a) => {
            assert_eq!(a.key, "x");
            a.expr
        }
        other => panic!("{:?}", other),
    }
}

#[test]
fn a_document_is_read_with_its_blocks_labels_and_attributes_in_order() {
    let app = ConnectUtilApp::new().unwrap();
    let body = app
        .read_document("first = 1\nouter bare \"quoted\" {\n  inner {\n    deep = true\n  }\n  last = \"v\"\n}\n")
        .unwrap();
    assert_eq!(body.structures.len(), 2);
    match &body.structures[0] {
        TfStructure::Attribute(a) => {
            assert_eq!(a.key, "first");
            assert!(matches!(&a.expr, TfExpression::Number(n) if n == "1"));
        }
        other => panic!("{:?}", other),
    }
    let outer = match &body.structures[1] {
        TfStructure::Block(b) => b,
        other => panic!("{:?}", other),
    };
    assert_eq!(outer.identifier, "outer");
    assert_eq!(outer.labels, vec!["bare".to_string(), "quoted".to_string()]);
    assert_eq!(outer.body.structures.len(), 2);
    match &outer.body.structures[0] {
        TfStructure::Block(inner) => {
            assert_eq!(inner.identifier, "inner");
            assert!(inner.labels.is_empty());
            match &inner.body.structures[0] {
                TfStructure::Attribute(a) => {
                    assert_eq!(a.key, "deep");
                    assert!(matches!(a.expr, TfExpression::Bool(true)));
                }
                other => panic!("{:?}", other),
            }
        }
        other => panic!("{:?}", other),
    }
    match &outer.body.structures[1] {
        TfStructure::Attribute(a) => {
            assert_eq!(a.key, "last");
            assert!(matches!(&a.expr, TfExpression::String(s) if s == "v"));
        }
        other => panic!("{:?}", other),
    }
}

#[test]
fn each_kind_of_expression_is_read_as_what_it_is() {
    assert!(matches!(read_value("null"), TfExpression::Null));
    assert!(matches!(read_value("false"), TfExpression::Bool(false)));
    assert!(matches!(read_value("12"), TfExpression::Number(n) if n == "12"));
    assert!(matches!(read_value("\"s\""), TfExpression::String(s) if s == "s"));
    assert!(matches!(read_value("name"), TfExpression::Variable(v) if v == "name"));
    match read_value("[1, \"a\"]") {
        TfExpression::Array(items) => {
            assert_eq!(items.len(), 2);
            assert!(matches!(&items[0], TfExpression::Number(n) if n == "1"));
            assert!(matches!(&items[1], TfExpression::String(s) if s == "a"));
        }
        other => panic!("{:?}", other),
    }
    match read_value("{ bare = 1, \"quoted\" = 2 }") {
        TfExpression::Object(object) => {
            assert_eq!(object.len(), 2);
            assert!(matches!(&object.entries[0].0, TfKey::Identifier(k) if k == "bare"));
            assert!(matches!(&object.entries[1].0, TfKey::Quoted(k) if k == "quoted"));
        }
        other => panic!("{:?}", other),
    }
    match read_value("var.a.b") {
        TfExpression::Traversal { root, attrs } => {
            assert!(matches!(&*root, TfExpression::Variable(v) if v == "var"));
            assert_eq!(attrs, vec!["a".to_string(), "b".to_string()]);
        }
        other => panic!("{:?}", other),
    }
    match read_value("f(1, x...)") {
        TfExpression::FuncCall { name, args, expand_final } => {
            assert_eq!(name, "f");
            assert_eq!(args.len(), 2);
            assert!(expand_final);
        }
        other => panic!("{:?}", other),
    }
    assert!(matches!(read_value("var.a[0]"), TfExpression::Unsupported));
    assert!(matches!(read_value("var.a.*.b"), TfExpression::Unsupported));
    assert!(matches!(read_value("\"${a}\""), TfExpression::Unsupported));
    assert!(matches!(read_value("!a"), TfExpression::Unsupported));
    assert!(matches!(read_value("[for v in l : v]"), TfExpression::Unsupported));
}

#[test]
fn a_text_that_is_no_document_fails_with_nothing_found() {
    let app = ConnectUtilApp::new().unwrap();
    match app.validate_connector_content("resource \"a\" {") {
        Err(failure) => {
            assert_eq!(failure.found, 0);
            assert!(failure.reports.is_empty());
            assert!(failure
                .error
                .to_string()
                .starts_with("Configuration error: Failed to parse Terraform file: "));
        }
        other => panic!("{:?}", other),
    }
}

#[test]
fn the_connector_resources_of_a_document_are_counted() {
    let app = ConnectUtilApp::new().unwrap();
    let body = app
        .read_document(
            "resource \"confluent_connector\" \"a\" {}\nmodule \"m\" {}\nresource \"other\" \"b\" {}\nresource \"confluent_connector\" {}\nresource \"confluent_connector\" \"c\" \"d\" {}\nx = 1\n",
        )
        .unwrap();
    assert_eq!(app.count_connector_resources(&body), 2);
    assert_eq!(app.count_connector_resources(&TfBody::new(vec![])), 0);
}

#[test]
fn a_document_of_the_wrong_shape_fails_with_every_report() {
    let app = ConnectUtilApp::new().unwrap();
    let content = r#"
resource "confluent_connector" "first" {
  config_nonsensitive = {
    "connector.class" = "PostgresSink"
  }
}
module "second" {
  config_nonsensitive = {
    "connector.class" = "MySQLSink"
  }
}
"#;
    match app.validate_connector_content(content) {
        Err(failure) => {
            assert_eq!(
                failure.error.to_string(),
                "Configuration error: ❌ Resource 'first' missing 'status' field"
            );
            assert_eq!(failure.found, 2);
            assert_eq!(failure.reports.len(), 2);
            assert_eq!(failure.reports[1].name, "second");
            assert_eq!(failure.reports[1].connector, "MySQL Sink");
        }
        other => panic!("{:?}", other),
    }
}

#[test]
fn a_document_with_numbers_that_was_read_is_printed_as_it_was_written() {
    let app = ConnectUtilApp::new().unwrap();
    let text = "count = 3\nratio = 0.25\nbelow = -12\nlist = [\n  1,\n  2.5\n]\n\nblock \"l\" {\n  big = 12345678901234567890\n}\n";
    let body = app.read_document(text).unwrap();
    assert!(body.is_printable());
    assert_eq!(TerraformGenerator::print_document(&body).unwrap(), text);
}
