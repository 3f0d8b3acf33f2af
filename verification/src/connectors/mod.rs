//! The catalog of connectors, and the check of a configuration against its
//! connector's definition.

use vstd::prelude::*;
use crate::config_map::{
    ConfigMap, distinct_keys, entries_extend, entries_insert, entries_map, key_position,
    lemma_entries_extend, lemma_entries_insert, lemma_entries_map, lemma_key_position,
};
use crate::search::{first_position, lemma_first_position, lemma_first_position_is};
use crate::text::{concat, concat3, contains_text, text_eq};
use crate::trusted::{debug_list, debug_text};
use crate::types::{
    ConfigField, ConfigFieldView, ConnectorDefinition, ConnectorDefinitionView, ConnectorType,
    definition_views, option_texts,
};

pub mod sinks;
pub mod sources;

verus! {

/// A field that is shown under its own name and has no default.
pub open spec fn field(
    name: Seq<char>,
    description: Seq<char>,
    field_type: Seq<char>,
    required: bool,
    valid_values: Option<Seq<Seq<char>>>,
) -> ConfigFieldView {
    ConfigFieldView {
        name,
        display_name: name,
        description,
        field_type,
        required,
        default_value: None,
        valid_values,
    }
}

/// A field that is shown under its own name and has no default.
pub(crate) fn config_field(
    name: &str,
    description: &str,
    field_type: &str,
    required: bool,
    valid_values: Option<Vec<String>>,
) -> (r: ConfigField)
    ensures
        r@ == field(name@, description@, field_type@, required, option_texts(valid_values)),
{
    ConfigField {
        name: String::from_str(name),
        display_name: String::from_str(name),
        description: String::from_str(description),
        field_type: String::from_str(field_type),
        required,
        default_value: None,
        valid_values,
    }
}

/// The entry at each position of the catalog: the source connectors, then the
/// sink connectors.
#[verifier::opaque]
pub open spec fn catalog_entry(at: int) -> ConnectorDefinitionView {
    if at == 0 {
        sources::activemq_source_entry()
    } else if at == 1 {
        sources::amazon_cloudwatch_logs_source_entry()
    } else if at == 2 {
        sources::amazon_dynamodb_cdc_source_entry()
    } else if at == 3 {
        sources::amazon_kinesis_source_entry()
    } else if at == 4 {
        sources::amazon_s3_source_entry()
    } else if at == 5 {
        sources::amazon_sqs_source_entry()
    } else if at == 6 {
        sources::azure_blob_storage_source_entry()
    } else if at == 7 {
        sources::azure_cosmos_db_source_entry()
    } else if at == 8 {
        sources::azure_cosmos_db_source_v2_entry()
    } else if at == 9 {
        sources::azure_event_hubs_source_entry()
    } else if at == 10 {
        sources::azure_service_bus_source_entry()
    } else if at == 11 {
        sources::couchbase_source_entry()
    } else if at == 12 {
        sources::datagen_source_entry()
    } else if at == 13 {
        sources::github_source_entry()
    } else if at == 14 {
        sources::google_cloud_pubsub_source_entry()
    } else if at == 15 {
        sources::http_source_entry()
    } else if at == 16 {
        sources::http_source_v2_entry()
    } else if at == 17 {
        sources::ibm_mq_source_entry()
    } else if at == 18 {
        sources::influxdb_2_source_entry()
    } else if at == 19 {
        sources::jira_source_entry()
    } else if at == 20 {
        sources::mariadb_cdc_source_entry()
    } else if at == 21 {
        sources::microsoft_sql_server_cdc_source_v2_entry()
    } else if at == 22 {
        sources::microsoft_sql_server_source_entry()
    } else if at == 23 {
        sources::mongodb_atlas_source_entry()
    } else if at == 24 {
        sources::mqtt_source_entry()
    } else if at == 25 {
        sources::mysql_cdc_source_v2_entry()
    } else if at == 26 {
        sources::mysql_cdc_source_entry()
    } else if at == 27 {
        sources::mysql_source_entry()
    } else if at == 28 {
        sources::oracle_cdc_source_entry()
    } else if at == 29 {
        sources::oracle_xstream_cdc_source_entry()
    } else if at == 30 {
        sources::oracle_database_source_entry()
    } else if at == 31 {
        sources::postgresql_cdc_source_v2_entry()
    } else if at == 32 {
        sources::postgresql_cdc_source_entry()
    } else if at == 33 {
        sources::postgresql_source_entry()
    } else if at == 34 {
        sources::rabbitmq_source_entry()
    } else if at == 35 {
        sources::salesforce_bulk_api_source_entry()
    } else if at == 36 {
        sources::salesforce_bulk_api_2_0_source_entry()
    } else if at == 37 {
        sources::salesforce_cdc_source_entry()
    } else if at == 38 {
        sources::salesforce_platform_event_source_entry()
    } else if at == 39 {
        sources::salesforce_pushtopic_source_entry()
    } else if at == 40 {
        sources::servicenow_source_v2_entry()
    } else if at == 41 {
        sources::sftp_source_entry()
    } else if at == 42 {
        sources::snowflake_source_entry()
    } else if at == 43 {
        sources::zendesk_source_entry()
    } else if at == 44 {
        sinks::alloydb_sink_entry()
    } else if at == 45 {
        sinks::amazon_s3_sink_entry()
    } else if at == 46 {
        sinks::snowflake_sink_entry()
    } else if at == 47 {
        sinks::postgresql_sink_entry()
    } else if at == 48 {
        sinks::mysql_sink_entry()
    } else if at == 49 {
        sinks::microsoft_sql_server_sink_entry()
    } else if at == 50 {
        sinks::oracle_sink_entry()
    } else if at == 51 {
        sinks::mongodb_sink_entry()
    } else if at == 52 {
        sinks::elasticsearch_sink_entry()
    } else if at == 53 {
        sinks::bigquery_sink_entry()
    } else if at == 54 {
        sinks::redshift_sink_entry()
    } else if at == 55 {
        sinks::databricks_sink_entry()
    } else if at == 56 {
        sinks::jdbc_sink_entry()
    } else if at == 57 {
        sinks::splunk_sink_entry()
    } else {
        sinks::clickhouse_sink_entry()
    }
}

/// The catalog.
pub open spec fn catalog() -> Seq<ConnectorDefinitionView> {
    Seq::new(59, |at: int| catalog_entry(at))
}

/// The condition of being of the type `connector_type`, as a value.
pub open spec fn has_type(connector_type: ConnectorType) -> spec_fn(
    ConnectorDefinitionView,
) -> bool {
    |definition: ConnectorDefinitionView| definition.connector_type == connector_type
}

/// The condition of being called `name`, as a value.
pub open spec fn has_name(name: Seq<char>) -> spec_fn(ConnectorDefinitionView) -> bool {
    |definition: ConnectorDefinitionView| definition.name == name
}

/// The definitions of the type `connector_type`, in the order of `items`.
pub open spec fn of_type(
    items: Seq<ConnectorDefinitionView>,
    connector_type: ConnectorType,
) -> Seq<ConnectorDefinitionView> {
    items.filter(has_type(connector_type))
}

/// The definition called `name`, if the catalog has one.
pub open spec fn named(name: Seq<char>) -> Option<ConnectorDefinitionView> {
    let at = first_position(catalog(), has_name(name));
    if at < catalog().len() {
        Some(catalog()[at])
    } else {
        None
    }
}

/// The name at each position of the catalog.
pub proof fn lemma_catalog_names()
    ensures
        catalog().len() == 59,
        catalog()[0].name == "ActiveMQSource"@,
        catalog()[1].name == "AmazonCloudWatchLogsSource"@,
        catalog()[2].name == "AmazonDynamoDBCdcSource"@,
        catalog()[3].name == "AmazonKinesisSource"@,
        catalog()[4].name == "AmazonS3Source"@,
        catalog()[5].name == "AmazonSQSSource"@,
        catalog()[6].name == "AzureBlobStorageSource"@,
        catalog()[7].name == "AzureCosmosDBSource"@,
        catalog()[8].name == "AzureCosmosDBSourceV2"@,
        catalog()[9].name == "AzureEventHubsSource"@,
        catalog()[10].name == "AzureServiceBusSource"@,
        catalog()[11].name == "CouchbaseSource"@,
        catalog()[12].name == "DatagenSource"@,
        catalog()[13].name == "GitHubSource"@,
        catalog()[14].name == "GoogleCloudPubSubSource"@,
        catalog()[15].name == "HttpSource"@,
        catalog()[16].name == "HttpSourceV2"@,
        catalog()[17].name == "IBMMQSource"@,
        catalog()[18].name == "InfluxDB2Source"@,
        catalog()[19].name == "JiraSource"@,
        catalog()[20].name == "MariaDBCdcSource"@,
        catalog()[21].name == "MicrosoftSqlServerCdcSourceV2"@,
        catalog()[22].name == "MicrosoftSqlServerSource"@,
        catalog()[23].name == "MongoDBAtlasSource"@,
        catalog()[24].name == "MQTTSource"@,
        catalog()[25].name == "MySqlCdcSourceV2"@,
        catalog()[26].name == "MySqlCdcSource"@,
        catalog()[27].name == "MySQLSource"@,
        catalog()[28].name == "OracleCdcSource"@,
        catalog()[29].name == "OracleXStreamCdcSource"@,
        catalog()[30].name == "OracleDatabaseSource"@,
        catalog()[31].name == "PostgresCdcSourceV2"@,
        catalog()[32].name == "PostgresCdcSource"@,
        catalog()[33].name == "PostgreSQLSource"@,
        catalog()[34].name == "RabbitMQSource"@,
        catalog()[35].name == "SalesforceBulkAPISource"@,
        catalog()[36].name == "SalesforceBulkAPI2_0Source"@,
        catalog()[37].name == "SalesforceCdcSource"@,
        catalog()[38].name == "SalesforcePlatformEventSource"@,
        catalog()[39].name == "SalesforcePushTopicSource"@,
        catalog()[40].name == "ServiceNowSourceV2"@,
        catalog()[41].name == "SFTPSource"@,
        catalog()[42].name == "SnowflakeSource"@,
        catalog()[43].name == "ZendeskSource"@,
        catalog()[44].name == "AlloyDbSink"@,
        catalog()[45].name == "S3_SINK"@,
        catalog()[46].name == "SnowflakeSink"@,
        catalog()[47].name == "PostgresSink"@,
        catalog()[48].name == "MySQLSink"@,
        catalog()[49].name == "MicrosoftSqlServerSink"@,
        catalog()[50].name == "OracleDatabaseSink"@,
        catalog()[51].name == "MongoDbAtlasSink"@,
        catalog()[52].name == "ElasticsearchSink"@,
        catalog()[53].name == "BigQuerySink"@,
        catalog()[54].name == "RedshiftSink"@,
        catalog()[55].name == "DatabricksDeltaLakeSink"@,
        catalog()[56].name == "JdbcSink"@,
        catalog()[57].name == "SplunkSink"@,
        catalog()[58].name == "ClickHouseSink"@,
{
    reveal(catalog_entry);
}

/// No two entries of the catalog have the same name.
pub proof fn lemma_catalog_names_are_distinct()
    ensures
        forall|i: int, j: int|
            0 <= i < j < catalog().len() ==> (#[trigger] catalog()[i]).name != (
            #[trigger] catalog()[j]).name,
{
    lemma_catalog_names();
    reveal_strlit("ActiveMQSource");
    reveal_strlit("AmazonCloudWatchLogsSource");
    reveal_strlit("AmazonDynamoDBCdcSource");
    reveal_strlit("AmazonKinesisSource");
    reveal_strlit("AmazonS3Source");
    reveal_strlit("AmazonSQSSource");
    reveal_strlit("AzureBlobStorageSource");
    reveal_strlit("AzureCosmosDBSource");
    reveal_strlit("AzureCosmosDBSourceV2");
    reveal_strlit("AzureEventHubsSource");
    reveal_strlit("AzureServiceBusSource");
    reveal_strlit("CouchbaseSource");
    reveal_strlit("DatagenSource");
    reveal_strlit("GitHubSource");
    reveal_strlit("GoogleCloudPubSubSource");
    reveal_strlit("HttpSource");
    reveal_strlit("HttpSourceV2");
    reveal_strlit("IBMMQSource");
    reveal_strlit("InfluxDB2Source");
    reveal_strlit("JiraSource");
    reveal_strlit("MariaDBCdcSource");
    reveal_strlit("MicrosoftSqlServerCdcSourceV2");
    reveal_strlit("MicrosoftSqlServerSource");
    reveal_strlit("MongoDBAtlasSource");
    reveal_strlit("MQTTSource");
    reveal_strlit("MySqlCdcSourceV2");
    reveal_strlit("MySqlCdcSource");
    reveal_strlit("MySQLSource");
    reveal_strlit("OracleCdcSource");
    reveal_strlit("OracleXStreamCdcSource");
    reveal_strlit("OracleDatabaseSource");
    reveal_strlit("PostgresCdcSourceV2");
    reveal_strlit("PostgresCdcSource");
    reveal_strlit("PostgreSQLSource");
    reveal_strlit("RabbitMQSource");
    reveal_strlit("SalesforceBulkAPISource");
    reveal_strlit("SalesforceBulkAPI2_0Source");
    reveal_strlit("SalesforceCdcSource");
    reveal_strlit("SalesforcePlatformEventSource");
    reveal_strlit("SalesforcePushTopicSource");
    reveal_strlit("ServiceNowSourceV2");
    reveal_strlit("SFTPSource");
    reveal_strlit("SnowflakeSource");
    reveal_strlit("ZendeskSource");
    reveal_strlit("AlloyDbSink");
    reveal_strlit("S3_SINK");
    reveal_strlit("SnowflakeSink");
    reveal_strlit("PostgresSink");
    reveal_strlit("MySQLSink");
    reveal_strlit("MicrosoftSqlServerSink");
    reveal_strlit("OracleDatabaseSink");
    reveal_strlit("MongoDbAtlasSink");
    reveal_strlit("ElasticsearchSink");
    reveal_strlit("BigQuerySink");
    reveal_strlit("RedshiftSink");
    reveal_strlit("DatabricksDeltaLakeSink");
    reveal_strlit("JdbcSink");
    reveal_strlit("SplunkSink");
    reveal_strlit("ClickHouseSink");
    assert("HttpSource"@[1] == 't');
    assert("JiraSource"@[1] == 'i');
    assert("MQTTSource"@[1] == 'Q');
    assert("SFTPSource"@[1] == 'F');
    assert("SplunkSink"@[1] == 'p');
    assert("IBMMQSource"@[0] == 'I');
    assert("MySQLSource"@[0] == 'M');
    assert("AlloyDbSink"@[0] == 'A');
    assert("GitHubSource"@[0] == 'G');
    assert("HttpSourceV2"@[0] == 'H');
    assert("PostgresSink"@[0] == 'P');
    assert("BigQuerySink"@[0] == 'B');
    assert("RedshiftSink"@[0] == 'R');
    assert("DatagenSource"@[0] == 'D');
    assert("ZendeskSource"@[0] == 'Z');
    assert("SnowflakeSink"@[0] == 'S');
    assert("ActiveMQSource"@[1] == 'c');
    assert("AmazonS3Source"@[1] == 'm');
    assert("MySqlCdcSource"@[1] == 'y');
    assert("RabbitMQSource"@[1] == 'a');
    assert("ClickHouseSink"@[1] == 'l');
    assert("AmazonSQSSource"@[0] == 'A');
    assert("CouchbaseSource"@[0] == 'C');
    assert("InfluxDB2Source"@[0] == 'I');
    assert("OracleCdcSource"@[0] == 'O');
    assert("SnowflakeSource"@[0] == 'S');
    assert("MariaDBCdcSource"@[2] == 'r');
    assert("MySqlCdcSourceV2"@[2] == 'S');
    assert("PostgreSQLSource"@[2] == 's');
    assert("MongoDbAtlasSink"@[2] == 'n');
    assert("PostgresCdcSource"@[0] == 'P');
    assert("ElasticsearchSink"@[0] == 'E');
    assert("MongoDBAtlasSource"@[0] == 'M');
    assert("ServiceNowSourceV2"@[0] == 'S');
    assert("OracleDatabaseSink"@[0] == 'O');
    assert("AmazonKinesisSource"@[1] == 'm');
    assert("AzureCosmosDBSource"@[1] == 'z');
    assert("PostgresCdcSourceV2"@[1] == 'o');
    assert("SalesforceCdcSource"@[1] == 'a');
    assert("AzureEventHubsSource"@[0] == 'A');
    assert("OracleDatabaseSource"@[0] == 'O');
    assert("AzureCosmosDBSourceV2"@[5] == 'C');
    assert("AzureServiceBusSource"@[5] == 'S');
    assert("AzureBlobStorageSource"@[0] == 'A');
    assert("OracleXStreamCdcSource"@[0] == 'O');
    assert("MicrosoftSqlServerSink"@[0] == 'M');
    assert("AmazonDynamoDBCdcSource"@[0] == 'A');
    assert("GoogleCloudPubSubSource"@[0] == 'G');
    assert("SalesforceBulkAPISource"@[0] == 'S');
    assert("DatabricksDeltaLakeSink"@[0] == 'D');
    assert("AmazonCloudWatchLogsSource"@[0] == 'A');
    assert("SalesforceBulkAPI2_0Source"@[0] == 'S');
    assert("MicrosoftSqlServerCdcSourceV2"@[0] == 'M');
    assert("SalesforcePlatformEventSource"@[0] == 'S');
    assert forall|at: int| 0 <= at < catalog().len() implies (#[trigger] catalog_entry(at)).name.len()
        > 0 by {
        reveal(catalog_entry);
    }
    reveal(catalog_entry);
}

/// Looking up the name of an entry of the catalog finds that entry.
pub proof fn lemma_catalog_entry_is_found(at: int)
    requires
        0 <= at < catalog().len(),
    ensures
        named(catalog()[at].name) == Some(catalog()[at]),
{
    lemma_catalog_names_are_distinct();
    let wanted = has_name(catalog()[at].name);
    assert forall|i: int| 0 <= i < at implies !wanted(#[trigger] catalog()[i]) by {
        assert(catalog()[i].name != catalog()[at].name);
    }
    lemma_first_position_is(catalog(), wanted, at);
}


/// The condition of being called `name`, as a value.
pub open spec fn field_named(name: Seq<char>) -> spec_fn(ConfigFieldView) -> bool {
    |field: ConfigFieldView| field.name == name
}

/// The field that a definition has for the key `key`: the first so called
/// among its required fields, else among its optional ones.
pub open spec fn known_field(
    definition: ConnectorDefinitionView,
    key: Seq<char>,
) -> Option<ConfigFieldView> {
    let fields = definition.required_configs + definition.optional_configs;
    let at = first_position(fields, field_named(key));
    if at < fields.len() {
        Some(fields[at])
    } else {
        None
    }
}

/// Whether a definition turns down `value` for `key`: the key is a field
/// with a list of valid values, and the value is none of them.
pub open spec fn refuses(
    definition: ConnectorDefinitionView,
    key: Seq<char>,
    value: Seq<char>,
) -> bool {
    match known_field(definition, key) {
        Some(field) => match field.valid_values {
            Some(values) => !values.contains(value),
            None => false,
        },
        None => false,
    }
}

/// The condition of not being set in `settings`, as a value.
pub open spec fn is_missing(settings: Map<Seq<char>, Seq<char>>) -> spec_fn(
    ConfigFieldView,
) -> bool {
    |field: ConfigFieldView| !settings.dom().contains(field.name)
}

/// The condition of standing in `nonsensitive` with a value that is not
/// empty, as a value.
pub open spec fn is_misplaced(nonsensitive: Map<Seq<char>, Seq<char>>) -> spec_fn(
    Seq<char>,
) -> bool {
    |name: Seq<char>| nonsensitive.dom().contains(name) && nonsensitive[name].len() > 0
}

/// The condition of being turned down by `definition`, as a value.
pub open spec fn is_refused(definition: ConnectorDefinitionView) -> spec_fn(
    (Seq<char>, Seq<char>),
) -> bool {
    |entry: (Seq<char>, Seq<char>)| refuses(definition, entry.0, entry.1)
}

/// The message for a value that is none of the valid ones.
pub open spec fn refusal_message(
    definition: ConnectorDefinitionView,
    key: Seq<char>,
    value: Seq<char>,
) -> Seq<char> {
    "Invalid value '"@ + value + "' for field '"@ + key + "'. Valid values: "@ + debug_text(
        known_field(definition, key)->Some_0.valid_values->Some_0,
    )
}

/// What the check of a configuration gives. The sensitive settings are laid
/// over the others. The first required field that is not set is reported;
/// then the first sensitive setting that stands among the others with a
/// value; then the first setting, in the order of the merged settings, whose
/// value is not valid.
pub open spec fn validation_result(
    definition: ConnectorDefinitionView,
    nonsensitive: Seq<(Seq<char>, Seq<char>)>,
    sensitive: Seq<(Seq<char>, Seq<char>)>,
) -> Result<(), Seq<char>> {
    let merged = entries_extend(nonsensitive, sensitive);
    let missing = first_position(definition.required_configs, is_missing(entries_map(merged)));
    let misplaced = first_position(
        definition.sensitive_configs,
        is_misplaced(entries_map(nonsensitive)),
    );
    let refused = first_position(merged, is_refused(definition));
    if missing < definition.required_configs.len() {
        Err("Missing required configuration: "@ + definition.required_configs[missing].name)
    } else if misplaced < definition.sensitive_configs.len() {
        Err(
            "Sensitive configuration '"@ + definition.sensitive_configs[misplaced]
                + "' should be in config_sensitive block"@,
        )
    } else if refused < merged.len() {
        Err(refusal_message(definition, merged[refused].0, merged[refused].1))
    } else {
        Ok(())
    }
}

/// A configuration is valid exactly when every required field is set in
/// one of the two blocks, no sensitive setting stands among the others with
/// a value, and no setting of the merged blocks has a value that its field
/// does not allow. Settings that are no fields of the definition play no part.
pub proof fn lemma_valid_exactly_when(
    definition: ConnectorDefinitionView,
    nonsensitive: Seq<(Seq<char>, Seq<char>)>,
    sensitive: Seq<(Seq<char>, Seq<char>)>,
)
    requires
        distinct_keys(nonsensitive),
    ensures
        validation_result(definition, nonsensitive, sensitive) is Ok <==> {
            let settings = entries_map(nonsensitive).union_prefer_right(entries_map(sensitive));
            &&& forall|i: int|
                0 <= i < definition.required_configs.len() ==> settings.dom().contains(
                    (#[trigger] definition.required_configs[i]).name,
                )
            &&& forall|i: int|
                0 <= i < definition.sensitive_configs.len() ==> !is_misplaced(
                    entries_map(nonsensitive),
                )(#[trigger] definition.sensitive_configs[i])
            &&& forall|key: Seq<char>| #[trigger]
                settings.dom().contains(key) ==> !refuses(definition, key, settings[key])
        },
{
    let merged = entries_extend(nonsensitive, sensitive);
    let settings = entries_map(nonsensitive).union_prefer_right(entries_map(sensitive));
    lemma_entries_extend(nonsensitive, sensitive);
    lemma_entries_map(merged);
    let missing = is_missing(settings);
    let misplaced = is_misplaced(entries_map(nonsensitive));
    let refused = is_refused(definition);
    lemma_first_position(definition.required_configs, missing);
    lemma_first_position(definition.sensitive_configs, misplaced);
    lemma_first_position(merged, refused);
    if validation_result(definition, nonsensitive, sensitive) is Ok {
        assert forall|key: Seq<char>| #[trigger] settings.dom().contains(key) implies !refuses(
            definition,
            key,
            settings[key],
        ) by {
            lemma_key_position(merged, key);
            let at = key_position(merged, key);
            assert(!refused(merged[at]));
        }
    } else {
        if first_position(definition.required_configs, missing)
            < definition.required_configs.len() {
        } else if first_position(definition.sensitive_configs, misplaced)
            < definition.sensitive_configs.len() {
        } else {
            let at = first_position(merged, refused);
            assert(refused(merged[at]));
            assert(settings[merged[at].0] == merged[at].1);
            lemma_key_position(merged, merged[at].0);
        }
    }
}

/// A setting that is no field of the definition and none of its sensitive
/// settings does no harm: with it, a valid configuration stays valid.
pub proof fn lemma_unknown_settings_do_no_harm(
    definition: ConnectorDefinitionView,
    nonsensitive: Seq<(Seq<char>, Seq<char>)>,
    sensitive: Seq<(Seq<char>, Seq<char>)>,
    key: Seq<char>,
    value: Seq<char>,
)
    requires
        distinct_keys(nonsensitive),
        validation_result(definition, nonsensitive, sensitive) is Ok,
        known_field(definition, key) is None,
        !definition.sensitive_configs.contains(key),
    ensures
        validation_result(definition, entries_insert(nonsensitive, key, value), sensitive) is Ok,
{
    let with = entries_insert(nonsensitive, key, value);
    lemma_entries_insert(nonsensitive, key, value);
    lemma_valid_exactly_when(definition, nonsensitive, sensitive);
    lemma_valid_exactly_when(definition, with, sensitive);
    let before = entries_map(nonsensitive).union_prefer_right(entries_map(sensitive));
    let after = entries_map(with).union_prefer_right(entries_map(sensitive));
    assert forall|i: int| 0 <= i < definition.required_configs.len() implies after.dom().contains(
        (#[trigger] definition.required_configs[i]).name,
    ) by {
        assert(before.dom().contains(definition.required_configs[i].name));
    }
    assert forall|i: int| 0 <= i < definition.sensitive_configs.len() implies !is_misplaced(
        entries_map(with),
    )(#[trigger] definition.sensitive_configs[i]) by {
        assert(definition.sensitive_configs[i] != key);
        assert(!is_misplaced(entries_map(nonsensitive))(definition.sensitive_configs[i]));
    }
    assert forall|other: Seq<char>| #[trigger] after.dom().contains(other) implies !refuses(
        definition,
        other,
        after[other],
    ) by {
        if other != key {
            assert(before.dom().contains(other));
            assert(after[other] == before[other]);
        }
    }
}

/// The check fails with the message for a missing field exactly when a
/// required field is set in neither block.
pub proof fn lemma_missing_field_is_reported(
    definition: ConnectorDefinitionView,
    nonsensitive: Seq<(Seq<char>, Seq<char>)>,
    sensitive: Seq<(Seq<char>, Seq<char>)>,
)
    requires
        distinct_keys(nonsensitive),
    ensures
        ({
            let settings = entries_map(nonsensitive).union_prefer_right(entries_map(sensitive));
            exists|i: int|
                0 <= i < definition.required_configs.len() && !settings.dom().contains(
                    (#[trigger] definition.required_configs[i]).name,
                )
        }) <==> (exists|i: int|
            0 <= i < definition.required_configs.len() && validation_result(
                definition,
                nonsensitive,
                sensitive,
            ) == Err::<(), Seq<char>>(
                "Missing required configuration: "@ + (
                #[trigger] definition.required_configs[i]).name,
            )),
{
    let merged = entries_extend(nonsensitive, sensitive);
    let settings = entries_map(nonsensitive).union_prefer_right(entries_map(sensitive));
    lemma_entries_extend(nonsensitive, sensitive);
    let missing = is_missing(settings);
    lemma_first_position(definition.required_configs, missing);
    let at = first_position(definition.required_configs, missing);
    let result = validation_result(definition, nonsensitive, sensitive);
    reveal_strlit("Missing required configuration: ");
    reveal_strlit("Sensitive configuration '");
    reveal_strlit("Invalid value '");
    let head = "Missing required configuration: "@;
    assert(head[0] == 'M');
    if at < definition.required_configs.len() {
        assert(!settings.dom().contains(definition.required_configs[at].name));
        assert(result == Err::<(), Seq<char>>(head + definition.required_configs[at].name));
    } else {
        assert forall|i: int| 0 <= i < definition.required_configs.len() implies result != Err::<
            (),
            Seq<char>,
        >(head + (#[trigger] definition.required_configs[i]).name) by {
            let message = head + definition.required_configs[i].name;
            assert(message[0] == 'M');
            if result is Err {
                let other = result->Err_0;
                let misplaced = first_position(
                    definition.sensitive_configs,
                    is_misplaced(entries_map(nonsensitive)),
                );
                if misplaced < definition.sensitive_configs.len() {
                    assert("Sensitive configuration '"@[0] == 'S');
                    assert(other[0] == 'S');
                } else {
                    assert("Invalid value '"@[0] == 'I');
                    assert(other[0] == 'I');
                }
            }
        }
    }
}
impl ConnectorDefinition {
    /// The whole catalog.
    pub fn get_all_connectors() -> (r: Vec<ConnectorDefinition>)
        ensures
            definition_views(r@) == catalog(),
    {
        let all = vec![
            sources::activemq_source(),
            sources::amazon_cloudwatch_logs_source(),
            sources::amazon_dynamodb_cdc_source(),
            sources::amazon_kinesis_source(),
            sources::amazon_s3_source(),
            sources::amazon_sqs_source(),
            sources::azure_blob_storage_source(),
            sources::azure_cosmos_db_source(),
            sources::azure_cosmos_db_source_v2(),
            sources::azure_event_hubs_source(),
            sources::azure_service_bus_source(),
            sources::couchbase_source(),
            sources::datagen_source(),
            sources::github_source(),
            sources::google_cloud_pubsub_source(),
            sources::http_source(),
            sources::http_source_v2(),
            sources::ibm_mq_source(),
            sources::influxdb_2_source(),
            sources::jira_source(),
            sources::mariadb_cdc_source(),
            sources::microsoft_sql_server_cdc_source_v2(),
            sources::microsoft_sql_server_source(),
            sources::mongodb_atlas_source(),
            sources::mqtt_source(),
            sources::mysql_cdc_source_v2(),
            sources::mysql_cdc_source(),
            sources::mysql_source(),
            sources::oracle_cdc_source(),
            sources::oracle_xstream_cdc_source(),
            sources::oracle_database_source(),
            sources::postgresql_cdc_source_v2(),
            sources::postgresql_cdc_source(),
            sources::postgresql_source(),
            sources::rabbitmq_source(),
            sources::salesforce_bulk_api_source(),
            sources::salesforce_bulk_api_2_0_source(),
            sources::salesforce_cdc_source(),
            sources::salesforce_platform_event_source(),
            sources::salesforce_pushtopic_source(),
            sources::servicenow_source_v2(),
            sources::sftp_source(),
            sources::snowflake_source(),
            sources::zendesk_source(),
            sinks::alloydb_sink(),
            sinks::amazon_s3_sink(),
            sinks::snowflake_sink(),
            sinks::postgresql_sink(),
            sinks::mysql_sink(),
            sinks::microsoft_sql_server_sink(),
            sinks::oracle_sink(),
            sinks::mongodb_sink(),
            sinks::elasticsearch_sink(),
            sinks::bigquery_sink(),
            sinks::redshift_sink(),
            sinks::databricks_sink(),
            sinks::jdbc_sink(),
            sinks::splunk_sink(),
            sinks::clickhouse_sink(),
        ];
        proof {
            reveal(catalog_entry);
        }
        assert(definition_views(all@) =~= catalog());
        all
    }


    /// The connectors of one type, in the order of the catalog.
    pub fn get_connectors_by_type(connector_type: &ConnectorType) -> (r: Vec<ConnectorDefinition>)
        ensures
            definition_views(r@) == of_type(catalog(), *connector_type),
    {
        let all = Self::get_all_connectors();
        let mut out: Vec<ConnectorDefinition> = Vec::new();
        let mut i: usize = 0;
        assert(definition_views(out@) =~= Seq::empty());
        assert(catalog().subrange(0, 0) =~= Seq::empty());
        while i < all.len()
            invariant
                0 <= i <= all.len(),
                definition_views(all@) == catalog(),
                definition_views(out@) == of_type(catalog().subrange(0, i as int), *connector_type),
            decreases all.len() - i,
        {
            proof {
                let done = catalog().subrange(0, i + 1);
                assert(done.drop_last() =~= catalog().subrange(0, i as int));
                assert(done.last() == all@[i as int]@);
                reveal(Seq::filter);
            }
            let ghost before = definition_views(out@);
            if all[i].connector_type == *connector_type {
                out.push(all[i].clone());
                assert(definition_views(out@) =~= before.push(all@[i as int]@));
            }
            i = i + 1;
        }
        assert(catalog().subrange(0, all.len() as int) =~= catalog());
        out
    }

    /// The connector called `name`: its `name`, not what it is shown as.
    pub fn get_connector_by_name(name: &str) -> (r: Option<ConnectorDefinition>)
        ensures
            match r {
                Some(definition) => named(name@) == Some(definition@),
                None => named(name@) is None,
            },
    {
        let all = Self::get_all_connectors();
        let mut i: usize = 0;
        while i < all.len()
            invariant
                0 <= i <= all.len(),
                definition_views(all@) == catalog(),
                forall|j: int| 0 <= j < i ==> !has_name(name@)(#[trigger] catalog()[j]),
            decreases all.len() - i,
        {
            if text_eq(all[i].name.as_str(), name) {
                proof {
                    assert(catalog()[i as int] == all@[i as int]@);
                    lemma_first_position_is(catalog(), has_name(name@), i as int);
                }
                return Some(all[i].clone());
            }
            assert(catalog()[i as int] == all@[i as int]@);
            i = i + 1;
        }
        proof {
            lemma_first_position_is(catalog(), has_name(name@), all.len() as int);
        }
        None
    }

    /// The field that the definition has for `key`.
    pub fn field_for(&self, key: &str) -> (r: Option<&ConfigField>)
        ensures
            match r {
                Some(field) => known_field(self@, key@) == Some(field@),
                None => known_field(self@, key@) is None,
            },
    {
        let ghost fields = self@.required_configs + self@.optional_configs;
        let mut i: usize = 0;
        while i < self.required_configs.len()
            invariant
                0 <= i <= self.required_configs.len(),
                fields == self@.required_configs + self@.optional_configs,
                forall|j: int| 0 <= j < i ==> !field_named(key@)(#[trigger] fields[j]),
            decreases self.required_configs.len() - i,
        {
            assert(fields[i as int] == self.required_configs@[i as int]@);
            if text_eq(self.required_configs[i].name.as_str(), key) {
                proof {
                    lemma_first_position_is(fields, field_named(key@), i as int);
                }
                return Some(&self.required_configs[i]);
            }
            i = i + 1;
        }
        let offset: usize = self.required_configs.len();
        let mut k: usize = 0;
        while k < self.optional_configs.len()
            invariant
                0 <= k <= self.optional_configs.len(),
                offset == self.required_configs.len(),
                fields == self@.required_configs + self@.optional_configs,
                forall|j: int| 0 <= j < offset + k ==> !field_named(key@)(#[trigger] fields[j]),
            decreases self.optional_configs.len() - k,
        {
            assert(fields[offset + k] == self.optional_configs@[k as int]@);
            if text_eq(self.optional_configs[k].name.as_str(), key) {
                proof {
                    lemma_first_position_is(fields, field_named(key@), offset + k);
                }
                return Some(&self.optional_configs[k]);
            }
            k = k + 1;
        }
        proof {
            lemma_first_position_is(fields, field_named(key@), fields.len() as int);
        }
        None
    }

    /// Checks a configuration against the definition, and gives the message
    /// of the first rule that it breaks.
    pub fn validate_config(
        &self,
        config_nonsensitive: &ConfigMap,
        config_sensitive: &ConfigMap,
    ) -> (r: Result<(), String>)
        requires
            config_nonsensitive.wf(),
            config_sensitive.wf(),
        ensures
            match r {
                Ok(_) => validation_result(
                    self@,
                    config_nonsensitive.entries(),
                    config_sensitive.entries(),
                ) == Ok::<(), Seq<char>>(()),
                Err(message) => validation_result(
                    self@,
                    config_nonsensitive.entries(),
                    config_sensitive.entries(),
                ) == Err::<(), Seq<char>>(message@),
            },
    {
        let mut all_config = config_nonsensitive.clone();
        all_config.extend(config_sensitive);
        proof {
            all_config.lemma_view();
            config_nonsensitive.lemma_view();
        }
        let ghost merged = all_config.entries();
        let ghost required = self@.required_configs;
        let mut i: usize = 0;
        while i < self.required_configs.len()
            invariant
                0 <= i <= self.required_configs.len(),
                all_config.wf(),
                all_config@ == entries_map(merged),
                merged == entries_extend(
                    config_nonsensitive.entries(),
                    config_sensitive.entries(),
                ),
                required == self@.required_configs,
                forall|j: int| 0 <= j < i ==> !is_missing(all_config@)(#[trigger] required[j]),
            decreases self.required_configs.len() - i,
        {
            assert(required[i as int] == self.required_configs@[i as int]@);
            if !all_config.contains_key(self.required_configs[i].name.as_str()) {
                proof {
                    lemma_first_position_is(required, is_missing(all_config@), i as int);
                }
                return Err(
                    concat(
                        "Missing required configuration: ",
                        self.required_configs[i].name.as_str(),
                    ),
                );
            }
            i = i + 1;
        }
        proof {
            lemma_first_position_is(required, is_missing(all_config@), required.len() as int);
        }
        let ghost names = self@.sensitive_configs;
        let mut k: usize = 0;
        while k < self.sensitive_configs.len()
            invariant
                0 <= k <= self.sensitive_configs.len(),
                config_nonsensitive.wf(),
                config_nonsensitive@ == entries_map(config_nonsensitive.entries()),
                merged == entries_extend(
                    config_nonsensitive.entries(),
                    config_sensitive.entries(),
                ),
                first_position(self@.required_configs, is_missing(entries_map(merged)))
                    == self@.required_configs.len(),
                names == self@.sensitive_configs,
                forall|j: int|
                    0 <= j < k ==> !is_misplaced(config_nonsensitive@)(#[trigger] names[j]),
            decreases self.sensitive_configs.len() - k,
        {
            let name = self.sensitive_configs[k].as_str();
            assert(names[k as int] == name@);
            match config_nonsensitive.get(name) {
                Some(value) => {
                    if value.as_str().unicode_len() > 0 {
                        proof {
                            lemma_first_position_is(
                                names,
                                is_misplaced(config_nonsensitive@),
                                k as int,
                            );
                        }
                        return Err(
                            concat3(
                                "Sensitive configuration '",
                                name,
                                "' should be in config_sensitive block",
                            ),
                        );
                    }
                },
                None => {},
            }
            k = k + 1;
        }
        proof {
            lemma_first_position_is(names, is_misplaced(config_nonsensitive@), names.len() as int);
        }
        let mut n: usize = 0;
        while n < all_config.entry_count()
            invariant
                0 <= n <= merged.len(),
                merged == all_config.entries(),
                merged == entries_extend(
                    config_nonsensitive.entries(),
                    config_sensitive.entries(),
                ),
                first_position(self@.required_configs, is_missing(entries_map(merged)))
                    == self@.required_configs.len(),
                first_position(
                    self@.sensitive_configs,
                    is_misplaced(entries_map(config_nonsensitive.entries())),
                ) == self@.sensitive_configs.len(),
                forall|j: int| 0 <= j < n ==> !is_refused(self@)(#[trigger] merged[j]),
            decreases merged.len() - n,
        {
            let key = all_config.key_at(n);
            let value = all_config.value_at(n);
            match self.field_for(key.as_str()) {
                Some(field) => match &field.valid_values {
                    Some(valid_values) => {
                        if !contains_text(valid_values, value.as_str()) {
                            proof {
                                lemma_first_position_is(merged, is_refused(self@), n as int);
                            }
                            let head = concat3("Invalid value '", value.as_str(), "' for field '");
                            let middle = concat3(head.as_str(), key.as_str(), "'. Valid values: ");
                            let listed = debug_list(valid_values);
                            return Err(concat(middle.as_str(), listed.as_str()));
                        }
                    },
                    None => {},
                },
                None => {},
            }
            n = n + 1;
        }
        proof {
            lemma_first_position_is(merged, is_refused(self@), merged.len() as int);
        }
        Ok(())
    }
}

} // verus!
